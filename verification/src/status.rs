use vstd::prelude::*;

use crate::text::str_eq;

verus! {

/// The run state of a container as Podman reports it.
#[derive(Debug, Clone, Copy, PartialEq, Eq, Structural)]
pub enum Status {
    Created,
    Dead,
    Exited,
    Paused,
    Removing,
    Restarting,
    Running,
    Stopped,
    Stopping,
    Unknown,
}

/// The health-check state of a container as Podman reports it.
#[derive(Debug, Clone, Copy, PartialEq, Eq, Structural)]
pub enum HealthStatus {
    Starting,
    Healthy,
    Unhealthy,
    Unconfigured,
    Unknown,
}

/// The status that a Podman state string names, if it names one.
pub open spec fn spec_status_of(s: Seq<char>) -> Option<Status> {
    if s == "created"@ {
        Some(Status::Created)
    } else if s == "dead"@ {
        Some(Status::Dead)
    } else if s == "exited"@ {
        Some(Status::Exited)
    } else if s == "paused"@ {
        Some(Status::Paused)
    } else if s == "removing"@ {
        Some(Status::Removing)
    } else if s == "restarting"@ {
        Some(Status::Restarting)
    } else if s == "running"@ {
        Some(Status::Running)
    } else if s == "stopped"@ {
        Some(Status::Stopped)
    } else if s == "stopping"@ {
        Some(Status::Stopping)
    } else {
        None
    }
}

/// The health status that a Podman health string names, if it names one.
/// The empty string means that no health check is configured.
pub open spec fn spec_health_status_of(s: Seq<char>) -> Option<HealthStatus> {
    if s == "starting"@ {
        Some(HealthStatus::Starting)
    } else if s == "healthy"@ {
        Some(HealthStatus::Healthy)
    } else if s == "unhealthy"@ {
        Some(HealthStatus::Unhealthy)
    } else if s == ""@ {
        Some(HealthStatus::Unconfigured)
    } else {
        None
    }
}

/// The state string that Podman uses for a status; `Unknown` has none.
pub open spec fn spec_status_key(st: Status) -> Option<Seq<char>> {
    match st {
        Status::Created => Some("created"@),
        Status::Dead => Some("dead"@),
        Status::Exited => Some("exited"@),
        Status::Paused => Some("paused"@),
        Status::Removing => Some("removing"@),
        Status::Restarting => Some("restarting"@),
        Status::Running => Some("running"@),
        Status::Stopped => Some("stopped"@),
        Status::Stopping => Some("stopping"@),
        Status::Unknown => None,
    }
}

/// The health string that Podman uses for a health status; `Unknown` has none.
pub open spec fn spec_health_status_key(st: HealthStatus) -> Option<Seq<char>> {
    match st {
        HealthStatus::Starting => Some("starting"@),
        HealthStatus::Healthy => Some("healthy"@),
        HealthStatus::Unhealthy => Some("unhealthy"@),
        HealthStatus::Unconfigured => Some(""@),
        HealthStatus::Unknown => None,
    }
}

/// The untranslated label under which a status is shown.
pub open spec fn spec_status_msgid(st: Status) -> Seq<char> {
    match st {
        Status::Created => "Created"@,
        Status::Dead => "Dead"@,
        Status::Exited => "Exited"@,
        Status::Paused => "Paused"@,
        Status::Removing => "Removing"@,
        Status::Restarting => "Restarting"@,
        Status::Running => "Running"@,
        Status::Stopped => "Stopped"@,
        Status::Stopping => "Stopping"@,
        Status::Unknown => "Unknown"@,
    }
}

/// The untranslated label under which a health status is shown.
pub open spec fn spec_health_status_msgid(st: HealthStatus) -> Seq<char> {
    match st {
        HealthStatus::Starting => "Checking"@,
        HealthStatus::Healthy => "Healthy"@,
        HealthStatus::Unhealthy => "Unhealthy"@,
        HealthStatus::Unconfigured => "Unconfigured"@,
        HealthStatus::Unknown => "Unknown"@,
    }
}

/// What `status` makes of an optional state string.
pub open spec fn spec_status(s: Option<Seq<char>>) -> Status {
    match s {
        None => Status::Unknown,
        Some(s) => match spec_status_of(s) {
            Some(st) => st,
            None => Status::Unknown,
        },
    }
}

/// What `health_status` makes of an optional health string.
pub open spec fn spec_health_status(s: Option<Seq<char>>) -> HealthStatus {
    match s {
        None => HealthStatus::Unknown,
        Some(s) => match spec_health_status_of(s) {
            Some(st) => st,
            None => HealthStatus::Unknown,
        },
    }
}

/// The view of an optional string slice.
pub open spec fn opt_str_view(s: Option<&str>) -> Option<Seq<char>> {
    match s {
        Some(s) => Some(s@),
        None => None,
    }
}

impl Status {
    /// Parses a Podman state string. An unrecognised string is refused
    /// with `Unknown` as the error value.
    pub fn from_str(s: &str) -> (r: Result<Status, Status>)
        ensures
            r == (match spec_status_of(s@) {
                Some(st) => Ok(st),
                None => Err(Status::Unknown),
            }),
    {
        if str_eq(s, "created") {
            Ok(Status::Created)
        } else if str_eq(s, "dead") {
            Ok(Status::Dead)
        } else if str_eq(s, "exited") {
            Ok(Status::Exited)
        } else if str_eq(s, "paused") {
            Ok(Status::Paused)
        } else if str_eq(s, "removing") {
            Ok(Status::Removing)
        } else if str_eq(s, "restarting") {
            Ok(Status::Restarting)
        } else if str_eq(s, "running") {
            Ok(Status::Running)
        } else if str_eq(s, "stopped") {
            Ok(Status::Stopped)
        } else if str_eq(s, "stopping") {
            Ok(Status::Stopping)
        } else {
            Err(Status::Unknown)
        }
    }

    /// The untranslated label of this status.
    pub fn msgid(&self) -> (m: &'static str)
        ensures
            m@ == spec_status_msgid(*self),
    {
        match self {
            Status::Created => "Created",
            Status::Dead => "Dead",
            Status::Exited => "Exited",
            Status::Paused => "Paused",
            Status::Removing => "Removing",
            Status::Restarting => "Restarting",
            Status::Running => "Running",
            Status::Stopped => "Stopped",
            Status::Stopping => "Stopping",
            Status::Unknown => "Unknown",
        }
    }
}

impl HealthStatus {
    /// Parses a Podman health string; the empty string means that no health
    /// check is configured. An unrecognised string is refused with `Unknown`
    /// as the error value.
    pub fn from_str(s: &str) -> (r: Result<HealthStatus, HealthStatus>)
        ensures
            r == (match spec_health_status_of(s@) {
                Some(st) => Ok(st),
                None => Err(HealthStatus::Unknown),
            }),
    {
        if str_eq(s, "starting") {
            Ok(HealthStatus::Starting)
        } else if str_eq(s, "healthy") {
            Ok(HealthStatus::Healthy)
        } else if str_eq(s, "unhealthy") {
            Ok(HealthStatus::Unhealthy)
        } else if str_eq(s, "") {
            Ok(HealthStatus::Unconfigured)
        } else {
            Err(HealthStatus::Unknown)
        }
    }

    /// The untranslated label of this health status.
    pub fn msgid(&self) -> (m: &'static str)
        ensures
            m@ == spec_health_status_msgid(*self),
    {
        match self {
            HealthStatus::Starting => "Checking",
            HealthStatus::Healthy => "Healthy",
            HealthStatus::Unhealthy => "Unhealthy",
            HealthStatus::Unconfigured => "Unconfigured",
            HealthStatus::Unknown => "Unknown",
        }
    }
}

impl Default for Status {
    fn default() -> (st: Status)
        ensures
            st == Status::Unknown,
    {
        Status::Unknown
    }
}

impl Default for HealthStatus {
    fn default() -> (st: HealthStatus)
        ensures
            st == HealthStatus::Unknown,
    {
        HealthStatus::Unknown
    }
}

/// Reads an optional Podman state string: a missing one and an unknown one
/// both give `Unknown`.
pub fn status(s: Option<&str>) -> (st: Status)
    ensures
        st == spec_status(opt_str_view(s)),
{
    match s {
        None => Status::Unknown,
        Some(s) => match Status::from_str(s) {
            Ok(st) => st,
            Err(st) => st,
        },
    }
}

/// Reads an optional Podman health string: a missing one and an unknown one
/// both give `Unknown`, an empty one gives `Unconfigured`.
pub fn health_status(s: Option<&str>) -> (st: HealthStatus)
    ensures
        st == spec_health_status(opt_str_view(s)),
{
    match s {
        None => HealthStatus::Unknown,
        Some(s) => match HealthStatus::from_str(s) {
            Ok(st) => st,
            Err(st) => st,
        },
    }
}

/// Law: every status but `Unknown` is read back from the state string that
/// Podman uses for it, and a string is read as that status only if it is
/// that string.
pub proof fn lemma_status_key_round_trip(st: Status, s: Seq<char>)
    ensures
        spec_status_key(st) matches Some(k) ==> spec_status_of(k) == Some(st),
        spec_status_of(s) == Some(st) ==> spec_status_key(st) == Some(s),
        spec_status_of(s) != Some(Status::Unknown),
{
    reveal_strlit("created");
    reveal_strlit("dead");
    reveal_strlit("exited");
    reveal_strlit("paused");
    reveal_strlit("removing");
    reveal_strlit("restarting");
    reveal_strlit("running");
    reveal_strlit("stopped");
    reveal_strlit("stopping");
    assert("created"@[0] != "dead"@[0]);
    assert("exited"@[0] != "created"@[0] && "exited"@[0] != "dead"@[0]);
    assert("paused"@[0] != "created"@[0] && "paused"@[0] != "dead"@[0] && "paused"@[0]
        != "exited"@[0]);
    assert("removing"@[0] != "created"@[0] && "removing"@[0] != "dead"@[0] && "removing"@[0]
        != "exited"@[0] && "removing"@[0] != "paused"@[0]);
    assert("restarting"@[0] != "created"@[0] && "restarting"@[0] != "dead"@[0]
        && "restarting"@[0] != "exited"@[0] && "restarting"@[0] != "paused"@[0]
        && "restarting"@[2] != "removing"@[2]);
    assert("running"@[0] != "created"@[0] && "running"@[0] != "dead"@[0] && "running"@[0]
        != "exited"@[0] && "running"@[0] != "paused"@[0] && "running"@[1] != "removing"@[1]
        && "running"@[1] != "restarting"@[1]);
    assert("stopped"@[0] != "created"@[0] && "stopped"@[0] != "dead"@[0] && "stopped"@[0]
        != "exited"@[0] && "stopped"@[0] != "paused"@[0] && "stopped"@[0] != "removing"@[0]
        && "stopped"@[0] != "restarting"@[0] && "stopped"@[0] != "running"@[0]);
    assert("stopping"@[0] != "created"@[0] && "stopping"@[0] != "dead"@[0] && "stopping"@[0]
        != "exited"@[0] && "stopping"@[0] != "paused"@[0] && "stopping"@[0] != "removing"@[0]
        && "stopping"@[0] != "restarting"@[0] && "stopping"@[0] != "running"@[0]
        && "stopping"@[5] != "stopped"@[5]);
}

/// Law: every health status but `Unknown` is read back from the health
/// string that Podman uses for it, and a string is read as that health
/// status only if it is that string.
pub proof fn lemma_health_status_key_round_trip(st: HealthStatus, s: Seq<char>)
    ensures
        spec_health_status_key(st) matches Some(k) ==> spec_health_status_of(k) == Some(st),
        spec_health_status_of(s) == Some(st) ==> spec_health_status_key(st) == Some(s),
        spec_health_status_of(s) != Some(HealthStatus::Unknown),
{
    reveal_strlit("starting");
    reveal_strlit("healthy");
    reveal_strlit("unhealthy");
    reveal_strlit("");
    assert("healthy"@[0] != "starting"@[0]);
    assert("unhealthy"@[0] != "starting"@[0] && "unhealthy"@[0] != "healthy"@[0]);
    assert(""@.len() != "starting"@.len() && ""@.len() != "healthy"@.len() && ""@.len()
        != "unhealthy"@.len());
}


/// Text `s` with its ASCII capital letters made small.
pub open spec fn spec_ascii_lowercase(s: Seq<char>) -> Seq<char> {
    s.map_values(|ch: char| if 'A' <= ch && ch <= 'Z' { ((ch as u32) + 32) as char } else { ch })
}

/// Law: the untranslated label of every status but `Unknown`, lower-cased,
/// is the state string that Podman uses for it, and so reads back as that
/// status.
pub proof fn lemma_status_label_reads_back(st: Status)
    requires
        st != Status::Unknown,
    ensures
        Some(spec_ascii_lowercase(spec_status_msgid(st))) == spec_status_key(st),
        spec_status_of(spec_ascii_lowercase(spec_status_msgid(st))) == Some(st),
{
    lemma_status_key_round_trip(st, Seq::empty());
    match st {
        Status::Created => {
            reveal_strlit("Created");
            reveal_strlit("created");
            assert(spec_ascii_lowercase("Created"@) =~= "created"@);
        },
        Status::Dead => {
            reveal_strlit("Dead");
            reveal_strlit("dead");
            assert(spec_ascii_lowercase("Dead"@) =~= "dead"@);
        },
        Status::Exited => {
            reveal_strlit("Exited");
            reveal_strlit("exited");
            assert(spec_ascii_lowercase("Exited"@) =~= "exited"@);
        },
        Status::Paused => {
            reveal_strlit("Paused");
            reveal_strlit("paused");
            assert(spec_ascii_lowercase("Paused"@) =~= "paused"@);
        },
        Status::Removing => {
            reveal_strlit("Removing");
            reveal_strlit("removing");
            assert(spec_ascii_lowercase("Removing"@) =~= "removing"@);
        },
        Status::Restarting => {
            reveal_strlit("Restarting");
            reveal_strlit("restarting");
            assert(spec_ascii_lowercase("Restarting"@) =~= "restarting"@);
        },
        Status::Running => {
            reveal_strlit("Running");
            reveal_strlit("running");
            assert(spec_ascii_lowercase("Running"@) =~= "running"@);
        },
        Status::Stopped => {
            reveal_strlit("Stopped");
            reveal_strlit("stopped");
            assert(spec_ascii_lowercase("Stopped"@) =~= "stopped"@);
        },
        Status::Stopping => {
            reveal_strlit("Stopping");
            reveal_strlit("stopping");
            assert(spec_ascii_lowercase("Stopping"@) =~= "stopping"@);
        },
        Status::Unknown => {},
    }
}


/// Law: `status` reads every state string that Podman uses as the status it
/// names, and anything else, or nothing, as `Unknown`.
pub proof fn lemma_status_reads_podman_strings(st: Status, s: Seq<char>)
    ensures
        spec_status_key(st) matches Some(k) ==> spec_status(Some(k)) == st,
        spec_status_of(s) == Some(st) ==> spec_status(Some(s)) == st && spec_status_key(st) == Some(s),
        spec_status_of(s) is None ==> spec_status(Some(s)) == Status::Unknown,
        spec_status(None) == Status::Unknown,
{
    lemma_status_key_round_trip(st, s);
}

/// Law: `health_status` reads every health string that Podman uses as the
/// health status it names, and anything else, or nothing, as `Unknown`.
pub proof fn lemma_health_status_reads_podman_strings(st: HealthStatus, s: Seq<char>)
    ensures
        spec_health_status_key(st) matches Some(k) ==> spec_health_status(Some(k)) == st,
        spec_health_status_of(s) == Some(st) ==> spec_health_status(Some(s)) == st
            && spec_health_status_key(st) == Some(s),
        spec_health_status_of(s) is None ==> spec_health_status(Some(s)) == HealthStatus::Unknown,
        spec_health_status(None) == HealthStatus::Unknown,
{
    lemma_health_status_key_round_trip(st, s);
}

/// Law: distinct statuses have distinct labels.
pub proof fn lemma_status_labels_distinct(a: Status, b: Status)
    ensures
        a != b ==> spec_status_msgid(a) != spec_status_msgid(b),
{
    if a != b && a != Status::Unknown && b != Status::Unknown {
        lemma_status_label_reads_back(a);
        lemma_status_label_reads_back(b);
    }
    reveal_strlit("Created");
    reveal_strlit("Dead");
    reveal_strlit("Exited");
    reveal_strlit("Paused");
    reveal_strlit("Removing");
    reveal_strlit("Restarting");
    reveal_strlit("Running");
    reveal_strlit("Stopped");
    reveal_strlit("Stopping");
    reveal_strlit("Unknown");
    assert("Unknown"@[0] == 'U');
    assert("Created"@[0] == 'C' && "Dead"@[0] == 'D' && "Exited"@[0] == 'E' && "Paused"@[0] == 'P'
        && "Removing"@[0] == 'R' && "Restarting"@[0] == 'R' && "Running"@[0] == 'R' && "Stopped"@[0]
        == 'S' && "Stopping"@[0] == 'S');
}

/// Law: distinct health statuses have distinct labels, and the label of a
/// passing or failing health check, lower-cased, is the health string that
/// Podman uses for it.
pub proof fn lemma_health_status_labels(a: HealthStatus, b: HealthStatus)
    ensures
        a != b ==> spec_health_status_msgid(a) != spec_health_status_msgid(b),
        Some(spec_ascii_lowercase(spec_health_status_msgid(HealthStatus::Healthy)))
            == spec_health_status_key(HealthStatus::Healthy),
        Some(spec_ascii_lowercase(spec_health_status_msgid(HealthStatus::Unhealthy)))
            == spec_health_status_key(HealthStatus::Unhealthy),
{
    reveal_strlit("Checking");
    reveal_strlit("Healthy");
    reveal_strlit("Unhealthy");
    reveal_strlit("Unconfigured");
    reveal_strlit("Unknown");
    reveal_strlit("healthy");
    reveal_strlit("unhealthy");
    assert("Checking"@[0] == 'C' && "Healthy"@[0] == 'H' && "Unhealthy"@[0] == 'U'
        && "Unconfigured"@[0] == 'U' && "Unknown"@[0] == 'U');
    assert("Unhealthy"@[2] == 'h' && "Unconfigured"@[2] == 'c' && "Unknown"@[2] == 'k');
    assert(spec_ascii_lowercase("Healthy"@) =~= "healthy"@);
    assert(spec_ascii_lowercase("Unhealthy"@) =~= "unhealthy"@);
}

} // verus!
