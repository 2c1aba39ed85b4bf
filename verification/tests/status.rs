use pods::status::{health_status, status, HealthStatus, Status};

#[test]
fn status_from_known_strings() {
    let cases = [
        ("created", Status::Created),
        ("dead", Status::Dead),
        ("exited", Status::Exited),
        ("paused", Status::Paused),
        ("removing", Status::Removing),
        ("restarting", Status::Restarting),
        ("running", Status::Running),
        ("stopped", Status::Stopped),
        ("stopping", Status::Stopping),
    ];
    for (s, st) in cases {
        assert_eq!(Status::from_str(s), Ok(st));
    }
}

#[test]
fn status_from_unknown_string_is_refused_with_unknown() {
    assert_eq!(Status::from_str("Running"), Err(Status::Unknown));
    assert_eq!(Status::from_str(""), Err(Status::Unknown));
    assert_eq!(Status::from_str("unknown"), Err(Status::Unknown));
    assert_eq!(Status::from_str("running "), Err(Status::Unknown));
}

#[test]
fn health_status_from_strings() {
    assert_eq!(HealthStatus::from_str("starting"), Ok(HealthStatus::Starting));
    assert_eq!(HealthStatus::from_str("healthy"), Ok(HealthStatus::Healthy));
    assert_eq!(HealthStatus::from_str("unhealthy"), Ok(HealthStatus::Unhealthy));
    assert_eq!(HealthStatus::from_str(""), Ok(HealthStatus::Unconfigured));
    assert_eq!(HealthStatus::from_str("sick"), Err(HealthStatus::Unknown));
}

#[test]
fn optional_status_strings() {
    assert_eq!(status(None), Status::Unknown);
    assert_eq!(status(Some("exited")), Status::Exited);
    assert_eq!(status(Some("bogus")), Status::Unknown);
    assert_eq!(health_status(None), HealthStatus::Unknown);
    assert_eq!(health_status(Some("")), HealthStatus::Unconfigured);
    assert_eq!(health_status(Some("healthy")), HealthStatus::Healthy);
    assert_eq!(health_status(Some("bogus")), HealthStatus::Unknown);
}

#[test]
fn defaults_are_unknown() {
    assert_eq!(Status::default(), Status::Unknown);
    assert_eq!(HealthStatus::default(), HealthStatus::Unknown);
}

#[test]
fn labels() {
    assert_eq!(Status::Running.msgid(), "Running");
    assert_eq!(Status::Unknown.msgid(), "Unknown");
    assert_eq!(HealthStatus::Starting.msgid(), "Checking");
    assert_eq!(HealthStatus::Unconfigured.msgid(), "Unconfigured");
}

#[test]
fn status_label_lowercased_reads_back() {
    let all = [
        Status::Created,
        Status::Dead,
        Status::Exited,
        Status::Paused,
        Status::Removing,
        Status::Restarting,
        Status::Running,
        Status::Stopped,
        Status::Stopping,
    ];
    for st in all {
        assert_eq!(Status::from_str(&st.msgid().to_lowercase()), Ok(st));
    }
    assert_eq!(Status::from_str(&Status::Unknown.msgid().to_lowercase()), Err(Status::Unknown));
}
