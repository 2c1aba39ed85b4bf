use vstd::prelude::*;

use crate::param::{
    construct_notify, construct_only, read_only, readwrite, readwrite_notify, spec_construct_notify,
    spec_construct_only, spec_read_only, spec_readwrite, spec_readwrite_notify, BoxedClass, EnumClass,
    ObjectClass, ObjectRef, ParamKind, ParamSpec, ParamSpecView,
};
use crate::status::{
    health_status, spec_health_status, spec_status, status, HealthStatus, Status,
};
use crate::text::{push_decimal, spec_decimal, str_eq};

verus! {

/// A property of a container object.
#[derive(Debug, Clone, Copy, PartialEq, Eq, Structural)]
pub enum ContainerProperty {
    ContainerList,
    ActionOngoing,
    Deleted,
    Created,
    HealthStatus,
    Id,
    Image,
    ImageId,
    ImageName,
    Name,
    Pod,
    PodId,
    PortBindings,
    Stats,
    Status,
    UpSince,
    Data,
    Selected,
}

impl ContainerProperty {
    /// The declaration of this property.
    pub open spec fn spec_param(self) -> ParamSpecView {
        match self {
            ContainerProperty::ContainerList => ParamSpecView {
                name: "container-list"@,
                nick: "Container List"@,
                blurb: "The parent container list"@,
                kind: ParamKind::Object(ObjectClass::ContainerList),
                flags: spec_construct_only(),
            },
            ContainerProperty::ActionOngoing => ParamSpecView {
                name: "action-ongoing"@,
                nick: "Action Ongoing"@,
                blurb: "Whether an action (starting, stopping, etc.) is currently ongoing"@,
                kind: ParamKind::Boolean(false),
                flags: spec_readwrite_notify(),
            },
            ContainerProperty::Deleted => ParamSpecView {
                name: "deleted"@,
                nick: "Deleted"@,
                blurb: "Whether this container is deleted"@,
                kind: ParamKind::Boolean(false),
                flags: spec_readwrite_notify(),
            },
            ContainerProperty::Created => ParamSpecView {
                name: "created"@,
                nick: "Created"@,
                blurb: "The time when this container was created"@,
                kind: ParamKind::Int64 { min: i64::MIN, max: i64::MAX, default: 0 },
                flags: spec_construct_only(),
            },
            ContainerProperty::HealthStatus => ParamSpecView {
                name: "health-status"@,
                nick: "Health Status"@,
                blurb: "The status of this container"@,
                kind: ParamKind::Enum(EnumClass::ContainerHealthStatus),
                flags: spec_construct_notify(),
            },
            ContainerProperty::Id => ParamSpecView {
                name: "id"@,
                nick: "Id"@,
                blurb: "The id of this container"@,
                kind: ParamKind::Text,
                flags: spec_construct_only(),
            },
            ContainerProperty::Image => ParamSpecView {
                name: "image"@,
                nick: "Image"@,
                blurb: "The image of this container"@,
                kind: ParamKind::Object(ObjectClass::Image),
                flags: spec_readwrite_notify(),
            },
            ContainerProperty::ImageId => ParamSpecView {
                name: "image-id"@,
                nick: "Image Id"@,
                blurb: "The image id of this container"@,
                kind: ParamKind::Text,
                flags: spec_construct_only(),
            },
            ContainerProperty::ImageName => ParamSpecView {
                name: "image-name"@,
                nick: "Image Name"@,
                blurb: "The name of the image of this container"@,
                kind: ParamKind::Text,
                flags: spec_construct_notify(),
            },
            ContainerProperty::Name => ParamSpecView {
                name: "name"@,
                nick: "Name"@,
                blurb: "The name of this container"@,
                kind: ParamKind::Text,
                flags: spec_construct_notify(),
            },
            ContainerProperty::Pod => ParamSpecView {
                name: "pod"@,
                nick: "Pod"@,
                blurb: "The potential pod of this container"@,
                kind: ParamKind::Object(ObjectClass::Pod),
                flags: spec_readwrite_notify(),
            },
            ContainerProperty::PodId => ParamSpecView {
                name: "pod-id"@,
                nick: "Pod Id"@,
                blurb: "The pod id of this container"@,
                kind: ParamKind::Text,
                flags: spec_construct_only(),
            },
            ContainerProperty::PortBindings => ParamSpecView {
                name: "port-bindings"@,
                nick: "Port Bindings"@,
                blurb: "The port bindings of this container"@,
                kind: ParamKind::Boxed(BoxedClass::StringVec),
                flags: spec_construct_only(),
            },
            ContainerProperty::Stats => ParamSpecView {
                name: "stats"@,
                nick: "Stats"@,
                blurb: "The statistics of this container"@,
                kind: ParamKind::Boxed(BoxedClass::ContainerStats),
                flags: spec_readwrite_notify(),
            },
            ContainerProperty::Status => ParamSpecView {
                name: "status"@,
                nick: "Status"@,
                blurb: "The status of this container"@,
                kind: ParamKind::Enum(EnumClass::ContainerStatus),
                flags: spec_construct_notify(),
            },
            ContainerProperty::UpSince => ParamSpecView {
                name: "up-since"@,
                nick: "Up Since"@,
                blurb: "The time since the container is running"@,
                kind: ParamKind::Int64 { min: i64::MIN, max: i64::MAX, default: 0 },
                flags: spec_construct_notify(),
            },
            ContainerProperty::Data => ParamSpecView {
                name: "data"@,
                nick: "Data"@,
                blurb: "the data of the image"@,
                kind: ParamKind::Object(ObjectClass::ContainerData),
                flags: spec_read_only(),
            },
            ContainerProperty::Selected => ParamSpecView {
                name: "selected"@,
                nick: "Selected"@,
                blurb: "Whether this container is selected"@,
                kind: ParamKind::Boolean(false),
                flags: spec_readwrite(),
            },
        }
    }

    /// The declaration of this property, as the object class installs it.
    pub fn param_spec(&self) -> (ps: ParamSpec)
        ensures
            ps@ == self.spec_param(),
    {
        match self {
            ContainerProperty::ContainerList => ParamSpec {
                name: "container-list",
                nick: "Container List",
                blurb: "The parent container list",
                kind: ParamKind::Object(ObjectClass::ContainerList),
                flags: construct_only(),
            },
            ContainerProperty::ActionOngoing => ParamSpec {
                name: "action-ongoing",
                nick: "Action Ongoing",
                blurb: "Whether an action (starting, stopping, etc.) is currently ongoing",
                kind: ParamKind::Boolean(false),
                flags: readwrite_notify(),
            },
            ContainerProperty::Deleted => ParamSpec {
                name: "deleted",
                nick: "Deleted",
                blurb: "Whether this container is deleted",
                kind: ParamKind::Boolean(false),
                flags: readwrite_notify(),
            },
            ContainerProperty::Created => ParamSpec {
                name: "created",
                nick: "Created",
                blurb: "The time when this container was created",
                kind: ParamKind::Int64 { min: i64::MIN, max: i64::MAX, default: 0 },
                flags: construct_only(),
            },
            ContainerProperty::HealthStatus => ParamSpec {
                name: "health-status",
                nick: "Health Status",
                blurb: "The status of this container",
                kind: ParamKind::Enum(EnumClass::ContainerHealthStatus),
                flags: construct_notify(),
            },
            ContainerProperty::Id => ParamSpec {
                name: "id",
                nick: "Id",
                blurb: "The id of this container",
                kind: ParamKind::Text,
                flags: construct_only(),
            },
            ContainerProperty::Image => ParamSpec {
                name: "image",
                nick: "Image",
                blurb: "The image of this container",
                kind: ParamKind::Object(ObjectClass::Image),
                flags: readwrite_notify(),
            },
            ContainerProperty::ImageId => ParamSpec {
                name: "image-id",
                nick: "Image Id",
                blurb: "The image id of this container",
                kind: ParamKind::Text,
                flags: construct_only(),
            },
            ContainerProperty::ImageName => ParamSpec {
                name: "image-name",
                nick: "Image Name",
                blurb: "The name of the image of this container",
                kind: ParamKind::Text,
                flags: construct_notify(),
            },
            ContainerProperty::Name => ParamSpec {
                name: "name",
                nick: "Name",
                blurb: "The name of this container",
                kind: ParamKind::Text,
                flags: construct_notify(),
            },
            ContainerProperty::Pod => ParamSpec {
                name: "pod",
                nick: "Pod",
                blurb: "The potential pod of this container",
                kind: ParamKind::Object(ObjectClass::Pod),
                flags: readwrite_notify(),
            },
            ContainerProperty::PodId => ParamSpec {
                name: "pod-id",
                nick: "Pod Id",
                blurb: "The pod id of this container",
                kind: ParamKind::Text,
                flags: construct_only(),
            },
            ContainerProperty::PortBindings => ParamSpec {
                name: "port-bindings",
                nick: "Port Bindings",
                blurb: "The port bindings of this container",
                kind: ParamKind::Boxed(BoxedClass::StringVec),
                flags: construct_only(),
            },
            ContainerProperty::Stats => ParamSpec {
                name: "stats",
                nick: "Stats",
                blurb: "The statistics of this container",
                kind: ParamKind::Boxed(BoxedClass::ContainerStats),
                flags: readwrite_notify(),
            },
            ContainerProperty::Status => ParamSpec {
                name: "status",
                nick: "Status",
                blurb: "The status of this container",
                kind: ParamKind::Enum(EnumClass::ContainerStatus),
                flags: construct_notify(),
            },
            ContainerProperty::UpSince => ParamSpec {
                name: "up-since",
                nick: "Up Since",
                blurb: "The time since the container is running",
                kind: ParamKind::Int64 { min: i64::MIN, max: i64::MAX, default: 0 },
                flags: construct_notify(),
            },
            ContainerProperty::Data => ParamSpec {
                name: "data",
                nick: "Data",
                blurb: "the data of the image",
                kind: ParamKind::Object(ObjectClass::ContainerData),
                flags: read_only(),
            },
            ContainerProperty::Selected => ParamSpec {
                name: "selected",
                nick: "Selected",
                blurb: "Whether this container is selected",
                kind: ParamKind::Boolean(false),
                flags: readwrite(),
            },
        }
    }

    /// The name of this property.
    pub fn name(&self) -> (n: &'static str)
        ensures
            n@ == self.spec_param().name,
    {
        match self {
            ContainerProperty::ContainerList => "container-list",
            ContainerProperty::ActionOngoing => "action-ongoing",
            ContainerProperty::Deleted => "deleted",
            ContainerProperty::Created => "created",
            ContainerProperty::HealthStatus => "health-status",
            ContainerProperty::Id => "id",
            ContainerProperty::Image => "image",
            ContainerProperty::ImageId => "image-id",
            ContainerProperty::ImageName => "image-name",
            ContainerProperty::Name => "name",
            ContainerProperty::Pod => "pod",
            ContainerProperty::PodId => "pod-id",
            ContainerProperty::PortBindings => "port-bindings",
            ContainerProperty::Stats => "stats",
            ContainerProperty::Status => "status",
            ContainerProperty::UpSince => "up-since",
            ContainerProperty::Data => "data",
            ContainerProperty::Selected => "selected",
        }
    }

    /// The property that a name designates, if any.
    pub open spec fn spec_named(s: Seq<char>) -> Option<ContainerProperty> {
        if s == "container-list"@ {
            Some(ContainerProperty::ContainerList)
        } else if s == "action-ongoing"@ {
            Some(ContainerProperty::ActionOngoing)
        } else if s == "deleted"@ {
            Some(ContainerProperty::Deleted)
        } else if s == "created"@ {
            Some(ContainerProperty::Created)
        } else if s == "health-status"@ {
            Some(ContainerProperty::HealthStatus)
        } else if s == "id"@ {
            Some(ContainerProperty::Id)
        } else if s == "image"@ {
            Some(ContainerProperty::Image)
        } else if s == "image-id"@ {
            Some(ContainerProperty::ImageId)
        } else if s == "image-name"@ {
            Some(ContainerProperty::ImageName)
        } else if s == "name"@ {
            Some(ContainerProperty::Name)
        } else if s == "pod"@ {
            Some(ContainerProperty::Pod)
        } else if s == "pod-id"@ {
            Some(ContainerProperty::PodId)
        } else if s == "port-bindings"@ {
            Some(ContainerProperty::PortBindings)
        } else if s == "stats"@ {
            Some(ContainerProperty::Stats)
        } else if s == "status"@ {
            Some(ContainerProperty::Status)
        } else if s == "up-since"@ {
            Some(ContainerProperty::UpSince)
        } else if s == "data"@ {
            Some(ContainerProperty::Data)
        } else if s == "selected"@ {
            Some(ContainerProperty::Selected)
        } else {
            None
        }
    }

    /// Looks a property up by its name.
    pub fn from_name(s: &str) -> (p: Option<ContainerProperty>)
        ensures
            p == ContainerProperty::spec_named(s@),
    {
        if str_eq(s, "container-list") {
            Some(ContainerProperty::ContainerList)
        } else if str_eq(s, "action-ongoing") {
            Some(ContainerProperty::ActionOngoing)
        } else if str_eq(s, "deleted") {
            Some(ContainerProperty::Deleted)
        } else if str_eq(s, "created") {
            Some(ContainerProperty::Created)
        } else if str_eq(s, "health-status") {
            Some(ContainerProperty::HealthStatus)
        } else if str_eq(s, "id") {
            Some(ContainerProperty::Id)
        } else if str_eq(s, "image") {
            Some(ContainerProperty::Image)
        } else if str_eq(s, "image-id") {
            Some(ContainerProperty::ImageId)
        } else if str_eq(s, "image-name") {
            Some(ContainerProperty::ImageName)
        } else if str_eq(s, "name") {
            Some(ContainerProperty::Name)
        } else if str_eq(s, "pod") {
            Some(ContainerProperty::Pod)
        } else if str_eq(s, "pod-id") {
            Some(ContainerProperty::PodId)
        } else if str_eq(s, "port-bindings") {
            Some(ContainerProperty::PortBindings)
        } else if str_eq(s, "stats") {
            Some(ContainerProperty::Stats)
        } else if str_eq(s, "status") {
            Some(ContainerProperty::Status)
        } else if str_eq(s, "up-since") {
            Some(ContainerProperty::UpSince)
        } else if str_eq(s, "data") {
            Some(ContainerProperty::Data)
        } else if str_eq(s, "selected") {
            Some(ContainerProperty::Selected)
        } else {
            None
        }
    }

    /// All properties, in the order in which the class installs them.
    pub open spec fn spec_all() -> Seq<ContainerProperty> {
        seq![ContainerProperty::ContainerList, ContainerProperty::ActionOngoing, ContainerProperty::Deleted, ContainerProperty::Created, ContainerProperty::HealthStatus, ContainerProperty::Id, ContainerProperty::Image, ContainerProperty::ImageId, ContainerProperty::ImageName, ContainerProperty::Name, ContainerProperty::Pod, ContainerProperty::PodId, ContainerProperty::PortBindings, ContainerProperty::Stats, ContainerProperty::Status, ContainerProperty::UpSince, ContainerProperty::Data, ContainerProperty::Selected]
    }

    /// All properties, in the order in which the class installs them.
    pub fn all() -> (ps: Vec<ContainerProperty>)
        ensures
            ps@ == ContainerProperty::spec_all(),
    {
        let mut ps = Vec::new();
        ps.push(ContainerProperty::ContainerList);
        ps.push(ContainerProperty::ActionOngoing);
        ps.push(ContainerProperty::Deleted);
        ps.push(ContainerProperty::Created);
        ps.push(ContainerProperty::HealthStatus);
        ps.push(ContainerProperty::Id);
        ps.push(ContainerProperty::Image);
        ps.push(ContainerProperty::ImageId);
        ps.push(ContainerProperty::ImageName);
        ps.push(ContainerProperty::Name);
        ps.push(ContainerProperty::Pod);
        ps.push(ContainerProperty::PodId);
        ps.push(ContainerProperty::PortBindings);
        ps.push(ContainerProperty::Stats);
        ps.push(ContainerProperty::Status);
        ps.push(ContainerProperty::UpSince);
        ps.push(ContainerProperty::Data);
        ps.push(ContainerProperty::Selected);
        assert(ps@ =~= ContainerProperty::spec_all());
        ps
    }

    /// The declarations of all properties, in the order in which the class
    /// installs them.
    pub fn properties() -> (specs: Vec<ParamSpec>)
        ensures
            specs@.len() == ContainerProperty::spec_all().len(),
            forall|i: int| 0 <= i < specs@.len() ==> #[trigger] specs@[i]@ == ContainerProperty::spec_all()[i].spec_param(),
    {
        let all = ContainerProperty::all();
        let mut specs: Vec<ParamSpec> = Vec::new();
        let mut i: usize = 0;
        while i < all.len()
            invariant
                all@ == ContainerProperty::spec_all(),
                i <= all@.len(),
                specs@.len() == i,
                forall|j: int| 0 <= j < i ==> #[trigger] specs@[j]@ == ContainerProperty::spec_all()[j].spec_param(),
            decreases all@.len() - i,
        {
            specs.push(all[i].param_spec());
            i = i + 1;
        }
        specs
    }
}

/// Law: each container property is found again by its name, and no two container properties share a name.
pub proof fn lemma_container_property_names(p: ContainerProperty, q: ContainerProperty)
    ensures
        ContainerProperty::spec_named(p.spec_param().name) == Some(p),
        p != q ==> p.spec_param().name != q.spec_param().name,
        ContainerProperty::spec_all().contains(p),
{
    reveal_strlit("container-list");
    reveal_strlit("action-ongoing");
    reveal_strlit("deleted");
    reveal_strlit("created");
    reveal_strlit("health-status");
    reveal_strlit("id");
    reveal_strlit("image");
    reveal_strlit("image-id");
    reveal_strlit("image-name");
    reveal_strlit("name");
    reveal_strlit("pod");
    reveal_strlit("pod-id");
    reveal_strlit("port-bindings");
    reveal_strlit("stats");
    reveal_strlit("status");
    reveal_strlit("up-since");
    reveal_strlit("data");
    reveal_strlit("selected");
    assert("container-list"@.len() == 14 && "container-list"@[0] == 'c' && "container-list"@[1] == 'o');
    assert("action-ongoing"@.len() == 14 && "action-ongoing"@[0] == 'a' && "action-ongoing"@[1] == 'c');
    assert("deleted"@.len() == 7 && "deleted"@[0] == 'd' && "deleted"@[1] == 'e');
    assert("created"@.len() == 7 && "created"@[0] == 'c' && "created"@[1] == 'r');
    assert("health-status"@.len() == 13 && "health-status"@[0] == 'h' && "health-status"@[1] == 'e');
    assert("id"@.len() == 2 && "id"@[0] == 'i' && "id"@[1] == 'd');
    assert("image"@.len() == 5 && "image"@[0] == 'i' && "image"@[1] == 'm');
    assert("image-id"@.len() == 8 && "image-id"@[0] == 'i' && "image-id"@[1] == 'm');
    assert("image-name"@.len() == 10 && "image-name"@[0] == 'i' && "image-name"@[1] == 'm');
    assert("name"@.len() == 4 && "name"@[0] == 'n' && "name"@[1] == 'a');
    assert("pod"@.len() == 3 && "pod"@[0] == 'p' && "pod"@[1] == 'o');
    assert("pod-id"@.len() == 6 && "pod-id"@[0] == 'p' && "pod-id"@[1] == 'o');
    assert("port-bindings"@.len() == 13 && "port-bindings"@[0] == 'p' && "port-bindings"@[1] == 'o');
    assert("stats"@.len() == 5 && "stats"@[0] == 's' && "stats"@[1] == 't');
    assert("status"@.len() == 6 && "status"@[0] == 's' && "status"@[1] == 't');
    assert("up-since"@.len() == 8 && "up-since"@[0] == 'u' && "up-since"@[1] == 'p');
    assert("data"@.len() == 4 && "data"@[0] == 'd' && "data"@[1] == 'a');
    assert("selected"@.len() == 8 && "selected"@[0] == 's' && "selected"@[1] == 'e');
    assert(ContainerProperty::spec_all()[0] == ContainerProperty::ContainerList);
    match p {
        ContainerProperty::ContainerList => assert(ContainerProperty::spec_all()[0] == p),
        ContainerProperty::ActionOngoing => assert(ContainerProperty::spec_all()[1] == p),
        ContainerProperty::Deleted => assert(ContainerProperty::spec_all()[2] == p),
        ContainerProperty::Created => assert(ContainerProperty::spec_all()[3] == p),
        ContainerProperty::HealthStatus => assert(ContainerProperty::spec_all()[4] == p),
        ContainerProperty::Id => assert(ContainerProperty::spec_all()[5] == p),
        ContainerProperty::Image => assert(ContainerProperty::spec_all()[6] == p),
        ContainerProperty::ImageId => assert(ContainerProperty::spec_all()[7] == p),
        ContainerProperty::ImageName => assert(ContainerProperty::spec_all()[8] == p),
        ContainerProperty::Name => assert(ContainerProperty::spec_all()[9] == p),
        ContainerProperty::Pod => assert(ContainerProperty::spec_all()[10] == p),
        ContainerProperty::PodId => assert(ContainerProperty::spec_all()[11] == p),
        ContainerProperty::PortBindings => assert(ContainerProperty::spec_all()[12] == p),
        ContainerProperty::Stats => assert(ContainerProperty::spec_all()[13] == p),
        ContainerProperty::Status => assert(ContainerProperty::spec_all()[14] == p),
        ContainerProperty::UpSince => assert(ContainerProperty::spec_all()[15] == p),
        ContainerProperty::Data => assert(ContainerProperty::spec_all()[16] == p),
        ContainerProperty::Selected => assert(ContainerProperty::spec_all()[17] == p),
    }
}


/// Resource usage of a container as Podman reports it. Counters and texts
/// are kept as they are; the three percentages, which Podman gives as
/// floating-point numbers, are kept as the bit patterns of those numbers,
/// and two values are compared as the numbers are (see `spec_stats_eq`).
#[derive(Debug, Clone)]
pub struct BoxedContainerStats {
    pub avg_cpu_bits: Option<u64>,
    pub block_input: Option<u64>,
    pub block_output: Option<u64>,
    pub container_id: Option<String>,
    pub cpu_bits: Option<u64>,
    pub cpu_nano: Option<u64>,
    pub cpu_system_nano: Option<u64>,
    pub duration: Option<u64>,
    pub mem_limit: Option<u64>,
    pub mem_perc_bits: Option<u64>,
    pub mem_usage: Option<u64>,
    pub name: Option<String>,
    pub net_input: Option<u64>,
    pub net_output: Option<u64>,
    pub per_cpu: Option<Vec<u64>>,
    pub pids: Option<u64>,
    pub system_nano: Option<u64>,
    pub up_time: Option<i64>,
}

/// The mathematical value of a `BoxedContainerStats`.
pub struct StatsView {
    pub avg_cpu_bits: Option<u64>,
    pub block_input: Option<u64>,
    pub block_output: Option<u64>,
    pub container_id: Option<Seq<char>>,
    pub cpu_bits: Option<u64>,
    pub cpu_nano: Option<u64>,
    pub cpu_system_nano: Option<u64>,
    pub duration: Option<u64>,
    pub mem_limit: Option<u64>,
    pub mem_perc_bits: Option<u64>,
    pub mem_usage: Option<u64>,
    pub name: Option<Seq<char>>,
    pub net_input: Option<u64>,
    pub net_output: Option<u64>,
    pub per_cpu: Option<Seq<u64>>,
    pub pids: Option<u64>,
    pub system_nano: Option<u64>,
    pub up_time: Option<i64>,
}

/// The view of an optional list of counters.
pub open spec fn opt_vec_view(v: Option<Vec<u64>>) -> Option<Seq<u64>> {
    match v {
        Some(v) => Some(v@),
        None => None,
    }
}

impl View for BoxedContainerStats {
    type V = StatsView;

    open spec fn view(&self) -> StatsView {
        StatsView {
            avg_cpu_bits: self.avg_cpu_bits,
            block_input: self.block_input,
            block_output: self.block_output,
            container_id: opt_string_view(self.container_id),
            cpu_bits: self.cpu_bits,
            cpu_nano: self.cpu_nano,
            cpu_system_nano: self.cpu_system_nano,
            duration: self.duration,
            mem_limit: self.mem_limit,
            mem_perc_bits: self.mem_perc_bits,
            mem_usage: self.mem_usage,
            name: opt_string_view(self.name),
            net_input: self.net_input,
            net_output: self.net_output,
            per_cpu: opt_vec_view(self.per_cpu),
            pids: self.pids,
            system_nano: self.system_nano,
            up_time: self.up_time,
        }
    }
}

/// The view of an optional resource usage.
pub open spec fn opt_stats_view(s: Option<BoxedContainerStats>) -> Option<StatsView> {
    match s {
        Some(s) => Some(s@),
        None => None,
    }
}

/// The double-precision number with bit pattern `b` is not a number.
pub open spec fn spec_f64_bits_is_nan(b: u64) -> bool {
    (b & 0x7ff0_0000_0000_0000u64) == 0x7ff0_0000_0000_0000u64 && (b & 0x000f_ffff_ffff_ffffu64)
        != 0u64
}

/// The double-precision number with bit pattern `b` is a zero of either sign.
pub open spec fn spec_f64_bits_is_zero(b: u64) -> bool {
    (b & 0x7fff_ffff_ffff_ffffu64) == 0u64
}

/// Floating-point equality of the numbers with bit patterns `a` and `b`:
/// no number equals a NaN, the two zeros are equal, and otherwise equal
/// numbers have equal bit patterns.
pub open spec fn spec_f64_bits_eq(a: u64, b: u64) -> bool {
    !spec_f64_bits_is_nan(a) && !spec_f64_bits_is_nan(b) && (a == b || (spec_f64_bits_is_zero(a)
        && spec_f64_bits_is_zero(b)))
}

/// Equality of two optional floating-point numbers given by bit patterns.
pub open spec fn spec_opt_f64_bits_eq(a: Option<u64>, b: Option<u64>) -> bool {
    match (a, b) {
        (Some(x), Some(y)) => spec_f64_bits_eq(x, y),
        (None, None) => true,
        _ => false,
    }
}

/// Equality of two resource usages: the percentages compare as numbers,
/// everything else as values.
pub open spec fn spec_stats_eq(a: StatsView, b: StatsView) -> bool {
    &&& spec_opt_f64_bits_eq(a.avg_cpu_bits, b.avg_cpu_bits)
    &&& a.block_input == b.block_input
    &&& a.block_output == b.block_output
    &&& a.container_id == b.container_id
    &&& spec_opt_f64_bits_eq(a.cpu_bits, b.cpu_bits)
    &&& a.cpu_nano == b.cpu_nano
    &&& a.cpu_system_nano == b.cpu_system_nano
    &&& a.duration == b.duration
    &&& a.mem_limit == b.mem_limit
    &&& spec_opt_f64_bits_eq(a.mem_perc_bits, b.mem_perc_bits)
    &&& a.mem_usage == b.mem_usage
    &&& a.name == b.name
    &&& a.net_input == b.net_input
    &&& a.net_output == b.net_output
    &&& a.per_cpu == b.per_cpu
    &&& a.pids == b.pids
    &&& a.system_nano == b.system_nano
    &&& a.up_time == b.up_time
}

/// Equality of two optional resource usages.
pub open spec fn spec_opt_stats_eq(a: Option<StatsView>, b: Option<StatsView>) -> bool {
    match (a, b) {
        (Some(x), Some(y)) => spec_stats_eq(x, y),
        (None, None) => true,
        _ => false,
    }
}

/// Floating-point equality of the numbers with bit patterns `a` and `b`.
pub fn f64_bits_eq(a: u64, b: u64) -> (eq: bool)
    ensures
        eq == spec_f64_bits_eq(a, b),
{
    let a_nan = (a & 0x7ff0_0000_0000_0000u64) == 0x7ff0_0000_0000_0000u64 && (a
        & 0x000f_ffff_ffff_ffffu64) != 0u64;
    let b_nan = (b & 0x7ff0_0000_0000_0000u64) == 0x7ff0_0000_0000_0000u64 && (b
        & 0x000f_ffff_ffff_ffffu64) != 0u64;
    let a_zero = (a & 0x7fff_ffff_ffff_ffffu64) == 0u64;
    let b_zero = (b & 0x7fff_ffff_ffff_ffffu64) == 0u64;
    !a_nan && !b_nan && (a == b || (a_zero && b_zero))
}

fn opt_f64_bits_eq(a: Option<u64>, b: Option<u64>) -> (eq: bool)
    ensures
        eq == spec_opt_f64_bits_eq(a, b),
{
    match (a, b) {
        (Some(x), Some(y)) => f64_bits_eq(x, y),
        (None, None) => true,
        _ => false,
    }
}

fn opt_u64_eq(a: Option<u64>, b: Option<u64>) -> (eq: bool)
    ensures
        eq == (a == b),
{
    match (a, b) {
        (Some(x), Some(y)) => x == y,
        (None, None) => true,
        _ => false,
    }
}

fn opt_i64_eq(a: Option<i64>, b: Option<i64>) -> (eq: bool)
    ensures
        eq == (a == b),
{
    match (a, b) {
        (Some(x), Some(y)) => x == y,
        (None, None) => true,
        _ => false,
    }
}

fn vec_u64_eq(a: &Vec<u64>, b: &Vec<u64>) -> (eq: bool)
    ensures
        eq == (a@ == b@),
{
    if a.len() != b.len() {
        return false;
    }
    let mut i: usize = 0;
    while i < a.len()
        invariant
            a@.len() == b@.len(),
            i <= a@.len(),
            forall|j: int| 0 <= j < i ==> a@[j] == b@[j],
        decreases a@.len() - i,
    {
        if a[i] != b[i] {
            return false;
        }
        i = i + 1;
    }
    assert(a@ =~= b@);
    true
}

fn opt_vec_u64_eq(a: &Option<Vec<u64>>, b: &Option<Vec<u64>>) -> (eq: bool)
    ensures
        eq == (opt_vec_view(*a) == opt_vec_view(*b)),
{
    match (a, b) {
        (Some(x), Some(y)) => vec_u64_eq(x, y),
        (None, None) => true,
        _ => false,
    }
}

fn copy_vec_u64(v: &Vec<u64>) -> (c: Vec<u64>)
    ensures
        c@ == v@,
{
    let mut c: Vec<u64> = Vec::new();
    let mut i: usize = 0;
    while i < v.len()
        invariant
            i <= v@.len(),
            c@ =~= v@.subrange(0, i as int),
        decreases v@.len() - i,
    {
        c.push(v[i]);
        i = i + 1;
    }
    assert(c@ =~= v@);
    c
}

impl BoxedContainerStats {
    /// Compares two resource usages: the percentages as numbers, everything
    /// else as values.
    pub fn same_as(&self, other: &BoxedContainerStats) -> (eq: bool)
        ensures
            eq == spec_stats_eq(self@, other@),
    {
        opt_f64_bits_eq(self.avg_cpu_bits, other.avg_cpu_bits)
            && opt_u64_eq(self.block_input, other.block_input)
            && opt_u64_eq(self.block_output, other.block_output)
            && opt_string_eq(&self.container_id, &other.container_id)
            && opt_f64_bits_eq(self.cpu_bits, other.cpu_bits)
            && opt_u64_eq(self.cpu_nano, other.cpu_nano)
            && opt_u64_eq(self.cpu_system_nano, other.cpu_system_nano)
            && opt_u64_eq(self.duration, other.duration)
            && opt_u64_eq(self.mem_limit, other.mem_limit)
            && opt_f64_bits_eq(self.mem_perc_bits, other.mem_perc_bits)
            && opt_u64_eq(self.mem_usage, other.mem_usage)
            && opt_string_eq(&self.name, &other.name)
            && opt_u64_eq(self.net_input, other.net_input)
            && opt_u64_eq(self.net_output, other.net_output)
            && opt_vec_u64_eq(&self.per_cpu, &other.per_cpu)
            && opt_u64_eq(self.pids, other.pids)
            && opt_u64_eq(self.system_nano, other.system_nano)
            && opt_i64_eq(self.up_time, other.up_time)
    }

    /// A copy of this resource usage.
    pub fn duplicate(&self) -> (c: BoxedContainerStats)
        ensures
            c@ == self@,
    {
        BoxedContainerStats {
            avg_cpu_bits: self.avg_cpu_bits,
            block_input: self.block_input,
            block_output: self.block_output,
            container_id: self.container_id.clone(),
            cpu_bits: self.cpu_bits,
            cpu_nano: self.cpu_nano,
            cpu_system_nano: self.cpu_system_nano,
            duration: self.duration,
            mem_limit: self.mem_limit,
            mem_perc_bits: self.mem_perc_bits,
            mem_usage: self.mem_usage,
            name: self.name.clone(),
            net_input: self.net_input,
            net_output: self.net_output,
            per_cpu: match &self.per_cpu {
                Some(v) => Some(copy_vec_u64(v)),
                None => None,
            },
            pids: self.pids,
            system_nano: self.system_nano,
            up_time: self.up_time,
        }
    }
}

/// Compares two optional resource usages.
pub fn opt_stats_eq(a: &Option<BoxedContainerStats>, b: &Option<BoxedContainerStats>) -> (eq: bool)
    ensures
        eq == spec_opt_stats_eq(opt_stats_view(*a), opt_stats_view(*b)),
{
    match (a, b) {
        (Some(x), Some(y)) => x.same_as(y),
        (None, None) => true,
        _ => false,
    }
}

/// A copy of an optional resource usage.
fn copy_opt_stats(s: &Option<BoxedContainerStats>) -> (c: Option<BoxedContainerStats>)
    ensures
        opt_stats_view(c) == opt_stats_view(*s),
{
    match s {
        Some(x) => Some(x.duplicate()),
        None => None,
    }
}

/// A host port that Podman publishes for a container.
pub struct PortMapping {
    pub host_ip: Option<String>,
    pub host_port: Option<u16>,
}

/// One entry of Podman's container list, with the fields that a container
/// object is built from. `created` is the creation time as a UNIX timestamp.
pub struct ListContainer {
    pub created: Option<i64>,
    pub status: Option<String>,
    pub id: Option<String>,
    pub image_id: Option<String>,
    pub image: Option<String>,
    pub names: Option<Vec<String>>,
    pub pod: Option<String>,
    pub ports: Option<Vec<PortMapping>>,
    pub state: Option<String>,
    pub started_at: Option<i64>,
}

/// What the toolkit is to do after a container operation.
#[derive(Debug, Clone, Copy, PartialEq, Eq, Structural)]
pub enum ContainerEffect {
    /// Announce that a property changed.
    Notify(ContainerProperty),
    /// Ask the pod to inspect itself and update, if it still exists.
    RefreshPod(ObjectRef),
    /// Update the existing inspection data with the fresh inspection.
    UpdateData(ObjectRef),
    /// Create the inspection data from the fresh inspection, under this reference.
    CreateData(ObjectRef),
    /// Hand the inspection error to the caller's error handler.
    ReportInspectError,
    /// Emit the `deleted` signal.
    EmitDeleted,
}

/// The view of an optional string.
pub open spec fn opt_string_view(s: Option<String>) -> Option<Seq<char>> {
    match s {
        Some(s) => Some(s@),
        None => None,
    }
}

/// Compares two optional strings by their text.
pub fn opt_string_eq(a: &Option<String>, b: &Option<String>) -> (eq: bool)
    ensures
        eq == (opt_string_view(*a) == opt_string_view(*b)),
{
    match (a, b) {
        (Some(x), Some(y)) => *x == *y,
        (None, None) => true,
        _ => false,
    }
}

/// The text under which a published port is shown: the host address, or
/// `127.0.0.1` when Podman gives none or an empty one, a colon, and the
/// host port in decimal.
pub open spec fn spec_port_binding(m: PortMapping) -> Seq<char> {
    let ip = match m.host_ip {
        Some(ip) => ip@,
        None => Seq::empty(),
    };
    (if ip.len() == 0 {
        "127.0.0.1"@
    } else {
        ip
    }) + ":"@ + spec_decimal(m.host_port.unwrap() as nat)
}

/// The texts of all published ports of a list entry.
pub open spec fn spec_port_bindings(ports: Option<Vec<PortMapping>>) -> Seq<Seq<char>> {
    match ports {
        Some(ps) => ps@.map_values(|m: PortMapping| spec_port_binding(m)),
        None => Seq::empty(),
    }
}

/// Formats one published port.
pub fn port_binding(m: &PortMapping) -> (text: String)
    requires
        m.host_port is Some,
    ensures
        text@ == spec_port_binding(*m),
{
    let mut text = match &m.host_ip {
        Some(ip) => {
            if ip.as_str().is_empty() {
                String::from_str("127.0.0.1")
            } else {
                ip.clone()
            }
        },
        None => String::from_str("127.0.0.1"),
    };
    text.append(":");
    let port = match m.host_port {
        Some(p) => p,
        None => 0,
    };
    push_decimal(&mut text, port);
    text
}

/// Formats all published ports of a list entry, in order.
pub fn port_bindings(ports: &Option<Vec<PortMapping>>) -> (texts: Vec<String>)
    requires
        ports matches Some(ps) ==> forall|i: int| 0 <= i < ps@.len() ==> (#[trigger] ps@[i]).host_port is Some,
    ensures
        texts.deep_view() == spec_port_bindings(*ports),
{
    let mut texts: Vec<String> = Vec::new();
    match ports {
        None => {
            assert(texts.deep_view() =~= spec_port_bindings(*ports));
        },
        Some(ps) => {
            let mut i: usize = 0;
            while i < ps.len()
                invariant
                    forall|k: int| 0 <= k < ps@.len() ==> (#[trigger] ps@[k]).host_port is Some,
                    i <= ps@.len(),
                    texts@.len() == i,
                    forall|j: int| 0 <= j < i ==> (#[trigger] texts@[j])@ == spec_port_binding(ps@[j]),
                decreases ps@.len() - i,
            {
                texts.push(port_binding(&ps[i]));
                i = i + 1;
            }
            assert(texts.deep_view() =~= spec_port_bindings(*ports));
        },
    }
    texts
}


/// The value of one container property.
#[derive(Debug)]
pub enum ContainerValue {
    ContainerList(ObjectRef),
    ActionOngoing(bool),
    Created(i64),
    HealthStatus(HealthStatus),
    Id(String),
    Image(Option<ObjectRef>),
    ImageId(Option<String>),
    ImageName(Option<String>),
    Name(String),
    Pod(Option<ObjectRef>),
    PodId(Option<String>),
    PortBindings(Vec<String>),
    Stats(Option<BoxedContainerStats>),
    Status(Status),
    UpSince(i64),
    Data(Option<ObjectRef>),
    Selected(bool),
}

/// The mathematical value of a `ContainerValue`.
pub enum ContainerValueView {
    ContainerList(ObjectRef),
    ActionOngoing(bool),
    Created(i64),
    HealthStatus(HealthStatus),
    Id(Seq<char>),
    Image(Option<ObjectRef>),
    ImageId(Option<Seq<char>>),
    ImageName(Option<Seq<char>>),
    Name(Seq<char>),
    Pod(Option<ObjectRef>),
    PodId(Option<Seq<char>>),
    PortBindings(Seq<Seq<char>>),
    Stats(Option<StatsView>),
    Status(Status),
    UpSince(i64),
    Data(Option<ObjectRef>),
    Selected(bool),
}

impl View for ContainerValue {
    type V = ContainerValueView;

    open spec fn view(&self) -> ContainerValueView {
        match self {
            ContainerValue::ContainerList(v) => ContainerValueView::ContainerList(*v),
            ContainerValue::ActionOngoing(v) => ContainerValueView::ActionOngoing(*v),
            ContainerValue::Created(v) => ContainerValueView::Created(*v),
            ContainerValue::HealthStatus(v) => ContainerValueView::HealthStatus(*v),
            ContainerValue::Id(v) => ContainerValueView::Id(v@),
            ContainerValue::Image(v) => ContainerValueView::Image(*v),
            ContainerValue::ImageId(v) => ContainerValueView::ImageId(opt_string_view(*v)),
            ContainerValue::ImageName(v) => ContainerValueView::ImageName(opt_string_view(*v)),
            ContainerValue::Name(v) => ContainerValueView::Name(v@),
            ContainerValue::Pod(v) => ContainerValueView::Pod(*v),
            ContainerValue::PodId(v) => ContainerValueView::PodId(opt_string_view(*v)),
            ContainerValue::PortBindings(v) => ContainerValueView::PortBindings(v.deep_view()),
            ContainerValue::Stats(v) => ContainerValueView::Stats(opt_stats_view(*v)),
            ContainerValue::Status(v) => ContainerValueView::Status(*v),
            ContainerValue::UpSince(v) => ContainerValueView::UpSince(*v),
            ContainerValue::Data(v) => ContainerValueView::Data(*v),
            ContainerValue::Selected(v) => ContainerValueView::Selected(*v),
        }
    }
}

impl ContainerValueView {
    /// The property that this value belongs to.
    pub open spec fn target(self) -> ContainerProperty {
        match self {
            ContainerValueView::ContainerList(_) => ContainerProperty::ContainerList,
            ContainerValueView::ActionOngoing(_) => ContainerProperty::ActionOngoing,
            ContainerValueView::Created(_) => ContainerProperty::Created,
            ContainerValueView::HealthStatus(_) => ContainerProperty::HealthStatus,
            ContainerValueView::Id(_) => ContainerProperty::Id,
            ContainerValueView::Image(_) => ContainerProperty::Image,
            ContainerValueView::ImageId(_) => ContainerProperty::ImageId,
            ContainerValueView::ImageName(_) => ContainerProperty::ImageName,
            ContainerValueView::Name(_) => ContainerProperty::Name,
            ContainerValueView::Pod(_) => ContainerProperty::Pod,
            ContainerValueView::PodId(_) => ContainerProperty::PodId,
            ContainerValueView::PortBindings(_) => ContainerProperty::PortBindings,
            ContainerValueView::Stats(_) => ContainerProperty::Stats,
            ContainerValueView::Status(_) => ContainerProperty::Status,
            ContainerValueView::UpSince(_) => ContainerProperty::UpSince,
            ContainerValueView::Data(_) => ContainerProperty::Data,
            ContainerValueView::Selected(_) => ContainerProperty::Selected,
        }
    }
}

impl ContainerValue {
    /// The property that this value belongs to.
    pub fn target(&self) -> (p: ContainerProperty)
        ensures
            p == self@.target(),
    {
        match self {
            ContainerValue::ContainerList(_) => ContainerProperty::ContainerList,
            ContainerValue::ActionOngoing(_) => ContainerProperty::ActionOngoing,
            ContainerValue::Created(_) => ContainerProperty::Created,
            ContainerValue::HealthStatus(_) => ContainerProperty::HealthStatus,
            ContainerValue::Id(_) => ContainerProperty::Id,
            ContainerValue::Image(_) => ContainerProperty::Image,
            ContainerValue::ImageId(_) => ContainerProperty::ImageId,
            ContainerValue::ImageName(_) => ContainerProperty::ImageName,
            ContainerValue::Name(_) => ContainerProperty::Name,
            ContainerValue::Pod(_) => ContainerProperty::Pod,
            ContainerValue::PodId(_) => ContainerProperty::PodId,
            ContainerValue::PortBindings(_) => ContainerProperty::PortBindings,
            ContainerValue::Stats(_) => ContainerProperty::Stats,
            ContainerValue::Status(_) => ContainerProperty::Status,
            ContainerValue::UpSince(_) => ContainerProperty::UpSince,
            ContainerValue::Data(_) => ContainerProperty::Data,
            ContainerValue::Selected(_) => ContainerProperty::Selected,
        }
    }
}

/// The state of a container object.
pub struct ContainerView {
    pub container_list: ObjectRef,
    pub action_ongoing: bool,
    pub created: i64,
    pub health_status: HealthStatus,
    pub id: Seq<char>,
    pub image: Option<ObjectRef>,
    pub image_id: Seq<char>,
    pub image_name: Option<Seq<char>>,
    pub name: Seq<char>,
    pub pod: Option<ObjectRef>,
    pub pod_id: Option<Seq<char>>,
    pub port_bindings: Seq<Seq<char>>,
    pub stats: Option<StatsView>,
    pub status: Status,
    pub up_since: i64,
    pub data: Option<ObjectRef>,
    pub can_inspect: bool,
    pub selected: bool,
}

/// Announce `p` if `changed`, else nothing.
pub open spec fn spec_notify_if(changed: bool, p: ContainerProperty) -> Seq<ContainerEffect> {
    if changed {
        seq![ContainerEffect::Notify(p)]
    } else {
        Seq::empty()
    }
}

/// Ask the pod to refresh itself, if there is one.
pub open spec fn spec_refresh(pod: Option<ObjectRef>) -> Seq<ContainerEffect> {
    match pod {
        Some(p) => seq![ContainerEffect::RefreshPod(p)],
        None => Seq::empty(),
    }
}

/// The value of property `p` of container `c`; the `deleted` property is
/// declared but holds no value.
pub open spec fn spec_read(c: ContainerView, p: ContainerProperty) -> Option<ContainerValueView> {
    match p {
        ContainerProperty::Deleted => None,
        ContainerProperty::ContainerList => Some(ContainerValueView::ContainerList(c.container_list)),
        ContainerProperty::ActionOngoing => Some(ContainerValueView::ActionOngoing(c.action_ongoing)),
        ContainerProperty::Created => Some(ContainerValueView::Created(c.created)),
        ContainerProperty::HealthStatus => Some(ContainerValueView::HealthStatus(c.health_status)),
        ContainerProperty::Id => Some(ContainerValueView::Id(c.id)),
        ContainerProperty::Image => Some(ContainerValueView::Image(c.image)),
        ContainerProperty::ImageId => Some(ContainerValueView::ImageId(Some(c.image_id))),
        ContainerProperty::ImageName => Some(ContainerValueView::ImageName(c.image_name)),
        ContainerProperty::Name => Some(ContainerValueView::Name(c.name)),
        ContainerProperty::Pod => Some(ContainerValueView::Pod(c.pod)),
        ContainerProperty::PodId => Some(ContainerValueView::PodId(c.pod_id)),
        ContainerProperty::PortBindings => Some(ContainerValueView::PortBindings(c.port_bindings)),
        ContainerProperty::Stats => Some(ContainerValueView::Stats(c.stats)),
        ContainerProperty::Status => Some(ContainerValueView::Status(c.status)),
        ContainerProperty::UpSince => Some(ContainerValueView::UpSince(c.up_since)),
        ContainerProperty::Data => Some(ContainerValueView::Data(c.data)),
        ContainerProperty::Selected => Some(ContainerValueView::Selected(c.selected)),
    }
}

/// The container after writing value `v`. Only properties that may be
/// written once the object exists change; writing any other leaves the
/// container as it was.
pub open spec fn spec_apply(c: ContainerView, v: ContainerValueView) -> ContainerView {
    match v {
        ContainerValueView::ActionOngoing(x) => ContainerView { action_ongoing: x, ..c },
        ContainerValueView::HealthStatus(x) => ContainerView { health_status: x, ..c },
        ContainerValueView::Image(x) => ContainerView { image: x, ..c },
        ContainerValueView::ImageName(x) => ContainerView { image_name: x, ..c },
        ContainerValueView::Name(x) => ContainerView { name: x, ..c },
        ContainerValueView::Pod(x) => ContainerView { pod: x, ..c },
        ContainerValueView::Stats(x) => if spec_opt_stats_eq(c.stats, x) {
            c
        } else {
            ContainerView { stats: x, ..c }
        },
        ContainerValueView::Status(x) => ContainerView { status: x, ..c },
        ContainerValueView::UpSince(x) => ContainerView { up_since: x, ..c },
        ContainerValueView::Selected(x) => ContainerView { selected: x, ..c },
        _ => c,
    }
}

/// What writing value `v` to container `c` asks of the toolkit: nothing if
/// the value is unchanged; otherwise the announcement of the property,
/// preceded, for a new pod, by a refresh of that pod and, for a new
/// status, by a refresh of the container's pod. Selection is never announced.
pub open spec fn spec_effects(c: ContainerView, v: ContainerValueView) -> Seq<ContainerEffect> {
    match v {
        ContainerValueView::ActionOngoing(x) => spec_notify_if(
            c.action_ongoing != x,
            ContainerProperty::ActionOngoing,
        ),
        ContainerValueView::HealthStatus(x) => spec_notify_if(
            c.health_status != x,
            ContainerProperty::HealthStatus,
        ),
        ContainerValueView::Image(x) => spec_notify_if(c.image != x, ContainerProperty::Image),
        ContainerValueView::ImageName(x) => spec_notify_if(
            c.image_name != x,
            ContainerProperty::ImageName,
        ),
        ContainerValueView::Name(x) => spec_notify_if(c.name != x, ContainerProperty::Name),
        ContainerValueView::Pod(x) => if c.pod != x {
            spec_refresh(x) + seq![ContainerEffect::Notify(ContainerProperty::Pod)]
        } else {
            Seq::empty()
        },
        ContainerValueView::Stats(x) => spec_notify_if(
            !spec_opt_stats_eq(c.stats, x),
            ContainerProperty::Stats,
        ),
        ContainerValueView::Status(x) => if c.status != x {
            spec_refresh(c.pod) + seq![ContainerEffect::Notify(ContainerProperty::Status)]
        } else {
            Seq::empty()
        },
        ContainerValueView::UpSince(x) => spec_notify_if(
            c.up_since != x,
            ContainerProperty::UpSince,
        ),
        _ => Seq::empty(),
    }
}

/// A property that may be written once the object exists.
pub open spec fn spec_settable(p: ContainerProperty) -> bool {
    crate::param::spec_settable(p.spec_param().flags)
}


/// A container known to the client.
pub struct Container {
    container_list: ObjectRef,
    action_ongoing: bool,
    created: i64,
    health_status: HealthStatus,
    id: String,
    image: Option<ObjectRef>,
    image_id: String,
    image_name: Option<String>,
    name: String,
    pod: Option<ObjectRef>,
    pod_id: Option<String>,
    port_bindings: Vec<String>,
    stats: Option<BoxedContainerStats>,
    status: Status,
    up_since: i64,
    data: Option<ObjectRef>,
    can_inspect: bool,
    selected: bool,
}

impl View for Container {
    type V = ContainerView;

    closed spec fn view(&self) -> ContainerView {
        ContainerView {
            container_list: self.container_list,
            action_ongoing: self.action_ongoing,
            created: self.created,
            health_status: self.health_status,
            id: self.id@,
            image: self.image,
            image_id: self.image_id@,
            image_name: opt_string_view(self.image_name),
            name: self.name@,
            pod: self.pod,
            pod_id: opt_string_view(self.pod_id),
            port_bindings: self.port_bindings.deep_view(),
            stats: opt_stats_view(self.stats),
            status: self.status,
            up_since: self.up_since,
            data: self.data,
            can_inspect: self.can_inspect,
            selected: self.selected,
        }
    }
}

/// A list entry that a container object can be built from: it has an id,
/// an image id, at least one name, a start time, and a host port for every
/// published port.
pub open spec fn spec_can_construct(l: ListContainer) -> bool {
    &&& l.id is Some
    &&& l.image_id is Some
    &&& spec_can_update(l)
    &&& l.ports matches Some(ps) ==> forall|i: int| 0 <= i < ps@.len() ==> (#[trigger] ps@[i]).host_port is Some
}

/// A list entry that a container object can be updated from: it has at
/// least one name and a start time.
pub open spec fn spec_can_update(l: ListContainer) -> bool {
    &&& l.names matches Some(ns) && ns@.len() > 0
    &&& l.started_at is Some
}

/// The container object built from list entry `l` inside container list `cl`.
pub open spec fn spec_new(cl: ObjectRef, l: ListContainer) -> ContainerView {
    ContainerView {
        container_list: cl,
        action_ongoing: false,
        created: match l.created {
            Some(t) => t,
            None => 0,
        },
        health_status: spec_health_status(opt_string_view(l.status)),
        id: l.id.unwrap()@,
        image: None,
        image_id: l.image_id.unwrap()@,
        image_name: opt_string_view(l.image),
        name: l.names.unwrap()@[0]@,
        pod: None,
        pod_id: opt_string_view(l.pod),
        port_bindings: spec_port_bindings(l.ports),
        stats: None,
        status: spec_status(opt_string_view(l.state)),
        up_since: l.started_at.unwrap(),
        data: None,
        can_inspect: true,
        selected: false,
    }
}

/// The values that an update from list entry `l` writes, in order.
pub open spec fn spec_update_values(l: ListContainer) -> Seq<ContainerValueView> {
    seq![
        ContainerValueView::ActionOngoing(false),
        ContainerValueView::HealthStatus(spec_health_status(opt_string_view(l.status))),
        ContainerValueView::ImageName(opt_string_view(l.image)),
        ContainerValueView::Name(l.names.unwrap()@[0]@),
        ContainerValueView::Status(spec_status(opt_string_view(l.state))),
        ContainerValueView::UpSince(l.started_at.unwrap()),
    ]
}

/// An update of container `c` from list entry `l`: the values of
/// `spec_update_values(l)` are written one after the other; the result is
/// the container at the end and everything that was asked of the toolkit
/// on the way, in order.
pub open spec fn spec_update(c: ContainerView, l: ListContainer) -> (ContainerView, Seq<ContainerEffect>) {
    let vs = spec_update_values(l);
    let c1 = spec_apply(c, vs[0]);
    let c2 = spec_apply(c1, vs[1]);
    let c3 = spec_apply(c2, vs[2]);
    let c4 = spec_apply(c3, vs[3]);
    let c5 = spec_apply(c4, vs[4]);
    let c6 = spec_apply(c5, vs[5]);
    (
        c6,
        spec_effects(c, vs[0]) + spec_effects(c1, vs[1]) + spec_effects(c2, vs[2]) + spec_effects(c3, vs[3])
            + spec_effects(c4, vs[4]) + spec_effects(c5, vs[5]),
    )
}

impl Container {
    /// The signals that the class declares, by name; each carries no
    /// argument and returns nothing.
    pub fn signals() -> (names: Vec<&'static str>)
        ensures
            names@.len() == 1,
            names@[0]@ == "deleted"@,
    {
        vec!["deleted"]
    }

    /// Builds the container object for list entry `list_container` of the
    /// container list `container_list`.
    pub fn new(container_list: ObjectRef, list_container: ListContainer) -> (c: Container)
        requires
            spec_can_construct(list_container),
        ensures
            c@ == spec_new(container_list, list_container),
    {
        let health = match &list_container.status {
            Some(s) => health_status(Some(s.as_str())),
            None => health_status(None),
        };
        let st = match &list_container.state {
            Some(s) => status(Some(s.as_str())),
            None => status(None),
        };
        let bindings = port_bindings(&list_container.ports);
        let created = match list_container.created {
            Some(t) => t,
            None => 0,
        };
        let name = match &list_container.names {
            Some(names) => names[0].clone(),
            None => String::new(),
        };
        let up_since = match list_container.started_at {
            Some(t) => t,
            None => 0,
        };
        let ListContainer { id, image_id, image, pod, .. } = list_container;
        let id = match id {
            Some(id) => id,
            None => String::new(),
        };
        let image_id = match image_id {
            Some(image_id) => image_id,
            None => String::new(),
        };
        Container {
            container_list,
            action_ongoing: false,
            created,
            health_status: health,
            id,
            image: None,
            image_id,
            image_name: image,
            name,
            pod: None,
            pod_id: pod,
            port_bindings: bindings,
            stats: None,
            status: st,
            up_since,
            data: None,
            can_inspect: true,
            selected: false,
        }
    }

    /// The container list that this container belongs to, by a weak
    /// reference (see `ObjectRef`).
    pub fn container_list(&self) -> (cl: ObjectRef)
        ensures
            cl == self@.container_list,
    {
        self.container_list
    }

    /// Whether an action (starting, stopping, ...) is under way.
    pub fn action_ongoing(&self) -> (b: bool)
        ensures
            b == self@.action_ongoing,
    {
        self.action_ongoing
    }

    /// When the container was created, as a UNIX timestamp.
    pub fn created(&self) -> (t: i64)
        ensures
            t == self@.created,
    {
        self.created
    }

    pub fn health_status(&self) -> (st: HealthStatus)
        ensures
            st == self@.health_status,
    {
        self.health_status
    }

    pub fn id(&self) -> (id: &str)
        ensures
            id@ == self@.id,
    {
        self.id.as_str()
    }

    /// The image of the container, by a weak reference (see `ObjectRef`).
    pub fn image(&self) -> (image: Option<ObjectRef>)
        ensures
            image == self@.image,
    {
        self.image
    }

    pub fn image_id(&self) -> (image_id: Option<&str>)
        ensures
            image_id matches Some(i) && i@ == self@.image_id,
    {
        Some(self.image_id.as_str())
    }

    pub fn image_name(&self) -> (image_name: Option<String>)
        ensures
            opt_string_view(image_name) == self@.image_name,
    {
        self.image_name.clone()
    }

    pub fn name(&self) -> (name: String)
        ensures
            name@ == self@.name,
    {
        self.name.clone()
    }

    /// The pod of the container, by a weak reference (see `ObjectRef`).
    pub fn pod(&self) -> (pod: Option<ObjectRef>)
        ensures
            pod == self@.pod,
    {
        self.pod
    }

    pub fn pod_id(&self) -> (pod_id: Option<&str>)
        ensures
            match pod_id {
                Some(p) => self@.pod_id == Some(p@),
                None => self@.pod_id is None,
            },
    {
        match &self.pod_id {
            Some(p) => Some(p.as_str()),
            None => None,
        }
    }

    pub fn port_bindings(&self) -> (bindings: &Vec<String>)
        ensures
            bindings.deep_view() == self@.port_bindings,
    {
        &self.port_bindings
    }

    pub fn stats(&self) -> (stats: Option<BoxedContainerStats>)
        ensures
            opt_stats_view(stats) == self@.stats,
    {
        copy_opt_stats(&self.stats)
    }

    pub fn status(&self) -> (st: Status)
        ensures
            st == self@.status,
    {
        self.status
    }

    /// Since when the container runs, as a UNIX timestamp.
    pub fn up_since(&self) -> (t: i64)
        ensures
            t == self@.up_since,
    {
        self.up_since
    }

    /// The inspection data, once an inspection has succeeded.
    pub fn data(&self) -> (data: Option<ObjectRef>)
        ensures
            data == self@.data,
    {
        self.data
    }

    pub fn set_action_ongoing(&mut self, value: bool) -> (effects: Vec<ContainerEffect>)
        ensures
            final(self)@ == spec_apply(old(self)@, ContainerValueView::ActionOngoing(value)),
            effects@ == spec_effects(old(self)@, ContainerValueView::ActionOngoing(value)),
    {
        if self.action_ongoing == value {
            return Vec::new();
        }
        self.action_ongoing = value;
        vec![ContainerEffect::Notify(ContainerProperty::ActionOngoing)]
    }

    pub fn set_health_status(&mut self, value: HealthStatus) -> (effects: Vec<ContainerEffect>)
        ensures
            final(self)@ == spec_apply(old(self)@, ContainerValueView::HealthStatus(value)),
            effects@ == spec_effects(old(self)@, ContainerValueView::HealthStatus(value)),
    {
        if self.health_status == value {
            return Vec::new();
        }
        self.health_status = value;
        vec![ContainerEffect::Notify(ContainerProperty::HealthStatus)]
    }

    pub fn set_image(&mut self, value: Option<ObjectRef>) -> (effects: Vec<ContainerEffect>)
        ensures
            final(self)@ == spec_apply(old(self)@, ContainerValueView::Image(value)),
            effects@ == spec_effects(old(self)@, ContainerValueView::Image(value)),
    {
        if self.image == value {
            return Vec::new();
        }
        self.image = value;
        vec![ContainerEffect::Notify(ContainerProperty::Image)]
    }

    pub fn set_image_name(&mut self, value: Option<String>) -> (effects: Vec<ContainerEffect>)
        ensures
            final(self)@ == spec_apply(old(self)@, ContainerValueView::ImageName(opt_string_view(value))),
            effects@ == spec_effects(old(self)@, ContainerValueView::ImageName(opt_string_view(value))),
    {
        if opt_string_eq(&self.image_name, &value) {
            return Vec::new();
        }
        self.image_name = value;
        vec![ContainerEffect::Notify(ContainerProperty::ImageName)]
    }

    pub fn set_name(&mut self, value: String) -> (effects: Vec<ContainerEffect>)
        ensures
            final(self)@ == spec_apply(old(self)@, ContainerValueView::Name(value@)),
            effects@ == spec_effects(old(self)@, ContainerValueView::Name(value@)),
    {
        if self.name == value {
            return Vec::new();
        }
        self.name = value;
        vec![ContainerEffect::Notify(ContainerProperty::Name)]
    }

    /// Attaches the container to a pod, or detaches it. A newly attached
    /// pod is first asked to refresh itself.
    pub fn set_pod(&mut self, value: Option<ObjectRef>) -> (effects: Vec<ContainerEffect>)
        ensures
            final(self)@ == spec_apply(old(self)@, ContainerValueView::Pod(value)),
            effects@ == spec_effects(old(self)@, ContainerValueView::Pod(value)),
    {
        if self.pod == value {
            return Vec::new();
        }
        let mut effects: Vec<ContainerEffect> = Vec::new();
        if let Some(p) = value {
            effects.push(ContainerEffect::RefreshPod(p));
        }
        self.pod = value;
        effects.push(ContainerEffect::Notify(ContainerProperty::Pod));
        proof {
            assert(effects@ =~= spec_effects(old(self)@, ContainerValueView::Pod(value)));
        }
        effects
    }

    pub fn set_stats(&mut self, value: Option<BoxedContainerStats>) -> (effects: Vec<ContainerEffect>)
        ensures
            final(self)@ == spec_apply(old(self)@, ContainerValueView::Stats(opt_stats_view(value))),
            effects@ == spec_effects(old(self)@, ContainerValueView::Stats(opt_stats_view(value))),
    {
        if opt_stats_eq(&self.stats, &value) {
            return Vec::new();
        }
        self.stats = value;
        vec![ContainerEffect::Notify(ContainerProperty::Stats)]
    }

    /// Sets the run state; on a change, the container's pod, if any, is
    /// first asked to refresh itself.
    pub fn set_status(&mut self, value: Status) -> (effects: Vec<ContainerEffect>)
        ensures
            final(self)@ == spec_apply(old(self)@, ContainerValueView::Status(value)),
            effects@ == spec_effects(old(self)@, ContainerValueView::Status(value)),
    {
        if self.status == value {
            return Vec::new();
        }
        let mut effects: Vec<ContainerEffect> = Vec::new();
        if let Some(p) = self.pod {
            effects.push(ContainerEffect::RefreshPod(p));
        }
        self.status = value;
        effects.push(ContainerEffect::Notify(ContainerProperty::Status));
        proof {
            assert(effects@ =~= spec_effects(old(self)@, ContainerValueView::Status(value)));
        }
        effects
    }

    pub fn set_up_since(&mut self, value: i64) -> (effects: Vec<ContainerEffect>)
        ensures
            final(self)@ == spec_apply(old(self)@, ContainerValueView::UpSince(value)),
            effects@ == spec_effects(old(self)@, ContainerValueView::UpSince(value)),
    {
        if self.up_since == value {
            return Vec::new();
        }
        self.up_since = value;
        vec![ContainerEffect::Notify(ContainerProperty::UpSince)]
    }
}


/// An operation on a container that goes through the Podman API.
#[derive(Debug)]
pub enum ContainerAction {
    Start,
    Stop { force: bool },
    Restart { force: bool },
    Pause,
    Resume,
    Rename { new_name: String },
    Commit,
    Delete { force: bool },
}

/// The Podman API request that carries out an action.
#[derive(Debug)]
pub enum ApiCall {
    Start,
    Kill,
    Stop,
    Restart,
    RestartWithTimeout { timeout: u32 },
    Pause,
    Unpause,
    Rename { new_name: String },
    Commit,
    Delete { force: bool },
}

/// The request for an action: a forced stop kills, a forced restart
/// restarts without waiting, a deletion passes the force flag on.
pub open spec fn spec_api_call(a: ContainerAction) -> ApiCall {
    match a {
        ContainerAction::Start => ApiCall::Start,
        ContainerAction::Stop { force } => if force {
            ApiCall::Kill
        } else {
            ApiCall::Stop
        },
        ContainerAction::Restart { force } => if force {
            ApiCall::RestartWithTimeout { timeout: 0 }
        } else {
            ApiCall::Restart
        },
        ContainerAction::Pause => ApiCall::Pause,
        ContainerAction::Resume => ApiCall::Unpause,
        ContainerAction::Rename { new_name } => ApiCall::Rename { new_name },
        ContainerAction::Commit => ApiCall::Commit,
        ContainerAction::Delete { force } => ApiCall::Delete { force },
    }
}

/// The word under which an action is logged. A forced restart is logged as
/// "restarting" and an ordinary one as "force restarting".
pub open spec fn spec_description(a: ContainerAction) -> Seq<char> {
    match a {
        ContainerAction::Start => "starting"@,
        ContainerAction::Stop { force } => if force {
            "force stopping"@
        } else {
            "stopping"@
        },
        ContainerAction::Restart { force } => if force {
            "restarting"@
        } else {
            "force restarting"@
        },
        ContainerAction::Pause => "pausing"@,
        ContainerAction::Resume => "resuming"@,
        ContainerAction::Rename { .. } => "renaming"@,
        ContainerAction::Commit => "committing"@,
        ContainerAction::Delete { force } => if force {
            "force deleting"@
        } else {
            "deleting"@
        },
    }
}

impl ContainerAction {
    /// The Podman API request that carries out this action.
    pub fn api_call(&self) -> (call: ApiCall)
        ensures
            call == spec_api_call(*self),
    {
        match self {
            ContainerAction::Start => ApiCall::Start,
            ContainerAction::Stop { force } => if *force {
                ApiCall::Kill
            } else {
                ApiCall::Stop
            },
            ContainerAction::Restart { force } => if *force {
                ApiCall::RestartWithTimeout { timeout: 0 }
            } else {
                ApiCall::Restart
            },
            ContainerAction::Pause => ApiCall::Pause,
            ContainerAction::Resume => ApiCall::Unpause,
            ContainerAction::Rename { new_name } => ApiCall::Rename { new_name: new_name.clone() },
            ContainerAction::Commit => ApiCall::Commit,
            ContainerAction::Delete { force } => ApiCall::Delete { force: *force },
        }
    }

    /// The word under which this action is logged.
    pub fn description(&self) -> (d: &'static str)
        ensures
            d@ == spec_description(*self),
    {
        match self {
            ContainerAction::Start => "starting",
            ContainerAction::Stop { force } => if *force {
                "force stopping"
            } else {
                "stopping"
            },
            ContainerAction::Restart { force } => if *force {
                "restarting"
            } else {
                "force restarting"
            },
            ContainerAction::Pause => "pausing",
            ContainerAction::Resume => "resuming",
            ContainerAction::Rename { .. } => "renaming",
            ContainerAction::Commit => "committing",
            ContainerAction::Delete { force } => if *force {
                "force deleting"
            } else {
                "deleting"
            },
        }
    }
}

/// What starting an action decided: the request to send, if the action
/// goes ahead, and what the toolkit is to do meanwhile.
pub struct ActionStart {
    pub call: Option<ApiCall>,
    pub effects: Vec<ContainerEffect>,
}

/// Starting action `a` on container `c`, where `api_available` tells
/// whether the client has a connection to Podman: without one, or while
/// another action is under way, nothing happens; otherwise the container
/// is marked busy and the request is sent.
pub open spec fn spec_action(c: ContainerView, a: ContainerAction, api_available: bool) -> (ContainerView, Option<ApiCall>, Seq<ContainerEffect>) {
    if !api_available || c.action_ongoing {
        (c, None, Seq::empty())
    } else {
        (
            spec_apply(c, ContainerValueView::ActionOngoing(true)),
            Some(spec_api_call(a)),
            spec_effects(c, ContainerValueView::ActionOngoing(true)),
        )
    }
}

/// The end of an action: a failed one clears the busy mark; a successful
/// one leaves it until the next update from the container list.
pub open spec fn spec_action_finished(c: ContainerView, succeeded: bool) -> (ContainerView, Seq<ContainerEffect>) {
    if succeeded {
        (c, Seq::empty())
    } else {
        (
            spec_apply(c, ContainerValueView::ActionOngoing(false)),
            spec_effects(c, ContainerValueView::ActionOngoing(false)),
        )
    }
}

/// Storing fresh inspection data: existing data is updated in place;
/// otherwise it is created under `fresh` and announced.
pub open spec fn spec_set_data(c: ContainerView, fresh: ObjectRef) -> (ContainerView, Seq<ContainerEffect>) {
    match c.data {
        Some(old) => (c, seq![ContainerEffect::UpdateData(old)]),
        None => (
            ContainerView { data: Some(fresh), ..c },
            seq![ContainerEffect::CreateData(fresh), ContainerEffect::Notify(ContainerProperty::Data)],
        ),
    }
}

/// Starting an inspection: it goes ahead unless one is under way, and no
/// other may start until it ends.
pub open spec fn spec_inspect(c: ContainerView) -> (ContainerView, bool) {
    (ContainerView { can_inspect: false, ..c }, c.can_inspect)
}

/// The end of an inspection: its data is stored, or its error reported,
/// and inspection is allowed again.
pub open spec fn spec_inspect_finished(c: ContainerView, result: Option<ObjectRef>) -> (ContainerView, Seq<ContainerEffect>) {
    match result {
        Some(fresh) => {
            let r = spec_set_data(c, fresh);
            (ContainerView { can_inspect: true, ..r.0 }, r.1)
        },
        None => (ContainerView { can_inspect: true, ..c }, seq![ContainerEffect::ReportInspectError]),
    }
}

impl Container {
    /// The value of property `p`. The `deleted` property holds no value.
    pub fn property(&self, p: ContainerProperty) -> (v: ContainerValue)
        requires
            p != ContainerProperty::Deleted,
        ensures
            spec_read(self@, p) == Some(v@),
    {
        match p {
            ContainerProperty::ContainerList => ContainerValue::ContainerList(self.container_list),
            ContainerProperty::ActionOngoing => ContainerValue::ActionOngoing(self.action_ongoing),
            ContainerProperty::Deleted => {
                // Ruled out by `requires`.
                proof {
                    assert(false);
                }
                ContainerValue::Selected(self.selected)
            },
            ContainerProperty::Created => ContainerValue::Created(self.created),
            ContainerProperty::HealthStatus => ContainerValue::HealthStatus(self.health_status),
            ContainerProperty::Id => ContainerValue::Id(self.id.clone()),
            ContainerProperty::Image => ContainerValue::Image(self.image),
            ContainerProperty::ImageId => ContainerValue::ImageId(Some(self.image_id.clone())),
            ContainerProperty::ImageName => ContainerValue::ImageName(self.image_name.clone()),
            ContainerProperty::Name => ContainerValue::Name(self.name.clone()),
            ContainerProperty::Pod => ContainerValue::Pod(self.pod),
            ContainerProperty::PodId => ContainerValue::PodId(self.pod_id.clone()),
            ContainerProperty::PortBindings => {
                let b = self.port_bindings.clone();
                proof {
                    vstd::std_specs::vec::vec_clone_deep_view_proof(self.port_bindings, b);
                }
                ContainerValue::PortBindings(b)
            },
            ContainerProperty::Stats => ContainerValue::Stats(self.stats()),
            ContainerProperty::Status => ContainerValue::Status(self.status),
            ContainerProperty::UpSince => ContainerValue::UpSince(self.up_since),
            ContainerProperty::Data => ContainerValue::Data(self.data),
            ContainerProperty::Selected => ContainerValue::Selected(self.selected),
        }
    }

    /// Writes a property once the object exists; only properties that are
    /// writable and not reserved to construction may be written.
    pub fn set_property(&mut self, value: ContainerValue) -> (effects: Vec<ContainerEffect>)
        requires
            spec_settable(value@.target()),
        ensures
            final(self)@ == spec_apply(old(self)@, value@),
            effects@ == spec_effects(old(self)@, value@),
    {
        match value {
            ContainerValue::ActionOngoing(v) => self.set_action_ongoing(v),
            ContainerValue::HealthStatus(v) => self.set_health_status(v),
            ContainerValue::Image(v) => self.set_image(v),
            ContainerValue::ImageName(v) => self.set_image_name(v),
            ContainerValue::Name(v) => self.set_name(v),
            ContainerValue::Pod(v) => self.set_pod(v),
            ContainerValue::Stats(v) => self.set_stats(v),
            ContainerValue::Status(v) => self.set_status(v),
            ContainerValue::UpSince(v) => self.set_up_since(v),
            ContainerValue::Selected(v) => {
                self.selected = v;
                Vec::new()
            },
            _ => Vec::new(),
        }
    }

    /// Takes in a fresh entry of the container list: the busy mark is
    /// cleared and health, image name, name, status and start time are
    /// written, in that order.
    pub fn update(&mut self, list_container: ListContainer) -> (effects: Vec<ContainerEffect>)
        requires
            spec_can_update(list_container),
        ensures
            (final(self)@, effects@) == spec_update(old(self)@, list_container),
    {
        let health = match &list_container.status {
            Some(s) => health_status(Some(s.as_str())),
            None => health_status(None),
        };
        let st = match &list_container.state {
            Some(s) => status(Some(s.as_str())),
            None => status(None),
        };
        let name = match &list_container.names {
            Some(names) => names[0].clone(),
            None => String::new(),
        };
        let up_since = match list_container.started_at {
            Some(t) => t,
            None => 0,
        };
        let ListContainer { image, .. } = list_container;
        let mut effects = self.set_action_ongoing(false);
        let mut e = self.set_health_status(health);
        effects.append(&mut e);
        let mut e = self.set_image_name(image);
        effects.append(&mut e);
        let mut e = self.set_name(name);
        effects.append(&mut e);
        let mut e = self.set_status(st);
        effects.append(&mut e);
        let mut e = self.set_up_since(up_since);
        effects.append(&mut e);
        effects
    }

    /// Stores fresh inspection data; see `spec_set_data`.
    pub fn set_data(&mut self, fresh: ObjectRef) -> (effects: Vec<ContainerEffect>)
        ensures
            (final(self)@, effects@) == spec_set_data(old(self)@, fresh),
    {
        if let Some(old) = self.data {
            return vec![ContainerEffect::UpdateData(old)];
        }
        self.data = Some(fresh);
        vec![ContainerEffect::CreateData(fresh), ContainerEffect::Notify(ContainerProperty::Data)]
    }

    /// Starts an inspection unless one is under way; tells whether the
    /// inspection request is to be sent. `api_available` tells whether the
    /// client has a connection to Podman: an inspection cannot start
    /// without one.
    pub fn inspect(&mut self, api_available: bool) -> (start: bool)
        requires
            old(self)@.can_inspect ==> api_available,
        ensures
            (final(self)@, start) == spec_inspect(old(self)@),
    {
        if !self.can_inspect {
            return false;
        }
        self.can_inspect = false;
        true
    }

    /// Ends an inspection with its data (the reference under which new
    /// inspection data is to be created) or, on `None`, with an error.
    pub fn inspect_finished(&mut self, result: Option<ObjectRef>) -> (effects: Vec<ContainerEffect>)
        ensures
            (final(self)@, effects@) == spec_inspect_finished(old(self)@, result),
    {
        let effects = match result {
            Some(fresh) => self.set_data(fresh),
            None => vec![ContainerEffect::ReportInspectError],
        };
        self.can_inspect = true;
        effects
    }

    /// Starts `action`; see `spec_action`. While another action is under way
    /// it returns at once and changes nothing.
    pub fn action(&mut self, action: ContainerAction, api_available: bool) -> (start: ActionStart)
        ensures
            old(self)@.action_ongoing ==> final(self)@ == old(self)@ && start.call is None
                && start.effects@ == Seq::<ContainerEffect>::empty(),
            (final(self)@, start.call, start.effects@) == spec_action(old(self)@, action, api_available),
    {
        if !api_available {
            return ActionStart { call: None, effects: Vec::new() };
        }
        if self.action_ongoing {
            return ActionStart { call: None, effects: Vec::new() };
        }
        let effects = self.set_action_ongoing(true);
        ActionStart { call: Some(action.api_call()), effects }
    }

    /// Starts the container.
    pub fn start(&mut self, api_available: bool) -> (start: ActionStart)
        ensures
            (final(self)@, start.call, start.effects@) == spec_action(old(self)@, ContainerAction::Start, api_available),
            old(self)@.action_ongoing ==> final(self)@ == old(self)@ && start.call is None
                && start.effects@ == Seq::<ContainerEffect>::empty(),
    {
        self.action(ContainerAction::Start, api_available)
    }

    /// Stops the container; a forced stop kills it.
    pub fn stop(&mut self, force: bool, api_available: bool) -> (start: ActionStart)
        ensures
            (final(self)@, start.call, start.effects@) == spec_action(old(self)@, ContainerAction::Stop { force }, api_available),
            old(self)@.action_ongoing ==> final(self)@ == old(self)@ && start.call is None
                && start.effects@ == Seq::<ContainerEffect>::empty(),
    {
        self.action(ContainerAction::Stop { force }, api_available)
    }

    /// Restarts the container; a forced restart does not wait.
    pub fn restart(&mut self, force: bool, api_available: bool) -> (start: ActionStart)
        ensures
            (final(self)@, start.call, start.effects@) == spec_action(old(self)@, ContainerAction::Restart { force }, api_available),
            old(self)@.action_ongoing ==> final(self)@ == old(self)@ && start.call is None
                && start.effects@ == Seq::<ContainerEffect>::empty(),
    {
        self.action(ContainerAction::Restart { force }, api_available)
    }

    /// Pauses the container.
    pub fn pause(&mut self, api_available: bool) -> (start: ActionStart)
        ensures
            (final(self)@, start.call, start.effects@) == spec_action(old(self)@, ContainerAction::Pause, api_available),
            old(self)@.action_ongoing ==> final(self)@ == old(self)@ && start.call is None
                && start.effects@ == Seq::<ContainerEffect>::empty(),
    {
        self.action(ContainerAction::Pause, api_available)
    }

    /// Resumes the paused container.
    pub fn resume(&mut self, api_available: bool) -> (start: ActionStart)
        ensures
            (final(self)@, start.call, start.effects@) == spec_action(old(self)@, ContainerAction::Resume, api_available),
            old(self)@.action_ongoing ==> final(self)@ == old(self)@ && start.call is None
                && start.effects@ == Seq::<ContainerEffect>::empty(),
    {
        self.action(ContainerAction::Resume, api_available)
    }

    /// Renames the container.
    pub fn rename(&mut self, new_name: String, api_available: bool) -> (start: ActionStart)
        ensures
            (final(self)@, start.call, start.effects@) == spec_action(old(self)@, ContainerAction::Rename { new_name }, api_available),
            old(self)@.action_ongoing ==> final(self)@ == old(self)@ && start.call is None
                && start.effects@ == Seq::<ContainerEffect>::empty(),
    {
        self.action(ContainerAction::Rename { new_name }, api_available)
    }

    /// Commits the container to an image.
    pub fn commit(&mut self, api_available: bool) -> (start: ActionStart)
        ensures
            (final(self)@, start.call, start.effects@) == spec_action(old(self)@, ContainerAction::Commit, api_available),
            old(self)@.action_ongoing ==> final(self)@ == old(self)@ && start.call is None
                && start.effects@ == Seq::<ContainerEffect>::empty(),
    {
        self.action(ContainerAction::Commit, api_available)
    }

    /// Deletes the container.
    pub fn delete(&mut self, force: bool, api_available: bool) -> (start: ActionStart)
        ensures
            (final(self)@, start.call, start.effects@) == spec_action(old(self)@, ContainerAction::Delete { force }, api_available),
            old(self)@.action_ongoing ==> final(self)@ == old(self)@ && start.call is None
                && start.effects@ == Seq::<ContainerEffect>::empty(),
    {
        self.action(ContainerAction::Delete { force }, api_available)
    }

    /// Ends an action with the outcome of its request.
    pub fn action_finished(&mut self, succeeded: bool) -> (effects: Vec<ContainerEffect>)
        ensures
            (final(self)@, effects@) == spec_action_finished(old(self)@, succeeded),
    {
        if succeeded {
            return Vec::new();
        }
        self.set_action_ongoing(false)
    }

    /// The container was deleted: its pod, if any, refreshes itself, then
    /// the `deleted` signal is emitted.
    pub fn on_deleted(&self) -> (effects: Vec<ContainerEffect>)
        ensures
            effects@ == spec_refresh(self@.pod) + seq![ContainerEffect::EmitDeleted],
    {
        let mut effects: Vec<ContainerEffect> = Vec::new();
        if let Some(p) = self.pod {
            effects.push(ContainerEffect::RefreshPod(p));
        }
        effects.push(ContainerEffect::EmitDeleted);
        proof {
            assert(effects@ =~= spec_refresh(self@.pod) + seq![ContainerEffect::EmitDeleted]);
        }
        effects
    }
}


/// Whether writing `v` leaves property `v.target()` as it is, by the
/// equality that the property's type defines: resource usages compare their
/// percentages as numbers, everything else compares as values.
pub open spec fn spec_same_value(c: ContainerView, v: ContainerValueView) -> bool {
    match v {
        ContainerValueView::Stats(x) => spec_opt_stats_eq(c.stats, x),
        _ => spec_read(c, v.target()) == Some(v),
    }
}

/// Law: a property written once the object exists reads back as the value
/// written. It fails only for resource usages equal as numbers to the
/// usage held but not identical to it (a zero of the other sign), where the
/// usage held stays.
pub proof fn lemma_property_reads_back(c: ContainerView, v: ContainerValueView)
    requires
        spec_settable(v.target()),
        match v {
            ContainerValueView::Stats(x) => spec_opt_stats_eq(c.stats, x) ==> c.stats == x,
            _ => true,
        },
    ensures
        spec_read(spec_apply(c, v), v.target()) == Some(v),
{
}

/// Law: writing the same value twice changes nothing the second time and
/// asks nothing of the toolkit. It fails only for resource usages holding a
/// NaN percentage, which equal nothing, not even themselves.
pub proof fn lemma_write_is_idempotent(c: ContainerView, v: ContainerValueView)
    requires
        spec_settable(v.target()),
        v matches ContainerValueView::Stats(x) ==> spec_opt_stats_eq(x, x),
    ensures
        spec_apply(spec_apply(c, v), v) == spec_apply(c, v),
        spec_effects(spec_apply(c, v), v) == Seq::<ContainerEffect>::empty(),
{
}

/// Law: a write is announced exactly when the property is declared to be
/// announced on change and the value written differs from the one held; a
/// write that announces nothing asks nothing else either.
pub proof fn lemma_notify_iff_changed(c: ContainerView, v: ContainerValueView)
    requires
        spec_settable(v.target()),
    ensures
        spec_effects(c, v).contains(ContainerEffect::Notify(v.target())) <==> (
        v.target().spec_param().flags.explicit_notify && !spec_same_value(c, v)),
        !spec_effects(c, v).contains(ContainerEffect::Notify(v.target())) ==> spec_effects(c, v)
            == Seq::<ContainerEffect>::empty(),
{
    let e = spec_effects(c, v);
    let n = ContainerEffect::Notify(v.target());
    if e.len() > 0 {
        assert(e[e.len() - 1] == n);
    }
    if v.target().spec_param().flags.explicit_notify && !spec_same_value(c, v) {
        assert(e[e.len() - 1] == n);
    }
}

/// Law: updating a container from the very list entry it was built from
/// changes nothing and asks nothing of the toolkit.
pub proof fn lemma_update_after_new(cl: ObjectRef, l: ListContainer)
    requires
        spec_can_construct(l),
    ensures
        spec_update(spec_new(cl, l), l) == (spec_new(cl, l), Seq::<ContainerEffect>::empty()),
{
    let r = spec_update(spec_new(cl, l), l);
    assert(r.0 == spec_new(cl, l));
    assert(r.1 =~= Seq::<ContainerEffect>::empty());
}

/// Law: updating twice from the same list entry changes nothing the second
/// time and asks nothing of the toolkit.
pub proof fn lemma_update_is_idempotent(c: ContainerView, l: ListContainer)
    requires
        spec_can_update(l),
    ensures
        spec_update(spec_update(c, l).0, l) == (spec_update(c, l).0, Seq::<ContainerEffect>::empty()),
{
    let c1 = spec_update(c, l).0;
    let vs = spec_update_values(l);
    assert(c1.action_ongoing == false);
    assert(spec_apply(c1, vs[0]) == c1);
    assert(spec_effects(c1, vs[0]) =~= Seq::<ContainerEffect>::empty());
    assert(spec_apply(c1, vs[1]) == c1);
    assert(spec_effects(c1, vs[1]) =~= Seq::<ContainerEffect>::empty());
    assert(spec_apply(c1, vs[2]) == c1);
    assert(spec_effects(c1, vs[2]) =~= Seq::<ContainerEffect>::empty());
    assert(spec_apply(c1, vs[3]) == c1);
    assert(spec_effects(c1, vs[3]) =~= Seq::<ContainerEffect>::empty());
    assert(spec_apply(c1, vs[4]) == c1);
    assert(spec_effects(c1, vs[4]) =~= Seq::<ContainerEffect>::empty());
    assert(spec_apply(c1, vs[5]) == c1);
    assert(spec_effects(c1, vs[5]) =~= Seq::<ContainerEffect>::empty());
    let r = spec_update(c1, l);
    assert(r.0 == c1);
    assert(r.1 =~= Seq::<ContainerEffect>::empty());
}

/// Law: while an action is under way no other action starts; an action
/// starts only with a connection and with no other under way, and then
/// sends the request of that action.
pub proof fn lemma_one_action_at_a_time(
    c: ContainerView,
    a: ContainerAction,
    b: ContainerAction,
    api_a: bool,
    api_b: bool,
)
    ensures
        spec_action(c, a, api_a).1 is Some <==> (api_a && !c.action_ongoing),
        spec_action(c, a, api_a).1 matches Some(call) ==> call == spec_api_call(a),
        spec_action(c, a, api_a).1 is Some ==> spec_action(spec_action(c, a, api_a).0, b, api_b).1 is None,
{
}

/// Law: after a started action fails, or after the next update from the
/// container list, a new action may start again.
pub proof fn lemma_action_released(
    c: ContainerView,
    a: ContainerAction,
    b: ContainerAction,
    l: ListContainer,
)
    requires
        spec_can_update(l),
    ensures
        spec_action(spec_action_finished(spec_action(c, a, true).0, false).0, b, true).1 is Some,
        spec_action(spec_update(spec_action(c, a, true).0, l).0, b, true).1 is Some,
{
}

/// Law: one inspection at a time; once one ends, another may start.
pub proof fn lemma_one_inspection_at_a_time(c: ContainerView, result: Option<ObjectRef>)
    ensures
        !spec_inspect(spec_inspect(c).0).1,
        spec_inspect(spec_inspect_finished(spec_inspect(c).0, result).0).1,
{
}

/// Law: the first successful inspection creates the inspection data and
/// announces it; later ones update that same data in place.
pub proof fn lemma_inspection_data_created_once(c: ContainerView, first: ObjectRef, later: ObjectRef)
    requires
        c.data is None,
    ensures
        spec_inspect_finished(c, Some(first)).1 == seq![
            ContainerEffect::CreateData(first),
            ContainerEffect::Notify(ContainerProperty::Data),
        ],
        spec_inspect_finished(c, Some(first)).0.data == Some(first),
        spec_inspect_finished(spec_inspect_finished(c, Some(first)).0, Some(later)).1 == seq![
            ContainerEffect::UpdateData(first),
        ],
        spec_inspect_finished(spec_inspect_finished(c, Some(first)).0, Some(later)).0.data == Some(first),
{
}


/// One operation on a container object, as its view sees it.
pub enum ContainerOp {
    /// A setter, or `set_property`, writing a value.
    Write(ContainerValueView),
    /// `update` from a list entry.
    Update(ListContainer),
    /// `start`, `stop`, ..., `delete`, with whether the API is at hand.
    StartAction(ContainerAction, bool),
    /// `action_finished`, with whether the request succeeded.
    FinishAction(bool),
    /// `inspect`.
    Inspect,
    /// `inspect_finished`, with the inspection's outcome.
    FinishInspection(Option<ObjectRef>),
}

/// The container after operation `op`.
pub open spec fn spec_step(c: ContainerView, op: ContainerOp) -> ContainerView {
    match op {
        ContainerOp::Write(v) => spec_apply(c, v),
        ContainerOp::Update(l) => spec_update(c, l).0,
        ContainerOp::StartAction(a, api) => spec_action(c, a, api).0,
        ContainerOp::FinishAction(ok) => spec_action_finished(c, ok).0,
        ContainerOp::Inspect => spec_inspect(c).0,
        ContainerOp::FinishInspection(r) => spec_inspect_finished(c, r).0,
    }
}

/// The container after operations `ops`, one after the other.
pub open spec fn spec_run(c: ContainerView, ops: Seq<ContainerOp>) -> ContainerView
    decreases ops.len(),
{
    if ops.len() == 0 {
        c
    } else {
        spec_run(spec_step(c, ops[0]), ops.drop_first())
    }
}

/// What a container gets at construction and keeps: its container list,
/// creation time, id, image id, pod id and port bindings.
pub open spec fn spec_fixed(c: ContainerView) -> (ObjectRef, i64, Seq<char>, Seq<char>, Option<Seq<char>>, Seq<Seq<char>>) {
    (c.container_list, c.created, c.id, c.image_id, c.pod_id, c.port_bindings)
}

proof fn lemma_apply_keeps(c: ContainerView, v: ContainerValueView)
    ensures
        spec_fixed(spec_apply(c, v)) == spec_fixed(c),
        spec_apply(c, v).data == c.data,
{
}

proof fn lemma_step_keeps(c: ContainerView, op: ContainerOp)
    ensures
        spec_fixed(spec_step(c, op)) == spec_fixed(c),
        c.data matches Some(o) ==> spec_step(c, op).data == Some(o),
{
    match op {
        ContainerOp::Write(v) => lemma_apply_keeps(c, v),
        ContainerOp::Update(l) => {
            let vs = spec_update_values(l);
            let c1 = spec_apply(c, vs[0]);
            let c2 = spec_apply(c1, vs[1]);
            let c3 = spec_apply(c2, vs[2]);
            let c4 = spec_apply(c3, vs[3]);
            let c5 = spec_apply(c4, vs[4]);
            lemma_apply_keeps(c, vs[0]);
            lemma_apply_keeps(c1, vs[1]);
            lemma_apply_keeps(c2, vs[2]);
            lemma_apply_keeps(c3, vs[3]);
            lemma_apply_keeps(c4, vs[4]);
            lemma_apply_keeps(c5, vs[5]);
        },
        ContainerOp::StartAction(a, api) => lemma_apply_keeps(c, ContainerValueView::ActionOngoing(true)),
        ContainerOp::FinishAction(ok) => lemma_apply_keeps(c, ContainerValueView::ActionOngoing(false)),
        ContainerOp::Inspect => {},
        ContainerOp::FinishInspection(r) => {},
    }
}

/// Law: whatever operations follow, a container keeps the container list,
/// creation time, id, image id, pod id and port bindings it was built with,
/// and inspection data, once created, stays that same object.
pub proof fn lemma_construction_fields_and_data_persist(c: ContainerView, ops: Seq<ContainerOp>)
    ensures
        spec_fixed(spec_run(c, ops)) == spec_fixed(c),
        c.data matches Some(o) ==> spec_run(c, ops).data == Some(o),
    decreases ops.len(),
{
    if ops.len() > 0 {
        lemma_step_keeps(c, ops[0]);
        lemma_construction_fields_and_data_persist(spec_step(c, ops[0]), ops.drop_first());
    }
}


/// Law: the Podman request that an action sends is the one its log word
/// names: "starting" starts, "stopping" stops, "force stopping" kills,
/// "pausing" pauses, "resuming" unpauses, "renaming" renames to the new
/// name, "committing" commits, "deleting" and "force deleting" delete
/// without and with force; "restarting" restarts without waiting and
/// "force restarting" restarts normally, as those words are logged.
pub proof fn lemma_request_matches_log_word(a: ContainerAction)
    ensures
        spec_description(a) == "starting"@ <==> spec_api_call(a) == ApiCall::Start,
        spec_description(a) == "stopping"@ <==> spec_api_call(a) == ApiCall::Stop,
        spec_description(a) == "force stopping"@ <==> spec_api_call(a) == ApiCall::Kill,
        spec_description(a) == "restarting"@ <==> spec_api_call(a) == (ApiCall::RestartWithTimeout { timeout: 0 }),
        spec_description(a) == "force restarting"@ <==> spec_api_call(a) == ApiCall::Restart,
        spec_description(a) == "pausing"@ <==> spec_api_call(a) == ApiCall::Pause,
        spec_description(a) == "resuming"@ <==> spec_api_call(a) == ApiCall::Unpause,
        spec_description(a) == "renaming"@ <==> spec_api_call(a) is Rename,
        spec_description(a) == "committing"@ <==> spec_api_call(a) == ApiCall::Commit,
        spec_description(a) == "deleting"@ <==> spec_api_call(a) == (ApiCall::Delete { force: false }),
        spec_description(a) == "force deleting"@ <==> spec_api_call(a) == (ApiCall::Delete { force: true }),
        a matches ContainerAction::Rename { new_name } ==> spec_api_call(a) == (ApiCall::Rename { new_name }),
{
    reveal_strlit("starting");
    reveal_strlit("stopping");
    reveal_strlit("force stopping");
    reveal_strlit("restarting");
    reveal_strlit("force restarting");
    reveal_strlit("pausing");
    reveal_strlit("resuming");
    reveal_strlit("renaming");
    reveal_strlit("committing");
    reveal_strlit("deleting");
    reveal_strlit("force deleting");
    assert("starting"@.len() == 8 && "starting"@[0] == 's' && "starting"@[2] == 'a' && "starting"@[6] == 'n');
    assert("stopping"@.len() == 8 && "stopping"@[0] == 's' && "stopping"@[2] == 'o' && "stopping"@[6] == 'n');
    assert("force stopping"@.len() == 14 && "force stopping"@[0] == 'f' && "force stopping"@[2] == 'r' && "force stopping"@[6] == 's');
    assert("restarting"@.len() == 10 && "restarting"@[0] == 'r' && "restarting"@[2] == 's' && "restarting"@[6] == 't');
    assert("force restarting"@.len() == 16 && "force restarting"@[0] == 'f' && "force restarting"@[2] == 'r' && "force restarting"@[6] == 'r');
    assert("pausing"@.len() == 7 && "pausing"@[0] == 'p' && "pausing"@[2] == 'u' && "pausing"@[6] == 'g');
    assert("resuming"@.len() == 8 && "resuming"@[0] == 'r' && "resuming"@[2] == 's' && "resuming"@[6] == 'n');
    assert("renaming"@.len() == 8 && "renaming"@[0] == 'r' && "renaming"@[2] == 'n' && "renaming"@[6] == 'n');
    assert("committing"@.len() == 10 && "committing"@[0] == 'c' && "committing"@[2] == 'm' && "committing"@[6] == 't');
    assert("deleting"@.len() == 8 && "deleting"@[0] == 'd' && "deleting"@[2] == 'l' && "deleting"@[6] == 'n');
    assert("force deleting"@.len() == 14 && "force deleting"@[0] == 'f' && "force deleting"@[2] == 'r' && "force deleting"@[6] == 'd');
}

/// A percentage's bit pattern with both zeros made one.
pub open spec fn spec_f64_bits_norm(b: Option<u64>) -> Option<u64> {
    match b {
        Some(x) => if spec_f64_bits_is_zero(x) {
            Some(0u64)
        } else {
            Some(x)
        },
        None => None,
    }
}

/// A percentage that is not a number.
pub open spec fn spec_opt_f64_bits_is_nan(b: Option<u64>) -> bool {
    b matches Some(x) && spec_f64_bits_is_nan(x)
}

/// A resource usage holds a percentage that is not a number.
pub open spec fn spec_stats_has_nan(a: StatsView) -> bool {
    spec_opt_f64_bits_is_nan(a.avg_cpu_bits) || spec_opt_f64_bits_is_nan(a.cpu_bits)
        || spec_opt_f64_bits_is_nan(a.mem_perc_bits)
}

/// A resource usage with both zeros made one in each percentage.
pub open spec fn spec_stats_norm(a: StatsView) -> StatsView {
    StatsView {
        avg_cpu_bits: spec_f64_bits_norm(a.avg_cpu_bits),
        cpu_bits: spec_f64_bits_norm(a.cpu_bits),
        mem_perc_bits: spec_f64_bits_norm(a.mem_perc_bits),
        ..a
    }
}

proof fn lemma_f64_bits_eq_by_norm(x: Option<u64>, y: Option<u64>)
    ensures
        spec_opt_f64_bits_eq(x, y) <==> (!spec_opt_f64_bits_is_nan(x) && !spec_opt_f64_bits_is_nan(y)
            && spec_f64_bits_norm(x) == spec_f64_bits_norm(y)),
{
    if let (Some(a), Some(b)) = (x, y) {
        assert(!spec_f64_bits_is_zero(a) ==> a != 0u64) by (bit_vector);
        assert(!spec_f64_bits_is_zero(b) ==> b != 0u64) by (bit_vector);
    }
}

/// Law: two resource usages are equal exactly when neither holds a
/// percentage that is not a number and they agree in every field, the two
/// zeros of a percentage counting as one. A new usage that differs in any
/// counter, text or percentage is therefore stored and announced.
pub proof fn lemma_stats_equality(a: StatsView, b: StatsView)
    ensures
        spec_stats_eq(a, b) <==> (!spec_stats_has_nan(a) && !spec_stats_has_nan(b)
            && spec_stats_norm(a) == spec_stats_norm(b)),
{
    lemma_f64_bits_eq_by_norm(a.avg_cpu_bits, b.avg_cpu_bits);
    lemma_f64_bits_eq_by_norm(a.cpu_bits, b.cpu_bits);
    lemma_f64_bits_eq_by_norm(a.mem_perc_bits, b.mem_perc_bits);
    if spec_stats_norm(a) == spec_stats_norm(b) {
        assert(spec_stats_norm(a).cpu_nano == spec_stats_norm(b).cpu_nano);
    }
}

/// Law: writing a resource usage that differs from the one held stores it
/// and announces it.
pub proof fn lemma_changed_stats_stored(c: ContainerView, x: Option<StatsView>)
    requires
        !spec_opt_stats_eq(c.stats, x),
    ensures
        spec_apply(c, ContainerValueView::Stats(x)).stats == x,
        spec_effects(c, ContainerValueView::Stats(x)) == seq![ContainerEffect::Notify(ContainerProperty::Stats)],
{
}

} // verus!
