use vstd::prelude::*;

use crate::container::opt_string_view;
use crate::param::{readwrite_notify, spec_readwrite_notify, ParamKind, ParamSpec, ParamSpecView};
use crate::text::str_eq;

verus! {

/// A property of a device object.
#[derive(Debug, Clone, Copy, PartialEq, Eq, Structural)]
pub enum DeviceProperty {
    HostPath,
    ContainerPath,
    Writable,
    Readable,
    Mknod,
}

impl DeviceProperty {
    /// The declaration of this property.
    pub open spec fn spec_param(self) -> ParamSpecView {
        match self {
            DeviceProperty::HostPath => ParamSpecView {
                name: "host-path"@,
                nick: "Host Path"@,
                blurb: "The host path"@,
                kind: ParamKind::Text,
                flags: spec_readwrite_notify(),
            },
            DeviceProperty::ContainerPath => ParamSpecView {
                name: "container-path"@,
                nick: "Container Path"@,
                blurb: "The container path"@,
                kind: ParamKind::Text,
                flags: spec_readwrite_notify(),
            },
            DeviceProperty::Writable => ParamSpecView {
                name: "writable"@,
                nick: "Writable"@,
                blurb: "Whether the device is writable"@,
                kind: ParamKind::Boolean(true),
                flags: spec_readwrite_notify(),
            },
            DeviceProperty::Readable => ParamSpecView {
                name: "readable"@,
                nick: "Readable"@,
                blurb: "Whether the device is readable"@,
                kind: ParamKind::Boolean(true),
                flags: spec_readwrite_notify(),
            },
            DeviceProperty::Mknod => ParamSpecView {
                name: "mknod"@,
                nick: "mknod"@,
                blurb: "Whether the device is capable of mknod"@,
                kind: ParamKind::Boolean(true),
                flags: spec_readwrite_notify(),
            },
        }
    }

    /// The declaration of this property, as the object class installs it.
    pub fn param_spec(&self) -> (ps: ParamSpec)
        ensures
            ps@ == self.spec_param(),
    {
        match self {
            DeviceProperty::HostPath => ParamSpec {
                name: "host-path",
                nick: "Host Path",
                blurb: "The host path",
                kind: ParamKind::Text,
                flags: readwrite_notify(),
            },
            DeviceProperty::ContainerPath => ParamSpec {
                name: "container-path",
                nick: "Container Path",
                blurb: "The container path",
                kind: ParamKind::Text,
                flags: readwrite_notify(),
            },
            DeviceProperty::Writable => ParamSpec {
                name: "writable",
                nick: "Writable",
                blurb: "Whether the device is writable",
                kind: ParamKind::Boolean(true),
                flags: readwrite_notify(),
            },
            DeviceProperty::Readable => ParamSpec {
                name: "readable",
                nick: "Readable",
                blurb: "Whether the device is readable",
                kind: ParamKind::Boolean(true),
                flags: readwrite_notify(),
            },
            DeviceProperty::Mknod => ParamSpec {
                name: "mknod",
                nick: "mknod",
                blurb: "Whether the device is capable of mknod",
                kind: ParamKind::Boolean(true),
                flags: readwrite_notify(),
            },
        }
    }

    /// The name of this property.
    pub fn name(&self) -> (n: &'static str)
        ensures
            n@ == self.spec_param().name,
    {
        match self {
            DeviceProperty::HostPath => "host-path",
            DeviceProperty::ContainerPath => "container-path",
            DeviceProperty::Writable => "writable",
            DeviceProperty::Readable => "readable",
            DeviceProperty::Mknod => "mknod",
        }
    }

    /// The property that a name designates, if any.
    pub open spec fn spec_named(s: Seq<char>) -> Option<DeviceProperty> {
        if s == "host-path"@ {
            Some(DeviceProperty::HostPath)
        } else if s == "container-path"@ {
            Some(DeviceProperty::ContainerPath)
        } else if s == "writable"@ {
            Some(DeviceProperty::Writable)
        } else if s == "readable"@ {
            Some(DeviceProperty::Readable)
        } else if s == "mknod"@ {
            Some(DeviceProperty::Mknod)
        } else {
            None
        }
    }

    /// Looks a property up by its name.
    pub fn from_name(s: &str) -> (p: Option<DeviceProperty>)
        ensures
            p == DeviceProperty::spec_named(s@),
    {
        if str_eq(s, "host-path") {
            Some(DeviceProperty::HostPath)
        } else if str_eq(s, "container-path") {
            Some(DeviceProperty::ContainerPath)
        } else if str_eq(s, "writable") {
            Some(DeviceProperty::Writable)
        } else if str_eq(s, "readable") {
            Some(DeviceProperty::Readable)
        } else if str_eq(s, "mknod") {
            Some(DeviceProperty::Mknod)
        } else {
            None
        }
    }

    /// All properties, in the order in which the class installs them.
    pub open spec fn spec_all() -> Seq<DeviceProperty> {
        seq![DeviceProperty::HostPath, DeviceProperty::ContainerPath, DeviceProperty::Writable, DeviceProperty::Readable, DeviceProperty::Mknod]
    }

    /// All properties, in the order in which the class installs them.
    pub fn all() -> (ps: Vec<DeviceProperty>)
        ensures
            ps@ == DeviceProperty::spec_all(),
    {
        let mut ps = Vec::new();
        ps.push(DeviceProperty::HostPath);
        ps.push(DeviceProperty::ContainerPath);
        ps.push(DeviceProperty::Writable);
        ps.push(DeviceProperty::Readable);
        ps.push(DeviceProperty::Mknod);
        assert(ps@ =~= DeviceProperty::spec_all());
        ps
    }

    /// The declarations of all properties, in the order in which the class
    /// installs them.
    pub fn properties() -> (specs: Vec<ParamSpec>)
        ensures
            specs@.len() == DeviceProperty::spec_all().len(),
            forall|i: int| 0 <= i < specs@.len() ==> #[trigger] specs@[i]@ == DeviceProperty::spec_all()[i].spec_param(),
    {
        let all = DeviceProperty::all();
        let mut specs: Vec<ParamSpec> = Vec::new();
        let mut i: usize = 0;
        while i < all.len()
            invariant
                all@ == DeviceProperty::spec_all(),
                i <= all@.len(),
                specs@.len() == i,
                forall|j: int| 0 <= j < i ==> #[trigger] specs@[j]@ == DeviceProperty::spec_all()[j].spec_param(),
            decreases all@.len() - i,
        {
            specs.push(all[i].param_spec());
            i = i + 1;
        }
        specs
    }
}

/// Law: each device property is found again by its name, and no two device properties share a name.
pub proof fn lemma_device_property_names(p: DeviceProperty, q: DeviceProperty)
    ensures
        DeviceProperty::spec_named(p.spec_param().name) == Some(p),
        p != q ==> p.spec_param().name != q.spec_param().name,
        DeviceProperty::spec_all().contains(p),
{
    reveal_strlit("host-path");
    reveal_strlit("container-path");
    reveal_strlit("writable");
    reveal_strlit("readable");
    reveal_strlit("mknod");
    assert("host-path"@.len() == 9 && "host-path"@[0] == 'h' && "host-path"@[1] == 'o');
    assert("container-path"@.len() == 14 && "container-path"@[0] == 'c' && "container-path"@[1] == 'o');
    assert("writable"@.len() == 8 && "writable"@[0] == 'w' && "writable"@[1] == 'r');
    assert("readable"@.len() == 8 && "readable"@[0] == 'r' && "readable"@[1] == 'e');
    assert("mknod"@.len() == 5 && "mknod"@[0] == 'm' && "mknod"@[1] == 'k');
    assert(DeviceProperty::spec_all()[0] == DeviceProperty::HostPath);
    match p {
        DeviceProperty::HostPath => assert(DeviceProperty::spec_all()[0] == p),
        DeviceProperty::ContainerPath => assert(DeviceProperty::spec_all()[1] == p),
        DeviceProperty::Writable => assert(DeviceProperty::spec_all()[2] == p),
        DeviceProperty::Readable => assert(DeviceProperty::spec_all()[3] == p),
        DeviceProperty::Mknod => assert(DeviceProperty::spec_all()[4] == p),
    }
}

/// The value of one device property, as the toolkit hands it over; a path
/// may come as no string at all.
#[derive(Debug)]
pub enum DeviceValue {
    HostPath(Option<String>),
    ContainerPath(Option<String>),
    Writable(bool),
    Readable(bool),
    Mknod(bool),
}

/// The mathematical value of a `DeviceValue`.
pub enum DeviceValueView {
    HostPath(Option<Seq<char>>),
    ContainerPath(Option<Seq<char>>),
    Writable(bool),
    Readable(bool),
    Mknod(bool),
}

impl View for DeviceValue {
    type V = DeviceValueView;

    open spec fn view(&self) -> DeviceValueView {
        match self {
            DeviceValue::HostPath(v) => DeviceValueView::HostPath(opt_string_view(*v)),
            DeviceValue::ContainerPath(v) => DeviceValueView::ContainerPath(opt_string_view(*v)),
            DeviceValue::Writable(v) => DeviceValueView::Writable(*v),
            DeviceValue::Readable(v) => DeviceValueView::Readable(*v),
            DeviceValue::Mknod(v) => DeviceValueView::Mknod(*v),
        }
    }
}

impl DeviceValueView {
    /// The property that this value belongs to.
    pub open spec fn target(self) -> DeviceProperty {
        match self {
            DeviceValueView::HostPath(_) => DeviceProperty::HostPath,
            DeviceValueView::ContainerPath(_) => DeviceProperty::ContainerPath,
            DeviceValueView::Writable(_) => DeviceProperty::Writable,
            DeviceValueView::Readable(_) => DeviceProperty::Readable,
            DeviceValueView::Mknod(_) => DeviceProperty::Mknod,
        }
    }
}

/// What the toolkit is to do after a device operation.
#[derive(Debug, Clone, Copy, PartialEq, Eq, Structural)]
pub enum DeviceEffect {
    /// Announce that a property changed.
    Notify(DeviceProperty),
    /// Emit the `remove-request` signal.
    EmitRemoveRequest,
}

/// The state of a device mapping of a container being created.
pub struct DeviceView {
    pub host_path: Seq<char>,
    pub container_path: Seq<char>,
    pub writable: bool,
    pub readable: bool,
    pub mknod: bool,
}

/// A device of the host that a container being created may use.
pub struct Device {
    host_path: String,
    container_path: String,
    writable: bool,
    readable: bool,
    mknod: bool,
}

impl View for Device {
    type V = DeviceView;

    closed spec fn view(&self) -> DeviceView {
        DeviceView {
            host_path: self.host_path@,
            container_path: self.container_path@,
            writable: self.writable,
            readable: self.readable,
            mknod: self.mknod,
        }
    }
}

/// A new device: no paths, readable, neither writable nor capable of mknod.
pub open spec fn spec_default_device() -> DeviceView {
    DeviceView {
        host_path: Seq::empty(),
        container_path: Seq::empty(),
        writable: false,
        readable: true,
        mknod: false,
    }
}

/// Announce `p` if `changed`, else nothing.
pub open spec fn spec_device_notify_if(changed: bool, p: DeviceProperty) -> Seq<DeviceEffect> {
    if changed {
        seq![DeviceEffect::Notify(p)]
    } else {
        Seq::empty()
    }
}

/// A path as stored: no string counts as the empty one.
pub open spec fn spec_path_or_empty(s: Option<Seq<char>>) -> Seq<char> {
    match s {
        Some(s) => s,
        None => Seq::empty(),
    }
}

/// The value of property `p` of device `d`.
pub open spec fn spec_device_read(d: DeviceView, p: DeviceProperty) -> DeviceValueView {
    match p {
        DeviceProperty::HostPath => DeviceValueView::HostPath(Some(d.host_path)),
        DeviceProperty::ContainerPath => DeviceValueView::ContainerPath(Some(d.container_path)),
        DeviceProperty::Writable => DeviceValueView::Writable(d.writable),
        DeviceProperty::Readable => DeviceValueView::Readable(d.readable),
        DeviceProperty::Mknod => DeviceValueView::Mknod(d.mknod),
    }
}

/// The device after writing value `v`; a missing host path is written as
/// the empty one.
pub open spec fn spec_device_apply(d: DeviceView, v: DeviceValueView) -> DeviceView {
    match v {
        DeviceValueView::HostPath(x) => DeviceView { host_path: spec_path_or_empty(x), ..d },
        DeviceValueView::ContainerPath(x) => DeviceView { container_path: spec_path_or_empty(x), ..d },
        DeviceValueView::Writable(x) => DeviceView { writable: x, ..d },
        DeviceValueView::Readable(x) => DeviceView { readable: x, ..d },
        DeviceValueView::Mknod(x) => DeviceView { mknod: x, ..d },
    }
}

/// What writing value `v` to device `d` asks of the toolkit: the
/// announcement of the property, if its value changes.
pub open spec fn spec_device_effects(d: DeviceView, v: DeviceValueView) -> Seq<DeviceEffect> {
    spec_device_notify_if(spec_device_apply(d, v) != d, v.target())
}

/// A value that the device accepts: the container path must be a string.
pub open spec fn spec_device_value_ok(v: DeviceValueView) -> bool {
    !(v matches DeviceValueView::ContainerPath(None))
}

impl Device {
    /// The signals that the class declares, by name; each carries no
    /// argument and returns nothing.
    pub fn signals() -> (names: Vec<&'static str>)
        ensures
            names@.len() == 1,
            names@[0]@ == "remove-request"@,
    {
        vec!["remove-request"]
    }

    /// A new device: no paths, readable, neither writable nor capable of mknod.
    pub fn default() -> (d: Device)
        ensures
            d@ == spec_default_device(),
    {
        Device {
            host_path: String::new(),
            container_path: String::new(),
            writable: false,
            readable: true,
            mknod: false,
        }
    }

    pub fn host_path(&self) -> (p: String)
        ensures
            p@ == self@.host_path,
    {
        self.host_path.clone()
    }

    pub fn set_host_path(&mut self, value: String) -> (effects: Vec<DeviceEffect>)
        ensures
            final(self)@ == spec_device_apply(old(self)@, DeviceValueView::HostPath(Some(value@))),
            effects@ == spec_device_effects(old(self)@, DeviceValueView::HostPath(Some(value@))),
    {
        if self.host_path == value {
            return Vec::new();
        }
        self.host_path = value;
        vec![DeviceEffect::Notify(DeviceProperty::HostPath)]
    }

    pub fn container_path(&self) -> (p: String)
        ensures
            p@ == self@.container_path,
    {
        self.container_path.clone()
    }

    pub fn set_container_path(&mut self, value: String) -> (effects: Vec<DeviceEffect>)
        ensures
            final(self)@ == spec_device_apply(old(self)@, DeviceValueView::ContainerPath(Some(value@))),
            effects@ == spec_device_effects(old(self)@, DeviceValueView::ContainerPath(Some(value@))),
    {
        if self.container_path == value {
            return Vec::new();
        }
        self.container_path = value;
        vec![DeviceEffect::Notify(DeviceProperty::ContainerPath)]
    }

    pub fn writable(&self) -> (b: bool)
        ensures
            b == self@.writable,
    {
        self.writable
    }

    pub fn set_writable(&mut self, value: bool) -> (effects: Vec<DeviceEffect>)
        ensures
            final(self)@ == spec_device_apply(old(self)@, DeviceValueView::Writable(value)),
            effects@ == spec_device_effects(old(self)@, DeviceValueView::Writable(value)),
    {
        if self.writable == value {
            return Vec::new();
        }
        self.writable = value;
        vec![DeviceEffect::Notify(DeviceProperty::Writable)]
    }

    pub fn readable(&self) -> (b: bool)
        ensures
            b == self@.readable,
    {
        self.readable
    }

    pub fn set_readable(&mut self, value: bool) -> (effects: Vec<DeviceEffect>)
        ensures
            final(self)@ == spec_device_apply(old(self)@, DeviceValueView::Readable(value)),
            effects@ == spec_device_effects(old(self)@, DeviceValueView::Readable(value)),
    {
        if self.readable == value {
            return Vec::new();
        }
        self.readable = value;
        vec![DeviceEffect::Notify(DeviceProperty::Readable)]
    }

    pub fn mknod(&self) -> (b: bool)
        ensures
            b == self@.mknod,
    {
        self.mknod
    }

    pub fn set_mknod(&mut self, value: bool) -> (effects: Vec<DeviceEffect>)
        ensures
            final(self)@ == spec_device_apply(old(self)@, DeviceValueView::Mknod(value)),
            effects@ == spec_device_effects(old(self)@, DeviceValueView::Mknod(value)),
    {
        if self.mknod == value {
            return Vec::new();
        }
        self.mknod = value;
        vec![DeviceEffect::Notify(DeviceProperty::Mknod)]
    }

    /// The value of property `p`.
    pub fn property(&self, p: DeviceProperty) -> (v: DeviceValue)
        ensures
            v@ == spec_device_read(self@, p),
    {
        match p {
            DeviceProperty::HostPath => DeviceValue::HostPath(Some(self.host_path())),
            DeviceProperty::ContainerPath => DeviceValue::ContainerPath(Some(self.container_path())),
            DeviceProperty::Writable => DeviceValue::Writable(self.writable),
            DeviceProperty::Readable => DeviceValue::Readable(self.readable),
            DeviceProperty::Mknod => DeviceValue::Mknod(self.mknod),
        }
    }

    /// Writes a property as the toolkit hands it over: a missing host path
    /// is written as the empty one; the container path must be a string.
    pub fn set_property(&mut self, value: DeviceValue) -> (effects: Vec<DeviceEffect>)
        requires
            spec_device_value_ok(value@),
        ensures
            final(self)@ == spec_device_apply(old(self)@, value@),
            effects@ == spec_device_effects(old(self)@, value@),
    {
        match value {
            DeviceValue::HostPath(v) => {
                let v = match v {
                    Some(s) => s,
                    None => String::new(),
                };
                self.set_host_path(v)
            },
            DeviceValue::ContainerPath(v) => {
                let v = match v {
                    Some(s) => s,
                    None => String::new(),
                };
                self.set_container_path(v)
            },
            DeviceValue::Writable(v) => self.set_writable(v),
            DeviceValue::Readable(v) => self.set_readable(v),
            DeviceValue::Mknod(v) => self.set_mknod(v),
        }
    }

    /// Asks the owner of this device to remove it.
    pub fn remove_request(&self) -> (effects: Vec<DeviceEffect>)
        ensures
            effects@ == seq![DeviceEffect::EmitRemoveRequest],
    {
        vec![DeviceEffect::EmitRemoveRequest]
    }
}

/// Law: a written device property reads back as the value written, a
/// missing host path as the empty one.
pub proof fn lemma_device_property_reads_back(d: DeviceView, v: DeviceValueView)
    requires
        spec_device_value_ok(v),
    ensures
        spec_device_read(spec_device_apply(d, v), v.target()) == (match v {
            DeviceValueView::HostPath(x) => DeviceValueView::HostPath(Some(spec_path_or_empty(x))),
            _ => v,
        }),
{
}

/// Law: writing the same value twice changes nothing the second time and
/// announces nothing.
pub proof fn lemma_device_write_is_idempotent(d: DeviceView, v: DeviceValueView)
    ensures
        spec_device_apply(spec_device_apply(d, v), v) == spec_device_apply(d, v),
        spec_device_effects(spec_device_apply(d, v), v) == Seq::<DeviceEffect>::empty(),
{
}

} // verus!
