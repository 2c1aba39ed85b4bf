use vstd::prelude::*;

verus! {

/// How a property may be used: read, written, written at construction, only
/// written at construction, and whether it is announced only when it changes.
#[derive(Debug, Clone, Copy, PartialEq, Eq, Structural)]
pub struct ParamFlags {
    pub readable: bool,
    pub writable: bool,
    pub construct: bool,
    pub construct_only: bool,
    pub explicit_notify: bool,
}

/// The object classes that properties refer to.
#[derive(Debug, Clone, Copy, PartialEq, Eq, Structural)]
pub enum ObjectClass {
    ContainerList,
    Image,
    Pod,
    ContainerData,
    Container,
}

/// The enumerations that properties hold; the default of each is its
/// `Unknown` variant.
#[derive(Debug, Clone, Copy, PartialEq, Eq, Structural)]
pub enum EnumClass {
    ContainerStatus,
    ContainerHealthStatus,
}

/// The boxed value types that properties hold.
#[derive(Debug, Clone, Copy, PartialEq, Eq, Structural)]
pub enum BoxedClass {
    StringVec,
    ContainerStats,
}

/// The type of a property's value and its default.
#[derive(Debug, Clone, Copy, PartialEq, Eq, Structural)]
pub enum ParamKind {
    Object(ObjectClass),
    Boolean(bool),
    Int64 { min: i64, max: i64, default: i64 },
    Enum(EnumClass),
    /// A string whose default is no string.
    Text,
    Boxed(BoxedClass),
}

/// The declaration of one property of an object class.
#[derive(Debug, Clone, Copy)]
pub struct ParamSpec {
    pub name: &'static str,
    pub nick: &'static str,
    pub blurb: &'static str,
    pub kind: ParamKind,
    pub flags: ParamFlags,
}

/// The mathematical value of a `ParamSpec`.
pub struct ParamSpecView {
    pub name: Seq<char>,
    pub nick: Seq<char>,
    pub blurb: Seq<char>,
    pub kind: ParamKind,
    pub flags: ParamFlags,
}

impl View for ParamSpec {
    type V = ParamSpecView;

    open spec fn view(&self) -> ParamSpecView {
        ParamSpecView { name: self.name@, nick: self.nick@, blurb: self.blurb@, kind: self.kind, flags: self.flags }
    }
}

/// Read and write.
pub open spec fn spec_readwrite() -> ParamFlags {
    ParamFlags { readable: true, writable: true, construct: false, construct_only: false, explicit_notify: false }
}

/// Read and write, announced only on change.
pub open spec fn spec_readwrite_notify() -> ParamFlags {
    ParamFlags { explicit_notify: true, ..spec_readwrite() }
}

/// Read, and written once at construction.
pub open spec fn spec_construct_only() -> ParamFlags {
    ParamFlags { construct_only: true, ..spec_readwrite() }
}

/// Read and write, set at construction, announced only on change.
pub open spec fn spec_construct_notify() -> ParamFlags {
    ParamFlags { construct: true, explicit_notify: true, ..spec_readwrite() }
}

/// Read only.
pub open spec fn spec_read_only() -> ParamFlags {
    ParamFlags { writable: false, ..spec_readwrite() }
}

pub fn readwrite() -> (f: ParamFlags)
    ensures
        f == spec_readwrite(),
{
    ParamFlags { readable: true, writable: true, construct: false, construct_only: false, explicit_notify: false }
}

pub fn readwrite_notify() -> (f: ParamFlags)
    ensures
        f == spec_readwrite_notify(),
{
    ParamFlags { readable: true, writable: true, construct: false, construct_only: false, explicit_notify: true }
}

pub fn construct_only() -> (f: ParamFlags)
    ensures
        f == spec_construct_only(),
{
    ParamFlags { readable: true, writable: true, construct: false, construct_only: true, explicit_notify: false }
}

pub fn construct_notify() -> (f: ParamFlags)
    ensures
        f == spec_construct_notify(),
{
    ParamFlags { readable: true, writable: true, construct: true, construct_only: false, explicit_notify: true }
}

pub fn read_only() -> (f: ParamFlags)
    ensures
        f == spec_read_only(),
{
    ParamFlags { readable: true, writable: false, construct: false, construct_only: false, explicit_notify: false }
}

/// A property that may be written once the object exists.
pub open spec fn spec_settable(f: ParamFlags) -> bool {
    f.writable && !f.construct_only
}

/// A reference to an object owned by the toolkit (a pod, an image, a
/// container list, a container's inspection data), compared by identity.
/// Objects refer to one another weakly: whether the object behind a
/// reference still exists is the toolkit's to tell, and an effect on an
/// object that is gone is skipped.
#[derive(Debug, Clone, Copy, PartialEq, Eq, Structural)]
pub struct ObjectRef {
    pub id: u64,
}

} // verus!
