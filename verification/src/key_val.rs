use vstd::prelude::*;

use crate::container::opt_string_view;
use crate::param::{readwrite_notify, spec_readwrite_notify, ParamKind, ParamSpec, ParamSpecView};
use crate::text::str_eq;

verus! {

/// A property of a key/value object.
#[derive(Debug, Clone, Copy, PartialEq, Eq, Structural)]
pub enum KeyValProperty {
    Key,
    Value,
}

impl KeyValProperty {
    /// The declaration of this property.
    pub open spec fn spec_param(self) -> ParamSpecView {
        match self {
            KeyValProperty::Key => ParamSpecView {
                name: "key"@,
                nick: "Key"@,
                blurb: "The key"@,
                kind: ParamKind::Text,
                flags: spec_readwrite_notify(),
            },
            KeyValProperty::Value => ParamSpecView {
                name: "value"@,
                nick: "Value"@,
                blurb: "The value"@,
                kind: ParamKind::Text,
                flags: spec_readwrite_notify(),
            },
        }
    }

    /// The declaration of this property, as the object class installs it.
    pub fn param_spec(&self) -> (ps: ParamSpec)
        ensures
            ps@ == self.spec_param(),
    {
        match self {
            KeyValProperty::Key => ParamSpec {
                name: "key",
                nick: "Key",
                blurb: "The key",
                kind: ParamKind::Text,
                flags: readwrite_notify(),
            },
            KeyValProperty::Value => ParamSpec {
                name: "value",
                nick: "Value",
                blurb: "The value",
                kind: ParamKind::Text,
                flags: readwrite_notify(),
            },
        }
    }

    /// The name of this property.
    pub fn name(&self) -> (n: &'static str)
        ensures
            n@ == self.spec_param().name,
    {
        match self {
            KeyValProperty::Key => "key",
            KeyValProperty::Value => "value",
        }
    }

    /// The property that a name designates, if any.
    pub open spec fn spec_named(s: Seq<char>) -> Option<KeyValProperty> {
        if s == "key"@ {
            Some(KeyValProperty::Key)
        } else if s == "value"@ {
            Some(KeyValProperty::Value)
        } else {
            None
        }
    }

    /// Looks a property up by its name.
    pub fn from_name(s: &str) -> (p: Option<KeyValProperty>)
        ensures
            p == KeyValProperty::spec_named(s@),
    {
        if str_eq(s, "key") {
            Some(KeyValProperty::Key)
        } else if str_eq(s, "value") {
            Some(KeyValProperty::Value)
        } else {
            None
        }
    }

    /// All properties, in the order in which the class installs them.
    pub open spec fn spec_all() -> Seq<KeyValProperty> {
        seq![KeyValProperty::Key, KeyValProperty::Value]
    }

    /// All properties, in the order in which the class installs them.
    pub fn all() -> (ps: Vec<KeyValProperty>)
        ensures
            ps@ == KeyValProperty::spec_all(),
    {
        let mut ps = Vec::new();
        ps.push(KeyValProperty::Key);
        ps.push(KeyValProperty::Value);
        assert(ps@ =~= KeyValProperty::spec_all());
        ps
    }

    /// The declarations of all properties, in the order in which the class
    /// installs them.
    pub fn properties() -> (specs: Vec<ParamSpec>)
        ensures
            specs@.len() == KeyValProperty::spec_all().len(),
            forall|i: int| 0 <= i < specs@.len() ==> #[trigger] specs@[i]@ == KeyValProperty::spec_all()[i].spec_param(),
    {
        let all = KeyValProperty::all();
        let mut specs: Vec<ParamSpec> = Vec::new();
        let mut i: usize = 0;
        while i < all.len()
            invariant
                all@ == KeyValProperty::spec_all(),
                i <= all@.len(),
                specs@.len() == i,
                forall|j: int| 0 <= j < i ==> #[trigger] specs@[j]@ == KeyValProperty::spec_all()[j].spec_param(),
            decreases all@.len() - i,
        {
            specs.push(all[i].param_spec());
            i = i + 1;
        }
        specs
    }
}

/// Law: each key/value property is found again by its name, and no two key/value properties share a name.
pub proof fn lemma_key_val_property_names(p: KeyValProperty, q: KeyValProperty)
    ensures
        KeyValProperty::spec_named(p.spec_param().name) == Some(p),
        p != q ==> p.spec_param().name != q.spec_param().name,
        KeyValProperty::spec_all().contains(p),
{
    reveal_strlit("key");
    reveal_strlit("value");
    assert("key"@.len() == 3 && "key"@[0] == 'k' && "key"@[1] == 'e');
    assert("value"@.len() == 5 && "value"@[0] == 'v' && "value"@[1] == 'a');
    assert(KeyValProperty::spec_all()[0] == KeyValProperty::Key);
    match p {
        KeyValProperty::Key => assert(KeyValProperty::spec_all()[0] == p),
        KeyValProperty::Value => assert(KeyValProperty::spec_all()[1] == p),
    }
}

/// The value of one key/value property, as the toolkit hands it over; it
/// may come as no string at all.
#[derive(Debug)]
pub enum KeyValValue {
    Key(Option<String>),
    Value(Option<String>),
}

/// The mathematical value of a `KeyValValue`.
pub enum KeyValValueView {
    Key(Option<Seq<char>>),
    Value(Option<Seq<char>>),
}

impl View for KeyValValue {
    type V = KeyValValueView;

    open spec fn view(&self) -> KeyValValueView {
        match self {
            KeyValValue::Key(v) => KeyValValueView::Key(opt_string_view(*v)),
            KeyValValue::Value(v) => KeyValValueView::Value(opt_string_view(*v)),
        }
    }
}

impl KeyValValueView {
    /// The property that this value belongs to.
    pub open spec fn target(self) -> KeyValProperty {
        match self {
            KeyValValueView::Key(_) => KeyValProperty::Key,
            KeyValValueView::Value(_) => KeyValProperty::Value,
        }
    }
}

/// What the toolkit is to do after a key/value operation.
#[derive(Debug, Clone, Copy, PartialEq, Eq, Structural)]
pub enum KeyValEffect {
    /// Announce that a property changed.
    Notify(KeyValProperty),
    /// Emit the `remove-request` signal.
    EmitRemoveRequest,
}

/// The state of a key/value pair (an environment variable, a label, ...).
pub struct KeyValView {
    pub key: Seq<char>,
    pub value: Seq<char>,
}

/// A key/value pair of a container being created.
pub struct KeyVal {
    key: String,
    value: String,
}

impl View for KeyVal {
    type V = KeyValView;

    closed spec fn view(&self) -> KeyValView {
        KeyValView { key: self.key@, value: self.value@ }
    }
}

/// A text as stored: no string counts as the empty one.
pub open spec fn spec_text_or_empty(s: Option<Seq<char>>) -> Seq<char> {
    match s {
        Some(s) => s,
        None => Seq::empty(),
    }
}

/// The value of property `p` of pair `kv`.
pub open spec fn spec_key_val_read(kv: KeyValView, p: KeyValProperty) -> KeyValValueView {
    match p {
        KeyValProperty::Key => KeyValValueView::Key(Some(kv.key)),
        KeyValProperty::Value => KeyValValueView::Value(Some(kv.value)),
    }
}

/// The pair after writing value `v`; a missing text is written as the
/// empty one.
pub open spec fn spec_key_val_apply(kv: KeyValView, v: KeyValValueView) -> KeyValView {
    match v {
        KeyValValueView::Key(x) => KeyValView { key: spec_text_or_empty(x), ..kv },
        KeyValValueView::Value(x) => KeyValView { value: spec_text_or_empty(x), ..kv },
    }
}

/// What writing value `v` to pair `kv` asks of the toolkit: the
/// announcement of the property, if its value changes.
pub open spec fn spec_key_val_effects(kv: KeyValView, v: KeyValValueView) -> Seq<KeyValEffect> {
    if spec_key_val_apply(kv, v) != kv {
        seq![KeyValEffect::Notify(v.target())]
    } else {
        Seq::empty()
    }
}

impl KeyVal {
    /// The signals that the class declares, by name; each carries no
    /// argument and returns nothing.
    pub fn signals() -> (names: Vec<&'static str>)
        ensures
            names@.len() == 1,
            names@[0]@ == "remove-request"@,
    {
        vec!["remove-request"]
    }

    /// A new pair with an empty key and an empty value.
    pub fn default() -> (kv: KeyVal)
        ensures
            kv@ == (KeyValView { key: Seq::empty(), value: Seq::empty() }),
    {
        KeyVal { key: String::new(), value: String::new() }
    }

    pub fn key(&self) -> (k: String)
        ensures
            k@ == self@.key,
    {
        self.key.clone()
    }

    pub fn set_key(&mut self, value: String) -> (effects: Vec<KeyValEffect>)
        ensures
            final(self)@ == spec_key_val_apply(old(self)@, KeyValValueView::Key(Some(value@))),
            effects@ == spec_key_val_effects(old(self)@, KeyValValueView::Key(Some(value@))),
    {
        if self.key == value {
            return Vec::new();
        }
        self.key = value;
        vec![KeyValEffect::Notify(KeyValProperty::Key)]
    }

    pub fn value(&self) -> (v: String)
        ensures
            v@ == self@.value,
    {
        self.value.clone()
    }

    pub fn set_value(&mut self, value: String) -> (effects: Vec<KeyValEffect>)
        ensures
            final(self)@ == spec_key_val_apply(old(self)@, KeyValValueView::Value(Some(value@))),
            effects@ == spec_key_val_effects(old(self)@, KeyValValueView::Value(Some(value@))),
    {
        if self.value == value {
            return Vec::new();
        }
        self.value = value;
        vec![KeyValEffect::Notify(KeyValProperty::Value)]
    }

    /// The value of property `p`.
    pub fn property(&self, p: KeyValProperty) -> (v: KeyValValue)
        ensures
            v@ == spec_key_val_read(self@, p),
    {
        match p {
            KeyValProperty::Key => KeyValValue::Key(Some(self.key())),
            KeyValProperty::Value => KeyValValue::Value(Some(self.value())),
        }
    }

    /// Writes a property as the toolkit hands it over: a missing text is
    /// written as the empty one.
    pub fn set_property(&mut self, value: KeyValValue) -> (effects: Vec<KeyValEffect>)
        ensures
            final(self)@ == spec_key_val_apply(old(self)@, value@),
            effects@ == spec_key_val_effects(old(self)@, value@),
    {
        match value {
            KeyValValue::Key(v) => {
                let v = match v {
                    Some(s) => s,
                    None => String::new(),
                };
                self.set_key(v)
            },
            KeyValValue::Value(v) => {
                let v = match v {
                    Some(s) => s,
                    None => String::new(),
                };
                self.set_value(v)
            },
        }
    }

    /// Asks the owner of this pair to remove it.
    pub fn remove_request(&self) -> (effects: Vec<KeyValEffect>)
        ensures
            effects@ == seq![KeyValEffect::EmitRemoveRequest],
    {
        vec![KeyValEffect::EmitRemoveRequest]
    }
}

/// Law: a written key or value reads back as the text written, a missing
/// text as the empty one, and the other half of the pair is left as it was.
pub proof fn lemma_key_val_reads_back(kv: KeyValView, v: KeyValValueView, q: KeyValProperty)
    ensures
        spec_key_val_read(spec_key_val_apply(kv, v), v.target()) == (match v {
            KeyValValueView::Key(x) => KeyValValueView::Key(Some(spec_text_or_empty(x))),
            KeyValValueView::Value(x) => KeyValValueView::Value(Some(spec_text_or_empty(x))),
        }),
        q != v.target() ==> spec_key_val_read(spec_key_val_apply(kv, v), q) == spec_key_val_read(kv, q),
{
}

/// Law: writing the same value twice changes nothing the second time and
/// announces nothing.
pub proof fn lemma_key_val_write_is_idempotent(kv: KeyValView, v: KeyValValueView)
    ensures
        spec_key_val_apply(spec_key_val_apply(kv, v), v) == spec_key_val_apply(kv, v),
        spec_key_val_effects(spec_key_val_apply(kv, v), v) == Seq::<KeyValEffect>::empty(),
{
}

} // verus!
