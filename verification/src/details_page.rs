use vstd::prelude::*;

use crate::param::{
    construct_notify, spec_construct_notify, ObjectClass, ObjectRef, ParamKind, ParamSpec,
    ParamSpecView,
};
use crate::status::Status;
use crate::text::str_eq;

verus! {

/// A property of the container details page.
#[derive(Debug, Clone, Copy, PartialEq, Eq, Structural)]
pub enum DetailsPageProperty {
    Container,
}

impl DetailsPageProperty {
    /// The declaration of this property.
    pub open spec fn spec_param(self) -> ParamSpecView {
        match self {
            DetailsPageProperty::Container => ParamSpecView {
                name: "container"@,
                nick: "Container"@,
                blurb: "The container of this details page"@,
                kind: ParamKind::Object(ObjectClass::Container),
                flags: spec_construct_notify(),
            },
        }
    }

    /// The declaration of this property, as the object class installs it.
    pub fn param_spec(&self) -> (ps: ParamSpec)
        ensures
            ps@ == self.spec_param(),
    {
        match self {
            DetailsPageProperty::Container => ParamSpec {
                name: "container",
                nick: "Container",
                blurb: "The container of this details page",
                kind: ParamKind::Object(ObjectClass::Container),
                flags: construct_notify(),
            },
        }
    }

    /// The name of this property.
    pub fn name(&self) -> (n: &'static str)
        ensures
            n@ == self.spec_param().name,
    {
        match self {
            DetailsPageProperty::Container => "container",
        }
    }

    /// The property that a name designates, if any.
    pub open spec fn spec_named(s: Seq<char>) -> Option<DetailsPageProperty> {
        if s == "container"@ {
            Some(DetailsPageProperty::Container)
        } else {
            None
        }
    }

    /// Looks a property up by its name.
    pub fn from_name(s: &str) -> (p: Option<DetailsPageProperty>)
        ensures
            p == DetailsPageProperty::spec_named(s@),
    {
        if str_eq(s, "container") {
            Some(DetailsPageProperty::Container)
        } else {
            None
        }
    }

    /// All properties, in the order in which the class installs them.
    pub open spec fn spec_all() -> Seq<DetailsPageProperty> {
        seq![DetailsPageProperty::Container]
    }

    /// All properties, in the order in which the class installs them.
    pub fn all() -> (ps: Vec<DetailsPageProperty>)
        ensures
            ps@ == DetailsPageProperty::spec_all(),
    {
        let mut ps = Vec::new();
        ps.push(DetailsPageProperty::Container);
        assert(ps@ =~= DetailsPageProperty::spec_all());
        ps
    }

    /// The declarations of all properties, in the order in which the class
    /// installs them.
    pub fn properties() -> (specs: Vec<ParamSpec>)
        ensures
            specs@.len() == DetailsPageProperty::spec_all().len(),
            forall|i: int| 0 <= i < specs@.len() ==> #[trigger] specs@[i]@ == DetailsPageProperty::spec_all()[i].spec_param(),
    {
        let all = DetailsPageProperty::all();
        let mut specs: Vec<ParamSpec> = Vec::new();
        let mut i: usize = 0;
        while i < all.len()
            invariant
                all@ == DetailsPageProperty::spec_all(),
                i <= all@.len(),
                specs@.len() == i,
                forall|j: int| 0 <= j < i ==> #[trigger] specs@[j]@ == DetailsPageProperty::spec_all()[j].spec_param(),
            decreases all@.len() - i,
        {
            specs.push(all[i].param_spec());
            i = i + 1;
        }
        specs
    }
}

/// Law: the details page property is found again by its name.
pub proof fn lemma_details_page_property_names(p: DetailsPageProperty, q: DetailsPageProperty)
    ensures
        DetailsPageProperty::spec_named(p.spec_param().name) == Some(p),
        p != q ==> p.spec_param().name != q.spec_param().name,
        DetailsPageProperty::spec_all().contains(p),
{
    reveal_strlit("container");
    assert("container"@.len() == 9 && "container"@[0] == 'c' && "container"@[1] == 'o');
    assert(DetailsPageProperty::spec_all()[0] == DetailsPageProperty::Container);
    match p {
        DetailsPageProperty::Container => assert(DetailsPageProperty::spec_all()[0] == p),
    }
}

/// The actions that the details page installs for itself.
#[derive(Debug, Clone, Copy, PartialEq, Eq, Structural)]
pub enum PageAction {
    Inspect,
    ShowLog,
    ShowProcesses,
}

/// The name under which a page action is installed.
pub open spec fn spec_page_action_name(a: PageAction) -> Seq<char> {
    match a {
        PageAction::Inspect => "container-details-page.inspect"@,
        PageAction::ShowLog => "container-details-page.show-log"@,
        PageAction::ShowProcesses => "container-details-page.show-processes"@,
    }
}

/// The page action that a name designates, if any.
pub open spec fn spec_page_action_named(s: Seq<char>) -> Option<PageAction> {
    if s == "container-details-page.inspect"@ {
        Some(PageAction::Inspect)
    } else if s == "container-details-page.show-log"@ {
        Some(PageAction::ShowLog)
    } else if s == "container-details-page.show-processes"@ {
        Some(PageAction::ShowProcesses)
    } else {
        None
    }
}

impl PageAction {
    /// The name under which this action is installed.
    pub fn name(&self) -> (n: &'static str)
        ensures
            n@ == spec_page_action_name(*self),
    {
        match self {
            PageAction::Inspect => "container-details-page.inspect",
            PageAction::ShowLog => "container-details-page.show-log",
            PageAction::ShowProcesses => "container-details-page.show-processes",
        }
    }

    /// Looks a page action up by its name.
    pub fn from_name(s: &str) -> (a: Option<PageAction>)
        ensures
            a == spec_page_action_named(s@),
    {
        if str_eq(s, "container-details-page.inspect") {
            Some(PageAction::Inspect)
        } else if str_eq(s, "container-details-page.show-log") {
            Some(PageAction::ShowLog)
        } else if str_eq(s, "container-details-page.show-processes") {
            Some(PageAction::ShowProcesses)
        } else {
            None
        }
    }

    /// All page actions, in the order in which the class installs them.
    pub fn all() -> (actions: Vec<PageAction>)
        ensures
            actions@ == seq![PageAction::Inspect, PageAction::ShowLog, PageAction::ShowProcesses],
    {
        vec![PageAction::Inspect, PageAction::ShowLog, PageAction::ShowProcesses]
    }
}

/// Law: each page action is found again by its name.
pub proof fn lemma_page_action_names(a: PageAction)
    ensures
        spec_page_action_named(spec_page_action_name(a)) == Some(a),
{
    reveal_strlit("container-details-page.inspect");
    reveal_strlit("container-details-page.show-log");
    reveal_strlit("container-details-page.show-processes");
    assert("container-details-page.inspect"@.len() == 30);
    assert("container-details-page.show-log"@.len() == 31);
    assert("container-details-page.show-processes"@.len() == 37);
}

/// The keys that the page binds.
#[derive(Debug, Clone, Copy, PartialEq, Eq, Structural)]
pub enum Key {
    F2,
    F5,
    F6,
    F10,
}

/// The modifier held with a bound key.
#[derive(Debug, Clone, Copy, PartialEq, Eq, Structural)]
pub enum Modifier {
    Shift,
    Control,
}

/// A key combination that activates an action of the container menu.
#[derive(Debug, Clone, Copy)]
pub struct KeyBinding {
    pub key: Key,
    pub modifier: Modifier,
    pub action: &'static str,
}

/// The mathematical value of a `KeyBinding`.
pub struct KeyBindingView {
    pub key: Key,
    pub modifier: Modifier,
    pub action: Seq<char>,
}

impl View for KeyBinding {
    type V = KeyBindingView;

    open spec fn view(&self) -> KeyBindingView {
        KeyBindingView { key: self.key, modifier: self.modifier, action: self.action@ }
    }
}

/// The page's key bindings, in the order in which the class adds them:
/// Shift+F10 starts the container, Ctrl+F2 stops it, Ctrl+F5 restarts it
/// and Shift+F6 renames it.
pub open spec fn spec_key_bindings() -> Seq<KeyBindingView> {
    seq![
        KeyBindingView { key: Key::F10, modifier: Modifier::Shift, action: "container.start"@ },
        KeyBindingView { key: Key::F2, modifier: Modifier::Control, action: "container.stop"@ },
        KeyBindingView { key: Key::F5, modifier: Modifier::Control, action: "container.restart"@ },
        KeyBindingView { key: Key::F6, modifier: Modifier::Shift, action: "container.rename"@ },
    ]
}

/// The page's key bindings, in the order in which the class adds them.
pub fn key_bindings() -> (bindings: Vec<KeyBinding>)
    ensures
        bindings@.len() == spec_key_bindings().len(),
        forall|i: int| 0 <= i < bindings@.len() ==> #[trigger] bindings@[i]@ == spec_key_bindings()[i],
{
    let bindings = vec![
        KeyBinding { key: Key::F10, modifier: Modifier::Shift, action: "container.start" },
        KeyBinding { key: Key::F2, modifier: Modifier::Control, action: "container.stop" },
        KeyBinding { key: Key::F5, modifier: Modifier::Control, action: "container.restart" },
        KeyBinding { key: Key::F6, modifier: Modifier::Shift, action: "container.rename" },
    ];
    assert(bindings@[0]@ == spec_key_bindings()[0]);
    assert(bindings@[1]@ == spec_key_bindings()[1]);
    assert(bindings@[2]@ == spec_key_bindings()[2]);
    assert(bindings@[3]@ == spec_key_bindings()[3]);
    bindings
}

/// Whether a pressed key binding goes to the container menu: only when no
/// other page is shown over the details. When it does not, the key press
/// counts as not handled.
pub fn binding_reaches_menu(overlay_has_child: bool) -> (reaches: bool)
    ensures
        reaches == !overlay_has_child,
{
    match overlay_has_child {
        false => true,
        true => false,
    }
}

/// Whether the resource quick reference is shown: only for a running
/// container.
pub fn resources_visible(status: Status) -> (visible: bool)
    ensures
        visible == (status == Status::Running),
{
    status == Status::Running
}

/// The identifier of a signal connection.
#[derive(Debug, Clone, Copy, PartialEq, Eq, Structural)]
pub struct HandlerId {
    pub id: u64,
}

/// What the toolkit is to do for the details page.
#[derive(Debug, Clone, Copy, PartialEq, Eq, Structural)]
pub enum PageEffect {
    /// Disconnect the handler from the `deleted` signal of the container.
    Disconnect { container: ObjectRef, handler: HandlerId },
    /// Start an inspection of the container; an error is handed to
    /// `on_inspect_error`.
    Inspect(ObjectRef),
    /// Connect to the `deleted` signal of the container, with a handler that
    /// calls `on_container_deleted`, and hand the handler to `record_handler`.
    ConnectDeleted(ObjectRef),
    /// Announce that a property changed.
    Notify(DetailsPageProperty),
    /// Show the inspection page of the container.
    ShowInspection(ObjectRef),
    /// Show the log page of the container.
    ShowLog(ObjectRef),
    /// Show the process page of the container.
    ShowProcesses(ObjectRef),
    /// Show a toast that the container was deleted, with its name.
    ToastDeleted(ObjectRef),
    /// Navigate back from the details page.
    NavigateBack,
    /// Show an error toast that the container's details could not be loaded,
    /// with the error's text.
    ToastInspectError,
}

/// The state of the details page.
pub struct DetailsPageView {
    pub container: Option<ObjectRef>,
    pub handler: Option<HandlerId>,
}

/// The page shows a container exactly when it listens to that container's
/// `deleted` signal.
pub open spec fn spec_page_wf(pg: DetailsPageView) -> bool {
    pg.container is Some <==> pg.handler is Some
}

/// Showing `value` on page `pg`: nothing if it is shown already;
/// otherwise the handler on the previous container is disconnected, the new
/// container is inspected and listened to, and the change is announced.
/// The handler for the new container is recorded next, by `record_handler`.
pub open spec fn spec_set_container(pg: DetailsPageView, value: Option<ObjectRef>) -> (DetailsPageView, Seq<PageEffect>) {
    if pg.container == value {
        (pg, Seq::empty())
    } else {
        let disconnect = match pg.container {
            Some(c) => seq![PageEffect::Disconnect { container: c, handler: pg.handler.unwrap() }],
            None => Seq::empty(),
        };
        let connect = match value {
            Some(c) => seq![PageEffect::Inspect(c), PageEffect::ConnectDeleted(c)],
            None => Seq::empty(),
        };
        (
            DetailsPageView { container: value, handler: None },
            disconnect + connect + seq![PageEffect::Notify(DetailsPageProperty::Container)],
        )
    }
}

/// The details page of a container.
pub struct DetailsPage {
    container: Option<ObjectRef>,
    handler_id: Option<HandlerId>,
}

impl View for DetailsPage {
    type V = DetailsPageView;

    closed spec fn view(&self) -> DetailsPageView {
        DetailsPageView { container: self.container, handler: self.handler_id }
    }
}

impl DetailsPage {
    /// A page that shows no container yet.
    pub fn new() -> (pg: DetailsPage)
        ensures
            pg@ == (DetailsPageView { container: None, handler: None }),
    {
        DetailsPage { container: None, handler_id: None }
    }

    /// A page that shows `container`.
    pub fn from(container: ObjectRef) -> (r: (DetailsPage, Vec<PageEffect>))
        ensures
            (r.0@, r.1@) == spec_set_container(
                DetailsPageView { container: None, handler: None },
                Some(container),
            ),
    {
        let mut pg = DetailsPage::new();
        let effects = pg.set_container(Some(container));
        (pg, effects)
    }

    /// The container shown.
    pub fn container(&self) -> (c: Option<ObjectRef>)
        ensures
            c == self@.container,
    {
        self.container
    }

    /// Shows `value`; see `spec_set_container`.
    pub fn set_container(&mut self, value: Option<ObjectRef>) -> (effects: Vec<PageEffect>)
        requires
            spec_page_wf(old(self)@),
        ensures
            (final(self)@, effects@) == spec_set_container(old(self)@, value),
    {
        if self.container == value {
            return Vec::new();
        }
        let mut effects: Vec<PageEffect> = Vec::new();
        if let Some(c) = self.container {
            if let Some(h) = self.handler_id {
                effects.push(PageEffect::Disconnect { container: c, handler: h });
            }
        }
        self.handler_id = None;
        if let Some(c) = value {
            effects.push(PageEffect::Inspect(c));
            effects.push(PageEffect::ConnectDeleted(c));
        }
        self.container = value;
        effects.push(PageEffect::Notify(DetailsPageProperty::Container));
        proof {
            assert(effects@ =~= spec_set_container(old(self)@, value).1);
        }
        effects
    }

    /// Records the handler connected to the `deleted` signal of the
    /// container just shown.
    pub fn record_handler(&mut self, handler: HandlerId)
        requires
            old(self)@.container is Some,
            old(self)@.handler is None,
        ensures
            final(self)@ == (DetailsPageView { handler: Some(handler), ..old(self)@ }),
    {
        self.handler_id = Some(handler);
    }

    /// The container that the page listens to was deleted: a toast names
    /// it, then the page navigates back.
    pub fn on_container_deleted(&self, container: ObjectRef) -> (effects: Vec<PageEffect>)
        ensures
            effects@ == seq![PageEffect::ToastDeleted(container), PageEffect::NavigateBack],
    {
        vec![PageEffect::ToastDeleted(container), PageEffect::NavigateBack]
    }

    /// The inspection started for the shown container failed: an error
    /// toast says so.
    pub fn on_inspect_error(&self) -> (effects: Vec<PageEffect>)
        ensures
            effects@ == seq![PageEffect::ToastInspectError],
    {
        vec![PageEffect::ToastInspectError]
    }

    /// Opening the inspection page: only with a container shown whose API
    /// handle is at hand (`api_available`).
    pub fn show_inspection(&self, api_available: bool) -> (effect: Option<PageEffect>)
        ensures
            effect == (match self@.container {
                Some(c) => if api_available {
                    Some(PageEffect::ShowInspection(c))
                } else {
                    None
                },
                None => None,
            }),
    {
        match self.container {
            Some(c) => if api_available {
                Some(PageEffect::ShowInspection(c))
            } else {
                None
            },
            None => None,
        }
    }

    /// Opening the log page: only with a container shown.
    pub fn show_log(&self) -> (effect: Option<PageEffect>)
        ensures
            effect == (match self@.container {
                Some(c) => Some(PageEffect::ShowLog(c)),
                None => None,
            }),
    {
        match self.container {
            Some(c) => Some(PageEffect::ShowLog(c)),
            None => None,
        }
    }

    /// Opening the process page: only with a container shown.
    pub fn show_processes(&self) -> (effect: Option<PageEffect>)
        ensures
            effect == (match self@.container {
                Some(c) => Some(PageEffect::ShowProcesses(c)),
                None => None,
            }),
    {
        match self.container {
            Some(c) => Some(PageEffect::ShowProcesses(c)),
            None => None,
        }
    }

    /// Runs an installed page action; `api_available` tells whether the
    /// shown container's API handle is at hand, which inspection needs.
    pub fn activate(&self, action: PageAction, api_available: bool) -> (effect: Option<PageEffect>)
        ensures
            effect == (match (action, self@.container) {
                (PageAction::Inspect, Some(c)) => if api_available {
                    Some(PageEffect::ShowInspection(c))
                } else {
                    None
                },
                (PageAction::ShowLog, Some(c)) => Some(PageEffect::ShowLog(c)),
                (PageAction::ShowProcesses, Some(c)) => Some(PageEffect::ShowProcesses(c)),
                (_, None) => None,
            }),
    {
        match action {
            PageAction::Inspect => self.show_inspection(api_available),
            PageAction::ShowLog => self.show_log(),
            PageAction::ShowProcesses => self.show_processes(),
        }
    }
}

/// Law: showing the container already shown does nothing; switching away
/// from a shown container disconnects exactly the handler recorded for it;
/// and once the new container's handler is recorded, the page listens to
/// exactly the container it shows.
pub proof fn lemma_switch_container(pg: DetailsPageView, value: Option<ObjectRef>, h: HandlerId)
    requires
        spec_page_wf(pg),
    ensures
        pg.container == value ==> spec_set_container(pg, value) == (pg, Seq::<PageEffect>::empty()),
        pg.container != value ==> (pg.container matches Some(c) ==> spec_set_container(pg, value).1[0]
            == PageEffect::Disconnect { container: c, handler: pg.handler.unwrap() }),
        pg.container != value ==> spec_set_container(pg, value).0.container == value,
        pg.container != value && value is None ==> spec_page_wf(spec_set_container(pg, value).0),
        pg.container != value && value is Some ==> spec_page_wf(
            DetailsPageView { handler: Some(h), ..spec_set_container(pg, value).0 },
        ),
        spec_set_container(pg, value).1.len() > 0 ==> spec_set_container(pg, value).1.last()
            == PageEffect::Notify(DetailsPageProperty::Container),
{
}

} // verus!
