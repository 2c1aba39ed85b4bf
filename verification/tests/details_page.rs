use pods::details_page::{
    binding_reaches_menu, key_bindings, resources_visible, DetailsPage, DetailsPageProperty,
    HandlerId, Key, Modifier, PageAction, PageEffect,
};
use pods::param::ObjectRef;
use pods::status::Status;

#[test]
fn switching_containers() {
    let a = ObjectRef { id: 1 };
    let b = ObjectRef { id: 2 };
    let (mut pg, effects) = DetailsPage::from(a);
    assert_eq!(
        effects,
        vec![
            PageEffect::Inspect(a),
            PageEffect::ConnectDeleted(a),
            PageEffect::Notify(DetailsPageProperty::Container),
        ]
    );
    pg.record_handler(HandlerId { id: 10 });
    assert_eq!(pg.container(), Some(a));
    assert_eq!(pg.set_container(Some(a)), vec![]);
    assert_eq!(
        pg.set_container(Some(b)),
        vec![
            PageEffect::Disconnect { container: a, handler: HandlerId { id: 10 } },
            PageEffect::Inspect(b),
            PageEffect::ConnectDeleted(b),
            PageEffect::Notify(DetailsPageProperty::Container),
        ]
    );
    pg.record_handler(HandlerId { id: 11 });
    assert_eq!(
        pg.set_container(None),
        vec![
            PageEffect::Disconnect { container: b, handler: HandlerId { id: 11 } },
            PageEffect::Notify(DetailsPageProperty::Container),
        ]
    );
    assert_eq!(pg.container(), None);
    assert_eq!(pg.show_log(), None);
}

#[test]
fn page_actions() {
    let a = ObjectRef { id: 3 };
    let (mut pg, _) = DetailsPage::from(a);
    pg.record_handler(HandlerId { id: 1 });
    assert_eq!(pg.activate(PageAction::Inspect, true), Some(PageEffect::ShowInspection(a)));
    assert_eq!(pg.activate(PageAction::ShowLog, true), Some(PageEffect::ShowLog(a)));
    assert_eq!(pg.show_processes(), Some(PageEffect::ShowProcesses(a)));
    assert_eq!(pg.activate(PageAction::Inspect, false), None);
    assert_eq!(pg.show_inspection(false), None);
    assert_eq!(pg.show_inspection(true), Some(PageEffect::ShowInspection(a)));
    assert_eq!(PageAction::Inspect.name(), "container-details-page.inspect");
    assert_eq!(
        PageAction::from_name("container-details-page.show-processes"),
        Some(PageAction::ShowProcesses)
    );
    assert_eq!(PageAction::from_name("container-details-page"), None);
    assert_eq!(PageAction::all().len(), 3);
    let empty = DetailsPage::new();
    assert_eq!(empty.activate(PageAction::ShowLog, true), None);
}

#[test]
fn bindings_and_visibility() {
    let b = key_bindings();
    assert_eq!(b.len(), 4);
    assert_eq!((b[0].key, b[0].modifier, b[0].action), (Key::F10, Modifier::Shift, "container.start"));
    assert_eq!((b[1].key, b[1].modifier, b[1].action), (Key::F2, Modifier::Control, "container.stop"));
    assert_eq!((b[2].key, b[2].modifier, b[2].action), (Key::F5, Modifier::Control, "container.restart"));
    assert_eq!((b[3].key, b[3].modifier, b[3].action), (Key::F6, Modifier::Shift, "container.rename"));
    assert!(binding_reaches_menu(false));
    assert!(!binding_reaches_menu(true));
    assert!(resources_visible(Status::Running));
    assert!(!resources_visible(Status::Paused));
    let specs = DetailsPageProperty::properties();
    assert_eq!(specs.len(), 1);
    assert_eq!(specs[0].name, "container");
    assert!(specs[0].flags.construct);
}

#[test]
fn deletion_and_inspection_errors() {
    let a = ObjectRef { id: 4 };
    let (pg, _) = DetailsPage::from(a);
    assert_eq!(pg.on_container_deleted(a), vec![PageEffect::ToastDeleted(a), PageEffect::NavigateBack]);
    assert_eq!(pg.on_inspect_error(), vec![PageEffect::ToastInspectError]);
}
