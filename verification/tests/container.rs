use pods::container::{
    f64_bits_eq, port_binding, ApiCall, BoxedContainerStats, Container, ContainerAction, ContainerEffect,
    ContainerProperty, ContainerValue, ListContainer, PortMapping,
};
use pods::param::{ObjectRef, ParamKind};
use pods::status::{HealthStatus, Status};

fn list_entry() -> ListContainer {
    ListContainer {
        created: Some(1_650_000_000),
        status: Some("healthy".to_string()),
        id: Some("abc123".to_string()),
        image_id: Some("img456".to_string()),
        image: Some("docker.io/library/nginx:latest".to_string()),
        names: Some(vec!["web".to_string(), "alias".to_string()]),
        pod: Some("pod789".to_string()),
        ports: Some(vec![
            PortMapping { host_ip: Some("".to_string()), host_port: Some(8080) },
            PortMapping { host_ip: Some("0.0.0.0".to_string()), host_port: Some(443) },
            PortMapping { host_ip: None, host_port: Some(5) },
        ]),
        state: Some("running".to_string()),
        started_at: Some(1_650_000_100),
    }
}

fn list() -> ObjectRef {
    ObjectRef { id: 1 }
}

#[test]
fn new_takes_the_list_entry() {
    let c = Container::new(list(), list_entry());
    assert_eq!(c.container_list(), list());
    assert!(!c.action_ongoing());
    assert_eq!(c.created(), 1_650_000_000);
    assert_eq!(c.health_status(), HealthStatus::Healthy);
    assert_eq!(c.id(), "abc123");
    assert_eq!(c.image(), None);
    assert_eq!(c.image_id(), Some("img456"));
    assert_eq!(c.image_name(), Some("docker.io/library/nginx:latest".to_string()));
    assert_eq!(c.name(), "web");
    assert_eq!(c.pod(), None);
    assert_eq!(c.pod_id(), Some("pod789"));
    assert_eq!(
        c.port_bindings(),
        &vec!["127.0.0.1:8080".to_string(), "0.0.0.0:443".to_string(), "127.0.0.1:5".to_string()]
    );
    assert!(c.stats().is_none());
    assert_eq!(c.status(), Status::Running);
    assert_eq!(c.up_since(), 1_650_000_100);
    assert_eq!(c.data(), None);
}

#[test]
fn new_with_missing_optional_fields() {
    let mut l = list_entry();
    l.created = None;
    l.status = None;
    l.image = None;
    l.pod = None;
    l.ports = None;
    l.state = Some("weird".to_string());
    let c = Container::new(list(), l);
    assert_eq!(c.created(), 0);
    assert_eq!(c.health_status(), HealthStatus::Unknown);
    assert_eq!(c.image_name(), None);
    assert_eq!(c.pod_id(), None);
    assert!(c.port_bindings().is_empty());
    assert_eq!(c.status(), Status::Unknown);
}

#[test]
fn port_binding_texts() {
    let m = PortMapping { host_ip: Some("192.168.1.2".to_string()), host_port: Some(65535) };
    assert_eq!(port_binding(&m), "192.168.1.2:65535");
    let m = PortMapping { host_ip: None, host_port: Some(0) };
    assert_eq!(port_binding(&m), "127.0.0.1:0");
}

#[test]
fn setters_announce_only_changes() {
    let mut c = Container::new(list(), list_entry());
    assert_eq!(c.set_name("web".to_string()), vec![]);
    assert_eq!(
        c.set_name("db".to_string()),
        vec![ContainerEffect::Notify(ContainerProperty::Name)]
    );
    assert_eq!(c.name(), "db");
    assert_eq!(c.set_name("db".to_string()), vec![]);
    assert_eq!(
        c.set_up_since(7),
        vec![ContainerEffect::Notify(ContainerProperty::UpSince)]
    );
    assert_eq!(c.set_up_since(7), vec![]);
    assert_eq!(
        c.set_image_name(None),
        vec![ContainerEffect::Notify(ContainerProperty::ImageName)]
    );
    assert_eq!(c.set_image_name(None), vec![]);
    assert_eq!(c.set_health_status(HealthStatus::Healthy), vec![]);
    assert_eq!(
        c.set_health_status(HealthStatus::Unhealthy),
        vec![ContainerEffect::Notify(ContainerProperty::HealthStatus)]
    );
    let img = ObjectRef { id: 9 };
    assert_eq!(c.set_image(Some(img)), vec![ContainerEffect::Notify(ContainerProperty::Image)]);
    assert_eq!(c.image(), Some(img));
}

#[test]
fn set_stats_announces_changes() {
    let mut c = Container::new(list(), list_entry());
    let s = BoxedContainerStats {
        avg_cpu_bits: Some(1.5f64.to_bits()),
        block_input: None,
        block_output: None,
        container_id: Some("abc123".to_string()),
        cpu_bits: Some(0.0f64.to_bits()),
        cpu_nano: Some(10),
        cpu_system_nano: Some(20),
        duration: Some(30),
        mem_limit: Some(4096),
        mem_perc_bits: None,
        mem_usage: Some(1024),
        name: Some("web".to_string()),
        net_input: Some(1),
        net_output: Some(2),
        per_cpu: Some(vec![5, 6]),
        pids: Some(3),
        system_nano: Some(40),
        up_time: Some(50),
    };
    assert_eq!(c.set_stats(Some(s.clone())), vec![ContainerEffect::Notify(ContainerProperty::Stats)]);
    assert!(c.stats().unwrap().same_as(&s));
    assert_eq!(c.set_stats(Some(s.clone())), vec![]);
    // The other zero is equal as a number: nothing changes.
    let mut neg = s.clone();
    neg.cpu_bits = Some((-0.0f64).to_bits());
    assert_eq!(c.set_stats(Some(neg)), vec![]);
    assert_eq!(c.stats().unwrap().cpu_bits, Some(0.0f64.to_bits()));
    let mut s2 = s.clone();
    s2.pids = Some(4);
    assert_eq!(c.set_stats(Some(s2)), vec![ContainerEffect::Notify(ContainerProperty::Stats)]);
    let mut s3 = s.clone();
    s3.per_cpu = Some(vec![5, 7]);
    assert_eq!(c.set_stats(Some(s3)), vec![ContainerEffect::Notify(ContainerProperty::Stats)]);
    let mut s4 = s.clone();
    s4.name = Some("db".to_string());
    assert_eq!(c.set_stats(Some(s4.clone())), vec![ContainerEffect::Notify(ContainerProperty::Stats)]);
    assert!(c.stats().unwrap().same_as(&s4));
    // A NaN percentage equals nothing, itself included.
    let mut nan = s.clone();
    nan.mem_perc_bits = Some(f64::NAN.to_bits());
    assert!(!nan.same_as(&nan));
    assert_eq!(c.set_stats(Some(nan.clone())), vec![ContainerEffect::Notify(ContainerProperty::Stats)]);
    assert_eq!(c.set_stats(Some(nan.clone())), vec![ContainerEffect::Notify(ContainerProperty::Stats)]);
    assert_eq!(c.set_stats(None), vec![ContainerEffect::Notify(ContainerProperty::Stats)]);
    assert_eq!(c.set_stats(None), vec![]);
    assert!(c.stats().is_none());
}

#[test]
fn float_bit_equality() {
    assert!(f64_bits_eq(1.0f64.to_bits(), 1.0f64.to_bits()));
    assert!(!f64_bits_eq(1.0f64.to_bits(), 2.0f64.to_bits()));
    assert!(f64_bits_eq(0.0f64.to_bits(), (-0.0f64).to_bits()));
    assert!(!f64_bits_eq(f64::NAN.to_bits(), f64::NAN.to_bits()));
    assert!(f64_bits_eq(f64::INFINITY.to_bits(), f64::INFINITY.to_bits()));
}

#[test]
fn busy_container_refuses_actions_unchanged() {
    let mut c = Container::new(list(), list_entry());
    assert!(c.start(true).call.is_some());
    for r in [c.pause(true), c.resume(true), c.commit(true), c.delete(true, true), c.restart(true, true)] {
        assert!(r.call.is_none());
        assert!(r.effects.is_empty());
    }
    assert!(c.action_ongoing());
}

#[test]
fn pod_and_status_refresh_the_pod() {
    let mut c = Container::new(list(), list_entry());
    let pod = ObjectRef { id: 42 };
    assert_eq!(
        c.set_status(Status::Paused),
        vec![ContainerEffect::Notify(ContainerProperty::Status)]
    );
    assert_eq!(
        c.set_pod(Some(pod)),
        vec![ContainerEffect::RefreshPod(pod), ContainerEffect::Notify(ContainerProperty::Pod)]
    );
    assert_eq!(c.set_pod(Some(pod)), vec![]);
    assert_eq!(
        c.set_status(Status::Running),
        vec![ContainerEffect::RefreshPod(pod), ContainerEffect::Notify(ContainerProperty::Status)]
    );
    assert_eq!(c.set_status(Status::Running), vec![]);
    assert_eq!(
        c.on_deleted(),
        vec![ContainerEffect::RefreshPod(pod), ContainerEffect::EmitDeleted]
    );
    assert_eq!(c.set_pod(None), vec![ContainerEffect::Notify(ContainerProperty::Pod)]);
    assert_eq!(c.on_deleted(), vec![ContainerEffect::EmitDeleted]);
}

#[test]
fn update_writes_in_order() {
    let mut c = Container::new(list(), list_entry());
    assert_eq!(c.update(list_entry()), vec![]);
    let mut l = list_entry();
    l.status = Some("unhealthy".to_string());
    l.image = None;
    l.names = Some(vec!["renamed".to_string()]);
    l.state = Some("exited".to_string());
    l.started_at = Some(5);
    assert_eq!(
        c.update(l),
        vec![
            ContainerEffect::Notify(ContainerProperty::HealthStatus),
            ContainerEffect::Notify(ContainerProperty::ImageName),
            ContainerEffect::Notify(ContainerProperty::Name),
            ContainerEffect::Notify(ContainerProperty::Status),
            ContainerEffect::Notify(ContainerProperty::UpSince),
        ]
    );
    assert_eq!(c.name(), "renamed");
    assert_eq!(c.status(), Status::Exited);
    assert_eq!(c.health_status(), HealthStatus::Unhealthy);
    assert_eq!(c.up_since(), 5);
}

#[test]
fn actions_one_at_a_time() {
    let mut c = Container::new(list(), list_entry());
    let none = c.start(false);
    assert!(none.call.is_none());
    assert!(none.effects.is_empty());
    let started = c.stop(true, true);
    assert!(matches!(started.call, Some(ApiCall::Kill)));
    assert_eq!(started.effects, vec![ContainerEffect::Notify(ContainerProperty::ActionOngoing)]);
    assert!(c.action_ongoing());
    let refused = c.start(true);
    assert!(refused.call.is_none());
    assert!(refused.effects.is_empty());
    assert_eq!(c.action_finished(true), vec![]);
    assert!(c.action_ongoing());
    assert_eq!(
        c.action_finished(false),
        vec![ContainerEffect::Notify(ContainerProperty::ActionOngoing)]
    );
    assert!(!c.action_ongoing());
    let again = c.restart(false, true);
    assert!(matches!(again.call, Some(ApiCall::Restart)));
    // A successful action stays marked until the next update.
    assert_eq!(
        c.update(list_entry()),
        vec![ContainerEffect::Notify(ContainerProperty::ActionOngoing)]
    );
    assert!(!c.action_ongoing());
}

#[test]
fn action_requests_and_descriptions() {
    let cases: Vec<(ContainerAction, &str)> = vec![
        (ContainerAction::Start, "starting"),
        (ContainerAction::Stop { force: false }, "stopping"),
        (ContainerAction::Stop { force: true }, "force stopping"),
        (ContainerAction::Restart { force: true }, "restarting"),
        (ContainerAction::Restart { force: false }, "force restarting"),
        (ContainerAction::Pause, "pausing"),
        (ContainerAction::Resume, "resuming"),
        (ContainerAction::Rename { new_name: "x".to_string() }, "renaming"),
        (ContainerAction::Commit, "committing"),
        (ContainerAction::Delete { force: true }, "force deleting"),
        (ContainerAction::Delete { force: false }, "deleting"),
    ];
    for (a, d) in &cases {
        assert_eq!(a.description(), *d);
    }
    assert!(matches!(ContainerAction::Stop { force: false }.api_call(), ApiCall::Stop));
    assert!(matches!(
        ContainerAction::Restart { force: true }.api_call(),
        ApiCall::RestartWithTimeout { timeout: 0 }
    ));
    assert!(matches!(ContainerAction::Resume.api_call(), ApiCall::Unpause));
    assert!(matches!(
        ContainerAction::Delete { force: true }.api_call(),
        ApiCall::Delete { force: true }
    ));
    match (ContainerAction::Rename { new_name: "new".to_string() }).api_call() {
        ApiCall::Rename { new_name } => assert_eq!(new_name, "new"),
        other => panic!("unexpected {:?}", other),
    }
    let mut c = Container::new(list(), list_entry());
    match c.rename("other".to_string(), true).call {
        Some(ApiCall::Rename { new_name }) => assert_eq!(new_name, "other"),
        other => panic!("unexpected {:?}", other),
    }
    let mut c = Container::new(list(), list_entry());
    assert!(matches!(c.pause(true).call, Some(ApiCall::Pause)));
    let mut c = Container::new(list(), list_entry());
    assert!(matches!(c.resume(true).call, Some(ApiCall::Unpause)));
    let mut c = Container::new(list(), list_entry());
    assert!(matches!(c.commit(true).call, Some(ApiCall::Commit)));
    let mut c = Container::new(list(), list_entry());
    assert!(matches!(c.delete(false, true).call, Some(ApiCall::Delete { force: false })));
}

#[test]
fn inspection_lifecycle() {
    let mut c = Container::new(list(), list_entry());
    assert!(c.inspect(true));
    assert!(!c.inspect(true));
    let first = ObjectRef { id: 100 };
    assert_eq!(
        c.inspect_finished(Some(first)),
        vec![ContainerEffect::CreateData(first), ContainerEffect::Notify(ContainerProperty::Data)]
    );
    assert_eq!(c.data(), Some(first));
    assert!(c.inspect(true));
    assert_eq!(c.inspect_finished(None), vec![ContainerEffect::ReportInspectError]);
    assert!(c.inspect(true));
    assert_eq!(
        c.inspect_finished(Some(ObjectRef { id: 101 })),
        vec![ContainerEffect::UpdateData(first)]
    );
    assert_eq!(c.data(), Some(first));
}

#[test]
fn property_table() {
    let all = ContainerProperty::all();
    assert_eq!(all.len(), 18);
    let specs = ContainerProperty::properties();
    assert_eq!(specs.len(), 18);
    assert_eq!(specs[0].name, "container-list");
    assert!(specs[0].flags.construct_only);
    assert_eq!(specs[1].name, "action-ongoing");
    assert_eq!(
        specs[1].blurb,
        "Whether an action (starting, stopping, etc.) is currently ongoing"
    );
    assert!(specs[1].flags.explicit_notify);
    assert_eq!(specs[3].kind, ParamKind::Int64 { min: i64::MIN, max: i64::MAX, default: 0 });
    assert_eq!(specs[16].name, "data");
    assert!(!specs[16].flags.writable);
    assert_eq!(specs[17].name, "selected");
    for (p, s) in all.iter().zip(specs.iter()) {
        assert_eq!(p.name(), s.name);
        assert_eq!(ContainerProperty::from_name(s.name), Some(*p));
    }
    assert_eq!(ContainerProperty::from_name("bogus"), None);
}

#[test]
fn property_reads_back() {
    let mut c = Container::new(list(), list_entry());
    assert_eq!(
        c.set_property(ContainerValue::Name("db".to_string())),
        vec![ContainerEffect::Notify(ContainerProperty::Name)]
    );
    match c.property(ContainerProperty::Name) {
        ContainerValue::Name(n) => assert_eq!(n, "db"),
        other => panic!("unexpected {:?}", other),
    }
    assert_eq!(c.set_property(ContainerValue::Selected(true)), vec![]);
    assert!(matches!(c.property(ContainerProperty::Selected), ContainerValue::Selected(true)));
    assert!(matches!(
        c.property(ContainerProperty::ImageId),
        ContainerValue::ImageId(Some(ref s)) if s == "img456"
    ));
    match c.property(ContainerProperty::PortBindings) {
        ContainerValue::PortBindings(b) => assert_eq!(b.len(), 3),
        other => panic!("unexpected {:?}", other),
    }
    assert_eq!(
        c.set_property(ContainerValue::Status(Status::Dead)),
        vec![ContainerEffect::Notify(ContainerProperty::Status)]
    );
    assert!(matches!(c.property(ContainerProperty::Status), ContainerValue::Status(Status::Dead)));
}

#[test]
fn declared_signals() {
    assert_eq!(Container::signals(), vec!["deleted"]);
    assert_eq!(pods::device::Device::signals(), vec!["remove-request"]);
    assert_eq!(pods::key_val::KeyVal::signals(), vec!["remove-request"]);
}

#[test]
fn public_action_and_data_steps() {
    let mut c = Container::new(list(), list_entry());
    let start = c.action(ContainerAction::Pause, true);
    assert!(matches!(start.call, Some(ApiCall::Pause)));
    let again = c.action(ContainerAction::Start, true);
    assert!(again.call.is_none());
    assert!(again.effects.is_empty());
    let first = ObjectRef { id: 7 };
    assert_eq!(
        c.set_data(first),
        vec![ContainerEffect::CreateData(first), ContainerEffect::Notify(ContainerProperty::Data)]
    );
    assert_eq!(c.set_data(ObjectRef { id: 8 }), vec![ContainerEffect::UpdateData(first)]);
    assert_eq!(c.data(), Some(first));
}
