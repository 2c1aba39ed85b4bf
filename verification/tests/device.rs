use pods::device::{Device, DeviceEffect, DeviceProperty, DeviceValue};
use pods::param::ParamKind;

#[test]
fn default_device() {
    let d = Device::default();
    assert_eq!(d.host_path(), "");
    assert_eq!(d.container_path(), "");
    assert!(d.readable());
    assert!(!d.writable());
    assert!(!d.mknod());
}

#[test]
fn device_setters_announce_only_changes() {
    let mut d = Device::default();
    assert_eq!(d.set_readable(true), vec![]);
    assert_eq!(d.set_writable(true), vec![DeviceEffect::Notify(DeviceProperty::Writable)]);
    assert_eq!(d.set_mknod(true), vec![DeviceEffect::Notify(DeviceProperty::Mknod)]);
    assert_eq!(
        d.set_host_path("/dev/fuse".to_string()),
        vec![DeviceEffect::Notify(DeviceProperty::HostPath)]
    );
    assert_eq!(d.set_host_path("/dev/fuse".to_string()), vec![]);
    assert_eq!(
        d.set_container_path("/dev/fuse".to_string()),
        vec![DeviceEffect::Notify(DeviceProperty::ContainerPath)]
    );
    assert_eq!(d.set_readable(false), vec![DeviceEffect::Notify(DeviceProperty::Readable)]);
    assert!(d.writable() && d.mknod() && !d.readable());
}

#[test]
fn device_properties() {
    let mut d = Device::default();
    d.set_host_path("/dev/sda".to_string());
    assert_eq!(
        d.set_property(DeviceValue::HostPath(None)),
        vec![DeviceEffect::Notify(DeviceProperty::HostPath)]
    );
    assert!(matches!(d.property(DeviceProperty::HostPath), DeviceValue::HostPath(Some(ref s)) if s.is_empty()));
    assert_eq!(d.set_property(DeviceValue::Readable(true)), vec![]);
    assert!(matches!(d.property(DeviceProperty::Readable), DeviceValue::Readable(true)));
    assert_eq!(d.remove_request(), vec![DeviceEffect::EmitRemoveRequest]);
}

#[test]
fn device_property_table() {
    let specs = DeviceProperty::properties();
    let names: Vec<&str> = specs.iter().map(|s| s.name).collect();
    assert_eq!(names, vec!["host-path", "container-path", "writable", "readable", "mknod"]);
    assert_eq!(specs[2].kind, ParamKind::Boolean(true));
    assert_eq!(specs[4].nick, "mknod");
    assert_eq!(DeviceProperty::from_name("mknod"), Some(DeviceProperty::Mknod));
    assert_eq!(DeviceProperty::from_name("host_path"), None);
}
