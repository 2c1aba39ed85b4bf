use pods::key_val::{KeyVal, KeyValEffect, KeyValProperty, KeyValValue};

#[test]
fn key_val_lifecycle() {
    let mut kv = KeyVal::default();
    assert_eq!(kv.key(), "");
    assert_eq!(kv.value(), "");
    assert_eq!(kv.set_key("PATH".to_string()), vec![KeyValEffect::Notify(KeyValProperty::Key)]);
    assert_eq!(kv.set_key("PATH".to_string()), vec![]);
    assert_eq!(
        kv.set_property(KeyValValue::Value(Some("/bin".to_string()))),
        vec![KeyValEffect::Notify(KeyValProperty::Value)]
    );
    assert_eq!(kv.value(), "/bin");
    assert_eq!(
        kv.set_property(KeyValValue::Value(None)),
        vec![KeyValEffect::Notify(KeyValProperty::Value)]
    );
    assert_eq!(kv.value(), "");
    assert!(matches!(kv.property(KeyValProperty::Key), KeyValValue::Key(Some(ref k)) if k == "PATH"));
    assert_eq!(kv.remove_request(), vec![KeyValEffect::EmitRemoveRequest]);
}

#[test]
fn key_val_property_table() {
    let specs = KeyValProperty::properties();
    assert_eq!(specs.len(), 2);
    assert_eq!(specs[0].name, "key");
    assert_eq!(specs[1].blurb, "The value");
    assert_eq!(KeyValProperty::from_name("value"), Some(KeyValProperty::Value));
    assert_eq!(KeyValProperty::from_name("Value"), None);
}
