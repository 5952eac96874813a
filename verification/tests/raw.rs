use sand_components::json::JsonValue;
use sand_components::{RawCommand, RawComponent, RawJson, RawSnbt};

fn obj(entries: &[(&str, JsonValue)]) -> JsonValue {
    JsonValue::Object(entries.iter().map(|(k, v)| (k.to_string(), v.clone())).collect())
}

#[test]
fn raw_json_roundtrip() {
    let v = obj(&[
        ("type", JsonValue::Str("mymod:custom".to_string())),
        ("level", JsonValue::Int(3)),
    ]);
    let raw = RawJson::new(v.clone());
    assert_eq!(raw.as_value(), &v);
    assert_eq!(raw.into_value(), v);
}

#[test]
fn raw_json_from_value() {
    let raw = RawJson::new(obj(&[("k", JsonValue::Int(1))]));
    match raw.as_value() {
        JsonValue::Object(es) => assert_eq!(es[0], ("k".to_string(), JsonValue::Int(1))),
        _ => panic!("expected an object"),
    }
}

#[test]
fn raw_snbt_roundtrip() {
    let snbt = RawSnbt::new("{CustomModelData:42}");
    assert_eq!(snbt.as_str(), "{CustomModelData:42}");
    assert_eq!(snbt.to_string(), "{CustomModelData:42}");
    let s: String = snbt.into_string();
    assert_eq!(s, "{CustomModelData:42}");
}

#[test]
fn raw_command_roundtrip() {
    let cmd = RawCommand::new("say hello");
    assert_eq!(cmd.as_str(), "say hello");
    assert_eq!(cmd.to_string(), "say hello");
}

#[test]
fn raw_component_display() {
    let c = RawComponent::new("bundle_contents", "{items:[]}");
    assert_eq!(c.key(), "bundle_contents");
    assert_eq!(c.value(), "{items:[]}");
    assert_eq!(c.to_string(), "bundle_contents={items:[]}");
}

#[test]
fn raw_component_with_empty_value_keeps_separator() {
    let c = RawComponent::new("k", "");
    assert_eq!(c.to_string(), "k=");
}
