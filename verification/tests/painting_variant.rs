use sand_components::json::JsonValue;
use sand_components::{PaintingVariant, ResourceLocation};

fn rl() -> ResourceLocation {
    ResourceLocation::new("test", "kebab").unwrap()
}

fn valid() -> PaintingVariant {
    PaintingVariant::new(rl()).asset_id("minecraft:kebab").dimensions(1, 1)
}

fn get<'a>(j: &'a JsonValue, key: &str) -> Option<&'a JsonValue> {
    match j {
        JsonValue::Object(es) => es.iter().rev().find(|(k, _)| k == key).map(|(_, v)| v),
        _ => None,
    }
}

#[test]
fn valid_painting_variant_passes_validation() {
    assert!(valid().validate().is_ok());
}

#[test]
fn mod_empty_asset_id_is_rejected() {
    let pv = PaintingVariant::new(rl()).dimensions(1, 1);
    let err = pv.validate().unwrap_err();
    assert!(err.to_string().contains("asset_id"), "{}", err.to_string());
}

#[test]
fn mod_malformed_asset_id_is_rejected() {
    let pv = valid().asset_id("Not Valid!");
    assert!(pv.validate().is_err());
}

#[test]
fn width_zero_is_rejected() {
    let pv = valid().width(0);
    assert!(pv.validate().is_err());
}

#[test]
fn width_above_sixteen_is_rejected() {
    let pv = valid().width(17);
    assert!(pv.validate().is_err());
}

#[test]
fn height_zero_is_rejected() {
    let pv = valid().height(0);
    assert!(pv.validate().is_err());
}

#[test]
fn height_above_sixteen_is_rejected() {
    let pv = valid().height(17);
    assert!(pv.validate().is_err());
}

#[test]
fn width_and_height_bounds_are_accepted() {
    assert!(valid().dimensions(1, 16).validate().is_ok());
    assert!(valid().dimensions(16, 1).validate().is_ok());
}

#[test]
fn invalid_painting_variant_fails_export() {
    let pv = PaintingVariant::new(rl());
    assert!(pv.try_content().is_err());
}

#[test]
fn valid_painting_variant_json_is_stable() {
    let pv = valid().author("Bob Ross").title("Kebab");
    let json = pv.to_json();
    assert_eq!(get(&json, "asset_id"), Some(&JsonValue::Str("minecraft:kebab".to_string())));
    assert_eq!(get(&json, "width"), Some(&JsonValue::Int(1)));
    assert_eq!(get(&json, "height"), Some(&JsonValue::Int(1)));
    assert_eq!(get(&json, "author"), Some(&JsonValue::Str("Bob Ross".to_string())));
    assert_eq!(get(&json, "title"), Some(&JsonValue::Str("Kebab".to_string())));
    assert_eq!(pv.to_json(), pv.to_json());
}

#[test]
fn painting_variant_error_names_kind_location_and_field() {
    let err = PaintingVariant::new(rl()).asset_id("minecraft:kebab").width(0).validate().unwrap_err();
    assert_eq!(
        err.to_string(),
        "painting_variant `test:kebab` failed validation at `width`: value must be between 1 and 16, got 0"
    );
}

#[test]
fn painting_variant_try_content_matches_to_json_when_valid() {
    let pv = valid().title("Kebab");
    assert_eq!(pv.try_content().unwrap(), pv.to_json());
    assert_eq!(pv.component_dir(), "painting_variant");
}
