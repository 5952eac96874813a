use sand_components::json::JsonValue;
use sand_components::version::ComponentFeature;
use sand_components::{PigVariant, RawJson, ResourceLocation, SpawnCondition, VersionCaps};
use serde_json::Value;

fn rl() -> ResourceLocation {
    ResourceLocation::new("test", "cold").unwrap()
}

fn valid() -> PigVariant {
    PigVariant::new(rl())
        .asset_id("minecraft:entity/pig/cold_pig")
        .spawn_condition(SpawnCondition::biome("minecraft:snowy_taiga", 1))
}

fn norm(j: &JsonValue) -> Value {
    match j {
        JsonValue::Null => Value::Null,
        JsonValue::Bool(b) => Value::Bool(*b),
        JsonValue::Int(n) => Value::from(*n),
        JsonValue::Float(f) => serde_json::Number::from_f64(f64::from_bits(f.bits))
            .map(Value::Number)
            .unwrap_or(Value::Null),
        JsonValue::Float32(f) => Value::from(f32::from_bits(f.bits)),
        JsonValue::Str(s) => Value::String(s.clone()),
        JsonValue::Array(v) => Value::Array(v.iter().map(norm).collect()),
        JsonValue::Object(es) => {
            let mut m = serde_json::Map::new();
            for (k, v) in es {
                m.insert(k.clone(), norm(v));
            }
            Value::Object(m)
        }
    }
}

fn json(s: &str) -> Value {
    serde_json::from_str(s).unwrap()
}

#[test]
fn valid_pig_variant_passes_validation() {
    assert!(valid().validate().is_ok());
}

#[test]
fn pig_variant_empty_asset_id_is_rejected() {
    let pv = PigVariant::new(rl());
    let err = pv.validate().unwrap_err();
    assert!(err.to_string().contains("asset_id"), "{}", err.to_string());
}

#[test]
fn pig_variant_malformed_asset_id_is_rejected() {
    let pv = valid().asset_id("Not Valid!");
    assert!(pv.validate().is_err());
}

#[test]
fn malformed_spawn_condition_is_rejected() {
    let pv = PigVariant::new(rl())
        .asset_id("minecraft:entity/pig/cold_pig")
        .spawn_condition(SpawnCondition::biome("", 1));
    let err = pv.validate().unwrap_err();
    assert!(err.to_string().contains("spawn_conditions"), "{}", err.to_string());
}

#[test]
fn raw_field_cannot_override_typed_field() {
    let pv = valid().raw_field("asset_id", RawJson::new(JsonValue::Str("bad".to_string())));
    assert!(pv.validate().is_err());
}

#[test]
fn raw_field_extends_json() {
    let pv = valid().raw_field("custom_extra", RawJson::new(JsonValue::Bool(true)));
    assert!(pv.validate().is_ok());
    assert_eq!(norm(&pv.to_json())["custom_extra"], true);
}

#[test]
fn no_spawn_conditions_is_valid() {
    let pv = PigVariant::new(rl()).asset_id("minecraft:entity/pig/temperate_pig");
    assert!(pv.validate().is_ok());
    assert!(norm(&pv.to_json()).get("spawn_conditions").is_none());
}

#[test]
fn invalid_pig_variant_fails_export() {
    let pv = PigVariant::new(rl());
    assert!(pv.try_content().is_err());
}

#[test]
fn component_dir_and_feature_gate_are_correct() {
    let pv = valid();
    assert_eq!(pv.component_dir(), "pig_variant");
    assert_eq!(pv.required_features(), vec![ComponentFeature::AnimalVariants]);
}

#[test]
fn valid_pig_variant_json_is_stable() {
    let pv = valid();
    let j = norm(&pv.to_json());
    assert_eq!(j["asset_id"], "minecraft:entity/pig/cold_pig");
    assert_eq!(
        j["spawn_conditions"],
        json(
            r#"[{
                "priority": 1,
                "condition": {
                    "type": "minecraft:biome",
                    "biomes": "minecraft:snowy_taiga"
                }
            }]"#
        )
    );
    let a = serde_json::to_string_pretty(&norm(&pv.to_json())).unwrap();
    let b = serde_json::to_string_pretty(&norm(&pv.to_json())).unwrap();
    assert_eq!(a, b);
}

#[test]
fn biome_lists_and_raw_selectors_are_checked_by_shape() {
    let listed = PigVariant::new(rl())
        .asset_id("minecraft:entity/pig/warm_pig")
        .spawn_condition(SpawnCondition::biomes(&["minecraft:desert", "#minecraft:is_badlands"], 2));
    assert!(listed.validate().is_ok());
    assert_eq!(
        norm(&listed.to_json())["spawn_conditions"][0]["condition"]["biomes"],
        json(r##"["minecraft:desert", "#minecraft:is_badlands"]"##)
    );
    let empty_list = listed.spawn_conditions(vec![SpawnCondition::biomes(&[], 0)]);
    assert_eq!(
        empty_list.validate().unwrap_err().to_string(),
        "pig_variant `test:cold` failed validation at `spawn_conditions`: biomes must be a non-empty biome ID or tag, or a non-empty array of them"
    );
    let number = PigVariant::new(rl())
        .asset_id("minecraft:entity/pig/warm_pig")
        .spawn_condition(SpawnCondition::raw_biomes(RawJson::new(JsonValue::Int(3)), 0));
    assert!(number.validate().is_err());
    let empty_entry = PigVariant::new(rl())
        .asset_id("minecraft:entity/pig/warm_pig")
        .spawn_condition(SpawnCondition::biomes(&["minecraft:desert", ""], 0));
    assert!(empty_entry.validate().is_err());
}

#[test]
fn raw_fields_are_keyed_once_in_key_order() {
    let pv = valid()
        .raw_field("zeta", RawJson::new(JsonValue::Int(1)))
        .raw_field("alpha", RawJson::new(JsonValue::Int(2)))
        .raw_field("zeta", RawJson::new(JsonValue::Int(3)));
    match pv.to_json() {
        JsonValue::Object(es) => {
            let keys: Vec<&str> = es.iter().map(|(k, _)| k.as_str()).collect();
            assert_eq!(keys, vec!["asset_id", "spawn_conditions", "alpha", "zeta"]);
            assert_eq!(es[3].1, JsonValue::Int(3));
        }
        _ => panic!("pig variants are objects"),
    }
    let bad = valid().raw_field("spawn_conditions", RawJson::new(JsonValue::Null));
    assert_eq!(
        bad.validate().unwrap_err().to_string(),
        "pig_variant `test:cold` failed validation at `raw_field`: raw field `spawn_conditions` would override a typed field"
    );
    let blank = valid().raw_field("  ", RawJson::new(JsonValue::Null));
    assert!(blank.validate().unwrap_err().to_string().contains("only whitespace"));
}

#[test]
fn animal_variants_need_1_21_5() {
    assert!(VersionCaps::new(1, 21, 5).supports(ComponentFeature::AnimalVariants));
    assert!(!VersionCaps::new(1, 21, 4).supports(ComponentFeature::AnimalVariants));
}
