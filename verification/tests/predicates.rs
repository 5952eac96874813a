use sand_components::json::JsonValue;
use sand_components::{
    BiomeId, BlockPredicate, DamagePredicate, DamageSourcePredicate, DimensionId,
    DistancePredicate, EffectPredicate, EntityEquipment, EntityFlags, EntityPredicate,
    EntityTypeId, F64Bits, FloatRange, IntRange, ItemId, ItemPredicate, LocationPredicate,
    RawJson, RawSnbt, StatusEffectId, TagId, VersionCaps,
};
use serde_json::Value;

fn norm(j: &JsonValue) -> Value {
    match j {
        JsonValue::Null => Value::Null,
        JsonValue::Bool(b) => Value::Bool(*b),
        JsonValue::Int(n) => Value::from(*n),
        JsonValue::Float(f) => serde_json::Number::from_f64(f64::from_bits(f.bits))
            .map(Value::Number)
            .unwrap_or(Value::Null),
        JsonValue::Float32(f) => Value::from(f32::from_bits(f.bits)),
        JsonValue::Str(s) => Value::String(s.clone()),
        JsonValue::Array(v) => Value::Array(v.iter().map(norm).collect()),
        JsonValue::Object(es) => {
            let mut m = serde_json::Map::new();
            for (k, v) in es {
                m.insert(k.clone(), norm(v));
            }
            Value::Object(m)
        }
    }
}

fn from_value(v: &Value) -> JsonValue {
    match v {
        Value::Null => JsonValue::Null,
        Value::Bool(b) => JsonValue::Bool(*b),
        Value::Number(n) => match n.as_i64() {
            Some(i) => JsonValue::Int(i),
            None => JsonValue::Float(F64Bits::from_bits(n.as_f64().unwrap().to_bits())),
        },
        Value::String(s) => JsonValue::Str(s.clone()),
        Value::Array(a) => JsonValue::Array(a.iter().map(from_value).collect()),
        Value::Object(m) => JsonValue::Object(m.iter().map(|(k, v)| (k.clone(), from_value(v))).collect()),
    }
}

fn json(text: &str) -> Value {
    serde_json::from_str(text).unwrap()
}

fn raw(text: &str) -> RawJson {
    RawJson::new(from_value(&json(text)))
}

fn f(x: f64) -> F64Bits {
    F64Bits::from_bits(x.to_bits())
}

fn item(path: &str) -> ItemId {
    ItemId::minecraft(path).unwrap()
}

fn entity_type(path: &str) -> EntityTypeId {
    EntityTypeId::minecraft(path).unwrap()
}

#[test]
fn int_range_exact() {
    assert_eq!(norm(&IntRange::exact(5).to_json()), json("5"));
}

#[test]
fn ranges_reject_inverted_and_non_finite_bounds() {
    assert!(IntRange::default().validate_at("count").is_ok());
    assert!(IntRange::exact(-3).validate_at("count").is_ok());
    assert!(IntRange::at_most(4).validate_at("count").is_ok());
    assert!(IntRange::between(2, 1).validate_at("count").is_err());
    for value in [f64::NAN, f64::INFINITY, f64::NEG_INFINITY] {
        assert!(FloatRange::at_least(f(value)).validate_at("distance").is_err());
    }
    assert!(FloatRange::between(f(2.0), f(1.0)).validate_at("distance").is_err());
    assert!(IntRange::at_least(-2).validate_at("count").is_ok());
}

#[test]
fn nested_predicates_report_their_field_path() {
    let predicate = EntityPredicate::new().location(LocationPredicate::new().x(FloatRange::between(f(3.0), f(1.0))));
    let err = predicate.validate_at("criteria.foo.conditions.player").unwrap_err();
    assert!(err.contains("criteria.foo.conditions.player.location.x"));
}

#[test]
fn typed_empty_matchers_and_bad_raw_component_shape_fail() {
    assert!(BlockPredicate::new().blocks(vec![]).validate_at("block").is_err());
    assert!(EntityPredicate::new().with_type_any(vec![]).validate_at("entity").is_err());
    assert!(ItemPredicate::new().raw_components(raw(r#""not-an-object""#)).validate_at("item").is_err());
}

#[test]
fn int_range_at_least() {
    assert_eq!(norm(&IntRange::at_least(3).to_json()), json(r#"{"min": 3}"#));
}

#[test]
fn int_range_between() {
    assert_eq!(norm(&IntRange::between(2, 8).to_json()), json(r#"{"min": 2, "max": 8}"#));
}

#[test]
fn float_range_at_most() {
    assert_eq!(norm(&FloatRange::at_most(f(10.5)).to_json()), json(r#"{"max": 10.5}"#));
}

#[test]
fn item_predicate_id_only() {
    let v = norm(&ItemPredicate::id(item("diamond")).to_json());
    assert_eq!(v["items"], json(r#"["minecraft:diamond"]"#));
}

#[test]
fn item_predicate_with_count() {
    let v = norm(&ItemPredicate::id(item("diamond")).count_min(5).to_json());
    assert_eq!(v["count"], json(r#"{"min": 5}"#));
}

#[test]
fn item_predicate_custom_data_key() {
    let v = norm(&ItemPredicate::id(item("diamond_sword")).custom_data_key("my_sword").to_json());
    assert_eq!(v["predicates"]["minecraft:custom_data"], "{my_sword:1b}");
    assert!(v.get("components").is_none());
}

#[test]
fn item_predicate_custom_data_key_multiple_keys_and() {
    let p = ItemPredicate::id(item("white_wool")).custom_data_key("elevator").custom_data_key("floor");
    assert_eq!(norm(&p.to_json())["predicates"]["minecraft:custom_data"], "{elevator:1b,floor:1b}");
}

#[test]
fn item_predicate_raw_predicates_merges_with_custom_data() {
    let p = ItemPredicate::id(item("bow"))
        .custom_data_key("enchanted_bow")
        .raw_predicates(raw(r#"{"minecraft:enchantments": {"levels": {"min": 1}}}"#));
    let v = norm(&p.to_json());
    assert_eq!(v["predicates"]["minecraft:custom_data"], "{enchanted_bow:1b}");
    assert_eq!(v["predicates"]["minecraft:enchantments"]["levels"]["min"], 1);
}

#[test]
fn item_predicate_raw() {
    let p = ItemPredicate::raw(raw(r#"{"items": "minecraft:bow", "tag": "foo"}"#));
    assert_eq!(norm(&p.to_json())["items"], "minecraft:bow");
}

#[test]
fn entity_predicate_type() {
    assert_eq!(norm(&EntityPredicate::type_(entity_type("zombie")).to_json())["type"], "minecraft:zombie");
}

#[test]
fn entity_predicate_nbt() {
    let ep = EntityPredicate::type_(entity_type("cow")).nbt(RawSnbt::new("{IsBaby:1b}"));
    assert_eq!(norm(&ep.to_json())["nbt"], "{IsBaby:1b}");
}

#[test]
fn entity_predicate_flags() {
    let ep = EntityPredicate::new().flags(EntityFlags::new().on_fire(true).sneaking(false));
    let v = norm(&ep.to_json());
    assert_eq!(v["flags"]["is_on_fire"], true);
    assert_eq!(v["flags"]["is_sneaking"], false);
}

#[test]
fn entity_predicate_equipment() {
    let ep = EntityPredicate::type_(entity_type("player"))
        .equipment(EntityEquipment::new().feet(ItemPredicate::id(item("diamond_boots"))));
    assert_eq!(norm(&ep.to_json())["equipment"]["feet"]["items"], json(r#"["minecraft:diamond_boots"]"#));
}

#[test]
fn entity_predicate_raw() {
    let ep = EntityPredicate::raw(raw(r#"{"type": "mymod:boss"}"#));
    assert_eq!(norm(&ep.to_json())["type"], "mymod:boss");
}

#[test]
fn entity_predicate_effects() {
    let ep = EntityPredicate::new()
        .effect(StatusEffectId::minecraft("speed").unwrap(), EffectPredicate::new().amplifier(IntRange::at_least(1)));
    assert_eq!(norm(&ep.to_json())["effects"]["minecraft:speed"]["amplifier"], json(r#"{"min": 1}"#));
}

#[test]
fn effect_predicate_serializes_constraints() {
    let pred = EffectPredicate::new()
        .amplifier(IntRange::exact(1))
        .duration(IntRange::at_least(200))
        .ambient(false)
        .visible(true);
    assert_eq!(
        norm(&pred.to_json()),
        json(r#"{"amplifier": 1, "duration": {"min": 200}, "ambient": false, "visible": true}"#)
    );
}

#[test]
fn entity_predicate_accepts_custom_effect_id() {
    let pred = EntityPredicate::new()
        .effect("mymod:arcane_burn".parse().unwrap(), EffectPredicate::new().duration(IntRange::at_most(100)));
    assert_eq!(norm(&pred.to_json()), json(r#"{"effects": {"mymod:arcane_burn": {"duration": {"max": 100}}}}"#));
}

#[test]
fn shared_status_effect_id_uses_existing_typed_predicate_paths() {
    let effect = StatusEffectId::minecraft("speed").unwrap();
    let entity = EntityPredicate::new().effect(effect, EffectPredicate::new().amplifier(IntRange::exact(1)));
    assert_eq!(norm(&entity.to_json())["effects"]["minecraft:speed"], json(r#"{"amplifier": 1}"#));
}

#[test]
fn damage_predicate_blocked() {
    assert_eq!(norm(&DamagePredicate::new().blocked(false).to_json())["blocked"], false);
}

#[test]
fn damage_predicate_dealt() {
    let dp = DamagePredicate::new().dealt(FloatRange::at_least(f(5.0)));
    assert_eq!(norm(&dp.to_json())["dealt"], json(r#"{"min": 5.0}"#));
}

#[test]
fn damage_predicate_raw() {
    let dp = DamagePredicate::raw(raw(r#"{"dealt": {"min": 10}}"#));
    assert_eq!(norm(&dp.to_json())["dealt"]["min"], 10);
}

#[test]
fn location_predicate_biome_dimension() {
    let lp = LocationPredicate::new()
        .biome(BiomeId::minecraft("plains").unwrap())
        .dimension(DimensionId::minecraft("overworld").unwrap());
    let v = norm(&lp.to_json());
    assert_eq!(v["biome"], "minecraft:plains");
    assert_eq!(v["dimension"], "minecraft:overworld");
}

#[test]
fn distance_predicate_horizontal() {
    let dp = DistancePredicate::horizontal_at_most(f(16.0));
    assert_eq!(norm(&dp.to_json())["horizontal"]["max"], 16.0);
}

#[test]
fn block_predicate_tag() {
    let bp = BlockPredicate::new().tag(TagId::minecraft("logs").unwrap());
    assert_eq!(norm(&bp.to_json())["tag"], "minecraft:logs");
}

#[test]
fn damage_source_predicate_tags() {
    let dsp = DamageSourcePredicate::new()
        .requires_tag(TagId::minecraft("is_fire").unwrap())
        .excludes_tag(TagId::minecraft("bypasses_armor").unwrap());
    let v = norm(&dsp.to_json());
    assert_eq!(v["tags"][0]["id"], "minecraft:is_fire");
    assert_eq!(v["tags"][0]["expected"], true);
    assert_eq!(v["tags"][1]["id"], "minecraft:bypasses_armor");
    assert_eq!(v["tags"][1]["expected"], false);
}

#[test]
fn int_range_error_message_names_both_bounds() {
    assert_eq!(IntRange::between(5, -2).validate_at("count").unwrap_err(), "count: minimum 5 exceeds maximum -2");
    assert_eq!(
        FloatRange::between(f(1.0), f(f64::NAN)).validate_at("d").unwrap_err(),
        "d.max: value must be finite"
    );
}

#[test]
fn effects_are_keyed_once_and_ordered_by_id() {
    let e = EntityPredicate::new()
        .effect("minecraft:speed".parse().unwrap(), EffectPredicate::new().amplifier(IntRange::exact(1)))
        .effect("minecraft:haste".parse().unwrap(), EffectPredicate::new())
        .effect("minecraft:speed".parse().unwrap(), EffectPredicate::new().amplifier(IntRange::between(3, 1)));
    match e.to_json() {
        JsonValue::Object(es) => match &es[0].1 {
            JsonValue::Object(effects) => {
                let keys: Vec<&str> = effects.iter().map(|(k, _)| k.as_str()).collect();
                assert_eq!(keys, vec!["minecraft:haste", "minecraft:speed"]);
            }
            _ => panic!("effects must be an object"),
        },
        _ => panic!("entity predicates are objects"),
    }
    assert_eq!(
        e.validate_at("p").unwrap_err(),
        "p.effects.minecraft:speed.amplifier: minimum 3 exceeds maximum 1"
    );
}

#[test]
fn item_component_matching_needs_item_components() {
    let p = ItemPredicate::id(item("stick")).custom_data_key("k");
    assert!(p.render_for_advancement(Some(&VersionCaps::new(1, 20, 4))).is_err());
    assert!(p.render_for_advancement(Some(&VersionCaps::new(1, 20, 5))).is_ok());
    assert!(p.render_for_advancement(None).is_ok());
    let collide = ItemPredicate::id(item("stick"))
        .custom_data_key("k")
        .raw_predicates(raw(r#"{"minecraft:custom_data": "{}"}"#));
    assert!(collide.validate_at("i").unwrap_err().starts_with("i.predicates.minecraft:custom_data:"));
}

#[test]
fn quoted_custom_data_keys_are_escaped() {
    let p = ItemPredicate::id(item("stick")).custom_data_key("my key").custom_data_key("a\"b");
    assert_eq!(norm(&p.to_json())["predicates"]["minecraft:custom_data"], "{\"my key\":1b,\"a\\\"b\":1b}");
}
