use sand_components::json::JsonValue;
use sand_components::{
    BiomeId, DimensionId, EntityFlags, EntityPredicate, EntityPredicateTarget, EntityTypeId,
    F64Bits, FloatRange, IntRange, LocationPredicate, Predicate, PredicateId, PredicateRoot,
    RawJson, VersionCaps, WeatherPredicate,
};
use serde_json::Value;

fn norm(j: &JsonValue) -> Value {
    match j {
        JsonValue::Null => Value::Null,
        JsonValue::Bool(b) => Value::Bool(*b),
        JsonValue::Int(n) => Value::from(*n),
        JsonValue::Float(f) => serde_json::Number::from_f64(f64::from_bits(f.bits))
            .map(Value::Number)
            .unwrap_or(Value::Null),
        JsonValue::Float32(f) => Value::from(f32::from_bits(f.bits)),
        JsonValue::Str(s) => Value::String(s.clone()),
        JsonValue::Array(v) => Value::Array(v.iter().map(norm).collect()),
        JsonValue::Object(es) => {
            let mut m = serde_json::Map::new();
            for (k, v) in es {
                m.insert(k.clone(), norm(v));
            }
            Value::Object(m)
        }
    }
}

fn json(text: &str) -> Value {
    serde_json::from_str(text).unwrap()
}

fn f(x: f64) -> F64Bits {
    F64Bits::from_bits(x.to_bits())
}

fn loc(path: &str) -> PredicateId {
    PredicateId::custom(format!("test:{path}").parse().unwrap())
}

#[test]
fn invalid_standalone_predicate_returns_contextual_error() {
    let predicate = Predicate::new(loc("bad_chance"), PredicateRoot::random_chance(f(1.5)));
    let error = predicate.try_content().unwrap_err().to_string();
    assert!(error.contains("test:bad_chance"));
    assert!(error.contains("predicate"));
    assert!(error.contains("predicate.chance"));
}

#[test]
fn valid_standalone_predicate_output_is_unchanged() {
    let predicate = Predicate::new(loc("valid_chance"), PredicateRoot::random_chance(f(0.5)));
    assert_eq!(predicate.try_content().unwrap(), predicate.to_json());
}

#[test]
fn random_chance_json_shape() {
    let predicate = Predicate::new(loc("rare_drop"), PredicateRoot::random_chance(f(0.1)));
    let json = norm(&predicate.to_json());
    assert_eq!(json["condition"], "minecraft:random_chance");
    assert!((json["chance"].as_f64().unwrap() - 0.1).abs() < 1e-6);
}

#[test]
fn entity_properties_json_shape() {
    let predicate = Predicate::new(
        loc("is_baby_zombie"),
        PredicateRoot::entity_properties(
            EntityPredicateTarget::This,
            EntityPredicate::type_(EntityTypeId::minecraft("zombie").unwrap()).flags(EntityFlags::new().baby(true)),
        ),
    );
    let json = norm(&predicate.to_json());
    assert_eq!(json["condition"], "minecraft:entity_properties");
    assert_eq!(json["entity"], "this");
    assert_eq!(json["predicate"]["minecraft:entity_type"], "minecraft:zombie");
    assert_eq!(json["predicate"]["minecraft:flags"]["is_baby"], true);
}

#[test]
fn location_check_json_shape() {
    let predicate = Predicate::new(
        loc("in_overworld"),
        PredicateRoot::location(LocationPredicate::new().dimension(DimensionId::minecraft("overworld").unwrap())),
    );
    let json = norm(&predicate.to_json());
    assert_eq!(json["condition"], "minecraft:location_check");
    assert_eq!(json["predicate"]["dimension"], "minecraft:overworld");
}

#[test]
fn weather_check_json_shape() {
    let predicate = Predicate::new(loc("is_raining"), PredicateRoot::weather(WeatherPredicate::new().raining(true)));
    let json = norm(&predicate.to_json());
    assert_eq!(json["condition"], "minecraft:weather_check");
    assert_eq!(json["raining"], true);
    assert!(json.get("thundering").is_none());
}

#[test]
fn time_check_json_shape() {
    let predicate = Predicate::new(loc("is_day"), PredicateRoot::time(IntRange::between(0, 12000)));
    let json = norm(&predicate.to_json());
    assert_eq!(json["condition"], "minecraft:time_check");
    assert_eq!(json["value"]["min"], 0);
    assert_eq!(json["value"]["max"], 12000);
}

#[test]
fn reference_json_shape() {
    let predicate =
        Predicate::new(loc("wraps_other"), PredicateRoot::reference(PredicateId::minecraft("some_condition").unwrap()));
    let json = norm(&predicate.to_json());
    assert_eq!(json["condition"], "minecraft:reference");
    assert_eq!(json["name"], "minecraft:some_condition");
}

#[test]
fn raw_escape_hatch_round_trips_arbitrary_object() {
    let obj = JsonValue::Object(vec![
        ("condition".to_string(), JsonValue::Str("mymod:custom_condition".to_string())),
        ("level".to_string(), JsonValue::Int(10)),
    ]);
    let predicate = Predicate::new(loc("mod_condition"), PredicateRoot::raw(RawJson::new(obj)).unwrap());
    let json = norm(&predicate.to_json());
    assert_eq!(json["condition"], "mymod:custom_condition");
    assert_eq!(json["level"], 10);
}

#[test]
fn raw_escape_hatch_rejects_non_object() {
    assert!(PredicateRoot::raw(RawJson::new(JsonValue::Int(5))).is_none());
}

#[test]
fn all_of_composition_round_trips() {
    let predicate = Predicate::all_of(
        loc("composed"),
        vec![
            PredicateRoot::random_chance(f(0.25)),
            PredicateRoot::weather(WeatherPredicate::new().raining(true)),
            PredicateRoot::inverted(PredicateRoot::random_chance(f(0.5))),
        ],
    );
    let expected = json(
        r#"{
        "condition": "minecraft:all_of",
        "terms": [
            {"condition": "minecraft:random_chance", "chance": 0.25},
            {"condition": "minecraft:weather_check", "raining": true},
            {"condition": "minecraft:inverted", "term": {"condition": "minecraft:random_chance", "chance": 0.5}}
        ]
    }"#,
    );
    assert_eq!(norm(&predicate.to_json()), expected);
    assert_eq!(predicate.try_content().unwrap(), predicate.to_json());
}

#[test]
fn any_of_empty_terms_rejected() {
    let predicate = Predicate::any_of(loc("empty"), Vec::new());
    let error = predicate.try_content().unwrap_err().to_string();
    assert!(error.contains("terms"));
}

#[test]
fn location_x_range_validation_propagates() {
    let predicate = Predicate::new(
        loc("bad_location"),
        PredicateRoot::location(LocationPredicate::new().x(FloatRange::between(f(10.0), f(5.0)))),
    );
    assert!(predicate.try_content().is_err());
}

#[test]
fn profiled_entity_predicate_uses_target_schema() {
    let predicate = Predicate::new(
        loc("profiled_entity"),
        PredicateRoot::entity_properties(EntityPredicateTarget::This, EntityPredicate::type_(EntityTypeId::minecraft("zombie").unwrap())),
    );
    let legacy = VersionCaps::new(1, 21, 4);
    let modern = VersionCaps::new(26, 2, 0);
    let legacy_json = norm(&predicate.try_content_for(Some(&legacy)).unwrap());
    let modern_json = norm(&predicate.try_content_for(Some(&modern)).unwrap());
    assert_eq!(legacy_json["predicate"]["type"], "minecraft:zombie");
    assert!(legacy_json["predicate"].get("minecraft:entity_type").is_none());
    assert_eq!(modern_json["predicate"]["minecraft:entity_type"], "minecraft:zombie");
    assert!(modern_json["predicate"].get("type").is_none());
}

#[test]
fn profiled_location_predicate_uses_target_schema_and_rejects_unknown_legacy() {
    let predicate =
        Predicate::new(loc("profiled_location"), PredicateRoot::location(LocationPredicate::new().biome(BiomeId::minecraft("plains").unwrap())));
    let supported = VersionCaps::new(1, 21, 4);
    let unsupported = VersionCaps::new(1, 18, 2);
    let json = norm(&predicate.try_content_for(Some(&supported)).unwrap());
    assert_eq!(json["predicate"]["biomes"], "minecraft:plains");
    assert!(json["predicate"].get("biome").is_none());
    let error = predicate.try_content_for(Some(&unsupported)).unwrap_err().to_string();
    assert!(error.contains("1.21.4+"));
    assert!(error.contains("target 1.18.2;"));
}

#[test]
fn nested_term_failure_names_its_index() {
    let predicate = Predicate::any_of(
        loc("nested"),
        vec![PredicateRoot::random_chance(f(0.5)), PredicateRoot::inverted(PredicateRoot::time(IntRange::between(5, 1)))],
    );
    let err = predicate.validate().unwrap_err().to_string();
    assert_eq!(
        err,
        "predicate `test:nested` failed validation at `predicate.terms[1].term.value`: predicate.terms[1].term.value: minimum 5 exceeds maximum 1"
    );
    assert_eq!(EntityPredicateTarget::KillerPlayer.as_str(), "killer_player");
}
