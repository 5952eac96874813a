use sand_components::json::JsonValue;
use sand_components::registry_coverage::tag_coverage;
use sand_components::{
    BlockId, EntityTypeId, FunctionId, ItemId, SandError, Tag, TagEntry, TagId, TagRegistry,
    TypedTag,
};
use serde_json::Value;

fn norm(j: &JsonValue) -> Value {
    match j {
        JsonValue::Null => Value::Null,
        JsonValue::Bool(b) => Value::Bool(*b),
        JsonValue::Int(n) => Value::from(*n),
        JsonValue::Float(f) => serde_json::Number::from_f64(f64::from_bits(f.bits))
            .map(Value::Number)
            .unwrap_or(Value::Null),
        JsonValue::Float32(f) => Value::from(f32::from_bits(f.bits)),
        JsonValue::Str(s) => Value::String(s.clone()),
        JsonValue::Array(v) => Value::Array(v.iter().map(norm).collect()),
        JsonValue::Object(es) => {
            let mut m = serde_json::Map::new();
            for (k, v) in es {
                m.insert(k.clone(), norm(v));
            }
            Value::Object(m)
        }
    }
}

fn json(text: &str) -> Value {
    serde_json::from_str(text).unwrap()
}

#[test]
fn item_tag_serializes_required_optional_and_refs() {
    let tag = TypedTag::new(TagId::<ItemId>::minecraft("tools").unwrap())
        .entry(ItemId::minecraft("stick").unwrap())
        .optional_entry(ItemId::minecraft("diamond").unwrap())
        .tag_ref(TagId::minecraft("axes").unwrap())
        .optional_tag_ref(TagId::minecraft("hammers").unwrap());
    assert_eq!(tag.component_dir(), "tags/item");
    assert_eq!(
        norm(&tag.to_json()),
        json(
            r##"{"replace": false, "values": [
            "minecraft:stick", {"id":"minecraft:diamond","required":false},
            "#minecraft:axes", {"id":"#minecraft:hammers","required":false}
        ]}"##
        )
    );
}

#[test]
fn registry_directories_are_correct() {
    assert_eq!(TypedTag::<BlockId>::new(TagId::minecraft("x").unwrap()).component_dir(), "tags/block");
    assert_eq!(
        TypedTag::<EntityTypeId>::new(TagId::minecraft("x").unwrap()).component_dir(),
        "tags/entity_type"
    );
    assert_eq!(TypedTag::<FunctionId>::new(TagId::minecraft("x").unwrap()).component_dir(), "tags/function");
}

#[test]
fn typed_registry_mapping_matches_coverage_source() {
    let rows = tag_coverage();
    for (key, dir) in [
        (ItemId::REGISTRY_KEY, ItemId::TAG_DIR),
        (BlockId::REGISTRY_KEY, BlockId::TAG_DIR),
        (EntityTypeId::REGISTRY_KEY, EntityTypeId::TAG_DIR),
        (FunctionId::REGISTRY_KEY, FunctionId::TAG_DIR),
    ] {
        assert!(
            rows.iter().any(|row| row.value_registry == key && row.datapack_dir == dir),
            "missing tag coverage mapping for {key} -> {dir}"
        );
    }
}

#[test]
fn empty_requires_explicit_opt_in() {
    let tag = TypedTag::<ItemId>::new(TagId::minecraft("empty").unwrap());
    assert!(matches!(tag.validate(), Err(SandError::ComponentValidation { field, .. }) if field == "values"));
    assert!(tag.allow_empty(true).validate().is_ok());
}

#[test]
fn raw_refs_are_validated_and_normalized_once() {
    let tag = TypedTag::<ItemId>::new(TagId::minecraft("raw").unwrap()).raw_entry("#modded:tools").unwrap();
    assert_eq!(norm(&tag.to_json())["values"][0], "#modded:tools");
    assert!(TagEntry::<ItemId>::raw("##minecraft:tools").is_err());
    assert!(TagEntry::<ItemId>::raw("not valid").is_err());
}

#[test]
fn duplicates_preserve_insertion_order() {
    let tag = TypedTag::new(TagId::<ItemId>::minecraft("dupes").unwrap())
        .entry(ItemId::minecraft("stick").unwrap())
        .entry(ItemId::minecraft("stick").unwrap());
    assert_eq!(norm(&tag.to_json())["values"], json(r#"["minecraft:stick", "minecraft:stick"]"#));
}

#[test]
fn legacy_tag_output_is_unchanged() {
    let tag = Tag::new("demo:legacy".parse().unwrap()).entry("minecraft:stone").tag_ref("minecraft:logs");
    assert_eq!(tag.component_dir(), "tags");
    assert_eq!(
        norm(&tag.to_json()),
        json(r##"{"replace":false,"values":["minecraft:stone","#minecraft:logs"]}"##)
    );
}

#[test]
fn fallible_component_export_rejects_empty_typed_tag() {
    let tag = TypedTag::<BlockId>::new(TagId::minecraft("empty").unwrap());
    let error = tag.try_content().unwrap_err().to_string();
    assert!(error.contains("minecraft:empty"));
    assert!(error.contains("tags/block"));
    assert!(error.contains("values"));
}

#[test]
fn typed_tag_replace_flag_is_written() {
    let tag = TypedTag::new(TagId::<ItemId>::minecraft("r").unwrap())
        .entry(ItemId::minecraft("stick").unwrap())
        .replace(true);
    assert_eq!(norm(&tag.to_json())["replace"], true);
    assert_eq!(tag.values().len(), 1);
}
