use sand_components::json::JsonValue;
use sand_components::{
    EnchantmentId, EnchantmentSelector, F64Bits, ItemId, LootCondition, LootEntry, LootFunction,
    LootPool, LootTable, LootTableId, LootTableType, LootText, NumberProvider, RawJson,
    ResourceLocation, TagId,
};
use serde_json::Value;

fn norm(j: &JsonValue) -> Value {
    match j {
        JsonValue::Null => Value::Null,
        JsonValue::Bool(b) => Value::Bool(*b),
        JsonValue::Int(n) => Value::from(*n),
        JsonValue::Float(f) => serde_json::Number::from_f64(f64::from_bits(f.bits))
            .map(Value::Number)
            .unwrap_or(Value::Null),
        JsonValue::Float32(f) => Value::from(f32::from_bits(f.bits)),
        JsonValue::Str(s) => Value::String(s.clone()),
        JsonValue::Array(v) => Value::Array(v.iter().map(norm).collect()),
        JsonValue::Object(es) => {
            let mut m = serde_json::Map::new();
            for (k, v) in es {
                m.insert(k.clone(), norm(v));
            }
            Value::Object(m)
        }
    }
}

fn json(text: &str) -> Value {
    serde_json::from_str(text).unwrap()
}

fn f(x: f64) -> F64Bits {
    F64Bits::from_bits(x.to_bits())
}

fn loc(text: &str) -> ResourceLocation {
    ResourceLocation::parse(text).unwrap()
}

fn text_obj(s: &str) -> JsonValue {
    JsonValue::Object(vec![("text".to_string(), JsonValue::Str(s.to_string()))])
}

fn item_with(conditions: Vec<LootCondition>, functions: Vec<LootFunction>) -> LootEntry {
    LootEntry::Item {
        name: "minecraft:diamond".to_string(),
        weight: None,
        quality: None,
        functions,
        conditions,
    }
}

#[test]
fn probability_bounds_are_enforced_with_paths() {
    for value in [0.0, 0.5, 1.0] {
        assert!(LootCondition::RandomChance { chance: f(value) }.validate_at("conditions[1]").is_ok());
    }
    for value in [-0.1, 1.1, f64::NAN, f64::INFINITY, f64::NEG_INFINITY] {
        let err = LootCondition::RandomChance { chance: f(value) }
            .validate_at("pools[0].conditions[1]")
            .unwrap_err();
        assert!(err.path.contains("pools[0].conditions[1].chance"));
    }
}

#[test]
fn recursive_entry_failure_retains_owner_and_indices() {
    let invalid = item_with(vec![LootCondition::RandomChance { chance: f(-0.1) }], Vec::new());
    let table = LootTable::new(loc("test:recursive")).pool(LootPool::new().entry(LootEntry::group(vec![invalid])));
    let error = table.try_content().unwrap_err().to_string();
    assert!(error.contains("test:recursive"));
    assert!(error.contains("pools[0].entries[0].children[0].conditions[0].chance"));
    assert!(error.contains("probability"));
}

#[test]
fn valid_recursive_loot_output_is_unchanged() {
    let table = LootTable::new(loc("test:valid_recursive"))
        .pool(LootPool::new().entry(item_with(vec![LootCondition::RandomChance { chance: f(0.5) }], Vec::new())));
    assert_eq!(table.try_content().unwrap(), table.to_json());
}

#[test]
fn nested_function_failure_retains_owner_and_full_path() {
    let invalid = item_with(
        Vec::new(),
        vec![LootFunction::SetCount { count: NumberProvider::Constant(f(f64::NAN)), add: false }],
    );
    let table = LootTable::new(loc("test:function_path")).pool(LootPool::new().entry(invalid));
    let error = table.try_content().unwrap_err().to_string();
    assert!(error.contains("test:function_path"));
    assert!(error.contains("pools[0].entries[0].functions[0].count"));
    assert!(error.contains("finite"));
}

#[test]
fn explicit_empty_and_representative_helpers_preserve_valid_json() {
    let empty = LootTable::new(loc("test:empty")).loot_type(LootTableType::Empty);
    assert_eq!(empty.try_content().unwrap(), empty.to_json());
    let examples = [
        LootTable::simple_block_drop(loc("test:block"), "minecraft:stone", 1),
        LootTable::entity_drop(loc("test:entity"), "minecraft:leather", 1, 2, Some(1)),
        LootTable::chest_loot(loc("test:chest"), vec![("minecraft:diamond".to_string(), 2, 1, 3)]),
        LootTable::fortune_drop(loc("test:fortune"), "minecraft:coal", "minecraft:fortune", vec![f(0.5), f(0.75), f(1.0)]),
    ];
    for table in examples {
        assert_eq!(table.try_content().unwrap(), table.to_json());
    }
}

#[test]
fn helper_invalid_counts_and_ranges_fail_at_owner_boundary() {
    let zero = LootTable::simple_block_drop(loc("test:zero"), "minecraft:stone", 0);
    assert!(zero.try_content().unwrap_err().to_string().contains("greater than zero"));
    let inverted = LootTable::entity_drop(loc("test:inverted"), "minecraft:leather", 3, 1, None);
    assert!(inverted.try_content().unwrap_err().to_string().contains("minimum"));
    let bad_weight = LootTable::chest_loot(loc("test:weight"), vec![("minecraft:diamond".to_string(), 0, 1, 1)]);
    assert!(bad_weight.try_content().unwrap_err().to_string().contains("weight"));
}

#[test]
fn typed_item_entry_matches_raw_item_entry_json() {
    let typed = LootEntry::item(ItemId::minecraft("diamond").unwrap());
    let raw = LootEntry::item_raw("minecraft:diamond");
    assert_eq!(typed.to_json(), raw.to_json());
}

#[test]
fn typed_tag_entry_matches_raw_tag_entry_json() {
    let typed = LootEntry::tag(TagId::minecraft("logs").unwrap());
    let raw = LootEntry::tag_raw("minecraft:logs");
    assert_eq!(typed.to_json(), raw.to_json());
}

#[test]
fn typed_loot_table_entry_matches_raw_loot_table_entry_json() {
    let typed = LootEntry::loot_table(LootTableId::minecraft("chests/simple_dungeon").unwrap());
    let raw = LootEntry::loot_table_raw("minecraft:chests/simple_dungeon");
    assert_eq!(typed.to_json(), raw.to_json());
}

#[test]
fn typed_random_sequence_matches_raw_random_sequence_json() {
    let typed = LootTable::new(loc("test:typed_seq"))
        .loot_type(LootTableType::Empty)
        .random_sequence(ResourceLocation::new("test", "sequence").unwrap());
    let raw = LootTable::new(loc("test:typed_seq")).loot_type(LootTableType::Empty).random_sequence_raw("test:sequence");
    assert_eq!(typed.to_json(), raw.to_json());
}

#[test]
fn typed_enchant_with_levels_matches_raw_string_json() {
    let typed = LootFunction::EnchantWithLevels {
        levels: NumberProvider::Constant(f(10.0)),
        options: Some(EnchantmentSelector::Id(EnchantmentId::minecraft("sharpness").unwrap())),
    };
    assert_eq!(
        norm(&typed.to_json()),
        json(r#"{"function": "minecraft:enchant_with_levels", "levels": 10.0, "options": "minecraft:sharpness"}"#)
    );
}

#[test]
fn typed_enchant_randomly_tag_serializes_hash_prefixed_string() {
    let typed = LootFunction::EnchantRandomly {
        options: Some(vec![EnchantmentSelector::Tag(TagId::minecraft("in_enchanting_table").unwrap())]),
        only_compatible: true,
    };
    assert_eq!(
        norm(&typed.to_json()),
        json(r##"{"function": "minecraft:enchant_randomly", "options": ["#minecraft:in_enchanting_table"], "only_compatible": true}"##)
    );
}

#[test]
fn typed_set_name_matches_raw_json_text_for_plain_string() {
    let typed = LootFunction::set_name(LootText::literal("Legendary Sword"));
    let raw = LootFunction::SetName { name: LootText::Raw(RawJson::new(text_obj("Legendary Sword"))), entity: None };
    assert_eq!(norm(&typed.to_json()), norm(&raw.to_json()));
}

#[test]
fn typed_set_lore_matches_raw_json_text_for_plain_strings() {
    let typed = LootFunction::set_lore(vec![LootText::literal("Line one"), LootText::literal("Line two")]);
    let raw = LootFunction::SetLore {
        lore: vec![LootText::Raw(RawJson::new(text_obj("Line one"))), LootText::Raw(RawJson::new(text_obj("Line two")))],
        entity: None,
    };
    assert_eq!(norm(&typed.to_json()), norm(&raw.to_json()));
}

#[test]
fn raw_escape_hatches_still_fail_export_validation_on_bad_ids() {
    let bad_item = LootTable::new(loc("test:bad_item")).pool(LootPool::new().entry(LootEntry::item_raw("not a valid id")));
    assert!(bad_item.try_content().is_err());
    let bad_tag = LootTable::new(loc("test:bad_tag")).pool(LootPool::new().entry(LootEntry::tag_raw("not a valid id")));
    assert!(bad_tag.try_content().is_err());
    let bad_loot_table =
        LootTable::new(loc("test:bad_loot_table")).pool(LootPool::new().entry(LootEntry::loot_table_raw("not a valid id")));
    assert!(bad_loot_table.try_content().is_err());
    let bad_sequence = LootTable::new(loc("test:bad_sequence")).loot_type(LootTableType::Empty).random_sequence_raw("not a valid id");
    assert!(bad_sequence.try_content().is_err());
}

#[test]
fn number_providers_reject_invalid_numeric_states() {
    for value in [f64::NAN, f64::INFINITY, f64::NEG_INFINITY] {
        assert!(NumberProvider::Constant(f(value)).validate_at("rolls").is_err());
        assert!(NumberProvider::Uniform { min: f(value), max: f(1.0) }.validate_at("rolls").is_err());
        assert!(NumberProvider::Binomial { n: 1, p: f(value) }.validate_at("rolls").is_err());
        assert!(NumberProvider::Score {
            target: JsonValue::Str("this".to_string()),
            score: "points".to_string(),
            scale: Some(f(value)),
        }
        .validate_at("rolls")
        .is_err());
    }
    assert!(NumberProvider::Uniform { min: f(2.0), max: f(1.0) }.validate_at("rolls").is_err());
    assert!(NumberProvider::Binomial { n: -1, p: f(0.5) }.validate_at("rolls").is_err());
}

#[test]
fn empty_children_and_invalid_weight_are_rejected() {
    for entry in [LootEntry::group(Vec::new()), LootEntry::alternatives(Vec::new()), LootEntry::sequence(Vec::new())] {
        let empty = entry.validate_at("entries[0]").unwrap_err();
        assert_eq!(empty.path, "entries[0].children");
    }
    let weighted = LootEntry::Item {
        name: "minecraft:diamond".to_string(),
        weight: Some(0),
        quality: None,
        functions: Vec::new(),
        conditions: Vec::new(),
    }
    .validate_at("entries[1]")
    .unwrap_err();
    assert_eq!(weighted.path, "entries[1].weight");
}

#[test]
fn custom_wrapper_requires_id_and_object_data() {
    let failure = LootCondition::Custom { condition: "bad id".to_string(), data: RawJson::new(JsonValue::Object(Vec::new())) }
        .validate_at("conditions[0]")
        .unwrap_err();
    assert_eq!(failure.path, "conditions[0].condition");
    let failure = LootFunction::Custom { function: "mod:custom".to_string(), data: RawJson::new(JsonValue::Int(42)) }
        .validate_at("functions[0]")
        .unwrap_err();
    assert_eq!(failure.path, "functions[0].data");
    let failure = LootCondition::Custom {
        condition: "mod:custom".to_string(),
        data: RawJson::new(JsonValue::Object(vec![("condition".to_string(), JsonValue::Str("mod:override".to_string()))])),
    }
    .validate_at("conditions[0]")
    .unwrap_err();
    assert!(failure.message.contains("reserved"));
}

#[test]
fn functions_validate_nested_number_providers_and_references() {
    let failure = LootFunction::SetDamage { damage: NumberProvider::Uniform { min: f(1.0), max: f(f64::NAN) }, add: false }
        .validate_at("functions[2]")
        .unwrap_err();
    assert_eq!(failure.path, "functions[2].damage.max");
    let failure = LootFunction::Reference { name: "not namespaced".to_string() }.validate_at("functions[0]").unwrap_err();
    assert_eq!(failure.path, "functions[0].name");
}

#[test]
fn table_and_pool_structural_invariants_are_explicit() {
    let location = ResourceLocation::new("test", "empty").unwrap();
    assert_eq!(LootTable::new(location.clone()).validate_table().unwrap_err().path, "pools");
    assert!(LootTable::new(location).loot_type(LootTableType::Empty).validate_table().is_ok());
    let failure = LootTable::new(ResourceLocation::new("test", "pool").unwrap())
        .pool(LootPool::new())
        .validate_table()
        .unwrap_err();
    assert_eq!(failure.path, "pools[0].entries");
}

#[test]
fn legacy_string_ids_are_checked_only_at_export_validation() {
    let table = LootTable::new(ResourceLocation::new("test", "ids").unwrap())
        .loot_type(LootTableType::Custom("bad type".to_string()))
        .random_sequence_raw("test:sequence")
        .pool(LootPool::new().entry(LootEntry::item_raw("minecraft:diamond")));
    assert_eq!(table.validate_table().unwrap_err().path, "type");
    let table = LootTable::new(ResourceLocation::new("test", "entry_id").unwrap())
        .pool(LootPool::new().entry(LootEntry::item_raw("bad item")));
    assert_eq!(table.validate_table().unwrap_err().path, "pools[0].entries[0].name");
}

#[test]
fn simple_block_drop_json_shape() {
    let table = LootTable::simple_block_drop(loc("test:block"), "minecraft:stone", 2);
    assert_eq!(
        norm(&table.to_json()),
        json(
            r#"{"type": "minecraft:block", "pools": [{"rolls": 1.0, "entries": [
                {"type": "minecraft:item", "name": "minecraft:stone",
                 "functions": [{"function": "minecraft:set_count", "count": 2.0, "add": false}]}],
                "conditions": [{"condition": "minecraft:survives_explosion"}]}]}"#
        )
    );
}

#[test]
fn loot_validation_error_message_is_exact() {
    let err = LootTable::new(loc("test:empty")).validate().unwrap_err();
    assert_eq!(
        err.to_string(),
        "loot_table `test:empty` failed validation at `pools`: loot table must contain content or explicitly use LootTableType::Empty"
    );
    let failure = LootEntry::item_raw("Bad Id").validate_at("entries[3]").unwrap_err();
    assert_eq!(failure.message, "invalid resource location `Bad Id`: invalid resource location namespace `Bad Id`");
}

#[test]
fn custom_condition_merges_object_data() {
    let c = LootCondition::Custom {
        condition: "mod:c".to_string(),
        data: RawJson::new(JsonValue::Object(vec![("level".to_string(), JsonValue::Int(3))])),
    };
    assert_eq!(norm(&c.to_json()), json(r#"{"condition": "mod:c", "level": 3}"#));
}

#[test]
fn number_provider_json_forms() {
    assert_eq!(norm(&NumberProvider::from_i32(3).to_json()), json("3.0"));
    assert_eq!(
        norm(&NumberProvider::Binomial { n: 4, p: f(0.25) }.to_json()),
        json(r#"{"type": "minecraft:binomial", "n": 4, "p": 0.25}"#)
    );
    assert_eq!(LootTableType::Chest.type_str(), "minecraft:chest");
    assert_eq!(LootTableType::Custom("m:x".to_string()).type_str(), "m:x");
}

#[test]
fn built_in_loot_table_types_are_distinct_valid_locations() {
    let all = vec![
        sand_components::LootTableType::Empty,
        sand_components::LootTableType::Entity,
        sand_components::LootTableType::Block,
        sand_components::LootTableType::Chest,
        sand_components::LootTableType::Equipment,
        sand_components::LootTableType::Fishing,
        sand_components::LootTableType::Gift,
        sand_components::LootTableType::VaultReward,
        sand_components::LootTableType::Shearing,
        sand_components::LootTableType::Archaeology,
        sand_components::LootTableType::Generic,
        sand_components::LootTableType::Barter,
        sand_components::LootTableType::Command,
        sand_components::LootTableType::Selector,
        sand_components::LootTableType::AdvancementReward,
        sand_components::LootTableType::AdvancementEntity,
    ];
    let texts: Vec<String> = all.iter().map(|t| t.type_str()).collect();
    for (i, a) in texts.iter().enumerate() {
        let rl = sand_components::ResourceLocation::parse(a).unwrap();
        assert_eq!(rl.to_string(), *a);
        assert!(a.starts_with("minecraft:"));
        for b in texts.iter().skip(i + 1) {
            assert_ne!(a, b);
        }
    }
    assert_eq!(texts[7], "minecraft:vault_reward");
    assert_eq!(sand_components::LootTableType::Custom("mymod:x".to_string()).type_str(), "mymod:x");
}
