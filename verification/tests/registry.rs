use sand_components::json::JsonValue;
use sand_components::{
    BlockId, ChickenVariantId, CowVariantId, DimensionId, EnchantmentEffectComponentId,
    EquipmentModelId, ItemId, PigVariantId, PotionRegistryId, ProcessorListId, ResourceLocation,
    SoundEventId, StatusEffectId, StructureTypeId, TagId, TemplatePoolId,
};

#[test]
fn item_id_minecraft() {
    let id = ItemId::minecraft("diamond_sword").unwrap();
    assert_eq!(id.to_string(), "minecraft:diamond_sword");
}

#[test]
fn item_id_custom() {
    let rl = ResourceLocation::new("mymod", "arcane_blade").unwrap();
    let id = ItemId::custom(rl);
    assert_eq!(id.to_string(), "mymod:arcane_blade");
}

#[test]
fn item_id_from_resource_location() {
    let rl = ResourceLocation::new("mymod", "sword").unwrap();
    let id: ItemId = rl.into();
    assert_eq!(id.to_string(), "mymod:sword");
}

#[test]
fn status_effect_and_potion_registry_ids_validate_and_serialize() {
    let effect = StatusEffectId::minecraft("speed").unwrap();
    let potion: PotionRegistryId = "mymod:arcane_brew".parse().unwrap();
    assert_eq!(effect.to_string(), "minecraft:speed");
    assert_eq!(potion.to_string(), "mymod:arcane_brew");
    assert_eq!(effect.to_json(), JsonValue::Str("minecraft:speed".to_string()));
    assert!("not namespaced".parse::<StatusEffectId>().is_err());
    assert!("minecraft:bad path".parse::<PotionRegistryId>().is_err());
}

#[test]
fn sound_event_and_equipment_model_ids_validate_and_serialize() {
    let sound = SoundEventId::minecraft("entity.player.burp").unwrap();
    let model: EquipmentModelId = "mymod:royal_armor".parse().unwrap();
    assert_eq!(sound.to_string(), "minecraft:entity.player.burp");
    assert_eq!(model.to_string(), "mymod:royal_armor");
    assert_eq!(sound.to_json(), JsonValue::Str("minecraft:entity.player.burp".to_string()));
    assert!("not namespaced".parse::<SoundEventId>().is_err());
    assert!("minecraft:bad path".parse::<EquipmentModelId>().is_err());
}

#[test]
fn item_id_parse() {
    let id: ItemId = "minecraft:golden_apple".parse().unwrap();
    assert_eq!(id.to_string(), "minecraft:golden_apple");
}

#[test]
fn item_id_invalid_namespace_rejected() {
    assert!(ItemId::minecraft("Invalid Path").is_err());
}

#[test]
fn tag_id_minecraft() {
    let tag: TagId<ItemId> = TagId::minecraft("logs").unwrap();
    assert_eq!(tag.to_string(), "minecraft:logs");
    assert_eq!(tag.to_tag_string(), "#minecraft:logs");
}

#[test]
fn tag_id_parse_with_hash() {
    let tag: TagId<ItemId> = "#minecraft:logs".parse().unwrap();
    assert_eq!(tag.to_string(), "minecraft:logs");
}

#[test]
fn tag_id_parse_without_hash() {
    let tag: TagId<BlockId> = "minecraft:planks".parse().unwrap();
    assert_eq!(tag.to_tag_string(), "#minecraft:planks");
}

#[test]
fn tag_id_custom() {
    let rl = ResourceLocation::new("mymod", "special_blocks").unwrap();
    let tag: TagId<BlockId> = TagId::custom(rl);
    assert_eq!(tag.to_string(), "mymod:special_blocks");
}

#[test]
fn dimension_id_minecraft() {
    let id = DimensionId::minecraft("overworld").unwrap();
    assert_eq!(id.to_string(), "minecraft:overworld");
}

#[test]
fn animal_variant_ids_validate_and_serialize() {
    let chicken = ChickenVariantId::minecraft("cold").unwrap();
    let cow = CowVariantId::minecraft("warm").unwrap();
    let pig: PigVariantId = "mymod:arcane_pig".parse().unwrap();
    assert_eq!(chicken.to_string(), "minecraft:cold");
    assert_eq!(cow.to_string(), "minecraft:warm");
    assert_eq!(pig.to_string(), "mymod:arcane_pig");
    assert_eq!(chicken.to_json(), JsonValue::Str("minecraft:cold".to_string()));
    assert!("not namespaced".parse::<ChickenVariantId>().is_err());
    assert!("minecraft:bad path".parse::<CowVariantId>().is_err());
}

#[test]
fn well_known_constant_ids_have_fixed_text() {
    assert_eq!(TemplatePoolId::empty().to_string(), "minecraft:empty");
    assert_eq!(ProcessorListId::empty().to_string(), "minecraft:empty");
    assert_eq!(StructureTypeId::jigsaw().to_string(), "minecraft:jigsaw");
    assert_eq!(EnchantmentEffectComponentId::damage().to_string(), "minecraft:damage");
    assert_eq!(EnchantmentEffectComponentId::knockback().to_string(), "minecraft:knockback");
    assert_eq!(
        EnchantmentEffectComponentId::armor_effectiveness().to_string(),
        "minecraft:armor_effectiveness"
    );
}

#[test]
fn tag_text_roundtrips_through_parse() {
    let tag: TagId<ItemId> = TagId::minecraft("planks").unwrap();
    let back: TagId<ItemId> = tag.to_tag_string().parse().unwrap();
    assert_eq!(back.to_string(), tag.to_string());
    let plain: TagId<ItemId> = tag.to_string().parse().unwrap();
    assert_eq!(plain.to_tag_string(), "#minecraft:planks");
}

#[test]
fn registry_id_parse_errors_name_the_bad_part() {
    let err = "Bad:path".parse::<ItemId>().unwrap_err();
    assert_eq!(err.to_string(), "invalid resource location namespace `Bad`");
    let err = "minecraft:bad path".parse::<ItemId>().unwrap_err();
    assert_eq!(err.to_string(), "invalid resource location path `bad path`");
}
