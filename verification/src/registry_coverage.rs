//! Datapack component coverage audit.
//!
//! Tables of every known vanilla Java Edition data-driven registry with the
//! library's implementation status, of the tag directories, and of datapack
//! assets that are not registries (copy-backed binary structure templates).
//! Gaps are listed explicitly rather than silently absent.

use vstd::prelude::*;

verus! {

/// How well the typed API covers a registry.
#[derive(Debug, Clone, Copy, PartialEq, Eq)]
pub enum RegistryApiStatus {
    /// A typed module exists, validates its normal-path fields at export, writes
    /// the correct datapack paths, and has focused serialization tests.
    FullyImplemented,
    /// A module exists but coverage is incomplete.
    PartiallyImplemented,
    /// No typed module; use `RawComponent` as the named escape hatch.
    Missing,
    /// Reachable only via `RawComponent` or inline raw JSON.
    RawOnly,
    /// Only present in a newer Minecraft version not yet verified.
    VersionGated,
    /// Intentionally not modelled.
    IntentionallyUnsupported,
}

/// One row of the registry coverage table.
#[derive(Debug)]
pub struct RegistryCoverage {
    /// The vanilla registry key (e.g. `"minecraft:recipe"`).
    pub registry_key: &'static str,
    /// The datapack folder path relative to `data/<namespace>/`.
    pub datapack_dir: &'static str,
    /// The tag path, if this registry is taggable.
    pub tag_dir: Option<&'static str>,
    /// The module that covers this registry, if any.
    pub sand_module: Option<&'static str>,
    /// Implementation status.
    pub api_status: RegistryApiStatus,
    /// Minecraft version that introduced the registry (`None` = all supported versions).
    pub version_gate: Option<&'static str>,
    /// Notes about gaps, escape hatches, or follow-up issues.
    pub notes: &'static str,
}

/// Coverage for a datapack tag directory and the registry its values belong to.
#[derive(Debug)]
pub struct TagCoverage {
    /// The registry containing values referenced by this tag family.
    pub value_registry: &'static str,
    /// The tag folder path relative to `data/<namespace>/`.
    pub datapack_dir: &'static str,
    /// The module that provides this tag API, if any.
    pub sand_module: Option<&'static str>,
    /// Implementation status.
    pub api_status: RegistryApiStatus,
    /// Notes about typed coverage or escape hatches.
    pub notes: &'static str,
}

/// How a non-registry datapack asset is produced.
#[derive(Debug, Clone, Copy, PartialEq, Eq)]
pub enum DatapackAssetKind {
    /// An existing binary file is validated and copied without being parsed.
    CopyBackedBinary,
}

/// Coverage for a datapack component that is not a data-driven registry or tag.
#[derive(Debug)]
pub struct DatapackAssetCoverage {
    /// Stable name for the asset family.
    pub asset_name: &'static str,
    /// The datapack folder path relative to `data/<namespace>/`.
    pub datapack_dir: &'static str,
    /// File extension without a leading dot.
    pub file_extension: &'static str,
    /// The module that provides this asset API.
    pub sand_module: &'static str,
    /// How the asset is produced.
    pub kind: DatapackAssetKind,
    /// Implementation status.
    pub api_status: RegistryApiStatus,
    /// Notes about validation boundaries and unsupported behavior.
    pub notes: &'static str,
}

/// The rows of the registry coverage table, in table order.
pub open spec fn spec_registry_rows() -> Seq<RegistryCoverage> {
    seq![
        RegistryCoverage {
            registry_key: "minecraft:advancement",
            datapack_dir: "advancement",
            tag_dir: None,
            sand_module: Some("sand_components::advancement"),
            api_status: RegistryApiStatus::FullyImplemented,
            version_gate: None,
            notes: "Advancement, AdvancementTrigger, AdvancementDisplay. 50+ trigger variants. Normal display, icon, \
                    parent, reward, and trigger reference paths are typed; unsupported/custom shapes require explicitly \
                    named raw escape hatches. See trigger_coverage.",
        },
        RegistryCoverage {
            registry_key: "minecraft:function",
            datapack_dir: "function",
            tag_dir: Some("tags/function"),
            sand_module: Some("sand_core::function"),
            api_status: RegistryApiStatus::FullyImplemented,
            version_gate: None,
            notes: "#[function] macro generates .mcfunction files. load/tick/custom tags supported.",
        },
        RegistryCoverage {
            registry_key: "minecraft:loot_table",
            datapack_dir: "loot_table",
            tag_dir: None,
            sand_module: Some("sand_components::loot_table"),
            api_status: RegistryApiStatus::PartiallyImplemented,
            version_gate: None,
            notes: "LootTable, LootPool, LootEntry exist. #185 typed the normal item/tag/loot-table-reference \
                    entry constructors (ItemId, TagId<ItemId>, LootTableId), set_name/set_lore (TextComponent-backed \
                    LootText), enchant_with_levels/enchant_randomly (EnchantmentSelector), and random_sequence \
                    (ResourceLocation), each with explicitly named raw escape hatches still checked by export \
                    validation. LootCondition::{EntityProperties, MatchTool, TimeCheck} and \
                    NumberProvider::Score::target remain raw serde_json::Value predicate/range/target payloads \
                    pending shared predicate/range validation (#137). \
                    #17 (original registry-coverage generation issue) is closed and does not track this specific gap.",
        },
        RegistryCoverage {
            registry_key: "minecraft:predicate",
            datapack_dir: "predicate",
            tag_dir: None,
            sand_module: Some("sand_components::predicate"),
            api_status: RegistryApiStatus::FullyImplemented,
            version_gate: None,
            notes: "#204 added a dedicated PredicateRoot typed condition tree (AllOf/AnyOf/Inverted, \
                    EntityProperties with a typed EntityPredicateTarget, LocationCheck, WeatherCheck, \
                    TimeCheck, RandomChance, Reference via the typed PredicateId, and an explicit Raw \
                    escape hatch), replacing the previous LootCondition-only wrapper. Predicate is no \
                    longer coupled to loot-table condition internals as the only normal authoring path; \
                    Predicate::from_loot_condition remains for LootCondition-based compatibility and \
                    falls back to the Raw escape hatch for loot-only condition shapes. Export-time \
                    validation covers empty all_of/any_of terms, chance/range bounds, and nested \
                    predicate validation.",
        },
        RegistryCoverage {
            registry_key: "minecraft:recipe",
            datapack_dir: "recipe",
            tag_dir: None,
            sand_module: Some("sand_components::recipe"),
            api_status: RegistryApiStatus::FullyImplemented,
            version_gate: None,
            notes: "All standard recipe types implemented: shaped, shapeless, smelting, blasting, smoking, campfire, \
                    smithing_transform, smithing_trim, stonecutting. #178 (route recipe ingredient/result IDs through \
                    typed item/tag IDs) is closed and confirmed done: Ingredient::item_id/item_tag and \
                    RecipeResult::item take IntoRecipeItemId/TagId<ItemId> on the normal path; raw_item/raw_tag/raw \
                    remain as explicitly named compatibility escape hatches. Not downgraded per #193 (a prior review \
                    pass incorrectly cited #178 as still open; verified closed 2026-07-12 with the typed API already \
                    present on this branch's base).",
        },
        RegistryCoverage {
            registry_key: "minecraft:item_modifier",
            datapack_dir: "item_modifier",
            tag_dir: None,
            sand_module: Some("sand_components::item_modifier"),
            api_status: RegistryApiStatus::PartiallyImplemented,
            version_gate: None,
            notes: "ItemModifier exists. SetCount, SetComponents, EnchantRandomly present. Full modifier set incomplete.",
        },
        RegistryCoverage {
            registry_key: "minecraft:damage_type",
            datapack_dir: "damage_type",
            tag_dir: Some("tags/damage_type"),
            sand_module: Some("sand_components::damage_type"),
            api_status: RegistryApiStatus::FullyImplemented,
            version_gate: Some("1.19.4"),
            notes: "DamageType, DamageScaling, DamageEffects, DeathMessageType. Introduced in 1.19.4.",
        },
        RegistryCoverage {
            registry_key: "minecraft:enchantment",
            datapack_dir: "enchantment",
            tag_dir: Some("tags/enchantment"),
            sand_module: Some("sand_components::enchantment"),
            api_status: RegistryApiStatus::PartiallyImplemented,
            version_gate: Some("1.21"),
            notes: "Enchantment uses typed TextComponent description, ItemOrTag/EnchantmentOrTag \
                    (ItemId/EnchantmentId/TagId<T>) for supported_items/primary_items/exclusive_set, \
                    and the reused EquipmentSlotGroup enum for slots on the normal path. Effects use a \
                    typed EnchantmentEffectComponentId key plus a small value-effect slice covering \
                    minecraft:damage, minecraft:knockback, and minecraft:armor_effectiveness \
                    (EnchantmentValueOperation + LevelBasedValue); raw_effect_component and raw_effects \
                    remain explicit escape hatches for other/custom effect components. Full vanilla \
                    effect-component coverage is intentionally partial — see module docs. Typed \
                    migration: #202.",
        },
        RegistryCoverage {
            registry_key: "minecraft:enchantment_provider",
            datapack_dir: "enchantment_provider",
            tag_dir: None,
            sand_module: Some("sand_components::enchantment_provider"),
            api_status: RegistryApiStatus::PartiallyImplemented,
            version_gate: Some("1.21"),
            notes: "EnchantmentProvider covers single, by_cost, and by_cost_with_difficulty with typed \
                    enchantment IDs/tags and constant/uniform integer providers. Other integer-provider \
                    and modded provider shapes use the explicit whole-provider RawJson escape hatch. \
                    Added with data-driven enchantments in 1.21. Follow-up: #188.",
        },
        RegistryCoverage {
            registry_key: "minecraft:jukebox_song",
            datapack_dir: "jukebox_song",
            tag_dir: None,
            sand_module: Some("sand_components::jukebox_song"),
            api_status: RegistryApiStatus::PartiallyImplemented,
            version_gate: Some("1.21"),
            notes: "JukeboxSong. Introduced in 1.21. sound_event/song_length/comparator_output are \
                    typed/validated on the normal path, but description is `Option<serde_json::Value>` \
                    behind the unnamed `description()` setter with no typed TextComponent path and no \
                    export-time validation at all. Overstated FullyImplemented found during #193's \
                    audit; tracked by #321.",
        },
        RegistryCoverage {
            registry_key: "minecraft:instrument",
            datapack_dir: "instrument",
            tag_dir: None,
            sand_module: Some("sand_components::instrument"),
            api_status: RegistryApiStatus::PartiallyImplemented,
            version_gate: None,
            notes: "Instrument (goat horn, etc.). sound_event/use_duration/range are typed/validated on \
                    the normal path, but description is `Option<serde_json::Value>` behind the unnamed \
                    `description()` setter with no typed TextComponent path and no export-time \
                    validation at all. Overstated FullyImplemented found during #193's audit; tracked \
                    by #321.",
        },
        RegistryCoverage {
            registry_key: "minecraft:painting_variant",
            datapack_dir: "painting_variant",
            tag_dir: None,
            sand_module: Some("sand_components::painting_variant"),
            api_status: RegistryApiStatus::FullyImplemented,
            version_gate: None,
            notes: "PaintingVariant. validate() rejects empty/malformed asset_id and width/height outside 1..=16 \
                    before export. Golden JSON test: painting_variant::tests::valid_painting_variant_json_is_stable. \
                    See #141.",
        },
        RegistryCoverage {
            registry_key: "minecraft:banner_pattern",
            datapack_dir: "banner_pattern",
            tag_dir: None,
            sand_module: Some("sand_components::banner_pattern"),
            api_status: RegistryApiStatus::FullyImplemented,
            version_gate: None,
            notes: "BannerPattern. validate() rejects empty/malformed asset_id and empty/control-char translation_key \
                    before export. Golden JSON test: banner_pattern::tests::valid_banner_pattern_json_is_stable. \
                    See #141.",
        },
        RegistryCoverage {
            registry_key: "minecraft:trim_material",
            datapack_dir: "trim_material",
            tag_dir: None,
            sand_module: Some("sand_components::trim"),
            api_status: RegistryApiStatus::PartiallyImplemented,
            version_gate: Some("1.19.4"),
            notes: "TrimMaterial uses typed ItemId, TextComponent, ResourceLocation armor-material keys, and \
                    validated TrimAssetName values on the normal path; raw descriptions/override objects are \
                    explicit. item_model_index remains the legacy pre-1.21.4 field and current \
                    override_armor_assets is not yet modeled. Golden JSON test: \
                    trim::tests::valid_trim_material_json_is_stable. #198 (typed ID migration) is closed; \
                    the remaining override_armor_assets gap is tracked by #322.",
        },
        RegistryCoverage {
            registry_key: "minecraft:trim_pattern",
            datapack_dir: "trim_pattern",
            tag_dir: None,
            sand_module: Some("sand_components::trim"),
            api_status: RegistryApiStatus::FullyImplemented,
            version_gate: Some("1.19.4"),
            notes: "TrimPattern uses typed ResourceLocation, ItemId, and TextComponent inputs on the normal \
                    path, with an explicitly named raw text escape hatch. Golden JSON test: \
                    trim::tests::valid_trim_pattern_json_is_stable. Typed migration: #198.",
        },
        RegistryCoverage {
            registry_key: "minecraft:wolf_variant",
            datapack_dir: "wolf_variant",
            tag_dir: None,
            sand_module: Some("sand_components::wolf_variant"),
            api_status: RegistryApiStatus::FullyImplemented,
            version_gate: Some("1.20.5"),
            notes: "WolfVariant. Introduced in 1.20.5. validate() rejects empty/malformed texture paths and \
                    unsupported biomes JSON shapes (empty string/array, non-string entries, non-string/array \
                    top-level shapes) before export. Golden JSON test: wolf_variant::tests::valid_wolf_variant_json_is_stable. \
                    See #141.",
        },
        RegistryCoverage {
            registry_key: "minecraft:chat_type",
            datapack_dir: "chat_type",
            tag_dir: None,
            sand_module: Some("sand_components::chat_type"),
            api_status: RegistryApiStatus::FullyImplemented,
            version_gate: Some("1.19"),
            notes: "ChatType, ChatDecoration. Introduced in 1.19. Normal-path authoring is typed: \
                    ChatDecorationParameter (Sender/Target/Content, with an explicit Custom(_) escape \
                    hatch that still fails validation unless it matches a known vanilla value) and \
                    ChatStyle (color/color_hex/bold/italic/underlined/strikethrough/obfuscated/insertion) \
                    cover normal authoring; validate() rejects unknown/duplicate parameters, empty or \
                    control-character translation keys, invalid hex colors, and non-object raw styles. \
                    The raw serde_json::Value path remains available only via the explicitly named \
                    ChatDecoration::style_raw escape hatch. Golden JSON test: \
                    chat_type::tests::golden_chat_type_json and \
                    canonical_26_2_chat_type_with_typed_parameters_and_style. Restored/kept \
                    FullyImplemented per #199 and #193 (this row was left for this stream to update by \
                    #288/#193 to avoid a merge conflict; see #199).",
        },
        RegistryCoverage {
            registry_key: "minecraft:cat_variant",
            datapack_dir: "cat_variant",
            tag_dir: None,
            sand_module: None,
            api_status: RegistryApiStatus::RawOnly,
            version_gate: Some("1.21.5"),
            notes: "No typed component builder. Use RawComponent. Follow-up: #201.",
        },
        RegistryCoverage {
            registry_key: "minecraft:frog_variant",
            datapack_dir: "frog_variant",
            tag_dir: None,
            sand_module: None,
            api_status: RegistryApiStatus::RawOnly,
            version_gate: Some("1.21.5"),
            notes: "No typed component builder. Use RawComponent. Follow-up: #201.",
        },
        RegistryCoverage {
            registry_key: "minecraft:trial_spawner",
            datapack_dir: "trial_spawner",
            tag_dir: None,
            sand_module: None,
            api_status: RegistryApiStatus::RawOnly,
            version_gate: None,
            notes: "No typed component builder. Use RawComponent.",
        },
        RegistryCoverage {
            registry_key: "minecraft:cat_sound_variant",
            datapack_dir: "cat_sound_variant",
            tag_dir: None,
            sand_module: None,
            api_status: RegistryApiStatus::RawOnly,
            version_gate: Some("26.1"),
            notes: "No typed component builder. Use RawComponent. Follow-up: #201.",
        },
        RegistryCoverage {
            registry_key: "minecraft:chicken_sound_variant",
            datapack_dir: "chicken_sound_variant",
            tag_dir: None,
            sand_module: None,
            api_status: RegistryApiStatus::RawOnly,
            version_gate: Some("26.1"),
            notes: "No typed component builder. Use RawComponent. Follow-up: #201.",
        },
        RegistryCoverage {
            registry_key: "minecraft:chicken_variant",
            datapack_dir: "chicken_variant",
            tag_dir: None,
            sand_module: Some("sand_components::chicken_variant"),
            api_status: RegistryApiStatus::PartiallyImplemented,
            version_gate: Some("1.21.5"),
            notes: "ChickenVariant covers asset_id and the minecraft:biome spawn_conditions shape \
                    (shared SpawnCondition model, also used by cow_variant/pig_variant) on the normal \
                    path; other vanilla/modded fields and spawn-condition types use the explicit \
                    raw_field escape hatch. Introduced in 1.21.5. Golden JSON test: \
                    chicken_variant::tests::valid_chicken_variant_json_is_stable. #201.",
        },
        RegistryCoverage {
            registry_key: "minecraft:cow_sound_variant",
            datapack_dir: "cow_sound_variant",
            tag_dir: None,
            sand_module: None,
            api_status: RegistryApiStatus::RawOnly,
            version_gate: Some("26.1"),
            notes: "No typed component builder. Use RawComponent. Follow-up: #201.",
        },
        RegistryCoverage {
            registry_key: "minecraft:cow_variant",
            datapack_dir: "cow_variant",
            tag_dir: None,
            sand_module: Some("sand_components::cow_variant"),
            api_status: RegistryApiStatus::PartiallyImplemented,
            version_gate: Some("1.21.5"),
            notes: "CowVariant covers asset_id and the minecraft:biome spawn_conditions shape (shared \
                    SpawnCondition model). The vanilla model selector and other fields use the explicit \
                    raw_field escape hatch pending confirmation of its exact accepted values. Introduced \
                    in 1.21.5. Golden JSON test: cow_variant::tests::valid_cow_variant_json_is_stable. \
                    #201.",
        },
        RegistryCoverage {
            registry_key: "minecraft:pig_sound_variant",
            datapack_dir: "pig_sound_variant",
            tag_dir: None,
            sand_module: None,
            api_status: RegistryApiStatus::RawOnly,
            version_gate: Some("26.1"),
            notes: "No typed component builder. Use RawComponent. Follow-up: #201.",
        },
        RegistryCoverage {
            registry_key: "minecraft:pig_variant",
            datapack_dir: "pig_variant",
            tag_dir: None,
            sand_module: Some("sand_components::pig_variant"),
            api_status: RegistryApiStatus::PartiallyImplemented,
            version_gate: Some("1.21.5"),
            notes: "PigVariant covers asset_id and the minecraft:biome spawn_conditions shape (shared \
                    SpawnCondition model). Other vanilla/modded fields and spawn-condition types use the \
                    explicit raw_field escape hatch. Introduced in 1.21.5. Golden JSON test: \
                    pig_variant::tests::valid_pig_variant_json_is_stable. #201.",
        },
        RegistryCoverage {
            registry_key: "minecraft:sulfur_cube_archetype",
            datapack_dir: "sulfur_cube_archetype",
            tag_dir: None,
            sand_module: None,
            api_status: RegistryApiStatus::IntentionallyUnsupported,
            version_gate: Some("26.2"),
            notes: "Explicit raw-only compatibility row; no typed API planned in #176.",
        },
        RegistryCoverage {
            registry_key: "minecraft:test_environment",
            datapack_dir: "test_environment",
            tag_dir: None,
            sand_module: None,
            api_status: RegistryApiStatus::IntentionallyUnsupported,
            version_gate: Some("1.21.5"),
            notes: "Vanilla test framework data. Use RawComponent if required.",
        },
        RegistryCoverage {
            registry_key: "minecraft:test_instance",
            datapack_dir: "test_instance",
            tag_dir: None,
            sand_module: None,
            api_status: RegistryApiStatus::IntentionallyUnsupported,
            version_gate: Some("1.21.5"),
            notes: "Vanilla test framework data. Use RawComponent if required.",
        },
        RegistryCoverage {
            registry_key: "minecraft:timeline",
            datapack_dir: "timeline",
            tag_dir: None,
            sand_module: None,
            api_status: RegistryApiStatus::RawOnly,
            version_gate: Some("1.21.5"),
            notes: "No typed component builder. Use RawComponent.",
        },
        RegistryCoverage {
            registry_key: "minecraft:trade_set",
            datapack_dir: "trade_set",
            tag_dir: None,
            sand_module: None,
            api_status: RegistryApiStatus::RawOnly,
            version_gate: Some("26.1"),
            notes: "No typed component builder. Use RawComponent.",
        },
        RegistryCoverage {
            registry_key: "minecraft:villager_trade",
            datapack_dir: "villager_trade",
            tag_dir: None,
            sand_module: None,
            api_status: RegistryApiStatus::RawOnly,
            version_gate: Some("26.1"),
            notes: "No typed component builder. Use RawComponent.",
        },
        RegistryCoverage {
            registry_key: "minecraft:wolf_sound_variant",
            datapack_dir: "wolf_sound_variant",
            tag_dir: None,
            sand_module: None,
            api_status: RegistryApiStatus::RawOnly,
            version_gate: Some("1.21.5"),
            notes: "No typed component builder. Use RawComponent. Follow-up: #201.",
        },
        RegistryCoverage {
            registry_key: "minecraft:world_clock",
            datapack_dir: "world_clock",
            tag_dir: None,
            sand_module: None,
            api_status: RegistryApiStatus::RawOnly,
            version_gate: Some("26.1"),
            notes: "No typed component builder. Use RawComponent.",
        },
        RegistryCoverage {
            registry_key: "minecraft:zombie_nautilus_variant",
            datapack_dir: "zombie_nautilus_variant",
            tag_dir: None,
            sand_module: None,
            api_status: RegistryApiStatus::RawOnly,
            version_gate: Some("1.21.5"),
            notes: "No typed component builder. Use RawComponent. Follow-up: #201.",
        },
        RegistryCoverage {
            registry_key: "minecraft:worldgen/biome",
            datapack_dir: "worldgen/biome",
            tag_dir: Some("tags/worldgen/biome"),
            sand_module: Some("sand_components::worldgen::biome"),
            api_status: RegistryApiStatus::PartiallyImplemented,
            version_gate: None,
            notes: "Biome struct exists with basic fields. Spawn costs, effects, mob spawning rules are partial.",
        },
        RegistryCoverage {
            registry_key: "minecraft:worldgen/placed_feature",
            datapack_dir: "worldgen/placed_feature",
            tag_dir: None,
            sand_module: Some("sand_components::worldgen::placed_feature"),
            api_status: RegistryApiStatus::PartiallyImplemented,
            version_gate: None,
            notes: "PlacedFeature struct exists. Full placement modifier coverage is partial.",
        },
        RegistryCoverage {
            registry_key: "minecraft:worldgen/configured_feature",
            datapack_dir: "worldgen/configured_feature",
            tag_dir: None,
            sand_module: Some("sand_components::worldgen::configured_feature"),
            api_status: RegistryApiStatus::PartiallyImplemented,
            version_gate: None,
            notes: "Typed ConfiguredFeatureId references and a small common builder slice (no_op, simple_block, fill_layer, ore); other vanilla feature shapes use the explicit ConfiguredFeature::raw escape hatch.",
        },
        RegistryCoverage {
            registry_key: "minecraft:worldgen/structure",
            datapack_dir: "worldgen/structure",
            tag_dir: Some("tags/worldgen/structure"),
            sand_module: Some("sand_components::worldgen::structure"),
            api_status: RegistryApiStatus::PartiallyImplemented,
            version_gate: None,
            notes: "Typed builder covers minecraft:jigsaw structures (biomes, step, terrain adaptation, spawn overrides, jigsaw config) with a raw_field escape hatch. Other structure types (e.g. minecraft:mineshaft, minecraft:end_city) and their type-specific fields go through Structure::new plus raw_field. #187",
        },
        RegistryCoverage {
            registry_key: "minecraft:worldgen/structure_set",
            datapack_dir: "worldgen/structure_set",
            tag_dir: None,
            sand_module: Some("sand_components::worldgen::structure_set"),
            api_status: RegistryApiStatus::PartiallyImplemented,
            version_gate: None,
            notes: "Typed builder covers weighted structure entries, random_spread and concentric_rings placement (with spacing/separation/salt/distance/count validation), and exclusion zones, with a raw_field escape hatch. #187",
        },
        RegistryCoverage {
            registry_key: "minecraft:worldgen/processor_list",
            datapack_dir: "worldgen/processor_list",
            tag_dir: None,
            sand_module: Some("sand_components::worldgen::processor_list"),
            api_status: RegistryApiStatus::PartiallyImplemented,
            version_gate: None,
            notes: "Typed builder covers block_ignore, protected_blocks, gravity, jigsaw_replacement, and rule processors (typed output_state, raw predicates), with Processor::Raw as the escape hatch for other processor types. #187",
        },
        RegistryCoverage {
            registry_key: "minecraft:worldgen/template_pool",
            datapack_dir: "worldgen/template_pool",
            tag_dir: None,
            sand_module: Some("sand_components::worldgen::template_pool"),
            api_status: RegistryApiStatus::PartiallyImplemented,
            version_gate: None,
            notes: "Typed builder covers single, legacy_single, empty, feature, and list pool elements plus named/inline processor references, with PoolElement::Raw as the escape hatch for other element types. #187",
        },
        RegistryCoverage {
            registry_key: "minecraft:worldgen/noise_settings",
            datapack_dir: "worldgen/noise_settings",
            tag_dir: None,
            sand_module: Some("sand_components::worldgen::noise_settings"),
            api_status: RegistryApiStatus::PartiallyImplemented,
            version_gate: None,
            notes: "NoiseSettings struct exists. Full surface rule coverage is partial.",
        },
        RegistryCoverage {
            registry_key: "minecraft:worldgen/flat_level_generator_preset",
            datapack_dir: "worldgen/flat_level_generator_preset",
            tag_dir: None,
            sand_module: None,
            api_status: RegistryApiStatus::RawOnly,
            version_gate: None,
            notes: "No typed component builder. Use RawComponent.",
        },
        RegistryCoverage {
            registry_key: "minecraft:worldgen/multi_noise_biome_source_parameter_list",
            datapack_dir: "worldgen/multi_noise_biome_source_parameter_list",
            tag_dir: None,
            sand_module: None,
            api_status: RegistryApiStatus::RawOnly,
            version_gate: None,
            notes: "No typed component builder. Use RawComponent.",
        },
        RegistryCoverage {
            registry_key: "minecraft:worldgen/world_preset",
            datapack_dir: "worldgen/world_preset",
            tag_dir: None,
            sand_module: None,
            api_status: RegistryApiStatus::RawOnly,
            version_gate: None,
            notes: "No typed component builder. Use RawComponent.",
        },
        RegistryCoverage {
            registry_key: "minecraft:worldgen/density_function",
            datapack_dir: "worldgen/density_function",
            tag_dir: None,
            sand_module: Some("sand_components::worldgen::density_function"),
            api_status: RegistryApiStatus::PartiallyImplemented,
            version_gate: None,
            notes: "Typed DensityFunctionExpr covers constant/reference/noise sampling, unary/binary combinators, clamp, and y_clamped_gradient with DensityFunctionId references; other vanilla variants (spline, weird_scaled_sampler, etc.) use the explicit DensityFunctionExpr::raw/DensityFunction::new_raw escape hatch.",
        },
        RegistryCoverage {
            registry_key: "minecraft:worldgen/noise",
            datapack_dir: "worldgen/noise",
            tag_dir: None,
            sand_module: Some("sand_components::worldgen::noise"),
            api_status: RegistryApiStatus::PartiallyImplemented,
            version_gate: None,
            notes: "Typed Noise builder covers the stable firstOctave/amplitudes shape and NoiseId references, validated for finite octave ranges; version-specific additions use an explicit raw_field escape hatch.",
        },
        RegistryCoverage {
            registry_key: "minecraft:worldgen/configured_carver",
            datapack_dir: "worldgen/configured_carver",
            tag_dir: None,
            sand_module: None,
            api_status: RegistryApiStatus::Missing,
            version_gate: None,
            notes: "Not implemented. Use RawComponent.",
        },
        RegistryCoverage {
            registry_key: "minecraft:dimension",
            datapack_dir: "dimension",
            tag_dir: None,
            sand_module: Some("sand_components::worldgen::dimension"),
            api_status: RegistryApiStatus::PartiallyImplemented,
            version_gate: None,
            notes: "Dimension struct exists. MonsterSettings, DragonFight coverage is partial.",
        },
        RegistryCoverage {
            registry_key: "minecraft:dimension_type",
            datapack_dir: "dimension_type",
            tag_dir: Some("tags/dimension_type"),
            sand_module: Some("sand_components::worldgen::dimension_type"),
            api_status: RegistryApiStatus::PartiallyImplemented,
            version_gate: None,
            notes: "Typed builder covers the stable vanilla-like field set and DimensionTypeId references; version-specific additions use an explicit raw_field escape hatch.",
        },
        RegistryCoverage {
            registry_key: "minecraft:dialog",
            datapack_dir: "dialog",
            tag_dir: Some("tags/dialog"),
            sand_module: Some("sand_components::dialog"),
            api_status: RegistryApiStatus::PartiallyImplemented,
            version_gate: Some("1.21.6"),
            notes: "Dialog builder and well-known pause_screen_additions/quick_actions tag helpers exist. Broader validation remains partial.",
        },
    ]
}

/// Coverage of every known vanilla Java Edition data-driven registry.
pub fn registry_coverage() -> (v: Vec<RegistryCoverage>)
    ensures
        v@ == spec_registry_rows(),
        forall|i: int|
            0 <= i < v.len() && (#[trigger] v@[i]).api_status == RegistryApiStatus::FullyImplemented
                ==> v@[i].sand_module is Some,
{
    let mut v: Vec<RegistryCoverage> = Vec::new();
    v.push(RegistryCoverage {
        registry_key: "minecraft:advancement",
        datapack_dir: "advancement",
        tag_dir: None,
        sand_module: Some("sand_components::advancement"),
        api_status: RegistryApiStatus::FullyImplemented,
        version_gate: None,
        notes: "Advancement, AdvancementTrigger, AdvancementDisplay. 50+ trigger variants. Normal display, icon, \
                parent, reward, and trigger reference paths are typed; unsupported/custom shapes require explicitly \
                named raw escape hatches. See trigger_coverage.",
    });
    v.push(RegistryCoverage {
        registry_key: "minecraft:function",
        datapack_dir: "function",
        tag_dir: Some("tags/function"),
        sand_module: Some("sand_core::function"),
        api_status: RegistryApiStatus::FullyImplemented,
        version_gate: None,
        notes: "#[function] macro generates .mcfunction files. load/tick/custom tags supported.",
    });
    v.push(RegistryCoverage {
        registry_key: "minecraft:loot_table",
        datapack_dir: "loot_table",
        tag_dir: None,
        sand_module: Some("sand_components::loot_table"),
        api_status: RegistryApiStatus::PartiallyImplemented,
        version_gate: None,
        notes: "LootTable, LootPool, LootEntry exist. #185 typed the normal item/tag/loot-table-reference \
                entry constructors (ItemId, TagId<ItemId>, LootTableId), set_name/set_lore (TextComponent-backed \
                LootText), enchant_with_levels/enchant_randomly (EnchantmentSelector), and random_sequence \
                (ResourceLocation), each with explicitly named raw escape hatches still checked by export \
                validation. LootCondition::{EntityProperties, MatchTool, TimeCheck} and \
                NumberProvider::Score::target remain raw serde_json::Value predicate/range/target payloads \
                pending shared predicate/range validation (#137). \
                #17 (original registry-coverage generation issue) is closed and does not track this specific gap.",
    });
    v.push(RegistryCoverage {
        registry_key: "minecraft:predicate",
        datapack_dir: "predicate",
        tag_dir: None,
        sand_module: Some("sand_components::predicate"),
        api_status: RegistryApiStatus::FullyImplemented,
        version_gate: None,
        notes: "#204 added a dedicated PredicateRoot typed condition tree (AllOf/AnyOf/Inverted, \
                EntityProperties with a typed EntityPredicateTarget, LocationCheck, WeatherCheck, \
                TimeCheck, RandomChance, Reference via the typed PredicateId, and an explicit Raw \
                escape hatch), replacing the previous LootCondition-only wrapper. Predicate is no \
                longer coupled to loot-table condition internals as the only normal authoring path; \
                Predicate::from_loot_condition remains for LootCondition-based compatibility and \
                falls back to the Raw escape hatch for loot-only condition shapes. Export-time \
                validation covers empty all_of/any_of terms, chance/range bounds, and nested \
                predicate validation.",
    });
    v.push(RegistryCoverage {
        registry_key: "minecraft:recipe",
        datapack_dir: "recipe",
        tag_dir: None,
        sand_module: Some("sand_components::recipe"),
        api_status: RegistryApiStatus::FullyImplemented,
        version_gate: None,
        notes: "All standard recipe types implemented: shaped, shapeless, smelting, blasting, smoking, campfire, \
                smithing_transform, smithing_trim, stonecutting. #178 (route recipe ingredient/result IDs through \
                typed item/tag IDs) is closed and confirmed done: Ingredient::item_id/item_tag and \
                RecipeResult::item take IntoRecipeItemId/TagId<ItemId> on the normal path; raw_item/raw_tag/raw \
                remain as explicitly named compatibility escape hatches. Not downgraded per #193 (a prior review \
                pass incorrectly cited #178 as still open; verified closed 2026-07-12 with the typed API already \
                present on this branch's base).",
    });
    v.push(RegistryCoverage {
        registry_key: "minecraft:item_modifier",
        datapack_dir: "item_modifier",
        tag_dir: None,
        sand_module: Some("sand_components::item_modifier"),
        api_status: RegistryApiStatus::PartiallyImplemented,
        version_gate: None,
        notes: "ItemModifier exists. SetCount, SetComponents, EnchantRandomly present. Full modifier set incomplete.",
    });
    v.push(RegistryCoverage {
        registry_key: "minecraft:damage_type",
        datapack_dir: "damage_type",
        tag_dir: Some("tags/damage_type"),
        sand_module: Some("sand_components::damage_type"),
        api_status: RegistryApiStatus::FullyImplemented,
        version_gate: Some("1.19.4"),
        notes: "DamageType, DamageScaling, DamageEffects, DeathMessageType. Introduced in 1.19.4.",
    });
    v.push(RegistryCoverage {
        registry_key: "minecraft:enchantment",
        datapack_dir: "enchantment",
        tag_dir: Some("tags/enchantment"),
        sand_module: Some("sand_components::enchantment"),
        api_status: RegistryApiStatus::PartiallyImplemented,
        version_gate: Some("1.21"),
        notes: "Enchantment uses typed TextComponent description, ItemOrTag/EnchantmentOrTag \
                (ItemId/EnchantmentId/TagId<T>) for supported_items/primary_items/exclusive_set, \
                and the reused EquipmentSlotGroup enum for slots on the normal path. Effects use a \
                typed EnchantmentEffectComponentId key plus a small value-effect slice covering \
                minecraft:damage, minecraft:knockback, and minecraft:armor_effectiveness \
                (EnchantmentValueOperation + LevelBasedValue); raw_effect_component and raw_effects \
                remain explicit escape hatches for other/custom effect components. Full vanilla \
                effect-component coverage is intentionally partial — see module docs. Typed \
                migration: #202.",
    });
    v.push(RegistryCoverage {
        registry_key: "minecraft:enchantment_provider",
        datapack_dir: "enchantment_provider",
        tag_dir: None,
        sand_module: Some("sand_components::enchantment_provider"),
        api_status: RegistryApiStatus::PartiallyImplemented,
        version_gate: Some("1.21"),
        notes: "EnchantmentProvider covers single, by_cost, and by_cost_with_difficulty with typed \
                enchantment IDs/tags and constant/uniform integer providers. Other integer-provider \
                and modded provider shapes use the explicit whole-provider RawJson escape hatch. \
                Added with data-driven enchantments in 1.21. Follow-up: #188.",
    });
    v.push(RegistryCoverage {
        registry_key: "minecraft:jukebox_song",
        datapack_dir: "jukebox_song",
        tag_dir: None,
        sand_module: Some("sand_components::jukebox_song"),
        api_status: RegistryApiStatus::PartiallyImplemented,
        version_gate: Some("1.21"),
        notes: "JukeboxSong. Introduced in 1.21. sound_event/song_length/comparator_output are \
                typed/validated on the normal path, but description is `Option<serde_json::Value>` \
                behind the unnamed `description()` setter with no typed TextComponent path and no \
                export-time validation at all. Overstated FullyImplemented found during #193's \
                audit; tracked by #321.",
    });
    v.push(RegistryCoverage {
        registry_key: "minecraft:instrument",
        datapack_dir: "instrument",
        tag_dir: None,
        sand_module: Some("sand_components::instrument"),
        api_status: RegistryApiStatus::PartiallyImplemented,
        version_gate: None,
        notes: "Instrument (goat horn, etc.). sound_event/use_duration/range are typed/validated on \
                the normal path, but description is `Option<serde_json::Value>` behind the unnamed \
                `description()` setter with no typed TextComponent path and no export-time \
                validation at all. Overstated FullyImplemented found during #193's audit; tracked \
                by #321.",
    });
    v.push(RegistryCoverage {
        registry_key: "minecraft:painting_variant",
        datapack_dir: "painting_variant",
        tag_dir: None,
        sand_module: Some("sand_components::painting_variant"),
        api_status: RegistryApiStatus::FullyImplemented,
        version_gate: None,
        notes: "PaintingVariant. validate() rejects empty/malformed asset_id and width/height outside 1..=16 \
                before export. Golden JSON test: painting_variant::tests::valid_painting_variant_json_is_stable. \
                See #141.",
    });
    v.push(RegistryCoverage {
        registry_key: "minecraft:banner_pattern",
        datapack_dir: "banner_pattern",
        tag_dir: None,
        sand_module: Some("sand_components::banner_pattern"),
        api_status: RegistryApiStatus::FullyImplemented,
        version_gate: None,
        notes: "BannerPattern. validate() rejects empty/malformed asset_id and empty/control-char translation_key \
                before export. Golden JSON test: banner_pattern::tests::valid_banner_pattern_json_is_stable. \
                See #141.",
    });
    v.push(RegistryCoverage {
        registry_key: "minecraft:trim_material",
        datapack_dir: "trim_material",
        tag_dir: None,
        sand_module: Some("sand_components::trim"),
        api_status: RegistryApiStatus::PartiallyImplemented,
        version_gate: Some("1.19.4"),
        notes: "TrimMaterial uses typed ItemId, TextComponent, ResourceLocation armor-material keys, and \
                validated TrimAssetName values on the normal path; raw descriptions/override objects are \
                explicit. item_model_index remains the legacy pre-1.21.4 field and current \
                override_armor_assets is not yet modeled. Golden JSON test: \
                trim::tests::valid_trim_material_json_is_stable. #198 (typed ID migration) is closed; \
                the remaining override_armor_assets gap is tracked by #322.",
    });
    v.push(RegistryCoverage {
        registry_key: "minecraft:trim_pattern",
        datapack_dir: "trim_pattern",
        tag_dir: None,
        sand_module: Some("sand_components::trim"),
        api_status: RegistryApiStatus::FullyImplemented,
        version_gate: Some("1.19.4"),
        notes: "TrimPattern uses typed ResourceLocation, ItemId, and TextComponent inputs on the normal \
                path, with an explicitly named raw text escape hatch. Golden JSON test: \
                trim::tests::valid_trim_pattern_json_is_stable. Typed migration: #198.",
    });
    v.push(RegistryCoverage {
        registry_key: "minecraft:wolf_variant",
        datapack_dir: "wolf_variant",
        tag_dir: None,
        sand_module: Some("sand_components::wolf_variant"),
        api_status: RegistryApiStatus::FullyImplemented,
        version_gate: Some("1.20.5"),
        notes: "WolfVariant. Introduced in 1.20.5. validate() rejects empty/malformed texture paths and \
                unsupported biomes JSON shapes (empty string/array, non-string entries, non-string/array \
                top-level shapes) before export. Golden JSON test: wolf_variant::tests::valid_wolf_variant_json_is_stable. \
                See #141.",
    });
    v.push(RegistryCoverage {
        registry_key: "minecraft:chat_type",
        datapack_dir: "chat_type",
        tag_dir: None,
        sand_module: Some("sand_components::chat_type"),
        api_status: RegistryApiStatus::FullyImplemented,
        version_gate: Some("1.19"),
        notes: "ChatType, ChatDecoration. Introduced in 1.19. Normal-path authoring is typed: \
                ChatDecorationParameter (Sender/Target/Content, with an explicit Custom(_) escape \
                hatch that still fails validation unless it matches a known vanilla value) and \
                ChatStyle (color/color_hex/bold/italic/underlined/strikethrough/obfuscated/insertion) \
                cover normal authoring; validate() rejects unknown/duplicate parameters, empty or \
                control-character translation keys, invalid hex colors, and non-object raw styles. \
                The raw serde_json::Value path remains available only via the explicitly named \
                ChatDecoration::style_raw escape hatch. Golden JSON test: \
                chat_type::tests::golden_chat_type_json and \
                canonical_26_2_chat_type_with_typed_parameters_and_style. Restored/kept \
                FullyImplemented per #199 and #193 (this row was left for this stream to update by \
                #288/#193 to avoid a merge conflict; see #199).",
    });
    v.push(RegistryCoverage {
        registry_key: "minecraft:cat_variant",
        datapack_dir: "cat_variant",
        tag_dir: None,
        sand_module: None,
        api_status: RegistryApiStatus::RawOnly,
        version_gate: Some("1.21.5"),
        notes: "No typed component builder. Use RawComponent. Follow-up: #201.",
    });
    v.push(RegistryCoverage {
        registry_key: "minecraft:frog_variant",
        datapack_dir: "frog_variant",
        tag_dir: None,
        sand_module: None,
        api_status: RegistryApiStatus::RawOnly,
        version_gate: Some("1.21.5"),
        notes: "No typed component builder. Use RawComponent. Follow-up: #201.",
    });
    v.push(RegistryCoverage {
        registry_key: "minecraft:trial_spawner",
        datapack_dir: "trial_spawner",
        tag_dir: None,
        sand_module: None,
        api_status: RegistryApiStatus::RawOnly,
        version_gate: None,
        notes: "No typed component builder. Use RawComponent.",
    });
    v.push(RegistryCoverage {
        registry_key: "minecraft:cat_sound_variant",
        datapack_dir: "cat_sound_variant",
        tag_dir: None,
        sand_module: None,
        api_status: RegistryApiStatus::RawOnly,
        version_gate: Some("26.1"),
        notes: "No typed component builder. Use RawComponent. Follow-up: #201.",
    });
    v.push(RegistryCoverage {
        registry_key: "minecraft:chicken_sound_variant",
        datapack_dir: "chicken_sound_variant",
        tag_dir: None,
        sand_module: None,
        api_status: RegistryApiStatus::RawOnly,
        version_gate: Some("26.1"),
        notes: "No typed component builder. Use RawComponent. Follow-up: #201.",
    });
    v.push(RegistryCoverage {
        registry_key: "minecraft:chicken_variant",
        datapack_dir: "chicken_variant",
        tag_dir: None,
        sand_module: Some("sand_components::chicken_variant"),
        api_status: RegistryApiStatus::PartiallyImplemented,
        version_gate: Some("1.21.5"),
        notes: "ChickenVariant covers asset_id and the minecraft:biome spawn_conditions shape \
                (shared SpawnCondition model, also used by cow_variant/pig_variant) on the normal \
                path; other vanilla/modded fields and spawn-condition types use the explicit \
                raw_field escape hatch. Introduced in 1.21.5. Golden JSON test: \
                chicken_variant::tests::valid_chicken_variant_json_is_stable. #201.",
    });
    v.push(RegistryCoverage {
        registry_key: "minecraft:cow_sound_variant",
        datapack_dir: "cow_sound_variant",
        tag_dir: None,
        sand_module: None,
        api_status: RegistryApiStatus::RawOnly,
        version_gate: Some("26.1"),
        notes: "No typed component builder. Use RawComponent. Follow-up: #201.",
    });
    v.push(RegistryCoverage {
        registry_key: "minecraft:cow_variant",
        datapack_dir: "cow_variant",
        tag_dir: None,
        sand_module: Some("sand_components::cow_variant"),
        api_status: RegistryApiStatus::PartiallyImplemented,
        version_gate: Some("1.21.5"),
        notes: "CowVariant covers asset_id and the minecraft:biome spawn_conditions shape (shared \
                SpawnCondition model). The vanilla model selector and other fields use the explicit \
                raw_field escape hatch pending confirmation of its exact accepted values. Introduced \
                in 1.21.5. Golden JSON test: cow_variant::tests::valid_cow_variant_json_is_stable. \
                #201.",
    });
    v.push(RegistryCoverage {
        registry_key: "minecraft:pig_sound_variant",
        datapack_dir: "pig_sound_variant",
        tag_dir: None,
        sand_module: None,
        api_status: RegistryApiStatus::RawOnly,
        version_gate: Some("26.1"),
        notes: "No typed component builder. Use RawComponent. Follow-up: #201.",
    });
    v.push(RegistryCoverage {
        registry_key: "minecraft:pig_variant",
        datapack_dir: "pig_variant",
        tag_dir: None,
        sand_module: Some("sand_components::pig_variant"),
        api_status: RegistryApiStatus::PartiallyImplemented,
        version_gate: Some("1.21.5"),
        notes: "PigVariant covers asset_id and the minecraft:biome spawn_conditions shape (shared \
                SpawnCondition model). Other vanilla/modded fields and spawn-condition types use the \
                explicit raw_field escape hatch. Introduced in 1.21.5. Golden JSON test: \
                pig_variant::tests::valid_pig_variant_json_is_stable. #201.",
    });
    v.push(RegistryCoverage {
        registry_key: "minecraft:sulfur_cube_archetype",
        datapack_dir: "sulfur_cube_archetype",
        tag_dir: None,
        sand_module: None,
        api_status: RegistryApiStatus::IntentionallyUnsupported,
        version_gate: Some("26.2"),
        notes: "Explicit raw-only compatibility row; no typed API planned in #176.",
    });
    v.push(RegistryCoverage {
        registry_key: "minecraft:test_environment",
        datapack_dir: "test_environment",
        tag_dir: None,
        sand_module: None,
        api_status: RegistryApiStatus::IntentionallyUnsupported,
        version_gate: Some("1.21.5"),
        notes: "Vanilla test framework data. Use RawComponent if required.",
    });
    v.push(RegistryCoverage {
        registry_key: "minecraft:test_instance",
        datapack_dir: "test_instance",
        tag_dir: None,
        sand_module: None,
        api_status: RegistryApiStatus::IntentionallyUnsupported,
        version_gate: Some("1.21.5"),
        notes: "Vanilla test framework data. Use RawComponent if required.",
    });
    v.push(RegistryCoverage {
        registry_key: "minecraft:timeline",
        datapack_dir: "timeline",
        tag_dir: None,
        sand_module: None,
        api_status: RegistryApiStatus::RawOnly,
        version_gate: Some("1.21.5"),
        notes: "No typed component builder. Use RawComponent.",
    });
    v.push(RegistryCoverage {
        registry_key: "minecraft:trade_set",
        datapack_dir: "trade_set",
        tag_dir: None,
        sand_module: None,
        api_status: RegistryApiStatus::RawOnly,
        version_gate: Some("26.1"),
        notes: "No typed component builder. Use RawComponent.",
    });
    v.push(RegistryCoverage {
        registry_key: "minecraft:villager_trade",
        datapack_dir: "villager_trade",
        tag_dir: None,
        sand_module: None,
        api_status: RegistryApiStatus::RawOnly,
        version_gate: Some("26.1"),
        notes: "No typed component builder. Use RawComponent.",
    });
    v.push(RegistryCoverage {
        registry_key: "minecraft:wolf_sound_variant",
        datapack_dir: "wolf_sound_variant",
        tag_dir: None,
        sand_module: None,
        api_status: RegistryApiStatus::RawOnly,
        version_gate: Some("1.21.5"),
        notes: "No typed component builder. Use RawComponent. Follow-up: #201.",
    });
    v.push(RegistryCoverage {
        registry_key: "minecraft:world_clock",
        datapack_dir: "world_clock",
        tag_dir: None,
        sand_module: None,
        api_status: RegistryApiStatus::RawOnly,
        version_gate: Some("26.1"),
        notes: "No typed component builder. Use RawComponent.",
    });
    v.push(RegistryCoverage {
        registry_key: "minecraft:zombie_nautilus_variant",
        datapack_dir: "zombie_nautilus_variant",
        tag_dir: None,
        sand_module: None,
        api_status: RegistryApiStatus::RawOnly,
        version_gate: Some("1.21.5"),
        notes: "No typed component builder. Use RawComponent. Follow-up: #201.",
    });
    v.push(RegistryCoverage {
        registry_key: "minecraft:worldgen/biome",
        datapack_dir: "worldgen/biome",
        tag_dir: Some("tags/worldgen/biome"),
        sand_module: Some("sand_components::worldgen::biome"),
        api_status: RegistryApiStatus::PartiallyImplemented,
        version_gate: None,
        notes: "Biome struct exists with basic fields. Spawn costs, effects, mob spawning rules are partial.",
    });
    v.push(RegistryCoverage {
        registry_key: "minecraft:worldgen/placed_feature",
        datapack_dir: "worldgen/placed_feature",
        tag_dir: None,
        sand_module: Some("sand_components::worldgen::placed_feature"),
        api_status: RegistryApiStatus::PartiallyImplemented,
        version_gate: None,
        notes: "PlacedFeature struct exists. Full placement modifier coverage is partial.",
    });
    v.push(RegistryCoverage {
        registry_key: "minecraft:worldgen/configured_feature",
        datapack_dir: "worldgen/configured_feature",
        tag_dir: None,
        sand_module: Some("sand_components::worldgen::configured_feature"),
        api_status: RegistryApiStatus::PartiallyImplemented,
        version_gate: None,
        notes: "Typed ConfiguredFeatureId references and a small common builder slice (no_op, simple_block, fill_layer, ore); other vanilla feature shapes use the explicit ConfiguredFeature::raw escape hatch.",
    });
    v.push(RegistryCoverage {
        registry_key: "minecraft:worldgen/structure",
        datapack_dir: "worldgen/structure",
        tag_dir: Some("tags/worldgen/structure"),
        sand_module: Some("sand_components::worldgen::structure"),
        api_status: RegistryApiStatus::PartiallyImplemented,
        version_gate: None,
        notes: "Typed builder covers minecraft:jigsaw structures (biomes, step, terrain adaptation, spawn overrides, jigsaw config) with a raw_field escape hatch. Other structure types (e.g. minecraft:mineshaft, minecraft:end_city) and their type-specific fields go through Structure::new plus raw_field. #187",
    });
    v.push(RegistryCoverage {
        registry_key: "minecraft:worldgen/structure_set",
        datapack_dir: "worldgen/structure_set",
        tag_dir: None,
        sand_module: Some("sand_components::worldgen::structure_set"),
        api_status: RegistryApiStatus::PartiallyImplemented,
        version_gate: None,
        notes: "Typed builder covers weighted structure entries, random_spread and concentric_rings placement (with spacing/separation/salt/distance/count validation), and exclusion zones, with a raw_field escape hatch. #187",
    });
    v.push(RegistryCoverage {
        registry_key: "minecraft:worldgen/processor_list",
        datapack_dir: "worldgen/processor_list",
        tag_dir: None,
        sand_module: Some("sand_components::worldgen::processor_list"),
        api_status: RegistryApiStatus::PartiallyImplemented,
        version_gate: None,
        notes: "Typed builder covers block_ignore, protected_blocks, gravity, jigsaw_replacement, and rule processors (typed output_state, raw predicates), with Processor::Raw as the escape hatch for other processor types. #187",
    });
    v.push(RegistryCoverage {
        registry_key: "minecraft:worldgen/template_pool",
        datapack_dir: "worldgen/template_pool",
        tag_dir: None,
        sand_module: Some("sand_components::worldgen::template_pool"),
        api_status: RegistryApiStatus::PartiallyImplemented,
        version_gate: None,
        notes: "Typed builder covers single, legacy_single, empty, feature, and list pool elements plus named/inline processor references, with PoolElement::Raw as the escape hatch for other element types. #187",
    });
    v.push(RegistryCoverage {
        registry_key: "minecraft:worldgen/noise_settings",
        datapack_dir: "worldgen/noise_settings",
        tag_dir: None,
        sand_module: Some("sand_components::worldgen::noise_settings"),
        api_status: RegistryApiStatus::PartiallyImplemented,
        version_gate: None,
        notes: "NoiseSettings struct exists. Full surface rule coverage is partial.",
    });
    v.push(RegistryCoverage {
        registry_key: "minecraft:worldgen/flat_level_generator_preset",
        datapack_dir: "worldgen/flat_level_generator_preset",
        tag_dir: None,
        sand_module: None,
        api_status: RegistryApiStatus::RawOnly,
        version_gate: None,
        notes: "No typed component builder. Use RawComponent.",
    });
    v.push(RegistryCoverage {
        registry_key: "minecraft:worldgen/multi_noise_biome_source_parameter_list",
        datapack_dir: "worldgen/multi_noise_biome_source_parameter_list",
        tag_dir: None,
        sand_module: None,
        api_status: RegistryApiStatus::RawOnly,
        version_gate: None,
        notes: "No typed component builder. Use RawComponent.",
    });
    v.push(RegistryCoverage {
        registry_key: "minecraft:worldgen/world_preset",
        datapack_dir: "worldgen/world_preset",
        tag_dir: None,
        sand_module: None,
        api_status: RegistryApiStatus::RawOnly,
        version_gate: None,
        notes: "No typed component builder. Use RawComponent.",
    });
    v.push(RegistryCoverage {
        registry_key: "minecraft:worldgen/density_function",
        datapack_dir: "worldgen/density_function",
        tag_dir: None,
        sand_module: Some("sand_components::worldgen::density_function"),
        api_status: RegistryApiStatus::PartiallyImplemented,
        version_gate: None,
        notes: "Typed DensityFunctionExpr covers constant/reference/noise sampling, unary/binary combinators, clamp, and y_clamped_gradient with DensityFunctionId references; other vanilla variants (spline, weird_scaled_sampler, etc.) use the explicit DensityFunctionExpr::raw/DensityFunction::new_raw escape hatch.",
    });
    v.push(RegistryCoverage {
        registry_key: "minecraft:worldgen/noise",
        datapack_dir: "worldgen/noise",
        tag_dir: None,
        sand_module: Some("sand_components::worldgen::noise"),
        api_status: RegistryApiStatus::PartiallyImplemented,
        version_gate: None,
        notes: "Typed Noise builder covers the stable firstOctave/amplitudes shape and NoiseId references, validated for finite octave ranges; version-specific additions use an explicit raw_field escape hatch.",
    });
    v.push(RegistryCoverage {
        registry_key: "minecraft:worldgen/configured_carver",
        datapack_dir: "worldgen/configured_carver",
        tag_dir: None,
        sand_module: None,
        api_status: RegistryApiStatus::Missing,
        version_gate: None,
        notes: "Not implemented. Use RawComponent.",
    });
    v.push(RegistryCoverage {
        registry_key: "minecraft:dimension",
        datapack_dir: "dimension",
        tag_dir: None,
        sand_module: Some("sand_components::worldgen::dimension"),
        api_status: RegistryApiStatus::PartiallyImplemented,
        version_gate: None,
        notes: "Dimension struct exists. MonsterSettings, DragonFight coverage is partial.",
    });
    v.push(RegistryCoverage {
        registry_key: "minecraft:dimension_type",
        datapack_dir: "dimension_type",
        tag_dir: Some("tags/dimension_type"),
        sand_module: Some("sand_components::worldgen::dimension_type"),
        api_status: RegistryApiStatus::PartiallyImplemented,
        version_gate: None,
        notes: "Typed builder covers the stable vanilla-like field set and DimensionTypeId references; version-specific additions use an explicit raw_field escape hatch.",
    });
    v.push(RegistryCoverage {
        registry_key: "minecraft:dialog",
        datapack_dir: "dialog",
        tag_dir: Some("tags/dialog"),
        sand_module: Some("sand_components::dialog"),
        api_status: RegistryApiStatus::PartiallyImplemented,
        version_gate: Some("1.21.6"),
        notes: "Dialog builder and well-known pause_screen_additions/quick_actions tag helpers exist. Broader validation remains partial.",
    });
    v
}

/// The rows of the tag coverage table, in table order.
pub open spec fn spec_tag_rows() -> Seq<TagCoverage> {
    seq![
        TagCoverage {
            value_registry: "minecraft:block",
            datapack_dir: "tags/block",
            sand_module: Some("sand_components::tag"),
            api_status: RegistryApiStatus::FullyImplemented,
            notes: "TypedTag<BlockId> enforces registry-safe values and paths; raw Tag remains available.",
        },
        TagCoverage {
            value_registry: "minecraft:item",
            datapack_dir: "tags/item",
            sand_module: Some("sand_components::tag"),
            api_status: RegistryApiStatus::FullyImplemented,
            notes: "TypedTag<ItemId> enforces registry-safe values and paths; raw Tag remains available.",
        },
        TagCoverage {
            value_registry: "minecraft:entity_type",
            datapack_dir: "tags/entity_type",
            sand_module: Some("sand_components::tag"),
            api_status: RegistryApiStatus::FullyImplemented,
            notes: "TypedTag<EntityTypeId> enforces registry-safe values and paths; raw Tag remains available.",
        },
        TagCoverage {
            value_registry: "minecraft:fluid",
            datapack_dir: "tags/fluid",
            sand_module: None,
            api_status: RegistryApiStatus::IntentionallyUnsupported,
            notes: "Use RawComponent if required.",
        },
        TagCoverage {
            value_registry: "minecraft:function",
            datapack_dir: "tags/function",
            sand_module: Some("sand_components::tag"),
            api_status: RegistryApiStatus::FullyImplemented,
            notes: "TypedTag<FunctionId> supports required and optional function and tag references.",
        },
    ]
}

/// Tag-only coverage, kept apart from the registry rows.
pub fn tag_coverage() -> (v: Vec<TagCoverage>)
    ensures
        v@ == spec_tag_rows(),
        forall|i: int|
            0 <= i < v.len() && (#[trigger] v@[i]).api_status == RegistryApiStatus::FullyImplemented
                ==> v@[i].sand_module is Some,
{
    let mut v: Vec<TagCoverage> = Vec::new();
    v.push(TagCoverage {
        value_registry: "minecraft:block",
        datapack_dir: "tags/block",
        sand_module: Some("sand_components::tag"),
        api_status: RegistryApiStatus::FullyImplemented,
        notes: "TypedTag<BlockId> enforces registry-safe values and paths; raw Tag remains available.",
    });
    v.push(TagCoverage {
        value_registry: "minecraft:item",
        datapack_dir: "tags/item",
        sand_module: Some("sand_components::tag"),
        api_status: RegistryApiStatus::FullyImplemented,
        notes: "TypedTag<ItemId> enforces registry-safe values and paths; raw Tag remains available.",
    });
    v.push(TagCoverage {
        value_registry: "minecraft:entity_type",
        datapack_dir: "tags/entity_type",
        sand_module: Some("sand_components::tag"),
        api_status: RegistryApiStatus::FullyImplemented,
        notes: "TypedTag<EntityTypeId> enforces registry-safe values and paths; raw Tag remains available.",
    });
    v.push(TagCoverage {
        value_registry: "minecraft:fluid",
        datapack_dir: "tags/fluid",
        sand_module: None,
        api_status: RegistryApiStatus::IntentionallyUnsupported,
        notes: "Use RawComponent if required.",
    });
    v.push(TagCoverage {
        value_registry: "minecraft:function",
        datapack_dir: "tags/function",
        sand_module: Some("sand_components::tag"),
        api_status: RegistryApiStatus::FullyImplemented,
        notes: "TypedTag<FunctionId> supports required and optional function and tag references.",
    });
    v
}

/// The rows of the datapack asset coverage table.
pub open spec fn spec_asset_rows() -> Seq<DatapackAssetCoverage> {
    seq![
        DatapackAssetCoverage {
            asset_name: "structure_template",
            datapack_dir: "structure",
            file_extension: "nbt",
            sand_module: "sand_components::structure_template",
            kind: DatapackAssetKind::CopyBackedBinary,
            api_status: RegistryApiStatus::FullyImplemented,
            notes: "StructureTemplate validates a project-relative .nbt source and copies it to \
                    data/<namespace>/structure/<path>.nbt. Sand does not parse, generate, or \
                    semantically validate the binary NBT payload.",
        },
    ]
}

/// Coverage for public datapack assets that are not registry entries.
pub fn datapack_asset_coverage() -> (v: Vec<DatapackAssetCoverage>)
    ensures
        v@ == spec_asset_rows(),
        v.len() == 1,
        v@[0].kind == DatapackAssetKind::CopyBackedBinary,
        v@[0].api_status == RegistryApiStatus::FullyImplemented,
{
    let mut v: Vec<DatapackAssetCoverage> = Vec::new();
    v.push(DatapackAssetCoverage {
        asset_name: "structure_template",
        datapack_dir: "structure",
        file_extension: "nbt",
        sand_module: "sand_components::structure_template",
        kind: DatapackAssetKind::CopyBackedBinary,
        api_status: RegistryApiStatus::FullyImplemented,
        notes: "StructureTemplate validates a project-relative .nbt source and copies it to \
                data/<namespace>/structure/<path>.nbt. Sand does not parse, generate, or \
                semantically validate the binary NBT payload.",
    });
    v
}

/// Exclusive upper version gates for registries removed or renamed by Mojang
/// (empty: both checked profiles are additive).
pub fn registry_removed_in() -> (v: Vec<(&'static str, &'static str)>)
    ensures
        v.len() == 0,
{
    Vec::new()
}

/// A list holding one tracking issue.
fn one_issue(issue: &'static str) -> (v: Vec<&'static str>)
    ensures
        v@ == seq![issue],
{
    let mut v: Vec<&'static str> = Vec::new();
    v.push(issue);
    v
}

/// Registries known to have normal-path typedness gaps, keyed to the issues
/// tracking their remaining work.
pub fn known_partial_registries() -> (v: Vec<(&'static str, Vec<&'static str>)>)
    ensures
        v@.map_values(|p: (&'static str, Vec<&'static str>)| (p.0, p.1@)) == seq![
            ("minecraft:loot_table", seq!["#137"]),
            ("minecraft:jukebox_song", seq!["#321"]),
            ("minecraft:instrument", seq!["#321"]),
            ("minecraft:trim_material", seq!["#322"]),
        ],
{
    let mut v: Vec<(&'static str, Vec<&'static str>)> = Vec::new();
    v.push(("minecraft:loot_table", one_issue("#137")));
    v.push(("minecraft:jukebox_song", one_issue("#321")));
    v.push(("minecraft:instrument", one_issue("#321")));
    v.push(("minecraft:trim_material", one_issue("#322")));
    assert(v@.map_values(|p: (&'static str, Vec<&'static str>)| (p.0, p.1@)) =~= seq![
        ("minecraft:loot_table", seq!["#137"]),
        ("minecraft:jukebox_song", seq!["#321"]),
        ("minecraft:instrument", seq!["#321"]),
        ("minecraft:trim_material", seq!["#322"]),
    ]);
    v
}

} // verus!
