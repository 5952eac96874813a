//! Typed building blocks for Minecraft Java Edition datapacks: validated
//! resource locations and registry identifiers, tags, recipes, loot tables,
//! predicates and other datapack components, rendered into a JSON model.

pub mod animal_variant;
pub mod error;
pub mod float;
pub mod json;
pub mod keyed;
pub mod loot_table;
pub mod painting_variant;
pub mod pig_variant;
pub mod predicate;
pub mod predicates;
pub mod raw;
pub mod recipe;
pub mod registry;
pub mod registry_coverage;
pub mod resource_location;
pub mod structure_template;
pub mod tag;
pub mod text;
pub mod validation;
pub mod version;

pub use error::SandError;
pub use float::{F32Bits, F64Bits};
pub use json::JsonValue;
pub use loot_table::{
    EnchantmentSelector, LootCondition, LootEntry, LootFunction, LootPool, LootTable,
    LootTableType, LootText, NumberProvider,
};
pub use painting_variant::PaintingVariant;
pub use pig_variant::PigVariant;
pub use animal_variant::SpawnCondition;
pub use predicate::{EntityPredicateTarget, Predicate, PredicateRoot};
pub use predicates::{
    BlockPredicate, DamagePredicate, DamageSourcePredicate, DistancePredicate, EffectPredicate,
    EntityEquipment, EntityFlags, EntityPredicate, FloatRange, IntRange, ItemPredicate,
    LocationPredicate, WeatherPredicate,
};
pub use raw::{RawCommand, RawComponent, RawJson, RawSnbt};
pub use recipe::{
    ComponentFeature, CookingRecipe, CookingType, Ingredient, IntoRecipeItemId, RecipeResult,
    ShapedRecipe, ShapelessRecipe, SmithingTransformRecipe, SmithingTrimRecipe,
    StonecuttingRecipe,
};
pub use registry::{
    AdvancementId, BiomeId, BlockId, ChickenVariantId, ConfiguredCarverId, ConfiguredFeatureId,
    CowVariantId, DamageTypeId, DensityFunctionId, DialogId, DimensionId, DimensionTypeId,
    EnchantmentEffectComponentId, EnchantmentId, EntityTypeId, EquipmentModelId, FunctionId,
    ItemId, LootTableId, NoiseId, PigVariantId, PotionRegistryId, PredicateId, ProcessorListId,
    RandomSequenceId, RecipeId, RegistryId, SoundEventId, StatusEffectId, StructureId,
    StructureSetId, StructureTemplateId, StructureTypeId, TagId, TemplatePoolId, TradeSetId,
    VillagerTradeId,
};
pub use resource_location::{PackNamespace, ResourceLocation};
pub use structure_template::StructureTemplate;
pub use tag::{Tag, TagEntry, TagRegistry, TypedTag};
pub use version::VersionCaps;
