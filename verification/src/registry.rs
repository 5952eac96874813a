//! Typed registry identifier wrappers.
//!
//! Every identifier wraps a validated [`ResourceLocation`] and is scoped to
//! one registry by a marker type, so an item ID cannot stand where a block ID
//! is expected. Each provides `minecraft(path)`, `custom(rl)`, conversion from
//! a `ResourceLocation`, parsing, and its `namespace:path` text.

use std::marker::PhantomData;

use vstd::prelude::*;
use vstd::string::*;

use crate::error::{SandError, SandErrorView};
use crate::json::{Json, JsonValue, view_json};
use crate::text::push_char;
use crate::resource_location::{
    ResourceLocation, ResourceLocationView, lemma_namespace_chars_from, lemma_path_chars_from,
    spec_namespace_chars_from, spec_new_location, spec_parse_location, spec_path_chars_from,
    spec_valid_path,
};

verus! {

/// The text `minecraft`.
pub open spec fn minecraft_ns() -> Seq<char> {
    seq!['m', 'i', 'n', 'e', 'c', 'r', 'a', 'f', 't']
}

/// A validated identifier in the registry named by the marker `K`.
#[derive(Debug, PartialEq, Eq, Hash)]
pub struct RegistryId<K> {
    rl: ResourceLocation,
    _kind: PhantomData<K>,
}

impl<K> View for RegistryId<K> {
    type V = ResourceLocationView;

    closed spec fn view(&self) -> ResourceLocationView {
        self.rl@
    }
}

impl<K> Clone for RegistryId<K> {
    fn clone(&self) -> (r: Self)
        ensures
            r@ == self@,
    {
        RegistryId { rl: self.rl.clone(), _kind: PhantomData }
    }
}

impl<K> RegistryId<K> {
    /// A `minecraft:<path>` identifier; fails if `path` is invalid.
    pub fn minecraft(path: &str) -> (r: Result<Self, SandError>)
        ensures
            match (r, spec_new_location(minecraft_ns(), path@)) {
                (Ok(l), Ok(v)) => l@ == v,
                (Err(e), Err(v)) => e@ == v,
                _ => false,
            },
    {
        let rl = ResourceLocation::minecraft(path)?;
        Ok(RegistryId { rl, _kind: PhantomData })
    }

    /// Wraps any resource location.
    pub fn custom(rl: ResourceLocation) -> (r: Self)
        ensures
            r@ == rl@,
    {
        RegistryId { rl, _kind: PhantomData }
    }

    /// Parses `namespace:path` text.
    pub fn parse(s: &str) -> (r: Result<Self, SandError>)
        ensures
            match (r, spec_parse_location(s@)) {
                (Ok(l), Ok(v)) => l@ == v,
                (Err(e), Err(v)) => e@ == v,
                _ => false,
            },
    {
        let rl = ResourceLocation::parse(s)?;
        Ok(RegistryId { rl, _kind: PhantomData })
    }

    /// The wrapped resource location.
    pub fn as_resource_location(&self) -> (r: &ResourceLocation)
        ensures
            r@ == self@,
    {
        &self.rl
    }

    /// The `namespace:path` text.
    pub fn to_string(&self) -> (r: String)
        ensures
            r@ == self@.text(),
    {
        self.rl.to_string()
    }

    /// The identifier as a JSON string.
    pub fn to_json(&self) -> (r: JsonValue)
        ensures
            view_json(r) == Json::Str(self@.text()),
    {
        JsonValue::Str(self.rl.to_string())
    }

    /// A `minecraft:<path>` identifier for a path known to be valid.
    fn known_minecraft(path: &str) -> (r: Self)
        requires
            spec_valid_path(path@),
        ensures
            r@ == (ResourceLocationView { namespace: minecraft_ns(), path: path@ }),
    {
        proof {
            reveal_with_fuel(spec_namespace_chars_from, 10);
            lemma_namespace_chars_from(minecraft_ns(), 0);
        }
        match Self::minecraft(path) {
            Ok(id) => id,
            Err(_) => vstd::pervasive::unreached(),
        }
    }

    /// The identifier's text is valid.
    pub fn check_valid(&self)
        ensures
            self@.valid(),
    {
        self.rl.check_valid();
    }
}

impl<K> From<ResourceLocation> for RegistryId<K> {
    fn from(rl: ResourceLocation) -> Self {
        RegistryId { rl, _kind: PhantomData }
    }
}

impl<K> vstd::std_specs::convert::FromSpecImpl<ResourceLocation> for RegistryId<K> {
    open spec fn obeys_from_spec() -> bool {
        true
    }

    closed spec fn from_spec(v: ResourceLocation) -> Self {
        RegistryId { rl: v, _kind: PhantomData }
    }
}

impl<K> std::str::FromStr for RegistryId<K> {
    type Err = SandError;

    fn from_str(s: &str) -> Result<Self, SandError> {
        Self::parse(s)
    }
}

/// Marker for the registry of [`ItemId`].
#[derive(Debug, Clone, Copy, PartialEq, Eq, Hash)]
pub struct ItemKind;

/// Typed Minecraft item identifier (e.g. `minecraft:diamond_sword` or `mymod:arcane_blade`).
pub type ItemId = RegistryId<ItemKind>;

/// Marker for the registry of [`BlockId`].
#[derive(Debug, Clone, Copy, PartialEq, Eq, Hash)]
pub struct BlockKind;

/// Typed Minecraft block identifier (e.g. `minecraft:stone` or `mymod:custom_ore`).
pub type BlockId = RegistryId<BlockKind>;

/// Marker for the registry of [`EntityTypeId`].
#[derive(Debug, Clone, Copy, PartialEq, Eq, Hash)]
pub struct EntityTypeKind;

/// Typed Minecraft entity type identifier (e.g. `minecraft:zombie` or `mymod:boss`).
pub type EntityTypeId = RegistryId<EntityTypeKind>;

/// Marker for the registry of [`FunctionId`].
#[derive(Debug, Clone, Copy, PartialEq, Eq, Hash)]
pub struct FunctionKind;

/// Typed Minecraft function identifier (e.g. `minecraft:load` or `mypack:tick`).
pub type FunctionId = RegistryId<FunctionKind>;

/// Marker for the registry of [`AdvancementId`].
#[derive(Debug, Clone, Copy, PartialEq, Eq, Hash)]
pub struct AdvancementKind;

/// Typed Minecraft advancement identifier (e.g. `minecraft:story/root`).
pub type AdvancementId = RegistryId<AdvancementKind>;

/// Marker for the registry of [`RecipeId`].
#[derive(Debug, Clone, Copy, PartialEq, Eq, Hash)]
pub struct RecipeKind;

/// Typed Minecraft recipe identifier (e.g. `minecraft:diamond_pickaxe`).
pub type RecipeId = RegistryId<RecipeKind>;

/// Marker for the registry of [`LootTableId`].
#[derive(Debug, Clone, Copy, PartialEq, Eq, Hash)]
pub struct LootTableKind;

/// Typed Minecraft loot-table identifier (e.g. `minecraft:chests/simple_dungeon`).
pub type LootTableId = RegistryId<LootTableKind>;

/// Marker for the registry of [`PredicateId`].
#[derive(Debug, Clone, Copy, PartialEq, Eq, Hash)]
pub struct PredicateKind;

/// Typed Minecraft predicate identifier (e.g. `mypack:conditions/is_raining`).
pub type PredicateId = RegistryId<PredicateKind>;

/// Marker for the registry of [`DialogId`].
#[derive(Debug, Clone, Copy, PartialEq, Eq, Hash)]
pub struct DialogKind;

/// Typed Minecraft dialog identifier (e.g. `minecraft:custom_options`).
pub type DialogId = RegistryId<DialogKind>;

/// Marker for the registry of [`EnchantmentId`].
#[derive(Debug, Clone, Copy, PartialEq, Eq, Hash)]
pub struct EnchantmentKind;

/// Typed Minecraft enchantment identifier (e.g. `minecraft:sharpness`).
pub type EnchantmentId = RegistryId<EnchantmentKind>;

/// Marker for the registry of [`BiomeId`].
#[derive(Debug, Clone, Copy, PartialEq, Eq, Hash)]
pub struct BiomeKind;

/// Typed Minecraft biome identifier (e.g. `minecraft:plains`).
pub type BiomeId = RegistryId<BiomeKind>;

/// Marker for the registry of [`DimensionId`].
#[derive(Debug, Clone, Copy, PartialEq, Eq, Hash)]
pub struct DimensionKind;

/// Typed Minecraft dimension identifier (e.g. `minecraft:overworld`).
pub type DimensionId = RegistryId<DimensionKind>;

/// Marker for the registry of [`ConfiguredFeatureId`].
#[derive(Debug, Clone, Copy, PartialEq, Eq, Hash)]
pub struct ConfiguredFeatureKind;

/// Typed Minecraft configured-feature identifier (e.g. `minecraft:oak`).
pub type ConfiguredFeatureId = RegistryId<ConfiguredFeatureKind>;

/// Marker for the registry of [`ConfiguredCarverId`].
#[derive(Debug, Clone, Copy, PartialEq, Eq, Hash)]
pub struct ConfiguredCarverKind;

/// Typed Minecraft configured-carver identifier (e.g. `minecraft:cave`).
pub type ConfiguredCarverId = RegistryId<ConfiguredCarverKind>;

/// Marker for the registry of [`DimensionTypeId`].
#[derive(Debug, Clone, Copy, PartialEq, Eq, Hash)]
pub struct DimensionTypeKind;

/// Typed Minecraft dimension-type identifier (e.g. `minecraft:overworld`).
pub type DimensionTypeId = RegistryId<DimensionTypeKind>;

/// Marker for the registry of [`NoiseId`].
#[derive(Debug, Clone, Copy, PartialEq, Eq, Hash)]
pub struct NoiseKind;

/// Typed Minecraft noise-parameter identifier (e.g. `minecraft:temperature`).
pub type NoiseId = RegistryId<NoiseKind>;

/// Marker for the registry of [`DensityFunctionId`].
#[derive(Debug, Clone, Copy, PartialEq, Eq, Hash)]
pub struct DensityFunctionKind;

/// Typed Minecraft density-function identifier (e.g. `minecraft:overworld/base_3d_noise`).
pub type DensityFunctionId = RegistryId<DensityFunctionKind>;

/// Marker for the registry of [`DamageTypeId`].
#[derive(Debug, Clone, Copy, PartialEq, Eq, Hash)]
pub struct DamageTypeKind;

/// Typed Minecraft damage type identifier (e.g. `minecraft:generic`).
pub type DamageTypeId = RegistryId<DamageTypeKind>;

/// Marker for the registry of [`StructureId`].
#[derive(Debug, Clone, Copy, PartialEq, Eq, Hash)]
pub struct StructureKind;

/// Typed Minecraft structure identifier (e.g. `minecraft:village`).
pub type StructureId = RegistryId<StructureKind>;

/// Marker for the registry of [`StructureSetId`].
#[derive(Debug, Clone, Copy, PartialEq, Eq, Hash)]
pub struct StructureSetKind;

/// Typed `minecraft:worldgen/structure_set` identifier (e.g. `minecraft:villages`).
pub type StructureSetId = RegistryId<StructureSetKind>;

/// Marker for the registry of [`TemplatePoolId`].
#[derive(Debug, Clone, Copy, PartialEq, Eq, Hash)]
pub struct TemplatePoolKind;

/// Typed `minecraft:worldgen/template_pool` identifier.
pub type TemplatePoolId = RegistryId<TemplatePoolKind>;

/// Marker for the registry of [`ProcessorListId`].
#[derive(Debug, Clone, Copy, PartialEq, Eq, Hash)]
pub struct ProcessorListKind;

/// Typed `minecraft:worldgen/processor_list` identifier.
pub type ProcessorListId = RegistryId<ProcessorListKind>;

/// Marker for the registry of [`StructureTemplateId`].
#[derive(Debug, Clone, Copy, PartialEq, Eq, Hash)]
pub struct StructureTemplateKind;

/// Typed identifier for a `.nbt` structure template asset under `data/<namespace>/structure/`.
pub type StructureTemplateId = RegistryId<StructureTemplateKind>;

/// Marker for the registry of [`StructureTypeId`].
#[derive(Debug, Clone, Copy, PartialEq, Eq, Hash)]
pub struct StructureTypeKind;

/// Typed structure *type* identifier (e.g. `minecraft:jigsaw`).
pub type StructureTypeId = RegistryId<StructureTypeKind>;

/// Marker for the registry of [`SoundEventId`].
#[derive(Debug, Clone, Copy, PartialEq, Eq, Hash)]
pub struct SoundEventKind;

/// Typed sound-event identifier (e.g. `minecraft:entity.player.burp`).
pub type SoundEventId = RegistryId<SoundEventKind>;

/// Marker for the registry of [`EquipmentModelId`].
#[derive(Debug, Clone, Copy, PartialEq, Eq, Hash)]
pub struct EquipmentModelKind;

/// Typed equipment-model identifier used by the `equippable` item component.
pub type EquipmentModelId = RegistryId<EquipmentModelKind>;

/// Marker for the registry of [`StatusEffectId`].
#[derive(Debug, Clone, Copy, PartialEq, Eq, Hash)]
pub struct StatusEffectKind;

/// Resource-location-backed Minecraft status-effect identifier.
pub type StatusEffectId = RegistryId<StatusEffectKind>;

/// Marker for the registry of [`PotionRegistryId`].
#[derive(Debug, Clone, Copy, PartialEq, Eq, Hash)]
pub struct PotionRegistryKind;

/// Resource-location-backed Minecraft potion identifier.
pub type PotionRegistryId = RegistryId<PotionRegistryKind>;

/// Marker for the registry of [`EnchantmentEffectComponentId`].
#[derive(Debug, Clone, Copy, PartialEq, Eq, Hash)]
pub struct EnchantmentEffectComponentKind;

/// Typed identifier for an enchantment effect component key (e.g. `minecraft:damage`).
pub type EnchantmentEffectComponentId = RegistryId<EnchantmentEffectComponentKind>;

/// Marker for the registry of [`ChickenVariantId`].
#[derive(Debug, Clone, Copy, PartialEq, Eq, Hash)]
pub struct ChickenVariantKind;

/// Typed identifier for the `chicken_variant` registry.
pub type ChickenVariantId = RegistryId<ChickenVariantKind>;

/// Marker for the registry of [`CowVariantId`].
#[derive(Debug, Clone, Copy, PartialEq, Eq, Hash)]
pub struct CowVariantKind;

/// Typed identifier for the `cow_variant` registry.
pub type CowVariantId = RegistryId<CowVariantKind>;

/// Marker for the registry of [`PigVariantId`].
#[derive(Debug, Clone, Copy, PartialEq, Eq, Hash)]
pub struct PigVariantKind;

/// Typed identifier for the `pig_variant` registry.
pub type PigVariantId = RegistryId<PigVariantKind>;

/// Marker for the registry of [`VillagerTradeId`].
#[derive(Debug, Clone, Copy, PartialEq, Eq, Hash)]
pub struct VillagerTradeKind;

/// Typed identifier for the `villager_trade` registry.
pub type VillagerTradeId = RegistryId<VillagerTradeKind>;

/// Marker for the registry of [`TradeSetId`].
#[derive(Debug, Clone, Copy, PartialEq, Eq, Hash)]
pub struct TradeSetKind;

/// Typed identifier for the `trade_set` registry.
pub type TradeSetId = RegistryId<TradeSetKind>;

/// Marker for the registry of [`RandomSequenceId`].
#[derive(Debug, Clone, Copy, PartialEq, Eq, Hash)]
pub struct RandomSequenceKind;

/// Typed identifier for a named random sequence.
pub type RandomSequenceId = RegistryId<RandomSequenceKind>;

impl RegistryId<TemplatePoolKind> {
    /// `minecraft:empty` — the vanilla terminal fallback pool.
    pub fn empty() -> (r: Self)
        ensures
            r@ == (ResourceLocationView { namespace: minecraft_ns(), path: seq!['e', 'm', 'p', 't', 'y'] }),
    {
        let p = "empty";
        proof {
            reveal_strlit("empty");
            assert(p@ =~= seq!['e', 'm', 'p', 't', 'y']);
            reveal_with_fuel(spec_path_chars_from, 7);
            lemma_path_chars_from(p@, 0);
        }
        Self::known_minecraft(p)
    }
}

impl RegistryId<ProcessorListKind> {
    /// `minecraft:empty` — the vanilla no-op processor list.
    pub fn empty() -> (r: Self)
        ensures
            r@ == (ResourceLocationView { namespace: minecraft_ns(), path: seq!['e', 'm', 'p', 't', 'y'] }),
    {
        let p = "empty";
        proof {
            reveal_strlit("empty");
            assert(p@ =~= seq!['e', 'm', 'p', 't', 'y']);
            reveal_with_fuel(spec_path_chars_from, 7);
            lemma_path_chars_from(p@, 0);
        }
        Self::known_minecraft(p)
    }
}

impl RegistryId<StructureTypeKind> {
    /// `minecraft:jigsaw` — the type used by villages and template-pool driven structures.
    pub fn jigsaw() -> (r: Self)
        ensures
            r@ == (ResourceLocationView { namespace: minecraft_ns(), path: seq!['j', 'i', 'g', 's', 'a', 'w'] }),
    {
        let p = "jigsaw";
        proof {
            reveal_strlit("jigsaw");
            assert(p@ =~= seq!['j', 'i', 'g', 's', 'a', 'w']);
            reveal_with_fuel(spec_path_chars_from, 8);
            lemma_path_chars_from(p@, 0);
        }
        Self::known_minecraft(p)
    }
}

impl RegistryId<EnchantmentEffectComponentKind> {
    /// `minecraft:damage` — used by Sharpness, Smite, Bane of Arthropods, Impaling, and Power.
    pub fn damage() -> (r: Self)
        ensures
            r@ == (ResourceLocationView { namespace: minecraft_ns(), path: seq!['d', 'a', 'm', 'a', 'g', 'e'] }),
    {
        let p = "damage";
        proof {
            reveal_strlit("damage");
            assert(p@ =~= seq!['d', 'a', 'm', 'a', 'g', 'e']);
            reveal_with_fuel(spec_path_chars_from, 8);
            lemma_path_chars_from(p@, 0);
        }
        Self::known_minecraft(p)
    }
}

impl RegistryId<EnchantmentEffectComponentKind> {
    /// `minecraft:knockback` — used by Knockback and Punch.
    pub fn knockback() -> (r: Self)
        ensures
            r@ == (ResourceLocationView { namespace: minecraft_ns(), path: seq!['k', 'n', 'o', 'c', 'k', 'b', 'a', 'c', 'k'] }),
    {
        let p = "knockback";
        proof {
            reveal_strlit("knockback");
            assert(p@ =~= seq!['k', 'n', 'o', 'c', 'k', 'b', 'a', 'c', 'k']);
            reveal_with_fuel(spec_path_chars_from, 11);
            lemma_path_chars_from(p@, 0);
        }
        Self::known_minecraft(p)
    }
}

impl RegistryId<EnchantmentEffectComponentKind> {
    /// `minecraft:armor_effectiveness` — used by Breach.
    pub fn armor_effectiveness() -> (r: Self)
        ensures
            r@ == (ResourceLocationView { namespace: minecraft_ns(), path: seq!['a', 'r', 'm', 'o', 'r', '_', 'e', 'f', 'f', 'e', 'c', 't', 'i', 'v', 'e', 'n', 'e', 's', 's'] }),
    {
        let p = "armor_effectiveness";
        proof {
            reveal_strlit("armor_effectiveness");
            assert(p@ =~= seq!['a', 'r', 'm', 'o', 'r', '_', 'e', 'f', 'f', 'e', 'c', 't', 'i', 'v', 'e', 'n', 'e', 's', 's']);
            reveal_with_fuel(spec_path_chars_from, 21);
            lemma_path_chars_from(p@, 0);
        }
        Self::known_minecraft(p)
    }
}


/// `s` without one leading `#`, if it has one.
pub open spec fn spec_strip_hash(s: Seq<char>) -> Seq<char> {
    if s.len() > 0 && s[0] == '#' {
        s.drop_first()
    } else {
        s
    }
}

/// `s` without one leading `#`, if it has one (`strip_prefix('#').unwrap_or(s)`).
pub fn strip_hash(s: &str) -> (r: &str)
    ensures
        r@ == spec_strip_hash(s@),
{
    let n = s.unicode_len();
    if n > 0 && s.get_char(0) == '#' {
        let rest = s.substring_char(1, n);
        assert(rest@ =~= s@.drop_first());
        rest
    } else {
        s
    }
}

/// A typed tag identifier scoped to the registry kind `T`.
///
/// Minecraft writes tags as `#namespace:path` in some contexts (item
/// predicates, ingredients) and as `namespace:path` in others (data files):
/// [`TagId::to_tag_string`] gives the first form, [`TagId::to_string`] the second.
#[derive(Debug, PartialEq, Eq, Hash)]
pub struct TagId<T> {
    rl: ResourceLocation,
    _marker: PhantomData<T>,
}

impl<T> View for TagId<T> {
    type V = ResourceLocationView;

    closed spec fn view(&self) -> ResourceLocationView {
        self.rl@
    }
}

impl<T> Clone for TagId<T> {
    fn clone(&self) -> (r: Self)
        ensures
            r@ == self@,
    {
        TagId { rl: self.rl.clone(), _marker: PhantomData }
    }
}

impl<T> TagId<T> {
    /// A `minecraft:<path>` tag; fails if `path` is invalid.
    pub fn minecraft(path: &str) -> (r: Result<Self, SandError>)
        ensures
            match (r, spec_new_location(minecraft_ns(), path@)) {
                (Ok(l), Ok(v)) => l@ == v,
                (Err(e), Err(v)) => e@ == v,
                _ => false,
            },
    {
        let rl = ResourceLocation::minecraft(path)?;
        Ok(TagId { rl, _marker: PhantomData })
    }

    /// Wraps any resource location as a tag ID.
    pub fn custom(rl: ResourceLocation) -> (r: Self)
        ensures
            r@ == rl@,
    {
        TagId { rl, _marker: PhantomData }
    }

    /// The `#namespace:path` form used in item predicates and ingredients.
    pub fn to_tag_string(&self) -> (r: String)
        ensures
            r@ == seq!['#'] + self@.text(),
    {
        let mut s = String::new();
        push_char(&mut s, '#');
        let t = self.rl.to_string();
        s.append(t.as_str());
        s
    }

    /// The plain `namespace:path` form used in data files.
    pub fn to_string(&self) -> (r: String)
        ensures
            r@ == self@.text(),
    {
        self.rl.to_string()
    }

    /// The inner resource location.
    pub fn as_resource_location(&self) -> (r: &ResourceLocation)
        ensures
            r@ == self@,
    {
        &self.rl
    }

    /// The plain form as a JSON string.
    pub fn to_json(&self) -> (r: JsonValue)
        ensures
            view_json(r) == Json::Str(self@.text()),
    {
        JsonValue::Str(self.rl.to_string())
    }

    /// Parses a tag with or without one leading `#`.
    pub fn parse(s: &str) -> (r: Result<Self, SandError>)
        ensures
            match (r, spec_parse_location(spec_strip_hash(s@))) {
                (Ok(l), Ok(v)) => l@ == v,
                (Err(e), Err(v)) => e@ == v,
                _ => false,
            },
    {
        let n = s.unicode_len();
        if n > 0 && s.get_char(0) == '#' {
            let rest = s.substring_char(1, n);
            assert(rest@ =~= s@.drop_first());
            let rl = ResourceLocation::parse(rest)?;
            Ok(TagId { rl, _marker: PhantomData })
        } else {
            let rl = ResourceLocation::parse(s)?;
            Ok(TagId { rl, _marker: PhantomData })
        }
    }
}

impl<T> From<ResourceLocation> for TagId<T> {
    fn from(rl: ResourceLocation) -> Self {
        TagId { rl, _marker: PhantomData }
    }
}

impl<T> vstd::std_specs::convert::FromSpecImpl<ResourceLocation> for TagId<T> {
    open spec fn obeys_from_spec() -> bool {
        true
    }

    closed spec fn from_spec(v: ResourceLocation) -> Self {
        TagId { rl: v, _marker: PhantomData }
    }
}

impl<T> std::str::FromStr for TagId<T> {
    type Err = SandError;

    fn from_str(s: &str) -> Result<Self, SandError> {
        Self::parse(s)
    }
}

/// Parsing either written form of a tag gives the tag back.
pub proof fn law_tag_text_roundtrip(v: ResourceLocationView)
    requires
        v.valid(),
    ensures
        spec_parse_location(spec_strip_hash(seq!['#'] + v.text())) == Ok::<
            ResourceLocationView,
            SandErrorView,
        >(v),
        spec_parse_location(spec_strip_hash(v.text())) == Ok::<ResourceLocationView, SandErrorView>(
            v,
        ),
{
    assert((seq!['#'] + v.text()).drop_first() =~= v.text());
    assert(v.text()[0] == v.namespace[0]);
    assert(crate::resource_location::spec_namespace_char(v.namespace[0]));
    crate::resource_location::law_parse_text_roundtrip(v);
}

} // verus!
