//! Loot tables (`data/<namespace>/loot_table/<id>.json`): pools of weighted
//! entries, conditions, item functions and number providers, with export
//! validation that reports the first offending field by its full path.

pub mod json;
pub mod validation;

use vstd::prelude::*;
use vstd::string::*;

use crate::float::F64Bits;
use crate::json::{Json, JsonValue, view_json};
use crate::raw::RawJson;
use crate::registry::{EnchantmentKind, ItemKind, LootTableKind, RegistryId, TagId};
use crate::resource_location::{ResourceLocation, ResourceLocationView};
use crate::text::{owned, push_char};

pub use json::{
    law_entry_json, law_number_json, spec_condition_json, spec_entry_json, spec_entry_keys,
    spec_function_json, spec_number_json, spec_pool_json, spec_table_json,
};
pub use validation::{
    FailureView, ValidationFailure, law_condition_valid, law_entry_valid, law_pool_valid,
    spec_condition_failure, spec_condition_valid, spec_entry_failure, spec_entry_valid,
    spec_function_failure, spec_number_failure, spec_pool_failure, spec_table_failure, view_check,
};

use crate::error::{SandError, SandErrorView, view_unit_result};
use crate::json::{lemma_view_entries_empty, push_entry, push_opt, push_opt_entry, push_value, view_entries, view_values};
use crate::text::field;
use json::{
    conditions_json, entries_json, functions_json, jstr, lemma_conditions_json_len,
    lemma_entries_json_len, opt_list, spec_conditions_json, spec_entries_json,
    spec_functions_json,
};
use validation::{conditions_at, entries_at, fail, functions_at, pools_at, resource_id, rolls_at};

verus! {

/// The type of a loot table (block, entity, chest, …), with `Custom` for
/// other identifiers.
pub enum LootTableType {
    Empty,
    Entity,
    Block,
    Chest,
    Equipment,
    Fishing,
    Gift,
    VaultReward,
    Shearing,
    Archaeology,
    Generic,
    Barter,
    Command,
    Selector,
    AdvancementReward,
    AdvancementEntity,
    Custom(String),
}

/// The identifier written for a loot table type.
pub open spec fn spec_type_str(t: LootTableType) -> Seq<char> {
    match t {
        LootTableType::Empty => "minecraft:empty"@,
        LootTableType::Entity => "minecraft:entity"@,
        LootTableType::Block => "minecraft:block"@,
        LootTableType::Chest => "minecraft:chest"@,
        LootTableType::Equipment => "minecraft:equipment"@,
        LootTableType::Fishing => "minecraft:fishing"@,
        LootTableType::Gift => "minecraft:gift"@,
        LootTableType::VaultReward => "minecraft:vault_reward"@,
        LootTableType::Shearing => "minecraft:shearing"@,
        LootTableType::Archaeology => "minecraft:archaeology"@,
        LootTableType::Generic => "minecraft:generic"@,
        LootTableType::Barter => "minecraft:barter"@,
        LootTableType::Command => "minecraft:command"@,
        LootTableType::Selector => "minecraft:selector"@,
        LootTableType::AdvancementReward => "minecraft:advancement_reward"@,
        LootTableType::AdvancementEntity => "minecraft:advancement_entity"@,
        LootTableType::Custom(s) => s@,
    }
}

impl LootTableType {
    /// The identifier written for this loot table type.
    pub fn type_str(&self) -> (r: String)
        ensures
            r@ == spec_type_str(*self),
    {
        match self {
            LootTableType::Empty => owned("minecraft:empty"),
            LootTableType::Entity => owned("minecraft:entity"),
            LootTableType::Block => owned("minecraft:block"),
            LootTableType::Chest => owned("minecraft:chest"),
            LootTableType::Equipment => owned("minecraft:equipment"),
            LootTableType::Fishing => owned("minecraft:fishing"),
            LootTableType::Gift => owned("minecraft:gift"),
            LootTableType::VaultReward => owned("minecraft:vault_reward"),
            LootTableType::Shearing => owned("minecraft:shearing"),
            LootTableType::Archaeology => owned("minecraft:archaeology"),
            LootTableType::Generic => owned("minecraft:generic"),
            LootTableType::Barter => owned("minecraft:barter"),
            LootTableType::Command => owned("minecraft:command"),
            LootTableType::Selector => owned("minecraft:selector"),
            LootTableType::AdvancementReward => owned("minecraft:advancement_reward"),
            LootTableType::AdvancementEntity => owned("minecraft:advancement_entity"),
            LootTableType::Custom(s) => s.clone(),
        }
    }
}

/// A numeric value for loot operations: a constant, a uniform or binomial
/// distribution, or a scoreboard score.
#[derive(Debug, PartialEq)]
pub enum NumberProvider {
    Constant(F64Bits),
    Uniform { min: F64Bits, max: F64Bits },
    Binomial { n: i32, p: F64Bits },
    Score { target: JsonValue, score: String, scale: Option<F64Bits> },
}

impl NumberProvider {
    /// The constant `n` (`From<i32>`).
    pub fn from_i32(n: i32) -> (r: Self)
        ensures
            r == NumberProvider::Constant(F64Bits { bits: crate::float::spec_bits_of_int(n as int) }),
    {
        NumberProvider::Constant(F64Bits::from_i32(n))
    }

    /// The constant `v` (`From<f64>`, given the value's bits).
    pub fn constant(v: F64Bits) -> (r: Self)
        ensures
            r == NumberProvider::Constant(v),
    {
        NumberProvider::Constant(v)
    }
}

/// Boolean composition, entity/block checks, probability and custom
/// conditions deciding whether loot entries, pools or functions apply.
#[derive(Debug, PartialEq)]
#[allow(inconsistent_fields)]
pub enum LootCondition {
    AllOf { terms: Vec<LootCondition> },
    AnyOf { terms: Vec<LootCondition> },
    Inverted { term: Box<LootCondition> },
    RandomChance { chance: F64Bits },
    KilledByPlayer,
    EntityProperties { entity: String, predicate: JsonValue },
    /// Score names and required values, as `(name, value)` pairs; a later
    /// pair for a name supersedes an earlier one in the written object. A
    /// list stands in for a `String`-keyed map, of whose contents Verus could
    /// prove nothing.
    EntityScores { entity: String, scores: Vec<(String, JsonValue)> },
    MatchTool { predicate: JsonValue },
    SurvivesExplosion,
    TableBonus { enchantment: String, chances: Vec<F64Bits> },
    TimeCheck { value: JsonValue, period: Option<i64> },
    WeatherCheck { raining: Option<bool>, thundering: Option<bool> },
    /// Block state properties to match, as `(name, value)` pairs; a list
    /// stands in for a `String`-keyed map, of whose contents Verus could prove
    /// nothing.
    BlockStateProperty { block: String, properties: Vec<(String, String)> },
    Reference { name: String },
    /// Explicit raw escape hatch for modded conditions.
    Custom { condition: String, data: RawJson },
}

/// A single enchantment or an enchantment tag, written as `namespace:path`
/// or `#namespace:path`.
pub enum EnchantmentSelector {
    Id(RegistryId<EnchantmentKind>),
    Tag(TagId<RegistryId<EnchantmentKind>>),
}

/// The written form of an enchantment selector.
pub open spec fn spec_selector_text(s: EnchantmentSelector) -> Seq<char> {
    match s {
        EnchantmentSelector::Id(id) => id@.text(),
        EnchantmentSelector::Tag(t) => seq!['#'] + t@.text(),
    }
}

impl EnchantmentSelector {
    /// `namespace:path` for an ID, `#namespace:path` for a tag.
    pub fn to_string(&self) -> (r: String)
        ensures
            r@ == spec_selector_text(*self),
    {
        match self {
            EnchantmentSelector::Id(id) => id.to_string(),
            EnchantmentSelector::Tag(t) => t.to_tag_string(),
        }
    }
}

/// Text used by `set_name` / `set_lore`: literal text, or raw JSON text.
pub enum LootText {
    /// A literal text component, written as `{"text": ..}`.
    Literal(String),
    /// Explicit raw JSON text escape hatch.
    Raw(RawJson),
}

impl LootText {
    /// A literal text component.
    pub fn literal(s: &str) -> (r: Self)
        ensures
            r matches LootText::Literal(t) && t@ == s@,
    {
        LootText::Literal(owned(s))
    }
}

/// Modifies selected loot (counts, damage, enchantments, names, …).
#[allow(inconsistent_fields)]
pub enum LootFunction {
    SetCount { count: NumberProvider, add: bool },
    SetDamage { damage: NumberProvider, add: bool },
    EnchantWithLevels { levels: NumberProvider, options: Option<EnchantmentSelector> },
    EnchantRandomly { options: Option<Vec<EnchantmentSelector>>, only_compatible: bool },
    SetName { name: LootText, entity: Option<String> },
    SetLore { lore: Vec<LootText>, entity: Option<String> },
    LootingEnchant { count: NumberProvider, limit: Option<i32> },
    ExplosionDecay,
    FurnaceSmelt,
    FillPlayerHead { entity: String },
    CopyComponents { source: String, included: Vec<String>, excluded: Vec<String> },
    Reference { name: String },
    /// Explicit raw escape hatch for modded loot functions.
    Custom { function: String, data: RawJson },
}

impl LootFunction {
    /// A `set_name` function.
    pub fn set_name(name: LootText) -> (r: Self)
        ensures
            r matches LootFunction::SetName { entity: None, .. },
    {
        LootFunction::SetName { name, entity: None }
    }

    /// A `set_lore` function.
    pub fn set_lore(lore: Vec<LootText>) -> (r: Self)
        ensures
            r matches LootFunction::SetLore { lore: l, entity: None } && l@ == lore@,
    {
        LootFunction::SetLore { lore, entity: None }
    }
}

/// One entry of a loot pool: an item, a tag, a nested table, or a structural
/// group of children.
#[allow(inconsistent_fields)]
pub enum LootEntry {
    Item {
        name: String,
        weight: Option<i32>,
        quality: Option<i32>,
        functions: Vec<LootFunction>,
        conditions: Vec<LootCondition>,
    },
    Tag {
        name: String,
        expand: Option<bool>,
        weight: Option<i32>,
        quality: Option<i32>,
        conditions: Vec<LootCondition>,
    },
    LootTable {
        value: String,
        weight: Option<i32>,
        quality: Option<i32>,
        conditions: Vec<LootCondition>,
    },
    Group { children: Vec<LootEntry>, conditions: Vec<LootCondition> },
    Alternatives { children: Vec<LootEntry>, conditions: Vec<LootCondition> },
    Sequence { children: Vec<LootEntry>, conditions: Vec<LootCondition> },
    Dynamic { name: String, conditions: Vec<LootCondition> },
    Empty { weight: Option<i32>, quality: Option<i32>, conditions: Vec<LootCondition> },
}

impl LootEntry {
    /// A direct item entry from a typed item ID.
    pub fn item(id: RegistryId<ItemKind>) -> (r: Self)
        ensures
            r matches LootEntry::Item { name, weight: None, quality: None, functions, conditions }
                && name@ == id@.text() && functions@.len() == 0 && conditions@.len() == 0,
    {
        LootEntry::Item {
            name: id.to_string(),
            weight: None,
            quality: None,
            functions: Vec::new(),
            conditions: Vec::new(),
        }
    }

    /// A direct item entry through the raw compatibility path (checked at export).
    pub fn item_raw(name: &str) -> (r: Self)
        ensures
            r matches LootEntry::Item { name: n, weight: None, quality: None, functions, conditions }
                && n@ == name@ && functions@.len() == 0 && conditions@.len() == 0,
    {
        LootEntry::Item {
            name: owned(name),
            weight: None,
            quality: None,
            functions: Vec::new(),
            conditions: Vec::new(),
        }
    }

    /// An item tag entry from a typed item tag.
    pub fn tag(tag: TagId<RegistryId<ItemKind>>) -> (r: Self)
        ensures
            r matches LootEntry::Tag { name, expand: None, weight: None, quality: None, conditions }
                && name@ == tag@.text() && conditions@.len() == 0,
    {
        LootEntry::Tag {
            name: tag.to_string(),
            expand: None,
            weight: None,
            quality: None,
            conditions: Vec::new(),
        }
    }

    /// An item tag entry through the raw compatibility path.
    pub fn tag_raw(name: &str) -> (r: Self)
        ensures
            r matches LootEntry::Tag { name: n, expand: None, weight: None, quality: None, conditions }
                && n@ == name@ && conditions@.len() == 0,
    {
        LootEntry::Tag {
            name: owned(name),
            expand: None,
            weight: None,
            quality: None,
            conditions: Vec::new(),
        }
    }

    /// A nested loot table reference from a typed loot-table ID.
    pub fn loot_table(id: RegistryId<LootTableKind>) -> (r: Self)
        ensures
            r matches LootEntry::LootTable { value, weight: None, quality: None, conditions }
                && value@ == id@.text() && conditions@.len() == 0,
    {
        LootEntry::LootTable {
            value: id.to_string(),
            weight: None,
            quality: None,
            conditions: Vec::new(),
        }
    }

    /// A nested loot table reference through the raw compatibility path.
    pub fn loot_table_raw(value: &str) -> (r: Self)
        ensures
            r matches LootEntry::LootTable { value: v, weight: None, quality: None, conditions }
                && v@ == value@ && conditions@.len() == 0,
    {
        LootEntry::LootTable {
            value: owned(value),
            weight: None,
            quality: None,
            conditions: Vec::new(),
        }
    }

    /// A group entry.
    pub fn group(children: Vec<LootEntry>) -> (r: Self)
        ensures
            r matches LootEntry::Group { children: c, conditions } && c@ == children@
                && conditions@.len() == 0,
    {
        LootEntry::Group { children, conditions: Vec::new() }
    }

    /// An alternatives entry.
    pub fn alternatives(children: Vec<LootEntry>) -> (r: Self)
        ensures
            r matches LootEntry::Alternatives { children: c, conditions } && c@ == children@
                && conditions@.len() == 0,
    {
        LootEntry::Alternatives { children, conditions: Vec::new() }
    }

    /// A sequence entry.
    pub fn sequence(children: Vec<LootEntry>) -> (r: Self)
        ensures
            r matches LootEntry::Sequence { children: c, conditions } && c@ == children@
                && conditions@.len() == 0,
    {
        LootEntry::Sequence { children, conditions: Vec::new() }
    }

    /// A dynamic entry.
    pub fn dynamic(name: &str) -> (r: Self)
        ensures
            r matches LootEntry::Dynamic { name: n, conditions } && n@ == name@
                && conditions@.len() == 0,
    {
        LootEntry::Dynamic { name: owned(name), conditions: Vec::new() }
    }

    /// An empty entry.
    pub fn empty() -> (r: Self)
        ensures
            r matches LootEntry::Empty { weight: None, quality: None, conditions }
                && conditions@.len() == 0,
    {
        LootEntry::Empty { weight: None, quality: None, conditions: Vec::new() }
    }
}

/// The abstract value of a [`LootPool`].
pub struct LootPoolView {
    pub rolls: NumberProvider,
    pub bonus_rolls: Option<NumberProvider>,
    pub entries: Seq<LootEntry>,
    pub conditions: Seq<LootCondition>,
    pub functions: Seq<LootFunction>,
}

/// A pool of loot entries selected by roll counts.
pub struct LootPool {
    rolls: NumberProvider,
    bonus_rolls: Option<NumberProvider>,
    pub entries: Vec<LootEntry>,
    pub conditions: Vec<LootCondition>,
    pub functions: Vec<LootFunction>,
}

impl View for LootPool {
    type V = LootPoolView;

    closed spec fn view(&self) -> LootPoolView {
        LootPoolView {
            rolls: self.rolls,
            bonus_rolls: self.bonus_rolls,
            entries: self.entries@,
            conditions: self.conditions@,
            functions: self.functions@,
        }
    }
}

impl LootPool {
    /// A pool with one roll, no bonus rolls and nothing in it.
    pub fn new() -> (r: Self)
        ensures
            r@ == (LootPoolView {
                rolls: NumberProvider::Constant(F64Bits { bits: crate::float::spec_one_bits() }),
                bonus_rolls: None,
                entries: Seq::empty(),
                conditions: Seq::empty(),
                functions: Seq::empty(),
            }),
    {
        LootPool {
            rolls: NumberProvider::Constant(F64Bits::one()),
            bonus_rolls: None,
            entries: Vec::new(),
            conditions: Vec::new(),
            functions: Vec::new(),
        }
    }

    /// Sets the number of rolls.
    pub fn rolls(self, n: NumberProvider) -> (r: Self)
        ensures
            r@ == (LootPoolView { rolls: n, ..self@ }),
    {
        let mut s = self;
        s.rolls = n;
        s
    }

    /// Sets the bonus rolls.
    pub fn bonus_rolls(self, n: NumberProvider) -> (r: Self)
        ensures
            r@ == (LootPoolView { bonus_rolls: Some(n), ..self@ }),
    {
        let mut s = self;
        s.bonus_rolls = Some(n);
        s
    }

    /// Adds an entry.
    pub fn entry(self, entry: LootEntry) -> (r: Self)
        ensures
            r@ == (LootPoolView { entries: self@.entries.push(entry), ..self@ }),
    {
        let mut s = self;
        s.entries.push(entry);
        s
    }

    /// Adds a condition.
    pub fn condition(self, condition: LootCondition) -> (r: Self)
        ensures
            r@ == (LootPoolView { conditions: self@.conditions.push(condition), ..self@ }),
    {
        let mut s = self;
        s.conditions.push(condition);
        s
    }

    /// Adds a function.
    pub fn function(self, function: LootFunction) -> (r: Self)
        ensures
            r@ == (LootPoolView { functions: self@.functions.push(function), ..self@ }),
    {
        let mut s = self;
        s.functions.push(function);
        s
    }
}

/// The abstract value of a [`LootTable`].
pub struct LootTableView {
    pub location: ResourceLocationView,
    pub loot_type: Option<LootTableType>,
    pub random_sequence: Option<Seq<char>>,
    pub pools: Seq<LootPool>,
    pub functions: Seq<LootFunction>,
    pub conditions: Seq<LootCondition>,
}

/// A complete loot table: pools plus table-wide functions and conditions.
pub struct LootTable {
    pub location: ResourceLocation,
    loot_type: Option<LootTableType>,
    random_sequence: Option<String>,
    pub pools: Vec<LootPool>,
    pub functions: Vec<LootFunction>,
    pub conditions: Vec<LootCondition>,
}

impl View for LootTable {
    type V = LootTableView;

    closed spec fn view(&self) -> LootTableView {
        LootTableView {
            location: self.location@,
            loot_type: self.loot_type,
            random_sequence: match self.random_sequence {
                Some(s) => Some(s@),
                None => None,
            },
            pools: self.pools@,
            functions: self.functions@,
            conditions: self.conditions@,
        }
    }
}

impl LootTable {
    /// An empty loot table at `location`.
    pub fn new(location: ResourceLocation) -> (r: Self)
        ensures
            r@ == (LootTableView {
                location: location@,
                loot_type: None,
                random_sequence: None,
                pools: Seq::empty(),
                functions: Seq::empty(),
                conditions: Seq::empty(),
            }),
    {
        LootTable {
            location,
            loot_type: None,
            random_sequence: None,
            pools: Vec::new(),
            functions: Vec::new(),
            conditions: Vec::new(),
        }
    }

    /// Sets the loot table type.
    pub fn loot_type(self, loot_type: LootTableType) -> (r: Self)
        ensures
            r@ == (LootTableView { loot_type: Some(loot_type), ..self@ }),
    {
        let mut s = self;
        s.loot_type = Some(loot_type);
        s
    }

    /// Sets the random sequence from a typed resource location.
    pub fn random_sequence(self, seq: ResourceLocation) -> (r: Self)
        ensures
            r@ == (LootTableView { random_sequence: Some(seq@.text()), ..self@ }),
    {
        let mut s = self;
        s.random_sequence = Some(seq.to_string());
        s
    }

    /// Sets the random sequence through the raw compatibility path.
    pub fn random_sequence_raw(self, seq: &str) -> (r: Self)
        ensures
            r@ == (LootTableView { random_sequence: Some(seq@), ..self@ }),
    {
        let mut s = self;
        s.random_sequence = Some(owned(seq));
        s
    }

    /// Adds a pool.
    pub fn pool(self, pool: LootPool) -> (r: Self)
        ensures
            r@ == (LootTableView { pools: self@.pools.push(pool), ..self@ }),
    {
        let mut s = self;
        s.pools.push(pool);
        s
    }

    /// Adds a table-wide function.
    pub fn function(self, function: LootFunction) -> (r: Self)
        ensures
            r@ == (LootTableView { functions: self@.functions.push(function), ..self@ }),
    {
        let mut s = self;
        s.functions.push(function);
        s
    }

    /// Adds a table-wide condition.
    pub fn condition(self, condition: LootCondition) -> (r: Self)
        ensures
            r@ == (LootTableView { conditions: self@.conditions.push(condition), ..self@ }),
    {
        let mut s = self;
        s.conditions.push(condition);
        s
    }

    /// The component's resource location.
    pub fn resource_location(&self) -> (r: &ResourceLocation)
        ensures
            r@ == self@.location,
    {
        &self.location
    }

    /// The datapack directory (`loot_table`).
    pub fn component_dir(&self) -> (r: &'static str)
        ensures
            r@ == "loot_table"@,
    {
        "loot_table"
    }
}


impl Default for LootPool {
    fn default() -> (r: Self)
        ensures
            r@ == (LootPoolView {
                rolls: NumberProvider::Constant(F64Bits { bits: crate::float::spec_one_bits() }),
                bonus_rolls: None,
                entries: Seq::empty(),
                conditions: Seq::empty(),
                functions: Seq::empty(),
            }),
    {
        LootPool::new()
    }
}

impl LootPool {
    /// Validates this pool, naming offending fields under `path`: it must hold
    /// an entry, then rolls, bonus rolls, conditions, functions and entries
    /// are checked in that order.
    pub fn validate_at(&self, path: &str) -> (r: Result<(), ValidationFailure>)
        ensures
            view_check(r) == spec_pool_failure(self@, path@),
    {
        if self.entries.len() == 0 {
            return Err(
                fail(field(path, "entries").as_str(), "loot pool must contain at least one entry"),
            );
        }
        rolls_at(&self.rolls, field(path, "rolls").as_str(), "loot pool rolls must not be negative")?;
        if let Some(b) = &self.bonus_rolls {
            rolls_at(
                b,
                field(path, "bonus_rolls").as_str(),
                "loot pool bonus rolls must not be negative",
            )?;
        }
        conditions_at(&self.conditions, field(path, "conditions").as_str())?;
        functions_at(&self.functions, field(path, "functions").as_str())?;
        entries_at(&self.entries, field(path, "entries").as_str())
    }

    /// The JSON of this pool.
    pub fn to_json(&self) -> (r: JsonValue)
        ensures
            view_json(r) == spec_pool_json(self@),
    {
        let mut m: Vec<(String, JsonValue)> = Vec::new();
        proof {
            lemma_view_entries_empty();
            lemma_conditions_json_len(self.conditions@);
        }
        push_entry(&mut m, "rolls", self.rolls.to_json());
        let b = match &self.bonus_rolls {
            Some(n) => Some(n.to_json()),
            None => None,
        };
        push_opt_entry(&mut m, "bonus_rolls", b);
        push_entry(&mut m, "entries", entries_json(&self.entries));
        let c = if self.conditions.len() == 0 {
            None
        } else {
            Some(conditions_json(&self.conditions))
        };
        push_opt_entry(&mut m, "conditions", c);
        let f = if self.functions.len() == 0 {
            None
        } else {
            Some(functions_json(&self.functions))
        };
        push_opt_entry(&mut m, "functions", f);
        JsonValue::Object(m)
    }
}

/// The export validation result of a loot table: the first failure, reported
/// as a component-validation error of kind `loot_table`.
pub open spec fn spec_loot_validate(t: LootTableView) -> Result<(), SandErrorView> {
    match spec_table_failure(t) {
        None => Ok(()),
        Some(f) => Err(
            SandErrorView::ComponentValidation {
                location: t.location,
                kind: "loot_table"@,
                field: f.path,
                message: f.message,
            },
        ),
    }
}

impl LootTable {
    /// The first validation failure of this table, by field path.
    pub fn validate_table(&self) -> (r: Result<(), ValidationFailure>)
        ensures
            view_check(r) == spec_table_failure(self@),
    {
        let empty_type = match &self.loot_type {
            Some(LootTableType::Empty) => true,
            _ => false,
        };
        if self.pools.len() == 0 && self.functions.len() == 0 && self.conditions.len() == 0
            && !empty_type {
            return Err(
                fail(
                    "pools",
                    "loot table must contain content or explicitly use LootTableType::Empty",
                ),
            );
        }
        if let Some(LootTableType::Custom(kind)) = &self.loot_type {
            resource_id(kind.as_str(), "type")?;
        }
        if let Some(sequence) = &self.random_sequence {
            resource_id(sequence.as_str(), "random_sequence")?;
        }
        conditions_at(&self.conditions, "conditions")?;
        functions_at(&self.functions, "functions")?;
        pools_at(&self.pools, "pools")
    }

    /// Export validation.
    pub fn validate(&self) -> (r: Result<(), SandError>)
        ensures
            view_unit_result(r) == spec_loot_validate(self@),
    {
        match self.validate_table() {
            Ok(()) => Ok(()),
            Err(f) => Err(
                SandError::ComponentValidation {
                    location: self.location.clone(),
                    kind: owned("loot_table"),
                    field: f.path,
                    message: f.message,
                },
            ),
        }
    }

    /// The JSON document.
    pub fn to_json(&self) -> (r: JsonValue)
        ensures
            view_json(r) == spec_table_json(self@),
    {
        let mut m: Vec<(String, JsonValue)> = Vec::new();
        proof {
            lemma_view_entries_empty();
            lemma_conditions_json_len(self.conditions@);
        }
        let t = match &self.loot_type {
            Some(k) => Some(JsonValue::Str(k.type_str())),
            None => None,
        };
        push_opt_entry(&mut m, "type", t);
        let s = match &self.random_sequence {
            Some(x) => Some(JsonValue::Str(x.clone())),
            None => None,
        };
        push_opt_entry(&mut m, "random_sequence", s);
        let p = if self.pools.len() == 0 {
            None
        } else {
            Some(self.pools_json())
        };
        push_opt_entry(&mut m, "pools", p);
        let f = if self.functions.len() == 0 {
            None
        } else {
            Some(functions_json(&self.functions))
        };
        push_opt_entry(&mut m, "functions", f);
        let c = if self.conditions.len() == 0 {
            None
        } else {
            Some(conditions_json(&self.conditions))
        };
        push_opt_entry(&mut m, "conditions", c);
        JsonValue::Object(m)
    }

    /// The JSON array of this table's pools.
    fn pools_json(&self) -> (r: JsonValue)
        ensures
            view_json(r) == Json::Array(self@.pools.map_values(|p: LootPool| spec_pool_json(p@))),
    {
        let s = &self.pools;
        let mut out: Vec<JsonValue> = Vec::new();
        let mut i: usize = 0;
        while i < s.len()
            invariant
                i <= s.len(),
                view_values(out@) == s@.subrange(0, i as int).map_values(
                    |p: LootPool| spec_pool_json(p@),
                ),
            decreases s.len() - i,
        {
            push_value(&mut out, s[i].to_json());
            assert(s@.subrange(0, i + 1).map_values(|p: LootPool| spec_pool_json(p@))
                =~= s@.subrange(0, i as int).map_values(|p: LootPool| spec_pool_json(p@)).push(
                spec_pool_json(s@[i as int]@),
            ));
            i = i + 1;
        }
        assert(s@.subrange(0, s@.len() as int) =~= s@);
        JsonValue::Array(out)
    }

    /// Validates, then renders the JSON document.
    pub fn try_content(&self) -> (r: Result<JsonValue, SandError>)
        ensures
            match (r, spec_loot_validate(self@)) {
                (Ok(j), Ok(())) => view_json(j) == spec_table_json(self@),
                (Err(e), Err(v)) => e@ == v,
                _ => false,
            },
    {
        self.validate()?;
        Ok(self.to_json())
    }
}


/// The constant `n`, as a number provider.
pub open spec fn spec_int_constant(n: i32) -> NumberProvider {
    NumberProvider::Constant(F64Bits { bits: crate::float::spec_bits_of_int(n as int) })
}

/// A count of exactly `min` when both bounds agree, else uniform in `min..=max`.
pub open spec fn spec_count_provider(min: i32, max: i32) -> NumberProvider {
    if min == max {
        spec_int_constant(min)
    } else {
        NumberProvider::Uniform {
            min: F64Bits { bits: crate::float::spec_bits_of_int(min as int) },
            max: F64Bits { bits: crate::float::spec_bits_of_int(max as int) },
        }
    }
}

/// An item entry named `name`, with no weight, quality or conditions, and
/// the given functions.
pub open spec fn spec_plain_item(e: LootEntry, name: Seq<char>, functions: Seq<LootFunction>) -> bool {
    e matches LootEntry::Item { name: n, weight: None, quality: None, functions: f, conditions: c }
        && n@ == name && f@ == functions && c@.len() == 0
}

/// A weighted chest item entry: `name`, `weight`, and a set-count function.
pub open spec fn spec_weighted_item(e: LootEntry, item: (String, i32, i32, i32)) -> bool {
    e matches LootEntry::Item { name: n, weight: w, quality: None, functions: f, conditions: c }
        && n@ == item.0@ && w == Some(item.1) && c@.len() == 0 && f@ == seq![
        LootFunction::SetCount { count: spec_count_provider(item.2, item.3), add: false },
    ]
}

/// The fortune-sensitive entry: one `item` kept with the probability that
/// `chances` gives for the `enchantment` level.
pub open spec fn spec_fortune_item(
    e: LootEntry,
    item: Seq<char>,
    enchantment: Seq<char>,
    chances: Seq<F64Bits>,
) -> bool {
    e matches LootEntry::Item { name: n, weight: None, quality: None, functions: f, conditions: c }
        && n@ == item && f@ == seq![
        LootFunction::SetCount { count: spec_int_constant(1), add: false },
    ] && c@.len() == 1 && (c@[0] matches LootCondition::TableBonus {
        enchantment: en,
        chances: ch,
    } && en@ == enchantment && ch@ == chances)
}

/// A count-based item drop entry.
fn counted_item(name: &str, weight: Option<i32>, count: NumberProvider, extra: Option<LootFunction>) -> (r: LootEntry)
    ensures
        r matches LootEntry::Item { name: n, weight: w, quality: None, functions: f, conditions: c }
            && n@ == name@ && w == weight && c@.len() == 0 && f@ == match extra {
                Some(x) => seq![LootFunction::SetCount { count, add: false }, x],
                None => seq![LootFunction::SetCount { count, add: false }],
            },
{
    let mut functions: Vec<LootFunction> = Vec::new();
    functions.push(LootFunction::SetCount { count, add: false });
    if let Some(x) = extra {
        functions.push(x);
    }
    LootEntry::Item {
        name: owned(name),
        weight,
        quality: None,
        functions,
        conditions: Vec::new(),
    }
}

/// The count provider for `min..=max`.
fn count_provider(min: i32, max: i32) -> (r: NumberProvider)
    ensures
        r == spec_count_provider(min, max),
{
    if min == max {
        NumberProvider::from_i32(min)
    } else {
        NumberProvider::Uniform { min: F64Bits::from_i32(min), max: F64Bits::from_i32(max) }
    }
}

impl LootTable {
    /// A block loot table that drops exactly `count` of `item`, under
    /// `minecraft:survives_explosion` so the drop respects explosions.
    pub fn simple_block_drop(location: ResourceLocation, item: &str, count: i32) -> (r: Self)
        ensures
            r@.location == location@,
            r@.loot_type == Some(LootTableType::Block),
            r@.random_sequence is None,
            r@.functions.len() == 0,
            r@.conditions.len() == 0,
            r@.pools.len() == 1,
            r@.pools[0]@.rolls == spec_int_constant(1),
            r@.pools[0]@.bonus_rolls is None,
            r@.pools[0]@.entries.len() == 1,
            spec_plain_item(
                r@.pools[0]@.entries[0],
                item@,
                seq![LootFunction::SetCount { count: spec_int_constant(count), add: false }],
            ),
            r@.pools[0]@.conditions == seq![LootCondition::SurvivesExplosion],
            r@.pools[0]@.functions.len() == 0,
    {
        let entry = counted_item(item, None, NumberProvider::from_i32(count), None);
        let pool = LootPool::new().rolls(NumberProvider::from_i32(1)).entry(entry).condition(
            LootCondition::SurvivesExplosion,
        );
        let r = LootTable::new(location).loot_type(LootTableType::Block).pool(pool);
        assert(r@.pools[0] == pool);
        r
    }

    /// A block loot table with fortune-sensitive drops: one `item`, kept with
    /// the probability that `chances` gives for the `enchantment` level.
    pub fn fortune_drop(
        location: ResourceLocation,
        item: &str,
        enchantment: &str,
        chances: Vec<F64Bits>,
    ) -> (r: Self)
        ensures
            r@.location == location@,
            r@.loot_type == Some(LootTableType::Block),
            r@.random_sequence is None,
            r@.functions.len() == 0,
            r@.conditions.len() == 0,
            r@.pools.len() == 1,
            r@.pools[0]@.rolls == spec_int_constant(1),
            r@.pools[0]@.bonus_rolls is None,
            r@.pools[0]@.entries.len() == 1,
            spec_fortune_item(r@.pools[0]@.entries[0], item@, enchantment@, chances@),
            r@.pools[0]@.conditions == seq![LootCondition::SurvivesExplosion],
            r@.pools[0]@.functions.len() == 0,
    {
        let mut functions: Vec<LootFunction> = Vec::new();
        functions.push(LootFunction::SetCount { count: NumberProvider::from_i32(1), add: false });
        let mut conditions: Vec<LootCondition> = Vec::new();
        conditions.push(LootCondition::TableBonus { enchantment: owned(enchantment), chances });
        let entry = LootEntry::Item {
            name: owned(item),
            weight: None,
            quality: None,
            functions,
            conditions,
        };
        let pool = LootPool::new().rolls(NumberProvider::from_i32(1)).entry(entry).condition(
            LootCondition::SurvivesExplosion,
        );
        let r = LootTable::new(location).loot_type(LootTableType::Block).pool(pool);
        assert(r@.pools[0] == pool);
        r
    }

    /// An entity loot table that drops `min_count..=max_count` of `item` only
    /// when killed by a player, with an optional looting bonus of up to
    /// `looting_bonus` more.
    pub fn entity_drop(
        location: ResourceLocation,
        item: &str,
        min_count: i32,
        max_count: i32,
        looting_bonus: Option<i32>,
    ) -> (r: Self)
        ensures
            r@.location == location@,
            r@.loot_type == Some(LootTableType::Entity),
            r@.random_sequence is None,
            r@.functions.len() == 0,
            r@.conditions.len() == 0,
            r@.pools.len() == 1,
            r@.pools[0]@.rolls == spec_int_constant(1),
            r@.pools[0]@.bonus_rolls is None,
            r@.pools[0]@.entries.len() == 1,
            spec_plain_item(
                r@.pools[0]@.entries[0],
                item@,
                match looting_bonus {
                    Some(b) => seq![
                        LootFunction::SetCount {
                            count: spec_count_provider(min_count, max_count),
                            add: false,
                        },
                        LootFunction::LootingEnchant {
                            count: NumberProvider::Uniform {
                                min: F64Bits { bits: crate::float::spec_zero_bits() },
                                max: F64Bits { bits: crate::float::spec_bits_of_int(b as int) },
                            },
                            limit: None,
                        },
                    ],
                    None => seq![
                        LootFunction::SetCount {
                            count: spec_count_provider(min_count, max_count),
                            add: false,
                        },
                    ],
                },
            ),
            r@.pools[0]@.conditions == seq![LootCondition::KilledByPlayer],
            r@.pools[0]@.functions.len() == 0,
    {
        let extra = match looting_bonus {
            Some(b) => Some(
                LootFunction::LootingEnchant {
                    count: NumberProvider::Uniform { min: F64Bits::zero(), max: F64Bits::from_i32(b) },
                    limit: None,
                },
            ),
            None => None,
        };
        let entry = counted_item(item, None, count_provider(min_count, max_count), extra);
        let pool = LootPool::new().rolls(NumberProvider::from_i32(1)).entry(entry).condition(
            LootCondition::KilledByPlayer,
        );
        let r = LootTable::new(location).loot_type(LootTableType::Entity).pool(pool);
        assert(r@.pools[0] == pool);
        r
    }

    /// A chest loot table of one roll over weighted item entries, each
    /// `(item, weight, min_count, max_count)`.
    pub fn chest_loot(location: ResourceLocation, items: Vec<(String, i32, i32, i32)>) -> (r: Self)
        ensures
            r@.location == location@,
            r@.loot_type == Some(LootTableType::Chest),
            r@.random_sequence is None,
            r@.functions.len() == 0,
            r@.conditions.len() == 0,
            r@.pools.len() == 1,
            r@.pools[0]@.rolls == spec_int_constant(1),
            r@.pools[0]@.bonus_rolls is None,
            r@.pools[0]@.conditions.len() == 0,
            r@.pools[0]@.functions.len() == 0,
            r@.pools[0]@.entries.len() == items@.len(),
            forall|i: int|
                0 <= i < items@.len() ==> spec_weighted_item(
                    #[trigger] r@.pools[0]@.entries[i],
                    items@[i],
                ),
    {
        let mut pool = LootPool::new().rolls(NumberProvider::from_i32(1));
        let mut i: usize = 0;
        while i < items.len()
            invariant
                i <= items.len(),
                pool@.rolls == spec_int_constant(1),
                pool@.bonus_rolls is None,
                pool@.conditions.len() == 0,
                pool@.functions.len() == 0,
                pool@.entries.len() == i,
                forall|j: int|
                    0 <= j < i ==> spec_weighted_item(#[trigger] pool@.entries[j], items@[j]),
            decreases items.len() - i,
        {
            let (name, weight, min_count, max_count) = (
                items[i].0.as_str(),
                items[i].1,
                items[i].2,
                items[i].3,
            );
            let entry = counted_item(name, Some(weight), count_provider(min_count, max_count), None);
            pool = pool.entry(entry);
            i = i + 1;
        }
        let r = LootTable::new(location).loot_type(LootTableType::Chest).pool(pool);
        assert(r@.pools[0] == pool);
        r
    }
}

} // verus!

verus! {

/// The name written for a built-in loot table type, after `minecraft:`.
pub open spec fn spec_type_name(t: LootTableType) -> Seq<char> {
    match t {
        LootTableType::Empty => "empty"@,
        LootTableType::Entity => "entity"@,
        LootTableType::Block => "block"@,
        LootTableType::Chest => "chest"@,
        LootTableType::Equipment => "equipment"@,
        LootTableType::Fishing => "fishing"@,
        LootTableType::Gift => "gift"@,
        LootTableType::VaultReward => "vault_reward"@,
        LootTableType::Shearing => "shearing"@,
        LootTableType::Archaeology => "archaeology"@,
        LootTableType::Generic => "generic"@,
        LootTableType::Barter => "barter"@,
        LootTableType::Command => "command"@,
        LootTableType::Selector => "selector"@,
        LootTableType::AdvancementReward => "advancement_reward"@,
        LootTableType::AdvancementEntity => "advancement_entity"@,
        LootTableType::Custom(s) => s@,
    }
}

/// Every built-in loot table type is written as the valid resource location
/// `minecraft:<name>`, distinct built-in types are written differently, and
/// a custom type is written as given.
pub proof fn law_type_str(t: LootTableType, u: LootTableType)
    ensures
        !(t is Custom) ==> spec_type_str(t) == "minecraft:"@ + spec_type_name(t),
        !(t is Custom) ==> crate::resource_location::spec_parse_location(spec_type_str(t))
            == Ok::<ResourceLocationView, SandErrorView>(
            ResourceLocationView { namespace: "minecraft"@, path: spec_type_name(t) },
        ),
        !(t is Custom) && !(u is Custom) && t != u ==> spec_type_str(t) != spec_type_str(u),
        t matches LootTableType::Custom(s) ==> spec_type_str(t) == s@,
{
    if !(t is Custom) {
        lemma_type_name(t);
    }
    if !(u is Custom) {
        lemma_type_name(u);
    }
    if !(t is Custom) && !(u is Custom) && t != u {
        let a = spec_type_name(t);
        let b = spec_type_name(u);
        if spec_type_str(t) == spec_type_str(u) {
            reveal_strlit("minecraft:");
            assert(a =~= spec_type_str(t).subrange(10, spec_type_str(t).len() as int));
            assert(b =~= spec_type_str(u).subrange(10, spec_type_str(u).len() as int));
            lemma_type_name_injective(t, u);
        }
    }
}

/// The written form of a built-in type, character by character.
proof fn lemma_type_name(t: LootTableType)
    requires
        !(t is Custom),
    ensures
        spec_type_str(t) == "minecraft:"@ + spec_type_name(t),
        crate::resource_location::spec_parse_location(spec_type_str(t)) == Ok::<
            ResourceLocationView,
            SandErrorView,
        >(ResourceLocationView { namespace: "minecraft"@, path: spec_type_name(t) }),
{
    reveal_strlit("minecraft:");
    reveal_strlit("minecraft");
    reveal_strlit("minecraft:empty");
    reveal_strlit("empty");
    reveal_strlit("minecraft:entity");
    reveal_strlit("entity");
    reveal_strlit("minecraft:block");
    reveal_strlit("block");
    reveal_strlit("minecraft:chest");
    reveal_strlit("chest");
    reveal_strlit("minecraft:equipment");
    reveal_strlit("equipment");
    reveal_strlit("minecraft:fishing");
    reveal_strlit("fishing");
    reveal_strlit("minecraft:gift");
    reveal_strlit("gift");
    reveal_strlit("minecraft:vault_reward");
    reveal_strlit("vault_reward");
    reveal_strlit("minecraft:shearing");
    reveal_strlit("shearing");
    reveal_strlit("minecraft:archaeology");
    reveal_strlit("archaeology");
    reveal_strlit("minecraft:generic");
    reveal_strlit("generic");
    reveal_strlit("minecraft:barter");
    reveal_strlit("barter");
    reveal_strlit("minecraft:command");
    reveal_strlit("command");
    reveal_strlit("minecraft:selector");
    reveal_strlit("selector");
    reveal_strlit("minecraft:advancement_reward");
    reveal_strlit("advancement_reward");
    reveal_strlit("minecraft:advancement_entity");
    reveal_strlit("advancement_entity");
    assert(spec_type_str(t) =~= "minecraft:"@ + spec_type_name(t));
    let v = ResourceLocationView { namespace: "minecraft"@, path: spec_type_name(t) };
    assert(v.valid());
    assert(v.text() =~= spec_type_str(t));
    crate::resource_location::law_parse_text_roundtrip(v);
}

/// Distinct built-in types have distinct names.
proof fn lemma_type_name_injective(t: LootTableType, u: LootTableType)
    requires
        !(t is Custom),
        !(u is Custom),
        spec_type_name(t) == spec_type_name(u),
    ensures
        t == u,
{
    reveal_strlit("empty");
    reveal_strlit("entity");
    reveal_strlit("block");
    reveal_strlit("chest");
    reveal_strlit("equipment");
    reveal_strlit("fishing");
    reveal_strlit("gift");
    reveal_strlit("vault_reward");
    reveal_strlit("shearing");
    reveal_strlit("archaeology");
    reveal_strlit("generic");
    reveal_strlit("barter");
    reveal_strlit("command");
    reveal_strlit("selector");
    reveal_strlit("advancement_reward");
    reveal_strlit("advancement_entity");
    let a = spec_type_name(t);
    let b = spec_type_name(u);
    assert(a.len() == b.len());
    assert(a[0] == b[0]);
    assert(a[1] == b[1]);
    assert(a[2] == b[2]);
    assert(a.len() > 12 ==> a[12] == b[12]);
}

} // verus!
