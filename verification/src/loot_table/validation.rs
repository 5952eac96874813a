//! Export validation of loot tables.
//!
//! Every check names the first offending field by its full path (for example
//! `pools[0].entries[1].conditions[0].chance`); checks run in a fixed order
//! and the first failure is reported.

use vstd::prelude::*;

use super::{
    EnchantmentSelector, LootCondition, LootEntry, LootFunction, LootPool, LootPoolView, LootTable,
    LootTableType, LootTableView, NumberProvider, spec_selector_text,
};
use crate::error::{SandError, SandErrorView, spec_error_message};
use crate::float::{F64Bits, spec_is_finite, spec_le, spec_lt, spec_one_bits, spec_zero_bits};
use crate::json::{Json, JsonValue, view_json};
use crate::registry::{spec_strip_hash, strip_hash};
use crate::resource_location::{ResourceLocation, spec_parse_location};
use crate::text::{concat3, field, indexed, owned, spec_field, spec_indexed, str_eq};

verus! {

/// The abstract value of a [`ValidationFailure`].
pub struct FailureView {
    pub path: Seq<char>,
    pub message: Seq<char>,
}

/// A validation failure: the offending field's path and what is wrong.
#[derive(Debug, PartialEq, Eq)]
pub struct ValidationFailure {
    pub path: String,
    pub message: String,
}

impl View for ValidationFailure {
    type V = FailureView;

    open spec fn view(&self) -> FailureView {
        FailureView { path: self.path@, message: self.message@ }
    }
}

/// The first failure of a check result, if any.
pub open spec fn view_check(r: Result<(), ValidationFailure>) -> Option<FailureView> {
    match r {
        Ok(()) => None,
        Err(f) => Some(f@),
    }
}

/// A failure at `path`.
pub open spec fn spec_fail(path: Seq<char>, message: Seq<char>) -> Option<FailureView> {
    Some(FailureView { path, message })
}

/// The first of two checks run in order.
pub open spec fn spec_first(a: Option<FailureView>, b: Option<FailureView>) -> Option<
    FailureView,
> {
    if a is Some {
        a
    } else {
        b
    }
}

/// The number must be finite.
pub open spec fn spec_finite(bits: u64, path: Seq<char>) -> Option<FailureView> {
    if spec_is_finite(bits) {
        None
    } else {
        spec_fail(path, "number must be finite"@)
    }
}

/// The number must be a finite probability in `0.0..=1.0`.
pub open spec fn spec_probability(bits: u64, path: Seq<char>) -> Option<FailureView> {
    spec_first(
        spec_finite(bits, path),
        if spec_le(spec_zero_bits(), bits) && spec_le(bits, spec_one_bits()) {
            None
        } else {
            spec_fail(path, "probability must be between 0.0 and 1.0"@)
        },
    )
}

/// The value, without one leading `#`, must parse as a resource location.
pub open spec fn spec_resource_id(value: Seq<char>, path: Seq<char>) -> Option<FailureView> {
    match spec_parse_location(spec_strip_hash(value)) {
        Ok(_) => None,
        Err(e) => spec_fail(
            path,
            "invalid resource location `"@ + value + "`: "@ + spec_error_message(e),
        ),
    }
}

/// Whether an object's entries name `key`.
pub open spec fn spec_has_key(entries: Seq<(Seq<char>, Json)>, key: Seq<char>) -> bool {
    exists|i: int| 0 <= i < entries.len() && (#[trigger] entries[i]).0 == key
}

/// Custom raw data must be an object that does not redefine `reserved`.
pub open spec fn spec_raw_object(value: Json, path: Seq<char>, reserved: Seq<char>) -> Option<
    FailureView,
> {
    match value {
        Json::Object(entries) => if spec_has_key(entries, reserved) {
            spec_fail(
                path,
                "custom raw data must not redefine reserved `"@ + reserved + "` field"@,
            )
        } else {
            None
        },
        _ => spec_fail(
            path,
            "custom raw data must be a JSON object because its fields are merged into the wrapper"@,
        ),
    }
}

/// The least value a number provider can take, when it is known.
pub open spec fn spec_known_minimum(n: NumberProvider) -> Option<u64> {
    match n {
        NumberProvider::Constant(v) => Some(v.bits),
        NumberProvider::Uniform { min, .. } => Some(min.bits),
        NumberProvider::Binomial { .. } => Some(spec_zero_bits()),
        NumberProvider::Score { .. } => None,
    }
}

/// The first failure of a number provider.
///
/// The message for a uniform range whose minimum exceeds its maximum does not
/// quote the two bounds: the library carries floats as bit patterns and does
/// not render them as decimal text.
pub open spec fn spec_number_failure(n: NumberProvider, path: Seq<char>) -> Option<FailureView> {
    match n {
        NumberProvider::Constant(v) => spec_finite(v.bits, path),
        NumberProvider::Uniform { min, max } => spec_first(
            spec_finite(min.bits, spec_field(path, "min"@)),
            spec_first(
                spec_finite(max.bits, spec_field(path, "max"@)),
                if spec_lt(max.bits, min.bits) {
                    spec_fail(path, "uniform minimum must not exceed maximum"@)
                } else {
                    None
                },
            ),
        ),
        NumberProvider::Binomial { n, p } => if n < 0 {
            spec_fail(spec_field(path, "n"@), "binomial trial count must be non-negative"@)
        } else {
            spec_probability(p.bits, spec_field(path, "p"@))
        },
        NumberProvider::Score { score, scale, .. } => if score@.len() == 0 {
            spec_fail(spec_field(path, "score"@), "score objective must not be empty"@)
        } else {
            match scale {
                Some(s) => spec_finite(s.bits, spec_field(path, "scale"@)),
                None => None,
            }
        },
    }
}

/// The first failure among probabilities `s`, indexed from `offset` under `prefix`.
pub open spec fn spec_chances_failure(s: Seq<F64Bits>, prefix: Seq<char>, offset: nat) -> Option<
    FailureView,
>
    decreases s.len(),
{
    if s.len() == 0 {
        None
    } else {
        spec_first(
            spec_probability(s[0].bits, spec_indexed(prefix, offset)),
            spec_chances_failure(s.drop_first(), prefix, offset + 1),
        )
    }
}

/// The first invalid resource ID among `s`, indexed from `offset` under `prefix`.
pub open spec fn spec_ids_failure(s: Seq<Seq<char>>, prefix: Seq<char>, offset: nat) -> Option<
    FailureView,
>
    decreases s.len(),
{
    if s.len() == 0 {
        None
    } else {
        spec_first(
            spec_resource_id(s[0], spec_indexed(prefix, offset)),
            spec_ids_failure(s.drop_first(), prefix, offset + 1),
        )
    }
}

/// The first failure of a condition.
pub open spec fn spec_condition_failure(c: LootCondition, path: Seq<char>) -> Option<FailureView>
    decreases c,
{
    match c {
        LootCondition::AllOf { terms } => if terms@.len() == 0 {
            spec_fail(spec_field(path, "terms"@), "terms must not be empty"@)
        } else {
            spec_conditions_failure(terms@, spec_field(path, "terms"@), 0)
        },
        LootCondition::AnyOf { terms } => if terms@.len() == 0 {
            spec_fail(spec_field(path, "terms"@), "terms must not be empty"@)
        } else {
            spec_conditions_failure(terms@, spec_field(path, "terms"@), 0)
        },
        LootCondition::Inverted { term } => spec_condition_failure(*term, spec_field(path, "term"@)),
        LootCondition::RandomChance { chance } => spec_probability(
            chance.bits,
            spec_field(path, "chance"@),
        ),
        LootCondition::TableBonus { enchantment, chances } => spec_first(
            spec_resource_id(enchantment@, spec_field(path, "enchantment"@)),
            if chances@.len() == 0 {
                spec_fail(spec_field(path, "chances"@), "chance list must not be empty"@)
            } else {
                spec_chances_failure(chances@, spec_field(path, "chances"@), 0)
            },
        ),
        LootCondition::BlockStateProperty { block, .. } => spec_resource_id(
            block@,
            spec_field(path, "block"@),
        ),
        LootCondition::EntityScores { scores, .. } => if scores@.len() == 0 {
            spec_fail(spec_field(path, "scores"@), "entity score map must not be empty"@)
        } else {
            None
        },
        LootCondition::WeatherCheck { raining, thundering } => if raining is None
            && thundering is None {
            spec_fail(path, "weather check must specify raining or thundering"@)
        } else {
            None
        },
        LootCondition::Reference { name } => spec_resource_id(name@, spec_field(path, "name"@)),
        LootCondition::Custom { condition, data } => spec_first(
            spec_resource_id(condition@, spec_field(path, "condition"@)),
            spec_raw_object(data.view(), spec_field(path, "data"@), "condition"@),
        ),
        _ => None,
    }
}

/// The first failure among conditions `s`, indexed from `offset` under `prefix`.
pub open spec fn spec_conditions_failure(
    s: Seq<LootCondition>,
    prefix: Seq<char>,
    offset: nat,
) -> Option<FailureView>
    decreases s,
{
    if s.len() == 0 {
        None
    } else {
        spec_first(
            spec_condition_failure(s[0], spec_indexed(prefix, offset)),
            spec_conditions_failure(s.drop_first(), prefix, offset + 1),
        )
    }
}

/// The first failure of a function.
pub open spec fn spec_function_failure(f: LootFunction, path: Seq<char>) -> Option<FailureView> {
    match f {
        LootFunction::SetCount { count, add } => spec_first(
            spec_number_failure(count, spec_field(path, "count"@)),
            if !add && (spec_known_minimum(count) matches Some(m) && spec_le(m, spec_zero_bits())) {
                spec_fail(
                    spec_field(path, "count"@),
                    "non-additive item count must be greater than zero"@,
                )
            } else {
                None
            },
        ),
        LootFunction::SetDamage { damage, .. } => spec_number_failure(
            damage,
            spec_field(path, "damage"@),
        ),
        LootFunction::EnchantWithLevels { levels, options } => spec_first(
            spec_number_failure(levels, spec_field(path, "levels"@)),
            match options {
                Some(o) => spec_resource_id(spec_selector_text(o), spec_field(path, "options"@)),
                None => None,
            },
        ),
        LootFunction::EnchantRandomly { options, .. } => match options {
            Some(opts) => if opts@.len() == 0 {
                spec_fail(
                    spec_field(path, "options"@),
                    "enchantment options must not be empty when present"@,
                )
            } else {
                spec_ids_failure(
                    opts@.map_values(|o: EnchantmentSelector| spec_selector_text(o)),
                    spec_field(path, "options"@),
                    0,
                )
            },
            None => None,
        },
        LootFunction::LootingEnchant { count, .. } => spec_number_failure(
            count,
            spec_field(path, "count"@),
        ),
        LootFunction::CopyComponents { included, excluded, .. } => spec_first(
            spec_ids_failure(
                included@.map_values(|s: String| s@),
                spec_field(path, "include"@),
                0,
            ),
            spec_ids_failure(
                excluded@.map_values(|s: String| s@),
                spec_field(path, "exclude"@),
                0,
            ),
        ),
        LootFunction::Reference { name } => spec_resource_id(name@, spec_field(path, "name"@)),
        LootFunction::Custom { function, data } => spec_first(
            spec_resource_id(function@, spec_field(path, "function"@)),
            spec_raw_object(data.view(), spec_field(path, "data"@), "function"@),
        ),
        _ => None,
    }
}

/// The first failure among functions `s`, indexed from `offset` under `prefix`.
pub open spec fn spec_functions_failure(
    s: Seq<LootFunction>,
    prefix: Seq<char>,
    offset: nat,
) -> Option<FailureView>
    decreases s.len(),
{
    if s.len() == 0 {
        None
    } else {
        spec_first(
            spec_function_failure(s[0], spec_indexed(prefix, offset)),
            spec_functions_failure(s.drop_first(), prefix, offset + 1),
        )
    }
}

/// The checks shared by every entry: weight, functions, then conditions.
pub open spec fn spec_entry_tail(
    path: Seq<char>,
    weight: Option<i32>,
    functions: Option<Seq<LootFunction>>,
    conditions: Seq<LootCondition>,
) -> Option<FailureView> {
    spec_first(
        if weight matches Some(w) && w <= 0 {
            spec_fail(spec_field(path, "weight"@), "entry weight must be greater than zero"@)
        } else {
            None
        },
        spec_first(
            match functions {
                Some(fs) => spec_functions_failure(fs, spec_field(path, "functions"@), 0),
                None => None,
            },
            spec_conditions_failure(conditions, spec_field(path, "conditions"@), 0),
        ),
    )
}

/// The checks of a group, alternatives or sequence entry.
pub open spec fn spec_composite_failure(
    children: Seq<LootEntry>,
    conditions: Seq<LootCondition>,
    path: Seq<char>,
) -> Option<FailureView>
    decreases children, 1int,
{
    if children.len() == 0 {
        spec_fail(spec_field(path, "children"@), "entry children must not be empty"@)
    } else {
        spec_first(
            spec_entries_failure(children, spec_field(path, "children"@), 0),
            spec_entry_tail(path, None, None, conditions),
        )
    }
}

/// The first failure of an entry.
pub open spec fn spec_entry_failure(e: LootEntry, path: Seq<char>) -> Option<FailureView>
    decreases e, 0int,
{
    match e {
        LootEntry::Item { name, weight, functions, conditions, .. } => spec_first(
            spec_resource_id(name@, spec_field(path, "name"@)),
            spec_entry_tail(path, weight, Some(functions@), conditions@),
        ),
        LootEntry::Tag { name, weight, conditions, .. } => spec_first(
            spec_resource_id(name@, spec_field(path, "name"@)),
            spec_entry_tail(path, weight, None, conditions@),
        ),
        LootEntry::LootTable { value, weight, conditions, .. } => spec_first(
            spec_resource_id(value@, spec_field(path, "value"@)),
            spec_entry_tail(path, weight, None, conditions@),
        ),
        LootEntry::Dynamic { name, conditions } => spec_first(
            spec_resource_id(name@, spec_field(path, "name"@)),
            spec_entry_tail(path, None, None, conditions@),
        ),
        LootEntry::Empty { weight, conditions, .. } => spec_entry_tail(
            path,
            weight,
            None,
            conditions@,
        ),
        LootEntry::Group { children, conditions } => spec_composite_failure(
            children@,
            conditions@,
            path,
        ),
        LootEntry::Alternatives { children, conditions } => spec_composite_failure(
            children@,
            conditions@,
            path,
        ),
        LootEntry::Sequence { children, conditions } => spec_composite_failure(
            children@,
            conditions@,
            path,
        ),
    }
}

/// The first failure among entries `s`, indexed from `offset` under `prefix`.
pub open spec fn spec_entries_failure(s: Seq<LootEntry>, prefix: Seq<char>, offset: nat) -> Option<
    FailureView,
>
    decreases s, 0int,
{
    if s.len() == 0 {
        None
    } else {
        spec_first(
            spec_entry_failure(s[0], spec_indexed(prefix, offset)),
            spec_entries_failure(s.drop_first(), prefix, offset + 1),
        )
    }
}

/// Loot pool rolls (or bonus rolls) must be valid and not known to be negative.
pub open spec fn spec_rolls_failure(n: NumberProvider, path: Seq<char>, message: Seq<char>) -> Option<
    FailureView,
> {
    spec_first(
        spec_number_failure(n, path),
        if spec_known_minimum(n) matches Some(m) && spec_lt(m, spec_zero_bits()) {
            spec_fail(path, message)
        } else {
            None
        },
    )
}

/// The first failure of a pool.
pub open spec fn spec_pool_failure(p: LootPoolView, path: Seq<char>) -> Option<FailureView> {
    if p.entries.len() == 0 {
        spec_fail(spec_field(path, "entries"@), "loot pool must contain at least one entry"@)
    } else {
        spec_first(
            spec_rolls_failure(
                p.rolls,
                spec_field(path, "rolls"@),
                "loot pool rolls must not be negative"@,
            ),
            spec_first(
                match p.bonus_rolls {
                    Some(b) => spec_rolls_failure(
                        b,
                        spec_field(path, "bonus_rolls"@),
                        "loot pool bonus rolls must not be negative"@,
                    ),
                    None => None,
                },
                spec_first(
                    spec_conditions_failure(p.conditions, spec_field(path, "conditions"@), 0),
                    spec_first(
                        spec_functions_failure(p.functions, spec_field(path, "functions"@), 0),
                        spec_entries_failure(p.entries, spec_field(path, "entries"@), 0),
                    ),
                ),
            ),
        )
    }
}

/// The first failure among pools `s`, indexed from `offset` under `prefix`.
pub open spec fn spec_pools_failure(s: Seq<LootPool>, prefix: Seq<char>, offset: nat) -> Option<
    FailureView,
>
    decreases s.len(),
{
    if s.len() == 0 {
        None
    } else {
        spec_first(
            spec_pool_failure(s[0]@, spec_indexed(prefix, offset)),
            spec_pools_failure(s.drop_first(), prefix, offset + 1),
        )
    }
}

/// The first failure of a loot table: content must exist (or the type be
/// explicitly `Empty`), then the custom type, random sequence, conditions,
/// functions and pools are checked in that order.
pub open spec fn spec_table_failure(t: LootTableView) -> Option<FailureView> {
    if t.pools.len() == 0 && t.functions.len() == 0 && t.conditions.len() == 0 && !(t.loot_type
        matches Some(LootTableType::Empty)) {
        spec_fail(
            "pools"@,
            "loot table must contain content or explicitly use LootTableType::Empty"@,
        )
    } else {
        spec_first(
            match t.loot_type {
                Some(LootTableType::Custom(k)) => spec_resource_id(k@, "type"@),
                _ => None,
            },
            spec_first(
                match t.random_sequence {
                    Some(s) => spec_resource_id(s, "random_sequence"@),
                    None => None,
                },
                spec_first(
                    spec_conditions_failure(t.conditions, "conditions"@, 0),
                    spec_first(
                        spec_functions_failure(t.functions, "functions"@, 0),
                        spec_pools_failure(t.pools, "pools"@, 0),
                    ),
                ),
            ),
        )
    }
}

/// A failure at `path`.
pub fn fail(path: &str, message: &str) -> (r: ValidationFailure)
    ensures
        r@ == (FailureView { path: path@, message: message@ }),
{
    ValidationFailure { path: owned(path), message: owned(message) }
}

/// The number must be finite.
pub fn finite(value: F64Bits, path: &str) -> (r: Result<(), ValidationFailure>)
    ensures
        view_check(r) == spec_finite(value.bits, path@),
{
    if value.is_finite() {
        Ok(())
    } else {
        Err(fail(path, "number must be finite"))
    }
}

/// The number must be a finite probability in `0.0..=1.0`.
pub fn probability(value: F64Bits, path: &str) -> (r: Result<(), ValidationFailure>)
    ensures
        view_check(r) == spec_probability(value.bits, path@),
{
    finite(value, path)?;
    if F64Bits::zero().le(&value) && value.le(&F64Bits::one()) {
        Ok(())
    } else {
        Err(fail(path, "probability must be between 0.0 and 1.0"))
    }
}

/// The value, without one leading `#`, must parse as a resource location.
pub fn resource_id(value: &str, path: &str) -> (r: Result<(), ValidationFailure>)
    ensures
        view_check(r) == spec_resource_id(value@, path@),
{
    match ResourceLocation::parse(strip_hash(value)) {
        Ok(_) => Ok(()),
        Err(e) => {
            let mut m = concat3("invalid resource location `", value, "`: ");
            let em = e.to_string();
            m.append(em.as_str());
            Err(ValidationFailure { path: owned(path), message: m })
        },
    }
}

/// Custom raw data must be a JSON object that does not redefine `reserved`.
pub fn raw_object(value: &JsonValue, path: &str, reserved: &str) -> (r: Result<
    (),
    ValidationFailure,
>)
    ensures
        view_check(r) == spec_raw_object(view_json(*value), path@, reserved@),
{
    match value {
        JsonValue::Object(entries) => {
            proof {
                crate::json::lemma_view_entries_len(entries@);
            }
            let mut i: usize = 0;
            while i < entries.len()
                invariant
                    i <= entries.len(),
                    view_json(*value) == Json::Object(crate::json::view_entries(entries@)),
                    crate::json::view_entries(entries@).len() == entries@.len(),
                    forall|j: int|
                        0 <= j < i ==> (#[trigger] crate::json::view_entries(entries@)[j]).0
                            != reserved@,
                decreases entries.len() - i,
            {
                proof {
                    crate::json::lemma_view_entries_index(entries@, i as int);
                }
                if str_eq(entries[i].0.as_str(), reserved) {
                    assert(crate::json::view_entries(entries@)[i as int].0 == reserved@);
                    assert(spec_has_key(crate::json::view_entries(entries@), reserved@));
                    let m = concat3("custom raw data must not redefine reserved `", reserved, "` field");
                    return Err(ValidationFailure { path: owned(path), message: m });
                }
                i = i + 1;
            }
            Ok(())
        },
        _ => Err(
            fail(
                path,
                "custom raw data must be a JSON object because its fields are merged into the wrapper",
            ),
        ),
    }
}

impl NumberProvider {
    /// The least value this provider can take, when it is known.
    pub fn known_minimum(&self) -> (r: Option<F64Bits>)
        ensures
            match (r, spec_known_minimum(*self)) {
                (Some(v), Some(b)) => v.bits == b,
                (None, None) => true,
                _ => false,
            },
    {
        match self {
            NumberProvider::Constant(v) => Some(*v),
            NumberProvider::Uniform { min, .. } => Some(*min),
            NumberProvider::Binomial { .. } => Some(F64Bits::zero()),
            NumberProvider::Score { .. } => None,
        }
    }

    /// Validates the provider's numbers at `path`.
    pub fn validate_at(&self, path: &str) -> (r: Result<(), ValidationFailure>)
        ensures
            view_check(r) == spec_number_failure(*self, path@),
    {
        match self {
            NumberProvider::Constant(v) => finite(*v, path),
            NumberProvider::Uniform { min, max } => {
                finite(*min, field(path, "min").as_str())?;
                finite(*max, field(path, "max").as_str())?;
                if max.lt(min) {
                    return Err(fail(path, "uniform minimum must not exceed maximum"));
                }
                Ok(())
            },
            NumberProvider::Binomial { n, p } => {
                if *n < 0 {
                    return Err(
                        fail(field(path, "n").as_str(), "binomial trial count must be non-negative"),
                    );
                }
                probability(*p, field(path, "p").as_str())
            },
            NumberProvider::Score { score, scale, .. } => {
                if score.unicode_len() == 0 {
                    return Err(
                        fail(field(path, "score").as_str(), "score objective must not be empty"),
                    );
                }
                if let Some(s) = scale {
                    finite(*s, field(path, "scale").as_str())?;
                }
                Ok(())
            },
        }
    }
}


/// Validates each probability of `s` at `prefix[i]`, in order.
pub fn chances_at(s: &Vec<F64Bits>, prefix: &str) -> (r: Result<(), ValidationFailure>)
    ensures
        view_check(r) == spec_chances_failure(s@, prefix@, 0),
{
    let mut i: usize = 0;
    assert(s@.subrange(0, s@.len() as int) =~= s@);
    while i < s.len()
        invariant
            i <= s.len(),
            spec_chances_failure(s@, prefix@, 0) == spec_chances_failure(
                s@.subrange(i as int, s@.len() as int),
                prefix@,
                i as nat,
            ),
        decreases s.len() - i,
    {
        let ghost rest = s@.subrange(i as int, s@.len() as int);
        assert(rest[0] == s@[i as int]);
        assert(rest.drop_first() =~= s@.subrange(i + 1, s@.len() as int));
        probability(s[i], indexed(prefix, i).as_str())?;
        i = i + 1;
    }
    Ok(())
}

/// Validates each resource ID of `s` at `prefix[i]`, in order.
pub fn ids_at(s: &Vec<String>, prefix: &str) -> (r: Result<(), ValidationFailure>)
    ensures
        view_check(r) == spec_ids_failure(s@.map_values(|x: String| x@), prefix@, 0),
{
    let ghost m = s@.map_values(|x: String| x@);
    let mut i: usize = 0;
    assert(m.subrange(0, m.len() as int) =~= m);
    while i < s.len()
        invariant
            i <= s.len(),
            m == s@.map_values(|x: String| x@),
            spec_ids_failure(m, prefix@, 0) == spec_ids_failure(
                m.subrange(i as int, m.len() as int),
                prefix@,
                i as nat,
            ),
        decreases s.len() - i,
    {
        let ghost rest = m.subrange(i as int, m.len() as int);
        assert(rest[0] == s@[i as int]@);
        assert(rest.drop_first() =~= m.subrange(i + 1, m.len() as int));
        resource_id(s[i].as_str(), indexed(prefix, i).as_str())?;
        i = i + 1;
    }
    Ok(())
}

/// Validates each enchantment selector of `s` at `prefix[i]`, in order.
pub fn selectors_at(s: &Vec<EnchantmentSelector>, prefix: &str) -> (r: Result<
    (),
    ValidationFailure,
>)
    ensures
        view_check(r) == spec_ids_failure(
            s@.map_values(|o: EnchantmentSelector| spec_selector_text(o)),
            prefix@,
            0,
        ),
{
    let ghost m = s@.map_values(|o: EnchantmentSelector| spec_selector_text(o));
    let mut i: usize = 0;
    assert(m.subrange(0, m.len() as int) =~= m);
    while i < s.len()
        invariant
            i <= s.len(),
            m == s@.map_values(|o: EnchantmentSelector| spec_selector_text(o)),
            spec_ids_failure(m, prefix@, 0) == spec_ids_failure(
                m.subrange(i as int, m.len() as int),
                prefix@,
                i as nat,
            ),
        decreases s.len() - i,
    {
        let ghost rest = m.subrange(i as int, m.len() as int);
        assert(rest[0] == spec_selector_text(s@[i as int]));
        assert(rest.drop_first() =~= m.subrange(i + 1, m.len() as int));
        let text = s[i].to_string();
        resource_id(text.as_str(), indexed(prefix, i).as_str())?;
        i = i + 1;
    }
    Ok(())
}

impl LootCondition {
    /// Validates this condition, naming offending fields under `path`.
    pub fn validate_at(&self, path: &str) -> (r: Result<(), ValidationFailure>)
        ensures
            view_check(r) == spec_condition_failure(*self, path@),
        decreases self,
    {
        match self {
            LootCondition::AllOf { terms } => {
                let p = field(path, "terms");
                if terms.len() == 0 {
                    return Err(fail(p.as_str(), "terms must not be empty"));
                }
                conditions_at(terms, p.as_str())
            },
            LootCondition::AnyOf { terms } => {
                let p = field(path, "terms");
                if terms.len() == 0 {
                    return Err(fail(p.as_str(), "terms must not be empty"));
                }
                conditions_at(terms, p.as_str())
            },
            LootCondition::Inverted { term } => term.validate_at(field(path, "term").as_str()),
            LootCondition::RandomChance { chance } => probability(
                *chance,
                field(path, "chance").as_str(),
            ),
            LootCondition::TableBonus { enchantment, chances } => {
                resource_id(enchantment.as_str(), field(path, "enchantment").as_str())?;
                let p = field(path, "chances");
                if chances.len() == 0 {
                    return Err(fail(p.as_str(), "chance list must not be empty"));
                }
                chances_at(chances, p.as_str())
            },
            LootCondition::BlockStateProperty { block, .. } => resource_id(
                block.as_str(),
                field(path, "block").as_str(),
            ),
            LootCondition::EntityScores { scores, .. } => {
                if scores.len() == 0 {
                    return Err(
                        fail(field(path, "scores").as_str(), "entity score map must not be empty"),
                    );
                }
                Ok(())
            },
            LootCondition::WeatherCheck { raining, thundering } => {
                if raining.is_none() && thundering.is_none() {
                    return Err(fail(path, "weather check must specify raining or thundering"));
                }
                Ok(())
            },
            LootCondition::Reference { name } => resource_id(
                name.as_str(),
                field(path, "name").as_str(),
            ),
            LootCondition::Custom { condition, data } => {
                resource_id(condition.as_str(), field(path, "condition").as_str())?;
                raw_object(data.as_value(), field(path, "data").as_str(), "condition")
            },
            _ => Ok(()),
        }
    }
}

/// Validates each condition of `s` at `prefix[i]`, in order.
pub fn conditions_at(s: &Vec<LootCondition>, prefix: &str) -> (r: Result<(), ValidationFailure>)
    ensures
        view_check(r) == spec_conditions_failure(s@, prefix@, 0),
    decreases s,
{
    let mut i: usize = 0;
    assert(s@.subrange(0, s@.len() as int) =~= s@);
    while i < s.len()
        invariant
            i <= s.len(),
            spec_conditions_failure(s@, prefix@, 0) == spec_conditions_failure(
                s@.subrange(i as int, s@.len() as int),
                prefix@,
                i as nat,
            ),
        decreases s.len() - i,
    {
        let ghost rest = s@.subrange(i as int, s@.len() as int);
        assert(rest[0] == s@[i as int]);
        assert(rest.drop_first() =~= s@.subrange(i + 1, s@.len() as int));
        assert(decreases_to!(s => s@[i as int]));
        s[i].validate_at(indexed(prefix, i).as_str())?;
        i = i + 1;
    }
    Ok(())
}

impl LootFunction {
    /// Validates this function, naming offending fields under `path`.
    pub fn validate_at(&self, path: &str) -> (r: Result<(), ValidationFailure>)
        ensures
            view_check(r) == spec_function_failure(*self, path@),
    {
        match self {
            LootFunction::SetCount { count, add } => {
                let p = field(path, "count");
                count.validate_at(p.as_str())?;
                if !*add {
                    if let Some(m) = count.known_minimum() {
                        if m.le(&F64Bits::zero()) {
                            return Err(
                                fail(p.as_str(), "non-additive item count must be greater than zero"),
                            );
                        }
                    }
                }
                Ok(())
            },
            LootFunction::SetDamage { damage, .. } => damage.validate_at(
                field(path, "damage").as_str(),
            ),
            LootFunction::EnchantWithLevels { levels, options } => {
                levels.validate_at(field(path, "levels").as_str())?;
                if let Some(o) = options {
                    let text = o.to_string();
                    resource_id(text.as_str(), field(path, "options").as_str())?;
                }
                Ok(())
            },
            LootFunction::EnchantRandomly { options, .. } => {
                if let Some(opts) = options {
                    let p = field(path, "options");
                    if opts.len() == 0 {
                        return Err(
                            fail(p.as_str(), "enchantment options must not be empty when present"),
                        );
                    }
                    return selectors_at(opts, p.as_str());
                }
                Ok(())
            },
            LootFunction::LootingEnchant { count, .. } => count.validate_at(
                field(path, "count").as_str(),
            ),
            LootFunction::CopyComponents { included, excluded, .. } => {
                ids_at(included, field(path, "include").as_str())?;
                ids_at(excluded, field(path, "exclude").as_str())
            },
            LootFunction::Reference { name } => resource_id(
                name.as_str(),
                field(path, "name").as_str(),
            ),
            LootFunction::Custom { function, data } => {
                resource_id(function.as_str(), field(path, "function").as_str())?;
                raw_object(data.as_value(), field(path, "data").as_str(), "function")
            },
            _ => Ok(()),
        }
    }
}

/// Validates each function of `s` at `prefix[i]`, in order.
pub fn functions_at(s: &Vec<LootFunction>, prefix: &str) -> (r: Result<(), ValidationFailure>)
    ensures
        view_check(r) == spec_functions_failure(s@, prefix@, 0),
{
    let mut i: usize = 0;
    assert(s@.subrange(0, s@.len() as int) =~= s@);
    while i < s.len()
        invariant
            i <= s.len(),
            spec_functions_failure(s@, prefix@, 0) == spec_functions_failure(
                s@.subrange(i as int, s@.len() as int),
                prefix@,
                i as nat,
            ),
        decreases s.len() - i,
    {
        let ghost rest = s@.subrange(i as int, s@.len() as int);
        assert(rest[0] == s@[i as int]);
        assert(rest.drop_first() =~= s@.subrange(i + 1, s@.len() as int));
        s[i].validate_at(indexed(prefix, i).as_str())?;
        i = i + 1;
    }
    Ok(())
}

/// The checks shared by every entry: weight, functions, then conditions.
fn entry_tail(
    path: &str,
    weight: Option<i32>,
    functions: Option<&Vec<LootFunction>>,
    conditions: &Vec<LootCondition>,
) -> (r: Result<(), ValidationFailure>)
    ensures
        view_check(r) == spec_entry_tail(
            path@,
            weight,
            match functions {
                Some(f) => Some(f@),
                None => None,
            },
            conditions@,
        ),
{
    if let Some(w) = weight {
        if w <= 0 {
            return Err(
                fail(field(path, "weight").as_str(), "entry weight must be greater than zero"),
            );
        }
    }
    if let Some(fs) = functions {
        functions_at(fs, field(path, "functions").as_str())?;
    }
    conditions_at(conditions, field(path, "conditions").as_str())
}

impl LootEntry {
    /// Validates this entry, naming offending fields under `path`.
    pub fn validate_at(&self, path: &str) -> (r: Result<(), ValidationFailure>)
        ensures
            view_check(r) == spec_entry_failure(*self, path@),
        decreases self, 0int,
    {
        match self {
            LootEntry::Item { name, weight, functions, conditions, .. } => {
                resource_id(name.as_str(), field(path, "name").as_str())?;
                entry_tail(path, *weight, Some(functions), conditions)
            },
            LootEntry::Tag { name, weight, conditions, .. } => {
                resource_id(name.as_str(), field(path, "name").as_str())?;
                entry_tail(path, *weight, None, conditions)
            },
            LootEntry::LootTable { value, weight, conditions, .. } => {
                resource_id(value.as_str(), field(path, "value").as_str())?;
                entry_tail(path, *weight, None, conditions)
            },
            LootEntry::Dynamic { name, conditions } => {
                resource_id(name.as_str(), field(path, "name").as_str())?;
                entry_tail(path, None, None, conditions)
            },
            LootEntry::Empty { weight, conditions, .. } => entry_tail(
                path,
                *weight,
                None,
                conditions,
            ),
            LootEntry::Group { children, conditions } => composite_at(children, conditions, path),
            LootEntry::Alternatives { children, conditions } => composite_at(
                children,
                conditions,
                path,
            ),
            LootEntry::Sequence { children, conditions } => composite_at(
                children,
                conditions,
                path,
            ),
        }
    }
}

/// The checks of a group, alternatives or sequence entry.
fn composite_at(children: &Vec<LootEntry>, conditions: &Vec<LootCondition>, path: &str) -> (r:
    Result<(), ValidationFailure>)
    ensures
        view_check(r) == spec_composite_failure(children@, conditions@, path@),
    decreases children, 1int,
{
    let p = field(path, "children");
    if children.len() == 0 {
        return Err(fail(p.as_str(), "entry children must not be empty"));
    }
    entries_at(children, p.as_str())?;
    entry_tail(path, None, None, conditions)
}

/// Validates each entry of `s` at `prefix[i]`, in order.
pub fn entries_at(s: &Vec<LootEntry>, prefix: &str) -> (r: Result<(), ValidationFailure>)
    ensures
        view_check(r) == spec_entries_failure(s@, prefix@, 0),
    decreases s, 0int,
{
    let mut i: usize = 0;
    assert(s@.subrange(0, s@.len() as int) =~= s@);
    while i < s.len()
        invariant
            i <= s.len(),
            spec_entries_failure(s@, prefix@, 0) == spec_entries_failure(
                s@.subrange(i as int, s@.len() as int),
                prefix@,
                i as nat,
            ),
        decreases s.len() - i,
    {
        let ghost rest = s@.subrange(i as int, s@.len() as int);
        assert(rest[0] == s@[i as int]);
        assert(rest.drop_first() =~= s@.subrange(i + 1, s@.len() as int));
        assert(decreases_to!(s => s@[i as int]));
        s[i].validate_at(indexed(prefix, i).as_str())?;
        i = i + 1;
    }
    Ok(())
}


/// Validates pool rolls (or bonus rolls) at `path`: the provider must be valid
/// and not known to go below zero.
pub fn rolls_at(n: &NumberProvider, path: &str, message: &str) -> (r: Result<
    (),
    ValidationFailure,
>)
    ensures
        view_check(r) == spec_rolls_failure(*n, path@, message@),
{
    n.validate_at(path)?;
    if let Some(m) = n.known_minimum() {
        if m.lt(&F64Bits::zero()) {
            return Err(fail(path, message));
        }
    }
    Ok(())
}

/// Validates each pool of `s` at `prefix[i]`, in order.
pub fn pools_at(s: &Vec<LootPool>, prefix: &str) -> (r: Result<(), ValidationFailure>)
    ensures
        view_check(r) == spec_pools_failure(s@, prefix@, 0),
{
    let mut i: usize = 0;
    assert(s@.subrange(0, s@.len() as int) =~= s@);
    while i < s.len()
        invariant
            i <= s.len(),
            spec_pools_failure(s@, prefix@, 0) == spec_pools_failure(
                s@.subrange(i as int, s@.len() as int),
                prefix@,
                i as nat,
            ),
        decreases s.len() - i,
    {
        let ghost rest = s@.subrange(i as int, s@.len() as int);
        assert(rest[0] == s@[i as int]);
        assert(rest.drop_first() =~= s@.subrange(i + 1, s@.len() as int));
        s[i].validate_at(indexed(prefix, i).as_str())?;
        i = i + 1;
    }
    Ok(())
}

} // verus!

verus! {

/// The first failure among conditions is the first failing condition, at
/// its indexed path: the list passes exactly when every condition passes.
pub proof fn lemma_conditions_failure(s: Seq<LootCondition>, prefix: Seq<char>, offset: nat)
    ensures
        spec_conditions_failure(s, prefix, offset) is None <==> forall|i: int|
            #![trigger s[i]]
            0 <= i < s.len() ==> spec_condition_failure(s[i], spec_indexed(prefix, (offset + i) as nat))
                is None,
        spec_conditions_failure(s, prefix, offset) is Some ==> exists|i: int|
            #![trigger s[i]]
            0 <= i < s.len() && spec_conditions_failure(s, prefix, offset) == spec_condition_failure(
                s[i],
                spec_indexed(prefix, (offset + i) as nat),
            ) && forall|j: int|
                #![trigger s[j]]
                0 <= j < i ==> spec_condition_failure(s[j], spec_indexed(prefix, (offset + j) as nat))
                    is None,
    decreases s.len(),
{
    if s.len() > 0 {
        let t = s.drop_first();
        lemma_conditions_failure(t, prefix, offset + 1);
        assert forall|i: int| 0 < i < s.len() implies #[trigger] s[i] == t[i - 1]
            && offset + i == (offset + 1) + (i - 1) by {}
        if spec_condition_failure(s[0], spec_indexed(prefix, offset)) is None {
            if spec_conditions_failure(t, prefix, offset + 1) is Some {
                let k = choose|k: int|
                    #![trigger t[k]]
                    0 <= k < t.len() && spec_conditions_failure(t, prefix, offset + 1)
                        == spec_condition_failure(t[k], spec_indexed(prefix, (offset + 1 + k) as nat))
                        && forall|j: int|
                        #![trigger t[j]]
                        0 <= j < k ==> spec_condition_failure(
                            t[j],
                            spec_indexed(prefix, (offset + 1 + j) as nat),
                        ) is None;
                assert(s[k + 1] == t[k]);
                assert forall|j: int| 0 <= j < k + 1 implies spec_condition_failure(
                    #[trigger] s[j],
                    spec_indexed(prefix, (offset + j) as nat),
                ) is None by {
                    if j > 0 {
                        assert(s[j] == t[j - 1]);
                    }
                }
            }
        }
    }
}

/// The first failure among functions is the first failing function, at its
/// indexed path: the list passes exactly when every function passes.
pub proof fn lemma_functions_failure(s: Seq<LootFunction>, prefix: Seq<char>, offset: nat)
    ensures
        spec_functions_failure(s, prefix, offset) is None <==> forall|i: int|
            #![trigger s[i]]
            0 <= i < s.len() ==> spec_function_failure(s[i], spec_indexed(prefix, (offset + i) as nat))
                is None,
    decreases s.len(),
{
    if s.len() > 0 {
        let t = s.drop_first();
        lemma_functions_failure(t, prefix, offset + 1);
        assert forall|i: int| 0 < i < s.len() implies #[trigger] s[i] == t[i - 1]
            && offset + i == (offset + 1) + (i - 1) by {}
    }
}

/// The first failure among entries is the first failing entry, at its
/// indexed path: the list passes exactly when every entry passes.
pub proof fn lemma_entries_failure(s: Seq<LootEntry>, prefix: Seq<char>, offset: nat)
    ensures
        spec_entries_failure(s, prefix, offset) is None <==> forall|i: int|
            #![trigger s[i]]
            0 <= i < s.len() ==> spec_entry_failure(s[i], spec_indexed(prefix, (offset + i) as nat))
                is None,
    decreases s.len(),
{
    if s.len() > 0 {
        let t = s.drop_first();
        lemma_entries_failure(t, prefix, offset + 1);
        assert forall|i: int| 0 < i < s.len() implies #[trigger] s[i] == t[i - 1]
            && offset + i == (offset + 1) + (i - 1) by {}
    }
}

/// The probabilities pass exactly when each is finite and in `0.0..=1.0`.
pub proof fn lemma_chances_failure(s: Seq<F64Bits>, prefix: Seq<char>, offset: nat)
    ensures
        spec_chances_failure(s, prefix, offset) is None <==> forall|i: int|
            #![trigger s[i]]
            0 <= i < s.len() ==> spec_is_probability(s[i].bits),
    decreases s.len(),
{
    if s.len() > 0 {
        let t = s.drop_first();
        lemma_chances_failure(t, prefix, offset + 1);
        assert forall|i: int| 0 < i < s.len() implies #[trigger] s[i] == t[i - 1] by {}
    }
}

/// Whether `bits` is a finite number in `0.0..=1.0`.
pub open spec fn spec_is_probability(bits: u64) -> bool {
    spec_is_finite(bits) && spec_le(spec_zero_bits(), bits) && spec_le(bits, spec_one_bits())
}

/// Whether `value`, without one leading `#`, parses as a resource location.
pub open spec fn spec_id_ok(value: Seq<char>) -> bool {
    spec_parse_location(spec_strip_hash(value)) is Ok
}

/// What a condition must satisfy to pass at `path`, nested terms being
/// checked at their own paths.
pub open spec fn spec_condition_valid(c: LootCondition, path: Seq<char>) -> bool {
    match c {
        LootCondition::AllOf { terms } => terms@.len() > 0 && forall|i: int|
            #![trigger terms@[i]]
            0 <= i < terms@.len() ==> spec_condition_failure(
                terms@[i],
                spec_indexed(spec_field(path, "terms"@), i as nat),
            ) is None,
        LootCondition::AnyOf { terms } => terms@.len() > 0 && forall|i: int|
            #![trigger terms@[i]]
            0 <= i < terms@.len() ==> spec_condition_failure(
                terms@[i],
                spec_indexed(spec_field(path, "terms"@), i as nat),
            ) is None,
        LootCondition::Inverted { term } => spec_condition_failure(*term, spec_field(path, "term"@))
            is None,
        LootCondition::RandomChance { chance } => spec_is_probability(chance.bits),
        LootCondition::TableBonus { enchantment, chances } => spec_id_ok(enchantment@)
            && chances@.len() > 0 && forall|i: int|
            #![trigger chances@[i]]
            0 <= i < chances@.len() ==> spec_is_probability(chances@[i].bits),
        LootCondition::BlockStateProperty { block, .. } => spec_id_ok(block@),
        LootCondition::EntityScores { scores, .. } => scores@.len() > 0,
        LootCondition::WeatherCheck { raining, thundering } => raining is Some || thundering is Some,
        LootCondition::Reference { name } => spec_id_ok(name@),
        LootCondition::Custom { condition, data } => spec_id_ok(condition@) && (match data.view() {
            Json::Object(es) => !spec_has_key(es, "condition"@),
            _ => false,
        }),
        _ => true,
    }
}

/// A loot condition passes validation exactly when it satisfies
/// [`spec_condition_valid`]: composites need terms, all of which pass; a
/// chance is a finite probability; IDs parse; a score map is not empty; a
/// weather check sets a field; custom data is an object without its own
/// `condition` key.
pub proof fn law_condition_valid(c: LootCondition, path: Seq<char>)
    ensures
        spec_condition_failure(c, path) is None <==> spec_condition_valid(c, path),
{
    match c {
        LootCondition::AllOf { terms } => {
            lemma_conditions_failure(terms@, spec_field(path, "terms"@), 0);
        },
        LootCondition::AnyOf { terms } => {
            lemma_conditions_failure(terms@, spec_field(path, "terms"@), 0);
        },
        LootCondition::TableBonus { chances, .. } => {
            lemma_chances_failure(chances@, spec_field(path, "chances"@), 0);
        },
        _ => {},
    }
}

/// What the checks shared by every entry require: a positive weight when
/// set, and every function and condition passing at its path.
pub open spec fn spec_tail_valid(
    path: Seq<char>,
    weight: Option<i32>,
    functions: Seq<LootFunction>,
    conditions: Seq<LootCondition>,
) -> bool {
    &&& (weight matches Some(w) ==> w > 0)
    &&& forall|i: int|
        #![trigger functions[i]]
        0 <= i < functions.len() ==> spec_function_failure(
            functions[i],
            spec_indexed(spec_field(path, "functions"@), i as nat),
        ) is None
    &&& forall|i: int|
        #![trigger conditions[i]]
        0 <= i < conditions.len() ==> spec_condition_failure(
            conditions[i],
            spec_indexed(spec_field(path, "conditions"@), i as nat),
        ) is None
}

/// What a composite entry requires: children, each passing at its path.
pub open spec fn spec_children_valid(children: Seq<LootEntry>, path: Seq<char>) -> bool {
    children.len() > 0 && forall|i: int|
        #![trigger children[i]]
        0 <= i < children.len() ==> spec_entry_failure(
            children[i],
            spec_indexed(spec_field(path, "children"@), i as nat),
        ) is None
}

/// What an entry must satisfy to pass at `path`.
pub open spec fn spec_entry_valid(e: LootEntry, path: Seq<char>) -> bool {
    match e {
        LootEntry::Item { name, weight, functions, conditions, .. } => spec_id_ok(name@)
            && spec_tail_valid(path, weight, functions@, conditions@),
        LootEntry::Tag { name, weight, conditions, .. } => spec_id_ok(name@) && spec_tail_valid(
            path,
            weight,
            seq![],
            conditions@,
        ),
        LootEntry::LootTable { value, weight, conditions, .. } => spec_id_ok(value@)
            && spec_tail_valid(path, weight, seq![], conditions@),
        LootEntry::Dynamic { name, conditions } => spec_id_ok(name@) && spec_tail_valid(
            path,
            None,
            seq![],
            conditions@,
        ),
        LootEntry::Empty { weight, conditions, .. } => spec_tail_valid(
            path,
            weight,
            seq![],
            conditions@,
        ),
        LootEntry::Group { children, conditions } => spec_children_valid(children@, path)
            && spec_tail_valid(path, None, seq![], conditions@),
        LootEntry::Alternatives { children, conditions } => spec_children_valid(children@, path)
            && spec_tail_valid(path, None, seq![], conditions@),
        LootEntry::Sequence { children, conditions } => spec_children_valid(children@, path)
            && spec_tail_valid(path, None, seq![], conditions@),
    }
}

/// The shared entry checks pass exactly when [`spec_tail_valid`] holds.
proof fn lemma_tail(
    path: Seq<char>,
    weight: Option<i32>,
    functions: Option<Seq<LootFunction>>,
    conditions: Seq<LootCondition>,
)
    ensures
        spec_entry_tail(path, weight, functions, conditions) is None <==> spec_tail_valid(
            path,
            weight,
            match functions {
                Some(fs) => fs,
                None => seq![],
            },
            conditions,
        ),
{
    if let Some(fs) = functions {
        lemma_functions_failure(fs, spec_field(path, "functions"@), 0);
    }
    lemma_conditions_failure(conditions, spec_field(path, "conditions"@), 0);
}

/// A loot entry passes validation exactly when it satisfies
/// [`spec_entry_valid`]: its ID parses (after one optional `#`), a set
/// weight is positive, a composite has children that all pass, and its
/// functions and conditions all pass.
pub proof fn law_entry_valid(e: LootEntry, path: Seq<char>)
    ensures
        spec_entry_failure(e, path) is None <==> spec_entry_valid(e, path),
{
    match e {
        LootEntry::Item { weight, functions, conditions, .. } => {
            lemma_tail(path, weight, Some(functions@), conditions@);
        },
        LootEntry::Tag { weight, conditions, .. } => {
            lemma_tail(path, weight, None, conditions@);
        },
        LootEntry::LootTable { weight, conditions, .. } => {
            lemma_tail(path, weight, None, conditions@);
        },
        LootEntry::Dynamic { conditions, .. } => {
            lemma_tail(path, None, None, conditions@);
        },
        LootEntry::Empty { weight, conditions, .. } => {
            lemma_tail(path, weight, None, conditions@);
        },
        LootEntry::Group { children, conditions } => {
            lemma_tail(path, None, None, conditions@);
            lemma_entries_failure(children@, spec_field(path, "children"@), 0);
        },
        LootEntry::Alternatives { children, conditions } => {
            lemma_tail(path, None, None, conditions@);
            lemma_entries_failure(children@, spec_field(path, "children"@), 0);
        },
        LootEntry::Sequence { children, conditions } => {
            lemma_tail(path, None, None, conditions@);
            lemma_entries_failure(children@, spec_field(path, "children"@), 0);
        },
    }
}

/// A loot pool is checked in a fixed order: an empty entry list is reported
/// first, at `entries`; then the rolls, the bonus rolls, the conditions, the
/// functions and the entries. It passes exactly when it has entries, its
/// rolls and bonus rolls pass, and every condition, function and entry
/// passes at its path.
pub proof fn law_pool_valid(p: LootPoolView, path: Seq<char>)
    ensures
        p.entries.len() == 0 ==> spec_pool_failure(p, path) == spec_fail(
            spec_field(path, "entries"@),
            "loot pool must contain at least one entry"@,
        ),
        p.entries.len() > 0 ==> spec_pool_failure(p, path) == spec_first(
            spec_rolls_failure(p.rolls, spec_field(path, "rolls"@), "loot pool rolls must not be negative"@),
            spec_first(
                match p.bonus_rolls {
                    Some(b) => spec_rolls_failure(
                        b,
                        spec_field(path, "bonus_rolls"@),
                        "loot pool bonus rolls must not be negative"@,
                    ),
                    None => None,
                },
                spec_first(
                    spec_conditions_failure(p.conditions, spec_field(path, "conditions"@), 0),
                    spec_first(
                        spec_functions_failure(p.functions, spec_field(path, "functions"@), 0),
                        spec_entries_failure(p.entries, spec_field(path, "entries"@), 0),
                    ),
                ),
            ),
        ),
        spec_pool_failure(p, path) is None <==> {
            &&& p.entries.len() > 0
            &&& spec_rolls_failure(p.rolls, spec_field(path, "rolls"@), "loot pool rolls must not be negative"@)
                is None
            &&& (p.bonus_rolls matches Some(b) ==> spec_rolls_failure(
                b,
                spec_field(path, "bonus_rolls"@),
                "loot pool bonus rolls must not be negative"@,
            ) is None)
            &&& forall|i: int|
                #![trigger p.conditions[i]]
                0 <= i < p.conditions.len() ==> spec_condition_failure(
                    p.conditions[i],
                    spec_indexed(spec_field(path, "conditions"@), i as nat),
                ) is None
            &&& forall|i: int|
                #![trigger p.functions[i]]
                0 <= i < p.functions.len() ==> spec_function_failure(
                    p.functions[i],
                    spec_indexed(spec_field(path, "functions"@), i as nat),
                ) is None
            &&& forall|i: int|
                #![trigger p.entries[i]]
                0 <= i < p.entries.len() ==> spec_entry_failure(
                    p.entries[i],
                    spec_indexed(spec_field(path, "entries"@), i as nat),
                ) is None
        },
{
    lemma_conditions_failure(p.conditions, spec_field(path, "conditions"@), 0);
    lemma_functions_failure(p.functions, spec_field(path, "functions"@), 0);
    lemma_entries_failure(p.entries, spec_field(path, "entries"@), 0);
}

} // verus!

verus! {

/// An additive item count (`add: true`) fails only when its number
/// provider fails: the greater-than-zero rule is never applied to it. A
/// non-additive count also fails when its provider's known minimum is zero
/// or below, reported at `count`.
pub proof fn law_set_count_valid(count: NumberProvider, path: Seq<char>)
    ensures
        spec_function_failure(LootFunction::SetCount { count, add: true }, path)
            == spec_number_failure(count, spec_field(path, "count"@)),
        spec_function_failure(LootFunction::SetCount { count, add: false }, path) is None <==> (
        spec_number_failure(count, spec_field(path, "count"@)) is None && !(spec_known_minimum(count)
            matches Some(m) && spec_le(m, spec_zero_bits()))),
        (spec_number_failure(count, spec_field(path, "count"@)) is None && (spec_known_minimum(count)
            matches Some(m) && spec_le(m, spec_zero_bits()))) ==> spec_function_failure(
            LootFunction::SetCount { count, add: false },
            path,
        ) == spec_fail(spec_field(path, "count"@), "non-additive item count must be greater than zero"@),
{
}

} // verus!
