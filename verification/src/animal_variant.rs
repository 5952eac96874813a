//! Spawn conditions of the data-driven animal variants: a priority and a
//! `minecraft:biome` condition whose `biomes` selector is one biome ID or
//! tag, or a list of them.
//!
//! A selector is accepted when it is a non-empty string, or a non-empty
//! array of non-empty strings; empty arrays, empty strings and any other
//! JSON shape are rejected.

use vstd::prelude::*;
use vstd::string::*;

use crate::error::{SandError, SandErrorView, view_unit_result};
use crate::json::{
    Json, JsonValue, lemma_view_entries_empty, lemma_view_values_empty, lemma_view_values_index,
    push_entry, push_value, spec_object_entries, view_entries, view_json, view_values,
};
use crate::raw::RawJson;
use crate::resource_location::{ResourceLocation, ResourceLocationView};
use crate::text::owned;
use crate::validation::spec_component_error;

verus! {

/// The abstract value of a [`SpawnCondition`].
pub struct SpawnConditionView {
    pub biomes: Json,
    pub priority: i32,
}

/// One prioritized `minecraft:biome` spawn condition.
#[derive(Debug)]
pub struct SpawnCondition {
    biomes: JsonValue,
    priority: i32,
}

impl View for SpawnCondition {
    type V = SpawnConditionView;

    closed spec fn view(&self) -> SpawnConditionView {
        SpawnConditionView { biomes: view_json(self.biomes), priority: self.priority }
    }
}

/// Whether one element of a biome list names a biome or tag.
pub open spec fn spec_selector_entry_ok(j: Json) -> bool {
    j matches Json::Str(s) && s.len() > 0
}

/// Whether `j` is a supported biome selector.
pub open spec fn spec_biome_selector_ok(j: Json) -> bool {
    match j {
        Json::Str(s) => s.len() > 0,
        Json::Array(items) => items.len() > 0 && forall|i: int|
            0 <= i < items.len() ==> spec_selector_entry_ok(#[trigger] items[i]),
        _ => false,
    }
}

/// The message for an unsupported biome selector.
pub open spec fn spec_selector_message() -> Seq<char> {
    "biomes must be a non-empty biome ID or tag, or a non-empty array of them"@
}

/// The check of one spawn condition, reported under `field`.
pub open spec fn spec_condition_check(
    location: ResourceLocationView,
    kind: Seq<char>,
    field: Seq<char>,
    c: SpawnConditionView,
) -> Result<(), SandErrorView> {
    if spec_biome_selector_ok(c.biomes) {
        Ok(())
    } else {
        Err(spec_component_error(location, kind, field, spec_selector_message()))
    }
}

/// The JSON of one spawn condition.
pub open spec fn spec_condition_json(c: SpawnConditionView) -> Json {
    Json::Object(
        seq![
            ("priority"@, Json::Int(c.priority as int)),
            (
                "condition"@,
                Json::Object(
                    seq![("type"@, Json::Str("minecraft:biome"@)), ("biomes"@, c.biomes)],
                ),
            ),
        ],
    )
}

/// Whether `j` is a JSON string that is not empty.
fn selector_entry_ok(j: &JsonValue) -> (r: bool)
    ensures
        r == spec_selector_entry_ok(view_json(*j)),
{
    match j {
        JsonValue::Str(s) => s.unicode_len() > 0,
        _ => false,
    }
}

impl SpawnCondition {
    /// A condition on one biome ID or biome tag (`#namespace:path`).
    pub fn biome(biome: &str, priority: i32) -> (r: Self)
        ensures
            r@ == (SpawnConditionView { biomes: Json::Str(biome@), priority }),
    {
        SpawnCondition { biomes: JsonValue::Str(owned(biome)), priority }
    }

    /// A condition on any of several biome IDs or tags.
    pub fn biomes(biomes: &[&str], priority: i32) -> (r: Self)
        ensures
            r@ == (SpawnConditionView {
                biomes: Json::Array(biomes@.map_values(|b: &str| Json::Str(b@))),
                priority,
            }),
    {
        let mut items: Vec<JsonValue> = Vec::new();
        proof {
            lemma_view_values_empty();
        }
        let mut i: usize = 0;
        while i < biomes.len()
            invariant
                i <= biomes.len(),
                view_values(items@) == biomes@.subrange(0, i as int).map_values(
                    |b: &str| Json::Str(b@),
                ),
            decreases biomes.len() - i,
        {
            push_value(&mut items, JsonValue::Str(owned(biomes[i])));
            assert(biomes@.subrange(0, i + 1).map_values(|b: &str| Json::Str(b@))
                =~= biomes@.subrange(0, i as int).map_values(|b: &str| Json::Str(b@)).push(
                Json::Str(biomes@[i as int]@),
            ));
            i = i + 1;
        }
        assert(biomes@.subrange(0, biomes@.len() as int) =~= biomes@);
        SpawnCondition { biomes: JsonValue::Array(items), priority }
    }

    /// A condition whose `biomes` selector is given as raw JSON.
    pub fn raw_biomes(biomes: RawJson, priority: i32) -> (r: Self)
        ensures
            r@ == (SpawnConditionView { biomes: biomes@, priority }),
    {
        SpawnCondition { biomes: biomes.into_value(), priority }
    }

    /// Validates the selector, reporting a failure under `field`.
    pub fn validate(&self, location: &ResourceLocation, kind: &str, field: &str) -> (r: Result<
        (),
        SandError,
    >)
        ensures
            view_unit_result(r) == spec_condition_check(location@, kind@, field@, self@),
    {
        let ok = match &self.biomes {
            JsonValue::Str(s) => s.unicode_len() > 0,
            JsonValue::Array(items) => {
                let mut all = items.len() > 0;
                let mut i: usize = 0;
                while i < items.len()
                    invariant
                        i <= items.len(),
                        all == (items.len() > 0 && forall|k: int|
                            0 <= k < i ==> spec_selector_entry_ok(
                                #[trigger] view_values(items@)[k],
                            )),
                    decreases items.len() - i,
                {
                    proof {
                        lemma_view_values_index(items@, i as int);
                    }
                    let e = selector_entry_ok(&items[i]);
                    all = all && e;
                    i = i + 1;
                }
                proof {
                    if items.len() > 0 {
                        lemma_view_values_index(items@, 0);
                    }
                }
                all
            },
            _ => false,
        };
        if ok {
            Ok(())
        } else {
            Err(
                SandError::component(
                    location,
                    kind,
                    field,
                    "biomes must be a non-empty biome ID or tag, or a non-empty array of them",
                ),
            )
        }
    }

    /// The JSON object `{"priority": .., "condition": {"type": "minecraft:biome", "biomes": ..}}`.
    pub fn to_json(&self) -> (r: JsonValue)
        ensures
            view_json(r) == spec_condition_json(self@),
    {
        let mut cond: Vec<(String, JsonValue)> = Vec::new();
        proof {
            lemma_view_entries_empty();
        }
        push_entry(&mut cond, "type", JsonValue::string("minecraft:biome"));
        push_entry(&mut cond, "biomes", self.biomes.deep_clone());
        let mut m: Vec<(String, JsonValue)> = Vec::new();
        push_entry(&mut m, "priority", JsonValue::Int(self.priority as i64));
        assert(view_entries(cond@) =~= seq![
            ("type"@, Json::Str("minecraft:biome"@)),
            ("biomes"@, self@.biomes),
        ]);
        push_entry(&mut m, "condition", JsonValue::Object(cond));
        assert(view_entries(m@) =~= spec_object_entries(spec_condition_json(self@)));
        JsonValue::Object(m)
    }
}

} // verus!
