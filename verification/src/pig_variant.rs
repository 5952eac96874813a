//! Builder for `data/<namespace>/pig_variant/` JSON files (Minecraft
//! 1.21.5+).
//!
//! Export validation: `asset_id` must be non-empty and a valid resource
//! location; each spawn condition must carry a supported biome selector;
//! each raw field key must be non-empty, not only whitespace, free of
//! control characters, and must not name a typed field.

use vstd::prelude::*;
use vstd::string::*;

use crate::animal_variant::{
    SpawnCondition, SpawnConditionView, spec_condition_check, spec_condition_json,
};
use crate::error::{SandError, SandErrorView, view_unit_result};
use crate::json::{
    Json, JsonValue, lemma_view_entries_empty, lemma_view_values_empty, push_entry, push_value,
    view_entries, view_json, view_values,
};
use crate::keyed::{keyed_insert, spec_keyed_insert, view_keyed};
use crate::raw::RawJson;
use crate::resource_location::{ResourceLocation, ResourceLocationView};
use crate::text::{concat3, owned, str_eq};
use crate::validation::{
    reject_control_chars, reject_whitespace_only, require_non_empty, spec_component_error,
    spec_reject_control, spec_reject_whitespace_only, spec_require_non_empty,
    spec_require_resource_location, spec_then, validate_resource_location_str,
};
use crate::version::ComponentFeature;

verus! {

/// The abstract value of a [`PigVariant`].
pub struct PigVariantView {
    pub location: ResourceLocationView,
    pub asset_id: Seq<char>,
    pub spawn_conditions: Seq<SpawnConditionView>,
    pub raw_fields: Seq<(Seq<char>, Json)>,
}

/// A pig variant definition (`data/<namespace>/pig_variant/<id>.json`): the
/// texture a pig spawns with, chosen by an ordered, prioritized list of
/// biome spawn conditions.
pub struct PigVariant {
    location: ResourceLocation,
    asset_id: String,
    spawn_conditions: Vec<SpawnCondition>,
    raw_fields: Vec<(String, RawJson)>,
}

impl View for PigVariant {
    type V = PigVariantView;

    closed spec fn view(&self) -> PigVariantView {
        PigVariantView {
            location: self.location@,
            asset_id: self.asset_id@,
            spawn_conditions: self.spawn_conditions@.map_values(|c: SpawnCondition| c@),
            raw_fields: view_keyed(self.raw_fields@),
        }
    }
}

/// The component kind named in validation errors.
pub open spec fn pig_kind() -> Seq<char> {
    "pig_variant"@
}

/// Whether `key` names a field that the typed API writes.
pub open spec fn spec_is_typed_field(key: Seq<char>) -> bool {
    key == "asset_id"@ || key == "spawn_conditions"@
}

/// The checks of the spawn conditions, in order; the first failure is
/// reported.
pub open spec fn spec_conditions_check(
    location: ResourceLocationView,
    s: Seq<SpawnConditionView>,
) -> Result<(), SandErrorView>
    decreases s.len(),
{
    if s.len() == 0 {
        Ok(())
    } else {
        spec_then(
            spec_condition_check(location, pig_kind(), "spawn_conditions"@, s[0]),
            spec_conditions_check(location, s.drop_first()),
        )
    }
}

/// The checks of one raw field key.
pub open spec fn spec_raw_key_check(location: ResourceLocationView, key: Seq<char>) -> Result<
    (),
    SandErrorView,
> {
    let k = pig_kind();
    let f = "raw_field"@;
    spec_then(
        spec_require_non_empty(location, k, f, key),
        spec_then(
            spec_reject_whitespace_only(location, k, f, key),
            spec_then(
                spec_reject_control(location, k, f, key),
                if spec_is_typed_field(key) {
                    Err(
                        spec_component_error(
                            location,
                            k,
                            f,
                            "raw field `"@ + key + "` would override a typed field"@,
                        ),
                    )
                } else {
                    Ok(())
                },
            ),
        ),
    )
}

/// The checks of the raw field keys, in key order.
pub open spec fn spec_raw_keys_check(
    location: ResourceLocationView,
    s: Seq<(Seq<char>, Json)>,
) -> Result<(), SandErrorView>
    decreases s.len(),
{
    if s.len() == 0 {
        Ok(())
    } else {
        spec_then(
            spec_raw_key_check(location, s[0].0),
            spec_raw_keys_check(location, s.drop_first()),
        )
    }
}

/// The result of validating a pig variant.
pub open spec fn spec_pig_validate(v: PigVariantView) -> Result<(), SandErrorView> {
    let k = pig_kind();
    spec_then(
        spec_require_non_empty(v.location, k, "asset_id"@, v.asset_id),
        spec_then(
            spec_require_resource_location(v.location, k, "asset_id"@, v.asset_id),
            spec_then(
                spec_conditions_check(v.location, v.spawn_conditions),
                spec_raw_keys_check(v.location, v.raw_fields),
            ),
        ),
    )
}

/// The typed entries of the JSON document: `asset_id`, then the spawn
/// conditions when there are any.
pub open spec fn spec_pig_typed_entries(v: PigVariantView) -> Seq<(Seq<char>, Json)> {
    let e = seq![("asset_id"@, Json::Str(v.asset_id))];
    if v.spawn_conditions.len() > 0 {
        e.push(
            (
                "spawn_conditions"@,
                Json::Array(
                    v.spawn_conditions.map_values(|c: SpawnConditionView| spec_condition_json(c)),
                ),
            ),
        )
    } else {
        e
    }
}

/// The JSON document: the typed entries, then the raw fields in key order.
pub open spec fn spec_pig_json(v: PigVariantView) -> Json {
    Json::Object(spec_pig_typed_entries(v) + v.raw_fields)
}

/// Checks the raw field keys in order.
fn check_raw_keys(location: &ResourceLocation, s: &Vec<(String, RawJson)>) -> (r: Result<
    (),
    SandError,
>)
    ensures
        view_unit_result(r) == spec_raw_keys_check(location@, view_keyed(s@)),
{
    let ghost v = view_keyed(s@);
    let n = s.len();
    let mut i: usize = 0;
    assert(v.subrange(0, n as int) =~= v);
    while i < n
        invariant
            i <= n,
            n == v.len(),
            v == view_keyed(s@),
            spec_raw_keys_check(location@, v) == spec_raw_keys_check(
                location@,
                v.subrange(i as int, n as int),
            ),
        decreases n - i,
    {
        let ghost rest = v.subrange(i as int, n as int);
        assert(rest[0].0 == s@[i as int].0@);
        assert(rest.drop_first() =~= v.subrange(i + 1, n as int));
        let key = s[i].0.as_str();
        let kind = "pig_variant";
        require_non_empty(location, kind, "raw_field", key)?;
        reject_whitespace_only(location, kind, "raw_field", key)?;
        reject_control_chars(location, kind, "raw_field", key)?;
        if str_eq(key, "asset_id") || str_eq(key, "spawn_conditions") {
            let message = concat3("raw field `", key, "` would override a typed field");
            return Err(SandError::component(location, kind, "raw_field", message.as_str()));
        }
        i = i + 1;
    }
    Ok(())
}

impl PigVariant {
    /// A pig variant with no asset ID, spawn conditions or raw fields.
    pub fn new(location: ResourceLocation) -> (r: Self)
        ensures
            r@ == (PigVariantView {
                location: location@,
                asset_id: Seq::empty(),
                spawn_conditions: Seq::empty(),
                raw_fields: Seq::empty(),
            }),
    {
        let r = PigVariant {
            location,
            asset_id: String::new(),
            spawn_conditions: Vec::new(),
            raw_fields: Vec::new(),
        };
        assert(r@.spawn_conditions =~= Seq::<SpawnConditionView>::empty());
        assert(r@.raw_fields =~= Seq::<(Seq<char>, Json)>::empty());
        r
    }

    /// Sets the texture asset ID (e.g. `"minecraft:entity/pig/cold_pig"`).
    pub fn asset_id(self, id: &str) -> (r: Self)
        ensures
            r@ == (PigVariantView { asset_id: id@, ..self@ }),
    {
        let mut s = self;
        s.asset_id = owned(id);
        s
    }

    /// Adds one prioritized biome spawn condition.
    pub fn spawn_condition(self, condition: SpawnCondition) -> (r: Self)
        ensures
            r@ == (PigVariantView {
                spawn_conditions: self@.spawn_conditions.push(condition@),
                ..self@
            }),
    {
        let mut s = self;
        let ghost prev = s.spawn_conditions@;
        let ghost cv = condition@;
        s.spawn_conditions.push(condition);
        assert(s.spawn_conditions@.map_values(|c: SpawnCondition| c@) =~= prev.map_values(
            |c: SpawnCondition| c@,
        ).push(cv));
        s
    }

    /// Replaces the full ordered list of spawn conditions.
    pub fn spawn_conditions(self, conditions: Vec<SpawnCondition>) -> (r: Self)
        ensures
            r@ == (PigVariantView {
                spawn_conditions: conditions@.map_values(|c: SpawnCondition| c@),
                ..self@
            }),
    {
        let mut s = self;
        s.spawn_conditions = conditions;
        s
    }

    /// Adds a modded or version-specific field that the typed API does not
    /// represent; a later value for the same key replaces the earlier one.
    /// Validation refuses keys that name a typed field.
    pub fn raw_field(self, key: &str, value: RawJson) -> (r: Self)
        ensures
            r@ == (PigVariantView {
                raw_fields: spec_keyed_insert(self@.raw_fields, key@, value@),
                ..self@
            }),
    {
        let mut s = self;
        keyed_insert(&mut s.raw_fields, owned(key), value);
        s
    }

    /// The component's resource location.
    pub fn resource_location(&self) -> (r: &ResourceLocation)
        ensures
            r@ == self@.location,
    {
        &self.location
    }

    /// Export validation.
    pub fn validate(&self) -> (r: Result<(), SandError>)
        ensures
            view_unit_result(r) == spec_pig_validate(self@),
    {
        let kind = "pig_variant";
        require_non_empty(&self.location, kind, "asset_id", self.asset_id.as_str())?;
        validate_resource_location_str(&self.location, kind, "asset_id", self.asset_id.as_str())?;
        let ghost v = self@.spawn_conditions;
        let n = self.spawn_conditions.len();
        let mut i: usize = 0;
        assert(v.subrange(0, n as int) =~= v);
        while i < n
            invariant
                i <= n,
                n == v.len(),
                v == self@.spawn_conditions,
                spec_pig_validate(self@) == spec_then(
                    spec_conditions_check(self@.location, v.subrange(i as int, n as int)),
                    spec_raw_keys_check(self@.location, self@.raw_fields),
                ),
            decreases n - i,
        {
            let ghost rest = v.subrange(i as int, n as int);
            assert(rest[0] == self.spawn_conditions@[i as int]@);
            assert(rest.drop_first() =~= v.subrange(i + 1, n as int));
            self.spawn_conditions[i].validate(&self.location, "pig_variant", "spawn_conditions")?;
            i = i + 1;
        }
        check_raw_keys(&self.location, &self.raw_fields)
    }

    /// The JSON document.
    pub fn to_json(&self) -> (r: JsonValue)
        ensures
            view_json(r) == spec_pig_json(self@),
    {
        let mut m: Vec<(String, JsonValue)> = Vec::new();
        proof {
            lemma_view_entries_empty();
        }
        push_entry(&mut m, "asset_id", JsonValue::Str(self.asset_id.clone()));
        if self.spawn_conditions.len() > 0 {
            let mut items: Vec<JsonValue> = Vec::new();
            proof {
                lemma_view_values_empty();
            }
            let mut i: usize = 0;
            while i < self.spawn_conditions.len()
                invariant
                    i <= self.spawn_conditions.len(),
                    view_values(items@) == self@.spawn_conditions.subrange(0, i as int).map_values(
                        |c: SpawnConditionView| spec_condition_json(c),
                    ),
                decreases self.spawn_conditions.len() - i,
            {
                push_value(&mut items, self.spawn_conditions[i].to_json());
                assert(self@.spawn_conditions.subrange(0, i + 1).map_values(
                    |c: SpawnConditionView| spec_condition_json(c),
                ) =~= self@.spawn_conditions.subrange(0, i as int).map_values(
                    |c: SpawnConditionView| spec_condition_json(c),
                ).push(spec_condition_json(self.spawn_conditions@[i as int]@)));
                i = i + 1;
            }
            assert(self@.spawn_conditions.subrange(0, self.spawn_conditions.len() as int)
                =~= self@.spawn_conditions);
            push_entry(&mut m, "spawn_conditions", JsonValue::Array(items));
        }
        assert(view_entries(m@) =~= spec_pig_typed_entries(self@));
        let ghost typed = view_entries(m@);
        let mut j: usize = 0;
        while j < self.raw_fields.len()
            invariant
                j <= self.raw_fields.len(),
                view_entries(m@) == typed + view_keyed(self.raw_fields@).subrange(0, j as int),
            decreases self.raw_fields.len() - j,
        {
            push_entry(
                &mut m,
                self.raw_fields[j].0.as_str(),
                self.raw_fields[j].1.as_value().deep_clone(),
            );
            assert(view_keyed(self.raw_fields@).subrange(0, j + 1) =~= view_keyed(
                self.raw_fields@,
            ).subrange(0, j as int).push(
                (self.raw_fields@[j as int].0@, self.raw_fields@[j as int].1@),
            ));
            j = j + 1;
        }
        assert(view_keyed(self.raw_fields@).subrange(0, self.raw_fields.len() as int)
            =~= view_keyed(self.raw_fields@));
        JsonValue::Object(m)
    }

    /// Validates, then renders the JSON document.
    pub fn try_content(&self) -> (r: Result<JsonValue, SandError>)
        ensures
            match (r, spec_pig_validate(self@)) {
                (Ok(j), Ok(())) => view_json(j) == spec_pig_json(self@),
                (Err(e), Err(v)) => e@ == v,
                _ => false,
            },
    {
        self.validate()?;
        Ok(self.to_json())
    }

    /// The datapack directory (`pig_variant`).
    pub fn component_dir(&self) -> (r: &'static str)
        ensures
            r@ == "pig_variant"@,
    {
        "pig_variant"
    }

    /// The version features the document needs: data-driven animal
    /// variants.
    pub fn required_features(&self) -> (r: Vec<ComponentFeature>)
        ensures
            r@ == seq![ComponentFeature::AnimalVariants],
    {
        let mut v: Vec<ComponentFeature> = Vec::new();
        v.push(ComponentFeature::AnimalVariants);
        v
    }
}

} // verus!
