//! Predicate files (`data/<namespace>/predicate/<id>.json`): boolean
//! composition, entity, location, weather, time and random-chance checks,
//! references to other predicates, and raw JSON objects.

use vstd::prelude::*;
use vstd::string::*;

use crate::error::{SandError, SandErrorView, view_unit_result};
use crate::float::{F64Bits, spec_is_finite, spec_le, spec_one_bits, spec_zero_bits};
use crate::json::{
    Json, JsonValue, lemma_view_entries_empty, lemma_view_values_empty, push_entry, push_value,
    view_entries, view_json, view_values,
};
use crate::predicates::{
    EntityPredicate, EntityView, IntRange, IntRangeView, LocationPredicate, LocationView,
    WeatherPredicate, WeatherView, spec_entity_check, spec_entity_render, spec_int_range_check,
    spec_int_range_json, spec_location_check, spec_location_render, spec_weather_json, view_msg,
};
use crate::raw::RawJson;
use crate::registry::{PredicateKind, RegistryId};
use crate::resource_location::{ResourceLocation, ResourceLocationView};
use crate::text::{field, indexed, owned, spec_field, spec_indexed};
use crate::validation::spec_component_error;
use crate::version::VersionCaps;

verus! {

/// Which entity of the loot context an entity-properties check inspects.
#[derive(Debug, Clone, Copy, PartialEq, Eq)]
pub enum EntityPredicateTarget {
    This,
    Killer,
    KillerPlayer,
    DirectKiller,
}

/// The name written for an entity target.
pub open spec fn spec_target_str(t: EntityPredicateTarget) -> Seq<char> {
    match t {
        EntityPredicateTarget::This => "this"@,
        EntityPredicateTarget::Killer => "killer"@,
        EntityPredicateTarget::KillerPlayer => "killer_player"@,
        EntityPredicateTarget::DirectKiller => "direct_killer"@,
    }
}

impl EntityPredicateTarget {
    /// The name written for this target.
    pub fn as_str(&self) -> (r: &'static str)
        ensures
            r@ == spec_target_str(*self),
    {
        match self {
            EntityPredicateTarget::This => "this",
            EntityPredicateTarget::Killer => "killer",
            EntityPredicateTarget::KillerPlayer => "killer_player",
            EntityPredicateTarget::DirectKiller => "direct_killer",
        }
    }
}

/// The kinds of predicate condition.
#[derive(Debug)]
enum PredicateRootKind {
    AllOf(Vec<PredicateRoot>),
    AnyOf(Vec<PredicateRoot>),
    Inverted(Box<PredicateRoot>),
    EntityProperties(EntityPredicateTarget, Box<EntityPredicate>),
    LocationCheck(Box<LocationPredicate>),
    WeatherCheck(WeatherPredicate),
    TimeCheck(IntRange),
    RandomChance(F64Bits),
    Reference(RegistryId<PredicateKind>),
    Raw(RawJson),
}

/// A predicate condition.
#[derive(Debug)]
pub struct PredicateRoot(PredicateRootKind);

/// The abstract value of a [`PredicateRoot`].
pub enum RootView {
    AllOf(Seq<RootView>),
    AnyOf(Seq<RootView>),
    Inverted(Box<RootView>),
    EntityProperties(EntityPredicateTarget, EntityView),
    LocationCheck(LocationView),
    WeatherCheck(WeatherView),
    TimeCheck(IntRangeView),
    RandomChance(u64),
    Reference(ResourceLocationView),
    Raw(Json),
}

/// The abstract value of a predicate condition.
pub closed spec fn view_root(r: PredicateRoot) -> RootView
    decreases r,
{
    match r.0 {
        PredicateRootKind::AllOf(t) => RootView::AllOf(view_roots(t@)),
        PredicateRootKind::AnyOf(t) => RootView::AnyOf(view_roots(t@)),
        PredicateRootKind::Inverted(t) => RootView::Inverted(Box::new(view_root(*t))),
        PredicateRootKind::EntityProperties(target, p) => RootView::EntityProperties(target, p@),
        PredicateRootKind::LocationCheck(p) => RootView::LocationCheck(p@),
        PredicateRootKind::WeatherCheck(p) => RootView::WeatherCheck(p@),
        PredicateRootKind::TimeCheck(r) => RootView::TimeCheck(r@),
        PredicateRootKind::RandomChance(c) => RootView::RandomChance(c.bits),
        PredicateRootKind::Reference(id) => RootView::Reference(id@),
        PredicateRootKind::Raw(j) => RootView::Raw(j.view()),
    }
}

/// The abstract values of a sequence of predicate conditions.
pub closed spec fn view_roots(s: Seq<PredicateRoot>) -> Seq<RootView>
    decreases s,
{
    if s.len() == 0 {
        Seq::empty()
    } else {
        view_roots(s.drop_last()).push(view_root(s.last()))
    }
}

impl View for PredicateRoot {
    type V = RootView;

    open spec fn view(&self) -> RootView {
        view_root(*self)
    }
}

/// The abstract values of a sequence of conditions are its elements' views.
pub proof fn lemma_view_roots(s: Seq<PredicateRoot>)
    ensures
        view_roots(s).len() == s.len(),
        forall|k: int| 0 <= k < s.len() ==> #[trigger] view_roots(s)[k] == s[k]@,
    decreases s.len(),
{
    if s.len() > 0 {
        lemma_view_roots(s.drop_last());
        assert forall|k: int| 0 <= k < s.len() implies #[trigger] view_roots(s)[k] == s[k]@ by {
            if k < s.len() - 1 {
                assert(s.drop_last()[k] == s[k]);
            }
        }
    }
}

/// The first failure of a condition, as the offending field and a message.
///
/// The message for a random chance outside `0.0..=1.0` does not quote the
/// chance received: the library carries floats as bit patterns and does not
/// render them as decimal text.
pub open spec fn spec_root_check(v: RootView, path: Seq<char>) -> Result<(), (Seq<char>, Seq<char>)>
    decreases v, 1int,
{
    match v {
        RootView::AllOf(terms) => spec_terms_check_or_empty(terms, path),
        RootView::AnyOf(terms) => spec_terms_check_or_empty(terms, path),
        RootView::Inverted(t) => spec_root_check(*t, spec_field(path, "term"@)),
        RootView::EntityProperties(_, p) => match spec_entity_check(
            p,
            spec_field(path, "predicate"@),
        ) {
            Ok(()) => Ok(()),
            Err(m) => Err((spec_field(path, "predicate"@), m)),
        },
        RootView::LocationCheck(p) => match spec_location_check(p, path) {
            Ok(()) => Ok(()),
            Err(m) => Err((path, m)),
        },
        RootView::WeatherCheck(_) => Ok(()),
        RootView::TimeCheck(r) => match spec_int_range_check(r, spec_field(path, "value"@)) {
            Ok(()) => Ok(()),
            Err(m) => Err((spec_field(path, "value"@), m)),
        },
        RootView::RandomChance(c) => if spec_is_finite(c) && spec_le(spec_zero_bits(), c)
            && spec_le(c, spec_one_bits()) {
            Ok(())
        } else {
            Err((spec_field(path, "chance"@), "chance must be finite and in 0.0..=1.0"@))
        },
        RootView::Reference(_) => Ok(()),
        RootView::Raw(j) => if j is Object {
            Ok(())
        } else {
            Err((path, "raw predicate roots must be JSON objects"@))
        },
    }
}

/// Composition terms must not be empty, and each must be valid.
pub open spec fn spec_terms_check_or_empty(terms: Seq<RootView>, path: Seq<char>) -> Result<
    (),
    (Seq<char>, Seq<char>),
>
    decreases terms, 1int,
{
    if terms.len() == 0 {
        Err((spec_field(path, "terms"@), "terms must not be empty"@))
    } else {
        spec_terms_check(terms, spec_field(path, "terms"@), 0)
    }
}

/// The first failure among conditions `s`, indexed from `offset` under `prefix`.
pub open spec fn spec_terms_check(s: Seq<RootView>, prefix: Seq<char>, offset: nat) -> Result<
    (),
    (Seq<char>, Seq<char>),
>
    decreases s, 0int,
{
    if s.len() == 0 {
        Ok(())
    } else {
        match spec_root_check(s[0], spec_indexed(prefix, offset)) {
            Ok(()) => spec_terms_check(s.drop_first(), prefix, offset + 1),
            Err(e) => Err(e),
        }
    }
}

/// `{"condition": id}` followed by the given fields.
pub open spec fn condition_obj(id: Seq<char>, rest: Seq<(Seq<char>, Json)>) -> Json {
    Json::Object(seq![("condition"@, Json::Str(id))] + rest)
}

/// The rendering of a condition for an optional target: the JSON document,
/// or the first failure.
pub open spec fn spec_root_render(v: RootView, caps: Option<VersionCaps>) -> Result<Json, Seq<char>>
    decreases v, 1int,
{
    match v {
        RootView::AllOf(terms) => match spec_terms_render(terms, caps) {
            Ok(js) => Ok(condition_obj("minecraft:all_of"@, seq![("terms"@, Json::Array(js))])),
            Err(m) => Err(m),
        },
        RootView::AnyOf(terms) => match spec_terms_render(terms, caps) {
            Ok(js) => Ok(condition_obj("minecraft:any_of"@, seq![("terms"@, Json::Array(js))])),
            Err(m) => Err(m),
        },
        RootView::Inverted(t) => match spec_root_render(*t, caps) {
            Ok(j) => Ok(condition_obj("minecraft:inverted"@, seq![("term"@, j)])),
            Err(m) => Err(m),
        },
        RootView::EntityProperties(target, p) => match spec_entity_render(p, caps) {
            Ok(j) => Ok(
                condition_obj(
                    "minecraft:entity_properties"@,
                    seq![("entity"@, Json::Str(spec_target_str(target))), ("predicate"@, j)],
                ),
            ),
            Err(m) => Err(m),
        },
        RootView::LocationCheck(p) => match spec_location_render(p, caps) {
            Ok(j) => Ok(condition_obj("minecraft:location_check"@, seq![("predicate"@, j)])),
            Err(m) => Err(m),
        },
        RootView::WeatherCheck(w) => match spec_weather_json(w) {
            Json::Object(es) => Ok(
                Json::Object(es.push(("condition"@, Json::Str("minecraft:weather_check"@)))),
            ),
            _ => Err("weather predicates must serialize as JSON objects"@),
        },
        RootView::TimeCheck(r) => Ok(
            condition_obj("minecraft:time_check"@, seq![("value"@, spec_int_range_json(r))]),
        ),
        RootView::RandomChance(c) => Ok(
            condition_obj("minecraft:random_chance"@, seq![("chance"@, Json::Float(c))]),
        ),
        RootView::Reference(id) => Ok(
            condition_obj("minecraft:reference"@, seq![("name"@, Json::Str(id.text()))]),
        ),
        RootView::Raw(j) => if j is Object {
            Ok(j)
        } else {
            Err("raw predicate roots must be JSON objects"@)
        },
    }
}

/// The renderings of conditions `s`, in order, or the first failure.
pub open spec fn spec_terms_render(s: Seq<RootView>, caps: Option<VersionCaps>) -> Result<
    Seq<Json>,
    Seq<char>,
>
    decreases s, 0int,
{
    if s.len() == 0 {
        Ok(Seq::empty())
    } else {
        match spec_terms_render(s.drop_last(), caps) {
            Err(m) => Err(m),
            Ok(js) => match spec_root_render(s.last(), caps) {
                Err(m) => Err(m),
                Ok(j) => Ok(js.push(j)),
            },
        }
    }
}

/// `{"condition": id}` and the given fields, as a new object under construction.
fn condition_head(id: &str) -> (r: Vec<(String, JsonValue)>)
    ensures
        view_entries(r@) == seq![("condition"@, Json::Str(id@))],
{
    let mut m: Vec<(String, JsonValue)> = Vec::new();
    proof {
        lemma_view_entries_empty();
    }
    push_entry(&mut m, "condition", JsonValue::string(id));
    m
}

/// The view of an optional caps reference.
pub open spec fn view_caps(caps: Option<&VersionCaps>) -> Option<VersionCaps> {
    match caps {
        Some(c) => Some(*c),
        None => None,
    }
}

impl PredicateRoot {
    /// All of the terms must hold.
    pub fn all_of(terms: Vec<PredicateRoot>) -> (r: Self)
        ensures
            r@ == RootView::AllOf(terms@.map_values(|t: PredicateRoot| t@)),
    {
        let r = PredicateRoot(PredicateRootKind::AllOf(terms));
        proof {
            lemma_view_roots(terms@);
            assert(view_roots(terms@) =~= terms@.map_values(|t: PredicateRoot| t@));
        }
        r
    }

    /// Any of the terms must hold.
    pub fn any_of(terms: Vec<PredicateRoot>) -> (r: Self)
        ensures
            r@ == RootView::AnyOf(terms@.map_values(|t: PredicateRoot| t@)),
    {
        let r = PredicateRoot(PredicateRootKind::AnyOf(terms));
        proof {
            lemma_view_roots(terms@);
            assert(view_roots(terms@) =~= terms@.map_values(|t: PredicateRoot| t@));
        }
        r
    }

    /// The entity `target` must match `predicate`.
    pub fn entity_properties(target: EntityPredicateTarget, predicate: EntityPredicate) -> (r: Self)
        ensures
            r@ == RootView::EntityProperties(target, predicate@),
    {
        PredicateRoot(PredicateRootKind::EntityProperties(target, Box::new(predicate)))
    }

    /// The location must match `predicate`.
    pub fn location(predicate: LocationPredicate) -> (r: Self)
        ensures
            r@ == RootView::LocationCheck(predicate@),
    {
        PredicateRoot(PredicateRootKind::LocationCheck(Box::new(predicate)))
    }

    /// The weather must match `predicate`.
    pub fn weather(predicate: WeatherPredicate) -> (r: Self)
        ensures
            r@ == RootView::WeatherCheck(predicate@),
    {
        PredicateRoot(PredicateRootKind::WeatherCheck(predicate))
    }

    /// The day time must be in `range`.
    pub fn time(range: IntRange) -> (r: Self)
        ensures
            r@ == RootView::TimeCheck(range@),
    {
        PredicateRoot(PredicateRootKind::TimeCheck(range))
    }

    /// Holds with probability `chance`.
    pub fn random_chance(chance: F64Bits) -> (r: Self)
        ensures
            r@ == RootView::RandomChance(chance.bits),
    {
        PredicateRoot(PredicateRootKind::RandomChance(chance))
    }

    /// The predicate file `id` must hold.
    pub fn reference(id: RegistryId<PredicateKind>) -> (r: Self)
        ensures
            r@ == RootView::Reference(id@),
    {
        PredicateRoot(PredicateRootKind::Reference(id))
    }

    /// The term must not hold.
    pub fn inverted(term: PredicateRoot) -> (r: Self)
        ensures
            r@ == RootView::Inverted(Box::new(term@)),
    {
        PredicateRoot(PredicateRootKind::Inverted(Box::new(term)))
    }

    /// A raw condition object, written verbatim; `None` when `json` is not
    /// a JSON object.
    pub fn raw(json: RawJson) -> (r: Option<Self>)
        ensures
            match r {
                Some(p) => json.view() is Object && p@ == RootView::Raw(json.view()),
                None => !(json.view() is Object),
            },
    {
        if json.as_value().is_object() {
            Some(PredicateRoot(PredicateRootKind::Raw(json)))
        } else {
            None
        }
    }

    /// Validates the condition at `path`, returning the offending field and
    /// a message.
    pub fn validate_at(&self, path: &str) -> (r: Result<(), (String, String)>)
        ensures
            match (r, spec_root_check(self@, path@)) {
                (Ok(()), Ok(())) => true,
                (Err((f, m)), Err((vf, vm))) => f@ == vf && m@ == vm,
                _ => false,
            },
        decreases self,
    {
        match &self.0 {
            PredicateRootKind::AllOf(terms) => check_terms(terms, path),
            PredicateRootKind::AnyOf(terms) => check_terms(terms, path),
            PredicateRootKind::Inverted(t) => t.validate_at(field(path, "term").as_str()),
            PredicateRootKind::EntityProperties(_, p) => {
                let f = field(path, "predicate");
                match p.validate_at(f.as_str()) {
                    Ok(()) => Ok(()),
                    Err(m) => Err((f, m)),
                }
            },
            PredicateRootKind::LocationCheck(p) => match p.validate_at(path) {
                Ok(()) => Ok(()),
                Err(m) => Err((owned(path), m)),
            },
            PredicateRootKind::WeatherCheck(_) => Ok(()),
            PredicateRootKind::TimeCheck(r) => {
                let f = field(path, "value");
                match r.validate_at(f.as_str()) {
                    Ok(()) => Ok(()),
                    Err(m) => Err((f, m)),
                }
            },
            PredicateRootKind::RandomChance(c) => {
                if c.is_finite() && F64Bits::zero().le(c) && c.le(&F64Bits::one()) {
                    Ok(())
                } else {
                    Err((field(path, "chance"), owned("chance must be finite and in 0.0..=1.0")))
                }
            },
            PredicateRootKind::Reference(_) => Ok(()),
            PredicateRootKind::Raw(j) => {
                if j.as_value().is_object() {
                    Ok(())
                } else {
                    Err((owned(path), owned("raw predicate roots must be JSON objects")))
                }
            },
        }
    }

    /// The rendering for an optional target version.
    pub fn render_for(&self, caps: Option<&VersionCaps>) -> (r: Result<JsonValue, String>)
        ensures
            match (r, spec_root_render(self@, view_caps(caps))) {
                (Ok(j), Ok(v)) => view_json(j) == v,
                (Err(m), Err(v)) => m@ == v,
                _ => false,
            },
        decreases self,
    {
        match &self.0 {
            PredicateRootKind::AllOf(terms) => {
                let js = render_terms(terms, caps)?;
                let mut m = condition_head("minecraft:all_of");
                let ghost jv = view_json(js);
                push_entry(&mut m, "terms", js);
                assert(view_entries(m@) =~= seq![("condition"@, Json::Str("minecraft:all_of"@))]
                    + seq![("terms"@, jv)]);
                Ok(JsonValue::Object(m))
            },
            PredicateRootKind::AnyOf(terms) => {
                let js = render_terms(terms, caps)?;
                let mut m = condition_head("minecraft:any_of");
                let ghost jv = view_json(js);
                push_entry(&mut m, "terms", js);
                assert(view_entries(m@) =~= seq![("condition"@, Json::Str("minecraft:any_of"@))]
                    + seq![("terms"@, jv)]);
                Ok(JsonValue::Object(m))
            },
            PredicateRootKind::Inverted(t) => {
                let j = t.render_for(caps)?;
                let mut m = condition_head("minecraft:inverted");
                let ghost jv = view_json(j);
                push_entry(&mut m, "term", j);
                assert(view_entries(m@) =~= seq![("condition"@, Json::Str("minecraft:inverted"@))]
                    + seq![("term"@, jv)]);
                Ok(JsonValue::Object(m))
            },
            PredicateRootKind::EntityProperties(target, p) => {
                let j = p.render_for_advancement(caps)?;
                let mut m = condition_head("minecraft:entity_properties");
                push_entry(&mut m, "entity", JsonValue::string(target.as_str()));
                push_entry(&mut m, "predicate", j);
                assert(view_entries(m@) =~= seq![
                    ("condition"@, Json::Str("minecraft:entity_properties"@)),
                ] + seq![
                    ("entity"@, Json::Str(spec_target_str(*target))),
                    ("predicate"@, view_json(j)),
                ]);
                Ok(JsonValue::Object(m))
            },
            PredicateRootKind::LocationCheck(p) => {
                let j = p.render_for_advancement(caps)?;
                let mut m = condition_head("minecraft:location_check");
                let ghost jv = view_json(j);
                push_entry(&mut m, "predicate", j);
                assert(view_entries(m@) =~= seq![
                    ("condition"@, Json::Str("minecraft:location_check"@)),
                ] + seq![("predicate"@, jv)]);
                Ok(JsonValue::Object(m))
            },
            PredicateRootKind::WeatherCheck(w) => {
                let j = w.to_json();
                match j {
                    JsonValue::Object(mut es) => {
                        push_entry(&mut es, "condition", JsonValue::string("minecraft:weather_check"));
                        Ok(JsonValue::Object(es))
                    },
                    _ => Err(owned("weather predicates must serialize as JSON objects")),
                }
            },
            PredicateRootKind::TimeCheck(r) => {
                let mut m = condition_head("minecraft:time_check");
                push_entry(&mut m, "value", r.to_json());
                assert(view_entries(m@) =~= seq![("condition"@, Json::Str("minecraft:time_check"@))]
                    + seq![("value"@, spec_int_range_json(r@))]);
                Ok(JsonValue::Object(m))
            },
            PredicateRootKind::RandomChance(c) => {
                let mut m = condition_head("minecraft:random_chance");
                push_entry(&mut m, "chance", JsonValue::Float(*c));
                assert(view_entries(m@) =~= seq![
                    ("condition"@, Json::Str("minecraft:random_chance"@)),
                ] + seq![("chance"@, Json::Float(c.bits))]);
                Ok(JsonValue::Object(m))
            },
            PredicateRootKind::Reference(id) => {
                let mut m = condition_head("minecraft:reference");
                push_entry(&mut m, "name", id.to_json());
                assert(view_entries(m@) =~= seq![("condition"@, Json::Str("minecraft:reference"@))]
                    + seq![("name"@, Json::Str(id@.text()))]);
                Ok(JsonValue::Object(m))
            },
            PredicateRootKind::Raw(j) => {
                if j.as_value().is_object() {
                    Ok(j.as_value().deep_clone())
                } else {
                    Err(owned("raw predicate roots must be JSON objects"))
                }
            },
        }
    }
}

/// Validates composition terms under `path`.
fn check_terms(terms: &Vec<PredicateRoot>, path: &str) -> (r: Result<(), (String, String)>)
    ensures
        match (r, spec_terms_check_or_empty(view_roots(terms@), path@)) {
            (Ok(()), Ok(())) => true,
            (Err((f, m)), Err((vf, vm))) => f@ == vf && m@ == vm,
            _ => false,
        },
    decreases terms, 0int,
{
    proof {
        lemma_view_roots(terms@);
    }
    let prefix = field(path, "terms");
    if terms.len() == 0 {
        return Err((prefix, owned("terms must not be empty")));
    }
    let ghost s = view_roots(terms@);
    let n = terms.len();
    let mut i: usize = 0;
    assert(s.subrange(0, n as int) =~= s);
    while i < n
        invariant
            i <= n,
            n == s.len(),
            n == terms@.len(),
            s == view_roots(terms@),
            forall|k: int| 0 <= k < n ==> #[trigger] s[k] == terms@[k]@,
            spec_terms_check_or_empty(s, path@) == spec_terms_check(
                s.subrange(i as int, n as int),
                prefix@,
                i as nat,
            ),
        decreases n - i,
    {
        let ghost rest = s.subrange(i as int, n as int);
        assert(rest[0] == terms@[i as int]@);
        assert(rest.drop_first() =~= s.subrange(i + 1, n as int));
        assert(decreases_to!(terms => terms@[i as int]));
        let f = indexed(prefix.as_str(), i);
        match terms[i].validate_at(f.as_str()) {
            Ok(()) => {},
            Err(e) => {
                return Err(e);
            },
        }
        i = i + 1;
    }
    Ok(())
}

/// Renders composition terms in order, stopping at the first failure.
fn render_terms(terms: &Vec<PredicateRoot>, caps: Option<&VersionCaps>) -> (r: Result<
    JsonValue,
    String,
>)
    ensures
        match (r, spec_terms_render(view_roots(terms@), view_caps(caps))) {
            (Ok(j), Ok(v)) => view_json(j) == Json::Array(v),
            (Err(m), Err(v)) => m@ == v,
            _ => false,
        },
    decreases terms, 0int,
{
    proof {
        lemma_view_roots(terms@);
        lemma_view_values_empty();
    }
    let ghost s = view_roots(terms@);
    let mut out: Vec<JsonValue> = Vec::new();
    let mut i: usize = 0;
    assert(s.subrange(0, 0) =~= Seq::<RootView>::empty());
    while i < terms.len()
        invariant
            i <= terms.len(),
            s.len() == terms@.len(),
            s == view_roots(terms@),
            forall|k: int| 0 <= k < s.len() ==> #[trigger] s[k] == terms@[k]@,
            spec_terms_render(s.subrange(0, i as int), view_caps(caps)) == Ok::<
                Seq<Json>,
                Seq<char>,
            >(view_values(out@)),
        decreases terms.len() - i,
    {
        assert(decreases_to!(terms => terms@[i as int]));
        assert(s.subrange(0, i + 1).drop_last() =~= s.subrange(0, i as int));
        assert(s.subrange(0, i + 1).last() == terms@[i as int]@);
        match terms[i].render_for(caps) {
            Ok(j) => {
                push_value(&mut out, j);
            },
            Err(m) => {
                proof {
                    lemma_terms_render_prefix_err(s, (i + 1) as nat, view_caps(caps));
                }
                return Err(m);
            },
        }
        i = i + 1;
    }
    assert(s.subrange(0, s.len() as int) =~= s);
    Ok(JsonValue::Array(out))
}

/// A failure rendering a prefix of the terms is the failure of all of them.
pub proof fn lemma_terms_render_prefix_err(s: Seq<RootView>, n: nat, caps: Option<VersionCaps>)
    requires
        n <= s.len(),
        spec_terms_render(s.subrange(0, n as int), caps) is Err,
    ensures
        spec_terms_render(s, caps) == spec_terms_render(s.subrange(0, n as int), caps),
    decreases s.len() - n,
{
    if n < s.len() {
        assert(s.subrange(0, n + 1 as int).drop_last() =~= s.subrange(0, n as int));
        lemma_terms_render_prefix_err(s, n + 1, caps);
    } else {
        assert(s.subrange(0, n as int) =~= s);
    }
}

/// The abstract value of a [`Predicate`].
pub struct PredicateView {
    pub location: ResourceLocationView,
    pub root: RootView,
}

/// A predicate file: a condition at a location.
pub struct Predicate {
    location: RegistryId<PredicateKind>,
    root: PredicateRoot,
}

impl View for Predicate {
    type V = PredicateView;

    closed spec fn view(&self) -> PredicateView {
        PredicateView { location: self.location@, root: self.root@ }
    }
}

/// Export validation of a predicate file: the condition's first failure at
/// `predicate`, as a component-validation error of kind `predicate`.
pub open spec fn spec_predicate_validate(p: PredicateView) -> Result<(), SandErrorView> {
    match spec_root_check(p.root, "predicate"@) {
        Ok(()) => Ok(()),
        Err((f, m)) => Err(spec_component_error(p.location, "predicate"@, f, m)),
    }
}

/// The export result of a predicate file for an optional target: validation,
/// then the rendering, whose failure is reported at `predicate`.
pub open spec fn spec_predicate_content(p: PredicateView, caps: Option<VersionCaps>) -> Result<
    Json,
    SandErrorView,
> {
    match spec_predicate_validate(p) {
        Err(e) => Err(e),
        Ok(()) => match spec_root_render(p.root, caps) {
            Ok(j) => Ok(j),
            Err(m) => Err(spec_component_error(p.location, "predicate"@, "predicate"@, m)),
        },
    }
}

impl Predicate {
    /// A predicate file at `location` holding `root`.
    pub fn new(location: RegistryId<PredicateKind>, root: PredicateRoot) -> (r: Self)
        ensures
            r@ == (PredicateView { location: location@, root: root@ }),
    {
        Predicate { location, root }
    }

    /// A predicate file holding all of `terms`.
    pub fn all_of(location: RegistryId<PredicateKind>, terms: Vec<PredicateRoot>) -> (r: Self)
        ensures
            r@ == (PredicateView {
                location: location@,
                root: RootView::AllOf(terms@.map_values(|t: PredicateRoot| t@)),
            }),
    {
        Self::new(location, PredicateRoot::all_of(terms))
    }

    /// A predicate file holding any of `terms`.
    pub fn any_of(location: RegistryId<PredicateKind>, terms: Vec<PredicateRoot>) -> (r: Self)
        ensures
            r@ == (PredicateView {
                location: location@,
                root: RootView::AnyOf(terms@.map_values(|t: PredicateRoot| t@)),
            }),
    {
        Self::new(location, PredicateRoot::any_of(terms))
    }

    /// The component's resource location.
    pub fn resource_location(&self) -> (r: &ResourceLocation)
        ensures
            r@ == self@.location,
    {
        self.location.as_resource_location()
    }

    /// The datapack directory (`predicate`).
    pub fn component_dir(&self) -> (r: &'static str)
        ensures
            r@ == "predicate"@,
    {
        "predicate"
    }

    /// Export validation.
    pub fn validate(&self) -> (r: Result<(), SandError>)
        ensures
            view_unit_result(r) == spec_predicate_validate(self@),
    {
        match self.root.validate_at("predicate") {
            Ok(()) => Ok(()),
            Err((f, m)) => Err(
                SandError::ComponentValidation {
                    location: self.location.as_resource_location().clone(),
                    kind: owned("predicate"),
                    field: f,
                    message: m,
                },
            ),
        }
    }

    /// The JSON document with no target version; the condition must render.
    pub fn to_json(&self) -> (r: JsonValue)
        requires
            spec_root_render(self@.root, None) is Ok,
        ensures
            Ok::<Json, Seq<char>>(view_json(r)) == spec_root_render(self@.root, None),
    {
        match self.root.render_for(None) {
            Ok(j) => j,
            Err(_) => vstd::pervasive::unreached(),
        }
    }

    /// Validates, then renders the document with no target version.
    pub fn try_content(&self) -> (r: Result<JsonValue, SandError>)
        ensures
            match (r, spec_predicate_content(self@, None)) {
                (Ok(j), Ok(v)) => view_json(j) == v,
                (Err(e), Err(v)) => e@ == v,
                _ => false,
            },
    {
        self.try_content_for(None)
    }

    /// Validates, then renders the document for an optional target version.
    pub fn try_content_for(&self, caps: Option<&VersionCaps>) -> (r: Result<JsonValue, SandError>)
        ensures
            match (r, spec_predicate_content(self@, view_caps(caps))) {
                (Ok(j), Ok(v)) => view_json(j) == v,
                (Err(e), Err(v)) => e@ == v,
                _ => false,
            },
    {
        self.validate()?;
        match self.root.render_for(caps) {
            Ok(j) => Ok(j),
            Err(m) => Err(
                SandError::ComponentValidation {
                    location: self.location.as_resource_location().clone(),
                    kind: owned("predicate"),
                    field: owned("predicate"),
                    message: m,
                },
            ),
        }
    }
}

} // verus!

verus! {

/// The terms pass exactly when each passes at its indexed path.
pub proof fn lemma_terms_check(s: Seq<RootView>, prefix: Seq<char>, offset: nat)
    ensures
        spec_terms_check(s, prefix, offset) is Ok <==> forall|i: int|
            #![trigger s[i]]
            0 <= i < s.len() ==> spec_root_check(s[i], spec_indexed(prefix, (offset + i) as nat))
                is Ok,
    decreases s.len(),
{
    if s.len() > 0 {
        let t = s.drop_first();
        lemma_terms_check(t, prefix, offset + 1);
        assert forall|i: int| 0 < i < s.len() implies #[trigger] s[i] == t[i - 1]
            && offset + i == (offset + 1) + (i - 1) by {}
    }
}

/// What a condition must satisfy to pass at `path`, nested terms being
/// checked at their own paths.
pub open spec fn spec_root_valid(v: RootView, path: Seq<char>) -> bool {
    match v {
        RootView::AllOf(terms) => terms.len() > 0 && forall|i: int|
            #![trigger terms[i]]
            0 <= i < terms.len() ==> spec_root_check(
                terms[i],
                spec_indexed(spec_field(path, "terms"@), i as nat),
            ) is Ok,
        RootView::AnyOf(terms) => terms.len() > 0 && forall|i: int|
            #![trigger terms[i]]
            0 <= i < terms.len() ==> spec_root_check(
                terms[i],
                spec_indexed(spec_field(path, "terms"@), i as nat),
            ) is Ok,
        RootView::Inverted(t) => spec_root_check(*t, spec_field(path, "term"@)) is Ok,
        RootView::EntityProperties(_, p) => crate::predicates::spec_entity_check(
            p,
            spec_field(path, "predicate"@),
        ) is Ok,
        RootView::LocationCheck(p) => crate::predicates::spec_location_check(p, path) is Ok,
        RootView::WeatherCheck(_) => true,
        RootView::TimeCheck(r) => crate::predicates::spec_int_range_check(
            r,
            spec_field(path, "value"@),
        ) is Ok,
        RootView::RandomChance(c) => spec_is_finite(c) && spec_le(spec_zero_bits(), c) && spec_le(
            c,
            spec_one_bits(),
        ),
        RootView::Reference(_) => true,
        RootView::Raw(j) => j is Object,
    }
}

/// The checks of a composite's terms pass exactly when there are terms and
/// each passes at its indexed path.
proof fn lemma_terms_or_empty(terms: Seq<RootView>, path: Seq<char>)
    ensures
        spec_terms_check_or_empty(terms, path) is Ok <==> terms.len() > 0 && forall|i: int|
            #![trigger terms[i]]
            0 <= i < terms.len() ==> spec_root_check(
                terms[i],
                spec_indexed(spec_field(path, "terms"@), i as nat),
            ) is Ok,
        terms.len() == 0 ==> spec_terms_check_or_empty(terms, path) == Err::<
            (),
            (Seq<char>, Seq<char>),
        >((spec_field(path, "terms"@), "terms must not be empty"@)),
{
    lemma_terms_check(terms, spec_field(path, "terms"@), 0);
}

/// A predicate condition passes validation exactly when it satisfies
/// [`spec_root_valid`]: composites need terms, all of which pass; a random
/// chance is a finite number in `0.0..=1.0`; a raw condition is an object;
/// weather checks and references always pass. Empty terms are reported at
/// `terms`, a bad chance at `chance`, and a non-object raw condition at the
/// condition's own path.
pub proof fn law_root_valid(v: RootView, path: Seq<char>)
    ensures
        spec_root_check(v, path) is Ok <==> spec_root_valid(v, path),
        (v matches RootView::AllOf(t) && t.len() == 0) ==> spec_root_check(v, path) == Err::<
            (),
            (Seq<char>, Seq<char>),
        >((spec_field(path, "terms"@), "terms must not be empty"@)),
        (v matches RootView::AnyOf(t) && t.len() == 0) ==> spec_root_check(v, path) == Err::<
            (),
            (Seq<char>, Seq<char>),
        >((spec_field(path, "terms"@), "terms must not be empty"@)),
        (v is RandomChance && !spec_root_valid(v, path)) ==> (spec_root_check(v, path) matches Err(
            e,
        ) && e.0 == spec_field(path, "chance"@)),
        (v is Raw && !spec_root_valid(v, path)) ==> (spec_root_check(v, path) matches Err(e) && e.0
            == path),
{
    match v {
        RootView::AllOf(terms) => {
            lemma_terms_or_empty(terms, path);
            assert(spec_root_check(v, path) == spec_terms_check_or_empty(terms, path));
        },
        RootView::AnyOf(terms) => {
            lemma_terms_or_empty(terms, path);
            assert(spec_root_check(v, path) == spec_terms_check_or_empty(terms, path));
        },
        _ => {},
    }
}

} // verus!
