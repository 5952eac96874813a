//! The typed predicate model shared by advancements, loot tables and
//! predicate files: ranges, item, entity, location, damage, effect, distance
//! and weather predicates.
//!
//! Every predicate with a `raw` constructor writes that raw JSON verbatim
//! and skips typed validation. Validation reports the first failure as
//! `<path>: <message>`, where the path names the offending field.

use vstd::prelude::*;
use vstd::string::*;

use crate::float::{F64Bits, spec_is_finite, spec_lt};
use crate::json::{
    Json, JsonValue, lemma_view_entries_empty, lemma_view_values_empty, push_entry, push_opt,
    push_opt_entry, push_value, view_entries, view_json, view_values,
};
use crate::json::{append_object_entries, spec_object_entries};
use crate::keyed::{keyed_insert, spec_keyed_insert, view_keyed};
use crate::raw::{RawJson, RawSnbt};
use crate::registry::{
    BiomeKind, BlockKind, DamageTypeKind, DimensionKind, EntityTypeKind, ItemKind, RegistryId,
    StatusEffectKind, TagId,
};
use crate::resource_location::ResourceLocationView;
use crate::text::{field, i64_to_decimal, owned, push_char, spec_field, spec_signed_decimal};
use crate::version::{ComponentFeature, VersionCaps, spec_at_least, spec_supports, spec_version_text};

verus! {

/// The abstract value of a check that reports its failure as a message.
pub open spec fn view_msg(r: Result<(), String>) -> Result<(), Seq<char>> {
    match r {
        Ok(()) => Ok(()),
        Err(m) => Err(m@),
    }
}

/// The first failure of two checks run in order.
pub open spec fn then_msg(a: Result<(), Seq<char>>, b: Result<(), Seq<char>>) -> Result<
    (),
    Seq<char>,
> {
    if a is Err {
        a
    } else {
        b
    }
}

/// A failure `path: message`.
pub open spec fn fail_at(path: Seq<char>, message: Seq<char>) -> Result<(), Seq<char>> {
    Err(path + ": "@ + message)
}

/// `path: message`.
fn fail_msg(path: &str, message: &str) -> (r: String)
    ensures
        Err::<(), Seq<char>>(r@) == fail_at(path@, message@),
{
    let mut s = owned(path);
    s.append(": ");
    s.append(message);
    s
}

/// An optional boolean field.
pub open spec fn opt_bool(o: Option<bool>) -> Option<Json> {
    match o {
        Some(b) => Some(Json::Bool(b)),
        None => None,
    }
}

fn opt_bool_json(o: Option<bool>) -> (r: Option<JsonValue>)
    ensures
        match r {
            Some(j) => Some(view_json(j)),
            None => None::<Json>,
        } == opt_bool(o),
{
    match o {
        Some(b) => Some(JsonValue::Bool(b)),
        None => None,
    }
}

// ── IntRange ────────────────────────────────────────────────────────────────

/// The abstract value of an [`IntRange`].
pub struct IntRangeView {
    pub min: Option<i64>,
    pub max: Option<i64>,
}

/// An integer range with optional inclusive bounds.
#[derive(Debug, Clone, Copy, PartialEq)]
pub struct IntRange {
    min: Option<i64>,
    max: Option<i64>,
}

impl View for IntRange {
    type V = IntRangeView;

    closed spec fn view(&self) -> IntRangeView {
        IntRangeView { min: self.min, max: self.max }
    }
}

/// An integer range is valid unless both bounds are set and the minimum
/// exceeds the maximum.
pub open spec fn spec_int_range_check(r: IntRangeView, path: Seq<char>) -> Result<(), Seq<char>> {
    match (r.min, r.max) {
        (Some(a), Some(b)) => if a > b {
            fail_at(
                path,
                "minimum "@ + spec_signed_decimal(a as int) + " exceeds maximum "@
                    + spec_signed_decimal(b as int),
            )
        } else {
            Ok(())
        },
        _ => Ok(()),
    }
}

/// The JSON of an integer range: the number itself when both bounds are the
/// same value, else an object of the bounds that are set.
pub open spec fn spec_int_range_json(r: IntRangeView) -> Json {
    match (r.min, r.max) {
        (Some(a), Some(b)) => if a == b {
            Json::Int(a as int)
        } else {
            Json::Object(seq![("min"@, Json::Int(a as int)), ("max"@, Json::Int(b as int))])
        },
        (Some(a), None) => Json::Object(seq![("min"@, Json::Int(a as int))]),
        (None, Some(b)) => Json::Object(seq![("max"@, Json::Int(b as int))]),
        (None, None) => Json::Object(seq![]),
    }
}

impl Default for IntRange {
    /// The unbounded range.
    fn default() -> (r: Self)
        ensures
            r@ == (IntRangeView { min: None, max: None }),
    {
        IntRange { min: None, max: None }
    }
}

impl IntRange {
    /// Exactly `n`.
    pub fn exact(n: i64) -> (r: Self)
        ensures
            r@ == (IntRangeView { min: Some(n), max: Some(n) }),
    {
        IntRange { min: Some(n), max: Some(n) }
    }

    /// At least `min`.
    pub fn at_least(min: i64) -> (r: Self)
        ensures
            r@ == (IntRangeView { min: Some(min), max: None }),
    {
        IntRange { min: Some(min), max: None }
    }

    /// At most `max`.
    pub fn at_most(max: i64) -> (r: Self)
        ensures
            r@ == (IntRangeView { min: None, max: Some(max) }),
    {
        IntRange { min: None, max: Some(max) }
    }

    /// Between `min` and `max`, inclusive.
    pub fn between(min: i64, max: i64) -> (r: Self)
        ensures
            r@ == (IntRangeView { min: Some(min), max: Some(max) }),
    {
        IntRange { min: Some(min), max: Some(max) }
    }

    /// Validates the range at `path`.
    pub fn validate_at(&self, path: &str) -> (r: Result<(), String>)
        ensures
            view_msg(r) == spec_int_range_check(self@, path@),
    {
        if let (Some(a), Some(b)) = (self.min, self.max) {
            if a > b {
                let mut m = owned("minimum ");
                let da = i64_to_decimal(a);
                m.append(da.as_str());
                m.append(" exceeds maximum ");
                let db = i64_to_decimal(b);
                m.append(db.as_str());
                return Err(fail_msg(path, m.as_str()));
            }
        }
        Ok(())
    }

    /// The JSON of this range.
    pub fn to_json(&self) -> (r: JsonValue)
        ensures
            view_json(r) == spec_int_range_json(self@),
    {
        let mut m: Vec<(String, JsonValue)> = Vec::new();
        proof {
            lemma_view_entries_empty();
        }
        match (self.min, self.max) {
            (Some(a), Some(b)) => {
                if a == b {
                    return JsonValue::Int(a);
                }
                push_entry(&mut m, "min", JsonValue::Int(a));
                push_entry(&mut m, "max", JsonValue::Int(b));
                assert(view_entries(m@) =~= seq![
                    ("min"@, Json::Int(a as int)),
                    ("max"@, Json::Int(b as int)),
                ]);
            },
            (Some(a), None) => {
                push_entry(&mut m, "min", JsonValue::Int(a));
                assert(view_entries(m@) =~= seq![("min"@, Json::Int(a as int))]);
            },
            (None, Some(b)) => {
                push_entry(&mut m, "max", JsonValue::Int(b));
                assert(view_entries(m@) =~= seq![("max"@, Json::Int(b as int))]);
            },
            (None, None) => {
                assert(view_entries(m@) =~= Seq::<(Seq<char>, Json)>::empty());
            },
        }
        JsonValue::Object(m)
    }
}

// ── FloatRange ──────────────────────────────────────────────────────────────

/// The abstract value of a [`FloatRange`]: the bounds' bit patterns.
pub struct FloatRangeView {
    pub min: Option<u64>,
    pub max: Option<u64>,
}

/// A floating-point range with optional inclusive bounds.
#[derive(Debug, Clone, Copy, PartialEq)]
pub struct FloatRange {
    min: Option<F64Bits>,
    max: Option<F64Bits>,
}

impl View for FloatRange {
    type V = FloatRangeView;

    closed spec fn view(&self) -> FloatRangeView {
        FloatRangeView {
            min: match self.min {
                Some(f) => Some(f.bits),
                None => None,
            },
            max: match self.max {
                Some(f) => Some(f.bits),
                None => None,
            },
        }
    }
}

/// A set bound must be finite.
pub open spec fn spec_bound_check(b: Option<u64>, path: Seq<char>, name: Seq<char>) -> Result<
    (),
    Seq<char>,
> {
    match b {
        Some(v) => if spec_is_finite(v) {
            Ok(())
        } else {
            fail_at(spec_field(path, name), "value must be finite"@)
        },
        None => Ok(()),
    }
}

/// A float range is valid when its set bounds are finite (minimum first)
/// and the minimum does not exceed the maximum.
///
/// The message for a minimum above the maximum does not quote the two
/// bounds: the library carries floats as bit patterns and does not render
/// them as decimal text.
pub open spec fn spec_float_range_check(r: FloatRangeView, path: Seq<char>) -> Result<
    (),
    Seq<char>,
> {
    then_msg(
        spec_bound_check(r.min, path, "min"@),
        then_msg(
            spec_bound_check(r.max, path, "max"@),
            match (r.min, r.max) {
                (Some(a), Some(b)) => if spec_lt(b, a) {
                    fail_at(path, "minimum exceeds maximum"@)
                } else {
                    Ok(())
                },
                _ => Ok(()),
            },
        ),
    )
}

/// The JSON of a float range: an object of the bounds that are set.
pub open spec fn spec_float_range_json(r: FloatRangeView) -> Json {
    Json::Object(
        push_opt(
            push_opt(
                seq![],
                "min"@,
                match r.min {
                    Some(v) => Some(Json::Float(v)),
                    None => None,
                },
            ),
            "max"@,
            match r.max {
                Some(v) => Some(Json::Float(v)),
                None => None,
            },
        ),
    )
}

impl FloatRange {
    /// At least `min`.
    pub fn at_least(min: F64Bits) -> (r: Self)
        ensures
            r@ == (FloatRangeView { min: Some(min.bits), max: None }),
    {
        FloatRange { min: Some(min), max: None }
    }

    /// At most `max`.
    pub fn at_most(max: F64Bits) -> (r: Self)
        ensures
            r@ == (FloatRangeView { min: None, max: Some(max.bits) }),
    {
        FloatRange { min: None, max: Some(max) }
    }

    /// Between `min` and `max`, inclusive.
    pub fn between(min: F64Bits, max: F64Bits) -> (r: Self)
        ensures
            r@ == (FloatRangeView { min: Some(min.bits), max: Some(max.bits) }),
    {
        FloatRange { min: Some(min), max: Some(max) }
    }

    /// Validates the range at `path`.
    pub fn validate_at(&self, path: &str) -> (r: Result<(), String>)
        ensures
            view_msg(r) == spec_float_range_check(self@, path@),
    {
        if let Some(v) = self.min {
            if !v.is_finite() {
                return Err(fail_msg(field(path, "min").as_str(), "value must be finite"));
            }
        }
        if let Some(v) = self.max {
            if !v.is_finite() {
                return Err(fail_msg(field(path, "max").as_str(), "value must be finite"));
            }
        }
        if let (Some(a), Some(b)) = (self.min, self.max) {
            if b.lt(&a) {
                return Err(fail_msg(path, "minimum exceeds maximum"));
            }
        }
        Ok(())
    }

    /// The JSON of this range.
    pub fn to_json(&self) -> (r: JsonValue)
        ensures
            view_json(r) == spec_float_range_json(self@),
    {
        let mut m: Vec<(String, JsonValue)> = Vec::new();
        proof {
            lemma_view_entries_empty();
        }
        let a = match self.min {
            Some(f) => Some(JsonValue::Float(f)),
            None => None,
        };
        push_opt_entry(&mut m, "min", a);
        let b = match self.max {
            Some(f) => Some(JsonValue::Float(f)),
            None => None,
        };
        push_opt_entry(&mut m, "max", b);
        JsonValue::Object(m)
    }
}

/// The JSON of an optional float range field.
pub open spec fn opt_float_range(o: Option<FloatRangeView>) -> Option<Json> {
    match o {
        Some(r) => Some(spec_float_range_json(r)),
        None => None,
    }
}

/// The check of an optional float range field at `path.name`.
pub open spec fn spec_opt_float_range_check(
    o: Option<FloatRangeView>,
    path: Seq<char>,
    name: Seq<char>,
) -> Result<(), Seq<char>> {
    match o {
        Some(r) => spec_float_range_check(r, spec_field(path, name)),
        None => Ok(()),
    }
}

/// The view of an optional float range.
pub open spec fn view_opt_float(o: Option<FloatRange>) -> Option<FloatRangeView> {
    match o {
        Some(r) => Some(r@),
        None => None,
    }
}

fn check_opt_float(o: &Option<FloatRange>, path: &str, name: &str) -> (r: Result<(), String>)
    ensures
        view_msg(r) == spec_opt_float_range_check(view_opt_float(*o), path@, name@),
{
    match o {
        Some(r) => r.validate_at(field(path, name).as_str()),
        None => Ok(()),
    }
}

fn opt_float_json(o: &Option<FloatRange>) -> (r: Option<JsonValue>)
    ensures
        match r {
            Some(j) => Some(view_json(j)),
            None => None::<Json>,
        } == opt_float_range(view_opt_float(*o)),
{
    match o {
        Some(r) => Some(r.to_json()),
        None => None,
    }
}

// ── DistancePredicate ───────────────────────────────────────────────────────

/// The abstract value of a [`DistancePredicate`].
pub struct DistanceView {
    pub x: Option<FloatRangeView>,
    pub y: Option<FloatRangeView>,
    pub z: Option<FloatRangeView>,
    pub horizontal: Option<FloatRangeView>,
    pub absolute: Option<FloatRangeView>,
}

/// Distance from a reference point, per axis, horizontally or absolutely.
#[derive(Debug, Clone)]
pub struct DistancePredicate {
    x: Option<FloatRange>,
    y: Option<FloatRange>,
    z: Option<FloatRange>,
    horizontal: Option<FloatRange>,
    absolute: Option<FloatRange>,
}

impl View for DistancePredicate {
    type V = DistanceView;

    closed spec fn view(&self) -> DistanceView {
        DistanceView {
            x: view_opt_float(self.x),
            y: view_opt_float(self.y),
            z: view_opt_float(self.z),
            horizontal: view_opt_float(self.horizontal),
            absolute: view_opt_float(self.absolute),
        }
    }
}

/// The first invalid range of a distance predicate: x, y, z, horizontal,
/// then absolute.
pub open spec fn spec_distance_check(d: DistanceView, path: Seq<char>) -> Result<(), Seq<char>> {
    then_msg(
        spec_opt_float_range_check(d.x, path, "x"@),
        then_msg(
            spec_opt_float_range_check(d.y, path, "y"@),
            then_msg(
                spec_opt_float_range_check(d.z, path, "z"@),
                then_msg(
                    spec_opt_float_range_check(d.horizontal, path, "horizontal"@),
                    spec_opt_float_range_check(d.absolute, path, "absolute"@),
                ),
            ),
        ),
    )
}

/// The JSON of a distance predicate: an object of the ranges that are set.
pub open spec fn spec_distance_json(d: DistanceView) -> Json {
    Json::Object(
        push_opt(
            push_opt(
                push_opt(
                    push_opt(push_opt(seq![], "x"@, opt_float_range(d.x)), "y"@, opt_float_range(d.y)),
                    "z"@,
                    opt_float_range(d.z),
                ),
                "horizontal"@,
                opt_float_range(d.horizontal),
            ),
            "absolute"@,
            opt_float_range(d.absolute),
        ),
    )
}

impl Default for DistancePredicate {
    /// No constraint on any axis.
    fn default() -> (r: Self)
        ensures
            r@ == (DistanceView { x: None, y: None, z: None, horizontal: None, absolute: None }),
    {
        DistancePredicate { x: None, y: None, z: None, horizontal: None, absolute: None }
    }
}

impl DistancePredicate {
    /// No constraint on any axis.
    pub fn new() -> (r: Self)
        ensures
            r@ == (DistanceView { x: None, y: None, z: None, horizontal: None, absolute: None }),
    {
        Self::default()
    }

    /// A horizontal distance of at most `max`.
    pub fn horizontal_at_most(max: F64Bits) -> (r: Self)
        ensures
            r@ == (DistanceView {
                x: None,
                y: None,
                z: None,
                horizontal: Some(FloatRangeView { min: None, max: Some(max.bits) }),
                absolute: None,
            }),
    {
        Self::new().horizontal(FloatRange::at_most(max))
    }

    /// An absolute distance of at most `max`.
    pub fn absolute_at_most(max: F64Bits) -> (r: Self)
        ensures
            r@ == (DistanceView {
                x: None,
                y: None,
                z: None,
                horizontal: None,
                absolute: Some(FloatRangeView { min: None, max: Some(max.bits) }),
            }),
    {
        Self::new().absolute(FloatRange::at_most(max))
    }

    /// Sets the x range.
    pub fn x(self, r: FloatRange) -> (out: Self)
        ensures
            out@ == (DistanceView { x: Some(r@), ..self@ }),
    {
        let mut s = self;
        s.x = Some(r);
        s
    }

    /// Sets the y range.
    pub fn y(self, r: FloatRange) -> (out: Self)
        ensures
            out@ == (DistanceView { y: Some(r@), ..self@ }),
    {
        let mut s = self;
        s.y = Some(r);
        s
    }

    /// Sets the z range.
    pub fn z(self, r: FloatRange) -> (out: Self)
        ensures
            out@ == (DistanceView { z: Some(r@), ..self@ }),
    {
        let mut s = self;
        s.z = Some(r);
        s
    }

    /// Sets the horizontal range.
    pub fn horizontal(self, r: FloatRange) -> (out: Self)
        ensures
            out@ == (DistanceView { horizontal: Some(r@), ..self@ }),
    {
        let mut s = self;
        s.horizontal = Some(r);
        s
    }

    /// Sets the absolute range.
    pub fn absolute(self, r: FloatRange) -> (out: Self)
        ensures
            out@ == (DistanceView { absolute: Some(r@), ..self@ }),
    {
        let mut s = self;
        s.absolute = Some(r);
        s
    }

    /// Validates the predicate at `path`.
    pub fn validate_at(&self, path: &str) -> (r: Result<(), String>)
        ensures
            view_msg(r) == spec_distance_check(self@, path@),
    {
        check_opt_float(&self.x, path, "x")?;
        check_opt_float(&self.y, path, "y")?;
        check_opt_float(&self.z, path, "z")?;
        check_opt_float(&self.horizontal, path, "horizontal")?;
        check_opt_float(&self.absolute, path, "absolute")
    }

    /// The JSON of this predicate.
    pub fn to_json(&self) -> (r: JsonValue)
        ensures
            view_json(r) == spec_distance_json(self@),
    {
        let mut m: Vec<(String, JsonValue)> = Vec::new();
        proof {
            lemma_view_entries_empty();
        }
        push_opt_entry(&mut m, "x", opt_float_json(&self.x));
        push_opt_entry(&mut m, "y", opt_float_json(&self.y));
        push_opt_entry(&mut m, "z", opt_float_json(&self.z));
        push_opt_entry(&mut m, "horizontal", opt_float_json(&self.horizontal));
        push_opt_entry(&mut m, "absolute", opt_float_json(&self.absolute));
        JsonValue::Object(m)
    }
}

// ── EffectPredicate ─────────────────────────────────────────────────────────

/// The abstract value of an [`EffectPredicate`].
pub struct EffectView {
    pub amplifier: Option<IntRangeView>,
    pub duration: Option<IntRangeView>,
    pub ambient: Option<bool>,
    pub visible: Option<bool>,
}

/// A check on an active status effect.
#[derive(Debug, Clone)]
pub struct EffectPredicate {
    amplifier: Option<IntRange>,
    duration: Option<IntRange>,
    ambient: Option<bool>,
    visible: Option<bool>,
}

/// The view of an optional integer range.
pub open spec fn view_opt_int(o: Option<IntRange>) -> Option<IntRangeView> {
    match o {
        Some(r) => Some(r@),
        None => None,
    }
}

/// The JSON of an optional integer range field.
pub open spec fn opt_int_range(o: Option<IntRangeView>) -> Option<Json> {
    match o {
        Some(r) => Some(spec_int_range_json(r)),
        None => None,
    }
}

/// The check of an optional integer range field at `path.name`.
pub open spec fn spec_opt_int_range_check(
    o: Option<IntRangeView>,
    path: Seq<char>,
    name: Seq<char>,
) -> Result<(), Seq<char>> {
    match o {
        Some(r) => spec_int_range_check(r, spec_field(path, name)),
        None => Ok(()),
    }
}

fn opt_int_json(o: &Option<IntRange>) -> (r: Option<JsonValue>)
    ensures
        match r {
            Some(j) => Some(view_json(j)),
            None => None::<Json>,
        } == opt_int_range(view_opt_int(*o)),
{
    match o {
        Some(r) => Some(r.to_json()),
        None => None,
    }
}

fn check_opt_int(o: &Option<IntRange>, path: &str, name: &str) -> (r: Result<(), String>)
    ensures
        view_msg(r) == spec_opt_int_range_check(view_opt_int(*o), path@, name@),
{
    match o {
        Some(r) => r.validate_at(field(path, name).as_str()),
        None => Ok(()),
    }
}

impl View for EffectPredicate {
    type V = EffectView;

    closed spec fn view(&self) -> EffectView {
        EffectView {
            amplifier: view_opt_int(self.amplifier),
            duration: view_opt_int(self.duration),
            ambient: self.ambient,
            visible: self.visible,
        }
    }
}

/// The first invalid range of an effect predicate: amplifier, then duration.
pub open spec fn spec_effect_check(e: EffectView, path: Seq<char>) -> Result<(), Seq<char>> {
    then_msg(
        spec_opt_int_range_check(e.amplifier, path, "amplifier"@),
        spec_opt_int_range_check(e.duration, path, "duration"@),
    )
}

/// The JSON of an effect predicate: an object of the constraints that are set.
pub open spec fn spec_effect_json(e: EffectView) -> Json {
    Json::Object(
        push_opt(
            push_opt(
                push_opt(push_opt(seq![], "amplifier"@, opt_int_range(e.amplifier)), "duration"@, opt_int_range(e.duration)),
                "ambient"@,
                opt_bool(e.ambient),
            ),
            "visible"@,
            opt_bool(e.visible),
        ),
    )
}

impl Default for EffectPredicate {
    /// No constraint.
    fn default() -> (r: Self)
        ensures
            r@ == (EffectView { amplifier: None, duration: None, ambient: None, visible: None }),
    {
        EffectPredicate { amplifier: None, duration: None, ambient: None, visible: None }
    }
}

impl EffectPredicate {
    /// No constraint.
    pub fn new() -> (r: Self)
        ensures
            r@ == (EffectView { amplifier: None, duration: None, ambient: None, visible: None }),
    {
        Self::default()
    }

    /// Sets the amplifier range.
    pub fn amplifier(self, r: IntRange) -> (out: Self)
        ensures
            out@ == (EffectView { amplifier: Some(r@), ..self@ }),
    {
        let mut s = self;
        s.amplifier = Some(r);
        s
    }

    /// Sets the duration range.
    pub fn duration(self, r: IntRange) -> (out: Self)
        ensures
            out@ == (EffectView { duration: Some(r@), ..self@ }),
    {
        let mut s = self;
        s.duration = Some(r);
        s
    }

    /// Requires the effect to be ambient or not.
    pub fn ambient(self, v: bool) -> (out: Self)
        ensures
            out@ == (EffectView { ambient: Some(v), ..self@ }),
    {
        let mut s = self;
        s.ambient = Some(v);
        s
    }

    /// Requires the effect's particles to be visible or not.
    pub fn visible(self, v: bool) -> (out: Self)
        ensures
            out@ == (EffectView { visible: Some(v), ..self@ }),
    {
        let mut s = self;
        s.visible = Some(v);
        s
    }

    /// Validates the predicate at `path`.
    pub fn validate_at(&self, path: &str) -> (r: Result<(), String>)
        ensures
            view_msg(r) == spec_effect_check(self@, path@),
    {
        check_opt_int(&self.amplifier, path, "amplifier")?;
        check_opt_int(&self.duration, path, "duration")
    }

    /// The JSON of this predicate.
    pub fn to_json(&self) -> (r: JsonValue)
        ensures
            view_json(r) == spec_effect_json(self@),
    {
        let mut m: Vec<(String, JsonValue)> = Vec::new();
        proof {
            lemma_view_entries_empty();
        }
        push_opt_entry(&mut m, "amplifier", opt_int_json(&self.amplifier));
        push_opt_entry(&mut m, "duration", opt_int_json(&self.duration));
        push_opt_entry(&mut m, "ambient", opt_bool_json(self.ambient));
        push_opt_entry(&mut m, "visible", opt_bool_json(self.visible));
        JsonValue::Object(m)
    }
}

// ── EntityFlags ─────────────────────────────────────────────────────────────

/// The abstract value of [`EntityFlags`].
pub struct FlagsView {
    pub is_on_fire: Option<bool>,
    pub is_sneaking: Option<bool>,
    pub is_sprinting: Option<bool>,
    pub is_swimming: Option<bool>,
    pub is_baby: Option<bool>,
}

/// Entity state flags.
#[derive(Debug, Clone)]
pub struct EntityFlags {
    is_on_fire: Option<bool>,
    is_sneaking: Option<bool>,
    is_sprinting: Option<bool>,
    is_swimming: Option<bool>,
    is_baby: Option<bool>,
}

impl View for EntityFlags {
    type V = FlagsView;

    closed spec fn view(&self) -> FlagsView {
        FlagsView {
            is_on_fire: self.is_on_fire,
            is_sneaking: self.is_sneaking,
            is_sprinting: self.is_sprinting,
            is_swimming: self.is_swimming,
            is_baby: self.is_baby,
        }
    }
}

/// The JSON of entity flags: an object of the flags that are set.
pub open spec fn spec_flags_json(f: FlagsView) -> Json {
    Json::Object(
        push_opt(
            push_opt(
                push_opt(
                    push_opt(push_opt(seq![], "is_on_fire"@, opt_bool(f.is_on_fire)), "is_sneaking"@, opt_bool(f.is_sneaking)),
                    "is_sprinting"@,
                    opt_bool(f.is_sprinting),
                ),
                "is_swimming"@,
                opt_bool(f.is_swimming),
            ),
            "is_baby"@,
            opt_bool(f.is_baby),
        ),
    )
}

impl Default for EntityFlags {
    /// No flag constrained.
    fn default() -> (r: Self)
        ensures
            r@ == (FlagsView {
                is_on_fire: None,
                is_sneaking: None,
                is_sprinting: None,
                is_swimming: None,
                is_baby: None,
            }),
    {
        EntityFlags {
            is_on_fire: None,
            is_sneaking: None,
            is_sprinting: None,
            is_swimming: None,
            is_baby: None,
        }
    }
}

impl EntityFlags {
    /// No flag constrained.
    pub fn new() -> (r: Self)
        ensures
            r@ == (FlagsView {
                is_on_fire: None,
                is_sneaking: None,
                is_sprinting: None,
                is_swimming: None,
                is_baby: None,
            }),
    {
        Self::default()
    }

    /// Requires the entity to be on fire or not.
    pub fn on_fire(self, v: bool) -> (out: Self)
        ensures
            out@ == (FlagsView { is_on_fire: Some(v), ..self@ }),
    {
        let mut s = self;
        s.is_on_fire = Some(v);
        s
    }

    /// Requires the entity to be sneaking or not.
    pub fn sneaking(self, v: bool) -> (out: Self)
        ensures
            out@ == (FlagsView { is_sneaking: Some(v), ..self@ }),
    {
        let mut s = self;
        s.is_sneaking = Some(v);
        s
    }

    /// Requires the entity to be sprinting or not.
    pub fn sprinting(self, v: bool) -> (out: Self)
        ensures
            out@ == (FlagsView { is_sprinting: Some(v), ..self@ }),
    {
        let mut s = self;
        s.is_sprinting = Some(v);
        s
    }

    /// Requires the entity to be swimming or not.
    pub fn swimming(self, v: bool) -> (out: Self)
        ensures
            out@ == (FlagsView { is_swimming: Some(v), ..self@ }),
    {
        let mut s = self;
        s.is_swimming = Some(v);
        s
    }

    /// Requires the entity to be a baby or not.
    pub fn baby(self, v: bool) -> (out: Self)
        ensures
            out@ == (FlagsView { is_baby: Some(v), ..self@ }),
    {
        let mut s = self;
        s.is_baby = Some(v);
        s
    }

    /// The JSON of these flags.
    pub fn to_json(&self) -> (r: JsonValue)
        ensures
            view_json(r) == spec_flags_json(self@),
    {
        let mut m: Vec<(String, JsonValue)> = Vec::new();
        proof {
            lemma_view_entries_empty();
        }
        push_opt_entry(&mut m, "is_on_fire", opt_bool_json(self.is_on_fire));
        push_opt_entry(&mut m, "is_sneaking", opt_bool_json(self.is_sneaking));
        push_opt_entry(&mut m, "is_sprinting", opt_bool_json(self.is_sprinting));
        push_opt_entry(&mut m, "is_swimming", opt_bool_json(self.is_swimming));
        push_opt_entry(&mut m, "is_baby", opt_bool_json(self.is_baby));
        JsonValue::Object(m)
    }
}


// ── Shared pieces ───────────────────────────────────────────────────────────

/// The view of an optional raw JSON value.
pub open spec fn view_opt_raw(o: Option<RawJson>) -> Option<Json> {
    match o {
        Some(r) => Some(r.view()),
        None => None,
    }
}

/// A JSON array of identifiers.
pub open spec fn spec_ids_json(s: Seq<ResourceLocationView>) -> Json {
    Json::Array(s.map_values(|v: ResourceLocationView| Json::Str(v.text())))
}

/// The identifiers of a list of registry IDs.
pub open spec fn view_ids<K>(v: Seq<RegistryId<K>>) -> Seq<ResourceLocationView> {
    v.map_values(|i: RegistryId<K>| i@)
}

/// A JSON array of registry IDs.
fn ids_json<K>(v: &Vec<RegistryId<K>>) -> (r: JsonValue)
    ensures
        view_json(r) == spec_ids_json(view_ids(v@)),
{
    let mut out: Vec<JsonValue> = Vec::new();
    let mut i: usize = 0;
    while i < v.len()
        invariant
            i <= v.len(),
            view_values(out@) == view_ids(v@.subrange(0, i as int)).map_values(
                |x: ResourceLocationView| Json::Str(x.text()),
            ),
        decreases v.len() - i,
    {
        push_value(&mut out, v[i].to_json());
        assert(view_ids(v@.subrange(0, i + 1)).map_values(
            |x: ResourceLocationView| Json::Str(x.text()),
        ) =~= view_ids(v@.subrange(0, i as int)).map_values(
            |x: ResourceLocationView| Json::Str(x.text()),
        ).push(Json::Str(v@[i as int]@.text())));
        i = i + 1;
    }
    assert(v@.subrange(0, v@.len() as int) =~= v@);
    JsonValue::Array(out)
}

fn opt_raw_json(o: &Option<RawJson>) -> (r: Option<JsonValue>)
    ensures
        match r {
            Some(j) => Some(view_json(j)),
            None => None::<Json>,
        } == view_opt_raw(*o),
{
    match o {
        Some(r) => Some(r.as_value().deep_clone()),
        None => None,
    }
}

// ── WeatherPredicate ────────────────────────────────────────────────────────

/// The abstract value of a [`WeatherPredicate`].
pub struct WeatherView {
    pub raining: Option<bool>,
    pub thundering: Option<bool>,
    pub raw: Option<Json>,
}

/// A weather check.
#[derive(Debug)]
pub struct WeatherPredicate {
    raining: Option<bool>,
    thundering: Option<bool>,
    raw: Option<RawJson>,
}

impl View for WeatherPredicate {
    type V = WeatherView;

    closed spec fn view(&self) -> WeatherView {
        WeatherView { raining: self.raining, thundering: self.thundering, raw: view_opt_raw(self.raw) }
    }
}

/// The JSON of a weather predicate: the raw value, or the flags that are set.
pub open spec fn spec_weather_json(w: WeatherView) -> Json {
    match w.raw {
        Some(j) => j,
        None => Json::Object(
            push_opt(push_opt(seq![], "raining"@, opt_bool(w.raining)), "thundering"@, opt_bool(w.thundering)),
        ),
    }
}

impl WeatherPredicate {
    /// No constraint.
    pub fn new() -> (r: Self)
        ensures
            r@ == (WeatherView { raining: None, thundering: None, raw: None }),
    {
        WeatherPredicate { raining: None, thundering: None, raw: None }
    }

    /// A raw weather predicate, written verbatim.
    pub fn raw(v: RawJson) -> (r: Self)
        ensures
            r@ == (WeatherView { raining: None, thundering: None, raw: Some(v.view()) }),
    {
        WeatherPredicate { raining: None, thundering: None, raw: Some(v) }
    }

    /// Requires rain or its absence.
    pub fn raining(self, v: bool) -> (out: Self)
        ensures
            out@ == (WeatherView { raining: Some(v), ..self@ }),
    {
        let mut s = self;
        s.raining = Some(v);
        s
    }

    /// Requires thunder or its absence.
    pub fn thundering(self, v: bool) -> (out: Self)
        ensures
            out@ == (WeatherView { thundering: Some(v), ..self@ }),
    {
        let mut s = self;
        s.thundering = Some(v);
        s
    }

    /// Validates the predicate: every weather predicate is valid.
    pub fn validate_at(&self, path: &str) -> (r: Result<(), String>)
        ensures
            r is Ok,
    {
        Ok(())
    }

    /// The JSON of this predicate.
    pub fn to_json(&self) -> (r: JsonValue)
        ensures
            view_json(r) == spec_weather_json(self@),
    {
        if let Some(raw) = &self.raw {
            return raw.as_value().deep_clone();
        }
        let mut m: Vec<(String, JsonValue)> = Vec::new();
        proof {
            lemma_view_entries_empty();
        }
        push_opt_entry(&mut m, "raining", opt_bool_json(self.raining));
        push_opt_entry(&mut m, "thundering", opt_bool_json(self.thundering));
        JsonValue::Object(m)
    }
}

// ── BlockPredicate ──────────────────────────────────────────────────────────

/// The abstract value of a [`BlockPredicate`].
pub struct BlockView {
    pub blocks: Option<Seq<ResourceLocationView>>,
    pub tag: Option<ResourceLocationView>,
    pub nbt: Option<Seq<char>>,
    pub state: Option<Seq<(Seq<char>, Seq<char>)>>,
    pub raw: Option<Json>,
}

/// A block check: block IDs, a block tag, NBT and block state properties.
#[derive(Debug)]
pub struct BlockPredicate {
    blocks: Option<Vec<RegistryId<BlockKind>>>,
    tag: Option<TagId<RegistryId<BlockKind>>>,
    nbt: Option<RawSnbt>,
    /// Block state properties as `(name, value)` pairs, written in the order
    /// given; a later pair for a name supersedes an earlier one in the written
    /// object. A list stands in for a `BTreeMap<String, String>`, of whose
    /// contents Verus could prove nothing.
    state: Option<Vec<(String, String)>>,
    raw: Option<RawJson>,
}

/// The view of block state properties.
pub open spec fn view_state(s: Seq<(String, String)>) -> Seq<(Seq<char>, Seq<char>)> {
    s.map_values(|p: (String, String)| (p.0@, p.1@))
}

impl View for BlockPredicate {
    type V = BlockView;

    closed spec fn view(&self) -> BlockView {
        BlockView {
            blocks: match self.blocks {
                Some(v) => Some(view_ids(v@)),
                None => None,
            },
            tag: match self.tag {
                Some(t) => Some(t@),
                None => None,
            },
            nbt: match self.nbt {
                Some(n) => Some(n@),
                None => None,
            },
            state: match self.state {
                Some(s) => Some(view_state(s@)),
                None => None,
            },
            raw: view_opt_raw(self.raw),
        }
    }
}

/// A typed block predicate must not list zero blocks.
pub open spec fn spec_block_check(b: BlockView, path: Seq<char>) -> Result<(), Seq<char>> {
    if b.raw is Some {
        Ok(())
    } else if b.blocks matches Some(v) && v.len() == 0 {
        fail_at(spec_field(path, "blocks"@), "matcher list must not be empty"@)
    } else {
        Ok(())
    }
}

/// The JSON of block state properties.
pub open spec fn spec_state_json(s: Seq<(Seq<char>, Seq<char>)>) -> Json {
    Json::Object(s.map_values(|p: (Seq<char>, Seq<char>)| (p.0, Json::Str(p.1))))
}

/// The JSON of a block predicate: the raw value, or the constraints that are set.
pub open spec fn spec_block_json(b: BlockView) -> Json {
    match b.raw {
        Some(j) => j,
        None => Json::Object(
            push_opt(
                push_opt(
                    push_opt(
                        push_opt(
                            seq![],
                            "blocks"@,
                            match b.blocks {
                                Some(v) => Some(spec_ids_json(v)),
                                None => None,
                            },
                        ),
                        "tag"@,
                        match b.tag {
                            Some(t) => Some(Json::Str(t.text())),
                            None => None,
                        },
                    ),
                    "nbt"@,
                    match b.nbt {
                        Some(n) => Some(Json::Str(n)),
                        None => None,
                    },
                ),
                "state"@,
                match b.state {
                    Some(s) => Some(spec_state_json(s)),
                    None => None,
                },
            ),
        ),
    }
}

fn state_json(s: &Vec<(String, String)>) -> (r: JsonValue)
    ensures
        view_json(r) == spec_state_json(view_state(s@)),
{
    let mut out: Vec<(String, JsonValue)> = Vec::new();
    proof {
        lemma_view_entries_empty();
    }
    let mut i: usize = 0;
    while i < s.len()
        invariant
            i <= s.len(),
            view_entries(out@) == view_state(s@.subrange(0, i as int)).map_values(
                |p: (Seq<char>, Seq<char>)| (p.0, Json::Str(p.1)),
            ),
        decreases s.len() - i,
    {
        push_entry(&mut out, s[i].0.as_str(), JsonValue::Str(s[i].1.clone()));
        assert(view_state(s@.subrange(0, i + 1)).map_values(
            |p: (Seq<char>, Seq<char>)| (p.0, Json::Str(p.1)),
        ) =~= view_state(s@.subrange(0, i as int)).map_values(
            |p: (Seq<char>, Seq<char>)| (p.0, Json::Str(p.1)),
        ).push((s@[i as int].0@, Json::Str(s@[i as int].1@))));
        i = i + 1;
    }
    assert(s@.subrange(0, s@.len() as int) =~= s@);
    JsonValue::Object(out)
}

impl BlockPredicate {
    /// No constraint.
    pub fn new() -> (r: Self)
        ensures
            r@ == (BlockView { blocks: None, tag: None, nbt: None, state: None, raw: None }),
    {
        BlockPredicate { blocks: None, tag: None, nbt: None, state: None, raw: None }
    }

    /// A raw block predicate, written verbatim.
    pub fn raw(v: RawJson) -> (r: Self)
        ensures
            r@ == (BlockView { blocks: None, tag: None, nbt: None, state: None, raw: Some(v.view()) }),
    {
        BlockPredicate { blocks: None, tag: None, nbt: None, state: None, raw: Some(v) }
    }

    /// Matches any of the given blocks.
    pub fn blocks(self, ids: Vec<RegistryId<BlockKind>>) -> (out: Self)
        ensures
            out@ == (BlockView { blocks: Some(view_ids(ids@)), ..self@ }),
    {
        let mut s = self;
        s.blocks = Some(ids);
        s
    }

    /// Matches blocks in a tag.
    pub fn tag(self, tag: TagId<RegistryId<BlockKind>>) -> (out: Self)
        ensures
            out@ == (BlockView { tag: Some(tag@), ..self@ }),
    {
        let mut s = self;
        s.tag = Some(tag);
        s
    }

    /// Requires block entity NBT.
    pub fn nbt(self, nbt: RawSnbt) -> (out: Self)
        ensures
            out@ == (BlockView { nbt: Some(nbt@), ..self@ }),
    {
        let mut s = self;
        s.nbt = Some(nbt);
        s
    }

    /// Requires block state properties.
    pub fn state(self, state: Vec<(String, String)>) -> (out: Self)
        ensures
            out@ == (BlockView { state: Some(view_state(state@)), ..self@ }),
    {
        let mut s = self;
        s.state = Some(state);
        s
    }

    /// Validates the predicate at `path`.
    pub fn validate_at(&self, path: &str) -> (r: Result<(), String>)
        ensures
            view_msg(r) == spec_block_check(self@, path@),
    {
        if self.raw.is_some() {
            return Ok(());
        }
        if let Some(v) = &self.blocks {
            if v.len() == 0 {
                return Err(
                    fail_msg(field(path, "blocks").as_str(), "matcher list must not be empty"),
                );
            }
        }
        Ok(())
    }

    /// The JSON of this predicate.
    pub fn to_json(&self) -> (r: JsonValue)
        ensures
            view_json(r) == spec_block_json(self@),
    {
        if let Some(raw) = &self.raw {
            return raw.as_value().deep_clone();
        }
        let mut m: Vec<(String, JsonValue)> = Vec::new();
        proof {
            lemma_view_entries_empty();
        }
        let b = match &self.blocks {
            Some(v) => Some(ids_json(v)),
            None => None,
        };
        push_opt_entry(&mut m, "blocks", b);
        let t = match &self.tag {
            Some(t) => Some(t.to_json()),
            None => None,
        };
        push_opt_entry(&mut m, "tag", t);
        let n = match &self.nbt {
            Some(n) => Some(JsonValue::Str(n.to_string())),
            None => None,
        };
        push_opt_entry(&mut m, "nbt", n);
        let st = match &self.state {
            Some(s) => Some(state_json(s)),
            None => None,
        };
        push_opt_entry(&mut m, "state", st);
        JsonValue::Object(m)
    }
}


// ── ItemPredicate ───────────────────────────────────────────────────────────

/// A character SNBT allows in an unquoted compound key.
pub open spec fn spec_bare_key_char(c: char) -> bool {
    ('0' <= c && c <= '9') || ('A' <= c && c <= 'Z') || ('a' <= c && c <= 'z') || c == '_' || c
        == '-' || c == '.' || c == '+'
}

/// `s` with `"` and `\` escaped by a backslash.
pub open spec fn spec_escape_quoted(s: Seq<char>) -> Seq<char>
    decreases s.len(),
{
    if s.len() == 0 {
        Seq::empty()
    } else {
        spec_escape_quoted(s.drop_last()) + if s.last() == '"' || s.last() == '\\' {
            seq!['\\', s.last()]
        } else {
            seq![s.last()]
        }
    }
}

/// An SNBT compound key: bare when non-empty and made of bare-key
/// characters, else double-quoted with `"` and `\` escaped.
pub open spec fn spec_snbt_key(k: Seq<char>) -> Seq<char> {
    if k.len() > 0 && forall|i: int| 0 <= i < k.len() ==> #[trigger] spec_bare_key_char(k[i]) {
        k
    } else {
        seq!['"'] + spec_escape_quoted(k) + seq!['"']
    }
}

/// The entries `key:1b` of a partial custom-data match, comma-separated.
pub open spec fn spec_custom_data_entries(keys: Seq<Seq<char>>) -> Seq<char>
    decreases keys.len(),
{
    if keys.len() == 0 {
        Seq::empty()
    } else if keys.len() == 1 {
        spec_snbt_key(keys[0]) + ":1b"@
    } else {
        spec_custom_data_entries(keys.drop_last()) + seq![','] + spec_snbt_key(keys.last())
            + ":1b"@
    }
}

/// The partial custom-data SNBT requiring each key to be `1b`.
pub open spec fn spec_custom_data_snbt(keys: Seq<Seq<char>>) -> Seq<char> {
    seq!['{'] + spec_custom_data_entries(keys) + seq!['}']
}

fn is_bare_key_char(c: char) -> (r: bool)
    ensures
        r == spec_bare_key_char(c),
{
    ('0' <= c && c <= '9') || ('A' <= c && c <= 'Z') || ('a' <= c && c <= 'z') || c == '_' || c
        == '-' || c == '.' || c == '+'
}

/// The SNBT compound key for `k`.
pub fn snbt_key(k: &str) -> (r: String)
    ensures
        r@ == spec_snbt_key(k@),
{
    let n = k.unicode_len();
    let mut bare = n > 0;
    let mut i: usize = 0;
    while i < n
        invariant
            i <= n,
            n == k@.len(),
            bare == (n > 0 && forall|j: int| 0 <= j < i ==> #[trigger] spec_bare_key_char(k@[j])),
        decreases n - i,
    {
        if !is_bare_key_char(k.get_char(i)) {
            bare = false;
        }
        i = i + 1;
    }
    if bare {
        return owned(k);
    }
    let mut s = String::new();
    push_char(&mut s, '"');
    let mut j: usize = 0;
    assert(k@.subrange(0, 0) =~= Seq::<char>::empty());
    while j < n
        invariant
            j <= n,
            n == k@.len(),
            s@ == seq!['"'] + spec_escape_quoted(k@.subrange(0, j as int)),
        decreases n - j,
    {
        let c = k.get_char(j);
        if c == '"' || c == '\\' {
            push_char(&mut s, '\\');
        }
        push_char(&mut s, c);
        assert(k@.subrange(0, j + 1).drop_last() =~= k@.subrange(0, j as int));
        assert(s@ =~= seq!['"'] + spec_escape_quoted(k@.subrange(0, j + 1)));
        j = j + 1;
    }
    assert(k@.subrange(0, n as int) =~= k@);
    push_char(&mut s, '"');
    s
}

/// The partial custom-data SNBT for `keys`.
pub fn custom_data_partial_snbt(keys: &Vec<String>) -> (r: String)
    ensures
        r@ == spec_custom_data_snbt(keys@.map_values(|k: String| k@)),
{
    let ghost kv = keys@.map_values(|k: String| k@);
    let mut body = String::new();
    let mut i: usize = 0;
    assert(kv.subrange(0, 0) =~= Seq::<Seq<char>>::empty());
    while i < keys.len()
        invariant
            i <= keys.len(),
            kv == keys@.map_values(|k: String| k@),
            body@ == spec_custom_data_entries(kv.subrange(0, i as int)),
        decreases keys.len() - i,
    {
        if i > 0 {
            push_char(&mut body, ',');
        }
        let key = snbt_key(keys[i].as_str());
        body.append(key.as_str());
        body.append(":1b");
        assert(kv.subrange(0, i + 1).drop_last() =~= kv.subrange(0, i as int));
        assert(kv.subrange(0, i + 1).last() == keys@[i as int]@);
        if i == 0 {
            assert(body@ =~= spec_custom_data_entries(kv.subrange(0, i + 1)));
        } else {
            assert(body@ =~= spec_custom_data_entries(kv.subrange(0, i + 1)));
        }
        i = i + 1;
    }
    assert(kv.subrange(0, kv.len() as int) =~= kv);
    let mut s = String::new();
    push_char(&mut s, '{');
    s.append(body.as_str());
    push_char(&mut s, '}');
    assert(s@ =~= spec_custom_data_snbt(kv));
    s
}

/// The abstract value of an [`ItemPredicate`].
pub struct ItemView {
    pub items: Option<Seq<ResourceLocationView>>,
    pub count: Option<IntRangeView>,
    pub custom_data_keys: Seq<Seq<char>>,
    pub raw_components: Option<Json>,
    pub raw_predicates: Option<Json>,
    pub raw: Option<Json>,
}

/// An item check: item IDs, a count, custom-data keys and raw component or
/// sub-predicate objects.
#[derive(Debug)]
pub struct ItemPredicate {
    items: Option<Vec<RegistryId<ItemKind>>>,
    count: Option<IntRange>,
    custom_data_keys: Vec<String>,
    raw_components: Option<RawJson>,
    raw_predicates: Option<RawJson>,
    raw: Option<RawJson>,
}

impl View for ItemPredicate {
    type V = ItemView;

    closed spec fn view(&self) -> ItemView {
        ItemView {
            items: match self.items {
                Some(v) => Some(view_ids(v@)),
                None => None,
            },
            count: view_opt_int(self.count),
            custom_data_keys: self.custom_data_keys@.map_values(|k: String| k@),
            raw_components: view_opt_raw(self.raw_components),
            raw_predicates: view_opt_raw(self.raw_predicates),
            raw: view_opt_raw(self.raw),
        }
    }
}

/// Whether a JSON value is an object naming `key`.
pub open spec fn spec_object_has_key(j: Json, key: Seq<char>) -> bool {
    match j {
        Json::Object(es) => spec_entries_have_key(es, key),
        _ => false,
    }
}

/// Whether object entries name `key`.
pub open spec fn spec_entries_have_key(es: Seq<(Seq<char>, Json)>, key: Seq<char>) -> bool {
    exists|i: int| 0 <= i < es.len() && (#[trigger] es[i]).0 == key
}

/// The first failure of a typed item predicate: an empty item list, an
/// invalid count, non-object raw components or sub-predicates, then raw
/// sub-predicates that redefine custom data next to typed custom-data keys.
pub open spec fn spec_item_check(p: ItemView, path: Seq<char>) -> Result<(), Seq<char>> {
    if p.raw is Some {
        Ok(())
    } else if p.items matches Some(v) && v.len() == 0 {
        fail_at(spec_field(path, "items"@), "matcher list must not be empty"@)
    } else {
        then_msg(
            spec_opt_int_range_check(p.count, path, "count"@),
            if p.raw_components matches Some(j) && !(j is Object) {
                fail_at(
                    spec_field(path, "components"@),
                    "raw component predicates must be a JSON object"@,
                )
            } else if p.raw_predicates matches Some(j) && !(j is Object) {
                fail_at(spec_field(path, "predicates"@), "raw sub-predicates must be a JSON object"@)
            } else if p.custom_data_keys.len() > 0 && (p.raw_predicates matches Some(j)
                && spec_object_has_key(j, "minecraft:custom_data"@)) {
                fail_at(
                    spec_field(spec_field(path, "predicates"@), "minecraft:custom_data"@),
                    "raw predicate collides with typed custom_data_key filters; combine the partial match in one representation instead of overwriting a requested filter"@,
                )
            } else {
                Ok(())
            },
        )
    }
}

/// The `predicates` object: the custom-data match when keys are set, then
/// the raw sub-predicates' entries.
pub open spec fn spec_item_predicates_json(p: ItemView) -> Json {
    Json::Object(
        (if p.custom_data_keys.len() > 0 {
            seq![("minecraft:custom_data"@, Json::Str(spec_custom_data_snbt(p.custom_data_keys)))]
        } else {
            Seq::empty()
        }) + match p.raw_predicates {
            Some(j) => spec_object_entries(j),
            None => Seq::empty(),
        },
    )
}

/// The JSON of an item predicate: the raw value, or the constraints that
/// are set, with `predicates` present when custom-data keys or raw
/// sub-predicates are.
pub open spec fn spec_item_json(p: ItemView) -> Json {
    match p.raw {
        Some(j) => j,
        None => Json::Object(
            push_opt(
                push_opt(
                    push_opt(
                        push_opt(
                            seq![],
                            "items"@,
                            match p.items {
                                Some(v) => Some(spec_ids_json(v)),
                                None => None,
                            },
                        ),
                        "count"@,
                        opt_int_range(p.count),
                    ),
                    "components"@,
                    p.raw_components,
                ),
                "predicates"@,
                if p.custom_data_keys.len() > 0 || p.raw_predicates is Some {
                    Some(spec_item_predicates_json(p))
                } else {
                    None
                },
            ),
        ),
    }
}

/// Whether the predicate constrains item data components.
pub open spec fn spec_has_component_constraints(p: ItemView) -> bool {
    p.custom_data_keys.len() > 0 || p.raw_components is Some || p.raw_predicates is Some
}

/// The message for component matching on a target without item components.
pub open spec fn item_components_unavailable() -> Seq<char> {
    "item-component matching is unavailable for this target profile; remove the component constraint, target Minecraft 1.20.5+, or use ItemPredicate::raw(...) with manually verified legacy JSON"@
}

/// The advancement rendering of an item predicate for an optional target:
/// the predicate is validated at `item predicate`, and component
/// constraints need a target with item components.
pub open spec fn spec_item_render(p: ItemView, caps: Option<VersionCaps>) -> Result<Json, Seq<char>> {
    match spec_item_check(p, "item predicate"@) {
        Err(m) => Err(m),
        Ok(()) => if p.raw is None && spec_has_component_constraints(p) && (caps matches Some(c)
            && !spec_supports(c, ComponentFeature::ItemComponents)) {
            Err(item_components_unavailable())
        } else {
            Ok(spec_item_json(p))
        },
    }
}

/// Whether `entries` names `key`.
fn entries_have_key(entries: &Vec<(String, JsonValue)>, key: &str) -> (r: bool)
    ensures
        r == spec_object_has_key(Json::Object(view_entries(entries@)), key@),
{
    proof {
        crate::json::lemma_view_entries_len(entries@);
    }
    let mut i: usize = 0;
    while i < entries.len()
        invariant
            i <= entries.len(),
            view_entries(entries@).len() == entries@.len(),
            forall|j: int| 0 <= j < i ==> (#[trigger] view_entries(entries@)[j]).0 != key@,
        decreases entries.len() - i,
    {
        proof {
            crate::json::lemma_view_entries_index(entries@, i as int);
        }
        if crate::text::str_eq(entries[i].0.as_str(), key) {
            assert(view_entries(entries@)[i as int].0 == key@);
            assert(spec_entries_have_key(view_entries(entries@), key@));
            return true;
        }
        i = i + 1;
    }
    false
}

impl ItemPredicate {
    /// No constraint.
    pub fn new() -> (r: Self)
        ensures
            r@ == (ItemView {
                items: None,
                count: None,
                custom_data_keys: Seq::empty(),
                raw_components: None,
                raw_predicates: None,
                raw: None,
            }),
    {
        let r = ItemPredicate {
            items: None,
            count: None,
            custom_data_keys: Vec::new(),
            raw_components: None,
            raw_predicates: None,
            raw: None,
        };
        assert(r@.custom_data_keys =~= Seq::empty());
        r
    }

    /// A raw item predicate, written verbatim.
    pub fn raw(v: RawJson) -> (r: Self)
        ensures
            r@ == (ItemView {
                items: None,
                count: None,
                custom_data_keys: Seq::empty(),
                raw_components: None,
                raw_predicates: None,
                raw: Some(v.view()),
            }),
    {
        let r = ItemPredicate {
            items: None,
            count: None,
            custom_data_keys: Vec::new(),
            raw_components: None,
            raw_predicates: None,
            raw: Some(v),
        };
        assert(r@.custom_data_keys =~= Seq::empty());
        r
    }

    /// Matches the item `id`.
    pub fn id(id: RegistryId<ItemKind>) -> (r: Self)
        ensures
            r@ == (ItemView {
                items: Some(seq![id@]),
                count: None,
                custom_data_keys: Seq::empty(),
                raw_components: None,
                raw_predicates: None,
                raw: None,
            }),
    {
        Self::new().item(id)
    }

    /// Adds `id` to the matched items.
    pub fn item(self, id: RegistryId<ItemKind>) -> (out: Self)
        ensures
            out@ == (ItemView {
                items: Some(
                    match self@.items {
                        Some(v) => v,
                        None => Seq::empty(),
                    }.push(id@),
                ),
                ..self@
            }),
    {
        let mut s = self;
        let ghost idv = id@;
        match s.items {
            Some(ref mut v) => {
                let ghost before = v@;
                v.push(id);
                assert(view_ids(v@) =~= view_ids(before).push(idv));
            },
            None => {
                let mut v: Vec<RegistryId<ItemKind>> = Vec::new();
                v.push(id);
                assert(view_ids(v@) =~= Seq::<ResourceLocationView>::empty().push(idv));
                s.items = Some(v);
            },
        }
        s
    }

    /// A count of at least `min`.
    pub fn count_min(self, min: i64) -> (out: Self)
        ensures
            out@ == (ItemView { count: Some(IntRangeView { min: Some(min), max: None }), ..self@ }),
    {
        self.count(IntRange::at_least(min))
    }

    /// A count of at most `max`.
    pub fn count_max(self, max: i64) -> (out: Self)
        ensures
            out@ == (ItemView { count: Some(IntRangeView { min: None, max: Some(max) }), ..self@ }),
    {
        self.count(IntRange::at_most(max))
    }

    /// A count between `min` and `max`.
    pub fn count_range(self, min: i64, max: i64) -> (out: Self)
        ensures
            out@ == (ItemView {
                count: Some(IntRangeView { min: Some(min), max: Some(max) }),
                ..self@
            }),
    {
        self.count(IntRange::between(min, max))
    }

    /// Sets the count range.
    pub fn count(self, r: IntRange) -> (out: Self)
        ensures
            out@ == (ItemView { count: Some(r@), ..self@ }),
    {
        let mut s = self;
        s.count = Some(r);
        s
    }

    /// Requires the item's custom data to hold `key` set to `1b`.
    pub fn custom_data_key(self, key: &str) -> (out: Self)
        ensures
            out@ == (ItemView { custom_data_keys: self@.custom_data_keys.push(key@), ..self@ }),
    {
        let mut s = self;
        let ghost before = s.custom_data_keys@;
        s.custom_data_keys.push(owned(key));
        assert(s.custom_data_keys@.map_values(|k: String| k@) =~= before.map_values(
            |k: String| k@,
        ).push(key@));
        s
    }

    /// Sets raw component predicates (a JSON object).
    pub fn raw_components(self, v: RawJson) -> (out: Self)
        ensures
            out@ == (ItemView { raw_components: Some(v.view()), ..self@ }),
    {
        let mut s = self;
        s.raw_components = Some(v);
        s
    }

    /// Sets raw sub-predicates (a JSON object).
    pub fn raw_predicates(self, v: RawJson) -> (out: Self)
        ensures
            out@ == (ItemView { raw_predicates: Some(v.view()), ..self@ }),
    {
        let mut s = self;
        s.raw_predicates = Some(v);
        s
    }

    /// Whether this is a raw predicate.
    pub fn is_raw(&self) -> (r: bool)
        ensures
            r == (self@.raw is Some),
    {
        self.raw.is_some()
    }

    /// Whether the predicate constrains item data components.
    pub fn has_component_constraints(&self) -> (r: bool)
        ensures
            r == spec_has_component_constraints(self@),
    {
        self.custom_data_keys.len() > 0 || self.raw_components.is_some()
            || self.raw_predicates.is_some()
    }

    /// Validates the predicate at `path`.
    pub fn validate_at(&self, path: &str) -> (r: Result<(), String>)
        ensures
            view_msg(r) == spec_item_check(self@, path@),
    {
        if self.raw.is_some() {
            return Ok(());
        }
        if let Some(v) = &self.items {
            if v.len() == 0 {
                return Err(fail_msg(field(path, "items").as_str(), "matcher list must not be empty"));
            }
        }
        check_opt_int(&self.count, path, "count")?;
        if let Some(raw) = &self.raw_components {
            if !raw.as_value().is_object() {
                return Err(
                    fail_msg(
                        field(path, "components").as_str(),
                        "raw component predicates must be a JSON object",
                    ),
                );
            }
        }
        if let Some(raw) = &self.raw_predicates {
            if !raw.as_value().is_object() {
                return Err(
                    fail_msg(
                        field(path, "predicates").as_str(),
                        "raw sub-predicates must be a JSON object",
                    ),
                );
            }
        }
        if self.custom_data_keys.len() > 0 {
            if let Some(raw) = &self.raw_predicates {
                if let JsonValue::Object(entries) = raw.as_value() {
                    if entries_have_key(entries, "minecraft:custom_data") {
                        let p = field(path, "predicates");
                        return Err(
                            fail_msg(
                                field(p.as_str(), "minecraft:custom_data").as_str(),
                                "raw predicate collides with typed custom_data_key filters; combine the partial match in one representation instead of overwriting a requested filter",
                            ),
                        );
                    }
                }
            }
        }
        Ok(())
    }

    /// The `predicates` object.
    fn predicates_json(&self) -> (r: JsonValue)
        ensures
            view_json(r) == spec_item_predicates_json(self@),
    {
        let mut m: Vec<(String, JsonValue)> = Vec::new();
        proof {
            lemma_view_entries_empty();
        }
        if self.custom_data_keys.len() > 0 {
            let snbt = custom_data_partial_snbt(&self.custom_data_keys);
            push_entry(&mut m, "minecraft:custom_data", JsonValue::Str(snbt));
        }
        let ghost pre = view_entries(m@);
        assert(pre =~= if self@.custom_data_keys.len() > 0 {
            seq![("minecraft:custom_data"@, Json::Str(spec_custom_data_snbt(self@.custom_data_keys)))]
        } else {
            Seq::empty()
        });
        match &self.raw_predicates {
            Some(raw) => {
                append_object_entries(&mut m, raw.as_value());
            },
            None => {
                assert(pre + Seq::<(Seq<char>, Json)>::empty() =~= pre);
            },
        }
        JsonValue::Object(m)
    }

    /// The JSON of this predicate.
    pub fn to_json(&self) -> (r: JsonValue)
        ensures
            view_json(r) == spec_item_json(self@),
    {
        if let Some(raw) = &self.raw {
            return raw.as_value().deep_clone();
        }
        let mut m: Vec<(String, JsonValue)> = Vec::new();
        proof {
            lemma_view_entries_empty();
        }
        let items = match &self.items {
            Some(v) => Some(ids_json(v)),
            None => None,
        };
        push_opt_entry(&mut m, "items", items);
        push_opt_entry(&mut m, "count", opt_int_json(&self.count));
        push_opt_entry(&mut m, "components", opt_raw_json(&self.raw_components));
        let p = if self.custom_data_keys.len() > 0 || self.raw_predicates.is_some() {
            Some(self.predicates_json())
        } else {
            None
        };
        push_opt_entry(&mut m, "predicates", p);
        JsonValue::Object(m)
    }

    /// The advancement rendering for an optional target version.
    pub fn render_for_advancement(&self, caps: Option<&VersionCaps>) -> (r: Result<JsonValue, String>)
        ensures
            match (r, spec_item_render(self@, match caps { Some(c) => Some(*c), None => None })) {
                (Ok(j), Ok(v)) => view_json(j) == v,
                (Err(m), Err(v)) => m@ == v,
                _ => false,
            },
    {
        self.validate_at("item predicate")?;
        if !self.is_raw() && self.has_component_constraints() {
            if let Some(c) = caps {
                if !c.supports(ComponentFeature::ItemComponents) {
                    return Err(
                        owned(
                            "item-component matching is unavailable for this target profile; remove the component constraint, target Minecraft 1.20.5+, or use ItemPredicate::raw(...) with manually verified legacy JSON",
                        ),
                    );
                }
            }
        }
        Ok(self.to_json())
    }
}


// ── LocationPredicate ───────────────────────────────────────────────────────

/// The abstract value of a [`LocationPredicate`].
pub struct LocationView {
    pub biome: Option<ResourceLocationView>,
    pub dimension: Option<ResourceLocationView>,
    pub smokey: Option<bool>,
    pub block: Option<BlockView>,
    pub x: Option<FloatRangeView>,
    pub y: Option<FloatRangeView>,
    pub z: Option<FloatRangeView>,
    pub raw: Option<Json>,
}

/// A location check: biome, dimension, smoke, block and position ranges.
#[derive(Debug)]
pub struct LocationPredicate {
    biome: Option<RegistryId<BiomeKind>>,
    dimension: Option<RegistryId<DimensionKind>>,
    smokey: Option<bool>,
    block: Option<BlockPredicate>,
    x: Option<FloatRange>,
    y: Option<FloatRange>,
    z: Option<FloatRange>,
    raw: Option<RawJson>,
}

/// The view of an optional registry ID.
pub open spec fn view_opt_id<K>(o: Option<RegistryId<K>>) -> Option<ResourceLocationView> {
    match o {
        Some(i) => Some(i@),
        None => None,
    }
}

/// The JSON of an optional identifier field.
pub open spec fn opt_id_json(o: Option<ResourceLocationView>) -> Option<Json> {
    match o {
        Some(v) => Some(Json::Str(v.text())),
        None => None,
    }
}

fn opt_id<K>(o: &Option<RegistryId<K>>) -> (r: Option<JsonValue>)
    ensures
        match r {
            Some(j) => Some(view_json(j)),
            None => None::<Json>,
        } == opt_id_json(view_opt_id(*o)),
{
    match o {
        Some(i) => Some(i.to_json()),
        None => None,
    }
}

impl View for LocationPredicate {
    type V = LocationView;

    closed spec fn view(&self) -> LocationView {
        LocationView {
            biome: view_opt_id(self.biome),
            dimension: view_opt_id(self.dimension),
            smokey: self.smokey,
            block: match self.block {
                Some(b) => Some(b@),
                None => None,
            },
            x: view_opt_float(self.x),
            y: view_opt_float(self.y),
            z: view_opt_float(self.z),
            raw: view_opt_raw(self.raw),
        }
    }
}

/// The first failure of a typed location predicate: x, y, z, then block.
pub open spec fn spec_location_check(l: LocationView, path: Seq<char>) -> Result<(), Seq<char>> {
    if l.raw is Some {
        Ok(())
    } else {
        then_msg(
            spec_opt_float_range_check(l.x, path, "x"@),
            then_msg(
                spec_opt_float_range_check(l.y, path, "y"@),
                then_msg(
                    spec_opt_float_range_check(l.z, path, "z"@),
                    match l.block {
                        Some(b) => spec_block_check(b, spec_field(path, "block"@)),
                        None => Ok(()),
                    },
                ),
            ),
        )
    }
}

/// The JSON of a location predicate: the raw value, or the constraints that
/// are set.
pub open spec fn spec_location_json(l: LocationView) -> Json {
    match l.raw {
        Some(j) => j,
        None => Json::Object(
            push_opt(
                push_opt(
                    push_opt(
                        push_opt(
                            push_opt(
                                push_opt(push_opt(seq![], "biome"@, opt_id_json(l.biome)), "dimension"@, opt_id_json(l.dimension)),
                                "smokey"@,
                                opt_bool(l.smokey),
                            ),
                            "block"@,
                            match l.block {
                                Some(b) => Some(spec_block_json(b)),
                                None => None,
                            },
                        ),
                        "x"@,
                        opt_float_range(l.x),
                    ),
                    "y"@,
                    opt_float_range(l.y),
                ),
                "z"@,
                opt_float_range(l.z),
            ),
        ),
    }
}

/// The message for typed location filters on a target before 1.21.4.
pub open spec fn location_unavailable(version: Seq<char>) -> Seq<char> {
    "typed location filters have no verified advancement-predicate lowering for target "@
        + version
        + "; target Minecraft 1.21.4+ or use LocationPredicate::raw(...) with profile-verified JSON"@
}

/// The position ranges that are set, as an object's entries.
pub open spec fn spec_position_entries(l: LocationView) -> Seq<(Seq<char>, Json)> {
    push_opt(push_opt(push_opt(seq![], "x"@, opt_float_range(l.x)), "y"@, opt_float_range(l.y)), "z"@, opt_float_range(l.z))
}

/// The advancement rendering of a location predicate: the raw value, an
/// error on targets before 1.21.4, or `biomes`, `dimension`, `smokey`,
/// `block` and a `position` object of the set ranges.
pub open spec fn spec_location_render(l: LocationView, caps: Option<VersionCaps>) -> Result<
    Json,
    Seq<char>,
> {
    match l.raw {
        Some(j) => Ok(j),
        None => if caps matches Some(c) && !spec_at_least(c, 1, 21, 4) {
            Err(location_unavailable(spec_version_text(caps->0)))
        } else {
            Ok(
                Json::Object(
                    push_opt(
                        push_opt(
                            push_opt(
                                push_opt(seq![], "biomes"@, opt_id_json(l.biome)),
                                "dimension"@,
                                opt_id_json(l.dimension),
                            ),
                            "smokey"@,
                            opt_bool(l.smokey),
                        ),
                        "block"@,
                        match l.block {
                            Some(b) => Some(spec_block_json(b)),
                            None => None,
                        },
                    ) + if spec_position_entries(l).len() > 0 {
                        seq![("position"@, Json::Object(spec_position_entries(l)))]
                    } else {
                        Seq::empty()
                    },
                ),
            )
        },
    }
}

impl LocationPredicate {
    /// No constraint.
    pub fn new() -> (r: Self)
        ensures
            r@ == (LocationView {
                biome: None,
                dimension: None,
                smokey: None,
                block: None,
                x: None,
                y: None,
                z: None,
                raw: None,
            }),
    {
        LocationPredicate {
            biome: None,
            dimension: None,
            smokey: None,
            block: None,
            x: None,
            y: None,
            z: None,
            raw: None,
        }
    }

    /// A raw location predicate, written verbatim.
    pub fn raw(v: RawJson) -> (r: Self)
        ensures
            r@ == (LocationView {
                biome: None,
                dimension: None,
                smokey: None,
                block: None,
                x: None,
                y: None,
                z: None,
                raw: Some(v.view()),
            }),
    {
        LocationPredicate {
            biome: None,
            dimension: None,
            smokey: None,
            block: None,
            x: None,
            y: None,
            z: None,
            raw: Some(v),
        }
    }

    /// Requires the biome.
    pub fn biome(self, biome: RegistryId<BiomeKind>) -> (out: Self)
        ensures
            out@ == (LocationView { biome: Some(biome@), ..self@ }),
    {
        let mut s = self;
        s.biome = Some(biome);
        s
    }

    /// Requires the dimension.
    pub fn dimension(self, dimension: RegistryId<DimensionKind>) -> (out: Self)
        ensures
            out@ == (LocationView { dimension: Some(dimension@), ..self@ }),
    {
        let mut s = self;
        s.dimension = Some(dimension);
        s
    }

    /// Requires a smoky (campfire) location or its absence.
    pub fn smokey(self, v: bool) -> (out: Self)
        ensures
            out@ == (LocationView { smokey: Some(v), ..self@ }),
    {
        let mut s = self;
        s.smokey = Some(v);
        s
    }

    /// Requires the block.
    pub fn block(self, bp: BlockPredicate) -> (out: Self)
        ensures
            out@ == (LocationView { block: Some(bp@), ..self@ }),
    {
        let mut s = self;
        s.block = Some(bp);
        s
    }

    /// Sets the x range.
    pub fn x(self, r: FloatRange) -> (out: Self)
        ensures
            out@ == (LocationView { x: Some(r@), ..self@ }),
    {
        let mut s = self;
        s.x = Some(r);
        s
    }

    /// Sets the y range.
    pub fn y(self, r: FloatRange) -> (out: Self)
        ensures
            out@ == (LocationView { y: Some(r@), ..self@ }),
    {
        let mut s = self;
        s.y = Some(r);
        s
    }

    /// Sets the z range.
    pub fn z(self, r: FloatRange) -> (out: Self)
        ensures
            out@ == (LocationView { z: Some(r@), ..self@ }),
    {
        let mut s = self;
        s.z = Some(r);
        s
    }

    /// Whether nothing is constrained (and the predicate is not raw).
    pub fn is_empty(&self) -> (r: bool)
        ensures
            r == (self@.raw is None && self@.biome is None && self@.dimension is None
                && self@.smokey is None && self@.block is None && self@.x is None && self@.y is None
                && self@.z is None),
    {
        self.raw.is_none() && self.biome.is_none() && self.dimension.is_none()
            && self.smokey.is_none() && self.block.is_none() && self.x.is_none()
            && self.y.is_none() && self.z.is_none()
    }

    /// Whether a block is constrained (a raw predicate may constrain one).
    pub fn has_block(&self) -> (r: bool)
        ensures
            r == (self@.raw is Some || self@.block is Some),
    {
        self.raw.is_some() || self.block.is_some()
    }

    /// Whether this is a raw predicate.
    pub fn is_raw(&self) -> (r: bool)
        ensures
            r == (self@.raw is Some),
    {
        self.raw.is_some()
    }

    /// Validates the predicate at `path`.
    pub fn validate_at(&self, path: &str) -> (r: Result<(), String>)
        ensures
            view_msg(r) == spec_location_check(self@, path@),
    {
        if self.raw.is_some() {
            return Ok(());
        }
        check_opt_float(&self.x, path, "x")?;
        check_opt_float(&self.y, path, "y")?;
        check_opt_float(&self.z, path, "z")?;
        match &self.block {
            Some(b) => b.validate_at(field(path, "block").as_str()),
            None => Ok(()),
        }
    }

    fn block_json(&self) -> (r: Option<JsonValue>)
        ensures
            match r {
                Some(j) => Some(view_json(j)),
                None => None::<Json>,
            } == match self@.block {
                Some(b) => Some(spec_block_json(b)),
                None => None,
            },
    {
        match &self.block {
            Some(b) => Some(b.to_json()),
            None => None,
        }
    }

    /// The JSON of this predicate.
    pub fn to_json(&self) -> (r: JsonValue)
        ensures
            view_json(r) == spec_location_json(self@),
    {
        if let Some(raw) = &self.raw {
            return raw.as_value().deep_clone();
        }
        let mut m: Vec<(String, JsonValue)> = Vec::new();
        proof {
            lemma_view_entries_empty();
        }
        push_opt_entry(&mut m, "biome", opt_id(&self.biome));
        push_opt_entry(&mut m, "dimension", opt_id(&self.dimension));
        push_opt_entry(&mut m, "smokey", opt_bool_json(self.smokey));
        push_opt_entry(&mut m, "block", self.block_json());
        push_opt_entry(&mut m, "x", opt_float_json(&self.x));
        push_opt_entry(&mut m, "y", opt_float_json(&self.y));
        push_opt_entry(&mut m, "z", opt_float_json(&self.z));
        JsonValue::Object(m)
    }

    /// The advancement rendering for an optional target version.
    pub fn render_for_advancement(&self, caps: Option<&VersionCaps>) -> (r: Result<
        JsonValue,
        String,
    >)
        ensures
            match (
                r,
                spec_location_render(
                    self@,
                    match caps {
                        Some(c) => Some(*c),
                        None => None,
                    },
                ),
            ) {
                (Ok(j), Ok(v)) => view_json(j) == v,
                (Err(m), Err(v)) => m@ == v,
                _ => false,
            },
    {
        if let Some(raw) = &self.raw {
            return Ok(raw.as_value().deep_clone());
        }
        if let Some(c) = caps {
            if !c.is_at_least(1, 21, 4) {
                let mut m = owned(
                    "typed location filters have no verified advancement-predicate lowering for target ",
                );
                let v = c.requested_version();
                m.append(v.as_str());
                m.append(
                    "; target Minecraft 1.21.4+ or use LocationPredicate::raw(...) with profile-verified JSON",
                );
                return Err(m);
            }
        }
        let mut m: Vec<(String, JsonValue)> = Vec::new();
        proof {
            lemma_view_entries_empty();
        }
        push_opt_entry(&mut m, "biomes", opt_id(&self.biome));
        push_opt_entry(&mut m, "dimension", opt_id(&self.dimension));
        push_opt_entry(&mut m, "smokey", opt_bool_json(self.smokey));
        push_opt_entry(&mut m, "block", self.block_json());
        let mut pos: Vec<(String, JsonValue)> = Vec::new();
        push_opt_entry(&mut pos, "x", opt_float_json(&self.x));
        push_opt_entry(&mut pos, "y", opt_float_json(&self.y));
        push_opt_entry(&mut pos, "z", opt_float_json(&self.z));
        proof {
            crate::json::lemma_view_entries_len(pos@);
        }
        let ghost pre = view_entries(m@);
        if pos.len() > 0 {
            push_entry(&mut m, "position", JsonValue::Object(pos));
            assert(view_entries(m@) =~= pre + seq![
                ("position"@, Json::Object(spec_position_entries(self@))),
            ]);
        } else {
            assert(view_entries(m@) =~= pre + Seq::<(Seq<char>, Json)>::empty());
        }
        Ok(JsonValue::Object(m))
    }
}


// ── EntityEquipment ─────────────────────────────────────────────────────────

/// The abstract value of [`EntityEquipment`].
pub struct EquipmentView {
    pub head: Option<ItemView>,
    pub chest: Option<ItemView>,
    pub legs: Option<ItemView>,
    pub feet: Option<ItemView>,
    pub mainhand: Option<ItemView>,
    pub offhand: Option<ItemView>,
}

/// Item checks on equipment slots.
#[derive(Debug)]
pub struct EntityEquipment {
    head: Option<ItemPredicate>,
    chest: Option<ItemPredicate>,
    legs: Option<ItemPredicate>,
    feet: Option<ItemPredicate>,
    mainhand: Option<ItemPredicate>,
    offhand: Option<ItemPredicate>,
}

/// The view of an optional item predicate.
pub open spec fn view_opt_item(o: Option<ItemPredicate>) -> Option<ItemView> {
    match o {
        Some(i) => Some(i@),
        None => None,
    }
}

impl View for EntityEquipment {
    type V = EquipmentView;

    closed spec fn view(&self) -> EquipmentView {
        EquipmentView {
            head: view_opt_item(self.head),
            chest: view_opt_item(self.chest),
            legs: view_opt_item(self.legs),
            feet: view_opt_item(self.feet),
            mainhand: view_opt_item(self.mainhand),
            offhand: view_opt_item(self.offhand),
        }
    }
}

/// The check of an optional slot's item predicate at `path.slot`.
pub open spec fn spec_opt_item_check(o: Option<ItemView>, path: Seq<char>, slot: Seq<char>) -> Result<
    (),
    Seq<char>,
> {
    match o {
        Some(i) => spec_item_check(i, spec_field(path, slot)),
        None => Ok(()),
    }
}

/// The first invalid slot, in the order head, chest, legs, feet, mainhand,
/// offhand, under `path`.
pub open spec fn spec_equipment_check(q: EquipmentView, path: Seq<char>) -> Result<(), Seq<char>> {
    then_msg(
        spec_opt_item_check(q.head, path, "head"@),
        then_msg(
            spec_opt_item_check(q.chest, path, "chest"@),
            then_msg(
                spec_opt_item_check(q.legs, path, "legs"@),
                then_msg(
                    spec_opt_item_check(q.feet, path, "feet"@),
                    then_msg(
                        spec_opt_item_check(q.mainhand, path, "mainhand"@),
                        spec_opt_item_check(q.offhand, path, "offhand"@),
                    ),
                ),
            ),
        ),
    )
}

/// The JSON of an optional slot.
pub open spec fn opt_item_json(o: Option<ItemView>) -> Option<Json> {
    match o {
        Some(i) => Some(spec_item_json(i)),
        None => None,
    }
}

/// The JSON of equipment: an object of the slots that are set.
pub open spec fn spec_equipment_json(q: EquipmentView) -> Json {
    Json::Object(
        push_opt(
            push_opt(
                push_opt(
                    push_opt(
                        push_opt(push_opt(seq![], "head"@, opt_item_json(q.head)), "chest"@, opt_item_json(q.chest)),
                        "legs"@,
                        opt_item_json(q.legs),
                    ),
                    "feet"@,
                    opt_item_json(q.feet),
                ),
                "mainhand"@,
                opt_item_json(q.mainhand),
            ),
            "offhand"@,
            opt_item_json(q.offhand),
        ),
    )
}

/// Appends a slot's rendering to object entries built so far, or passes on
/// the first failure.
pub open spec fn push_rendered_slot(
    acc: Result<Seq<(Seq<char>, Json)>, Seq<char>>,
    slot: Seq<char>,
    o: Option<ItemView>,
    caps: Option<VersionCaps>,
) -> Result<Seq<(Seq<char>, Json)>, Seq<char>> {
    match acc {
        Err(m) => Err(m),
        Ok(es) => match o {
            None => Ok(es),
            Some(i) => match spec_item_render(i, caps) {
                Err(m) => Err(m),
                Ok(j) => Ok(es.push((slot, j))),
            },
        },
    }
}

/// The advancement rendering of equipment: each set slot rendered in order,
/// or the first failure.
pub open spec fn spec_equipment_render(q: EquipmentView, caps: Option<VersionCaps>) -> Result<
    Json,
    Seq<char>,
> {
    let es = push_rendered_slot(
        push_rendered_slot(
            push_rendered_slot(
                push_rendered_slot(
                    push_rendered_slot(push_rendered_slot(Ok(seq![]), "head"@, q.head, caps), "chest"@, q.chest, caps),
                    "legs"@,
                    q.legs,
                    caps,
                ),
                "feet"@,
                q.feet,
                caps,
            ),
            "mainhand"@,
            q.mainhand,
            caps,
        ),
        "offhand"@,
        q.offhand,
        caps,
    );
    match es {
        Ok(e) => Ok(Json::Object(e)),
        Err(m) => Err(m),
    }
}

fn check_opt_item(o: &Option<ItemPredicate>, path: &str, slot: &str) -> (r: Result<(), String>)
    ensures
        view_msg(r) == spec_opt_item_check(view_opt_item(*o), path@, slot@),
{
    match o {
        Some(i) => i.validate_at(field(path, slot).as_str()),
        None => Ok(()),
    }
}

fn opt_item_to_json(o: &Option<ItemPredicate>) -> (r: Option<JsonValue>)
    ensures
        match r {
            Some(j) => Some(view_json(j)),
            None => None::<Json>,
        } == opt_item_json(view_opt_item(*o)),
{
    match o {
        Some(i) => Some(i.to_json()),
        None => None,
    }
}

fn push_rendered(
    m: &mut Vec<(String, JsonValue)>,
    slot: &str,
    o: &Option<ItemPredicate>,
    caps: Option<&VersionCaps>,
) -> (r: Result<(), String>)
    ensures
        match (
            r,
            push_rendered_slot(
                Ok(view_entries(old(m)@)),
                slot@,
                view_opt_item(*o),
                match caps {
                    Some(c) => Some(*c),
                    None => None,
                },
            ),
        ) {
            (Ok(()), Ok(es)) => view_entries(final(m)@) == es,
            (Err(e), Err(v)) => e@ == v,
            _ => false,
        },
{
    match o {
        Some(i) => {
            let j = i.render_for_advancement(caps)?;
            push_entry(m, slot, j);
            Ok(())
        },
        None => Ok(()),
    }
}

impl EntityEquipment {
    /// No slot constrained.
    pub fn new() -> (r: Self)
        ensures
            r@ == (EquipmentView {
                head: None,
                chest: None,
                legs: None,
                feet: None,
                mainhand: None,
                offhand: None,
            }),
    {
        EntityEquipment { head: None, chest: None, legs: None, feet: None, mainhand: None, offhand: None }
    }

    /// Constrains the head slot.
    pub fn head(self, p: ItemPredicate) -> (out: Self)
        ensures
            out@ == (EquipmentView { head: Some(p@), ..self@ }),
    {
        let mut s = self;
        s.head = Some(p);
        s
    }

    /// Constrains the chest slot.
    pub fn chest(self, p: ItemPredicate) -> (out: Self)
        ensures
            out@ == (EquipmentView { chest: Some(p@), ..self@ }),
    {
        let mut s = self;
        s.chest = Some(p);
        s
    }

    /// Constrains the legs slot.
    pub fn legs(self, p: ItemPredicate) -> (out: Self)
        ensures
            out@ == (EquipmentView { legs: Some(p@), ..self@ }),
    {
        let mut s = self;
        s.legs = Some(p);
        s
    }

    /// Constrains the feet slot.
    pub fn feet(self, p: ItemPredicate) -> (out: Self)
        ensures
            out@ == (EquipmentView { feet: Some(p@), ..self@ }),
    {
        let mut s = self;
        s.feet = Some(p);
        s
    }

    /// Constrains the main hand.
    pub fn mainhand(self, p: ItemPredicate) -> (out: Self)
        ensures
            out@ == (EquipmentView { mainhand: Some(p@), ..self@ }),
    {
        let mut s = self;
        s.mainhand = Some(p);
        s
    }

    /// Constrains the off hand.
    pub fn offhand(self, p: ItemPredicate) -> (out: Self)
        ensures
            out@ == (EquipmentView { offhand: Some(p@), ..self@ }),
    {
        let mut s = self;
        s.offhand = Some(p);
        s
    }

    /// Validates the slots under `path`.
    pub fn validate_at(&self, path: &str) -> (r: Result<(), String>)
        ensures
            view_msg(r) == spec_equipment_check(self@, path@),
    {
        check_opt_item(&self.head, path, "head")?;
        check_opt_item(&self.chest, path, "chest")?;
        check_opt_item(&self.legs, path, "legs")?;
        check_opt_item(&self.feet, path, "feet")?;
        check_opt_item(&self.mainhand, path, "mainhand")?;
        check_opt_item(&self.offhand, path, "offhand")
    }

    /// The JSON of the slots that are set.
    pub fn to_json(&self) -> (r: JsonValue)
        ensures
            view_json(r) == spec_equipment_json(self@),
    {
        let mut m: Vec<(String, JsonValue)> = Vec::new();
        proof {
            lemma_view_entries_empty();
        }
        push_opt_entry(&mut m, "head", opt_item_to_json(&self.head));
        push_opt_entry(&mut m, "chest", opt_item_to_json(&self.chest));
        push_opt_entry(&mut m, "legs", opt_item_to_json(&self.legs));
        push_opt_entry(&mut m, "feet", opt_item_to_json(&self.feet));
        push_opt_entry(&mut m, "mainhand", opt_item_to_json(&self.mainhand));
        push_opt_entry(&mut m, "offhand", opt_item_to_json(&self.offhand));
        JsonValue::Object(m)
    }

    /// The advancement rendering of the slots that are set.
    pub fn render_for_advancement(&self, caps: Option<&VersionCaps>) -> (r: Result<
        JsonValue,
        String,
    >)
        ensures
            match (
                r,
                spec_equipment_render(
                    self@,
                    match caps {
                        Some(c) => Some(*c),
                        None => None,
                    },
                ),
            ) {
                (Ok(j), Ok(v)) => view_json(j) == v,
                (Err(m), Err(v)) => m@ == v,
                _ => false,
            },
    {
        let mut m: Vec<(String, JsonValue)> = Vec::new();
        proof {
            lemma_view_entries_empty();
        }
        push_rendered(&mut m, "head", &self.head, caps)?;
        push_rendered(&mut m, "chest", &self.chest, caps)?;
        push_rendered(&mut m, "legs", &self.legs, caps)?;
        push_rendered(&mut m, "feet", &self.feet, caps)?;
        push_rendered(&mut m, "mainhand", &self.mainhand, caps)?;
        push_rendered(&mut m, "offhand", &self.offhand, caps)?;
        Ok(JsonValue::Object(m))
    }
}


// ── EntityPredicate ─────────────────────────────────────────────────────────

/// The view of effect bindings.
pub open spec fn view_effects(s: Seq<(String, EffectPredicate)>) -> Seq<(Seq<char>, EffectView)> {
    view_keyed(s)
}

/// The abstract value of an entity-type matcher.
pub enum EntityTypeView {
    Single(ResourceLocationView),
    AnyOf(Seq<ResourceLocationView>),
}

/// One entity type, or any of a list.
#[derive(Debug)]
pub enum EntityTypeMatch {
    Single(RegistryId<EntityTypeKind>),
    AnyOf(Vec<RegistryId<EntityTypeKind>>),
}

impl View for EntityTypeMatch {
    type V = EntityTypeView;

    closed spec fn view(&self) -> EntityTypeView {
        match self {
            EntityTypeMatch::Single(t) => EntityTypeView::Single(t@),
            EntityTypeMatch::AnyOf(v) => EntityTypeView::AnyOf(view_ids(v@)),
        }
    }
}

/// The JSON of an entity-type matcher: an ID or an array of IDs.
pub open spec fn spec_type_match_json(t: EntityTypeView) -> Json {
    match t {
        EntityTypeView::Single(v) => Json::Str(v.text()),
        EntityTypeView::AnyOf(s) => spec_ids_json(s),
    }
}

impl EntityTypeMatch {
    /// The JSON of this matcher.
    pub fn to_json(&self) -> (r: JsonValue)
        ensures
            view_json(r) == spec_type_match_json(self@),
    {
        match self {
            EntityTypeMatch::Single(t) => t.to_json(),
            EntityTypeMatch::AnyOf(v) => ids_json(v),
        }
    }
}

/// The abstract value of an [`EntityPredicate`].
pub struct EntityView {
    pub entity_type: Option<EntityTypeView>,
    pub nbt: Option<Seq<char>>,
    pub location: Option<LocationView>,
    pub flags: Option<FlagsView>,
    pub equipment: Option<EquipmentView>,
    pub effects: Option<Seq<(Seq<char>, EffectView)>>,
    pub raw: Option<Json>,
}

/// An entity check: type, NBT, location, flags, equipment and effects.
/// Effects are kept ordered by effect ID, one binding per ID.
#[derive(Debug)]
pub struct EntityPredicate {
    entity_type: Option<EntityTypeMatch>,
    nbt: Option<RawSnbt>,
    location: Option<LocationPredicate>,
    flags: Option<EntityFlags>,
    equipment: Option<EntityEquipment>,
    effects: Option<Vec<(String, EffectPredicate)>>,
    raw: Option<RawJson>,
}

impl View for EntityPredicate {
    type V = EntityView;

    closed spec fn view(&self) -> EntityView {
        EntityView {
            entity_type: match self.entity_type {
                Some(t) => Some(t@),
                None => None,
            },
            nbt: match self.nbt {
                Some(n) => Some(n@),
                None => None,
            },
            location: match self.location {
                Some(l) => Some(l@),
                None => None,
            },
            flags: match self.flags {
                Some(f) => Some(f@),
                None => None,
            },
            equipment: match self.equipment {
                Some(q) => Some(q@),
                None => None,
            },
            effects: match self.effects {
                Some(e) => Some(view_effects(e@)),
                None => None,
            },
            raw: view_opt_raw(self.raw),
        }
    }
}

/// The first invalid effect binding, in order, under `path`.
pub open spec fn spec_effects_check(s: Seq<(Seq<char>, EffectView)>, path: Seq<char>) -> Result<
    (),
    Seq<char>,
>
    decreases s.len(),
{
    if s.len() == 0 {
        Ok(())
    } else {
        then_msg(
            spec_effect_check(s[0].1, spec_field(path, s[0].0)),
            spec_effects_check(s.drop_first(), path),
        )
    }
}

/// The first failure of a typed entity predicate: an empty type list, the
/// location, the equipment slots, then the effects.
pub open spec fn spec_entity_check(e: EntityView, path: Seq<char>) -> Result<(), Seq<char>> {
    if e.raw is Some {
        Ok(())
    } else if e.entity_type matches Some(EntityTypeView::AnyOf(v)) && v.len() == 0 {
        fail_at(spec_field(path, "type"@), "matcher list must not be empty"@)
    } else {
        then_msg(
            match e.location {
                Some(l) => spec_location_check(l, spec_field(path, "location"@)),
                None => Ok(()),
            },
            then_msg(
                match e.equipment {
                    Some(q) => spec_equipment_check(q, spec_field(path, "equipment"@)),
                    None => Ok(()),
                },
                match e.effects {
                    Some(s) => spec_effects_check(s, spec_field(path, "effects"@)),
                    None => Ok(()),
                },
            ),
        )
    }
}

/// The JSON of effect bindings: an object from effect ID to effect predicate.
pub open spec fn spec_effects_json(s: Seq<(Seq<char>, EffectView)>) -> Json {
    Json::Object(s.map_values(|p: (Seq<char>, EffectView)| (p.0, spec_effect_json(p.1))))
}

/// The JSON of an entity predicate: the raw value, or the constraints that
/// are set under their plain keys.
pub open spec fn spec_entity_json(e: EntityView) -> Json {
    match e.raw {
        Some(j) => j,
        None => Json::Object(
            push_opt(
                push_opt(
                    push_opt(
                        push_opt(
                            push_opt(
                                push_opt(
                                    seq![],
                                    "type"@,
                                    match e.entity_type {
                                        Some(t) => Some(spec_type_match_json(t)),
                                        None => None,
                                    },
                                ),
                                "nbt"@,
                                match e.nbt {
                                    Some(n) => Some(Json::Str(n)),
                                    None => None,
                                },
                            ),
                            "location"@,
                            match e.location {
                                Some(l) => Some(spec_location_json(l)),
                                None => None,
                            },
                        ),
                        "flags"@,
                        match e.flags {
                            Some(f) => Some(spec_flags_json(f)),
                            None => None,
                        },
                    ),
                    "equipment"@,
                    match e.equipment {
                        Some(q) => Some(spec_equipment_json(q)),
                        None => None,
                    },
                ),
                "effects"@,
                match e.effects {
                    Some(s) => Some(spec_effects_json(s)),
                    None => None,
                },
            ),
        ),
    }
}

/// The key of an advancement entity field: the namespaced `modern` key
/// from 26.2 on, the `legacy` key before.
pub open spec fn spec_entity_key(namespaced: bool, legacy: Seq<char>, modern: Seq<char>) -> Seq<
    char,
> {
    if namespaced {
        modern
    } else {
        legacy
    }
}

/// Whether entity fields are namespaced for the target: with no target, or
/// from 26.2 on.
pub open spec fn spec_namespaced(caps: Option<VersionCaps>) -> bool {
    match caps {
        None => true,
        Some(c) => spec_at_least(c, 26, 2, 0),
    }
}

/// The advancement rendering of an entity predicate: the raw value, or its
/// constraints under target-dependent keys, with the location and equipment
/// rendered for the target (the first failure among them is returned).
pub open spec fn spec_entity_render(e: EntityView, caps: Option<VersionCaps>) -> Result<
    Json,
    Seq<char>,
> {
    match e.raw {
        Some(j) => Ok(j),
        None => {
            let ns = spec_namespaced(caps);
            let head = push_opt(
                push_opt(
                    seq![],
                    spec_entity_key(ns, "type"@, "minecraft:entity_type"@),
                    match e.entity_type {
                        Some(t) => Some(spec_type_match_json(t)),
                        None => None,
                    },
                ),
                spec_entity_key(ns, "nbt"@, "minecraft:nbt"@),
                match e.nbt {
                    Some(n) => Some(Json::Str(n)),
                    None => None,
                },
            );
            match match e.location {
                Some(l) => match spec_location_render(l, caps) {
                    Ok(j) => Ok(Some(j)),
                    Err(m) => Err(m),
                },
                None => Ok(None),
            } {
                Err(m) => Err(m),
                Ok(lj) => {
                    let mid = push_opt(
                        push_opt(head, spec_entity_key(ns, "location"@, "minecraft:location"@), lj),
                        spec_entity_key(ns, "flags"@, "minecraft:flags"@),
                        match e.flags {
                            Some(f) => Some(spec_flags_json(f)),
                            None => None,
                        },
                    );
                    match match e.equipment {
                        Some(q) => match spec_equipment_render(q, caps) {
                            Ok(j) => Ok(Some(j)),
                            Err(m) => Err(m),
                        },
                        None => Ok(None),
                    } {
                        Err(m) => Err(m),
                        Ok(qj) => Ok(
                            Json::Object(
                                push_opt(
                                    push_opt(mid, spec_entity_key(ns, "equipment"@, "minecraft:equipment"@), qj),
                                    spec_entity_key(ns, "effects"@, "minecraft:effects"@),
                                    match e.effects {
                                        Some(s) => Some(spec_effects_json(s)),
                                        None => None,
                                    },
                                ),
                            ),
                        ),
                    }
                },
            }
        },
    }
}

/// The key of an advancement entity field for the target.
fn entity_key<'a>(namespaced: bool, legacy: &'a str, modern: &'a str) -> (r: &'a str)
    ensures
        r@ == spec_entity_key(namespaced, legacy@, modern@),
{
    if namespaced {
        modern
    } else {
        legacy
    }
}

fn effects_json(s: &Vec<(String, EffectPredicate)>) -> (r: JsonValue)
    ensures
        view_json(r) == spec_effects_json(view_effects(s@)),
{
    let mut out: Vec<(String, JsonValue)> = Vec::new();
    proof {
        lemma_view_entries_empty();
    }
    let mut i: usize = 0;
    while i < s.len()
        invariant
            i <= s.len(),
            view_entries(out@) == view_effects(s@.subrange(0, i as int)).map_values(
                |p: (Seq<char>, EffectView)| (p.0, spec_effect_json(p.1)),
            ),
        decreases s.len() - i,
    {
        push_entry(&mut out, s[i].0.as_str(), s[i].1.to_json());
        assert(view_effects(s@.subrange(0, i + 1)).map_values(
            |p: (Seq<char>, EffectView)| (p.0, spec_effect_json(p.1)),
        ) =~= view_effects(s@.subrange(0, i as int)).map_values(
            |p: (Seq<char>, EffectView)| (p.0, spec_effect_json(p.1)),
        ).push((s@[i as int].0@, spec_effect_json(s@[i as int].1@))));
        i = i + 1;
    }
    assert(s@.subrange(0, s@.len() as int) =~= s@);
    JsonValue::Object(out)
}

fn check_effects(s: &Vec<(String, EffectPredicate)>, path: &str) -> (r: Result<(), String>)
    ensures
        view_msg(r) == spec_effects_check(view_effects(s@), path@),
{
    let ghost v = view_effects(s@);
    let n = s.len();
    let mut i: usize = 0;
    assert(v.subrange(0, n as int) =~= v);
    while i < n
        invariant
            i <= n,
            n == v.len(),
            v == view_effects(s@),
            spec_effects_check(v, path@) == spec_effects_check(v.subrange(i as int, n as int), path@),
        decreases n - i,
    {
        let ghost rest = v.subrange(i as int, n as int);
        assert(rest[0] == (s@[i as int].0@, s@[i as int].1@));
        assert(rest.drop_first() =~= v.subrange(i + 1, n as int));
        s[i].1.validate_at(field(path, s[i].0.as_str()).as_str())?;
        i = i + 1;
    }
    Ok(())
}

impl EntityPredicate {
    /// No constraint.
    pub fn new() -> (r: Self)
        ensures
            r@ == (EntityView {
                entity_type: None,
                nbt: None,
                location: None,
                flags: None,
                equipment: None,
                effects: None,
                raw: None,
            }),
    {
        EntityPredicate {
            entity_type: None,
            nbt: None,
            location: None,
            flags: None,
            equipment: None,
            effects: None,
            raw: None,
        }
    }

    /// A raw entity predicate, written verbatim.
    pub fn raw(v: RawJson) -> (r: Self)
        ensures
            r@ == (EntityView {
                entity_type: None,
                nbt: None,
                location: None,
                flags: None,
                equipment: None,
                effects: None,
                raw: Some(v.view()),
            }),
    {
        EntityPredicate {
            entity_type: None,
            nbt: None,
            location: None,
            flags: None,
            equipment: None,
            effects: None,
            raw: Some(v),
        }
    }

    /// Matches one entity type.
    pub fn type_(entity_type: RegistryId<EntityTypeKind>) -> (r: Self)
        ensures
            r@ == (EntityView {
                entity_type: Some(EntityTypeView::Single(entity_type@)),
                nbt: None,
                location: None,
                flags: None,
                equipment: None,
                effects: None,
                raw: None,
            }),
    {
        Self::new().with_type(entity_type)
    }

    /// Sets the entity type.
    pub fn with_type(self, entity_type: RegistryId<EntityTypeKind>) -> (out: Self)
        ensures
            out@ == (EntityView {
                entity_type: Some(EntityTypeView::Single(entity_type@)),
                ..self@
            }),
    {
        let mut s = self;
        s.entity_type = Some(EntityTypeMatch::Single(entity_type));
        s
    }

    /// Matches any of the entity types.
    pub fn with_type_any(self, types: Vec<RegistryId<EntityTypeKind>>) -> (out: Self)
        ensures
            out@ == (EntityView {
                entity_type: Some(EntityTypeView::AnyOf(view_ids(types@))),
                ..self@
            }),
    {
        let mut s = self;
        s.entity_type = Some(EntityTypeMatch::AnyOf(types));
        s
    }

    /// Requires entity NBT.
    pub fn nbt(self, nbt: RawSnbt) -> (out: Self)
        ensures
            out@ == (EntityView { nbt: Some(nbt@), ..self@ }),
    {
        let mut s = self;
        s.nbt = Some(nbt);
        s
    }

    /// Requires the entity's location.
    pub fn location(self, lp: LocationPredicate) -> (out: Self)
        ensures
            out@ == (EntityView { location: Some(lp@), ..self@ }),
    {
        let mut s = self;
        s.location = Some(lp);
        s
    }

    /// Requires the entity's flags.
    pub fn flags(self, flags: EntityFlags) -> (out: Self)
        ensures
            out@ == (EntityView { flags: Some(flags@), ..self@ }),
    {
        let mut s = self;
        s.flags = Some(flags);
        s
    }

    /// Requires the entity's equipment.
    pub fn equipment(self, eq: EntityEquipment) -> (out: Self)
        ensures
            out@ == (EntityView { equipment: Some(eq@), ..self@ }),
    {
        let mut s = self;
        s.equipment = Some(eq);
        s
    }

    /// Requires an active effect, binding its ID to `pred` (a later binding
    /// of the same ID replaces the earlier one).
    pub fn effect(self, effect_id: RegistryId<StatusEffectKind>, pred: EffectPredicate) -> (out:
        Self)
        ensures
            out@ == (EntityView {
                effects: Some(
                    spec_keyed_insert(
                        match self@.effects {
                            Some(e) => e,
                            None => Seq::empty(),
                        },
                        effect_id@.text(),
                        pred@,
                    ),
                ),
                ..self@
            }),
    {
        let mut s = self;
        let key = effect_id.to_string();
        match s.effects {
            Some(ref mut v) => {
                keyed_insert(v, key, pred);
            },
            None => {
                let mut v: Vec<(String, EffectPredicate)> = Vec::new();
                assert(view_effects(v@) =~= Seq::empty());
                keyed_insert(&mut v, key, pred);
                s.effects = Some(v);
            },
        }
        s
    }

    /// Validates the predicate at `path`.
    pub fn validate_at(&self, path: &str) -> (r: Result<(), String>)
        ensures
            view_msg(r) == spec_entity_check(self@, path@),
    {
        if self.raw.is_some() {
            return Ok(());
        }
        if let Some(EntityTypeMatch::AnyOf(v)) = &self.entity_type {
            if v.len() == 0 {
                return Err(fail_msg(field(path, "type").as_str(), "matcher list must not be empty"));
            }
        }
        if let Some(l) = &self.location {
            l.validate_at(field(path, "location").as_str())?;
        }
        if let Some(q) = &self.equipment {
            q.validate_at(field(path, "equipment").as_str())?;
        }
        match &self.effects {
            Some(e) => check_effects(e, field(path, "effects").as_str()),
            None => Ok(()),
        }
    }

    /// The JSON of this predicate.
    pub fn to_json(&self) -> (r: JsonValue)
        ensures
            view_json(r) == spec_entity_json(self@),
    {
        if let Some(raw) = &self.raw {
            return raw.as_value().deep_clone();
        }
        let mut m: Vec<(String, JsonValue)> = Vec::new();
        proof {
            lemma_view_entries_empty();
        }
        let t = match &self.entity_type {
            Some(t) => Some(t.to_json()),
            None => None,
        };
        push_opt_entry(&mut m, "type", t);
        let n = match &self.nbt {
            Some(n) => Some(JsonValue::Str(n.to_string())),
            None => None,
        };
        push_opt_entry(&mut m, "nbt", n);
        let l = match &self.location {
            Some(l) => Some(l.to_json()),
            None => None,
        };
        push_opt_entry(&mut m, "location", l);
        let f = match &self.flags {
            Some(f) => Some(f.to_json()),
            None => None,
        };
        push_opt_entry(&mut m, "flags", f);
        let q = match &self.equipment {
            Some(q) => Some(q.to_json()),
            None => None,
        };
        push_opt_entry(&mut m, "equipment", q);
        let e = match &self.effects {
            Some(e) => Some(effects_json(e)),
            None => None,
        };
        push_opt_entry(&mut m, "effects", e);
        JsonValue::Object(m)
    }

    /// The advancement rendering for an optional target version.
    pub fn render_for_advancement(&self, caps: Option<&VersionCaps>) -> (r: Result<
        JsonValue,
        String,
    >)
        ensures
            match (
                r,
                spec_entity_render(
                    self@,
                    match caps {
                        Some(c) => Some(*c),
                        None => None,
                    },
                ),
            ) {
                (Ok(j), Ok(v)) => view_json(j) == v,
                (Err(m), Err(v)) => m@ == v,
                _ => false,
            },
    {
        if let Some(raw) = &self.raw {
            return Ok(raw.as_value().deep_clone());
        }
        let ns = match caps {
            None => true,
            Some(c) => c.is_at_least(26, 2, 0),
        };
        let mut m: Vec<(String, JsonValue)> = Vec::new();
        proof {
            lemma_view_entries_empty();
        }
        let t = match &self.entity_type {
            Some(t) => Some(t.to_json()),
            None => None,
        };
        push_opt_entry(&mut m, entity_key(ns, "type", "minecraft:entity_type"), t);
        let n = match &self.nbt {
            Some(n) => Some(JsonValue::Str(n.to_string())),
            None => None,
        };
        push_opt_entry(&mut m, entity_key(ns, "nbt", "minecraft:nbt"), n);
        let l = match &self.location {
            Some(l) => Some(l.render_for_advancement(caps)?),
            None => None,
        };
        push_opt_entry(&mut m, entity_key(ns, "location", "minecraft:location"), l);
        let f = match &self.flags {
            Some(f) => Some(f.to_json()),
            None => None,
        };
        push_opt_entry(&mut m, entity_key(ns, "flags", "minecraft:flags"), f);
        let q = match &self.equipment {
            Some(q) => Some(q.render_for_advancement(caps)?),
            None => None,
        };
        push_opt_entry(&mut m, entity_key(ns, "equipment", "minecraft:equipment"), q);
        let e = match &self.effects {
            Some(e) => Some(effects_json(e)),
            None => None,
        };
        push_opt_entry(&mut m, entity_key(ns, "effects", "minecraft:effects"), e);
        Ok(JsonValue::Object(m))
    }
}


// ── DamageSourcePredicate ───────────────────────────────────────────────────

/// The abstract value of a [`DamageSourcePredicate`].
pub struct DamageSourceView {
    pub source_entity: Option<EntityView>,
    pub direct_entity: Option<EntityView>,
    pub tags: Option<Seq<(ResourceLocationView, bool)>>,
}

/// A check on what caused damage: the source and direct entities and
/// damage-type tags that must or must not apply.
#[derive(Debug)]
pub struct DamageSourcePredicate {
    source_entity: Option<Box<EntityPredicate>>,
    direct_entity: Option<Box<EntityPredicate>>,
    tags: Option<Vec<DamageTagEntry>>,
}

/// One damage-type tag requirement: the tag, and whether the damage type
/// must (`expected`) or must not be in it.
#[derive(Debug)]
struct DamageTagEntry {
    id: TagId<RegistryId<DamageTypeKind>>,
    expected: bool,
}

impl DamageTagEntry {
    /// The damage type must be in `id`.
    fn required(id: TagId<RegistryId<DamageTypeKind>>) -> (r: Self)
        ensures
            r.id@ == id@,
            r.expected,
    {
        DamageTagEntry { id, expected: true }
    }

    /// The damage type must not be in `id`.
    fn excluded(id: TagId<RegistryId<DamageTypeKind>>) -> (r: Self)
        ensures
            r.id@ == id@,
            !r.expected,
    {
        DamageTagEntry { id, expected: false }
    }
}

/// The view of an optional boxed entity predicate.
pub open spec fn view_opt_entity(o: Option<Box<EntityPredicate>>) -> Option<EntityView> {
    match o {
        Some(e) => Some(e@),
        None => None,
    }
}

/// The view of damage-type tag requirements.
spec fn view_tags(s: Seq<DamageTagEntry>) -> Seq<(ResourceLocationView, bool)> {
    s.map_values(|e: DamageTagEntry| (e.id@, e.expected))
}

impl View for DamageSourcePredicate {
    type V = DamageSourceView;

    closed spec fn view(&self) -> DamageSourceView {
        DamageSourceView {
            source_entity: view_opt_entity(self.source_entity),
            direct_entity: view_opt_entity(self.direct_entity),
            tags: match self.tags {
                Some(t) => Some(view_tags(t@)),
                None => None,
            },
        }
    }
}

/// The check of an optional entity predicate at `path.name`.
pub open spec fn spec_opt_entity_check(o: Option<EntityView>, path: Seq<char>, name: Seq<char>) -> Result<
    (),
    Seq<char>,
> {
    match o {
        Some(e) => spec_entity_check(e, spec_field(path, name)),
        None => Ok(()),
    }
}

/// The first failure of a damage source: the source entity, then the
/// direct entity.
pub open spec fn spec_damage_source_check(d: DamageSourceView, path: Seq<char>) -> Result<
    (),
    Seq<char>,
> {
    then_msg(
        spec_opt_entity_check(d.source_entity, path, "source_entity"@),
        spec_opt_entity_check(d.direct_entity, path, "direct_entity"@),
    )
}

/// The JSON of damage-type tag requirements.
pub open spec fn spec_tags_json(s: Seq<(ResourceLocationView, bool)>) -> Json {
    Json::Array(
        s.map_values(
            |p: (ResourceLocationView, bool)|
                Json::Object(seq![("id"@, Json::Str(p.0.text())), ("expected"@, Json::Bool(p.1))]),
        ),
    )
}

/// An optional entity field's JSON.
pub open spec fn opt_entity_json(o: Option<EntityView>) -> Option<Json> {
    match o {
        Some(e) => Some(spec_entity_json(e)),
        None => None,
    }
}

/// The JSON of a damage source: the entities and tags that are set.
pub open spec fn spec_damage_source_json(d: DamageSourceView) -> Json {
    Json::Object(
        push_opt(
            push_opt(
                push_opt(seq![], "source_entity"@, opt_entity_json(d.source_entity)),
                "direct_entity"@,
                opt_entity_json(d.direct_entity),
            ),
            "tags"@,
            match d.tags {
                Some(t) => Some(spec_tags_json(t)),
                None => None,
            },
        ),
    )
}

/// An optional entity's rendering, or its failure.
pub open spec fn spec_opt_entity_render(o: Option<EntityView>, caps: Option<VersionCaps>) -> Result<
    Option<Json>,
    Seq<char>,
> {
    match o {
        Some(e) => match spec_entity_render(e, caps) {
            Ok(j) => Ok(Some(j)),
            Err(m) => Err(m),
        },
        None => Ok(None),
    }
}

/// The advancement rendering of a damage source: its JSON with the source
/// and direct entities rendered for the target (the first failure among
/// them is returned).
pub open spec fn spec_damage_source_render(d: DamageSourceView, caps: Option<VersionCaps>) -> Result<
    Json,
    Seq<char>,
> {
    match spec_opt_entity_render(d.source_entity, caps) {
        Err(m) => Err(m),
        Ok(sj) => match spec_opt_entity_render(d.direct_entity, caps) {
            Err(m) => Err(m),
            Ok(dj) => Ok(
                Json::Object(
                    push_opt(
                        push_opt(push_opt(seq![], "source_entity"@, sj), "direct_entity"@, dj),
                        "tags"@,
                        match d.tags {
                            Some(t) => Some(spec_tags_json(t)),
                            None => None,
                        },
                    ),
                ),
            ),
        },
    }
}

fn tags_json(s: &Vec<DamageTagEntry>) -> (r: JsonValue)
    ensures
        view_json(r) == spec_tags_json(view_tags(s@)),
{
    let mut out: Vec<JsonValue> = Vec::new();
    let mut i: usize = 0;
    while i < s.len()
        invariant
            i <= s.len(),
            view_values(out@) == view_tags(s@.subrange(0, i as int)).map_values(
                |p: (ResourceLocationView, bool)|
                    Json::Object(
                        seq![("id"@, Json::Str(p.0.text())), ("expected"@, Json::Bool(p.1))],
                    ),
            ),
        decreases s.len() - i,
    {
        let mut o: Vec<(String, JsonValue)> = Vec::new();
        proof {
            lemma_view_entries_empty();
        }
        push_entry(&mut o, "id", s[i].id.to_json());
        push_entry(&mut o, "expected", JsonValue::Bool(s[i].expected));
        assert(view_entries(o@) =~= seq![
            ("id"@, Json::Str(s@[i as int].id@.text())),
            ("expected"@, Json::Bool(s@[i as int].expected)),
        ]);
        push_value(&mut out, JsonValue::Object(o));
        assert(view_tags(s@.subrange(0, i + 1)).map_values(
            |p: (ResourceLocationView, bool)|
                Json::Object(seq![("id"@, Json::Str(p.0.text())), ("expected"@, Json::Bool(p.1))]),
        ) =~= view_tags(s@.subrange(0, i as int)).map_values(
            |p: (ResourceLocationView, bool)|
                Json::Object(seq![("id"@, Json::Str(p.0.text())), ("expected"@, Json::Bool(p.1))]),
        ).push(
            Json::Object(
                seq![
                    ("id"@, Json::Str(s@[i as int].id@.text())),
                    ("expected"@, Json::Bool(s@[i as int].expected)),
                ],
            ),
        ));
        i = i + 1;
    }
    assert(s@.subrange(0, s@.len() as int) =~= s@);
    JsonValue::Array(out)
}

fn check_opt_entity(o: &Option<Box<EntityPredicate>>, path: &str, name: &str) -> (r: Result<
    (),
    String,
>)
    ensures
        view_msg(r) == spec_opt_entity_check(view_opt_entity(*o), path@, name@),
{
    match o {
        Some(e) => e.validate_at(field(path, name).as_str()),
        None => Ok(()),
    }
}

fn render_opt_entity(o: &Option<Box<EntityPredicate>>, caps: Option<&VersionCaps>) -> (r: Result<
    Option<JsonValue>,
    String,
>)
    ensures
        match (
            r,
            spec_opt_entity_render(
                view_opt_entity(*o),
                match caps {
                    Some(c) => Some(*c),
                    None => None,
                },
            ),
        ) {
            (Ok(Some(j)), Ok(Some(v))) => view_json(j) == v,
            (Ok(None), Ok(None)) => true,
            (Err(m), Err(v)) => m@ == v,
            _ => false,
        },
{
    match o {
        Some(e) => {
            let j = e.render_for_advancement(caps)?;
            Ok(Some(j))
        },
        None => Ok(None),
    }
}

impl DamageSourcePredicate {
    /// No constraint.
    pub fn new() -> (r: Self)
        ensures
            r@ == (DamageSourceView { source_entity: None, direct_entity: None, tags: None }),
    {
        DamageSourcePredicate { source_entity: None, direct_entity: None, tags: None }
    }

    fn push_tag(self, entry: DamageTagEntry) -> (out: Self)
        ensures
            out@ == (DamageSourceView {
                tags: Some(
                    match self@.tags {
                        Some(t) => t,
                        None => Seq::empty(),
                    }.push((entry.id@, entry.expected)),
                ),
                ..self@
            }),
    {
        let mut s = self;
        let ghost ev = (entry.id@, entry.expected);
        match s.tags {
            Some(ref mut v) => {
                let ghost before = v@;
                v.push(entry);
                assert(view_tags(v@) =~= view_tags(before).push(ev));
            },
            None => {
                let mut v: Vec<DamageTagEntry> = Vec::new();
                v.push(entry);
                assert(view_tags(v@) =~= Seq::<(ResourceLocationView, bool)>::empty().push(ev));
                s.tags = Some(v);
            },
        }
        s
    }

    /// Requires the damage type to be in `tag`.
    pub fn requires_tag(self, tag: TagId<RegistryId<DamageTypeKind>>) -> (out: Self)
        ensures
            out@ == (DamageSourceView {
                tags: Some(
                    match self@.tags {
                        Some(t) => t,
                        None => Seq::empty(),
                    }.push((tag@, true)),
                ),
                ..self@
            }),
    {
        self.push_tag(DamageTagEntry::required(tag))
    }

    /// Requires the damage type not to be in `tag`.
    pub fn excludes_tag(self, tag: TagId<RegistryId<DamageTypeKind>>) -> (out: Self)
        ensures
            out@ == (DamageSourceView {
                tags: Some(
                    match self@.tags {
                        Some(t) => t,
                        None => Seq::empty(),
                    }.push((tag@, false)),
                ),
                ..self@
            }),
    {
        self.push_tag(DamageTagEntry::excluded(tag))
    }

    /// Requires the source entity.
    pub fn source_entity(self, ep: EntityPredicate) -> (out: Self)
        ensures
            out@ == (DamageSourceView { source_entity: Some(ep@), ..self@ }),
    {
        let mut s = self;
        s.source_entity = Some(Box::new(ep));
        s
    }

    /// Requires the direct entity.
    pub fn direct_entity(self, ep: EntityPredicate) -> (out: Self)
        ensures
            out@ == (DamageSourceView { direct_entity: Some(ep@), ..self@ }),
    {
        let mut s = self;
        s.direct_entity = Some(Box::new(ep));
        s
    }

    /// Validates the predicate at `path`.
    pub fn validate_at(&self, path: &str) -> (r: Result<(), String>)
        ensures
            view_msg(r) == spec_damage_source_check(self@, path@),
    {
        check_opt_entity(&self.source_entity, path, "source_entity")?;
        check_opt_entity(&self.direct_entity, path, "direct_entity")
    }

    /// The JSON of this predicate.
    pub fn to_json(&self) -> (r: JsonValue)
        ensures
            view_json(r) == spec_damage_source_json(self@),
    {
        let mut m: Vec<(String, JsonValue)> = Vec::new();
        proof {
            lemma_view_entries_empty();
        }
        let a = match &self.source_entity {
            Some(e) => Some(e.to_json()),
            None => None,
        };
        push_opt_entry(&mut m, "source_entity", a);
        let b = match &self.direct_entity {
            Some(e) => Some(e.to_json()),
            None => None,
        };
        push_opt_entry(&mut m, "direct_entity", b);
        let t = match &self.tags {
            Some(t) => Some(tags_json(t)),
            None => None,
        };
        push_opt_entry(&mut m, "tags", t);
        JsonValue::Object(m)
    }

    /// The advancement rendering for an optional target version.
    pub fn render_for_advancement(&self, caps: Option<&VersionCaps>) -> (r: Result<
        JsonValue,
        String,
    >)
        ensures
            match (
                r,
                spec_damage_source_render(
                    self@,
                    match caps {
                        Some(c) => Some(*c),
                        None => None,
                    },
                ),
            ) {
                (Ok(j), Ok(v)) => view_json(j) == v,
                (Err(m), Err(v)) => m@ == v,
                _ => false,
            },
    {
        let a = render_opt_entity(&self.source_entity, caps)?;
        let b = render_opt_entity(&self.direct_entity, caps)?;
        let mut m: Vec<(String, JsonValue)> = Vec::new();
        proof {
            lemma_view_entries_empty();
        }
        push_opt_entry(&mut m, "source_entity", a);
        push_opt_entry(&mut m, "direct_entity", b);
        let t = match &self.tags {
            Some(t) => Some(tags_json(t)),
            None => None,
        };
        push_opt_entry(&mut m, "tags", t);
        Ok(JsonValue::Object(m))
    }
}

// ── DamagePredicate ─────────────────────────────────────────────────────────

/// The abstract value of a [`DamagePredicate`].
pub struct DamageView {
    pub dealt: Option<FloatRangeView>,
    pub taken: Option<FloatRangeView>,
    pub blocked: Option<bool>,
    pub source_entity: Option<EntityView>,
    pub type_: Option<DamageSourceView>,
    pub raw: Option<Json>,
}

/// A damage check: amounts dealt and taken, blocking, the source entity and
/// the damage source.
#[derive(Debug)]
pub struct DamagePredicate {
    dealt: Option<FloatRange>,
    taken: Option<FloatRange>,
    blocked: Option<bool>,
    source_entity: Option<EntityPredicate>,
    type_: Option<DamageSourcePredicate>,
    raw: Option<RawJson>,
}

impl View for DamagePredicate {
    type V = DamageView;

    closed spec fn view(&self) -> DamageView {
        DamageView {
            dealt: view_opt_float(self.dealt),
            taken: view_opt_float(self.taken),
            blocked: self.blocked,
            source_entity: match self.source_entity {
                Some(e) => Some(e@),
                None => None,
            },
            type_: match self.type_ {
                Some(d) => Some(d@),
                None => None,
            },
            raw: view_opt_raw(self.raw),
        }
    }
}

/// The first failure of a typed damage predicate: dealt, taken, the source
/// entity, then the damage source (at `type`).
pub open spec fn spec_damage_check(d: DamageView, path: Seq<char>) -> Result<(), Seq<char>> {
    if d.raw is Some {
        Ok(())
    } else {
        then_msg(
            spec_opt_float_range_check(d.dealt, path, "dealt"@),
            then_msg(
                spec_opt_float_range_check(d.taken, path, "taken"@),
                then_msg(
                    spec_opt_entity_check(d.source_entity, path, "source_entity"@),
                    match d.type_ {
                        Some(t) => spec_damage_source_check(t, spec_field(path, "type"@)),
                        None => Ok(()),
                    },
                ),
            ),
        )
    }
}

/// The fields of a typed damage predicate before the entity and source.
pub open spec fn spec_damage_head(d: DamageView) -> Seq<(Seq<char>, Json)> {
    push_opt(
        push_opt(push_opt(seq![], "dealt"@, opt_float_range(d.dealt)), "taken"@, opt_float_range(d.taken)),
        "blocked"@,
        opt_bool(d.blocked),
    )
}

/// The JSON of a damage predicate: the raw value, or the constraints that
/// are set.
pub open spec fn spec_damage_json(d: DamageView) -> Json {
    match d.raw {
        Some(j) => j,
        None => Json::Object(
            push_opt(
                push_opt(spec_damage_head(d), "source_entity"@, opt_entity_json(d.source_entity)),
                "type"@,
                match d.type_ {
                    Some(t) => Some(spec_damage_source_json(t)),
                    None => None,
                },
            ),
        ),
    }
}

/// The advancement rendering of a damage predicate: the raw value, or its
/// JSON with the source entity and damage source rendered for the target
/// (the first failure among them is returned).
pub open spec fn spec_damage_render(d: DamageView, caps: Option<VersionCaps>) -> Result<
    Json,
    Seq<char>,
> {
    match d.raw {
        Some(j) => Ok(j),
        None => match spec_opt_entity_render(d.source_entity, caps) {
            Err(m) => Err(m),
            Ok(ej) => match match d.type_ {
                Some(t) => match spec_damage_source_render(t, caps) {
                    Ok(j) => Ok(Some(j)),
                    Err(m) => Err(m),
                },
                None => Ok(None),
            } {
                Err(m) => Err(m),
                Ok(tj) => Ok(
                    Json::Object(
                        push_opt(push_opt(spec_damage_head(d), "source_entity"@, ej), "type"@, tj),
                    ),
                ),
            },
        },
    }
}

impl DamagePredicate {
    /// No constraint.
    pub fn new() -> (r: Self)
        ensures
            r@ == (DamageView {
                dealt: None,
                taken: None,
                blocked: None,
                source_entity: None,
                type_: None,
                raw: None,
            }),
    {
        DamagePredicate {
            dealt: None,
            taken: None,
            blocked: None,
            source_entity: None,
            type_: None,
            raw: None,
        }
    }

    /// A raw damage predicate, written verbatim.
    pub fn raw(v: RawJson) -> (r: Self)
        ensures
            r@ == (DamageView {
                dealt: None,
                taken: None,
                blocked: None,
                source_entity: None,
                type_: None,
                raw: Some(v.view()),
            }),
    {
        DamagePredicate {
            dealt: None,
            taken: None,
            blocked: None,
            source_entity: None,
            type_: None,
            raw: Some(v),
        }
    }

    /// Sets the range of damage dealt.
    pub fn dealt(self, r: FloatRange) -> (out: Self)
        ensures
            out@ == (DamageView { dealt: Some(r@), ..self@ }),
    {
        let mut s = self;
        s.dealt = Some(r);
        s
    }

    /// Sets the range of damage taken.
    pub fn taken(self, r: FloatRange) -> (out: Self)
        ensures
            out@ == (DamageView { taken: Some(r@), ..self@ }),
    {
        let mut s = self;
        s.taken = Some(r);
        s
    }

    /// Requires the damage to be blocked or not.
    pub fn blocked(self, v: bool) -> (out: Self)
        ensures
            out@ == (DamageView { blocked: Some(v), ..self@ }),
    {
        let mut s = self;
        s.blocked = Some(v);
        s
    }

    /// Requires the source entity.
    pub fn source_entity(self, ep: EntityPredicate) -> (out: Self)
        ensures
            out@ == (DamageView { source_entity: Some(ep@), ..self@ }),
    {
        let mut s = self;
        s.source_entity = Some(ep);
        s
    }

    /// Requires the damage source.
    pub fn type_(self, dsp: DamageSourcePredicate) -> (out: Self)
        ensures
            out@ == (DamageView { type_: Some(dsp@), ..self@ }),
    {
        let mut s = self;
        s.type_ = Some(dsp);
        s
    }

    /// Validates the predicate at `path`.
    pub fn validate_at(&self, path: &str) -> (r: Result<(), String>)
        ensures
            view_msg(r) == spec_damage_check(self@, path@),
    {
        if self.raw.is_some() {
            return Ok(());
        }
        check_opt_float(&self.dealt, path, "dealt")?;
        check_opt_float(&self.taken, path, "taken")?;
        if let Some(e) = &self.source_entity {
            e.validate_at(field(path, "source_entity").as_str())?;
        }
        match &self.type_ {
            Some(t) => t.validate_at(field(path, "type").as_str()),
            None => Ok(()),
        }
    }

    fn head(&self) -> (r: Vec<(String, JsonValue)>)
        requires
            self@.raw is None,
        ensures
            view_entries(r@) == spec_damage_head(self@),
    {
        let mut m: Vec<(String, JsonValue)> = Vec::new();
        proof {
            lemma_view_entries_empty();
        }
        push_opt_entry(&mut m, "dealt", opt_float_json(&self.dealt));
        push_opt_entry(&mut m, "taken", opt_float_json(&self.taken));
        push_opt_entry(&mut m, "blocked", opt_bool_json(self.blocked));
        m
    }

    /// The JSON of this predicate.
    pub fn to_json(&self) -> (r: JsonValue)
        ensures
            view_json(r) == spec_damage_json(self@),
    {
        if let Some(raw) = &self.raw {
            return raw.as_value().deep_clone();
        }
        let mut m = self.head();
        let e = match &self.source_entity {
            Some(e) => Some(e.to_json()),
            None => None,
        };
        push_opt_entry(&mut m, "source_entity", e);
        let t = match &self.type_ {
            Some(t) => Some(t.to_json()),
            None => None,
        };
        push_opt_entry(&mut m, "type", t);
        JsonValue::Object(m)
    }

    /// The advancement rendering for an optional target version.
    pub fn render_for_advancement(&self, caps: Option<&VersionCaps>) -> (r: Result<
        JsonValue,
        String,
    >)
        ensures
            match (
                r,
                spec_damage_render(
                    self@,
                    match caps {
                        Some(c) => Some(*c),
                        None => None,
                    },
                ),
            ) {
                (Ok(j), Ok(v)) => view_json(j) == v,
                (Err(m), Err(v)) => m@ == v,
                _ => false,
            },
    {
        if let Some(raw) = &self.raw {
            return Ok(raw.as_value().deep_clone());
        }
        let e = match &self.source_entity {
            Some(e) => Some(e.render_for_advancement(caps)?),
            None => None,
        };
        let t = match &self.type_ {
            Some(t) => Some(t.render_for_advancement(caps)?),
            None => None,
        };
        let mut m = self.head();
        push_opt_entry(&mut m, "source_entity", e);
        push_opt_entry(&mut m, "type", t);
        Ok(JsonValue::Object(m))
    }
}

} // verus!

verus! {

/// What an item predicate must satisfy to pass validation: a raw predicate
/// always passes; otherwise a set item list is not empty, a set count has
/// its minimum at most its maximum, raw components and raw sub-predicates
/// are objects, and raw sub-predicates do not name `minecraft:custom_data`
/// next to typed custom-data keys.
pub open spec fn spec_item_valid(p: ItemView) -> bool {
    ||| p.raw is Some
    ||| {
        &&& !(p.items matches Some(v) && v.len() == 0)
        &&& (p.count matches Some(r) ==> (r.min matches Some(a) ==> (r.max matches Some(b) ==> a
            <= b)))
        &&& (p.raw_components matches Some(j) ==> j is Object)
        &&& (p.raw_predicates matches Some(j) ==> j is Object)
        &&& !(p.custom_data_keys.len() > 0 && (p.raw_predicates matches Some(j)
            && spec_object_has_key(j, "minecraft:custom_data"@)))
    }
}

/// An item predicate passes validation exactly when it satisfies
/// [`spec_item_valid`].
pub proof fn law_item_valid(p: ItemView, path: Seq<char>)
    ensures
        spec_item_check(p, path) is Ok <==> spec_item_valid(p),
{
}

} // verus!

verus! {

/// The five flag keys differ from each other.
proof fn lemma_flag_keys_distinct()
    ensures
        "is_on_fire"@ != "is_sneaking"@,
        "is_on_fire"@ != "is_sprinting"@,
        "is_on_fire"@ != "is_swimming"@,
        "is_on_fire"@ != "is_baby"@,
        "is_sneaking"@ != "is_sprinting"@,
        "is_sneaking"@ != "is_swimming"@,
        "is_sneaking"@ != "is_baby"@,
        "is_sprinting"@ != "is_swimming"@,
        "is_sprinting"@ != "is_baby"@,
        "is_swimming"@ != "is_baby"@,
{
    reveal_strlit("is_on_fire");
    reveal_strlit("is_sneaking");
    reveal_strlit("is_sprinting");
    reveal_strlit("is_swimming");
    reveal_strlit("is_baby");
    assert("is_on_fire"@.len() == 10);
    assert("is_sneaking"@.len() == 11);
    assert("is_sprinting"@.len() == 12);
    assert("is_swimming"@.len() == 11);
    assert("is_baby"@.len() == 7);
    assert("is_sneaking"@[4] != "is_swimming"@[4]);
}

/// Whether the object entries hold `key` with the value `Bool(b)` when the
/// flag is `Some(b)`, and hold no `key` at all when it is unset.
pub open spec fn spec_flag_written(es: Seq<(Seq<char>, Json)>, key: Seq<char>, flag: Option<bool>) -> bool {
    &&& (spec_entries_have_key(es, key) <==> flag is Some)
    &&& (flag matches Some(b) ==> es.contains((key, Json::Bool(b))))
}

/// Appending an optional entry adds exactly its key, when present, and keeps
/// every entry already there.
proof fn lemma_push_opt_key(es: Seq<(Seq<char>, Json)>, k: Seq<char>, o: Option<Json>, key: Seq<char>)
    ensures
        spec_entries_have_key(push_opt(es, k, o), key) <==> (spec_entries_have_key(es, key) || (o
            is Some && k == key)),
        forall|p: (Seq<char>, Json)| es.contains(p) ==> push_opt(es, k, o).contains(p),
        o matches Some(v) ==> push_opt(es, k, o).contains((k, v)),
{
    let r = push_opt(es, k, o);
    if spec_entries_have_key(es, key) {
        let i = choose|i: int| 0 <= i < es.len() && (#[trigger] es[i]).0 == key;
        assert(r[i] == es[i]);
    }
    if spec_entries_have_key(r, key) {
        let i = choose|i: int| 0 <= i < r.len() && (#[trigger] r[i]).0 == key;
        if i < es.len() {
            assert(r[i] == es[i]);
        }
    }
    if o is Some && k == key {
        assert(r[es.len() as int].0 == key);
    }
    assert forall|p: (Seq<char>, Json)| es.contains(p) implies r.contains(p) by {
        let i = choose|i: int| 0 <= i < es.len() && es[i] == p;
        assert(r[i] == p);
    }
    if let Some(v) = o {
        assert(r[es.len() as int] == (k, v));
    }
}

/// Every flag that is set is written under its own key with its own value,
/// and a flag that is unset is not written at all.
pub proof fn law_flags_json(f: FlagsView)
    ensures
        spec_flags_json(f) is Object,
        spec_flag_written(spec_object_entries(spec_flags_json(f)), "is_on_fire"@, f.is_on_fire),
        spec_flag_written(spec_object_entries(spec_flags_json(f)), "is_sneaking"@, f.is_sneaking),
        spec_flag_written(spec_object_entries(spec_flags_json(f)), "is_sprinting"@, f.is_sprinting),
        spec_flag_written(spec_object_entries(spec_flags_json(f)), "is_swimming"@, f.is_swimming),
        spec_flag_written(spec_object_entries(spec_flags_json(f)), "is_baby"@, f.is_baby),
{
    lemma_flag_keys_distinct();
    let e = Seq::<(Seq<char>, Json)>::empty();
    let e0 = push_opt(e, "is_on_fire"@, opt_bool(f.is_on_fire));
    let e1 = push_opt(e0, "is_sneaking"@, opt_bool(f.is_sneaking));
    let e2 = push_opt(e1, "is_sprinting"@, opt_bool(f.is_sprinting));
    let e3 = push_opt(e2, "is_swimming"@, opt_bool(f.is_swimming));
    let es = push_opt(e3, "is_baby"@, opt_bool(f.is_baby));
    assert(es == spec_object_entries(spec_flags_json(f)));
    assert(!spec_entries_have_key(e, "is_on_fire"@));
    assert(!spec_entries_have_key(e, "is_sneaking"@));
    assert(!spec_entries_have_key(e, "is_sprinting"@));
    assert(!spec_entries_have_key(e, "is_swimming"@));
    assert(!spec_entries_have_key(e, "is_baby"@));
    let keys = seq!["is_on_fire"@, "is_sneaking"@, "is_sprinting"@, "is_swimming"@, "is_baby"@];
    assert forall|j: int| 0 <= j < 5 implies {
        let key = #[trigger] keys[j];
        &&& (spec_entries_have_key(e0, key) <==> (f.is_on_fire is Some && "is_on_fire"@ == key))
        &&& (spec_entries_have_key(e1, key) <==> (spec_entries_have_key(e0, key) || (f.is_sneaking
            is Some && "is_sneaking"@ == key)))
        &&& (spec_entries_have_key(e2, key) <==> (spec_entries_have_key(e1, key) || (f.is_sprinting
            is Some && "is_sprinting"@ == key)))
        &&& (spec_entries_have_key(e3, key) <==> (spec_entries_have_key(e2, key) || (f.is_swimming
            is Some && "is_swimming"@ == key)))
        &&& (spec_entries_have_key(es, key) <==> (spec_entries_have_key(e3, key) || (f.is_baby
            is Some && "is_baby"@ == key)))
    } by {
        let key = keys[j];
        lemma_push_opt_key(e, "is_on_fire"@, opt_bool(f.is_on_fire), key);
        lemma_push_opt_key(e0, "is_sneaking"@, opt_bool(f.is_sneaking), key);
        lemma_push_opt_key(e1, "is_sprinting"@, opt_bool(f.is_sprinting), key);
        lemma_push_opt_key(e2, "is_swimming"@, opt_bool(f.is_swimming), key);
        lemma_push_opt_key(e3, "is_baby"@, opt_bool(f.is_baby), key);
    }
    assert(keys[0] == "is_on_fire"@ && keys[1] == "is_sneaking"@ && keys[2] == "is_sprinting"@
        && keys[3] == "is_swimming"@ && keys[4] == "is_baby"@);
    lemma_push_opt_key(e, "is_on_fire"@, opt_bool(f.is_on_fire), "is_on_fire"@);
    lemma_push_opt_key(e0, "is_sneaking"@, opt_bool(f.is_sneaking), "is_sneaking"@);
    lemma_push_opt_key(e1, "is_sprinting"@, opt_bool(f.is_sprinting), "is_sprinting"@);
    lemma_push_opt_key(e2, "is_swimming"@, opt_bool(f.is_swimming), "is_swimming"@);
    lemma_push_opt_key(e3, "is_baby"@, opt_bool(f.is_baby), "is_baby"@);
}

} // verus!
