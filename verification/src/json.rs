//! The library's JSON model: the value tree every component renders into.
//!
//! Floating-point numbers are carried as their IEEE 754 binary64 bit
//! patterns ([`F64Bits`]); objects keep their entries in emission order, and
//! a later entry for a key supersedes an earlier one when the tree is turned
//! into a JSON map.

use vstd::prelude::*;

use crate::float::{F32Bits, F64Bits};

verus! {

/// A JSON value.
#[derive(Debug, PartialEq)]
pub enum JsonValue {
    Null,
    Bool(bool),
    Int(i64),
    Float(F64Bits),
    /// A single-precision number, written as its binary64 widening.
    Float32(F32Bits),
    Str(String),
    Array(Vec<JsonValue>),
    Object(Vec<(String, JsonValue)>),
}

/// The abstract value of a [`JsonValue`].
pub enum Json {
    Null,
    Bool(bool),
    Int(int),
    Float(u64),
    Float32(u32),
    Str(Seq<char>),
    Array(Seq<Json>),
    Object(Seq<(Seq<char>, Json)>),
}

/// The abstract values of a sequence of JSON values.
pub open spec fn view_values(s: Seq<JsonValue>) -> Seq<Json>
    decreases s,
{
    if s.len() == 0 {
        Seq::empty()
    } else {
        view_values(s.drop_last()).push(view_json(s.last()))
    }
}

/// The abstract entries of a sequence of JSON object entries.
pub open spec fn view_entries(s: Seq<(String, JsonValue)>) -> Seq<(Seq<char>, Json)>
    decreases s,
{
    if s.len() == 0 {
        Seq::empty()
    } else {
        view_entries(s.drop_last()).push((s.last().0@, view_json(s.last().1)))
    }
}

/// The abstract value of a JSON value.
pub open spec fn view_json(j: JsonValue) -> Json
    decreases j,
{
    match j {
        JsonValue::Null => Json::Null,
        JsonValue::Bool(b) => Json::Bool(b),
        JsonValue::Int(n) => Json::Int(n as int),
        JsonValue::Float(f) => Json::Float(f.bits),
        JsonValue::Float32(f) => Json::Float32(f.bits),
        JsonValue::Str(s) => Json::Str(s@),
        JsonValue::Array(v) => Json::Array(view_values(v@)),
        JsonValue::Object(v) => Json::Object(view_entries(v@)),
    }
}

} // verus!

verus! {

impl JsonValue {
    /// The abstract value of this JSON value.
    pub open spec fn view(self) -> Json {
        view_json(self)
    }

    /// A deep copy with the same abstract value.
    pub fn deep_clone(&self) -> (r: JsonValue)
        ensures
            view_json(r) == view_json(*self),
        decreases self,
    {
        match self {
            JsonValue::Null => JsonValue::Null,
            JsonValue::Bool(b) => JsonValue::Bool(*b),
            JsonValue::Int(n) => JsonValue::Int(*n),
            JsonValue::Float(f) => JsonValue::Float(*f),
            JsonValue::Float32(f) => JsonValue::Float32(*f),
            JsonValue::Str(s) => JsonValue::Str(s.clone()),
            JsonValue::Array(v) => JsonValue::Array(clone_values(v)),
            JsonValue::Object(v) => JsonValue::Object(clone_entries(v)),
        }
    }

    /// Whether this is a JSON object.
    pub fn is_object(&self) -> (r: bool)
        ensures
            r == (view_json(*self) is Object),
    {
        match self {
            JsonValue::Object(_) => true,
            _ => false,
        }
    }

    /// A JSON string holding a copy of `s`.
    pub fn string(s: &str) -> (r: JsonValue)
        ensures
            view_json(r) == Json::Str(s@),
    {
        JsonValue::Str(crate::text::owned(s))
    }
}

impl Clone for JsonValue {
    fn clone(&self) -> (r: JsonValue)
        ensures
            view_json(r) == view_json(*self),
    {
        self.deep_clone()
    }
}

/// Deep copies of a sequence of JSON values.
pub fn clone_values(v: &Vec<JsonValue>) -> (r: Vec<JsonValue>)
    ensures
        view_values(r@) == view_values(v@),
    decreases v,
{
    let mut out: Vec<JsonValue> = Vec::new();
    let mut i: usize = 0;
    while i < v.len()
        invariant
            i <= v.len(),
            view_values(out@) == view_values(v@.subrange(0, i as int)),
        decreases v.len() - i,
    {
        assert(decreases_to!(v => v@[i as int]));
        let c = v[i].deep_clone();
        let ghost prev = out@;
        out.push(c);
        assert(out@.drop_last() =~= prev);
        assert(v@.subrange(0, i + 1).drop_last() =~= v@.subrange(0, i as int));
        i = i + 1;
    }
    assert(v@.subrange(0, v.len() as int) =~= v@);
    out
}

/// Deep copies of a sequence of JSON object entries.
pub fn clone_entries(v: &Vec<(String, JsonValue)>) -> (r: Vec<(String, JsonValue)>)
    ensures
        view_entries(r@) == view_entries(v@),
    decreases v,
{
    let mut out: Vec<(String, JsonValue)> = Vec::new();
    let mut i: usize = 0;
    while i < v.len()
        invariant
            i <= v.len(),
            view_entries(out@) == view_entries(v@.subrange(0, i as int)),
        decreases v.len() - i,
    {
        assert(decreases_to!(v => v@[i as int].1));
        let k = v[i].0.clone();
        let c = v[i].1.deep_clone();
        let ghost prev = out@;
        out.push((k, c));
        assert(out@.drop_last() =~= prev);
        assert(v@.subrange(0, i + 1).drop_last() =~= v@.subrange(0, i as int));
        i = i + 1;
    }
    assert(v@.subrange(0, v.len() as int) =~= v@);
    out
}

} // verus!

verus! {

/// Appends a `key: value` entry to an object under construction.
pub fn push_entry(v: &mut Vec<(String, JsonValue)>, key: &str, value: JsonValue)
    ensures
        view_entries(final(v)@) == view_entries(old(v)@).push((key@, view_json(value))),
{
    let ghost prev = v@;
    v.push((crate::text::owned(key), value));
    assert(v@.drop_last() =~= prev);
}

/// Appends an element to an array under construction.
pub fn push_value(v: &mut Vec<JsonValue>, value: JsonValue)
    ensures
        view_values(final(v)@) == view_values(old(v)@).push(view_json(value)),
{
    let ghost prev = v@;
    v.push(value);
    assert(v@.drop_last() =~= prev);
}

/// The abstract values of an empty sequence.
pub proof fn lemma_view_values_empty()
    ensures
        view_values(Seq::<JsonValue>::empty()) == Seq::<Json>::empty(),
{
}

/// The abstract entries of an empty sequence.
pub proof fn lemma_view_entries_empty()
    ensures
        view_entries(Seq::<(String, JsonValue)>::empty()) == Seq::<(Seq<char>, Json)>::empty(),
{
}

/// A JSON array of strings.
pub open spec fn spec_string_array(s: Seq<Seq<char>>) -> Json {
    Json::Array(s.map_values(|x: Seq<char>| Json::Str(x)))
}

/// A JSON array holding copies of the given strings.
pub fn string_array(v: &Vec<String>) -> (r: JsonValue)
    ensures
        view_json(r) == spec_string_array(v@.map_values(|s: String| s@)),
{
    let mut out: Vec<JsonValue> = Vec::new();
    let mut i: usize = 0;
    while i < v.len()
        invariant
            i <= v.len(),
            view_values(out@) == v@.subrange(0, i as int).map_values(|s: String| s@).map_values(
                |x: Seq<char>| Json::Str(x),
            ),
        decreases v.len() - i,
    {
        push_value(&mut out, JsonValue::Str(v[i].clone()));
        assert(v@.subrange(0, i + 1).map_values(|s: String| s@).map_values(|x: Seq<char>| Json::Str(x))
            =~= v@.subrange(0, i as int).map_values(|s: String| s@).map_values(|x: Seq<char>| Json::Str(x)).push(Json::Str(v@[i as int]@)));
        i = i + 1;
    }
    assert(v@.subrange(0, v.len() as int) =~= v@);
    JsonValue::Array(out)
}

/// The abstract values keep the length and the order of the values.
pub proof fn lemma_view_values_index(s: Seq<JsonValue>, i: int)
    requires
        0 <= i < s.len(),
    ensures
        view_values(s).len() == s.len(),
        view_values(s)[i] == view_json(s[i]),
    decreases s.len(),
{
    lemma_view_values_len(s);
    if i < s.len() - 1 {
        lemma_view_values_index(s.drop_last(), i);
        assert(s.drop_last()[i] == s[i]);
    }
}

/// The abstract values keep the length of the values.
pub proof fn lemma_view_values_len(s: Seq<JsonValue>)
    ensures
        view_values(s).len() == s.len(),
    decreases s.len(),
{
    if s.len() > 0 {
        lemma_view_values_len(s.drop_last());
    }
}

/// The abstract entries keep the length and the keys of the entries.
pub proof fn lemma_view_entries_index(s: Seq<(String, JsonValue)>, i: int)
    requires
        0 <= i < s.len(),
    ensures
        view_entries(s).len() == s.len(),
        view_entries(s)[i] == (s[i].0@, view_json(s[i].1)),
    decreases s.len(),
{
    lemma_view_entries_len(s);
    if i < s.len() - 1 {
        lemma_view_entries_index(s.drop_last(), i);
        assert(s.drop_last()[i] == s[i]);
    }
}

/// The abstract entries keep the length of the entries.
pub proof fn lemma_view_entries_len(s: Seq<(String, JsonValue)>)
    ensures
        view_entries(s).len() == s.len(),
    decreases s.len(),
{
    if s.len() > 0 {
        lemma_view_entries_len(s.drop_last());
    }
}


/// `es` with `(key, v)` appended when `o` is `Some(v)`.
pub open spec fn push_opt(es: Seq<(Seq<char>, Json)>, key: Seq<char>, o: Option<Json>) -> Seq<
    (Seq<char>, Json),
> {
    match o {
        Some(v) => es.push((key, v)),
        None => es,
    }
}

/// The entries of a JSON object, or none for any other value.
pub open spec fn spec_object_entries(j: Json) -> Seq<(Seq<char>, Json)> {
    match j {
        Json::Object(es) => es,
        _ => Seq::empty(),
    }
}

/// Appends copies of the entries of `src`, when it is an object, to `m`.
pub fn append_object_entries(m: &mut Vec<(String, JsonValue)>, src: &JsonValue)
    ensures
        view_entries(final(m)@) == view_entries(old(m)@) + spec_object_entries(view_json(*src)),
{
    if let JsonValue::Object(es) = src {
        let ghost start = view_entries(m@);
        let mut i: usize = 0;
        assert(view_entries(es@.subrange(0, 0)) =~= Seq::<(Seq<char>, Json)>::empty());
        assert(start + Seq::<(Seq<char>, Json)>::empty() =~= start);
        while i < es.len()
            invariant
                i <= es.len(),
                view_json(*src) == Json::Object(view_entries(es@)),
                view_entries(m@) == start + view_entries(es@.subrange(0, i as int)),
            decreases es.len() - i,
        {
            let ghost before = view_entries(m@);
            push_entry(m, es[i].0.as_str(), es[i].1.deep_clone());
            assert(es@.subrange(0, i + 1).drop_last() =~= es@.subrange(0, i as int));
            assert(view_entries(m@) =~= start + view_entries(es@.subrange(0, i + 1)));
            i = i + 1;
        }
        assert(es@.subrange(0, es@.len() as int) =~= es@);
    } else {
        assert(view_entries(m@) + Seq::<(Seq<char>, Json)>::empty() =~= view_entries(m@));
    }
}


/// Appends `key: v` to an object under construction when `o` is `Some(v)`.
pub fn push_opt_entry(m: &mut Vec<(String, JsonValue)>, key: &str, o: Option<JsonValue>)
    ensures
        view_entries(final(m)@) == push_opt(
            view_entries(old(m)@),
            key@,
            match o {
                Some(v) => Some(view_json(v)),
                None => None,
            },
        ),
{
    if let Some(v) = o {
        push_entry(m, key, v);
    }
}

} // verus!
