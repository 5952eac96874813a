//! Explicit raw escape hatch types for datapack interop.
//!
//! These types make raw datapack values visibly named at every call site:
//! [`RawJson`] for arbitrary JSON, [`RawSnbt`] for SNBT text, [`RawCommand`]
//! for command text and [`RawComponent`] for `key=snbt` item components.

use vstd::prelude::*;
use vstd::string::*;

use crate::json::{Json, JsonValue, view_json};
use crate::text::{concat3, owned};

verus! {

/// A raw JSON value used as an explicit escape hatch.
#[derive(Debug, Clone, PartialEq)]
pub struct RawJson(pub JsonValue);

impl View for RawJson {
    type V = Json;

    /// The abstract JSON value.
    open spec fn view(&self) -> Json {
        view_json(self.0)
    }
}

impl RawJson {
    /// Wraps an arbitrary JSON value.
    pub fn new(v: JsonValue) -> (r: Self)
        ensures
            r.view() == view_json(v),
    {
        RawJson(v)
    }

    /// The inner value.
    pub fn as_value(&self) -> (r: &JsonValue)
        ensures
            view_json(*r) == self.view(),
    {
        &self.0
    }

    /// Consumes the wrapper and returns the inner value.
    pub fn into_value(self) -> (r: JsonValue)
        ensures
            view_json(r) == self.view(),
    {
        self.0
    }

    /// A deep copy.
    pub fn deep_clone(&self) -> (r: Self)
        ensures
            r.view() == self.view(),
    {
        RawJson(self.0.deep_clone())
    }
}

/// A raw SNBT (Stringified NBT) string, passed verbatim into generated output.
#[derive(Debug, Clone, PartialEq, Eq, Hash)]
pub struct RawSnbt(String);

impl View for RawSnbt {
    type V = Seq<char>;

    closed spec fn view(&self) -> Seq<char> {
        self.0@
    }
}

impl RawSnbt {
    /// Wraps raw SNBT text.
    pub fn new(s: &str) -> (r: Self)
        ensures
            r@ == s@,
    {
        RawSnbt(owned(s))
    }

    /// The SNBT text.
    pub fn as_str(&self) -> (r: &str)
        ensures
            r@ == self@,
    {
        self.0.as_str()
    }

    /// The SNBT text, owned.
    pub fn to_string(&self) -> (r: String)
        ensures
            r@ == self@,
    {
        owned(self.0.as_str())
    }

    /// Consumes the wrapper and returns the text.
    pub fn into_string(self) -> (r: String)
        ensures
            r@ == self@,
    {
        self.0
    }
}

/// A raw Minecraft command string.
#[derive(Debug, Clone, PartialEq, Eq, Hash)]
pub struct RawCommand(String);

impl View for RawCommand {
    type V = Seq<char>;

    closed spec fn view(&self) -> Seq<char> {
        self.0@
    }
}

impl RawCommand {
    /// Wraps raw command text.
    pub fn new(s: &str) -> (r: Self)
        ensures
            r@ == s@,
    {
        RawCommand(owned(s))
    }

    /// The command text.
    pub fn as_str(&self) -> (r: &str)
        ensures
            r@ == self@,
    {
        self.0.as_str()
    }

    /// The command text, owned.
    pub fn to_string(&self) -> (r: String)
        ensures
            r@ == self@,
    {
        owned(self.0.as_str())
    }

    /// Consumes the wrapper and returns the text.
    pub fn into_string(self) -> (r: String)
        ensures
            r@ == self@,
    {
        self.0
    }
}

/// The abstract value of a [`RawComponent`].
pub struct RawComponentView {
    pub key: Seq<char>,
    pub value: Seq<char>,
}

/// A raw item component (`key=snbt_value`).
#[derive(Debug, Clone, PartialEq, Eq)]
pub struct RawComponent {
    key: String,
    value: String,
}

impl View for RawComponent {
    type V = RawComponentView;

    closed spec fn view(&self) -> RawComponentView {
        RawComponentView { key: self.key@, value: self.value@ }
    }
}

impl RawComponent {
    /// A raw item component from a `key` and its SNBT `value`.
    pub fn new(key: &str, value: &str) -> (r: Self)
        ensures
            r@.key == key@,
            r@.value == value@,
    {
        RawComponent { key: owned(key), value: owned(value) }
    }

    /// The component key.
    pub fn key(&self) -> (r: &str)
        ensures
            r@ == self@.key,
    {
        self.key.as_str()
    }

    /// The raw SNBT value.
    pub fn value(&self) -> (r: &str)
        ensures
            r@ == self@.value,
    {
        self.value.as_str()
    }

    /// The `key=value` text.
    pub fn to_string(&self) -> (r: String)
        ensures
            r@ == self@.key + seq!['='] + self@.value,
    {
        let eq = "=";
        proof {
            reveal_strlit("=");
        }
        concat3(self.key.as_str(), eq, self.value.as_str())
    }
}

} // verus!
