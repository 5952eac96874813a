//! Target game version capabilities: what a component may rely on when it
//! is exported for a given Minecraft version.

use vstd::prelude::*;

use crate::text::{push_char, spec_decimal, u64_to_decimal};

verus! {

/// A version feature a component may need from the target game version.
#[derive(Debug, Clone, Copy, PartialEq, Eq)]
pub enum ComponentFeature {
    /// Item data components (Minecraft 1.20.5 and later).
    ItemComponents,
    /// Data-driven animal variants such as pig variants (Minecraft 1.21.5
    /// and later).
    AnimalVariants,
}

/// The capabilities of a target Minecraft version `major.minor.patch`.
#[derive(Debug, Clone, Copy, PartialEq, Eq)]
pub struct VersionCaps {
    pub major: u32,
    pub minor: u32,
    pub patch: u32,
}

/// Whether version `(a, b, c)` is at least `(x, y, z)`, ordered
/// lexicographically.
pub open spec fn spec_at_least(v: VersionCaps, x: u32, y: u32, z: u32) -> bool {
    v.major > x || (v.major == x && (v.minor > y || (v.minor == y && v.patch >= z)))
}

/// Whether the target version supports a feature.
pub open spec fn spec_supports(v: VersionCaps, f: ComponentFeature) -> bool {
    match f {
        ComponentFeature::ItemComponents => spec_at_least(v, 1, 20, 5),
        ComponentFeature::AnimalVariants => spec_at_least(v, 1, 21, 5),
    }
}

/// The version as written in messages: `major.minor.patch`.
pub open spec fn spec_version_text(v: VersionCaps) -> Seq<char> {
    spec_decimal(v.major as nat) + seq!['.'] + spec_decimal(v.minor as nat) + seq!['.']
        + spec_decimal(v.patch as nat)
}

impl VersionCaps {
    /// The capabilities of version `major.minor.patch`.
    pub fn new(major: u32, minor: u32, patch: u32) -> (r: Self)
        ensures
            r == (VersionCaps { major, minor, patch }),
    {
        VersionCaps { major, minor, patch }
    }

    /// Whether this version is at least `major.minor.patch`.
    pub fn is_at_least(&self, major: u32, minor: u32, patch: u32) -> (r: bool)
        ensures
            r == spec_at_least(*self, major, minor, patch),
    {
        self.major > major || (self.major == major && (self.minor > minor || (self.minor == minor
            && self.patch >= patch)))
    }

    /// Whether this version supports `feature`.
    pub fn supports(&self, feature: ComponentFeature) -> (r: bool)
        ensures
            r == spec_supports(*self, feature),
    {
        match feature {
            ComponentFeature::ItemComponents => self.is_at_least(1, 20, 5),
            ComponentFeature::AnimalVariants => self.is_at_least(1, 21, 5),
        }
    }

    /// The version as written in messages.
    pub fn requested_version(&self) -> (r: String)
        ensures
            r@ == spec_version_text(*self),
    {
        let mut s = u64_to_decimal(self.major as u64);
        push_char(&mut s, '.');
        let b = u64_to_decimal(self.minor as u64);
        s.append(b.as_str());
        push_char(&mut s, '.');
        let c = u64_to_decimal(self.patch as u64);
        s.append(c.as_str());
        s
    }
}

} // verus!
