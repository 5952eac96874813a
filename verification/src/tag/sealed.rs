//! The seal on [`super::TagRegistry`].

use vstd::prelude::*;

verus! {

/// Implemented only by the registry IDs that have a vanilla tag directory.
pub trait Sealed {}

} // verus!
