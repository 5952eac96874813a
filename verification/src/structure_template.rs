//! Copy-backed structure templates (`data/<namespace>/structure/<path>.nbt`).

use vstd::prelude::*;

use crate::json::{Json, JsonValue, view_json};
use crate::resource_location::{ResourceLocation, ResourceLocationView};
use crate::text::owned;

verus! {

/// A datapack structure template copied from an existing `.nbt` file.
///
/// Structure templates are binary NBT assets; the library treats them as
/// copy-backed components written under `data/<namespace>/structure/<path>.nbt`.
#[derive(Debug, PartialEq, Eq)]
pub struct StructureTemplate {
    location: ResourceLocation,
    source_path: String,
}

/// The abstract value of a [`StructureTemplate`].
pub struct StructureTemplateView {
    pub location: ResourceLocationView,
    pub source_path: Seq<char>,
}

impl View for StructureTemplate {
    type V = StructureTemplateView;

    closed spec fn view(&self) -> StructureTemplateView {
        StructureTemplateView { location: self.location@, source_path: self.source_path@ }
    }
}

impl StructureTemplate {
    /// A copy-backed structure template; `source_path` is relative to the
    /// project root.
    pub fn new(location: ResourceLocation, source_path: &str) -> (r: Self)
        ensures
            r@ == (StructureTemplateView { location: location@, source_path: source_path@ }),
    {
        StructureTemplate { location, source_path: owned(source_path) }
    }

    /// The source path that is copied into the datapack.
    pub fn source_path(&self) -> (r: &str)
        ensures
            r@ == self@.source_path,
    {
        self.source_path.as_str()
    }

    /// The component's resource location.
    pub fn resource_location(&self) -> (r: &ResourceLocation)
        ensures
            r@ == self@.location,
    {
        &self.location
    }

    /// Structure templates carry no JSON document.
    pub fn to_json(&self) -> (r: JsonValue)
        ensures
            view_json(r) == Json::Null,
    {
        JsonValue::Null
    }

    /// The datapack directory (`structure`).
    pub fn component_dir(&self) -> (r: &'static str)
        ensures
            r@ == "structure"@,
    {
        "structure"
    }

    /// The file extension (`nbt`).
    pub fn file_extension(&self) -> (r: &'static str)
        ensures
            r@ == "nbt"@,
    {
        "nbt"
    }

    /// The file copied into the datapack.
    pub fn copy_source_path(&self) -> (r: Option<&str>)
        ensures
            r matches Some(p) && p@ == self@.source_path,
    {
        Some(self.source_path.as_str())
    }
}

} // verus!
