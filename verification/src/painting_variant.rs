//! Builder for `data/<namespace>/painting_variant/` JSON files (Minecraft 1.21+).
//!
//! Export validation: `asset_id` must be non-empty and a valid resource
//! location; `width` and `height` must be in `1..=16`; `author` and `title`,
//! when set, must not contain control characters.

use vstd::prelude::*;
use vstd::string::*;

use crate::error::{SandError, SandErrorView, view_unit_result};
use crate::json::{Json, JsonValue, lemma_view_entries_empty, push_entry, view_entries, view_json};
use crate::resource_location::{ResourceLocation, ResourceLocationView};
use crate::text::owned;
use crate::validation::{
    reject_control_chars, require_non_empty, require_u32_in_range, spec_reject_control,
    spec_require_in_range, spec_require_non_empty, spec_require_resource_location, spec_then,
    validate_resource_location_str,
};

verus! {

/// The abstract value of a [`PaintingVariant`].
pub struct PaintingVariantView {
    pub location: ResourceLocationView,
    pub asset_id: Seq<char>,
    pub width: u32,
    pub height: u32,
    pub author: Option<Seq<char>>,
    pub title: Option<Seq<char>>,
}

/// The component kind named in validation errors.
pub open spec fn painting_kind() -> Seq<char> {
    "painting_variant"@
}

/// The optional-text check of `field`.
pub open spec fn spec_optional_control(
    location: ResourceLocationView,
    field: Seq<char>,
    value: Option<Seq<char>>,
) -> Result<(), SandErrorView> {
    match value {
        Some(v) => spec_reject_control(location, painting_kind(), field, v),
        None => Ok(()),
    }
}

/// The result of validating a painting variant: the checks run in the
/// documented order and the first failure is reported.
pub open spec fn spec_painting_validate(v: PaintingVariantView) -> Result<(), SandErrorView> {
    let k = painting_kind();
    spec_then(
        spec_require_non_empty(v.location, k, "asset_id"@, v.asset_id),
        spec_then(
            spec_require_resource_location(v.location, k, "asset_id"@, v.asset_id),
            spec_then(
                spec_require_in_range(v.location, k, "width"@, v.width, 1, 16),
                spec_then(
                    spec_require_in_range(v.location, k, "height"@, v.height, 1, 16),
                    spec_then(
                        spec_optional_control(v.location, "author"@, v.author),
                        spec_optional_control(v.location, "title"@, v.title),
                    ),
                ),
            ),
        ),
    )
}

/// The JSON document of a painting variant.
pub open spec fn spec_painting_json(v: PaintingVariantView) -> Json {
    let e = seq![
        ("asset_id"@, Json::Str(v.asset_id)),
        ("width"@, Json::Int(v.width as int)),
        ("height"@, Json::Int(v.height as int)),
    ];
    let e = match v.author {
        Some(a) => e.push(("author"@, Json::Str(a))),
        None => e,
    };
    let e = match v.title {
        Some(t) => e.push(("title"@, Json::Str(t))),
        None => e,
    };
    Json::Object(e)
}

/// A painting variant definition (`data/<namespace>/painting_variant/<id>.json`).
pub struct PaintingVariant {
    location: ResourceLocation,
    asset_id: String,
    width: u32,
    height: u32,
    author: Option<String>,
    title: Option<String>,
}

/// The abstract value of an optional string.
pub open spec fn view_opt_string(o: Option<String>) -> Option<Seq<char>> {
    match o {
        Some(s) => Some(s@),
        None => None,
    }
}

impl View for PaintingVariant {
    type V = PaintingVariantView;

    closed spec fn view(&self) -> PaintingVariantView {
        PaintingVariantView {
            location: self.location@,
            asset_id: self.asset_id@,
            width: self.width,
            height: self.height,
            author: view_opt_string(self.author),
            title: view_opt_string(self.title),
        }
    }
}

impl PaintingVariant {
    /// A new painting variant: empty asset ID, 1x1, no author or title.
    pub fn new(location: ResourceLocation) -> (r: Self)
        ensures
            r@ == (PaintingVariantView {
                location: location@,
                asset_id: Seq::empty(),
                width: 1,
                height: 1,
                author: None,
                title: None,
            }),
    {
        PaintingVariant {
            location,
            asset_id: String::new(),
            width: 1,
            height: 1,
            author: None,
            title: None,
        }
    }

    /// Sets the asset ID (texture reference).
    pub fn asset_id(self, id: &str) -> (r: Self)
        ensures
            r@ == (PaintingVariantView { asset_id: id@, ..self@ }),
    {
        let mut s = self;
        s.asset_id = owned(id);
        s
    }

    /// Sets the width in blocks.
    pub fn width(self, w: u32) -> (r: Self)
        ensures
            r@ == (PaintingVariantView { width: w, ..self@ }),
    {
        let mut s = self;
        s.width = w;
        s
    }

    /// Sets the height in blocks.
    pub fn height(self, h: u32) -> (r: Self)
        ensures
            r@ == (PaintingVariantView { height: h, ..self@ }),
    {
        let mut s = self;
        s.height = h;
        s
    }

    /// Sets both width and height.
    pub fn dimensions(self, width: u32, height: u32) -> (r: Self)
        ensures
            r@ == (PaintingVariantView { width, height, ..self@ }),
    {
        let mut s = self;
        s.width = width;
        s.height = height;
        s
    }

    /// Sets the author shown in the painting tooltip.
    pub fn author(self, author: &str) -> (r: Self)
        ensures
            r@ == (PaintingVariantView { author: Some(author@), ..self@ }),
    {
        let mut s = self;
        s.author = Some(owned(author));
        s
    }

    /// Sets the title shown in the painting tooltip.
    pub fn title(self, title: &str) -> (r: Self)
        ensures
            r@ == (PaintingVariantView { title: Some(title@), ..self@ }),
    {
        let mut s = self;
        s.title = Some(owned(title));
        s
    }

    /// The component's resource location.
    pub fn resource_location(&self) -> (r: &ResourceLocation)
        ensures
            r@ == self@.location,
    {
        &self.location
    }

    /// Export validation.
    pub fn validate(&self) -> (r: Result<(), SandError>)
        ensures
            view_unit_result(r) == spec_painting_validate(self@),
    {
        let kind = "painting_variant";
        require_non_empty(&self.location, kind, "asset_id", self.asset_id.as_str())?;
        validate_resource_location_str(&self.location, kind, "asset_id", self.asset_id.as_str())?;
        require_u32_in_range(&self.location, kind, "width", self.width, 1, 16)?;
        require_u32_in_range(&self.location, kind, "height", self.height, 1, 16)?;
        if let Some(author) = &self.author {
            reject_control_chars(&self.location, kind, "author", author.as_str())?;
        }
        if let Some(title) = &self.title {
            reject_control_chars(&self.location, kind, "title", title.as_str())?;
        }
        Ok(())
    }

    /// The JSON document.
    pub fn to_json(&self) -> (r: JsonValue)
        ensures
            view_json(r) == spec_painting_json(self@),
    {
        let mut m: Vec<(String, JsonValue)> = Vec::new();
        proof {
            lemma_view_entries_empty();
        }
        push_entry(&mut m, "asset_id", JsonValue::Str(self.asset_id.clone()));
        push_entry(&mut m, "width", JsonValue::Int(self.width as i64));
        push_entry(&mut m, "height", JsonValue::Int(self.height as i64));
        assert(view_entries(m@) =~= seq![
            ("asset_id"@, Json::Str(self@.asset_id)),
            ("width"@, Json::Int(self@.width as int)),
            ("height"@, Json::Int(self@.height as int)),
        ]);
        if let Some(author) = &self.author {
            push_entry(&mut m, "author", JsonValue::Str(author.clone()));
        }
        if let Some(title) = &self.title {
            push_entry(&mut m, "title", JsonValue::Str(title.clone()));
        }
        JsonValue::Object(m)
    }

    /// Validates, then renders the JSON document.
    pub fn try_content(&self) -> (r: Result<JsonValue, SandError>)
        ensures
            match (r, spec_painting_validate(self@)) {
                (Ok(j), Ok(())) => view_json(j) == spec_painting_json(self@),
                (Err(e), Err(v)) => e@ == v,
                _ => false,
            },
    {
        self.validate()?;
        Ok(self.to_json())
    }

    /// The datapack directory (`painting_variant`).
    pub fn component_dir(&self) -> (r: &'static str)
        ensures
            r@ == "painting_variant"@,
    {
        "painting_variant"
    }
}

} // verus!

verus! {

/// A painting variant passes validation exactly when its asset ID is a
/// non-empty resource location, its width and height are in `1..=16`, and
/// its author and title, when set, hold no control characters; every
/// failure is a validation error of this painting variant.
pub proof fn law_painting_valid(v: PaintingVariantView)
    ensures
        spec_painting_validate(v) is Ok <==> {
            &&& v.asset_id.len() > 0
            &&& crate::resource_location::spec_parse_location(v.asset_id) is Ok
            &&& 1 <= v.width <= 16
            &&& 1 <= v.height <= 16
            &&& (v.author matches Some(a) ==> !crate::validation::spec_has_control(a))
            &&& (v.title matches Some(t) ==> !crate::validation::spec_has_control(t))
        },
        spec_painting_validate(v) matches Err(e) ==> e matches SandErrorView::ComponentValidation {
            location,
            kind,
            ..
        } && location == v.location && kind == painting_kind(),
{
}

} // verus!
