//! The library's error type.

use vstd::prelude::*;
use vstd::string::*;

use crate::resource_location::{ResourceLocation, ResourceLocationView};
use crate::text::owned;

verus! {

/// Errors raised while constructing or validating datapack components.
#[derive(Debug, Clone, PartialEq, Eq)]
pub enum SandError {
    /// A namespace (or text lacking a colon) that is not a valid namespace.
    InvalidNamespace(String),
    /// A path that is not a valid resource path.
    InvalidPath(String),
    /// A component failed export validation at `field`.
    ComponentValidation {
        location: ResourceLocation,
        kind: String,
        field: String,
        message: String,
    },
}

/// The abstract value of a [`SandError`].
pub enum SandErrorView {
    InvalidNamespace(Seq<char>),
    InvalidPath(Seq<char>),
    ComponentValidation {
        location: ResourceLocationView,
        kind: Seq<char>,
        field: Seq<char>,
        message: Seq<char>,
    },
}

impl View for SandError {
    type V = SandErrorView;

    open spec fn view(&self) -> SandErrorView {
        match self {
            SandError::InvalidNamespace(s) => SandErrorView::InvalidNamespace(s@),
            SandError::InvalidPath(s) => SandErrorView::InvalidPath(s@),
            SandError::ComponentValidation { location, kind, field, message } => {
                SandErrorView::ComponentValidation {
                    location: location@,
                    kind: kind@,
                    field: field@,
                    message: message@,
                }
            },
        }
    }
}

} // verus!

verus! {

/// The abstract value of a unit result.
pub open spec fn view_unit_result(r: Result<(), SandError>) -> Result<(), SandErrorView> {
    match r {
        Ok(()) => Ok(()),
        Err(e) => Err(e@),
    }
}

/// The human-readable message of an error.
pub open spec fn spec_error_message(e: SandErrorView) -> Seq<char> {
    match e {
        SandErrorView::InvalidNamespace(s) => "invalid resource location namespace `"@ + s + "`"@,
        SandErrorView::InvalidPath(s) => "invalid resource location path `"@ + s + "`"@,
        SandErrorView::ComponentValidation { location, kind, field, message } => kind + " `"@
            + location.text() + "` failed validation at `"@ + field + "`: "@ + message,
    }
}

impl SandError {
    /// The human-readable message.
    pub fn to_string(&self) -> (r: String)
        ensures
            r@ == spec_error_message(self@),
    {
        match self {
            SandError::InvalidNamespace(s) => {
                let mut out = owned("invalid resource location namespace `");
                out.append(s.as_str());
                out.append("`");
                out
            },
            SandError::InvalidPath(s) => {
                let mut out = owned("invalid resource location path `");
                out.append(s.as_str());
                out.append("`");
                out
            },
            SandError::ComponentValidation { location, kind, field, message } => {
                let mut out = owned(kind.as_str());
                out.append(" `");
                let l = location.to_string();
                out.append(l.as_str());
                out.append("` failed validation at `");
                out.append(field.as_str());
                out.append("`: ");
                out.append(message.as_str());
                out
            },
        }
    }

    /// A component-validation error.
    pub fn component(location: &ResourceLocation, kind: &str, field: &str, message: &str) -> (r:
        SandError)
        ensures
            r@ == (SandErrorView::ComponentValidation {
                location: location@,
                kind: kind@,
                field: field@,
                message: message@,
            }),
    {
        SandError::ComponentValidation {
            location: location.clone(),
            kind: owned(kind),
            field: owned(field),
            message: owned(message),
        }
    }
}

} // verus!
