//! Shared export-time validation checks for datapack components.
//!
//! Each check names the component (`location`, `kind`) and the offending
//! `field` in the [`SandError::ComponentValidation`] it returns.

use vstd::prelude::*;
use vstd::string::*;

use crate::error::{SandError, SandErrorView, view_unit_result};
use crate::resource_location::{ResourceLocation, ResourceLocationView, spec_parse_location};
use crate::text::{concat3, spec_decimal, u64_to_decimal};

verus! {

/// The first failure of two checks run in order.
pub open spec fn spec_then(
    a: Result<(), SandErrorView>,
    b: Result<(), SandErrorView>,
) -> Result<(), SandErrorView> {
    if a is Err {
        a
    } else {
        b
    }
}

/// A component-validation error value.
pub open spec fn spec_component_error(
    location: ResourceLocationView,
    kind: Seq<char>,
    field: Seq<char>,
    message: Seq<char>,
) -> SandErrorView {
    SandErrorView::ComponentValidation { location, kind, field, message }
}

/// A Unicode control character (general category `Cc`), as `char::is_control`.
pub open spec fn spec_is_control(c: char) -> bool {
    (c as u32) <= 0x1f || (0x7f <= (c as u32) && (c as u32) <= 0x9f)
}

/// A Unicode `White_Space` character, as `char::is_whitespace`.
pub open spec fn spec_is_whitespace(c: char) -> bool {
    let u = c as u32;
    (0x9 <= u && u <= 0xd) || u == 0x20 || u == 0x85 || u == 0xa0 || u == 0x1680 || (0x2000 <= u
        && u <= 0x200a) || u == 0x2028 || u == 0x2029 || u == 0x202f || u == 0x205f || u == 0x3000
}

/// Whether some character of `s` is a control character.
pub open spec fn spec_has_control(s: Seq<char>) -> bool {
    exists|i: int| 0 <= i < s.len() && #[trigger] spec_is_control(s[i])
}

/// Whether every character of `s` is whitespace.
pub open spec fn spec_all_whitespace(s: Seq<char>) -> bool {
    forall|i: int| 0 <= i < s.len() ==> #[trigger] spec_is_whitespace(s[i])
}

/// `require_non_empty`: the value must not be empty.
pub open spec fn spec_require_non_empty(
    location: ResourceLocationView,
    kind: Seq<char>,
    field: Seq<char>,
    value: Seq<char>,
) -> Result<(), SandErrorView> {
    if value.len() == 0 {
        Err(spec_component_error(location, kind, field, "value must not be empty"@))
    } else {
        Ok(())
    }
}

/// `validate_resource_location_str`: the value must parse as `namespace:path`.
pub open spec fn spec_require_resource_location(
    location: ResourceLocationView,
    kind: Seq<char>,
    field: Seq<char>,
    value: Seq<char>,
) -> Result<(), SandErrorView> {
    if spec_parse_location(value) is Err {
        Err(
            spec_component_error(
                location,
                kind,
                field,
                "value must be a valid namespace:path resource location, got `"@ + value + "`"@,
            ),
        )
    } else {
        Ok(())
    }
}

/// `require_u32_in_range`: `min <= value <= max`.
pub open spec fn spec_require_in_range(
    location: ResourceLocationView,
    kind: Seq<char>,
    field: Seq<char>,
    value: u32,
    min: u32,
    max: u32,
) -> Result<(), SandErrorView> {
    if value < min || value > max {
        Err(
            spec_component_error(
                location,
                kind,
                field,
                "value must be between "@ + spec_decimal(min as nat) + " and "@ + spec_decimal(
                    max as nat,
                ) + ", got "@ + spec_decimal(value as nat),
            ),
        )
    } else {
        Ok(())
    }
}

/// `reject_control_chars`: the value must not contain control characters.
pub open spec fn spec_reject_control(
    location: ResourceLocationView,
    kind: Seq<char>,
    field: Seq<char>,
    value: Seq<char>,
) -> Result<(), SandErrorView> {
    if spec_has_control(value) {
        Err(spec_component_error(location, kind, field, "value must not contain control characters"@))
    } else {
        Ok(())
    }
}

/// `reject_whitespace_only`: a non-empty value must not be only whitespace.
pub open spec fn spec_reject_whitespace_only(
    location: ResourceLocationView,
    kind: Seq<char>,
    field: Seq<char>,
    value: Seq<char>,
) -> Result<(), SandErrorView> {
    if value.len() > 0 && spec_all_whitespace(value) {
        Err(spec_component_error(location, kind, field, "value must not be only whitespace"@))
    } else {
        Ok(())
    }
}

/// Whether `c` is a control character.
pub fn is_control(c: char) -> (r: bool)
    ensures
        r == spec_is_control(c),
{
    let u = c as u32;
    u <= 0x1f || (0x7f <= u && u <= 0x9f)
}

/// Whether `c` is whitespace.
pub fn is_whitespace(c: char) -> (r: bool)
    ensures
        r == spec_is_whitespace(c),
{
    let u = c as u32;
    (0x9 <= u && u <= 0xd) || u == 0x20 || u == 0x85 || u == 0xa0 || u == 0x1680 || (0x2000 <= u
        && u <= 0x200a) || u == 0x2028 || u == 0x2029 || u == 0x202f || u == 0x205f || u == 0x3000
}

/// Whether some character of `s` is a control character.
pub fn has_control(s: &str) -> (r: bool)
    ensures
        r == spec_has_control(s@),
{
    let n = s.unicode_len();
    let mut i: usize = 0;
    while i < n
        invariant
            n == s@.len(),
            i <= n,
            forall|j: int| 0 <= j < i ==> !#[trigger] spec_is_control(s@[j]),
        decreases n - i,
    {
        if is_control(s.get_char(i)) {
            return true;
        }
        i = i + 1;
    }
    false
}

/// Whether every character of `s` is whitespace.
pub fn all_whitespace(s: &str) -> (r: bool)
    ensures
        r == spec_all_whitespace(s@),
{
    let n = s.unicode_len();
    let mut i: usize = 0;
    while i < n
        invariant
            n == s@.len(),
            i <= n,
            forall|j: int| 0 <= j < i ==> #[trigger] spec_is_whitespace(s@[j]),
        decreases n - i,
    {
        if !is_whitespace(s.get_char(i)) {
            return false;
        }
        i = i + 1;
    }
    true
}

/// The value must not be empty.
pub fn require_non_empty(location: &ResourceLocation, kind: &str, field: &str, value: &str) -> (r:
    Result<(), SandError>)
    ensures
        view_unit_result(r) == spec_require_non_empty(location@, kind@, field@, value@),
{
    if value.unicode_len() == 0 {
        Err(SandError::component(location, kind, field, "value must not be empty"))
    } else {
        Ok(())
    }
}

/// The value must parse as a `namespace:path` resource location.
pub fn validate_resource_location_str(
    location: &ResourceLocation,
    kind: &str,
    field: &str,
    value: &str,
) -> (r: Result<(), SandError>)
    ensures
        view_unit_result(r) == spec_require_resource_location(
            location@,
            kind@,
            field@,
            value@,
        ),
{
    match ResourceLocation::parse(value) {
        Ok(_) => Ok(()),
        Err(_) => {
            let m = concat3(
                "value must be a valid namespace:path resource location, got `",
                value,
                "`",
            );
            Err(SandError::component(location, kind, field, m.as_str()))
        },
    }
}

/// `min <= value <= max`.
pub fn require_u32_in_range(
    location: &ResourceLocation,
    kind: &str,
    field: &str,
    value: u32,
    min: u32,
    max: u32,
) -> (r: Result<(), SandError>)
    ensures
        view_unit_result(r) == spec_require_in_range(
            location@,
            kind@,
            field@,
            value,
            min,
            max,
        ),
{
    if value < min || value > max {
        let mut m = crate::text::owned("value must be between ");
        let a = u64_to_decimal(min as u64);
        m.append(a.as_str());
        m.append(" and ");
        let b = u64_to_decimal(max as u64);
        m.append(b.as_str());
        m.append(", got ");
        let c = u64_to_decimal(value as u64);
        m.append(c.as_str());
        Err(SandError::component(location, kind, field, m.as_str()))
    } else {
        Ok(())
    }
}

/// The value must not contain control characters.
pub fn reject_control_chars(location: &ResourceLocation, kind: &str, field: &str, value: &str) -> (r:
    Result<(), SandError>)
    ensures
        view_unit_result(r) == spec_reject_control(location@, kind@, field@, value@),
{
    if has_control(value) {
        Err(SandError::component(location, kind, field, "value must not contain control characters"))
    } else {
        Ok(())
    }
}

/// A non-empty value must not be only whitespace.
pub fn reject_whitespace_only(location: &ResourceLocation, kind: &str, field: &str, value: &str) -> (r:
    Result<(), SandError>)
    ensures
        view_unit_result(r) == spec_reject_whitespace_only(
            location@,
            kind@,
            field@,
            value@,
        ),
{
    if value.unicode_len() > 0 && all_whitespace(value) {
        Err(SandError::component(location, kind, field, "value must not be only whitespace"))
    } else {
        Ok(())
    }
}

} // verus!
