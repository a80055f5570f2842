//! Validation of JSON-typed request fields.

use vstd::prelude::*;

use crate::error::ValidationError;

verus! {

#[verifier::external_type_specification]
#[verifier::external_body]
pub struct ExSerdeJsonValue(serde_json::Value);

#[verifier::external_type_specification]
#[verifier::external_body]
pub struct ExSerdeJsonError(serde_json::Error);

/// Whether `serde_json` accepts this text as a JSON document; parsing
/// depends on the text alone.
pub uninterp spec fn json_ok(s: Seq<char>) -> bool;

/// Relies on `serde_json::from_str::<Value>`: it returns `Ok` exactly on
/// the texts it accepts as JSON, deterministically in the text.
#[verifier::external_body]
fn parse_json(value: &str) -> (r: Result<serde_json::Value, serde_json::Error>)
    ensures
        r is Ok <==> json_ok(value@),
{
    serde_json::from_str(value)
}

/// The dotted field name a validation error reports: the field itself, or
/// `parent.field` under a parent.
pub open spec fn spec_field_name(field: Seq<char>, parent: Option<Seq<char>>) -> Seq<char> {
    match parent {
        None => field,
        Some(p) => p + "."@ + field,
    }
}

/// Renders the dotted field name a validation error reports.
pub fn field_name(field: &str, parent_name: Option<&str>) -> (r: String)
    ensures
        match parent_name {
            None => r@ == field@,
            Some(p) => r@ == p@ + "."@ + field@,
        },
{
    match parent_name {
        None => String::from_str(field),
        Some(p) => {
            let mut s = String::from_str(p);
            s.append(".");
            s.append(field);
            s
        },
    }
}

/// Validates that a field holds a JSON document, handing the parsed value
/// back; a rejected text reports the dotted field name as invalid.
pub fn valid_json(value: String, field_name_str: &str, parent_name: Option<&str>) -> (r: Result<
    serde_json::Value,
    ValidationError,
>)
    ensures
        r is Ok <==> json_ok(value@),
        r matches Err(e) ==> e matches ValidationError::Invalid { field } && field@
            == spec_field_name(
            field_name_str@,
            match parent_name {
                Some(p) => Some(p@),
                None => None,
            },
        ),
{
    match parse_json(value.as_str()) {
        Ok(v) => Ok(v),
        Err(_) => Err(
            ValidationError::Invalid { field: field_name(field_name_str, parent_name) },
        ),
    }
}

} // verus!
