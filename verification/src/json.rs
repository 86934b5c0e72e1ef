//! The serde_json types that the library carries without looking inside.
use vstd::prelude::*;

verus! {

/// A JSON number as serde_json holds it.
#[verifier::external_type_specification]
#[verifier::external_body]
pub struct ExNumber(serde_json::Number);

/// Why serde_json could not read a text.
#[verifier::external_type_specification]
#[verifier::external_body]
pub struct ExJsonError(serde_json::Error);

/// Cloning a JSON number gives an equal number: `Number` derives `Clone`
/// (serde_json 1.0.154), which copies its one field.
pub assume_specification[ <serde_json::Number as Clone>::clone ](n: &serde_json::Number) -> (r: serde_json::Number)
    ensures
        r == *n,
;

/// The text of a JSON reading error.
///
/// Trusted: calls `Display` of `serde_json::Error` (through `format!`). The
/// text depends on the error's kind and position, which Verus does not see
/// inside the error, so nothing is stated of it.
#[verifier::external_body]
pub fn json_error_text(e: &serde_json::Error) -> (r: String) {
    format!("{}", e)
}

} // verus!
