//! JSON values, which `serde_json` holds and prints.

use vstd::prelude::*;

verus! {

/// The JSON values of `serde_json`. Nothing is known of one but the text that it prints as.
#[verifier::external_type_specification]
#[verifier::external_body]
pub struct ExJsonValue(serde_json::Value);

/// The text that a JSON value stands for: its compact form, without line breaks or padding.
pub uninterp spec fn json_text(value: serde_json::Value) -> Seq<char>;

/// Prints `value` by the `Display` of `serde_json::Value`. Trusted: that the text is determined by
/// the value alone, and so has a name, [`json_text`].
#[verifier::external_body]
pub(crate) fn print_json(value: &serde_json::Value) -> (text: String)
    ensures
        text@ == json_text(*value),
{
    value.to_string()
}

} // verus!
