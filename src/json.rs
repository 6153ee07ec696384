//! JSON text that the components emit: string literals are quoted and
//! escaped by serde_json, everything around them is assembled here.

use vstd::prelude::*;

verus! {

/// The JSON string literal that serde_json writes for `s` (quotes included).
pub uninterp spec fn json_quoted(s: Seq<char>) -> Seq<char>;

/// Relies on serde_json's `Display` for `Value::String`: the compact JSON
/// literal of `s`, which depends on the characters of `s` alone.
#[verifier::external_body]
pub(crate) fn json_string_literal(s: &str) -> (r: String)
    ensures
        r@ == json_quoted(s@),
{
    serde_json::Value::String(s.to_string()).to_string()
}

} // verus!
