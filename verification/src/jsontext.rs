//! JSON string literals for the claim values, through the outside
//! serializer. Escaping is the serializer's business; the library speaks of
//! its result by name and builds the surrounding JSON itself.

use vstd::prelude::*;

verus! {

/// The JSON string literal standing for a character sequence: the sequence
/// between double quotes, with `"`, `\` and control characters escaped, as
/// the outside serializer writes it.
pub uninterp spec fn json_str_of(s: Seq<char>) -> Seq<char>;

/// Relies on `serde_json::to_string` applied to a string slice: the JSON
/// string literal for `s`, quoted and escaped. Serializing a string slice
/// writes to an in-memory buffer and has no failing path, so the literal is
/// returned directly; it is a function of the characters alone.
#[verifier::external_body]
pub(crate) fn json_quote(s: &str) -> (r: String)
    ensures
        r@ == json_str_of(s@),
{
    serde_json::to_string(s).unwrap()
}

} // verus!
