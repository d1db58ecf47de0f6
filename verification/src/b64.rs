//! Unpadded base64url encoding of the serialized segments, through the
//! outside encoder. The encoding itself is named rather than restated; what
//! the contracts pin down is the alphabet and the length of the output.

use vstd::prelude::*;

verus! {

/// A character of the URL-safe base64 alphabet: letters, digits, `-` and
/// `_`. The padding character `=` is not among them.
pub open spec fn is_b64url_char(c: char) -> bool {
    ('A' <= c && c <= 'Z') || ('a' <= c && c <= 'z') || ('0' <= c && c <= '9') || c == '-'
        || c == '_'
}

/// The unpadded base64url encoding of the UTF-8 bytes of a character
/// sequence, as the outside encoder produces it.
pub uninterp spec fn b64url_of(s: Seq<char>) -> Seq<char>;

/// Relies on `base64::encode_config` with `base64::URL_SAFE_NO_PAD`: the
/// base64 encoding of the UTF-8 bytes of `s`, over the URL-safe alphabet
/// (`-` and `_` in place of `+` and `/`), with no `=` padding appended. The
/// result is a function of the input characters alone; every character of
/// it is drawn from the URL-safe alphabet; and an ASCII input of n bytes
/// encodes to exactly one character per six bits, rounded up.
#[verifier::external_body]
pub(crate) fn b64url_encode(s: &str) -> (r: String)
    ensures
        r@ == b64url_of(s@),
        forall|i: int| 0 <= i < r@.len() ==> is_b64url_char(#[trigger] r@[i]),
        vstd::string::is_ascii(s) ==> r@.len() == (4 * s@.len() + 2) / 3,
{
    base64::encode_config(s, base64::URL_SAFE_NO_PAD)
}

} // verus!
