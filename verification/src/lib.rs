//! Building blocks for the two plaintext segments of a JSON Web Signature:
//! the header naming the signing algorithm and key, and the claims set
//! naming issuer, audience, scope, subject and validity window. Each is
//! serialized to compact JSON with a fixed key order and base64url-encoded
//! without padding; the caller concatenates the two segments and a
//! signature into the final token.

use vstd::prelude::*;

pub mod b64;
pub mod clock;
pub mod digits;
pub mod errors;
pub mod jsontext;
pub mod jws;

verus! {

pub use clock::timestamp;
pub use errors::Error;
pub use errors::ErrorKind;
pub use jws::JwsClaims;
pub use jws::JwsHeader;

} // verus!
