//! JSON texts, as `serde_json` writes them.

use vstd::prelude::*;

verus! {

/// The error type of `serde_json`. Nothing is known of its values.
#[verifier::external_type_specification]
#[verifier::external_body]
pub struct ExJsonError(serde_json::Error);

/// The JSON text of a string, in bytes: what `serde_json::to_vec` returns for
/// the string.
pub uninterp spec fn json_string(text: Seq<char>) -> Seq<u8>;

/// Encodes a string as JSON by a call of `serde_json::to_vec`.
///
/// Trusted, not proved: the call succeeds on every string, and the bytes it
/// returns depend on the string alone; they are those that [`json_string`]
/// names. The call writes the quoted and escaped text into a vector of its
/// own and reports an error only where that writing does, which appending to
/// a vector never does. What the bytes are is not stated.
#[verifier::external_body]
pub(crate) fn encode_string(text: &str) -> (r: Result<Vec<u8>, serde_json::Error>)
    ensures
        r is Ok,
        r matches Ok(bytes) ==> bytes@ == json_string(text@),
{
    serde_json::to_vec(text)
}

/// Puts an error of `serde_json` into words, by the error's own `to_string`.
///
/// Nothing is claimed of the text.
#[verifier::external_body]
pub(crate) fn error_text(error: &serde_json::Error) -> String {
    error.to_string()
}

} // verus!
