//! Translation between the interpreter's dynamic value type and JSON text.
//!
//! The conversions themselves are performed by serde_json on the
//! interpreter's value type; this module gives each call a contract the
//! rest of the library is verified against.

use vstd::prelude::*;
use vstd::utf8::{decode_utf8, valid_utf8};

verus! {

#[verifier::external_type_specification]
#[verifier::external_body]
pub struct ExDynamic(rhai::Dynamic);

/// The outcome of parsing JSON text into the interpreter's dynamic value:
/// `None` when the text is well-formed JSON representable as a dynamic
/// value (an integer beyond the representable range is not), otherwise the
/// parser's rendered error message, a function of the text alone.
pub uninterp spec fn context_decode_error(text: Seq<char>) -> Option<Seq<char>>;

/// Relies on serde_json::from_str::<rhai::Dynamic>: parsing is deterministic
/// in the text and succeeds exactly on well-formed JSON representable as a
/// dynamic value; the error names what failed and where (line and column),
/// rendered deterministically.
#[verifier::external_body]
pub(crate) fn decode_value(text: &str) -> (r: Result<rhai::Dynamic, String>)
    ensures
        r is Ok <==> context_decode_error(text@) is None,
        r matches Err(m) ==> context_decode_error(text@) == Some(m@),
{
    match serde_json::from_str::<rhai::Dynamic>(text) {
        Ok(value) => Ok(value),
        Err(error) => Err(format!("{}", error)),
    }
}

/// Relies on serde_json::to_string on a rhai::Dynamic: on success the
/// string is the JSON rendering of the value, hence never empty; on failure
/// the error's rendering is returned instead.
#[verifier::external_body]
pub(crate) fn encode_value(value: &rhai::Dynamic) -> (r: Result<String, String>)
    ensures
        r matches Ok(text) ==> text@.len() > 0,
{
    match serde_json::to_string(value) {
        Ok(text) => Ok(text),
        Err(error) => Err(format!("{}", error)),
    }
}

/// Relies on std::str::from_utf8: it succeeds exactly when the bytes are
/// valid UTF-8, and the resulting slice views those same bytes as
/// characters.
#[verifier::external_body]
pub(crate) fn bytes_to_str(bytes: &[u8]) -> (r: Option<&str>)
    ensures
        r is Some <==> valid_utf8(bytes@),
        r matches Some(text) ==> text@ == decode_utf8(bytes@),
{
    std::str::from_utf8(bytes).ok()
}

} // verus!
