//! JSON decoding of response bodies.
//!
//! The decoder itself is `serde_json`; this module pins down when decoding
//! succeeds and what it yields. Which byte sequences the decoder accepts is
//! named by [`is_json`], the document it decodes by [`json_value_of`], and
//! the diagnostic it renders for a rejected body by [`json_error_message`] —
//! all functions of the bytes alone. A rejected body becomes a parse error, a
//! kind distinct from any HTTP status error, carrying that diagnostic.

use vstd::prelude::*;

use crate::error::ApiError;

verus! {

/// Whether a byte sequence is one well-formed JSON document, exactly as the
/// decoder accepts it.
pub uninterp spec fn is_json(bytes: Seq<u8>) -> bool;

/// The document the decoder yields for a well-formed byte sequence.
pub uninterp spec fn json_value_of(bytes: Seq<u8>) -> serde_json::Value;

/// The diagnostic message the decoder renders for a rejected byte sequence.
pub uninterp spec fn json_error_message(bytes: Seq<u8>) -> Seq<char>;

#[verifier::external_type_specification]
#[verifier::external_body]
pub struct ExJsonValue(serde_json::Value);

/// Relies on `serde_json::from_slice`: decoding bytes into
/// `serde_json::Value` succeeds exactly when they form one well-formed JSON
/// document, and both the decoded document and the rendered failure
/// diagnostic are functions of the bytes alone.
#[verifier::external_body]
fn from_slice_value(bytes: &[u8]) -> (r: Result<serde_json::Value, String>)
    ensures
        r is Ok <==> is_json(bytes@),
        r matches Ok(v) ==> v == json_value_of(bytes@),
        r matches Err(m) ==> m@ == json_error_message(bytes@),
{
    match serde_json::from_slice::<serde_json::Value>(bytes) {
        Ok(v) => Ok(v),
        Err(e) => Err(format!("{}", e)),
    }
}

/// Decode bytes as one JSON document. Success yields exactly the decoded
/// document; a failure is a parse error carrying the decoder's own message,
/// never a status error.
pub fn parse_json(bytes: &[u8]) -> (r: Result<serde_json::Value, ApiError>)
    ensures
        r is Ok <==> is_json(bytes@),
        r matches Ok(v) ==> v == json_value_of(bytes@),
        r matches Err(e) ==> (e matches ApiError::Parse { message } && message@
            == json_error_message(bytes@)),
{
    match from_slice_value(bytes) {
        Ok(v) => Ok(v),
        Err(message) => Err(ApiError::Parse { message }),
    }
}

} // verus!
