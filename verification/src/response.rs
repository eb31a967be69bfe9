//! Interpretation of an observed HTTP response.
//!
//! The client is strict: status 200 is the only success. Any other status is
//! reported as an error carrying that exact status code and the response body
//! converted to diagnostic text. The functions here take the observed status
//! and body as plain values, so their meaning does not depend on who drove
//! the network exchange.

use vstd::prelude::*;
use vstd::utf8::decode_utf8;
use vstd::utf8::valid_utf8;

use crate::error::ApiError;
use crate::json::is_json;
use crate::json::json_error_message;
use crate::json::json_value_of;
use crate::json::parse_json;
use crate::text::bytes_to_text;
use crate::text::lossy_text;

verus! {

/// What the strict client yields for an observed response: the body verbatim
/// when the status is 200, and otherwise the status code paired with the body
/// as diagnostic text.
pub open spec fn strict_outcome(code: u32, body: Seq<u8>) -> Result<Seq<u8>, (u32, Seq<char>)> {
    if code == 200 {
        Ok(body)
    } else {
        Err((code, lossy_text(body)))
    }
}

/// Enforce the strict status policy on an observed response: return the body
/// verbatim for status 200, and otherwise a status error carrying the exact
/// status code and the body as text.
pub fn check_status(code: u32, body: Vec<u8>) -> (r: Result<Vec<u8>, ApiError>)
    ensures
        r is Ok <==> code == 200,
        match strict_outcome(code, body@) {
            Ok(b) => (r matches Ok(v) && v@ == b),
            Err(st) => (r matches Err(e) && e matches ApiError::Status { code: c, text: t }
                && c == st.0 && t@ == st.1),
        },
        code != 200 && valid_utf8(body@) ==> (r matches Err(e)
            && e matches ApiError::Status { code: c, text: t } && t@ == decode_utf8(body@)),
{
    if code == 200 {
        Ok(body)
    } else {
        let text = bytes_to_text(body.as_slice());
        Err(ApiError::Status { code, text })
    }
}

/// Decode the body of a successful response as JSON: a non-200 status is a
/// status error exactly as in [`check_status`]; a 200 status whose body is
/// well-formed JSON yields exactly the decoded document; and a 200 status
/// whose body is not is a parse error carrying the decoder's own message, a
/// kind distinct from any status error.
pub fn decode_json_response(code: u32, body: Vec<u8>) -> (r: Result<serde_json::Value, ApiError>)
    ensures
        r is Ok <==> (code == 200 && is_json(body@)),
        r matches Ok(v) ==> v == json_value_of(body@),
        code != 200 ==> (r matches Err(e) && e matches ApiError::Status { code: c, text: t }
            && c == code && t@ == lossy_text(body@)),
        code == 200 && !is_json(body@) ==> (r matches Err(e) && e matches ApiError::Parse {
            message } && message@ == json_error_message(body@)),
{
    match check_status(code, body) {
        Ok(bytes) => parse_json(bytes.as_slice()),
        Err(e) => Err(e),
    }
}

/// The client keeps no state between calls: the outcome of a request is a
/// function of the observed response alone, so two calls with the same path
/// against an unchanged resource (two calls that observe the same status and
/// the same body) yield identical results.
pub proof fn lemma_get_idempotent(code1: u32, body1: Seq<u8>, code2: u32, body2: Seq<u8>)
    requires
        code1 == code2,
        body1 == body2,
    ensures
        strict_outcome(code1, body1) == strict_outcome(code2, body2),
{
}

/// A response whose status is an error code (400 or above) makes the strict
/// outcome a failure that reports that same code, itself 400 or above. A
/// non-200 status below 400 (say a redirect the transport did not follow) is
/// also a failure, but the code it reports is below 400.
pub proof fn lemma_error_status_reported(code: u32, body: Seq<u8>)
    requires
        400 <= code,
    ensures
        strict_outcome(code, body) matches Err(st) && st.0 == code && 400 <= st.0,
{
}

} // verus!
