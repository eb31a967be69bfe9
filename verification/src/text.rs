//! Checked conversion of response bytes to diagnostic text.
//!
//! A response body is a byte sequence with no guarantee of being valid text,
//! yet a status error embeds it as text for diagnostics. The conversion used
//! here is lossy and total: valid UTF-8 decodes exactly, and every invalid
//! sequence is replaced rather than trusted.

use vstd::prelude::*;
use vstd::utf8::decode_utf8;
use vstd::utf8::valid_utf8;

verus! {

/// The text that the lossy UTF-8 conversion yields for a byte sequence: the
/// decoded characters where the bytes are valid UTF-8, and otherwise the
/// decoded characters with each invalid sequence replaced.
pub uninterp spec fn lossy_text(bytes: Seq<u8>) -> Seq<char>;

/// Relies on `String::from_utf8_lossy`: the result is a function of the bytes
/// alone, and valid UTF-8 input decodes exactly, with no replacement.
#[verifier::external_body]
pub(crate) fn bytes_to_text(bytes: &[u8]) -> (r: String)
    ensures
        r@ == lossy_text(bytes@),
        valid_utf8(bytes@) ==> r@ == decode_utf8(bytes@),
{
    String::from_utf8_lossy(bytes).into_owned()
}

} // verus!
