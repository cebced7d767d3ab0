//! Decoding of source bytes.
//!
//! A source arrives as raw bytes and is registered as text. Bytes that are
//! valid UTF-8 decode to the text they encode; any other input is decoded with
//! a replacement character in place of each invalid sequence, so that decoding
//! never fails.

use vstd::prelude::*;
use vstd::utf8::decode_utf8;
use vstd::utf8::valid_utf8;

verus! {

/// The text that lossy decoding gives for bytes that are not valid UTF-8.
pub uninterp spec fn lossy_text(bytes: Seq<u8>) -> Seq<char>;

/// The text of a source: the decoded bytes where they are valid UTF-8, and the
/// lossy decoding otherwise.
pub open spec fn source_text(bytes: Seq<u8>) -> Seq<char> {
    if valid_utf8(bytes) {
        decode_utf8(bytes)
    } else {
        lossy_text(bytes)
    }
}

/// `String::from_utf8_lossy` returns valid UTF-8 as the string it encodes, and
/// replaces each invalid sequence of any other input by U+FFFD.
#[verifier::external_body]
pub(crate) fn decode_lossy(bytes: &[u8]) -> (text: String)
    ensures
        valid_utf8(bytes@) ==> text@ == decode_utf8(bytes@),
        !valid_utf8(bytes@) ==> text@ == lossy_text(bytes@),
{
    String::from_utf8_lossy(bytes).into_owned()
}

/// Decodes the bytes of a source into the text that is registered for it.
pub fn decode_source(bytes: &[u8]) -> (text: String)
    ensures
        text@ == source_text(bytes@),
{
    decode_lossy(bytes)
}

} // verus!
