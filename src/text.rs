//! Conversion between text and the raw bytes that the engine stores.

use vstd::prelude::*;
use vstd::utf8::{decode_utf8, encode_utf8, valid_utf8};

verus! {

/// The text that lossy UTF-8 decoding gives for bytes that are not valid
/// UTF-8: every maximal malformed run is replaced by U+FFFD.
pub uninterp spec fn lossy_utf8(bytes: Seq<u8>) -> Seq<char>;

/// The raw bytes under which `text` is stored: its UTF-8 encoding.
pub open spec fn raw_of(text: Seq<char>) -> Seq<u8> {
    encode_utf8(text)
}

/// The text read back from stored bytes: the characters they encode when they
/// are valid UTF-8, their lossy decoding otherwise.
pub open spec fn text_of(raw: Seq<u8>) -> Seq<char> {
    if valid_utf8(raw) {
        decode_utf8(raw)
    } else {
        lossy_utf8(raw)
    }
}

/// The UTF-8 bytes of `s`; encoding text never fails.
pub fn to_raw(s: &str) -> (r: &[u8])
    ensures
        r@ == raw_of(s@),
{
    s.as_bytes()
}

/// Relies on `String::from_utf8_lossy`: bytes that are valid UTF-8 decode to
/// exactly the characters they encode; malformed sequences become U+FFFD.
#[verifier::external_body]
pub(crate) fn from_raw_lossy(bytes: &[u8]) -> (r: String)
    ensures
        valid_utf8(bytes@) ==> r@ == decode_utf8(bytes@),
        !valid_utf8(bytes@) ==> r@ == lossy_utf8(bytes@),
{
    String::from_utf8_lossy(bytes).into_owned()
}

/// Text stored under its UTF-8 encoding reads back unchanged.
pub proof fn lemma_text_round_trip(text: Seq<char>)
    ensures
        text_of(raw_of(text)) == text,
{
    vstd::utf8::encode_utf8_decode_utf8(text);
    vstd::utf8::encode_utf8_valid_utf8(text);
}

} // verus!
