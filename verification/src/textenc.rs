//! Text decoding for file contents: UTF-8 when the bytes are valid
//! UTF-8, with a windows-1252 fallback for legacy files.

use vstd::prelude::*;
use vstd::utf8::{decode_utf8, valid_utf8};

verus! {

/// What encoding_rs's WINDOWS_1252 decoding returns for a byte
/// sequence.  The result is a function of the bytes alone; the
/// character table (and the byte-order-mark sniffing that `decode`
/// performs first) takes pages to state, so the result is named
/// rather than written out.
pub uninterp spec fn windows1252_of(data: Seq<u8>) -> Seq<char>;

/// Relies on core::str::from_utf8: it succeeds exactly on valid UTF-8
/// and the resulting string reads those bytes.
#[verifier::external_body]
pub(crate) fn utf8_decode(data: &[u8]) -> (decoded: Option<String>)
    ensures
        decoded is Some <==> valid_utf8(data@),
        decoded matches Some(text) ==> text@ == decode_utf8(data@),
{
    match core::str::from_utf8(data) {
        Ok(text) => Some(text.to_owned()),
        Err(_) => None,
    }
}

/// Relies on encoding_rs's WINDOWS_1252.decode: a total decoding whose
/// result depends on the input bytes alone.
#[verifier::external_body]
fn windows1252_decode(data: &[u8]) -> (decoded: String)
    ensures
        decoded@ == windows1252_of(data@),
{
    let (text, _, _) = encoding_rs::WINDOWS_1252.decode(data);
    text.into_owned()
}

/// Decode file contents to text: UTF-8 when the bytes are valid
/// UTF-8, else the windows-1252 fallback.
pub fn decode_text(data: &[u8]) -> (text: String)
    ensures
        valid_utf8(data@) ==> text@ == decode_utf8(data@),
        !valid_utf8(data@) ==> text@ == windows1252_of(data@),
{
    match utf8_decode(data) {
        Some(text) => text,
        None => windows1252_decode(data),
    }
}

} // verus!
