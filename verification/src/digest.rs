//! Whole-buffer content digest: SHA-256 rendered as lowercase hex.
//!
//! The caller memory-maps (or otherwise reads) the file and hands the
//! bytes over; a zero-length file is digested as the empty input.  The
//! output must match any conforming SHA-256 implementation byte for
//! byte, so the digest is pinned to a single name and the hex
//! rendering is stated exactly.

use vstd::prelude::*;
use sha2::Digest;

verus! {

/// The SHA-256 digest of a byte sequence.  The algorithm takes pages
/// to state but its result is a function of the input alone, so it is
/// given a name here rather than written out.
pub uninterp spec fn sha256_of(data: Seq<u8>) -> Seq<u8>;

/// The lowercase hexadecimal digit for a nibble value.
pub open spec fn hex_digit(nibble: u8) -> char
    recommends
        nibble < 16,
{
    seq!['0', '1', '2', '3', '4', '5', '6', '7', '8', '9', 'a', 'b', 'c', 'd', 'e', 'f'][nibble as int]
}

/// Lowercase hex encoding: two digits per byte, high nibble first.
pub open spec fn hex_of(data: Seq<u8>) -> Seq<char> {
    Seq::new(
        data.len() * 2,
        |i: int|
            if i % 2 == 0 {
                hex_digit(data[i / 2] >> 4)
            } else {
                hex_digit(data[i / 2] & 0x0f)
            },
    )
}

/// Relies on sha2's Sha256: the standard 256-bit digest, 32 bytes, a
/// function of the input alone.
#[verifier::external_body]
fn sha256_bytes(data: &[u8]) -> (digest: Vec<u8>)
    ensures
        digest@ == sha256_of(data@),
        digest@.len() == 32,
{
    sha2::Sha256::digest(data).to_vec()
}

/// Relies on hex::encode: lowercase hex, exactly two digits for each
/// byte, high nibble first.
#[verifier::external_body]
fn hex_encode(data: &[u8]) -> (text: String)
    ensures
        text@ == hex_of(data@),
{
    hex::encode(data)
}

/// Digest a byte buffer: the lowercase hex rendering of its SHA-256
/// digest, always 64 digits.
pub fn digest_bytes(data: &[u8]) -> (digest: String)
    ensures
        digest@ == hex_of(sha256_of(data@)),
        digest@.len() == 64,
{
    let raw = sha256_bytes(data);
    hex_encode(raw.as_slice())
}

} // verus!
