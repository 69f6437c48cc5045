//! Heuristic binary/text detection over a byte prefix.
//!
//! A buffer counts as binary when any of its first 8192 bytes is a
//! zero byte; an empty buffer counts as text.  The window and the
//! zero-byte criterion are deliberately approximate and are part of
//! the caller-visible behaviour, so they are stated exactly.

use vstd::prelude::*;

verus! {

/// Number of leading bytes the classifier examines.
pub const SNIFF_WINDOW: usize = 8192;

/// A buffer classifies as binary when some byte among the first
/// `SNIFF_WINDOW` bytes is zero.
pub open spec fn spec_is_binary(buffer: Seq<u8>) -> bool {
    exists|i: int| 0 <= i < buffer.len() && i < SNIFF_WINDOW && buffer[i] == 0u8
}

/// Classify a buffer as binary (`true`) or text (`false`) by
/// scanning at most the first `SNIFF_WINDOW` bytes for a zero byte.
pub fn is_binary_buffer(buffer: &[u8]) -> (binary: bool)
    ensures
        binary == spec_is_binary(buffer@),
{
    let limit: usize = if buffer.len() < SNIFF_WINDOW {
        buffer.len()
    } else {
        SNIFF_WINDOW
    };
    let mut i: usize = 0;
    while i < limit
        invariant
            limit <= buffer.len(),
            limit <= SNIFF_WINDOW,
            buffer.len() < SNIFF_WINDOW ==> limit == buffer.len(),
            SNIFF_WINDOW <= buffer.len() ==> limit == SNIFF_WINDOW,
            i <= limit,
            forall|j: int| 0 <= j < i ==> buffer@[j] != 0u8,
        decreases limit - i,
    {
        if buffer[i] == 0 {
            return true;
        }
        i = i + 1;
    }
    false
}

} // verus!
