//! File metadata records produced by a directory scan.
//!
//! The traversal itself is I/O and runs outside the library; for each
//! discovered regular file it hands over the path, the size, the
//! modification time, and (for non-empty files whose leading bytes
//! could be read) a sniff buffer of up to 1024 leading bytes.  This
//! module builds the record: it normalizes the path separators and
//! classifies the sniff buffer.

use vstd::prelude::*;
use crate::classify;

verus! {

/// Metadata for one regular file discovered by a directory scan.
///
/// `path` uses forward slashes regardless of the host convention.
/// `mtime_nanos` is the modification time in nanoseconds since the
/// epoch; an unavailable or pre-epoch clock maps to 0.
pub struct FileRecord {
    pub path: String,
    pub size: u64,
    pub is_binary: bool,
    pub mtime_nanos: u64,
}

impl FileRecord {
    /// Assemble a record from its fields.
    pub fn new(path: String, size: u64, is_binary: bool, mtime_nanos: u64) -> (record: FileRecord)
        ensures
            record.path == path,
            record.size == size,
            record.is_binary == is_binary,
            record.mtime_nanos == mtime_nanos,
    {
        FileRecord { path, size, is_binary, mtime_nanos }
    }
}

/// Path normalization maps every backslash to a forward slash and
/// leaves every other character unchanged.
pub open spec fn normalize_char(c: char) -> char {
    if c == '\\' {
        '/'
    } else {
        c
    }
}

pub open spec fn spec_normalized(path: Seq<char>) -> Seq<char> {
    path.map_values(|c: char| normalize_char(c))
}

/// Relies on str::replace with a one-character pattern and a
/// one-character replacement: every occurrence of the pattern
/// character is replaced, character for character.
#[verifier::external_body]
fn replace_backslashes(path: &str) -> (normalized: String)
    ensures
        normalized@ == spec_normalized(path@),
{
    path.replace('\\', "/")
}

/// Build the record for one discovered regular file.
///
/// `sniff` carries the leading bytes of the file when they were read;
/// `None` means the file was empty or its bytes could not be read, and
/// such a file classifies as text.
pub fn record_for_entry(path: &str, size: u64, mtime_nanos: u64, sniff: Option<Vec<u8>>) -> (record:
    FileRecord)
    ensures
        record.path@ == spec_normalized(path@),
        record.size == size,
        record.mtime_nanos == mtime_nanos,
        record.is_binary == match sniff {
            Some(prefix) => classify::spec_is_binary(prefix@),
            None => false,
        },
{
    let is_binary = match sniff {
        Some(prefix) => classify::is_binary_buffer(prefix.as_slice()),
        None => false,
    };
    FileRecord { path: replace_backslashes(path), size, is_binary, mtime_nanos }
}

} // verus!
