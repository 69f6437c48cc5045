//! Core primitives for a code-intelligence engine: binary/text
//! classification of byte buffers, byte histograms for entropy
//! estimation, whole-buffer content digests, text decoding, file
//! metadata records, structural queries over parsed syntax trees,
//! and parsing of the resident-process connection file.

pub mod classify;
pub mod digest;
pub mod entropy;
pub mod pulse;
pub mod records;
pub mod syntax;
pub mod textenc;
