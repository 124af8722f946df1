//! Scans gzip-compressed tar archives for files whose textual content
//! matches a regular expression, without materializing the archive on disk:
//! decompress, walk the entry stream forward-only, filter entries by type
//! and extension, decode each entry's bytes to text, and test the text
//! against a pattern compiled once per invocation — tolerating per-entry
//! and per-archive failures without aborting the whole scan.

pub mod archive;
mod decode;
pub mod entry;
pub mod filter;
pub mod laws;
pub mod matcher;
pub mod scan;
