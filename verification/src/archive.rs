//! The archive reader: wraps a gzip decompression stream in a tar entry
//! iterator and yields entries one at a time, forward-only and not
//! restartable. A malformed gzip or tar framing ends the entry stream at the
//! point it is reached: the entries already yielded stay valid, and the
//! failure itself is reported once, with its reason.

use vstd::prelude::*;

use std::io::Read;

use crate::entry::ArchiveEntry;
use crate::entry::EntryKind;
use crate::entry::EntryModel;

verus! {

/// A forward-only stream of tar entries read from an in-memory gzip byte
/// buffer. The field holds the tar entry iterator; the archive object it
/// borrows is kept alive for the rest of the process (one allocation per
/// opened archive), since the stream is single-pass and never rewound.
#[verifier::external_body]
pub struct ArchiveStream {
    entries: Option<tar::Entries<'static, flate2::read::GzDecoder<std::io::Cursor<Vec<u8>>>>>,
}

/// What a stream has left to give: the entries it will still yield, in
/// tar-stream order, and — where the gzip or tar framing is malformed at the
/// point reached after them — the failure message that ends it.
pub struct StreamModel {
    pub entries: Seq<EntryModel>,
    pub failure: Option<Seq<char>>,
}

/// The model of a stream's state: a function of its backing bytes and its
/// position alone.
pub uninterp spec fn stream_model(s: ArchiveStream) -> StreamModel;

/// The model of a whole gzip-compressed tar byte sequence: the entries it
/// yields and the framing failure, if any, that ends it — a function of the
/// bytes alone.
pub uninterp spec fn archive_model(bytes: Seq<u8>) -> StreamModel;

/// One step of the entry stream: the next entry, the orderly end of the
/// stream, or a framing failure with its reason.
pub enum StreamStep {
    Entry(ArchiveEntry),
    End,
    Failed(String),
}

/// Relies on tar::Archive::entries over flate2::read::GzDecoder: a freshly
/// constructed archive is at position zero, so `entries` succeeds, and the
/// iterator yields the entries encoded in the bytes in stream order.
#[verifier::external_body]
pub(crate) fn open_archive(bytes: Vec<u8>) -> (s: ArchiveStream)
    ensures
        stream_model(s) == archive_model(bytes@),
{
    let archive = Box::leak(Box::new(tar::Archive::new(flate2::read::GzDecoder::new(
        std::io::Cursor::new(bytes),
    ))));
    ArchiveStream { entries: archive.entries().ok() }
}

/// Relies on tar::Entries::next (which yields nothing more once it has
/// returned an error), tar::Entry::path_bytes, tar::Header::entry_type and
/// the std::io::Read impl of tar::Entry: yields the next entry with its
/// path, type tag and fully read bytes; an iteration or read error ends the
/// stream where the framing failed, reported once as the error's message
/// text, and the stream yields nothing after it.
#[verifier::external_body]
pub(crate) fn next_entry(s: &mut ArchiveStream) -> (r: StreamStep)
    ensures
        match r {
            StreamStep::Entry(e) => stream_model(*old(s)).entries.len() > 0 && e@ == stream_model(
                *old(s),
            ).entries[0] && stream_model(*final(s)) == (StreamModel {
                entries: stream_model(*old(s)).entries.skip(1),
                failure: stream_model(*old(s)).failure,
            }),
            StreamStep::End => stream_model(*old(s)).entries.len() == 0 && stream_model(
                *old(s),
            ).failure is None && stream_model(*final(s)) == stream_model(*old(s)),
            StreamStep::Failed(reason) => stream_model(*old(s)).entries.len() == 0 && stream_model(
                *old(s),
            ).failure == Some(reason@) && stream_model(*final(s)) == (StreamModel {
                entries: Seq::empty(),
                failure: None,
            }),
        },
{
    let mut entry = match s.entries.as_mut().and_then(Iterator::next) {
        None => return StreamStep::End,
        Some(Err(e)) => return StreamStep::Failed(e.to_string()),  // the iterator is done after an error
        Some(Ok(e)) => e };
    let path = String::from_utf8_lossy(&entry.path_bytes()).into_owned();
    let kind = match entry.header().entry_type() {
        tar::EntryType::Regular => EntryKind::RegularFile,
        tar::EntryType::Directory => EntryKind::Directory,
        _ => EntryKind::Other,
    };
    let mut data: Vec<u8> = Vec::new();
    match entry.read_to_end(&mut data) {
        Ok(_) => StreamStep::Entry(ArchiveEntry { path, kind, data }),
        Err(e) => { s.entries = None; StreamStep::Failed(e.to_string()) },
    }
}

} // verus!
