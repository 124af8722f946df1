//! The data model of the scan: archive entries as the stream yields them,
//! and the per-entry / per-archive outcomes the scan emits.

use vstd::prelude::*;

verus! {

/// The type tag of one archive entry.
#[derive(Clone, Copy, PartialEq, Eq, Structural, Debug)]
pub enum EntryKind {
    RegularFile,
    Directory,
    Other,
}

impl EntryKind {
    /// Only regular files ever carry searchable content.
    pub fn is_regular_file(&self) -> (r: bool)
        ensures
            r == (*self is RegularFile),
    {
        match self {
            EntryKind::RegularFile => true,
            _ => false,
        }
    }
}

/// One logical member of the tar stream: its relative path, its type tag,
/// and its bytes, fully read at the stream position where it was yielded.
pub struct ArchiveEntry {
    pub path: String,
    pub kind: EntryKind,
    pub data: Vec<u8>,
}

/// The mathematical content of an archive entry.
pub struct EntryModel {
    pub path: Seq<char>,
    pub kind: EntryKind,
    pub data: Seq<u8>,
}

impl View for ArchiveEntry {
    type V = EntryModel;

    open spec fn view(&self) -> EntryModel {
        EntryModel { path: self.path@, kind: self.kind, data: self.data@ }
    }
}

/// Why an eligible entry was skipped rather than searched.
#[derive(Clone, Copy, PartialEq, Eq, Structural, Debug)]
pub enum SkipReason {
    InvalidEncoding,
}

/// The per-entry or per-archive result of a scan.
pub enum ScanOutcome {
    Matched { path: String },
    NoMatch { path: String },
    Skipped { path: String, reason: SkipReason },
    ArchiveFailed { archive: String, reason: String },
}

/// The mathematical content of a scan outcome.
pub enum OutcomeModel {
    Matched { path: Seq<char> },
    NoMatch { path: Seq<char> },
    Skipped { path: Seq<char>, reason: SkipReason },
    ArchiveFailed { archive: Seq<char>, reason: Seq<char> },
}

impl View for ScanOutcome {
    type V = OutcomeModel;

    open spec fn view(&self) -> OutcomeModel {
        match self {
            ScanOutcome::Matched { path } => OutcomeModel::Matched { path: path@ },
            ScanOutcome::NoMatch { path } => OutcomeModel::NoMatch { path: path@ },
            ScanOutcome::Skipped { path, reason } => OutcomeModel::Skipped {
                path: path@,
                reason: *reason,
            },
            ScanOutcome::ArchiveFailed { archive, reason } => OutcomeModel::ArchiveFailed {
                archive: archive@,
                reason: reason@,
            },
        }
    }
}

/// The models of a sequence of outcomes.
pub open spec fn outcome_models(s: Seq<ScanOutcome>) -> Seq<OutcomeModel> {
    s.map_values(|o: ScanOutcome| o@)
}

} // verus!
