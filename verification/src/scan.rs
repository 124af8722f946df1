//! The scan coordinator: drives one archive end-to-end — open, iterate,
//! filter, decode, match, emit — and a whole run over many archives,
//! isolating failures to the offending entry or archive.

use vstd::prelude::*;

use vstd::utf8::decode_utf8;
use vstd::utf8::valid_utf8;

use crate::archive::archive_model;
use crate::archive::next_entry;
use crate::archive::open_archive;
use crate::archive::stream_model;
use crate::archive::StreamModel;
use crate::archive::StreamStep;
use crate::decode::bytes_to_text;
use crate::entry::outcome_models;
use crate::entry::ArchiveEntry;
use crate::entry::EntryModel;
use crate::entry::OutcomeModel;
use crate::entry::ScanOutcome;
use crate::entry::SkipReason;
use crate::filter::eligible_entry;
use crate::filter::entry_is_eligible;
use crate::matcher::pattern_compiles;
use crate::matcher::regex_match;
use crate::matcher::Pattern;

verus! {

/// The outcome one entry produces, as a function of the entry and the
/// pattern alone: an ineligible entry produces none; an eligible entry is
/// skipped when its bytes are not valid text, and is otherwise matched
/// against the pattern.
pub open spec fn entry_outcome(e: EntryModel, pattern: Seq<char>) -> Option<OutcomeModel> {
    if !eligible_entry(e.kind, e.path) {
        None
    } else if !valid_utf8(e.data) {
        Some(OutcomeModel::Skipped { path: e.path, reason: SkipReason::InvalidEncoding })
    } else if regex_match(pattern, decode_utf8(e.data)) {
        Some(OutcomeModel::Matched { path: e.path })
    } else {
        Some(OutcomeModel::NoMatch { path: e.path })
    }
}

/// The outcome sequence a sequence of entries produces, in tar-stream order.
pub open spec fn entries_outcomes(entries: Seq<EntryModel>, pattern: Seq<char>) -> Seq<
    OutcomeModel,
>
    decreases entries.len(),
{
    if entries.len() == 0 {
        Seq::empty()
    } else {
        match entry_outcome(entries[0], pattern) {
            Some(o) => seq![o] + entries_outcomes(entries.skip(1), pattern),
            None => entries_outcomes(entries.skip(1), pattern),
        }
    }
}

/// The outcome a stream-ending framing failure contributes, if there is one.
pub open spec fn failure_outcomes(failure: Option<Seq<char>>, archive: Seq<char>) -> Seq<
    OutcomeModel,
> {
    match failure {
        Some(reason) => seq![OutcomeModel::ArchiveFailed { archive, reason }],
        None => Seq::empty(),
    }
}

/// The outcome sequence one archive produces: one outcome per eligible entry
/// in tar-stream order, then one failure outcome where a malformed framing
/// ended the stream.
pub open spec fn archive_outcomes(
    m: StreamModel,
    archive: Seq<char>,
    pattern: Seq<char>,
) -> Seq<OutcomeModel> {
    entries_outcomes(m.entries, pattern) + failure_outcomes(m.failure, archive)
}

/// Classifies one entry: filter by type tag and extension, decode the bytes,
/// test the text against the pattern.
pub fn scan_entry(e: ArchiveEntry, pattern: &Pattern) -> (r: Option<ScanOutcome>)
    ensures
        match r {
            Some(o) => entry_outcome(e@, pattern.pattern()) == Some(o@),
            None => entry_outcome(e@, pattern.pattern()) is None,
        },
{
    if !entry_is_eligible(&e.kind, e.path.as_str()) {
        return None;
    }
    let path = e.path;
    match bytes_to_text(e.data) {
        None => Some(ScanOutcome::Skipped { path, reason: SkipReason::InvalidEncoding }),
        Some(text) => {
            if pattern.is_match(text.as_str()) {
                Some(ScanOutcome::Matched { path })
            } else {
                Some(ScanOutcome::NoMatch { path })
            }
        },
    }
}

/// Scans one archive, given its name and its full gzip-compressed byte
/// content: opens the entry stream, walks it in tar-stream order, and emits
/// one outcome per eligible entry; a malformed framing ends the stream,
/// leaves the outcomes already emitted standing, and is reported once as an
/// archive failure. The result is a function of the name, the bytes and the
/// pattern alone.
pub fn scan_archive(archive: String, bytes: Vec<u8>, pattern: &Pattern) -> (r: Vec<ScanOutcome>)
    ensures
        outcome_models(r@) == archive_outcomes(archive_model(bytes@), archive@, pattern.pattern()),
{
    let ghost whole = archive_model(bytes@);
    let mut stream = open_archive(bytes);
    let mut out: Vec<ScanOutcome> = Vec::new();
    loop
        invariant
            outcome_models(out@) + archive_outcomes(
                stream_model(stream),
                archive@,
                pattern.pattern(),
            ) == archive_outcomes(whole, archive@, pattern.pattern()),
        ensures
            stream_model(stream).entries.len() == 0,
            stream_model(stream).failure is None,
            outcome_models(out@) + archive_outcomes(
                stream_model(stream),
                archive@,
                pattern.pattern(),
            ) == archive_outcomes(whole, archive@, pattern.pattern()),
        decreases stream_model(stream).entries.len() + (if stream_model(stream).failure is Some {
            1int
        } else {
            0int
        }),
    {
        let ghost m = stream_model(stream);
        let ghost prior = out@;
        match next_entry(&mut stream) {
            StreamStep::End => {
                break;
            },
            StreamStep::Failed(reason) => {
                proof {
                    assert(archive_outcomes(m, archive@, pattern.pattern())
                        =~= seq![OutcomeModel::ArchiveFailed { archive: archive@, reason: reason@ }]);
                }
                out.push(ScanOutcome::ArchiveFailed { archive: archive.clone(), reason });
                proof {
                    assert(outcome_models(out@) =~= outcome_models(prior) + archive_outcomes(
                        m,
                        archive@,
                        pattern.pattern(),
                    ));
                    assert(archive_outcomes(stream_model(stream), archive@, pattern.pattern())
                        =~= Seq::<OutcomeModel>::empty());
                    assert(outcome_models(out@) + archive_outcomes(
                        stream_model(stream),
                        archive@,
                        pattern.pattern(),
                    ) =~= outcome_models(prior) + archive_outcomes(m, archive@, pattern.pattern()));
                }
                break;
            },
            StreamStep::Entry(e) => {
                proof {
                    assert(entries_outcomes(m.entries, pattern.pattern()) == match entry_outcome(
                        e@,
                        pattern.pattern(),
                    ) {
                        Some(o) => seq![o] + entries_outcomes(
                            stream_model(stream).entries,
                            pattern.pattern(),
                        ),
                        None => entries_outcomes(stream_model(stream).entries, pattern.pattern()),
                    });
                }
                if let Some(o) = scan_entry(e, pattern) {
                    out.push(o);
                    proof {
                        assert(outcome_models(out@) =~= outcome_models(prior) + seq![o@]);
                        assert(outcome_models(out@) + archive_outcomes(
                            stream_model(stream),
                            archive@,
                            pattern.pattern(),
                        ) =~= outcome_models(prior) + archive_outcomes(
                            m,
                            archive@,
                            pattern.pattern(),
                        ));
                    }
                }
            },
        }
    }
    proof {
        assert(archive_outcomes(stream_model(stream), archive@, pattern.pattern()) =~= Seq::<
            OutcomeModel,
        >::empty());
        assert(outcome_models(out@) =~= outcome_models(out@) + Seq::<OutcomeModel>::empty());
    }
    out
}

/// One archive of a run, as the caller hands it over: either its full byte
/// content, or the path with the reason it could not be read.
pub enum ArchiveSource {
    Loaded { path: String, bytes: Vec<u8> },
    Unreadable { path: String, reason: String },
}

/// The mathematical content of an archive source.
pub enum SourceModel {
    Loaded { path: Seq<char>, bytes: Seq<u8> },
    Unreadable { path: Seq<char>, reason: Seq<char> },
}

impl View for ArchiveSource {
    type V = SourceModel;

    open spec fn view(&self) -> SourceModel {
        match self {
            ArchiveSource::Loaded { path, bytes } => SourceModel::Loaded {
                path: path@,
                bytes: bytes@,
            },
            ArchiveSource::Unreadable { path, reason } => SourceModel::Unreadable {
                path: path@,
                reason: reason@,
            },
        }
    }
}

/// The models of a sequence of archive sources.
pub open spec fn source_models(s: Seq<ArchiveSource>) -> Seq<SourceModel> {
    s.map_values(|x: ArchiveSource| x@)
}

/// The outcomes one archive source contributes: an unreadable archive
/// contributes a single failure outcome and nothing else; a loaded one
/// contributes the outcomes of its entries.
pub open spec fn source_outcomes(s: SourceModel, pattern: Seq<char>) -> Seq<OutcomeModel> {
    match s {
        SourceModel::Loaded { path, bytes } => archive_outcomes(archive_model(bytes), path, pattern),
        SourceModel::Unreadable { path, reason } => seq![
            OutcomeModel::ArchiveFailed { archive: path, reason },
        ],
    }
}

/// The outcome sequence of a whole run, archive after archive in the order
/// supplied by the caller.
pub open spec fn run_outcomes(sources: Seq<SourceModel>, pattern: Seq<char>) -> Seq<OutcomeModel>
    decreases sources.len(),
{
    if sources.len() == 0 {
        Seq::empty()
    } else {
        source_outcomes(sources[0], pattern) + run_outcomes(sources.skip(1), pattern)
    }
}

/// Runs a whole invocation: compiles the pattern once, then scans each
/// archive in order. An uncompilable pattern fails the run before any
/// archive is opened; an archive that could not be read contributes one
/// failure outcome and does not end the run.
pub fn run_scan(pattern_str: &str, sources: Vec<ArchiveSource>) -> (r: Result<
    Vec<ScanOutcome>,
    String,
>)
    ensures
        r is Ok <==> pattern_compiles(pattern_str@),
        r matches Ok(outs) ==> outcome_models(outs@) == run_outcomes(
            source_models(sources@),
            pattern_str@,
        ),
{
    let pattern = match Pattern::compile(pattern_str) {
        Ok(p) => p,
        Err(e) => {
            return Err(e);
        },
    };
    let ghost all = source_models(sources@);
    let mut srcs = sources;
    let mut out: Vec<ScanOutcome> = Vec::new();
    loop
        invariant
            pattern.pattern() == pattern_str@,
            outcome_models(out@) + run_outcomes(source_models(srcs@), pattern_str@)
                == run_outcomes(all, pattern_str@),
        ensures
            srcs@.len() == 0,
            outcome_models(out@) + run_outcomes(source_models(srcs@), pattern_str@)
                == run_outcomes(all, pattern_str@),
        decreases srcs@.len(),
    {
        if srcs.len() == 0 {
            break;
        }
        let ghost remaining = source_models(srcs@);
        let ghost prior = out@;
        let src = srcs.remove(0);
        proof {
            assert(src@ == remaining[0]);
            assert(source_models(srcs@) =~= remaining.skip(1));
            assert(run_outcomes(remaining, pattern_str@) == source_outcomes(
                remaining[0],
                pattern_str@,
            ) + run_outcomes(remaining.skip(1), pattern_str@));
        }
        match src {
            ArchiveSource::Loaded { path, bytes } => {
                let mut outcomes = scan_archive(path, bytes, &pattern);
                let ghost produced = outcomes@;
                out.append(&mut outcomes);
                proof {
                    assert(outcome_models(out@) =~= outcome_models(prior) + outcome_models(
                        produced,
                    ));
                }
            },
            ArchiveSource::Unreadable { path, reason } => {
                let ghost failure = OutcomeModel::ArchiveFailed {
                    archive: path@,
                    reason: reason@,
                };
                out.push(ScanOutcome::ArchiveFailed { archive: path, reason });
                proof {
                    assert(outcome_models(out@) =~= outcome_models(prior) + seq![failure]);
                }
            },
        }
        proof {
            assert(outcome_models(out@) + run_outcomes(source_models(srcs@), pattern_str@)
                =~= outcome_models(prior) + run_outcomes(remaining, pattern_str@));
        }
    }
    proof {
        assert(run_outcomes(source_models(srcs@), pattern_str@) == Seq::<OutcomeModel>::empty());
        assert(outcome_models(out@) =~= outcome_models(out@) + Seq::<OutcomeModel>::empty());
    }
    Ok(out)
}

} // verus!
