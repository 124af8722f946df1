//! Laws of the scan, stated over the same spec functions the executable
//! contracts use and proved once and for all.

use vstd::prelude::*;

use vstd::utf8::decode_utf8;
use vstd::utf8::valid_utf8;

use crate::archive::archive_model;
use crate::archive::StreamModel;
use crate::entry::EntryModel;
use crate::entry::OutcomeModel;
use crate::entry::SkipReason;
use crate::filter::eligible_entry;
use crate::matcher::regex_match;
use crate::scan::archive_outcomes;
use crate::scan::entries_outcomes;
use crate::scan::entry_outcome;
use crate::scan::run_outcomes;
use crate::scan::SourceModel;

verus! {

proof fn lemma_no_eligible_entries_helper(entries: Seq<EntryModel>, pattern: Seq<char>)
    requires
        forall|i: int|
            0 <= i < entries.len() ==> !eligible_entry(
                (#[trigger] entries[i]).kind,
                entries[i].path,
            ),
    ensures
        entries_outcomes(entries, pattern) == Seq::<OutcomeModel>::empty(),
    decreases entries.len(),
{
    if entries.len() > 0 {
        assert(entry_outcome(entries[0], pattern) is None);
        assert(forall|i: int|
            0 <= i < entries.skip(1).len() ==> !eligible_entry(
                (#[trigger] entries.skip(1)[i]).kind,
                entries.skip(1)[i].path,
            ));
        lemma_no_eligible_entries_helper(entries.skip(1), pattern);
    }
}

/// Law: a well-formed archive none of whose entries is eligible produces an
/// empty outcome sequence.
pub proof fn lemma_no_eligible_entries_no_outcomes(
    m: StreamModel,
    archive: Seq<char>,
    pattern: Seq<char>,
)
    requires
        m.failure is None,
        forall|i: int|
            0 <= i < m.entries.len() ==> !eligible_entry(
                (#[trigger] m.entries[i]).kind,
                m.entries[i].path,
            ),
    ensures
        archive_outcomes(m, archive, pattern) == Seq::<OutcomeModel>::empty(),
{
    lemma_no_eligible_entries_helper(m.entries, pattern);
    assert(archive_outcomes(m, archive, pattern) =~= Seq::<OutcomeModel>::empty());
}

/// Law: for an eligible entry whose bytes decode to text, the outcome is
/// `Matched` exactly when the pattern has at least one match in the decoded
/// text, and `NoMatch` otherwise — a pure function of the pattern and the
/// decoded text.
pub proof fn lemma_match_outcome_is_pure(e: EntryModel, pattern: Seq<char>)
    requires
        eligible_entry(e.kind, e.path),
        valid_utf8(e.data),
    ensures
        regex_match(pattern, decode_utf8(e.data)) ==> entry_outcome(e, pattern) == Some(
            OutcomeModel::Matched { path: e.path },
        ),
        !regex_match(pattern, decode_utf8(e.data)) ==> entry_outcome(e, pattern) == Some(
            OutcomeModel::NoMatch { path: e.path },
        ),
{
}

/// Law: the outcomes of a concatenation of entry sequences are the
/// concatenation of their outcomes — each entry's outcome is independent of
/// the entries around it, and order is preserved.
pub proof fn lemma_entries_outcomes_concat(
    front: Seq<EntryModel>,
    back: Seq<EntryModel>,
    pattern: Seq<char>,
)
    ensures
        entries_outcomes(front + back, pattern) == entries_outcomes(front, pattern)
            + entries_outcomes(back, pattern),
    decreases front.len(),
{
    if front.len() == 0 {
        assert(front + back =~= back);
        assert(entries_outcomes(front, pattern) + entries_outcomes(back, pattern)
            =~= entries_outcomes(back, pattern));
    } else {
        assert((front + back)[0] == front[0]);
        assert((front + back).skip(1) =~= front.skip(1) + back);
        lemma_entries_outcomes_concat(front.skip(1), back, pattern);
        match entry_outcome(front[0], pattern) {
            Some(o) => {
                assert(seq![o] + (entries_outcomes(front.skip(1), pattern) + entries_outcomes(
                    back,
                    pattern,
                )) =~= (seq![o] + entries_outcomes(front.skip(1), pattern)) + entries_outcomes(
                    back,
                    pattern,
                ));
            },
            None => {},
        }
    }
}

/// Law: re-running the scan on unmodified archive bytes with the same
/// pattern yields an identical outcome sequence.
pub proof fn lemma_scan_idempotent(
    bytes: Seq<u8>,
    archive: Seq<char>,
    pattern: Seq<char>,
    first: Seq<OutcomeModel>,
    second: Seq<OutcomeModel>,
)
    requires
        first == archive_outcomes(archive_model(bytes), archive, pattern),
        second == archive_outcomes(archive_model(bytes), archive, pattern),
    ensures
        first == second,
{
}

/// Law: a directory entry never produces an outcome, whatever its name or
/// nesting depth.
pub proof fn lemma_directory_no_outcome(e: EntryModel, pattern: Seq<char>)
    requires
        e.kind is Directory,
    ensures
        entry_outcome(e, pattern) is None,
{
}

/// Law: an eligible entry whose bytes are not valid text is always skipped,
/// never matched and never reported as a non-match.
pub proof fn lemma_invalid_text_skipped(e: EntryModel, pattern: Seq<char>)
    requires
        eligible_entry(e.kind, e.path),
        !valid_utf8(e.data),
    ensures
        entry_outcome(e, pattern) == Some(
            OutcomeModel::Skipped { path: e.path, reason: SkipReason::InvalidEncoding },
        ),
{
}

/// Law: an unreadable archive at the head of a run contributes exactly one
/// failure outcome, and the run goes on with the remaining sources.
pub proof fn lemma_failed_archive_does_not_end_run(
    path: Seq<char>,
    reason: Seq<char>,
    rest: Seq<SourceModel>,
    pattern: Seq<char>,
)
    ensures
        run_outcomes(seq![SourceModel::Unreadable { path, reason }] + rest, pattern) == seq![
            OutcomeModel::ArchiveFailed { archive: path, reason },
        ] + run_outcomes(rest, pattern),
{
    let sources = seq![SourceModel::Unreadable { path, reason }] + rest;
    assert(sources[0] == SourceModel::Unreadable { path, reason });
    assert(sources.skip(1) =~= rest);
}

} // verus!
