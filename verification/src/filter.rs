//! The entry filter: a pure predicate on an entry's type tag and path that
//! decides eligibility for searching. Type is checked before extension, so a
//! directory-like entry is never eligible whatever its name; regular files
//! are eligible only when the path ends in one of the allowed text-like
//! extensions, case-sensitively.

use vstd::prelude::*;

use crate::entry::EntryKind;

verus! {

/// True when `suffix` is the final run of characters of `s`.
pub open spec fn has_suffix(s: Seq<char>, suffix: Seq<char>) -> bool {
    suffix.len() <= s.len() && s.subrange(s.len() - suffix.len(), s.len() as int) == suffix
}

/// The allow-set of text-like extensions: a path is eligible exactly when it
/// ends in one of these final `.ext` segments.
pub open spec fn eligible_path(path: Seq<char>) -> bool {
    ||| has_suffix(path, ".html"@)
    ||| has_suffix(path, ".xml"@)
    ||| has_suffix(path, ".json"@)
}

/// An entry is searched only when it is a regular file whose path carries an
/// eligible extension; directories and all other entry kinds never are.
pub open spec fn eligible_entry(kind: EntryKind, path: Seq<char>) -> bool {
    kind is RegularFile && eligible_path(path)
}

/// Whether `s` ends with `suffix`, compared character by character.
pub fn str_ends_with(s: &str, suffix: &str) -> (r: bool)
    ensures
        r == has_suffix(s@, suffix@),
{
    let n: usize = s.unicode_len();
    let m: usize = suffix.unicode_len();
    if m > n {
        return false;
    }
    let mut i: usize = 0;
    while i < m
        invariant
            m <= n,
            n == s@.len(),
            m == suffix@.len(),
            i <= m,
            forall|j: int| 0 <= j < i ==> s@[s@.len() - m + j] == suffix@[j],
        decreases m - i,
    {
        if s.get_char(n - m + i) != suffix.get_char(i) {
            proof {
                assert(has_suffix(s@, suffix@) ==> s@.subrange(
                    s@.len() - m,
                    s@.len() as int,
                )[i as int] == suffix@[i as int]);
            }
            return false;
        }
        i += 1;
    }
    proof {
        assert(s@.subrange(s@.len() - m, s@.len() as int) =~= suffix@);
    }
    true
}

/// The eligibility decision for one entry, by type tag and path.
pub fn entry_is_eligible(kind: &EntryKind, path: &str) -> (r: bool)
    ensures
        r == eligible_entry(*kind, path@),
{
    if !kind.is_regular_file() {
        return false;
    }
    str_ends_with(path, ".html") || str_ends_with(path, ".xml") || str_ends_with(path, ".json")
}

} // verus!
