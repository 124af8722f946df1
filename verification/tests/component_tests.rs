//! Unit tests of the entry filter and the pattern matcher.

use tarscan::entry::EntryKind;
use tarscan::filter::entry_is_eligible;
use tarscan::filter::str_ends_with;
use tarscan::matcher::Pattern;

#[test]
fn suffix_comparison_is_exact() {
    assert!(str_ends_with("index.html", ".html"));
    assert!(str_ends_with(".html", ".html"));
    assert!(!str_ends_with("html", ".html"));
    assert!(!str_ends_with("index.html", ".json"));
    assert!(str_ends_with("wörld.json", ".json"));
    assert!(str_ends_with("anything", ""));
}

#[test]
fn filter_allows_only_text_like_extensions_on_regular_files() {
    assert!(entry_is_eligible(&EntryKind::RegularFile, "a.html"));
    assert!(entry_is_eligible(&EntryKind::RegularFile, "deep/dir/a.xml"));
    assert!(entry_is_eligible(&EntryKind::RegularFile, "b.json"));
    assert!(!entry_is_eligible(&EntryKind::RegularFile, "a.htm"));
    assert!(!entry_is_eligible(&EntryKind::RegularFile, "a.HTML"));
    assert!(!entry_is_eligible(&EntryKind::RegularFile, "logo.png"));
    assert!(!entry_is_eligible(&EntryKind::RegularFile, "html"));
}

#[test]
fn filter_checks_type_before_extension() {
    assert!(!entry_is_eligible(&EntryKind::Directory, "a.html"));
    assert!(!entry_is_eligible(&EntryKind::Directory, "nested/deep/a.json"));
    assert!(!entry_is_eligible(&EntryKind::Other, "a.html"));
}

#[test]
fn pattern_match_is_a_containment_test() {
    let p = Pattern::compile("wor.d").unwrap();
    assert!(p.is_match("hello world"));
    assert!(!p.is_match("word"));
    let anchored = Pattern::compile("^abc$").unwrap();
    assert!(anchored.is_match("abc"));
    assert!(!anchored.is_match("xabc"));
}

#[test]
fn unbalanced_bracket_pattern_does_not_compile() {
    assert!(Pattern::compile("[").is_err());
    assert!(Pattern::compile("[a-").is_err());
    assert!(Pattern::compile("[a-z]").is_ok());
}
