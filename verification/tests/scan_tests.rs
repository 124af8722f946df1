//! End-to-end tests of the scan pipeline over real gzip-compressed tar
//! archives built in memory.

use tarscan::entry::ScanOutcome;
use tarscan::entry::SkipReason;
use tarscan::matcher::Pattern;
use tarscan::scan::run_scan;
use tarscan::scan::scan_archive;
use tarscan::scan::ArchiveSource;

fn header_for(size: u64, kind: tar::EntryType) -> tar::Header {
    let mut h = tar::Header::new_gnu();
    h.set_size(size);
    h.set_entry_type(kind);
    h.set_mode(0o644);
    h.set_cksum();
    h
}

/// Builds a gzip-compressed tar archive in memory. `None` data makes a
/// directory entry; `Some` data makes a regular file.
fn build_archive(entries: &[(&str, Option<&[u8]>)]) -> Vec<u8> {
    let encoder = flate2::write::GzEncoder::new(Vec::new(), flate2::Compression::default());
    let mut builder = tar::Builder::new(encoder);
    for (path, data) in entries {
        match data {
            Some(bytes) => {
                let mut h = header_for(bytes.len() as u64, tar::EntryType::Regular);
                builder.append_data(&mut h, path, *bytes).unwrap();
            }
            None => {
                let mut h = header_for(0, tar::EntryType::Directory);
                builder.append_data(&mut h, path, &[][..]).unwrap();
            }
        }
    }
    builder.into_inner().unwrap().finish().unwrap()
}

fn render(o: &ScanOutcome) -> String {
    match o {
        ScanOutcome::Matched { path } => format!("matched {}", path),
        ScanOutcome::NoMatch { path } => format!("nomatch {}", path),
        ScanOutcome::Skipped { path, reason: SkipReason::InvalidEncoding } => {
            format!("skipped {} invalid encoding", path)
        }
        ScanOutcome::ArchiveFailed { archive, reason } => format!("failed {} {}", archive, reason),
    }
}

fn render_all(outcomes: &[ScanOutcome]) -> Vec<String> {
    outcomes.iter().map(render).collect()
}

#[test]
fn scenario_docs_archive_with_pattern_world() {
    let bytes = build_archive(&[
        ("index.html", Some("hello <b>world</b>".as_bytes())),
        ("data.json", Some(b"{\"x\":1}".as_slice())),
        ("assets/", None),
        ("assets/logo.png", Some(&[0x89u8, 0x50, 0x4e, 0x47, 0x00, 0xff][..])),
    ]);
    let pattern = Pattern::compile("world").unwrap();
    let outcomes = scan_archive("docs.tar.gz".to_string(), bytes, &pattern);
    assert_eq!(
        render_all(&outcomes),
        vec!["matched index.html".to_string(), "nomatch data.json".to_string()]
    );
}

#[test]
fn archive_with_zero_eligible_entries_yields_nothing() {
    let bytes = build_archive(&[
        ("assets/", None),
        ("notes.txt", Some(b"world".as_slice())),
        ("pic.png", Some(b"world".as_slice())),
    ]);
    let pattern = Pattern::compile("world").unwrap();
    assert!(scan_archive("docs.tar.gz".to_string(), bytes, &pattern).is_empty());
}

#[test]
fn empty_archive_yields_nothing() {
    let bytes = build_archive(&[]);
    let pattern = Pattern::compile("anything").unwrap();
    assert!(scan_archive("docs.tar.gz".to_string(), bytes, &pattern).is_empty());
}

#[test]
fn directory_with_eligible_extension_yields_nothing() {
    let bytes = build_archive(&[("fake.html", None), ("deep/nested/dir.json", None)]);
    let pattern = Pattern::compile(".").unwrap();
    assert!(scan_archive("docs.tar.gz".to_string(), bytes, &pattern).is_empty());
}

#[test]
fn invalid_text_in_eligible_entry_is_skipped() {
    let bytes = build_archive(&[("bad.json", Some(&[0xffu8, 0xfe, 0x01][..]))]);
    let pattern = Pattern::compile(".").unwrap();
    let outcomes = scan_archive("docs.tar.gz".to_string(), bytes, &pattern);
    assert_eq!(outcomes.len(), 1);
    match &outcomes[0] {
        ScanOutcome::Skipped { path, reason } => {
            assert_eq!(path, "bad.json");
            assert!(matches!(reason, SkipReason::InvalidEncoding));
        }
        other => panic!("expected a skip, got {}", render(other)),
    }
}

#[test]
fn unicode_text_is_decoded_before_matching() {
    let bytes = build_archive(&[("greet.xml", Some("héllo wörld".as_bytes()))]);
    let pattern = Pattern::compile("wörld").unwrap();
    let outcomes = scan_archive("docs.tar.gz".to_string(), bytes, &pattern);
    assert_eq!(render_all(&outcomes), vec!["matched greet.xml".to_string()]);
}

#[test]
fn rescanning_unmodified_archive_yields_identical_outcomes() {
    let bytes = build_archive(&[
        ("index.html", Some("hello world".as_bytes())),
        ("data.json", Some(b"{}".as_slice())),
        ("bad.xml", Some(&[0xf0u8, 0x28][..])),
        ("assets/", None),
    ]);
    let pattern = Pattern::compile("wor").unwrap();
    let first = scan_archive("docs.tar.gz".to_string(), bytes.clone(), &pattern);
    let second = scan_archive("docs.tar.gz".to_string(), bytes, &pattern);
    assert_eq!(render_all(&first), render_all(&second));
}

#[test]
fn outcome_per_entry_is_independent_of_order() {
    let one = build_archive(&[
        ("a.html", Some(b"world".as_slice())),
        ("b.html", Some(b"nothing here".as_slice())),
    ]);
    let other = build_archive(&[
        ("b.html", Some(b"nothing here".as_slice())),
        ("a.html", Some(b"world".as_slice())),
    ]);
    let pattern = Pattern::compile("world").unwrap();
    let mut first = render_all(&scan_archive("one.tar.gz".to_string(), one, &pattern));
    let mut second = render_all(&scan_archive("other.tar.gz".to_string(), other, &pattern));
    first.sort();
    second.sort();
    assert_eq!(first, vec!["matched a.html".to_string(), "nomatch b.html".to_string()]);
    assert_eq!(first, second);
}

#[test]
fn uncompilable_pattern_fails_run_before_any_archive() {
    let bytes = build_archive(&[("index.html", Some(b"hello".as_slice()))]);
    let single = run_scan(
        "[",
        vec![ArchiveSource::Loaded { path: "docs.tar.gz".to_string(), bytes: bytes.clone() }],
    );
    assert!(single.is_err());
    let batch = run_scan(
        "[",
        vec![
            ArchiveSource::Loaded { path: "docs.tar.gz".to_string(), bytes },
            ArchiveSource::Unreadable {
                path: "missing.tar.gz".to_string(),
                reason: "No such file or directory".to_string(),
            },
        ],
    );
    assert!(batch.is_err());
}

#[test]
fn failed_archive_is_followed_by_the_next_archive() {
    let bytes = build_archive(&[("index.html", Some(b"hello world".as_slice()))]);
    let outcomes = run_scan(
        "world",
        vec![
            ArchiveSource::Unreadable {
                path: "missing.tar.gz".to_string(),
                reason: "No such file or directory".to_string(),
            },
            ArchiveSource::Loaded { path: "docs.tar.gz".to_string(), bytes },
        ],
    )
    .unwrap();
    assert_eq!(
        render_all(&outcomes),
        vec![
            "failed missing.tar.gz No such file or directory".to_string(),
            "matched index.html".to_string(),
        ]
    );
}

#[test]
fn garbage_bytes_fail_the_archive_once() {
    let pattern = Pattern::compile("a").unwrap();
    let outcomes = scan_archive(
        "junk.tar.gz".to_string(),
        b"this is not a gzip stream".to_vec(),
        &pattern,
    );
    assert_eq!(outcomes.len(), 1);
    match &outcomes[0] {
        ScanOutcome::ArchiveFailed { archive, reason } => {
            assert_eq!(archive, "junk.tar.gz");
            assert!(!reason.is_empty());
        }
        other => panic!("expected an archive failure, got {}", render(other)),
    }
}

#[test]
fn truncated_archive_keeps_earlier_outcomes_and_reports_the_failure() {
    let bytes = build_archive(&[
        ("a.html", Some(b"world".as_slice())),
        ("b.html", Some(b"world".as_slice())),
    ]);
    let truncated = bytes[..bytes.len() / 2].to_vec();
    let pattern = Pattern::compile("world").unwrap();
    let outcomes = scan_archive("cut.tar.gz".to_string(), truncated, &pattern);
    let (last, earlier) = outcomes.split_last().unwrap();
    assert!(matches!(last, ScanOutcome::ArchiveFailed { .. }));
    for o in earlier {
        assert!(matches!(o, ScanOutcome::Matched { .. }));
    }
}
