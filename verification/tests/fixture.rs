use conformance_harness::fixture::{eligible_fixtures, should_ignore};
use conformance_harness::listing::{DirEntry, EntryKind};

fn entry(name: &str, kind: EntryKind) -> DirEntry {
    DirEntry { name: name.to_string(), kind }
}

#[test]
fn a_fixture_with_the_marker_is_ignored() {
    assert!(should_ignore("xfail"));
    assert!(should_ignore("// xfail-test\nfn main() {}\n"));
    assert!(should_ignore("fn main() { let xfailure = 1; }"));
}

#[test]
fn a_fixture_without_the_marker_is_not_ignored() {
    assert!(!should_ignore(""));
    assert!(!should_ignore("fn main() {}\n"));
    assert!(!should_ignore("// x-fail\n// XFAIL\n// xfai l\n"));
}

#[test]
fn fixtures_are_the_regular_files_that_end_in_rs() {
    let entries = vec![
        entry("good.rs", EntryKind::File),
        entry("README.md", EntryKind::File),
        entry("nested.rs", EntryKind::Directory),
        entry("link.rs", EntryKind::Other),
        entry("skip.rs", EntryKind::File),
        entry("rs", EntryKind::File),
        entry(".rs", EntryKind::File),
        entry("a.rs.orig", EntryKind::File),
    ];
    assert_eq!(
        eligible_fixtures("tests/compile-pass", &entries),
        vec![
            "tests/compile-pass/good.rs".to_string(),
            "tests/compile-pass/skip.rs".to_string(),
            "tests/compile-pass/.rs".to_string(),
        ]
    );
}

#[test]
fn an_empty_directory_holds_no_fixtures() {
    assert_eq!(eligible_fixtures("tests/run-pass", &Vec::new()), Vec::<String>::new());
}
