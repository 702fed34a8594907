//! Fixtures: which entries of a fixture directory they are, and which of
//! them are to be skipped.

use crate::listing::{lemma_views_push, views, DirEntry, EntryKind};
use crate::text::{contains, ends_with, str_contains, str_ends_with};
use vstd::prelude::*;

verus! {

/// The text that marks a fixture as one to skip.
pub open spec fn marker() -> Seq<char> {
    "xfail"@
}

/// Whether a fixture with this content is to be skipped.
pub open spec fn has_marker(content: Seq<char>) -> bool {
    contains(content, marker())
}

/// Decides from a fixture's content whether it is to be skipped: it is
/// where the marker stands anywhere in it.
pub fn should_ignore(content: &str) -> (ignore: bool)
    ensures
        ignore == has_marker(content@),
{
    str_contains(content, "xfail")
}

/// The path of the entry `name` of the directory `dir`.
pub open spec fn fixture_path(dir: Seq<char>, name: Seq<char>) -> Seq<char> {
    dir + "/"@ + name
}

/// Whether an entry of the fixture directory `dir` is a fixture: a regular
/// file whose path ends in `.rs`.
pub open spec fn is_fixture(dir: Seq<char>, entry: DirEntry) -> bool {
    entry.kind == EntryKind::File && ends_with(fixture_path(dir, entry.name@), ".rs"@)
}

/// The paths of the fixtures among the entries of `dir`, in listing order.
pub open spec fn fixtures_of(dir: Seq<char>, entries: Seq<DirEntry>) -> Seq<Seq<char>> {
    entries.filter(|e: DirEntry| is_fixture(dir, e)).map_values(
        |e: DirEntry| fixture_path(dir, e.name@),
    )
}

/// Picks the fixtures out of the listing of the fixture directory `dir` and
/// gives their paths. Entries that are no fixtures are passed over.
pub fn eligible_fixtures(dir: &str, entries: &Vec<DirEntry>) -> (paths: Vec<String>)
    ensures
        views(paths@) == fixtures_of(dir@, entries@),
{
    let mut paths: Vec<String> = Vec::new();
    let mut i: usize = 0;
    assert(entries@.take(0) =~= Seq::<DirEntry>::empty());
    assert(views(paths@) =~= fixtures_of(dir@, entries@.take(0))) by {
        reveal(Seq::filter);
    }
    while i < entries.len()
        invariant
            i <= entries.len(),
            views(paths@) == fixtures_of(dir@, entries@.take(i as int)),
        decreases entries.len() - i,
    {
        let entry = &entries[i];
        let is_file = match entry.kind {
            EntryKind::File => true,
            _ => false,
        };
        let mut path = String::from_str(dir);
        path.append("/");
        path.append(entry.name.as_str());
        proof {
            let seen = entries@.take(i as int);
            entries@.lemma_take_succ_push(i as int);
            seen.lemma_filter_push(*entry, |e: DirEntry| is_fixture(dir@, e));
            seen.filter(|e: DirEntry| is_fixture(dir@, e)).lemma_push_map_commute(
                |e: DirEntry| fixture_path(dir@, e.name@),
                *entry,
            );
            lemma_views_push(paths@, path);
        }
        if is_file && str_ends_with(path.as_str(), ".rs") {
            paths.push(path);
        }
        i += 1;
    }
    assert(entries@.take(entries.len() as int) =~= entries@);
    paths
}

} // verus!
