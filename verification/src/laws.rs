//! What holds of every run of the harness.

use crate::fixture::{fixture_path, fixtures_of, has_marker, is_fixture};
use crate::harness::{any_failed, lemma_next_valid, Event, HarnessView, RequestView};
use crate::listing::DirEntry;
use crate::runner::{is_library_path_variable, RunOutcome};
use crate::toolchain::{
    is_target, lib_dir, library_path, reserved_name, target_lib_dir, targets_of,
};
use vstd::prelude::*;

verus! {

/// A name is among the targets exactly if the listing holds a directory of
/// that name and the name is not the reserved one. So no file and no entry
/// under the reserved name is ever a target.
pub proof fn lemma_targets_are_the_directories(entries: Seq<DirEntry>, name: Seq<char>)
    ensures
        targets_of(entries).contains(name) <==> exists|i: int|
            0 <= i < entries.len() && is_target(#[trigger] entries[i]) && entries[i].name@ == name,
        !targets_of(entries).contains(reserved_name()),
{
    let pred = |e: DirEntry| is_target(e);
    let kept = entries.filter(pred);
    let names = targets_of(entries);
    assert forall|wanted: Seq<char>| names.contains(wanted) implies exists|i: int|
        0 <= i < entries.len() && is_target(#[trigger] entries[i]) && entries[i].name@
            == wanted by {
        let j = choose|j: int| 0 <= j < names.len() && names[j] == wanted;
        entries.lemma_filter_pred(pred, j);
        assert(kept.contains(kept[j]));
        entries.lemma_filter_contains_rev(pred, kept[j]);
        let i = choose|i: int| 0 <= i < entries.len() && entries[i] == kept[j];
        assert(is_target(entries[i]) && entries[i].name@ == wanted);
    }
    if exists|i: int|
        0 <= i < entries.len() && is_target(#[trigger] entries[i]) && entries[i].name@ == name {
        let i = choose|i: int|
            0 <= i < entries.len() && is_target(#[trigger] entries[i]) && entries[i].name@ == name;
        entries.lemma_filter_contains(pred, i);
        let k = choose|k: int| 0 <= k < kept.len() && kept[k] == entries[i];
        assert(names[k] == name);
    }
}

/// A path is among the fixtures of a directory exactly if it is the path
/// of a regular file of the listing and ends in `.rs`.
pub proof fn lemma_fixtures_are_the_source_files(
    dir: Seq<char>,
    entries: Seq<DirEntry>,
    path: Seq<char>,
)
    ensures
        fixtures_of(dir, entries).contains(path) <==> exists|i: int|
            0 <= i < entries.len() && is_fixture(dir, #[trigger] entries[i]) && fixture_path(
                dir,
                entries[i].name@,
            ) == path,
{
    let pred = |e: DirEntry| is_fixture(dir, e);
    let kept = entries.filter(pred);
    let paths = fixtures_of(dir, entries);
    if paths.contains(path) {
        let j = choose|j: int| 0 <= j < paths.len() && paths[j] == path;
        entries.lemma_filter_pred(pred, j);
        assert(kept.contains(kept[j]));
        entries.lemma_filter_contains_rev(pred, kept[j]);
        let i = choose|i: int| 0 <= i < entries.len() && entries[i] == kept[j];
        assert(is_fixture(dir, entries[i]) && fixture_path(dir, entries[i].name@) == path);
    }
    if exists|i: int|
        0 <= i < entries.len() && is_fixture(dir, #[trigger] entries[i]) && fixture_path(
            dir,
            entries[i].name@,
        ) == path {
        let i = choose|i: int|
            0 <= i < entries.len() && is_fixture(dir, #[trigger] entries[i]) && fixture_path(
                dir,
                entries[i].name@,
            ) == path;
        entries.lemma_filter_contains(pred, i);
        let k = choose|k: int| 0 <= k < kept.len() && kept[k] == entries[i];
        assert(paths[k] == path);
    }
}

/// A valid state stays valid whatever the driver reports, however often.
pub proof fn lemma_after_valid(s: HarnessView, events: Seq<Event>)
    requires
        s.inv(),
    ensures
        s.after(events).inv(),
    decreases events.len(),
{
    if events.len() > 0 {
        lemma_next_valid(s, events[0]);
        lemma_after_valid(s.next(events[0]), events.drop_first());
    }
}

/// The three counters of a tally never account for more fixtures than
/// there are, and every tally counts the same fixtures as ignored.
pub proof fn lemma_tally_within_fixtures(s: HarnessView, target: int)
    requires
        s.inv(),
        0 <= target < s.tallies.len(),
    ensures
        s.tallies[target].total() <= s.fixtures.len(),
        s.tallies[target].ignored == s.ignored,
{
}

/// While a target runs, the three counters of its tally sum to the number
/// of fixtures dealt with so far: those ignored and those invoked.
pub proof fn lemma_tally_follows_progress(s: HarnessView)
    requires
        s.inv(),
        s.stage is Running,
    ensures
        s.tallies[s.stage->Running_target as int].total() == s.ignored + s.stage->Running_fixture,
{
}

/// Once a target is finished, the three counters of its tally sum to the
/// number of fixtures. A target is finished when a later target runs, or
/// when the run is over and was not cut short by a failure.
pub proof fn lemma_tally_accounts_for_every_fixture(s: HarnessView, target: int)
    requires
        s.inv(),
        0 <= target < s.tallies.len(),
        (s.stage is Running && target < s.stage->Running_target) || (s.stage is Done && !(
        s.mode.aborts_on_failure() && s.failed)),
    ensures
        s.tallies[target].total() == s.fixtures.len(),
{
    assert(s.complete(target));
}

/// A fixture that holds the ignore marker is counted as ignored and does
/// not join the fixtures that are invoked.
pub proof fn lemma_marked_fixture_is_ignored(s: HarnessView, content: String)
    requires
        s.inv(),
        s.stage is Classifying,
        has_marker(content@),
    ensures
        s.next(Event::Content(content)).ignored == s.ignored + 1,
        s.next(Event::Content(content)).runnable == s.runnable,
        forall|j: int|
            0 <= j < s.next(Event::Content(content)).tallies.len() ==> (#[trigger] s.next(
                Event::Content(content),
            ).tallies[j]).ignored == s.ignored + 1,
{
    lemma_next_valid(s, Event::Content(content));
}

/// A fixture without the ignore marker joins the fixtures that are invoked,
/// behind those that joined before it, and is not counted as ignored.
pub proof fn lemma_unmarked_fixture_is_runnable(s: HarnessView, content: String)
    requires
        s.inv(),
        s.stage is Classifying,
        !has_marker(content@),
    ensures
        s.next(Event::Content(content)).ignored == s.ignored,
        s.next(Event::Content(content)).runnable == s.runnable.push(
            s.fixtures[s.stage->Classifying_fixture as int],
        ),
{
}

/// The compiler is invoked on a fixture only while fixtures run, and then
/// on one of those that were found to be without the ignore marker.
pub proof fn lemma_only_runnable_fixtures_are_invoked(s: HarnessView)
    requires
        s.inv(),
        s.pending() is Spawn,
    ensures
        s.stage is Running,
        s.pending()->invocation.args[0] == s.runnable[s.stage->Running_fixture as int],
{
}

/// The compiler is invoked on fixtures of the listing only.
pub proof fn lemma_only_listed_fixtures_are_invoked(s: HarnessView)
    requires
        s.inv(),
        s.pending() is Spawn,
    ensures
        s.fixtures.contains(s.pending()->invocation.args[0]),
{
}

/// Where failures are counted, a run in which fixtures were invoked ends
/// only when every target has its tally.
pub proof fn lemma_every_target_is_tallied(s: HarnessView)
    requires
        s.inv(),
        s.stage is Done,
        s.tallies.len() > 0,
        !s.mode.aborts_on_failure(),
    ensures
        s.tallies.len() == s.targets.len(),
{
}

/// Once the invocations have begun, no step changes which fixtures are
/// ignored and which are invoked.
pub proof fn lemma_classification_is_settled(s: HarnessView, event: Event)
    requires
        s.inv(),
        s.stage is Running || s.stage is Done,
    ensures
        s.next(event).fixtures == s.fixtures,
        s.next(event).runnable == s.runnable,
        s.next(event).ignored == s.ignored,
{
}

/// A fixture that the compiler accepts is counted as passed on the tally
/// of the target for which it ran, and on nothing else.
pub proof fn lemma_success_is_counted_passed(s: HarnessView, outcome: RunOutcome)
    requires
        s.inv(),
        s.stage is Running,
        outcome.succeeded(),
    ensures
        ({
            let target = s.stage->Running_target as int;
            let after = s.next(Event::Outcome(outcome));
            &&& after.tallies[target].passed == s.tallies[target].passed + 1
            &&& after.tallies[target].failed == s.tallies[target].failed
            &&& after.tallies[target].ignored == s.tallies[target].ignored
            &&& forall|j: int| 0 <= j < target ==> after.tallies[j] == s.tallies[j]
            &&& after.failed == s.failed
        }),
{
}

/// Where failures are counted, a fixture that the compiler rejects, or for
/// which it cannot be started, is counted as failed on the tally of the
/// target for which it ran, and the run is marked as failed.
pub proof fn lemma_failure_is_counted_failed(s: HarnessView, outcome: RunOutcome)
    requires
        s.inv(),
        s.stage is Running,
        !s.mode.aborts_on_failure(),
        !outcome.succeeded(),
    ensures
        ({
            let target = s.stage->Running_target as int;
            let after = s.next(Event::Outcome(outcome));
            &&& after.tallies[target].failed == s.tallies[target].failed + 1
            &&& after.tallies[target].passed == s.tallies[target].passed
            &&& after.tallies[target].ignored == s.tallies[target].ignored
            &&& forall|j: int| 0 <= j < target ==> after.tallies[j] == s.tallies[j]
            &&& after.failed
        }),
{
}

/// Where the first failure ends the run, a fixture that the compiler
/// rejects, or for which it cannot be started, ends it at once: the
/// harness asks for the exit with a code that is not zero, and no tally
/// changes.
pub proof fn lemma_first_failure_ends_the_run(s: HarnessView, outcome: RunOutcome)
    requires
        s.inv(),
        s.stage is Running,
        s.mode.aborts_on_failure(),
        !outcome.succeeded(),
    ensures
        s.next(Event::Outcome(outcome)).stage is Done,
        s.next(Event::Outcome(outcome)).failed,
        s.next(Event::Outcome(outcome)).pending() == (RequestView::Exit { code: 1 }),
        s.next(Event::Outcome(outcome)).tallies == s.tallies,
{
}

/// A run that is over stays as it is: whatever is reported to it, it asks
/// for nothing but the exit, and invokes the compiler on nothing.
pub proof fn lemma_done_is_final(s: HarnessView, events: Seq<Event>)
    requires
        s.stage is Done,
    ensures
        s.after(events) == s,
        s.after(events).pending() == (RequestView::Exit { code: s.exit_code() }),
    decreases events.len(),
{
    if events.len() > 0 {
        lemma_done_is_final(s.next(events[0]), events.drop_first());
    }
}

/// A run that has failed stays failed, and if it ends it ends with an exit
/// code that is not zero.
pub proof fn lemma_failed_run_exits_nonzero(s: HarnessView, events: Seq<Event>)
    requires
        s.inv(),
        s.failed,
    ensures
        s.after(events).failed,
        s.after(events).stage is Done ==> s.after(events).pending() == (RequestView::Exit {
            code: 1,
        }),
    decreases events.len(),
{
    if events.len() > 0 {
        lemma_next_valid(s, events[0]);
        lemma_failed_run_exits_nonzero(s.next(events[0]), events.drop_first());
    }
}

/// Whether `event` reports that the outside work went well: the sysroot was
/// found, the directory or file was read, the compiler accepted the
/// fixture, the conformance runner found its fixtures in order.
pub open spec fn went_well(event: Event) -> bool {
    match event {
        Event::Environment(env) => env.sysroot() is Some,
        Event::Listing(_) => true,
        Event::Content(_) => true,
        Event::Outcome(outcome) => outcome.succeeded(),
        Event::Judged(ok) => ok,
        Event::Unavailable(_) => false,
    }
}

/// A run in which all outside work goes well does not fail: no tally
/// counts a failure, and if the run ends it ends with exit code zero. So a
/// compiler that accepts every fixture has every fixture without the ignore
/// marker counted as passed.
pub proof fn lemma_run_without_failure_passes(s: HarnessView, events: Seq<Event>)
    requires
        s.inv(),
        !s.failed,
        forall|i: int| 0 <= i < events.len() ==> went_well(#[trigger] events[i]),
    ensures
        !s.after(events).failed,
        forall|j: int|
            0 <= j < s.after(events).tallies.len() ==> (#[trigger] s.after(events).tallies[j]).failed
                == 0,
        s.after(events).stage is Done ==> s.after(events).pending() == (RequestView::Exit {
            code: 0,
        }),
    decreases events.len(),
{
    if events.len() > 0 {
        let rest = events.drop_first();
        lemma_next_valid(s, events[0]);
        assert(went_well(events[0]));
        assert forall|i: int| 0 <= i < rest.len() implies went_well(#[trigger] rest[i]) by {
            assert(rest[i] == events[i + 1]);
        }
        lemma_run_without_failure_passes(s.next(events[0]), rest);
    } else {
        assert forall|j: int| 0 <= j < s.tallies.len() implies (#[trigger] s.tallies[j]).failed
            == 0 by {
            if s.tallies[j].failed > 0 {
                assert(any_failed(s.tallies));
            }
        }
    }
}

/// A run ends with exit code zero exactly if it has not failed, and a run
/// on whose tallies a failure stands has failed.
pub proof fn lemma_exit_code_tells_failure(s: HarnessView)
    requires
        s.inv(),
        s.stage is Done,
    ensures
        s.pending() == (RequestView::Exit { code: s.exit_code() }),
        s.exit_code() == 0 <==> !s.failed,
        any_failed(s.tallies) ==> s.exit_code() == 1,
{
}

/// The search path of every invocation holds two directories: the
/// toolchain's general library directory first, the target's own second.
/// It is carried by a variable in which a platform looks for its dynamic
/// libraries.
pub proof fn lemma_general_directory_comes_first(s: HarnessView)
    requires
        s.inv(),
        s.pending() is Spawn,
    ensures
        ({
            let target = s.targets[s.stage->Running_target as int];
            let dirs = s.pending()->invocation.library_path;
            &&& is_library_path_variable(s.pending()->invocation.library_path_var)
            &&& dirs == library_path(s.sysroot, target)
            &&& dirs.len() == 2
            &&& dirs[0] == lib_dir(s.sysroot)
            &&& dirs[1] == target_lib_dir(s.sysroot, target)
        }),
{
}

} // verus!
