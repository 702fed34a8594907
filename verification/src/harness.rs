//! The harness as a state machine.
//!
//! The harness itself reads no file and starts no process. It says what it
//! needs next ([`Harness::pending`]), is told what came of it
//! ([`Harness::advance`]), and answers with the text to report. Whoever
//! drives it does the outside work.

use crate::fixture::{eligible_fixtures, fixtures_of, has_marker, should_ignore};
use crate::listing::{lemma_views_push, views, DirEntry};
use crate::mode::Mode;
use crate::report::{
    banner, banner_string, idle_report, idle_report_string, outcome_string, outcome_text, summary,
    summary_string, test_line, test_line_string, unavailable, unavailable_string,
};
use crate::runner::{
    compile_fail_config, dylib_env_var, invocation_for, is_library_path_variable, run_pass_config,
    Invocation, InvocationView, RunOutcome, RunnerConfig, RunnerConfigView,
};
use crate::tally::Tally;
use crate::toolchain::{
    all_targets, find_sysroot, rustlib_dir, rustlib_dir_of, targets_of, ConfigError, Environment,
};
use vstd::prelude::*;

verus! {

/// Where a run stands: what the harness is waiting for.
#[derive(Clone, Copy, Debug, PartialEq, Eq, Structural)]
pub enum Stage {
    /// Waiting for the environment, to find the sysroot.
    Resolving,
    /// Waiting for the listing of the target directory.
    ListingTargets,
    /// Waiting for the listing of the fixture directory.
    ListingFixtures,
    /// Waiting for the content of a fixture, to classify it.
    Classifying { fixture: usize },
    /// Waiting for the compiler's answer on a fixture for a target.
    Running { target: usize, fixture: usize },
    /// Waiting for the conformance runner's judgement.
    Delegating { target: usize },
    /// The run is over.
    Done,
}

/// What the driver tells the harness.
#[derive(Clone, Debug, PartialEq, Eq)]
pub enum Event {
    /// The environment's inputs to the search for the sysroot.
    Environment(Environment),
    /// The entries of the directory that was to be listed.
    Listing(Vec<DirEntry>),
    /// The content of the fixture that was to be read.
    Content(String),
    /// How the invocation of the compiler ended.
    Outcome(RunOutcome),
    /// Whether the conformance runner found every fixture in order.
    Judged(bool),
    /// The directory or file that was asked for could not be read.
    Unavailable(String),
}

/// What the harness asks of its driver.
#[derive(Clone, Debug, PartialEq, Eq)]
pub enum Request {
    /// Gather the environment's inputs.
    Environment,
    /// List the entries of a directory.
    List { dir: String },
    /// Read a fixture in full.
    Read { path: String },
    /// Invoke the compiler and capture how it ends.
    Spawn { invocation: Invocation },
    /// Let the conformance runner judge its fixtures.
    Delegate { config: RunnerConfig },
    /// End the process with this exit code.
    Exit { code: i32 },
}

/// A request as plain sequences.
pub enum RequestView {
    Environment,
    List { dir: Seq<char> },
    Read { path: Seq<char> },
    Spawn { invocation: InvocationView },
    Delegate { config: RunnerConfigView },
    Exit { code: i32 },
}

impl View for Request {
    type V = RequestView;

    open spec fn view(&self) -> RequestView {
        match *self {
            Request::Environment => RequestView::Environment,
            Request::List { dir } => RequestView::List { dir: dir@ },
            Request::Read { path } => RequestView::Read { path: path@ },
            Request::Spawn { invocation } => RequestView::Spawn { invocation: invocation@ },
            Request::Delegate { config } => RequestView::Delegate { config: config@ },
            Request::Exit { code } => RequestView::Exit { code },
        }
    }
}

/// Whether some tally counts a failure.
pub open spec fn any_failed(tallies: Seq<Tally>) -> bool {
    exists|j: int| 0 <= j < tallies.len() && (#[trigger] tallies[j]).failed > 0
}

/// The state of a run as plain values.
pub struct HarnessView {
    /// The mode of the run.
    pub mode: Mode,
    /// What the harness is waiting for.
    pub stage: Stage,
    /// The environment variable that carries the dynamic-library search path
    /// on this platform.
    pub library_path_var: Seq<char>,
    /// The toolchain's sysroot, once found.
    pub sysroot: Seq<char>,
    /// The toolchain's targets, once listed.
    pub targets: Seq<Seq<char>>,
    /// The paths of the fixtures, once listed.
    pub fixtures: Seq<Seq<char>>,
    /// The paths of the fixtures that are to be invoked, as far as the
    /// fixtures have been classified.
    pub runnable: Seq<Seq<char>>,
    /// How many fixtures were found to hold the ignore marker.
    pub ignored: nat,
    /// One tally for each target begun, in the order of the targets.
    pub tallies: Seq<Tally>,
    /// Whether the run has failed already.
    pub failed: bool,
}

impl HarnessView {
    /// The state in which a run starts.
    pub open spec fn initial(mode: Mode, library_path_var: Seq<char>) -> HarnessView {
        HarnessView {
            mode,
            library_path_var,
            stage: if mode.needs_toolchain() {
                Stage::Resolving
            } else {
                Stage::Delegating { target: 0 }
            },
            sysroot: Seq::empty(),
            targets: Seq::empty(),
            fixtures: Seq::empty(),
            runnable: Seq::empty(),
            ignored: 0,
            tallies: Seq::empty(),
            failed: false,
        }
    }

    /// The exit code with which the run ends if it ends in this state.
    pub open spec fn exit_code(self) -> i32 {
        if self.failed {
            1
        } else {
            0
        }
    }

    /// The tally with which each target starts.
    pub open spec fn fresh_tally(self) -> Tally {
        Tally::fresh(self.ignored as usize)
    }

    /// Whether the tally of target `j` accounts for every fixture.
    pub open spec fn complete(self, j: int) -> bool {
        self.tallies[j].passed + self.tallies[j].failed == self.runnable.len()
    }

    /// What holds of every state that a run can reach.
    pub open spec fn inv(self) -> bool {
        &&& is_library_path_variable(self.library_path_var)
        &&& self.targets.len() <= usize::MAX
        &&& self.fixtures.len() <= usize::MAX
        &&& self.runnable.len() + self.ignored <= self.fixtures.len()
        &&& self.tallies.len() <= self.targets.len()
        &&& self.tallies.len() > 0 ==> self.runnable.len() + self.ignored == self.fixtures.len()
        &&& forall|f: int|
            0 <= f < self.runnable.len() ==> self.fixtures.contains(#[trigger] self.runnable[f])
        &&& forall|j: int|
            0 <= j < self.tallies.len() ==> {
                &&& (#[trigger] self.tallies[j]).ignored == self.ignored
                &&& self.tallies[j].passed + self.tallies[j].failed <= self.runnable.len()
            }
        &&& any_failed(self.tallies) ==> self.failed
        &&& self.mode.aborts_on_failure() ==> !any_failed(self.tallies) && self.ignored == 0
        &&& match self.stage {
            Stage::Resolving | Stage::ListingTargets => {
                &&& self.mode.needs_toolchain()
                &&& self.targets.len() == 0
                &&& self.fixtures.len() == 0
                &&& self.tallies.len() == 0
                &&& !self.failed
            },
            Stage::ListingFixtures => {
                &&& !self.mode.delegates()
                &&& self.targets.len() > 0
                &&& self.fixtures.len() == 0
                &&& self.tallies.len() == 0
                &&& !self.failed
            },
            Stage::Classifying { fixture } => {
                &&& self.mode.honors_marker()
                &&& self.targets.len() > 0
                &&& fixture < self.fixtures.len()
                &&& self.runnable.len() + self.ignored == fixture
                &&& self.tallies.len() == 0
                &&& !self.failed
            },
            Stage::Running { target, fixture } => {
                &&& !self.mode.delegates()
                &&& target < self.targets.len()
                &&& fixture < self.runnable.len()
                &&& self.tallies.len() == target + 1
                &&& forall|j: int| 0 <= j < target ==> #[trigger] self.complete(j)
                &&& self.tallies[target as int].passed + self.tallies[target as int].failed
                    == fixture
                &&& self.failed ==> any_failed(self.tallies)
            },
            Stage::Delegating { target } => {
                &&& self.mode.delegates()
                &&& self.mode == Mode::CompileFail ==> target < self.targets.len()
                &&& self.fixtures.len() == 0
                &&& self.tallies.len() == 0
                &&& !self.failed
            },
            Stage::Done => {
                ||| self.mode.aborts_on_failure() && self.failed
                ||| {
                    &&& self.tallies.len() == 0 || self.tallies.len() == self.targets.len()
                    &&& forall|j: int| 0 <= j < self.tallies.len() ==> #[trigger] self.complete(j)
                }
            },
        }
    }

    /// What the harness asks of its driver in this state.
    pub open spec fn pending(self) -> RequestView {
        match self.stage {
            Stage::Resolving => RequestView::Environment,
            Stage::ListingTargets => RequestView::List { dir: rustlib_dir(self.sysroot) },
            Stage::ListingFixtures => RequestView::List { dir: self.mode.fixture_dir() },
            Stage::Classifying { fixture } => RequestView::Read {
                path: self.fixtures[fixture as int],
            },
            Stage::Running { target, fixture } => RequestView::Spawn {
                invocation: invocation_for(
                    self.runnable[fixture as int],
                    self.sysroot,
                    self.targets[target as int],
                    self.mode.selects_target(),
                    self.library_path_var,
                ),
            },
            Stage::Delegating { target } => RequestView::Delegate {
                config: if self.mode == Mode::CompileFail {
                    compile_fail_config(self.sysroot, self.targets[target as int])
                } else {
                    run_pass_config()
                },
            },
            Stage::Done => RequestView::Exit { code: self.exit_code() },
        }
    }

    /// The state after something that ends the run in failure.
    pub open spec fn halted(self) -> HarnessView {
        HarnessView { stage: Stage::Done, failed: true, ..self }
    }

    /// The state after the search for the sysroot.
    pub open spec fn resolved(self, sysroot: Option<Seq<char>>) -> HarnessView {
        match sysroot {
            Some(path) => HarnessView { stage: Stage::ListingTargets, sysroot: path, ..self },
            None => self.halted(),
        }
    }

    /// The state after the targets were listed. A run without targets is
    /// over; a run that delegates goes to its first target; any other run
    /// lists its fixtures next.
    pub open spec fn with_targets(self, targets: Seq<Seq<char>>) -> HarnessView {
        HarnessView {
            stage: if targets.len() == 0 {
                Stage::Done
            } else if self.mode.delegates() {
                Stage::Delegating { target: 0 }
            } else {
                Stage::ListingFixtures
            },
            targets,
            ..self
        }
    }

    /// The state in which the invocations begin, all fixtures classified.
    /// Where no fixture is to be invoked the run is over, each target with
    /// a tally that holds the ignored fixtures only.
    pub open spec fn begun(self) -> HarnessView {
        if self.runnable.len() == 0 {
            HarnessView {
                stage: Stage::Done,
                tallies: Seq::new(self.targets.len(), |j: int| self.fresh_tally()),
                ..self
            }
        } else {
            HarnessView {
                stage: Stage::Running { target: 0, fixture: 0 },
                tallies: seq![self.fresh_tally()],
                ..self
            }
        }
    }

    /// The state after the fixtures were listed. Where the mode honours the
    /// ignore marker each fixture is classified first; else all are invoked.
    pub open spec fn with_fixtures(self, fixtures: Seq<Seq<char>>) -> HarnessView {
        if self.mode.honors_marker() && fixtures.len() > 0 {
            HarnessView { stage: Stage::Classifying { fixture: 0 }, fixtures, ..self }
        } else {
            HarnessView { fixtures, runnable: fixtures, ..self }.begun()
        }
    }

    /// The state after the fixture at hand was classified: a marked fixture
    /// is counted as ignored, any other is to be invoked.
    pub open spec fn classified(self, marked: bool) -> HarnessView
        recommends
            self.stage is Classifying,
    {
        let fixture = self.stage->Classifying_fixture;
        let counted = if marked {
            HarnessView { ignored: self.ignored + 1, ..self }
        } else {
            HarnessView { runnable: self.runnable.push(self.fixtures[fixture as int]), ..self }
        };
        if fixture + 1 < self.fixtures.len() {
            HarnessView { stage: Stage::Classifying { fixture: (fixture + 1) as usize }, ..counted }
        } else {
            counted.begun()
        }
    }

    /// The state after the compiler answered. Where the mode ends the run on
    /// the first failure, a failure does so without being counted. Else the
    /// answer is counted on the target's tally and the run goes on: to the
    /// target's next fixture, to the next target, or to its end.
    pub open spec fn ran(self, success: bool) -> HarnessView
        recommends
            self.stage is Running,
    {
        let target = self.stage->Running_target;
        let fixture = self.stage->Running_fixture;
        if !success && self.mode.aborts_on_failure() {
            self.halted()
        } else {
            let tallies = self.tallies.update(
                target as int,
                self.tallies[target as int].counting(success),
            );
            let failed = self.failed || !success;
            if fixture + 1 < self.runnable.len() {
                HarnessView {
                    stage: Stage::Running { target, fixture: (fixture + 1) as usize },
                    tallies,
                    failed,
                    ..self
                }
            } else if target + 1 < self.targets.len() {
                HarnessView {
                    stage: Stage::Running { target: (target + 1) as usize, fixture: 0 },
                    tallies: tallies.push(self.fresh_tally()),
                    failed,
                    ..self
                }
            } else {
                HarnessView { stage: Stage::Done, tallies, failed, ..self }
            }
        }
    }

    /// The state after the conformance runner judged its fixtures.
    pub open spec fn judged(self, ok: bool) -> HarnessView
        recommends
            self.stage is Delegating,
    {
        let target = self.stage->Delegating_target;
        if !ok {
            self.halted()
        } else if self.mode == Mode::CompileFail && target + 1 < self.targets.len() {
            HarnessView { stage: Stage::Delegating { target: (target + 1) as usize }, ..self }
        } else {
            HarnessView { stage: Stage::Done, ..self }
        }
    }

    /// The state after `event`. An event that does not answer what the
    /// harness is waiting for changes nothing.
    pub open spec fn next(self, event: Event) -> HarnessView {
        match self.stage {
            Stage::Resolving => match event {
                Event::Environment(env) => self.resolved(env.sysroot()),
                _ => self,
            },
            Stage::ListingTargets => match event {
                Event::Listing(entries) => self.with_targets(targets_of(entries@)),
                Event::Unavailable(_) => self.halted(),
                _ => self,
            },
            Stage::ListingFixtures => match event {
                Event::Listing(entries) => self.with_fixtures(
                    fixtures_of(self.mode.fixture_dir(), entries@),
                ),
                Event::Unavailable(_) => self.halted(),
                _ => self,
            },
            Stage::Classifying { .. } => match event {
                Event::Content(content) => self.classified(has_marker(content@)),
                Event::Unavailable(_) => self.halted(),
                _ => self,
            },
            Stage::Running { .. } => match event {
                Event::Outcome(outcome) => self.ran(outcome.succeeded()),
                _ => self,
            },
            Stage::Delegating { .. } => match event {
                Event::Judged(ok) => self.judged(ok),
                _ => self,
            },
            Stage::Done => self,
        }
    }

    /// What is reported when the invocations begin.
    pub open spec fn begin_report(self) -> Seq<char> {
        if self.runnable.len() == 0 {
            idle_report(self.mode.label(), self.targets, self.fresh_tally())
        } else {
            banner(self.targets[0]) + test_line(self.mode.label(), self.runnable[0])
        }
    }

    /// What is reported after the compiler answered.
    pub open spec fn ran_report(self, outcome: RunOutcome) -> Seq<char>
        recommends
            self.stage is Running,
    {
        let target = self.stage->Running_target;
        let fixture = self.stage->Running_fixture;
        let success = outcome.succeeded();
        let label = self.mode.label();
        let result = outcome_text(outcome);
        if !success && self.mode.aborts_on_failure() {
            result + self.mode.failure_notice()
        } else if fixture + 1 < self.runnable.len() {
            result + test_line(label, self.runnable[fixture + 1])
        } else {
            let closing = result + summary(label, self.tallies[target as int].counting(success));
            if target + 1 < self.targets.len() {
                closing + banner(self.targets[target + 1]) + test_line(label, self.runnable[0])
            } else if self.failed || !success {
                closing + self.mode.failure_notice()
            } else {
                closing
            }
        }
    }

    /// What is reported after `event`.
    pub open spec fn report(self, event: Event) -> Seq<char> {
        match self.stage {
            Stage::Resolving => match event {
                Event::Environment(env) => if env.sysroot() is Some {
                    Seq::empty()
                } else {
                    ConfigError::SysrootUnspecified.message_text() + "\n"@
                },
                _ => Seq::empty(),
            },
            Stage::ListingTargets => match event {
                Event::Listing(entries) => {
                    let targets = targets_of(entries@);
                    if targets.len() > 0 && self.mode.delegates() {
                        banner(targets[0])
                    } else {
                        Seq::empty()
                    }
                },
                Event::Unavailable(reason) => unavailable(rustlib_dir(self.sysroot), reason@),
                _ => Seq::empty(),
            },
            Stage::ListingFixtures => match event {
                Event::Listing(entries) => {
                    let fixtures = fixtures_of(self.mode.fixture_dir(), entries@);
                    if self.mode.honors_marker() && fixtures.len() > 0 {
                        Seq::empty()
                    } else {
                        HarnessView { fixtures, runnable: fixtures, ..self }.begin_report()
                    }
                },
                Event::Unavailable(reason) => unavailable(self.mode.fixture_dir(), reason@),
                _ => Seq::empty(),
            },
            Stage::Classifying { fixture } => match event {
                Event::Content(content) => if fixture + 1 < self.fixtures.len() {
                    Seq::empty()
                } else if has_marker(content@) {
                    HarnessView { ignored: self.ignored + 1, ..self }.begin_report()
                } else {
                    HarnessView {
                        runnable: self.runnable.push(self.fixtures[fixture as int]),
                        ..self
                    }.begin_report()
                },
                Event::Unavailable(reason) => unavailable(self.fixtures[fixture as int], reason@),
                _ => Seq::empty(),
            },
            Stage::Running { .. } => match event {
                Event::Outcome(outcome) => self.ran_report(outcome),
                _ => Seq::empty(),
            },
            Stage::Delegating { target } => match event {
                Event::Judged(ok) => if !ok {
                    self.mode.failure_notice()
                } else if self.mode == Mode::CompileFail && target + 1 < self.targets.len() {
                    banner(self.targets[target + 1])
                } else {
                    Seq::empty()
                },
                _ => Seq::empty(),
            },
            Stage::Done => Seq::empty(),
        }
    }

    /// The state after each of `events` in turn.
    pub open spec fn after(self, events: Seq<Event>) -> HarnessView
        decreases events.len(),
    {
        if events.len() == 0 {
            self
        } else {
            self.next(events[0]).after(events.drop_first())
        }
    }
}

/// Whether the invocations can begin from the state `s`: the targets are
/// known and not none, every fixture is classified, and nothing has run.
pub open spec fn ready(s: HarnessView) -> bool {
    &&& is_library_path_variable(s.library_path_var)
    &&& !s.mode.delegates()
    &&& 0 < s.targets.len() <= usize::MAX
    &&& s.fixtures.len() <= usize::MAX
    &&& s.runnable.len() + s.ignored == s.fixtures.len()
    &&& forall|f: int| 0 <= f < s.runnable.len() ==> s.fixtures.contains(#[trigger] s.runnable[f])
    &&& s.mode.aborts_on_failure() ==> s.ignored == 0
    &&& s.tallies.len() == 0
    &&& !s.failed
}

/// A run starts in a valid state.
pub proof fn lemma_initial_valid(mode: Mode, library_path_var: Seq<char>)
    requires
        is_library_path_variable(library_path_var),
    ensures
        HarnessView::initial(mode, library_path_var).inv(),
{
}

/// Beginning the invocations keeps the state valid.
pub proof fn lemma_begun_valid(s: HarnessView)
    requires
        ready(s),
    ensures
        s.begun().inv(),
{
    let b = s.begun();
    if s.runnable.len() == 0 {
        assert forall|j: int| 0 <= j < b.tallies.len() implies #[trigger] b.complete(j) by {}
    }
}

/// Counting the compiler's answer keeps the state valid.
pub proof fn lemma_ran_valid(s: HarnessView, success: bool)
    requires
        s.inv(),
        s.stage is Running,
    ensures
        s.ran(success).inv(),
{
    let target = s.stage->Running_target;
    let fixture = s.stage->Running_fixture;
    let r = s.ran(success);
    if !success && s.mode.aborts_on_failure() {
    } else {
        let counted = s.tallies[target as int].counting(success);
        let tallies = s.tallies.update(target as int, counted);
        assert forall|j: int| 0 <= j < tallies.len() implies (#[trigger] tallies[j]).failed
            >= s.tallies[j].failed && (success ==> tallies[j].failed == s.tallies[j].failed) by {}
        if any_failed(tallies) && success {
            let j = choose|j: int| 0 <= j < tallies.len() && (#[trigger] tallies[j]).failed > 0;
            assert(s.tallies[j].failed > 0);
        }
        if !success {
            assert(tallies[target as int].failed > 0);
        }
        if s.failed {
            let j = choose|j: int| 0 <= j < s.tallies.len() && (#[trigger] s.tallies[j]).failed > 0;
            assert(tallies[j].failed > 0);
        }
        assert(any_failed(tallies) ==> r.failed);
        assert(r.failed ==> any_failed(tallies));
        if fixture + 1 < s.runnable.len() {
            assert(r.tallies == tallies);
            assert forall|j: int| 0 <= j < target implies #[trigger] r.complete(j) by {
                assert(s.complete(j));
            }
        } else if target + 1 < s.targets.len() {
            let pushed = tallies.push(s.fresh_tally());
            assert(r.tallies == pushed);
            assert forall|j: int| 0 <= j < target + 1 implies #[trigger] r.complete(j) by {
                if j < target {
                    assert(s.complete(j));
                }
            }
            if any_failed(pushed) {
                let j = choose|j: int| 0 <= j < pushed.len() && (#[trigger] pushed[j]).failed > 0;
                assert(tallies[j].failed > 0);
            }
            if any_failed(tallies) {
                let j = choose|j: int| 0 <= j < tallies.len() && (#[trigger] tallies[j]).failed > 0;
                assert(pushed[j].failed > 0);
            }
        } else {
            assert forall|j: int| 0 <= j < r.tallies.len() implies #[trigger] r.complete(j) by {
                if j < target {
                    assert(s.complete(j));
                }
            }
        }
    }
}

/// Every step keeps the state valid.
pub proof fn lemma_next_valid(s: HarnessView, event: Event)
    requires
        s.inv(),
    ensures
        s.next(event).inv(),
{
    match s.stage {
        Stage::Resolving => {},
        Stage::ListingTargets => {
            if let Event::Listing(entries) = event {
                assert(entries.len() == entries@.len());
                entries@.lemma_filter_len(|e: DirEntry| crate::toolchain::is_target(e));
            }
        },
        Stage::ListingFixtures => {
            if let Event::Listing(entries) = event {
                let dir = s.mode.fixture_dir();
                assert(entries.len() == entries@.len());
                entries@.lemma_filter_len(|e: DirEntry| crate::fixture::is_fixture(dir, e));
                let fixtures = fixtures_of(dir, entries@);
                if !(s.mode.honors_marker() && fixtures.len() > 0) {
                    lemma_begun_valid(HarnessView { fixtures, runnable: fixtures, ..s });
                }
            }
        },
        Stage::Classifying { fixture } => {
            if let Event::Content(content) = event {
                if fixture + 1 >= s.fixtures.len() {
                    if has_marker(content@) {
                        lemma_begun_valid(HarnessView { ignored: s.ignored + 1, ..s });
                    } else {
                        lemma_begun_valid(
                            HarnessView {
                                runnable: s.runnable.push(s.fixtures[fixture as int]),
                                ..s
                            },
                        );
                    }
                }
            }
        },
        Stage::Running { .. } => {
            if let Event::Outcome(outcome) = event {
                lemma_ran_valid(s, outcome.succeeded());
            }
        },
        Stage::Delegating { .. } => {},
        Stage::Done => {},
    }
}

/// A run of the harness.
pub struct Harness {
    mode: Mode,
    stage: Stage,
    library_path_var: String,
    sysroot: String,
    targets: Vec<String>,
    fixtures: Vec<String>,
    runnable: Vec<String>,
    ignored: usize,
    tallies: Vec<Tally>,
    failed: bool,
}

impl View for Harness {
    type V = HarnessView;

    closed spec fn view(&self) -> HarnessView {
        HarnessView {
            mode: self.mode,
            stage: self.stage,
            library_path_var: self.library_path_var@,
            sysroot: self.sysroot@,
            targets: views(self.targets@),
            fixtures: views(self.fixtures@),
            runnable: views(self.runnable@),
            ignored: self.ignored as nat,
            tallies: self.tallies@,
            failed: self.failed,
        }
    }
}

/// Copies a vector of strings.
fn clone_strings(v: &Vec<String>) -> (copy: Vec<String>)
    ensures
        copy@ == v@,
{
    let mut copy: Vec<String> = Vec::new();
    let mut i: usize = 0;
    while i < v.len()
        invariant
            i <= v.len(),
            copy@ == v@.take(i as int),
        decreases v.len() - i,
    {
        copy.push(v[i].clone());
        assert(copy@ =~= v@.take(i + 1));
        i += 1;
    }
    assert(v@.take(v.len() as int) =~= v@);
    copy
}

/// One tally for each of `count` targets, none of which runs a fixture.
fn idle_tallies(count: usize, ignored: usize) -> (tallies: Vec<Tally>)
    ensures
        tallies@ == Seq::new(count as nat, |j: int| Tally::fresh(ignored)),
{
    let mut tallies: Vec<Tally> = Vec::new();
    let mut i: usize = 0;
    while i < count
        invariant
            i <= count,
            tallies@ == Seq::new(i as nat, |j: int| Tally::fresh(ignored)),
        decreases count - i,
    {
        tallies.push(Tally::new(ignored));
        assert(tallies@ =~= Seq::new((i + 1) as nat, |j: int| Tally::fresh(ignored)));
        i += 1;
    }
    tallies
}

impl Harness {
    #[verifier::type_invariant]
    spec fn valid(&self) -> bool {
        self@.inv()
    }

    /// Starts a run in `mode`. The variable that carries the search path
    /// for dynamic libraries is the one that the conformance runner names
    /// for this platform.
    pub fn start(mode: Mode) -> (harness: Harness)
        ensures
            harness@ == HarnessView::initial(mode, harness@.library_path_var),
            harness@.inv(),
    {
        let library_path_var = dylib_env_var();
        proof {
            lemma_initial_valid(mode, library_path_var@);
        }
        let harness = Harness {
            mode,
            library_path_var,
            stage: if mode.needs_toolchain() {
                Stage::Resolving
            } else {
                Stage::Delegating { target: 0 }
            },
            sysroot: String::new(),
            targets: Vec::new(),
            fixtures: Vec::new(),
            runnable: Vec::new(),
            ignored: 0,
            tallies: Vec::new(),
            failed: false,
        };
        assert(harness@ =~= HarnessView::initial(mode, harness@.library_path_var)) by {
            assert(harness@.targets =~= Seq::<Seq<char>>::empty());
            assert(harness@.fixtures =~= Seq::<Seq<char>>::empty());
            assert(harness@.runnable =~= Seq::<Seq<char>>::empty());
        }
        harness
    }

    /// The mode of the run.
    pub fn mode(&self) -> (mode: Mode)
        ensures
            mode == self@.mode,
    {
        self.mode
    }

    /// What the harness is waiting for.
    pub fn stage(&self) -> (stage: Stage)
        ensures
            stage == self@.stage,
    {
        self.stage
    }

    /// Whether the run is over.
    pub fn is_done(&self) -> (done: bool)
        ensures
            done == (self@.stage is Done),
    {
        match self.stage {
            Stage::Done => true,
            _ => false,
        }
    }

    /// Whether the run has failed already.
    pub fn has_failed(&self) -> (failed: bool)
        ensures
            failed == self@.failed,
    {
        self.failed
    }

    /// How many fixtures were found to hold the ignore marker.
    pub fn ignored(&self) -> (ignored: usize)
        ensures
            ignored == self@.ignored,
    {
        self.ignored
    }

    /// The tallies of the targets begun so far, in the order of the targets.
    pub fn tallies(&self) -> (tallies: &Vec<Tally>)
        ensures
            tallies@ == self@.tallies,
    {
        &self.tallies
    }

    /// The targets, once listed.
    pub fn targets(&self) -> (targets: &Vec<String>)
        ensures
            views(targets@) == self@.targets,
    {
        &self.targets
    }

    /// The paths of the fixtures, once listed.
    pub fn fixtures(&self) -> (fixtures: &Vec<String>)
        ensures
            views(fixtures@) == self@.fixtures,
    {
        &self.fixtures
    }

    /// What the harness asks of its driver now.
    pub fn pending(&self) -> (request: Request)
        ensures
            request@ == self@.pending(),
    {
        proof {
            use_type_invariant(self);
        }
        match self.stage {
            Stage::Resolving => Request::Environment,
            Stage::ListingTargets => Request::List { dir: rustlib_dir_of(self.sysroot.as_str()) },
            Stage::ListingFixtures => Request::List {
                dir: String::from_str(self.mode.fixture_dir_str()),
            },
            Stage::Classifying { fixture } => Request::Read { path: self.fixtures[fixture].clone() },
            Stage::Running { target, fixture } => Request::Spawn {
                invocation: Invocation::new(
                    self.runnable[fixture].as_str(),
                    self.sysroot.as_str(),
                    self.targets[target].as_str(),
                    self.mode.selects_target(),
                    self.library_path_var.as_str(),
                ),
            },
            Stage::Delegating { target } => Request::Delegate {
                config: if self.mode == Mode::CompileFail {
                    RunnerConfig::compile_fail(self.sysroot.as_str(), self.targets[target].as_str())
                } else {
                    RunnerConfig::run_pass()
                },
            },
            Stage::Done => Request::Exit { code: if self.failed { 1 } else { 0 } },
        }
    }

    /// Ends the run in failure.
    fn halt(self) -> (harness: Harness)
        requires
            self@.tallies.len() == 0 || self@.mode.aborts_on_failure(),
        ensures
            harness@ == self@.halted(),
    {
        proof {
            use_type_invariant(&self);
        }
        Harness { stage: Stage::Done, failed: true, ..self }
    }

    /// Takes in what the search for the sysroot found.
    fn resolve(self, env: &Environment) -> (r: (Harness, String))
        requires
            self@.stage is Resolving,
        ensures
            r.0@ == self@.resolved(env.sysroot()),
            r.1@ == self@.report(Event::Environment(*env)),
    {
        proof {
            use_type_invariant(&self);
        }
        match find_sysroot(env) {
            Ok(path) => (
                Harness { stage: Stage::ListingTargets, sysroot: path, ..self },
                String::new(),
            ),
            Err(error) => {
                let mut text = error.message();
                text.append("\n");
                (self.halt(), text)
            },
        }
    }

    /// Takes in the listing of the target directory.
    fn list_targets(self, entries: &Vec<DirEntry>) -> (r: (Harness, String))
        requires
            self@.stage is ListingTargets,
        ensures
            r.0@ == self@.with_targets(targets_of(entries@)),
            r.1@ == self@.report(Event::Listing(*entries)),
    {
        proof {
            use_type_invariant(&self);
            lemma_next_valid(self@, Event::Listing(*entries));
        }
        let targets = all_targets(entries);
        if targets.len() == 0 {
            (Harness { stage: Stage::Done, targets, ..self }, String::new())
        } else if self.mode.delegates() {
            let text = banner_string(targets[0].as_str());
            (Harness { stage: Stage::Delegating { target: 0 }, targets, ..self }, text)
        } else {
            (Harness { stage: Stage::ListingFixtures, targets, ..self }, String::new())
        }
    }

    /// Begins the invocations, all fixtures classified.
    fn begin(
        mode: Mode,
        library_path_var: String,
        sysroot: String,
        targets: Vec<String>,
        fixtures: Vec<String>,
        runnable: Vec<String>,
        ignored: usize,
        Ghost(before): Ghost<HarnessView>,
    ) -> (r: (Harness, String))
        requires
            ready(before),
            before.mode == mode,
            before.library_path_var == library_path_var@,
            before.sysroot == sysroot@,
            before.targets == views(targets@),
            before.fixtures == views(fixtures@),
            before.runnable == views(runnable@),
            before.ignored == ignored,
        ensures
            r.0@ == before.begun(),
            r.1@ == before.begin_report(),
    {
        proof {
            lemma_begun_valid(before);
        }
        let fresh = Tally::new(ignored);
        if runnable.len() == 0 {
            let text = idle_report_string(mode.label_str(), &targets, fresh);
            let tallies = idle_tallies(targets.len(), ignored);
            let harness = Harness {
                mode,
                stage: Stage::Done,
                library_path_var,
                sysroot,
                targets,
                fixtures,
                runnable,
                ignored,
                tallies,
                failed: false,
            };
            assert(harness@.tallies =~= before.begun().tallies);
            (harness, text)
        } else {
            let mut text = banner_string(targets[0].as_str());
            let line = test_line_string(mode.label_str(), runnable[0].as_str());
            text.append(line.as_str());
            let mut tallies: Vec<Tally> = Vec::new();
            tallies.push(fresh);
            let harness = Harness {
                mode,
                stage: Stage::Running { target: 0, fixture: 0 },
                library_path_var,
                sysroot,
                targets,
                fixtures,
                runnable,
                ignored,
                tallies,
                failed: false,
            };
            assert(harness@.tallies =~= before.begun().tallies);
            (harness, text)
        }
    }

    /// Takes in the listing of the fixture directory.
    fn list_fixtures(self, entries: &Vec<DirEntry>) -> (r: (Harness, String))
        requires
            self@.stage is ListingFixtures,
        ensures
            r.0@ == self@.with_fixtures(fixtures_of(self@.mode.fixture_dir(), entries@)),
            r.1@ == self@.report(Event::Listing(*entries)),
    {
        proof {
            use_type_invariant(&self);
            lemma_next_valid(self@, Event::Listing(*entries));
        }
        let fixtures = eligible_fixtures(self.mode.fixture_dir_str(), entries);
        if self.mode.honors_marker() && fixtures.len() > 0 {
            (Harness { stage: Stage::Classifying { fixture: 0 }, fixtures, ..self }, String::new())
        } else {
            let runnable = clone_strings(&fixtures);
            let ghost before = HarnessView {
                fixtures: views(fixtures@),
                runnable: views(fixtures@),
                ..self@
            };
            let Harness { mode, library_path_var, sysroot, targets, ignored, .. } = self;
            Harness::begin(
                mode,
                library_path_var,
                sysroot,
                targets,
                fixtures,
                runnable,
                ignored,
                Ghost(before),
            )
        }
    }

    /// Takes in the content of the fixture that is being classified.
    fn classify(self, content: &String) -> (r: (Harness, String))
        requires
            self@.stage is Classifying,
        ensures
            r.0@ == self@.classified(has_marker(content@)),
            r.1@ == self@.report(Event::Content(*content)),
    {
        proof {
            use_type_invariant(&self);
        }
        let ghost old_view = self@;
        let Harness {
            mode,
            stage,
            library_path_var,
            sysroot,
            targets,
            fixtures,
            runnable,
            ignored,
            tallies,
            failed,
        } = self;
        let fixture = match stage {
            Stage::Classifying { fixture } => fixture,
            _ => 0,
        };
        let mut runnable = runnable;
        let mut ignored = ignored;
        let marked = should_ignore(content.as_str());
        if marked {
            ignored = ignored + 1;
        } else {
            proof {
                lemma_views_push(runnable@, fixtures@[fixture as int]);
            }
            runnable.push(fixtures[fixture].clone());
        }
        let ghost counted = if marked {
            HarnessView { ignored: old_view.ignored + 1, ..old_view }
        } else {
            HarnessView {
                runnable: old_view.runnable.push(old_view.fixtures[fixture as int]),
                ..old_view
            }
        };
        if fixture + 1 < fixtures.len() {
            let harness = Harness {
                mode,
                stage: Stage::Classifying { fixture: fixture + 1 },
                library_path_var,
                sysroot,
                targets,
                fixtures,
                runnable,
                ignored,
                tallies,
                failed,
            };
            (harness, String::new())
        } else {
            Harness::begin(
                mode,
                library_path_var,
                sysroot,
                targets,
                fixtures,
                runnable,
                ignored,
                Ghost(counted),
            )
        }
    }

    /// Takes in how the compiler's invocation ended.
    fn run(self, outcome: &RunOutcome) -> (r: (Harness, String))
        requires
            self@.stage is Running,
        ensures
            r.0@ == self@.ran(outcome.succeeded()),
            r.1@ == self@.ran_report(*outcome),
    {
        proof {
            use_type_invariant(&self);
            lemma_ran_valid(self@, outcome.succeeded());
        }
        let success = outcome.is_success();
        let mut text = outcome_string(outcome);
        if !success && self.mode.aborts_on_failure() {
            text.append(self.mode.failure_notice_str());
            (self.halt(), text)
        } else {
            let Harness {
                mode,
                stage,
                library_path_var,
                sysroot,
                targets,
                fixtures,
                runnable,
                ignored,
                tallies,
                failed,
            } = self;
            let (target, fixture) = match stage {
                Stage::Running { target, fixture } => (target, fixture),
                _ => (0, 0),
            };
            let label = mode.label_str();
            let mut tallies = tallies;
            let counted = tallies[target].record(success);
            tallies.set(target, counted);
            let failed = failed || !success;
            if fixture + 1 < runnable.len() {
                let line = test_line_string(label, runnable[fixture + 1].as_str());
                text.append(line.as_str());
                let harness = Harness {
                    mode,
                    stage: Stage::Running { target, fixture: fixture + 1 },
                    library_path_var,
                    sysroot,
                    targets,
                    fixtures,
                    runnable,
                    ignored,
                    tallies,
                    failed,
                };
                (harness, text)
            } else {
                let closing = summary_string(label, counted);
                text.append(closing.as_str());
                if target + 1 < targets.len() {
                    tallies.push(Tally::new(ignored));
                    let opening = banner_string(targets[target + 1].as_str());
                    text.append(opening.as_str());
                    let line = test_line_string(label, runnable[0].as_str());
                    text.append(line.as_str());
                    let harness = Harness {
                        mode,
                        stage: Stage::Running { target: target + 1, fixture: 0 },
                        library_path_var,
                        sysroot,
                        targets,
                        fixtures,
                        runnable,
                        ignored,
                        tallies,
                        failed,
                    };
                    (harness, text)
                } else {
                    if failed {
                        text.append(mode.failure_notice_str());
                    }
                    let harness = Harness {
                        mode,
                        stage: Stage::Done,
                        library_path_var,
                        sysroot,
                        targets,
                        fixtures,
                        runnable,
                        ignored,
                        tallies,
                        failed,
                    };
                    (harness, text)
                }
            }
        }
    }

    /// Takes in the conformance runner's judgement.
    fn judge(self, ok: bool) -> (r: (Harness, String))
        requires
            self@.stage is Delegating,
        ensures
            r.0@ == self@.judged(ok),
            r.1@ == self@.report(Event::Judged(ok)),
    {
        proof {
            use_type_invariant(&self);
            lemma_next_valid(self@, Event::Judged(ok));
        }
        let target = match self.stage {
            Stage::Delegating { target } => target,
            _ => 0,
        };
        if !ok {
            let text = String::from_str(self.mode.failure_notice_str());
            (self.halt(), text)
        } else if self.mode == Mode::CompileFail && target + 1 < self.targets.len() {
            let text = banner_string(self.targets[target + 1].as_str());
            (Harness { stage: Stage::Delegating { target: target + 1 }, ..self }, text)
        } else {
            (Harness { stage: Stage::Done, ..self }, String::new())
        }
    }

    /// Takes in that what was asked for could not be read.
    fn lose(self, reason: &String) -> (r: (Harness, String))
        requires
            self@.stage is ListingTargets || self@.stage is ListingFixtures
                || self@.stage is Classifying,
        ensures
            r.0@ == self@.halted(),
            r.1@ == self@.report(Event::Unavailable(*reason)),
    {
        proof {
            use_type_invariant(&self);
        }
        let text = match self.stage {
            Stage::ListingTargets => {
                let dir = rustlib_dir_of(self.sysroot.as_str());
                unavailable_string(dir.as_str(), reason.as_str())
            },
            Stage::Classifying { fixture } => unavailable_string(
                self.fixtures[fixture].as_str(),
                reason.as_str(),
            ),
            _ => unavailable_string(self.mode.fixture_dir_str(), reason.as_str()),
        };
        (self.halt(), text)
    }

    /// Tells the harness what came of its request. Gives the state in which
    /// the run goes on and the text to report.
    pub fn advance(self, event: Event) -> (r: (Harness, String))
        ensures
            r.0@ == self@.next(event),
            r.1@ == self@.report(event),
            r.0@.inv(),
    {
        proof {
            use_type_invariant(&self);
            lemma_next_valid(self@, event);
        }
        match self.stage {
            Stage::Resolving => match event {
                Event::Environment(env) => self.resolve(&env),
                _ => (self, String::new()),
            },
            Stage::ListingTargets => match event {
                Event::Listing(entries) => self.list_targets(&entries),
                Event::Unavailable(reason) => self.lose(&reason),
                _ => (self, String::new()),
            },
            Stage::ListingFixtures => match event {
                Event::Listing(entries) => self.list_fixtures(&entries),
                Event::Unavailable(reason) => self.lose(&reason),
                _ => (self, String::new()),
            },
            Stage::Classifying { .. } => match event {
                Event::Content(content) => self.classify(&content),
                Event::Unavailable(reason) => self.lose(&reason),
                _ => (self, String::new()),
            },
            Stage::Running { .. } => match event {
                Event::Outcome(outcome) => self.run(&outcome),
                _ => (self, String::new()),
            },
            Stage::Delegating { .. } => match event {
                Event::Judged(ok) => self.judge(ok),
                _ => (self, String::new()),
            },
            Stage::Done => (self, String::new()),
        }
    }
}

} // verus!
