use conformance_harness::harness::{Event, Harness, Request, Stage};
use conformance_harness::listing::{DirEntry, EntryKind};
use conformance_harness::mode::Mode;
use conformance_harness::runner::{Invocation, RunOutcome, RunnerConfig, RunnerMode};
use conformance_harness::tally::Tally;
use conformance_harness::toolchain::Environment;
use std::path::PathBuf;

/// What the stubbed outside world answers.
struct World<'a> {
    sysroot: Option<&'a str>,
    targets: Result<Vec<DirEntry>, String>,
    fixtures: Result<Vec<DirEntry>, String>,
    read: &'a dyn Fn(&str) -> Result<String, String>,
    compiler: &'a dyn Fn(&Invocation) -> RunOutcome,
    judge: &'a dyn Fn(&RunnerConfig) -> bool,
}

/// What a run asked for and what came of it.
struct Run {
    harness: Harness,
    report: String,
    requests: Vec<Request>,
    code: i32,
}

fn dir(name: &str) -> DirEntry {
    DirEntry { name: name.to_string(), kind: EntryKind::Directory }
}

fn file(name: &str) -> DirEntry {
    DirEntry { name: name.to_string(), kind: EntryKind::File }
}

fn exit_with(code: i32, stderr: &str) -> RunOutcome {
    RunOutcome::Exited { code: Some(code), stdout: String::new(), stderr: stderr.to_string() }
}

fn environment(sysroot: Option<&str>) -> Environment {
    Environment {
        rustup_home: None,
        multirust_home: None,
        rustup_toolchain: None,
        multirust_toolchain: None,
        rust_sysroot: sysroot.map(|s| s.to_string()),
    }
}

fn no_marker(_: &str) -> Result<String, String> {
    Ok("fn main() {}\n".to_string())
}

fn marker_in_skip(path: &str) -> Result<String, String> {
    if path.contains("skip") {
        Ok("// xfail\nfn main() {}\n".to_string())
    } else {
        Ok("fn main() {}\n".to_string())
    }
}

fn always_zero(_: &Invocation) -> RunOutcome {
    exit_with(0, "")
}

fn always_one(_: &Invocation) -> RunOutcome {
    exit_with(1, "boom")
}

fn one_for_bad(invocation: &Invocation) -> RunOutcome {
    if invocation.args[0].contains("bad") {
        exit_with(1, "boom")
    } else {
        exit_with(0, "")
    }
}

fn never_invoked(invocation: &Invocation) -> RunOutcome {
    panic!("the compiler was invoked on {}", invocation.args[0])
}

fn in_order(_: &RunnerConfig) -> bool {
    true
}

fn world<'a>(targets: &[&str], fixtures: &[&str]) -> World<'a> {
    World {
        sysroot: Some("/sys"),
        targets: Ok(targets.iter().map(|t| dir(t)).collect()),
        fixtures: Ok(fixtures.iter().map(|f| file(f)).collect()),
        read: &no_marker,
        compiler: &always_zero,
        judge: &in_order,
    }
}

fn answer(world: &World, request: Request) -> Event {
    match request {
        Request::Environment => Event::Environment(environment(world.sysroot)),
        Request::List { dir } => {
            let listing = if dir.ends_with("/lib/rustlib/") {
                world.targets.clone()
            } else {
                world.fixtures.clone()
            };
            match listing {
                Ok(entries) => Event::Listing(entries),
                Err(reason) => Event::Unavailable(reason),
            }
        }
        Request::Read { path } => match (world.read)(&path) {
            Ok(content) => Event::Content(content),
            Err(reason) => Event::Unavailable(reason),
        },
        Request::Spawn { invocation } => Event::Outcome((world.compiler)(&invocation)),
        Request::Delegate { config } => Event::Judged((world.judge)(&config)),
        Request::Exit { .. } => unreachable!(),
    }
}

fn drive(mode: Mode, world: &World) -> Run {
    let mut harness = Harness::start(mode);
    let mut report = String::new();
    let mut requests = Vec::new();
    loop {
        let request = harness.pending();
        requests.push(request.clone());
        assert!(requests.len() < 1000);
        if let Request::Exit { code } = request {
            return Run { harness, report, requests, code };
        }
        let (next, text) = harness.advance(answer(world, request));
        harness = next;
        report.push_str(&text);
    }
}

fn spawned(run: &Run) -> Vec<String> {
    let mut paths = Vec::new();
    for request in &run.requests {
        if let Request::Spawn { invocation } = request {
            paths.push(invocation.args[0].clone());
        }
    }
    paths
}

fn library_path_var() -> String {
    compiletest_rs::runtest::dylib_env_var().to_string()
}

#[test]
fn empty_test() {
    // Passes whenever the test harness itself runs.
}

#[test]
fn compile_pass() {
    let mut w = world(&["t1"], &["good.rs", "skip.rs"]);
    w.read = &marker_in_skip;
    let run = drive(Mode::CompilePass, &w);
    assert_eq!(run.harness.tallies(), &vec![Tally { passed: 1, failed: 0, ignored: 1 }]);
    assert_eq!(run.code, 0);
    assert_eq!(
        run.report,
        "running tests for target t1\n\
         test [compile-pass] tests/compile-pass/good.rs ... ok\n\
         compile-pass: 1 passed; 0 failed; 1 ignored\n"
    );
    assert_eq!(
        run.requests,
        vec![
            Request::Environment,
            Request::List { dir: "/sys/lib/rustlib/".to_string() },
            Request::List { dir: "tests/compile-pass".to_string() },
            Request::Read { path: "tests/compile-pass/good.rs".to_string() },
            Request::Read { path: "tests/compile-pass/skip.rs".to_string() },
            Request::Spawn {
                invocation: Invocation {
                    program: "target/debug/mir2wasm".to_string(),
                    args: vec!["tests/compile-pass/good.rs".to_string(), "-Dwarnings".to_string()],
                    library_path_var: library_path_var(),
                    library_path: vec![
                        "/sys/lib".to_string(),
                        "/sys/lib/rustlib/t1/lib".to_string(),
                    ],
                },
            },
            Request::Exit { code: 0 },
        ]
    );
}

#[test]
fn run_pass() {
    let run = drive(Mode::RunPass, &world(&[], &[]));
    assert_eq!(
        run.requests,
        vec![Request::Delegate { config: RunnerConfig::run_pass() }, Request::Exit { code: 0 }]
    );
    assert_eq!(run.report, "");
    let asked = RunnerConfig::run_pass();
    let mut config = compiletest_rs::Config::default();
    config.mode = asked.mode.tag_str().parse().expect("Invalid mode");
    config.src_base = PathBuf::from(asked.src_base);
    assert_eq!(asked.mode, RunnerMode::RunPass);
    assert_eq!(config.mode, compiletest_rs::common::Mode::RunPass);
    assert_eq!(config.src_base, PathBuf::from("tests/run-pass".to_string()));
}

#[test]
fn compile_fail() {
    let mut w = world(&["a", "etc", "b"], &[]);
    w.compiler = &never_invoked;
    let run = drive(Mode::CompileFail, &w);
    assert_eq!(
        run.requests,
        vec![
            Request::Environment,
            Request::List { dir: "/sys/lib/rustlib/".to_string() },
            Request::Delegate { config: RunnerConfig::compile_fail("/sys", "a") },
            Request::Delegate { config: RunnerConfig::compile_fail("/sys", "b") },
            Request::Exit { code: 0 },
        ]
    );
    assert_eq!(run.report, "running tests for target a\nrunning tests for target b\n");
    assert!(run.harness.tallies().is_empty());
    let asked = RunnerConfig::compile_fail("/sys", "a");
    let mut config = compiletest_rs::Config::default();
    config.mode = asked.mode.tag_str().parse().expect("Invalid mode");
    assert_eq!(config.mode, compiletest_rs::common::Mode::CompileFail);
    assert_eq!(asked.flags, Some("--sysroot /sys -Dwarnings".to_string()));
    assert_eq!(asked.run_lib_path, Some("/sys/lib/rustlib/a/lib".to_string()));
    assert_eq!(asked.rustc_path, Some("target/debug/mir2wasm".to_string()));
    assert_eq!(asked.src_base, "tests/compile-fail");
}

#[test]
fn miri_run_pass() {
    let mut w = world(&["t1", "t2"], &["ok.rs", "bad.rs", "ok2.rs"]);
    w.compiler = &one_for_bad;
    w.read = &|path| panic!("{} was read", path);
    let run = drive(Mode::MiriPass, &w);
    assert_eq!(
        spawned(&run),
        vec!["tests/run-pass/ok.rs".to_string(), "tests/run-pass/bad.rs".to_string()]
    );
    assert_eq!(run.code, 1);
    assert!(run.harness.has_failed());
    assert_eq!(run.harness.tallies(), &vec![Tally { passed: 1, failed: 0, ignored: 0 }]);
    assert_eq!(
        run.report,
        "running tests for target t1\n\
         test [miri-pass] tests/run-pass/ok.rs ... ok\n\
         test [miri-pass] tests/run-pass/bad.rs ... FAILED with exit code Some(1)\n\
         stdout: \n \nstderr: \n boom\n\
         some tests failed\n"
    );
    assert_eq!(
        run.requests[3],
        Request::Spawn {
            invocation: Invocation {
                program: "target/debug/mir2wasm".to_string(),
                args: vec![
                    "tests/run-pass/ok.rs".to_string(),
                    "-Dwarnings".to_string(),
                    "--target=t1".to_string(),
                ],
                library_path_var: library_path_var(),
                library_path: vec!["/sys/lib".to_string(), "/sys/lib/rustlib/t1/lib".to_string()],
            },
        }
    );
}

#[test]
fn execute_mode_visits_every_target_when_all_pass() {
    let run = drive(Mode::MiriPass, &world(&["t1", "t2"], &["a.rs", "b.rs"]));
    assert_eq!(run.code, 0);
    assert_eq!(
        run.harness.tallies(),
        &vec![Tally { passed: 2, failed: 0, ignored: 0 }, Tally { passed: 2, failed: 0, ignored: 0 }]
    );
    assert_eq!(
        run.report,
        "running tests for target t1\n\
         test [miri-pass] tests/run-pass/a.rs ... ok\n\
         test [miri-pass] tests/run-pass/b.rs ... ok\n\
         miri-pass: 2 passed; 0 failed; 0 ignored\n\
         running tests for target t2\n\
         test [miri-pass] tests/run-pass/a.rs ... ok\n\
         test [miri-pass] tests/run-pass/b.rs ... ok\n\
         miri-pass: 2 passed; 0 failed; 0 ignored\n"
    );
}

#[test]
fn execute_mode_does_not_honor_the_marker() {
    let mut w = world(&["t1"], &["skip.rs"]);
    w.read = &marker_in_skip;
    let run = drive(Mode::MiriPass, &w);
    assert_eq!(spawned(&run), vec!["tests/run-pass/skip.rs".to_string()]);
    assert_eq!(run.harness.tallies(), &vec![Tally { passed: 1, failed: 0, ignored: 0 }]);
    assert!(run.requests.iter().all(|r| !matches!(r, Request::Read { .. })));
}

#[test]
fn execute_mode_aborts_on_a_launch_failure() {
    let mut w = world(&["t1", "t2"], &["a.rs", "b.rs"]);
    w.compiler = &|_| RunOutcome::LaunchFailed { reason: "No such file".to_string() };
    let run = drive(Mode::MiriPass, &w);
    assert_eq!(spawned(&run), vec!["tests/run-pass/a.rs".to_string()]);
    assert_eq!(run.code, 1);
    assert_eq!(
        run.report,
        "running tests for target t1\n\
         test [miri-pass] tests/run-pass/a.rs ... FAILED: No such file\n\
         some tests failed\n"
    );
}

#[test]
fn a_compiler_that_exits_zero_passes_every_unmarked_fixture() {
    let run = drive(Mode::CompilePass, &world(&["t1", "t2"], &["a.rs", "b.rs", "c.rs"]));
    assert_eq!(
        run.harness.tallies(),
        &vec![Tally { passed: 3, failed: 0, ignored: 0 }, Tally { passed: 3, failed: 0, ignored: 0 }]
    );
    assert_eq!(run.code, 0);
    assert!(!run.harness.has_failed());
}

#[test]
fn a_compiler_that_exits_one_fails_every_unmarked_fixture() {
    let mut w = world(&["t1", "t2"], &["a.rs", "b.rs"]);
    w.compiler = &always_one;
    let run = drive(Mode::CompilePass, &w);
    assert_eq!(
        run.harness.tallies(),
        &vec![Tally { passed: 0, failed: 2, ignored: 0 }, Tally { passed: 0, failed: 2, ignored: 0 }]
    );
    assert_ne!(run.code, 0);
    assert_eq!(run.code, 1);
    assert_eq!(
        run.report,
        "running tests for target t1\n\
         test [compile-pass] tests/compile-pass/a.rs ... FAILED with exit code Some(1)\n\
         stdout: \n \nstderr: \n boom\n\
         test [compile-pass] tests/compile-pass/b.rs ... FAILED with exit code Some(1)\n\
         stdout: \n \nstderr: \n boom\n\
         compile-pass: 0 passed; 2 failed; 0 ignored\n\
         running tests for target t2\n\
         test [compile-pass] tests/compile-pass/a.rs ... FAILED with exit code Some(1)\n\
         stdout: \n \nstderr: \n boom\n\
         test [compile-pass] tests/compile-pass/b.rs ... FAILED with exit code Some(1)\n\
         stdout: \n \nstderr: \n boom\n\
         compile-pass: 0 passed; 2 failed; 0 ignored\n\
         some compile-pass tests failed\n"
    );
}

#[test]
fn a_failure_is_counted_and_the_run_goes_on() {
    let mut w = world(&["t1", "t2"], &["a.rs", "bad.rs", "c.rs"]);
    w.compiler = &one_for_bad;
    let run = drive(Mode::CompilePass, &w);
    assert_eq!(spawned(&run).len(), 6);
    assert_eq!(
        run.harness.tallies(),
        &vec![Tally { passed: 2, failed: 1, ignored: 0 }, Tally { passed: 2, failed: 1, ignored: 0 }]
    );
    assert_eq!(run.code, 1);
}

#[test]
fn a_launch_failure_is_counted_as_failed() {
    let mut w = world(&["t1"], &["a.rs"]);
    w.compiler = &|_| RunOutcome::LaunchFailed { reason: "No such file".to_string() };
    let run = drive(Mode::CompilePass, &w);
    assert_eq!(run.harness.tallies(), &vec![Tally { passed: 0, failed: 1, ignored: 0 }]);
    assert_eq!(run.code, 1);
    assert_eq!(
        run.report,
        "running tests for target t1\n\
         test [compile-pass] tests/compile-pass/a.rs ... FAILED: No such file\n\
         compile-pass: 0 passed; 1 failed; 0 ignored\n\
         some compile-pass tests failed\n"
    );
}

#[test]
fn a_marked_fixture_is_ignored_and_never_invoked() {
    let mut w = world(&["t1", "t2"], &["skip.rs", "skip2.rs"]);
    w.read = &marker_in_skip;
    w.compiler = &never_invoked;
    let run = drive(Mode::CompilePass, &w);
    assert!(spawned(&run).is_empty());
    assert_eq!(run.harness.ignored(), 2);
    assert_eq!(
        run.harness.tallies(),
        &vec![Tally { passed: 0, failed: 0, ignored: 2 }, Tally { passed: 0, failed: 0, ignored: 2 }]
    );
    assert_eq!(run.code, 0);
    assert_eq!(
        run.report,
        "running tests for target t1\ncompile-pass: 0 passed; 0 failed; 2 ignored\n\
         running tests for target t2\ncompile-pass: 0 passed; 0 failed; 2 ignored\n"
    );
}

#[test]
fn marked_fixtures_among_others_are_passed_over() {
    let mut w = world(&["t1", "t2"], &["skip.rs", "a.rs", "skip2.rs", "b.rs"]);
    w.read = &marker_in_skip;
    let run = drive(Mode::CompilePass, &w);
    assert_eq!(
        spawned(&run),
        vec![
            "tests/compile-pass/a.rs".to_string(),
            "tests/compile-pass/b.rs".to_string(),
            "tests/compile-pass/a.rs".to_string(),
            "tests/compile-pass/b.rs".to_string(),
        ]
    );
    let reads =
        run.requests.iter().filter(|r| matches!(r, Request::Read { .. })).count();
    assert_eq!(reads, 4);
}

#[test]
fn the_counters_of_a_tally_sum_to_the_number_of_fixtures() {
    let mut w = world(
        &["t1", "t2", "t3"],
        &["a.rs", "skip.rs", "bad.rs", "notes.txt", "b.rs", "skip2.rs"],
    );
    w.read = &marker_in_skip;
    w.compiler = &one_for_bad;
    let run = drive(Mode::CompilePass, &w);
    assert_eq!(run.harness.fixtures().len(), 5);
    assert_eq!(run.harness.tallies().len(), 3);
    for tally in run.harness.tallies() {
        assert_eq!(*tally, Tally { passed: 2, failed: 1, ignored: 2 });
        assert_eq!(tally.passed + tally.failed + tally.ignored, 5);
    }
}

#[test]
fn a_run_without_targets_does_nothing() {
    let mut w = world(&[], &["a.rs"]);
    w.targets = Ok(vec![dir("etc"), file("notes.txt")]);
    w.compiler = &never_invoked;
    let run = drive(Mode::CompilePass, &w);
    assert_eq!(
        run.requests,
        vec![
            Request::Environment,
            Request::List { dir: "/sys/lib/rustlib/".to_string() },
            Request::Exit { code: 0 },
        ]
    );
    assert_eq!(run.report, "");
    assert!(run.harness.tallies().is_empty());
}

#[test]
fn a_run_without_fixtures_reports_each_target() {
    let mut w = world(&["t1", "t2"], &[]);
    w.fixtures = Ok(vec![dir("aux.rs"), file("README")]);
    let run = drive(Mode::CompilePass, &w);
    assert_eq!(run.code, 0);
    assert_eq!(
        run.harness.tallies(),
        &vec![Tally { passed: 0, failed: 0, ignored: 0 }, Tally { passed: 0, failed: 0, ignored: 0 }]
    );
    assert_eq!(
        run.report,
        "running tests for target t1\ncompile-pass: 0 passed; 0 failed; 0 ignored\n\
         running tests for target t2\ncompile-pass: 0 passed; 0 failed; 0 ignored\n"
    );
}

#[test]
fn targets_come_from_the_listing() {
    let mut w = world(&[], &["a.rs"]);
    w.targets = Ok(vec![dir("a"), dir("b"), dir("etc"), file("notes.txt")]);
    let run = drive(Mode::CompilePass, &w);
    assert_eq!(run.harness.targets(), &vec!["a".to_string(), "b".to_string()]);
    assert_eq!(run.harness.tallies().len(), 2);
}

#[test]
fn a_missing_sysroot_ends_the_run() {
    let mut w = world(&["t1"], &["a.rs"]);
    w.sysroot = None;
    w.compiler = &never_invoked;
    let run = drive(Mode::CompilePass, &w);
    assert_eq!(run.requests, vec![Request::Environment, Request::Exit { code: 1 }]);
    assert_eq!(
        run.report,
        "need to specify RUST_SYSROOT env var or use rustup or multirust\n"
    );
}

#[test]
fn an_unlistable_target_directory_ends_the_run() {
    let mut w = world(&[], &["a.rs"]);
    w.targets = Err("permission denied".to_string());
    w.compiler = &never_invoked;
    let run = drive(Mode::CompilePass, &w);
    assert_eq!(run.code, 1);
    assert_eq!(run.requests.len(), 3);
    assert_eq!(run.report, "could not read /sys/lib/rustlib/: permission denied\n");
}

#[test]
fn an_unlistable_fixture_directory_ends_the_run() {
    let mut w = world(&["t1"], &[]);
    w.fixtures = Err("not found".to_string());
    w.compiler = &never_invoked;
    let run = drive(Mode::MiriPass, &w);
    assert_eq!(run.code, 1);
    assert_eq!(run.report, "could not read tests/run-pass: not found\n");
}

#[test]
fn an_unreadable_fixture_ends_the_run() {
    let mut w = world(&["t1"], &["a.rs", "locked.rs", "b.rs"]);
    w.read = &|path| {
        if path.contains("locked") {
            Err("permission denied".to_string())
        } else {
            Ok(String::new())
        }
    };
    w.compiler = &never_invoked;
    let run = drive(Mode::CompilePass, &w);
    assert_eq!(run.code, 1);
    assert_eq!(
        run.report,
        "could not read tests/compile-pass/locked.rs: permission denied\n"
    );
    assert_eq!(
        run.requests[run.requests.len() - 2],
        Request::Read { path: "tests/compile-pass/locked.rs".to_string() }
    );
}

#[test]
fn a_failing_judgement_ends_the_run() {
    let mut w = world(&["a", "b", "c"], &[]);
    w.judge = &|config| config.target != Some("b".to_string());
    let run = drive(Mode::CompileFail, &w);
    assert_eq!(run.code, 1);
    let delegated =
        run.requests.iter().filter(|r| matches!(r, Request::Delegate { .. })).count();
    assert_eq!(delegated, 2);
    assert_eq!(
        run.report,
        "running tests for target a\nrunning tests for target b\nsome tests failed\n"
    );
    let mut w = world(&[], &[]);
    w.judge = &|_| false;
    assert_eq!(drive(Mode::RunPass, &w).code, 1);
}

#[test]
fn an_event_that_answers_nothing_changes_nothing() {
    let harness = Harness::start(Mode::CompilePass);
    let (harness, text) = harness.advance(Event::Judged(true));
    assert_eq!(text, "");
    assert_eq!(harness.stage(), Stage::Resolving);
    let (harness, text) = harness.advance(Event::Content("xfail".to_string()));
    assert_eq!(text, "");
    let (harness, text) = harness.advance(Event::Unavailable("gone".to_string()));
    assert_eq!(text, "");
    let (harness, text) = harness.advance(Event::Outcome(exit_with(1, "")));
    assert_eq!(text, "");
    assert_eq!(harness.pending(), Request::Environment);
    assert!(!harness.has_failed());
    let (harness, _) = harness.advance(Event::Environment(environment(Some("/sys"))));
    assert_eq!(harness.stage(), Stage::ListingTargets);
    let (harness, text) = harness.advance(Event::Environment(environment(None)));
    assert_eq!(text, "");
    assert_eq!(harness.pending(), Request::List { dir: "/sys/lib/rustlib/".to_string() });
}

#[test]
fn a_finished_run_stays_finished() {
    let mut w = world(&["t1"], &["bad.rs", "ok.rs"]);
    w.compiler = &one_for_bad;
    let run = drive(Mode::MiriPass, &w);
    let tallies = run.harness.tallies().clone();
    let (harness, text) = run.harness.advance(Event::Outcome(exit_with(0, "")));
    assert_eq!(text, "");
    let (harness, text) = harness.advance(Event::Listing(vec![file("more.rs")]));
    assert_eq!(text, "");
    assert!(harness.is_done());
    assert_eq!(harness.stage(), Stage::Done);
    assert_eq!(harness.pending(), Request::Exit { code: 1 });
    assert_eq!(harness.tallies(), &tallies);
}

#[test]
fn stages_follow_one_another() {
    let harness = Harness::start(Mode::CompilePass);
    assert_eq!(harness.mode(), Mode::CompilePass);
    assert_eq!(harness.stage(), Stage::Resolving);
    let (harness, _) = harness.advance(Event::Environment(environment(Some("/sys"))));
    assert_eq!(harness.stage(), Stage::ListingTargets);
    let (harness, _) = harness.advance(Event::Listing(vec![dir("t1"), dir("t2")]));
    assert_eq!(harness.stage(), Stage::ListingFixtures);
    assert_eq!(harness.pending(), Request::List { dir: "tests/compile-pass".to_string() });
    let (harness, _) = harness.advance(Event::Listing(vec![file("a.rs"), file("b.rs")]));
    assert_eq!(harness.stage(), Stage::Classifying { fixture: 0 });
    let (harness, _) = harness.advance(Event::Content("xfail".to_string()));
    assert_eq!(harness.stage(), Stage::Classifying { fixture: 1 });
    assert_eq!(harness.ignored(), 1);
    let (harness, text) = harness.advance(Event::Content(String::new()));
    assert_eq!(harness.stage(), Stage::Running { target: 0, fixture: 0 });
    assert_eq!(
        text,
        "running tests for target t1\ntest [compile-pass] tests/compile-pass/b.rs ... "
    );
    let (harness, text) = harness.advance(Event::Outcome(exit_with(0, "")));
    assert_eq!(harness.stage(), Stage::Running { target: 1, fixture: 0 });
    assert_eq!(
        text,
        "ok\ncompile-pass: 1 passed; 0 failed; 1 ignored\n\
         running tests for target t2\ntest [compile-pass] tests/compile-pass/b.rs ... "
    );
    assert_eq!(
        harness.tallies(),
        &vec![Tally { passed: 1, failed: 0, ignored: 1 }, Tally { passed: 0, failed: 0, ignored: 1 }]
    );
    let (harness, text) = harness.advance(Event::Outcome(exit_with(2, "no")));
    assert!(harness.is_done());
    assert_eq!(
        text,
        "FAILED with exit code Some(2)\nstdout: \n \nstderr: \n no\n\
         compile-pass: 0 passed; 1 failed; 1 ignored\nsome compile-pass tests failed\n"
    );
    assert_eq!(harness.pending(), Request::Exit { code: 1 });
}

#[test]
fn the_search_path_variable_is_the_runner_s() {
    let run = drive(Mode::CompilePass, &world(&["t1"], &["a.rs"]));
    let names = ["PATH", "DYLD_LIBRARY_PATH", "LIBRARY_PATH", "LD_LIBRARY_PATH"];
    let mut seen = 0;
    for request in &run.requests {
        if let Request::Spawn { invocation } = request {
            assert_eq!(invocation.library_path_var, compiletest_rs::runtest::dylib_env_var());
            assert!(names.contains(&invocation.library_path_var.as_str()));
            seen += 1;
        }
    }
    assert_eq!(seen, 1);
}
