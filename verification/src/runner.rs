//! Invoking the compiler on one fixture, and configuring the conformance
//! runner: what is handed to each, and how the compiler's answer is read.

use crate::listing::views;
use crate::toolchain::{library_path, library_path_of, target_lib_dir, target_lib_dir_of};
use vstd::prelude::*;

verus! {

/// How one invocation of the compiler ended.
#[derive(Clone, Debug, PartialEq, Eq)]
pub enum RunOutcome {
    /// The compiler ran and exited; `code` is `None` where a signal ended it.
    Exited { code: Option<i32>, stdout: String, stderr: String },
    /// The compiler could not be started.
    LaunchFailed { reason: String },
}

/// The three ways in which an invocation can end.
#[derive(Clone, Copy, Debug, PartialEq, Eq, Structural)]
pub enum OutcomeClass {
    /// The compiler exited with status zero.
    Success,
    /// The compiler exited with another status, or was ended by a signal.
    ReportedFailure,
    /// The compiler could not be started.
    LaunchFailure,
}

impl RunOutcome {
    /// The class of the outcome.
    pub open spec fn class(&self) -> OutcomeClass {
        match *self {
            RunOutcome::Exited { code, .. } => if code == Some(0i32) {
                OutcomeClass::Success
            } else {
                OutcomeClass::ReportedFailure
            },
            RunOutcome::LaunchFailed { .. } => OutcomeClass::LaunchFailure,
        }
    }

    /// Whether the compiler accepted the fixture.
    pub open spec fn succeeded(&self) -> bool {
        self.class() == OutcomeClass::Success
    }

    /// Tells success, reported failure and launch failure apart.
    pub fn classify(&self) -> (class: OutcomeClass)
        ensures
            class == self.class(),
    {
        match self {
            RunOutcome::Exited { code, .. } => match code {
                Some(status) => if *status == 0 {
                    OutcomeClass::Success
                } else {
                    OutcomeClass::ReportedFailure
                },
                None => OutcomeClass::ReportedFailure,
            },
            RunOutcome::LaunchFailed { .. } => OutcomeClass::LaunchFailure,
        }
    }

    /// Whether the compiler accepted the fixture.
    pub fn is_success(&self) -> (r: bool)
        ensures
            r == self.succeeded(),
    {
        match self.classify() {
            OutcomeClass::Success => true,
            _ => false,
        }
    }
}

/// The compiler binary under test.
pub open spec fn compiler() -> Seq<char> {
    "target/debug/mir2wasm"@
}

/// The flag that makes the compiler treat warnings as errors.
pub open spec fn deny_warnings() -> Seq<char> {
    "-Dwarnings"@
}

/// The flag that selects `target`.
pub open spec fn target_flag(target: Seq<char>) -> Seq<char> {
    "--target="@ + target
}

/// Whether `name` is one of the environment variables in which a platform
/// looks for the directories of its dynamic libraries.
pub open spec fn is_library_path_variable(name: Seq<char>) -> bool {
    ||| name == "PATH"@
    ||| name == "DYLD_LIBRARY_PATH"@
    ||| name == "LIBRARY_PATH"@
    ||| name == "LD_LIBRARY_PATH"@
}

/// Calls `compiletest_rs::runtest::dylib_env_var`, which gives the name of
/// the environment variable that holds the locations of dynamic libraries.
/// That function picks among four names by the platform it was built for;
/// the contract claims no more than that the result is one of the four.
#[verifier::external_body]
pub(crate) fn dylib_env_var() -> (name: String)
    ensures
        is_library_path_variable(name@),
{
    compiletest_rs::runtest::dylib_env_var().to_string()
}

/// One invocation of the compiler.
#[derive(Clone, Debug, PartialEq, Eq)]
pub struct Invocation {
    /// The binary to start.
    pub program: String,
    /// Its arguments, in order.
    pub args: Vec<String>,
    /// The environment variable that carries the dynamic-library search path.
    pub library_path_var: String,
    /// The directories of the dynamic-library search path, in order.
    pub library_path: Vec<String>,
}

/// An invocation as plain sequences.
pub struct InvocationView {
    pub program: Seq<char>,
    pub args: Seq<Seq<char>>,
    pub library_path_var: Seq<char>,
    pub library_path: Seq<Seq<char>>,
}

impl View for Invocation {
    type V = InvocationView;

    open spec fn view(&self) -> InvocationView {
        InvocationView {
            program: self.program@,
            args: views(self.args@),
            library_path_var: self.library_path_var@,
            library_path: views(self.library_path@),
        }
    }
}

/// The invocation of the compiler on `fixture` for `target`: the fixture's
/// path, then the flag against warnings, then the target flag where it is
/// asked for; the search path, carried by the variable `library_path_var`,
/// holds the general library directory before the target's.
pub open spec fn invocation_for(
    fixture: Seq<char>,
    sysroot: Seq<char>,
    target: Seq<char>,
    select_target: bool,
    library_path_var: Seq<char>,
) -> InvocationView {
    InvocationView {
        program: compiler(),
        args: if select_target {
            seq![fixture, deny_warnings(), target_flag(target)]
        } else {
            seq![fixture, deny_warnings()]
        },
        library_path_var,
        library_path: library_path(sysroot, target),
    }
}

impl Invocation {
    /// Assembles the invocation of the compiler on `fixture` for `target`.
    pub fn new(
        fixture: &str,
        sysroot: &str,
        target: &str,
        select_target: bool,
        library_path_var: &str,
    ) -> (invocation: Invocation)
        ensures
            invocation@ == invocation_for(
                fixture@,
                sysroot@,
                target@,
                select_target,
                library_path_var@,
            ),
    {
        let mut args: Vec<String> = Vec::new();
        args.push(String::from_str(fixture));
        args.push(String::from_str("-Dwarnings"));
        if select_target {
            let mut flag = String::from_str("--target=");
            flag.append(target);
            args.push(flag);
        }
        let invocation = Invocation {
            program: String::from_str("target/debug/mir2wasm"),
            args,
            library_path_var: String::from_str(library_path_var),
            library_path: library_path_of(sysroot, target),
        };
        assert(invocation@.args =~= invocation_for(
            fixture@,
            sysroot@,
            target@,
            select_target,
            library_path_var@,
        ).args);
        invocation
    }
}

/// The two modes in which the conformance runner judges fixtures.
#[derive(Clone, Copy, Debug, PartialEq, Eq, Structural)]
pub enum RunnerMode {
    /// Every fixture must fail to compile.
    CompileFail,
    /// Every fixture must compile and run.
    RunPass,
}

impl RunnerMode {
    /// The name by which the runner knows the mode.
    pub open spec fn tag(self) -> Seq<char> {
        match self {
            RunnerMode::CompileFail => "compile-fail"@,
            RunnerMode::RunPass => "run-pass"@,
        }
    }

    /// The name by which the runner knows the mode.
    pub fn tag_str(self) -> (tag: &'static str)
        ensures
            tag@ == self.tag(),
    {
        match self {
            RunnerMode::CompileFail => "compile-fail",
            RunnerMode::RunPass => "run-pass",
        }
    }
}

/// What the conformance runner is configured with. A field that is `None`
/// keeps the runner's default.
#[derive(Clone, Debug, PartialEq, Eq)]
pub struct RunnerConfig {
    /// How the runner judges the fixtures.
    pub mode: RunnerMode,
    /// The directory that holds the fixtures.
    pub src_base: String,
    /// The compiler binary.
    pub rustc_path: Option<String>,
    /// The flags handed to the compiler, for host and target alike.
    pub flags: Option<String>,
    /// The target to compile for.
    pub target: Option<String>,
    /// The directory of the target's dynamic libraries.
    pub run_lib_path: Option<String>,
}

/// A runner configuration as plain sequences.
pub struct RunnerConfigView {
    pub mode: RunnerMode,
    pub src_base: Seq<char>,
    pub rustc_path: Option<Seq<char>>,
    pub flags: Option<Seq<char>>,
    pub target: Option<Seq<char>>,
    pub run_lib_path: Option<Seq<char>>,
}

/// The view of an optional string.
pub open spec fn optional_view(s: Option<String>) -> Option<Seq<char>> {
    match s {
        Some(s) => Some(s@),
        None => None,
    }
}

impl View for RunnerConfig {
    type V = RunnerConfigView;

    open spec fn view(&self) -> RunnerConfigView {
        RunnerConfigView {
            mode: self.mode,
            src_base: self.src_base@,
            rustc_path: optional_view(self.rustc_path),
            flags: optional_view(self.flags),
            target: optional_view(self.target),
            run_lib_path: optional_view(self.run_lib_path),
        }
    }
}

/// The flags that the compiler gets from the runner.
pub open spec fn runner_flags(sysroot: Seq<char>) -> Seq<char> {
    "--sysroot "@ + sysroot + " -Dwarnings"@
}

/// The configuration under which the runner judges the fixtures that must
/// fail to compile, for one target.
pub open spec fn compile_fail_config(sysroot: Seq<char>, target: Seq<char>) -> RunnerConfigView {
    RunnerConfigView {
        mode: RunnerMode::CompileFail,
        src_base: "tests/compile-fail"@,
        rustc_path: Some(compiler()),
        flags: Some(runner_flags(sysroot)),
        target: Some(target),
        run_lib_path: Some(target_lib_dir(sysroot, target)),
    }
}

/// The configuration under which the runner judges the fixtures that must
/// compile and run: its defaults, but for the mode and the directory.
pub open spec fn run_pass_config() -> RunnerConfigView {
    RunnerConfigView {
        mode: RunnerMode::RunPass,
        src_base: "tests/run-pass"@,
        rustc_path: None,
        flags: None,
        target: None,
        run_lib_path: None,
    }
}

impl RunnerConfig {
    /// Configures the runner for the fixtures that must fail to compile, for
    /// one target.
    pub fn compile_fail(sysroot: &str, target: &str) -> (config: RunnerConfig)
        ensures
            config@ == compile_fail_config(sysroot@, target@),
    {
        let mut flags = String::from_str("--sysroot ");
        flags.append(sysroot);
        flags.append(" -Dwarnings");
        RunnerConfig {
            mode: RunnerMode::CompileFail,
            src_base: String::from_str("tests/compile-fail"),
            rustc_path: Some(String::from_str("target/debug/mir2wasm")),
            flags: Some(flags),
            target: Some(String::from_str(target)),
            run_lib_path: Some(target_lib_dir_of(sysroot, target)),
        }
    }

    /// Configures the runner for the fixtures that must compile and run.
    pub fn run_pass() -> (config: RunnerConfig)
        ensures
            config@ == run_pass_config(),
    {
        RunnerConfig {
            mode: RunnerMode::RunPass,
            src_base: String::from_str("tests/run-pass"),
            rustc_path: None,
            flags: None,
            target: None,
            run_lib_path: None,
        }
    }
}

} // verus!
