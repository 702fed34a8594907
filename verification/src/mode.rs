//! The harness's modes and the policy of each.

use vstd::prelude::*;

verus! {

/// What the fixtures of a run are expected to do.
#[derive(Clone, Copy, Debug, PartialEq, Eq, Structural)]
pub enum Mode {
    /// The fixtures must fail to compile; the conformance runner judges them.
    CompileFail,
    /// The fixtures must compile; failures are counted and the run goes on.
    CompilePass,
    /// The fixtures must compile and run; the conformance runner judges them.
    RunPass,
    /// The fixtures must compile and execute; the first failure ends the run.
    MiriPass,
}

impl Mode {
    /// The mode's name in reports.
    pub open spec fn label(self) -> Seq<char> {
        match self {
            Mode::CompileFail => "compile-fail"@,
            Mode::CompilePass => "compile-pass"@,
            Mode::RunPass => "run-pass"@,
            Mode::MiriPass => "miri-pass"@,
        }
    }

    /// The directory that holds the mode's fixtures.
    pub open spec fn fixture_dir(self) -> Seq<char> {
        match self {
            Mode::CompileFail => "tests/compile-fail"@,
            Mode::CompilePass => "tests/compile-pass"@,
            Mode::RunPass => "tests/run-pass"@,
            Mode::MiriPass => "tests/run-pass"@,
        }
    }

    /// Whether the harness hands the fixtures to the conformance runner
    /// instead of invoking the compiler itself.
    #[verifier::allow_in_spec]
    pub fn delegates(self) -> bool
        returns
            self == Mode::CompileFail || self == Mode::RunPass,
    {
        self == Mode::CompileFail || self == Mode::RunPass
    }

    /// Whether the mode needs the toolchain's sysroot and targets.
    #[verifier::allow_in_spec]
    pub fn needs_toolchain(self) -> bool
        returns
            self != Mode::RunPass,
    {
        self != Mode::RunPass
    }

    /// Whether a fixture that holds the ignore marker is skipped.
    #[verifier::allow_in_spec]
    pub fn honors_marker(self) -> bool
        returns
            self == Mode::CompilePass,
    {
        self == Mode::CompilePass
    }

    /// Whether the compiler is told the target explicitly.
    #[verifier::allow_in_spec]
    pub fn selects_target(self) -> bool
        returns
            self == Mode::MiriPass,
    {
        self == Mode::MiriPass
    }

    /// Whether the first failing fixture ends the whole run.
    #[verifier::allow_in_spec]
    pub fn aborts_on_failure(self) -> bool
        returns
            self == Mode::MiriPass,
    {
        self == Mode::MiriPass
    }

    /// What is reported when the run ends in failure.
    pub open spec fn failure_notice(self) -> Seq<char> {
        if self == Mode::CompilePass {
            "some compile-pass tests failed\n"@
        } else {
            "some tests failed\n"@
        }
    }

    /// The mode's name in reports.
    pub fn label_str(self) -> (name: &'static str)
        ensures
            name@ == self.label(),
    {
        match self {
            Mode::CompileFail => "compile-fail",
            Mode::CompilePass => "compile-pass",
            Mode::RunPass => "run-pass",
            Mode::MiriPass => "miri-pass",
        }
    }

    /// The directory that holds the mode's fixtures.
    pub fn fixture_dir_str(self) -> (dir: &'static str)
        ensures
            dir@ == self.fixture_dir(),
    {
        match self {
            Mode::CompileFail => "tests/compile-fail",
            Mode::CompilePass => "tests/compile-pass",
            Mode::RunPass => "tests/run-pass",
            Mode::MiriPass => "tests/run-pass",
        }
    }

    /// What is reported when the run ends in failure.
    pub fn failure_notice_str(self) -> (text: &'static str)
        ensures
            text@ == self.failure_notice(),
    {
        match self {
            Mode::CompilePass => "some compile-pass tests failed\n",
            _ => "some tests failed\n",
        }
    }
}

} // verus!
