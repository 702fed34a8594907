//! The text of the harness's report.

use crate::listing::views;
use crate::runner::RunOutcome;
use crate::tally::Tally;
use crate::text::{decimal, decimal_string, signed_decimal, signed_decimal_string};
use vstd::prelude::*;

verus! {

/// The line that opens the report on a target.
pub open spec fn banner(target: Seq<char>) -> Seq<char> {
    "running tests for target "@ + target + "\n"@
}

/// The start of a fixture's line, written before the compiler runs.
pub open spec fn test_line(label: Seq<char>, path: Seq<char>) -> Seq<char> {
    "test ["@ + label + "] "@ + path + " ... "@
}

/// An exit status as the report shows it.
pub open spec fn exit_code_text(code: Option<i32>) -> Seq<char> {
    match code {
        Some(status) => "Some("@ + signed_decimal(status as int) + ")"@,
        None => "None"@,
    }
}

/// The end of a fixture's line: `ok` after a success; after a failure the
/// exit status and what the compiler wrote, or why it could not be started.
pub open spec fn outcome_text(outcome: RunOutcome) -> Seq<char> {
    match outcome {
        RunOutcome::Exited { code, stdout, stderr } => if code == Some(0i32) {
            "ok\n"@
        } else {
            "FAILED with exit code "@ + exit_code_text(code) + "\nstdout: \n "@ + stdout@
                + "\nstderr: \n "@ + stderr@ + "\n"@
        },
        RunOutcome::LaunchFailed { reason } => "FAILED: "@ + reason@ + "\n"@,
    }
}

/// The line that sums up a target.
pub open spec fn summary(label: Seq<char>, tally: Tally) -> Seq<char> {
    label + ": "@ + decimal(tally.passed as nat) + " passed; "@ + decimal(tally.failed as nat)
        + " failed; "@ + decimal(tally.ignored as nat) + " ignored\n"@
}

/// The line that says that something the harness needs could not be read.
pub open spec fn unavailable(what: Seq<char>, reason: Seq<char>) -> Seq<char> {
    "could not read "@ + what + ": "@ + reason + "\n"@
}

/// The report on a run in which no fixture is invoked: for each target its
/// opening line and its summary.
pub open spec fn idle_report(label: Seq<char>, targets: Seq<Seq<char>>, tally: Tally) -> Seq<char>
    decreases targets.len(),
{
    if targets.len() == 0 {
        Seq::empty()
    } else {
        idle_report(label, targets.drop_last(), tally) + banner(targets.last()) + summary(
            label,
            tally,
        )
    }
}

/// Writes the line that opens the report on a target.
pub fn banner_string(target: &str) -> (text: String)
    ensures
        text@ == banner(target@),
{
    let mut text = String::from_str("running tests for target ");
    text.append(target);
    text.append("\n");
    text
}

/// Writes the start of a fixture's line.
pub fn test_line_string(label: &str, path: &str) -> (text: String)
    ensures
        text@ == test_line(label@, path@),
{
    let mut text = String::from_str("test [");
    text.append(label);
    text.append("] ");
    text.append(path);
    text.append(" ... ");
    text
}

/// Writes an exit status as the report shows it.
pub fn exit_code_string(code: Option<i32>) -> (text: String)
    ensures
        text@ == exit_code_text(code),
{
    match code {
        Some(status) => {
            let mut text = String::from_str("Some(");
            let digits = signed_decimal_string(status);
            text.append(digits.as_str());
            text.append(")");
            text
        },
        None => String::from_str("None"),
    }
}

/// Writes the end of a fixture's line.
pub fn outcome_string(outcome: &RunOutcome) -> (text: String)
    ensures
        text@ == outcome_text(*outcome),
{
    match outcome {
        RunOutcome::Exited { code, stdout, stderr } => {
            if outcome.is_success() {
                String::from_str("ok\n")
            } else {
                let mut text = String::from_str("FAILED with exit code ");
                let status = exit_code_string(*code);
                text.append(status.as_str());
                text.append("\nstdout: \n ");
                text.append(stdout.as_str());
                text.append("\nstderr: \n ");
                text.append(stderr.as_str());
                text.append("\n");
                text
            }
        },
        RunOutcome::LaunchFailed { reason } => {
            let mut text = String::from_str("FAILED: ");
            text.append(reason.as_str());
            text.append("\n");
            text
        },
    }
}

/// Writes the line that sums up a target.
pub fn summary_string(label: &str, tally: Tally) -> (text: String)
    ensures
        text@ == summary(label@, tally),
{
    let mut text = String::from_str(label);
    text.append(": ");
    let passed = decimal_string(tally.passed as u64);
    text.append(passed.as_str());
    text.append(" passed; ");
    let failed = decimal_string(tally.failed as u64);
    text.append(failed.as_str());
    text.append(" failed; ");
    let ignored = decimal_string(tally.ignored as u64);
    text.append(ignored.as_str());
    text.append(" ignored\n");
    text
}

/// Writes the line that says that something could not be read.
pub fn unavailable_string(what: &str, reason: &str) -> (text: String)
    ensures
        text@ == unavailable(what@, reason@),
{
    let mut text = String::from_str("could not read ");
    text.append(what);
    text.append(": ");
    text.append(reason);
    text.append("\n");
    text
}

/// Writes the report on a run in which no fixture is invoked.
pub fn idle_report_string(label: &str, targets: &Vec<String>, tally: Tally) -> (text: String)
    ensures
        text@ == idle_report(label@, views(targets@), tally),
{
    let ghost names = views(targets@);
    let mut text = String::new();
    let mut i: usize = 0;
    assert(names.take(0) =~= Seq::<Seq<char>>::empty());
    while i < targets.len()
        invariant
            i <= targets.len(),
            names == views(targets@),
            text@ == idle_report(label@, names.take(i as int), tally),
        decreases targets.len() - i,
    {
        let opening = banner_string(targets[i].as_str());
        let closing = summary_string(label, tally);
        proof {
            let seen = names.take(i + 1);
            assert(seen.drop_last() =~= names.take(i as int));
            assert(seen.last() == targets@[i as int]@);
        }
        text.append(opening.as_str());
        text.append(closing.as_str());
        i += 1;
    }
    assert(names.take(targets.len() as int) =~= names);
    text
}

} // verus!
