//! Counting how the fixtures of one target fared.

use vstd::prelude::*;

verus! {

/// How many fixtures of one target passed, failed and were ignored.
#[derive(Clone, Copy, Debug, PartialEq, Eq, Structural)]
pub struct Tally {
    /// Fixtures that the compiler accepted.
    pub passed: usize,
    /// Fixtures that the compiler rejected or that could not be launched.
    pub failed: usize,
    /// Fixtures that hold the ignore marker.
    pub ignored: usize,
}

impl Tally {
    /// How many fixtures the tally accounts for.
    pub open spec fn total(self) -> nat {
        (self.passed + self.failed + self.ignored) as nat
    }

    /// The tally of a target none of whose fixtures has run yet.
    pub open spec fn fresh(ignored: usize) -> Tally {
        Tally { passed: 0, failed: 0, ignored }
    }

    /// The tally with the result of one more fixture counted.
    pub open spec fn counting(self, success: bool) -> Tally {
        if success {
            Tally { passed: (self.passed + 1) as usize, ..self }
        } else {
            Tally { failed: (self.failed + 1) as usize, ..self }
        }
    }

    /// The tally of a target none of whose fixtures has run yet.
    pub fn new(ignored: usize) -> (tally: Tally)
        ensures
            tally == Tally::fresh(ignored),
    {
        Tally { passed: 0, failed: 0, ignored }
    }

    /// Counts the result of one more fixture.
    pub fn record(self, success: bool) -> (tally: Tally)
        requires
            self.total() < usize::MAX,
        ensures
            tally == self.counting(success),
            tally.total() == self.total() + 1,
    {
        if success {
            Tally { passed: self.passed + 1, failed: self.failed, ignored: self.ignored }
        } else {
            Tally { passed: self.passed, failed: self.failed + 1, ignored: self.ignored }
        }
    }
}

} // verus!
