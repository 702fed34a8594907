//! A conformance harness for a stand-alone compiler binary.
//!
//! The harness drives the compiler over directories of fixtures, one run for
//! each expectation: the fixtures must fail to compile, must compile, or
//! must compile and execute. It counts for each target of the toolchain how
//! the fixtures fared, reports as it goes, and ends with an exit code that
//! is zero exactly if nothing failed.
//!
//! The harness is a state machine ([`harness`]): it names the outside work
//! that it needs done and decides from the answers. [`toolchain`],
//! [`fixture`], [`runner`] and [`report`] hold what it decides with;
//! [`laws`] states what holds of every run. [`operators`] is the sample
//! program of the fixtures, with its arithmetic proved.

pub mod fixture;
pub mod harness;
pub mod laws;
pub mod listing;
pub mod mode;
pub mod operators;
pub mod report;
pub mod runner;
pub mod tally;
pub mod text;
pub mod toolchain;
