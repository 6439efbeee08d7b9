//! Failures as values: every fallible function of the library returns one
//! of these in place of panicking.

use vstd::prelude::*;
use vstd::std_specs::cmp::PartialEqSpecImpl;

verus! {

/// The kinds of failure the library reports.
#[derive(Clone, Copy, PartialEq, Eq, Debug, Structural)]
pub enum TSErrorType {
    /// API data was unusable.
    UnusableAPIData,
    /// Something unexpected happened.
    RuntimeError,
    /// The maths were unsolveable.
    UnsolvableError,
}

/// A failure, returned as a value: its kind and a human-readable reason.
#[derive(Debug)]
pub struct TSError {
    /// What went wrong, in words.
    pub reason: String,
    /// The kind of failure.
    pub error_type: TSErrorType,
}

impl TSError {
    /// A failure of the given kind with the given reason.
    pub fn new(error_type: TSErrorType, reason: String) -> (r: TSError)
        ensures
            r.error_type == error_type,
            r.reason@ == reason@,
    {
        TSError { reason: reason, error_type: error_type }
    }
}

impl Clone for TSError {
    fn clone(&self) -> (r: TSError)
        ensures
            r == *self,
    {
        TSError { reason: self.reason.clone(), error_type: self.error_type }
    }
}

impl PartialEq for TSError {
    fn eq(&self, other: &TSError) -> (r: bool) {
        self.reason == other.reason && self.error_type == other.error_type
    }
}

impl PartialEqSpecImpl for TSError {
    open spec fn obeys_eq_spec() -> bool {
        true
    }

    open spec fn eq_spec(&self, other: &TSError) -> bool {
        self.reason@ == other.reason@ && self.error_type == other.error_type
    }
}

} // verus!
