//! Why an uptime could not be had.

use vstd::prelude::*;

verus! {

/// The kinds of failure.
#[derive(Clone, Copy, Debug, PartialEq, Eq, Structural)]
pub enum ErrorKind {
    /// The source of the uptime could not be read.
    UnreadableSource,
    /// The source was read, and held no number where one was expected.
    MalformedData,
    /// The operating system reported a failure of its own.
    PlatformFailure,
    /// The platform has no known source of the uptime.
    UnsupportedPlatform,
}

/// A failure: its kind, and a description of the cause for a human reader.
#[derive(Debug)]
pub struct UptimeError {
    pub kind: ErrorKind,
    pub description: String,
}

/// What an [`UptimeError`] says: its kind and the characters of its
/// description.
pub ghost struct Failure {
    pub kind: ErrorKind,
    pub description: Seq<char>,
}

impl View for UptimeError {
    type V = Failure;

    open spec fn view(&self) -> Failure {
        Failure { kind: self.kind, description: self.description@ }
    }
}

impl UptimeError {
    /// A failure of the given kind with the given description.
    pub fn new(kind: ErrorKind, description: &str) -> (e: UptimeError)
        ensures
            e@ == (Failure { kind, description: description@ }),
    {
        UptimeError { kind, description: description.to_owned() }
    }
}

/// Whether the result `r` says what `said` says: the same number, or a
/// failure of the same kind with the same description.
pub open spec fn says<T>(r: Result<T, UptimeError>, said: Result<T, Failure>) -> bool {
    match said {
        Ok(value) => r == Ok::<T, UptimeError>(value),
        Err(failure) => r is Err && r->Err_0@ == failure,
    }
}

} // verus!
