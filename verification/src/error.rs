//! What can go wrong while a request is served. None of it is fatal: each
//! failure ends one request, and the next request starts afresh.

use vstd::prelude::*;

verus! {

/// Why a run of the export program did not give a dump.
#[derive(Clone, Copy, Debug, PartialEq, Eq, Structural)]
pub enum ProcessFailure {
    /// The program could not be launched, or its output could not be read.
    NotStarted,
    /// The program ran and ended with this exit code, which is not zero.
    ExitedWith(i32),
    /// The program was ended from outside and left no exit code.
    Killed,
    /// The program did not finish within the time allowed.
    TimedOut,
}

/// A refresh that failed. The snapshot held before it is still in place.
#[derive(Clone, Copy, Debug, PartialEq, Eq, Structural)]
pub enum RefreshError {
    /// The export program did not succeed.
    ProcessFailed(ProcessFailure),
}

/// A request that cannot be answered with a dump.
#[derive(Clone, Copy, Debug, PartialEq, Eq, Structural)]
pub enum CacheError {
    /// The refresh that this request started failed.
    ProcessFailed(ProcessFailure),
    /// There is no data to serve: no refresh ever succeeded, or the last one
    /// gave no output.
    EmptySnapshot,
    /// The lock around the shared state could not be taken.
    Lock,
}

impl CacheError {
    /// The request's error for a refresh that failed.
    pub fn from_refresh(error: RefreshError) -> (e: CacheError)
        ensures
            e == refresh_failed(error),
    {
        match error {
            RefreshError::ProcessFailed(cause) => CacheError::ProcessFailed(cause),
        }
    }
}

/// A failed refresh as the request that started it reports it.
pub open spec fn refresh_failed(error: RefreshError) -> CacheError {
    match error {
        RefreshError::ProcessFailed(cause) => CacheError::ProcessFailed(cause),
    }
}

} // verus!
