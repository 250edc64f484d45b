//! Points in time and the staleness threshold, both counted in nanoseconds.

use vstd::prelude::*;

verus! {

/// Nanoseconds in one second.
pub const NANOS_PER_SEC: u128 = 1_000_000_000;

/// The threshold of the deployed service: a quarter of an hour, in seconds.
pub const QUARTER_HOUR_SECS: u64 = 900;

/// A point in time: nanoseconds elapsed since the UNIX epoch.
#[derive(Clone, Copy, Debug, PartialEq, Eq, Structural)]
pub struct Timestamp {
    pub nanos: u128,
}

impl View for Timestamp {
    type V = nat;

    open spec fn view(&self) -> nat {
        self.nanos as nat
    }
}

impl Timestamp {
    /// The point `nanos` nanoseconds after the epoch.
    pub fn from_nanos(nanos: u128) -> (t: Timestamp)
        ensures
            t@ == nanos,
    {
        Timestamp { nanos }
    }

    /// The point `secs` whole seconds after the epoch.
    pub fn from_secs(secs: u64) -> (t: Timestamp)
        ensures
            t@ == secs * NANOS_PER_SEC,
    {
        Timestamp { nanos: secs as u128 * NANOS_PER_SEC }
    }
}

/// The greatest age a dump may reach before it has to be taken again.
#[derive(Clone, Copy, Debug, PartialEq, Eq, Structural)]
pub struct StalenessThreshold {
    pub nanos: u128,
}

impl View for StalenessThreshold {
    type V = nat;

    open spec fn view(&self) -> nat {
        self.nanos as nat
    }
}

impl StalenessThreshold {
    /// A threshold of `nanos` nanoseconds.
    pub fn from_nanos(nanos: u128) -> (t: StalenessThreshold)
        ensures
            t@ == nanos,
    {
        StalenessThreshold { nanos }
    }

    /// A threshold of `secs` whole seconds.
    pub fn from_secs(secs: u64) -> (t: StalenessThreshold)
        ensures
            t@ == secs * NANOS_PER_SEC,
    {
        StalenessThreshold { nanos: secs as u128 * NANOS_PER_SEC }
    }

    /// The quarter of an hour that the service runs with.
    pub fn quarter_hour() -> (t: StalenessThreshold)
        ensures
            t@ == QUARTER_HOUR_SECS * NANOS_PER_SEC,
    {
        StalenessThreshold::from_secs(QUARTER_HOUR_SECS)
    }
}

} // verus!
