//! The staleness policy: when a dump has to be taken again.

use vstd::prelude::*;
use crate::clock::{StalenessThreshold, Timestamp};
use crate::domain::time_view;

verus! {

/// Whether a dump taken at `captured_at` is stale at `now` under `threshold`.
///
/// A dump that was never taken is always stale. Otherwise it is stale once
/// strictly more than `threshold` has elapsed since it was taken: at an age of
/// exactly `threshold` it is still fresh. A dump stamped later than `now`
/// (the clock stepped back) has a negative age and is fresh.
pub open spec fn stale(captured_at: Option<nat>, now: nat, threshold: nat) -> bool {
    match captured_at {
        None => true,
        Some(taken) => now - taken > threshold,
    }
}

/// Decides whether a refresh is required.
pub fn is_stale(captured_at: Option<Timestamp>, now: Timestamp, threshold: StalenessThreshold) -> (
    required: bool
)
    ensures
        required == stale(time_view(captured_at), now@, threshold@),
{
    match captured_at {
        None => true,
        Some(taken) => now.nanos > taken.nanos && now.nanos - taken.nanos > threshold.nanos,
    }
}

/// A dump that was never taken is stale at every time and under every
/// threshold.
pub proof fn never_refreshed_is_stale(now: nat, threshold: nat)
    ensures
        stale(None, now, threshold),
{
}

/// The first delay after `now` at which a dump taken at `captured_at`, still
/// fresh at `now`, turns stale: one tick past what is left of the threshold.
pub open spec fn first_stale_delay(captured_at: nat, now: nat, threshold: nat) -> int {
    threshold - (now - captured_at) + 1
}

/// A fresh dump turns stale as time goes on, and stays stale.
///
/// For a dump taken no later than `now` and fresh at `now`, there is a delay
/// greater than zero, and no greater than the threshold and one tick, from
/// which on the dump is stale; at every delay `d` before it the dump is fresh.
pub proof fn staleness_is_monotone(captured_at: nat, now: nat, threshold: nat, d: nat)
    requires
        captured_at <= now,
        !stale(Some(captured_at), now, threshold),
    ensures
        0 < first_stale_delay(captured_at, now, threshold) <= threshold + 1,
        stale(Some(captured_at), now + d, threshold) <==> d >= first_stale_delay(
            captured_at,
            now,
            threshold,
        ),
{
}

/// Once stale, always stale: time alone never makes a dump fresh again.
pub proof fn stale_stays_stale(captured_at: Option<nat>, now: nat, later: nat, threshold: nat)
    requires
        now <= later,
        stale(captured_at, now, threshold),
    ensures
        stale(captured_at, later, threshold),
{
}

} // verus!
