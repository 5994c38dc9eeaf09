//! Held-duration arithmetic for timed guards.
//!
//! Times are wall-clock readings in milliseconds. A guard stamps the reading
//! taken at the instant it was granted; on release the duration is the
//! difference to the reading taken then, clamped at zero should the clock
//! have moved backwards between the two readings.

use vstd::prelude::*;

verus! {

/// The duration a guard was held, given the clock reading at grant time and
/// the reading at release time: their difference, or zero when the clock ran
/// backwards.
pub open spec fn spec_held_duration(acquired_at: u64, released_at: u64) -> u64 {
    if released_at >= acquired_at {
        (released_at - acquired_at) as u64
    } else {
        0u64
    }
}

/// Computes the held duration from the two clock readings.
pub fn held_duration_millis(acquired_at: u64, released_at: u64) -> (d: u64)
    ensures
        d == spec_held_duration(acquired_at, released_at),
{
    if released_at >= acquired_at {
        released_at - acquired_at
    } else {
        0
    }
}

/// A reported held-duration is never negative, and it is at least the time
/// demonstrably spent between grant and release: whenever at least `waited`
/// milliseconds passed on the clock between the grant reading and the release
/// reading, the reported duration is at least `waited`.
pub proof fn lemma_duration_monotone(acquired_at: u64, released_at: u64, waited: u64)
    requires
        acquired_at + waited <= released_at,
    ensures
        spec_held_duration(acquired_at, released_at) >= 0,
        spec_held_duration(acquired_at, released_at) >= waited,
{
}

} // verus!
