//! Tiered backoff between attempts to open the connection pool.
//!
//! The pause between two attempts is derived once from the retry window: a
//! tenth of the window in whole seconds, held between a short and a long
//! fixed pause. The tiers are coarse on purpose; the pause never leaves the
//! range from `SHORT_PAUSE_SECS` to `LONG_PAUSE_SECS`, however long the window.

use vstd::prelude::*;

verus! {

/// Nanoseconds in one second.
pub const NANOS_PER_SEC: u128 = 1_000_000_000;

/// The pause used when a tenth of the retry window is below `LOW_TENTH_SECS`.
pub const SHORT_PAUSE_SECS: u64 = 5;

/// The pause used when a tenth of the retry window is above `HIGH_TENTH_SECS`.
pub const LONG_PAUSE_SECS: u64 = 60;

/// Tenths below this many seconds fall in the short tier.
pub const LOW_TENTH_SECS: u64 = 10;

/// Tenths above this many seconds fall in the long tier.
pub const HIGH_TENTH_SECS: u64 = 30;

/// The pause, in seconds, between two attempts for a retry window of
/// `window_secs` whole seconds.
pub open spec fn pause_secs(window_secs: nat) -> nat {
    let tenth = window_secs / 10;
    if tenth < LOW_TENTH_SECS {
        SHORT_PAUSE_SECS as nat
    } else if tenth > HIGH_TENTH_SECS {
        LONG_PAUSE_SECS as nat
    } else {
        tenth
    }
}

/// The whole seconds in a span of `nanos` nanoseconds.
pub open spec fn whole_secs(nanos: nat) -> nat {
    nanos / (NANOS_PER_SEC as nat)
}

/// Computes the pause between two attempts from the retry window in whole
/// seconds.
pub fn backoff_interval(window_secs: u64) -> (secs: u64)
    ensures
        secs == pause_secs(window_secs as nat),
{
    let tenth: u64 = window_secs / 10;
    if tenth < LOW_TENTH_SECS {
        SHORT_PAUSE_SECS
    } else if tenth > HIGH_TENTH_SECS {
        LONG_PAUSE_SECS
    } else {
        tenth
    }
}

/// Computes the pause between two attempts from the retry window in
/// nanoseconds. Only the whole seconds of the window count.
pub fn backoff_interval_for(window_nanos: u128) -> (secs: u64)
    ensures
        secs == pause_secs(whole_secs(window_nanos as nat)),
{
    let secs: u128 = window_nanos / NANOS_PER_SEC;
    if secs <= u64::MAX as u128 {
        backoff_interval(secs as u64)
    } else {
        LONG_PAUSE_SECS
    }
}

/// Turns whole seconds into nanoseconds.
pub fn secs_to_nanos(secs: u64) -> (nanos: u128)
    ensures
        nanos == secs * NANOS_PER_SEC,
        whole_secs(nanos as nat) == secs,
{
    (secs as u128) * NANOS_PER_SEC
}

/// The pause is held between the short and the long fixed pause, whatever the
/// retry window.
pub proof fn law_pause_is_bounded(window_secs: nat)
    ensures
        SHORT_PAUSE_SECS <= pause_secs(window_secs) <= LONG_PAUSE_SECS,
{
}

/// The three tiers: a tenth below the low threshold gives the short pause, a
/// tenth above the high threshold gives the long pause, and any tenth between
/// the two is the pause itself.
pub proof fn law_pause_tiers(window_secs: nat)
    ensures
        window_secs / 10 < LOW_TENTH_SECS ==> pause_secs(window_secs) == SHORT_PAUSE_SECS,
        window_secs / 10 > HIGH_TENTH_SECS ==> pause_secs(window_secs) == LONG_PAUSE_SECS,
        LOW_TENTH_SECS <= window_secs / 10 <= HIGH_TENTH_SECS ==> pause_secs(window_secs)
            == window_secs / 10,
{
}

/// A longer retry window never gives a shorter pause.
pub proof fn law_pause_is_monotonic(shorter: nat, longer: nat)
    requires
        shorter <= longer,
    ensures
        pause_secs(shorter) <= pause_secs(longer),
{
}

} // verus!
