//! Time as the overlay sees it: nanoseconds on a monotonic clock whose
//! origin the caller chooses, and the fixed cadences of the loop.

use vstd::prelude::*;

verus! {

pub const NANOS_PER_SECOND: u64 = 1_000_000_000;

/// Length of the frame-counting window.
pub const FPS_WINDOW: u64 = NANOS_PER_SECOND;

/// Shortest time between two telemetry polls.
pub const REFRESH_INTERVAL: u64 = NANOS_PER_SECOND;

/// Repaint delay, in milliseconds, requested while the panel is shown.
pub const VISIBLE_REPAINT_MILLIS: u64 = 16;

/// Repaint delay, in milliseconds, requested while the panel is hidden.
pub const HIDDEN_REPAINT_MILLIS: u64 = 1000;

/// Time that has passed at `now` since `since`; zero if `since` is the
/// later of the two.
pub open spec fn elapsed(now: u64, since: u64) -> nat {
    if now >= since {
        (now - since) as nat
    } else {
        0
    }
}

/// Time that has passed at `now` since `since`.
pub fn elapsed_since(now: u64, since: u64) -> (e: u64)
    ensures
        e == elapsed(now, since),
{
    if now >= since {
        now - since
    } else {
        0
    }
}

} // verus!
