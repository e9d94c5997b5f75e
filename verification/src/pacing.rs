//! Pacing for the playback loop: every tick renders one frame on each
//! player, measures how long that took, and sleeps for whatever is left of
//! the fixed frame interval. An overrun is never compensated — the loop
//! proceeds at once and frames are effectively dropped, never fast-forwarded.

use vstd::prelude::*;

verus! {

/// How long a tick still has to sleep: the remainder of the frame interval
/// after the elapsed render time, or zero when the tick overran its budget.
pub fn sleep_remainder(frame_interval_micros: u64, elapsed_micros: u64) -> (r: u64)
    ensures
        r == if elapsed_micros < frame_interval_micros {
            frame_interval_micros - elapsed_micros
        } else {
            0int
        },
{
    if elapsed_micros < frame_interval_micros {
        frame_interval_micros - elapsed_micros
    } else {
        0
    }
}

} // verus!
