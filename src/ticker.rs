//! The event loop's fixed-rate schedule.
use vstd::prelude::*;

verus! {

/// The tick period, in milliseconds.
pub const TICK_MS: u64 = 250;

/// How long to wait for input, given the time since the last tick: what is
/// left of the tick period, clamped at zero.
pub fn wait_budget_ms(elapsed_ms: u64) -> (r: u64)
    ensures
        elapsed_ms >= TICK_MS ==> r == 0,
        elapsed_ms < TICK_MS ==> r == TICK_MS - elapsed_ms,
        r <= TICK_MS,
{
    if elapsed_ms >= TICK_MS {
        0
    } else {
        TICK_MS - elapsed_ms
    }
}

/// Whether a tick is due, given the time since the last one.
pub fn tick_due(elapsed_ms: u64) -> (r: bool)
    ensures
        r == (elapsed_ms >= TICK_MS),
{
    elapsed_ms >= TICK_MS
}

} // verus!
