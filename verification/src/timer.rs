use vstd::prelude::*;

use crate::Status;

verus! {

/// Milliseconds of one timer tick: each timer is eligible to decrement at
/// 60 ticks per second.
pub const TICK_MILLIS: u64 = 1000 / 60;

/// A timer counter after one tick under the given run status: while Running
/// a nonzero counter decrements by one and a zero counter stays clamped at
/// 0; any other status holds the counter steady.
pub open spec fn spec_tick(status: Status, value: u8) -> u8 {
    if status == Status::Running && value > 0 {
        (value - 1) as u8
    } else {
        value
    }
}

/// A timer counter after `n` ticks under a constant run status.
pub open spec fn spec_ticks(status: Status, value: u8, n: nat) -> u8
    decreases n,
{
    if n == 0 {
        value
    } else {
        spec_tick(status, spec_ticks(status, value, (n - 1) as nat))
    }
}

/// The per-tick decision of a timer task, taken after its real-time sleep:
/// the counter's next value, and whether the task keeps running. Stopped
/// commands a permanent exit; the driver must not tick this timer again
/// after a `false`.
pub fn timer_tick(status: &Status, value: u8) -> (r: (u8, bool))
    ensures
        r.0 == spec_tick(*status, value),
        r.1 == (*status != Status::Stopped),
{
    let keep = *status != Status::Stopped;
    let next = if *status == Status::Running && value > 0 {
        value - 1
    } else {
        value
    };
    (next, keep)
}

} // verus!
