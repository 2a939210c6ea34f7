use vstd::prelude::*;

use crate::Status;

verus! {

/// What the execution loop must do before its next instruction.
#[derive(Clone, Copy, PartialEq, Eq, Structural, Debug)]
pub enum RunControl {
    /// Execute the next instruction.
    Proceed,
    /// Poll again after a pause, without executing; Starting and Paused are
    /// non-terminal.
    Idle,
    /// Exit permanently.
    Terminate,
}

/// Instructions per throttling batch of the execution loop.
pub const OPS_PER_BATCH: u64 = 16;

/// Target instruction rate in instructions per second.
pub const TARGET_OPS_PER_SECOND: u64 = 600;

/// Milliseconds one batch should take to meet the target rate.
pub const BATCH_MILLIS: u64 = 1000 * 16 / 600;

/// Milliseconds the execution loop idles between run-status polls while
/// paused.
pub const IDLE_POLL_MILLIS: u64 = 250;

/// Milliseconds between key-vector samples while an execution context
/// waits for a key: the trade-off between input latency and idle load.
pub const KEY_POLL_MILLIS: u64 = 20;

/// The run-status decision taken once per loop iteration: Running proceeds,
/// Stopped terminates permanently, Starting and Paused idle.
pub open spec fn spec_run_control(s: Status) -> RunControl {
    if s == Status::Running {
        RunControl::Proceed
    } else if s == Status::Stopped {
        RunControl::Terminate
    } else {
        RunControl::Idle
    }
}

/// Decide what the execution loop does next from the observed run status.
pub fn run_control(status: &Status) -> (r: RunControl)
    ensures
        r == spec_run_control(*status),
{
    if *status == Status::Running {
        RunControl::Proceed
    } else if *status == Status::Stopped {
        RunControl::Terminate
    } else {
        RunControl::Idle
    }
}

/// The pause-toggle transition requested by the input collaborator:
/// Paused resumes, Running pauses, and the terminal or starting states are
/// left alone.
pub open spec fn spec_toggle_pause(s: Status) -> Status {
    if s == Status::Paused {
        Status::Running
    } else if s == Status::Running {
        Status::Paused
    } else {
        s
    }
}

/// Decide the run status after a pause toggle.
pub fn toggle_pause(status: &Status) -> (r: Status)
    ensures
        r == spec_toggle_pause(*status),
{
    if *status == Status::Paused {
        Status::Running
    } else if *status == Status::Running {
        Status::Paused
    } else {
        *status
    }
}

/// How long the loop must still sleep after a batch that took
/// `elapsed_ms`, to meet the target instruction rate.
pub fn batch_sleep_ms(elapsed_ms: u64) -> (r: u64)
    ensures
        r == (if elapsed_ms < BATCH_MILLIS {
            (BATCH_MILLIS - elapsed_ms) as u64
        } else {
            0u64
        }),
{
    if elapsed_ms < BATCH_MILLIS {
        BATCH_MILLIS - elapsed_ms
    } else {
        0
    }
}

} // verus!
