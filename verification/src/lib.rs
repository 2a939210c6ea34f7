//! The execution engine of a small 8-bit virtual machine: instruction
//! fetch, decode and dispatch, the per-opcode state transitions with their
//! architecture-variant quirks, the two countdown timers' tick rule, and
//! the run-status decisions of the execution loop.
//!
//! The machine is plain data ([`emulator::Emulator`]) and every transition
//! is an explicit, verified call whose contract pins the whole observable
//! effect ([`semantics::step_rel`]). A driver supplies what cannot live
//! here: real time, threads, rendering and input capture. It shares the
//! machine behind a reader/writer lock, ticks the timers at 60 Hz through
//! [`timer::timer_tick`], throttles execution with [`control`]'s
//! decisions, and polls the key vector while a wait-for-key instruction
//! reports [`emulator::StepResult::WaitingForKey`].

use vstd::prelude::*;

pub mod control;
pub mod decode;
pub mod emulator;
pub mod laws;
pub mod loader;
pub mod semantics;
pub mod timer;

verus! {

/// Run status of the virtual machine, driven by an external controller.
///
/// `Stopped` is terminal: every task that observes it must exit and never
/// resume. `Paused` freezes instruction execution and timer decrements
/// without ending any task.
#[derive(Clone, Copy, PartialEq, Eq, Structural, Debug)]
pub enum Status {
    Starting,
    Running,
    Paused,
    Stopped,
}

} // verus!
