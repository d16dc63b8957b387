//! The handshake that sequences the benchmark stages over the board's
//! signal lines.
//!
//! The firmware raises a ready line once setup is done, then runs each
//! benchmark stage gated by an external continue line: it waits for the line
//! to go high, runs the stage, raises its output line, waits for the line to
//! go low again, and lowers the output line before moving to the next stage.
//! After the last stage the cycle ends and the whole sequence restarts.
//!
//! The decisions of that polling loop are collected here as a step function
//! from the current phase and the sampled level of the continue line to the
//! next phase and the action the board must perform. The caller performs the
//! action (pin writes, delays, the benchmark bodies) and feeds back the next
//! sample.

use vstd::prelude::*;

verus! {

/// The benchmark stages, in the order they run within one cycle.
#[derive(Clone, Copy, Debug, PartialEq, Eq, Structural)]
pub enum Stage {
    /// Round-trip latency of the signal lines themselves: no computation.
    GpioRoundTrip,
    /// The worst-case bubble sort with its self-check.
    BubbleSort,
    /// Repeated fixed-size heap allocation and release.
    HeapChurn,
    /// A floating-point recurrence over a fixed-size buffer.
    FibRecurrence,
}

/// Where the control loop stands within one benchmark cycle.
#[derive(Clone, Copy, Debug, PartialEq, Eq, Structural)]
pub enum Phase {
    /// Output line is low; waiting for the continue line to go high to run
    /// the stage.
    AwaitStart(Stage),
    /// The stage has run and the output line is high; waiting for the
    /// continue line to go low.
    AwaitStop(Stage),
    /// Every stage of the cycle has run and been acknowledged.
    CycleDone,
}

/// What the board must do after a step.
#[derive(Clone, Copy, Debug, PartialEq, Eq, Structural)]
pub enum Action {
    /// Nothing yet: sample the continue line again.
    Poll,
    /// Run the given benchmark stage, then raise the output line.
    RunAndRaiseOutput(Stage),
    /// Lower the output line: ready for the next stage.
    LowerOutput,
    /// Lower the ready line, signal completion, and set up the next cycle.
    FinishCycle,
}

/// The stage that follows `s` within a cycle, or `None` after the last one.
pub open spec fn spec_next_stage(s: Stage) -> Option<Stage> {
    match s {
        Stage::GpioRoundTrip => Some(Stage::BubbleSort),
        Stage::BubbleSort => Some(Stage::HeapChurn),
        Stage::HeapChurn => Some(Stage::FibRecurrence),
        Stage::FibRecurrence => None,
    }
}

/// The transition table of the handshake: from the current phase and the
/// sampled level of the continue line to the next phase and the required
/// action.
pub open spec fn spec_step(phase: Phase, input_high: bool) -> (Phase, Action) {
    match phase {
        Phase::AwaitStart(s) => {
            if input_high {
                (Phase::AwaitStop(s), Action::RunAndRaiseOutput(s))
            } else {
                (Phase::AwaitStart(s), Action::Poll)
            }
        },
        Phase::AwaitStop(s) => {
            if input_high {
                (Phase::AwaitStop(s), Action::Poll)
            } else {
                match spec_next_stage(s) {
                    Some(n) => (Phase::AwaitStart(n), Action::LowerOutput),
                    None => (Phase::CycleDone, Action::LowerOutput),
                }
            }
        },
        Phase::CycleDone => (
            Phase::AwaitStart(Stage::GpioRoundTrip),
            Action::FinishCycle,
        ),
    }
}

/// The stage that follows `s` within a cycle, or `None` after the last one.
pub fn next_stage(s: Stage) -> (r: Option<Stage>)
    ensures
        r == spec_next_stage(s),
{
    match s {
        Stage::GpioRoundTrip => Some(Stage::BubbleSort),
        Stage::BubbleSort => Some(Stage::HeapChurn),
        Stage::HeapChurn => Some(Stage::FibRecurrence),
        Stage::FibRecurrence => None,
    }
}

/// The phase a cycle starts in: waiting to start the first stage.
pub fn initial_phase() -> (p: Phase)
    ensures
        p == Phase::AwaitStart(Stage::GpioRoundTrip),
{
    Phase::AwaitStart(Stage::GpioRoundTrip)
}

/// One step of the handshake. Returns the next phase and the action the
/// board must perform, exactly as the transition table gives them.
pub fn step(phase: Phase, input_high: bool) -> (r: (Phase, Action))
    ensures
        r == spec_step(phase, input_high),
{
    match phase {
        Phase::AwaitStart(s) => {
            if input_high {
                (Phase::AwaitStop(s), Action::RunAndRaiseOutput(s))
            } else {
                (Phase::AwaitStart(s), Action::Poll)
            }
        },
        Phase::AwaitStop(s) => {
            if input_high {
                (Phase::AwaitStop(s), Action::Poll)
            } else {
                match next_stage(s) {
                    Some(n) => (Phase::AwaitStart(n), Action::LowerOutput),
                    None => (Phase::CycleDone, Action::LowerOutput),
                }
            }
        },
        Phase::CycleDone => (
            Phase::AwaitStart(Stage::GpioRoundTrip),
            Action::FinishCycle,
        ),
    }
}

} // verus!
