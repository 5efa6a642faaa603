//! Decisions of the renderer, the thread that redraws the cursor over the
//! static overlay at a fixed cadence. Each tick the thread gathers what it
//! observed and asks `decide_tick` what to do.

use vstd::prelude::*;

use crate::clock::ClockValue;

verus! {

/// Outcome of a non-blocking read of the clock.
#[derive(Clone, Copy, Debug, PartialEq, Eq, Structural)]
pub enum ClockRead {
    Value(ClockValue),
    /// The producer held the lock; nothing was read this tick.
    Busy,
    /// The lock is poisoned: the producer panicked while writing.
    Unavailable,
}

/// Outcome of a non-blocking read of the lifecycle flag.
#[derive(Clone, Copy, Debug, PartialEq, Eq, Structural)]
pub enum FlagRead {
    Running,
    Finished,
    /// The producer held the lock; nothing was read this tick.
    Busy,
    /// The lock is poisoned.
    Unavailable,
}

/// Why the renderer stopped.
#[derive(Clone, Copy, Debug, PartialEq, Eq, Structural)]
pub enum StopReason {
    /// The user closed the display or asked to exit.
    Cancelled,
    /// The clock went past the samples the renderer holds.
    PastEnd,
    /// The producer has finished.
    ProducerDone,
    /// The shared state can no longer be read.
    SharedStateLost,
}

/// What the renderer does in one tick.
#[derive(Clone, Copy, Debug, PartialEq, Eq, Structural)]
pub enum TickAction {
    /// Redraw the cursor at this index of the overlay's samples.
    Draw { cursor: usize },
    /// Keep the last frame and try again next tick.
    Skip,
    /// Leave the render loop.
    Stop(StopReason),
}

/// Error with which the renderer ends.
#[derive(Clone, Copy, Debug, PartialEq, Eq, Structural)]
pub enum RendererError {
    /// The clock or the flag could not be read any more.
    SharedStateLost,
    /// The frame could not be drawn or shown.
    Draw,
}

/// The tick's action, the termination checks taken in order: cancellation
/// first, then the clock past the end of the samples, then the producer's
/// finish. A poisoned lock ends the loop as soon as it is seen; a busy clock
/// or flag skips the redraw.
pub open spec fn tick_decision(cancel: bool, clock: ClockRead, flag: FlagRead, samples_len: usize) -> TickAction {
    if cancel {
        TickAction::Stop(StopReason::Cancelled)
    } else {
        match clock {
            ClockRead::Unavailable => TickAction::Stop(StopReason::SharedStateLost),
            ClockRead::Value(v) if v.sample_index >= samples_len => TickAction::Stop(StopReason::PastEnd),
            _ => match flag {
                FlagRead::Finished => TickAction::Stop(StopReason::ProducerDone),
                FlagRead::Unavailable => TickAction::Stop(StopReason::SharedStateLost),
                FlagRead::Busy => TickAction::Skip,
                FlagRead::Running => match clock {
                    ClockRead::Value(v) => TickAction::Draw { cursor: v.sample_index as usize },
                    _ => TickAction::Skip,
                },
            },
        }
    }
}

/// Decides one tick of the render loop from what the renderer saw: whether
/// the user cancelled, the clock read, the flag read and the number of samples
/// in the overlay. The cursor of a redraw is the clock's sample index, which
/// is then below `samples_len`.
pub fn decide_tick(cancel: bool, clock: ClockRead, flag: FlagRead, samples_len: usize) -> (r: TickAction)
    ensures
        r == tick_decision(cancel, clock, flag, samples_len),
        r matches TickAction::Draw { cursor } ==> cursor < samples_len,
{
    if cancel {
        return TickAction::Stop(StopReason::Cancelled);
    }
    match clock {
        ClockRead::Unavailable => TickAction::Stop(StopReason::SharedStateLost),
        ClockRead::Value(v) if v.sample_index >= samples_len as u64 => TickAction::Stop(
            StopReason::PastEnd,
        ),
        _ => match flag {
            FlagRead::Finished => TickAction::Stop(StopReason::ProducerDone),
            FlagRead::Unavailable => TickAction::Stop(StopReason::SharedStateLost),
            FlagRead::Busy => TickAction::Skip,
            FlagRead::Running => match clock {
                ClockRead::Value(v) => TickAction::Draw { cursor: v.sample_index as usize },
                _ => TickAction::Skip,
            },
        },
    }
}

/// The result of the render loop that stopped for `reason`: only a lost
/// shared state is an error.
pub fn stop_outcome(reason: StopReason) -> (r: Result<(), RendererError>)
    ensures
        r is Err <==> reason == StopReason::SharedStateLost,
        r matches Err(e) ==> e == RendererError::SharedStateLost,
{
    match reason {
        StopReason::SharedStateLost => Err(RendererError::SharedStateLost),
        _ => Ok(()),
    }
}

/// Once the producer has set the flag, the renderer's next tick stops,
/// whatever else it sees: the finish is noticed within one cadence interval.
pub proof fn lemma_finish_seen_next_tick(cancel: bool, clock: ClockRead, samples_len: usize)
    ensures
        tick_decision(cancel, clock, FlagRead::Finished, samples_len) is Stop,
{
}

/// A clock position at or past the number of samples stops the loop on that
/// tick, with no index taken into the samples.
pub proof fn lemma_past_end_stops(cancel: bool, v: ClockValue, flag: FlagRead, samples_len: usize)
    requires
        v.sample_index >= samples_len,
    ensures
        tick_decision(cancel, ClockRead::Value(v), flag, samples_len) is Stop,
        !cancel ==> tick_decision(cancel, ClockRead::Value(v), flag, samples_len) == TickAction::Stop(
            StopReason::PastEnd,
        ),
{
}

/// A cancellation stops the renderer on the tick where it is seen, whatever
/// the state of the producer.
pub proof fn lemma_cancel_stops(clock: ClockRead, flag: FlagRead, samples_len: usize)
    ensures
        tick_decision(true, clock, flag, samples_len) == TickAction::Stop(StopReason::Cancelled),
{
}

} // verus!
