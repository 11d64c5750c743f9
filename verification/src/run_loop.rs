//! A compio runtime inside a Core Foundation run loop: what the descriptor
//! callback, the timer and the run-loop observer do once they have driven
//! the runtime.

use vstd::prelude::*;

verus! {

/// What a callback found when it went to drive the runtime.
#[derive(Clone, Copy, Debug, PartialEq, Eq, Structural)]
pub enum RuntimeReport {
    /// The runtime has been dropped.
    Gone,
    /// The runtime was driven; this is its nearest timer, in nanoseconds.
    Driven(Option<u128>),
}

/// What a run-loop callback does after driving the runtime.
#[derive(Clone, Copy, Debug, PartialEq, Eq, Structural)]
pub enum RunLoopAction {
    /// Nothing more.
    Idle,
    /// Invalidate the run-loop object whose callback this is.
    InvalidateSelf,
    /// Move the run loop's timer to fire after this many nanoseconds.
    RescheduleTimer(u128),
}

/// The runtime's descriptor became readable: with the runtime gone, or the
/// timer gone while the runtime has a timer, the descriptor is invalidated;
/// otherwise the run loop's timer follows the runtime's nearest timer.
pub open spec fn spec_descriptor_action(report: RuntimeReport, timer_alive: bool) -> RunLoopAction {
    match report {
        RuntimeReport::Gone => RunLoopAction::InvalidateSelf,
        RuntimeReport::Driven(None) => RunLoopAction::Idle,
        RuntimeReport::Driven(Some(nanos)) => if timer_alive {
            RunLoopAction::RescheduleTimer(nanos)
        } else {
            RunLoopAction::InvalidateSelf
        },
    }
}

pub fn descriptor_action(report: RuntimeReport, timer_alive: bool) -> (r: RunLoopAction)
    ensures
        r == spec_descriptor_action(report, timer_alive),
{
    match report {
        RuntimeReport::Gone => RunLoopAction::InvalidateSelf,
        RuntimeReport::Driven(None) => RunLoopAction::Idle,
        RuntimeReport::Driven(Some(nanos)) => {
            if timer_alive {
                RunLoopAction::RescheduleTimer(nanos)
            } else {
                RunLoopAction::InvalidateSelf
            }
        },
    }
}

/// The run loop's timer fired: with the runtime gone the timer invalidates
/// itself; otherwise it moves to the runtime's nearest timer, if any.
pub open spec fn spec_timer_action(report: RuntimeReport) -> RunLoopAction {
    match report {
        RuntimeReport::Gone => RunLoopAction::InvalidateSelf,
        RuntimeReport::Driven(None) => RunLoopAction::Idle,
        RuntimeReport::Driven(Some(nanos)) => RunLoopAction::RescheduleTimer(nanos),
    }
}

pub fn timer_action(report: RuntimeReport) -> (r: RunLoopAction)
    ensures
        r == spec_timer_action(report),
{
    match report {
        RuntimeReport::Gone => RunLoopAction::InvalidateSelf,
        RuntimeReport::Driven(None) => RunLoopAction::Idle,
        RuntimeReport::Driven(Some(nanos)) => RunLoopAction::RescheduleTimer(nanos),
    }
}

/// The run loop is about to sleep: with the runtime gone the observer
/// invalidates itself; otherwise the timer, while it exists, moves to the
/// runtime's nearest timer, if any.
pub open spec fn spec_observer_action(report: RuntimeReport, timer_alive: bool) -> RunLoopAction {
    match report {
        RuntimeReport::Gone => RunLoopAction::InvalidateSelf,
        RuntimeReport::Driven(Some(nanos)) => if timer_alive {
            RunLoopAction::RescheduleTimer(nanos)
        } else {
            RunLoopAction::Idle
        },
        RuntimeReport::Driven(None) => RunLoopAction::Idle,
    }
}

pub fn observer_action(report: RuntimeReport, timer_alive: bool) -> (r: RunLoopAction)
    ensures
        r == spec_observer_action(report, timer_alive),
{
    match report {
        RuntimeReport::Gone => RunLoopAction::InvalidateSelf,
        RuntimeReport::Driven(Some(nanos)) => {
            if timer_alive {
                RunLoopAction::RescheduleTimer(nanos)
            } else {
                RunLoopAction::Idle
            }
        },
        RuntimeReport::Driven(None) => RunLoopAction::Idle,
    }
}

/// Whichever callback runs, a dropped runtime makes it invalidate the object
/// it belongs to, and a reschedule always carries the runtime's own timeout.
pub proof fn lemma_callbacks_follow_the_runtime(report: RuntimeReport, timer_alive: bool, nanos: u128)
    ensures
        report == RuntimeReport::Gone ==> spec_descriptor_action(report, timer_alive)
            == RunLoopAction::InvalidateSelf && spec_timer_action(report)
            == RunLoopAction::InvalidateSelf && spec_observer_action(report, timer_alive)
            == RunLoopAction::InvalidateSelf,
        spec_descriptor_action(report, timer_alive) == RunLoopAction::RescheduleTimer(nanos)
            ==> report == RuntimeReport::Driven(Some(nanos)),
        spec_timer_action(report) == RunLoopAction::RescheduleTimer(nanos) ==> report
            == RuntimeReport::Driven(Some(nanos)),
        spec_observer_action(report, timer_alive) == RunLoopAction::RescheduleTimer(nanos)
            ==> report == RuntimeReport::Driven(Some(nanos)),
{
}

/// The observer and the timer give themselves up only when the runtime is
/// gone; the descriptor also when the run loop's timer is gone while the
/// runtime still has a timer to follow. A runtime without a timer leaves
/// every callback idle, whether the run loop's timer exists or not.
pub proof fn lemma_callbacks_invalidate_only_when_orphaned(report: RuntimeReport, timer_alive: bool)
    ensures
        spec_observer_action(report, timer_alive) == RunLoopAction::InvalidateSelf <==> report
            == RuntimeReport::Gone,
        spec_timer_action(report) == RunLoopAction::InvalidateSelf <==> report
            == RuntimeReport::Gone,
        spec_descriptor_action(report, timer_alive) == RunLoopAction::InvalidateSelf <==> (report
            == RuntimeReport::Gone || (report is Driven && report->Driven_0 is Some
            && !timer_alive)),
        report == RuntimeReport::Driven(None) ==> spec_observer_action(report, timer_alive)
            == RunLoopAction::Idle && spec_timer_action(report) == RunLoopAction::Idle
            && spec_descriptor_action(report, timer_alive) == RunLoopAction::Idle,
{
}

} // verus!
