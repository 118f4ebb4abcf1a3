//! The values that travel between the callers, the timer process and the
//! controller: the phase of a session, the commands and the events.

use vstd::prelude::*;

verus! {

/// The phase of a session, as the outside world sees it.
#[derive(Clone, Copy, Debug, PartialEq, Eq, Structural)]
pub enum TimerState {
    Idle,
    Running,
    Paused,
}

impl TimerState {
    /// The phase that follows `self` in the cycle Idle, Running, Paused, Idle.
    pub open spec fn successor(self) -> TimerState {
        match self {
            TimerState::Idle => TimerState::Running,
            TimerState::Running => TimerState::Paused,
            TimerState::Paused => TimerState::Idle,
        }
    }

    /// A change from `self` to `next` stays on the cycle: the phase is kept,
    /// or it moves to its successor.
    pub open spec fn steps_to(self, next: TimerState) -> bool {
        next == self || next == self.successor()
    }

    /// The successor of `self`, computed.
    pub fn next(self) -> (next: TimerState)
        ensures
            next == self.successor(),
    {
        match self {
            TimerState::Idle => TimerState::Running,
            TimerState::Running => TimerState::Paused,
            TimerState::Paused => TimerState::Idle,
        }
    }
}

/// What a caller may ask of the timer process.
#[derive(Clone, Copy, Debug, PartialEq, Eq, Structural)]
pub enum PomodoroCommand {
    StartTask,
    CancelTask,
}

/// What the timer process reports to the controller.
#[derive(Clone, Copy, Debug, PartialEq, Eq, Structural)]
pub enum PomodoroEvent {
    /// A work interval has begun.
    TaskStarted,
    /// The work interval is over and the break has begun.
    PauseStarted,
    /// The break is over.
    Idle,
    /// Whole seconds elapsed since the current phase began.
    TimerTick(u64),
}

impl PomodoroEvent {
    /// The phase that the session is in once the event has been handled, given
    /// the phase it was in before.
    pub open spec fn phase_after(self, before: TimerState) -> TimerState {
        match self {
            PomodoroEvent::TaskStarted => TimerState::Running,
            PomodoroEvent::PauseStarted => TimerState::Paused,
            PomodoroEvent::Idle => TimerState::Idle,
            PomodoroEvent::TimerTick(_) => before,
        }
    }

    /// The event comes at its place in the timer's protocol for a session in
    /// `phase`: the start of a task is confirmed and the break begins while
    /// the phase is `Running`, the break ends while it is `Paused`, and ticks
    /// come in the timed phases.
    pub open spec fn expected_in(self, phase: TimerState) -> bool {
        match self {
            PomodoroEvent::TaskStarted => phase == TimerState::Running,
            PomodoroEvent::PauseStarted => phase == TimerState::Running,
            PomodoroEvent::Idle => phase == TimerState::Paused,
            PomodoroEvent::TimerTick(_) => phase != TimerState::Idle,
        }
    }
}

} // verus!
