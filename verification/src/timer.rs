//! The timer process: the state machine that measures the work and the break
//! interval and says what its driver does next.
//!
//! The driver owns the channels and the waiting.  It asks [`ProcessState::poll`]
//! what to do, does it, and reports back: a command that arrived goes to
//! [`ProcessState::on_command`], and after a second of sleep
//! [`ProcessState::tick`] gives the event to send.

use crate::protocol::PomodoroCommand;
use crate::protocol::PomodoroEvent;
use crate::protocol::TimerState;
use std::time::Instant;
use vstd::prelude::*;

verus! {

/// Length of the work interval, in seconds.
pub const WORK_SECS: u64 = 25 * 60;

/// Length of the break, in seconds.
pub const BREAK_SECS: u64 = 5 * 60;

/// Length of the sleep between two looks at a timed phase, in seconds.
pub const TICK_INTERVAL_SECS: u64 = 1;

/// What the driver of the timer process does next.
#[derive(Clone, Copy, Debug, PartialEq, Eq, Structural)]
pub enum TimerAction {
    /// Wait, as long as it takes, for a command, and hand it to `on_command`.
    AwaitCommand,
    /// Send the event to the controller.
    Emit(PomodoroEvent),
    /// Sleep for `TICK_INTERVAL_SECS`, then send the event that `tick` gives.
    SleepThenTick,
    /// The command was accepted but is not carried out: report it.
    Report(PomodoroCommand),
}

/// The timer process's own state: the phase, and for the two timed phases the
/// reading of the monotonic clock at which the phase was entered.
#[derive(Clone, Copy, Debug)]
pub enum ProcessState {
    Idle,
    Running { since: Instant },
    Paused { since: Instant },
}

/// A phase that has lasted `elapsed_secs` whole seconds is over: the idle
/// phase at once, the work interval after 25 minutes, the break after 5.
pub open spec fn phase_over(phase: TimerState, elapsed_secs: u64) -> bool {
    match phase {
        TimerState::Idle => true,
        TimerState::Running => elapsed_secs >= WORK_SECS,
        TimerState::Paused => elapsed_secs >= BREAK_SECS,
    }
}

/// The event that announces that `phase` has been entered.
pub open spec fn entry_event(phase: TimerState) -> PomodoroEvent {
    match phase {
        TimerState::Idle => PomodoroEvent::Idle,
        TimerState::Running => PomodoroEvent::TaskStarted,
        TimerState::Paused => PomodoroEvent::PauseStarted,
    }
}

/// One round of the timer process in `phase`, where `ready` says whether the
/// phase is over: the phase after the round and what the driver does.
pub open spec fn round(phase: TimerState, ready: bool) -> (TimerState, TimerAction) {
    if phase == TimerState::Idle {
        (phase, TimerAction::AwaitCommand)
    } else if ready {
        (phase.successor(), TimerAction::Emit(entry_event(phase.successor())))
    } else {
        (phase, TimerAction::SleepThenTick)
    }
}

/// What a command does to the idle timer process: the phase after it and what
/// the driver does.
pub open spec fn commanded(command: PomodoroCommand) -> (TimerState, TimerAction) {
    match command {
        PomodoroCommand::StartTask => (
            TimerState::Running,
            TimerAction::Emit(PomodoroEvent::TaskStarted),
        ),
        PomodoroCommand::CancelTask => (TimerState::Idle, TimerAction::Report(command)),
    }
}

/// The event that announces that `phase` has been entered.
pub fn announcement(phase: TimerState) -> (event: PomodoroEvent)
    ensures
        event == entry_event(phase),
{
    match phase {
        TimerState::Idle => PomodoroEvent::Idle,
        TimerState::Running => PomodoroEvent::TaskStarted,
        TimerState::Paused => PomodoroEvent::PauseStarted,
    }
}

/// The state in which `phase` has been entered at the monotonic clock's
/// reading `now`: a timed phase is measured from `now`.
pub open spec fn entered(phase: TimerState, now: Instant) -> ProcessState {
    match phase {
        TimerState::Idle => ProcessState::Idle,
        TimerState::Running => ProcessState::Running { since: now },
        TimerState::Paused => ProcessState::Paused { since: now },
    }
}

/// The progress report of `phase` when it has lasted `elapsed_secs` whole
/// seconds: a timed phase reports them, the idle phase has no report.
pub open spec fn tick_event(phase: TimerState, elapsed_secs: u64) -> Option<PomodoroEvent> {
    if phase == TimerState::Idle {
        None
    } else {
        Some(PomodoroEvent::TimerTick(elapsed_secs))
    }
}

/// Whether a phase that has lasted `elapsed_secs` whole seconds is over.
pub fn threshold_reached(phase: TimerState, elapsed_secs: u64) -> (ready: bool)
    ensures
        ready == phase_over(phase, elapsed_secs),
{
    match phase {
        TimerState::Idle => true,
        TimerState::Running => elapsed_secs >= WORK_SECS,
        TimerState::Paused => elapsed_secs >= BREAK_SECS,
    }
}

impl ProcessState {
    /// The phase that the timer process is in.
    pub open spec fn phase(self) -> TimerState {
        match self {
            ProcessState::Idle => TimerState::Idle,
            ProcessState::Running { .. } => TimerState::Running,
            ProcessState::Paused { .. } => TimerState::Paused,
        }
    }

    /// The state once the process is in `phase`, where `now` is the monotonic
    /// clock's reading: a state that stays in its phase is kept as it is, and
    /// a phase that is entered is measured from `now`.
    pub open spec fn moved(self, phase: TimerState, now: Instant) -> ProcessState {
        if phase == self.phase() {
            self
        } else {
            entered(phase, now)
        }
    }

    /// One round of the timer process, where `ready` says whether the current
    /// phase is over and `now` is the monotonic clock's reading: the state
    /// after the round and what the driver does.
    pub open spec fn stepped(self, ready: bool, now: Instant) -> (ProcessState, TimerAction) {
        (self.moved(round(self.phase(), ready).0, now), round(self.phase(), ready).1)
    }

    /// What a command does to the process at the monotonic clock's reading
    /// `now`: the state after it and what the driver does.
    pub open spec fn taken(self, command: PomodoroCommand, now: Instant) -> (
        ProcessState,
        TimerAction,
    ) {
        (self.moved(commanded(command).0, now), commanded(command).1)
    }

    /// The phase that the timer process is in, computed.
    pub fn timer_state(&self) -> (phase: TimerState)
        ensures
            phase == self.phase(),
    {
        match self {
            ProcessState::Idle => TimerState::Idle,
            ProcessState::Running { .. } => TimerState::Running,
            ProcessState::Paused { .. } => TimerState::Paused,
        }
    }

    /// The state in which `phase` has been entered at the reading `now`.
    pub fn entered_at(phase: TimerState, now: Instant) -> (state: ProcessState)
        ensures
            state == entered(phase, now),
    {
        match phase {
            TimerState::Idle => ProcessState::Idle,
            TimerState::Running => ProcessState::Running { since: now },
            TimerState::Paused => ProcessState::Paused { since: now },
        }
    }

    /// The state in which `phase` has just been entered: a timed phase is
    /// measured from the monotonic clock's reading, whatever it is.
    pub fn enter(phase: TimerState) -> (state: ProcessState)
        ensures
            exists|now: Instant| state == #[trigger] entered(phase, now),
    {
        let now = Instant::now();
        ProcessState::entered_at(phase, now)
    }

    /// Whether the current phase is over when it has lasted `elapsed_secs`
    /// whole seconds.
    pub fn ready_after(&self, elapsed_secs: u64) -> (ready: bool)
        ensures
            ready == phase_over(self.phase(), elapsed_secs),
    {
        threshold_reached(self.timer_state(), elapsed_secs)
    }

    /// Whether the current phase is over.  The idle phase always is; for a
    /// timed phase the answer is that of `ready_after` for the whole seconds
    /// that the monotonic clock measures since the phase was entered, whatever
    /// they are.
    pub fn is_ready(&self) -> (ready: bool)
        ensures
            exists|elapsed_secs: u64| ready == #[trigger] phase_over(self.phase(), elapsed_secs),
            self.phase() == TimerState::Idle ==> ready,
    {
        match self {
            ProcessState::Idle => {
                assert(phase_over(TimerState::Idle, 0));
                true
            },
            ProcessState::Running { since } => {
                let diff: u64 = since.elapsed().as_secs();
                self.ready_after(diff)
            },
            ProcessState::Paused { since } => {
                let diff: u64 = since.elapsed().as_secs();
                self.ready_after(diff)
            },
        }
    }

    /// One round of the timer process, where `ready` says whether the current
    /// phase is over and `now` is the monotonic clock's reading.
    pub fn step_at(&mut self, ready: bool, now: Instant) -> (action: TimerAction)
        ensures
            (*final(self), action) == old(self).stepped(ready, now),
            old(self).phase().steps_to(final(self).phase()),
    {
        let phase = self.timer_state();
        if phase == TimerState::Idle {
            TimerAction::AwaitCommand
        } else if ready {
            let next = phase.next();
            *self = ProcessState::entered_at(next, now);
            TimerAction::Emit(announcement(next))
        } else {
            TimerAction::SleepThenTick
        }
    }

    /// One round of the timer process, where `ready` says whether the current
    /// phase is over.  It is `step_at` at the monotonic clock's reading,
    /// whatever it is.
    pub fn step(&mut self, ready: bool) -> (action: TimerAction)
        ensures
            exists|now: Instant| (*final(self), action) == #[trigger] old(self).stepped(ready, now),
            old(self).phase().steps_to(final(self).phase()),
    {
        let now = Instant::now();
        self.step_at(ready, now)
    }

    /// One round of the timer process.  It is `step_at` for what `is_ready`
    /// says and at the monotonic clock's reading, whatever they are; the idle
    /// process always waits for a command.
    pub fn poll(&mut self) -> (action: TimerAction)
        ensures
            exists|ready: bool, now: Instant|
                (*final(self), action) == #[trigger] old(self).stepped(ready, now),
            old(self).phase().steps_to(final(self).phase()),
    {
        let ready = self.is_ready();
        self.step(ready)
    }

    /// Takes a command that arrived while the process was idle.  `StartTask`
    /// begins the work interval, measured from the monotonic clock's reading,
    /// whatever it is; `CancelTask` changes nothing and is reported.
    pub fn on_command(&mut self, command: PomodoroCommand) -> (action: TimerAction)
        requires
            old(self).phase() == TimerState::Idle,
        ensures
            exists|now: Instant| (*final(self), action) == #[trigger] old(self).taken(command, now),
            old(self).phase().steps_to(final(self).phase()),
    {
        match command {
            PomodoroCommand::StartTask => {
                let now = Instant::now();
                *self = ProcessState::entered_at(TimerState::Running, now);
                assert((*self, TimerAction::Emit(PomodoroEvent::TaskStarted)) == old(self).taken(
                    command,
                    now,
                ));
                TimerAction::Emit(announcement(TimerState::Running))
            },
            PomodoroCommand::CancelTask => {
                assert((*self, TimerAction::Report(command)) == old(self).taken(
                    command,
                    arbitrary(),
                ));
                TimerAction::Report(command)
            },
        }
    }

    /// The progress report of the current phase when it has lasted
    /// `elapsed_secs` whole seconds.
    pub fn tick_after(&self, elapsed_secs: u64) -> (event: Option<PomodoroEvent>)
        ensures
            event == tick_event(self.phase(), elapsed_secs),
    {
        match self {
            ProcessState::Idle => None,
            _ => Some(PomodoroEvent::TimerTick(elapsed_secs)),
        }
    }

    /// The progress report of the current phase: that of `tick_after` for the
    /// whole seconds that the monotonic clock measures since the phase was
    /// entered, whatever they are.  The idle phase has none.
    pub fn tick(&self) -> (event: Option<PomodoroEvent>)
        ensures
            exists|elapsed_secs: u64| event == #[trigger] tick_event(self.phase(), elapsed_secs),
    {
        match self {
            ProcessState::Idle => self.tick_after(0),
            ProcessState::Running { since } => self.tick_after(since.elapsed().as_secs()),
            ProcessState::Paused { since } => self.tick_after(since.elapsed().as_secs()),
        }
    }
}

} // verus!
