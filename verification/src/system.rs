//! The whole system as one transition system: the session record, the timer
//! process and the two channels between them, with the invariant that keeps
//! the two state machines in step.
//!
//! A channel is modelled as the sequence of what has been sent and not yet
//! received, oldest first.  The command channel holds at most
//! `COMMAND_CHANNEL_CAPACITY` commands.  The monotonic clock is modelled by
//! its readings in whole seconds, which never decrease; the timer process
//! keeps the reading at which its phase was entered and measures the phase
//! from there.  The moves are the three things that happen: a caller starts
//! a task, the timer process makes one round, the controller handles one
//! event.

use crate::clock::Timestamp;
use crate::protocol::PomodoroCommand;
use crate::protocol::PomodoroEvent;
use crate::protocol::TimerState;
use crate::session::SessionView;
use crate::session::COMMAND_CHANNEL_CAPACITY;
use crate::task::TaskView;
use crate::timer::commanded;
use crate::timer::phase_over;
use crate::timer::round;
use crate::timer::tick_event;
use crate::timer::TimerAction;
use vstd::prelude::*;

verus! {

/// The state of the whole system.
pub struct System {
    pub session: SessionView,
    /// The commands sent and not yet received, oldest first.
    pub commands: Seq<PomodoroCommand>,
    /// The phase of the timer process.
    pub timer: TimerState,
    /// The reading of the monotonic clock at which the timer process entered
    /// its phase.
    pub since: u64,
    /// The last reading of the monotonic clock that the timer process took.
    pub clock: u64,
    /// The events sent and not yet received, oldest first.
    pub events: Seq<PomodoroEvent>,
    /// Every event that the timer process has sent, oldest first.
    pub sent: Seq<PomodoroEvent>,
}

/// One thing that happens, with what the outside world adds to it.
pub enum Move {
    /// A caller starts the task `name` at wall-clock time `start`; `sent`
    /// says whether the command channel takes the command.
    Start { name: Seq<char>, start: Timestamp, sent: bool },
    /// The timer process makes one round.  `checked_at` is the reading of
    /// the monotonic clock when it looks whether a timed phase is over.
    /// `acted_at` is the reading when it acts: when it enters the next phase,
    /// when it measures the phase for a tick after its sleep, or when it
    /// takes a command.
    TimerRound { checked_at: u64, acted_at: u64 },
    /// The controller handles the oldest event at wall-clock time `now`.
    Control { now: Timestamp },
}

/// The whole seconds that the monotonic clock measures at the reading `now`
/// since the reading `since`: none if `now` is the earlier one.
pub open spec fn measured(since: u64, now: u64) -> u64 {
    if now >= since {
        (now - since) as u64
    } else {
        0
    }
}

/// The wall-clock reading that a move carries, if it carries one.
pub open spec fn reading(m: Move) -> Option<Timestamp> {
    match m {
        Move::Start { start, .. } => Some(start),
        Move::TimerRound { .. } => None,
        Move::Control { now } => Some(now),
    }
}

/// The wall clock did not run backwards while the moves were made: no reading
/// is before an earlier one.
pub open spec fn clock_kept_pace(moves: Seq<Move>) -> bool {
    forall|i: int, j: int|
        0 <= i <= j < moves.len() ==> (#[trigger] reading(moves[i]) matches Some(earlier)
            ==> (#[trigger] reading(moves[j]) matches Some(later) ==> later.not_before(earlier)))
}

/// Every event in `events` comes at its place in the protocol when the events
/// are handled in order by a session that starts in `phase`.
pub open spec fn in_order(phase: TimerState, events: Seq<PomodoroEvent>) -> bool
    decreases events.len(),
{
    events.len() == 0 || (events[0].expected_in(phase) && in_order(
        events[0].phase_after(phase),
        events.skip(1),
    ))
}

/// The phase of a session that starts in `phase` and handles `events` in
/// order.
pub open spec fn drained(phase: TimerState, events: Seq<PomodoroEvent>) -> TimerState
    decreases events.len(),
{
    if events.len() == 0 {
        phase
    } else {
        drained(events[0].phase_after(phase), events.skip(1))
    }
}

impl System {
    /// The system before anything has happened.
    pub open spec fn initial() -> System {
        System {
            session: SessionView::initial(),
            commands: Seq::empty(),
            timer: TimerState::Idle,
            since: 0,
            clock: 0,
            events: Seq::empty(),
            sent: Seq::empty(),
        }
    }

    /// The move can happen: the command channel takes a command only while it
    /// has room, the idle timer process waits until a command is there, the
    /// monotonic clock does not run backwards, and the controller waits until
    /// an event is there.
    pub open spec fn enabled(self, m: Move) -> bool {
        match m {
            Move::Start { sent, .. } => self.session.phase == TimerState::Idle && sent
                ==> self.commands.len() < COMMAND_CHANNEL_CAPACITY,
            Move::TimerRound { checked_at, acted_at } => {
                &&& self.clock <= checked_at <= acted_at
                &&& self.timer == TimerState::Idle ==> self.commands.len() > 0
            },
            Move::Control { .. } => self.events.len() > 0,
        }
    }

    /// What a round of the timer process decides: the phase after the round
    /// and what the driver does.  The idle process takes the oldest command;
    /// in a timed phase the reading `checked_at` says whether the phase is
    /// over.
    pub open spec fn decided(self, checked_at: u64) -> (TimerState, TimerAction) {
        if self.timer == TimerState::Idle {
            commanded(self.commands[0])
        } else {
            round(self.timer, phase_over(self.timer, measured(self.since, checked_at)))
        }
    }

    /// The events that a round of the timer process sends: the event that its
    /// decision names, or else the tick that measures the phase at the
    /// reading `acted_at`.
    pub open spec fn sends(self, checked_at: u64, acted_at: u64) -> Seq<PomodoroEvent> {
        match self.decided(checked_at).1 {
            TimerAction::Emit(event) => seq![event],
            TimerAction::SleepThenTick => match tick_event(
                self.timer,
                measured(self.since, acted_at),
            ) {
                Some(event) => seq![event],
                None => Seq::empty(),
            },
            TimerAction::AwaitCommand => Seq::empty(),
            TimerAction::Report(_) => Seq::empty(),
        }
    }

    /// The system after the move.
    pub open spec fn next(self, m: Move) -> System {
        match m {
            Move::Start { name, start, sent } => System {
                session: self.session.start(name, start, sent),
                commands: if self.session.phase == TimerState::Idle && sent {
                    self.commands.push(PomodoroCommand::StartTask)
                } else {
                    self.commands
                },
                ..self
            },
            Move::TimerRound { checked_at, acted_at } => System {
                commands: if self.timer == TimerState::Idle {
                    self.commands.skip(1)
                } else {
                    self.commands
                },
                timer: self.decided(checked_at).0,
                since: if self.decided(checked_at).0 == self.timer {
                    self.since
                } else {
                    acted_at
                },
                clock: acted_at,
                events: self.events + self.sends(checked_at, acted_at),
                sent: self.sent + self.sends(checked_at, acted_at),
                ..self
            },
            Move::Control { now } => System {
                session: self.session.handled(self.events[0], now),
                events: self.events.skip(1),
                ..self
            },
        }
    }

    /// What holds in every state that the system reaches.  The record is well
    /// formed and a task is in flight exactly while its phase is `Running`.  A
    /// command on its way is a lone `StartTask`, sent by a session that is
    /// already `Running` to a timer process that is idle and has nothing on its
    /// way back.  The events on their way are in order, and once they are all
    /// handled the session is in the phase of the timer process.  A timed
    /// phase was entered no later than the clock was last read.
    pub open spec fn inv(self) -> bool {
        &&& self.session.wf()
        &&& self.session.consistent()
        &&& self.commands.len() <= COMMAND_CHANNEL_CAPACITY
        &&& self.commands.len() > 0 ==> {
            &&& self.commands[0] == PomodoroCommand::StartTask
            &&& self.session.phase == TimerState::Running
            &&& self.timer == TimerState::Idle
            &&& self.events.len() == 0
        }
        &&& in_order(self.session.phase, self.events)
        &&& self.commands.len() == 0 ==> drained(self.session.phase, self.events) == self.timer
        &&& self.timer != TimerState::Idle ==> self.since <= self.clock
    }

    /// The system after the moves in `moves`, one after the other.
    pub open spec fn run(self, moves: Seq<Move>) -> System
        decreases moves.len(),
    {
        if moves.len() == 0 {
            self
        } else {
            self.run(moves.drop_last()).next(moves.last())
        }
    }

    /// Each move in `moves` can happen when its turn comes.
    pub open spec fn can_run(self, moves: Seq<Move>) -> bool
        decreases moves.len(),
    {
        moves.len() == 0 || (self.can_run(moves.drop_last()) && self.run(
            moves.drop_last(),
        ).enabled(moves.last()))
    }
}

/// An event that is expected after the events already on their way is in
/// order behind them, and brings the session to its own phase.
pub proof fn lemma_in_order_push(
    phase: TimerState,
    events: Seq<PomodoroEvent>,
    event: PomodoroEvent,
)
    requires
        in_order(phase, events),
        event.expected_in(drained(phase, events)),
    ensures
        in_order(phase, events.push(event)),
        drained(phase, events.push(event)) == event.phase_after(drained(phase, events)),
    decreases events.len(),
{
    let longer = events.push(event);
    let rest = longer.skip(1);
    assert(longer[0] == if events.len() == 0 {
        event
    } else {
        events[0]
    });
    if events.len() == 0 {
        assert(in_order(event.phase_after(phase), rest));
        assert(drained(event.phase_after(phase), rest) == event.phase_after(phase));
    } else {
        assert(rest =~= events.skip(1).push(event));
        lemma_in_order_push(events[0].phase_after(phase), events.skip(1), event);
    }
}

/// The invariant holds before anything has happened.
pub proof fn lemma_initial_inv()
    ensures
        System::initial().inv(),
{
}

/// No move that can happen breaks the invariant.
pub proof fn lemma_next_inv(system: System, m: Move)
    requires
        system.inv(),
        system.enabled(m),
    ensures
        system.next(m).inv(),
{
    if let Move::TimerRound { checked_at, acted_at } = m {
        let event = system.sends(checked_at, acted_at)[0];
        assert(system.next(m).events =~= system.events.push(event));
        lemma_in_order_push(system.session.phase, system.events, event);
    }
}

/// Every round of the timer process sends one event.
pub proof fn lemma_round_sends_one(system: System, checked_at: u64, acted_at: u64)
    requires
        system.inv(),
        system.enabled(Move::TimerRound { checked_at, acted_at }),
    ensures
        system.sends(checked_at, acted_at).len() == 1,
        system.next(Move::TimerRound { checked_at, acted_at }).sent == system.sent.push(
            system.sends(checked_at, acted_at)[0],
        ),
{
    let event = system.sends(checked_at, acted_at)[0];
    assert(system.next(Move::TimerRound { checked_at, acted_at }).sent =~= system.sent.push(event));
}

/// In every state that the system reaches the invariant holds.
pub proof fn lemma_run_inv(moves: Seq<Move>)
    requires
        System::initial().can_run(moves),
    ensures
        System::initial().run(moves).inv(),
    decreases moves.len(),
{
    if moves.len() == 0 {
        lemma_initial_inv();
    } else {
        lemma_run_inv(moves.drop_last());
        lemma_next_inv(System::initial().run(moves.drop_last()), moves.last());
    }
}

/// Every move takes the phase of the session and the phase of the timer
/// process along the cycle Idle, Running, Paused, Idle, or leaves them: no
/// move skips a phase.
pub proof fn lemma_moves_follow_cycle(system: System, m: Move)
    requires
        system.inv(),
        system.enabled(m),
    ensures
        system.session.phase.steps_to(system.next(m).session.phase),
        system.timer.steps_to(system.next(m).timer),
{
}

/// The controller never meets an event out of turn.  The oldest event on its
/// way is the one that the session expects, and when it says that the break
/// has begun there is an unfinished task in flight to end.
pub proof fn lemma_controller_meets_expected_event(system: System)
    requires
        system.inv(),
        system.events.len() > 0,
    ensures
        system.session.expects(system.events[0]),
        system.events[0] is PauseStarted ==> system.session.has_unfinished_task(),
{
}

/// While the session is idle nothing is on its way and the timer process is
/// idle too, so the command channel has room for the command of the next
/// start.
pub proof fn lemma_idle_session_is_quiet(system: System)
    requires
        system.inv(),
        system.session.phase == TimerState::Idle,
    ensures
        system.commands.len() == 0,
        system.events.len() == 0,
        system.timer == TimerState::Idle,
{
}

/// The task in flight began at the reading of one of the moves made.
pub open spec fn began_during(task: TaskView, moves: Seq<Move>) -> bool {
    exists|k: int| 0 <= k < moves.len() && #[trigger] reading(moves[k]) == Some(task.start_time)
}

/// If the wall clock never runs backwards, every task in the history ends
/// at or after its start, in every state that the system reaches.
pub proof fn lemma_run_tasks_end_after_start(moves: Seq<Move>)
    requires
        System::initial().can_run(moves),
        clock_kept_pace(moves),
    ensures
        forall|i: int|
            0 <= i < System::initial().run(moves).session.past_tasks.len() ==> (
            #[trigger] System::initial().run(moves).session.past_tasks[i]).ends_after_start(),
        System::initial().run(moves).session.current_task matches Some(task) ==> began_during(
            task,
            moves,
        ),
    decreases moves.len(),
{
    if moves.len() > 0 {
        let earlier = moves.drop_last();
        let before = System::initial().run(earlier);
        let after = before.next(moves.last());
        lemma_run_tasks_end_after_start(earlier);
        if let Some(task) = before.session.current_task {
            // The task in flight began at the reading of an earlier move.
            let k = choose|k: int|
                0 <= k < earlier.len() && #[trigger] reading(earlier[k]) == Some(task.start_time);
            assert(reading(moves[k]) == Some(task.start_time));
        }
        if let Some(task) = after.session.current_task {
            if before.session.current_task != Some(task) {
                // The task in flight began at the reading of the last move.
                assert(reading(moves[moves.len() - 1]) == Some(task.start_time));
            }
        }
    }
}

/// Nothing that happens changes a task in the history: the history of an
/// earlier state is the beginning of the history of every later one.
pub proof fn lemma_run_keeps_history(moves: Seq<Move>, k: int)
    requires
        0 <= k <= moves.len(),
    ensures
        System::initial().run(moves.take(k)).session.past_tasks.is_prefix_of(
            System::initial().run(moves).session.past_tasks,
        ),
    decreases moves.len() - k,
{
    if k == moves.len() {
        assert(moves.take(k) =~= moves);
    } else {
        let earlier = moves.drop_last();
        lemma_run_keeps_history(earlier, k);
        assert(earlier.take(k) =~= moves.take(k));
    }
}

} // verus!
