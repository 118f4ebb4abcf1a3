//! What the events of the timer process say about time, in the system of
//! [`crate::system`]: ticks never go back within a phase, each phase is
//! measured from its own entry, and under a clock on which a sleep takes
//! exactly its interval and nothing else takes time the events follow one
//! fixed schedule.

use crate::protocol::PomodoroEvent;
use crate::protocol::TimerState;
use crate::system::measured;
use crate::system::lemma_next_inv;
use crate::system::lemma_round_sends_one;
use crate::system::Move;
use crate::system::System;
use crate::timer::BREAK_SECS;
use crate::timer::TICK_INTERVAL_SECS;
use crate::timer::WORK_SECS;
use vstd::arithmetic::div_mod::lemma_add_mod_noop;
use vstd::arithmetic::div_mod::lemma_mod_bound;
use vstd::arithmetic::div_mod::lemma_mod_self_0;
use vstd::arithmetic::div_mod::lemma_small_mod;
use vstd::prelude::*;

verus! {

/// Of two ticks sent one after the other, the later does not report less.
pub open spec fn paced(sent: Seq<PomodoroEvent>) -> bool {
    forall|i: int|
        0 < i < sent.len() ==> (#[trigger] sent[i] matches PomodoroEvent::TimerTick(later) ==> (sent[i
            - 1] matches PomodoroEvent::TimerTick(earlier) ==> earlier <= later))
}

/// Every event from the `from`-th to the `to`-th is a tick.
pub open spec fn all_ticks(sent: Seq<PomodoroEvent>, from: int, to: int) -> bool {
    forall|k: int| from <= k <= to ==> (#[trigger] sent[k]) is TimerTick
}

/// The number of events in one full cycle on the exact clock: the start of
/// the task, a tick for each second of work, the start of the break, a tick
/// for each second of the break, and its end.
pub open spec fn cycle_len() -> int {
    WORK_SECS + BREAK_SECS + 3
}

/// The place in its cycle of the event that is sent after `count` others.
pub open spec fn place(count: int) -> int {
    count % cycle_len()
}

/// The event at place `at` of a full cycle on the exact clock.
pub open spec fn scheduled(at: int) -> PomodoroEvent {
    if at == 0 {
        PomodoroEvent::TaskStarted
    } else if at <= WORK_SECS {
        PomodoroEvent::TimerTick(at as u64)
    } else if at == WORK_SECS + 1 {
        PomodoroEvent::PauseStarted
    } else if at <= WORK_SECS + 1 + BREAK_SECS {
        PomodoroEvent::TimerTick((at - WORK_SECS - 1) as u64)
    } else {
        PomodoroEvent::Idle
    }
}

impl System {
    /// The last event sent tells where the timer process stands: after a tick
    /// it is in a timed phase that has lasted what the tick reports, after
    /// the start of the work or of the break it is in that phase and the phase
    /// is measured from the reading at which it was entered, and before the
    /// first event and after the end of a break it is idle.  Ticks sent one
    /// after the other never go back.
    pub open spec fn timed(self) -> bool {
        &&& paced(self.sent)
        &&& if self.sent.len() == 0 {
            self.timer == TimerState::Idle
        } else {
            match self.sent.last() {
                PomodoroEvent::TimerTick(secs) => {
                    &&& self.timer != TimerState::Idle
                    &&& secs == measured(self.since, self.clock)
                },
                PomodoroEvent::TaskStarted => {
                    &&& self.timer == TimerState::Running
                    &&& self.since == self.clock
                },
                PomodoroEvent::PauseStarted => {
                    &&& self.timer == TimerState::Paused
                    &&& self.since == self.clock
                },
                PomodoroEvent::Idle => self.timer == TimerState::Idle,
            }
        }
    }

    /// The move happens on the exact clock: a round of a timed phase looks at
    /// the clock where the last round left it, a sleep takes exactly the tick
    /// interval, and nothing else takes time.  How long the idle process
    /// waits for a command is free.
    pub open spec fn exact(self, m: Move) -> bool {
        m matches Move::TimerRound { checked_at, acted_at } ==> {
            &&& self.timer != TimerState::Idle ==> checked_at == self.clock
            &&& acted_at == if self.decided(checked_at).0 == self.timer && self.timer
                != TimerState::Idle {
                checked_at + TICK_INTERVAL_SECS
            } else {
                checked_at as int
            }
        }
    }

    /// Each move in `moves` happens on the exact clock when its turn comes.
    pub open spec fn runs_exactly(self, moves: Seq<Move>) -> bool
        decreases moves.len(),
    {
        moves.len() == 0 || (self.runs_exactly(moves.drop_last()) && self.run(
            moves.drop_last(),
        ).exact(moves.last()))
    }

    /// Every event sent is the one that the schedule has at its place, and the
    /// timer process stands where the number of events sent says: idle at the
    /// start of a cycle, and in a timed phase as many seconds into it as ticks
    /// were sent since it began.
    pub open spec fn on_schedule(self) -> bool {
        &&& forall|i: int|
            0 <= i < self.sent.len() ==> #[trigger] self.sent[i] == scheduled(place(i))
        &&& match self.timer {
            TimerState::Idle => place(self.sent.len() as int) == 0,
            TimerState::Running => {
                &&& self.since <= self.clock <= self.since + WORK_SECS
                &&& place(self.sent.len() as int) == 1 + (self.clock - self.since)
            },
            TimerState::Paused => {
                &&& self.since <= self.clock <= self.since + BREAK_SECS
                &&& place(self.sent.len() as int) == WORK_SECS + 2 + (self.clock - self.since)
            },
        }
    }
}

/// No move breaks what the last event sent tells of the timer process, and
/// ticks never go back, because the monotonic clock does not.
pub proof fn lemma_next_timed(system: System, m: Move)
    requires
        system.inv(),
        system.timed(),
        system.enabled(m),
    ensures
        system.next(m).timed(),
{
    if let Move::TimerRound { checked_at, acted_at } = m {
        lemma_round_sends_one(system, checked_at, acted_at);
    }
}

/// In every state that the system reaches, ticks sent one after the other
/// have never gone back, and the timer process stands where its last event
/// says.
pub proof fn lemma_run_timed(moves: Seq<Move>)
    requires
        System::initial().can_run(moves),
    ensures
        System::initial().run(moves).inv(),
        System::initial().run(moves).timed(),
    decreases moves.len(),
{
    if moves.len() > 0 {
        let earlier = moves.drop_last();
        lemma_run_timed(earlier);
        lemma_next_inv(System::initial().run(earlier), moves.last());
        lemma_next_timed(System::initial().run(earlier), moves.last());
    }
}

/// Of two ticks with nothing but ticks between them, that is, of two ticks of
/// one phase, the later does not report less.
pub proof fn lemma_ticks_of_a_phase_never_go_back(sent: Seq<PomodoroEvent>, from: int, to: int)
    requires
        paced(sent),
        0 <= from <= to < sent.len(),
        all_ticks(sent, from, to),
    ensures
        sent[from]->TimerTick_0 <= sent[to]->TimerTick_0,
    decreases to - from,
{
    if from < to {
        assert(sent[to] is TimerTick && sent[to - 1] is TimerTick);
        lemma_ticks_of_a_phase_never_go_back(sent, from, to - 1);
    }
}

/// A phase is measured from the reading at which it was entered: the work
/// from the reading at which the command was taken, the break from the
/// reading at which the work was left.  A round that stays in its phase
/// leaves that reading alone and reports in its tick the whole seconds since.
pub proof fn lemma_phase_is_measured_from_its_entry(system: System, checked_at: u64, acted_at: u64)
    requires
        system.inv(),
        system.enabled(Move::TimerRound { checked_at, acted_at }),
    ensures
        ({
            let after = system.next(Move::TimerRound { checked_at, acted_at });
            let sends = system.sends(checked_at, acted_at);
            &&& sends.len() == 1
            &&& after.timer != system.timer ==> {
                &&& after.since == acted_at
                &&& sends[0] !is TimerTick
                &&& after.timer != TimerState::Idle ==> measured(after.since, after.clock) == 0
            }
            &&& after.timer == system.timer ==> {
                &&& after.since == system.since
                &&& sends[0] == PomodoroEvent::TimerTick(measured(system.since, acted_at))
            }
        }),
{
}

/// What a round of the timer process does, phase by phase.  The idle process
/// takes the command and starts the work.  The work is left for the break as
/// soon as a look at the clock finds `WORK_SECS` or more since its entry, and
/// the break for the idle phase as soon as a look finds `BREAK_SECS` or more;
/// the round that leaves a phase sends the event of the next phase and no
/// tick.
pub proof fn lemma_round_by_phase(system: System, checked_at: u64, acted_at: u64)
    requires
        system.inv(),
        system.enabled(Move::TimerRound { checked_at, acted_at }),
    ensures
        ({
            let after = system.next(Move::TimerRound { checked_at, acted_at });
            let sends = system.sends(checked_at, acted_at);
            let lasted = measured(system.since, checked_at);
            match system.timer {
                TimerState::Idle => {
                    &&& after.timer == TimerState::Running
                    &&& sends == seq![PomodoroEvent::TaskStarted]
                },
                TimerState::Running => if lasted >= WORK_SECS {
                    &&& after.timer == TimerState::Paused
                    &&& sends == seq![PomodoroEvent::PauseStarted]
                } else {
                    &&& after.timer == TimerState::Running
                    &&& sends == seq![PomodoroEvent::TimerTick(measured(system.since, acted_at))]
                },
                TimerState::Paused => if lasted >= BREAK_SECS {
                    &&& after.timer == TimerState::Idle
                    &&& sends == seq![PomodoroEvent::Idle]
                } else {
                    &&& after.timer == TimerState::Paused
                    &&& sends == seq![PomodoroEvent::TimerTick(measured(system.since, acted_at))]
                },
            }
        }),
{
    let sends = system.sends(checked_at, acted_at);
    assert(sends =~= seq![sends[0]]);
}

/// The place after the next event is the next place in the cycle, or the
/// first place of the next cycle.
pub proof fn lemma_next_place(count: int)
    requires
        0 <= count,
    ensures
        0 <= place(count) < cycle_len(),
        place(count + 1) == if place(count) + 1 == cycle_len() {
            0
        } else {
            place(count) + 1
        },
{
    let len = cycle_len();
    lemma_mod_bound(count, len);
    lemma_add_mod_noop(count, 1, len);
    lemma_small_mod(1, len as nat);
    if place(count) + 1 == len {
        lemma_mod_self_0(len);
    } else {
        lemma_small_mod((place(count) + 1) as nat, len as nat);
    }
}

/// On the exact clock no move takes the events off the schedule.
pub proof fn lemma_next_on_schedule(system: System, m: Move)
    requires
        system.inv(),
        system.on_schedule(),
        system.enabled(m),
        system.exact(m),
    ensures
        system.next(m).on_schedule(),
{
    if let Move::TimerRound { checked_at, acted_at } = m {
        lemma_round_sends_one(system, checked_at, acted_at);
        let after = system.next(m);
        let n = system.sent.len() as int;
        lemma_next_place(n);
        assert(after.sent.len() == n + 1);
        assert forall|i: int| 0 <= i < after.sent.len() implies #[trigger] after.sent[i]
            == scheduled(place(i)) by {
            if i < n {
                assert(after.sent[i] == system.sent[i]);
            }
        }
    }
}

/// On the exact clock the events sent are, cycle after cycle: the start of
/// the task, the ticks 1 to `WORK_SECS`, the start of the break, the ticks 1
/// to `BREAK_SECS`, and the end of the break.
pub proof fn lemma_exact_run_on_schedule(moves: Seq<Move>)
    requires
        System::initial().can_run(moves),
        System::initial().runs_exactly(moves),
    ensures
        System::initial().run(moves).inv(),
        System::initial().run(moves).on_schedule(),
    decreases moves.len(),
{
    if moves.len() > 0 {
        let earlier = moves.drop_last();
        lemma_exact_run_on_schedule(earlier);
        lemma_next_inv(System::initial().run(earlier), moves.last());
        lemma_next_on_schedule(System::initial().run(earlier), moves.last());
    }
}

/// In the first cycle on the exact clock each event is the one that the
/// schedule has at its place.
pub proof fn lemma_first_cycle(system: System, i: int)
    requires
        system.on_schedule(),
        0 <= i < system.sent.len(),
        i < cycle_len(),
    ensures
        system.sent[i] == scheduled(i),
{
    lemma_small_mod(i as nat, cycle_len() as nat);
}

/// On the exact clock the events open with the start of the task and the
/// ticks 1, 2, 3.
pub proof fn lemma_opening_events(system: System)
    requires
        system.on_schedule(),
        system.sent.len() >= 4,
    ensures
        system.sent[0] == PomodoroEvent::TaskStarted,
        system.sent[1] == PomodoroEvent::TimerTick(1),
        system.sent[2] == PomodoroEvent::TimerTick(2),
        system.sent[3] == PomodoroEvent::TimerTick(3),
{
    lemma_first_cycle(system, 0);
    lemma_first_cycle(system, 1);
    lemma_first_cycle(system, 2);
    lemma_first_cycle(system, 3);
}

/// On the exact clock each event is fixed by the one before it.  The first
/// tick of a phase reports 1 and each later one reports 1 more than the tick
/// before; a tick reports at most `WORK_SECS`, and in a break at most
/// `BREAK_SECS`.  The break begins after the tick `WORK_SECS` and ends after
/// the tick `BREAK_SECS`, and a task starts only after the end of a break.
pub proof fn lemma_each_event_follows(system: System, i: int)
    requires
        system.on_schedule(),
        0 < i < system.sent.len(),
    ensures
        match system.sent[i] {
            PomodoroEvent::TimerTick(secs) => {
                &&& 1 <= secs <= WORK_SECS
                &&& place(i) > WORK_SECS ==> secs <= BREAK_SECS
                &&& match system.sent[i - 1] {
                    PomodoroEvent::TimerTick(before) => secs == before + 1,
                    PomodoroEvent::TaskStarted => secs == 1,
                    PomodoroEvent::PauseStarted => secs == 1,
                    PomodoroEvent::Idle => false,
                }
            },
            PomodoroEvent::PauseStarted => system.sent[i - 1] == PomodoroEvent::TimerTick(WORK_SECS),
            PomodoroEvent::Idle => system.sent[i - 1] == PomodoroEvent::TimerTick(BREAK_SECS),
            PomodoroEvent::TaskStarted => system.sent[i - 1] == PomodoroEvent::Idle,
        },
{
    lemma_next_place(i - 1);
}

} // verus!
