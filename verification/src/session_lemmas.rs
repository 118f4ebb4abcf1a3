//! What holds of the session record whatever the callers, the clocks and the
//! channels do: which starts are admitted, how the phase moves, and what
//! becomes of the tasks.

use crate::clock::Timestamp;
use crate::protocol::PomodoroEvent;
use crate::protocol::TimerState;
use crate::session::notification;
use crate::session::start_result;
use crate::session::Notification;
use crate::session::SessionView;
use crate::session::StartError;
use crate::task::TaskView;
use vstd::prelude::*;

verus! {

/// One call to start a task, with what the outside world adds to it: the
/// wall clock's reading and whether the command channel takes the command.
pub struct StartCall {
    pub name: Seq<char>,
    pub start: Timestamp,
    pub sent: bool,
}

impl StartCall {
    /// What the caller is told when the call is made to `session`.
    pub open spec fn result(self, session: SessionView) -> Result<(), StartError> {
        start_result(session.phase, self.sent)
    }

    /// The record after the call has been made to `session`.
    pub open spec fn after(self, session: SessionView) -> SessionView {
        session.start(self.name, self.start, self.sent)
    }
}

/// The result is one of the two errors that say that a task is under way.
pub open spec fn under_way(result: Result<(), StartError>) -> bool {
    result == Err::<(), StartError>(StartError::AlreadyRunning) || result == Err::<
        (),
        StartError,
    >(StartError::AlreadyPaused)
}

/// The record after the calls in `calls` have been made one after the other,
/// and what each caller was told.
pub open spec fn run_starts(session: SessionView, calls: Seq<StartCall>) -> (
    SessionView,
    Seq<Result<(), StartError>>,
)
    decreases calls.len(),
{
    if calls.len() == 0 {
        (session, Seq::empty())
    } else {
        let (before, results) = run_starts(session, calls.drop_last());
        (calls.last().after(before), results.push(calls.last().result(before)))
    }
}

/// A start succeeds exactly if the session is idle and the command channel
/// takes the command.  Then the session is running, with the new task in
/// flight.  A start that fails changes nothing; in a session that is not idle
/// it fails with one of the two errors that say that a task is under way.
pub proof fn lemma_start_once(session: SessionView, call: StartCall)
    ensures
        call.result(session) is Ok <==> session.phase == TimerState::Idle && call.sent,
        call.result(session) is Ok ==> call.after(session) == (SessionView {
            phase: TimerState::Running,
            current_task: Some(TaskView::begun(call.name, call.start)),
            ..session
        }),
        call.result(session) is Err ==> call.after(session) == session,
        session.phase != TimerState::Idle <==> under_way(call.result(session)),
        session.phase.steps_to(call.after(session).phase),
        session.wf() ==> call.after(session).wf(),
        session.consistent() ==> call.after(session).consistent(),
{
}

/// Of any number of starts made one after the other, with no event handled in
/// between, at most one succeeds.  Every start before it found an idle session
/// and a command channel that did not take the command, and changed nothing;
/// every start after it is turned away with `AlreadyRunning` and changes
/// nothing.  So the record is as the one success left it, or, with no
/// success, as it was.
pub proof fn lemma_starts_in_a_row(session: SessionView, calls: Seq<StartCall>)
    ensures
        run_starts(session, calls).1.len() == calls.len(),
        forall|i: int, j: int|
            0 <= i < j < calls.len() && (#[trigger] run_starts(session, calls).1[i]) is Ok ==> (
            #[trigger] run_starts(session, calls).1[j]) == Err::<(), StartError>(
                StartError::AlreadyRunning,
            ),
        forall|i: int|
            0 <= i < calls.len() && (#[trigger] run_starts(session, calls).1[i]) is Ok ==> {
                &&& session.phase == TimerState::Idle
                &&& calls[i].sent
                &&& run_starts(session, calls).0 == calls[i].after(session)
            },
        (forall|i: int|
            0 <= i < calls.len() ==> (#[trigger] run_starts(session, calls).1[i]) is Err)
            ==> run_starts(session, calls).0 == session,
        session.phase != TimerState::Idle ==> forall|i: int|
            0 <= i < calls.len() ==> under_way(#[trigger] run_starts(session, calls).1[i]),
    decreases calls.len(),
{
    if calls.len() > 0 {
        let earlier = calls.drop_last();
        lemma_starts_in_a_row(session, earlier);
        let before = run_starts(session, earlier).0;
        let results = run_starts(session, earlier).1;
        lemma_start_once(before, calls.last());
        assert forall|i: int| 0 <= i < earlier.len() implies #[trigger] run_starts(
            session,
            calls,
        ).1[i] == results[i] && calls[i] == earlier[i] by {}
        let all = run_starts(session, calls).1;
        if forall|i: int| 0 <= i < calls.len() ==> (#[trigger] all[i]) is Err {
            assert forall|i: int| 0 <= i < earlier.len() implies (#[trigger] results[i]) is Err by {
                assert(all[i] == results[i]);
            }
            assert(all[calls.len() - 1] is Err);
        }
        if forall|i: int| 0 <= i < earlier.len() ==> (#[trigger] results[i]) is Err {
            assert(before == session);
        } else {
            let k = choose|k: int| 0 <= k < earlier.len() && !((#[trigger] results[k]) is Err);
            assert(results[k] is Ok);
            assert(before == earlier[k].after(session));
            lemma_start_once(session, earlier[k]);
        }
    }
}

/// When the command channel takes every command, the first of any number of
/// starts made one after the other to an idle session succeeds, and every
/// other is turned away with `AlreadyRunning`.
pub proof fn lemma_one_start_wins(session: SessionView, calls: Seq<StartCall>)
    requires
        calls.len() > 0,
        session.phase == TimerState::Idle,
        calls[0].sent,
    ensures
        run_starts(session, calls).1[0] is Ok,
        forall|j: int|
            1 <= j < calls.len() ==> (#[trigger] run_starts(session, calls).1[j]) == Err::<
                (),
                StartError,
            >(StartError::AlreadyRunning),
        run_starts(session, calls).0 == calls[0].after(session),
    decreases calls.len(),
{
    lemma_starts_in_a_row(session, calls);
    lemma_first_result(session, calls);
    lemma_start_once(session, calls[0]);
}

/// The first caller is told what a single call would be told.
pub proof fn lemma_first_result(session: SessionView, calls: Seq<StartCall>)
    requires
        calls.len() > 0,
    ensures
        run_starts(session, calls).1.len() == calls.len(),
        run_starts(session, calls).1[0] == calls[0].result(session),
    decreases calls.len(),
{
    let earlier = calls.drop_last();
    if earlier.len() == 0 {
        assert(run_starts(session, earlier).1.len() == 0);
    } else {
        lemma_first_result(session, earlier);
    }
}

/// Handling an event moves the phase along the cycle Idle, Running, Paused,
/// Idle, or leaves it, unless the event comes out of turn in one of three
/// ways, and only then: the start of a task during the break, the start of
/// the break in an idle session, or the end of the break during the work.
pub proof fn lemma_event_follows_cycle(session: SessionView, event: PomodoroEvent, now: Timestamp)
    ensures
        session.phase.steps_to(session.handled(event, now).phase) <==> !{
            ||| event is TaskStarted && session.phase == TimerState::Paused
            ||| event is PauseStarted && session.phase == TimerState::Idle
            ||| event is Idle && session.phase == TimerState::Running
        },
{
}

/// An event that comes at its place in the timer's protocol keeps the record
/// in order: the phase moves along the cycle or stays, a task is in flight
/// exactly while the phase is `Running`, and when the break begins there is an
/// unfinished task to end.
pub proof fn lemma_expected_event_keeps_order(
    session: SessionView,
    event: PomodoroEvent,
    now: Timestamp,
)
    requires
        session.wf(),
        session.consistent(),
        session.expects(event),
    ensures
        event is PauseStarted ==> session.has_unfinished_task(),
        session.handled(event, now).wf(),
        session.handled(event, now).consistent(),
        session.phase.steps_to(session.handled(event, now).phase),
{
}

/// The history only grows, and only at its end: no start and no event changes
/// a task that is in it.  With the task in flight unfinished, the end of a
/// task is therefore set once, when the task enters the history.
pub proof fn lemma_history_is_kept(
    session: SessionView,
    call: StartCall,
    event: PomodoroEvent,
    now: Timestamp,
)
    ensures
        call.after(session).past_tasks == session.past_tasks,
        session.past_tasks.is_prefix_of(session.handled(event, now).past_tasks),
        session.handled(event, now).past_tasks.len() <= session.past_tasks.len() + 1,
        session.handled(event, now).past_tasks.len() == session.past_tasks.len() + 1 ==> {
            &&& event is PauseStarted
            &&& session.current_task is Some
            &&& session.handled(event, now).past_tasks.last() == session.current_task.unwrap().ended(
                now,
            )
        },
{
}

/// A tick leaves the record as it is and reaches the user interface with the
/// value that the timer process gave it.
pub proof fn lemma_tick_passes_through(session: SessionView, secs: u64, now: Timestamp)
    ensures
        session.handled(PomodoroEvent::TimerTick(secs), now) == session,
        notification(PomodoroEvent::TimerTick(secs)) == Notification::Tick(secs),
{
}

} // verus!
