//! The session record: the phase that the application shows, the task in
//! flight and the history of finished tasks, with the channel ends that join
//! it to the timer process.
//!
//! The record is meant to sit behind one lock.  A caller starts a task with
//! [`PomodoState::start_task`]; the controller takes the timer's events with
//! [`PomodoState::try_next_event`] and folds each into the record with
//! [`PomodoState::handle_event`], which says what to tell the user interface.

use crate::clock::local_now;
use crate::clock::Timestamp;
use crate::protocol::PomodoroCommand;
use crate::protocol::PomodoroEvent;
use crate::protocol::TimerState;
use crate::task::Task;
use crate::task::TaskView;
use tokio::sync::mpsc::error::TrySendError;
use tokio::sync::mpsc::Receiver;
use tokio::sync::mpsc::Sender;
use vstd::prelude::*;

verus! {

/// The number of commands that the command channel holds at most: one
/// command that the timer process has not yet received.
pub const COMMAND_CHANNEL_CAPACITY: usize = 1;

/// Why a task was not started.
#[derive(Clone, Copy, Debug, PartialEq, Eq, Structural)]
pub enum StartError {
    /// A work interval is under way.
    AlreadyRunning,
    /// A break is under way.
    AlreadyPaused,
    /// The command channel did not take the command without waiting.
    ChannelUnavailable,
}

impl StartError {
    /// The reason in words.
    pub open spec fn text(self) -> Seq<char> {
        match self {
            StartError::AlreadyRunning => "Timer already running"@,
            StartError::AlreadyPaused => "Timer is paused"@,
            StartError::ChannelUnavailable => "Command channel unavailable"@,
        }
    }

    /// The reason in words, for a caller that wants text.
    pub fn message(&self) -> (text: String)
        ensures
            text@ == self.text(),
    {
        match self {
            StartError::AlreadyRunning => "Timer already running".to_owned(),
            StartError::AlreadyPaused => "Timer is paused".to_owned(),
            StartError::ChannelUnavailable => "Command channel unavailable".to_owned(),
        }
    }
}

/// What the controller tells the user interface after an event.
#[derive(Clone, Copy, Debug, PartialEq, Eq, Structural)]
pub enum Notification {
    /// The phase is now `phase`.  With `reveal`, a hidden main surface is
    /// shown again.
    PhaseChanged { phase: TimerState, reveal: bool },
    /// Whole seconds elapsed since the current phase began.
    Tick(u64),
}

/// What a session record holds, without the channel ends.
pub struct SessionView {
    pub phase: TimerState,
    /// The finished tasks, oldest first.
    pub past_tasks: Seq<TaskView>,
    /// The task in flight, if any.
    pub current_task: Option<TaskView>,
}

/// The error with which a start is turned away in `phase`, if it is.
pub open spec fn refusal(phase: TimerState) -> Option<StartError> {
    match phase {
        TimerState::Idle => None,
        TimerState::Running => Some(StartError::AlreadyRunning),
        TimerState::Paused => Some(StartError::AlreadyPaused),
    }
}

/// What the caller of a start is told in `phase`, where `sent` says whether the
/// command channel took the command: a refusal comes before the channel is
/// tried.
pub open spec fn start_result(phase: TimerState, sent: bool) -> Result<(), StartError> {
    match refusal(phase) {
        Some(e) => Err(e),
        None => if sent {
            Ok(())
        } else {
            Err(StartError::ChannelUnavailable)
        },
    }
}

/// The notification that an event calls for.
pub open spec fn notification(event: PomodoroEvent) -> Notification {
    match event {
        PomodoroEvent::TaskStarted => Notification::PhaseChanged {
            phase: TimerState::Running,
            reveal: false,
        },
        PomodoroEvent::PauseStarted => Notification::PhaseChanged {
            phase: TimerState::Paused,
            reveal: true,
        },
        PomodoroEvent::Idle => Notification::PhaseChanged { phase: TimerState::Idle, reveal: true },
        PomodoroEvent::TimerTick(secs) => Notification::Tick(secs),
    }
}

impl SessionView {
    /// The record of a session in which nothing has happened yet.
    pub open spec fn initial() -> SessionView {
        SessionView { phase: TimerState::Idle, past_tasks: Seq::empty(), current_task: None }
    }

    /// The task in flight has no end, and every task in the history has one.
    pub open spec fn wf(self) -> bool {
        &&& self.current_task matches Some(task) ==> !task.is_finished()
        &&& forall|i: int|
            0 <= i < self.past_tasks.len() ==> (#[trigger] self.past_tasks[i]).is_finished()
    }

    /// A task is in flight and has no end.
    pub open spec fn has_unfinished_task(self) -> bool {
        self.current_task matches Some(task) && !task.is_finished()
    }

    /// A task is in flight exactly while the phase is `Running`.
    pub open spec fn consistent(self) -> bool {
        self.current_task is Some <==> self.phase == TimerState::Running
    }

    /// The event comes at its place in the timer's protocol.
    pub open spec fn expects(self, event: PomodoroEvent) -> bool {
        event.expected_in(self.phase)
    }

    /// The record after the task `name` has been begun at wall-clock time
    /// `start`: an idle session begins the task, any other is left as it is.
    pub open spec fn started(self, name: Seq<char>, start: Timestamp) -> SessionView {
        if self.phase == TimerState::Idle {
            SessionView {
                phase: TimerState::Running,
                current_task: Some(TaskView::begun(name, start)),
                ..self
            }
        } else {
            self
        }
    }

    /// The record after a call to start the task `name`, where `start` is the
    /// wall clock's reading and `sent` says whether the command channel took
    /// the command: a start that succeeds begins the task, any other leaves
    /// the record as it is.
    pub open spec fn start(self, name: Seq<char>, start: Timestamp, sent: bool) -> SessionView {
        if start_result(self.phase, sent) is Ok {
            self.started(name, start)
        } else {
            self
        }
    }

    /// The record after the task in flight, if there is one, has been ended at
    /// `end` and moved to the history, and the break has begun.
    pub open spec fn finalized(self, end: Timestamp) -> SessionView {
        SessionView {
            phase: TimerState::Paused,
            past_tasks: match self.current_task {
                Some(task) => self.past_tasks.push(task.ended(end)),
                None => self.past_tasks,
            },
            current_task: None,
        }
    }

    /// The record after an event has been handled at wall-clock time `now`.
    pub open spec fn handled(self, event: PomodoroEvent, now: Timestamp) -> SessionView {
        match event {
            PomodoroEvent::TaskStarted => SessionView { phase: TimerState::Running, ..self },
            PomodoroEvent::PauseStarted => self.finalized(now),
            PomodoroEvent::Idle => SessionView { phase: TimerState::Idle, ..self },
            PomodoroEvent::TimerTick(_) => self,
        }
    }
}

/// The session record.
pub struct PomodoState {
    timer_state: TimerState,
    past_tasks: Vec<Task>,
    current_task: Option<Task>,
    cmd_channel: Sender<PomodoroCommand>,
    event_channel: Receiver<PomodoroEvent>,
}

impl View for PomodoState {
    type V = SessionView;

    closed spec fn view(&self) -> SessionView {
        SessionView {
            phase: self.timer_state,
            past_tasks: self.past_tasks@.map_values(|task: Task| task@),
            current_task: match self.current_task {
                Some(task) => Some(task@),
                None => None,
            },
        }
    }
}

impl PomodoState {
    /// The sending half of the command channel that the record holds.
    pub closed spec fn command_end(&self) -> Sender<PomodoroCommand> {
        self.cmd_channel
    }

    /// The receiving half of the event channel that the record holds.
    pub closed spec fn event_end(&self) -> Receiver<PomodoroEvent> {
        self.event_channel
    }
}

/// Whether a start is admitted in `phase`: if it is, the command to forward to
/// the timer process, and if not, why not.
pub fn admission(phase: TimerState) -> (admitted: Result<PomodoroCommand, StartError>)
    ensures
        match refusal(phase) {
            Some(e) => admitted == Err::<PomodoroCommand, StartError>(e),
            None => admitted == Ok::<PomodoroCommand, StartError>(PomodoroCommand::StartTask),
        },
{
    match phase {
        TimerState::Idle => Ok(PomodoroCommand::StartTask),
        TimerState::Running => Err(StartError::AlreadyRunning),
        TimerState::Paused => Err(StartError::AlreadyPaused),
    }
}

/// What the caller of an admitted start is told, given what the command
/// channel said to the command.
pub fn forwarded(sent: Result<(), TrySendError<PomodoroCommand>>) -> (result: Result<
    (),
    StartError,
>)
    ensures
        result == start_result(TimerState::Idle, sent is Ok),
{
    match sent {
        Ok(()) => Ok(()),
        Err(_) => Err(StartError::ChannelUnavailable),
    }
}

/// The notification that an event calls for.
pub fn notification_for(event: PomodoroEvent) -> (notice: Notification)
    ensures
        notice == notification(event),
{
    match event {
        PomodoroEvent::TaskStarted => Notification::PhaseChanged {
            phase: TimerState::Running,
            reveal: false,
        },
        PomodoroEvent::PauseStarted => Notification::PhaseChanged {
            phase: TimerState::Paused,
            reveal: true,
        },
        PomodoroEvent::Idle => Notification::PhaseChanged { phase: TimerState::Idle, reveal: true },
        PomodoroEvent::TimerTick(secs) => Notification::Tick(secs),
    }
}

impl PomodoState {
    /// The record of a fresh session, joined to the timer process by the two
    /// channel ends.
    pub fn new(cmd_channel: Sender<PomodoroCommand>, event_channel: Receiver<PomodoroEvent>) -> (state:
        Self)
        ensures
            state@ == SessionView::initial(),
            state.command_end() == cmd_channel,
            state.event_end() == event_channel,
    {
        let state = PomodoState {
            timer_state: TimerState::Idle,
            past_tasks: Vec::new(),
            current_task: None,
            cmd_channel,
            event_channel,
        };
        assert(state@.past_tasks =~= Seq::empty());
        state
    }

    /// The current phase.
    pub fn timer_state(&self) -> (phase: TimerState)
        ensures
            phase == self@.phase,
    {
        self.timer_state
    }

    /// The finished tasks, oldest first.
    pub fn past_tasks(&self) -> (tasks: &Vec<Task>)
        ensures
            tasks@.map_values(|task: Task| task@) == self@.past_tasks,
    {
        &self.past_tasks
    }

    /// The task in flight, if any.
    pub fn current_task(&self) -> (task: Option<&Task>)
        ensures
            task is Some <==> self@.current_task is Some,
            task matches Some(t) ==> self@.current_task == Some(t@),
    {
        match &self.current_task {
            Some(task) => Some(task),
            None => None,
        }
    }

    /// Starts the task `task`, if the session is idle and the command channel
    /// takes `StartTask` without waiting.  Then the phase becomes `Running`
    /// and the task is in flight from the wall clock's reading on, whatever
    /// the reading is.  Whether the channel takes the command is for the
    /// channel to say; if it does not, the result is `ChannelUnavailable`.  A
    /// start that fails leaves the record as it is, so the caller may try
    /// again.
    pub fn start_task(&mut self, task: String) -> (result: Result<(), StartError>)
        ensures
            exists|sent: bool| result == #[trigger] start_result(old(self)@.phase, sent),
            result is Ok ==> exists|start: Timestamp|
                final(self)@ == #[trigger] old(self)@.started(task@, start),
            result is Err ==> final(self)@ == old(self)@,
            old(self)@.wf() ==> final(self)@.wf(),
            final(self).command_end() == old(self).command_end(),
            final(self).event_end() == old(self).event_end(),
    {
        match admission(self.timer_state) {
            Err(e) => {
                assert(Err::<(), StartError>(e) == start_result(self@.phase, false));
                Err(e)
            },
            Ok(command) => match forwarded(self.cmd_channel.try_send(command)) {
                Err(e) => Err(e),
                Ok(()) => {
                    let task = Task::new(task);
                    let ghost start = task.start_time;
                    self.timer_state = TimerState::Running;
                    self.current_task = Some(task);
                    assert(self@ == old(self)@.started(task@.name, start));
                    Ok(())
                },
            },
        }
    }

    /// Ends the task in flight at `end`, moves it to the end of the history and
    /// begins the break.
    pub fn finalize_current(&mut self, end: Timestamp)
        requires
            old(self)@.has_unfinished_task(),
        ensures
            final(self)@ == old(self)@.finalized(end),
            old(self)@.wf() ==> final(self)@.wf(),
            final(self).command_end() == old(self).command_end(),
            final(self).event_end() == old(self).event_end(),
    {
        let mut task = self.current_task.take().unwrap();
        task.finish_at(end);
        self.past_tasks.push(task);
        self.timer_state = TimerState::Paused;
        assert(self@.past_tasks =~= old(self)@.finalized(end).past_tasks);
    }

    /// Folds one event of the timer process into the record and says what to
    /// tell the user interface.  When the break begins, the task in flight is
    /// ended at the wall clock's reading, whatever it is, and moved to the
    /// history; there must be one.
    pub fn handle_event(&mut self, event: PomodoroEvent) -> (notice: Notification)
        requires
            event is PauseStarted ==> old(self)@.has_unfinished_task(),
        ensures
            exists|now: Timestamp| final(self)@ == #[trigger] old(self)@.handled(event, now),
            notice == notification(event),
            old(self)@.wf() ==> final(self)@.wf(),
            final(self).command_end() == old(self).command_end(),
            final(self).event_end() == old(self).event_end(),
    {
        let ghost mut now: Timestamp = arbitrary();
        match event {
            PomodoroEvent::TaskStarted => {
                self.timer_state = TimerState::Running;
            },
            PomodoroEvent::PauseStarted => {
                let end = local_now();
                proof {
                    now = end;
                }
                self.finalize_current(end);
            },
            PomodoroEvent::Idle => {
                self.timer_state = TimerState::Idle;
            },
            PomodoroEvent::TimerTick(_) => {},
        }
        assert(self@ == old(self)@.handled(event, now));
        notification_for(event)
    }

    /// Takes the next event of the timer process, if one is waiting.  The
    /// record itself is not touched.
    pub fn try_next_event(&mut self) -> (event: Option<PomodoroEvent>)
        ensures
            final(self)@ == old(self)@,
            final(self).command_end() == old(self).command_end(),
    {
        received(self.event_channel.try_recv())
    }
}

/// What the controller has to handle, given what the event channel said to a
/// receive that does not wait: the event, if one came, and nothing if the
/// channel was empty or its sending half is gone.
pub fn received(outcome: Result<PomodoroEvent, tokio::sync::mpsc::error::TryRecvError>) -> (event:
    Option<PomodoroEvent>)
    ensures
        event == match outcome {
            Ok(e) => Some(e),
            Err(_) => None::<PomodoroEvent>,
        },
{
    match outcome {
        Ok(event) => Some(event),
        Err(_) => None,
    }
}

} // verus!
