use pomodoro::Notification;
use pomodoro::PomodoState;
use pomodoro::PomodoroCommand;
use pomodoro::PomodoroEvent;
use pomodoro::ProcessState;
use pomodoro::StartError;
use pomodoro::TimerAction;
use pomodoro::TimerState;
use std::time::Duration;
use std::time::Instant;
use tokio::sync::mpsc::channel;

fn earlier_by(secs: u64) -> Instant {
    Instant::now().checked_sub(Duration::from_secs(secs)).expect("an earlier instant")
}

fn event_of(action: TimerAction) -> PomodoroEvent {
    match action {
        TimerAction::Emit(event) => event,
        other => panic!("nothing to emit: {:?}", other),
    }
}

#[test]
fn one_full_cycle_through_both_channels() {
    let (to_timer_tx, mut to_timer_rx) = channel::<PomodoroCommand>(1);
    let (from_timer_tx, from_timer_rx) = channel::<PomodoroEvent>(1);
    let mut session = PomodoState::new(to_timer_tx, from_timer_rx);
    let mut timer = ProcessState::Idle;
    let mut phases = vec![session.timer_state()];

    assert_eq!(timer.poll(), TimerAction::AwaitCommand);
    assert_eq!(session.start_task("write spec".to_string()), Ok(()));
    phases.push(session.timer_state());

    let command = to_timer_rx.try_recv().expect("a command is waiting");
    let event = event_of(timer.on_command(command));
    assert_eq!(event, PomodoroEvent::TaskStarted);
    from_timer_tx.try_send(event).expect("room for the event");
    let event = session.try_next_event().expect("an event is waiting");
    assert_eq!(
        session.handle_event(event),
        Notification::PhaseChanged { phase: TimerState::Running, reveal: false }
    );
    phases.push(session.timer_state());

    assert_eq!(timer.poll(), TimerAction::SleepThenTick);
    let tick = timer.tick().expect("a tick");
    from_timer_tx.try_send(tick).expect("room for the event");
    let event = session.try_next_event().expect("an event is waiting");
    assert!(matches!(session.handle_event(event), Notification::Tick(secs) if secs <= 1));
    phases.push(session.timer_state());
    assert_eq!(session.start_task("x".to_string()), Err(StartError::AlreadyRunning));

    timer = ProcessState::Running { since: earlier_by(25 * 60) };
    let event = event_of(timer.poll());
    assert_eq!(event, PomodoroEvent::PauseStarted);
    assert_eq!(timer.timer_state(), TimerState::Paused);
    from_timer_tx.try_send(event).expect("room for the event");
    let event = session.try_next_event().expect("an event is waiting");
    assert_eq!(
        session.handle_event(event),
        Notification::PhaseChanged { phase: TimerState::Paused, reveal: true }
    );
    phases.push(session.timer_state());
    assert_eq!(session.start_task("x".to_string()), Err(StartError::AlreadyPaused));

    timer = ProcessState::Paused { since: earlier_by(5 * 60) };
    let event = event_of(timer.poll());
    assert_eq!(event, PomodoroEvent::Idle);
    assert_eq!(timer.timer_state(), TimerState::Idle);
    from_timer_tx.try_send(event).expect("room for the event");
    let event = session.try_next_event().expect("an event is waiting");
    assert_eq!(
        session.handle_event(event),
        Notification::PhaseChanged { phase: TimerState::Idle, reveal: true }
    );
    phases.push(session.timer_state());

    assert_eq!(
        phases,
        vec![
            TimerState::Idle,
            TimerState::Running,
            TimerState::Running,
            TimerState::Running,
            TimerState::Paused,
            TimerState::Idle,
        ]
    );
    assert_eq!(session.past_tasks().len(), 1);
    assert_eq!(session.past_tasks()[0].name, "write spec");
    assert!(session.past_tasks()[0].end_time.is_some());
    assert!(session.current_task().is_none());
    assert_eq!(session.try_next_event(), None);

    assert_eq!(session.start_task("next".to_string()), Ok(()));
    assert_eq!(to_timer_rx.try_recv(), Ok(PomodoroCommand::StartTask));
    assert_eq!(session.current_task().expect("a task is in flight").name, "next");
    assert_eq!(session.past_tasks().len(), 1);
}
