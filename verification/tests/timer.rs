use pomodoro::timer::threshold_reached;
use pomodoro::timer::BREAK_SECS;
use pomodoro::timer::TICK_INTERVAL_SECS;
use pomodoro::timer::WORK_SECS;
use pomodoro::PomodoroCommand;
use pomodoro::PomodoroEvent;
use pomodoro::ProcessState;
use pomodoro::TimerAction;
use pomodoro::TimerState;
use std::time::Duration;
use std::time::Instant;

fn ago(secs: u64) -> Instant {
    Instant::now().checked_sub(Duration::from_secs(secs)).expect("an earlier instant")
}

fn tick_value(state: &ProcessState) -> u64 {
    match state.tick() {
        Some(PomodoroEvent::TimerTick(secs)) => secs,
        other => panic!("not a tick: {:?}", other),
    }
}

#[test]
fn thresholds_are_25_and_5_minutes() {
    assert_eq!(WORK_SECS, 1500);
    assert_eq!(BREAK_SECS, 300);
    assert_eq!(TICK_INTERVAL_SECS, 1);
}

#[test]
fn phases_follow_the_cycle() {
    assert_eq!(TimerState::Idle.next(), TimerState::Running);
    assert_eq!(TimerState::Running.next(), TimerState::Paused);
    assert_eq!(TimerState::Paused.next(), TimerState::Idle);
}

#[test]
fn threshold_reached_at_the_exact_second() {
    assert!(threshold_reached(TimerState::Idle, 0));
    assert!(threshold_reached(TimerState::Idle, 7));
    assert!(!threshold_reached(TimerState::Running, 0));
    assert!(!threshold_reached(TimerState::Running, 1499));
    assert!(threshold_reached(TimerState::Running, 1500));
    assert!(threshold_reached(TimerState::Running, u64::MAX));
    assert!(!threshold_reached(TimerState::Paused, 0));
    assert!(!threshold_reached(TimerState::Paused, 299));
    assert!(threshold_reached(TimerState::Paused, 300));
    assert!(threshold_reached(TimerState::Paused, 1499));
}

#[test]
fn idle_is_always_ready() {
    assert!(ProcessState::Idle.is_ready());
}

#[test]
fn fresh_phase_is_not_ready() {
    assert!(!ProcessState::Running { since: Instant::now() }.is_ready());
    assert!(!ProcessState::Paused { since: Instant::now() }.is_ready());
}

#[test]
fn running_is_ready_after_25_minutes() {
    assert!(!ProcessState::Running { since: ago(1490) }.is_ready());
    assert!(ProcessState::Running { since: ago(1500) }.is_ready());
    assert!(ProcessState::Running { since: ago(4000) }.is_ready());
}

#[test]
fn paused_is_ready_after_5_minutes() {
    assert!(!ProcessState::Paused { since: ago(290) }.is_ready());
    assert!(ProcessState::Paused { since: ago(300) }.is_ready());
}

#[test]
fn timer_state_names_the_phase() {
    assert_eq!(ProcessState::Idle.timer_state(), TimerState::Idle);
    assert_eq!(ProcessState::Running { since: Instant::now() }.timer_state(), TimerState::Running);
    assert_eq!(ProcessState::Paused { since: Instant::now() }.timer_state(), TimerState::Paused);
}

#[test]
fn enter_starts_the_phase_now() {
    assert_eq!(ProcessState::enter(TimerState::Idle).timer_state(), TimerState::Idle);
    let running = ProcessState::enter(TimerState::Running);
    assert_eq!(running.timer_state(), TimerState::Running);
    assert!(tick_value(&running) <= 1);
    let paused = ProcessState::enter(TimerState::Paused);
    assert_eq!(paused.timer_state(), TimerState::Paused);
    assert!(tick_value(&paused) <= 1);
}

#[test]
fn idle_process_awaits_a_command() {
    let mut state = ProcessState::Idle;
    assert_eq!(state.poll(), TimerAction::AwaitCommand);
    assert_eq!(state.timer_state(), TimerState::Idle);
    assert_eq!(state.step(true), TimerAction::AwaitCommand);
    assert_eq!(state.step(false), TimerAction::AwaitCommand);
    assert_eq!(state.timer_state(), TimerState::Idle);
}

#[test]
fn start_command_begins_the_work() {
    let mut state = ProcessState::Idle;
    let action = state.on_command(PomodoroCommand::StartTask);
    assert_eq!(action, TimerAction::Emit(PomodoroEvent::TaskStarted));
    assert_eq!(state.timer_state(), TimerState::Running);
    assert!(tick_value(&state) <= 1);
    assert!(!state.is_ready());
}

#[test]
fn cancel_command_is_reported_and_changes_nothing() {
    let mut state = ProcessState::Idle;
    let action = state.on_command(PomodoroCommand::CancelTask);
    assert_eq!(action, TimerAction::Report(PomodoroCommand::CancelTask));
    assert_eq!(state.timer_state(), TimerState::Idle);
}

#[test]
fn step_keeps_a_phase_that_is_not_over() {
    let since = ago(10);
    let mut state = ProcessState::Running { since };
    assert_eq!(state.step(false), TimerAction::SleepThenTick);
    assert!(matches!(state, ProcessState::Running { since: kept } if kept == since));
    let mut state = ProcessState::Paused { since };
    assert_eq!(state.step(false), TimerAction::SleepThenTick);
    assert!(matches!(state, ProcessState::Paused { since: kept } if kept == since));
}

#[test]
fn step_leaves_a_phase_that_is_over() {
    let mut state = ProcessState::Running { since: ago(10) };
    assert_eq!(state.step(true), TimerAction::Emit(PomodoroEvent::PauseStarted));
    assert_eq!(state.timer_state(), TimerState::Paused);
    assert!(tick_value(&state) <= 1);
    assert_eq!(state.step(true), TimerAction::Emit(PomodoroEvent::Idle));
    assert_eq!(state.timer_state(), TimerState::Idle);
}

#[test]
fn work_ends_after_25_minutes() {
    let mut state = ProcessState::Running { since: ago(1500) };
    assert_eq!(state.poll(), TimerAction::Emit(PomodoroEvent::PauseStarted));
    assert_eq!(state.timer_state(), TimerState::Paused);
    assert!(tick_value(&state) <= 1);
    assert_eq!(state.poll(), TimerAction::SleepThenTick);
    assert_eq!(state.timer_state(), TimerState::Paused);
}

#[test]
fn break_ends_after_5_minutes() {
    let mut state = ProcessState::Paused { since: ago(300) };
    assert_eq!(state.poll(), TimerAction::Emit(PomodoroEvent::Idle));
    assert_eq!(state.timer_state(), TimerState::Idle);
    assert_eq!(state.poll(), TimerAction::AwaitCommand);
}

#[test]
fn work_goes_on_before_25_minutes() {
    let since = ago(1490);
    let mut state = ProcessState::Running { since };
    assert_eq!(state.poll(), TimerAction::SleepThenTick);
    assert!(matches!(state, ProcessState::Running { since: kept } if kept == since));
}

#[test]
fn break_goes_on_before_5_minutes() {
    let since = ago(290);
    let mut state = ProcessState::Paused { since };
    assert_eq!(state.poll(), TimerAction::SleepThenTick);
    assert!(matches!(state, ProcessState::Paused { since: kept } if kept == since));
}

#[test]
fn ticks_report_the_elapsed_seconds() {
    let first = tick_value(&ProcessState::Running { since: ago(1) });
    let second = tick_value(&ProcessState::Running { since: ago(2) });
    let third = tick_value(&ProcessState::Running { since: ago(3) });
    assert!(first == 1 || first == 2);
    assert!(second == 2 || second == 3);
    assert!(third == 3 || third == 4);
    let in_break = tick_value(&ProcessState::Paused { since: ago(120) });
    assert!(in_break == 120 || in_break == 121);
}

#[test]
fn ticks_do_not_decrease_within_a_phase() {
    let state = ProcessState::Running { since: ago(42) };
    let mut last = tick_value(&state);
    assert!(last >= 42);
    let mut i = 0;
    while i < 1000 {
        let next = tick_value(&state);
        assert!(next >= last);
        last = next;
        i += 1;
    }
}

#[test]
fn ticks_restart_after_a_transition() {
    let mut state = ProcessState::Running { since: ago(2000) };
    assert!(tick_value(&state) >= 2000);
    assert_eq!(state.poll(), TimerAction::Emit(PomodoroEvent::PauseStarted));
    assert!(tick_value(&state) <= 1);
}

#[test]
fn idle_process_has_no_tick() {
    assert_eq!(ProcessState::Idle.tick(), None);
}

#[test]
fn ready_after_applies_the_threshold_of_the_phase() {
    let since = Instant::now();
    assert!(ProcessState::Idle.ready_after(0));
    assert!(!ProcessState::Running { since }.ready_after(0));
    assert!(!ProcessState::Running { since }.ready_after(300));
    assert!(!ProcessState::Running { since }.ready_after(1499));
    assert!(ProcessState::Running { since }.ready_after(1500));
    assert!(!ProcessState::Paused { since }.ready_after(299));
    assert!(ProcessState::Paused { since }.ready_after(300));
    assert!(ProcessState::Paused { since }.ready_after(1500));
}

#[test]
fn tick_after_reports_the_seconds_given() {
    let since = Instant::now();
    assert_eq!(ProcessState::Idle.tick_after(5), None);
    assert_eq!(ProcessState::Running { since }.tick_after(0), Some(PomodoroEvent::TimerTick(0)));
    assert_eq!(ProcessState::Running { since }.tick_after(1), Some(PomodoroEvent::TimerTick(1)));
    assert_eq!(ProcessState::Running { since }.tick_after(2), Some(PomodoroEvent::TimerTick(2)));
    assert_eq!(ProcessState::Running { since }.tick_after(3), Some(PomodoroEvent::TimerTick(3)));
    assert_eq!(
        ProcessState::Running { since }.tick_after(1500),
        Some(PomodoroEvent::TimerTick(1500))
    );
    assert_eq!(ProcessState::Paused { since }.tick_after(300), Some(PomodoroEvent::TimerTick(300)));
}

#[test]
fn entered_at_measures_a_timed_phase_from_the_reading() {
    let now = ago(77);
    assert!(matches!(ProcessState::entered_at(TimerState::Idle, now), ProcessState::Idle));
    assert!(matches!(
        ProcessState::entered_at(TimerState::Running, now),
        ProcessState::Running { since } if since == now
    ));
    assert!(matches!(
        ProcessState::entered_at(TimerState::Paused, now),
        ProcessState::Paused { since } if since == now
    ));
}

#[test]
fn step_at_measures_the_next_phase_from_the_reading() {
    let entered = ago(2000);
    let now = ago(10);
    let mut state = ProcessState::Running { since: entered };
    assert_eq!(state.step_at(false, now), TimerAction::SleepThenTick);
    assert!(matches!(state, ProcessState::Running { since } if since == entered));
    assert_eq!(state.step_at(true, now), TimerAction::Emit(PomodoroEvent::PauseStarted));
    assert!(matches!(state, ProcessState::Paused { since } if since == now));
    let later = Instant::now();
    assert_eq!(state.step_at(false, later), TimerAction::SleepThenTick);
    assert!(matches!(state, ProcessState::Paused { since } if since == now));
    assert_eq!(state.step_at(true, later), TimerAction::Emit(PomodoroEvent::Idle));
    assert!(matches!(state, ProcessState::Idle));
    assert_eq!(state.step_at(true, later), TimerAction::AwaitCommand);
    assert!(matches!(state, ProcessState::Idle));
}

#[test]
fn the_break_is_measured_from_the_transition() {
    let mut state = ProcessState::Running { since: ago(1501) };
    assert_eq!(state.poll(), TimerAction::Emit(PomodoroEvent::PauseStarted));
    let first = tick_value(&state);
    assert!(first <= 1);
    assert!(!state.is_ready());
}

#[test]
fn the_work_is_measured_from_the_command() {
    let mut state = ProcessState::Idle;
    let before = Instant::now();
    assert_eq!(
        state.on_command(PomodoroCommand::StartTask),
        TimerAction::Emit(PomodoroEvent::TaskStarted)
    );
    let after = Instant::now();
    assert!(matches!(state, ProcessState::Running { since } if before <= since && since <= after));
}
