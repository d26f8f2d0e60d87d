use pomodoro_timer::clock::Timestamp;
use pomodoro_timer::config::{PomodoroConfig, PomodoroState, SessionKind};
use pomodoro_timer::effects::{Effects, Notification, SessionRequest};
use pomodoro_timer::pomodoro::Pomodoro;
use pomodoro_timer::scheduler::{
    dispatch, run_pomodoro_timer, tick_period_seconds, PomodoroCommand, Step, TimedEvent,
    TimerEvent,
};

fn at(millis: i64) -> Timestamp {
    Timestamp::from_millis(millis)
}

fn timer() -> Pomodoro {
    Pomodoro::new(PomodoroConfig {
        work_duration: 1500,
        short_break_duration: 300,
        long_break_duration: 900,
        long_break_after: 4,
    })
}

fn command(command: PomodoroCommand, millis: i64) -> TimedEvent {
    TimedEvent { event: TimerEvent::Command(command), at: at(millis) }
}

fn tick(millis: i64) -> TimedEvent {
    TimedEvent { event: TimerEvent::Tick, at: at(millis) }
}

fn opened(id: i64, millis: i64) -> TimedEvent {
    TimedEvent { event: TimerEvent::SessionOpened(id), at: at(millis) }
}

fn open_work() -> Effects {
    Effects {
        open_session: Some(SessionRequest { kind: SessionKind::Work, duration_seconds: 1500 }),
        ..Effects::none()
    }
}

#[test]
fn tick_period_is_short_while_counting_down() {
    assert_eq!(tick_period_seconds(PomodoroState::Work), 1);
    assert_eq!(tick_period_seconds(PomodoroState::ShortBreak), 1);
    assert_eq!(tick_period_seconds(PomodoroState::LongBreak), 1);
    assert_eq!(tick_period_seconds(PomodoroState::Idle), 2);
    assert_eq!(tick_period_seconds(PomodoroState::Paused), 2);
}

#[test]
fn dispatch_start_begins_work() {
    let mut pomodoro = timer();
    let step = dispatch(&mut pomodoro, TimerEvent::Command(PomodoroCommand::Start), at(0));
    assert_eq!(step, Some(Step { keep_running: true, effects: open_work() }));
    assert_eq!(pomodoro.get_state(), PomodoroState::Work);
    assert_eq!(pomodoro.get_remaining_seconds(), 1500);
}

#[test]
fn dispatch_drops_the_error_of_a_second_start() {
    let mut pomodoro = timer();
    dispatch(&mut pomodoro, TimerEvent::Command(PomodoroCommand::Start), at(0));
    let step = dispatch(&mut pomodoro, TimerEvent::Command(PomodoroCommand::Start), at(5_000));
    assert_eq!(step, Some(Step { keep_running: true, effects: Effects::none() }));
    assert_eq!(pomodoro.get_state(), PomodoroState::Work);
    let ticked = dispatch(&mut pomodoro, TimerEvent::Tick, at(5_000));
    assert_eq!(ticked, Some(Step { keep_running: true, effects: Effects::none() }));
    assert_eq!(pomodoro.get_remaining_seconds(), 1495);
}

#[test]
fn dispatch_drops_the_error_of_a_pause_at_rest() {
    let mut pomodoro = timer();
    let step = dispatch(&mut pomodoro, TimerEvent::Command(PomodoroCommand::Stop), at(0));
    assert_eq!(step, Some(Step { keep_running: true, effects: Effects::none() }));
    assert_eq!(pomodoro.get_state(), PomodoroState::Idle);
}

#[test]
fn dispatch_stop_pauses() {
    let mut pomodoro = timer();
    dispatch(&mut pomodoro, TimerEvent::Command(PomodoroCommand::Start), at(0));
    let step = dispatch(&mut pomodoro, TimerEvent::Command(PomodoroCommand::Stop), at(20_000));
    assert_eq!(step, Some(Step { keep_running: true, effects: Effects::none() }));
    assert_eq!(pomodoro.get_state(), PomodoroState::Paused);
    assert_eq!(pomodoro.get_remaining_seconds(), 1480);
}

#[test]
fn dispatch_next_hands_back_the_record_to_close() {
    let mut pomodoro = timer();
    dispatch(&mut pomodoro, TimerEvent::Command(PomodoroCommand::Start), at(0));
    let recorded = dispatch(&mut pomodoro, TimerEvent::SessionOpened(11), at(1));
    assert_eq!(recorded, Some(Step { keep_running: true, effects: Effects::none() }));
    assert_eq!(pomodoro.current_session(), Some(11));
    let step = dispatch(&mut pomodoro, TimerEvent::Command(PomodoroCommand::Next), at(2));
    assert_eq!(
        step,
        Some(Step {
            keep_running: true,
            effects: Effects {
                open_session: None,
                completed_session: Some(11),
                notification: Some(Notification {
                    armed: SessionKind::ShortBreak,
                    with_hint: false,
                }),
            },
        })
    );
    assert_eq!(pomodoro.get_completed_pomodoros(), 1);
}

#[test]
fn dispatch_tick_at_expiry_arms_the_break() {
    let mut pomodoro = timer();
    dispatch(&mut pomodoro, TimerEvent::Command(PomodoroCommand::Start), at(0));
    let step = dispatch(&mut pomodoro, TimerEvent::Tick, at(1_500_000)).unwrap();
    assert!(step.keep_running);
    assert_eq!(
        step.effects.notification,
        Some(Notification { armed: SessionKind::ShortBreak, with_hint: true })
    );
    assert_eq!(pomodoro.get_state(), PomodoroState::Paused);
}

#[test]
fn dispatch_stops_on_shutdown_and_on_disconnect() {
    let mut pomodoro = timer();
    dispatch(&mut pomodoro, TimerEvent::Command(PomodoroCommand::Start), at(0));
    let shutdown = dispatch(&mut pomodoro, TimerEvent::Command(PomodoroCommand::Shutdown), at(9));
    assert_eq!(shutdown, Some(Step { keep_running: false, effects: Effects::none() }));
    let gone = dispatch(&mut pomodoro, TimerEvent::Disconnected, at(9));
    assert_eq!(gone, Some(Step { keep_running: false, effects: Effects::none() }));
    assert_eq!(pomodoro.get_state(), PomodoroState::Work);
    assert_eq!(pomodoro.get_remaining_seconds(), 1500);
}

#[test]
fn dispatch_refuses_a_resume_whose_anchor_cannot_be_held() {
    let mut pomodoro = timer();
    dispatch(&mut pomodoro, TimerEvent::Command(PomodoroCommand::Start), at(0));
    dispatch(&mut pomodoro, TimerEvent::Command(PomodoroCommand::Stop), at(1_000_000));
    assert_eq!(pomodoro.get_remaining_seconds(), 500);
    let step = dispatch(&mut pomodoro, TimerEvent::Command(PomodoroCommand::Start), at(i64::MIN));
    assert_eq!(step, None);
    assert_eq!(pomodoro.get_state(), PomodoroState::Paused);
    assert_eq!(pomodoro.get_remaining_seconds(), 500);
    assert_eq!(pomodoro.pending_state(), Some(PomodoroState::Work));
}

#[test]
fn run_handles_events_in_order() {
    let mut pomodoro = timer();
    let events = vec![
        command(PomodoroCommand::Start, 0),
        opened(1, 10),
        tick(1_000),
        command(PomodoroCommand::Stop, 2_500),
        tick(3_000),
        command(PomodoroCommand::Start, 60_000),
        tick(61_000),
        command(PomodoroCommand::Next, 62_000),
    ];
    let run = run_pomodoro_timer(&mut pomodoro, &events);
    assert_eq!(run.handled, 8);
    assert!(!run.shut_down);
    assert_eq!(run.effects.len(), 8);
    assert_eq!(run.effects[0], open_work());
    for i in 1..7usize {
        assert_eq!(run.effects[i], Effects::none());
    }
    assert_eq!(
        run.effects[7],
        Effects {
            open_session: None,
            completed_session: Some(1),
            notification: Some(Notification { armed: SessionKind::ShortBreak, with_hint: false }),
        }
    );
    assert_eq!(pomodoro.get_state(), PomodoroState::Paused);
    assert_eq!(pomodoro.pending_state(), Some(PomodoroState::ShortBreak));
    assert_eq!(pomodoro.get_completed_pomodoros(), 1);
    assert_eq!(pomodoro.get_remaining_seconds(), 300);
}

#[test]
fn run_keeps_the_pause_out_of_the_countdown() {
    let mut pomodoro = timer();
    let events = vec![
        command(PomodoroCommand::Start, 0),
        command(PomodoroCommand::Stop, 2_500),
        command(PomodoroCommand::Start, 60_000),
        tick(61_000),
    ];
    let run = run_pomodoro_timer(&mut pomodoro, &events);
    assert_eq!(run.handled, 4);
    assert_eq!(pomodoro.get_state(), PomodoroState::Work);
    assert_eq!(pomodoro.get_remaining_seconds(), 1497);
}

#[test]
fn run_ends_at_the_first_shutdown() {
    let mut pomodoro = timer();
    let events = vec![
        command(PomodoroCommand::Start, 0),
        command(PomodoroCommand::Shutdown, 1_000),
        command(PomodoroCommand::Next, 2_000),
        tick(3_000),
    ];
    let run = run_pomodoro_timer(&mut pomodoro, &events);
    assert_eq!(run.handled, 2);
    assert!(run.shut_down);
    assert_eq!(run.effects, vec![open_work(), Effects::none()]);
    assert_eq!(pomodoro.get_state(), PomodoroState::Work);
    assert_eq!(pomodoro.get_completed_pomodoros(), 0);
}

#[test]
fn run_ends_when_the_sender_is_gone() {
    let mut pomodoro = timer();
    let events = vec![
        TimedEvent { event: TimerEvent::Disconnected, at: at(0) },
        command(PomodoroCommand::Start, 1),
    ];
    let run = run_pomodoro_timer(&mut pomodoro, &events);
    assert_eq!(run.handled, 1);
    assert!(run.shut_down);
    assert_eq!(pomodoro.get_state(), PomodoroState::Idle);
}

#[test]
fn run_of_nothing_changes_nothing() {
    let mut pomodoro = timer();
    let run = run_pomodoro_timer(&mut pomodoro, &Vec::new());
    assert_eq!(run.handled, 0);
    assert!(!run.shut_down);
    assert!(run.effects.is_empty());
    assert_eq!(pomodoro.get_state(), PomodoroState::Idle);
}

#[test]
fn run_stops_before_an_event_it_cannot_handle() {
    let mut pomodoro = timer();
    let events = vec![
        command(PomodoroCommand::Start, 0),
        command(PomodoroCommand::Stop, 1_000_000),
        command(PomodoroCommand::Start, i64::MIN),
        tick(5),
    ];
    let run = run_pomodoro_timer(&mut pomodoro, &events);
    assert_eq!(run.handled, 2);
    assert!(!run.shut_down);
    assert_eq!(run.effects.len(), 2);
    assert_eq!(pomodoro.get_state(), PomodoroState::Paused);
}

#[test]
fn run_through_a_full_cycle() {
    let mut pomodoro = timer();
    let mut events = Vec::new();
    let mut now: i64 = 0;
    for round in 0..4i64 {
        events.push(command(PomodoroCommand::Start, now));
        events.push(opened(100 + round, now));
        now += 1_500_000;
        events.push(tick(now));
        if round < 3 {
            events.push(command(PomodoroCommand::Start, now));
            now += 300_000;
            events.push(tick(now));
        }
    }
    let run = run_pomodoro_timer(&mut pomodoro, &events);
    assert_eq!(run.handled, events.len());
    assert_eq!(pomodoro.get_completed_pomodoros(), 4);
    assert_eq!(pomodoro.get_state(), PomodoroState::Paused);
    assert_eq!(pomodoro.pending_state(), Some(PomodoroState::LongBreak));
    assert_eq!(pomodoro.get_remaining_seconds(), 900);
    let last = run.effects[run.effects.len() - 1];
    assert_eq!(last.completed_session, Some(103));
    assert_eq!(
        last.notification,
        Some(Notification { armed: SessionKind::LongBreak, with_hint: true })
    );
}
