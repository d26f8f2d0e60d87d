//! The scheduler: which operation of the timer an event calls for. The
//! caller waits for the events, a tick of the clock or a command of the
//! user, and carries out the effects; everything in between is decided
//! here.

use vstd::prelude::*;
use crate::clock::Timestamp;
use crate::config::PomodoroState;
use crate::effects::Effects;
use crate::model::TimerModel;
use crate::pomodoro::Pomodoro;

verus! {

/// What the user can ask of the timer.
#[derive(Debug, Clone, Copy, PartialEq, Eq, Structural)]
pub enum PomodoroCommand {
    Start,
    Stop,
    Next,
    Shutdown,
}

/// What can wake the scheduler.
#[derive(Debug, Clone, Copy, PartialEq, Eq, Structural)]
pub enum TimerEvent {
    /// The tick period has passed.
    Tick,
    /// The user sent a command.
    Command(PomodoroCommand),
    /// The record that the timer asked for was opened under this
    /// identifier.
    SessionOpened(i64),
    /// The sender of commands is gone.
    Disconnected,
}

/// An event and the instant at which it arrived.
#[derive(Debug, Clone, Copy, PartialEq, Eq, Structural)]
pub struct TimedEvent {
    pub event: TimerEvent,
    pub at: Timestamp,
}

/// The outcome of handling one event.
#[derive(Debug, Clone, Copy, PartialEq, Eq)]
pub struct Step {
    /// Whether the scheduler goes on waiting for events.
    pub keep_running: bool,
    /// What the caller has to carry out.
    pub effects: Effects,
}

/// The outcome of handling a sequence of events.
#[derive(Debug, Clone, PartialEq, Eq)]
pub struct Run {
    /// How many events were handled, from the first on.
    pub handled: usize,
    /// Whether the last event handled ended the run.
    pub shut_down: bool,
    /// The effects of each event handled, in order.
    pub effects: Vec<Effects>,
}

/// Whether `event` ends the scheduler: a shutdown command, or the loss of
/// the sender of commands.
pub open spec fn ends_run(event: TimerEvent) -> bool {
    event == TimerEvent::Command(PomodoroCommand::Shutdown) || event is Disconnected
}

/// Whether the operation that `event` calls for can be carried out with the
/// numbers the machine can hold.
pub open spec fn can_handle(m: TimerModel, event: TimerEvent, now: int) -> bool {
    match event {
        TimerEvent::Tick => m.phase is Work ==> m.completed < usize::MAX,
        TimerEvent::Command(PomodoroCommand::Start) => m.can_start(now),
        TimerEvent::Command(PomodoroCommand::Next) => m.ends_work() ==> m.completed < usize::MAX,
        _ => true,
    }
}

/// The timer after `event` at `now`: a tick updates the countdown, a command
/// calls the operation of its name, and an operation that fails leaves the
/// timer as it was.
pub open spec fn handle(m: TimerModel, event: TimerEvent, now: int) -> TimerModel {
    match event {
        TimerEvent::Tick => m.tick(now),
        TimerEvent::Command(PomodoroCommand::Start) => m.start(now),
        TimerEvent::Command(PomodoroCommand::Stop) => m.pause(now),
        TimerEvent::Command(PomodoroCommand::Next) => m.advance(),
        TimerEvent::SessionOpened(id) => m.session_opened(id),
        _ => m,
    }
}

/// What handling `event` at `now` asks of the caller. The error of an
/// operation that fails is dropped.
pub open spec fn handle_effects(m: TimerModel, event: TimerEvent, now: int) -> Effects {
    match event {
        TimerEvent::Tick => m.tick_effects(now),
        TimerEvent::Command(PomodoroCommand::Start) => match m.start_outcome() {
            Ok(effects) => effects,
            Err(_) => Effects::nothing(),
        },
        TimerEvent::Command(PomodoroCommand::Next) => m.advance_effects(),
        _ => Effects::nothing(),
    }
}

/// The timer after the first `n` of `events`, each handled in the state
/// that the ones before it left.
pub open spec fn state_after(m: TimerModel, events: Seq<TimedEvent>, n: nat) -> TimerModel
    decreases n,
{
    if n == 0 {
        m
    } else {
        let before = (n - 1) as nat;
        handle(state_after(m, events, before), events[before as int].event, events[before as int].at@)
    }
}

/// Whether the event at `i` can be handled in the state that the events
/// before it left.
pub open spec fn can_handle_at(m: TimerModel, events: Seq<TimedEvent>, i: int) -> bool {
    can_handle(state_after(m, events, i as nat), events[i].event, events[i].at@)
}

/// What the event at `i` asks of the caller in the state that the events
/// before it left.
pub open spec fn effects_at(m: TimerModel, events: Seq<TimedEvent>, i: int) -> Effects {
    handle_effects(state_after(m, events, i as nat), events[i].event, events[i].at@)
}

/// The seconds to wait for the next tick: one while a countdown runs, two
/// while the timer stands still.
pub fn tick_period_seconds(state: PomodoroState) -> (seconds: u64)
    ensures
        seconds == if state.counts_down() {
            1u64
        } else {
            2u64
        },
{
    if state.is_static() {
        2
    } else {
        1
    }
}

/// Handles one event. The result is `None`, and the timer unchanged, when
/// the operation that the event calls for cannot be carried out with the
/// numbers the machine can hold.
pub fn dispatch(pomodoro: &mut Pomodoro, event: TimerEvent, now: Timestamp) -> (step: Option<Step>)
    ensures
        step is Some <==> can_handle(old(pomodoro)@, event, now@),
        step is None ==> final(pomodoro)@ == old(pomodoro)@,
        step matches Some(s) ==> {
            &&& final(pomodoro)@ == handle(old(pomodoro)@, event, now@)
            &&& s.effects == handle_effects(old(pomodoro)@, event, now@)
            &&& s.keep_running == !ends_run(event)
        },
{
    match event {
        TimerEvent::Tick => {
            if matches!(pomodoro.get_state(), PomodoroState::Work)
                && pomodoro.get_completed_pomodoros() == usize::MAX {
                return None;
            }
            let effects: Effects = pomodoro.update(now);
            Some(Step { keep_running: true, effects })
        },
        TimerEvent::Command(PomodoroCommand::Start) => {
            if !pomodoro.can_start(now) {
                return None;
            }
            let effects: Effects = match pomodoro.start(now) {
                Ok(effects) => effects,
                Err(_) => Effects::none(),
            };
            Some(Step { keep_running: true, effects })
        },
        TimerEvent::Command(PomodoroCommand::Stop) => {
            let _ = pomodoro.stop(now);
            Some(Step { keep_running: true, effects: Effects::none() })
        },
        TimerEvent::Command(PomodoroCommand::Next) => {
            if !pomodoro.can_advance() {
                return None;
            }
            let effects: Effects = match pomodoro.next() {
                Ok(effects) => effects,
                Err(_) => Effects::none(),
            };
            Some(Step { keep_running: true, effects })
        },
        TimerEvent::SessionOpened(id) => {
            pomodoro.session_opened(id);
            Some(Step { keep_running: true, effects: Effects::none() })
        },
        TimerEvent::Command(PomodoroCommand::Shutdown) | TimerEvent::Disconnected => Some(
            Step { keep_running: false, effects: Effects::none() },
        ),
    }
}

/// Handles `events` in the order given, each in the state that the ones
/// before it left, up to and including the first that ends the run. The run
/// also stops before an event that cannot be handled with the numbers the
/// machine can hold.
pub fn run_pomodoro_timer(pomodoro: &mut Pomodoro, events: &Vec<TimedEvent>) -> (run: Run)
    ensures
        run.handled <= events.len(),
        final(pomodoro)@ == state_after(old(pomodoro)@, events@, run.handled as nat),
        run.effects@.len() == run.handled,
        forall|i: int|
            0 <= i < run.handled ==> can_handle_at(old(pomodoro)@, events@, i) && run.effects@[i]
                == effects_at(old(pomodoro)@, events@, i),
        forall|i: int| 0 <= i < run.handled - 1 ==> !ends_run(#[trigger] events@[i].event),
        run.shut_down <==> run.handled > 0 && ends_run(events@[run.handled - 1].event),
        !run.shut_down && run.handled < events.len() ==> !can_handle_at(
            old(pomodoro)@,
            events@,
            run.handled as int,
        ),
{
    let mut effects: Vec<Effects> = Vec::new();
    let mut handled: usize = 0;
    let mut shut_down: bool = false;
    while handled < events.len() && !shut_down
        invariant
            handled <= events.len(),
            pomodoro@ == state_after(old(pomodoro)@, events@, handled as nat),
            effects@.len() == handled,
            forall|i: int|
                0 <= i < handled ==> can_handle_at(old(pomodoro)@, events@, i) && effects@[i]
                    == effects_at(old(pomodoro)@, events@, i),
            forall|i: int|
                0 <= i < handled - 1 ==> !ends_run(#[trigger] events@[i].event),
            shut_down <==> handled > 0 && ends_run(events@[handled - 1].event),
        decreases events.len() - handled + if shut_down { 0int } else { 1int },
    {
        let next: TimedEvent = events[handled];
        match dispatch(pomodoro, next.event, next.at) {
            None => {
                return Run { handled, shut_down, effects };
            },
            Some(step) => {
                effects.push(step.effects);
                handled = handled + 1;
                shut_down = !step.keep_running;
            },
        }
    }
    Run { handled, shut_down, effects }
}

} // verus!
