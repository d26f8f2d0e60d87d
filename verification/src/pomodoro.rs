//! The timer engine: the state machine in executable form.

use vstd::prelude::*;
use crate::clock::Timestamp;
use crate::config::{PomodoroConfig, PomodoroState, SessionKind};
use crate::effects::{Effects, Notification, SessionRequest};
use crate::model::TimerModel;

verus! {

/// Why an operation left the timer as it was.
#[derive(Debug, Clone, Copy, PartialEq, Eq, Structural)]
pub enum PomodoroError {
    /// A countdown is already in progress.
    AlreadyRunning,
    /// Nothing has been started yet.
    NotRunning,
}

impl PomodoroError {
    /// What the error says.
    pub open spec fn text(self) -> Seq<char> {
        match self {
            PomodoroError::AlreadyRunning => "Timer already running"@,
            PomodoroError::NotRunning => "Timer not running"@,
        }
    }

    /// What the error says.
    pub fn message(&self) -> (text: &'static str)
        ensures
            text@ == self.text(),
    {
        match self {
            PomodoroError::AlreadyRunning => "Timer already running",
            PomodoroError::NotRunning => "Timer not running",
        }
    }
}

/// The timer. It is created at rest and lives as long as the program; all
/// changes go through `start`, `stop`, `next` and `update`.
pub struct Pomodoro {
    state: PomodoroState,
    prev_state: Option<PomodoroState>,
    config: PomodoroConfig,
    completed_pomodoros: usize,
    current_session_id: Option<i64>,
    start_time: Option<Timestamp>,
    remaining_seconds: i64,
}

impl View for Pomodoro {
    type V = TimerModel;

    closed spec fn view(&self) -> TimerModel {
        TimerModel {
            config: self.config,
            phase: self.state,
            pending: self.prev_state,
            completed: self.completed_pomodoros as nat,
            session: self.current_session_id,
            anchor: match self.start_time {
                Some(t) => Some(t@),
                None => None,
            },
            remaining: self.remaining_seconds as int,
        }
    }
}

impl Pomodoro {
    /// Holds of every timer: its state is well formed.
    #[verifier::type_invariant]
    pub open spec fn wf(&self) -> bool {
        self@.wf()
    }

    /// A timer at rest with nothing completed.
    pub fn new(config: PomodoroConfig) -> (timer: Pomodoro)
        requires
            config.valid(),
        ensures
            timer@ == TimerModel::initial(config),
    {
        Pomodoro {
            state: PomodoroState::Idle,
            prev_state: None,
            config,
            completed_pomodoros: 0,
            current_session_id: None,
            start_time: None,
            remaining_seconds: 0,
        }
    }

    /// The current phase.
    pub fn get_state(&self) -> (state: PomodoroState)
        ensures
            state == self@.phase,
    {
        self.state
    }

    /// Seconds left of the current or pending interval; never negative.
    pub fn get_remaining_seconds(&self) -> (seconds: i64)
        ensures
            seconds == self@.remaining,
            seconds >= 0,
    {
        proof {
            use_type_invariant(self);
        }
        self.remaining_seconds
    }

    /// Work intervals completed so far.
    pub fn get_completed_pomodoros(&self) -> (count: usize)
        ensures
            count == self@.completed,
    {
        self.completed_pomodoros
    }

    /// The phase that `start` resumes into, while paused.
    pub fn pending_state(&self) -> (pending: Option<PomodoroState>)
        ensures
            pending == self@.pending,
    {
        self.prev_state
    }

    /// The identifier of the open record of the work interval in flight.
    pub fn current_session(&self) -> (id: Option<i64>)
        ensures
            id == self@.session,
    {
        self.current_session_id
    }

    /// The configuration that the timer was created with.
    pub fn config(&self) -> (config: PomodoroConfig)
        ensures
            config == self@.config,
            config.valid(),
    {
        proof {
            use_type_invariant(self);
        }
        self.config
    }

    /// Whether `start` may be called at `now`: it may not when resuming
    /// would put the anchor of the countdown outside the instants that can
    /// be represented.
    pub fn can_start(&self, now: Timestamp) -> (ok: bool)
        ensures
            ok == self@.can_start(now@),
    {
        proof {
            use_type_invariant(self);
        }
        match self.state {
            PomodoroState::Paused => match self.prev_state {
                Some(pending) => {
                    let used: i64 = self.config.duration_seconds(pending) - self.remaining_seconds;
                    now.checked_sub_seconds(used).is_some()
                },
                None => true,
            },
            _ => true,
        }
    }

    /// Starts a work interval from rest, or resumes the pending interval
    /// from a pause so that it goes on from where it stood. Fails with
    /// `AlreadyRunning`, changing nothing, while a countdown is running.
    pub fn start(&mut self, now: Timestamp) -> (result: Result<Effects, PomodoroError>)
        requires
            old(self)@.can_start(now@),
        ensures
            final(self)@ == old(self)@.start(now@),
            result == old(self)@.start_outcome(),
    {
        proof {
            use_type_invariant(&*self);
        }
        match self.state {
            PomodoroState::Idle => Ok(self.transition_to_work(now)),
            PomodoroState::Paused => match self.prev_state {
                Some(pending) => {
                    let used: i64 = self.config.duration_seconds(pending) - self.remaining_seconds;
                    self.state = pending;
                    self.start_time = now.checked_sub_seconds(used);
                    self.prev_state = None;
                    Ok(Effects::none())
                },
                None => Ok(self.transition_to_work(now)),
            },
            _ => Err(PomodoroError::AlreadyRunning),
        }
    }

    fn transition_to_work(&mut self, now: Timestamp) -> (effects: Effects)
        ensures
            final(self)@ == old(self)@.begin_work(now@),
            effects == (Effects {
                open_session: Some(
                    SessionRequest {
                        kind: SessionKind::Work,
                        duration_seconds: old(self)@.config.work_duration,
                    },
                ),
                completed_session: None,
                notification: None,
            }),
    {
        proof {
            use_type_invariant(&*self);
        }
        self.state = PomodoroState::Work;
        self.start_time = Some(now);
        self.remaining_seconds = self.config.work_duration;
        Effects {
            open_session: Some(
                SessionRequest {
                    kind: SessionKind::Work,
                    duration_seconds: self.config.work_duration,
                },
            ),
            completed_session: None,
            notification: None,
        }
    }

    /// Records the identifier under which the record that `start` asked
    /// for was opened. It is kept only while the work interval runs.
    pub fn session_opened(&mut self, id: i64)
        ensures
            final(self)@ == old(self)@.session_opened(id),
    {
        proof {
            use_type_invariant(&*self);
        }
        match self.state {
            PomodoroState::Work => {
                self.current_session_id = Some(id);
            },
            _ => {},
        }
    }

    /// Seconds that the clock leaves of the current phase at `now`.
    fn countdown(&self, now: Timestamp) -> (seconds: i64)
        ensures
            seconds == self@.countdown(now@),
    {
        proof {
            use_type_invariant(self);
        }
        let elapsed: i64 = match self.start_time {
            Some(start) => now.seconds_since(start),
            None => 0,
        };
        self.config.duration_seconds(self.state) - elapsed
    }

    /// Pauses a running countdown, keeping what is left of it. Pausing
    /// again changes nothing. Fails with `NotRunning` at rest. An open
    /// record stays open.
    pub fn stop(&mut self, now: Timestamp) -> (result: Result<(), PomodoroError>)
        ensures
            final(self)@ == old(self)@.pause(now@),
            result == old(self)@.pause_outcome(),
    {
        proof {
            use_type_invariant(&*self);
        }
        match self.state {
            PomodoroState::Idle => Err(PomodoroError::NotRunning),
            PomodoroState::Paused => Ok(()),
            _ => {
                let left: i64 = self.countdown(now);
                self.prev_state = Some(self.state);
                self.remaining_seconds = if left > 0 {
                    left
                } else {
                    0
                };
                self.start_time = None;
                self.state = PomodoroState::Paused;
                Ok(())
            },
        }
    }

    /// The break that follows the work interval that brings the count to
    /// `completed`.
    fn break_after(&self, completed: usize) -> (kind: SessionKind)
        ensures
            kind == self@.break_after(completed as nat),
    {
        proof {
            use_type_invariant(self);
        }
        if completed % self.config.long_break_after == 0 {
            SessionKind::LongBreak
        } else {
            SessionKind::ShortBreak
        }
    }

    /// Whether leaving the current interval behind ends a work interval.
    fn ends_work(&self) -> (ends: bool)
        ensures
            ends == self@.ends_work(),
    {
        match self.state {
            PomodoroState::Work => true,
            PomodoroState::Paused => match self.prev_state {
                Some(PomodoroState::Work) => true,
                _ => false,
            },
            _ => false,
        }
    }

    /// Whether `next` may be called, and `update` whatever the clock
    /// says: they may not when a work interval would end and the count of
    /// completed intervals cannot grow.
    pub fn can_advance(&self) -> (ok: bool)
        ensures
            ok == (self@.ends_work() ==> self@.completed < usize::MAX),
    {
        !self.ends_work() || self.completed_pomodoros < usize::MAX
    }

    /// Leaves the current interval behind and arms the next one.
    fn leave_interval(&mut self, with_hint: bool) -> (effects: Effects)
        requires
            old(self)@.ends_work() ==> old(self)@.completed < usize::MAX,
        ensures
            final(self)@ == old(self)@.leave_interval(),
            effects == old(self)@.leave_effects(with_hint),
    {
        proof {
            use_type_invariant(&*self);
        }
        let mut completed_session: Option<i64> = None;
        let armed: SessionKind = if self.ends_work() {
            completed_session = self.current_session_id;
            self.current_session_id = None;
            self.completed_pomodoros = self.completed_pomodoros + 1;
            self.break_after(self.completed_pomodoros)
        } else {
            match (self.state, self.prev_state) {
                (PomodoroState::Paused, Some(PomodoroState::Idle))
                | (PomodoroState::Paused, Some(PomodoroState::Paused)) => {
                    return Effects::none();
                },
                _ => SessionKind::Work,
            }
        };
        self.state = PomodoroState::Paused;
        self.prev_state = Some(armed.to_state());
        self.start_time = None;
        self.remaining_seconds = self.config.duration_seconds(armed.to_state());
        Effects {
            open_session: None,
            completed_session,
            notification: Some(Notification { armed, with_hint }),
        }
    }

    /// Skips to the next interval: after work a break is armed, a long one
    /// when the count of completed work intervals is a multiple of the
    /// cycle length; after a break or at rest, work is armed. The timer is
    /// left paused with the armed interval pending; `start` begins it.
    /// Always succeeds.
    pub fn next(&mut self) -> (result: Result<Effects, PomodoroError>)
        requires
            old(self)@.ends_work() ==> old(self)@.completed < usize::MAX,
        ensures
            final(self)@ == old(self)@.advance(),
            result == Ok::<Effects, PomodoroError>(old(self)@.advance_effects()),
    {
        let with_hint: bool = self.state.is_static();
        Ok(self.leave_interval(with_hint))
    }

    /// Brings a running countdown up to date with the clock. Once nothing
    /// is left, the interval is left behind as by `next`. Does nothing at
    /// rest or while paused.
    pub fn update(&mut self, now: Timestamp) -> (effects: Effects)
        requires
            old(self)@.phase is Work ==> old(self)@.completed < usize::MAX,
        ensures
            final(self)@ == old(self)@.tick(now@),
            effects == old(self)@.tick_effects(now@),
    {
        proof {
            use_type_invariant(&*self);
        }
        if self.state.is_static() {
            return Effects::none();
        }
        let left: i64 = self.countdown(now);
        if left <= 0 {
            self.leave_interval(true)
        } else {
            self.remaining_seconds = left;
            Effects::none()
        }
    }
}

} // verus!
