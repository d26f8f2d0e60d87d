//! The timer as a mathematical state machine: its state, its four
//! transitions and the side effects each transition asks for.

use vstd::prelude::*;
use crate::clock::whole_seconds;
use crate::config::{PomodoroConfig, PomodoroState, SessionKind};
use crate::effects::{Effects, Notification, SessionRequest};
use crate::pomodoro::PomodoroError;

verus! {

/// The state of the timer. Times are instants in milliseconds, lengths are
/// in seconds.
pub struct TimerModel {
    pub config: PomodoroConfig,
    pub phase: PomodoroState,
    /// The phase to resume into when leaving `Paused`.
    pub pending: Option<PomodoroState>,
    /// Work intervals completed so far.
    pub completed: nat,
    /// The open record of the work interval in flight.
    pub session: Option<i64>,
    /// The instant at which the running countdown stood at its full length.
    pub anchor: Option<int>,
    /// Seconds left: kept up to date by `tick` while counting down, frozen
    /// while paused.
    pub remaining: int,
}

impl TimerModel {
    /// What every operation relies on and keeps: a valid configuration and a
    /// countdown that is not negative.
    pub open spec fn wf(self) -> bool {
        &&& self.config.valid()
        &&& self.remaining >= 0
    }

    /// What holds of every state that the operations reach from the initial
    /// one: a phase is pending exactly while paused, and it is one that
    /// counts down; an anchor is set exactly while counting down; a record
    /// is open only for a work interval that runs or is paused.
    pub open spec fn consistent(self) -> bool {
        &&& self.phase is Paused <==> self.pending is Some
        &&& self.pending matches Some(p) ==> p.counts_down()
        &&& self.anchor is Some <==> self.phase.counts_down()
        &&& self.session is Some ==> self.phase is Work || self.pending == Some(
            PomodoroState::Work,
        )
    }

    /// The timer before anything was started.
    pub open spec fn initial(config: PomodoroConfig) -> TimerModel {
        TimerModel {
            config,
            phase: PomodoroState::Idle,
            pending: None,
            completed: 0,
            session: None,
            anchor: None,
            remaining: 0,
        }
    }

    /// Whole seconds that the running countdown has used up at `now`.
    pub open spec fn elapsed(self, now: int) -> int {
        match self.anchor {
            Some(anchor) => whole_seconds(now - anchor),
            None => 0,
        }
    }

    /// Seconds that the clock leaves of the current phase at `now`; not
    /// positive once the phase has expired.
    pub open spec fn countdown(self, now: int) -> int {
        self.config.duration_of(self.phase) - self.elapsed(now)
    }

    /// The break that follows the work interval that brings the count to
    /// `completed`: a long one after every full cycle.
    pub open spec fn break_after(self, completed: nat) -> SessionKind {
        if completed % (self.config.long_break_after as nat) == 0 {
            SessionKind::LongBreak
        } else {
            SessionKind::ShortBreak
        }
    }

    /// The interval that `advance` or an expiry arms: a break after work,
    /// work after a break or from rest. While paused the pending phase
    /// decides, and a pending phase that does not count down arms nothing.
    pub open spec fn next_armed(self) -> Option<SessionKind> {
        if self.phase is Work {
            Some(self.break_after(self.completed + 1))
        } else if self.phase is Paused {
            match self.pending {
                Some(PomodoroState::Work) => Some(self.break_after(self.completed + 1)),
                Some(PomodoroState::ShortBreak) | Some(PomodoroState::LongBreak) | None => Some(
                    SessionKind::Work,
                ),
                Some(_) => None,
            }
        } else {
            Some(SessionKind::Work)
        }
    }

    /// Whether `advance` or an expiry ends a work interval.
    pub open spec fn ends_work(self) -> bool {
        self.phase is Work || (self.phase is Paused && self.pending == Some(PomodoroState::Work))
    }

    /// The timer with `kind` armed: paused, with the full length of `kind`
    /// ahead and no countdown running.
    pub open spec fn arm(self, kind: SessionKind) -> TimerModel {
        TimerModel {
            phase: PomodoroState::Paused,
            pending: Some(kind.phase()),
            anchor: None,
            remaining: self.config.duration_of(kind.phase()),
            ..self
        }
    }

    /// The timer after leaving the current interval behind: the next one is
    /// armed, and a work interval that ended is counted and its record let
    /// go.
    pub open spec fn leave_interval(self) -> TimerModel {
        match self.next_armed() {
            None => self,
            Some(kind) => if self.ends_work() {
                TimerModel {
                    completed: self.completed + 1,
                    session: None,
                    ..self
                }.arm(kind)
            } else {
                self.arm(kind)
            },
        }
    }

    /// What leaving the current interval asks of the caller: to close the
    /// record of a work interval that ended and to announce what is armed.
    pub open spec fn leave_effects(self, with_hint: bool) -> Effects {
        match self.next_armed() {
            None => Effects::nothing(),
            Some(kind) => Effects {
                open_session: None,
                completed_session: if self.ends_work() {
                    self.session
                } else {
                    None
                },
                notification: Some(Notification { armed: kind, with_hint }),
            },
        }
    }

    /// The timer with a fresh work interval counting down from `now`.
    pub open spec fn begin_work(self, now: int) -> TimerModel {
        TimerModel {
            phase: PomodoroState::Work,
            anchor: Some(now),
            remaining: self.config.work_duration as int,
            ..self
        }
    }

    /// Whether `start` opens a fresh work interval: from rest, or from a
    /// pause with nothing pending.
    pub open spec fn starts_fresh(self) -> bool {
        self.phase is Idle || (self.phase is Paused && self.pending is None)
    }

    /// The anchor that makes the countdown of `pending` stand at
    /// `remaining` at `now`.
    pub open spec fn resume_anchor(self, pending: PomodoroState, now: int) -> int {
        now - (self.config.duration_of(pending) - self.remaining) * 1000
    }

    /// Whether the anchor that `start` would set at `now` is an instant
    /// that can be represented.
    pub open spec fn can_start(self, now: int) -> bool {
        self.phase is Paused ==> (self.pending matches Some(pending) ==> i64::MIN
            <= self.resume_anchor(pending, now) <= i64::MAX)
    }

    /// `start` at `now`: from rest a work interval begins; from a pause the
    /// pending phase goes on from where it stood; a running countdown is
    /// left alone.
    pub open spec fn start(self, now: int) -> TimerModel {
        if self.starts_fresh() {
            self.begin_work(now)
        } else if self.phase is Paused {
            let pending = self.pending->Some_0;
            TimerModel {
                phase: pending,
                pending: None,
                anchor: Some(self.resume_anchor(pending, now)),
                ..self
            }
        } else {
            self
        }
    }

    /// What `start` returns: a request to open a work record when a fresh
    /// work interval begins, nothing on resuming, `AlreadyRunning` while
    /// counting down.
    pub open spec fn start_outcome(self) -> Result<Effects, PomodoroError> {
        if self.starts_fresh() {
            Ok(
                Effects {
                    open_session: Some(
                        SessionRequest {
                            kind: SessionKind::Work,
                            duration_seconds: self.config.work_duration,
                        },
                    ),
                    completed_session: None,
                    notification: None,
                },
            )
        } else if self.phase is Paused {
            Ok(Effects::nothing())
        } else {
            Err(PomodoroError::AlreadyRunning)
        }
    }

    /// The timer after the record that `start` asked for was opened under
    /// `id`. The identifier is kept only while the work interval runs.
    pub open spec fn session_opened(self, id: i64) -> TimerModel {
        if self.phase is Work {
            TimerModel { session: Some(id), ..self }
        } else {
            self
        }
    }

    /// `pause` at `now`: a running countdown is frozen at what the clock
    /// leaves of it, but not below zero, and its phase becomes pending.
    /// Nothing changes at rest or while paused.
    pub open spec fn pause(self, now: int) -> TimerModel {
        if self.phase.counts_down() {
            TimerModel {
                phase: PomodoroState::Paused,
                pending: Some(self.phase),
                anchor: None,
                remaining: if self.countdown(now) > 0 {
                    self.countdown(now)
                } else {
                    0
                },
                ..self
            }
        } else {
            self
        }
    }

    /// What `pause` returns: `NotRunning` at rest, success otherwise.
    pub open spec fn pause_outcome(self) -> Result<(), PomodoroError> {
        if self.phase is Idle {
            Err(PomodoroError::NotRunning)
        } else {
            Ok(())
        }
    }

    /// `advance`: the current interval is left behind, whatever the clock
    /// says.
    pub open spec fn advance(self) -> TimerModel {
        self.leave_interval()
    }

    /// What `advance` asks of the caller. The message carries the hint
    /// unless the interval left behind was counting down.
    pub open spec fn advance_effects(self) -> Effects {
        self.leave_effects(!self.phase.counts_down())
    }

    /// Whether the phase counts down and the clock has used it up at `now`.
    pub open spec fn expired(self, now: int) -> bool {
        self.phase.counts_down() && self.countdown(now) <= 0
    }

    /// `tick` at `now`: a running countdown is brought up to date, and left
    /// behind once it has expired. Nothing changes at rest or while paused.
    pub open spec fn tick(self, now: int) -> TimerModel {
        if !self.phase.counts_down() {
            self
        } else if self.expired(now) {
            self.leave_interval()
        } else {
            TimerModel { remaining: self.countdown(now), ..self }
        }
    }

    /// What `tick` asks of the caller: the effects of leaving the interval
    /// when it has expired, nothing otherwise.
    pub open spec fn tick_effects(self, now: int) -> Effects {
        if self.expired(now) {
            self.leave_effects(true)
        } else {
            Effects::nothing()
        }
    }
}

} // verus!
