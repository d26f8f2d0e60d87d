//! The dashboard: what it shows for a state of the timer, when it has to be
//! drawn again, and which command a key stands for.

use vstd::prelude::*;
use crate::config::{PomodoroState, SessionKind};
use crate::pomodoro::Pomodoro;
use crate::scheduler::PomodoroCommand;

verus! {

/// A key as far as the dashboard tells keys apart.
#[derive(Debug, Clone, Copy, PartialEq, Eq, Structural)]
pub enum Key {
    Char(char),
    Esc,
    Other,
}

/// The colours of the dashboard and the charts.
#[derive(Debug, Clone, Copy, PartialEq, Eq, Structural)]
pub enum Tint {
    White,
    Red,
    Green,
    Blue,
    Yellow,
}

/// What the dashboard reads of the timer in one go.
#[derive(Debug, Clone, Copy, PartialEq, Eq, Structural)]
pub struct Snapshot {
    pub state: PomodoroState,
    pub remaining_seconds: i64,
    pub completed_pomodoros: usize,
}

/// What was on the screen when it was last drawn; nothing before the first
/// drawing.
#[derive(Debug, Clone, Copy, PartialEq, Eq)]
pub struct Drawn {
    pub state: Option<PomodoroState>,
    pub seconds: Option<i64>,
}

/// Milliseconds to wait for a key while a countdown runs.
pub const ACTIVE_POLL_MILLIS: u64 = 250;

/// Milliseconds to wait for a key while the timer stands still.
pub const STATIC_POLL_MILLIS: u64 = 500;

/// While a countdown runs, the screen is drawn again at least every so many
/// rounds of waiting for a key.
pub const ACTIVE_REFRESH_ROUNDS: u64 = 4;

/// While the timer stands still, the screen is drawn again every so many
/// rounds of waiting for a key.
pub const STATIC_REFRESH_ROUNDS: u64 = 20;

/// The row of the list of keys when today's statistics are shown above it.
pub const CONTROLS_ROW_BELOW_STATS: u16 = 13;

/// The row of the list of keys when there are no statistics to show.
pub const CONTROLS_ROW: u16 = 8;

/// The command that `key` stands for: `s` starts or resumes, `p` pauses,
/// `n` skips to the next interval, `q` and Escape quit. Other keys stand
/// for nothing.
pub open spec fn key_command(key: Key) -> Option<PomodoroCommand> {
    match key {
        Key::Esc => Some(PomodoroCommand::Shutdown),
        Key::Char(c) => if c == 'q' {
            Some(PomodoroCommand::Shutdown)
        } else if c == 's' {
            Some(PomodoroCommand::Start)
        } else if c == 'p' {
            Some(PomodoroCommand::Stop)
        } else if c == 'n' {
            Some(PomodoroCommand::Next)
        } else {
            None
        },
        Key::Other => None,
    }
}

/// Whether the screen has to be drawn again in round `round` of waiting for
/// a key: when the phase differs from the one drawn, when a countdown runs
/// and the seconds differ from the ones drawn, and in any case every
/// `ACTIVE_REFRESH_ROUNDS` rounds while a countdown runs and every
/// `STATIC_REFRESH_ROUNDS` rounds while the timer stands still.
pub open spec fn redraw_due(drawn: Drawn, now: Snapshot, round: u64) -> bool {
    ||| drawn.state != Some(now.state)
    ||| now.state.counts_down() && drawn.seconds != Some(now.remaining_seconds)
    ||| round % (if now.state.counts_down() {
        ACTIVE_REFRESH_ROUNDS
    } else {
        STATIC_REFRESH_ROUNDS
    }) == 0
}

/// The full minutes in `seconds` seconds, rounded toward zero.
pub open spec fn whole_minutes(seconds: int) -> int {
    if seconds >= 0 {
        seconds / 60
    } else {
        -((-seconds) / 60)
    }
}

/// The name of a phase on the dashboard.
pub open spec fn label_of(state: PomodoroState) -> Seq<char> {
    match state {
        PomodoroState::Idle => "Idle"@,
        PomodoroState::Work => "Working"@,
        PomodoroState::ShortBreak => "Short Break"@,
        PomodoroState::LongBreak => "Long Break"@,
        PomodoroState::Paused => "Paused"@,
    }
}

/// The colour of a phase on the dashboard.
pub open spec fn tint_of(state: PomodoroState) -> Tint {
    match state {
        PomodoroState::Idle => Tint::White,
        PomodoroState::Work => Tint::Red,
        PomodoroState::ShortBreak => Tint::Green,
        PomodoroState::LongBreak => Tint::Blue,
        PomodoroState::Paused => Tint::Yellow,
    }
}

/// The colour of the bar of a kind of session in a chart; white for a kind
/// that the timer does not know.
pub open spec fn kind_tint_of(kind: Option<SessionKind>) -> Tint {
    match kind {
        Some(SessionKind::Work) => Tint::Red,
        Some(SessionKind::ShortBreak) => Tint::Green,
        Some(SessionKind::LongBreak) => Tint::Blue,
        None => Tint::White,
    }
}

impl Pomodoro {
    /// The phase, the seconds left and the count of completed work
    /// intervals, read together.
    pub fn snapshot(&self) -> (shot: Snapshot)
        ensures
            shot.state == self@.phase,
            shot.remaining_seconds == self@.remaining,
            shot.completed_pomodoros == self@.completed,
            shot.remaining_seconds >= 0,
    {
        Snapshot {
            state: self.get_state(),
            remaining_seconds: self.get_remaining_seconds(),
            completed_pomodoros: self.get_completed_pomodoros(),
        }
    }
}

impl Snapshot {
    /// The full minutes on the face of the clock.
    pub open spec fn face_minutes(self) -> int {
        whole_minutes(self.remaining_seconds as int)
    }

    /// The seconds on the face of the clock, after the full minutes.
    pub open spec fn face_seconds(self) -> int {
        self.remaining_seconds - 60 * self.face_minutes()
    }

    /// The full minutes on the face of the clock.
    pub fn minutes(&self) -> (minutes: i64)
        ensures
            minutes == self.face_minutes(),
    {
        self.remaining_seconds / 60
    }

    /// The seconds on the face of the clock, after the full minutes: fewer
    /// than sixty.
    pub fn seconds(&self) -> (seconds: i64)
        ensures
            seconds == self.face_seconds(),
            -60 < seconds < 60,
            self.remaining_seconds >= 0 ==> seconds >= 0,
    {
        self.remaining_seconds % 60
    }
}

/// The command that `key` stands for, if any.
pub fn command_for_key(key: Key) -> (command: Option<PomodoroCommand>)
    ensures
        command == key_command(key),
{
    match key {
        Key::Esc => Some(PomodoroCommand::Shutdown),
        Key::Char(c) => {
            if c == 'q' {
                Some(PomodoroCommand::Shutdown)
            } else if c == 's' {
                Some(PomodoroCommand::Start)
            } else if c == 'p' {
                Some(PomodoroCommand::Stop)
            } else if c == 'n' {
                Some(PomodoroCommand::Next)
            } else {
                None
            }
        },
        Key::Other => None,
    }
}

/// Milliseconds to wait for a key: shorter while a countdown runs.
pub fn poll_timeout_millis(state: PomodoroState) -> (millis: u64)
    ensures
        millis == if state.counts_down() {
            ACTIVE_POLL_MILLIS
        } else {
            STATIC_POLL_MILLIS
        },
{
    if state.is_static() {
        STATIC_POLL_MILLIS
    } else {
        ACTIVE_POLL_MILLIS
    }
}

/// Whether the screen has to be drawn again in round `round`.
pub fn should_redraw(drawn: &Drawn, now: &Snapshot, round: u64) -> (due: bool)
    ensures
        due == redraw_due(*drawn, *now, round),
{
    let is_static: bool = now.state.is_static();
    let periodic: bool = if is_static {
        round % STATIC_REFRESH_ROUNDS == 0
    } else {
        round % ACTIVE_REFRESH_ROUNDS == 0
    };
    let state_changed: bool = match drawn.state {
        Some(state) => state != now.state,
        None => true,
    };
    let seconds_changed: bool = match drawn.seconds {
        Some(seconds) => seconds != now.remaining_seconds,
        None => true,
    };
    state_changed || (!is_static && seconds_changed) || periodic
}

/// The name of `state` on the dashboard.
pub fn state_label(state: PomodoroState) -> (text: &'static str)
    ensures
        text@ == label_of(state),
{
    match state {
        PomodoroState::Idle => "Idle",
        PomodoroState::Work => "Working",
        PomodoroState::ShortBreak => "Short Break",
        PomodoroState::LongBreak => "Long Break",
        PomodoroState::Paused => "Paused",
    }
}

/// The colour of `state` on the dashboard.
pub fn state_tint(state: PomodoroState) -> (tint: Tint)
    ensures
        tint == tint_of(state),
{
    match state {
        PomodoroState::Idle => Tint::White,
        PomodoroState::Work => Tint::Red,
        PomodoroState::ShortBreak => Tint::Green,
        PomodoroState::LongBreak => Tint::Blue,
        PomodoroState::Paused => Tint::Yellow,
    }
}

/// The colour of the bar of `kind` in a chart.
pub fn kind_tint(kind: Option<SessionKind>) -> (tint: Tint)
    ensures
        tint == kind_tint_of(kind),
{
    match kind {
        Some(SessionKind::Work) => Tint::Red,
        Some(SessionKind::ShortBreak) => Tint::Green,
        Some(SessionKind::LongBreak) => Tint::Blue,
        None => Tint::White,
    }
}

/// The row on which the list of keys starts.
pub fn controls_row(stats_shown: bool) -> (row: u16)
    ensures
        row == if stats_shown {
            CONTROLS_ROW_BELOW_STATS
        } else {
            CONTROLS_ROW
        },
{
    if stats_shown {
        CONTROLS_ROW_BELOW_STATS
    } else {
        CONTROLS_ROW
    }
}

} // verus!
