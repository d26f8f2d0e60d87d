//! Phases of the timer and the lengths configured for them.

use vstd::prelude::*;

verus! {

/// The phase the timer is in. `Work`, `ShortBreak` and `LongBreak` count
/// down; `Idle` and `Paused` stand still.
#[derive(Debug, Clone, Copy, PartialEq, Eq, Structural)]
pub enum PomodoroState {
    Idle,
    Work,
    ShortBreak,
    LongBreak,
    Paused,
}

impl PomodoroState {
    /// Whether the phase counts down.
    pub open spec fn counts_down(self) -> bool {
        self is Work || self is ShortBreak || self is LongBreak
    }

    /// Whether the phase stands still: `Idle` or `Paused`.
    pub fn is_static(&self) -> (still: bool)
        ensures
            still == !self.counts_down(),
    {
        match self {
            PomodoroState::Idle | PomodoroState::Paused => true,
            _ => false,
        }
    }
}

/// The kind of an interval, as the session log names it.
#[derive(Debug, Clone, Copy, PartialEq, Eq, Structural)]
pub enum SessionKind {
    Work,
    ShortBreak,
    LongBreak,
}

impl SessionKind {
    /// The phase in which an interval of this kind counts down.
    pub open spec fn phase(self) -> PomodoroState {
        match self {
            SessionKind::Work => PomodoroState::Work,
            SessionKind::ShortBreak => PomodoroState::ShortBreak,
            SessionKind::LongBreak => PomodoroState::LongBreak,
        }
    }

    /// The name of the kind in the session log.
    pub open spec fn name(self) -> Seq<char> {
        match self {
            SessionKind::Work => "work"@,
            SessionKind::ShortBreak => "short_break"@,
            SessionKind::LongBreak => "long_break"@,
        }
    }

    /// The kind that `text` names in the session log, if it names one.
    pub open spec fn named(text: Seq<char>) -> Option<SessionKind> {
        if text == SessionKind::Work.name() {
            Some(SessionKind::Work)
        } else if text == SessionKind::ShortBreak.name() {
            Some(SessionKind::ShortBreak)
        } else if text == SessionKind::LongBreak.name() {
            Some(SessionKind::LongBreak)
        } else {
            None
        }
    }

    /// The phase in which an interval of this kind counts down.
    pub fn to_state(&self) -> (state: PomodoroState)
        ensures
            state == self.phase(),
    {
        match self {
            SessionKind::Work => PomodoroState::Work,
            SessionKind::ShortBreak => PomodoroState::ShortBreak,
            SessionKind::LongBreak => PomodoroState::LongBreak,
        }
    }

    /// The name of the kind in the session log: `work`, `short_break` or
    /// `long_break`.
    pub fn as_str(&self) -> (text: &'static str)
        ensures
            text@ == self.name(),
    {
        match self {
            SessionKind::Work => "work",
            SessionKind::ShortBreak => "short_break",
            SessionKind::LongBreak => "long_break",
        }
    }

    /// The kind that `text` names in the session log; `None` for any other
    /// text.
    pub fn parse(text: &str) -> (kind: Option<SessionKind>)
        ensures
            kind == SessionKind::named(text@),
    {
        let given: String = text.to_owned();
        if given == "work".to_owned() {
            Some(SessionKind::Work)
        } else if given == "short_break".to_owned() {
            Some(SessionKind::ShortBreak)
        } else if given == "long_break".to_owned() {
            Some(SessionKind::LongBreak)
        } else {
            None
        }
    }
}

/// The longest interval that can be configured, in seconds. An interval of
/// this length still has a length in milliseconds that fits in an `i64`.
pub const MAX_DURATION_SECONDS: i64 = 9_223_372_036_854_775;

/// The lengths of the three kinds of interval, in seconds, and the number of
/// completed work intervals after which the break is a long one.
#[derive(Debug, Clone, Copy, PartialEq, Eq, Structural)]
pub struct PomodoroConfig {
    pub work_duration: i64,
    pub short_break_duration: i64,
    pub long_break_duration: i64,
    pub long_break_after: usize,
}

/// Whether an interval of `seconds` seconds can be configured.
pub open spec fn valid_duration(seconds: int) -> bool {
    0 <= seconds <= MAX_DURATION_SECONDS
}

impl PomodoroConfig {
    /// A configuration is valid when no interval is negative or longer than
    /// `MAX_DURATION_SECONDS` and the cycle has at least one work interval.
    pub open spec fn valid(self) -> bool {
        &&& valid_duration(self.work_duration as int)
        &&& valid_duration(self.short_break_duration as int)
        &&& valid_duration(self.long_break_duration as int)
        &&& self.long_break_after >= 1
    }

    /// The configured length, in seconds, of an interval that counts down in
    /// `phase`; zero for a phase that stands still.
    pub open spec fn duration_of(self, phase: PomodoroState) -> int {
        match phase {
            PomodoroState::Work => self.work_duration as int,
            PomodoroState::ShortBreak => self.short_break_duration as int,
            PomodoroState::LongBreak => self.long_break_duration as int,
            _ => 0,
        }
    }

    /// The configuration with the given lengths in minutes, where there is
    /// one: no length may exceed `MAX_DURATION_SECONDS`, and the cycle must
    /// have a work interval.
    pub open spec fn of_minutes(work: u64, short_break: u64, long_break: u64, cycle: usize)
        -> Option<PomodoroConfig> {
        if valid_duration(work * 60) && valid_duration(short_break * 60) && valid_duration(
            long_break * 60,
        ) && cycle >= 1 {
            Some(
                PomodoroConfig {
                    work_duration: (work * 60) as i64,
                    short_break_duration: (short_break * 60) as i64,
                    long_break_duration: (long_break * 60) as i64,
                    long_break_after: cycle,
                },
            )
        } else {
            None
        }
    }

    /// Whether the configuration is valid.
    pub fn is_valid(&self) -> (ok: bool)
        ensures
            ok == self.valid(),
    {
        0 <= self.work_duration && self.work_duration <= MAX_DURATION_SECONDS
            && 0 <= self.short_break_duration && self.short_break_duration
            <= MAX_DURATION_SECONDS && 0 <= self.long_break_duration
            && self.long_break_duration <= MAX_DURATION_SECONDS && self.long_break_after >= 1
    }

    /// The configured length of `phase` in seconds.
    pub fn duration_seconds(&self, phase: PomodoroState) -> (seconds: i64)
        ensures
            seconds == self.duration_of(phase),
    {
        match phase {
            PomodoroState::Work => self.work_duration,
            PomodoroState::ShortBreak => self.short_break_duration,
            PomodoroState::LongBreak => self.long_break_duration,
            _ => 0,
        }
    }

    /// Builds a configuration from lengths in minutes. The result is `None`
    /// exactly when a length exceeds `MAX_DURATION_SECONDS` or `cycle` is
    /// zero.
    pub fn from_minutes(work: u64, short_break: u64, long_break: u64, cycle: usize) -> (config:
        Option<PomodoroConfig>)
        ensures
            config == PomodoroConfig::of_minutes(work, short_break, long_break, cycle),
            config matches Some(c) ==> c.valid(),
    {
        let limit: u64 = (MAX_DURATION_SECONDS / 60) as u64;
        if work > limit || short_break > limit || long_break > limit || cycle < 1 {
            None
        } else {
            Some(
                PomodoroConfig {
                    work_duration: (work * 60) as i64,
                    short_break_duration: (short_break * 60) as i64,
                    long_break_duration: (long_break * 60) as i64,
                    long_break_after: cycle,
                },
            )
        }
    }
}

impl Default for PomodoroConfig {
    /// Work for 25 minutes, rest for 5, and rest for 15 after every fourth
    /// work interval.
    fn default() -> (config: PomodoroConfig)
        ensures
            config == (PomodoroConfig {
                work_duration: 1500,
                short_break_duration: 300,
                long_break_duration: 900,
                long_break_after: 4,
            }),
            config.valid(),
    {
        PomodoroConfig {
            work_duration: 1500,
            short_break_duration: 300,
            long_break_duration: 900,
            long_break_after: 4,
        }
    }
}

} // verus!
