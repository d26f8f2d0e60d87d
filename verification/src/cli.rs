//! The command line: its options, what they default to, and what they mean.

use vstd::prelude::*;
use crate::config::PomodoroConfig;

verus! {

/// What to do instead of opening the interactive timer.
#[derive(Debug, Clone, PartialEq, Eq)]
pub enum Command {
    /// Start the timer.
    Start,
    /// Stop the timer.
    Stop,
    /// Skip to the next interval.
    Next,
    /// Show statistics of past sessions.
    Stats {
        /// Number of sessions to show.
        limit: i64,
        /// Number of days to show statistics for.
        days: i64,
        /// What to show: `sessions`, `daily`, `summary` or `types`.
        display: String,
        /// Whether to draw a chart as well.
        chart: bool,
    },
}

/// The options of the command line.
#[derive(Debug, Clone, PartialEq, Eq)]
pub struct Args {
    /// Path to the database file.
    pub database: String,
    /// Length of a work interval in minutes.
    pub pomodoro_minutes: u64,
    /// Length of a short break in minutes.
    pub short_break_minutes: u64,
    /// Length of a long break in minutes.
    pub long_break_minutes: u64,
    /// Number of work intervals before a long break.
    pub pomodoros_until_long_break: usize,
    pub command: Option<Command>,
}

/// The views of the statistics.
#[derive(Debug, Clone, Copy, PartialEq, Eq, Structural)]
pub enum StatsDisplay {
    Sessions,
    Daily,
    Summary,
    Types,
}

impl StatsDisplay {
    /// The name of the view on the command line.
    pub open spec fn name(self) -> Seq<char> {
        match self {
            StatsDisplay::Sessions => "sessions"@,
            StatsDisplay::Daily => "daily"@,
            StatsDisplay::Summary => "summary"@,
            StatsDisplay::Types => "types"@,
        }
    }

    /// The view that `text` names, if it names one.
    pub open spec fn named(text: Seq<char>) -> Option<StatsDisplay> {
        if text == StatsDisplay::Sessions.name() {
            Some(StatsDisplay::Sessions)
        } else if text == StatsDisplay::Daily.name() {
            Some(StatsDisplay::Daily)
        } else if text == StatsDisplay::Summary.name() {
            Some(StatsDisplay::Summary)
        } else if text == StatsDisplay::Types.name() {
            Some(StatsDisplay::Types)
        } else {
            None
        }
    }

    /// The view that `text` names; `None` for any other text.
    pub fn parse(text: &str) -> (display: Option<StatsDisplay>)
        ensures
            display == StatsDisplay::named(text@),
    {
        let given: String = text.to_owned();
        if given == "sessions".to_owned() {
            Some(StatsDisplay::Sessions)
        } else if given == "daily".to_owned() {
            Some(StatsDisplay::Daily)
        } else if given == "summary".to_owned() {
            Some(StatsDisplay::Summary)
        } else if given == "types".to_owned() {
            Some(StatsDisplay::Types)
        } else {
            None
        }
    }
}

impl Command {
    /// The statistics command with nothing given: the last ten sessions,
    /// the last seven days, the view `sessions`, no chart.
    pub fn default_stats() -> (command: Command)
        ensures
            command matches Command::Stats { limit, days, display, chart } && limit == 10 && days
                == 7 && display@ == "sessions"@ && !chart,
    {
        Command::Stats { limit: 10, days: 7, display: "sessions".to_owned(), chart: false }
    }

    /// Whether the command works the timer, so that a notifier is needed.
    /// Statistics are the only command that does not.
    pub fn uses_timer(command: &Option<Command>) -> (uses: bool)
        ensures
            uses == !(command matches Some(Command::Stats { .. })),
    {
        match command {
            Some(Command::Stats { .. }) => false,
            _ => true,
        }
    }

    /// Whether the interactive timer opens: it does when no command is
    /// given, and after `Start`.
    pub fn opens_timer(command: &Option<Command>) -> (opens: bool)
        ensures
            opens == (command is None || command == Some(Command::Start)),
    {
        match command {
            None | Some(Command::Start) => true,
            _ => false,
        }
    }
}

impl Args {
    /// The configuration that the options describe; `None` when an interval
    /// is longer than the timer can hold or the cycle is empty.
    pub fn config(&self) -> (config: Option<PomodoroConfig>)
        ensures
            config == PomodoroConfig::of_minutes(
                self.pomodoro_minutes,
                self.short_break_minutes,
                self.long_break_minutes,
                self.pomodoros_until_long_break,
            ),
    {
        PomodoroConfig::from_minutes(
            self.pomodoro_minutes,
            self.short_break_minutes,
            self.long_break_minutes,
            self.pomodoros_until_long_break,
        )
    }
}

impl Default for Args {
    /// The options with nothing given: the database `pomodoro.db`, 25
    /// minutes of work, breaks of 5 and 15 minutes, a long break after
    /// every fourth work interval, and no command.
    fn default() -> (args: Args)
        ensures
            args.database@ == "pomodoro.db"@,
            args.pomodoro_minutes == 25,
            args.short_break_minutes == 5,
            args.long_break_minutes == 15,
            args.pomodoros_until_long_break == 4,
            args.command is None,
    {
        Args {
            database: "pomodoro.db".to_owned(),
            pomodoro_minutes: 25,
            short_break_minutes: 5,
            long_break_minutes: 15,
            pomodoros_until_long_break: 4,
            command: None,
        }
    }
}

} // verus!
