//! Records of the session log, as the statistics read them.

use vstd::prelude::*;
use crate::clock::Timestamp;
use crate::config::SessionKind;

verus! {

/// One interval in the session log.
#[derive(Debug, Clone, PartialEq, Eq)]
pub struct PomodoroSession {
    pub id: Option<i64>,
    pub start_time: Timestamp,
    /// When the interval ended; `None` while it is in progress, or when it
    /// was abandoned.
    pub end_time: Option<Timestamp>,
    pub duration_seconds: i64,
    pub completed: bool,
    /// The kind of the interval by its name in the log.
    pub session_type: String,
}

/// What `chrono` makes of `text` read as a date and time of RFC 3339: the
/// instant in milliseconds since the Unix epoch, or `None` where it does not
/// accept the text.
pub uninterp spec fn rfc3339_millis(text: Seq<char>) -> Option<i64>;

/// Parses `text` with `chrono::DateTime::parse_from_rfc3339` and converts
/// the instant with `DateTime::timestamp_millis`. The result depends on
/// `text` alone; an error of the parser becomes `None`.
#[verifier::external_body]
fn parse_rfc3339_millis(text: &str) -> (millis: Option<i64>)
    ensures
        millis == rfc3339_millis(text@),
{
    match chrono::DateTime::parse_from_rfc3339(text) {
        Ok(instant) => Some(instant.timestamp_millis()),
        Err(_) => None,
    }
}

/// The instant that `millis` counts, where there is one.
pub open spec fn instant_of(millis: Option<i64>) -> Option<int> {
    match millis {
        Some(m) => Some(m as int),
        None => None,
    }
}

/// The instant of `time`, where there is one.
pub open spec fn instant_at(time: Option<Timestamp>) -> Option<int> {
    match time {
        Some(t) => Some(t@),
        None => None,
    }
}

/// The instant that `text` denotes as a date and time of RFC 3339, if it
/// denotes one.
pub fn parse_time(text: &str) -> (time: Option<Timestamp>)
    ensures
        instant_at(time) == instant_of(rfc3339_millis(text@)),
{
    match parse_rfc3339_millis(text) {
        Some(millis) => Some(Timestamp::from_millis(millis)),
        None => None,
    }
}

impl PomodoroSession {
    /// The record of a row of the log whose times have been parsed: a start
    /// that could not be read counts as `now`, an end that could not be
    /// read as none.
    pub fn with_times(
        id: i64,
        start: Option<Timestamp>,
        end: Option<Timestamp>,
        duration_seconds: i64,
        completed: bool,
        session_type: String,
        now: Timestamp,
    ) -> (session: PomodoroSession)
        ensures
            session.id == Some(id),
            session.start_time == match start {
                Some(t) => t,
                None => now,
            },
            session.end_time == end,
            session.duration_seconds == duration_seconds,
            session.completed == completed,
            session.session_type == session_type,
    {
        let start_time: Timestamp = match start {
            Some(t) => t,
            None => now,
        };
        PomodoroSession {
            id: Some(id),
            start_time,
            end_time: end,
            duration_seconds,
            completed,
            session_type,
        }
    }

    /// The record of a row of the log. The times are texts in the format of
    /// RFC 3339: a start that is not in that format counts as `now`, an end
    /// that is missing or not in that format as none.
    pub fn from_row(
        id: i64,
        start_text: &str,
        end_text: Option<&str>,
        duration_seconds: i64,
        completed: bool,
        session_type: String,
        now: Timestamp,
    ) -> (session: PomodoroSession)
        ensures
            session.id == Some(id),
            session.start_time@ == match rfc3339_millis(start_text@) {
                Some(m) => m as int,
                None => now@,
            },
            instant_at(session.end_time) == match end_text {
                Some(text) => instant_of(rfc3339_millis(text@)),
                None => None,
            },
            session.duration_seconds == duration_seconds,
            session.completed == completed,
            session.session_type == session_type,
    {
        let start: Option<Timestamp> = parse_time(start_text);
        let end: Option<Timestamp> = match end_text {
            Some(text) => parse_time(text),
            None => None,
        };
        PomodoroSession::with_times(id, start, end, duration_seconds, completed, session_type, now)
    }

    /// Whether the interval is a work interval.
    pub fn is_work(&self) -> (work: bool)
        ensures
            work == (self.session_type@ == SessionKind::Work.name()),
    {
        self.session_type == "work".to_owned()
    }

    /// The configured length of the interval in full minutes.
    pub fn duration_minutes(&self) -> (minutes: i64)
        ensures
            minutes == crate::ui::whole_minutes(self.duration_seconds as int),
    {
        self.duration_seconds / 60
    }
}

} // verus!
