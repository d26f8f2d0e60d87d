use pomodoro_timer::clock::Timestamp;
use pomodoro_timer::db::{parse_time, PomodoroSession};

fn at(millis: i64) -> Timestamp {
    Timestamp::from_millis(millis)
}

#[test]
fn parse_time_reads_rfc3339() {
    assert_eq!(parse_time("1970-01-01T00:00:00+00:00"), Some(at(0)));
    assert_eq!(parse_time("1970-01-01T00:00:01.444Z"), Some(at(1_444)));
    assert_eq!(parse_time("2001-09-09T01:46:40.555+00:00"), Some(at(1_000_000_000_555)));
    assert_eq!(parse_time("2024-01-01T01:00:00+01:00"), Some(at(1_704_067_200_000)));
    assert_eq!(parse_time("1969-12-31T23:59:59-00:00"), Some(at(-1_000)));
}

#[test]
fn parse_time_refuses_other_text() {
    assert_eq!(parse_time(""), None);
    assert_eq!(parse_time("yesterday"), None);
    assert_eq!(parse_time("2024-01-01"), None);
    assert_eq!(parse_time("2024-01-01T00:00:00"), None);
    assert_eq!(parse_time("2024-13-01T00:00:00Z"), None);
    assert_eq!(parse_time("1704067200000"), None);
}

#[test]
fn row_with_both_times() {
    let session = PomodoroSession::from_row(
        7,
        "2024-01-01T00:00:00+00:00",
        Some("2024-01-01T00:25:00+00:00"),
        1500,
        true,
        "work".to_string(),
        at(99),
    );
    assert_eq!(
        session,
        PomodoroSession {
            id: Some(7),
            start_time: at(1_704_067_200_000),
            end_time: Some(at(1_704_068_700_000)),
            duration_seconds: 1500,
            completed: true,
            session_type: "work".to_string(),
        }
    );
}

#[test]
fn row_in_progress_has_no_end() {
    let session = PomodoroSession::from_row(
        8,
        "2024-01-01T00:00:00+00:00",
        None,
        300,
        false,
        "short_break".to_string(),
        at(99),
    );
    assert_eq!(session.end_time, None);
    assert_eq!(session.start_time, at(1_704_067_200_000));
    assert!(!session.completed);
}

#[test]
fn unreadable_start_counts_as_now() {
    let session =
        PomodoroSession::from_row(9, "garbage", Some("garbage"), 1500, false, "work".to_string(), at(4_321));
    assert_eq!(session.start_time, at(4_321));
    assert_eq!(session.end_time, None);
    assert_eq!(session.id, Some(9));
}

#[test]
fn with_times_fills_in_a_missing_start() {
    let given = PomodoroSession::with_times(
        1,
        Some(at(10)),
        Some(at(20)),
        60,
        true,
        "long_break".to_string(),
        at(30),
    );
    assert_eq!(given.start_time, at(10));
    assert_eq!(given.end_time, Some(at(20)));
    let missing =
        PomodoroSession::with_times(2, None, None, 60, false, "long_break".to_string(), at(30));
    assert_eq!(missing.start_time, at(30));
    assert_eq!(missing.end_time, None);
    assert_eq!(missing.id, Some(2));
    assert_eq!(missing.duration_seconds, 60);
    assert_eq!(missing.session_type, "long_break");
}

#[test]
fn session_knows_whether_it_is_work_and_its_length() {
    let mut session =
        PomodoroSession::with_times(1, None, None, 1559, true, "work".to_string(), at(0));
    assert!(session.is_work());
    assert_eq!(session.duration_minutes(), 25);
    session.session_type = "short_break".to_string();
    assert!(!session.is_work());
    session.session_type = "siesta".to_string();
    assert!(!session.is_work());
    session.duration_seconds = 59;
    assert_eq!(session.duration_minutes(), 0);
    session.duration_seconds = -61;
    assert_eq!(session.duration_minutes(), -1);
}
