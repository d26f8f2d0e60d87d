use pomodoro_timer::clock::{Timestamp, MAX_SPAN_SECONDS};

fn at(millis: i64) -> Timestamp {
    Timestamp::from_millis(millis)
}

#[test]
fn timestamp_keeps_its_millis() {
    assert_eq!(at(0).millis(), 0);
    assert_eq!(at(-17).millis(), -17);
    assert_eq!(at(i64::MAX).millis(), i64::MAX);
    assert_eq!(at(5), at(5));
    assert_ne!(at(5), at(6));
}

#[test]
fn seconds_since_rounds_toward_zero() {
    assert_eq!(at(1_999).seconds_since(at(0)), 1);
    assert_eq!(at(2_000).seconds_since(at(0)), 2);
    assert_eq!(at(999).seconds_since(at(0)), 0);
    assert_eq!(at(0).seconds_since(at(999)), 0);
    assert_eq!(at(0).seconds_since(at(1_000)), -1);
    assert_eq!(at(0).seconds_since(at(1_999)), -1);
    assert_eq!(at(-500).seconds_since(at(700)), -1);
    assert_eq!(at(7).seconds_since(at(7)), 0);
}

#[test]
fn seconds_since_spans_the_whole_range() {
    assert_eq!(at(i64::MAX).seconds_since(at(i64::MIN)), MAX_SPAN_SECONDS);
    assert_eq!(at(i64::MIN).seconds_since(at(i64::MAX)), -MAX_SPAN_SECONDS);
    assert_eq!(MAX_SPAN_SECONDS, 18_446_744_073_709_551);
}

#[test]
fn checked_sub_seconds_steps_back() {
    assert_eq!(at(10_500).checked_sub_seconds(10), Some(at(500)));
    assert_eq!(at(10_500).checked_sub_seconds(0), Some(at(10_500)));
    assert_eq!(at(10_500).checked_sub_seconds(-2), Some(at(12_500)));
    assert_eq!(at(0).checked_sub_seconds(11), Some(at(-11_000)));
}

#[test]
fn checked_sub_seconds_stops_at_the_limits() {
    assert_eq!(at(i64::MIN).checked_sub_seconds(1), None);
    assert_eq!(at(i64::MIN + 999).checked_sub_seconds(1), None);
    assert_eq!(at(i64::MIN + 1_000).checked_sub_seconds(1), Some(at(i64::MIN)));
    assert_eq!(at(i64::MAX).checked_sub_seconds(-1), None);
    assert_eq!(at(i64::MAX - 1_000).checked_sub_seconds(-1), Some(at(i64::MAX)));
    assert_eq!(at(0).checked_sub_seconds(i64::MAX), None);
    assert_eq!(at(0).checked_sub_seconds(i64::MIN), None);
}

#[test]
fn now_reads_a_clock_of_this_century() {
    let first = Timestamp::now();
    let second = Timestamp::now();
    // 2020-01-01 and 2100-01-01
    assert!(first.millis() > 1_577_836_800_000);
    assert!(first.millis() < 4_102_444_800_000);
    assert!(second.seconds_since(first) < 60);
}
