//! Wall-clock instants with millisecond resolution.

use vstd::prelude::*;

verus! {

/// An instant on the wall clock, counted in milliseconds since the Unix
/// epoch. Instants before the epoch are negative.
#[derive(Clone, Copy, Debug, PartialEq, Eq, Structural)]
pub struct Timestamp {
    millis: i64,
}

impl View for Timestamp {
    type V = int;

    closed spec fn view(&self) -> int {
        self.millis as int
    }
}

/// The most whole seconds that can lie between two instants.
pub const MAX_SPAN_SECONDS: i64 = 18_446_744_073_709_551;

/// The whole seconds in a span of `millis` milliseconds, rounded toward
/// zero: 1999 ms and -1999 ms hold 1 and -1 whole seconds.
pub open spec fn whole_seconds(millis: int) -> int {
    if millis >= 0 {
        millis / 1000
    } else {
        -((-millis) / 1000)
    }
}

/// Reads the system clock with `chrono::Local::now` and converts the instant
/// with `DateTime::timestamp_millis` to milliseconds since the Unix epoch.
/// The value depends on the machine's clock, so nothing is claimed about it:
/// two readings may be equal, and a later one may be smaller. `chrono` gives
/// up on a clock that stands before the Unix epoch.
#[verifier::external_body]
fn system_clock_millis() -> i64 {
    chrono::Local::now().timestamp_millis()
}

impl Timestamp {
    /// The instant `millis` milliseconds after the Unix epoch.
    pub fn from_millis(millis: i64) -> (t: Timestamp)
        ensures
            t@ == millis,
    {
        Timestamp { millis }
    }

    /// Milliseconds since the Unix epoch.
    pub fn millis(&self) -> (m: i64)
        ensures
            m == self@,
    {
        self.millis
    }

    /// The current reading of the system clock.
    pub fn now() -> Timestamp {
        Timestamp { millis: system_clock_millis() }
    }

    /// Whole seconds elapsed from `earlier` to `self`, rounded toward zero.
    /// The result is negative when `self` lies a second or more before
    /// `earlier`.
    pub fn seconds_since(&self, earlier: Timestamp) -> (seconds: i64)
        ensures
            seconds == whole_seconds(self@ - earlier@),
            -MAX_SPAN_SECONDS <= seconds <= MAX_SPAN_SECONDS,
    {
        let span: i128 = self.millis as i128 - earlier.millis as i128;
        let seconds: i128 = span / 1000;
        seconds as i64
    }

    /// The instant `seconds` seconds before `self`, or `None` when that
    /// instant cannot be represented.
    pub fn checked_sub_seconds(&self, seconds: i64) -> (earlier: Option<Timestamp>)
        ensures
            earlier is Some <==> i64::MIN <= self@ - seconds * 1000 <= i64::MAX,
            earlier matches Some(t) ==> t@ == self@ - seconds * 1000,
    {
        let shifted: i128 = self.millis as i128 - seconds as i128 * 1000;
        if shifted < i64::MIN as i128 || shifted > i64::MAX as i128 {
            None
        } else {
            Some(Timestamp { millis: shifted as i64 })
        }
    }
}

} // verus!
