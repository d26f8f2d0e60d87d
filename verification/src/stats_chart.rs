//! Bar charts of the statistics: what goes into a chart and how wide it is.
//! Drawing the bars is left to the caller.

use vstd::prelude::*;
use crate::db::PomodoroSession;
use crate::config::SessionKind;

verus! {

/// The widest that the bars of a chart get, in columns.
pub const MAX_CHART_WIDTH: usize = 60;

/// Columns of the terminal that a chart leaves to labels and values.
pub const CHART_MARGIN: usize = 20;

/// Columns by which the rules above and below a chart are wider than its
/// bars.
pub const RULE_MARGIN: usize = 10;

/// The most sessions that the chart of sessions shows.
pub const CHARTED_SESSIONS: usize = 10;

/// The scale of the chart of sessions when there is nothing to measure it
/// by, in minutes.
pub const DEFAULT_SESSION_SCALE: i64 = 25;

/// Whether `m` is the largest of `values`.
pub open spec fn is_max_of(values: Seq<i64>, m: i64) -> bool {
    &&& exists|i: int| 0 <= i < values.len() && values[i] == m
    &&& forall|i: int| 0 <= i < values.len() ==> values[i] <= m
}

/// Whether the session at `i` is a work interval.
pub open spec fn is_work_at(sessions: Seq<PomodoroSession>, i: int) -> bool {
    sessions[i].session_type@ == SessionKind::Work.name()
}

/// Whether `positions` are the positions of the work intervals among
/// `sessions`, all of them, in order.
pub open spec fn are_work_positions(sessions: Seq<PomodoroSession>, positions: Seq<usize>) -> bool {
    &&& forall|k: int|
        0 <= k < positions.len() ==> positions[k] < sessions.len() && is_work_at(
            sessions,
            #[trigger] positions[k] as int,
        )
    &&& forall|j: int, k: int| 0 <= j < k < positions.len() ==> positions[j] < positions[k]
    &&& forall|i: int|
        0 <= i < sessions.len() && #[trigger] is_work_at(sessions, i) ==> exists|k: int|
            0 <= k < positions.len() && positions[k] == i
}

/// The width of the bars of a chart on a terminal of `columns` columns:
/// what the margin leaves, up to `MAX_CHART_WIDTH`.
pub fn chart_width(columns: u16) -> (width: usize)
    requires
        columns >= CHART_MARGIN,
    ensures
        width == if columns - CHART_MARGIN < MAX_CHART_WIDTH {
            columns - CHART_MARGIN
        } else {
            MAX_CHART_WIDTH as int
        },
{
    let free: usize = columns as usize - CHART_MARGIN;
    if free < MAX_CHART_WIDTH {
        free
    } else {
        MAX_CHART_WIDTH
    }
}

/// The width of the rules above and below a chart with bars of `width`
/// columns.
pub fn rule_width(width: usize) -> (columns: usize)
    requires
        width <= MAX_CHART_WIDTH,
    ensures
        columns == width + RULE_MARGIN,
{
    width + RULE_MARGIN
}

/// Whether a chart can be drawn of `labels` labels and `values` values:
/// there must be some, and as many of the one as of the other.
pub fn is_drawable(labels: usize, values: usize) -> (drawable: bool)
    ensures
        drawable == (labels > 0 && labels == values),
{
    !(labels == 0 || values == 0 || labels != values)
}

/// The largest of `values`, or `fallback` when there are none.
pub fn max_or(values: &Vec<i64>, fallback: i64) -> (m: i64)
    ensures
        values@.len() == 0 ==> m == fallback,
        values@.len() > 0 ==> is_max_of(values@, m),
{
    if values.len() == 0 {
        return fallback;
    }
    let mut m: i64 = values[0];
    let mut i: usize = 1;
    while i < values.len()
        invariant
            1 <= i <= values.len(),
            exists|j: int| 0 <= j < i && values@[j] == m,
            forall|j: int| 0 <= j < i ==> values@[j] <= m,
        decreases values.len() - i,
    {
        if values[i] > m {
            m = values[i];
        }
        i = i + 1;
    }
    m
}

/// The positions of the work intervals among `sessions`.
pub fn work_positions(sessions: &Vec<PomodoroSession>) -> (positions: Vec<usize>)
    ensures
        are_work_positions(sessions@, positions@),
{
    let mut positions: Vec<usize> = Vec::new();
    let mut i: usize = 0;
    while i < sessions.len()
        invariant
            i <= sessions.len(),
            forall|k: int|
                0 <= k < positions@.len() ==> positions@[k] < i && is_work_at(
                    sessions@,
                    #[trigger] positions@[k] as int,
                ),
            forall|j: int, k: int| 0 <= j < k < positions@.len() ==> positions@[j] < positions@[k],
            forall|p: int|
                0 <= p < i && #[trigger] is_work_at(sessions@, p) ==> exists|k: int|
                    0 <= k < positions@.len() && positions@[k] == p,
        decreases sessions.len() - i,
    {
        if sessions[i].is_work() {
            let ghost before = positions@;
            positions.push(i);
            assert forall|p: int| 0 <= p < i + 1 && #[trigger] is_work_at(sessions@, p) implies exists|
                k: int,
            | 0 <= k < positions@.len() && positions@[k] == p by {
                if p < i {
                    let k = choose|k: int| 0 <= k < before.len() && before[k] == p;
                    assert(positions@[k] == p);
                } else {
                    assert(positions@[before.len() as int] == p);
                }
            }
        }
        i = i + 1;
    }
    positions
}

/// How many of `work` work intervals the chart of sessions shows: the
/// first `CHARTED_SESSIONS` at most.
pub fn charted_count(work: usize) -> (shown: usize)
    ensures
        shown == if work > CHARTED_SESSIONS {
            CHARTED_SESSIONS
        } else {
            work
        },
{
    if work > CHARTED_SESSIONS {
        CHARTED_SESSIONS
    } else {
        work
    }
}

/// The lengths in full minutes of the sessions at `positions`, in order.
pub fn minutes_at(sessions: &Vec<PomodoroSession>, positions: &Vec<usize>) -> (minutes: Vec<i64>)
    requires
        forall|k: int| 0 <= k < positions@.len() ==> positions@[k] < sessions@.len(),
    ensures
        minutes@.len() == positions@.len(),
        forall|k: int|
            0 <= k < positions@.len() ==> minutes@[k] == crate::ui::whole_minutes(
                sessions@[positions@[k] as int].duration_seconds as int,
            ),
{
    let mut minutes: Vec<i64> = Vec::new();
    let mut k: usize = 0;
    while k < positions.len()
        invariant
            k <= positions.len(),
            minutes@.len() == k,
            forall|j: int| 0 <= j < positions@.len() ==> positions@[j] < sessions@.len(),
            forall|j: int|
                0 <= j < k ==> minutes@[j] == crate::ui::whole_minutes(
                    sessions@[positions@[j] as int].duration_seconds as int,
                ),
        decreases positions.len() - k,
    {
        minutes.push(sessions[positions[k]].duration_minutes());
        k = k + 1;
    }
    minutes
}

} // verus!
