//! Properties of the state machine that hold of all states and instants.

use vstd::prelude::*;
use crate::clock::whole_seconds;
use crate::config::{PomodoroConfig, PomodoroState, SessionKind};
use crate::effects::Effects;
use crate::model::TimerModel;
use crate::pomodoro::PomodoroError;
use crate::scheduler::{handle, handle_effects, state_after, PomodoroCommand, TimedEvent, TimerEvent};

verus! {

/// The initial state of a valid configuration is well formed and
/// consistent.
pub proof fn law_initial_state(config: PomodoroConfig)
    requires
        config.valid(),
    ensures
        TimerModel::initial(config).wf(),
        TimerModel::initial(config).consistent(),
{
}

/// Every transition keeps the state well formed. In particular the seconds
/// left never fall below zero, however far the clock has run or jumped.
pub proof fn law_remaining_never_negative(m: TimerModel, now: int, id: i64)
    requires
        m.wf(),
    ensures
        m.start(now).wf(),
        m.session_opened(id).wf(),
        m.pause(now).wf(),
        m.advance().wf(),
        m.tick(now).wf(),
        m.tick(now).remaining >= 0,
{
}

/// Every transition keeps the state consistent.
pub proof fn law_consistency_kept(m: TimerModel, now: int, id: i64)
    requires
        m.consistent(),
    ensures
        m.start(now).consistent(),
        m.session_opened(id).consistent(),
        m.pause(now).consistent(),
        m.advance().consistent(),
        m.tick(now).consistent(),
{
}

/// No transition changes the configuration, lowers the count of completed
/// work intervals or leads back to rest.
pub proof fn law_progress(m: TimerModel, now: int, id: i64)
    ensures
        m.start(now).config == m.config && m.start(now).completed == m.completed,
        m.session_opened(id).config == m.config && m.session_opened(id).completed == m.completed,
        m.pause(now).config == m.config && m.pause(now).completed == m.completed,
        m.advance().config == m.config && m.advance().completed >= m.completed,
        m.tick(now).config == m.config && m.tick(now).completed >= m.completed,
        !(m.phase is Idle) && m.consistent() ==> !(m.start(now).phase is Idle) && !(m.pause(
            now,
        ).phase is Idle) && !(m.advance().phase is Idle) && !(m.tick(now).phase is Idle),
{
}

/// Starting from rest puts the work interval at its full configured length:
/// that is what is left right after the call, and what the clock leaves at
/// the instant of the call, so a tick at that instant changes nothing.
pub proof fn law_start_shows_full_duration(m: TimerModel, now: int)
    requires
        m.wf(),
        m.phase is Idle,
    ensures
        m.start(now).phase is Work,
        m.start(now).remaining == m.config.work_duration,
        m.start(now).countdown(now) == m.config.work_duration,
        m.config.work_duration > 0 ==> m.start(now).tick(now) == m.start(now),
{
}

/// Starting while a countdown runs fails with `AlreadyRunning` and changes
/// nothing.
pub proof fn law_start_while_running(m: TimerModel, now: int)
    requires
        m.phase.counts_down(),
    ensures
        m.start(now) == m,
        m.start_outcome() == Err::<Effects, PomodoroError>(PomodoroError::AlreadyRunning),
{
}

/// Pausing and resuming at the same instant loses and gains no time: the
/// phase is the one that was paused, the seconds left are the ones frozen
/// by the pause, and the clock agrees with them at that instant.
pub proof fn law_pause_resume_keeps_remaining(m: TimerModel, now: int)
    requires
        m.wf(),
        m.phase.counts_down(),
    ensures
        m.pause(now).start(now).phase == m.phase,
        m.pause(now).start(now).remaining == m.pause(now).remaining,
        m.pause(now).start(now).countdown(now) == m.pause(now).remaining,
        m.pause(now).start(now).elapsed(now) == m.config.duration_of(m.phase) - m.pause(
            now,
        ).remaining,
{
    let paused = m.pause(now);
    let used = m.config.duration_of(m.phase) - paused.remaining;
    assert(now - paused.resume_anchor(m.phase, now) == used * 1000);
    assert(whole_seconds(used * 1000) == used);
}

/// Resuming later than pausing shifts the countdown by the length of the
/// pause: one second after resuming, one second more has gone than was gone
/// at the pause.
pub proof fn law_resume_continues(m: TimerModel, paused_at: int, resumed_at: int, seconds: int)
    requires
        m.wf(),
        m.phase.counts_down(),
        m.countdown(paused_at) >= 0,
        seconds >= 0,
    ensures
        m.pause(paused_at).start(resumed_at).countdown(resumed_at + seconds * 1000) == m.pause(
            paused_at,
        ).remaining - seconds,
{
    let paused = m.pause(paused_at);
    let used = m.config.duration_of(m.phase) - paused.remaining;
    let later = resumed_at + seconds * 1000;
    assert(later - paused.resume_anchor(m.phase, resumed_at) == (used + seconds) * 1000);
    assert(whole_seconds((used + seconds) * 1000) == used + seconds);
}

/// While the clock does not run backwards, a pause leaves no more than the
/// full length of the interval.
pub proof fn law_pause_within_duration(m: TimerModel, now: int)
    requires
        m.wf(),
        m.phase.counts_down(),
        m.anchor matches Some(anchor) ==> anchor <= now,
    ensures
        0 <= m.pause(now).remaining <= m.config.duration_of(m.phase),
{
}

/// A pause that left no more than the full length of the interval can be
/// resumed at every instant from the Unix epoch on.
pub proof fn law_resume_is_representable(m: TimerModel, now: int)
    requires
        m.wf(),
        m.pending matches Some(pending) ==> m.remaining <= m.config.duration_of(pending),
        0 <= now <= i64::MAX,
    ensures
        m.can_start(now),
{
}

/// Pausing twice is pausing once: the second call succeeds and changes
/// nothing, whenever it comes.
pub proof fn law_pause_idempotent(m: TimerModel, first: int, second: int)
    requires
        !(m.phase is Idle),
    ensures
        m.pause(first).pause(second) == m.pause(first),
        m.pause(first).pause_outcome() == Ok::<(), PomodoroError>(()),
{
}

/// Pausing at rest fails with `NotRunning` and changes nothing.
pub proof fn law_pause_at_rest(m: TimerModel, now: int)
    requires
        m.phase is Idle,
    ensures
        m.pause(now) == m,
        m.pause_outcome() == Err::<(), PomodoroError>(PomodoroError::NotRunning),
{
}

/// Advancing from work counts exactly one more completed work interval and
/// arms a break: the long one when the new count is a multiple of the cycle
/// length, so after the last work interval of each cycle, and the short one
/// after all the others. The record of the work interval is handed back to
/// be closed.
pub proof fn law_advance_from_work(m: TimerModel)
    requires
        m.wf(),
        m.phase is Work,
    ensures
        m.advance().completed == m.completed + 1,
        m.advance().phase is Paused,
        m.advance().session is None,
        m.advance_effects().completed_session == m.session,
        (m.completed + 1) % (m.config.long_break_after as nat) == 0 ==> m.advance().pending
            == Some(PomodoroState::LongBreak) && m.advance().remaining
            == m.config.long_break_duration,
        (m.completed + 1) % (m.config.long_break_after as nat) != 0 ==> m.advance().pending
            == Some(PomodoroState::ShortBreak) && m.advance().remaining
            == m.config.short_break_duration,
        m.completed + 1 == m.config.long_break_after ==> m.advance().pending == Some(
            PomodoroState::LongBreak,
        ),
        m.completed + 1 < m.config.long_break_after ==> m.advance().pending == Some(
            PomodoroState::ShortBreak,
        ),
{
    let n: nat = m.config.long_break_after as nat;
    let k: nat = m.completed + 1;
    if k == n {
        assert(k % n == 0) by (nonlinear_arith)
            requires
                k == n,
                n > 0,
        ;
    }
    if k < n {
        assert(k % n != 0) by (nonlinear_arith)
            requires
                0 < k < n,
        ;
    }
}

/// Advancing from a break arms work and counts nothing.
pub proof fn law_advance_from_break(m: TimerModel)
    requires
        m.phase is ShortBreak || m.phase is LongBreak,
    ensures
        m.advance().completed == m.completed,
        m.advance().phase is Paused,
        m.advance().pending == Some(PomodoroState::Work),
        m.advance().remaining == m.config.work_duration,
        m.advance_effects() == Effects::announce(SessionKind::Work, false),
{
}

/// An expired countdown is left behind by a tick exactly as by advancing;
/// one that has not expired only has its seconds brought up to date.
pub proof fn law_tick_expiry(m: TimerModel, now: int)
    requires
        m.phase.counts_down(),
    ensures
        m.countdown(now) <= 0 ==> m.tick(now) == m.advance(),
        m.countdown(now) > 0 ==> m.tick(now) == (TimerModel { remaining: m.countdown(now), ..m }),
{
}

/// Advancing never starts a countdown: the timer is left paused or, where
/// nothing is armed, as it was.
pub proof fn law_advance_only_arms(m: TimerModel)
    requires
        m.consistent(),
    ensures
        m.advance().phase is Paused,
        m.advance().anchor is None,
        m.advance_effects().notification is Some,
        m.advance_effects().open_session is None,
{
}

/// A command whose operation fails is dropped by the scheduler: the timer
/// stays as it was and nothing is asked of the caller.
pub proof fn law_failed_commands_are_dropped(m: TimerModel, now: int)
    ensures
        m.phase.counts_down() ==> handle(m, TimerEvent::Command(PomodoroCommand::Start), now) == m
            && handle_effects(m, TimerEvent::Command(PomodoroCommand::Start), now)
            == Effects::nothing(),
        m.phase is Idle ==> handle(m, TimerEvent::Command(PomodoroCommand::Stop), now) == m
            && handle_effects(m, TimerEvent::Command(PomodoroCommand::Stop), now)
            == Effects::nothing(),
{
}

/// A tick changes nothing while the timer stands still.
pub proof fn law_tick_while_static(m: TimerModel, now: int)
    requires
        !m.phase.counts_down(),
    ensures
        handle(m, TimerEvent::Tick, now) == m,
        handle_effects(m, TimerEvent::Tick, now) == Effects::nothing(),
{
}

/// However many events the scheduler handles, and whatever they are, the
/// timer stays well formed and consistent, and keeps its configuration.
pub proof fn law_run_keeps_invariants(m: TimerModel, events: Seq<TimedEvent>, n: nat)
    requires
        m.wf(),
        m.consistent(),
    ensures
        state_after(m, events, n).wf(),
        state_after(m, events, n).consistent(),
        state_after(m, events, n).config == m.config,
        state_after(m, events, n).completed >= m.completed,
    decreases n,
{
    if n > 0 {
        let before = (n - 1) as nat;
        law_run_keeps_invariants(m, events, before);
    }
}

} // verus!
