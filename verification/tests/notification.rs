use pomodoro_timer::notification::{
    desktop_probe, get_default_notifier, get_sound_notifier, Alert, DefaultNotifier, Delivery,
    DesktopNotifier, NotificationSound, Notifier, SoundNotifier, TerminalNotifier,
};
use pomodoro_timer::sound::SoundPlayer;

fn alert(title: &str, message: &str, delivery: Delivery, sound: Option<NotificationSound>) -> Alert {
    Alert { title: title.to_string(), message: message.to_string(), delivery, sound }
}

const DESKTOP: Delivery = Delivery::Desktop { timeout_millis: 5000 };

#[test]
fn desktop_notifier_shows_for_five_seconds() {
    let shown = DesktopNotifier.notify("Work Session Ready", "Work session is ready!");
    assert_eq!(shown, alert("Work Session Ready", "Work session is ready!", DESKTOP, None));
}

#[test]
fn terminal_notifier_prints_a_banner() {
    let shown = TerminalNotifier.notify("Title", "Body");
    assert_eq!(shown, alert("Title", "Body", Delivery::Terminal, None));
}

#[test]
fn plain_notifiers_play_no_sound() {
    let desktop = DesktopNotifier.notify_with_sound("a", "b", NotificationSound::WorkDone);
    assert_eq!(desktop, alert("a", "b", DESKTOP, None));
    let terminal = TerminalNotifier.notify_with_sound("a", "b", NotificationSound::Start);
    assert_eq!(terminal, alert("a", "b", Delivery::Terminal, None));
}

#[test]
fn default_notifier_goes_by_the_probe() {
    assert_eq!(get_default_notifier(true), DefaultNotifier::Desktop(DesktopNotifier));
    assert_eq!(get_default_notifier(false), DefaultNotifier::Terminal(TerminalNotifier));
    assert_eq!(get_default_notifier(true).notify("t", "m"), alert("t", "m", DESKTOP, None));
    assert_eq!(
        get_default_notifier(false).notify("t", "m"),
        alert("t", "m", Delivery::Terminal, None)
    );
    assert_eq!(
        get_default_notifier(false).notify_with_sound("t", "m", NotificationSound::BreakDone),
        alert("t", "m", Delivery::Terminal, None)
    );
}

#[test]
fn probe_is_a_short_desktop_notification() {
    assert_eq!(
        desktop_probe(),
        alert("Pomodoro", "Initializing...", Delivery::Desktop { timeout_millis: 1000 }, None)
    );
}

#[test]
fn sound_notifier_adds_the_sound_when_enabled() {
    let notifier = SoundNotifier::new(SoundPlayer::with_enabled(true), TerminalNotifier);
    for sound in [NotificationSound::WorkDone, NotificationSound::BreakDone, NotificationSound::Start]
    {
        assert_eq!(
            notifier.notify_with_sound("t", "m", sound),
            alert("t", "m", Delivery::Terminal, Some(sound))
        );
    }
    assert_eq!(notifier.notify("t", "m"), alert("t", "m", Delivery::Terminal, None));
}

#[test]
fn sound_notifier_stays_silent_when_disabled() {
    let notifier = SoundNotifier::new(SoundPlayer::with_enabled(false), DesktopNotifier);
    assert_eq!(
        notifier.notify_with_sound("t", "m", NotificationSound::WorkDone),
        alert("t", "m", DESKTOP, None)
    );
    assert_eq!(notifier.notify("t", "m"), alert("t", "m", DESKTOP, None));
}

#[test]
fn sound_notifier_can_wrap_another_one() {
    let inner = SoundNotifier::new(SoundPlayer::with_enabled(true), DesktopNotifier);
    let outer = SoundNotifier::new(SoundPlayer::with_enabled(false), inner);
    // the outer one shows what the inner one shows without a sound, and
    // decides about the sound itself
    assert_eq!(
        outer.notify_with_sound("t", "m", NotificationSound::Start),
        alert("t", "m", DESKTOP, None)
    );
}

#[test]
fn get_sound_notifier_combines_both_settings() {
    let loud = get_sound_notifier(true, true);
    assert_eq!(
        loud.notify_with_sound("t", "m", NotificationSound::BreakDone),
        alert("t", "m", DESKTOP, Some(NotificationSound::BreakDone))
    );
    let quiet = get_sound_notifier(false, false);
    assert_eq!(
        quiet.notify_with_sound("t", "m", NotificationSound::BreakDone),
        alert("t", "m", Delivery::Terminal, None)
    );
    let loud_terminal = get_sound_notifier(true, false);
    assert_eq!(
        loud_terminal.notify_with_sound("t", "m", NotificationSound::WorkDone),
        alert("t", "m", Delivery::Terminal, Some(NotificationSound::WorkDone))
    );
}
