//! Alerts: what a notifier shows for a title and a message, and which sound
//! goes with it. Showing and playing is left to the caller.

use std::sync::Arc;
use vstd::prelude::*;
use crate::sound::{get_default_sound_player, SoundPlayer};

verus! {

/// The sounds that can go with an alert.
#[derive(Debug, Clone, Copy, PartialEq, Eq, Structural)]
pub enum NotificationSound {
    WorkDone,
    BreakDone,
    Start,
}

/// The way an alert reaches the user.
#[derive(Debug, Clone, Copy, PartialEq, Eq, Structural)]
pub enum Delivery {
    /// As a desktop notification that goes away after `timeout_millis`
    /// milliseconds.
    Desktop { timeout_millis: u32 },
    /// As a banner on the terminal, with the bell.
    Terminal,
}

/// Milliseconds that a desktop notification stays up.
pub const DESKTOP_TIMEOUT_MILLIS: u32 = 5000;

/// Milliseconds that the notification stays up which probes for a desktop
/// notification service.
pub const PROBE_TIMEOUT_MILLIS: u32 = 1000;

/// An alert ready to be delivered.
#[derive(Debug, Clone, PartialEq, Eq)]
pub struct Alert {
    pub title: String,
    pub message: String,
    pub delivery: Delivery,
    pub sound: Option<NotificationSound>,
}

impl Alert {
    /// Whether the alert shows `title` and `message` by way of `delivery`.
    pub open spec fn shows(self, title: Seq<char>, message: Seq<char>, delivery: Delivery) -> bool {
        &&& self.title@ == title
        &&& self.message@ == message
        &&& self.delivery == delivery
    }
}

/// Something that turns a title and a message into an alert.
pub trait Notifier {
    /// The way this notifier delivers its alerts.
    spec fn delivery(&self) -> Delivery;

    /// The alert for `title` and `message`, without a sound.
    fn notify(&self, title: &str, message: &str) -> (alert: Alert)
        ensures
            alert.shows(title@, message@, self.delivery()),
            alert.sound is None,
    ;

    /// The alert for `title` and `message`, with `sound` where this
    /// notifier plays sounds. Unless a notifier says otherwise it plays
    /// none.
    fn notify_with_sound(&self, title: &str, message: &str, sound: NotificationSound) -> (alert:
        Alert)
        ensures
            alert.shows(title@, message@, self.delivery()),
        default_ensures
            alert.sound is None,
    {
        self.notify(title, message)
    }
}

/// A shared notifier notifies as the one it shares.
impl<N: Notifier> Notifier for Arc<N> {
    open spec fn delivery(&self) -> Delivery {
        (**self).delivery()
    }

    fn notify(&self, title: &str, message: &str) -> (alert: Alert) {
        (**self).notify(title, message)
    }

    fn notify_with_sound(&self, title: &str, message: &str, sound: NotificationSound) -> (alert:
        Alert)
        ensures
            call_ensures(N::notify_with_sound, (&**self, title, message, sound), alert),
    {
        (**self).notify_with_sound(title, message, sound)
    }
}

/// Delivers alerts as desktop notifications.
#[derive(Debug, Clone, Copy, PartialEq, Eq, Structural)]
pub struct DesktopNotifier;

impl Notifier for DesktopNotifier {
    open spec fn delivery(&self) -> Delivery {
        Delivery::Desktop { timeout_millis: DESKTOP_TIMEOUT_MILLIS }
    }

    fn notify(&self, title: &str, message: &str) -> (alert: Alert) {
        Alert {
            title: title.to_owned(),
            message: message.to_owned(),
            delivery: Delivery::Desktop { timeout_millis: DESKTOP_TIMEOUT_MILLIS },
            sound: None,
        }
    }
}

/// Delivers alerts on the terminal, for machines without a desktop
/// notification service.
#[derive(Debug, Clone, Copy, PartialEq, Eq, Structural)]
pub struct TerminalNotifier;

impl Notifier for TerminalNotifier {
    open spec fn delivery(&self) -> Delivery {
        Delivery::Terminal
    }

    fn notify(&self, title: &str, message: &str) -> (alert: Alert) {
        Alert {
            title: title.to_owned(),
            message: message.to_owned(),
            delivery: Delivery::Terminal,
            sound: None,
        }
    }
}

/// The notifier that suits the machine: the desktop where it has a
/// notification service, the terminal otherwise.
#[derive(Debug, Clone, Copy, PartialEq, Eq, Structural)]
pub enum DefaultNotifier {
    Desktop(DesktopNotifier),
    Terminal(TerminalNotifier),
}

impl Notifier for DefaultNotifier {
    open spec fn delivery(&self) -> Delivery {
        match self {
            DefaultNotifier::Desktop(desktop) => desktop.delivery(),
            DefaultNotifier::Terminal(terminal) => terminal.delivery(),
        }
    }

    fn notify(&self, title: &str, message: &str) -> (alert: Alert) {
        match self {
            DefaultNotifier::Desktop(desktop) => desktop.notify(title, message),
            DefaultNotifier::Terminal(terminal) => terminal.notify(title, message),
        }
    }
}

/// Adds sounds to the alerts of another notifier.
pub struct SoundNotifier<N: Notifier> {
    sound_player: SoundPlayer,
    base_notifier: N,
}

impl<N: Notifier> SoundNotifier<N> {
    /// The player that decides whether a sound goes with an alert.
    pub closed spec fn player(&self) -> SoundPlayer {
        self.sound_player
    }

    /// The notifier whose alerts get the sounds.
    pub closed spec fn base(&self) -> N {
        self.base_notifier
    }

    /// A notifier that delivers as `base_notifier` does and plays what
    /// `sound_player` plays.
    pub fn new(sound_player: SoundPlayer, base_notifier: N) -> (notifier: SoundNotifier<N>)
        ensures
            notifier.player() == sound_player,
            notifier.base() == base_notifier,
    {
        SoundNotifier { sound_player, base_notifier }
    }
}

impl<N: Notifier> Notifier for SoundNotifier<N> {
    open spec fn delivery(&self) -> Delivery {
        self.base().delivery()
    }

    fn notify(&self, title: &str, message: &str) -> (alert: Alert) {
        self.base_notifier.notify(title, message)
    }

    fn notify_with_sound(&self, title: &str, message: &str, sound: NotificationSound) -> (alert:
        Alert)
        ensures
            alert.sound == self.player().cue(sound),
    {
        let shown: Alert = self.base_notifier.notify(title, message);
        Alert {
            title: shown.title,
            message: shown.message,
            delivery: shown.delivery,
            sound: self.sound_player.play(sound),
        }
    }
}

/// The alert that probes for a desktop notification service: where showing
/// it fails, there is none.
pub fn desktop_probe() -> (alert: Alert)
    ensures
        alert.shows(
            "Pomodoro"@,
            "Initializing..."@,
            Delivery::Desktop { timeout_millis: PROBE_TIMEOUT_MILLIS },
        ),
        alert.sound is None,
{
    Alert {
        title: "Pomodoro".to_owned(),
        message: "Initializing...".to_owned(),
        delivery: Delivery::Desktop { timeout_millis: PROBE_TIMEOUT_MILLIS },
        sound: None,
    }
}

/// The notifier that suits a machine with or without a desktop notification
/// service.
pub open spec fn default_notifier(desktop_available: bool) -> DefaultNotifier {
    if desktop_available {
        DefaultNotifier::Desktop(DesktopNotifier)
    } else {
        DefaultNotifier::Terminal(TerminalNotifier)
    }
}

/// The notifier to use, given whether the probe for a desktop notification
/// service went through.
pub fn get_default_notifier(desktop_available: bool) -> (notifier: DefaultNotifier)
    ensures
        notifier == default_notifier(desktop_available),
{
    if desktop_available {
        DefaultNotifier::Desktop(DesktopNotifier)
    } else {
        DefaultNotifier::Terminal(TerminalNotifier)
    }
}

/// The default notifier with sounds switched on or off.
pub fn get_sound_notifier(sound_enabled: bool, desktop_available: bool) -> (notifier: SoundNotifier<
    DefaultNotifier,
>)
    ensures
        notifier.player()@ == sound_enabled,
        notifier.base() == default_notifier(desktop_available),
{
    let base_notifier: DefaultNotifier = get_default_notifier(desktop_available);
    let sound_player: SoundPlayer = get_default_sound_player(sound_enabled);
    SoundNotifier::new(sound_player, base_notifier)
}

} // verus!
