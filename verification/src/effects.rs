//! The side effects that the timer asks its caller to carry out.

use vstd::prelude::*;
use crate::config::SessionKind;

verus! {

/// A request to open a record in the session log.
#[derive(Debug, Clone, Copy, PartialEq, Eq, Structural)]
pub struct SessionRequest {
    pub kind: SessionKind,
    pub duration_seconds: i64,
}

/// An alert saying that an interval is armed and waits to be started.
#[derive(Debug, Clone, Copy, PartialEq, Eq, Structural)]
pub struct Notification {
    /// The interval that is armed.
    pub armed: SessionKind,
    /// Whether the message tells which key starts the interval.
    pub with_hint: bool,
}

/// What the caller has to do after a transition. The timer has already
/// changed in memory; a failure to carry out an effect does not undo that.
#[derive(Debug, Clone, Copy, PartialEq, Eq)]
pub struct Effects {
    /// Open this record and hand its identifier to `session_opened`.
    pub open_session: Option<SessionRequest>,
    /// Mark the record with this identifier as completed.
    pub completed_session: Option<i64>,
    /// Deliver this alert.
    pub notification: Option<Notification>,
}

impl Effects {
    /// Nothing to do.
    pub open spec fn nothing() -> Effects {
        Effects { open_session: None, completed_session: None, notification: None }
    }

    /// Nothing to do.
    pub fn none() -> (effects: Effects)
        ensures
            effects == Effects::nothing(),
    {
        Effects { open_session: None, completed_session: None, notification: None }
    }

    /// Deliver the alert for `armed`, and nothing else.
    pub open spec fn announce(armed: SessionKind, with_hint: bool) -> Effects {
        Effects {
            open_session: None,
            completed_session: None,
            notification: Some(Notification { armed, with_hint }),
        }
    }
}

impl Notification {
    /// The title of the alert: it names the interval that is armed.
    pub open spec fn title_text(self) -> Seq<char> {
        match self.armed {
            SessionKind::Work => "Work Session Ready"@,
            SessionKind::ShortBreak => "Short Break Ready"@,
            SessionKind::LongBreak => "Long Break Ready"@,
        }
    }

    /// The message of the alert, with or without the hint at the key that
    /// starts the interval.
    pub open spec fn message_text(self) -> Seq<char> {
        match self.armed {
            SessionKind::Work => if self.with_hint {
                "Work session is ready - press 's' to start!"@
            } else {
                "Work session is ready!"@
            },
            SessionKind::ShortBreak => if self.with_hint {
                "Short break is ready - press 's' to start!"@
            } else {
                "Short break is ready!"@
            },
            SessionKind::LongBreak => if self.with_hint {
                "Long break is ready - press 's' to start!"@
            } else {
                "Long break is ready!"@
            },
        }
    }

    /// The title of the alert.
    pub fn title(&self) -> (text: &'static str)
        ensures
            text@ == self.title_text(),
    {
        match self.armed {
            SessionKind::Work => "Work Session Ready",
            SessionKind::ShortBreak => "Short Break Ready",
            SessionKind::LongBreak => "Long Break Ready",
        }
    }

    /// The message of the alert.
    pub fn message(&self) -> (text: &'static str)
        ensures
            text@ == self.message_text(),
    {
        match self.armed {
            SessionKind::Work => {
                if self.with_hint {
                    "Work session is ready - press 's' to start!"
                } else {
                    "Work session is ready!"
                }
            },
            SessionKind::ShortBreak => {
                if self.with_hint {
                    "Short break is ready - press 's' to start!"
                } else {
                    "Short break is ready!"
                }
            },
            SessionKind::LongBreak => {
                if self.with_hint {
                    "Long break is ready - press 's' to start!"
                } else {
                    "Long break is ready!"
                }
            },
        }
    }
}

} // verus!
