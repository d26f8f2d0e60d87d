//! The sounds that go with alerts: whether one plays, which one, and for
//! how long.

use vstd::prelude::*;
use crate::notification::NotificationSound;

verus! {

/// The shortest time, in seconds, that a sound keeps the audio device.
pub const MIN_SOUND_DURATION: u64 = 3;

/// Nanoseconds in `MIN_SOUND_DURATION`.
pub const MIN_SOUND_NANOS: u128 = 3_000_000_000;

/// How a clip is played.
#[derive(Debug, Clone, Copy, PartialEq, Eq, Structural)]
pub enum Playback {
    /// Let the clip play to its end, then keep silent for `pad_nanos`
    /// nanoseconds before letting go of the device.
    ToEnd { pad_nanos: u128 },
    /// The length of the clip is unknown: play for `nanos` nanoseconds and
    /// cut it off.
    CutAfter { nanos: u128 },
}

/// How to play a clip of `total_nanos` nanoseconds so that it keeps the
/// device for at least `MIN_SOUND_DURATION` seconds: a shorter clip is
/// padded with silence, a longer one plays to its end, and one of unknown
/// length is cut off at the minimum.
pub open spec fn playback_of(total_nanos: Option<u128>) -> Playback {
    match total_nanos {
        Some(total) => Playback::ToEnd {
            pad_nanos: if total < MIN_SOUND_NANOS {
                (MIN_SOUND_NANOS - total) as u128
            } else {
                0
            },
        },
        None => Playback::CutAfter { nanos: MIN_SOUND_NANOS },
    }
}

/// How to play a clip whose length, where the decoder knows it, is
/// `total_nanos` nanoseconds.
pub fn playback_for(total_nanos: Option<u128>) -> (playback: Playback)
    ensures
        playback == playback_of(total_nanos),
{
    match total_nanos {
        Some(total) => {
            if total < MIN_SOUND_NANOS {
                Playback::ToEnd { pad_nanos: MIN_SOUND_NANOS - total }
            } else {
                Playback::ToEnd { pad_nanos: 0 }
            }
        },
        None => Playback::CutAfter { nanos: MIN_SOUND_NANOS },
    }
}

/// Plays sounds, or stays silent when sounds are switched off.
#[derive(Debug, Clone, Copy, PartialEq, Eq, Structural)]
pub struct SoundPlayer {
    enabled: bool,
}

impl View for SoundPlayer {
    type V = bool;

    /// Whether sounds are switched on.
    closed spec fn view(&self) -> bool {
        self.enabled
    }
}

impl SoundPlayer {
    /// What the player does with `sound`: it plays it when sounds are
    /// switched on, and nothing otherwise.
    pub open spec fn cue(&self, sound: NotificationSound) -> Option<NotificationSound> {
        if self@ {
            Some(sound)
        } else {
            None
        }
    }

    /// A player with sounds switched on or off.
    pub fn with_enabled(enabled: bool) -> (player: SoundPlayer)
        ensures
            player@ == enabled,
    {
        SoundPlayer { enabled }
    }

    /// Whether sounds are switched on.
    pub fn is_enabled(&self) -> (enabled: bool)
        ensures
            enabled == self@,
    {
        self.enabled
    }

    /// The sound to play for `sound`, if any.
    pub fn play(&self, sound: NotificationSound) -> (cue: Option<NotificationSound>)
        ensures
            cue == self.cue(sound),
    {
        if self.enabled {
            Some(sound)
        } else {
            None
        }
    }

    /// The sound to play when a work interval is done, if any.
    pub fn play_work_done(&self) -> (cue: Option<NotificationSound>)
        ensures
            cue == self.cue(NotificationSound::WorkDone),
    {
        self.play(NotificationSound::WorkDone)
    }

    /// The sound to play when a break is done, if any.
    pub fn play_break_done(&self) -> (cue: Option<NotificationSound>)
        ensures
            cue == self.cue(NotificationSound::BreakDone),
    {
        self.play(NotificationSound::BreakDone)
    }

    /// The sound to play when an interval starts, if any.
    pub fn play_start(&self) -> (cue: Option<NotificationSound>)
        ensures
            cue == self.cue(NotificationSound::Start),
    {
        self.play(NotificationSound::Start)
    }
}

/// The player for the given setting.
pub fn get_default_sound_player(enabled: bool) -> (player: SoundPlayer)
    ensures
        player@ == enabled,
{
    SoundPlayer::with_enabled(enabled)
}

} // verus!
