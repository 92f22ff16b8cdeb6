//! Feedback for the user: which sound goes with which moment, and with
//! which program a sound file is played.

use crate::text::same_text;
use vstd::prelude::*;
use vstd::string::*;

verus! {

/// The feedback that the recorder gives.
#[derive(Clone, Copy, Debug, PartialEq, Eq, Structural)]
pub struct Indicator {
    audio_feedback_enabled: bool,
}

/// A tone: its pitch in hertz and its length in milliseconds.
#[derive(Clone, Copy, Debug, PartialEq, Eq, Structural)]
pub struct Tone {
    pub frequency_hz: u32,
    pub duration_ms: u32,
}

/// The tone for the moment that `sound_type` names: a high short one for
/// `start`, a low longer one for `stop`, a very high very short one for
/// `complete`, and a middle one for anything else.
pub open spec fn tone_of(sound_type: Seq<char>) -> Tone {
    if sound_type == "start"@ {
        Tone { frequency_hz: 800, duration_ms: 150 }
    } else if sound_type == "stop"@ {
        Tone { frequency_hz: 400, duration_ms: 200 }
    } else if sound_type == "complete"@ {
        Tone { frequency_hz: 1000, duration_ms: 100 }
    } else {
        Tone { frequency_hz: 500, duration_ms: 150 }
    }
}

impl Indicator {
    /// Whether sounds are played.
    pub closed spec fn audio_feedback(&self) -> bool {
        self.audio_feedback_enabled
    }

    /// An indicator that plays sounds.
    pub fn new() -> (r: Self)
        ensures
            r.audio_feedback(),
    {
        Indicator { audio_feedback_enabled: true }
    }

    /// This indicator with sounds switched on or off.
    pub fn with_audio_feedback(self, enabled: bool) -> (r: Self)
        ensures
            r.audio_feedback() == enabled,
    {
        let mut indicator = self;
        indicator.audio_feedback_enabled = enabled;
        indicator
    }

    /// Whether sounds are played.
    pub fn audio_feedback_enabled(&self) -> (r: bool)
        ensures
            r == self.audio_feedback(),
    {
        self.audio_feedback_enabled
    }

    /// The tone to play for the moment that `sound_type` names, if sounds
    /// are played at all.
    pub fn sound_for(&self, sound_type: &str) -> (r: Option<Tone>)
        ensures
            r == (if self.audio_feedback() {
                Some(tone_of(sound_type@))
            } else {
                None
            }),
    {
        if !self.audio_feedback_enabled {
            return None;
        }
        Some(tone_for(sound_type))
    }
}

impl Default for Indicator {
    fn default() -> (r: Self)
        ensures
            r.audio_feedback(),
    {
        Indicator::new()
    }
}

/// The tone for the moment that `sound_type` names.
pub fn tone_for(sound_type: &str) -> (r: Tone)
    ensures
        r == tone_of(sound_type@),
{
    if same_text(sound_type, "start") {
        Tone { frequency_hz: 800, duration_ms: 150 }
    } else if same_text(sound_type, "stop") {
        Tone { frequency_hz: 400, duration_ms: 200 }
    } else if same_text(sound_type, "complete") {
        Tone { frequency_hz: 1000, duration_ms: 100 }
    } else {
        Tone { frequency_hz: 500, duration_ms: 150 }
    }
}

/// Whether a run of the tone generator counts as played: it does if it
/// succeeded, and if it was ended by its time limit, which shows as exit
/// code 124.
pub fn tone_was_played(succeeded: bool, exit_code: Option<i32>) -> (r: bool)
    ensures
        r == (succeeded || exit_code == Some(124i32)),
{
    succeeded || match exit_code {
        Some(code) => code == 124,
        None => false,
    }
}

/// A program that plays sound files.
#[derive(Clone, Copy, Debug, PartialEq, Eq, Structural)]
pub enum Player {
    Aplay,
    Paplay,
    Mpv,
}

/// The program that plays files with extension `ext`: `aplay` for `wav`,
/// `mpv` for `mp3`, and `paplay` for everything else.
pub open spec fn player_of(ext: Seq<char>) -> Player {
    if ext == "wav"@ {
        Player::Aplay
    } else if ext == "mp3"@ {
        Player::Mpv
    } else {
        Player::Paplay
    }
}

/// The program that plays files with extension `ext`.
pub fn player_for(ext: &str) -> (r: Player)
    ensures
        r == player_of(ext@),
{
    if same_text(ext, "wav") {
        Player::Aplay
    } else if same_text(ext, "mp3") {
        Player::Mpv
    } else {
        Player::Paplay
    }
}

/// Samples in one second of a generated sound.
pub const SAMPLE_RATE: u32 = 44100;

/// The number of samples of a generated sound of `duration_ms` milliseconds.
pub fn sample_count(duration_ms: u32) -> (r: u64)
    ensures
        r == (44100 * duration_ms) / 1000,
{
    let total: u64 = 44100 * (duration_ms as u64);
    total / 1000
}

/// What to play at a moment: the file of the user first, if one is set, and
/// the generated sound if there is none or it could not be played.
#[derive(Clone, Copy, Debug, PartialEq, Eq, Structural)]
pub enum SoundSource {
    CustomFile,
    Generated,
}

/// The source to try first.
pub fn first_source(has_custom_path: bool) -> (r: SoundSource)
    ensures
        r == (if has_custom_path {
            SoundSource::CustomFile
        } else {
            SoundSource::Generated
        }),
{
    if has_custom_path {
        SoundSource::CustomFile
    } else {
        SoundSource::Generated
    }
}

} // verus!
