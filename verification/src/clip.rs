//! Clip material and play-state model shared by the main-thread slot model
//! and the real-time column.

use vstd::prelude::*;

verus! {

/// Play state of a clip, as reported to observers.
#[derive(Clone, Copy, PartialEq, Eq, Structural, Debug)]
pub enum ClipPlayState {
    Stopped,
    ScheduledForPlayStart,
    Playing,
    Paused,
    ScheduledForPlayStop,
    ScheduledForRecordingStart,
    Recording,
    ScheduledForRecordingStop,
}

impl ClipPlayState {
    /// States in which the clip audibly plays or is about to.
    pub open spec fn spec_is_as_good_as_playing(self) -> bool {
        self is ScheduledForPlayStart || self is Playing
    }

    /// States in which the position advances and observers want updates.
    pub open spec fn spec_is_advancing(self) -> bool {
        self is ScheduledForPlayStart || self is Playing || self is ScheduledForPlayStop
            || self is Recording || self is ScheduledForRecordingStop
    }

    /// States that a stop command can leave.
    pub open spec fn spec_is_stoppable(self) -> bool {
        self is ScheduledForPlayStart || self is Playing || self is Paused
            || self is ScheduledForRecordingStart || self is Recording
    }

    /// States that belong to an ongoing or scheduled recording.
    pub open spec fn spec_is_somehow_recording(self) -> bool {
        self is ScheduledForRecordingStart || self is Recording
            || self is ScheduledForRecordingStop
    }

    /// States in which the clip audibly plays or is about to.
    #[verifier::when_used_as_spec(spec_is_as_good_as_playing)]
    pub fn is_as_good_as_playing(self) -> (r: bool)
        ensures
            r == self.spec_is_as_good_as_playing(),
    {
        match self {
            ClipPlayState::ScheduledForPlayStart | ClipPlayState::Playing => true,
            _ => false,
        }
    }

    /// States in which the position advances and observers want updates.
    #[verifier::when_used_as_spec(spec_is_advancing)]
    pub fn is_advancing(self) -> (r: bool)
        ensures
            r == self.spec_is_advancing(),
    {
        match self {
            ClipPlayState::ScheduledForPlayStart
            | ClipPlayState::Playing
            | ClipPlayState::ScheduledForPlayStop
            | ClipPlayState::Recording
            | ClipPlayState::ScheduledForRecordingStop => true,
            _ => false,
        }
    }

    /// States that a stop command can leave.
    #[verifier::when_used_as_spec(spec_is_stoppable)]
    pub fn is_stoppable(self) -> (r: bool)
        ensures
            r == self.spec_is_stoppable(),
    {
        match self {
            ClipPlayState::ScheduledForPlayStart
            | ClipPlayState::Playing
            | ClipPlayState::Paused
            | ClipPlayState::ScheduledForRecordingStart
            | ClipPlayState::Recording => true,
            _ => false,
        }
    }

    /// States that belong to an ongoing or scheduled recording.
    #[verifier::when_used_as_spec(spec_is_somehow_recording)]
    pub fn is_somehow_recording(self) -> (r: bool)
        ensures
            r == self.spec_is_somehow_recording(),
    {
        match self {
            ClipPlayState::ScheduledForRecordingStart
            | ClipPlayState::Recording
            | ClipPlayState::ScheduledForRecordingStop => true,
            _ => false,
        }
    }
}

impl Default for ClipPlayState {
    fn default() -> (r: Self)
        ensures
            r is Stopped,
    {
        ClipPlayState::Stopped
    }
}

/// Time base of a clip: time-based material keeps its duration, beat-based
/// material follows the tempo with the given nominal tempo in centi-BPM.
#[derive(Clone, Copy, PartialEq, Eq, Structural, Debug)]
pub enum ClipTimeBase {
    Time,
    Beat { nominal_tempo_cbpm: u32 },
}

/// Static facts about a clip's material. The frame count takes section
/// bounds into account; MIDI uses an artificial fixed frame rate so that
/// MIDI and audio share the supply interface.
#[derive(Clone, Copy, PartialEq, Eq, Structural, Debug)]
pub struct MaterialInfo {
    /// Whether the material is MIDI (true) or audio (false).
    pub is_midi: bool,
    /// Total number of frames.
    pub frame_count: usize,
    /// Frames per second.
    pub frame_rate: u32,
    /// Number of audio channels; 0 for MIDI.
    pub channel_count: u32,
}

/// The fixed tempo that MIDI material is pretended to have, in centi-BPM.
/// Treating tempo-less MIDI as 120 BPM material lets it share the audio
/// code paths.
pub const MIDI_BASE_TEMPO_CBPM: u32 = 12000;

impl MaterialInfo {
    /// Tempo factor to apply while this material is being recorded: the
    /// material's own tempo is not known yet, so MIDI follows the timeline
    /// tempo relative to the fixed MIDI base tempo and audio stays at 1.
    /// The factor is returned as a numerator/denominator pair.
    pub fn tempo_factor_during_recording(&self, timeline_tempo_cbpm: u32) -> (r: (u32, u32))
        ensures
            self.is_midi && timeline_tempo_cbpm > 0 ==> r == (
                timeline_tempo_cbpm,
                MIDI_BASE_TEMPO_CBPM,
            ),
            !(self.is_midi && timeline_tempo_cbpm > 0) ==> r == (1u32, 1u32),
    {
        if self.is_midi && timeline_tempo_cbpm > 0 {
            (timeline_tempo_cbpm, MIDI_BASE_TEMPO_CBPM)
        } else {
            (1, 1)
        }
    }
}

/// Volume in millibels; 0 is unity gain.
#[derive(Clone, Copy, PartialEq, Eq, Structural, Debug)]
pub struct Db {
    pub millibels: i32,
}

impl Db {
    pub fn zero() -> (r: Db)
        ensures
            r.millibels == 0,
    {
        Db { millibels: 0 }
    }

    pub fn new(millibels: i32) -> (r: Db)
        ensures
            r.millibels == millibels,
    {
        Db { millibels }
    }
}

/// Persistent description of a clip, the form in which a clip enters or
/// leaves a slot. The audio/MIDI payload is carried as plain frames.
#[derive(Clone, Debug)]
pub struct ApiClip {
    /// PCM frames for audio, event-list frames for MIDI.
    pub frames: Vec<i32>,
    pub is_midi: bool,
    pub frame_rate: u32,
    pub channel_count: u32,
    pub time_base: ClipTimeBase,
    pub looped: bool,
    pub volume: Db,
}

/// Main-thread model of a clip that sits in a slot.
#[derive(Clone, Debug)]
pub struct Clip {
    looped: bool,
    volume: Db,
    time_base: ClipTimeBase,
}

impl Clip {
    pub closed spec fn spec_looped(self) -> bool {
        self.looped
    }

    pub closed spec fn spec_volume(self) -> Db {
        self.volume
    }

    pub closed spec fn spec_time_base(self) -> ClipTimeBase {
        self.time_base
    }

    /// Loads the persistent description into a clip model.
    pub fn load(api_clip: &ApiClip) -> (r: Clip)
        ensures
            r.spec_looped() == api_clip.looped,
            r.spec_volume() == api_clip.volume,
            r.spec_time_base() == api_clip.time_base,
    {
        Clip { looped: api_clip.looped, volume: api_clip.volume, time_base: api_clip.time_base }
    }

    pub fn looped(&self) -> (r: bool)
        ensures
            r == self.spec_looped(),
    {
        self.looped
    }

    /// Flips the loop flag and returns the new value.
    pub fn toggle_looped(&mut self) -> (r: bool)
        ensures
            final (self).spec_looped() == !old(self).spec_looped(),
            r == final (self).spec_looped(),
            final (self).spec_volume() == old(self).spec_volume(),
            final (self).spec_time_base() == old(self).spec_time_base(),
    {
        self.looped = !self.looped;
        self.looped
    }

    pub fn volume(&self) -> (r: Db)
        ensures
            r == self.spec_volume(),
    {
        self.volume
    }

    pub fn set_volume(&mut self, volume: Db)
        ensures
            final (self).spec_volume() == volume,
            final (self).spec_looped() == old(self).spec_looped(),
            final (self).spec_time_base() == old(self).spec_time_base(),
    {
        self.volume = volume;
    }

    pub fn time_base(&self) -> (r: ClipTimeBase)
        ensures
            r == self.spec_time_base(),
    {
        self.time_base
    }

    /// Tempo factor of committed material at the given timeline tempo:
    /// beat-based material follows the timeline relative to its nominal
    /// tempo, time-based material stays at 1.
    pub fn tempo_factor(&self, timeline_tempo_cbpm: u32) -> (r: (u32, u32))
        ensures
            (match self.spec_time_base() {
                ClipTimeBase::Beat { nominal_tempo_cbpm } => {
                    if nominal_tempo_cbpm > 0 && timeline_tempo_cbpm > 0 {
                        r == (timeline_tempo_cbpm, nominal_tempo_cbpm)
                    } else {
                        r == (1u32, 1u32)
                    }
                },
                ClipTimeBase::Time => r == (1u32, 1u32),
            }),
    {
        match self.time_base {
            ClipTimeBase::Beat { nominal_tempo_cbpm } => {
                if nominal_tempo_cbpm > 0 && timeline_tempo_cbpm > 0 {
                    (timeline_tempo_cbpm, nominal_tempo_cbpm)
                } else {
                    (1, 1)
                }
            },
            ClipTimeBase::Time => (1, 1),
        }
    }
}

} // verus!
