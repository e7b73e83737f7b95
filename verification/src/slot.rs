//! Main-thread model of one clip slot.
//!
//! A slot is a state machine over recording and playback. Its state moves
//! only along the acknowledged paths: a recording request must be answered
//! by the real-time side before the slot counts as recording, and a finished
//! recording either commits new content or leaves the slot as it was.

use vstd::prelude::*;

use crate::clip::{ApiClip, Clip, ClipPlayState, ClipTimeBase, Db, MaterialInfo};
use crate::units::{UnitValue, UNIT_DENOM};

verus! {

/// How a record command treats existing MIDI content.
#[derive(Clone, Copy, PartialEq, Eq, Structural, Debug)]
pub enum MidiClipRecordMode {
    /// Record from scratch, replacing the content.
    Normal,
    /// Overdub into the existing MIDI clip.
    Overdub,
    /// Replace notes in the existing MIDI clip while it keeps playing.
    Replace,
}

/// Runtime facts about the clip in a slot. The position is advanced by the
/// real-time side and reconciled into this model by polling.
#[derive(Clone, Copy, PartialEq, Eq, Structural, Debug)]
pub struct SlotRuntimeData {
    pub play_state: ClipPlayState,
    /// Position in frames; negative during the count-in phase.
    pub pos: i64,
    pub material_info: MaterialInfo,
}

impl SlotRuntimeData {
    /// The play position wrapped into the material, in frames.
    pub open spec fn spec_mod_frame(self) -> int {
        if self.pos >= 0 && self.material_info.frame_count > 0 {
            (self.pos as int) % (self.material_info.frame_count as int)
        } else {
            0
        }
    }

    /// Wraps the play position into the material.
    pub fn mod_frame(&self) -> (r: u64)
        ensures
            r == self.spec_mod_frame(),
    {
        if self.pos >= 0 && self.material_info.frame_count > 0 {
            let p = self.pos as u64;
            let fc = self.material_info.frame_count as u64;
            p % fc
        } else {
            0
        }
    }
}

/// Content of a filled slot: the clip model and its runtime data.
#[derive(Clone, Debug)]
pub struct Content {
    pub clip: Clip,
    /// The frame count in the material info takes section bounds into
    /// account.
    pub runtime_data: SlotRuntimeData,
}

/// State that a slot carries while a recording is live.
#[derive(Clone, Copy, PartialEq, Eq, Structural, Debug)]
pub struct RecordingState {
    pub runtime_data: SlotRuntimeData,
}

/// State machine of a slot.
///
/// Transitions are strictly along the acknowledged paths: `Normal` moves to
/// one of the requested states on a record command, a requested state moves
/// on only when the real-time side acknowledges, and `Recording` returns to
/// `Normal` when the recording finishes.
#[derive(Clone, Copy, PartialEq, Eq, Structural, Debug)]
pub enum SlotState {
    /// Either empty or filled; can be overdubbing (check the play state).
    Normal,
    /// An overdub request is in flight; blocks further record commands until
    /// the acknowledgement arrives.
    RequestedOverdubbing,
    /// A recording request is in flight; blocks further record commands
    /// until the acknowledgement arrives.
    RequestedRecording,
    /// Recording from scratch (not overdubbing).
    Recording(RecordingState),
}

impl SlotState {
    /// Whether the slot is in any stage of recording, requested or live.
    pub open spec fn spec_is_pretty_much_recording(self) -> bool {
        !(self is Normal)
    }

    pub fn is_pretty_much_recording(&self) -> (r: bool)
        ensures
            r == self.spec_is_pretty_much_recording(),
    {
        match self {
            SlotState::Normal => false,
            _ => true,
        }
    }
}

impl Default for SlotState {
    fn default() -> (r: Self)
        ensures
            r is Normal,
    {
        SlotState::Normal
    }
}

/// What the main thread asks the real-time side to prepare for a recording.
#[derive(Clone, Copy, PartialEq, Eq, Structural, Debug)]
pub enum SlotRecordInstruction {
    /// The slot has no clip: the real-time side must build the whole
    /// supplier chain for the new material.
    NewClip { is_midi: bool, frame_rate: u32 },
    /// The slot has a clip whose chain can be reused.
    ExistingClip { is_midi: bool },
    /// Overdub into the existing MIDI clip.
    MidiOverdub,
}

/// What a committed recording hands to the main thread: the material stays
/// in the real-time column's supplier chain, only its description crosses
/// the boundary.
#[derive(Clone, Copy, PartialEq, Eq, Structural, Debug)]
pub struct RecordedClip {
    pub material_info: MaterialInfo,
    pub looped: bool,
    pub volume: Db,
    pub time_base: ClipTimeBase,
}

/// How a finished recording left the slot, reported by the real-time side.
#[derive(Clone, Copy, PartialEq, Eq, Structural, Debug)]
pub enum NormalRecordingOutcome {
    /// The recording produced material that replaces the slot content.
    Committed(RecordedClip),
    /// The recording was rolled back; the slot keeps what it had.
    Canceled,
}

/// Observable change of a slot, handed to subscribers after polling.
#[derive(Clone, Copy, PartialEq, Eq, Structural, Debug)]
pub enum ClipChangeEvent {
    PlayState(ClipPlayState),
    ClipVolume(Db),
    ClipLooped(bool),
    ClipPosition { proportional_raw: u32, millis: u64 },
    Removed,
    RecordingFinished,
}

/// How the real-time side's answer to a recording request changes a
/// slot: the transition relation of
/// [`Slot::notify_recording_request_acknowledged`].
pub open spec fn spec_ack_applied(
    old_slot: Slot,
    new_slot: Slot,
    successful: bool,
    runtime_data: Option<SlotRuntimeData>,
    r: Result<(), &'static str>,
) -> bool {
    &&& new_slot.spec_content() == old_slot.spec_content()
    &&& new_slot.spec_index() == old_slot.spec_index()
    &&& (!successful ==> new_slot.spec_state() is Normal && r is Ok)
    &&& (successful ==> (match old_slot.spec_state() {
        SlotState::Normal => r is Err && new_slot.spec_state() is Normal,
        SlotState::RequestedOverdubbing => r is Ok && new_slot.spec_state() is Normal,
        SlotState::RequestedRecording => (match runtime_data {
            Some(rd) => r is Ok && new_slot.spec_state() == SlotState::Recording(
                RecordingState { runtime_data: rd },
            ),
            None => r is Err && new_slot.spec_state() is Normal,
        }),
        SlotState::Recording(_) => r is Err && new_slot.spec_state() is Normal,
    }))
}

/// How a finished recording changes a slot: the transition relation of
/// [`Slot::notify_normal_recording_finished`].
pub open spec fn spec_finish_applied(
    old_slot: Slot,
    new_slot: Slot,
    outcome: NormalRecordingOutcome,
    r: Result<ClipChangeEvent, &'static str>,
) -> bool {
    &&& new_slot.spec_state() is Normal
    &&& new_slot.spec_index() == old_slot.spec_index()
    &&& (match outcome {
        NormalRecordingOutcome::Canceled => {
            &&& r == Ok::<_, &'static str>(ClipChangeEvent::Removed)
            &&& new_slot.spec_content() == old_slot.spec_content()
        },
        NormalRecordingOutcome::Committed(recorded) => (match old_slot.spec_state() {
            SlotState::Recording(s) => {
                &&& r == Ok::<_, &'static str>(ClipChangeEvent::RecordingFinished)
                &&& new_slot.spec_content() matches Some(c)
                &&& (new_slot.spec_content() matches Some(c) && {
                    &&& c.clip.spec_looped() == recorded.looped
                    &&& c.clip.spec_volume() == recorded.volume
                    &&& c.clip.spec_time_base() == recorded.time_base
                    &&& c.runtime_data.play_state == s.runtime_data.play_state
                    &&& c.runtime_data.pos == s.runtime_data.pos
                    &&& c.runtime_data.material_info == recorded.material_info
                })
            },
            _ => r is Err && new_slot.spec_content() == old_slot.spec_content(),
        }),
    })
}

/// How an update of the active runtime data's play state changes a slot:
/// the transition relation of [`Slot::update_play_state`].
pub open spec fn spec_play_state_update_applied(
    old_slot: Slot,
    new_slot: Slot,
    play_state: ClipPlayState,
) -> bool {
    &&& new_slot.spec_index() == old_slot.spec_index()
    &&& (match old_slot.spec_state() {
        SlotState::Recording(s) => new_slot.spec_state() == SlotState::Recording(
            RecordingState {
                runtime_data: SlotRuntimeData { play_state, ..s.runtime_data },
            },
        ) && new_slot.spec_content() == old_slot.spec_content(),
        _ => (match old_slot.spec_content() {
            Some(c) => new_slot.spec_state() == old_slot.spec_state() && (new_slot.spec_content()
                matches Some(c2) && c2.clip == c.clip && c2.runtime_data == (SlotRuntimeData {
                play_state,
                ..c.runtime_data
            })),
            None => new_slot == old_slot,
        }),
    })
}

/// How an update of the active runtime data's material info changes a
/// slot: the transition relation of [`Slot::update_material_info`].
pub open spec fn spec_material_update_applied(
    old_slot: Slot,
    new_slot: Slot,
    material_info: MaterialInfo,
) -> bool {
    &&& new_slot.spec_index() == old_slot.spec_index()
    &&& (match old_slot.spec_state() {
        SlotState::Recording(s) => new_slot.spec_state() == SlotState::Recording(
            RecordingState {
                runtime_data: SlotRuntimeData { material_info, ..s.runtime_data },
            },
        ) && new_slot.spec_content() == old_slot.spec_content(),
        _ => (match old_slot.spec_content() {
            Some(c) => new_slot.spec_state() == old_slot.spec_state() && (new_slot.spec_content()
                matches Some(c2) && c2.clip == c.clip && c2.runtime_data == (SlotRuntimeData {
                material_info,
                ..c.runtime_data
            })),
            None => new_slot == old_slot,
        }),
    })
}

/// Main-thread model of one clip slot.
#[derive(Clone, Debug)]
pub struct Slot {
    index: usize,
    content: Option<Content>,
    state: SlotState,
}

/// The material info that a committed recording carries.
pub open spec fn material_info_of_api_clip(c: ApiClip) -> MaterialInfo {
    MaterialInfo {
        is_midi: c.is_midi,
        frame_count: c.frames.len() as usize,
        frame_rate: c.frame_rate,
        channel_count: c.channel_count,
    }
}

impl Slot {
    pub closed spec fn spec_index(self) -> int {
        self.index as int
    }

    pub closed spec fn spec_content(self) -> Option<Content> {
        self.content
    }

    pub closed spec fn spec_state(self) -> SlotState {
        self.state
    }

    /// Whether the slot neither holds content nor records.
    pub open spec fn spec_is_empty(self) -> bool {
        self.spec_content() is None && !self.spec_state().spec_is_pretty_much_recording()
    }

    pub fn new(index: usize) -> (r: Slot)
        ensures
            r.spec_index() == index,
            r.spec_content() is None,
            r.spec_state() is Normal,
    {
        Slot { index, content: None, state: SlotState::Normal }
    }

    pub fn index(&self) -> (r: usize)
        ensures
            r == self.spec_index(),
    {
        self.index
    }

    pub fn is_empty(&self) -> (r: bool)
        ensures
            r == self.spec_is_empty(),
    {
        match &self.content {
            Some(_) => false,
            None => !self.state.is_pretty_much_recording(),
        }
    }

    pub fn is_recording(&self) -> (r: bool)
        ensures
            r == self.spec_state().spec_is_pretty_much_recording(),
    {
        self.state.is_pretty_much_recording()
    }

    pub fn state(&self) -> (r: SlotState)
        ensures
            r == self.spec_state(),
    {
        self.state
    }

    pub fn clip(&self) -> (r: Option<&Clip>)
        ensures
            (match r {
                Some(c) => self.spec_content() matches Some(ct) && *c == ct.clip,
                None => self.spec_content() is None,
            }),
    {
        match &self.content {
            Some(c) => Some(&c.clip),
            None => None,
        }
    }

    /// Requests a recording for this slot and moves the state machine to
    /// the matching requested state.
    ///
    /// Fails without changing anything while a recording is in flight: a
    /// second record command must be rejected, never queued. Otherwise the
    /// command becomes an overdub when the slot holds a MIDI clip, the
    /// record mode asks for it and the input is MIDI; else a recording from
    /// scratch, reusing the chain when the slot already holds a clip.
    pub fn record_clip(
        &mut self,
        record_mode: MidiClipRecordMode,
        input_is_midi: bool,
        frame_rate: u32,
    ) -> (r: Result<SlotRecordInstruction, &'static str>)
        ensures
            old(self).spec_state().spec_is_pretty_much_recording() ==> {
                &&& r matches Err(e) && e@ == "recording already"@
                &&& *final (self) == *old(self)
            },
            (!old(self).spec_state().spec_is_pretty_much_recording() && (old(self).spec_content()
                matches Some(c) && c.runtime_data.play_state.is_somehow_recording())) ==> {
                &&& r matches Err(e) && e@ == "recording already according to play state"@
                &&& *final (self) == *old(self)
            },
            (!old(self).spec_state().spec_is_pretty_much_recording() && !(old(self).spec_content()
                matches Some(c) && c.runtime_data.play_state.is_somehow_recording())) ==> {
                let wants_overdub = {
                    &&& (record_mode is Overdub || record_mode is Replace)
                    &&& input_is_midi
                    &&& (old(self).spec_content() matches Some(c)
                        && c.runtime_data.material_info.is_midi)
                };
                &&& final (self).spec_content() == old(self).spec_content()
                &&& final (self).spec_index() == old(self).spec_index()
                &&& (if wants_overdub {
                    final (self).spec_state() is RequestedOverdubbing && r == Ok::<
                        _,
                        &'static str,
                    >(SlotRecordInstruction::MidiOverdub)
                } else {
                    final (self).spec_state() is RequestedRecording && (match old(
                        self,
                    ).spec_content() {
                        Some(_) => r == Ok::<_, &'static str>(
                            SlotRecordInstruction::ExistingClip { is_midi: input_is_midi },
                        ),
                        None => r == Ok::<_, &'static str>(
                            SlotRecordInstruction::NewClip { is_midi: input_is_midi, frame_rate },
                        ),
                    })
                })
            },
    {
        if self.state.is_pretty_much_recording() {
            return Err("recording already");
        }
        let has_content = self.content.is_some();
        let mut content_is_midi = false;
        if let Some(content) = &self.content {
            if content.runtime_data.play_state.is_somehow_recording() {
                return Err("recording already according to play state");
            }
            content_is_midi = content.runtime_data.material_info.is_midi;
        }
        let wants_overdub = match record_mode {
            MidiClipRecordMode::Normal => false,
            MidiClipRecordMode::Overdub | MidiClipRecordMode::Replace => has_content
                && content_is_midi && input_is_midi,
        };
        if wants_overdub {
            self.state = SlotState::RequestedOverdubbing;
            Ok(SlotRecordInstruction::MidiOverdub)
        } else {
            self.state = SlotState::RequestedRecording;
            if has_content {
                Ok(SlotRecordInstruction::ExistingClip { is_midi: input_is_midi })
            } else {
                Ok(SlotRecordInstruction::NewClip { is_midi: input_is_midi, frame_rate })
            }
        }
    }

    /// Applies the real-time side's answer to a recording request.
    ///
    /// A negative answer rolls the state back to `Normal`. A positive
    /// answer moves a requested recording to `Recording` with the runtime
    /// data sent back, finishes a requested overdub, and is an error when
    /// nothing was requested.
    pub fn notify_recording_request_acknowledged(
        &mut self,
        successful: bool,
        runtime_data: Option<SlotRuntimeData>,
    ) -> (r: Result<(), &'static str>)
        ensures
            spec_ack_applied(*old(self), *final (self), successful, runtime_data, r),
            !successful ==> r is Ok,
            (successful && old(self).spec_state() is Normal) ==> (r matches Err(e) && e@
                == "recording was not requested"@),
            (successful && old(self).spec_state() is RequestedRecording && runtime_data is None)
                ==> (r matches Err(e) && e@ == "no runtime data sent back"@),
            (successful && old(self).spec_state() is Recording) ==> (r matches Err(e) && e@
                == "recording already"@),
    {
        if !successful {
            self.state = SlotState::Normal;
            return Ok(());
        }
        let prev = self.state;
        self.state = SlotState::Normal;
        match prev {
            SlotState::Normal => Err("recording was not requested"),
            SlotState::RequestedOverdubbing => Ok(()),
            SlotState::RequestedRecording => {
                match runtime_data {
                    Some(rd) => {
                        self.state = SlotState::Recording(RecordingState { runtime_data: rd });
                        Ok(())
                    },
                    None => Err("no runtime data sent back"),
                }
            },
            SlotState::Recording(_) => Err("recording already"),
        }
    }

    /// Applies the real-time side's report that a recording ended.
    ///
    /// A committed recording replaces the content and returns the state to
    /// `Normal`; it is an error unless the slot was in the acknowledged
    /// `Recording` state. A canceled recording returns the state to
    /// `Normal` and leaves the content as it was.
    pub fn notify_normal_recording_finished(&mut self, outcome: NormalRecordingOutcome) -> (r:
        Result<ClipChangeEvent, &'static str>)
        ensures
            spec_finish_applied(*old(self), *final (self), outcome, r),
            (outcome is Committed && old(self).spec_state() is Normal) ==> (r matches Err(e)
                && e@ == "slot was not recording"@),
            (outcome is Committed && old(self).spec_state() is RequestedOverdubbing) ==> (r
                matches Err(e) && e@ == "requested overdubbing"@),
            (outcome is Committed && old(self).spec_state() is RequestedRecording) ==> (r
                matches Err(e) && e@ == "clip recording was not yet acknowledged"@),
    {
        match outcome {
            NormalRecordingOutcome::Committed(recorded) => {
                let prev = self.state;
                self.state = SlotState::Normal;
                match prev {
                    SlotState::Normal => Err("slot was not recording"),
                    SlotState::RequestedOverdubbing => Err("requested overdubbing"),
                    SlotState::RequestedRecording => Err(
                        "clip recording was not yet acknowledged",
                    ),
                    SlotState::Recording(s) => {
                        let api_clip_like = ApiClip {
                            frames: Vec::new(),
                            is_midi: recorded.material_info.is_midi,
                            frame_rate: recorded.material_info.frame_rate,
                            channel_count: recorded.material_info.channel_count,
                            time_base: recorded.time_base,
                            looped: recorded.looped,
                            volume: recorded.volume,
                        };
                        let clip = Clip::load(&api_clip_like);
                        let runtime_data = SlotRuntimeData {
                            play_state: s.runtime_data.play_state,
                            pos: s.runtime_data.pos,
                            material_info: recorded.material_info,
                        };
                        self.content = Some(Content { clip, runtime_data });
                        Ok(ClipChangeEvent::RecordingFinished)
                    },
                }
            },
            NormalRecordingOutcome::Canceled => {
                self.state = SlotState::Normal;
                Ok(ClipChangeEvent::Removed)
            },
        }
    }

    /// Fills the slot with a committed clip and fresh runtime data.
    pub fn fill_with(&mut self, clip: Clip, material_info: MaterialInfo)
        ensures
            final (self).spec_content() matches Some(c) && c.clip == clip
                && c.runtime_data.play_state is Stopped && c.runtime_data.pos == 0
                && c.runtime_data.material_info == material_info,
            final (self).spec_state() == old(self).spec_state(),
            final (self).spec_index() == old(self).spec_index(),
    {
        let runtime_data = SlotRuntimeData { play_state: ClipPlayState::Stopped, pos: 0, material_info };
        self.content = Some(Content { clip, runtime_data });
    }

    /// Takes the content out after the real-time side cleared the slot.
    pub fn slot_cleared(&mut self) -> (r: Option<ClipChangeEvent>)
        ensures
            final (self).spec_content() is None,
            final (self).spec_state() == old(self).spec_state(),
            final (self).spec_index() == old(self).spec_index(),
            r == (if old(self).spec_content() is Some {
                Some(ClipChangeEvent::Removed)
            } else {
                Option::<ClipChangeEvent>::None
            }),
    {
        match self.content.take() {
            Some(_) => Some(ClipChangeEvent::Removed),
            None => None,
        }
    }

    /// The play state that observers see: a requested recording counts as
    /// scheduled even before the acknowledgement.
    pub fn clip_play_state(&self) -> (r: Result<ClipPlayState, &'static str>)
        ensures
            (match self.spec_state() {
                SlotState::Normal => (match self.spec_content() {
                    Some(c) => r == Ok::<_, &'static str>(c.runtime_data.play_state),
                    None => r matches Err(e) && e@ == "slot not filled"@,
                }),
                SlotState::RequestedOverdubbing | SlotState::RequestedRecording => r == Ok::<
                    _,
                    &'static str,
                >(ClipPlayState::ScheduledForRecordingStart),
                SlotState::Recording(s) => r == Ok::<_, &'static str>(s.runtime_data.play_state),
            }),
    {
        match &self.state {
            SlotState::Normal => {
                match &self.content {
                    Some(c) => Ok(c.runtime_data.play_state),
                    None => Err("slot not filled"),
                }
            },
            SlotState::RequestedOverdubbing | SlotState::RequestedRecording => Ok(
                ClipPlayState::ScheduledForRecordingStart,
            ),
            SlotState::Recording(s) => Ok(s.runtime_data.play_state),
        }
    }

    pub fn is_stoppable(&self) -> (r: bool)
        ensures
            r == (match self.spec_state() {
                SlotState::Normal => (match self.spec_content() {
                    Some(c) => c.runtime_data.play_state.is_stoppable(),
                    None => false,
                }),
                SlotState::RequestedOverdubbing | SlotState::RequestedRecording => true,
                SlotState::Recording(s) => s.runtime_data.play_state.is_stoppable(),
            }),
    {
        match self.clip_play_state() {
            Ok(s) => s.is_stoppable(),
            Err(_) => false,
        }
    }

    /// The runtime data that position and state updates apply to: the live
    /// recording's if one is acknowledged, else the content's.
    pub open spec fn spec_active_runtime_data(self) -> Option<SlotRuntimeData> {
        match self.spec_state() {
            SlotState::Recording(s) => Some(s.runtime_data),
            _ => (match self.spec_content() {
                Some(c) => Some(c.runtime_data),
                None => None,
            }),
        }
    }

    /// Applies a play-state update from the real-time side.
    pub fn update_play_state(&mut self, play_state: ClipPlayState) -> (r: Result<
        (),
        &'static str,
    >)
        ensures
            spec_play_state_update_applied(*old(self), *final (self), play_state),
            r is Err <==> (!(old(self).spec_state() is Recording) && old(self).spec_content()
                is None),
    {
        match &mut self.state {
            SlotState::Recording(s) => {
                s.runtime_data.play_state = play_state;
                Ok(())
            },
            _ => {
                match &mut self.content {
                    Some(c) => {
                        c.runtime_data.play_state = play_state;
                        Ok(())
                    },
                    None => Err("slot not filled"),
                }
            },
        }
    }

    /// Applies a position update from the real-time side.
    pub fn update_pos(&mut self, pos: i64) -> (r: Result<(), &'static str>)
        ensures
            final (self).spec_index() == old(self).spec_index(),
            (match old(self).spec_state() {
                SlotState::Recording(s) => {
                    &&& r is Ok
                    &&& final (self).spec_state() == SlotState::Recording(
                        RecordingState {
                            runtime_data: SlotRuntimeData { pos, ..s.runtime_data },
                        },
                    )
                    &&& final (self).spec_content() == old(self).spec_content()
                },
                _ => (match old(self).spec_content() {
                    Some(c) => {
                        &&& r is Ok
                        &&& final (self).spec_state() == old(self).spec_state()
                        &&& final (self).spec_content() matches Some(c2) && c2.clip == c.clip
                            && c2.runtime_data == (SlotRuntimeData { pos, ..c.runtime_data })
                    },
                    None => {
                        &&& r matches Err(e) && e@ == "slot not filled"@
                        &&& *final (self) == *old(self)
                    },
                }),
            }),
    {
        match &mut self.state {
            SlotState::Recording(s) => {
                s.runtime_data.pos = pos;
                Ok(())
            },
            _ => {
                match &mut self.content {
                    Some(c) => {
                        c.runtime_data.pos = pos;
                        Ok(())
                    },
                    None => Err("slot not filled"),
                }
            },
        }
    }

    /// Applies a material-info update from the real-time side.
    pub fn update_material_info(&mut self, material_info: MaterialInfo) -> (r: Result<
        (),
        &'static str,
    >)
        ensures
            spec_material_update_applied(*old(self), *final (self), material_info),
            r is Err <==> (!(old(self).spec_state() is Recording) && old(self).spec_content()
                is None),
    {
        match &mut self.state {
            SlotState::Recording(s) => {
                s.runtime_data.material_info = material_info;
                Ok(())
            },
            _ => {
                match &mut self.content {
                    Some(c) => {
                        c.runtime_data.material_info = material_info;
                        Ok(())
                    },
                    None => Err("slot not filled"),
                }
            },
        }
    }

    /// The play position as a fraction of the material, for seek feedback.
    pub fn proportional_position(&self) -> (r: Result<UnitValue, &'static str>)
        ensures
            (match self.spec_active_runtime_data() {
                None => r matches Err(e) && e@ == "slot not filled"@,
                Some(rd) => {
                    if rd.pos < 0 {
                        r matches Err(e) && e@ == "count-in phase"@
                    } else if rd.material_info.frame_count == 0 {
                        r matches Err(e) && e@ == "frame count is zero"@
                    } else {
                        r matches Ok(u) && u.spec_raw() == rd.spec_mod_frame() * UNIT_DENOM
                            / rd.material_info.frame_count as int
                    }
                },
            }),
    {
        let rd: &SlotRuntimeData = match &self.state {
            SlotState::Recording(s) => &s.runtime_data,
            _ => {
                match &self.content {
                    Some(c) => &c.runtime_data,
                    None => {
                        return Err("slot not filled");
                    },
                }
            },
        };
        if rd.pos < 0 {
            return Err("count-in phase");
        }
        let fc = rd.material_info.frame_count;
        if fc == 0 {
            return Err("frame count is zero");
        }
        let mod_pos: u64 = (rd.pos as u64) % (fc as u64);
        let raw_wide: u128 = (mod_pos as u128) * (UNIT_DENOM as u128) / (fc as u128);
        assert(raw_wide <= UNIT_DENOM) by (nonlinear_arith)
            requires
                raw_wide == (mod_pos as int) * (UNIT_DENOM as int) / (fc as int),
                mod_pos < fc,
                fc > 0,
                UNIT_DENOM == 1_000_000,
        ;
        Ok(UnitValue::new_clamped(raw_wide as u32))
    }

    /// Sets the clip volume in the slot model. Fails when the slot has no
    /// content.
    pub fn set_clip_volume(&mut self, volume: Db) -> (r: Result<ClipChangeEvent, &'static str>)
        ensures
            final (self).spec_state() == old(self).spec_state(),
            final (self).spec_index() == old(self).spec_index(),
            (match old(self).spec_content() {
                Some(c) => {
                    &&& r == Ok::<_, &'static str>(ClipChangeEvent::ClipVolume(volume))
                    &&& (final (self).spec_content() matches Some(c2) && c2.runtime_data
                        == c.runtime_data && c2.clip.spec_volume() == volume
                        && c2.clip.spec_looped() == c.clip.spec_looped()
                        && c2.clip.spec_time_base() == c.clip.spec_time_base())
                },
                None => {
                    &&& r matches Err(e) && e@ == "slot not filled"@
                    &&& *final (self) == *old(self)
                },
            }),
    {
        match &mut self.content {
            Some(c) => {
                c.clip.set_volume(volume);
                Ok(ClipChangeEvent::ClipVolume(volume))
            },
            None => Err("slot not filled"),
        }
    }

    /// Toggles the loop flag of the clip and reports the new value. Fails
    /// when the slot has no content.
    pub fn toggle_clip_looped(&mut self) -> (r: Result<ClipChangeEvent, &'static str>)
        ensures
            final (self).spec_state() == old(self).spec_state(),
            final (self).spec_index() == old(self).spec_index(),
            (match old(self).spec_content() {
                Some(c) => {
                    &&& r == Ok::<_, &'static str>(
                        ClipChangeEvent::ClipLooped(!c.clip.spec_looped()),
                    )
                    &&& (final (self).spec_content() matches Some(c2) && c2.runtime_data
                        == c.runtime_data && c2.clip.spec_looped() == !c.clip.spec_looped()
                        && c2.clip.spec_volume() == c.clip.spec_volume()
                        && c2.clip.spec_time_base() == c.clip.spec_time_base())
                },
                None => {
                    &&& r matches Err(e) && e@ == "slot not filled"@
                    &&& *final (self) == *old(self)
                },
            }),
    {
        match &mut self.content {
            Some(c) => {
                let looped = c.clip.toggle_looped();
                Ok(ClipChangeEvent::ClipLooped(looped))
            },
            None => Err("slot not filled"),
        }
    }

    /// The tempo factor that applies to the slot's position report: during
    /// recording the material's own tempo is unknown and the recording
    /// formula applies, otherwise the committed clip's time base decides.
    pub open spec fn spec_position_tempo_factor(self, timeline_tempo_cbpm: u32) -> Option<
        (int, int),
    > {
        match self.spec_state() {
            SlotState::Recording(s) => Some(
                if s.runtime_data.material_info.is_midi && timeline_tempo_cbpm > 0 {
                    (timeline_tempo_cbpm as int, crate::clip::MIDI_BASE_TEMPO_CBPM as int)
                } else {
                    (1int, 1int)
                },
            ),
            _ => match self.spec_content() {
                Some(c) => Some(
                    match c.clip.spec_time_base() {
                        crate::clip::ClipTimeBase::Beat { nominal_tempo_cbpm } => {
                            if nominal_tempo_cbpm > 0 && timeline_tempo_cbpm > 0 {
                                (timeline_tempo_cbpm as int, nominal_tempo_cbpm as int)
                            } else {
                                (1int, 1int)
                            }
                        },
                        crate::clip::ClipTimeBase::Time => (1int, 1int),
                    },
                ),
                None => None,
            },
        }
    }

    /// The position in milliseconds that the factor and runtime data give:
    /// the wrapped frame position converted by the frame rate and adjusted
    /// anti-proportionally to the tempo factor, saturated to 64 bits.
    pub open spec fn spec_position_millis(rd: SlotRuntimeData, num: int, den: int) -> int {
        let exact = rd.spec_mod_frame() * 1000 * den / (rd.material_info.frame_rate as int * num);
        if exact <= u64::MAX as int {
            exact
        } else {
            u64::MAX as int
        }
    }

    /// The play position in milliseconds, adjusted for tempo. During
    /// recording the tempo factor follows the recording formula because the
    /// material's own tempo is not yet known.
    pub fn position_in_millis(&self, timeline_tempo_cbpm: u32) -> (r: Result<u64, &'static str>)
        ensures
            (match self.spec_position_tempo_factor(timeline_tempo_cbpm) {
                None => r matches Err(e) && e@ == "slot not filled"@,
                Some((num, den)) => {
                    let rd = self.spec_active_runtime_data()->0;
                    if rd.material_info.frame_rate == 0 {
                        r matches Err(e) && e@ == "frame rate is zero"@
                    } else {
                        r == Ok::<u64, &'static str>(
                            Self::spec_position_millis(rd, num, den) as u64,
                        )
                    }
                },
            }),
    {
        let (rd, num, den): (&SlotRuntimeData, u32, u32) = match &self.state {
            SlotState::Recording(s) => {
                let f = s.runtime_data.material_info.tempo_factor_during_recording(
                    timeline_tempo_cbpm,
                );
                (&s.runtime_data, f.0, f.1)
            },
            _ => {
                match &self.content {
                    Some(c) => {
                        let f = c.clip.tempo_factor(timeline_tempo_cbpm);
                        (&c.runtime_data, f.0, f.1)
                    },
                    None => {
                        return Err("slot not filled");
                    },
                }
            },
        };
        if rd.material_info.frame_rate == 0 {
            return Err("frame rate is zero");
        }
        let mod_frame = rd.mod_frame();
        assert((mod_frame as u128) * 1000u128 * (den as u128) <= 0xffff_ffff_ffff_ffffu128
            * 1000u128 * 0xffff_ffffu128) by (nonlinear_arith)
            requires
                mod_frame <= 0xffff_ffff_ffff_ffffu64,
                den <= 0xffff_ffffu32,
        ;
        let numerator: u128 = (mod_frame as u128) * 1000u128 * (den as u128);
        assert((rd.material_info.frame_rate as u128) * (num as u128) <= 0xffff_ffffu128
            * 0xffff_ffffu128) by (nonlinear_arith)
            requires
                rd.material_info.frame_rate <= 0xffff_ffffu32,
                num <= 0xffff_ffffu32,
        ;
        let divisor: u128 = (rd.material_info.frame_rate as u128) * (num as u128);
        assert(num > 0);
        assert(divisor > 0) by (nonlinear_arith)
            requires
                divisor == (rd.material_info.frame_rate as u128) * (num as u128),
                rd.material_info.frame_rate > 0,
                num > 0,
        ;
        let exact: u128 = numerator / divisor;
        proof {
            assert((mod_frame as int) * 1000 * (den as int) == numerator) by (nonlinear_arith)
                requires
                    numerator == (mod_frame as u128) * 1000u128 * (den as u128),
                    mod_frame <= u64::MAX,
                    den <= u32::MAX,
            ;
            assert((rd.material_info.frame_rate as int) * (num as int) == divisor)
                by (nonlinear_arith)
                requires
                    divisor == (rd.material_info.frame_rate as u128) * (num as u128),
            ;
        }
        if exact > u64::MAX as u128 {
            Ok(u64::MAX)
        } else {
            Ok(exact as u64)
        }
    }
}

} // verus!
