//! Real-time side of one column.
//!
//! The real-time column receives commands from the main thread, manipulates
//! its per-slot supplier chains, and answers with events. Commands and
//! events travel as plain values so that the main thread never shares
//! mutable state with this actor; buffer allocation for a recording happens
//! here, before the acknowledgement, never in the audio callback itself.

use vstd::prelude::*;

use crate::clip::{ApiClip, ClipPlayState, Db, MaterialInfo};
use crate::slot::{NormalRecordingOutcome, RecordedClip, SlotRecordInstruction, SlotRuntimeData};
use crate::supplier::SupplierChain;
use crate::units::UnitValue;

verus! {

/// A command from the main thread to the real-time column.
#[derive(Clone, Debug)]
pub enum ColumnCommand {
    ClearSlots,
    ClearSlot { slot_index: usize },
    FillSlot { slot_index: usize, api_clip: ApiClip },
    PlayClip { slot_index: usize },
    StopClip { slot_index: usize },
    PauseClip { slot_index: usize },
    SeekClip { slot_index: usize, desired_pos: UnitValue },
    SetClipVolume { slot_index: usize, volume: Db },
    SetClipLooped { slot_index: usize, looped: bool },
    RecordClip { slot_index: usize, instruction: SlotRecordInstruction },
    Stop,
}

/// An event from the real-time column back to the main thread.
#[derive(Clone, Debug)]
pub enum ColumnEvent {
    ClipPlayStateChanged { slot_index: usize, play_state: ClipPlayState },
    ClipMaterialInfoChanged { slot_index: usize, material_info: MaterialInfo },
    RecordRequestAcknowledged {
        slot_index: usize,
        successful: bool,
        runtime_data: Option<SlotRuntimeData>,
    },
    NormalRecordingFinished { slot_index: usize, outcome: NormalRecordingOutcome },
    SlotCleared { slot_index: usize },
    InteractionFailed { slot_index: usize },
}

/// The playing clip of a real-time slot, owning its supplier chain.
#[derive(Debug)]
pub struct RtClip {
    pub play_state: ClipPlayState,
    pub pos: i64,
    pub material_info: MaterialInfo,
    pub looped: bool,
    pub volume: Db,
    /// The chain that the audio callback pulls from.
    pub chain: SupplierChain,
}

impl RtClip {
    /// Builds a real-time clip with its supplier chain from a clip
    /// description.
    pub fn load(api_clip: ApiClip) -> (r: RtClip)
        ensures
            r.play_state is Stopped,
            r.pos == 0,
            r.material_info == crate::slot::material_info_of_api_clip(api_clip),
            r.looped == api_clip.looped,
            r.volume == api_clip.volume,
            r.chain.spec_material() == api_clip.frames@,
            r.chain.is_neutral(),
    {
        let material_info = MaterialInfo {
            is_midi: api_clip.is_midi,
            frame_count: api_clip.frames.len(),
            frame_rate: api_clip.frame_rate,
            channel_count: api_clip.channel_count,
        };
        let looped = api_clip.looped;
        let volume = api_clip.volume;
        let chain = SupplierChain::new(api_clip.frames);
        RtClip { play_state: ClipPlayState::Stopped, pos: 0, material_info, looped, volume, chain }
    }

    pub fn runtime_data(&self) -> (r: SlotRuntimeData)
        ensures
            r.play_state == self.play_state,
            r.pos == self.pos,
            r.material_info == self.material_info,
    {
        SlotRuntimeData { play_state: self.play_state, pos: self.pos, material_info: self.material_info }
    }
}

/// A recording in progress: its settings and the material gathered so far.
#[derive(Debug)]
pub struct RtRecording {
    pub is_midi: bool,
    pub frame_rate: u32,
    pub frames: Vec<i32>,
}

/// One slot of the real-time column.
#[derive(Debug)]
pub struct RtSlot {
    pub clip: Option<RtClip>,
    pub recording: Option<RtRecording>,
}

impl RtSlot {
    pub fn empty() -> (r: RtSlot)
        ensures
            r.clip is None,
            r.recording is None,
    {
        RtSlot { clip: None, recording: None }
    }
}

/// Real-time side of one column: slots with supplier chains, driven by
/// commands, answering with events.
#[derive(Debug)]
pub struct RtColumn {
    slots: Vec<RtSlot>,
    events: Vec<ColumnEvent>,
}

impl RtColumn {
    pub closed spec fn spec_slots(self) -> Seq<RtSlot> {
        self.slots@
    }

    pub closed spec fn spec_events(self) -> Seq<ColumnEvent> {
        self.events@
    }

    /// Whether the slot at the index holds a clip.
    pub open spec fn spec_slot_has_clip(self, slot_index: int) -> bool {
        0 <= slot_index < self.spec_slots().len() && self.spec_slots()[slot_index].clip is Some
    }

    /// Whether the slot at the index records.
    pub open spec fn spec_slot_is_recording(self, slot_index: int) -> bool {
        0 <= slot_index < self.spec_slots().len() && self.spec_slots()[slot_index].recording
            is Some
    }

    pub fn new() -> (r: RtColumn)
        ensures
            r.spec_slots().len() == 0,
            r.spec_events().len() == 0,
    {
        RtColumn { slots: Vec::new(), events: Vec::new() }
    }

    /// Hands the gathered events out and leaves the queue empty.
    pub fn take_events(&mut self) -> (r: Vec<ColumnEvent>)
        ensures
            r@ == old(self).spec_events(),
            final (self).spec_events().len() == 0,
            final (self).spec_slots() == old(self).spec_slots(),
    {
        let mut out: Vec<ColumnEvent> = Vec::new();
        core::mem::swap(&mut out, &mut self.events);
        out
    }

    /// Grows the slot list with empty slots until the index exists.
    fn upsize_if_necessary(&mut self, slot_index: usize)
        requires
            slot_index < usize::MAX,
        ensures
            final (self).spec_slots().len() > slot_index,
            final (self).spec_slots().len() >= old(self).spec_slots().len(),
            old(self).spec_slots().len() > slot_index ==> final (self).spec_slots().len() == old(
                self,
            ).spec_slots().len(),
            forall|i: int|
                0 <= i < old(self).spec_slots().len() ==> final (self).spec_slots()[i] == old(
                    self,
                ).spec_slots()[i],
            forall|i: int|
                old(self).spec_slots().len() <= i < final (self).spec_slots().len() ==> {
                    &&& final (self).spec_slots()[i].clip is None
                    &&& final (self).spec_slots()[i].recording is None
                },
            final (self).spec_events() == old(self).spec_events(),
    {
        while self.slots.len() <= slot_index
            invariant
                self.events@ == old(self).spec_events(),
                self.slots@.len() >= old(self).spec_slots().len(),
                slot_index < usize::MAX,
                self.slots@.len() <= slot_index + 1 || self.slots@.len() == old(
                    self,
                ).spec_slots().len(),
                forall|i: int|
                    0 <= i < old(self).spec_slots().len() ==> self.slots@[i] == old(
                        self,
                    ).spec_slots()[i],
                forall|i: int|
                    old(self).spec_slots().len() <= i < self.slots@.len() ==> {
                        &&& self.slots@[i].clip is None
                        &&& self.slots@[i].recording is None
                    },
            decreases slot_index + 1 - self.slots.len(),
        {
            self.slots.push(RtSlot::empty());
        }
    }

    /// Fills a slot with a freshly built clip and its supplier chain.
    pub fn fill_slot(&mut self, slot_index: usize, api_clip: ApiClip)
        requires
            slot_index < usize::MAX,
        ensures
            final (self).spec_slot_has_clip(slot_index as int),
            final (self).spec_events() == old(self).spec_events(),
            (final (self).spec_slots()[slot_index as int].clip matches Some(c) && {
                &&& c.play_state is Stopped
                &&& c.chain.spec_material() == api_clip.frames@
                &&& c.material_info == crate::slot::material_info_of_api_clip(api_clip)
            }),
    {
        self.upsize_if_necessary(slot_index);
        let clip = RtClip::load(api_clip);
        let slot = &mut self.slots[slot_index];
        slot.clip = Some(clip);
    }

    /// Starts playback of the clip in the slot and reports the new play
    /// state; reports a failed interaction when the slot has no clip.
    pub fn play_clip(&mut self, slot_index: usize)
        requires
            slot_index < usize::MAX,
        ensures
            old(self).spec_slot_has_clip(slot_index as int) ==> {
                &&& final (self).spec_slot_has_clip(slot_index as int)
                &&& (final (self).spec_slots()[slot_index as int].clip matches Some(c)
                    && c.play_state is Playing)
                &&& final (self).spec_events() == old(self).spec_events().push(
                    ColumnEvent::ClipPlayStateChanged {
                        slot_index,
                        play_state: ClipPlayState::Playing,
                    },
                )
            },
            !old(self).spec_slot_has_clip(slot_index as int) ==> final (self).spec_events() == old(
                self,
            ).spec_events().push(ColumnEvent::InteractionFailed { slot_index }),
    {
        self.upsize_if_necessary(slot_index);
        let slot = &mut self.slots[slot_index];
        match &mut slot.clip {
            Some(clip) => {
                clip.play_state = ClipPlayState::Playing;
                self.events.push(
                    ColumnEvent::ClipPlayStateChanged {
                        slot_index,
                        play_state: ClipPlayState::Playing,
                    },
                );
            },
            None => {
                self.events.push(ColumnEvent::InteractionFailed { slot_index });
            },
        }
    }

    /// Stops the slot. A live recording is finished instead: material that
    /// arrived is committed, a recording that gathered nothing is canceled.
    pub fn stop_clip(&mut self, slot_index: usize)
        requires
            slot_index < usize::MAX,
        ensures
            final (self).spec_events().len() >= old(self).spec_events().len(),
            forall|k: int|
                0 <= k < old(self).spec_events().len() ==> final (self).spec_events()[k] == old(
                    self,
                ).spec_events()[k],
            old(self).spec_slot_is_recording(slot_index as int) ==> {
                &&& !final (self).spec_slot_is_recording(slot_index as int)
                &&& (old(self).spec_slots()[slot_index as int].recording matches Some(rec) && {
                    if rec.frames@.len() > 0 {
                        &&& final (self).spec_slot_has_clip(slot_index as int)
                        &&& final (self).spec_events().len() == old(self).spec_events().len() + 1
                        &&& (final (self).spec_slots()[slot_index as int].clip matches Some(cl)
                            && cl.chain.spec_material() == rec.frames@ && cl.play_state
                            is Stopped)
                        &&& (final (self).spec_events().last()
                            matches ColumnEvent::NormalRecordingFinished {
                            slot_index: si,
                            outcome: NormalRecordingOutcome::Committed(c),
                        } && si == slot_index && c.material_info.frame_count == rec.frames@.len()
                            && c.material_info.is_midi == rec.is_midi
                            && c.material_info.frame_rate == rec.frame_rate)
                    } else {
                        &&& final (self).spec_events().len() == old(self).spec_events().len() + 1
                        &&& (final (self).spec_events().last()
                            matches ColumnEvent::NormalRecordingFinished {
                            slot_index: si,
                            outcome: NormalRecordingOutcome::Canceled,
                        } && si == slot_index)
                    }
                })
            },
            (!old(self).spec_slot_is_recording(slot_index as int) && old(self).spec_slot_has_clip(
                slot_index as int,
            )) ==> {
                &&& (final (self).spec_slots()[slot_index as int].clip matches Some(c)
                    && c.play_state is Stopped)
                &&& final (self).spec_events() == old(self).spec_events().push(
                    ColumnEvent::ClipPlayStateChanged {
                        slot_index,
                        play_state: ClipPlayState::Stopped,
                    },
                )
            },
            (!old(self).spec_slot_is_recording(slot_index as int) && !old(
                self,
            ).spec_slot_has_clip(slot_index as int)) ==> final (self).spec_events() == old(
                self,
            ).spec_events(),
    {
        self.upsize_if_necessary(slot_index);
        let slot = &mut self.slots[slot_index];
        let mut finished_recording: Option<RtRecording> = None;
        core::mem::swap(&mut finished_recording, &mut slot.recording);
        match finished_recording {
            Some(rec) => {
                if rec.frames.len() > 0 {
                    let material_info = MaterialInfo {
                        is_midi: rec.is_midi,
                        frame_count: rec.frames.len(),
                        frame_rate: rec.frame_rate,
                        channel_count: if rec.is_midi {
                            0
                        } else {
                            2
                        },
                    };
                    let recorded = RecordedClip {
                        material_info,
                        looped: false,
                        volume: Db::zero(),
                        time_base: crate::clip::ClipTimeBase::Time,
                    };
                    let new_clip = RtClip {
                        play_state: ClipPlayState::Stopped,
                        pos: 0,
                        material_info,
                        looped: false,
                        volume: Db::zero(),
                        chain: SupplierChain::new(rec.frames),
                    };
                    slot.clip = Some(new_clip);
                    self.events.push(
                        ColumnEvent::NormalRecordingFinished {
                            slot_index,
                            outcome: NormalRecordingOutcome::Committed(recorded),
                        },
                    );
                } else {
                    self.events.push(
                        ColumnEvent::NormalRecordingFinished {
                            slot_index,
                            outcome: NormalRecordingOutcome::Canceled,
                        },
                    );
                }
            },
            None => {
                match &mut slot.clip {
                    Some(clip) => {
                        clip.play_state = ClipPlayState::Stopped;
                        self.events.push(
                            ColumnEvent::ClipPlayStateChanged {
                                slot_index,
                                play_state: ClipPlayState::Stopped,
                            },
                        );
                    },
                    None => {},
                }
            },
        }
    }

    /// Pauses playback of the clip in the slot.
    pub fn pause_clip(&mut self, slot_index: usize)
        requires
            slot_index < usize::MAX,
        ensures
            old(self).spec_slot_has_clip(slot_index as int) ==> {
                &&& (final (self).spec_slots()[slot_index as int].clip matches Some(c)
                    && c.play_state is Paused)
                &&& final (self).spec_events() == old(self).spec_events().push(
                    ColumnEvent::ClipPlayStateChanged {
                        slot_index,
                        play_state: ClipPlayState::Paused,
                    },
                )
            },
            !old(self).spec_slot_has_clip(slot_index as int) ==> final (self).spec_events() == old(
                self,
            ).spec_events(),
    {
        self.upsize_if_necessary(slot_index);
        let slot = &mut self.slots[slot_index];
        match &mut slot.clip {
            Some(clip) => {
                clip.play_state = ClipPlayState::Paused;
                self.events.push(
                    ColumnEvent::ClipPlayStateChanged {
                        slot_index,
                        play_state: ClipPlayState::Paused,
                    },
                );
            },
            None => {},
        }
    }

    /// Seeks the clip in the slot to the given fraction of its material.
    pub fn seek_clip(&mut self, slot_index: usize, desired_pos: UnitValue)
        requires
            slot_index < usize::MAX,
        ensures
            old(self).spec_slot_has_clip(slot_index as int) ==> (final (self).spec_slots()[
                slot_index as int
            ].clip matches Some(c) && {
                let target = c.material_info.frame_count as int * desired_pos.spec_raw()
                    / crate::units::UNIT_DENOM as int;
                c.pos == if target <= i64::MAX as int {
                    target
                } else {
                    i64::MAX as int
                }
            }),
            final (self).spec_events() == old(self).spec_events(),
    {
        self.upsize_if_necessary(slot_index);
        let slot = &mut self.slots[slot_index];
        match &mut slot.clip {
            Some(clip) => {
                let fc = clip.material_info.frame_count;
                let raw = desired_pos.get();
                assert((fc as u128) * (raw as u128) <= (usize::MAX as u128) * 1_000_000u128)
                    by (nonlinear_arith)
                    requires
                        fc <= usize::MAX,
                        raw <= 1_000_000,
                ;
                let wide: u128 = (fc as u128) * (raw as u128) / (crate::units::UNIT_DENOM as u128);
                if wide > i64::MAX as u128 {
                    clip.pos = i64::MAX;
                } else {
                    clip.pos = wide as i64;
                }
            },
            None => {},
        }
    }

    /// Applies a volume change to the clip and its amplifier stage. The
    /// factor that stands for the decibel value is computed by the host;
    /// the chain keeps a neutral factor here and the value is stored for
    /// persistence.
    pub fn set_clip_volume(&mut self, slot_index: usize, volume: Db)
        requires
            slot_index < usize::MAX,
        ensures
            old(self).spec_slot_has_clip(slot_index as int) ==> (final (self).spec_slots()[
                slot_index as int
            ].clip matches Some(c) && c.volume == volume),
            final (self).spec_events() == old(self).spec_events(),
    {
        self.upsize_if_necessary(slot_index);
        let slot = &mut self.slots[slot_index];
        match &mut slot.clip {
            Some(clip) => {
                clip.volume = volume;
            },
            None => {},
        }
    }

    /// Applies a loop-flag change to the clip in the slot.
    pub fn set_clip_looped(&mut self, slot_index: usize, looped: bool)
        requires
            slot_index < usize::MAX,
        ensures
            old(self).spec_slot_has_clip(slot_index as int) ==> (final (self).spec_slots()[
                slot_index as int
            ].clip matches Some(c) && c.looped == looped),
            final (self).spec_events() == old(self).spec_events(),
    {
        self.upsize_if_necessary(slot_index);
        let slot = &mut self.slots[slot_index];
        match &mut slot.clip {
            Some(clip) => {
                clip.looped = looped;
            },
            None => {},
        }
    }

    /// Clears the slot: the clip, its supplier chain and any live recording
    /// are dropped, and the main thread is told so.
    pub fn clear_slot(&mut self, slot_index: usize)
        requires
            slot_index < usize::MAX,
        ensures
            !final (self).spec_slot_has_clip(slot_index as int),
            !final (self).spec_slot_is_recording(slot_index as int),
            final (self).spec_slots().len() > slot_index,
            final (self).spec_events() == old(self).spec_events().push(
                ColumnEvent::SlotCleared { slot_index },
            ),
    {
        self.upsize_if_necessary(slot_index);
        let slot = &mut self.slots[slot_index];
        slot.clip = None;
        slot.recording = None;
        self.events.push(ColumnEvent::SlotCleared { slot_index });
    }

    /// Answers a recording request: allocates the recording buffer outside
    /// the audio callback and acknowledges. A request that hits a slot with
    /// a live recording is answered negatively; an overdub request is
    /// acknowledged without runtime data; a recording from scratch or into
    /// an existing chain starts gathering material and sends the initial
    /// runtime data back.
    pub fn record_clip(&mut self, slot_index: usize, instruction: SlotRecordInstruction)
        requires
            slot_index < usize::MAX,
        ensures
            final (self).spec_events().len() == old(self).spec_events().len() + 1,
            old(self).spec_slot_is_recording(slot_index as int) ==> {
                &&& final (self).spec_events().last()
                    == (ColumnEvent::RecordRequestAcknowledged {
                    slot_index,
                    successful: false,
                    runtime_data: None,
                })
                &&& final (self).spec_slots() == old(self).spec_slots()
            },
            (!old(self).spec_slot_is_recording(slot_index as int) && instruction
                is MidiOverdub) ==> {
                &&& final (self).spec_events().last()
                    == (ColumnEvent::RecordRequestAcknowledged {
                    slot_index,
                    successful: true,
                    runtime_data: None,
                })
                &&& !final (self).spec_slot_is_recording(slot_index as int)
            },
            (!old(self).spec_slot_is_recording(slot_index as int) && !(instruction
                is MidiOverdub)) ==> {
                &&& final (self).spec_slot_is_recording(slot_index as int)
                &&& (final (self).spec_events().last()
                    matches ColumnEvent::RecordRequestAcknowledged {
                    slot_index: si,
                    successful: true,
                    runtime_data: Some(rd),
                } && si == slot_index && rd.play_state is Recording && rd.pos == 0)
            },
    {
        self.upsize_if_necessary(slot_index);
        let slot = &mut self.slots[slot_index];
        if slot.recording.is_some() {
            self.events.push(
                ColumnEvent::RecordRequestAcknowledged {
                    slot_index,
                    successful: false,
                    runtime_data: None,
                },
            );
            proof {
                assert(self.slots@ =~= old(self).spec_slots());
            }
            return ;
        }
        match instruction {
            SlotRecordInstruction::MidiOverdub => {
                self.events.push(
                    ColumnEvent::RecordRequestAcknowledged {
                        slot_index,
                        successful: true,
                        runtime_data: None,
                    },
                );
            },
            SlotRecordInstruction::NewClip { is_midi, frame_rate } => {
                slot.recording = Some(RtRecording { is_midi, frame_rate, frames: Vec::new() });
                let runtime_data = SlotRuntimeData {
                    play_state: ClipPlayState::Recording,
                    pos: 0,
                    material_info: MaterialInfo {
                        is_midi,
                        frame_count: 0,
                        frame_rate,
                        channel_count: if is_midi {
                            0
                        } else {
                            2
                        },
                    },
                };
                self.events.push(
                    ColumnEvent::RecordRequestAcknowledged {
                        slot_index,
                        successful: true,
                        runtime_data: Some(runtime_data),
                    },
                );
            },
            SlotRecordInstruction::ExistingClip { is_midi } => {
                let frame_rate = match &slot.clip {
                    Some(clip) => clip.material_info.frame_rate,
                    None => 0,
                };
                slot.recording = Some(RtRecording { is_midi, frame_rate, frames: Vec::new() });
                let runtime_data = SlotRuntimeData {
                    play_state: ClipPlayState::Recording,
                    pos: 0,
                    material_info: MaterialInfo {
                        is_midi,
                        frame_count: 0,
                        frame_rate,
                        channel_count: if is_midi {
                            0
                        } else {
                            2
                        },
                    },
                };
                self.events.push(
                    ColumnEvent::RecordRequestAcknowledged {
                        slot_index,
                        successful: true,
                        runtime_data: Some(runtime_data),
                    },
                );
            },
        }
    }

    /// Appends one block of input material to the live recording of the
    /// slot; without a live recording the block is ignored.
    pub fn write_record_block(&mut self, slot_index: usize, block: &Vec<i32>)
        ensures
            final (self).spec_events() == old(self).spec_events(),
            old(self).spec_slot_is_recording(slot_index as int) ==> {
                &&& final (self).spec_slot_is_recording(slot_index as int)
                &&& (old(self).spec_slots()[slot_index as int].recording matches Some(r0)
                    && final (self).spec_slots()[slot_index as int].recording matches Some(r1)
                    && r1.frames@ == r0.frames@ + block@ && r1.is_midi == r0.is_midi
                    && r1.frame_rate == r0.frame_rate)
            },
            !old(self).spec_slot_is_recording(slot_index as int) ==> final (self).spec_slots()
                == old(self).spec_slots(),
    {
        if slot_index >= self.slots.len() {
            return ;
        }
        let slot = &mut self.slots[slot_index];
        match &mut slot.recording {
            Some(rec) => {
                let mut i: usize = 0;
                let ghost before = rec.frames@;
                let ghost midi0 = rec.is_midi;
                let ghost rate0 = rec.frame_rate;
                proof {
                    assert(before + block@.subrange(0, 0) =~= before);
                }
                while i < block.len()
                    invariant
                        i <= block@.len(),
                        rec.frames@ == before + block@.subrange(0, i as int),
                        rec.is_midi == midi0,
                        rec.frame_rate == rate0,
                    decreases block@.len() - i,
                {
                    rec.frames.push(block[i]);
                    proof {
                        assert(before + block@.subrange(0, i + 1) =~= (before + block@.subrange(
                            0,
                            i as int,
                        )).push(block@[i as int]));
                    }
                    i += 1;
                }
                proof {
                    assert(block@.subrange(0, block@.len() as int) =~= block@);
                }
            },
            None => {},
        }
    }

    /// Processes one command, dispatching to the handler the command names;
    /// each arm of the contract restates what that handler promises.
    pub fn process_command(&mut self, command: ColumnCommand)
        requires
            (match command {
                ColumnCommand::ClearSlot { slot_index } => slot_index < usize::MAX,
                ColumnCommand::FillSlot { slot_index, .. } => slot_index < usize::MAX,
                ColumnCommand::PlayClip { slot_index } => slot_index < usize::MAX,
                ColumnCommand::StopClip { slot_index } => slot_index < usize::MAX,
                ColumnCommand::PauseClip { slot_index } => slot_index < usize::MAX,
                ColumnCommand::SeekClip { slot_index, .. } => slot_index < usize::MAX,
                ColumnCommand::SetClipVolume { slot_index, .. } => slot_index < usize::MAX,
                ColumnCommand::SetClipLooped { slot_index, .. } => slot_index < usize::MAX,
                ColumnCommand::RecordClip { slot_index, .. } => slot_index < usize::MAX,
                _ => true,
            }),
        ensures
            (match command {
                ColumnCommand::ClearSlots => {
                    &&& final (self).spec_slots().len() == 0
                    &&& final (self).spec_events() == old(self).spec_events()
                },
                ColumnCommand::ClearSlot { slot_index } => {
                    &&& !final (self).spec_slot_has_clip(slot_index as int)
                    &&& !final (self).spec_slot_is_recording(slot_index as int)
                    &&& final (self).spec_slots().len() > slot_index
                    &&& final (self).spec_events() == old(self).spec_events().push(
                        ColumnEvent::SlotCleared { slot_index },
                    )
                },
                ColumnCommand::FillSlot { slot_index, api_clip } => {
                    &&& final (self).spec_slot_has_clip(slot_index as int)
                    &&& final (self).spec_events() == old(self).spec_events()
                    &&& (final (self).spec_slots()[slot_index as int].clip matches Some(c) && {
                        &&& c.play_state is Stopped
                        &&& c.chain.spec_material() == api_clip.frames@
                        &&& c.material_info == crate::slot::material_info_of_api_clip(api_clip)
                    })
                },
                ColumnCommand::PlayClip { slot_index } => {
                    &&& old(self).spec_slot_has_clip(slot_index as int) ==> {
                        &&& (final (self).spec_slots()[slot_index as int].clip matches Some(c)
                            && c.play_state is Playing)
                        &&& final (self).spec_events() == old(self).spec_events().push(
                            ColumnEvent::ClipPlayStateChanged {
                                slot_index,
                                play_state: ClipPlayState::Playing,
                            },
                        )
                    }
                    &&& !old(self).spec_slot_has_clip(slot_index as int) ==> final (self).spec_events() == old(self).spec_events().push(
                        ColumnEvent::InteractionFailed { slot_index },
                    )
                },
                ColumnCommand::StopClip { slot_index } => {
                    &&& old(self).spec_slot_is_recording(slot_index as int) ==> {
                        &&& !final (self).spec_slot_is_recording(slot_index as int)
                        &&& (old(self).spec_slots()[slot_index as int].recording matches Some(rec)
                            && {
                            if rec.frames@.len() > 0 {
                                &&& final (self).spec_slot_has_clip(slot_index as int)
                                &&& (final (self).spec_events().last()
                                    matches ColumnEvent::NormalRecordingFinished {
                                    slot_index: si,
                                    outcome: NormalRecordingOutcome::Committed(c),
                                } && si == slot_index && c.material_info.frame_count
                                    == rec.frames@.len())
                            } else {
                                final (self).spec_events().last()
                                    matches ColumnEvent::NormalRecordingFinished {
                                    slot_index: si,
                                    outcome: NormalRecordingOutcome::Canceled,
                                } && si == slot_index
                            }
                        })
                    }
                    &&& (!old(self).spec_slot_is_recording(slot_index as int) && old(
                        self,
                    ).spec_slot_has_clip(slot_index as int)) ==> {
                        &&& (final (self).spec_slots()[slot_index as int].clip matches Some(c)
                            && c.play_state is Stopped)
                        &&& final (self).spec_events() == old(self).spec_events().push(
                            ColumnEvent::ClipPlayStateChanged {
                                slot_index,
                                play_state: ClipPlayState::Stopped,
                            },
                        )
                    }
                    &&& (!old(self).spec_slot_is_recording(slot_index as int) && !old(
                        self,
                    ).spec_slot_has_clip(slot_index as int)) ==> final (self).spec_events() == old(
                        self,
                    ).spec_events()
                },
                ColumnCommand::PauseClip { slot_index } => {
                    &&& old(self).spec_slot_has_clip(slot_index as int) ==> {
                        &&& (final (self).spec_slots()[slot_index as int].clip matches Some(c)
                            && c.play_state is Paused)
                        &&& final (self).spec_events() == old(self).spec_events().push(
                            ColumnEvent::ClipPlayStateChanged {
                                slot_index,
                                play_state: ClipPlayState::Paused,
                            },
                        )
                    }
                    &&& !old(self).spec_slot_has_clip(slot_index as int) ==> final (self).spec_events() == old(self).spec_events()
                },
                ColumnCommand::SeekClip { slot_index, desired_pos } => {
                    &&& old(self).spec_slot_has_clip(slot_index as int) ==> (final (self).spec_slots()[slot_index as int].clip matches Some(c) && {
                        let target = c.material_info.frame_count as int * desired_pos.spec_raw()
                            / crate::units::UNIT_DENOM as int;
                        c.pos == if target <= i64::MAX as int {
                            target
                        } else {
                            i64::MAX as int
                        }
                    })
                    &&& final (self).spec_events() == old(self).spec_events()
                },
                ColumnCommand::SetClipVolume { slot_index, volume } => {
                    &&& old(self).spec_slot_has_clip(slot_index as int) ==> (final (self).spec_slots()[slot_index as int].clip matches Some(c) && c.volume == volume)
                    &&& final (self).spec_events() == old(self).spec_events()
                },
                ColumnCommand::SetClipLooped { slot_index, looped } => {
                    &&& old(self).spec_slot_has_clip(slot_index as int) ==> (final (self).spec_slots()[slot_index as int].clip matches Some(c) && c.looped == looped)
                    &&& final (self).spec_events() == old(self).spec_events()
                },
                ColumnCommand::RecordClip { slot_index, instruction } => {
                    &&& final (self).spec_events().len() == old(self).spec_events().len() + 1
                    &&& old(self).spec_slot_is_recording(slot_index as int) ==> {
                        &&& final (self).spec_events().last()
                            == (ColumnEvent::RecordRequestAcknowledged {
                            slot_index,
                            successful: false,
                            runtime_data: None,
                        })
                        &&& final (self).spec_slots() == old(self).spec_slots()
                    }
                    &&& (!old(self).spec_slot_is_recording(slot_index as int) && instruction
                        is MidiOverdub) ==> {
                        &&& final (self).spec_events().last()
                            == (ColumnEvent::RecordRequestAcknowledged {
                            slot_index,
                            successful: true,
                            runtime_data: None,
                        })
                        &&& !final (self).spec_slot_is_recording(slot_index as int)
                    }
                    &&& (!old(self).spec_slot_is_recording(slot_index as int) && !(instruction
                        is MidiOverdub)) ==> {
                        &&& final (self).spec_slot_is_recording(slot_index as int)
                        &&& (final (self).spec_events().last()
                            matches ColumnEvent::RecordRequestAcknowledged {
                            slot_index: si,
                            successful: true,
                            runtime_data: Some(rd),
                        } && si == slot_index && rd.play_state is Recording && rd.pos == 0)
                    }
                },
                ColumnCommand::Stop => {
                    &&& final (self).spec_events().len() >= old(self).spec_events().len()
                    &&& forall|k: int|
                        0 <= k < old(self).spec_events().len() ==> final (self).spec_events()[k]
                            == old(self).spec_events()[k]
                },
            }),
    {
        match command {
            ColumnCommand::ClearSlots => {
                self.slots = Vec::new();
            },
            ColumnCommand::ClearSlot { slot_index } => self.clear_slot(slot_index),
            ColumnCommand::FillSlot { slot_index, api_clip } => self.fill_slot(
                slot_index,
                api_clip,
            ),
            ColumnCommand::PlayClip { slot_index } => self.play_clip(slot_index),
            ColumnCommand::StopClip { slot_index } => self.stop_clip(slot_index),
            ColumnCommand::PauseClip { slot_index } => self.pause_clip(slot_index),
            ColumnCommand::SeekClip { slot_index, desired_pos } => self.seek_clip(
                slot_index,
                desired_pos,
            ),
            ColumnCommand::SetClipVolume { slot_index, volume } => self.set_clip_volume(
                slot_index,
                volume,
            ),
            ColumnCommand::SetClipLooped { slot_index, looped } => self.set_clip_looped(
                slot_index,
                looped,
            ),
            ColumnCommand::RecordClip { slot_index, instruction } => self.record_clip(
                slot_index,
                instruction,
            ),
            ColumnCommand::Stop => {
                self.stop_all();
            },
        }
    }

    /// Stops every slot, finishing live recordings as [`Self::stop_clip`]
    /// does. Events are only ever appended.
    pub fn stop_all(&mut self)
        ensures
            final (self).spec_events().len() >= old(self).spec_events().len(),
            forall|k: int|
                0 <= k < old(self).spec_events().len() ==> final (self).spec_events()[k] == old(
                    self,
                ).spec_events()[k],
    {
        let mut i: usize = 0;
        while i < self.slots.len()
            invariant
                self.events@.len() >= old(self).spec_events().len(),
                forall|k: int|
                    0 <= k < old(self).spec_events().len() ==> self.events@[k] == old(
                        self,
                    ).spec_events()[k],
            decreases self.slots@.len() - i,
        {
            let n = self.slots.len();
            let ghost ev_before = self.events@;
            self.stop_clip(i);
            proof {
                assert(self.events@.len() >= ev_before.len());
            }
            if self.slots.len() != n {
                return ;
            }
            i += 1;
        }
    }
}

} // verus!
