//! Main-thread model of a column and the matrix of columns.
//!
//! A column owns the main-thread slot models and a one-way command outbox
//! towards its real-time counterpart; state flowing back arrives as events
//! that [`Column::poll`] reconciles into the slot models once per cycle.
//! The matrix is the addressable grid: every slot command is keyed by
//! column and row index.

use vstd::prelude::*;

use crate::clip::{ApiClip, Clip, ClipPlayState, Db};
use crate::rt_column::{ColumnCommand, ColumnEvent};
use crate::slot::{
    material_info_of_api_clip, spec_ack_applied, spec_finish_applied,
    spec_material_update_applied, spec_play_state_update_applied, ClipChangeEvent,
    MidiClipRecordMode, Slot, SlotRecordInstruction,
};
use crate::units::UnitValue;

verus! {

/// The index the event addresses.
pub open spec fn spec_event_slot_index(event: ColumnEvent) -> int {
    match event {
        ColumnEvent::ClipPlayStateChanged { slot_index, .. } => slot_index as int,
        ColumnEvent::ClipMaterialInfoChanged { slot_index, .. } => slot_index as int,
        ColumnEvent::RecordRequestAcknowledged { slot_index, .. } => slot_index as int,
        ColumnEvent::NormalRecordingFinished { slot_index, .. } => slot_index as int,
        ColumnEvent::SlotCleared { slot_index } => slot_index as int,
        ColumnEvent::InteractionFailed { slot_index } => slot_index as int,
    }
}

/// How one real-time event changes the column's slot models and what
/// observable change it reports: per event kind, the addressed slot goes
/// through the matching slot transition, every other slot stays, and an
/// event for a row that does not exist changes nothing.
pub open spec fn spec_event_applied(
    pre: Column,
    post: Column,
    event: ColumnEvent,
    r: Option<(usize, ClipChangeEvent)>,
) -> bool {
    let idx = spec_event_slot_index(event);
    &&& (idx >= pre.spec_slots().len() ==> post == pre && r is None)
    &&& (idx < pre.spec_slots().len() ==> {
        &&& post.spec_slots().len() == pre.spec_slots().len()
        &&& (forall|j: int|
            0 <= j < pre.spec_slots().len() && j != idx ==> post.spec_slots()[j]
                == pre.spec_slots()[j])
        &&& (match event {
            ColumnEvent::ClipPlayStateChanged { slot_index, play_state } => {
                &&& spec_play_state_update_applied(
                    pre.spec_slots()[idx],
                    post.spec_slots()[idx],
                    play_state,
                )
                &&& r == Some((slot_index, ClipChangeEvent::PlayState(play_state)))
            },
            ColumnEvent::ClipMaterialInfoChanged { slot_index, material_info } => {
                &&& spec_material_update_applied(
                    pre.spec_slots()[idx],
                    post.spec_slots()[idx],
                    material_info,
                )
                &&& r is None
            },
            ColumnEvent::RecordRequestAcknowledged { slot_index, successful, runtime_data } => {
                &&& (exists|res: Result<(), &'static str>|
                    #[trigger] spec_ack_applied(
                        pre.spec_slots()[idx],
                        post.spec_slots()[idx],
                        successful,
                        runtime_data,
                        res,
                    ))
                &&& r is None
            },
            ColumnEvent::NormalRecordingFinished { slot_index, outcome } => {
                exists|res: Result<ClipChangeEvent, &'static str>|
                    {
                        &&& #[trigger] spec_finish_applied(
                            pre.spec_slots()[idx],
                            post.spec_slots()[idx],
                            outcome,
                            res,
                        )
                        &&& r == (match res {
                            Ok(change) => Some((slot_index, change)),
                            Err(_) => Option::<(usize, ClipChangeEvent)>::None,
                        })
                    }
            },
            ColumnEvent::SlotCleared { slot_index } => {
                &&& post.spec_slots()[idx].spec_content() is None
                &&& post.spec_slots()[idx].spec_state() == pre.spec_slots()[idx].spec_state()
                &&& post.spec_slots()[idx].spec_index() == pre.spec_slots()[idx].spec_index()
                &&& r == (if pre.spec_slots()[idx].spec_content() is Some {
                    Some((slot_index, ClipChangeEvent::Removed))
                } else {
                    Option::<(usize, ClipChangeEvent)>::None
                })
            },
            ColumnEvent::InteractionFailed { .. } => post == pre && r is None,
        })
    })
}

/// Trigger carrier for a column-state witness with its reported changes.
pub open spec fn spec_column_witness(
    mid: Column,
    changes: Seq<(usize, ClipChangeEvent)>,
) -> bool {
    true
}

/// Trigger carrier for one chain step's witnesses.
pub open spec fn spec_event_step_witness(
    mid: Column,
    rest: Seq<(usize, ClipChangeEvent)>,
    r: Option<(usize, ClipChangeEvent)>,
) -> bool {
    true
}

/// How a batch of real-time events, applied in order, relates the column
/// states and the reported changes.
pub open spec fn spec_event_chain(
    pre: Column,
    post: Column,
    events: Seq<ColumnEvent>,
    changes: Seq<(usize, ClipChangeEvent)>,
) -> bool
    decreases events.len(),
{
    if events.len() == 0 {
        post == pre && changes.len() == 0
    } else {
        exists|mid: Column, rest: Seq<(usize, ClipChangeEvent)>, r: Option<(usize, ClipChangeEvent)>|
            #![trigger spec_event_step_witness(mid, rest, r)]
            {
                &&& spec_event_step_witness(mid, rest, r)
                &&& spec_event_chain(pre, mid, events.drop_last(), rest)
                &&& spec_event_applied(mid, post, events.last(), r)
                &&& changes == rest + (match r {
                    Some(change) => seq![change],
                    None => Seq::empty(),
                })
            }
    }
}

/// The play state a slot reports to observers, as
/// [`Slot::clip_play_state`] answers it.
pub open spec fn spec_slot_play_state(slot: Slot) -> Option<ClipPlayState> {
    match slot.spec_state() {
        crate::slot::SlotState::Normal => (match slot.spec_content() {
            Some(c) => Some(c.runtime_data.play_state),
            None => None,
        }),
        crate::slot::SlotState::RequestedOverdubbing
        | crate::slot::SlotState::RequestedRecording => Some(
            ClipPlayState::ScheduledForRecordingStart,
        ),
        crate::slot::SlotState::Recording(s) => Some(s.runtime_data.play_state),
    }
}

/// Whether a slot's position currently advances, so that observers want a
/// position update for it.
pub open spec fn spec_slot_advancing(slot: Slot) -> bool {
    match spec_slot_play_state(slot) {
        Some(play_state) => play_state.spec_is_advancing(),
        None => false,
    }
}

/// The proportional position a poll reports for a slot; 0 where the slot
/// cannot report one.
pub open spec fn spec_slot_proportional_or_zero(slot: Slot) -> int {
    match slot.spec_active_runtime_data() {
        None => 0,
        Some(rd) => {
            if rd.pos < 0 {
                0
            } else if rd.material_info.frame_count == 0 {
                0
            } else {
                rd.spec_mod_frame() * crate::units::UNIT_DENOM / rd.material_info.frame_count as int
            }
        },
    }
}

/// The position in milliseconds a poll reports for a slot; 0 where the
/// slot cannot report one.
pub open spec fn spec_slot_millis_or_zero(slot: Slot, timeline_tempo_cbpm: u32) -> int {
    match slot.spec_position_tempo_factor(timeline_tempo_cbpm) {
        None => 0,
        Some((num, den)) => {
            let rd = slot.spec_active_runtime_data()->0;
            if rd.material_info.frame_rate == 0 {
                0
            } else {
                Slot::spec_position_millis(rd, num, den)
            }
        },
    }
}

/// The position updates a poll appends: one entry per advancing slot, in
/// row order.
pub open spec fn spec_position_entries(slots: Seq<Slot>, timeline_tempo_cbpm: u32) -> Seq<
    (usize, ClipChangeEvent),
>
    decreases slots.len(),
{
    if slots.len() == 0 {
        Seq::empty()
    } else {
        spec_position_entries(slots.drop_last(), timeline_tempo_cbpm) + (if spec_slot_advancing(
            slots.last(),
        ) {
            seq![
                (
                    (slots.len() - 1) as usize,
                    ClipChangeEvent::ClipPosition {
                        proportional_raw: spec_slot_proportional_or_zero(slots.last()) as u32,
                        millis: spec_slot_millis_or_zero(slots.last(), timeline_tempo_cbpm) as u64,
                    },
                ),
            ]
        } else {
            Seq::empty()
        })
    }
}

/// How filling a slot relates the column before and after the call: a
/// non-empty slot rejects the clip and nothing moves; an empty slot takes
/// the clip's content and the matching real-time command is queued.
pub open spec fn spec_fill_applied(
    pre: Column,
    post: Column,
    index: usize,
    api_clip: ApiClip,
    r: Result<ClipChangeEvent, &'static str>,
) -> bool {
    &&& !pre.spec_slot_is_empty(index as int) ==> {
        &&& r matches Err(e) && e@ == "slot is not empty"@
        &&& post.spec_slots() == pre.spec_slots()
        &&& post.spec_commands() == pre.spec_commands()
    }
    &&& pre.spec_slot_is_empty(index as int) ==> {
        &&& r == Ok::<_, &'static str>(ClipChangeEvent::RecordingFinished)
        &&& post.spec_slots().len() > index
        &&& (post.spec_slots()[index as int].spec_content() matches Some(c) && {
            &&& c.clip.spec_looped() == api_clip.looped
            &&& c.clip.spec_volume() == api_clip.volume
            &&& c.clip.spec_time_base() == api_clip.time_base
            &&& c.runtime_data.play_state is Stopped
            &&& c.runtime_data.material_info == material_info_of_api_clip(api_clip)
        })
        &&& post.spec_slots()[index as int].spec_state() is Normal
        &&& post.spec_commands() == pre.spec_commands().push(
            ColumnCommand::FillSlot { slot_index: index, api_clip },
        )
    }
}

/// How a recording request relates the column before and after the call:
/// a slot already busy recording rejects it; otherwise the slot moves to a
/// requested-recording state and the real-time command is queued.
pub open spec fn spec_record_applied(
    pre: Column,
    post: Column,
    index: usize,
    r: Result<(), &'static str>,
) -> bool {
    &&& r is Err ==> post.spec_commands() == pre.spec_commands()
    &&& r is Err ==> (pre.spec_slots().len() > index ==> post.spec_slots() == pre.spec_slots())
    &&& r is Ok ==> {
        &&& post.spec_slots().len() > index
        &&& post.spec_slots()[index as int].spec_state().spec_is_pretty_much_recording()
        &&& post.spec_commands().len() == pre.spec_commands().len() + 1
        &&& (post.spec_commands().last() matches ColumnCommand::RecordClip {
            slot_index,
            instruction: _,
        } && slot_index == index)
    }
    &&& (pre.spec_slots().len() > index && pre.spec_slots()[
        index as int
    ].spec_state().spec_is_pretty_much_recording()) ==> (r matches Err(e) && e@
        == "recording already"@)
}

/// Main-thread side of one column.
pub struct Column {
    slots: Vec<Slot>,
    commands: Vec<ColumnCommand>,
}

impl Column {
    pub closed spec fn spec_slots(self) -> Seq<Slot> {
        self.slots@
    }

    pub closed spec fn spec_commands(self) -> Seq<ColumnCommand> {
        self.commands@
    }

    /// Whether the slot at the index is empty; a row beyond the list counts
    /// as empty.
    pub open spec fn spec_slot_is_empty(self, index: int) -> bool {
        index >= self.spec_slots().len() || self.spec_slots()[index].spec_is_empty()
    }

    pub fn new() -> (r: Column)
        ensures
            r.spec_slots().len() == 0,
            r.spec_commands().len() == 0,
    {
        Column { slots: Vec::new(), commands: Vec::new() }
    }

    /// Hands the queued commands out for delivery to the real-time column
    /// and leaves the outbox empty.
    pub fn take_commands(&mut self) -> (r: Vec<ColumnCommand>)
        ensures
            r@ == old(self).spec_commands(),
            final (self).spec_commands().len() == 0,
            final (self).spec_slots() == old(self).spec_slots(),
    {
        let mut out: Vec<ColumnCommand> = Vec::new();
        core::mem::swap(&mut out, &mut self.commands);
        out
    }

    pub fn slot_count(&self) -> (r: usize)
        ensures
            r == self.spec_slots().len(),
    {
        self.slots.len()
    }

    pub fn slot(&self, index: usize) -> (r: Option<&Slot>)
        ensures
            (match r {
                Some(s) => index < self.spec_slots().len() && *s == self.spec_slots()[index as int],
                None => index >= self.spec_slots().len(),
            }),
    {
        if index < self.slots.len() {
            Some(&self.slots[index])
        } else {
            None
        }
    }

    pub fn slot_is_empty(&self, index: usize) -> (r: bool)
        ensures
            r == self.spec_slot_is_empty(index as int),
    {
        if index < self.slots.len() {
            self.slots[index].is_empty()
        } else {
            true
        }
    }

    /// Grows the slot list with empty slots until the index exists.
    fn upsize_if_necessary(&mut self, index: usize)
        requires
            index < usize::MAX,
        ensures
            final (self).spec_slots().len() > index,
            final (self).spec_slots().len() >= old(self).spec_slots().len(),
            old(self).spec_slots().len() > index ==> final (self).spec_slots().len() == old(
                self,
            ).spec_slots().len(),
            forall|i: int|
                0 <= i < old(self).spec_slots().len() ==> final (self).spec_slots()[i] == old(
                    self,
                ).spec_slots()[i],
            forall|i: int|
                old(self).spec_slots().len() <= i < final (self).spec_slots().len() ==> final (self).spec_slots()[i].spec_is_empty(),
            final (self).spec_commands() == old(self).spec_commands(),
    {
        while self.slots.len() <= index
            invariant
                self.commands@ == old(self).spec_commands(),
                self.slots@.len() >= old(self).spec_slots().len(),
                index < usize::MAX,
                self.slots@.len() <= index + 1 || self.slots@.len() == old(self).spec_slots().len(),
                forall|i: int|
                    0 <= i < old(self).spec_slots().len() ==> self.slots@[i] == old(
                        self,
                    ).spec_slots()[i],
                forall|i: int|
                    old(self).spec_slots().len() <= i < self.slots@.len() ==> self.slots@[
                        i
                    ].spec_is_empty(),
            decreases index + 1 - self.slots.len(),
        {
            let next = self.slots.len();
            self.slots.push(Slot::new(next));
        }
    }

    /// Fills a slot with a clip: the slot model gets the content at once
    /// and the real-time column is told to build the supplier chain.
    ///
    /// Fails if and only if the slot already holds content or records.
    pub fn fill_slot_with_clip(&mut self, index: usize, api_clip: ApiClip) -> (r: Result<
        ClipChangeEvent,
        &'static str,
    >)
        requires
            index < usize::MAX,
        ensures
            spec_fill_applied(*old(self), *final (self), index, api_clip, r),
    {
        self.upsize_if_necessary(index);
        if !self.slots[index].is_empty() {
            proof {
                assert(self.slots@ =~= old(self).spec_slots());
            }
            return Err("slot is not empty");
        }
        let clip = Clip::load(&api_clip);
        let material_info = crate::clip::MaterialInfo {
            is_midi: api_clip.is_midi,
            frame_count: api_clip.frames.len(),
            frame_rate: api_clip.frame_rate,
            channel_count: api_clip.channel_count,
        };
        let slot = &mut self.slots[index];
        slot.fill_with(clip, material_info);
        self.commands.push(ColumnCommand::FillSlot { slot_index: index, api_clip });
        Ok(ClipChangeEvent::RecordingFinished)
    }

    /// Queues a play command for the slot.
    pub fn play_clip(&mut self, index: usize)
        ensures
            final (self).spec_slots() == old(self).spec_slots(),
            final (self).spec_commands() == old(self).spec_commands().push(
                ColumnCommand::PlayClip { slot_index: index },
            ),
    {
        self.commands.push(ColumnCommand::PlayClip { slot_index: index });
    }

    /// Queues a stop command for the slot.
    pub fn stop_clip(&mut self, index: usize)
        ensures
            final (self).spec_slots() == old(self).spec_slots(),
            final (self).spec_commands() == old(self).spec_commands().push(
                ColumnCommand::StopClip { slot_index: index },
            ),
    {
        self.commands.push(ColumnCommand::StopClip { slot_index: index });
    }

    /// Queues a pause command for the slot.
    pub fn pause_clip(&mut self, index: usize)
        ensures
            final (self).spec_slots() == old(self).spec_slots(),
            final (self).spec_commands() == old(self).spec_commands().push(
                ColumnCommand::PauseClip { slot_index: index },
            ),
    {
        self.commands.push(ColumnCommand::PauseClip { slot_index: index });
    }

    /// Queues a seek command for the slot.
    pub fn seek_clip(&mut self, index: usize, desired_pos: UnitValue)
        ensures
            final (self).spec_slots() == old(self).spec_slots(),
            final (self).spec_commands() == old(self).spec_commands().push(
                ColumnCommand::SeekClip { slot_index: index, desired_pos },
            ),
    {
        self.commands.push(ColumnCommand::SeekClip { slot_index: index, desired_pos });
    }

    /// Queues a clear command for the slot; the slot model empties when the
    /// real-time side confirms.
    pub fn clear_slot(&mut self, index: usize)
        ensures
            final (self).spec_slots() == old(self).spec_slots(),
            final (self).spec_commands() == old(self).spec_commands().push(
                ColumnCommand::ClearSlot { slot_index: index },
            ),
    {
        self.commands.push(ColumnCommand::ClearSlot { slot_index: index });
    }

    /// Sets the clip volume in the slot model and queues the matching
    /// real-time command. Fails when the slot does not exist or has no
    /// content.
    pub fn set_clip_volume(&mut self, index: usize, volume: Db) -> (r: Result<
        ClipChangeEvent,
        &'static str,
    >)
        ensures
            index >= old(self).spec_slots().len() ==> {
                &&& r matches Err(e) && e@ == "slot doesn't exist"@
                &&& final (self).spec_slots() == old(self).spec_slots()
                &&& final (self).spec_commands() == old(self).spec_commands()
            },
            index < old(self).spec_slots().len() ==> (match old(self).spec_slots()[
                index as int
            ].spec_content() {
                None => {
                    &&& r matches Err(e) && e@ == "slot not filled"@
                    &&& final (self).spec_slots() == old(self).spec_slots()
                    &&& final (self).spec_commands() == old(self).spec_commands()
                },
                Some(c) => {
                    &&& r == Ok::<_, &'static str>(ClipChangeEvent::ClipVolume(volume))
                    &&& (final (self).spec_slots()[index as int].spec_content() matches Some(c2)
                        && c2.clip.spec_volume() == volume)
                    &&& final (self).spec_commands() == old(self).spec_commands().push(
                        ColumnCommand::SetClipVolume { slot_index: index, volume },
                    )
                },
            }),
    {
        if index >= self.slots.len() {
            return Err("slot doesn't exist");
        }
        let slot = &mut self.slots[index];
        match slot.set_clip_volume(volume) {
            Ok(change) => {
                self.commands.push(ColumnCommand::SetClipVolume { slot_index: index, volume });
                Ok(change)
            },
            Err(e) => Err(e),
        }
    }

    /// Toggles the loop flag in the slot model and queues the matching
    /// real-time command. Fails when the slot does not exist or has no
    /// content.
    pub fn toggle_clip_looped(&mut self, index: usize) -> (r: Result<
        ClipChangeEvent,
        &'static str,
    >)
        ensures
            index >= old(self).spec_slots().len() ==> {
                &&& r matches Err(e) && e@ == "slot doesn't exist"@
                &&& final (self).spec_slots() == old(self).spec_slots()
                &&& final (self).spec_commands() == old(self).spec_commands()
            },
            index < old(self).spec_slots().len() ==> (match old(self).spec_slots()[
                index as int
            ].spec_content() {
                None => {
                    &&& r matches Err(e) && e@ == "slot not filled"@
                    &&& final (self).spec_slots() == old(self).spec_slots()
                    &&& final (self).spec_commands() == old(self).spec_commands()
                },
                Some(c) => {
                    let looped = !c.clip.spec_looped();
                    &&& r == Ok::<_, &'static str>(ClipChangeEvent::ClipLooped(looped))
                    &&& (final (self).spec_slots()[index as int].spec_content() matches Some(c2)
                        && c2.clip.spec_looped() == looped)
                    &&& final (self).spec_commands() == old(self).spec_commands().push(
                        ColumnCommand::SetClipLooped { slot_index: index, looped },
                    )
                },
            }),
    {
        if index >= self.slots.len() {
            return Err("slot doesn't exist");
        }
        let slot = &mut self.slots[index];
        match slot.toggle_clip_looped() {
            Ok(change) => {
                let looped = match change {
                    ClipChangeEvent::ClipLooped(l) => l,
                    _ => false,
                };
                self.commands.push(ColumnCommand::SetClipLooped { slot_index: index, looped });
                Ok(change)
            },
            Err(e) => Err(e),
        }
    }

    /// Reports the play state of the slot.
    pub fn clip_play_state(&self, index: usize) -> (r: Result<ClipPlayState, &'static str>)
        ensures
            index >= self.spec_slots().len() ==> (r matches Err(e) && e@
                == "slot doesn't exist"@),
            index < self.spec_slots().len() ==> (match self.spec_slots()[
                index as int
            ].spec_state() {
                crate::slot::SlotState::Normal => (match self.spec_slots()[
                    index as int
                ].spec_content() {
                    Some(c) => r == Ok::<_, &'static str>(c.runtime_data.play_state),
                    None => r matches Err(e) && e@ == "slot not filled"@,
                }),
                crate::slot::SlotState::RequestedOverdubbing
                | crate::slot::SlotState::RequestedRecording => r == Ok::<_, &'static str>(
                    ClipPlayState::ScheduledForRecordingStart,
                ),
                crate::slot::SlotState::Recording(s) => r == Ok::<_, &'static str>(
                    s.runtime_data.play_state,
                ),
            }),
    {
        if index >= self.slots.len() {
            return Err("slot doesn't exist");
        }
        self.slots[index].clip_play_state()
    }

    /// Requests a recording for the slot and queues the real-time command.
    ///
    /// The request is rejected exactly when the slot is already busy with a
    /// recording, as [`Slot::record_clip`] says; in that case nothing is
    /// queued.
    pub fn record_clip(
        &mut self,
        index: usize,
        record_mode: MidiClipRecordMode,
        input_is_midi: bool,
        frame_rate: u32,
    ) -> (r: Result<(), &'static str>)
        requires
            index < usize::MAX,
        ensures
            spec_record_applied(*old(self), *final (self), index, r),
    {
        self.upsize_if_necessary(index);
        let slot = &mut self.slots[index];
        match slot.record_clip(record_mode, input_is_midi, frame_rate) {
            Ok(instruction) => {
                self.commands.push(ColumnCommand::RecordClip { slot_index: index, instruction });
                Ok(())
            },
            Err(e) => {
                proof {
                    assert(self.slots@ =~= old(self).spec_slots() || old(self).spec_slots().len()
                        <= index);
                }
                Err(e)
            },
        }
    }

    /// Applies one event from the real-time column to the slot models and
    /// returns the observable change, if any. Events for rows that do not
    /// exist are ignored, as the slot may have gone away concurrently;
    /// every other slot stays as it is.
    pub fn apply_event(&mut self, event: ColumnEvent) -> (r: Option<(usize, ClipChangeEvent)>)
        ensures
            spec_event_applied(*old(self), *final (self), event, r),
            final (self).spec_commands() == old(self).spec_commands(),
            final (self).spec_slots().len() == old(self).spec_slots().len(),
    {
        let ghost before = *self;
        match event {
            ColumnEvent::ClipPlayStateChanged { slot_index, play_state } => {
                if slot_index < self.slots.len() {
                    let slot = &mut self.slots[slot_index];
                    let _ = slot.update_play_state(play_state);
                    Some((slot_index, ClipChangeEvent::PlayState(play_state)))
                } else {
                    None
                }
            },
            ColumnEvent::ClipMaterialInfoChanged { slot_index, material_info } => {
                if slot_index < self.slots.len() {
                    let slot = &mut self.slots[slot_index];
                    let _ = slot.update_material_info(material_info);
                }
                None
            },
            ColumnEvent::RecordRequestAcknowledged { slot_index, successful, runtime_data } => {
                if slot_index < self.slots.len() {
                    let slot = &mut self.slots[slot_index];
                    let res = slot.notify_recording_request_acknowledged(
                        successful,
                        runtime_data,
                    );
                    proof {
                        assert(spec_ack_applied(
                            before.spec_slots()[slot_index as int],
                            self.spec_slots()[slot_index as int],
                            successful,
                            runtime_data,
                            res,
                        ));
                    }
                }
                None
            },
            ColumnEvent::NormalRecordingFinished { slot_index, outcome } => {
                if slot_index < self.slots.len() {
                    let slot = &mut self.slots[slot_index];
                    let res = slot.notify_normal_recording_finished(outcome);
                    proof {
                        assert(spec_finish_applied(
                            before.spec_slots()[slot_index as int],
                            self.spec_slots()[slot_index as int],
                            outcome,
                            res,
                        ));
                    }
                    match res {
                        Ok(change) => Some((slot_index, change)),
                        Err(_) => None,
                    }
                } else {
                    None
                }
            },
            ColumnEvent::SlotCleared { slot_index } => {
                if slot_index < self.slots.len() {
                    let slot = &mut self.slots[slot_index];
                    match slot.slot_cleared() {
                        Some(change) => Some((slot_index, change)),
                        None => None,
                    }
                } else {
                    None
                }
            },
            ColumnEvent::InteractionFailed { slot_index: _ } => None,
        }
    }

    /// Reconciles a batch of real-time events into the slot models, then
    /// collects the observable changes in order, followed by a position
    /// update for every slot whose position currently advances.
    pub fn poll(&mut self, events: Vec<ColumnEvent>, timeline_tempo_cbpm: u32) -> (r: Vec<
        (usize, ClipChangeEvent),
    >)
        ensures
            final (self).spec_commands() == old(self).spec_commands(),
            exists|changes: Seq<(usize, ClipChangeEvent)>|
                #![trigger spec_column_witness(*final (self), changes)]
                {
                    &&& spec_column_witness(*final (self), changes)
                    &&& spec_event_chain(*old(self), *final (self), events@, changes)
                    &&& r@ == changes + spec_position_entries(
                        final (self).spec_slots(),
                        timeline_tempo_cbpm,
                    )
                },
    {
        let ghost evs = events@;
        let mut changes: Vec<(usize, ClipChangeEvent)> = Vec::new();
        let mut i: usize = 0;
        let total = events.len();
        let mut remaining = events;
        proof {
            assert(evs.subrange(0, 0) =~= Seq::<ColumnEvent>::empty());
        }
        while i < total
            invariant
                i <= total,
                total == evs.len(),
                remaining@ == evs.subrange(i as int, evs.len() as int),
                self.commands@ == old(self).spec_commands(),
                spec_event_chain(*old(self), *self, evs.subrange(0, i as int), changes@),
            decreases total - i,
        {
            let ghost pre_iter = *self;
            let ghost changes_iter = changes@;
            let event = remaining.remove(0);
            proof {
                assert(evs.subrange(i as int, evs.len() as int)[0] == evs[i as int]);
                assert(remaining@ =~= evs.subrange(i + 1, evs.len() as int));
            }
            let applied = self.apply_event(event);
            match applied {
                Some(change) => {
                    changes.push(change);
                },
                None => {},
            }
            proof {
                let prefix = evs.subrange(0, i + 1);
                assert(prefix.drop_last() =~= evs.subrange(0, i as int));
                assert(prefix.last() == evs[i as int]);
                assert(spec_event_step_witness(pre_iter, changes_iter, applied));
                assert(spec_event_applied(pre_iter, *self, evs[i as int], applied));
                assert(changes@ =~= changes_iter + (match applied {
                    Some(change) => seq![change],
                    None => Seq::<(usize, ClipChangeEvent)>::empty(),
                }));
            }
            i += 1;
        }
        proof {
            assert(evs.subrange(0, total as int) =~= evs);
        }
        let ghost changes_part = changes@;
        let ghost slots_now = self.slots@;
        let mut row: usize = 0;
        let n = self.slots.len();
        proof {
            assert(slots_now.subrange(0, 0) =~= Seq::<Slot>::empty());
        }
        while row < n
            invariant
                row <= n,
                n == slots_now.len(),
                self.slots@ == slots_now,
                self.commands@ == old(self).spec_commands(),
                changes@ == changes_part + spec_position_entries(
                    slots_now.subrange(0, row as int),
                    timeline_tempo_cbpm,
                ),
            decreases n - row,
        {
            let ghost before = changes@;
            let slot = &self.slots[row];
            let advancing = match slot.clip_play_state() {
                Ok(state) => state.is_advancing(),
                Err(_) => false,
            };
            if advancing {
                let proportional_raw = match slot.proportional_position() {
                    Ok(u) => u.get(),
                    Err(_) => 0,
                };
                let millis = match slot.position_in_millis(timeline_tempo_cbpm) {
                    Ok(m) => m,
                    Err(_) => 0,
                };
                changes.push((row, ClipChangeEvent::ClipPosition { proportional_raw, millis }));
            }
            proof {
                let prefix = slots_now.subrange(0, row + 1);
                assert(prefix.drop_last() =~= slots_now.subrange(0, row as int));
                assert(prefix.last() == slots_now[row as int]);
                assert(changes@ =~= before + (if spec_slot_advancing(slots_now[row as int]) {
                    seq![
                        (
                            row,
                            ClipChangeEvent::ClipPosition {
                                proportional_raw: spec_slot_proportional_or_zero(
                                    slots_now[row as int],
                                ) as u32,
                                millis: spec_slot_millis_or_zero(
                                    slots_now[row as int],
                                    timeline_tempo_cbpm,
                                ) as u64,
                            },
                        ),
                    ]
                } else {
                    Seq::<(usize, ClipChangeEvent)>::empty()
                }));
            }
            row += 1;
        }
        proof {
            assert(slots_now.subrange(0, n as int) =~= slots_now);
            assert(spec_column_witness(*self, changes_part));
        }
        changes
    }
}

/// The full grid of clip slots: an ordered list of columns, each paired
/// with a real-time counterpart by the host.
pub struct Matrix {
    columns: Vec<Column>,
}

impl Matrix {
    pub closed spec fn spec_columns(self) -> Seq<Column> {
        self.columns@
    }

    pub fn new() -> (r: Matrix)
        ensures
            r.spec_columns().len() == 0,
    {
        Matrix { columns: Vec::new() }
    }

    pub fn column_count(&self) -> (r: usize)
        ensures
            r == self.spec_columns().len(),
    {
        self.columns.len()
    }

    /// Appends a fresh column and returns its index.
    pub fn add_column(&mut self) -> (r: usize)
        ensures
            final (self).spec_columns().len() == old(self).spec_columns().len() + 1,
            r == old(self).spec_columns().len(),
    {
        let index = self.columns.len();
        self.columns.push(Column::new());
        index
    }

    pub fn column(&self, index: usize) -> (r: Option<&Column>)
        ensures
            (match r {
                Some(c) => index < self.spec_columns().len() && *c == self.spec_columns()[
                    index as int
                ],
                None => index >= self.spec_columns().len(),
            }),
    {
        if index < self.columns.len() {
            Some(&self.columns[index])
        } else {
            None
        }
    }

    /// Fills the addressed slot with a clip, as
    /// [`Column::fill_slot_with_clip`] says; every other column stays as
    /// it is.
    pub fn fill_slot_with_clip(
        &mut self,
        column_index: usize,
        row_index: usize,
        api_clip: ApiClip,
    ) -> (r: Result<ClipChangeEvent, &'static str>)
        requires
            row_index < usize::MAX,
        ensures
            column_index >= old(self).spec_columns().len() ==> {
                &&& r matches Err(e) && e@ == "column doesn't exist"@
                &&& *final (self) == *old(self)
            },
            column_index < old(self).spec_columns().len() ==> {
                &&& final (self).spec_columns().len() == old(self).spec_columns().len()
                &&& forall|j: int|
                    0 <= j < old(self).spec_columns().len() && j != column_index
                        ==> final (self).spec_columns()[j] == old(self).spec_columns()[j]
                &&& spec_fill_applied(
                    old(self).spec_columns()[column_index as int],
                    final (self).spec_columns()[column_index as int],
                    row_index,
                    api_clip,
                    r,
                )
            },
    {
        if column_index >= self.columns.len() {
            return Err("column doesn't exist");
        }
        let column = &mut self.columns[column_index];
        column.fill_slot_with_clip(row_index, api_clip)
    }

    /// Queues a play command for the addressed slot; every other column
    /// stays as it is.
    pub fn play_clip(&mut self, column_index: usize, row_index: usize) -> (r: Result<
        (),
        &'static str,
    >)
        ensures
            column_index >= old(self).spec_columns().len() ==> {
                &&& r matches Err(e) && e@ == "column doesn't exist"@
                &&& *final (self) == *old(self)
            },
            column_index < old(self).spec_columns().len() ==> {
                &&& r is Ok
                &&& final (self).spec_columns().len() == old(self).spec_columns().len()
                &&& forall|j: int|
                    0 <= j < old(self).spec_columns().len() && j != column_index
                        ==> final (self).spec_columns()[j] == old(self).spec_columns()[j]
                &&& final (self).spec_columns()[column_index as int].spec_slots() == old(
                    self,
                ).spec_columns()[column_index as int].spec_slots()
                &&& final (self).spec_columns()[column_index as int].spec_commands() == old(
                    self,
                ).spec_columns()[column_index as int].spec_commands().push(
                    ColumnCommand::PlayClip { slot_index: row_index },
                )
            },
    {
        if column_index >= self.columns.len() {
            return Err("column doesn't exist");
        }
        let column = &mut self.columns[column_index];
        column.play_clip(row_index);
        Ok(())
    }

    /// Queues a stop command for the addressed slot; every other column
    /// stays as it is.
    pub fn stop_clip(&mut self, column_index: usize, row_index: usize) -> (r: Result<
        (),
        &'static str,
    >)
        ensures
            column_index >= old(self).spec_columns().len() ==> {
                &&& r matches Err(e) && e@ == "column doesn't exist"@
                &&& *final (self) == *old(self)
            },
            column_index < old(self).spec_columns().len() ==> {
                &&& r is Ok
                &&& final (self).spec_columns().len() == old(self).spec_columns().len()
                &&& forall|j: int|
                    0 <= j < old(self).spec_columns().len() && j != column_index
                        ==> final (self).spec_columns()[j] == old(self).spec_columns()[j]
                &&& final (self).spec_columns()[column_index as int].spec_slots() == old(
                    self,
                ).spec_columns()[column_index as int].spec_slots()
                &&& final (self).spec_columns()[column_index as int].spec_commands() == old(
                    self,
                ).spec_columns()[column_index as int].spec_commands().push(
                    ColumnCommand::StopClip { slot_index: row_index },
                )
            },
    {
        if column_index >= self.columns.len() {
            return Err("column doesn't exist");
        }
        let column = &mut self.columns[column_index];
        column.stop_clip(row_index);
        Ok(())
    }

    /// Queues a clear command for the addressed slot; every other column
    /// stays as it is.
    pub fn clear_slot(&mut self, column_index: usize, row_index: usize) -> (r: Result<
        (),
        &'static str,
    >)
        ensures
            column_index >= old(self).spec_columns().len() ==> {
                &&& r matches Err(e) && e@ == "column doesn't exist"@
                &&& *final (self) == *old(self)
            },
            column_index < old(self).spec_columns().len() ==> {
                &&& r is Ok
                &&& final (self).spec_columns().len() == old(self).spec_columns().len()
                &&& forall|j: int|
                    0 <= j < old(self).spec_columns().len() && j != column_index
                        ==> final (self).spec_columns()[j] == old(self).spec_columns()[j]
                &&& final (self).spec_columns()[column_index as int].spec_slots() == old(
                    self,
                ).spec_columns()[column_index as int].spec_slots()
                &&& final (self).spec_columns()[column_index as int].spec_commands() == old(
                    self,
                ).spec_columns()[column_index as int].spec_commands().push(
                    ColumnCommand::ClearSlot { slot_index: row_index },
                )
            },
    {
        if column_index >= self.columns.len() {
            return Err("column doesn't exist");
        }
        let column = &mut self.columns[column_index];
        column.clear_slot(row_index);
        Ok(())
    }

    /// Reports the play state of the addressed slot, as
    /// [`Column::clip_play_state`] answers it.
    pub fn clip_play_state(&self, column_index: usize, row_index: usize) -> (r: Result<
        ClipPlayState,
        &'static str,
    >)
        ensures
            column_index >= self.spec_columns().len() ==> (r matches Err(e) && e@
                == "column doesn't exist"@),
            column_index < self.spec_columns().len() ==> {
                let col = self.spec_columns()[column_index as int];
                &&& row_index >= col.spec_slots().len() ==> (r matches Err(e) && e@
                    == "slot doesn't exist"@)
                &&& row_index < col.spec_slots().len() ==> (match col.spec_slots()[
                    row_index as int
                ].spec_state() {
                    crate::slot::SlotState::Normal => (match col.spec_slots()[
                        row_index as int
                    ].spec_content() {
                        Some(c) => r == Ok::<_, &'static str>(c.runtime_data.play_state),
                        None => r matches Err(e) && e@ == "slot not filled"@,
                    }),
                    crate::slot::SlotState::RequestedOverdubbing
                    | crate::slot::SlotState::RequestedRecording => r == Ok::<_, &'static str>(
                        ClipPlayState::ScheduledForRecordingStart,
                    ),
                    crate::slot::SlotState::Recording(st) => r == Ok::<_, &'static str>(
                        st.runtime_data.play_state,
                    ),
                })
            },
    {
        if column_index >= self.columns.len() {
            return Err("column doesn't exist");
        }
        self.columns[column_index].clip_play_state(row_index)
    }

    /// Requests a recording for the addressed slot, as
    /// [`Column::record_clip`] says; every other column stays as it is.
    pub fn record_clip(
        &mut self,
        column_index: usize,
        row_index: usize,
        record_mode: MidiClipRecordMode,
        input_is_midi: bool,
        frame_rate: u32,
    ) -> (r: Result<(), &'static str>)
        requires
            row_index < usize::MAX,
        ensures
            column_index >= old(self).spec_columns().len() ==> {
                &&& r matches Err(e) && e@ == "column doesn't exist"@
                &&& *final (self) == *old(self)
            },
            column_index < old(self).spec_columns().len() ==> {
                &&& final (self).spec_columns().len() == old(self).spec_columns().len()
                &&& forall|j: int|
                    0 <= j < old(self).spec_columns().len() && j != column_index
                        ==> final (self).spec_columns()[j] == old(self).spec_columns()[j]
                &&& spec_record_applied(
                    old(self).spec_columns()[column_index as int],
                    final (self).spec_columns()[column_index as int],
                    row_index,
                    r,
                )
            },
    {
        if column_index >= self.columns.len() {
            return Err("column doesn't exist");
        }
        let column = &mut self.columns[column_index];
        column.record_clip(row_index, record_mode, input_is_midi, frame_rate)
    }

    /// Hands out the queued commands of the addressed column; a column
    /// that does not exist has none. Every other column stays as it is.
    pub fn take_column_commands(&mut self, column_index: usize) -> (r: Vec<ColumnCommand>)
        ensures
            column_index >= old(self).spec_columns().len() ==> {
                &&& r@.len() == 0
                &&& *final (self) == *old(self)
            },
            column_index < old(self).spec_columns().len() ==> {
                &&& final (self).spec_columns().len() == old(self).spec_columns().len()
                &&& forall|j: int|
                    0 <= j < old(self).spec_columns().len() && j != column_index
                        ==> final (self).spec_columns()[j] == old(self).spec_columns()[j]
                &&& r@ == old(self).spec_columns()[column_index as int].spec_commands()
                &&& final (self).spec_columns()[column_index as int].spec_commands().len() == 0
                &&& final (self).spec_columns()[column_index as int].spec_slots() == old(
                    self,
                ).spec_columns()[column_index as int].spec_slots()
            },
    {
        if column_index >= self.columns.len() {
            return Vec::new();
        }
        let column = &mut self.columns[column_index];
        column.take_commands()
    }

    /// Reconciles a batch of real-time events into the addressed column,
    /// as [`Column::poll`] says; every other column stays as it is.
    pub fn poll_column(
        &mut self,
        column_index: usize,
        events: Vec<ColumnEvent>,
        timeline_tempo_cbpm: u32,
    ) -> (r: Vec<(usize, ClipChangeEvent)>)
        ensures
            column_index >= old(self).spec_columns().len() ==> {
                &&& r@.len() == 0
                &&& *final (self) == *old(self)
            },
            column_index < old(self).spec_columns().len() ==> {
                &&& final (self).spec_columns().len() == old(self).spec_columns().len()
                &&& forall|j: int|
                    0 <= j < old(self).spec_columns().len() && j != column_index
                        ==> final (self).spec_columns()[j] == old(self).spec_columns()[j]
                &&& final (self).spec_columns()[column_index as int].spec_commands() == old(
                    self,
                ).spec_columns()[column_index as int].spec_commands()
                &&& exists|changes: Seq<(usize, ClipChangeEvent)>|
                    #![trigger spec_column_witness(
                        final (self).spec_columns()[column_index as int],
                        changes,
                    )]
                    {
                        &&& spec_column_witness(
                            final (self).spec_columns()[column_index as int],
                            changes,
                        )
                        &&& spec_event_chain(
                            old(self).spec_columns()[column_index as int],
                            final (self).spec_columns()[column_index as int],
                            events@,
                            changes,
                        )
                        &&& r@ == changes + spec_position_entries(
                            final (self).spec_columns()[column_index as int].spec_slots(),
                            timeline_tempo_cbpm,
                        )
                    }
            },
    {
        if column_index >= self.columns.len() {
            return Vec::new();
        }
        let column = &mut self.columns[column_index];
        column.poll(events, timeline_tempo_cbpm)
    }
}

} // verus!
