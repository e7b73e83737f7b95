//! Real-time processor: source matching on the audio thread.
//!
//! The real-time processor owns lightweight mapping copies and, per
//! incoming event, only matches sources and forwards matched control values
//! to the main processor through a bounded channel model. It never resolves
//! targets or computes modes. When the channel is full the newest message
//! is dropped and counted, deterministically, rather than blocking.

use vstd::prelude::*;

use crate::mapping::{Compartment, ControlOptions, MappingId, RealTimeProcessorMapping};
use crate::midi::RawMidiMessage;
use crate::source::{spec_control_result, spec_source_matches};
use crate::units::ControlValue;

verus! {

/// A control message from the real-time processor to the main processor.
#[derive(Clone, Copy, PartialEq, Eq, Structural, Debug)]
pub struct ControlMainTask {
    pub compartment: Compartment,
    pub mapping_id: MappingId,
    pub value: ControlValue,
    pub options: ControlOptions,
}

/// Whether a task could have been produced for this message by one of the
/// given mappings: some enabled mapping has the task's id and a source that
/// matches the message.
pub open spec fn spec_task_justified(
    mappings: Seq<RealTimeProcessorMapping>,
    msg: RawMidiMessage,
    task: ControlMainTask,
) -> bool {
    exists|i: int|
        0 <= i < mappings.len() && #[trigger] mappings[i].spec_control_is_enabled()
            && mappings[i].spec_id() == task.mapping_id && spec_source_matches(
            mappings[i].spec_source(),
            msg,
        ) && spec_control_result(mappings[i].spec_source(), msg, Some(task.value))
}

/// Whether some enabled mapping of the list matches the message.
pub open spec fn spec_some_enabled_match(
    mappings: Seq<RealTimeProcessorMapping>,
    msg: RawMidiMessage,
) -> bool {
    exists|i: int|
        0 <= i < mappings.len() && #[trigger] mappings[i].spec_control_is_enabled()
            && spec_source_matches(mappings[i].spec_source(), msg)
}

/// Like [`spec_some_enabled_match`], over the first `n` mappings only.
pub open spec fn spec_some_enabled_match_prefix(
    mappings: Seq<RealTimeProcessorMapping>,
    msg: RawMidiMessage,
    n: int,
) -> bool {
    exists|i: int|
        0 <= i < n && i < mappings.len() && #[trigger] mappings[i].spec_control_is_enabled()
            && spec_source_matches(mappings[i].spec_source(), msg)
}

/// Whether a task is justified by the mappings of its own compartment.
pub open spec fn spec_task_justified_in(
    controller: Seq<RealTimeProcessorMapping>,
    main: Seq<RealTimeProcessorMapping>,
    msg: RawMidiMessage,
    task: ControlMainTask,
) -> bool {
    match task.compartment {
        Compartment::Controller => spec_task_justified(controller, msg, task),
        Compartment::Main => spec_task_justified(main, msg, task),
    }
}

/// The real-time processor.
pub struct RealTimeProcessor {
    controller_mappings: Vec<RealTimeProcessorMapping>,
    main_mappings: Vec<RealTimeProcessorMapping>,
    control_is_globally_enabled: bool,
    /// Capacity of the outgoing control channel.
    out_capacity: usize,
    out: Vec<ControlMainTask>,
    /// How many messages were dropped because the channel was full.
    overflow_count: u64,
}

impl RealTimeProcessor {
    pub closed spec fn spec_mappings(self, compartment: Compartment) -> Seq<
        RealTimeProcessorMapping,
    > {
        match compartment {
            Compartment::Controller => self.controller_mappings@,
            Compartment::Main => self.main_mappings@,
        }
    }

    pub closed spec fn spec_control_is_globally_enabled(self) -> bool {
        self.control_is_globally_enabled
    }

    pub closed spec fn spec_out(self) -> Seq<ControlMainTask> {
        self.out@
    }

    pub closed spec fn spec_out_capacity(self) -> int {
        self.out_capacity as int
    }

    pub closed spec fn spec_overflow_count(self) -> int {
        self.overflow_count as int
    }

    pub fn new(out_capacity: usize) -> (r: RealTimeProcessor)
        ensures
            r.spec_mappings(Compartment::Controller).len() == 0,
            r.spec_mappings(Compartment::Main).len() == 0,
            r.spec_control_is_globally_enabled(),
            r.spec_out().len() == 0,
            r.spec_out_capacity() == out_capacity,
            r.spec_overflow_count() == 0,
    {
        RealTimeProcessor {
            controller_mappings: Vec::new(),
            main_mappings: Vec::new(),
            control_is_globally_enabled: true,
            out_capacity,
            out: Vec::new(),
            overflow_count: 0,
        }
    }

    pub fn set_control_is_globally_enabled(&mut self, enabled: bool)
        ensures
            final (self).spec_control_is_globally_enabled() == enabled,
            final (self).spec_out() == old(self).spec_out(),
            final (self).spec_mappings(Compartment::Controller) == old(self).spec_mappings(
                Compartment::Controller,
            ),
            final (self).spec_mappings(Compartment::Main) == old(self).spec_mappings(
                Compartment::Main,
            ),
    {
        self.control_is_globally_enabled = enabled;
    }

    /// Replaces the mapping copies of one compartment.
    pub fn update_all_mappings(
        &mut self,
        compartment: Compartment,
        mappings: Vec<RealTimeProcessorMapping>,
    )
        ensures
            final (self).spec_mappings(compartment) == mappings@,
            final (self).spec_out() == old(self).spec_out(),
            final (self).spec_overflow_count() == old(self).spec_overflow_count(),
            (match compartment {
                Compartment::Controller => final (self).spec_mappings(Compartment::Main) == old(
                    self,
                ).spec_mappings(Compartment::Main),
                Compartment::Main => final (self).spec_mappings(Compartment::Controller) == old(
                    self,
                ).spec_mappings(Compartment::Controller),
            }),
    {
        match compartment {
            Compartment::Controller => {
                self.controller_mappings = mappings;
            },
            Compartment::Main => {
                self.main_mappings = mappings;
            },
        }
    }

    /// Hands the queued control tasks out for delivery to the main
    /// processor.
    pub fn take_tasks(&mut self) -> (r: Vec<ControlMainTask>)
        ensures
            r@ == old(self).spec_out(),
            final (self).spec_out().len() == 0,
            final (self).spec_mappings(Compartment::Controller) == old(self).spec_mappings(
                Compartment::Controller,
            ),
            final (self).spec_mappings(Compartment::Main) == old(self).spec_mappings(
                Compartment::Main,
            ),
    {
        let mut out: Vec<ControlMainTask> = Vec::new();
        core::mem::swap(&mut out, &mut self.out);
        out
    }

    pub fn overflow_count(&self) -> (r: u64)
        ensures
            r == self.spec_overflow_count(),
    {
        self.overflow_count
    }

    /// Matches one incoming short message against the enabled mappings of
    /// both compartments and forwards one control task per match.
    ///
    /// Every forwarded task is justified by an enabled, matching mapping
    /// of its compartment. A task that does not fit into the channel is
    /// dropped (drop-new) and counted, never blocking; nothing happens
    /// while control is globally disabled.
    pub fn process_incoming_midi(&mut self, msg: RawMidiMessage)
        ensures
            final (self).spec_mappings(Compartment::Controller) == old(self).spec_mappings(
                Compartment::Controller,
            ),
            final (self).spec_mappings(Compartment::Main) == old(self).spec_mappings(
                Compartment::Main,
            ),
            final (self).spec_control_is_globally_enabled() == old(
                self,
            ).spec_control_is_globally_enabled(),
            final (self).spec_out_capacity() == old(self).spec_out_capacity(),
            !old(self).spec_control_is_globally_enabled() ==> *final (self) == *old(self),
            final (self).spec_out().len() >= old(self).spec_out().len(),
            forall|k: int|
                old(self).spec_out().len() <= k < final (self).spec_out().len()
                    ==> spec_task_justified_in(
                    old(self).spec_mappings(Compartment::Controller),
                    old(self).spec_mappings(Compartment::Main),
                    msg,
                    #[trigger] final (self).spec_out()[k],
                ),
            forall|k: int|
                0 <= k < old(self).spec_out().len() ==> final (self).spec_out()[k] == old(
                    self,
                ).spec_out()[k],
            final (self).spec_out().len() <= old(self).spec_out().len() + old(self).spec_mappings(
                Compartment::Controller,
            ).len() + old(self).spec_mappings(Compartment::Main).len(),
            old(self).spec_out().len() > old(self).spec_out_capacity() ==> final (self).spec_out().len() == old(self).spec_out().len(),
            (old(self).spec_control_is_globally_enabled() && old(self).spec_out().len() < old(
                self,
            ).spec_out_capacity() && (spec_some_enabled_match(
                old(self).spec_mappings(Compartment::Controller),
                msg,
            ) || spec_some_enabled_match(old(self).spec_mappings(Compartment::Main), msg)))
                ==> final (self).spec_out().len() > old(self).spec_out().len(),
    {
        if !self.control_is_globally_enabled {
            return ;
        }
        let ghost out0 = self.out@;
        let mut i: usize = 0;
        let n_controller = self.controller_mappings.len();
        while i < n_controller
            invariant
                n_controller == self.controller_mappings@.len(),
                self.controller_mappings@ == old(self).spec_mappings(Compartment::Controller),
                self.main_mappings@ == old(self).spec_mappings(Compartment::Main),
                self.control_is_globally_enabled == old(self).spec_control_is_globally_enabled(),
                self.out_capacity == old(self).spec_out_capacity(),
                self.out@.len() >= out0.len(),
                out0 == old(self).spec_out(),
                forall|k: int| 0 <= k < out0.len() ==> self.out@[k] == out0[k],
                forall|k: int|
                    out0.len() <= k < self.out@.len() ==> spec_task_justified_in(
                        old(self).spec_mappings(Compartment::Controller),
                        old(self).spec_mappings(Compartment::Main),
                        msg,
                        #[trigger] self.out@[k],
                    ),
                i <= n_controller,
                self.out@.len() <= out0.len() + i,
                out0.len() > self.out_capacity ==> self.out@.len() == out0.len(),
                (out0.len() < self.out_capacity && spec_some_enabled_match_prefix(
                    old(self).spec_mappings(Compartment::Controller),
                    msg,
                    i as int,
                )) ==> self.out@.len() > out0.len(),
            decreases n_controller - i,
        {
            let m = &self.controller_mappings[i];
            if m.control_is_enabled() {
                match m.control(msg) {
                    Some(value) => {
                        let task = ControlMainTask {
                            compartment: Compartment::Controller,
                            mapping_id: m.id(),
                            value,
                            options: ControlOptions { enforce_send_feedback_after_control: false },
                        };
                        if self.out.len() < self.out_capacity {
                            self.out.push(task);
                        } else {
                            if self.overflow_count < u64::MAX {
                                self.overflow_count = self.overflow_count + 1;
                            }
                        }
                    },
                    None => {},
                }
            }
            i += 1;
        }
        let ghost out1 = self.out@;
        let mut j: usize = 0;
        let n_main = self.main_mappings.len();
        while j < n_main
            invariant
                n_main == self.main_mappings@.len(),
                self.controller_mappings@ == old(self).spec_mappings(Compartment::Controller),
                self.main_mappings@ == old(self).spec_mappings(Compartment::Main),
                self.control_is_globally_enabled == old(self).spec_control_is_globally_enabled(),
                self.out_capacity == old(self).spec_out_capacity(),
                self.out@.len() >= out1.len(),
                out1.len() >= out0.len(),
                out0 == old(self).spec_out(),
                out1.len() <= out0.len() + old(self).spec_mappings(Compartment::Controller).len(),
                forall|k: int| 0 <= k < out1.len() ==> self.out@[k] == out1[k],
                forall|k: int| 0 <= k < out0.len() ==> out1[k] == out0[k],
                forall|k: int|
                    out0.len() <= k < self.out@.len() ==> spec_task_justified_in(
                        old(self).spec_mappings(Compartment::Controller),
                        old(self).spec_mappings(Compartment::Main),
                        msg,
                        #[trigger] self.out@[k],
                    ),
                j <= n_main,
                self.out@.len() <= out1.len() + j,
                out0.len() > self.out_capacity ==> self.out@.len() == out0.len(),
                (out0.len() < self.out_capacity && spec_some_enabled_match(
                    old(self).spec_mappings(Compartment::Controller),
                    msg,
                )) ==> out1.len() > out0.len(),
                (out0.len() < self.out_capacity && spec_some_enabled_match_prefix(
                    old(self).spec_mappings(Compartment::Main),
                    msg,
                    j as int,
                )) ==> self.out@.len() > out0.len(),
                self.out@.len() >= out1.len(),
            decreases n_main - j,
        {
            let m = &self.main_mappings[j];
            if m.control_is_enabled() {
                match m.control(msg) {
                    Some(value) => {
                        let task = ControlMainTask {
                            compartment: Compartment::Main,
                            mapping_id: m.id(),
                            value,
                            options: ControlOptions { enforce_send_feedback_after_control: false },
                        };
                        if self.out.len() < self.out_capacity {
                            self.out.push(task);
                        } else {
                            if self.overflow_count < u64::MAX {
                                self.overflow_count = self.overflow_count + 1;
                            }
                        }
                    },
                    None => {},
                }
            }
            j += 1;
        }
    }
}

} // verus!
