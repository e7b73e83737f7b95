//! Mappings: the atomic unit of control binding.
//!
//! A mapping binds one source, one mode, one optional resolved target and
//! the enable flags. The session owns the model; the main and real-time
//! processors each own derived copies that are replaced, never shared. Time
//! enters as a plain millisecond count so that echo suppression is a pure
//! rule.

use uuid::Uuid;
use vstd::prelude::*;

use crate::mode::Mode;
use crate::source::{spec_control_result, spec_feedback_msg, spec_source_matches, MidiSource};
use crate::targets::{HitInstruction, HitResponse, ReaperTarget, TargetContext};
use crate::midi::RawMidiMessage;
use crate::units::{ControlValue, UnitValue};

verus! {

/// Relies on `Uuid::new_v4` and `Uuid::as_u64_pair`: a freshly drawn
/// random identifier, split into two plain halves. Nothing is promised of
/// the value; uniqueness is only statistical.
#[verifier::external_body]
fn random_id_parts() -> (r: (u64, u64))
{
    let uuid = Uuid::new_v4();
    let (hi, lo) = uuid.as_u64_pair();
    (hi, lo)
}

/// A stable identifier of a mapping, unique per compartment in practice.
#[derive(Clone, Copy, PartialEq, Eq, Structural, Debug, Hash)]
pub struct MappingId {
    pub hi: u64,
    pub lo: u64,
}

impl MappingId {
    /// Draws a fresh random id.
    pub fn random() -> MappingId {
        let (hi, lo) = random_id_parts();
        MappingId { hi, lo }
    }
}

/// One of the two partitions of a mapping set. Each compartment holds its
/// own mapping list and lives its own lifecycle.
#[derive(Clone, Copy, PartialEq, Eq, Structural, Debug, Hash)]
pub enum Compartment {
    Controller,
    Main,
}

/// Condition that gates whether a mapping is live, driven by the plugin
/// parameters (given as unit-value numerators).
#[derive(Clone, Copy, PartialEq, Eq, Structural, Debug)]
pub enum ActivationCondition {
    /// Always live.
    Always,
    /// Live while the parameter is pressed (nonzero), or while it is
    /// released when `on` is false.
    Modifier { param_index: usize, on: bool },
    /// Live while the parameter selects the given bank; each step of one
    /// hundredth of the parameter range is one bank.
    Bank { param_index: usize, bank_index: u32 },
}

/// The bank that a parameter value (a unit-value numerator) selects.
pub open spec fn spec_bank_of_param(raw: int) -> int {
    raw / 10_000
}

impl ActivationCondition {
    /// Whether the condition holds under the given parameter values; a
    /// parameter index beyond the table never activates.
    pub open spec fn spec_is_fulfilled(self, params: Seq<u32>) -> bool {
        match self {
            ActivationCondition::Always => true,
            ActivationCondition::Modifier { param_index, on } => param_index < params.len() && (
            params[param_index as int] > 0) == on,
            ActivationCondition::Bank { param_index, bank_index } => param_index < params.len()
                && spec_bank_of_param(params[param_index as int] as int) == bank_index,
        }
    }

    pub fn is_fulfilled(&self, params: &Vec<u32>) -> (r: bool)
        ensures
            r == self.spec_is_fulfilled(params@),
    {
        match self {
            ActivationCondition::Always => true,
            ActivationCondition::Modifier { param_index, on } => {
                if *param_index < params.len() {
                    (params[*param_index] > 0) == *on
                } else {
                    false
                }
            },
            ActivationCondition::Bank { param_index, bank_index } => {
                if *param_index < params.len() {
                    params[*param_index] / 10_000 == *bank_index
                } else {
                    false
                }
            },
        }
    }

    /// Whether a change of the given parameter can change the condition.
    pub fn can_be_affected_by(&self, index: usize) -> (r: bool)
        ensures
            r == (match *self {
                ActivationCondition::Always => false,
                ActivationCondition::Modifier { param_index, .. } => param_index == index,
                ActivationCondition::Bank { param_index, .. } => param_index == index,
            }),
    {
        match self {
            ActivationCondition::Always => false,
            ActivationCondition::Modifier { param_index, .. } => *param_index == index,
            ActivationCondition::Bank { param_index, .. } => *param_index == index,
        }
    }
}

/// Whether a change of the parameter at `index` can change the condition.
pub open spec fn spec_affected_by_parameter(c: ActivationCondition, index: int) -> bool {
    match c {
        ActivationCondition::Always => false,
        ActivationCondition::Modifier { param_index, .. } => param_index == index,
        ActivationCondition::Bank { param_index, .. } => param_index == index,
    }
}

/// Options that accompany one control invocation.
#[derive(Clone, Copy, PartialEq, Eq, Structural, Debug)]
pub struct ControlOptions {
    pub enforce_send_feedback_after_control: bool,
}

/// The mapping copy that the real-time processor owns: only what source
/// matching and the immediate enabled check need.
pub struct RealTimeProcessorMapping {
    id: MappingId,
    source: MidiSource,
    control_is_enabled: bool,
}

impl RealTimeProcessorMapping {
    pub closed spec fn spec_id(self) -> MappingId {
        self.id
    }

    pub closed spec fn spec_source(self) -> MidiSource {
        self.source
    }

    pub closed spec fn spec_control_is_enabled(self) -> bool {
        self.control_is_enabled
    }

    pub fn new(id: MappingId, source: MidiSource, control_is_enabled: bool) -> (r:
        RealTimeProcessorMapping)
        ensures
            r.spec_id() == id,
            r.spec_source() == source,
            r.spec_control_is_enabled() == control_is_enabled,
    {
        RealTimeProcessorMapping { id, source, control_is_enabled }
    }

    pub fn id(&self) -> (r: MappingId)
        ensures
            r == self.spec_id(),
    {
        self.id
    }

    /// Matches the message against the source.
    pub fn control(&self, msg: RawMidiMessage) -> (r: Option<ControlValue>)
        ensures
            r is Some <==> spec_source_matches(self.spec_source(), msg),
            spec_control_result(self.spec_source(), msg, r),
    {
        self.source.control(msg)
    }

    /// Whether the source consumes the message, as
    /// [`crate::source::spec_source_consumes`] says.
    pub fn consumes(&self, msg: RawMidiMessage) -> (r: bool)
        ensures
            r == crate::source::spec_source_consumes(self.spec_source(), msg),
    {
        self.source.consumes(msg)
    }

    pub fn control_is_enabled(&self) -> (r: bool)
        ensures
            r == self.spec_control_is_enabled(),
    {
        self.control_is_enabled
    }

    pub fn enable_control(&mut self)
        ensures
            final (self).spec_control_is_enabled(),
            final (self).spec_id() == old(self).spec_id(),
            final (self).spec_source() == old(self).spec_source(),
    {
        self.control_is_enabled = true;
    }

    pub fn disable_control(&mut self)
        ensures
            !final (self).spec_control_is_enabled(),
            final (self).spec_id() == old(self).spec_id(),
            final (self).spec_source() == old(self).spec_source(),
    {
        self.control_is_enabled = false;
    }
}

/// The mapping copy that the main processor owns: source, mode, resolved
/// target, flags and the echo-suppression clock.
pub struct MainProcessorMapping {
    id: MappingId,
    source: MidiSource,
    mode: Mode,
    target: Option<ReaperTarget>,
    control_is_enabled: bool,
    feedback_is_enabled: bool,
    prevent_echo_feedback: bool,
    activation_condition: ActivationCondition,
    is_active: bool,
    /// Echo-suppression window in milliseconds; feedback within this span
    /// after a control hit is held back.
    echo_delay_millis: u64,
    time_of_last_control: Option<u64>,
}

/// The feedback message a mapping owes at a point in time, given the
/// track-volume table: nothing while feedback is off, the mapping is
/// inactive, the echo-suppression window is open, no target is resolved or
/// the target reports no value; else the target's current value through
/// the mode's feedback direction, built by the source.
pub open spec fn spec_mapping_feedback(
    m: MainProcessorMapping,
    now_millis: u64,
    volumes: Seq<crate::units::UnitValue>,
) -> Option<RawMidiMessage> {
    if !(m.spec_feedback_is_enabled() && m.spec_is_active()) {
        None
    } else if m.spec_time_of_last_control() matches Some(t) && now_millis >= t && now_millis - t
        <= m.spec_echo_delay_millis() {
        None
    } else {
        match m.spec_target() {
            None => None,
            Some(target) => match target {
                ReaperTarget::TrackVolume { track_index } => {
                    if track_index < volumes.len() {
                        spec_feedback_msg(
                            m.spec_source(),
                            m.spec_mode().spec_feedback(volumes[track_index as int].spec_raw()),
                        )
                    } else {
                        None
                    }
                },
                ReaperTarget::Dummy(d) => spec_feedback_msg(
                    m.spec_source(),
                    m.spec_mode().spec_feedback(d.artificial_value.spec_raw()),
                ),
                ReaperTarget::LoadMappingSnapshot(_) => None,
            },
        }
    }
}

/// The value a mapping's mode turns an incoming control value into, given
/// the target's current value; nothing for a relative zero or a relative
/// value without a known target value.
pub open spec fn spec_mode_output(
    m: MainProcessorMapping,
    value: ControlValue,
    current: Option<int>,
) -> Option<int> {
    match value {
        ControlValue::AbsoluteContinuous(v) => Some(
            m.spec_mode().spec_absolute_control(v.spec_raw()),
        ),
        ControlValue::Relative(d) => {
            if d == 0 {
                None
            } else {
                match current {
                    None => None,
                    Some(cur) => Some(
                        crate::mode::spec_clamp(
                            cur + d * m.spec_mode().spec_step_size(),
                            m.spec_mode().spec_target_min(),
                            m.spec_mode().spec_target_max(),
                        ),
                    ),
                }
            }
        },
    }
}

/// The current value of a mapping's target under the given track table.
pub open spec fn spec_target_current_value(
    target: ReaperTarget,
    volumes: Seq<crate::units::UnitValue>,
) -> Option<int> {
    match target {
        ReaperTarget::TrackVolume { track_index } => {
            if track_index < volumes.len() {
                Some(volumes[track_index as int].spec_raw())
            } else {
                None
            }
        },
        ReaperTarget::Dummy(d) => Some(d.artificial_value.spec_raw()),
        ReaperTarget::LoadMappingSnapshot(_) => None,
    }
}

/// Whether `new_m` is `old_m` with its activation freshly evaluated
/// against the parameters and everything else kept.
pub open spec fn spec_refreshed_against(
    old_m: MainProcessorMapping,
    new_m: MainProcessorMapping,
    params: Seq<u32>,
) -> bool {
    &&& new_m.spec_id() == old_m.spec_id()
    &&& new_m.spec_source() == old_m.spec_source()
    &&& new_m.spec_mode() == old_m.spec_mode()
    &&& new_m.spec_target() == old_m.spec_target()
    &&& new_m.spec_control_is_enabled() == old_m.spec_control_is_enabled()
    &&& new_m.spec_feedback_is_enabled() == old_m.spec_feedback_is_enabled()
    &&& new_m.spec_prevent_echo_feedback() == old_m.spec_prevent_echo_feedback()
    &&& new_m.spec_activation_condition() == old_m.spec_activation_condition()
    &&& new_m.spec_echo_delay_millis() == old_m.spec_echo_delay_millis()
    &&& new_m.spec_time_of_last_control() == old_m.spec_time_of_last_control()
    &&& new_m.spec_is_active() == old_m.spec_activation_condition().spec_is_fulfilled(params)
}

/// How one control invocation changes a mapping, the track table and the
/// returned instruction: the full transition relation of
/// [`MainProcessorMapping::control_if_enabled`].
pub open spec fn spec_control_transition(
    old_m: MainProcessorMapping,
    new_m: MainProcessorMapping,
    value: ControlValue,
    now_millis: u64,
    old_volumes: Seq<crate::units::UnitValue>,
    new_volumes: Seq<crate::units::UnitValue>,
    r: Option<HitInstruction>,
) -> bool {
    &&& new_m.spec_id() == old_m.spec_id()
    &&& new_m.spec_source() == old_m.spec_source()
    &&& new_m.spec_mode() == old_m.spec_mode()
    &&& new_m.spec_feedback_is_enabled() == old_m.spec_feedback_is_enabled()
    &&& new_m.spec_control_is_enabled() == old_m.spec_control_is_enabled()
    &&& new_m.spec_is_active() == old_m.spec_is_active()
    &&& new_m.spec_prevent_echo_feedback() == old_m.spec_prevent_echo_feedback()
    &&& new_m.spec_activation_condition() == old_m.spec_activation_condition()
    &&& new_m.spec_echo_delay_millis() == old_m.spec_echo_delay_millis()
    &&& (!old_m.spec_prevent_echo_feedback() ==> new_m.spec_time_of_last_control()
        == old_m.spec_time_of_last_control())
    &&& (!old_m.spec_control_is_effectively_on() ==> {
        &&& new_m == old_m
        &&& new_volumes == old_volumes
        &&& r is None
    })
    &&& (old_m.spec_control_is_effectively_on() ==> (match old_m.spec_target() {
        None => true,
        Some(target) => {
            let out = spec_mode_output(
                old_m,
                value,
                spec_target_current_value(target, old_volumes),
            );
            match out {
                None => {
                    &&& new_m == old_m
                    &&& new_volumes == old_volumes
                    &&& r is None
                },
                Some(out_raw) => {
                    &&& new_m.spec_time_of_last_control() == (if old_m.spec_prevent_echo_feedback() {
                        Some(now_millis)
                    } else {
                        old_m.spec_time_of_last_control()
                    })
                    &&& (match target {
                        ReaperTarget::TrackVolume { track_index } => {
                            &&& new_m.spec_target() == old_m.spec_target()
                            &&& r is None
                            &&& if track_index < old_volumes.len() {
                                &&& new_volumes.len() == old_volumes.len()
                                &&& new_volumes[track_index as int].spec_raw() == out_raw
                                &&& forall|k: int|
                                    0 <= k < old_volumes.len() && k != track_index
                                        ==> new_volumes[k] == old_volumes[k]
                            } else {
                                new_volumes == old_volumes
                            }
                        },
                        ReaperTarget::Dummy(_) => {
                            &&& (new_m.spec_target() matches Some(ReaperTarget::Dummy(d2))
                                && d2.artificial_value.spec_raw() == out_raw)
                            &&& new_volumes == old_volumes
                            &&& r is None
                        },
                        ReaperTarget::LoadMappingSnapshot(t) => {
                            &&& new_m.spec_target() == old_m.spec_target()
                            &&& new_volumes == old_volumes
                            &&& r == (if out_raw == 0 {
                                Option::<HitInstruction>::None
                            } else {
                                Some(
                                    HitInstruction::LoadMappingSnapshot {
                                        active_mappings_only: t.active_mappings_only,
                                    },
                                )
                            })
                        },
                    })
                },
            }
        },
    }))
}

impl MainProcessorMapping {
    pub closed spec fn spec_id(self) -> MappingId {
        self.id
    }

    pub closed spec fn spec_source(self) -> MidiSource {
        self.source
    }

    pub closed spec fn spec_mode(self) -> Mode {
        self.mode
    }

    pub closed spec fn spec_target(self) -> Option<ReaperTarget> {
        self.target
    }

    pub closed spec fn spec_control_is_enabled(self) -> bool {
        self.control_is_enabled
    }

    pub closed spec fn spec_feedback_is_enabled(self) -> bool {
        self.feedback_is_enabled
    }

    pub closed spec fn spec_prevent_echo_feedback(self) -> bool {
        self.prevent_echo_feedback
    }

    pub closed spec fn spec_activation_condition(self) -> ActivationCondition {
        self.activation_condition
    }

    pub closed spec fn spec_is_active(self) -> bool {
        self.is_active
    }

    pub closed spec fn spec_echo_delay_millis(self) -> int {
        self.echo_delay_millis as int
    }

    pub closed spec fn spec_time_of_last_control(self) -> Option<u64> {
        self.time_of_last_control
    }

    /// Whether the mapping currently takes part in feedback: the flag is
    /// on, the mapping is active and a target is resolved. An inactive
    /// mapping never produces feedback.
    pub open spec fn spec_feedback_is_effectively_on(self) -> bool {
        self.spec_feedback_is_enabled() && self.spec_is_active() && self.spec_target() is Some
    }

    /// Whether the mapping currently takes part in control. An inactive
    /// mapping never receives control dispatch.
    pub open spec fn spec_control_is_effectively_on(self) -> bool {
        self.spec_control_is_enabled() && self.spec_is_active() && self.spec_target() is Some
    }

    pub fn new(
        id: MappingId,
        source: MidiSource,
        mode: Mode,
        target: Option<ReaperTarget>,
        control_is_enabled: bool,
        feedback_is_enabled: bool,
        prevent_echo_feedback: bool,
        activation_condition: ActivationCondition,
        echo_delay_millis: u64,
    ) -> (r: MainProcessorMapping)
        ensures
            r.spec_id() == id,
            r.spec_source() == source,
            r.spec_mode() == mode,
            r.spec_target() == target,
            r.spec_control_is_enabled() == control_is_enabled,
            r.spec_feedback_is_enabled() == feedback_is_enabled,
            r.spec_prevent_echo_feedback() == prevent_echo_feedback,
            r.spec_activation_condition() == activation_condition,
            r.spec_is_active(),
            r.spec_echo_delay_millis() == echo_delay_millis,
            r.spec_time_of_last_control() is None,
    {
        MainProcessorMapping {
            id,
            source,
            mode,
            target,
            control_is_enabled,
            feedback_is_enabled,
            prevent_echo_feedback,
            activation_condition,
            is_active: true,
            echo_delay_millis,
            time_of_last_control: None,
        }
    }

    /// Re-evaluates the activation condition against the parameters.
    pub fn refresh_activation(&mut self, params: &Vec<u32>)
        ensures
            final (self).spec_is_active() == old(self).spec_activation_condition().spec_is_fulfilled(
                params@,
            ),
            final (self).spec_id() == old(self).spec_id(),
            final (self).spec_source() == old(self).spec_source(),
            final (self).spec_mode() == old(self).spec_mode(),
            final (self).spec_target() == old(self).spec_target(),
            final (self).spec_control_is_enabled() == old(self).spec_control_is_enabled(),
            final (self).spec_feedback_is_enabled() == old(self).spec_feedback_is_enabled(),
            final (self).spec_activation_condition() == old(self).spec_activation_condition(),
            final (self).spec_time_of_last_control() == old(self).spec_time_of_last_control(),
            final (self).spec_echo_delay_millis() == old(self).spec_echo_delay_millis(),
            final (self).spec_prevent_echo_feedback() == old(self).spec_prevent_echo_feedback(),
    {
        self.is_active = self.activation_condition.is_fulfilled(params);
    }

    pub fn is_active(&self) -> (r: bool)
        ensures
            r == self.spec_is_active(),
    {
        self.is_active
    }

    /// Whether a change of the given parameter can change this mapping's
    /// activation.
    pub fn can_be_affected_by_parameter(&self, index: usize) -> (r: bool)
        ensures
            r == (match self.spec_activation_condition() {
                ActivationCondition::Always => false,
                ActivationCondition::Modifier { param_index, .. } => param_index == index,
                ActivationCondition::Bank { param_index, .. } => param_index == index,
            }),
    {
        self.activation_condition.can_be_affected_by(index)
    }

    pub fn id(&self) -> (r: MappingId)
        ensures
            r == self.spec_id(),
    {
        self.id
    }

    pub fn source(&self) -> (r: &MidiSource)
        ensures
            *r == self.spec_source(),
    {
        &self.source
    }

    pub fn target(&self) -> (r: &Option<ReaperTarget>)
        ensures
            *r == self.spec_target(),
    {
        &self.target
    }

    pub fn control_is_enabled(&self) -> (r: bool)
        ensures
            r == self.spec_control_is_enabled(),
    {
        self.control_is_enabled
    }

    pub fn feedback_is_enabled(&self) -> (r: bool)
        ensures
            r == self.spec_feedback_is_enabled(),
    {
        self.feedback_is_enabled
    }

    pub fn feedback_is_effectively_on(&self) -> (r: bool)
        ensures
            r == self.spec_feedback_is_effectively_on(),
    {
        self.feedback_is_enabled && self.is_active && self.target.is_some()
    }

    pub fn control_is_effectively_on(&self) -> (r: bool)
        ensures
            r == self.spec_control_is_effectively_on(),
    {
        self.control_is_enabled && self.is_active && self.target.is_some()
    }

    /// Routes one control value through the mode into the target.
    ///
    /// Nothing happens while control is disabled or no target is resolved.
    /// Otherwise the mode transforms the value against the target's
    /// current value; if it produces one, the hit is applied, the
    /// echo-suppression clock is stamped when echo prevention is on, and a
    /// deferred instruction is handed back when the target issues one.
    pub fn control_if_enabled(
        &mut self,
        value: ControlValue,
        now_millis: u64,
        context: &mut TargetContext,
    ) -> (r: Option<HitInstruction>)
        ensures
            spec_control_transition(
                *old(self),
                *final (self),
                value,
                now_millis,
                old(context).track_volumes@,
                final (context).track_volumes@,
                r,
            ),
    {
        if !self.control_is_enabled {
            return None;
        }
        if !self.is_active {
            return None;
        }
        let has_target = self.target.is_some();
        if !has_target {
            return None;
        }
        let current = match &self.target {
            Some(t) => t.current_value(context),
            None => None,
        };
        let final_value = self.mode.control(value, current);
        match final_value {
            Some(v) => {
                if self.prevent_echo_feedback {
                    self.time_of_last_control = Some(now_millis);
                }
                match &mut self.target {
                    Some(t) => {
                        match t.hit(v, context) {
                            Ok((_, instruction)) => instruction,
                            Err(_) => None,
                        }
                    },
                    None => None,
                }
            },
            None => None,
        }
    }

    /// The feedback message currently due for this mapping.
    ///
    /// Nothing is produced while feedback is disabled or no target is
    /// resolved, nor within the echo-suppression window after a control
    /// hit, nor when the target reports no value. Otherwise the target's
    /// current value runs through the mode's feedback direction and the
    /// source builds the message.
    pub fn feedback_if_enabled(&self, now_millis: u64, context: &TargetContext) -> (r: Option<
        RawMidiMessage,
    >)
        ensures
            r == spec_mapping_feedback(*self, now_millis, context.track_volumes@),
    {
        if !self.feedback_is_enabled {
            return None;
        }
        if !self.is_active {
            return None;
        }
        match self.time_of_last_control {
            Some(t) => {
                if now_millis >= t && now_millis - t <= self.echo_delay_millis {
                    return None;
                }
            },
            None => {},
        }
        let target_value = match &self.target {
            None => {
                return None;
            },
            Some(t) => t.current_value(context),
        };
        match target_value {
            None => None,
            Some(v) => {
                let modified = self.mode.feedback(v);
                self.source.feedback(modified)
            },
        }
    }

    /// The feedback message of this mapping's source for the minimum
    /// value: the "source reset" that turns an LED off.
    pub fn source_reset_feedback(&self) -> (r: Option<RawMidiMessage>)
        ensures
            r == spec_feedback_msg(self.spec_source(), 0),
    {
        self.source.feedback(UnitValue::min_value())
    }
}

/// The full processor mapping, split into the two thread-specific copies.
pub struct ProcessorMapping {
    id: MappingId,
    source: MidiSource,
    mode: Mode,
    target: Option<ReaperTarget>,
    control_is_enabled: bool,
    feedback_is_enabled: bool,
    prevent_echo_feedback: bool,
    activation_condition: ActivationCondition,
}

impl ProcessorMapping {
    pub closed spec fn spec_id(self) -> MappingId {
        self.id
    }

    pub closed spec fn spec_source(self) -> MidiSource {
        self.source
    }

    pub closed spec fn spec_mode(self) -> Mode {
        self.mode
    }

    pub closed spec fn spec_target(self) -> Option<ReaperTarget> {
        self.target
    }

    pub closed spec fn spec_control_is_enabled(self) -> bool {
        self.control_is_enabled
    }

    pub closed spec fn spec_feedback_is_enabled(self) -> bool {
        self.feedback_is_enabled
    }

    pub closed spec fn spec_prevent_echo_feedback(self) -> bool {
        self.prevent_echo_feedback
    }

    pub closed spec fn spec_activation_condition(self) -> ActivationCondition {
        self.activation_condition
    }

    pub fn new(
        id: MappingId,
        source: MidiSource,
        mode: Mode,
        target: Option<ReaperTarget>,
        control_is_enabled: bool,
        feedback_is_enabled: bool,
        prevent_echo_feedback: bool,
        activation_condition: ActivationCondition,
    ) -> (r: ProcessorMapping)
        ensures
            r.spec_id() == id,
            r.spec_source() == source,
            r.spec_mode() == mode,
            r.spec_target() == target,
            r.spec_control_is_enabled() == control_is_enabled,
            r.spec_feedback_is_enabled() == feedback_is_enabled,
            r.spec_prevent_echo_feedback() == prevent_echo_feedback,
            r.spec_activation_condition() == activation_condition,
    {
        ProcessorMapping {
            id,
            source,
            mode,
            target,
            control_is_enabled,
            feedback_is_enabled,
            prevent_echo_feedback,
            activation_condition,
        }
    }

    /// Splits the mapping into the real-time copy and the main copy; the
    /// main copy's feedback flag honours the global feedback switch, and
    /// every other field is carried over as it is.
    pub fn splinter(self, feedback_is_globally_enabled: bool, echo_delay_millis: u64) -> (r: (
        RealTimeProcessorMapping,
        MainProcessorMapping,
    ))
        ensures
            r.0.spec_id() == self.spec_id(),
            r.0.spec_source() == self.spec_source(),
            r.0.spec_control_is_enabled() == self.spec_control_is_enabled(),
            r.1.spec_id() == self.spec_id(),
            r.1.spec_source() == self.spec_source(),
            r.1.spec_mode() == self.spec_mode(),
            r.1.spec_target() == self.spec_target(),
            r.1.spec_control_is_enabled() == self.spec_control_is_enabled(),
            r.1.spec_feedback_is_enabled() == (self.spec_feedback_is_enabled()
                && feedback_is_globally_enabled),
            r.1.spec_prevent_echo_feedback() == self.spec_prevent_echo_feedback(),
            r.1.spec_activation_condition() == self.spec_activation_condition(),
            r.1.spec_echo_delay_millis() == echo_delay_millis,
            r.1.spec_is_active(),
            r.1.spec_time_of_last_control() is None,
    {
        let real_time = RealTimeProcessorMapping::new(self.id, self.source, self.control_is_enabled);
        let main = MainProcessorMapping::new(
            self.id,
            self.source,
            self.mode,
            self.target,
            self.control_is_enabled,
            self.feedback_is_enabled && feedback_is_globally_enabled,
            self.prevent_echo_feedback,
            self.activation_condition,
            echo_delay_millis,
        );
        (real_time, main)
    }
}

} // verus!
