//! The session: source of truth for mappings and groups.
//!
//! The session owns the mapping models of both compartments and the group
//! lists; processors only ever receive derived copies. Mutation goes
//! through methods, never direct field writes, and the learn flows are an
//! explicit state machine instead of implicit task wiring: idle, waiting
//! for a source capture, or waiting for a target capture, with explicit
//! cancellation.

use vstd::prelude::*;

use crate::mapping::{ActivationCondition, Compartment, MappingId, ProcessorMapping};
use crate::mode::Mode;
use crate::source::{MidiClockTransportMessage, MidiSource, SourceCharacter};
use crate::targets::{ReaperTarget, TargetContext};
use crate::units::{UnitValue, UNIT_DENOM};

verus! {

/// A virtual control element: an addressable knob/fader ("multi") or
/// button of the virtual surface.
#[derive(Clone, Copy, PartialEq, Eq, Structural, Debug, Hash)]
pub enum VirtualControlElement {
    Multi(u32),
    Button(u32),
}

impl VirtualControlElement {
    /// The element's index.
    pub fn index(&self) -> (r: u32)
        ensures
            (match *self {
                VirtualControlElement::Multi(i) => r == i,
                VirtualControlElement::Button(i) => r == i,
            }),
    {
        match self {
            VirtualControlElement::Multi(i) => *i,
            VirtualControlElement::Button(i) => *i,
        }
    }
}

/// A virtual source: reacts to control of a virtual control element.
#[derive(Clone, Copy, PartialEq, Eq, Structural, Debug, Hash)]
pub struct VirtualSource {
    pub element: VirtualControlElement,
}

impl VirtualSource {
    pub fn new(element: VirtualControlElement) -> (r: VirtualSource)
        ensures
            r.spec_control_element() == element,
    {
        VirtualSource { element }
    }

    pub closed spec fn spec_control_element(self) -> VirtualControlElement {
        self.element
    }

    pub fn control_element(&self) -> (r: VirtualControlElement)
        ensures
            r == self.spec_control_element(),
    {
        self.element
    }
}

/// A source of either kind: real MIDI or virtual.
#[derive(Clone, Copy, PartialEq, Eq, Structural, Debug, Hash)]
pub enum CompoundMappingSource {
    Midi(MidiSource),
    Virtual(VirtualSource),
}

/// The category of a source model.
#[derive(Clone, Copy, PartialEq, Eq, Structural, Debug, Hash)]
pub enum SourceCategory {
    Midi,
    Virtual,
}

impl Default for SourceCategory {
    fn default() -> (r: Self)
        ensures
            r is Midi,
    {
        SourceCategory::Midi
    }
}

/// The type of MIDI source a source model describes.
#[derive(Clone, Copy, PartialEq, Eq, Structural, Debug, Hash)]
pub enum MidiSourceType {
    ControlChangeValue,
    NoteVelocity,
    NoteKeyNumber,
    PitchBendChangeValue,
    ChannelPressureAmount,
    ProgramChangeNumber,
    ParameterNumberValue,
    PolyphonicKeyPressureAmount,
    ClockTempo,
    ClockTransport,
}

impl Default for MidiSourceType {
    fn default() -> (r: Self)
        ensures
            r is ControlChangeValue,
    {
        MidiSourceType::ControlChangeValue
    }
}

impl MidiSourceType {
    /// The type that describes a given source.
    pub fn from_source(source: &MidiSource) -> (r: MidiSourceType)
        ensures
            r == (match *source {
                MidiSource::NoteVelocity { .. } => MidiSourceType::NoteVelocity,
                MidiSource::NoteKeyNumber { .. } => MidiSourceType::NoteKeyNumber,
                MidiSource::PolyphonicKeyPressureAmount { .. } => MidiSourceType::PolyphonicKeyPressureAmount,
                MidiSource::ControlChangeValue { .. } => MidiSourceType::ControlChangeValue,
                MidiSource::ProgramChangeNumber { .. } => MidiSourceType::ProgramChangeNumber,
                MidiSource::ChannelPressureAmount { .. } => MidiSourceType::ChannelPressureAmount,
                MidiSource::PitchBendChangeValue { .. } => MidiSourceType::PitchBendChangeValue,
                MidiSource::ControlChange14BitValue { .. } => MidiSourceType::ControlChangeValue,
                MidiSource::ParameterNumberValue { .. } => MidiSourceType::ParameterNumberValue,
                MidiSource::ClockTempo => MidiSourceType::ClockTempo,
                MidiSource::ClockTransport { .. } => MidiSourceType::ClockTransport,
            }),
    {
        match source {
            MidiSource::NoteVelocity { .. } => MidiSourceType::NoteVelocity,
            MidiSource::NoteKeyNumber { .. } => MidiSourceType::NoteKeyNumber,
            MidiSource::PolyphonicKeyPressureAmount { .. } => {
                MidiSourceType::PolyphonicKeyPressureAmount
            },
            MidiSource::ControlChangeValue { .. } => MidiSourceType::ControlChangeValue,
            MidiSource::ProgramChangeNumber { .. } => MidiSourceType::ProgramChangeNumber,
            MidiSource::ChannelPressureAmount { .. } => MidiSourceType::ChannelPressureAmount,
            MidiSource::PitchBendChangeValue { .. } => MidiSourceType::PitchBendChangeValue,
            MidiSource::ControlChange14BitValue { .. } => MidiSourceType::ControlChangeValue,
            MidiSource::ParameterNumberValue { .. } => MidiSourceType::ParameterNumberValue,
            MidiSource::ClockTempo => MidiSourceType::ClockTempo,
            MidiSource::ClockTransport { .. } => MidiSourceType::ClockTransport,
        }
    }
}

/// The type of virtual control element a source model describes.
#[derive(Clone, Copy, PartialEq, Eq, Structural, Debug, Hash)]
pub enum VirtualControlElementType {
    Multi,
    Button,
}

impl Default for VirtualControlElementType {
    fn default() -> (r: Self)
        ensures
            r is Multi,
    {
        VirtualControlElementType::Multi
    }
}

impl VirtualControlElementType {
    pub fn from_source(source: &VirtualSource) -> (r: VirtualControlElementType)
        ensures
            (source.spec_control_element() is Multi) == (r is Multi),
            (source.spec_control_element() is Button) == (r is Button),
    {
        match source.control_element() {
            VirtualControlElement::Multi(_) => VirtualControlElementType::Multi,
            VirtualControlElement::Button(_) => VirtualControlElementType::Button,
        }
    }

    /// Builds the control element of this type at an index.
    pub fn create_control_element(self, index: u32) -> (r: VirtualControlElement)
        ensures
            (match self {
                VirtualControlElementType::Multi => r == VirtualControlElement::Multi(index),
                VirtualControlElementType::Button => r == VirtualControlElement::Button(index),
            }),
    {
        match self {
            VirtualControlElementType::Multi => VirtualControlElement::Multi(index),
            VirtualControlElementType::Button => VirtualControlElement::Button(index),
        }
    }
}

/// A model for creating sources: the editable form of a source, from which
/// the actual source is derived.
#[derive(Clone, Copy, PartialEq, Eq, Structural, Debug)]
pub struct SourceModel {
    pub category: SourceCategory,
    pub midi_source_type: MidiSourceType,
    pub control_element_type: VirtualControlElementType,
    pub control_element_index: u32,
    pub channel: Option<u8>,
    pub midi_message_number: Option<u8>,
    pub parameter_number_message_number: Option<u16>,
    pub custom_character: SourceCharacter,
    pub midi_clock_transport_message: MidiClockTransportMessage,
    pub is_registered: Option<bool>,
    pub is_14_bit: Option<bool>,
}

impl Default for SourceModel {
    fn default() -> (r: Self)
        ensures
            r == (SourceModel {
                category: SourceCategory::Midi,
                midi_source_type: MidiSourceType::ControlChangeValue,
                control_element_type: VirtualControlElementType::Multi,
                control_element_index: 0,
                channel: None,
                midi_message_number: None,
                parameter_number_message_number: None,
                custom_character: SourceCharacter::Range,
                midi_clock_transport_message: MidiClockTransportMessage::Start,
                is_registered: Some(false),
                is_14_bit: Some(false),
            }),
    {
        SourceModel {
            category: SourceCategory::Midi,
            midi_source_type: MidiSourceType::ControlChangeValue,
            control_element_type: VirtualControlElementType::Multi,
            control_element_index: 0,
            channel: None,
            midi_message_number: None,
            parameter_number_message_number: None,
            custom_character: SourceCharacter::Range,
            midi_clock_transport_message: MidiClockTransportMessage::Start,
            is_registered: Some(false),
            is_14_bit: Some(false),
        }
    }
}

/// The source a source model currently describes, as a spec.
pub open spec fn spec_created_source(m: SourceModel) -> CompoundMappingSource {
    match m.category {
        SourceCategory::Midi => CompoundMappingSource::Midi(
            match m.midi_source_type {
                MidiSourceType::NoteVelocity => MidiSource::NoteVelocity {
                    channel: m.channel,
                    key_number: m.midi_message_number,
                },
                MidiSourceType::NoteKeyNumber => MidiSource::NoteKeyNumber { channel: m.channel },
                MidiSourceType::PolyphonicKeyPressureAmount => {
                    MidiSource::PolyphonicKeyPressureAmount {
                        channel: m.channel,
                        key_number: m.midi_message_number,
                    }
                },
                MidiSourceType::ControlChangeValue => {
                    if m.is_14_bit == Some(true) {
                        MidiSource::ControlChange14BitValue {
                            channel: m.channel,
                            msb_controller_number: m.midi_message_number,
                        }
                    } else {
                        MidiSource::ControlChangeValue {
                            channel: m.channel,
                            controller_number: m.midi_message_number,
                            custom_character: m.custom_character,
                        }
                    }
                },
                MidiSourceType::ProgramChangeNumber => MidiSource::ProgramChangeNumber {
                    channel: m.channel,
                },
                MidiSourceType::ChannelPressureAmount => MidiSource::ChannelPressureAmount {
                    channel: m.channel,
                },
                MidiSourceType::PitchBendChangeValue => MidiSource::PitchBendChangeValue {
                    channel: m.channel,
                },
                MidiSourceType::ParameterNumberValue => MidiSource::ParameterNumberValue {
                    channel: m.channel,
                    number: m.parameter_number_message_number,
                    is_14_bit: m.is_14_bit,
                    is_registered: m.is_registered,
                },
                MidiSourceType::ClockTempo => MidiSource::ClockTempo,
                MidiSourceType::ClockTransport => MidiSource::ClockTransport {
                    message: m.midi_clock_transport_message,
                },
            },
        ),
        SourceCategory::Virtual => CompoundMappingSource::Virtual(
            VirtualSource {
                element: match m.control_element_type {
                    VirtualControlElementType::Multi => VirtualControlElement::Multi(
                        m.control_element_index,
                    ),
                    VirtualControlElementType::Button => VirtualControlElement::Button(
                        m.control_element_index,
                    ),
                },
            },
        ),
    }
}

impl SourceModel {
    /// Creates the source that this model currently describes.
    pub fn create_source(&self) -> (r: CompoundMappingSource)
        ensures
            r == spec_created_source(*self),
    {
        match self.category {
            SourceCategory::Midi => {
                let channel = self.channel;
                let source = match self.midi_source_type {
                    MidiSourceType::NoteVelocity => MidiSource::NoteVelocity {
                        channel,
                        key_number: self.midi_message_number,
                    },
                    MidiSourceType::NoteKeyNumber => MidiSource::NoteKeyNumber { channel },
                    MidiSourceType::PolyphonicKeyPressureAmount => {
                        MidiSource::PolyphonicKeyPressureAmount {
                            channel,
                            key_number: self.midi_message_number,
                        }
                    },
                    MidiSourceType::ControlChangeValue => {
                        if self.is_14_bit == Some(true) {
                            MidiSource::ControlChange14BitValue {
                                channel,
                                msb_controller_number: self.midi_message_number,
                            }
                        } else {
                            MidiSource::ControlChangeValue {
                                channel,
                                controller_number: self.midi_message_number,
                                custom_character: self.custom_character,
                            }
                        }
                    },
                    MidiSourceType::ProgramChangeNumber => MidiSource::ProgramChangeNumber {
                        channel,
                    },
                    MidiSourceType::ChannelPressureAmount => MidiSource::ChannelPressureAmount {
                        channel,
                    },
                    MidiSourceType::PitchBendChangeValue => MidiSource::PitchBendChangeValue {
                        channel,
                    },
                    MidiSourceType::ParameterNumberValue => MidiSource::ParameterNumberValue {
                        channel,
                        number: self.parameter_number_message_number,
                        is_14_bit: self.is_14_bit,
                        is_registered: self.is_registered,
                    },
                    MidiSourceType::ClockTempo => MidiSource::ClockTempo,
                    MidiSourceType::ClockTransport => MidiSource::ClockTransport {
                        message: self.midi_clock_transport_message,
                    },
                };
                CompoundMappingSource::Midi(source)
            },
            SourceCategory::Virtual => {
                let element = self.control_element_type.create_control_element(
                    self.control_element_index,
                );
                CompoundMappingSource::Virtual(VirtualSource::new(element))
            },
        }
    }

    /// Applies a captured source to the model, so that
    /// [`Self::create_source`] describes it again.
    pub fn apply_from_source(&mut self, source: &CompoundMappingSource)
        ensures
            spec_created_source(*final (self)) == *source,
    {
        match source {
            CompoundMappingSource::Midi(s) => {
                self.category = SourceCategory::Midi;
                self.midi_source_type = MidiSourceType::from_source(s);
                match s {
                    MidiSource::NoteVelocity { channel, key_number }
                    | MidiSource::PolyphonicKeyPressureAmount { channel, key_number } => {
                        self.channel = *channel;
                        self.midi_message_number = *key_number;
                    },
                    MidiSource::ControlChangeValue {
                        channel,
                        controller_number,
                        custom_character,
                    } => {
                        self.channel = *channel;
                        self.is_14_bit = Some(false);
                        self.midi_message_number = *controller_number;
                        self.custom_character = *custom_character;
                    },
                    MidiSource::ControlChange14BitValue { channel, msb_controller_number } => {
                        self.channel = *channel;
                        self.is_14_bit = Some(true);
                        self.midi_message_number = *msb_controller_number;
                    },
                    MidiSource::ParameterNumberValue {
                        channel,
                        number,
                        is_14_bit,
                        is_registered,
                    } => {
                        self.channel = *channel;
                        self.parameter_number_message_number = *number;
                        self.is_14_bit = *is_14_bit;
                        self.is_registered = *is_registered;
                    },
                    MidiSource::ClockTransport { message } => {
                        self.midi_clock_transport_message = *message;
                    },
                    MidiSource::NoteKeyNumber { channel }
                    | MidiSource::ProgramChangeNumber { channel }
                    | MidiSource::ChannelPressureAmount { channel }
                    | MidiSource::PitchBendChangeValue { channel } => {
                        self.channel = *channel;
                    },
                    MidiSource::ClockTempo => {},
                }
            },
            CompoundMappingSource::Virtual(s) => {
                self.category = SourceCategory::Virtual;
                self.control_element_type = VirtualControlElementType::from_source(s);
                self.control_element_index = s.control_element().index();
            },
        }
    }

    /// Whether the model's source kind has a channel.
    pub fn supports_channel(&self) -> (r: bool)
        ensures
            r == (self.category is Midi && !(self.midi_source_type is ClockTempo
                || self.midi_source_type is ClockTransport)),
    {
        if !(self.category == SourceCategory::Midi) {
            return false;
        }
        match self.midi_source_type {
            MidiSourceType::ClockTempo | MidiSourceType::ClockTransport => false,
            _ => true,
        }
    }

    /// Whether the model's source kind has a 7-bit message number.
    pub fn supports_midi_message_number(&self) -> (r: bool)
        ensures
            r == (self.category is Midi && (self.midi_source_type is ControlChangeValue
                || self.midi_source_type is NoteVelocity
                || self.midi_source_type is PolyphonicKeyPressureAmount)),
    {
        self.category == SourceCategory::Midi && match self.midi_source_type {
            MidiSourceType::ControlChangeValue
            | MidiSourceType::NoteVelocity
            | MidiSourceType::PolyphonicKeyPressureAmount => true,
            _ => false,
        }
    }

    /// Whether the model's source kind can be 14-bit.
    pub fn supports_14_bit(&self) -> (r: bool)
        ensures
            r == (self.category is Midi && (self.midi_source_type is ControlChangeValue
                || self.midi_source_type is ParameterNumberValue)),
    {
        self.category == SourceCategory::Midi && match self.midi_source_type {
            MidiSourceType::ControlChangeValue | MidiSourceType::ParameterNumberValue => true,
            _ => false,
        }
    }

    /// Whether the model's source kind has a parameter number.
    pub fn supports_parameter_number_message_number(&self) -> (r: bool)
        ensures
            r == (self.category is Midi && self.midi_source_type is ParameterNumberValue),
    {
        self.category == SourceCategory::Midi && self.midi_source_type
            == MidiSourceType::ParameterNumberValue
    }

    /// Whether the model's source kind distinguishes registered parameter
    /// numbers.
    pub fn supports_is_registered(&self) -> (r: bool)
        ensures
            r == (self.category is Midi && self.midi_source_type is ParameterNumberValue),
    {
        self.supports_parameter_number_message_number()
    }

    /// Whether the model's source kind has a custom character.
    pub fn supports_custom_character(&self) -> (r: bool)
        ensures
            r == (self.category is Midi && self.midi_source_type is ControlChangeValue
                && self.is_14_bit == Some(false)),
    {
        self.category == SourceCategory::Midi && self.midi_source_type
            == MidiSourceType::ControlChangeValue && self.is_14_bit == Some(false)
    }

    /// Whether the model's source kind has a clock transport message type.
    pub fn supports_midi_clock_transport_message_type(&self) -> (r: bool)
        ensures
            r == (self.category is Midi && self.midi_source_type is ClockTransport),
    {
        self.category == SourceCategory::Midi && self.midi_source_type
            == MidiSourceType::ClockTransport
    }

    /// Whether the model's source kind has a virtual control element index.
    pub fn supports_virtual_control_element_index(&self) -> (r: bool)
        ensures
            r == (self.category is Virtual),
    {
        self.category == SourceCategory::Virtual
    }
}

/// Identifier of a group, unique per compartment.
#[derive(Clone, Copy, PartialEq, Eq, Structural, Debug, Hash)]
pub struct GroupId {
    pub raw: u64,
}

impl GroupId {
    /// The virtual default group that always exists.
    pub fn default_group() -> (r: GroupId)
        ensures
            r.raw == 0,
    {
        GroupId { raw: 0 }
    }
}

/// A named group that mappings reference for activation and exclusivity.
#[derive(Clone, PartialEq, Eq, Debug)]
pub struct Group {
    pub id: GroupId,
    pub name: String,
}

/// The editable settings of a mode: the ranges and flags from which the
/// processing mode is built.
#[derive(Clone, Copy, PartialEq, Eq, Structural, Debug)]
pub struct ModeModel {
    /// Numerators over the unit denominator.
    pub source_min_raw: u32,
    pub source_max_raw: u32,
    pub target_min_raw: u32,
    pub target_max_raw: u32,
    pub reverse: bool,
    pub step_size_raw: u32,
}

impl Default for ModeModel {
    fn default() -> (r: Self)
        ensures
            r == (ModeModel {
                source_min_raw: 0,
                source_max_raw: crate::units::UNIT_DENOM,
                target_min_raw: 0,
                target_max_raw: crate::units::UNIT_DENOM,
                reverse: false,
                step_size_raw: 10_000,
            }),
    {
        ModeModel {
            source_min_raw: 0,
            source_max_raw: crate::units::UNIT_DENOM,
            target_min_raw: 0,
            target_max_raw: crate::units::UNIT_DENOM,
            reverse: false,
            step_size_raw: 10_000,
        }
    }
}

impl ModeModel {
    /// Whether the stored numerators form valid ordered ranges.
    pub open spec fn spec_is_valid(self) -> bool {
        &&& self.source_min_raw <= self.source_max_raw <= UNIT_DENOM
        &&& self.target_min_raw <= self.target_max_raw <= UNIT_DENOM
        &&& self.step_size_raw <= UNIT_DENOM
    }

    /// Creates the processing mode that this model describes.
    pub fn create_mode(&self) -> (r: Mode)
        requires
            self.spec_is_valid(),
        ensures
            r.spec_source_min() == self.source_min_raw as int,
            r.spec_source_max() == self.source_max_raw as int,
            r.spec_target_min() == self.target_min_raw as int,
            r.spec_target_max() == self.target_max_raw as int,
            r.spec_reverse() == self.reverse,
            r.spec_step_size() == self.step_size_raw as int,
    {
        Mode::new(
            UnitValue::new_clamped(self.source_min_raw),
            UnitValue::new_clamped(self.source_max_raw),
            UnitValue::new_clamped(self.target_min_raw),
            UnitValue::new_clamped(self.target_max_raw),
            self.reverse,
            UnitValue::new_clamped(self.step_size_raw),
        )
    }
}

/// The editable model of one mapping.
pub struct MappingModel {
    pub id: MappingId,
    pub compartment: Compartment,
    pub group_id: GroupId,
    pub name: String,
    pub source_model: SourceModel,
    pub mode_model: ModeModel,
    pub target_model: crate::target_api::Target,
    pub control_is_enabled: bool,
    pub feedback_is_enabled: bool,
    pub prevent_echo_feedback: bool,
    pub activation_condition: ActivationCondition,
}

impl MappingModel {
    /// A fresh mapping with default settings.
    pub fn new(compartment: Compartment, group_id: GroupId, id: MappingId) -> (r: MappingModel)
        ensures
            r.id == id,
            r.compartment == compartment,
            r.group_id == group_id,
            r.name@.len() == 0,
            r.source_model == (SourceModel {
                category: SourceCategory::Midi,
                midi_source_type: MidiSourceType::ControlChangeValue,
                control_element_type: VirtualControlElementType::Multi,
                control_element_index: 0,
                channel: None,
                midi_message_number: None,
                parameter_number_message_number: None,
                custom_character: SourceCharacter::Range,
                midi_clock_transport_message: MidiClockTransportMessage::Start,
                is_registered: Some(false),
                is_14_bit: Some(false),
            }),
            r.control_is_enabled,
            r.feedback_is_enabled,
            !r.prevent_echo_feedback,
            r.activation_condition is Always,
    {
        MappingModel {
            id,
            compartment,
            group_id,
            name: String::new(),
            source_model: SourceModel::default(),
            mode_model: ModeModel::default(),
            target_model: crate::target_api::Target::default(),
            control_is_enabled: true,
            feedback_is_enabled: true,
            prevent_echo_feedback: false,
            activation_condition: ActivationCondition::Always,
        }
    }

    /// A copy of this mapping under a fresh id; everything else is kept.
    pub fn duplicate(&self, new_id: MappingId) -> (r: MappingModel)
        ensures
            r.id == new_id,
            r.compartment == self.compartment,
            r.group_id == self.group_id,
            r.name@ == self.name@,
            r.source_model == self.source_model,
            r.mode_model == self.mode_model,
            r.control_is_enabled == self.control_is_enabled,
            r.feedback_is_enabled == self.feedback_is_enabled,
            r.prevent_echo_feedback == self.prevent_echo_feedback,
            r.activation_condition == self.activation_condition,
    {
        MappingModel {
            id: new_id,
            compartment: self.compartment,
            group_id: self.group_id,
            name: self.name.clone(),
            source_model: self.source_model,
            mode_model: self.mode_model,
            target_model: self.target_model.clone(),
            control_is_enabled: self.control_is_enabled,
            feedback_is_enabled: self.feedback_is_enabled,
            prevent_echo_feedback: self.prevent_echo_feedback,
            activation_condition: self.activation_condition,
        }
    }
}

/// The full content of one compartment, for import, export and reset.
pub struct CompartmentModel {
    pub mappings: Vec<MappingModel>,
    pub groups: Vec<Group>,
}

impl MappingModel {
    /// Derives the processor copy of this mapping: the source the source
    /// model describes, the mode the mode model describes, the target
    /// resolved against the project state — an unresolved target leaves
    /// the mapping configured but targetless — and the flags and
    /// activation condition carried over. A virtual source does not
    /// arrive as raw MIDI, so it derives the never-matching placeholder
    /// source.
    pub fn create_processor_mapping(&self, context: &TargetContext) -> (r: ProcessorMapping)
        requires
            self.mode_model.spec_is_valid(),
        ensures
            r.spec_id() == self.id,
            (match spec_created_source(self.source_model) {
                CompoundMappingSource::Midi(midi) => r.spec_source() == midi,
                CompoundMappingSource::Virtual(_) => r.spec_source()
                    == spec_virtual_placeholder_source(),
            }),
            r.spec_mode().spec_source_min() == self.mode_model.source_min_raw as int,
            r.spec_mode().spec_source_max() == self.mode_model.source_max_raw as int,
            r.spec_mode().spec_target_min() == self.mode_model.target_min_raw as int,
            r.spec_mode().spec_target_max() == self.mode_model.target_max_raw as int,
            r.spec_mode().spec_reverse() == self.mode_model.reverse,
            r.spec_mode().spec_step_size() == self.mode_model.step_size_raw as int,
            r.spec_target() == crate::targets::spec_resolved_target(
                &self.target_model,
                context,
            ),
            r.spec_control_is_enabled() == self.control_is_enabled,
            r.spec_feedback_is_enabled() == self.feedback_is_enabled,
            r.spec_prevent_echo_feedback() == self.prevent_echo_feedback,
            r.spec_activation_condition() == self.activation_condition,
    {
        let source = match self.source_model.create_source() {
            CompoundMappingSource::Midi(midi) => midi,
            CompoundMappingSource::Virtual(_) => virtual_placeholder_source(),
        };
        let mode = self.mode_model.create_mode();
        let target = match crate::targets::resolve_target(&self.target_model, context) {
            Ok(t) => Some(t),
            Err(_) => None,
        };
        ProcessorMapping::new(
            self.id,
            source,
            mode,
            target,
            self.control_is_enabled,
            self.feedback_is_enabled,
            self.prevent_echo_feedback,
            self.activation_condition,
        )
    }
}

/// The MIDI source that stands in for a virtual source in the processor
/// copies: a source that matches nothing, since virtual control does not
/// arrive as raw MIDI.
pub open spec fn spec_virtual_placeholder_source() -> MidiSource {
    MidiSource::ControlChange14BitValue { channel: None, msb_controller_number: None }
}

fn virtual_placeholder_source() -> (r: MidiSource)
    ensures
        r == spec_virtual_placeholder_source(),
{
    MidiSource::ControlChange14BitValue { channel: None, msb_controller_number: None }
}

/// Whether `copy` is `original` under a fresh id: every field carried
/// over except the id. The target model is carried too; its equality is
/// not stated here because cloning the persistent target description is
/// opaque to the verifier.
/// The mapping list with every entry of the given id removed, order kept.
pub open spec fn spec_without_id(ms: Seq<MappingModel>, mapping_id: MappingId) -> Seq<MappingModel>
    decreases ms.len(),
{
    if ms.len() == 0 {
        Seq::empty()
    } else if ms[0].id == mapping_id {
        spec_without_id(ms.subrange(1, ms.len() as int), mapping_id)
    } else {
        seq![ms[0]] + spec_without_id(ms.subrange(1, ms.len() as int), mapping_id)
    }
}

/// Removal leaves no entry of the removed id behind.
proof fn lemma_without_id_free(ms: Seq<MappingModel>, mapping_id: MappingId)
    ensures
        forall|i: int|
            0 <= i < spec_without_id(ms, mapping_id).len() ==> #[trigger] spec_without_id(
                ms,
                mapping_id,
            )[i].id != mapping_id,
    decreases ms.len(),
{
    if ms.len() > 0 {
        lemma_without_id_free(ms.subrange(1, ms.len() as int), mapping_id);
    }
}

/// The group list with the given group removed, order kept.
pub open spec fn spec_groups_without(gs: Seq<Group>, group_id: GroupId) -> Seq<Group>
    decreases gs.len(),
{
    if gs.len() == 0 {
        Seq::empty()
    } else if gs[0].id == group_id {
        spec_groups_without(gs.subrange(1, gs.len() as int), group_id)
    } else {
        seq![gs[0]] + spec_groups_without(gs.subrange(1, gs.len() as int), group_id)
    }
}

/// A mapping moved to the default group, everything else kept.
pub open spec fn spec_reassigned(m: MappingModel) -> MappingModel {
    MappingModel { group_id: GroupId { raw: 0 }, ..m }
}

/// The mapping list after a group's removal: its members are deleted when
/// `delete` is set, else moved to the default group; order and everything
/// else are kept.
pub open spec fn spec_without_group(
    ms: Seq<MappingModel>,
    group_id: GroupId,
    delete: bool,
) -> Seq<MappingModel>
    decreases ms.len(),
{
    if ms.len() == 0 {
        Seq::empty()
    } else {
        let tail = spec_without_group(ms.subrange(1, ms.len() as int), group_id, delete);
        if ms[0].group_id == group_id {
            if delete {
                tail
            } else {
                seq![spec_reassigned(ms[0])] + tail
            }
        } else {
            seq![ms[0]] + tail
        }
    }
}

pub open spec fn spec_duplicated(
    original: MappingModel,
    copy: MappingModel,
    new_id: MappingId,
) -> bool {
    &&& copy.id == new_id
    &&& copy.compartment == original.compartment
    &&& copy.group_id == original.group_id
    &&& copy.name@ == original.name@
    &&& copy.source_model == original.source_model
    &&& copy.mode_model == original.mode_model
    &&& copy.control_is_enabled == original.control_is_enabled
    &&& copy.feedback_is_enabled == original.feedback_is_enabled
    &&& copy.prevent_echo_feedback == original.prevent_echo_feedback
    &&& copy.activation_condition == original.activation_condition
}

/// The learn flows as an explicit state machine: idle, waiting for a
/// source capture, or waiting for a target capture. Cancelling means
/// returning to idle; nothing is implicit in task lifetimes.
#[derive(Clone, Copy, PartialEq, Eq, Structural, Debug)]
pub enum LearnState {
    Idle,
    LearningSource { compartment: Compartment, mapping_id: MappingId },
    LearningTarget { compartment: Compartment, mapping_id: MappingId },
    /// Learning a whole batch: after each captured source a fresh mapping
    /// is added and its source is learned next, until the flow is stopped.
    LearningManySources { compartment: Compartment, mapping_id: MappingId, group_id: GroupId },
}

/// The session.
pub struct Session {
    controller_mappings: Vec<MappingModel>,
    main_mappings: Vec<MappingModel>,
    controller_groups: Vec<Group>,
    main_groups: Vec<Group>,
    learn_state: LearnState,
}

impl Session {
    pub closed spec fn spec_mappings(self, compartment: Compartment) -> Seq<MappingModel> {
        match compartment {
            Compartment::Controller => self.controller_mappings@,
            Compartment::Main => self.main_mappings@,
        }
    }

    pub closed spec fn spec_groups(self, compartment: Compartment) -> Seq<Group> {
        match compartment {
            Compartment::Controller => self.controller_groups@,
            Compartment::Main => self.main_groups@,
        }
    }

    pub closed spec fn spec_learn_state(self) -> LearnState {
        self.learn_state
    }

    pub fn new() -> (r: Session)
        ensures
            r.spec_mappings(Compartment::Controller).len() == 0,
            r.spec_mappings(Compartment::Main).len() == 0,
            r.spec_groups(Compartment::Controller).len() == 0,
            r.spec_groups(Compartment::Main).len() == 0,
            r.spec_learn_state() is Idle,
    {
        Session {
            controller_mappings: Vec::new(),
            main_mappings: Vec::new(),
            controller_groups: Vec::new(),
            main_groups: Vec::new(),
            learn_state: LearnState::Idle,
        }
    }

    pub fn mapping_count(&self, compartment: Compartment) -> (r: usize)
        ensures
            r == self.spec_mappings(compartment).len(),
    {
        match compartment {
            Compartment::Controller => self.controller_mappings.len(),
            Compartment::Main => self.main_mappings.len(),
        }
    }

    /// The position of the mapping with the given id.
    pub fn index_of_mapping(&self, compartment: Compartment, mapping_id: MappingId) -> (r: Option<
        usize,
    >)
        ensures
            (match r {
                Some(i) => i < self.spec_mappings(compartment).len() && self.spec_mappings(
                    compartment,
                )[i as int].id == mapping_id && (forall|j: int|
                    0 <= j < i ==> #[trigger] self.spec_mappings(compartment)[j].id != mapping_id),
                None => forall|i: int|
                    0 <= i < self.spec_mappings(compartment).len() ==> #[trigger] self.spec_mappings(
                        compartment,
                    )[i].id != mapping_id,
            }),
    {
        let mappings = match compartment {
            Compartment::Controller => &self.controller_mappings,
            Compartment::Main => &self.main_mappings,
        };
        let mut i: usize = 0;
        while i < mappings.len()
            invariant
                i <= mappings@.len(),
                mappings@ == self.spec_mappings(compartment),
                forall|j: int| 0 <= j < i ==> #[trigger] mappings@[j].id != mapping_id,
            decreases mappings@.len() - i,
        {
            if mappings[i].id == mapping_id {
                return Some(i);
            }
            i += 1;
        }
        None
    }

    /// The first mapping whose source reacts to the given short message.
    /// Virtual sources react to virtual control, not to raw MIDI, so they
    /// never match here.
    pub fn find_mapping_with_source(
        &self,
        compartment: Compartment,
        msg: crate::midi::RawMidiMessage,
    ) -> (r: Option<usize>)
        ensures
            (match r {
                Some(i) => {
                    &&& i < self.spec_mappings(compartment).len()
                    &&& (spec_created_source(
                        self.spec_mappings(compartment)[i as int].source_model,
                    ) matches CompoundMappingSource::Midi(source)
                        && crate::source::spec_source_matches(source, msg))
                },
                None => forall|i: int|
                    0 <= i < self.spec_mappings(compartment).len()
                        ==> !(#[trigger] spec_created_source(
                        self.spec_mappings(compartment)[i].source_model,
                    ) matches CompoundMappingSource::Midi(source)
                        && crate::source::spec_source_matches(source, msg)),
            }),
    {
        let mappings = match compartment {
            Compartment::Controller => &self.controller_mappings,
            Compartment::Main => &self.main_mappings,
        };
        let mut i: usize = 0;
        while i < mappings.len()
            invariant
                i <= mappings@.len(),
                mappings@ == self.spec_mappings(compartment),
                forall|j: int|
                    0 <= j < i ==> !(#[trigger] spec_created_source(mappings@[j].source_model)
                        matches CompoundMappingSource::Midi(source)
                        && crate::source::spec_source_matches(source, msg)),
            decreases mappings@.len() - i,
        {
            let source = mappings[i].source_model.create_source();
            match source {
                CompoundMappingSource::Midi(midi_source) => {
                    if midi_source.control(msg).is_some() {
                        return Some(i);
                    }
                },
                CompoundMappingSource::Virtual(_) => {},
            }
            i += 1;
        }
        None
    }

    /// Adds a fresh default mapping to a compartment. Controller mappings
    /// get a virtual target at the next free control element index, which
    /// the caller derives with
    /// [`Self::get_next_control_element_index`].
    pub fn add_default_mapping(
        &mut self,
        compartment: Compartment,
        initial_group_id: GroupId,
        id: MappingId,
    ) -> (r: usize)
        ensures
            final (self).spec_mappings(compartment).len() == old(self).spec_mappings(
                compartment,
            ).len() + 1,
            r == old(self).spec_mappings(compartment).len(),
            final (self).spec_mappings(compartment).last().id == id,
            final (self).spec_mappings(compartment).last().group_id == initial_group_id,
            forall|i: int|
                0 <= i < old(self).spec_mappings(compartment).len() ==> final (self).spec_mappings(compartment)[i] == old(self).spec_mappings(compartment)[i],
            final (self).spec_learn_state() == old(self).spec_learn_state(),
    {
        let model = MappingModel::new(compartment, initial_group_id, id);
        let mappings = match compartment {
            Compartment::Controller => &mut self.controller_mappings,
            Compartment::Main => &mut self.main_mappings,
        };
        let index = mappings.len();
        mappings.push(model);
        index
    }

    /// Inserts a batch of mappings at a position, keeping their order;
    /// a position past the end appends. The list around the insertion
    /// point stays as it was.
    pub fn insert_mappings_at(
        &mut self,
        compartment: Compartment,
        index: usize,
        mappings: Vec<MappingModel>,
    )
        ensures
            ({
                let pre = old(self).spec_mappings(compartment);
                let base = if index <= pre.len() {
                    index as int
                } else {
                    pre.len() as int
                };
                final (self).spec_mappings(compartment) == pre.take(base) + mappings@ + pre.skip(
                    base,
                )
            }),
            final (self).spec_mappings(compartment).len() == old(self).spec_mappings(
                compartment,
            ).len() + mappings@.len(),
            forall|c: Compartment|
                c != compartment ==> final (self).spec_mappings(c) == old(self).spec_mappings(c),
            forall|c: Compartment| final (self).spec_groups(c) == old(self).spec_groups(c),
            final (self).spec_learn_state() == old(self).spec_learn_state(),
    {
        let list = match compartment {
            Compartment::Controller => &mut self.controller_mappings,
            Compartment::Main => &mut self.main_mappings,
        };
        let ghost before = list@;
        let base = if index <= list.len() {
            index
        } else {
            list.len()
        };
        let mut remaining = mappings;
        let ghost ms = remaining@;
        let total: usize = remaining.len();
        let mut offset: usize = 0;
        let ghost n0 = list@.len();
        proof {
            assert(list@ =~= before.take(base as int) + ms.take(0) + before.skip(base as int));
        }
        while remaining.len() > 0
            invariant
                offset + remaining@.len() == total,
                total == ms.len(),
                remaining@ == ms.skip(offset as int),
                list@.len() == n0 + offset,
                n0 == before.len(),
                base + offset <= list@.len(),
                base <= before.len(),
                list@ == before.take(base as int) + ms.take(offset as int) + before.skip(
                    base as int,
                ),
            decreases remaining@.len(),
        {
            let ghost list_pre = list@;
            let m = remaining.remove(0);
            proof {
                assert(ms.skip(offset as int)[0] == ms[offset as int]);
                assert(remaining@ =~= ms.skip(offset + 1));
            }
            let cur = list.len();
            assert(base + offset <= cur);
            list.insert(base + offset, m);
            proof {
                assert(ms.take(offset + 1) =~= ms.take(offset as int).push(ms[offset as int]));
                assert(list@ =~= before.take(base as int) + ms.take(offset + 1) + before.skip(
                    base as int,
                ));
            }
            offset += 1;
        }
        proof {
            assert(ms.take(total as int) =~= ms);
        }
    }

    /// Whether some controller mapping uses a virtual control element of
    /// the given type and index.
    pub open spec fn spec_element_index_used(
        self,
        element_type: VirtualControlElementType,
        idx: u32,
    ) -> bool {
        exists|i: int|
            0 <= i < self.spec_mappings(Compartment::Controller).len() && {
                let m = #[trigger] self.spec_mappings(Compartment::Controller)[i];
                &&& m.source_model.category == SourceCategory::Virtual
                &&& m.source_model.control_element_type == element_type
                &&& m.source_model.control_element_index == idx
            }
    }

    /// The next free virtual control element index for a type: one past
    /// the highest index in use (saturating at the largest index), or 0
    /// when none is in use.
    pub fn get_next_control_element_index(&self, element_type: VirtualControlElementType) -> (r:
        u32)
        ensures
            (forall|idx: u32| !self.spec_element_index_used(element_type, idx)) ==> r == 0,
            (exists|idx: u32| self.spec_element_index_used(element_type, idx)) ==> exists|
                top: u32,
            |
                {
                    &&& #[trigger] self.spec_element_index_used(element_type, top)
                    &&& (forall|idx: u32|
                        self.spec_element_index_used(element_type, idx) ==> idx <= top)
                    &&& r == (if top < 0xffff_ffffu32 {
                        (top + 1) as u32
                    } else {
                        top
                    })
                },
    {
        let mappings = &self.controller_mappings;
        let mut max_so_far: Option<u32> = None;
        let mut i: usize = 0;
        while i < mappings.len()
            invariant
                i <= mappings@.len(),
                mappings@ == self.spec_mappings(Compartment::Controller),
                (match max_so_far {
                    None => forall|k: int|
                        0 <= k < i ==> !{
                            let m = #[trigger] mappings@[k];
                            &&& m.source_model.category == SourceCategory::Virtual
                            &&& m.source_model.control_element_type == element_type
                        },
                    Some(current) => {
                        &&& exists|k: int|
                            0 <= k < i && {
                                let m = #[trigger] mappings@[k];
                                &&& m.source_model.category == SourceCategory::Virtual
                                &&& m.source_model.control_element_type == element_type
                                &&& m.source_model.control_element_index == current
                            }
                        &&& forall|k: int|
                            0 <= k < i ==> {
                                let m = #[trigger] mappings@[k];
                                (m.source_model.category == SourceCategory::Virtual
                                    && m.source_model.control_element_type == element_type)
                                    ==> m.source_model.control_element_index <= current
                            }
                    },
                }),
            decreases mappings@.len() - i,
        {
            let m = &mappings[i];
            if m.source_model.category == SourceCategory::Virtual && m.source_model.control_element_type == element_type {
                let idx = m.source_model.control_element_index;
                max_so_far = match max_so_far {
                    None => Some(idx),
                    Some(current) => if idx > current {
                        Some(idx)
                    } else {
                        Some(current)
                    },
                };
            }
            i += 1;
        }
        proof {
            match max_so_far {
                None => {
                    assert forall|idx: u32| !self.spec_element_index_used(element_type, idx) by {
                        if self.spec_element_index_used(element_type, idx) {
                            let k = choose|k: int|
                                0 <= k < self.spec_mappings(Compartment::Controller).len() && {
                                    let m = #[trigger] self.spec_mappings(
                                        Compartment::Controller,
                                    )[k];
                                    &&& m.source_model.category == SourceCategory::Virtual
                                    &&& m.source_model.control_element_type == element_type
                                    &&& m.source_model.control_element_index == idx
                                };
                            assert(mappings@[k] == self.spec_mappings(Compartment::Controller)[k]);
                        }
                    }
                },
                Some(current) => {
                    assert(self.spec_element_index_used(element_type, current));
                    assert forall|idx: u32|
                        self.spec_element_index_used(element_type, idx) implies idx
                        <= current by {
                        let k = choose|k: int|
                            0 <= k < self.spec_mappings(Compartment::Controller).len() && {
                                let m = #[trigger] self.spec_mappings(Compartment::Controller)[k];
                                &&& m.source_model.category == SourceCategory::Virtual
                                &&& m.source_model.control_element_type == element_type
                                &&& m.source_model.control_element_index == idx
                            };
                        assert(mappings@[k] == self.spec_mappings(Compartment::Controller)[k]);
                    }
                },
            }
        }
        match max_so_far {
            Some(i) => if i < 0xffff_ffff {
                i + 1
            } else {
                i
            },
            None => 0,
        }
    }

    /// Removes the mapping with the given id; a stale id changes nothing.
    /// Removing also stops any learn flow. The list keeps every other
    /// mapping, in order.
    pub fn remove_mapping(&mut self, compartment: Compartment, mapping_id: MappingId)
        ensures
            final (self).spec_mappings(compartment) == spec_without_id(
                old(self).spec_mappings(compartment),
                mapping_id,
            ),
            forall|i: int|
                0 <= i < final (self).spec_mappings(compartment).len() ==> #[trigger] final (self).spec_mappings(compartment)[i].id != mapping_id,
            forall|c: Compartment|
                c != compartment ==> final (self).spec_mappings(c) == old(self).spec_mappings(c),
            forall|c: Compartment| final (self).spec_groups(c) == old(self).spec_groups(c),
            final (self).spec_learn_state() is Idle,
    {
        self.learn_state = LearnState::Idle;
        let mappings = match compartment {
            Compartment::Controller => &mut self.controller_mappings,
            Compartment::Main => &mut self.main_mappings,
        };
        let ghost before = mappings@;
        let mut kept: Vec<MappingModel> = Vec::new();
        let mut source: Vec<MappingModel> = Vec::new();
        core::mem::swap(&mut source, mappings);
        proof {
            assert(kept@ + spec_without_id(source@, mapping_id) =~= spec_without_id(
                before,
                mapping_id,
            ));
        }
        while source.len() > 0
            invariant
                forall|i: int| 0 <= i < kept@.len() ==> #[trigger] kept@[i].id != mapping_id,
                kept@ + spec_without_id(source@, mapping_id) == spec_without_id(
                    before,
                    mapping_id,
                ),
            decreases source@.len(),
        {
            let ghost src_pre = source@;
            let ghost kept_pre = kept@;
            let m = source.remove(0);
            proof {
                assert(src_pre[0] == m);
                assert(source@ =~= src_pre.subrange(1, src_pre.len() as int));
            }
            if !(m.id == mapping_id) {
                kept.push(m);
                proof {
                    assert(kept@ + spec_without_id(source@, mapping_id) =~= kept_pre + (seq![m]
                        + spec_without_id(source@, mapping_id)));
                }
            }
        }
        proof {
            assert(source@ =~= Seq::<MappingModel>::empty());
            assert(kept@ =~= kept@ + spec_without_id(source@, mapping_id));
        }
        core::mem::swap(&mut kept, mappings);
        proof {
            lemma_without_id_free(before, mapping_id);
        }
    }

    /// Duplicates the mapping with the given id: the copy gets the fresh
    /// id, keeps everything else, and is inserted right after the
    /// original.
    pub fn duplicate_mapping(
        &mut self,
        compartment: Compartment,
        mapping_id: MappingId,
        new_id: MappingId,
    ) -> (r: Result<(), &'static str>)
        ensures
            r is Err <==> (forall|i: int|
                0 <= i < old(self).spec_mappings(compartment).len() ==> #[trigger] old(self).spec_mappings(compartment)[i].id != mapping_id),
            r is Err ==> (r matches Err(e) && e@ == "mapping not found"@ && *final (self) == *old(self)),
            r is Ok ==> {
                &&& final (self).spec_mappings(compartment).len() == old(self).spec_mappings(
                    compartment,
                ).len() + 1
                &&& exists|i: int|
                    {
                        &&& 0 <= i < old(self).spec_mappings(compartment).len()
                        &&& #[trigger] old(self).spec_mappings(compartment)[i].id == mapping_id
                        &&& (forall|j: int|
                            0 <= j < i ==> old(self).spec_mappings(compartment)[j].id
                                != mapping_id)
                        &&& spec_duplicated(
                            old(self).spec_mappings(compartment)[i],
                            final (self).spec_mappings(compartment)[i + 1],
                            new_id,
                        )
                        &&& (forall|j: int|
                            0 <= j <= i ==> final (self).spec_mappings(compartment)[j] == old(self).spec_mappings(compartment)[j])
                        &&& (forall|j: int|
                            i < j < old(self).spec_mappings(compartment).len() ==> final (self).spec_mappings(compartment)[j + 1] == old(self).spec_mappings(
                                compartment,
                            )[j])
                    }
            },
            final (self).spec_learn_state() == old(self).spec_learn_state(),
    {
        let index = match self.index_of_mapping(compartment, mapping_id) {
            Some(i) => i,
            None => {
                return Err("mapping not found");
            },
        };
        let mappings = match compartment {
            Compartment::Controller => &mut self.controller_mappings,
            Compartment::Main => &mut self.main_mappings,
        };
        let ghost before = mappings@;
        let n = mappings.len();
        assert(index < n);
        let duplicate = mappings[index].duplicate(new_id);
        mappings.insert(index + 1, duplicate);
        proof {
            assert(mappings@ =~= before.insert(index + 1, mappings@[index + 1]));
            assert(spec_duplicated(before[index as int], mappings@[index + 1], new_id));
            assert forall|j: int| 0 <= j <= index implies mappings@[j] == before[j] by {
            }
            assert forall|j: int|
                index < j < before.len() implies mappings@[j + 1] == before[j] by {
            }
        }
        Ok(())
    }

    /// The position where a move lands: the next position in the given
    /// direction, or — within the same group — the next position whose
    /// mapping shares the group of the moved mapping. `None` when the
    /// boundary is reached.
    pub fn find_index_of_closest_mapping(
        &self,
        compartment: Compartment,
        index: usize,
        group_id: GroupId,
        within_same_group: bool,
        increment_forward: bool,
    ) -> (r: Option<usize>)
        ensures
            (match r {
                Some(i) => i < self.spec_mappings(compartment).len(),
                None => true,
            }),
    {
        let mappings = match compartment {
            Compartment::Controller => &self.controller_mappings,
            Compartment::Main => &self.main_mappings,
        };
        let total = mappings.len();
        if index >= total {
            return None;
        }
        if within_same_group {
            if increment_forward {
                let mut i: usize = index;
                while i + 1 < total
                    invariant
                        i < total,
                        total == mappings@.len(),
                        mappings@ == self.spec_mappings(compartment),
                    decreases total - i,
                {
                    i += 1;
                    if mappings[i].group_id == group_id {
                        return Some(i);
                    }
                }
                None
            } else {
                let mut i: usize = index;
                while i > 0
                    invariant
                        i <= total,
                        total == mappings@.len(),
                        mappings@ == self.spec_mappings(compartment),
                    decreases i,
                {
                    i -= 1;
                    if mappings[i].group_id == group_id {
                        return Some(i);
                    }
                }
                None
            }
        } else {
            if increment_forward {
                if index + 1 < total {
                    Some(index + 1)
                } else {
                    None
                }
            } else {
                if index > 0 {
                    Some(index - 1)
                } else {
                    None
                }
            }
        }
    }

    /// Moves the mapping with the given id one step within the list, in
    /// the given direction, optionally skipping to the next mapping of the
    /// same group. Fails when the mapping is gone or the boundary is
    /// reached; nothing changes then.
    pub fn move_mapping_within_list(
        &mut self,
        compartment: Compartment,
        mapping_id: MappingId,
        within_same_group: bool,
        increment_forward: bool,
    ) -> (r: Result<(), &'static str>)
        ensures
            final (self).spec_mappings(compartment).len() == old(self).spec_mappings(
                compartment,
            ).len(),
            r is Err ==> *final (self) == *old(self),
            (r matches Err(e) && e@ == "mapping not found"@) <==> (forall|i: int|
                0 <= i < old(self).spec_mappings(compartment).len() ==> #[trigger] old(self).spec_mappings(compartment)[i].id != mapping_id),
            r is Ok ==> exists|cur: int, dest: int|
                {
                    &&& 0 <= cur < old(self).spec_mappings(compartment).len()
                    &&& old(self).spec_mappings(compartment)[cur].id == mapping_id
                    &&& 0 <= dest < old(self).spec_mappings(compartment).len()
                    &&& final (self).spec_mappings(compartment) == #[trigger] old(
                        self,
                    ).spec_mappings(compartment).remove(cur).insert(
                        dest,
                        old(self).spec_mappings(compartment)[cur],
                    )
                },
            final (self).spec_learn_state() == old(self).spec_learn_state(),
    {
        let current_index = match self.index_of_mapping(compartment, mapping_id) {
            Some(i) => i,
            None => {
                return Err("mapping not found");
            },
        };
        let group_id = match compartment {
            Compartment::Controller => self.controller_mappings[current_index].group_id,
            Compartment::Main => self.main_mappings[current_index].group_id,
        };
        let dest_index = match self.find_index_of_closest_mapping(
            compartment,
            current_index,
            group_id,
            within_same_group,
            increment_forward,
        ) {
            Some(i) => i,
            None => {
                proof {
                    reveal_strlit("mapping not found");
                    reveal_strlit("move not possible because boundary reached");
                    assert("mapping not found"@.len() == 17);
                    assert("move not possible because boundary reached"@.len() == 42);
                }
                return Err("move not possible because boundary reached");
            },
        };
        let mappings = match compartment {
            Compartment::Controller => &mut self.controller_mappings,
            Compartment::Main => &mut self.main_mappings,
        };
        let ghost before = mappings@;
        assert(current_index < mappings.len());
        assert(dest_index < mappings.len());
        let pending = mappings.remove(current_index);
        mappings.insert(dest_index, pending);
        proof {
            assert(mappings@ =~= before.remove(current_index as int).insert(
                dest_index as int,
                before[current_index as int],
            ));
        }
        Ok(())
    }

    /// Adds a group; the default group with id 0 always exists implicitly
    /// and cannot be added or removed.
    pub fn add_group(&mut self, compartment: Compartment, group: Group) -> (r: Result<
        (),
        &'static str,
    >)
        ensures
            group.id.raw == 0 ==> (r matches Err(e) && e@ == "default group always exists"@
                && final (self).spec_groups(compartment) == old(self).spec_groups(compartment)),
            group.id.raw != 0 ==> (r is Ok && final (self).spec_groups(compartment) == old(self).spec_groups(compartment).push(group)),
    {
        if group.id.raw == 0 {
            return Err("default group always exists");
        }
        let groups = match compartment {
            Compartment::Controller => &mut self.controller_groups,
            Compartment::Main => &mut self.main_groups,
        };
        groups.push(group);
        Ok(())
    }

    /// Removes a group. Its mappings are deleted when `delete_mappings`
    /// is set, else reassigned to the default group — a group's removal
    /// never leaves a mapping pointing at it. The default group cannot be
    /// removed.
    pub fn remove_group(
        &mut self,
        compartment: Compartment,
        group_id: GroupId,
        delete_mappings: bool,
    ) -> (r: Result<(), &'static str>)
        ensures
            r is Err <==> group_id.raw == 0,
            r is Err ==> (r matches Err(e) && e@ == "default group cannot be removed"@ && *final (self) == *old(self)),
            r is Ok ==> {
                &&& final (self).spec_groups(compartment) == spec_groups_without(
                    old(self).spec_groups(compartment),
                    group_id,
                )
                &&& final (self).spec_mappings(compartment) == spec_without_group(
                    old(self).spec_mappings(compartment),
                    group_id,
                    delete_mappings,
                )
                &&& (forall|c: Compartment|
                    c != compartment ==> final (self).spec_mappings(c) == old(self).spec_mappings(
                        c,
                    ))
                &&& (forall|c: Compartment|
                    c != compartment ==> final (self).spec_groups(c) == old(self).spec_groups(c))
                &&& final (self).spec_learn_state() == old(self).spec_learn_state()
            },
            r is Ok ==> forall|i: int|
                0 <= i < final (self).spec_mappings(compartment).len() ==> #[trigger] final (self).spec_mappings(compartment)[i].group_id != group_id,
            r is Ok ==> forall|i: int|
                0 <= i < final (self).spec_groups(compartment).len() ==> #[trigger] final (self).spec_groups(compartment)[i].id != group_id,
    {
        if group_id.raw == 0 {
            return Err("default group cannot be removed");
        }
        let groups = match compartment {
            Compartment::Controller => &mut self.controller_groups,
            Compartment::Main => &mut self.main_groups,
        };
        let ghost gbefore = groups@;
        let mut kept_groups: Vec<Group> = Vec::new();
        let mut source_groups: Vec<Group> = Vec::new();
        core::mem::swap(&mut source_groups, groups);
        proof {
            assert(kept_groups@ + spec_groups_without(source_groups@, group_id)
                =~= spec_groups_without(gbefore, group_id));
        }
        while source_groups.len() > 0
            invariant
                forall|i: int|
                    0 <= i < kept_groups@.len() ==> #[trigger] kept_groups@[i].id != group_id,
                kept_groups@ + spec_groups_without(source_groups@, group_id)
                    == spec_groups_without(gbefore, group_id),
            decreases source_groups@.len(),
        {
            let ghost src_pre = source_groups@;
            let ghost kept_pre = kept_groups@;
            let g = source_groups.remove(0);
            proof {
                assert(src_pre[0] == g);
                assert(source_groups@ =~= src_pre.subrange(1, src_pre.len() as int));
            }
            if !(g.id == group_id) {
                kept_groups.push(g);
                proof {
                    assert(kept_groups@ + spec_groups_without(source_groups@, group_id)
                        =~= kept_pre + (seq![g] + spec_groups_without(source_groups@, group_id)));
                }
            }
        }
        proof {
            assert(source_groups@ =~= Seq::<Group>::empty());
            assert(kept_groups@ =~= kept_groups@ + spec_groups_without(source_groups@, group_id));
        }
        core::mem::swap(&mut kept_groups, groups);
        let mappings = match compartment {
            Compartment::Controller => &mut self.controller_mappings,
            Compartment::Main => &mut self.main_mappings,
        };
        let ghost before = mappings@;
        let mut kept: Vec<MappingModel> = Vec::new();
        let mut source: Vec<MappingModel> = Vec::new();
        core::mem::swap(&mut source, mappings);
        proof {
            assert(kept@ + spec_without_group(source@, group_id, delete_mappings)
                =~= spec_without_group(before, group_id, delete_mappings));
        }
        while source.len() > 0
            invariant
                group_id.raw != 0,
                forall|i: int|
                    0 <= i < kept@.len() ==> #[trigger] kept@[i].group_id != group_id,
                kept@ + spec_without_group(source@, group_id, delete_mappings)
                    == spec_without_group(before, group_id, delete_mappings),
            decreases source@.len(),
        {
            let ghost src_pre = source@;
            let ghost kept_pre = kept@;
            let mut m = source.remove(0);
            proof {
                assert(src_pre[0] == m);
                assert(source@ =~= src_pre.subrange(1, src_pre.len() as int));
            }
            if m.group_id == group_id {
                if !delete_mappings {
                    let ghost m0 = m;
                    m.group_id = GroupId::default_group();
                    kept.push(m);
                    proof {
                        assert(m == spec_reassigned(m0));
                        assert(kept@ + spec_without_group(source@, group_id, delete_mappings)
                            =~= kept_pre + (seq![spec_reassigned(m0)] + spec_without_group(
                            source@,
                            group_id,
                            delete_mappings,
                        )));
                    }
                }
            } else {
                kept.push(m);
                proof {
                    assert(kept@ + spec_without_group(source@, group_id, delete_mappings)
                        =~= kept_pre + (seq![m] + spec_without_group(
                        source@,
                        group_id,
                        delete_mappings,
                    )));
                }
            }
        }
        proof {
            assert(source@ =~= Seq::<MappingModel>::empty());
            assert(kept@ =~= kept@ + spec_without_group(source@, group_id, delete_mappings));
        }
        core::mem::swap(&mut kept, mappings);
        Ok(())
    }

    /// Whether every mapping of the compartment has a valid mode model,
    /// the condition under which processor copies can be derived.
    pub open spec fn spec_mode_models_valid(self, compartment: Compartment) -> bool {
        forall|i: int|
            0 <= i < self.spec_mappings(compartment).len() ==> (#[trigger] self.spec_mappings(
                compartment,
            )[i]).mode_model.spec_is_valid()
    }

    /// Derives the processor copies of a whole compartment, element for
    /// element, against the given project state: the session is the source
    /// of truth and pushes these derived copies to the processors.
    pub fn derive_processor_mappings(
        &self,
        compartment: Compartment,
        context: &TargetContext,
    ) -> (r: Vec<ProcessorMapping>)
        requires
            self.spec_mode_models_valid(compartment),
        ensures
            r@.len() == self.spec_mappings(compartment).len(),
            forall|i: int|
                0 <= i < r@.len() ==> {
                    let model = #[trigger] self.spec_mappings(compartment)[i];
                    let derived = r@[i];
                    &&& derived.spec_id() == model.id
                    &&& (match spec_created_source(model.source_model) {
                        CompoundMappingSource::Midi(midi) => derived.spec_source() == midi,
                        CompoundMappingSource::Virtual(_) => derived.spec_source()
                            == spec_virtual_placeholder_source(),
                    })
                    &&& derived.spec_mode().spec_source_min() == model.mode_model.source_min_raw as int
                    &&& derived.spec_mode().spec_source_max() == model.mode_model.source_max_raw as int
                    &&& derived.spec_mode().spec_target_min() == model.mode_model.target_min_raw as int
                    &&& derived.spec_mode().spec_target_max() == model.mode_model.target_max_raw as int
                    &&& derived.spec_mode().spec_reverse() == model.mode_model.reverse
                    &&& derived.spec_mode().spec_step_size() == model.mode_model.step_size_raw as int
                    &&& derived.spec_target() == crate::targets::spec_resolved_target(
                        &model.target_model,
                        context,
                    )
                    &&& derived.spec_control_is_enabled() == model.control_is_enabled
                    &&& derived.spec_feedback_is_enabled() == model.feedback_is_enabled
                    &&& derived.spec_prevent_echo_feedback() == model.prevent_echo_feedback
                    &&& derived.spec_activation_condition() == model.activation_condition
                },
    {
        let mappings = match compartment {
            Compartment::Controller => &self.controller_mappings,
            Compartment::Main => &self.main_mappings,
        };
        let mut out: Vec<ProcessorMapping> = Vec::new();
        let mut i: usize = 0;
        while i < mappings.len()
            invariant
                i <= mappings@.len(),
                mappings@ == self.spec_mappings(compartment),
                self.spec_mode_models_valid(compartment),
                out@.len() == i,
                forall|j: int|
                    0 <= j < i ==> {
                        let model = #[trigger] self.spec_mappings(compartment)[j];
                        let derived = out@[j];
                        &&& derived.spec_id() == model.id
                        &&& (match spec_created_source(model.source_model) {
                            CompoundMappingSource::Midi(midi) => derived.spec_source() == midi,
                            CompoundMappingSource::Virtual(_) => derived.spec_source()
                                == spec_virtual_placeholder_source(),
                        })
                        &&& derived.spec_mode().spec_source_min()
                            == model.mode_model.source_min_raw as int
                        &&& derived.spec_mode().spec_source_max()
                            == model.mode_model.source_max_raw as int
                        &&& derived.spec_mode().spec_target_min()
                            == model.mode_model.target_min_raw as int
                        &&& derived.spec_mode().spec_target_max()
                            == model.mode_model.target_max_raw as int
                        &&& derived.spec_mode().spec_reverse() == model.mode_model.reverse
                        &&& derived.spec_mode().spec_step_size()
                            == model.mode_model.step_size_raw as int
                        &&& derived.spec_target() == crate::targets::spec_resolved_target(
                            &model.target_model,
                            context,
                        )
                        &&& derived.spec_control_is_enabled() == model.control_is_enabled
                        &&& derived.spec_feedback_is_enabled() == model.feedback_is_enabled
                        &&& derived.spec_prevent_echo_feedback() == model.prevent_echo_feedback
                        &&& derived.spec_activation_condition() == model.activation_condition
                    },
            decreases mappings@.len() - i,
        {
            let derived = mappings[i].create_processor_mapping(context);
            out.push(derived);
            i += 1;
        }
        out
    }

    /// Replaces the whole content of a compartment: its mappings and its
    /// groups. `None` resets the compartment to empty. The other
    /// compartment is untouched; compartments live independent lifecycles.
    pub fn replace_compartment(
        &mut self,
        compartment: Compartment,
        model: Option<CompartmentModel>,
    )
        ensures
            (match model {
                Some(m) => final (self).spec_mappings(compartment) == m.mappings@ && final (self).spec_groups(compartment) == m.groups@,
                None => final (self).spec_mappings(compartment).len() == 0 && final (self).spec_groups(compartment).len() == 0,
            }),
            (match compartment {
                Compartment::Controller => final (self).spec_mappings(Compartment::Main) == old(self).spec_mappings(Compartment::Main) && final (self).spec_groups(Compartment::Main)
                    == old(self).spec_groups(Compartment::Main),
                Compartment::Main => final (self).spec_mappings(Compartment::Controller) == old(self).spec_mappings(Compartment::Controller) && final (self).spec_groups(
                    Compartment::Controller,
                ) == old(self).spec_groups(Compartment::Controller),
            }),
    {
        let (mappings, groups) = match model {
            Some(m) => (m.mappings, m.groups),
            None => (Vec::new(), Vec::new()),
        };
        match compartment {
            Compartment::Controller => {
                self.controller_mappings = mappings;
                self.controller_groups = groups;
            },
            Compartment::Main => {
                self.main_mappings = mappings;
                self.main_groups = groups;
            },
        }
    }

    /// Starts learning the source of a mapping; any other learn flow
    /// stops.
    pub fn start_learning_source(&mut self, compartment: Compartment, mapping_id: MappingId)
        ensures
            final (self).spec_learn_state() == (LearnState::LearningSource {
                compartment,
                mapping_id,
            }),
            final (self).spec_mappings(Compartment::Controller) == old(self).spec_mappings(
                Compartment::Controller,
            ),
            final (self).spec_mappings(Compartment::Main) == old(self).spec_mappings(
                Compartment::Main,
            ),
    {
        self.learn_state = LearnState::LearningSource { compartment, mapping_id };
    }

    /// Stops a source learn flow, if one runs.
    pub fn stop_learning_source(&mut self)
        ensures
            final (self).spec_learn_state() is Idle,
            final (self).spec_mappings(Compartment::Controller) == old(self).spec_mappings(
                Compartment::Controller,
            ),
            final (self).spec_mappings(Compartment::Main) == old(self).spec_mappings(
                Compartment::Main,
            ),
    {
        self.learn_state = LearnState::Idle;
    }

    /// Starts learning the target of a mapping; any other learn flow
    /// stops.
    pub fn start_learning_target(&mut self, compartment: Compartment, mapping_id: MappingId)
        ensures
            final (self).spec_learn_state() == (LearnState::LearningTarget {
                compartment,
                mapping_id,
            }),
    {
        self.learn_state = LearnState::LearningTarget { compartment, mapping_id };
    }

    pub fn learn_state(&self) -> (r: LearnState)
        ensures
            r == self.spec_learn_state(),
    {
        self.learn_state
    }

    /// Starts learning many mappings in a row: adds a fresh default
    /// mapping and waits for its source; each capture adds the next one.
    pub fn start_learning_many_mappings(
        &mut self,
        compartment: Compartment,
        initial_group_id: GroupId,
        id: MappingId,
    )
        ensures
            final (self).spec_mappings(compartment).len() == old(self).spec_mappings(
                compartment,
            ).len() + 1,
            final (self).spec_mappings(compartment).last().id == id,
            final (self).spec_learn_state() == (LearnState::LearningManySources {
                compartment,
                mapping_id: id,
                group_id: initial_group_id,
            }),
    {
        let _ = self.add_default_mapping(compartment, initial_group_id, id);
        self.learn_state = LearnState::LearningManySources {
            compartment,
            mapping_id: id,
            group_id: initial_group_id,
        };
    }

    /// Applies a captured source while a source learn flow runs: the
    /// learned mapping's source model takes the capture and the flow
    /// stops. Outside a source learn flow the capture is dropped — the
    /// session may have moved on concurrently, which is a recoverable
    /// no-op.
    pub fn incoming_source_captured(&mut self, source: CompoundMappingSource)
        ensures
            (match old(self).spec_learn_state() {
                LearnState::LearningSource { compartment, mapping_id } => {
                    &&& final (self).spec_learn_state() is Idle
                    &&& final (self).spec_mappings(compartment).len() == old(self).spec_mappings(
                        compartment,
                    ).len()
                    &&& ((exists|i: int|
                        0 <= i < old(self).spec_mappings(compartment).len() && #[trigger] old(self).spec_mappings(compartment)[i].id == mapping_id) ==> exists|i: int|
                        {
                            &&& 0 <= i < old(self).spec_mappings(compartment).len()
                            &&& #[trigger] old(self).spec_mappings(compartment)[i].id == mapping_id
                            &&& spec_created_source(
                                final (self).spec_mappings(compartment)[i].source_model,
                            ) == source
                        })
                },
                LearnState::LearningManySources { compartment, group_id, .. } => final (self).spec_learn_state() is Idle || (final (self).spec_learn_state()
                    matches LearnState::LearningManySources { compartment: c2, group_id: g2, mapping_id: next_id }
                    && c2 == compartment && g2 == group_id && final (self).spec_mappings(
                    compartment,
                ).len() == old(self).spec_mappings(compartment).len() + 1 && final (self).spec_mappings(compartment).last().id == next_id && final (self).spec_mappings(
                    compartment,
                ).last().group_id == group_id),
                _ => *final (self) == *old(self),
            }),
    {
        match self.learn_state {
            LearnState::LearningSource { compartment, mapping_id } => {
                self.learn_state = LearnState::Idle;
                self.apply_captured_source(compartment, mapping_id, &source);
            },
            LearnState::LearningManySources { compartment, mapping_id, group_id } => {
                if self.index_of_mapping(compartment, mapping_id).is_none() {
                    // The learned mapping went away concurrently: stop.
                    self.learn_state = LearnState::Idle;
                    return ;
                }
                self.apply_captured_source(compartment, mapping_id, &source);
                // Add the next mapping and keep learning.
                let next_id = MappingId::random();
                let _ = self.add_default_mapping(compartment, group_id, next_id);
                self.learn_state = LearnState::LearningManySources {
                    compartment,
                    mapping_id: next_id,
                    group_id,
                };
            },
            _ => {},
        }
    }

    /// Applies a captured source to the addressed mapping's source model:
    /// afterwards the first mapping with the id describes the capture and
    /// every other mapping is unchanged; a stale id is a recoverable
    /// no-op.
    fn apply_captured_source(
        &mut self,
        compartment: Compartment,
        mapping_id: MappingId,
        source: &CompoundMappingSource,
    )
        ensures
            final (self).spec_mappings(compartment).len() == old(self).spec_mappings(
                compartment,
            ).len(),
            final (self).spec_learn_state() == old(self).spec_learn_state(),
            (match compartment {
                Compartment::Controller => final (self).spec_mappings(Compartment::Main) == old(self).spec_mappings(Compartment::Main),
                Compartment::Main => final (self).spec_mappings(Compartment::Controller) == old(self).spec_mappings(Compartment::Controller),
            }),
            (forall|i: int|
                0 <= i < old(self).spec_mappings(compartment).len() ==> #[trigger] old(self).spec_mappings(compartment)[i].id != mapping_id) ==> *final (self) == *old(self),
            (exists|i: int|
                0 <= i < old(self).spec_mappings(compartment).len() && #[trigger] old(self).spec_mappings(compartment)[i].id == mapping_id) ==> exists|i: int|
                {
                    &&& 0 <= i < old(self).spec_mappings(compartment).len()
                    &&& #[trigger] old(self).spec_mappings(compartment)[i].id == mapping_id
                    &&& spec_created_source(
                        final (self).spec_mappings(compartment)[i].source_model,
                    ) == *source
                    &&& (forall|j: int|
                        0 <= j < old(self).spec_mappings(compartment).len() && j != i ==> final (self).spec_mappings(compartment)[j] == old(self).spec_mappings(compartment)[j])
                },
    {
        let index = self.index_of_mapping(compartment, mapping_id);
        let mappings = match compartment {
            Compartment::Controller => &mut self.controller_mappings,
            Compartment::Main => &mut self.main_mappings,
        };
        let ghost before = mappings@;
        match index {
            Some(i) => {
                let m = &mut mappings[i];
                let model = &mut m.source_model;
                model.apply_from_source(source);
                proof {
                    assert(spec_created_source(mappings@[i as int].source_model) == *source);
                    assert forall|j: int|
                        0 <= j < before.len() && j != i implies mappings@[j] == before[j] by {
                    }
                }
            },
            None => {},
        }
    }
}

/// A command that changes one mapping. Mutation goes through commands so
/// that every change has one auditable entry point and observers can be
/// told what was affected.
pub enum MappingCommand {
    SetName(String),
    SetControlIsEnabled(bool),
    SetFeedbackIsEnabled(bool),
    SetPreventEchoFeedback(bool),
    SetGroupId(GroupId),
    SetActivationCondition(ActivationCondition),
    SetSourceModel(SourceModel),
    SetModeModel(ModeModel),
}

/// What a change affected, for observers that refresh selectively.
#[derive(Clone, Copy, PartialEq, Eq, Structural, Debug)]
pub enum Affected {
    MappingChanged { compartment: Compartment, mapping_id: MappingId },
    MappingListChanged { compartment: Compartment },
}

/// How one command changes a mapping model: the commanded field takes the
/// commanded value and every other field stays, the target model
/// included.
pub open spec fn spec_mapping_command_applied(
    old_m: MappingModel,
    new_m: MappingModel,
    command: MappingCommand,
) -> bool {
    &&& new_m.id == old_m.id
    &&& new_m.compartment == old_m.compartment
    &&& new_m.target_model == old_m.target_model
    &&& new_m.name@ == (match command {
        MappingCommand::SetName(name) => name@,
        _ => old_m.name@,
    })
    &&& new_m.group_id == (match command {
        MappingCommand::SetGroupId(g) => g,
        _ => old_m.group_id,
    })
    &&& new_m.source_model == (match command {
        MappingCommand::SetSourceModel(m) => m,
        _ => old_m.source_model,
    })
    &&& new_m.mode_model == (match command {
        MappingCommand::SetModeModel(m) => m,
        _ => old_m.mode_model,
    })
    &&& new_m.control_is_enabled == (match command {
        MappingCommand::SetControlIsEnabled(v) => v,
        _ => old_m.control_is_enabled,
    })
    &&& new_m.feedback_is_enabled == (match command {
        MappingCommand::SetFeedbackIsEnabled(v) => v,
        _ => old_m.feedback_is_enabled,
    })
    &&& new_m.prevent_echo_feedback == (match command {
        MappingCommand::SetPreventEchoFeedback(v) => v,
        _ => old_m.prevent_echo_feedback,
    })
    &&& new_m.activation_condition == (match command {
        MappingCommand::SetActivationCondition(c) => c,
        _ => old_m.activation_condition,
    })
}

impl MappingModel {
    /// Applies one command to this mapping: the commanded field changes,
    /// everything else stays.
    pub fn change(&mut self, command: MappingCommand)
        ensures
            spec_mapping_command_applied(*old(self), *final (self), command),
    {
        match command {
            MappingCommand::SetName(name) => {
                self.name = name;
            },
            MappingCommand::SetControlIsEnabled(v) => {
                self.control_is_enabled = v;
            },
            MappingCommand::SetFeedbackIsEnabled(v) => {
                self.feedback_is_enabled = v;
            },
            MappingCommand::SetPreventEchoFeedback(v) => {
                self.prevent_echo_feedback = v;
            },
            MappingCommand::SetGroupId(g) => {
                self.group_id = g;
            },
            MappingCommand::SetActivationCondition(c) => {
                self.activation_condition = c;
            },
            MappingCommand::SetSourceModel(m) => {
                self.source_model = m;
            },
            MappingCommand::SetModeModel(m) => {
                self.mode_model = m;
            },
        }
    }
}

impl Session {
    /// Applies a command to the addressed mapping and reports what was
    /// affected. A stale id is a recoverable no-op that reports nothing,
    /// because the mapping may have been removed concurrently.
    pub fn change_mapping(
        &mut self,
        compartment: Compartment,
        mapping_id: MappingId,
        command: MappingCommand,
    ) -> (r: Option<Affected>)
        ensures
            final (self).spec_mappings(compartment).len() == old(self).spec_mappings(
                compartment,
            ).len(),
            (match r {
                Some(affected) => {
                    &&& affected == (Affected::MappingChanged { compartment, mapping_id })
                    &&& exists|i: int|
                        {
                            &&& 0 <= i < old(self).spec_mappings(compartment).len()
                            &&& #[trigger] old(self).spec_mappings(compartment)[i].id == mapping_id
                            &&& (forall|j: int|
                                0 <= j < i ==> old(self).spec_mappings(compartment)[j].id
                                    != mapping_id)
                            &&& spec_mapping_command_applied(
                                old(self).spec_mappings(compartment)[i],
                                final (self).spec_mappings(compartment)[i],
                                command,
                            )
                            &&& (forall|j: int|
                                0 <= j < old(self).spec_mappings(compartment).len() && j != i
                                    ==> final (self).spec_mappings(compartment)[j] == old(self).spec_mappings(compartment)[j])
                        }
                },
                None => {
                    &&& (forall|i: int|
                        0 <= i < old(self).spec_mappings(compartment).len() ==> #[trigger] old(self).spec_mappings(compartment)[i].id != mapping_id)
                    &&& *final (self) == *old(self)
                },
            }),
            final (self).spec_learn_state() == old(self).spec_learn_state(),
            (match compartment {
                Compartment::Controller => final (self).spec_mappings(Compartment::Main) == old(self).spec_mappings(Compartment::Main),
                Compartment::Main => final (self).spec_mappings(Compartment::Controller) == old(self).spec_mappings(Compartment::Controller),
            }),
    {
        let index = match self.index_of_mapping(compartment, mapping_id) {
            Some(i) => i,
            None => {
                return None;
            },
        };
        let mappings = match compartment {
            Compartment::Controller => &mut self.controller_mappings,
            Compartment::Main => &mut self.main_mappings,
        };
        let ghost before = mappings@;
        let m = &mut mappings[index];
        m.change(command);
        proof {
            assert(spec_mapping_command_applied(
                before[index as int],
                mappings@[index as int],
                command,
            ));
            assert forall|j: int|
                0 <= j < before.len() && j != index implies mappings@[j] == before[j] by {
            }
        }
        Some(Affected::MappingChanged { compartment, mapping_id })
    }
}

/// What a change notification obliges the session to sync to the
/// processors: the whole compartment, one mapping, or nothing beyond
/// marking the compartment dirty.
#[derive(Clone, Copy, PartialEq, Eq, Structural, Debug)]
pub enum SyncAction {
    SyncAllMappings { compartment: Compartment },
    SyncSingleMapping { compartment: Compartment, mapping_id: MappingId },
}

/// The sync action that one change notification calls for: a single
/// changed mapping syncs alone, a changed list syncs the compartment.
pub fn sync_action_for(affected: Affected) -> (r: SyncAction)
    ensures
        r == (match affected {
            Affected::MappingChanged { compartment, mapping_id } => SyncAction::SyncSingleMapping {
                compartment,
                mapping_id,
            },
            Affected::MappingListChanged { compartment } => SyncAction::SyncAllMappings {
                compartment,
            },
        }),
{
    match affected {
        Affected::MappingChanged { compartment, mapping_id } => SyncAction::SyncSingleMapping {
            compartment,
            mapping_id,
        },
        Affected::MappingListChanged { compartment } => SyncAction::SyncAllMappings {
            compartment,
        },
    }
}

/// Notification that a source was captured while a learn flow ran.
#[derive(Clone, Copy, PartialEq, Eq, Structural, Debug)]
pub struct MessageCaptureEvent {
    pub source: CompoundMappingSource,
    pub allow_virtual_sources: bool,
}

/// Notification that the on-state of one mapping changed.
#[derive(Clone, Copy, PartialEq, Eq, Structural, Debug)]
pub struct UpdatedSingleMappingOnStateEvent {
    pub compartment: Compartment,
    pub mapping_id: MappingId,
    pub is_on: bool,
}

} // verus!
