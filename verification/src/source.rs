//! Source matching: from raw MIDI events to typed control values.
//!
//! A source spec decides whether it reacts to a short message and, if so,
//! what control value the message carries. Matching is a stateless pure
//! function of the message bytes; malformed or out-of-range messages are
//! non-matches, never errors. The feedback direction builds the short
//! message that makes a control surface show a value.

use vstd::prelude::*;

use crate::midi::{
    channel_pressure_message, control_change_message, note_on_message, pitch_bend_message,
    polyphonic_key_pressure_message, program_change_message, RawMidiMessage,
};
use crate::units::{
    cc14_of_unit, cc7_of_unit, unit_of_cc14, unit_of_cc7, unit_value_from_cc14,
    unit_value_from_cc7, unit_value_to_cc14, unit_value_to_cc7, ControlValue, UnitValue,
    UNIT_DENOM,
};

verus! {

/// How the values of a control-change source are to be read.
#[derive(Clone, Copy, PartialEq, Eq, Structural, Debug, Hash)]
pub enum SourceCharacter {
    /// A fader or knob: the data byte is an absolute position.
    Range,
    /// A button: the data byte is an absolute press value.
    Switch,
    /// An endless encoder counting 1..=63 up and 127 down to 65.
    Encoder1,
    /// An endless encoder sending 64 plus the signed increment.
    Encoder2,
    /// An endless encoder counting 1..=63 up and 65..=127 down.
    Encoder3,
}

/// The transport message a clock-transport source listens for.
#[derive(Clone, Copy, PartialEq, Eq, Structural, Debug, Hash)]
pub enum MidiClockTransportMessage {
    Start,
    Continue,
    Stop,
}

impl MidiClockTransportMessage {
    /// The status byte of this system real-time message.
    pub open spec fn spec_status(self) -> int {
        match self {
            MidiClockTransportMessage::Start => 0xfa,
            MidiClockTransportMessage::Continue => 0xfb,
            MidiClockTransportMessage::Stop => 0xfc,
        }
    }

    pub fn status(self) -> (r: u8)
        ensures
            r == self.spec_status(),
    {
        match self {
            MidiClockTransportMessage::Start => 0xfa,
            MidiClockTransportMessage::Continue => 0xfb,
            MidiClockTransportMessage::Stop => 0xfc,
        }
    }
}

/// A MIDI source: what kind of message the mapping listens for. `None` in a
/// channel or number field means "any".
#[derive(Clone, Copy, PartialEq, Eq, Structural, Debug, Hash)]
pub enum MidiSource {
    NoteVelocity { channel: Option<u8>, key_number: Option<u8> },
    NoteKeyNumber { channel: Option<u8> },
    PolyphonicKeyPressureAmount { channel: Option<u8>, key_number: Option<u8> },
    ControlChangeValue {
        channel: Option<u8>,
        controller_number: Option<u8>,
        custom_character: SourceCharacter,
    },
    ControlChange14BitValue { channel: Option<u8>, msb_controller_number: Option<u8> },
    ParameterNumberValue {
        channel: Option<u8>,
        number: Option<u16>,
        is_14_bit: Option<bool>,
        is_registered: Option<bool>,
    },
    ProgramChangeNumber { channel: Option<u8> },
    ChannelPressureAmount { channel: Option<u8> },
    PitchBendChangeValue { channel: Option<u8> },
    ClockTempo,
    ClockTransport { message: MidiClockTransportMessage },
}

/// Whether an optional filter accepts a value.
pub open spec fn spec_opt_matches(filter: Option<u8>, value: int) -> bool {
    match filter {
        None => true,
        Some(wanted) => wanted == value,
    }
}

fn opt_matches(filter: Option<u8>, value: u8) -> (r: bool)
    ensures
        r == spec_opt_matches(filter, value as int),
{
    match filter {
        None => true,
        Some(wanted) => wanted == value,
    }
}

/// Whether the data bytes are within the 7-bit range; messages that break
/// it are malformed and never match.
pub open spec fn spec_data_ok(msg: RawMidiMessage) -> bool {
    msg.data1 < 128 && msg.data2 < 128
}

/// The step delta that an encoder value stands for under the given
/// character; 0 for the absolute characters.
pub open spec fn spec_encoder_delta(character: SourceCharacter, v: int) -> int {
    match character {
        SourceCharacter::Encoder1 => if 1 <= v <= 63 {
            v
        } else if 65 <= v <= 127 {
            v - 128
        } else {
            0
        },
        SourceCharacter::Encoder2 => v - 64,
        SourceCharacter::Encoder3 => if v <= 63 {
            v
        } else {
            -(v - 64)
        },
        _ => 0,
    }
}

/// Whether a result is an absolute control value with the given numerator.
pub open spec fn is_abs(r: Option<ControlValue>, raw: int) -> bool {
    r matches Some(ControlValue::AbsoluteContinuous(u)) && u.spec_raw() == raw
}

/// Whether a result is a relative control value with the given delta.
pub open spec fn is_rel(r: Option<ControlValue>, delta: int) -> bool {
    r matches Some(ControlValue::Relative(d)) && d as int == delta
}

/// What [`MidiSource::control`] answers for a message: the relation
/// between a source, a message and the produced control value.
pub open spec fn spec_control_result(s: MidiSource, msg: RawMidiMessage, r: Option<
    ControlValue,
>) -> bool {
    match s {
                MidiSource::NoteVelocity { channel, key_number } => {
                    if spec_data_ok(msg) && msg.spec_kind_nibble() == 0x9 && spec_opt_matches(
                        channel,
                        msg.spec_channel(),
                    ) && spec_opt_matches(key_number, msg.data1 as int) {
                        is_abs(r, unit_of_cc7(msg.data2 as int))
                    } else if spec_data_ok(msg) && msg.spec_kind_nibble() == 0x8
                        && spec_opt_matches(channel, msg.spec_channel()) && spec_opt_matches(
                        key_number,
                        msg.data1 as int,
                    ) {
                        is_abs(r, 0)
                    } else {
                        r is None
                    }
                },
                MidiSource::NoteKeyNumber { channel } => {
                    if spec_data_ok(msg) && msg.spec_kind_nibble() == 0x9 && spec_opt_matches(
                        channel,
                        msg.spec_channel(),
                    ) && msg.data2 > 0 {
                        is_abs(r, unit_of_cc7(msg.data1 as int))
                    } else {
                        r is None
                    }
                },
                MidiSource::PolyphonicKeyPressureAmount { channel, key_number } => {
                    if spec_data_ok(msg) && msg.spec_kind_nibble() == 0xa && spec_opt_matches(
                        channel,
                        msg.spec_channel(),
                    ) && spec_opt_matches(key_number, msg.data1 as int) {
                        is_abs(r, unit_of_cc7(msg.data2 as int))
                    } else {
                        r is None
                    }
                },
                MidiSource::ControlChangeValue { channel, controller_number, custom_character } => {
                    if spec_data_ok(msg) && msg.spec_kind_nibble() == 0xb && spec_opt_matches(
                        channel,
                        msg.spec_channel(),
                    ) && spec_opt_matches(controller_number, msg.data1 as int) {
                        match custom_character {
                            SourceCharacter::Range | SourceCharacter::Switch => is_abs(
                                r,
                                unit_of_cc7(msg.data2 as int),
                            ),
                            _ => is_rel(r, spec_encoder_delta(custom_character, msg.data2 as int)),
                        }
                    } else {
                        r is None
                    }
                },
                MidiSource::ControlChange14BitValue { .. } => r is None,
                MidiSource::ParameterNumberValue { .. } => r is None,
                MidiSource::ProgramChangeNumber { channel } => {
                    if spec_data_ok(msg) && msg.spec_kind_nibble() == 0xc && spec_opt_matches(
                        channel,
                        msg.spec_channel(),
                    ) {
                        is_abs(r, unit_of_cc7(msg.data1 as int))
                    } else {
                        r is None
                    }
                },
                MidiSource::ChannelPressureAmount { channel } => {
                    if spec_data_ok(msg) && msg.spec_kind_nibble() == 0xd && spec_opt_matches(
                        channel,
                        msg.spec_channel(),
                    ) {
                        is_abs(r, unit_of_cc7(msg.data1 as int))
                    } else {
                        r is None
                    }
                },
                MidiSource::PitchBendChangeValue { channel } => {
                    if msg.spec_kind_nibble() == 0xe && spec_opt_matches(
                        channel,
                        msg.spec_channel(),
                    ) && msg.data1 < 128 && msg.data2 < 128 {
                        is_abs(r, unit_of_cc14(msg.data1 + 128 * msg.data2))
                    } else {
                        r is None
                    }
                },
                MidiSource::ClockTempo => r is None,
        MidiSource::ClockTransport { message } => {
            if msg.status == message.spec_status() {
                is_abs(r, UNIT_DENOM as int)
            } else {
                r is None
            }
        },
    }
}

/// Whether a source consumes a message, regardless of the value it
/// carries: the match condition of [`MidiSource::consumes`]. Multi-message
/// sources consume every message of their shape.
pub open spec fn spec_source_consumes(s: MidiSource, msg: RawMidiMessage) -> bool {
    match s {
                MidiSource::NoteVelocity { channel, key_number } => (msg.spec_kind_nibble() == 0x9
                    || msg.spec_kind_nibble() == 0x8) && spec_opt_matches(
                    channel,
                    msg.spec_channel(),
                ) && spec_opt_matches(key_number, msg.data1 as int),
                MidiSource::NoteKeyNumber { channel } => (msg.spec_kind_nibble() == 0x9
                    || msg.spec_kind_nibble() == 0x8) && spec_opt_matches(
                    channel,
                    msg.spec_channel(),
                ),
                MidiSource::PolyphonicKeyPressureAmount { channel, key_number } => {
                    msg.spec_kind_nibble() == 0xa && spec_opt_matches(channel, msg.spec_channel())
                        && spec_opt_matches(key_number, msg.data1 as int)
                },
                MidiSource::ControlChangeValue { channel, controller_number, .. } => {
                    msg.spec_kind_nibble() == 0xb && spec_opt_matches(channel, msg.spec_channel())
                        && spec_opt_matches(controller_number, msg.data1 as int)
                },
                MidiSource::ControlChange14BitValue { channel, msb_controller_number } => {
                    msg.spec_kind_nibble() == 0xb && spec_opt_matches(channel, msg.spec_channel())
                        && (spec_opt_matches(msb_controller_number, msg.data1 as int)
                        || spec_opt_matches(msb_controller_number, msg.data1 as int - 32))
                },
                MidiSource::ParameterNumberValue { channel, .. } => {
                    msg.spec_kind_nibble() == 0xb && spec_opt_matches(channel, msg.spec_channel())
                        && (msg.data1 as int == 98 || msg.data1 as int == 99 || msg.data1 as int
                        == 100 || msg.data1 as int == 101 || msg.data1 as int == 6
                        || msg.data1 as int == 38)
                },
                MidiSource::ProgramChangeNumber { channel } => {
                    msg.spec_kind_nibble() == 0xc && spec_opt_matches(channel, msg.spec_channel())
                },
                MidiSource::ChannelPressureAmount { channel } => {
                    msg.spec_kind_nibble() == 0xd && spec_opt_matches(channel, msg.spec_channel())
                },
                MidiSource::PitchBendChangeValue { channel } => {
                    msg.spec_kind_nibble() == 0xe && spec_opt_matches(channel, msg.spec_channel())
                },
                MidiSource::ClockTempo => msg.status == 0xf8,
        MidiSource::ClockTransport { message } => msg.status == message.spec_status(),
    }
}

/// Whether a source reacts to a message at all: the match condition of
/// [`MidiSource::control`], without the value it produces. Multi-message
/// sources and the clock-tempo source never produce a single-message value.
pub open spec fn spec_source_matches(s: MidiSource, msg: RawMidiMessage) -> bool {
    match s {
        MidiSource::NoteVelocity { channel, key_number } => spec_data_ok(msg) && (
        msg.spec_kind_nibble() == 0x9 || msg.spec_kind_nibble() == 0x8) && spec_opt_matches(
            channel,
            msg.spec_channel(),
        ) && spec_opt_matches(key_number, msg.data1 as int),
        MidiSource::NoteKeyNumber { channel } => spec_data_ok(msg) && msg.spec_kind_nibble() == 0x9
            && spec_opt_matches(channel, msg.spec_channel()) && msg.data2 > 0,
        MidiSource::PolyphonicKeyPressureAmount { channel, key_number } => spec_data_ok(msg)
            && msg.spec_kind_nibble() == 0xa && spec_opt_matches(channel, msg.spec_channel())
            && spec_opt_matches(key_number, msg.data1 as int),
        MidiSource::ControlChangeValue { channel, controller_number, .. } => spec_data_ok(msg)
            && msg.spec_kind_nibble() == 0xb && spec_opt_matches(channel, msg.spec_channel())
            && spec_opt_matches(controller_number, msg.data1 as int),
        MidiSource::ControlChange14BitValue { .. } => false,
        MidiSource::ParameterNumberValue { .. } => false,
        MidiSource::ProgramChangeNumber { channel } => spec_data_ok(msg) && msg.spec_kind_nibble()
            == 0xc && spec_opt_matches(channel, msg.spec_channel()),
        MidiSource::ChannelPressureAmount { channel } => spec_data_ok(msg)
            && msg.spec_kind_nibble() == 0xd && spec_opt_matches(channel, msg.spec_channel()),
        MidiSource::PitchBendChangeValue { channel } => spec_data_ok(msg)
            && msg.spec_kind_nibble() == 0xe && spec_opt_matches(channel, msg.spec_channel()),
        MidiSource::ClockTempo => false,
        MidiSource::ClockTransport { message } => msg.status == message.spec_status(),
    }
}

/// The feedback message a source sends for a unit value; `None` for
/// sources that take no feedback. A source with "any" in its channel or
/// number field feeds back on channel or number 0; a 14-bit control-change
/// source feeds back its most significant byte.
pub open spec fn spec_feedback_msg(s: MidiSource, raw: int) -> Option<RawMidiMessage> {
    match s {
        MidiSource::NoteVelocity { channel, key_number } => Some(
            RawMidiMessage {
                status: (0x90 + spec_channel_or_zero(channel)) as u8,
                data1: spec_number_or_zero(key_number) as u8,
                data2: cc7_of_unit(raw) as u8,
            },
        ),
        MidiSource::NoteKeyNumber { channel } => Some(
            RawMidiMessage {
                status: (0x90 + spec_channel_or_zero(channel)) as u8,
                data1: cc7_of_unit(raw) as u8,
                data2: 127,
            },
        ),
        MidiSource::PolyphonicKeyPressureAmount { channel, key_number } => Some(
            RawMidiMessage {
                status: (0xa0 + spec_channel_or_zero(channel)) as u8,
                data1: spec_number_or_zero(key_number) as u8,
                data2: cc7_of_unit(raw) as u8,
            },
        ),
        MidiSource::ControlChangeValue { channel, controller_number, .. } => Some(
            RawMidiMessage {
                status: (0xb0 + spec_channel_or_zero(channel)) as u8,
                data1: spec_number_or_zero(controller_number) as u8,
                data2: cc7_of_unit(raw) as u8,
            },
        ),
        MidiSource::ControlChange14BitValue { channel, msb_controller_number } => Some(
            RawMidiMessage {
                status: (0xb0 + spec_channel_or_zero(channel)) as u8,
                data1: spec_number_or_zero(msb_controller_number) as u8,
                data2: cc7_of_unit(raw) as u8,
            },
        ),
        MidiSource::ParameterNumberValue { .. } => None,
        MidiSource::ProgramChangeNumber { channel } => Some(
            RawMidiMessage {
                status: (0xc0 + spec_channel_or_zero(channel)) as u8,
                data1: cc7_of_unit(raw) as u8,
                data2: 0,
            },
        ),
        MidiSource::ChannelPressureAmount { channel } => Some(
            RawMidiMessage {
                status: (0xd0 + spec_channel_or_zero(channel)) as u8,
                data1: cc7_of_unit(raw) as u8,
                data2: 0,
            },
        ),
        MidiSource::PitchBendChangeValue { channel } => Some(
            RawMidiMessage {
                status: (0xe0 + spec_channel_or_zero(channel)) as u8,
                data1: (cc14_of_unit(raw) % 128) as u8,
                data2: (cc14_of_unit(raw) / 128) as u8,
            },
        ),
        MidiSource::ClockTempo => None,
        MidiSource::ClockTransport { .. } => None,
    }
}

impl MidiSource {
    /// Decides whether this source reacts to the message and with what
    /// control value.
    ///
    /// Sources that need more than one message (14-bit control changes and
    /// parameter numbers, which arrive as message sequences) and the clock
    /// tempo source (which needs timing context) never produce a value
    /// here; their messages are still consumed, which
    /// [`Self::consumes`] reports.
    pub fn control(&self, msg: RawMidiMessage) -> (r: Option<ControlValue>)
        ensures
            r is Some <==> spec_source_matches(*self, msg),
            spec_control_result(*self, msg, r),
    {
        let kind = msg.kind_nibble();
        let ch = msg.channel();
        match *self {
            MidiSource::NoteVelocity { channel, key_number } => {
                if msg.data1 < 128 && msg.data2 < 128 && kind == 0x9 && opt_matches(channel, ch)
                    && opt_matches(key_number, msg.data1) {
                    Some(ControlValue::AbsoluteContinuous(unit_value_from_cc7(msg.data2)))
                } else if msg.data1 < 128 && msg.data2 < 128 && kind == 0x8 && opt_matches(
                    channel,
                    ch,
                ) && opt_matches(key_number, msg.data1) {
                    Some(ControlValue::AbsoluteContinuous(UnitValue::min_value()))
                } else {
                    None
                }
            },
            MidiSource::NoteKeyNumber { channel } => {
                if msg.data1 < 128 && msg.data2 < 128 && kind == 0x9 && opt_matches(channel, ch)
                    && msg.data2 > 0 {
                    Some(ControlValue::AbsoluteContinuous(unit_value_from_cc7(msg.data1)))
                } else {
                    None
                }
            },
            MidiSource::PolyphonicKeyPressureAmount { channel, key_number } => {
                if msg.data1 < 128 && msg.data2 < 128 && kind == 0xa && opt_matches(channel, ch)
                    && opt_matches(key_number, msg.data1) {
                    Some(ControlValue::AbsoluteContinuous(unit_value_from_cc7(msg.data2)))
                } else {
                    None
                }
            },
            MidiSource::ControlChangeValue { channel, controller_number, custom_character } => {
                if msg.data1 < 128 && msg.data2 < 128 && kind == 0xb && opt_matches(channel, ch)
                    && opt_matches(controller_number, msg.data1) {
                    match custom_character {
                        SourceCharacter::Range | SourceCharacter::Switch => {
                            Some(
                                ControlValue::AbsoluteContinuous(unit_value_from_cc7(msg.data2)),
                            )
                        },
                        SourceCharacter::Encoder1 => {
                            let v = msg.data2;
                            let delta: i32 = if 1 <= v && v <= 63 {
                                v as i32
                            } else if 65 <= v && v <= 127 {
                                v as i32 - 128
                            } else {
                                0
                            };
                            Some(ControlValue::Relative(delta))
                        },
                        SourceCharacter::Encoder2 => {
                            Some(ControlValue::Relative(msg.data2 as i32 - 64))
                        },
                        SourceCharacter::Encoder3 => {
                            let v = msg.data2;
                            let delta: i32 = if v <= 63 {
                                v as i32
                            } else {
                                -(v as i32 - 64)
                            };
                            Some(ControlValue::Relative(delta))
                        },
                    }
                } else {
                    None
                }
            },
            MidiSource::ControlChange14BitValue { .. } => None,
            MidiSource::ParameterNumberValue { .. } => None,
            MidiSource::ProgramChangeNumber { channel } => {
                if msg.data1 < 128 && msg.data2 < 128 && kind == 0xc && opt_matches(channel, ch) {
                    Some(ControlValue::AbsoluteContinuous(unit_value_from_cc7(msg.data1)))
                } else {
                    None
                }
            },
            MidiSource::ChannelPressureAmount { channel } => {
                if msg.data1 < 128 && msg.data2 < 128 && kind == 0xd && opt_matches(channel, ch) {
                    Some(ControlValue::AbsoluteContinuous(unit_value_from_cc7(msg.data1)))
                } else {
                    None
                }
            },
            MidiSource::PitchBendChangeValue { channel } => {
                if kind == 0xe && opt_matches(channel, ch) && msg.data1 < 128 && msg.data2 < 128 {
                    let value14: u16 = msg.data1 as u16 + 128 * (msg.data2 as u16);
                    Some(ControlValue::AbsoluteContinuous(unit_value_from_cc14(value14)))
                } else {
                    None
                }
            },
            MidiSource::ClockTempo => None,
            MidiSource::ClockTransport { message } => {
                if msg.status == message.status() {
                    Some(ControlValue::AbsoluteContinuous(UnitValue::max_value()))
                } else {
                    None
                }
            },
        }
    }

    /// Whether this source consumes the message, regardless of the value it
    /// carries. Multi-message sources consume every message of their shape.
    pub fn consumes(&self, msg: RawMidiMessage) -> (r: bool)
        ensures
            r == spec_source_consumes(*self, msg),
    {
        let kind = msg.kind_nibble();
        let ch = msg.channel();
        match *self {
            MidiSource::NoteVelocity { channel, key_number } => (kind == 0x9 || kind == 0x8)
                && opt_matches(channel, ch) && opt_matches(key_number, msg.data1),
            MidiSource::NoteKeyNumber { channel } => (kind == 0x9 || kind == 0x8) && opt_matches(
                channel,
                ch,
            ),
            MidiSource::PolyphonicKeyPressureAmount { channel, key_number } => kind == 0xa
                && opt_matches(channel, ch) && opt_matches(key_number, msg.data1),
            MidiSource::ControlChangeValue { channel, controller_number, .. } => kind == 0xb
                && opt_matches(channel, ch) && opt_matches(controller_number, msg.data1),
            MidiSource::ControlChange14BitValue { channel, msb_controller_number } => {
                if kind == 0xb && opt_matches(channel, ch) {
                    if opt_matches(msb_controller_number, msg.data1) {
                        true
                    } else if msg.data1 >= 32 && opt_matches(msb_controller_number, msg.data1 - 32)
                     {
                        true
                    } else {
                        match msb_controller_number {
                            None => true,
                            Some(_) => false,
                        }
                    }
                } else {
                    false
                }
            },
            MidiSource::ParameterNumberValue { channel, .. } => kind == 0xb && opt_matches(
                channel,
                ch,
            ) && (msg.data1 == 98 || msg.data1 == 99 || msg.data1 == 100 || msg.data1 == 101
                || msg.data1 == 6 || msg.data1 == 38),
            MidiSource::ProgramChangeNumber { channel } => kind == 0xc && opt_matches(channel, ch),
            MidiSource::ChannelPressureAmount { channel } => kind == 0xd && opt_matches(
                channel,
                ch,
            ),
            MidiSource::PitchBendChangeValue { channel } => kind == 0xe && opt_matches(channel, ch),
            MidiSource::ClockTempo => msg.status == 0xf8,
            MidiSource::ClockTransport { message } => msg.status == message.status(),
        }
    }

    /// Builds the feedback message that makes a control surface show the
    /// given value, as [`spec_feedback_msg`] says.
    pub fn feedback(&self, value: UnitValue) -> (r: Option<RawMidiMessage>)
        ensures
            r == spec_feedback_msg(*self, value.spec_raw()),
    {
        match *self {
            MidiSource::NoteVelocity { channel, key_number } => {
                let ch = channel_or_zero(channel);
                let key = number_or_zero(key_number);
                Some(note_on_message(ch, key, unit_value_to_cc7(value)))
            },
            MidiSource::NoteKeyNumber { channel } => {
                let ch = channel_or_zero(channel);
                Some(note_on_message(ch, unit_value_to_cc7(value), 127))
            },
            MidiSource::PolyphonicKeyPressureAmount { channel, key_number } => {
                let ch = channel_or_zero(channel);
                let key = number_or_zero(key_number);
                Some(polyphonic_key_pressure_message(ch, key, unit_value_to_cc7(value)))
            },
            MidiSource::ControlChangeValue { channel, controller_number, .. } => {
                let ch = channel_or_zero(channel);
                let number = number_or_zero(controller_number);
                Some(control_change_message(ch, number, unit_value_to_cc7(value)))
            },
            MidiSource::ControlChange14BitValue { channel, msb_controller_number } => {
                let ch = channel_or_zero(channel);
                let number = number_or_zero(msb_controller_number);
                Some(control_change_message(ch, number, unit_value_to_cc7(value)))
            },
            MidiSource::ParameterNumberValue { .. } => None,
            MidiSource::ProgramChangeNumber { channel } => {
                let ch = channel_or_zero(channel);
                Some(program_change_message(ch, unit_value_to_cc7(value)))
            },
            MidiSource::ChannelPressureAmount { channel } => {
                let ch = channel_or_zero(channel);
                Some(channel_pressure_message(ch, unit_value_to_cc7(value)))
            },
            MidiSource::PitchBendChangeValue { channel } => {
                let ch = channel_or_zero(channel);
                Some(pitch_bend_message(ch, unit_value_to_cc14(value)))
            },
            MidiSource::ClockTempo => None,
            MidiSource::ClockTransport { .. } => None,
        }
    }
}

/// The channel a feedback message goes out on: the configured one, or 0 for
/// "any".
pub open spec fn spec_channel_or_zero(channel: Option<u8>) -> int {
    match channel {
        Some(c) => if c < 16 {
            c as int
        } else {
            0
        },
        None => 0,
    }
}

fn channel_or_zero(channel: Option<u8>) -> (r: u8)
    ensures
        r == spec_channel_or_zero(channel),
        r < 16,
{
    match channel {
        Some(c) => if c < 16 {
            c
        } else {
            0
        },
        None => 0,
    }
}

/// The data number a feedback message carries: the configured one, or 0 for
/// "any".
pub open spec fn spec_number_or_zero(number: Option<u8>) -> int {
    match number {
        Some(n) => if n < 128 {
            n as int
        } else {
            0
        },
        None => 0,
    }
}

fn number_or_zero(number: Option<u8>) -> (r: u8)
    ensures
        r == spec_number_or_zero(number),
        r < 128,
{
    match number {
        Some(n) => if n < 128 {
            n
        } else {
            0
        },
        None => 0,
    }
}

} // verus!
