//! Plain MIDI short messages and events.
//!
//! A short message is three plain bytes. Building messages goes through the
//! `helgoboss_midi` crate, whose constructors own the status-byte layout;
//! reading messages is plain bit logic on the bytes.

use helgoboss_midi::{
    Channel, ControllerNumber, KeyNumber, RawShortMessage, ShortMessage, ShortMessageFactory, U14,
    U7,
};
use vstd::prelude::*;

verus! {

/// A MIDI short message as its three raw bytes.
#[derive(Clone, Copy, PartialEq, Eq, Structural, Debug, Hash)]
pub struct RawMidiMessage {
    pub status: u8,
    /// First data byte, 0 to 127.
    pub data1: u8,
    /// Second data byte, 0 to 127.
    pub data2: u8,
}

impl RawMidiMessage {
    /// The channel encoded in the low nibble of the status byte.
    pub open spec fn spec_channel(self) -> int {
        self.status as int % 16
    }

    /// The type encoded in the high nibble of the status byte.
    pub open spec fn spec_kind_nibble(self) -> int {
        self.status as int / 16
    }

    pub fn channel(self) -> (r: u8)
        ensures
            r == self.spec_channel(),
            r < 16,
    {
        self.status % 16
    }

    pub fn kind_nibble(self) -> (r: u8)
        ensures
            r == self.spec_kind_nibble(),
    {
        self.status / 16
    }
}

/// Relies on `RawShortMessage::control_change`: the status byte is the
/// Control Change type byte with the channel in the low nibble, followed by
/// the controller number and the value.
#[verifier::external_body]
pub(crate) fn control_change_message(channel: u8, controller_number: u8, control_value: u8) -> (r:
    RawMidiMessage)
    requires
        channel < 16,
        controller_number < 128,
        control_value < 128,
    ensures
        r == (RawMidiMessage {
            status: (0xb0 + channel) as u8,
            data1: controller_number,
            data2: control_value,
        }),
{
    let msg = RawShortMessage::control_change(
        Channel::new(channel),
        ControllerNumber::new(controller_number),
        U7::new(control_value),
    );
    RawMidiMessage { status: msg.status_byte(), data1: msg.data_byte_1().get(), data2: msg.data_byte_2().get() }
}

/// Relies on `RawShortMessage::note_on`: the status byte is the Note On
/// type byte with the channel in the low nibble, followed by the key number
/// and the velocity.
#[verifier::external_body]
pub(crate) fn note_on_message(channel: u8, key_number: u8, velocity: u8) -> (r: RawMidiMessage)
    requires
        channel < 16,
        key_number < 128,
        velocity < 128,
    ensures
        r == (RawMidiMessage { status: (0x90 + channel) as u8, data1: key_number, data2: velocity }),
{
    let msg = RawShortMessage::note_on(Channel::new(channel), KeyNumber::new(key_number), U7::new(velocity));
    RawMidiMessage { status: msg.status_byte(), data1: msg.data_byte_1().get(), data2: msg.data_byte_2().get() }
}

/// Relies on `RawShortMessage::program_change`: the status byte is the
/// Program Change type byte with the channel in the low nibble, followed by
/// the program number and a zero byte.
#[verifier::external_body]
pub(crate) fn program_change_message(channel: u8, program_number: u8) -> (r: RawMidiMessage)
    requires
        channel < 16,
        program_number < 128,
    ensures
        r == (RawMidiMessage { status: (0xc0 + channel) as u8, data1: program_number, data2: 0 }),
{
    let msg = RawShortMessage::program_change(Channel::new(channel), U7::new(program_number));
    RawMidiMessage { status: msg.status_byte(), data1: msg.data_byte_1().get(), data2: msg.data_byte_2().get() }
}

/// Relies on `RawShortMessage::channel_pressure`: the status byte is the
/// Channel Pressure type byte with the channel in the low nibble, followed
/// by the pressure amount and a zero byte.
#[verifier::external_body]
pub(crate) fn channel_pressure_message(channel: u8, pressure_amount: u8) -> (r: RawMidiMessage)
    requires
        channel < 16,
        pressure_amount < 128,
    ensures
        r == (RawMidiMessage { status: (0xd0 + channel) as u8, data1: pressure_amount, data2: 0 }),
{
    let msg = RawShortMessage::channel_pressure(Channel::new(channel), U7::new(pressure_amount));
    RawMidiMessage { status: msg.status_byte(), data1: msg.data_byte_1().get(), data2: msg.data_byte_2().get() }
}

/// Relies on `RawShortMessage::pitch_bend_change`: the status byte is the
/// Pitch Bend type byte with the channel in the low nibble, followed by the
/// low and high 7 bits of the 14-bit value.
#[verifier::external_body]
pub(crate) fn pitch_bend_message(channel: u8, pitch_bend_value: u16) -> (r: RawMidiMessage)
    requires
        channel < 16,
        pitch_bend_value < 16384,
    ensures
        r == (RawMidiMessage {
            status: (0xe0 + channel) as u8,
            data1: (pitch_bend_value % 128) as u8,
            data2: (pitch_bend_value / 128) as u8,
        }),
{
    let msg = RawShortMessage::pitch_bend_change(Channel::new(channel), U14::new(pitch_bend_value));
    RawMidiMessage { status: msg.status_byte(), data1: msg.data_byte_1().get(), data2: msg.data_byte_2().get() }
}

/// Relies on `RawShortMessage::polyphonic_key_pressure`: the status byte is
/// the Polyphonic Key Pressure type byte with the channel in the low
/// nibble, followed by the key number and the pressure amount.
#[verifier::external_body]
pub(crate) fn polyphonic_key_pressure_message(channel: u8, key_number: u8, pressure_amount: u8) -> (r:
    RawMidiMessage)
    requires
        channel < 16,
        key_number < 128,
        pressure_amount < 128,
    ensures
        r == (RawMidiMessage {
            status: (0xa0 + channel) as u8,
            data1: key_number,
            data2: pressure_amount,
        }),
{
    let msg = RawShortMessage::polyphonic_key_pressure(
        Channel::new(channel),
        KeyNumber::new(key_number),
        U7::new(pressure_amount),
    );
    RawMidiMessage { status: msg.status_byte(), data1: msg.data_byte_1().get(), data2: msg.data_byte_2().get() }
}

/// Offset of a MIDI event within an audio block, in samples.
#[derive(Clone, Copy, PartialEq, Eq, Structural, Debug, Hash)]
pub struct SampleOffset {
    value: u64,
}

impl SampleOffset {
    pub closed spec fn spec_value(self) -> int {
        self.value as int
    }

    pub fn zero() -> (r: SampleOffset)
        ensures
            r.spec_value() == 0,
    {
        SampleOffset { value: 0 }
    }

    pub fn new(value: u64) -> (r: SampleOffset)
        ensures
            r.spec_value() == value,
    {
        SampleOffset { value }
    }

    pub fn get(self) -> (r: u64)
        ensures
            r == self.spec_value(),
    {
        self.value
    }
}

/// A message paired with its offset within the audio block it arrived in.
#[derive(Clone, Copy, PartialEq, Eq, Structural, Debug, Hash)]
pub struct MidiEvent<T> {
    offset: SampleOffset,
    msg: T,
}

impl<T: Copy> MidiEvent<T> {
    pub closed spec fn spec_offset(self) -> SampleOffset {
        self.offset
    }

    pub closed spec fn spec_msg(self) -> T {
        self.msg
    }

    pub fn without_offset(msg: T) -> (r: Self)
        ensures
            r.spec_offset().spec_value() == 0,
            r.spec_msg() == msg,
    {
        Self::new(SampleOffset::zero(), msg)
    }

    pub fn new(offset: SampleOffset, msg: T) -> (r: Self)
        ensures
            r.spec_offset() == offset,
            r.spec_msg() == msg,
    {
        MidiEvent { offset, msg }
    }

    pub fn offset(&self) -> (r: SampleOffset)
        ensures
            r == self.spec_offset(),
    {
        self.offset
    }

    pub fn msg(&self) -> (r: T)
        ensures
            r == self.spec_msg(),
    {
        self.msg
    }
}

} // verus!
