//! Classification of the messages of the `midi_types` crate, which also covers
//! system common and real-time messages.
use vstd::prelude::*;
use midi_types::MidiMessage;
use crate::cable_number::CableNumber;
use crate::event_packet::lemma_header_bits;
use crate::code_index_number::{
    CodeIndexNumber, CHANNEL_PRESSURE, CONTROL_CHANGE, NOTE_OFF, NOTE_ON, PITCHBEND_CHANGE,
    POLY_KEYPRESS, PROGRAM_CHANGE, SINGLE_BYTE, SYSTEM_COMMON_LEN1, SYSTEM_COMMON_LEN2,
    SYSTEM_COMMON_LEN3,
};

verus! {

#[verifier::external_type_specification]
pub struct ExMidiMessage(midi_types::MidiMessage);

#[verifier::external_type_specification]
#[verifier::external_body]
pub struct ExMidiChannel(midi_types::Channel);

#[verifier::external_type_specification]
#[verifier::external_body]
pub struct ExMidiNote(midi_types::Note);

#[verifier::external_type_specification]
#[verifier::external_body]
pub struct ExMidiValue7(midi_types::Value7);

#[verifier::external_type_specification]
#[verifier::external_body]
pub struct ExMidiValue14(midi_types::Value14);

#[verifier::external_type_specification]
#[verifier::external_body]
pub struct ExMidiControl(midi_types::Control);

#[verifier::external_type_specification]
#[verifier::external_body]
pub struct ExMidiProgram(midi_types::Program);

#[verifier::external_type_specification]
#[verifier::external_body]
pub struct ExMidiQuarterFrame(midi_types::QuarterFrame);

/// The number of bytes a message takes on the wire, status byte included.
pub open spec fn midi_len(m: MidiMessage) -> usize {
    match m {
        MidiMessage::NoteOff(..) | MidiMessage::NoteOn(..) | MidiMessage::KeyPressure(..)
        | MidiMessage::ControlChange(..) | MidiMessage::PitchBendChange(..)
        | MidiMessage::SongPositionPointer(..) => 3,
        MidiMessage::ProgramChange(..) | MidiMessage::ChannelPressure(..)
        | MidiMessage::QuarterFrame(..) | MidiMessage::SongSelect(..) => 2,
        MidiMessage::TuneRequest | MidiMessage::TimingClock | MidiMessage::Start
        | MidiMessage::Continue | MidiMessage::Stop | MidiMessage::ActiveSensing
        | MidiMessage::Reset => 1,
    }
}

/// Relies on midi_types' `MidiMessage::len`: the rendered length of each kind
/// of message, status byte included.
pub assume_specification[ midi_types::MidiMessage::len ](m: &MidiMessage) -> (r: usize)
    ensures
        r == midi_len(*m),
;

/// The code index number of each kind of message: channel-voice kinds have
/// their own codes, real-time messages are single bytes, and the other
/// system common messages are classified by their length.
pub open spec fn midi_cin_of(m: MidiMessage) -> u8 {
    match m {
        MidiMessage::NoteOff(..) => NOTE_OFF,
        MidiMessage::NoteOn(..) => NOTE_ON,
        MidiMessage::KeyPressure(..) => POLY_KEYPRESS,
        MidiMessage::ControlChange(..) => CONTROL_CHANGE,
        MidiMessage::ProgramChange(..) => PROGRAM_CHANGE,
        MidiMessage::ChannelPressure(..) => CHANNEL_PRESSURE,
        MidiMessage::PitchBendChange(..) => PITCHBEND_CHANGE,
        MidiMessage::Stop | MidiMessage::Start | MidiMessage::Continue | MidiMessage::TimingClock
        | MidiMessage::Reset | MidiMessage::ActiveSensing => SINGLE_BYTE,
        _ => if midi_len(m) == 3 {
            SYSTEM_COMMON_LEN3
        } else if midi_len(m) == 2 {
            SYSTEM_COMMON_LEN2
        } else {
            SYSTEM_COMMON_LEN1
        },
    }
}

impl CodeIndexNumber {
    /// Classifies a message of the `midi_types` crate. Total: every kind of
    /// message has a length of one, two or three bytes.
    pub fn find_from_midi_message(value: &MidiMessage) -> (r: CodeIndexNumber)
        ensures
            r@ == midi_cin_of(*value),
            r@ <= 15,
    {
        let code = match value {
            MidiMessage::NoteOn(..) => NOTE_ON,
            MidiMessage::NoteOff(..) => NOTE_OFF,
            MidiMessage::ChannelPressure(..) => CHANNEL_PRESSURE,
            MidiMessage::PitchBendChange(..) => PITCHBEND_CHANGE,
            MidiMessage::KeyPressure(..) => POLY_KEYPRESS,
            MidiMessage::ProgramChange(..) => PROGRAM_CHANGE,
            MidiMessage::ControlChange(..) => CONTROL_CHANGE,
            MidiMessage::Stop
            | MidiMessage::Start
            | MidiMessage::Continue
            | MidiMessage::TimingClock
            | MidiMessage::Reset
            | MidiMessage::ActiveSensing => SINGLE_BYTE,
            _ => {
                let len = value.len();
                if len == 3 {
                    SYSTEM_COMMON_LEN3
                } else if len == 2 {
                    SYSTEM_COMMON_LEN2
                } else {
                    SYSTEM_COMMON_LEN1
                }
            },
        };
        CodeIndexNumber::new(code)
    }
}

/// The high nibble of the status byte of each kind of message (`0xF0` for
/// system messages).
pub open spec fn midi_event_type(m: MidiMessage) -> u8 {
    match m {
        MidiMessage::NoteOff(..) => 0x80,
        MidiMessage::NoteOn(..) => 0x90,
        MidiMessage::KeyPressure(..) => 0xA0,
        MidiMessage::ControlChange(..) => 0xB0,
        MidiMessage::ProgramChange(..) => 0xC0,
        MidiMessage::ChannelPressure(..) => 0xD0,
        MidiMessage::PitchBendChange(..) => 0xE0,
        _ => 0xF0,
    }
}

/// Relies on midi_convert's `MidiRenderSlice::render_slice` for `MidiMessage`:
/// into a buffer of three bytes it writes the status byte and the data bytes,
/// as many as `MidiMessage::len` gives, and returns that count.
#[verifier::external_body]
fn render(m: &MidiMessage) -> (r: ([u8; 3], usize))
    ensures
        r.1 == midi_len(*m),
        r.0[0] & 0xF0u8 == midi_event_type(*m),
        forall|i: int| r.1 <= i < 3 ==> r.0[i] == 0,
{
    let mut buf = [0u8; 3];
    let n = midi_convert::render_slice::MidiRenderSlice::render_slice(m, &mut buf);
    (buf, n)
}

/// Encodes a `midi_types` message on `cable` into a USB-MIDI event packet:
/// the header carries the cable number and the message's code index number,
/// then come the message's bytes, padded with zeros.
pub fn encode_midi_packet(cable: CableNumber, message: &MidiMessage) -> (r: [u8; 4])
    ensures
        r[0] == cable@ * 16 + midi_cin_of(*message),
        r[1] & 0xF0u8 == midi_event_type(*message),
        forall|i: int| 1 + midi_len(*message) <= i < 4 ==> r[i] == 0,
{
    let cable_number = cable.value();
    let index_number = CodeIndexNumber::find_from_midi_message(message).value();
    let header: u8 = cable_number << 4 | index_number;
    proof {
        lemma_header_bits(cable_number, index_number);
    }
    let (bytes, _len) = render(message);
    [header, bytes[0], bytes[1], bytes[2]]
}

} // verus!
