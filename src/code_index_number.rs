//! The Code Index Number (CIN): the low nibble of a USB-MIDI packet header,
//! which classifies the MIDI bytes that follow it.
use vstd::prelude::*;
use crate::message::Message;

verus! {

/// Miscellaneous function codes, reserved for future extensions.
pub const MISC_FUNCTION: u8 = 0x0;
/// Cable events, reserved for future expansion.
pub const CABLE_EVENTS: u8 = 0x1;
/// Two-byte System Common messages.
pub const SYSTEM_COMMON_LEN2: u8 = 0x2;
/// Three-byte System Common messages.
pub const SYSTEM_COMMON_LEN3: u8 = 0x3;
/// A SysEx starts or continues.
pub const SYSEX_STARTS: u8 = 0x4;
/// A SysEx continues.
pub const SYSEX_CONTINUES: u8 = SYSEX_STARTS;
/// Single-byte System Common message.
pub const SYSTEM_COMMON_LEN1: u8 = 0x5;
/// A SysEx ends with the following byte.
pub const SYSEX_ENDS_NEXT1: u8 = SYSTEM_COMMON_LEN1;
/// A SysEx ends with the following two bytes.
pub const SYSEX_ENDS_NEXT2: u8 = 0x6;
/// A SysEx ends with the following three bytes.
pub const SYSEX_ENDS_NEXT3: u8 = 0x7;
/// NoteNumber off.
pub const NOTE_OFF: u8 = 0x8;
/// NoteNumber on.
pub const NOTE_ON: u8 = 0x9;
/// Polyphonic key pressure.
pub const POLY_KEYPRESS: u8 = 0xA;
/// Control change.
pub const CONTROL_CHANGE: u8 = 0xB;
/// Program change.
pub const PROGRAM_CHANGE: u8 = 0xC;
/// ChannelNumber pressure.
pub const CHANNEL_PRESSURE: u8 = 0xD;
/// Pitch bend change.
pub const PITCHBEND_CHANGE: u8 = 0xE;
/// A single byte.
pub const SINGLE_BYTE: u8 = 0xF;

/// A code index number given as a value outside `0..=15`.
#[derive(Clone, Copy, Debug, PartialEq, Eq, Structural)]
pub struct InvalidCodeIndexNumber(pub u8);

/// A code index number in `0..=15`.
#[derive(Clone, Copy, Debug, PartialEq, Eq, Structural)]
pub struct CodeIndexNumber {
    value: u8,
}

/// The code index number of each kind of message.
pub open spec fn cin_of(m: Message) -> u8 {
    match m {
        Message::NoteOff(..) => NOTE_OFF,
        Message::NoteOn(..) => NOTE_ON,
        Message::PolyphonicAftertouch(..) => POLY_KEYPRESS,
        Message::ControlChange(..) => CONTROL_CHANGE,
        Message::ProgramChange(..) => PROGRAM_CHANGE,
        Message::ChannelAftertouch(..) => CHANNEL_PRESSURE,
        Message::PitchWheelChange(..) => PITCHBEND_CHANGE,
    }
}

impl CodeIndexNumber {
    #[verifier::type_invariant]
    spec fn inv(self) -> bool {
        self.value <= 15
    }

    /// The code's value.
    pub closed spec fn view(self) -> u8 {
        self.value
    }

    /// The code index number `value`.
    pub fn new(value: u8) -> (r: CodeIndexNumber)
        requires
            value <= 15,
        ensures
            r@ == value,
    {
        CodeIndexNumber { value }
    }

    /// Validating constructor: values above 15 are rejected.
    pub fn try_from(value: u8) -> (r: Result<CodeIndexNumber, InvalidCodeIndexNumber>)
        ensures
            value <= 15 ==> r is Ok && r->Ok_0@ == value,
            value > 15 ==> r == Err::<CodeIndexNumber, InvalidCodeIndexNumber>(
                InvalidCodeIndexNumber(value),
            ),
    {
        if value > 0xF {
            Err(InvalidCodeIndexNumber(value))
        } else {
            Ok(CodeIndexNumber { value })
        }
    }

    /// The code as a 4-bit value.
    pub fn value(&self) -> (r: u8)
        ensures
            r == self@,
            r <= 15,
    {
        proof {
            use_type_invariant(self);
        }
        self.value
    }

    /// Classifies a message: the code index number that heads a packet
    /// carrying it. Total over every message.
    pub fn find_from_message(value: &Message) -> (r: CodeIndexNumber)
        ensures
            r@ == cin_of(*value),
            r@ <= 15,
    {
        let code = match value {
            Message::NoteOn(..) => NOTE_ON,
            Message::NoteOff(..) => NOTE_OFF,
            Message::ChannelAftertouch(..) => CHANNEL_PRESSURE,
            Message::PitchWheelChange(..) => PITCHBEND_CHANGE,
            Message::PolyphonicAftertouch(..) => POLY_KEYPRESS,
            Message::ProgramChange(..) => PROGRAM_CHANGE,
            Message::ControlChange(..) => CONTROL_CHANGE,
        };
        CodeIndexNumber::new(code)
    }
}

/// The code index number depends on the kind of the message alone, and is a
/// 4-bit value.
pub proof fn lemma_cin_of_kind(a: Message, b: Message)
    requires
        a.event_mask() == b.event_mask(),
    ensures
        cin_of(a) == cin_of(b),
        cin_of(a) <= 15,
{
}

} // verus!
