//! MIDI channel-voice messages and their raw wire form: a status byte (event
//! type in the high nibble, channel in the low nibble) followed by one or two
//! data bytes.
use vstd::prelude::*;
use crate::values::{clamp7, group_values, ChannelNumber, NoteNumber, U7};
use crate::event_packet::MidiPacketParsingError;

verus! {

pub const NOTE_OFF_MASK: u8 = 0b1000_0000;
pub const NOTE_ON_MASK: u8 = 0b1001_0000;
pub const POLYPHONIC_MASK: u8 = 0b1010_0000;
pub const CONTROL_CHANGE_MASK: u8 = 0b1011_0000;
pub const PROGRAM_MASK: u8 = 0b1100_0000;
pub const CHANNEL_AFTERTOUCH_MASK: u8 = 0b1101_0000;
pub const PITCH_BEND_MASK: u8 = 0b1110_0000;

/// A MIDI channel-voice message. System-exclusive messages, whose length is
/// unbounded, are not represented.
#[derive(Clone, Copy, Debug, PartialEq, Eq, Structural)]
pub enum Message {
    /// ChannelNumber, note, velocity.
    NoteOff(ChannelNumber, NoteNumber, U7),
    /// ChannelNumber, note, velocity.
    NoteOn(ChannelNumber, NoteNumber, U7),
    /// ChannelNumber, note, pressure.
    PolyphonicAftertouch(ChannelNumber, NoteNumber, U7),
    /// ChannelNumber, controller, value.
    ControlChange(ChannelNumber, U7, U7),
    /// ChannelNumber, program.
    ProgramChange(ChannelNumber, U7),
    /// ChannelNumber, pressure.
    ChannelAftertouch(ChannelNumber, U7),
    /// ChannelNumber, least significant seven bits, most significant seven bits.
    PitchWheelChange(ChannelNumber, U7, U7),
}

/// Whether `event_type` is the event-type mask of one of the message kinds.
pub open spec fn is_event_type(event_type: u8) -> bool {
    event_type == NOTE_OFF_MASK || event_type == NOTE_ON_MASK || event_type == POLYPHONIC_MASK
        || event_type == CONTROL_CHANGE_MASK || event_type == PROGRAM_MASK
        || event_type == CHANNEL_AFTERTOUCH_MASK || event_type == PITCH_BEND_MASK
}

/// How many data bytes follow a status byte of this event type.
pub open spec fn data_len(event_type: u8) -> nat {
    if event_type == PROGRAM_MASK || event_type == CHANNEL_AFTERTOUCH_MASK {
        1
    } else {
        2
    }
}

impl Message {
    /// Every field holds a value of its range.
    pub open spec fn wf(self) -> bool {
        match self {
            Message::NoteOff(c, n, v) => c@ <= 15 && n@ <= 127 && v@ <= 127,
            Message::NoteOn(c, n, v) => c@ <= 15 && n@ <= 127 && v@ <= 127,
            Message::PolyphonicAftertouch(c, n, v) => c@ <= 15 && n@ <= 127 && v@ <= 127,
            Message::ControlChange(c, k, v) => c@ <= 15 && k@ <= 127 && v@ <= 127,
            Message::ProgramChange(c, p) => c@ <= 15 && p@ <= 127,
            Message::ChannelAftertouch(c, p) => c@ <= 15 && p@ <= 127,
            Message::PitchWheelChange(c, l, m) => c@ <= 15 && l@ <= 127 && m@ <= 127,
        }
    }

    pub open spec fn channel(self) -> ChannelNumber {
        match self {
            Message::NoteOff(c, ..) => c,
            Message::NoteOn(c, ..) => c,
            Message::PolyphonicAftertouch(c, ..) => c,
            Message::ControlChange(c, ..) => c,
            Message::ProgramChange(c, ..) => c,
            Message::ChannelAftertouch(c, ..) => c,
            Message::PitchWheelChange(c, ..) => c,
        }
    }

    /// The high nibble of the status byte.
    pub open spec fn event_mask(self) -> u8 {
        match self {
            Message::NoteOff(..) => NOTE_OFF_MASK,
            Message::NoteOn(..) => NOTE_ON_MASK,
            Message::PolyphonicAftertouch(..) => POLYPHONIC_MASK,
            Message::ControlChange(..) => CONTROL_CHANGE_MASK,
            Message::ProgramChange(..) => PROGRAM_MASK,
            Message::ChannelAftertouch(..) => CHANNEL_AFTERTOUCH_MASK,
            Message::PitchWheelChange(..) => PITCH_BEND_MASK,
        }
    }

    pub open spec fn status(self) -> u8 {
        self.event_mask() | self.channel()@
    }

    /// The data bytes, in wire order (pitch bend: LSB first).
    pub open spec fn data(self) -> Seq<u8> {
        match self {
            Message::NoteOff(_, n, v) => seq![n@, v@],
            Message::NoteOn(_, n, v) => seq![n@, v@],
            Message::PolyphonicAftertouch(_, n, v) => seq![n@, v@],
            Message::ControlChange(_, k, v) => seq![k@, v@],
            Message::ProgramChange(_, p) => seq![p@],
            Message::ChannelAftertouch(_, p) => seq![p@],
            Message::PitchWheelChange(_, l, m) => seq![l@, m@],
        }
    }

    /// The message on the wire: status byte, then data bytes.
    pub open spec fn wire(self) -> Seq<u8> {
        seq![self.status()] + self.data()
    }
}

/// The outcome of decoding a message from the start of `data`.
///
/// The channel is the low nibble of the status byte; a note byte must be
/// 7-bit, while every other data byte is saturated into the 7-bit range.
pub open spec fn decode_spec(data: Seq<u8>) -> Result<Message, MidiPacketParsingError> {
    if data.len() == 0 {
        Err(MidiPacketParsingError::MissingDataPacket)
    } else {
        let event_type = data[0] & 0xF0u8;
        let ch = ChannelNumber::from_view(data[0] & 0x0Fu8);
        if !is_event_type(event_type) {
            Err(MidiPacketParsingError::InvalidEventType(event_type))
        } else if data.len() < 1 + data_len(event_type) {
            Err(MidiPacketParsingError::MissingDataPacket)
        } else if event_type == PROGRAM_MASK {
            Ok(Message::ProgramChange(ch, U7::from_view(clamp7(data[1]))))
        } else if event_type == CHANNEL_AFTERTOUCH_MASK {
            Ok(Message::ChannelAftertouch(ch, U7::from_view(clamp7(data[1]))))
        } else if event_type == CONTROL_CHANGE_MASK {
            Ok(
                Message::ControlChange(
                    ch,
                    U7::from_view(clamp7(data[1])),
                    U7::from_view(clamp7(data[2])),
                ),
            )
        } else if event_type == PITCH_BEND_MASK {
            Ok(
                Message::PitchWheelChange(
                    ch,
                    U7::from_view(clamp7(data[1])),
                    U7::from_view(clamp7(data[2])),
                ),
            )
        } else if data[1] > 127 {
            Err(MidiPacketParsingError::InvalidNote(data[1]))
        } else {
            let n = NoteNumber::from_view(data[1]);
            let v = U7::from_view(clamp7(data[2]));
            if event_type == NOTE_OFF_MASK {
                Ok(Message::NoteOff(ch, n, v))
            } else if event_type == NOTE_ON_MASK {
                Ok(Message::NoteOn(ch, n, v))
            } else {
                Ok(Message::PolyphonicAftertouch(ch, n, v))
            }
        }
    }
}

/// The data bytes of a raw message: none, one or two.
#[derive(Clone, Copy, Debug, PartialEq, Eq, Structural)]
pub enum Payload {
    Empty,
    SingleByte(U7),
    DoubleByte(U7, U7),
}

impl Payload {
    pub open spec fn bytes(self) -> Seq<u8> {
        match self {
            Payload::Empty => seq![],
            Payload::SingleByte(a) => seq![a@],
            Payload::DoubleByte(a, b) => seq![a@, b@],
        }
    }
}

/// A message in wire form: a status byte and its data bytes.
#[derive(Clone, Copy, Debug, PartialEq, Eq, Structural)]
pub struct Raw {
    pub status: u8,
    pub payload: Payload,
}

impl Raw {
    pub open spec fn bytes(self) -> Seq<u8> {
        seq![self.status] + self.payload.bytes()
    }
}

/// The raw form of a message: its status byte, and a payload whose shape is
/// fixed by the message kind.
pub open spec fn raw_of(m: Message) -> Raw {
    let status = m.status();
    match m {
        Message::NoteOff(_, n, v) => Raw { status, payload: Payload::DoubleByte(U7::from_view(n@), v) },
        Message::NoteOn(_, n, v) => Raw { status, payload: Payload::DoubleByte(U7::from_view(n@), v) },
        Message::PolyphonicAftertouch(_, n, v) => Raw {
            status,
            payload: Payload::DoubleByte(U7::from_view(n@), v),
        },
        Message::ControlChange(_, k, v) => Raw { status, payload: Payload::DoubleByte(k, v) },
        Message::ProgramChange(_, p) => Raw { status, payload: Payload::SingleByte(p) },
        Message::ChannelAftertouch(_, p) => Raw { status, payload: Payload::SingleByte(p) },
        Message::PitchWheelChange(_, l, m) => Raw { status, payload: Payload::DoubleByte(l, m) },
    }
}

/// The raw form of a message has the message's wire bytes.
pub proof fn lemma_raw_bytes(m: Message)
    ensures
        raw_of(m).bytes() == m.wire(),
{
    broadcast use group_values;

    assert(raw_of(m).bytes() =~= m.wire());
}

impl From<Message> for Raw {
    fn from(value: Message) -> (r: Raw) {
        match value {
            Message::NoteOn(chan, note, vel) => {
                let payload = Payload::DoubleByte(note.to_u7(), vel);
                let status = NOTE_ON_MASK | chan.value();
                Raw { status, payload }
            },
            Message::NoteOff(chan, note, vel) => {
                let payload = Payload::DoubleByte(note.to_u7(), vel);
                let status = NOTE_OFF_MASK | chan.value();
                Raw { status, payload }
            },
            Message::PolyphonicAftertouch(chan, note, pressure) => {
                let payload = Payload::DoubleByte(note.to_u7(), pressure);
                let status = POLYPHONIC_MASK | chan.value();
                Raw { status, payload }
            },
            Message::ControlChange(chan, control, value) => {
                let payload = Payload::DoubleByte(control, value);
                let status = CONTROL_CHANGE_MASK | chan.value();
                Raw { status, payload }
            },
            Message::ProgramChange(chan, program) => {
                let payload = Payload::SingleByte(program);
                let status = PROGRAM_MASK | chan.value();
                Raw { status, payload }
            },
            Message::ChannelAftertouch(chan, pressure) => {
                let payload = Payload::SingleByte(pressure);
                let status = CHANNEL_AFTERTOUCH_MASK | chan.value();
                Raw { status, payload }
            },
            Message::PitchWheelChange(chan, lsb, msb) => {
                let payload = Payload::DoubleByte(lsb, msb);
                let status = PITCH_BEND_MASK | chan.value();
                Raw { status, payload }
            },
        }
    }
}

impl vstd::std_specs::convert::FromSpecImpl<Message> for Raw {
    open spec fn obeys_from_spec() -> bool {
        true
    }

    open spec fn from_spec(v: Message) -> Raw {
        raw_of(v)
    }
}

impl Message {
    /// The fields of a message in hand always hold values of their ranges.
    pub(crate) fn establish_wf(&self)
        ensures
            self.wf(),
    {
        match self {
            Message::NoteOff(c, n, v) | Message::NoteOn(c, n, v) | Message::PolyphonicAftertouch(
                c,
                n,
                v,
            ) => {
                c.value();
                n.value();
                v.value();
            },
            Message::ControlChange(c, a, b) | Message::PitchWheelChange(c, a, b) => {
                c.value();
                a.value();
                b.value();
            },
            Message::ProgramChange(c, a) | Message::ChannelAftertouch(c, a) => {
                c.value();
                a.value();
            },
        }
    }

    /// Decodes a message from the start of `data`.
    pub fn try_from(data: &[u8]) -> (r: Result<Message, MidiPacketParsingError>)
        ensures
            r == decode_spec(data@),
    {
        if data.len() == 0 {
            return Err(MidiPacketParsingError::MissingDataPacket);
        }
        let status_byte = data[0];
        let event_type = status_byte & 0b1111_0000;
        let channel = ChannelNumber::from_low_nibble(status_byte);
        if event_type != NOTE_OFF_MASK && event_type != NOTE_ON_MASK && event_type
            != POLYPHONIC_MASK && event_type != CONTROL_CHANGE_MASK && event_type != PROGRAM_MASK
            && event_type != CHANNEL_AFTERTOUCH_MASK && event_type != PITCH_BEND_MASK {
            return Err(MidiPacketParsingError::InvalidEventType(event_type));
        }
        if event_type == PROGRAM_MASK || event_type == CHANNEL_AFTERTOUCH_MASK {
            if data.len() < 2 {
                return Err(MidiPacketParsingError::MissingDataPacket);
            }
            let value = U7::from_clamped(data[1]);
            if event_type == PROGRAM_MASK {
                Ok(Message::ProgramChange(channel, value))
            } else {
                Ok(Message::ChannelAftertouch(channel, value))
            }
        } else {
            if data.len() < 3 {
                return Err(MidiPacketParsingError::MissingDataPacket);
            }
            if event_type == CONTROL_CHANGE_MASK {
                Ok(Message::ControlChange(channel, U7::from_clamped(data[1]), get_velocity(data)))
            } else if event_type == PITCH_BEND_MASK {
                Ok(
                    Message::PitchWheelChange(
                        channel,
                        U7::from_clamped(data[1]),
                        U7::from_clamped(data[2]),
                    ),
                )
            } else {
                let note = match get_note(data) {
                    Ok(note) => note,
                    Err(e) => return Err(e),
                };
                let velocity = get_velocity(data);
                if event_type == NOTE_OFF_MASK {
                    Ok(Message::NoteOff(channel, note, velocity))
                } else if event_type == NOTE_ON_MASK {
                    Ok(Message::NoteOn(channel, note, velocity))
                } else {
                    Ok(Message::PolyphonicAftertouch(channel, note, velocity))
                }
            }
        }
    }
}

/// A status byte built from an event-type mask and a channel splits back into
/// the two.
pub proof fn lemma_status_split(mask: u8, ch: u8)
    requires
        mask % 16 == 0,
        ch <= 15,
    ensures
        (mask | ch) & 0xF0 == mask,
        (mask | ch) & 0x0F == ch,
{
    assert((mask | ch) & 0xF0 == mask && (mask | ch) & 0x0F == ch) by (bit_vector)
        requires
            mask % 16 == 0,
            ch <= 15,
    ;
}

/// Decoding the wire bytes of a well-formed message gives the message back.
pub proof fn lemma_decode_wire(m: Message)
    requires
        m.wf(),
    ensures
        decode_spec(m.wire()) == Ok::<Message, MidiPacketParsingError>(m),
{
    broadcast use group_values;

    lemma_status_split(m.event_mask(), m.channel()@);
}

/// Decoding the wire bytes of a well-formed message, followed by any bytes,
/// gives the message back.
pub proof fn lemma_decode_wire_padded(m: Message, rest: Seq<u8>)
    requires
        m.wf(),
    ensures
        decode_spec(m.wire() + rest) == Ok::<Message, MidiPacketParsingError>(m),
{
    lemma_decode_wire(m);
    let w = m.wire();
    let d = w + rest;
    assert(d.len() >= w.len());
    assert forall|i: int| 0 <= i < w.len() implies d[i] == w[i] by {}
    assert(decode_spec(d) == decode_spec(w));
}

/// Reads the note byte (offset 1) strictly: a byte above 127 is an error,
/// never clamped.
pub fn get_note(data: &[u8]) -> (r: Result<NoteNumber, MidiPacketParsingError>)
    requires
        data@.len() >= 2,
    ensures
        data@[1] <= 127 ==> r == Ok::<NoteNumber, MidiPacketParsingError>(NoteNumber::from_view(data@[1])),
        data@[1] > 127 ==> r == Err::<NoteNumber, MidiPacketParsingError>(
            MidiPacketParsingError::InvalidNote(data@[1]),
        ),
{
    let note_byte = data[1];
    match NoteNumber::try_new(note_byte) {
        Some(note) => Ok(note),
        None => Err(MidiPacketParsingError::InvalidNote(note_byte)),
    }
}

/// Reads the velocity byte (offset 2), saturating it into the 7-bit range.
pub fn get_velocity(data: &[u8]) -> (r: U7)
    requires
        data@.len() >= 3,
    ensures
        r == U7::from_view(clamp7(data@[2])),
{
    U7::from_clamped(data[2])
}

} // verus!
