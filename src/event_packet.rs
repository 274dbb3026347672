//! USB-MIDI event packets: a header byte (cable number, code index number)
//! followed by a MIDI message padded to three bytes.
use vstd::prelude::*;
use crate::cable_number::{group_cable_number, CableNumber, InvalidCableNumber};
use crate::code_index_number::{cin_of, CodeIndexNumber};
use crate::message::{
    decode_spec, is_event_type, lemma_decode_wire_padded, lemma_raw_bytes, raw_of, Message,
    Payload, Raw, NOTE_OFF_MASK, NOTE_ON_MASK, POLYPHONIC_MASK,
};
use crate::values::{clamp7, group_values};

verus! {

/// Why a packet or a message could not be decoded.
#[derive(Clone, Copy, Debug, PartialEq, Eq, Structural)]
pub enum MidiPacketParsingError {
    /// The high nibble of the status byte names no supported message kind.
    InvalidEventType(u8),
    /// The note byte is not a 7-bit value.
    InvalidNote(u8),
    /// Too few bytes were supplied.
    MissingDataPacket,
    /// A cable number outside `0..=15`.
    InvalidCableNumber(u8),
}

/// A message travelling on one of the cables of a USB-MIDI device.
#[derive(Clone, Copy, Debug, PartialEq, Eq, Structural)]
pub struct UsbMidiEventPacket {
    pub cable_number: CableNumber,
    pub message: Message,
}

/// `n` zero bytes.
pub open spec fn zeros(n: nat) -> Seq<u8> {
    Seq::new(n, |i: int| 0u8)
}

impl UsbMidiEventPacket {
    /// Every field holds a value of its range.
    pub open spec fn wf(self) -> bool {
        self.cable_number@ <= 15 && self.message.wf()
    }

    /// The header byte: the cable number in the high nibble, the code index
    /// number of the message in the low nibble.
    pub open spec fn header(self) -> u8 {
        (self.cable_number@ * 16 + cin_of(self.message)) as u8
    }

    /// The four bytes of the packet: header, then the message's wire bytes
    /// padded with zeros.
    pub open spec fn bytes(self) -> Seq<u8> {
        let w = self.message.wire();
        seq![self.header()] + w + zeros((3 - w.len()) as nat)
    }
}

/// The outcome of decoding a packet from `buf`: the cable number is the high
/// nibble of the header, the message is decoded from the bytes after it. The
/// code index number in the header is not consulted.
pub open spec fn decode_packet_spec(buf: Seq<u8>) -> Result<UsbMidiEventPacket, MidiPacketParsingError> {
    if buf.len() < 2 {
        Err(MidiPacketParsingError::MissingDataPacket)
    } else {
        match decode_spec(buf.skip(1)) {
            Ok(message) => Ok(
                UsbMidiEventPacket { cable_number: CableNumber::from_view(buf[0] / 16), message },
            ),
            Err(e) => Err(e),
        }
    }
}

pub(crate) proof fn lemma_header_bits(cable: u8, cin: u8)
    requires
        cable <= 15,
        cin <= 15,
    ensures
        (cable << 4u8) | cin == cable * 16 + cin,
{
    assert((cable << 4u8) | cin == cable * 16 + cin) by (bit_vector)
        requires
            cable <= 15,
            cin <= 15,
    ;
}

proof fn lemma_high_nibble(b: u8)
    ensures
        b >> 4u8 == b / 16,
        b >> 4u8 <= 15,
{
    assert(b >> 4u8 == b / 16 && b >> 4u8 <= 15) by (bit_vector);
}

impl UsbMidiEventPacket {
    /// A packet of `midi` on cable `cable`.
    pub fn from_midi(cable: u8, midi: Message) -> (r: UsbMidiEventPacket)
        requires
            cable < 16,
        ensures
            r.cable_number == CableNumber::from_view(cable),
            r.message == midi,
    {
        UsbMidiEventPacket { cable_number: CableNumber::new(cable), message: midi }
    }

    /// A packet of `message` on `cable_number`.
    pub fn from_parts(cable_number: CableNumber, message: Message) -> (r: UsbMidiEventPacket)
        ensures
            r.cable_number == cable_number,
            r.message == message,
    {
        UsbMidiEventPacket { cable_number, message }
    }

    /// Encodes the packet into its four bytes.
    pub fn to_bytes(self) -> (r: [u8; 4])
        ensures
            r@ == self.bytes(),
            self.wf(),
    {
        self.message.establish_wf();
        let cable = self.cable_number.value();
        let index_number = CodeIndexNumber::find_from_message(&self.message).value();
        let header: u8 = cable << 4 | index_number;
        proof {
            lemma_header_bits(cable, index_number);
        }
        let raw = Raw::from(self.message);
        proof {
            lemma_raw_bytes(self.message);
        }
        let data: [u8; 4] = match raw.payload {
            Payload::Empty => [header, raw.status, 0, 0],
            Payload::SingleByte(a) => [header, raw.status, a.value(), 0],
            Payload::DoubleByte(a, b) => [header, raw.status, a.value(), b.value()],
        };
        proof {
            assert(raw == raw_of(self.message));
            assert(data@ =~= self.bytes());
        }
        data
    }

    /// Decodes a packet. Fails with `MissingDataPacket` on fewer than two
    /// bytes, and otherwise with the message decoder's error.
    pub fn try_from(buf: &[u8]) -> (r: Result<UsbMidiEventPacket, MidiPacketParsingError>)
        ensures
            r == decode_packet_spec(buf@),
    {
        if buf.len() < 2 {
            return Err(MidiPacketParsingError::MissingDataPacket);
        }
        let header = buf[0];
        proof {
            lemma_high_nibble(header);
        }
        let cable_number = match CableNumber::try_from(header >> 4) {
            Ok(c) => c,
            Err(InvalidCableNumber(b)) => return Err(MidiPacketParsingError::InvalidCableNumber(b)),
        };
        let rest = &buf[1..buf.len()];
        assert(rest@ == buf@.skip(1));
        match Message::try_from(rest) {
            Ok(message) => Ok(UsbMidiEventPacket { cable_number, message }),
            Err(e) => Err(e),
        }
    }
}

/// Encoding then decoding gives back the packet, for every cable and every
/// well-formed message; the header carries the cable number in its high
/// nibble and the message's code index number in its low nibble.
pub proof fn lemma_round_trip(p: UsbMidiEventPacket)
    requires
        p.wf(),
    ensures
        decode_packet_spec(p.bytes()) == Ok::<UsbMidiEventPacket, MidiPacketParsingError>(p),
        p.bytes().len() == 4,
        p.bytes()[0] / 16 == p.cable_number@,
        p.bytes()[0] % 16 == cin_of(p.message),
{
    broadcast use group_cable_number;

    let b = p.bytes();
    let w = p.message.wire();
    let pad = zeros((3 - w.len()) as nat);
    assert(b.skip(1) =~= w + pad);
    lemma_decode_wire_padded(p.message, pad);
    assert(b[0] == p.header());
}

/// A buffer of fewer than two bytes never decodes: it fails with
/// `MissingDataPacket`.
pub proof fn lemma_short_buffer(buf: Seq<u8>)
    requires
        buf.len() < 2,
    ensures
        decode_packet_spec(buf) == Err::<UsbMidiEventPacket, MidiPacketParsingError>(
            MidiPacketParsingError::MissingDataPacket,
        ),
{
}

/// Whenever a packet decodes, the message's channel is the low nibble of its
/// status byte; and a complete packet whose status byte's high nibble names a
/// message kind, and whose note byte (if any) is 7-bit, does decode, whatever
/// the channel nibble.
pub proof fn lemma_channel_masking(buf: Seq<u8>)
    ensures
        decode_packet_spec(buf) is Ok ==> decode_packet_spec(buf)->Ok_0.message.channel()@ == buf[1]
            & 0x0Fu8,
        buf.len() == 4 && is_event_type(buf[1] & 0xF0u8) && buf[2] <= 127 ==> decode_packet_spec(
            buf,
        ) is Ok,
{
    broadcast use group_values;

}

/// On a message that carries a note, the note byte is validated and the
/// velocity byte saturated: a note byte above 127 fails with `InvalidNote`
/// carrying that byte, while any velocity byte decodes, clamped to 127.
pub proof fn lemma_note_strict_velocity_clamped(buf: Seq<u8>)
    requires
        buf.len() == 4,
        buf[1] & 0xF0u8 == NOTE_OFF_MASK || buf[1] & 0xF0u8 == NOTE_ON_MASK || buf[1] & 0xF0u8
            == POLYPHONIC_MASK,
    ensures
        buf[2] > 127 ==> decode_packet_spec(buf) == Err::<UsbMidiEventPacket, MidiPacketParsingError>(
            MidiPacketParsingError::InvalidNote(buf[2]),
        ),
        buf[2] <= 127 ==> decode_packet_spec(buf) is Ok && decode_packet_spec(buf)->Ok_0.message.data()
            == seq![buf[2], clamp7(buf[3])],
{
    broadcast use group_values;

    if buf[2] <= 127 {
        assert(decode_packet_spec(buf)->Ok_0.message.data() =~= seq![buf[2], clamp7(buf[3])]);
    }
}

} // verus!
