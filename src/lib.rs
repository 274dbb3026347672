//! Codec between MIDI channel-voice messages and USB-MIDI event packets.
//!
//! A USB-MIDI event packet is four bytes: a header holding the cable number and
//! the code index number, then the status byte and up to two data bytes of the
//! MIDI message, padded with zeros.
pub mod cable_number;
pub mod code_index_number;
pub mod event_packet;
pub mod message;
pub mod midi_message;
pub mod values;

pub use cable_number::{CableNumber, InvalidCableNumber};
pub use code_index_number::{CodeIndexNumber, InvalidCodeIndexNumber};
pub use event_packet::{MidiPacketParsingError, UsbMidiEventPacket};
pub use midi_message::encode_midi_packet;
pub use message::{get_note, get_velocity, Message, Payload, Raw};
pub use values::{ChannelNumber, NoteNumber, U7};
