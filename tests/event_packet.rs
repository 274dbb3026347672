use usbd_midi::{
    CableNumber, ChannelNumber, Message, MidiPacketParsingError, NoteNumber, UsbMidiEventPacket, U7,
};

fn ch(v: u8) -> ChannelNumber {
    ChannelNumber::try_new(v).unwrap()
}

fn note(v: u8) -> NoteNumber {
    NoteNumber::try_new(v).unwrap()
}

fn u7(v: u8) -> U7 {
    U7::try_new(v).unwrap()
}

fn cable(v: u8) -> CableNumber {
    CableNumber::try_from(v).unwrap()
}

fn decode(bytes: &[u8]) -> Result<UsbMidiEventPacket, MidiPacketParsingError> {
    UsbMidiEventPacket::try_from(bytes)
}

fn packet(c: u8, message: Message) -> UsbMidiEventPacket {
    UsbMidiEventPacket::from_parts(cable(c), message)
}

#[test]
fn note_on() {
    let expected = packet(0, Message::NoteOn(ch(0), note(36), u7(127)));
    assert_eq!(decode(&[9, 144, 36, 127]), Ok(expected));
}

#[test]
fn note_off() {
    let expected = packet(0, Message::NoteOff(ch(0), note(36), u7(0)));
    assert_eq!(decode(&[8, 128, 36, 0]), Ok(expected));
}

#[test]
fn polyphonic_aftertouch() {
    let expected = packet(0, Message::PolyphonicAftertouch(ch(0), note(36), u7(64)));
    assert_eq!(decode(&[10, 160, 36, 64]), Ok(expected));
}

#[test]
fn program_change() {
    let expected = packet(1, Message::ProgramChange(ch(0), u7(127)));
    assert_eq!(decode(&[28, 192, 127, 0]), Ok(expected));
}

#[test]
fn channel_aftertouch() {
    let expected = packet(0, Message::ChannelAftertouch(ch(0), u7(127)));
    assert_eq!(decode(&[13, 208, 127, 0]), Ok(expected));
}

#[test]
fn pitch_wheel() {
    let expected = packet(0, Message::PitchWheelChange(ch(0), u7(64), u7(32)));
    assert_eq!(decode(&[14, 224, 64, 32]), Ok(expected));
}

#[test]
fn control_change() {
    let expected = packet(0, Message::ControlChange(ch(1), u7(1), u7(32)));
    assert_eq!(decode(&[11, 177, 1, 32]), Ok(expected));
}

#[test]
fn encode_note_on_bytes() {
    let p = packet(0, Message::NoteOn(ch(0), note(36), u7(127)));
    assert_eq!(p.to_bytes(), [9, 144, 36, 127]);
}

#[test]
fn encode_program_change_pads_with_zeros() {
    let p = packet(1, Message::ProgramChange(ch(2), u7(5)));
    assert_eq!(p.to_bytes(), [0x1C, 0xC2, 5, 0]);
}

#[test]
fn encode_pitch_bend_lsb_first() {
    let p = UsbMidiEventPacket::from_midi(15, Message::PitchWheelChange(ch(15), u7(1), u7(2)));
    assert_eq!(p.to_bytes(), [0xFE, 0xEF, 1, 2]);
}

#[test]
fn encode_control_change_header() {
    let p = packet(7, Message::ControlChange(ch(3), u7(10), u7(20)));
    assert_eq!(p.to_bytes(), [0x7B, 0xB3, 10, 20]);
}

#[test]
fn empty_and_one_byte_buffers_are_missing_data() {
    assert_eq!(decode(&[]), Err(MidiPacketParsingError::MissingDataPacket));
    assert_eq!(decode(&[9]), Err(MidiPacketParsingError::MissingDataPacket));
}

#[test]
fn truncated_message_is_missing_data() {
    assert_eq!(decode(&[9, 144]), Err(MidiPacketParsingError::MissingDataPacket));
    assert_eq!(decode(&[9, 144, 36]), Err(MidiPacketParsingError::MissingDataPacket));
    assert_eq!(
        decode(&[12, 192]),
        Err(MidiPacketParsingError::MissingDataPacket)
    );
}

#[test]
fn two_bytes_suffice_for_short_message_kinds() {
    let expected = packet(0, Message::ChannelAftertouch(ch(4), u7(9)));
    assert_eq!(decode(&[13, 0xD4, 9]), Ok(expected));
}

#[test]
fn velocity_255_is_clamped() {
    let expected = packet(0, Message::NoteOn(ch(0), note(36), u7(127)));
    assert_eq!(decode(&[9, 144, 36, 255]), Ok(expected));
}

#[test]
fn note_255_is_rejected() {
    assert_eq!(
        decode(&[9, 144, 255, 64]),
        Err(MidiPacketParsingError::InvalidNote(255))
    );
    assert_eq!(
        decode(&[8, 128, 128, 0]),
        Err(MidiPacketParsingError::InvalidNote(128))
    );
}

#[test]
fn other_data_bytes_are_clamped() {
    let expected = packet(0, Message::PitchWheelChange(ch(0), u7(127), u7(127)));
    assert_eq!(decode(&[14, 224, 200, 255]), Ok(expected));
}

#[test]
fn unknown_event_type_is_rejected() {
    assert_eq!(
        decode(&[15, 0xF8, 0, 0]),
        Err(MidiPacketParsingError::InvalidEventType(0xF0))
    );
    assert_eq!(
        decode(&[9, 0x12, 36, 0]),
        Err(MidiPacketParsingError::InvalidEventType(0x10))
    );
}

#[test]
fn cin_field_is_not_checked_on_decode() {
    let expected = packet(2, Message::NoteOn(ch(0), note(36), u7(127)));
    assert_eq!(decode(&[0x20, 144, 36, 127]), Ok(expected));
}

#[test]
fn channel_is_low_nibble_of_status() {
    for status in 0x80u8..=0xEF {
        let r = decode(&[0, status, 1, 2]).unwrap();
        let channel = match r.message {
            Message::NoteOff(c, ..)
            | Message::NoteOn(c, ..)
            | Message::PolyphonicAftertouch(c, ..)
            | Message::ControlChange(c, ..)
            | Message::ProgramChange(c, ..)
            | Message::ChannelAftertouch(c, ..)
            | Message::PitchWheelChange(c, ..) => c,
        };
        assert_eq!(channel.value(), status & 0x0F);
    }
}

#[test]
fn cable_is_high_nibble_of_header() {
    for header in 0u8..=255 {
        let r = decode(&[header, 0x90, 60, 100]).unwrap();
        assert_eq!(r.cable_number.value(), header >> 4);
    }
}

#[test]
fn round_trip_every_kind_and_cable() {
    for c in 0u8..16 {
        let messages = [
            Message::NoteOff(ch(c), note(0), u7(127)),
            Message::NoteOn(ch(15 - c), note(127), u7(0)),
            Message::PolyphonicAftertouch(ch(c), note(60), u7(33)),
            Message::ControlChange(ch(c), u7(7), u7(100)),
            Message::ProgramChange(ch(c), u7(c * 8)),
            Message::ChannelAftertouch(ch(c), u7(127 - c)),
            Message::PitchWheelChange(ch(c), u7(0), u7(127)),
        ];
        for m in messages {
            let p = packet(c, m);
            let bytes = p.to_bytes();
            assert_eq!(decode(&bytes), Ok(p));
        }
    }
}
