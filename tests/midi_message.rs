use midi_types::{Channel, Control, MidiMessage, Note, Program, QuarterFrame, Value14, Value7};
use usbd_midi::{encode_midi_packet, CableNumber, CodeIndexNumber};

fn cin(m: &MidiMessage) -> u8 {
    CodeIndexNumber::find_from_midi_message(m).value()
}

#[test]
fn classify_channel_voice_messages() {
    let c = Channel::new(1);
    assert_eq!(cin(&MidiMessage::NoteOff(c, Note::new(1), Value7::new(2))), 0x8);
    assert_eq!(cin(&MidiMessage::NoteOn(c, Note::new(1), Value7::new(2))), 0x9);
    assert_eq!(cin(&MidiMessage::KeyPressure(c, Note::new(1), Value7::new(2))), 0xA);
    assert_eq!(cin(&MidiMessage::ControlChange(c, Control::new(1), Value7::new(2))), 0xB);
    assert_eq!(cin(&MidiMessage::ProgramChange(c, Program::new(1))), 0xC);
    assert_eq!(cin(&MidiMessage::ChannelPressure(c, Value7::new(2))), 0xD);
    assert_eq!(cin(&MidiMessage::PitchBendChange(c, Value14::from((1u8, 2u8)))), 0xE);
}

#[test]
fn classify_single_byte_messages() {
    for m in [
        MidiMessage::Stop,
        MidiMessage::Start,
        MidiMessage::Continue,
        MidiMessage::TimingClock,
        MidiMessage::Reset,
        MidiMessage::ActiveSensing,
    ] {
        assert_eq!(cin(&m), 0xF);
    }
}

#[test]
fn classify_system_common_by_length() {
    assert_eq!(cin(&MidiMessage::SongPositionPointer(Value14::from((0u8, 0u8)))), 0x3);
    assert_eq!(cin(&MidiMessage::SongSelect(Value7::new(3))), 0x2);
    assert_eq!(cin(&MidiMessage::QuarterFrame(QuarterFrame::new(23))), 0x2);
    assert_eq!(cin(&MidiMessage::TuneRequest), 0x5);
}

#[test]
fn encode_midi_note_on() {
    let m = MidiMessage::NoteOn(Channel::new(0), Note::new(36), Value7::new(127));
    let cable = CableNumber::try_from(0).unwrap();
    assert_eq!(encode_midi_packet(cable, &m), [9, 144, 36, 127]);
}

#[test]
fn encode_midi_short_messages_are_padded() {
    let cable = CableNumber::try_from(1).unwrap();
    let m = MidiMessage::SongSelect(Value7::new(3));
    assert_eq!(encode_midi_packet(cable, &m), [0x12, 0xF3, 3, 0]);
    assert_eq!(encode_midi_packet(cable, &MidiMessage::TuneRequest), [0x15, 0xF6, 0, 0]);
    let m = MidiMessage::ProgramChange(Channel::new(2), Program::new(127));
    assert_eq!(encode_midi_packet(cable, &m), [0x1C, 0xC2, 127, 0]);
}

#[test]
fn encode_midi_pitch_bend_lsb_first() {
    let cable = CableNumber::try_from(0).unwrap();
    let m = MidiMessage::PitchBendChange(Channel::new(0), Value14::from((64u8, 32u8)));
    assert_eq!(encode_midi_packet(cable, &m), [14, 224, 64, 32]);
}
