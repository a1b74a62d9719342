use ensnare_synth::midi::{
    new_note_off, new_note_on, GeneralMidiPercussionProgram, MidiChannel, MidiMessage, MidiNote,
};

#[test]
fn midi_note_is_complete() {
    for key in 0..127 {
        assert_eq!(MidiNote::from_repr(key).unwrap() as usize, key);
    }
}

#[test]
fn midi_note_numbers() {
    assert_eq!(MidiNote::C4.number(), 60);
    assert_eq!(MidiNote::A4.number(), 69);
    assert_eq!(MidiNote::MIN.number(), 12);
    assert_eq!(MidiNote::MAX.number(), 127);
    assert_eq!(MidiNote::from_repr(127), Some(MidiNote::G9));
    assert_eq!(MidiNote::from_repr(128), None);
}

#[test]
fn note_messages_keep_seven_bits() {
    assert_eq!(new_note_on(60, 127), MidiMessage::NoteOn { key: 60, vel: 127 });
    assert_eq!(new_note_on(200, 255), MidiMessage::NoteOn { key: 72, vel: 127 });
    assert_eq!(new_note_off(128, 64), MidiMessage::NoteOff { key: 0, vel: 64 });
}

#[test]
fn percussion_keys() {
    assert_eq!(GeneralMidiPercussionProgram::AcousticBassDrum.key(), 35);
    assert_eq!(GeneralMidiPercussionProgram::AcousticSnare.key(), 38);
    assert_eq!(GeneralMidiPercussionProgram::OpenTriangle.key(), 81);
}

#[test]
fn midi_channel_new() {
    assert_eq!(MidiChannel::new(9), MidiChannel(9));
}
