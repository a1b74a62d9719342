use ensnare_synth::envelope::StageTimings;
use ensnare_synth::instruments::{DrumkitCore, KitIndex, SampleRate, TestInstrument};
use ensnare_synth::midi::{new_note_off, new_note_on, MidiChannel, MidiMessage};
use ensnare_synth::synthesizer::{Synthesizer, VoiceAllocator};
use ensnare_synth::uid::Uid;
use ensnare_synth::voice::Voice;
use ensnare_synth::voices::{StealingVoiceStore, VoiceCount, VoicePerNoteStore, VoiceStore};

fn timed_voice() -> Voice {
    Voice::new_with(StageTimings {
        attack_is_instant: false,
        decay_is_instant: false,
        release_is_instant: false,
    })
}

#[test]
fn synthesizer_plays_and_releases_notes() {
    let store = VoiceStore::new_with_voice(VoiceCount(2), || timed_voice());
    let mut synth = Synthesizer::new_with(VoiceAllocator::Rejecting(store));
    synth.handle_midi_message(MidiChannel(0), new_note_on(60, 100));
    synth.handle_midi_message(MidiChannel(0), new_note_on(64, 100));
    assert_eq!(synth.active_voice_count(), 2);
    // A third note finds no voice and is dropped.
    synth.handle_midi_message(MidiChannel(0), new_note_on(67, 100));
    assert_eq!(synth.active_voice_count(), 2);
    assert_eq!(synth.allocator().voice(0).key(), 60);
    assert_eq!(synth.allocator().voice(1).key(), 64);

    synth.handle_midi_message(MidiChannel(0), new_note_off(60, 0));
    assert!(synth.allocator().voice(0).is_playing(), "release still sounds");
    synth.tick(&[true, false]);
    assert_eq!(synth.active_voice_count(), 1);
}

#[test]
fn synthesizer_ignores_other_messages() {
    let store = VoiceStore::new_with_voice(VoiceCount(1), || timed_voice());
    let mut synth = Synthesizer::new_with(VoiceAllocator::Rejecting(store));
    synth.handle_midi_message(MidiChannel(0), MidiMessage::ProgramChange { program: 3 });
    synth.handle_midi_message(MidiChannel(0), MidiMessage::PitchBend { bend: 0x2000 });
    assert_eq!(synth.active_voice_count(), 0);
    assert_eq!(synth.voice_count(), 1);
}

#[test]
fn stealing_synthesizer_shuts_down_first_voice() {
    let store = StealingVoiceStore::new_with_voice(1, || timed_voice());
    let mut synth = Synthesizer::new_with(VoiceAllocator::Stealing(store));
    synth.handle_midi_message(MidiChannel(0), new_note_on(60, 100));
    synth.handle_midi_message(MidiChannel(0), new_note_on(62, 90));
    let v = synth.allocator().voice(0);
    assert!(v.is_shutting_down());
    assert_eq!(v.key(), 60);
    synth.tick(&[true]);
    let v = synth.allocator().voice(0);
    assert_eq!(v.key(), 62);
    assert_eq!(v.velocity(), 90);
    assert!(v.is_playing());
}

#[test]
fn per_key_synthesizer_drops_unknown_keys() {
    let store = VoicePerNoteStore::new_with_voices(vec![(36, timed_voice())]);
    let mut synth = Synthesizer::new_with(VoiceAllocator::PerKey(store));
    synth.handle_midi_message(MidiChannel(9), new_note_on(37, 100));
    assert_eq!(synth.active_voice_count(), 0);
    synth.handle_midi_message(MidiChannel(9), new_note_on(36, 100));
    assert_eq!(synth.active_voice_count(), 1);
    // An unmapped note-off is no error.
    synth.handle_midi_message(MidiChannel(9), new_note_off(50, 0));
    assert_eq!(synth.active_voice_count(), 1);
}

#[test]
fn drumkit_name_and_kit_index() {
    let mut kit = DrumkitCore::new_with_kit_index(KitIndex(2));
    assert_eq!(kit.name(), "Unknown");
    kit.set_name("808");
    assert_eq!(kit.name(), "808");
    assert_eq!(kit.kit_index(), KitIndex(2));
    assert!(!kit.set_kit_index(KitIndex(2)));
    assert!(kit.set_kit_index(KitIndex(3)));
    assert_eq!(kit.kit_index(), KitIndex(3));
    kit.set_voices(VoicePerNoteStore::new_with_voices(vec![(36, timed_voice())]));
    kit.handle_midi_message(MidiChannel(9), new_note_on(36, 127));
    assert_eq!(kit.synthesizer().active_voice_count(), 1);
}

#[test]
fn test_instrument_keeps_uid_and_rate() {
    let mut t = TestInstrument::new_with(Uid(7));
    assert_eq!(t.uid, Uid(7));
    assert_eq!(t.sample_rate, SampleRate(44100));
    t.update_sample_rate(SampleRate(48000));
    assert_eq!(t.sample_rate, SampleRate(48000));
}

#[test]
fn unmapped_note_off_changes_nothing() {
    let store = StealingVoiceStore::new_with_voice(2, || timed_voice());
    let mut synth = Synthesizer::new_with(VoiceAllocator::Stealing(store));
    assert_eq!(synth.handle_midi_message(MidiChannel(0), new_note_off(60, 0)), None);
    assert_eq!(synth.active_voice_count(), 0);
    // A fresh note still lands in the first slot.
    assert_eq!(synth.handle_midi_message(MidiChannel(0), new_note_on(61, 100)), Some(0));
    assert_eq!(synth.handle_midi_message(MidiChannel(0), new_note_on(62, 100)), Some(1));
    // The store is full; a note-off for a key nobody plays steals nothing.
    assert_eq!(synth.handle_midi_message(MidiChannel(0), new_note_off(70, 0)), None);
    assert_eq!(synth.allocator().voice(0).key(), 61);
    assert!(!synth.allocator().voice(0).is_shutting_down());
    assert_eq!(synth.active_voice_count(), 2);
    assert_eq!(synth.handle_midi_message(MidiChannel(0), new_note_off(62, 0)), Some(1));
}

#[test]
fn rejecting_synth_unmapped_note_off_is_no_op() {
    let store = VoiceStore::new_with_voice(VoiceCount(1), || timed_voice());
    let mut synth = Synthesizer::new_with(VoiceAllocator::Rejecting(store));
    assert_eq!(synth.handle_midi_message(MidiChannel(0), new_note_off(60, 0)), None);
    assert_eq!(synth.active_voice_count(), 0);
}

#[test]
fn synthesizer_timings_reach_every_voice() {
    let store = VoiceStore::new_with_voice(VoiceCount(2), || timed_voice());
    let mut synth = Synthesizer::new_with(VoiceAllocator::Rejecting(store));
    let instant = StageTimings {
        attack_is_instant: true,
        decay_is_instant: true,
        release_is_instant: true,
    };
    synth.set_timings(instant);
    synth.handle_midi_message(MidiChannel(0), new_note_on(60, 100));
    synth.handle_midi_message(MidiChannel(0), new_note_off(60, 0));
    assert_eq!(synth.active_voice_count(), 0, "instant release silences at once");
}

#[test]
fn note_off_for_a_silent_recorded_slot_changes_nothing() {
    let store = StealingVoiceStore::new_with_voice(1, || timed_voice());
    let mut alloc = VoiceAllocator::Stealing(store);
    // The slot records key 60, but no note starts on it.
    assert_eq!(alloc.get_voice(60), Ok(0));
    let mut synth = Synthesizer::new_with(alloc);
    assert_eq!(synth.handle_midi_message(MidiChannel(0), new_note_off(60, 0)), None);
    assert_eq!(synth.active_voice_count(), 0);
}

#[test]
fn per_key_note_off_skips_a_silent_voice() {
    let store = VoicePerNoteStore::new_with_voices(vec![(36, timed_voice())]);
    let mut synth = Synthesizer::new_with(VoiceAllocator::PerKey(store));
    assert_eq!(synth.handle_midi_message(MidiChannel(9), new_note_off(36, 0)), None);
    assert_eq!(synth.active_voice_count(), 0);
    assert_eq!(synth.handle_midi_message(MidiChannel(9), new_note_on(36, 100)), Some(0));
    assert_eq!(synth.handle_midi_message(MidiChannel(9), new_note_off(36, 0)), Some(0));
}
