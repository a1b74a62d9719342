use ensnare_synth::envelope::StageTimings;
use ensnare_synth::voice::Voice;
use ensnare_synth::voices::{StealingVoiceStore, VoiceCount, VoiceError, VoicePerNoteStore, VoiceStore};

fn instant_timings() -> StageTimings {
    StageTimings {
        attack_is_instant: true,
        decay_is_instant: true,
        release_is_instant: true,
    }
}

fn test_voice() -> Voice {
    Voice::new_with(instant_timings())
}

#[test]
fn simple_voice_store_mainline() {
    let mut voice_store = VoiceStore::new_with_voice(VoiceCount(2), || test_voice());
    assert!(voice_store.voice_count() > 0);
    assert_eq!(voice_store.active_voice_count(), 0);

    // Request and start the maximum number of voices.
    if let Ok(i) = voice_store.get_voice(60) {
        let voice = voice_store.voice_mut(i);
        assert!(!voice.is_playing());
        voice.note_on(60, 127);
        voice.tick(false);
        assert!(voice.is_playing());
    }
    if let Ok(i) = voice_store.get_voice(61) {
        let voice = voice_store.voice_mut(i);
        voice.note_on(61, 127);
        voice.tick(false);
    }

    // Request a voice for a new note that would exceed the count. Should
    // fail.
    assert!(voice_store.get_voice(62).is_err());

    // Request to get back a voice that's already playing.
    if let Ok(i) = voice_store.get_voice(60) {
        let voice = voice_store.voice_mut(i);
        assert!(voice.is_playing());
        voice.note_off(127);

        // Release takes no time, so the voice is silent by the next sample.
        voice.tick(false);
        assert!(!voice.is_playing());
    }
}

#[test]
fn stealing_voice_store_mainline() {
    let mut voice_store = StealingVoiceStore::new_with_voice(2, || test_voice());
    assert!(voice_store.voice_count() > 0);
    assert_eq!(voice_store.active_voice_count(), 0);

    // Request and start the full number of voices.
    if let Ok(i) = voice_store.get_voice(60) {
        let voice = voice_store.voice_mut(i);
        assert!(!voice.is_playing());
        voice.note_on(60, 127);
        voice.tick(false);
        assert!(voice.is_playing());
    }
    if let Ok(i) = voice_store.get_voice(61) {
        let voice = voice_store.voice_mut(i);
        assert!(!voice.is_playing());
        voice.note_on(61, 127);
        voice.tick(false);
        assert!(voice.is_playing());
    }

    // Request a voice for a new note that would exceed the count. It should
    // already be playing, because we're about to steal it.
    if let Ok(i) = voice_store.get_voice(62) {
        let voice = voice_store.voice_mut(i);
        assert!(voice.is_playing());

        voice.note_on(62, 127);
        voice.tick(false);
        assert!(voice.is_shutting_down());
    } else {
        assert!(false, "StealingVoiceStore didn't return a voice");
    }
}

#[test]
fn voice_store_simultaneous_events() {
    let mut voice_store = VoiceStore::new_with_voice(VoiceCount(2), || test_voice());
    assert!(voice_store.voice_count() > 0);
    assert_eq!(voice_store.active_voice_count(), 0);

    // Request multiple voices during the same tick.
    if let Ok(i) = voice_store.get_voice(60) {
        let voice = voice_store.voice_mut(i);
        voice.note_on(60, 127);
        assert!(
            voice.is_playing(),
            "New voice should be marked is_playing() immediately after attack()"
        );
    }
    if let Ok(i) = voice_store.get_voice(61) {
        let voice = voice_store.voice_mut(i);
        voice.note_on(62, 127);
        assert!(
            voice.is_playing(),
            "New voice should be marked is_playing() immediately after attack()"
        );
    }

    voice_store.tick(&[false, false]);
    assert_eq!(voice_store.active_voice_count(), 2, "voices with pending attacks() should have been handled, and they should now be is_playing()");

    // Now ask for both voices again. Each should be playing and each should
    // have its individual key.
    if let Ok(i) = voice_store.get_voice(60) {
        let voice = voice_store.voice(i);
        assert!(voice.is_playing());
        assert_eq!(
            voice.key(),
            60,
            "we should have gotten back the same voice for the requested note"
        );
    }
    if let Ok(i) = voice_store.get_voice(61) {
        let voice = voice_store.voice(i);
        assert!(voice.is_playing());
        assert_eq!(
            voice.key(),
            62,
            "we should have gotten back the same voice for the requested note"
        );
    }
    voice_store.tick(&[false, false]);

    // Mark a note done and then ask for a new one. We should get assigned
    // the one we just gave up.
    if let Ok(i) = voice_store.get_voice(60) {
        let voice = voice_store.voice_mut(i);
        assert_eq!(
            voice.key(),
            60,
            "we should have gotten back the same voice for the requested note"
        );
        voice.note_off(127);
    }
    voice_store.tick(&[false, false]);
    if let Ok(i) = voice_store.get_voice(62) {
        assert_eq!(
            voice_store.voice(i).key(),
            60, // 60, not 62!!
            "we should have gotten the defunct voice for a new note"
        );
    } else {
        panic!("ran out of notes unexpectedly");
    }
}

#[test]
fn rejecting_store_leaves_voices_untouched_when_full() {
    let mut store = VoiceStore::new_with_voice(VoiceCount(2), || test_voice());
    for key in [60u8, 61u8] {
        let i = store.get_voice(key).unwrap();
        store.voice_mut(i).note_on(key, 100);
    }
    let before: Vec<Voice> = (0..2).map(|i| *store.voice(i)).collect();
    assert_eq!(store.get_voice(62), Err(VoiceError::OutOfVoices));
    let after: Vec<Voice> = (0..2).map(|i| *store.voice(i)).collect();
    assert_eq!(before, after);
    assert_eq!(store.get_voice(61), Ok(1));
}

#[test]
fn stolen_voice_replays_latched_note_after_shutdown() {
    let mut store = StealingVoiceStore::new_with_voice(1, || test_voice());
    let i = store.get_voice(60).unwrap();
    store.voice_mut(i).note_on(60, 90);
    assert_eq!(store.get_voice(64), Ok(0));
    let voice = store.voice_mut(0);
    voice.note_on(64, 80);
    assert!(voice.is_shutting_down());
    assert_eq!(voice.key(), 60);
    voice.tick(false);
    assert!(voice.is_shutting_down());
    voice.tick(true);
    assert!(voice.is_playing());
    assert!(!voice.is_shutting_down());
    assert_eq!(voice.key(), 64);
    assert_eq!(voice.velocity(), 80);
    assert_eq!(voice.pending_note(), None);
}

#[test]
fn empty_stealing_store_is_out_of_voices() {
    let mut store = StealingVoiceStore::new_with_voice(0, || test_voice());
    assert_eq!(store.get_voice(60), Err(VoiceError::OutOfVoices));
}

#[test]
fn idle_slot_forgets_its_key_on_tick() {
    let mut store = VoiceStore::new_with_voice(VoiceCount(2), || test_voice());
    let i = store.get_voice(60).unwrap();
    assert_eq!(i, 0);
    store.voice_mut(i).note_on(60, 100);
    store.voice_mut(i).note_off(0);
    store.tick(&[false, false]);
    // Slot 0 is free again, so a new key lands there.
    assert_eq!(store.get_voice(70), Ok(0));
}

#[test]
fn per_note_store_binds_voices_to_keys() {
    let mut store = VoicePerNoteStore::new_with_voices(vec![(36, test_voice()), (38, test_voice())]);
    assert_eq!(store.voice_count(), 2);
    assert_eq!(store.get_voice(36), Ok(0));
    assert_eq!(store.get_voice(38), Ok(1));
    assert_eq!(store.get_voice(40), Err(VoiceError::NoVoiceForKey(40)));
    store.add_voice(36, test_voice());
    assert_eq!(store.voice_count(), 2);
    store.add_voice(40, test_voice());
    assert_eq!(store.get_voice(40), Ok(2));
    store.voice_mut(1).note_on(38, 100);
    assert_eq!(store.active_voice_count(), 1);
    let empty = VoicePerNoteStore::new();
    assert_eq!(empty.voice_count(), 0);
}

#[test]
fn voice_count_defaults_to_eight() {
    assert_eq!(VoiceCount::default(), VoiceCount(8));
}

#[test]
fn per_note_store_later_pair_wins() {
    let mut loud = test_voice();
    loud.note_on(40, 127);
    let store = VoicePerNoteStore::new_with_voices(vec![(40, test_voice()), (41, test_voice()), (40, loud)]);
    assert_eq!(store.voice_count(), 2);
    let i = store.get_voice(40).unwrap();
    assert_eq!(*store.voice(i), loud);
    assert_eq!(store.active_voice_count(), 1);
}

#[test]
fn note_off_during_steal_drops_the_latched_note() {
    let mut voice = test_voice();
    voice.note_on(60, 100);
    voice.note_on(64, 90);
    assert!(voice.is_shutting_down());
    voice.note_off(0);
    assert_eq!(voice.pending_note(), None);
    assert!(!voice.is_playing());
    voice.tick(true);
    assert!(!voice.is_playing(), "nothing is replayed");
    voice.note_on(67, 80);
    assert_eq!(voice.key(), 67);
    assert_eq!(voice.pending_note(), None);
}

#[test]
fn voice_timings_can_change() {
    let mut voice = test_voice();
    let slow = StageTimings {
        attack_is_instant: false,
        decay_is_instant: false,
        release_is_instant: false,
    };
    voice.set_timings(slow);
    voice.note_on(60, 100);
    assert_eq!(voice.envelope_state(), ensnare_synth::envelope::EnvelopeState::Attack);
}

#[test]
fn stale_slot_does_not_capture_a_note_on() {
    let mut store = VoiceStore::new_with_voice(VoiceCount(3), || test_voice());
    for key in [60u8, 61u8] {
        let i = store.get_voice(key).unwrap();
        store.voice_mut(i).note_on(key, 100);
    }
    // Slot 2 records key 62 without a note ever starting there.
    assert_eq!(store.get_voice(62), Ok(2));
    assert_eq!(store.find_voice(62), None);
    assert_eq!(store.find_voice(61), Some(1));
    // Slot 0 falls silent.
    store.voice_mut(0).note_off(0);
    store.tick(&[false, false, false]);
    // Key 62 sounds nowhere, so it takes the first silent voice.
    assert_eq!(store.get_voice(62), Ok(0));
}
