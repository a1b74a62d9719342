use ensnare_synth::control::{ControlPanel, ControlPanelAction, ControlTripPath, Timer};
use ensnare_synth::midi::MidiNote;
use ensnare_synth::midi::MidiMessage;
use ensnare_synth::note::{MidiEvent, Note};
use ensnare_synth::time::{MusicalTime, TimeRange};

fn t(units: usize) -> MusicalTime {
    MusicalTime::new_with_units(units)
}

#[test]
fn control_trip_path_next_alternates() {
    assert_eq!(ControlTripPath::Flat.next(), ControlTripPath::Linear);
    assert_eq!(ControlTripPath::Linear.next(), ControlTripPath::Flat);
    assert_eq!(ControlTripPath::NoPath.next(), ControlTripPath::NoPath);
    assert_eq!(ControlTripPath::Exponential.next(), ControlTripPath::Exponential);
}

#[test]
fn timer_fires_after_duration() {
    let mut timer = Timer::new_with(t(10));
    assert_eq!(timer.duration(), t(10));
    timer.update_time(&TimeRange { start: t(0), end: t(4) });
    assert!(!timer.is_finished(), "not performing yet");
    timer.play();
    timer.update_time(&TimeRange { start: t(4), end: t(8) });
    assert!(!timer.is_finished());
    timer.update_time(&TimeRange { start: t(8), end: t(12) });
    assert!(!timer.is_finished());
    timer.update_time(&TimeRange { start: t(12), end: t(16) });
    assert!(timer.is_finished());
}

#[test]
fn zero_length_timer_fires_at_once() {
    let mut timer = Timer::new_with(t(0));
    timer.play();
    assert!(timer.is_performing());
    timer.update_time(&TimeRange { start: t(0), end: t(1) });
    assert!(timer.is_finished());
    timer.stop();
    assert!(!timer.is_performing());
}

#[test]
fn timer_duration_round_trip() {
    let mut timer = Timer::new_with(t(1));
    timer.set_duration(t(99));
    assert_eq!(timer.duration(), t(99));
}

#[test]
fn note_spans_start_plus_duration() {
    let n = Note::new_with(60, t(100), t(50));
    assert_eq!(n.key, 60);
    assert_eq!(n.range.start, t(100));
    assert_eq!(n.range.end, t(150));
    let m = Note::new_with_midi_note(MidiNote::A4, t(0), t(8));
    assert_eq!(m.key, 69);
    assert_eq!(m.range.end.total_units(), 8);
    let s = n.shifted(t(10));
    assert_eq!(s.range.start, t(110));
    assert_eq!(s.range.end, t(160));
}

#[test]
fn control_panel_hands_out_each_request_once() {
    let mut panel = ControlPanel::default();
    assert_eq!(panel.take_action(), None);
    panel.request(ControlPanelAction::Play);
    panel.request(ControlPanelAction::Save(String::from("minidaw.json")));
    assert_eq!(panel.take_action(), Some(ControlPanelAction::Save(String::from("minidaw.json"))));
    assert_eq!(panel.take_action(), None);
}

#[test]
fn note_becomes_note_on_and_note_off() {
    let n = Note::new_with(60, t(4), t(2));
    assert_eq!(
        n.to_midi_events(),
        vec![
            MidiEvent { message: MidiMessage::NoteOn { key: 60, vel: 127 }, time: t(4) },
            MidiEvent { message: MidiMessage::NoteOff { key: 60, vel: 127 }, time: t(6) },
        ]
    );
}
