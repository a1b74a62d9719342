//! A single played note: a key and the span of time it sounds.

use vstd::prelude::*;
use crate::midi::{new_note_off, new_note_on, note_number, seven_bits, MidiMessage, MidiNote};
use crate::time::{MusicalTime, TimeRange};

verus! {

/// A MIDI message due at a point in musical time.
#[derive(Clone, Copy, Debug, PartialEq, Eq, Structural)]
pub struct MidiEvent {
    pub message: MidiMessage,
    pub time: MusicalTime,
}

/// A note: which key plays, and from when until when.
#[derive(Clone, Copy, Debug, PartialEq, Eq, Structural)]
pub struct Note {
    /// The MIDI key; 69 is A4.
    pub key: u8,
    /// When the note starts and ends.
    pub range: TimeRange,
}

impl Note {
    /// A note on `key` that starts at `start` and lasts `duration`.
    pub fn new_with(key: u8, start: MusicalTime, duration: MusicalTime) -> (r: Self)
        requires
            start.units_spec() + duration.units_spec() <= usize::MAX,
        ensures
            r.key == key,
            r.range.start == start,
            r.range.end.units_spec() == start.units_spec() + duration.units_spec(),
    {
        let end = MusicalTime::new_with_units(start.total_units() + duration.total_units());
        Note { key, range: TimeRange { start, end } }
    }

    /// A note on the key of `key` that starts at `start` and lasts `duration`.
    pub fn new_with_midi_note(key: MidiNote, start: MusicalTime, duration: MusicalTime) -> (r: Self)
        requires
            start.units_spec() + duration.units_spec() <= usize::MAX,
        ensures
            r.key as nat == note_number(key),
            r.range.start == start,
            r.range.end.units_spec() == start.units_spec() + duration.units_spec(),
    {
        Note { key: key.number(), range: TimeRange { start, end: start.plus(duration) } }
    }

    /// The note as a full-velocity note-on at its start and a full-velocity
    /// note-off at its end.
    pub fn to_midi_events(&self) -> (r: Vec<MidiEvent>)
        ensures
            r@ == seq![
                MidiEvent {
                    message: MidiMessage::NoteOn { key: seven_bits(self.key), vel: 127 },
                    time: self.range.start,
                },
                MidiEvent {
                    message: MidiMessage::NoteOff { key: seven_bits(self.key), vel: 127 },
                    time: self.range.end,
                },
            ],
    {
        let on = MidiEvent { message: new_note_on(self.key, 127), time: self.range.start };
        let off = MidiEvent { message: new_note_off(self.key, 127), time: self.range.end };
        assert(seven_bits(127) == 127);
        let r = vec![on, off];
        r
    }

    /// The same note moved later by `offset`.
    pub fn shifted(&self, offset: MusicalTime) -> (r: Self)
        requires
            self.range.end.units_spec() + offset.units_spec() <= usize::MAX,
            self.range.start.units_spec() <= self.range.end.units_spec(),
        ensures
            r.key == self.key,
            r.range.start.units_spec() == self.range.start.units_spec() + offset.units_spec(),
            r.range.end.units_spec() == self.range.end.units_spec() + offset.units_spec(),
    {
        Note {
            key: self.key,
            range: TimeRange { start: self.range.start.plus(offset), end: self.range.end.plus(offset) },
        }
    }
}

} // verus!
