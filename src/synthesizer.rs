//! A polyphonic synthesizer's note handling: one voice-allocation policy,
//! chosen at construction, fed by MIDI channel messages.

use vstd::prelude::*;
use crate::midi::{MidiChannel, MidiMessage};
use crate::envelope::StageTimings;
use crate::voice::{note_off_outcome, note_on_outcome, Voice};
use crate::voices::{
    all_ticked, count_playing, has_key_slot, is_first_key_slot, notes_after_tick, StealingVoiceStore, VoiceError, VoicePerNoteStore, VoiceStore,
};

verus! {

/// The voice-allocation policy of a synthesizer.
#[derive(Debug)]
pub enum VoiceAllocator {
    /// Refuses a note when every voice is busy.
    Rejecting(VoiceStore),
    /// Takes over the first voice when every voice is busy.
    Stealing(StealingVoiceStore),
    /// One voice bound to each key.
    PerKey(VoicePerNoteStore),
}

impl VoiceAllocator {
    pub open spec fn wf(&self) -> bool {
        match self {
            VoiceAllocator::Rejecting(s) => s.wf(),
            VoiceAllocator::Stealing(s) => s.wf(),
            VoiceAllocator::PerKey(s) => s.wf(),
        }
    }

    pub open spec fn voices_spec(&self) -> Seq<Voice> {
        match self {
            VoiceAllocator::Rejecting(s) => s.voices_spec(),
            VoiceAllocator::Stealing(s) => s.voices_spec(),
            VoiceAllocator::PerKey(s) => s.voices_spec(),
        }
    }

    /// Same policy, and the same record of which key each slot serves.
    pub open spec fn same_assignment(a: Self, b: Self) -> bool {
        match (a, b) {
            (VoiceAllocator::Rejecting(x), VoiceAllocator::Rejecting(y)) => x.notes_spec()
                == y.notes_spec(),
            (VoiceAllocator::Stealing(x), VoiceAllocator::Stealing(y)) => x.notes_spec()
                == y.notes_spec(),
            (VoiceAllocator::PerKey(x), VoiceAllocator::PerKey(y)) => x.keys_spec()
                == y.keys_spec(),
            _ => false,
        }
    }

    /// What asking the policy for a voice for `key` does.
    pub open spec fn get_voice_outcome(
        before: Self,
        after: Self,
        key: u8,
        r: Result<usize, VoiceError>,
    ) -> bool {
        match (before, after) {
            (VoiceAllocator::Rejecting(b), VoiceAllocator::Rejecting(a)) => VoiceStore::get_voice_outcome(b, a, key, r),
            (VoiceAllocator::Stealing(b), VoiceAllocator::Stealing(a)) => StealingVoiceStore::get_voice_outcome(b, a, key, r),
            (VoiceAllocator::PerKey(b), VoiceAllocator::PerKey(a)) => {
                &&& a == b
                &&& match r {
                    Ok(i) => 0 <= i < b.keys_spec().len() && b.keys_spec()[i as int] == key,
                    Err(e) => e == VoiceError::NoVoiceForKey(key) && !b.keys_spec().contains(key),
                }
            },
            _ => false,
        }
    }

    /// What one tick does: every voice ticks with its own target flag, and a
    /// capacity-limited policy forgets the key of each voice left silent.
    pub open spec fn tick_outcome(before: Self, after: Self, targets_reached: Seq<bool>) -> bool {
        &&& all_ticked(before.voices_spec(), after.voices_spec(), targets_reached)
        &&& match (before, after) {
            (VoiceAllocator::Rejecting(b), VoiceAllocator::Rejecting(a)) => notes_after_tick(
                b.notes_spec(),
                a.voices_spec(),
                a.notes_spec(),
            ),
            (VoiceAllocator::Stealing(b), VoiceAllocator::Stealing(a)) => notes_after_tick(
                b.notes_spec(),
                a.voices_spec(),
                a.notes_spec(),
            ),
            (VoiceAllocator::PerKey(b), VoiceAllocator::PerKey(a)) => a.keys_spec() == b.keys_spec(),
            _ => false,
        }
    }

    pub fn voice_count(&self) -> (r: usize)
        ensures
            r == self.voices_spec().len(),
    {
        match self {
            VoiceAllocator::Rejecting(s) => s.voice_count(),
            VoiceAllocator::Stealing(s) => s.voice_count(),
            VoiceAllocator::PerKey(s) => s.voice_count(),
        }
    }

    pub fn active_voice_count(&self) -> (r: usize)
        ensures
            r == count_playing(self.voices_spec()),
    {
        match self {
            VoiceAllocator::Rejecting(s) => s.active_voice_count(),
            VoiceAllocator::Stealing(s) => s.active_voice_count(),
            VoiceAllocator::PerKey(s) => s.active_voice_count(),
        }
    }

    /// The slot of the voice that should take `key`, by this policy.
    pub fn get_voice(&mut self, key: u8) -> (r: Result<usize, VoiceError>)
        requires
            old(self).wf(),
        ensures
            final(self).wf(),
            Self::get_voice_outcome(*old(self), *final(self), key, r),
    {
        match self {
            VoiceAllocator::Rejecting(s) => s.get_voice(key),
            VoiceAllocator::Stealing(s) => s.get_voice(key),
            VoiceAllocator::PerKey(s) => s.get_voice(key),
        }
    }

    pub fn voice(&self, index: usize) -> (r: &Voice)
        requires
            index < self.voices_spec().len(),
        ensures
            *r == self.voices_spec()[index as int],
    {
        match self {
            VoiceAllocator::Rejecting(s) => s.voice(index),
            VoiceAllocator::Stealing(s) => s.voice(index),
            VoiceAllocator::PerKey(s) => s.voice(index),
        }
    }

    /// `i` is the slot that this policy has recorded for `key`, and its
    /// voice sounds.
    pub open spec fn maps_key_at(&self, key: u8, i: int) -> bool {
        match self {
            VoiceAllocator::Rejecting(s) => is_first_key_slot(s.notes_spec(), s.voices_spec(), key, i),
            VoiceAllocator::Stealing(s) => is_first_key_slot(s.notes_spec(), s.voices_spec(), key, i),
            VoiceAllocator::PerKey(s) => {
                &&& 0 <= i < s.keys_spec().len()
                &&& s.keys_spec()[i] == key
                &&& s.voices_spec()[i].playing()
            },
        }
    }

    /// Some slot is recorded for `key` while its voice sounds.
    pub open spec fn maps_key(&self, key: u8) -> bool {
        match self {
            VoiceAllocator::Rejecting(s) => has_key_slot(s.notes_spec(), s.voices_spec(), key),
            VoiceAllocator::Stealing(s) => has_key_slot(s.notes_spec(), s.voices_spec(), key),
            VoiceAllocator::PerKey(s) => exists|i: int| #[trigger] self.maps_key_at(key, i),
        }
    }

    /// `after` is `before` with only the voice in slot `i` changed.
    pub open spec fn only_voice_changed(before: Self, after: Self, i: int) -> bool {
        &&& Self::same_assignment(before, after)
        &&& 0 <= i < before.voices_spec().len()
        &&& after.voices_spec() == before.voices_spec().update(i, after.voices_spec()[i])
    }

    /// The slot whose voice sounds `key`, without assigning one.
    pub fn find_voice(&self, key: u8) -> (r: Option<usize>)
        requires
            self.wf(),
        ensures
            match r {
                Some(i) => self.maps_key_at(key, i as int) && i < self.voices_spec().len(),
                None => !self.maps_key(key),
            },
    {
        match self {
            VoiceAllocator::Rejecting(s) => s.find_voice(key),
            VoiceAllocator::Stealing(s) => s.find_voice(key),
            VoiceAllocator::PerKey(s) => {
                match s.find_voice(key) {
                    Some(i) => {
                        if s.voice(i).is_playing() {
                            Some(i)
                        } else {
                            assert forall|j: int| !(#[trigger] self.maps_key_at(key, j)) by {
                                if 0 <= j < s.keys_spec().len() && s.keys_spec()[j] == key && j != i {
                                    assert(s.keys_spec()[j] == s.keys_spec()[i as int]);
                                }
                            }
                            None
                        }
                    },
                    None => {
                        assert forall|j: int| !(#[trigger] self.maps_key_at(key, j)) by {
                            if 0 <= j < s.keys_spec().len() && s.keys_spec()[j] == key {
                                assert(s.keys_spec().contains(key));
                            }
                        }
                        None
                    },
                }
            },
        }
    }

    /// Changes the stage timings of the voice in slot `index`.
    pub fn set_voice_timings(&mut self, index: usize, timings: StageTimings)
        requires
            old(self).wf(),
            index < old(self).voices_spec().len(),
        ensures
            final(self).wf(),
            Self::only_voice_changed(*old(self), *final(self), index as int),
            final(self).voices_spec()[index as int].timings_spec() == timings,
            final(self).voices_spec()[index as int].state_spec()
                == old(self).voices_spec()[index as int].state_spec(),
            final(self).voices_spec()[index as int].key_spec()
                == old(self).voices_spec()[index as int].key_spec(),
            final(self).voices_spec()[index as int].velocity_spec()
                == old(self).voices_spec()[index as int].velocity_spec(),
            final(self).voices_spec()[index as int].pending_spec()
                == old(self).voices_spec()[index as int].pending_spec(),
    {
        match self {
            VoiceAllocator::Rejecting(s) => s.voice_mut(index).set_timings(timings),
            VoiceAllocator::Stealing(s) => s.voice_mut(index).set_timings(timings),
            VoiceAllocator::PerKey(s) => s.voice_mut(index).set_timings(timings),
        }
    }

    /// Sends a note-on to the voice in slot `index`.
    pub fn note_on(&mut self, index: usize, key: u8, velocity: u8)
        requires
            old(self).wf(),
            index < old(self).voices_spec().len(),
        ensures
            final(self).wf(),
            Self::same_assignment(*old(self), *final(self)),
            final(self).voices_spec() == old(self).voices_spec().update(
                index as int,
                final(self).voices_spec()[index as int],
            ),
            note_on_outcome(
                old(self).voices_spec()[index as int],
                final(self).voices_spec()[index as int],
                key,
                velocity,
            ),
    {
        match self {
            VoiceAllocator::Rejecting(s) => s.voice_mut(index).note_on(key, velocity),
            VoiceAllocator::Stealing(s) => s.voice_mut(index).note_on(key, velocity),
            VoiceAllocator::PerKey(s) => s.voice_mut(index).note_on(key, velocity),
        }
    }

    /// Sends a note-off to the voice in slot `index`.
    pub fn note_off(&mut self, index: usize, velocity: u8)
        requires
            old(self).wf(),
            index < old(self).voices_spec().len(),
        ensures
            final(self).wf(),
            Self::same_assignment(*old(self), *final(self)),
            final(self).voices_spec() == old(self).voices_spec().update(
                index as int,
                final(self).voices_spec()[index as int],
            ),
            note_off_outcome(
                old(self).voices_spec()[index as int],
                final(self).voices_spec()[index as int],
            ),
    {
        match self {
            VoiceAllocator::Rejecting(s) => s.voice_mut(index).note_off(velocity),
            VoiceAllocator::Stealing(s) => s.voice_mut(index).note_off(velocity),
            VoiceAllocator::PerKey(s) => s.voice_mut(index).note_off(velocity),
        }
    }

    /// Advances every voice by one sample.
    pub fn tick(&mut self, targets_reached: &[bool])
        requires
            old(self).wf(),
            targets_reached@.len() == old(self).voices_spec().len(),
        ensures
            final(self).wf(),
            Self::tick_outcome(*old(self), *final(self), targets_reached@),
    {
        match self {
            VoiceAllocator::Rejecting(s) => s.tick(targets_reached),
            VoiceAllocator::Stealing(s) => s.tick(targets_reached),
            VoiceAllocator::PerKey(s) => s.tick(targets_reached),
        }
    }
}

/// What a MIDI message does to a synthesizer's voices, and the slot it
/// acted on. A note-on asks the policy for a voice for its key (which may
/// assign or steal one) and starts the note there; a note-on that finds no
/// voice is dropped, after whatever the asking itself changed. A note-off
/// only looks up the slot whose voice sounds its key and releases that
/// voice; with no such slot it changes nothing. Any other message changes nothing.
pub open spec fn midi_outcome(
    before: VoiceAllocator,
    after: VoiceAllocator,
    message: MidiMessage,
    slot: Option<usize>,
) -> bool {
    match message {
        MidiMessage::NoteOn { key, vel } => exists|
            picked: VoiceAllocator,
            r: Result<usize, VoiceError>,
        |
            #![trigger VoiceAllocator::get_voice_outcome(before, picked, key, r)]
            VoiceAllocator::get_voice_outcome(before, picked, key, r) && match r {
                Ok(i) => {
                    &&& slot == Some(i)
                    &&& VoiceAllocator::only_voice_changed(picked, after, i as int)
                    &&& note_on_outcome(
                        picked.voices_spec()[i as int],
                        after.voices_spec()[i as int],
                        key,
                        vel,
                    )
                },
                Err(_) => slot is None && after == picked,
            },
        MidiMessage::NoteOff { key, vel } => if before.maps_key(key) {
            &&& slot is Some
            &&& before.maps_key_at(key, slot->Some_0 as int)
            &&& VoiceAllocator::only_voice_changed(before, after, slot->Some_0 as int)
            &&& note_off_outcome(
                before.voices_spec()[slot->Some_0 as int],
                after.voices_spec()[slot->Some_0 as int],
            )
        } else {
            slot is None && after == before
        },
        _ => slot is None && after == before,
    }
}

/// Routes MIDI notes to the voices of one allocation policy.
#[derive(Debug)]
pub struct Synthesizer {
    allocator: VoiceAllocator,
}

impl Synthesizer {
    pub closed spec fn allocator_spec(&self) -> VoiceAllocator {
        self.allocator
    }

    pub fn new_with(allocator: VoiceAllocator) -> (r: Self)
        ensures
            r.allocator_spec() == allocator,
    {
        Synthesizer { allocator }
    }

    pub fn allocator(&self) -> (r: &VoiceAllocator)
        ensures
            *r == self.allocator_spec(),
    {
        &self.allocator
    }

    pub fn voice_count(&self) -> (r: usize)
        ensures
            r == self.allocator_spec().voices_spec().len(),
    {
        self.allocator.voice_count()
    }

    pub fn active_voice_count(&self) -> (r: usize)
        ensures
            r == count_playing(self.allocator_spec().voices_spec()),
    {
        self.allocator.active_voice_count()
    }

    /// Plays a note-on on the voice the policy picks for its key, and
    /// releases the voice that sounds a note-off's key. Returns the slot
    /// acted on; a note that finds no voice is dropped, and every other
    /// message is ignored.
    pub fn handle_midi_message(&mut self, channel: MidiChannel, message: MidiMessage) -> (slot: Option<usize>)
        requires
            old(self).allocator_spec().wf(),
        ensures
            final(self).allocator_spec().wf(),
            midi_outcome(old(self).allocator_spec(), final(self).allocator_spec(), message, slot),
    {
        match message {
            MidiMessage::NoteOn { key, vel } => {
                let r = self.allocator.get_voice(key);
                if let Ok(index) = r {
                    proof { lemma_picked_slot_in_range(*old(self), self.allocator, key, r); }
                    self.allocator.note_on(index, key, vel);
                    Some(index)
                } else {
                    None
                }
            },
            MidiMessage::NoteOff { key, vel } => {
                if let Some(index) = self.allocator.find_voice(key) {
                    self.allocator.note_off(index, vel);
                    Some(index)
                } else {
                    None
                }
            },
            _ => None,
        }
    }

    /// Changes the stage timings of every voice.
    pub fn set_timings(&mut self, timings: StageTimings)
        requires
            old(self).allocator_spec().wf(),
        ensures
            final(self).allocator_spec().wf(),
            VoiceAllocator::same_assignment(old(self).allocator_spec(), final(self).allocator_spec()),
            final(self).allocator_spec().voices_spec().len() == old(self).allocator_spec().voices_spec().len(),
            forall|i: int|
                0 <= i < old(self).allocator_spec().voices_spec().len() ==> {
                    let (a, b) = (
                        old(self).allocator_spec().voices_spec()[i],
                        #[trigger] final(self).allocator_spec().voices_spec()[i],
                    );
                    &&& b.timings_spec() == timings
                    &&& b.state_spec() == a.state_spec()
                    &&& b.key_spec() == a.key_spec()
                    &&& b.velocity_spec() == a.velocity_spec()
                    &&& b.pending_spec() == a.pending_spec()
                },
    {
        let ghost start = self.allocator;
        let count = self.allocator.voice_count();
        let mut i: usize = 0;
        while i < count
            invariant
                0 <= i <= count,
                count == start.voices_spec().len(),
                self.allocator.wf(),
                VoiceAllocator::same_assignment(start, self.allocator),
                self.allocator.voices_spec().len() == count,
                forall|j: int| i <= j < count ==> self.allocator.voices_spec()[j] == start.voices_spec()[j],
                forall|j: int|
                    0 <= j < i ==> {
                        let (a, b) = (start.voices_spec()[j], #[trigger] self.allocator.voices_spec()[j]);
                        &&& b.timings_spec() == timings
                        &&& b.state_spec() == a.state_spec()
                        &&& b.key_spec() == a.key_spec()
                        &&& b.velocity_spec() == a.velocity_spec()
                        &&& b.pending_spec() == a.pending_spec()
                    },
            decreases count - i,
        {
            self.allocator.set_voice_timings(i, timings);
            i = i + 1;
        }
    }

    /// Advances every voice by one sample; `targets_reached` holds, for each
    /// voice, whether its envelope stage met its target on this sample.
    pub fn tick(&mut self, targets_reached: &[bool])
        requires
            old(self).allocator_spec().wf(),
            targets_reached@.len() == old(self).allocator_spec().voices_spec().len(),
        ensures
            final(self).allocator_spec().wf(),
            VoiceAllocator::tick_outcome(
                old(self).allocator_spec(),
                final(self).allocator_spec(),
                targets_reached@,
            ),
    {
        self.allocator.tick(targets_reached);
    }
}

proof fn lemma_picked_slot_in_range(
    before: Synthesizer,
    after: VoiceAllocator,
    key: u8,
    r: Result<usize, VoiceError>,
)
    requires
        before.allocator_spec().wf(),
        VoiceAllocator::get_voice_outcome(before.allocator_spec(), after, key, r),
    ensures
        r is Ok ==> r->Ok_0 < after.voices_spec().len(),
        after.voices_spec() == before.allocator_spec().voices_spec(),
{
}

} // verus!
