//! Voice allocation: the policies that map incoming note keys onto a fixed
//! pool of voices.
//!
//! Each store owns its voices for its whole life. [VoiceStore] refuses a note
//! when every voice is busy, [StealingVoiceStore] takes over the first voice
//! instead, and [VoicePerNoteStore] binds one voice to each key up front.
//! A store hands out the slot index of the voice that should take a note;
//! the voice itself is then reached through `voice` or `voice_mut`.

use vstd::prelude::*;
use crate::envelope::EnvelopeState;
use crate::voice::{note_on_outcome, tick_outcome, NoteRequest, Voice};

verus! {

/// The number of voices in a multi-voice instrument.
#[derive(Clone, Copy, Debug, PartialEq, Eq, Structural)]
pub struct VoiceCount(pub usize);

impl Default for VoiceCount {
    fn default() -> (r: Self)
        ensures
            r.0 == 8,
    {
        VoiceCount(8)
    }
}

/// Why a store could not hand out a voice.
#[derive(Clone, Copy, Debug, PartialEq, Eq, Structural)]
pub enum VoiceError {
    /// Every voice is busy and the store does not steal.
    OutOfVoices,
    /// No voice is bound to this key.
    NoVoiceForKey(u8),
}

/// How many of `voices` are playing.
pub open spec fn count_playing(voices: Seq<Voice>) -> nat
    decreases voices.len(),
{
    if voices.len() == 0 {
        0
    } else {
        count_playing(voices.drop_last()) + if voices.last().playing() {
            1nat
        } else {
            0nat
        }
    }
}

/// The voice that the last pair with `key` binds to it, if any pair has it.
pub open spec fn last_binding(pairs: Seq<(u8, Voice)>, key: u8) -> Option<Voice>
    decreases pairs.len(),
{
    if pairs.len() == 0 {
        None
    } else if pairs.last().0 == key {
        Some(pairs.last().1)
    } else {
        last_binding(pairs.drop_last(), key)
    }
}

/// Slot `i` records `key` and its voice plays: a recorded key counts only
/// while its voice sounds.
pub open spec fn is_live_key_slot(notes: Seq<Option<u8>>, voices: Seq<Voice>, key: u8, i: int) -> bool {
    &&& 0 <= i < notes.len()
    &&& i < voices.len()
    &&& notes[i] == Some(key)
    &&& voices[i].playing()
}

/// Some slot records `key` while its voice plays.
pub open spec fn has_key_slot(notes: Seq<Option<u8>>, voices: Seq<Voice>, key: u8) -> bool {
    exists|i: int| #[trigger] is_live_key_slot(notes, voices, key, i)
}

/// `i` is the first slot that records `key` while its voice plays.
pub open spec fn is_first_key_slot(notes: Seq<Option<u8>>, voices: Seq<Voice>, key: u8, i: int) -> bool {
    &&& is_live_key_slot(notes, voices, key, i)
    &&& forall|j: int| 0 <= j < i ==> !is_live_key_slot(notes, voices, key, j)
}

/// Some voice is silent.
pub open spec fn has_idle_voice(voices: Seq<Voice>) -> bool {
    exists|i: int| 0 <= i < voices.len() && !voices[i].playing()
}

/// `i` is the first silent voice.
pub open spec fn is_first_idle_voice(voices: Seq<Voice>, i: int) -> bool {
    &&& 0 <= i < voices.len()
    &&& !voices[i].playing()
    &&& forall|j: int| 0 <= j < i ==> voices[j].playing()
}

/// Every voice of `after` is its counterpart of `before` ticked once with the
/// matching target flag.
pub open spec fn all_ticked(before: Seq<Voice>, after: Seq<Voice>, targets_reached: Seq<bool>) -> bool {
    &&& after.len() == before.len()
    &&& forall|i: int|
        0 <= i < before.len() ==> #[trigger] tick_outcome(before[i], after[i], targets_reached[i])
}

/// The slot table after a tick: a slot keeps its key only while its voice plays.
pub open spec fn notes_after_tick(
    notes: Seq<Option<u8>>,
    voices: Seq<Voice>,
    after: Seq<Option<u8>>,
) -> bool {
    &&& after.len() == notes.len()
    &&& forall|i: int|
        0 <= i < notes.len() ==> #[trigger] after[i] == if voices[i].playing() {
            notes[i]
        } else {
            None
        }
}

/// A store that refuses a note when every voice is busy.
#[derive(Debug)]
pub struct VoiceStore {
    voices: Vec<Voice>,
    notes_playing: Vec<Option<u8>>,
}

impl VoiceStore {
    pub closed spec fn voices_spec(&self) -> Seq<Voice> {
        self.voices@
    }

    /// The key recorded for each slot.
    pub closed spec fn notes_spec(&self) -> Seq<Option<u8>> {
        self.notes_playing@
    }

    pub open spec fn wf(&self) -> bool {
        self.voices_spec().len() == self.notes_spec().len()
    }

    /// A store of `voice_capacity` voices, each made by `new_voice_fn`.
    pub fn new_with_voice<F: Fn() -> Voice>(voice_capacity: VoiceCount, new_voice_fn: F) -> (r: Self)
        requires
            new_voice_fn.requires(()),
        ensures
            r.wf(),
            r.voices_spec().len() == voice_capacity.0,
            forall|i: int|
                0 <= i < voice_capacity.0 ==> new_voice_fn.ensures((), #[trigger] r.voices_spec()[i]),
            forall|i: int| 0 <= i < voice_capacity.0 ==> #[trigger] r.notes_spec()[i] == None::<u8>,
    {
        let voices = fresh_voices(voice_capacity.0, &new_voice_fn);
        let notes_playing = empty_slots(voice_capacity.0);
        VoiceStore { voices, notes_playing }
    }

    pub fn voice_count(&self) -> (r: usize)
        ensures
            r == self.voices_spec().len(),
    {
        self.voices.len()
    }

    pub fn active_voice_count(&self) -> (r: usize)
        ensures
            r == count_playing(self.voices_spec()),
    {
        count_active(&self.voices)
    }

    /// What `get_voice(key)` does: picks the voice that sounds `key`,
    /// else the first silent voice, which is then recorded as playing `key`;
    /// refuses with `OutOfVoices` when neither exists, changing nothing.
    pub open spec fn get_voice_outcome(
        before: Self,
        after: Self,
        key: u8,
        r: Result<usize, VoiceError>,
    ) -> bool {
        &&& after.wf()
        &&& after.voices_spec() == before.voices_spec()
        &&& match r {
            Ok(i) => if has_key_slot(before.notes_spec(), before.voices_spec(), key) {
                &&& is_first_key_slot(before.notes_spec(), before.voices_spec(), key, i as int)
                &&& after.notes_spec() == before.notes_spec()
            } else {
                &&& is_first_idle_voice(before.voices_spec(), i as int)
                &&& after.notes_spec() == before.notes_spec().update(i as int, Some(key))
            },
            Err(e) => {
                &&& e == VoiceError::OutOfVoices
                &&& !has_key_slot(before.notes_spec(), before.voices_spec(), key)
                &&& !has_idle_voice(before.voices_spec())
                &&& after.notes_spec() == before.notes_spec()
            },
        }
    }

    /// The slot of the voice that should take `key` (see `get_voice_outcome`).
    pub fn get_voice(&mut self, key: u8) -> (r: Result<usize, VoiceError>)
        requires
            old(self).wf(),
        ensures
            Self::get_voice_outcome(*old(self), *final(self), key, r),
    {
        if let Some(index) = position_of_key(&self.notes_playing, &self.voices, key) {
            return Ok(index);
        }
        if let Some(index) = first_idle_voice(&self.voices) {
            self.notes_playing.set(index, Some(key));
            return Ok(index);
        }
        Err(VoiceError::OutOfVoices)
    }

    /// The slot whose voice sounds `key`, without assigning one.
    pub fn find_voice(&self, key: u8) -> (r: Option<usize>)
        requires
            self.wf(),
        ensures
            match r {
                Some(i) => is_first_key_slot(self.notes_spec(), self.voices_spec(), key, i as int),
                None => !has_key_slot(self.notes_spec(), self.voices_spec(), key),
            },
    {
        position_of_key(&self.notes_playing, &self.voices, key)
    }

    pub fn voice(&self, index: usize) -> (r: &Voice)
        requires
            index < self.voices_spec().len(),
        ensures
            *r == self.voices_spec()[index as int],
    {
        &self.voices[index]
    }

    pub fn voice_mut(&mut self, index: usize) -> (r: &mut Voice)
        requires
            index < old(self).voices_spec().len(),
        ensures
            *r == old(self).voices_spec()[index as int],
            final(self).voices_spec() == old(self).voices_spec().update(index as int, *final(r)),
            final(self).notes_spec() == old(self).notes_spec(),
    {
        &mut self.voices[index]
    }

    /// Advances every voice by one sample, then forgets the key of each
    /// voice that is silent.
    pub fn tick(&mut self, targets_reached: &[bool])
        requires
            old(self).wf(),
            targets_reached@.len() == old(self).voices_spec().len(),
        ensures
            final(self).wf(),
            all_ticked(old(self).voices_spec(), final(self).voices_spec(), targets_reached@),
            notes_after_tick(old(self).notes_spec(), final(self).voices_spec(), final(self).notes_spec()),
    {
        tick_voices(&mut self.voices, targets_reached);
        release_silent_slots(&mut self.notes_playing, &self.voices);
    }
}

/// A store that, when every voice is busy, steals the first one.
#[derive(Debug)]
pub struct StealingVoiceStore {
    voices: Vec<Voice>,
    notes_playing: Vec<Option<u8>>,
}

impl StealingVoiceStore {
    pub closed spec fn voices_spec(&self) -> Seq<Voice> {
        self.voices@
    }

    /// The key recorded for each slot.
    pub closed spec fn notes_spec(&self) -> Seq<Option<u8>> {
        self.notes_playing@
    }

    pub open spec fn wf(&self) -> bool {
        self.voices_spec().len() == self.notes_spec().len()
    }

    /// A store of `voice_capacity` voices, each made by `new_voice_fn`.
    pub fn new_with_voice<F: Fn() -> Voice>(voice_capacity: usize, new_voice_fn: F) -> (r: Self)
        requires
            new_voice_fn.requires(()),
        ensures
            r.wf(),
            r.voices_spec().len() == voice_capacity,
            forall|i: int|
                0 <= i < voice_capacity ==> new_voice_fn.ensures((), #[trigger] r.voices_spec()[i]),
            forall|i: int| 0 <= i < voice_capacity ==> #[trigger] r.notes_spec()[i] == None::<u8>,
    {
        let voices = fresh_voices(voice_capacity, &new_voice_fn);
        let notes_playing = empty_slots(voice_capacity);
        StealingVoiceStore { voices, notes_playing }
    }

    pub fn voice_count(&self) -> (r: usize)
        ensures
            r == self.voices_spec().len(),
    {
        self.voices.len()
    }

    pub fn active_voice_count(&self) -> (r: usize)
        ensures
            r == count_playing(self.voices_spec()),
    {
        count_active(&self.voices)
    }

    /// What `get_voice(key)` does: picks the voice that sounds `key`,
    /// else the first silent voice, else the first voice, which is taken over.
    /// The chosen slot is then recorded as playing `key`. Only a store without
    /// voices refuses, with `OutOfVoices`.
    pub open spec fn get_voice_outcome(
        before: Self,
        after: Self,
        key: u8,
        r: Result<usize, VoiceError>,
    ) -> bool {
        &&& after.wf()
        &&& after.voices_spec() == before.voices_spec()
        &&& match r {
            Ok(i) => if has_key_slot(before.notes_spec(), before.voices_spec(), key) {
                &&& is_first_key_slot(before.notes_spec(), before.voices_spec(), key, i as int)
                &&& after.notes_spec() == before.notes_spec()
            } else if has_idle_voice(before.voices_spec()) {
                &&& is_first_idle_voice(before.voices_spec(), i as int)
                &&& after.notes_spec() == before.notes_spec().update(i as int, Some(key))
            } else {
                &&& i == 0
                &&& before.voices_spec().len() > 0
                &&& after.notes_spec() == before.notes_spec().update(0, Some(key))
            },
            Err(e) => {
                &&& e == VoiceError::OutOfVoices
                &&& before.voices_spec().len() == 0
                &&& after.notes_spec() == before.notes_spec()
            },
        }
    }

    /// The slot of the voice that should take `key` (see `get_voice_outcome`).
    pub fn get_voice(&mut self, key: u8) -> (r: Result<usize, VoiceError>)
        requires
            old(self).wf(),
        ensures
            Self::get_voice_outcome(*old(self), *final(self), key, r),
    {
        if let Some(index) = position_of_key(&self.notes_playing, &self.voices, key) {
            return Ok(index);
        }
        if let Some(index) = first_idle_voice(&self.voices) {
            self.notes_playing.set(index, Some(key));
            return Ok(index);
        }
        if self.voices.len() == 0 {
            return Err(VoiceError::OutOfVoices);
        }
        self.notes_playing.set(0, Some(key));
        Ok(0)
    }

    /// The slot whose voice sounds `key`, without assigning one.
    pub fn find_voice(&self, key: u8) -> (r: Option<usize>)
        requires
            self.wf(),
        ensures
            match r {
                Some(i) => is_first_key_slot(self.notes_spec(), self.voices_spec(), key, i as int),
                None => !has_key_slot(self.notes_spec(), self.voices_spec(), key),
            },
    {
        position_of_key(&self.notes_playing, &self.voices, key)
    }

    pub fn voice(&self, index: usize) -> (r: &Voice)
        requires
            index < self.voices_spec().len(),
        ensures
            *r == self.voices_spec()[index as int],
    {
        &self.voices[index]
    }

    pub fn voice_mut(&mut self, index: usize) -> (r: &mut Voice)
        requires
            index < old(self).voices_spec().len(),
        ensures
            *r == old(self).voices_spec()[index as int],
            final(self).voices_spec() == old(self).voices_spec().update(index as int, *final(r)),
            final(self).notes_spec() == old(self).notes_spec(),
    {
        &mut self.voices[index]
    }

    /// Advances every voice by one sample, then forgets the key of each
    /// voice that is silent.
    pub fn tick(&mut self, targets_reached: &[bool])
        requires
            old(self).wf(),
            targets_reached@.len() == old(self).voices_spec().len(),
        ensures
            final(self).wf(),
            all_ticked(old(self).voices_spec(), final(self).voices_spec(), targets_reached@),
            notes_after_tick(old(self).notes_spec(), final(self).voices_spec(), final(self).notes_spec()),
    {
        tick_voices(&mut self.voices, targets_reached);
        release_silent_slots(&mut self.notes_playing, &self.voices);
    }
}

/// A store in which each voice is bound to one key, such as one voice per
/// drum sample. It never steals.
#[derive(Debug)]
pub struct VoicePerNoteStore {
    keys: Vec<u8>,
    voices: Vec<Voice>,
}

impl VoicePerNoteStore {
    /// The key that each voice is bound to.
    pub closed spec fn keys_spec(&self) -> Seq<u8> {
        self.keys@
    }

    pub closed spec fn voices_spec(&self) -> Seq<Voice> {
        self.voices@
    }

    /// One voice per key, each key bound once.
    pub open spec fn wf(&self) -> bool {
        &&& self.keys_spec().len() == self.voices_spec().len()
        &&& self.keys_spec().no_duplicates()
    }

    /// A store with no voices.
    pub fn new() -> (r: Self)
        ensures
            r.wf(),
            r.keys_spec().len() == 0,
    {
        VoicePerNoteStore { keys: Vec::new(), voices: Vec::new() }
    }

    /// A store holding each pair's voice under its key; where a key comes
    /// twice, the later voice replaces the earlier.
    pub fn new_with_voices(voices: Vec<(u8, Voice)>) -> (r: Self)
        ensures
            r.wf(),
            forall|k: u8| #[trigger] r.keys_spec().contains(k) <==> last_binding(voices@, k) is Some,
            forall|i: int|
                0 <= i < r.keys_spec().len() ==> last_binding(voices@, #[trigger] r.keys_spec()[i])
                    == Some(r.voices_spec()[i]),
    {
        let mut store = VoicePerNoteStore::new();
        let mut i: usize = 0;
        while i < voices.len()
            invariant
                0 <= i <= voices@.len(),
                store.wf(),
                forall|k: u8| #[trigger] store.keys_spec().contains(k) <==> last_binding(
                    voices@.take(i as int),
                    k,
                ) is Some,
                forall|j: int|
                    0 <= j < store.keys_spec().len() ==> last_binding(
                        voices@.take(i as int),
                        #[trigger] store.keys_spec()[j],
                    ) == Some(store.voices_spec()[j]),
            decreases voices@.len() - i,
        {
            let (key, voice) = voices[i];
            let ghost before = store;
            let ghost prefix = voices@.take(i as int);
            let ghost next = voices@.take(i as int + 1);
            assert(next.drop_last() =~= prefix);
            assert(next.last() == (key, voice));
            store.add_voice(key, voice);
            assert forall|k: u8| #[trigger] store.keys_spec().contains(k) <==> last_binding(next, k) is Some by {
                if k != key {
                    if store.keys_spec().contains(k) {
                        let t = choose|t: int| 0 <= t < store.keys_spec().len() && store.keys_spec()[t] == k;
                        assert(before.keys_spec()[t] == k);
                        assert(before.keys_spec().contains(k));
                    }
                    if before.keys_spec().contains(k) {
                        let t = choose|t: int| 0 <= t < before.keys_spec().len() && before.keys_spec()[t] == k;
                        assert(store.keys_spec()[t] == k);
                    }
                }
            }
            assert forall|j: int| 0 <= j < store.keys_spec().len() implies last_binding(
                next,
                #[trigger] store.keys_spec()[j],
            ) == Some(store.voices_spec()[j]) by {
                if store.keys_spec()[j] != key {
                    assert(before.keys_spec()[j] == store.keys_spec()[j]);
                    assert(before.voices_spec()[j] == store.voices_spec()[j]);
                } else {
                    if before.keys_spec().contains(key) {
                        let t = choose|t: int|
                            0 <= t < before.keys_spec().len() && before.keys_spec()[t] == key
                                && store.keys_spec() == before.keys_spec()
                                && store.voices_spec() == before.voices_spec().update(t, voice);
                        assert(t == j);
                    } else {
                        assert(j == before.keys_spec().len());
                    }
                }
            }
            i = i + 1;
        }
        assert(voices@.take(voices@.len() as int) =~= voices@);
        store
    }

    /// Binds `voice` to `key`, replacing the voice bound to it before.
    pub fn add_voice(&mut self, key: u8, voice: Voice)
        requires
            old(self).wf(),
        ensures
            final(self).wf(),
            if old(self).keys_spec().contains(key) {
                exists|i: int|
                    0 <= i < old(self).keys_spec().len() && old(self).keys_spec()[i] == key
                        && final(self).keys_spec() == old(self).keys_spec()
                        && final(self).voices_spec() == old(self).voices_spec().update(i, voice)
            } else {
                &&& final(self).keys_spec() == old(self).keys_spec().push(key)
                &&& final(self).voices_spec() == old(self).voices_spec().push(voice)
            },
            final(self).keys_spec().contains(key),
    {
        match index_of_key(&self.keys, key) {
            Some(index) => {
                self.voices.set(index, voice);
                assert(self.keys@[index as int] == key);
            },
            None => {
                let ghost old_keys = self.keys@;
                self.keys.push(key);
                self.voices.push(voice);
                assert(self.keys@[old_keys.len() as int] == key);
                assert forall|a: int, b: int|
                    0 <= a < self.keys@.len() && 0 <= b < self.keys@.len() && a != b implies self.keys@[a]
                    != self.keys@[b] by {
                    if a < old_keys.len() && b < old_keys.len() {
                    } else if a < old_keys.len() {
                        assert(old_keys.contains(self.keys@[a]));
                    } else {
                        assert(old_keys.contains(self.keys@[b]));
                    }
                }
            },
        }
    }

    pub fn voice_count(&self) -> (r: usize)
        ensures
            r == self.voices_spec().len(),
    {
        self.voices.len()
    }

    pub fn active_voice_count(&self) -> (r: usize)
        ensures
            r == count_playing(self.voices_spec()),
    {
        count_active(&self.voices)
    }

    /// The slot of the voice bound to `key`, or `NoVoiceForKey`.
    pub fn get_voice(&self, key: u8) -> (r: Result<usize, VoiceError>)
        requires
            self.wf(),
        ensures
            match r {
                Ok(i) => 0 <= i < self.keys_spec().len() && self.keys_spec()[i as int] == key,
                Err(e) => e == VoiceError::NoVoiceForKey(key) && !self.keys_spec().contains(key),
            },
    {
        match index_of_key(&self.keys, key) {
            Some(index) => Ok(index),
            None => Err(VoiceError::NoVoiceForKey(key)),
        }
    }

    /// The slot of the voice bound to `key`, if any.
    pub fn find_voice(&self, key: u8) -> (r: Option<usize>)
        ensures
            match r {
                Some(i) => 0 <= i < self.keys_spec().len() && self.keys_spec()[i as int] == key,
                None => !self.keys_spec().contains(key),
            },
    {
        index_of_key(&self.keys, key)
    }

    pub fn voice(&self, index: usize) -> (r: &Voice)
        requires
            index < self.voices_spec().len(),
        ensures
            *r == self.voices_spec()[index as int],
    {
        &self.voices[index]
    }

    pub fn voice_mut(&mut self, index: usize) -> (r: &mut Voice)
        requires
            index < old(self).voices_spec().len(),
        ensures
            *r == old(self).voices_spec()[index as int],
            final(self).voices_spec() == old(self).voices_spec().update(index as int, *final(r)),
            final(self).keys_spec() == old(self).keys_spec(),
    {
        &mut self.voices[index]
    }

    /// Advances every voice by one sample.
    pub fn tick(&mut self, targets_reached: &[bool])
        requires
            old(self).wf(),
            targets_reached@.len() == old(self).voices_spec().len(),
        ensures
            final(self).wf(),
            final(self).keys_spec() == old(self).keys_spec(),
            all_ticked(old(self).voices_spec(), final(self).voices_spec(), targets_reached@),
    {
        tick_voices(&mut self.voices, targets_reached);
    }
}

fn index_of_key(keys: &Vec<u8>, key: u8) -> (r: Option<usize>)
    ensures
        match r {
            Some(i) => 0 <= i < keys@.len() && keys@[i as int] == key,
            None => !keys@.contains(key),
        },
{
    let mut i: usize = 0;
    while i < keys.len()
        invariant
            0 <= i <= keys@.len(),
            forall|j: int| 0 <= j < i ==> keys@[j] != key,
        decreases keys@.len() - i,
    {
        if keys[i] == key {
            return Some(i);
        }
        i = i + 1;
    }
    None
}

fn position_of_key(notes: &Vec<Option<u8>>, voices: &Vec<Voice>, key: u8) -> (r: Option<usize>)
    requires
        notes@.len() == voices@.len(),
    ensures
        match r {
            Some(i) => is_first_key_slot(notes@, voices@, key, i as int),
            None => !has_key_slot(notes@, voices@, key),
        },
{
    let mut i: usize = 0;
    while i < notes.len()
        invariant
            0 <= i <= notes@.len(),
            notes@.len() == voices@.len(),
            forall|j: int| 0 <= j < i ==> !is_live_key_slot(notes@, voices@, key, j),
        decreases notes@.len() - i,
    {
        let found = match notes[i] {
            Some(k) => k == key && voices[i].is_playing(),
            None => false,
        };
        if found {
            return Some(i);
        }
        i = i + 1;
    }
    None
}

fn first_idle_voice(voices: &Vec<Voice>) -> (r: Option<usize>)
    ensures
        match r {
            Some(i) => is_first_idle_voice(voices@, i as int),
            None => !has_idle_voice(voices@),
        },
{
    let mut i: usize = 0;
    while i < voices.len()
        invariant
            0 <= i <= voices@.len(),
            forall|j: int| 0 <= j < i ==> voices@[j].playing(),
        decreases voices@.len() - i,
    {
        if !voices[i].is_playing() {
            return Some(i);
        }
        i = i + 1;
    }
    None
}

fn count_active(voices: &Vec<Voice>) -> (r: usize)
    ensures
        r == count_playing(voices@),
{
    let mut count: usize = 0;
    let mut i: usize = 0;
    while i < voices.len()
        invariant
            0 <= i <= voices@.len(),
            count == count_playing(voices@.subrange(0, i as int)),
            count <= i,
        decreases voices@.len() - i,
    {
        assert(voices@.subrange(0, i as int + 1).drop_last() =~= voices@.subrange(0, i as int));
        if voices[i].is_playing() {
            count = count + 1;
        }
        i = i + 1;
    }
    assert(voices@.subrange(0, voices@.len() as int) =~= voices@);
    count
}

fn tick_voices(voices: &mut Vec<Voice>, targets_reached: &[bool])
    requires
        targets_reached@.len() == old(voices)@.len(),
    ensures
        all_ticked(old(voices)@, final(voices)@, targets_reached@),
{
    let ghost before = voices@;
    let mut i: usize = 0;
    while i < voices.len()
        invariant
            0 <= i <= voices@.len(),
            voices@.len() == before.len(),
            targets_reached@.len() == before.len(),
            forall|j: int| i <= j < before.len() ==> voices@[j] == before[j],
            forall|j: int|
                0 <= j < i ==> #[trigger] tick_outcome(before[j], voices@[j], targets_reached@[j]),
        decreases before.len() - i,
    {
        let mut voice = voices[i];
        voice.tick(targets_reached[i]);
        voices.set(i, voice);
        i = i + 1;
    }
}

fn release_silent_slots(notes: &mut Vec<Option<u8>>, voices: &Vec<Voice>)
    requires
        old(notes)@.len() == voices@.len(),
    ensures
        notes_after_tick(old(notes)@, voices@, final(notes)@),
{
    let ghost before = notes@;
    let mut i: usize = 0;
    while i < notes.len()
        invariant
            0 <= i <= notes@.len(),
            notes@.len() == before.len(),
            voices@.len() == before.len(),
            forall|j: int| i <= j < before.len() ==> notes@[j] == before[j],
            forall|j: int|
                0 <= j < i ==> #[trigger] notes@[j] == if voices@[j].playing() {
                    before[j]
                } else {
                    None
                },
        decreases before.len() - i,
    {
        if !voices[i].is_playing() {
            notes.set(i, None);
        }
        i = i + 1;
    }
}

fn fresh_voices<F: Fn() -> Voice>(count: usize, new_voice_fn: &F) -> (r: Vec<Voice>)
    requires
        new_voice_fn.requires(()),
    ensures
        r@.len() == count,
        forall|i: int| 0 <= i < count ==> new_voice_fn.ensures((), #[trigger] r@[i]),
{
    let mut voices: Vec<Voice> = Vec::new();
    let mut i: usize = 0;
    while i < count
        invariant
            0 <= i <= count,
            voices@.len() == i,
            new_voice_fn.requires(()),
            forall|j: int| 0 <= j < i ==> new_voice_fn.ensures((), #[trigger] voices@[j]),
        decreases count - i,
    {
        let voice = new_voice_fn();
        voices.push(voice);
        i = i + 1;
    }
    voices
}

fn empty_slots(count: usize) -> (r: Vec<Option<u8>>)
    ensures
        r@.len() == count,
        forall|i: int| 0 <= i < count ==> #[trigger] r@[i] == None::<u8>,
{
    let mut notes: Vec<Option<u8>> = Vec::new();
    let mut i: usize = 0;
    while i < count
        invariant
            0 <= i <= count,
            notes@.len() == i,
            forall|j: int| 0 <= j < i ==> #[trigger] notes@[j] == None::<u8>,
        decreases count - i,
    {
        notes.push(None);
        i = i + 1;
    }
    notes
}

/// A store that refuses when full: once every voice plays and none plays
/// `key`, asking for a voice for `key` is refused with `OutOfVoices`, and
/// the voices and their recorded keys stay exactly as they were.
pub proof fn rejecting_store_refuses_excess_key(
    before: VoiceStore,
    after: VoiceStore,
    key: u8,
    r: Result<usize, VoiceError>,
)
    requires
        before.wf(),
        forall|i: int| 0 <= i < before.voices_spec().len() ==> #[trigger] before.voices_spec()[i].playing(),
        !has_key_slot(before.notes_spec(), before.voices_spec(), key),
        VoiceStore::get_voice_outcome(before, after, key, r),
    ensures
        r == Err::<usize, VoiceError>(VoiceError::OutOfVoices),
        after.voices_spec() == before.voices_spec(),
        after.notes_spec() == before.notes_spec(),
{
    match r {
        Ok(i) => {
            assert(!before.voices_spec()[i as int].playing());
        },
        Err(_) => {},
    }
}

/// A stealing store that is full takes over its first voice for a new key;
/// the note-on sent to that voice puts it into Shutdown with the new note
/// latched; while the shutdown has not reached silence the voice stays in
/// Shutdown, and on the tick that it does, the latched note starts.
pub proof fn stealing_store_shuts_down_stolen_voice(
    before: StealingVoiceStore,
    after: StealingVoiceStore,
    key: u8,
    velocity: u8,
    r: Result<usize, VoiceError>,
    stolen: Voice,
    still_ramping: Voice,
    replayed: Voice,
)
    requires
        before.wf(),
        before.voices_spec().len() > 0,
        forall|i: int| 0 <= i < before.voices_spec().len() ==> #[trigger] before.voices_spec()[i].playing(),
        !has_key_slot(before.notes_spec(), before.voices_spec(), key),
        StealingVoiceStore::get_voice_outcome(before, after, key, r),
        note_on_outcome(after.voices_spec()[0], stolen, key, velocity),
        tick_outcome(stolen, still_ramping, false),
        tick_outcome(stolen, replayed, true),
    ensures
        r == Ok::<usize, VoiceError>(0),
        after.notes_spec()[0] == Some(key),
        stolen.state_spec() == EnvelopeState::Shutdown,
        stolen.pending_spec() == Some(NoteRequest { key: key, velocity: velocity }),
        still_ramping.state_spec() == EnvelopeState::Shutdown,
        still_ramping.key_spec() == before.voices_spec()[0].key_spec(),
        still_ramping.pending_spec() == Some(NoteRequest { key: key, velocity: velocity }),
        replayed.playing(),
        replayed.key_spec() == key,
        replayed.velocity_spec() == velocity,
        replayed.pending_spec() == None::<NoteRequest>,
{
    assert(!has_idle_voice(before.voices_spec()));
    match r {
        Ok(i) => {},
        Err(_) => {},
    }
}

} // verus!
