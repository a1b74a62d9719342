//! Instruments built on the synthesizer's note handling.

use vstd::prelude::*;
use crate::midi::{MidiChannel, MidiMessage};
use crate::synthesizer::{midi_outcome, Synthesizer, VoiceAllocator};
use crate::uid::Uid;
use crate::voices::VoicePerNoteStore;

verus! {

/// Samples per second.
#[derive(Clone, Copy, Debug, PartialEq, Eq, Structural)]
pub struct SampleRate(pub usize);

/// The sample rate used until the audio device reports its own.
pub const DEFAULT_SAMPLE_RATE: usize = 44100;

impl Default for SampleRate {
    fn default() -> (r: Self)
        ensures
            r.0 == DEFAULT_SAMPLE_RATE,
    {
        SampleRate(DEFAULT_SAMPLE_RATE)
    }
}

/// The smallest possible instrument: it keeps its identity and sample rate
/// and makes no sound.
#[derive(Clone, Copy, Debug, PartialEq, Eq, Structural)]
pub struct TestInstrument {
    pub uid: Uid,
    pub sample_rate: SampleRate,
}

impl TestInstrument {
    pub fn new_with(uid: Uid) -> (r: Self)
        ensures
            r.uid == uid,
            r.sample_rate.0 == DEFAULT_SAMPLE_RATE,
    {
        TestInstrument { uid, sample_rate: SampleRate::default() }
    }

    pub fn update_sample_rate(&mut self, sample_rate: SampleRate)
        ensures
            final(self).sample_rate == sample_rate,
            final(self).uid == old(self).uid,
    {
        self.sample_rate = sample_rate;
    }
}

/// Which drum kit of the kit library an instrument plays.
#[derive(Clone, Copy, Debug, Default, PartialEq, Eq, Hash, Structural)]
pub struct KitIndex(pub usize);

/// A drum kit: one voice bound to each key that has a drum sample.
#[derive(Debug)]
pub struct DrumkitCore {
    kit_index: KitIndex,
    name: String,
    inner_synth: Synthesizer,
}

impl DrumkitCore {
    pub closed spec fn kit_index_spec(&self) -> KitIndex {
        self.kit_index
    }

    pub closed spec fn name_spec(&self) -> Seq<char> {
        self.name@
    }

    pub closed spec fn synth_spec(&self) -> Synthesizer {
        self.inner_synth
    }

    /// A kit named "Unknown" with no voices yet; its samples are loaded
    /// from the kit library separately.
    pub fn new_with_kit_index(kit_index: KitIndex) -> (r: Self)
        ensures
            r.kit_index_spec() == kit_index,
            r.name_spec() == "Unknown"@,
            r.synth_spec().allocator_spec().wf(),
            r.synth_spec().allocator_spec().voices_spec().len() == 0,
    {
        let store = VoicePerNoteStore::new();
        DrumkitCore {
            kit_index,
            name: String::from_str("Unknown"),
            inner_synth: Synthesizer::new_with(VoiceAllocator::PerKey(store)),
        }
    }

    pub fn name(&self) -> (r: &str)
        ensures
            r@ == self.name_spec(),
    {
        self.name.as_str()
    }

    pub fn set_name(&mut self, name: &str)
        ensures
            final(self).name_spec() == name@,
            final(self).kit_index_spec() == old(self).kit_index_spec(),
            final(self).synth_spec() == old(self).synth_spec(),
    {
        self.name = name.to_string();
    }

    pub fn kit_index(&self) -> (r: KitIndex)
        ensures
            r == self.kit_index_spec(),
    {
        self.kit_index
    }

    /// Switches to another kit. Returns whether the index changed, in which
    /// case the caller loads the new kit's samples with `set_voices`.
    pub fn set_kit_index(&mut self, kit_index: KitIndex) -> (changed: bool)
        ensures
            changed == (kit_index != old(self).kit_index_spec()),
            final(self).kit_index_spec() == kit_index,
            final(self).name_spec() == old(self).name_spec(),
            final(self).synth_spec() == old(self).synth_spec(),
    {
        if kit_index != self.kit_index {
            self.kit_index = kit_index;
            true
        } else {
            false
        }
    }

    /// Installs the voices of a freshly loaded kit.
    pub fn set_voices(&mut self, voices: VoicePerNoteStore)
        ensures
            final(self).synth_spec().allocator_spec() == VoiceAllocator::PerKey(voices),
            final(self).kit_index_spec() == old(self).kit_index_spec(),
            final(self).name_spec() == old(self).name_spec(),
    {
        self.inner_synth = Synthesizer::new_with(VoiceAllocator::PerKey(voices));
    }

    pub fn synthesizer(&self) -> (r: &Synthesizer)
        ensures
            *r == self.synth_spec(),
    {
        &self.inner_synth
    }

    /// Plays the message on the kit's voices.
    pub fn handle_midi_message(&mut self, channel: MidiChannel, message: MidiMessage)
        requires
            old(self).synth_spec().allocator_spec().wf(),
        ensures
            final(self).synth_spec().allocator_spec().wf(),
            exists|slot: Option<usize>|
                #![trigger midi_outcome(old(self).synth_spec().allocator_spec(), final(self).synth_spec().allocator_spec(), message, slot)]
                midi_outcome(
                    old(self).synth_spec().allocator_spec(),
                    final(self).synth_spec().allocator_spec(),
                    message,
                    slot,
                ),
            final(self).kit_index_spec() == old(self).kit_index_spec(),
            final(self).name_spec() == old(self).name_spec(),
    {
        let _slot = self.inner_synth.handle_midi_message(channel, message);
    }
}

} // verus!
