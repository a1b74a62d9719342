//! The sound-generation core of a small digital audio workstation: identifiers,
//! MIDI vocabulary, the envelope stage machine, voice lifecycles and the
//! policies that assign a bounded pool of voices to incoming notes.

use vstd::prelude::*;

pub mod control;
pub mod envelope;
pub mod instruments;
pub mod midi;
pub mod note;
pub mod oscillator;
pub mod synthesizer;
pub mod time;
pub mod uid;
pub mod voice;
pub mod voices;

verus! {

} // verus!
