//! The lifecycle of one voice: the note it plays, its envelope's stage, and
//! the note that waits to be replayed once a stolen voice has gone quiet.

use vstd::prelude::*;
use crate::envelope::{entered_state, state_after_tick, EnvelopeStages, EnvelopeState, StageTimings};

verus! {

/// A note that a voice has been asked to play.
#[derive(Clone, Copy, Debug, Default, PartialEq, Eq, Structural)]
pub struct NoteRequest {
    pub key: u8,
    pub velocity: u8,
}

/// One voice: sounds a single note at a time.
///
/// A voice plays for as long as its amplitude envelope is not idle. A note-on
/// that arrives while it plays does not retrigger it: the voice latches the
/// new note and shuts down quickly, and replays the latched note on the tick
/// when the shutdown ends.
#[derive(Clone, Copy, Debug, Default, PartialEq, Eq, Structural)]
pub struct Voice {
    envelope: EnvelopeStages,
    key: u8,
    velocity: u8,
    pending_note: Option<NoteRequest>,
}

impl Voice {
    pub closed spec fn state_spec(&self) -> EnvelopeState {
        self.envelope.state_spec()
    }

    pub closed spec fn timings_spec(&self) -> StageTimings {
        self.envelope.timings_spec()
    }

    /// The key that the voice's pitch is set from.
    pub closed spec fn key_spec(&self) -> u8 {
        self.key
    }

    pub closed spec fn velocity_spec(&self) -> u8 {
        self.velocity
    }

    /// The key and velocity latched by a note-on that stole this voice.
    pub closed spec fn pending_spec(&self) -> Option<NoteRequest> {
        self.pending_note
    }

    pub open spec fn playing(&self) -> bool {
        self.state_spec() != EnvelopeState::Idle
    }

    /// A silent voice whose envelope has the given stage timings.
    pub fn new_with(timings: StageTimings) -> (r: Self)
        ensures
            r.state_spec() == EnvelopeState::Idle,
            r.timings_spec() == timings,
            r.key_spec() == 0,
            r.velocity_spec() == 0,
            r.pending_spec() == None::<NoteRequest>,
    {
        Voice { envelope: EnvelopeStages::new_with(timings), key: 0, velocity: 0, pending_note: None }
    }

    pub fn is_playing(&self) -> (r: bool)
        ensures
            r == self.playing(),
    {
        !self.envelope.is_idle()
    }

    pub fn key(&self) -> (r: u8)
        ensures
            r == self.key_spec(),
    {
        self.key
    }

    pub fn velocity(&self) -> (r: u8)
        ensures
            r == self.velocity_spec(),
    {
        self.velocity
    }

    pub fn pending_note(&self) -> (r: Option<NoteRequest>)
        ensures
            r == self.pending_spec(),
    {
        self.pending_note
    }

    pub fn envelope_state(&self) -> (r: EnvelopeState)
        ensures
            r == self.state_spec(),
    {
        self.envelope.state()
    }

    /// Whether the voice is in the forced ramp to silence of a steal.
    pub fn is_shutting_down(&self) -> (r: bool)
        ensures
            r == (self.state_spec() == EnvelopeState::Shutdown),
    {
        self.envelope.is_shutting_down()
    }

    /// Starts `key`, or, while the voice still sounds, latches it and begins
    /// the shutdown after which it is replayed.
    pub fn note_on(&mut self, key: u8, velocity: u8)
        ensures
            note_on_outcome(*old(self), *final(self), key, velocity),
    {
        if self.is_playing() {
            self.pending_note = Some(NoteRequest { key, velocity });
            self.envelope.trigger_shutdown();
        } else {
            self.key = key;
            self.velocity = velocity;
            self.pending_note = None;
            self.envelope.trigger_attack();
        }
    }

    /// Releases the note that is playing, and drops a note latched by a
    /// steal that has not been replayed yet.
    pub fn note_off(&mut self, velocity: u8)
        ensures
            note_off_outcome(*old(self), *final(self)),
    {
        self.pending_note = None;
        self.envelope.trigger_release();
    }

    /// Changes the envelope's stage timings; they apply from the next stage
    /// entered.
    pub fn set_timings(&mut self, timings: StageTimings)
        ensures
            final(self).timings_spec() == timings,
            final(self).state_spec() == old(self).state_spec(),
            final(self).key_spec() == old(self).key_spec(),
            final(self).velocity_spec() == old(self).velocity_spec(),
            final(self).pending_spec() == old(self).pending_spec(),
    {
        self.envelope.set_timings(timings);
    }

    /// Advances by one sample. A silent voice does no work. When a shutdown
    /// ends on this tick, the latched note starts at once.
    pub fn tick(&mut self, target_reached: bool)
        ensures
            tick_outcome(*old(self), *final(self), target_reached),
    {
        if self.is_playing() {
            self.envelope.tick(target_reached);
            if !self.is_playing() {
                if let Some(request) = self.pending_note {
                    self.pending_note = None;
                    self.note_on(request.key, request.velocity);
                }
            }
        }
    }
}

/// What a note-on does to a voice.
pub open spec fn note_on_outcome(before: Voice, after: Voice, key: u8, velocity: u8) -> bool {
    &&& after.timings_spec() == before.timings_spec()
    &&& if before.playing() {
        &&& after.state_spec() == EnvelopeState::Shutdown
        &&& after.pending_spec() == Some(NoteRequest { key: key, velocity: velocity })
        &&& after.key_spec() == before.key_spec()
        &&& after.velocity_spec() == before.velocity_spec()
    } else {
        &&& after.state_spec() == entered_state(EnvelopeState::Attack, before.timings_spec())
        &&& after.pending_spec() == None::<NoteRequest>
        &&& after.key_spec() == key
        &&& after.velocity_spec() == velocity
    }
}

/// What a note-off does to a voice: its envelope enters Release, and no
/// note stays latched.
pub open spec fn note_off_outcome(before: Voice, after: Voice) -> bool {
    &&& after.state_spec() == entered_state(EnvelopeState::Release, before.timings_spec())
    &&& after.timings_spec() == before.timings_spec()
    &&& after.pending_spec() == None::<NoteRequest>
    &&& after.key_spec() == before.key_spec()
    &&& after.velocity_spec() == before.velocity_spec()
}

/// What one tick does to a voice.
pub open spec fn tick_outcome(before: Voice, after: Voice, target_reached: bool) -> bool {
    let next = state_after_tick(before.state_spec(), target_reached, before.timings_spec());
    &&& after.timings_spec() == before.timings_spec()
    &&& if !before.playing() {
        &&& after.state_spec() == before.state_spec()
        &&& after.pending_spec() == before.pending_spec()
        &&& after.key_spec() == before.key_spec()
        &&& after.velocity_spec() == before.velocity_spec()
    } else if next != EnvelopeState::Idle || before.pending_spec() is None {
        &&& after.state_spec() == next
        &&& after.pending_spec() == before.pending_spec()
        &&& after.key_spec() == before.key_spec()
        &&& after.velocity_spec() == before.velocity_spec()
    } else {
        &&& after.state_spec() == entered_state(EnvelopeState::Attack, before.timings_spec())
        &&& after.pending_spec() == None::<NoteRequest>
        &&& after.key_spec() == before.pending_spec()->Some_0.key
        &&& after.velocity_spec() == before.pending_spec()->Some_0.velocity
    }
}

} // verus!
