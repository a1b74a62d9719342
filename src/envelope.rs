//! The stage machine of an ADSR envelope.
//!
//! An envelope moves through Idle, Attack, Decay, Sustain and Release, and can
//! be forced into a short Shutdown from any state. Which stage follows which,
//! and which stages are skipped because they last no time, is decided here.
//! How loud the envelope is at each sample is computed by the signal code that
//! drives this machine: it reports, once per tick, whether the running stage
//! has reached its amplitude or time target.

use vstd::prelude::*;

verus! {

/// The stage that an envelope is in.
#[derive(Clone, Copy, Debug, Default, PartialEq, Eq, Structural)]
pub enum EnvelopeState {
    #[default]
    Idle,
    Attack,
    Decay,
    Sustain,
    Release,
    Shutdown,
}

/// Which of an envelope's timed stages are set to last no time at all.
#[derive(Clone, Copy, Debug, Default, PartialEq, Eq, Structural)]
pub struct StageTimings {
    pub attack_is_instant: bool,
    pub decay_is_instant: bool,
    pub release_is_instant: bool,
}

/// The state that an envelope lands in when `requested` is entered: a stage
/// that lasts no time hands over at once to the one after it.
pub open spec fn entered_state(requested: EnvelopeState, timings: StageTimings) -> EnvelopeState {
    match requested {
        EnvelopeState::Attack => if !timings.attack_is_instant {
            EnvelopeState::Attack
        } else if !timings.decay_is_instant {
            EnvelopeState::Decay
        } else {
            EnvelopeState::Sustain
        },
        EnvelopeState::Decay => if !timings.decay_is_instant {
            EnvelopeState::Decay
        } else {
            EnvelopeState::Sustain
        },
        EnvelopeState::Release => if !timings.release_is_instant {
            EnvelopeState::Release
        } else {
            EnvelopeState::Idle
        },
        other => other,
    }
}

/// The stage that follows `state` once its target is reached; `None` for the
/// states that wait for no target (Idle and Sustain hold until triggered).
pub open spec fn successor(state: EnvelopeState) -> Option<EnvelopeState> {
    match state {
        EnvelopeState::Attack => Some(EnvelopeState::Decay),
        EnvelopeState::Decay => Some(EnvelopeState::Sustain),
        EnvelopeState::Release => Some(EnvelopeState::Idle),
        EnvelopeState::Shutdown => Some(EnvelopeState::Idle),
        _ => None,
    }
}

/// The stage that follows `state` once its target is reached, if it waits
/// for one.
pub fn next_stage(state: EnvelopeState) -> (r: Option<EnvelopeState>)
    ensures
        r == successor(state),
{
    match state {
        EnvelopeState::Attack => Some(EnvelopeState::Decay),
        EnvelopeState::Decay => Some(EnvelopeState::Sustain),
        EnvelopeState::Release => Some(EnvelopeState::Idle),
        EnvelopeState::Shutdown => Some(EnvelopeState::Idle),
        _ => None,
    }
}

/// The state after one tick in `state`, given whether its target was reached.
pub open spec fn state_after_tick(
    state: EnvelopeState,
    target_reached: bool,
    timings: StageTimings,
) -> EnvelopeState {
    match successor(state) {
        Some(next) => if target_reached {
            entered_state(next, timings)
        } else {
            state
        },
        None => state,
    }
}

/// Resolves a requested stage into the one that the envelope lands in.
pub fn enter_state(requested: EnvelopeState, timings: StageTimings) -> (r: EnvelopeState)
    ensures
        r == entered_state(requested, timings),
{
    match requested {
        EnvelopeState::Attack => {
            if !timings.attack_is_instant {
                EnvelopeState::Attack
            } else if !timings.decay_is_instant {
                EnvelopeState::Decay
            } else {
                EnvelopeState::Sustain
            }
        },
        EnvelopeState::Decay => {
            if !timings.decay_is_instant {
                EnvelopeState::Decay
            } else {
                EnvelopeState::Sustain
            }
        },
        EnvelopeState::Release => {
            if !timings.release_is_instant {
                EnvelopeState::Release
            } else {
                EnvelopeState::Idle
            }
        },
        other => other,
    }
}

/// The stage machine of one envelope.
#[derive(Clone, Copy, Debug, Default, PartialEq, Eq, Structural)]
pub struct EnvelopeStages {
    state: EnvelopeState,
    timings: StageTimings,
}

impl EnvelopeStages {
    pub closed spec fn state_spec(&self) -> EnvelopeState {
        self.state
    }

    pub closed spec fn timings_spec(&self) -> StageTimings {
        self.timings
    }

    /// An idle envelope with the given stage timings.
    pub fn new_with(timings: StageTimings) -> (r: Self)
        ensures
            r.state_spec() == EnvelopeState::Idle,
            r.timings_spec() == timings,
    {
        EnvelopeStages { state: EnvelopeState::Idle, timings }
    }

    pub fn state(&self) -> (r: EnvelopeState)
        ensures
            r == self.state_spec(),
    {
        self.state
    }

    pub fn timings(&self) -> (r: StageTimings)
        ensures
            r == self.timings_spec(),
    {
        self.timings
    }

    /// Changes the stage timings; they apply from the next stage entered.
    pub fn set_timings(&mut self, timings: StageTimings)
        ensures
            final(self).timings_spec() == timings,
            final(self).state_spec() == old(self).state_spec(),
    {
        self.timings = timings;
    }

    pub fn is_idle(&self) -> (r: bool)
        ensures
            r == (self.state_spec() == EnvelopeState::Idle),
    {
        match self.state {
            EnvelopeState::Idle => true,
            _ => false,
        }
    }

    /// Whether the envelope is in its forced shutdown ramp.
    pub fn is_shutting_down(&self) -> (r: bool)
        ensures
            r == (self.state_spec() == EnvelopeState::Shutdown),
    {
        match self.state {
            EnvelopeState::Shutdown => true,
            _ => false,
        }
    }

    /// Starts a note: enters Attack, or the first stage after it that takes
    /// time.
    pub fn trigger_attack(&mut self)
        ensures
            final(self).state_spec() == entered_state(
                EnvelopeState::Attack,
                old(self).timings_spec(),
            ),
            final(self).timings_spec() == old(self).timings_spec(),
    {
        self.state = enter_state(EnvelopeState::Attack, self.timings);
    }

    /// Ends a note: enters Release, or Idle when release takes no time.
    pub fn trigger_release(&mut self)
        ensures
            final(self).state_spec() == entered_state(
                EnvelopeState::Release,
                old(self).timings_spec(),
            ),
            final(self).timings_spec() == old(self).timings_spec(),
    {
        self.state = enter_state(EnvelopeState::Release, self.timings);
    }

    /// Forces the short ramp to silence used when a voice is stolen.
    pub fn trigger_shutdown(&mut self)
        ensures
            final(self).state_spec() == EnvelopeState::Shutdown,
            final(self).timings_spec() == old(self).timings_spec(),
    {
        self.state = EnvelopeState::Shutdown;
    }

    /// Advances by one sample. `target_reached` says whether the running
    /// stage met its amplitude or time target on this sample.
    pub fn tick(&mut self, target_reached: bool)
        ensures
            final(self).state_spec() == state_after_tick(
                old(self).state_spec(),
                target_reached,
                old(self).timings_spec(),
            ),
            final(self).timings_spec() == old(self).timings_spec(),
    {
        if let Some(next) = next_stage(self.state) {
            if target_reached {
                self.state = enter_state(next, self.timings);
            }
        }
    }
}

/// An envelope whose attack, decay and release all take no time is in
/// Sustain as soon as it is triggered, and Idle as soon as it is released.
pub proof fn instant_envelope_sustains_and_idles_at_once(timings: StageTimings)
    requires
        timings.attack_is_instant,
        timings.decay_is_instant,
        timings.release_is_instant,
    ensures
        entered_state(EnvelopeState::Attack, timings) == EnvelopeState::Sustain,
        entered_state(EnvelopeState::Release, timings) == EnvelopeState::Idle,
{
}

/// A decay that reaches its target always lands in Sustain, and a stage with
/// a target never stays put once the target is reached: no envelope is stuck
/// short of sustain.
pub proof fn decay_reaching_target_enters_sustain(timings: StageTimings)
    ensures
        state_after_tick(EnvelopeState::Decay, true, timings) == EnvelopeState::Sustain,
        forall|s: EnvelopeState|
            (#[trigger] successor(s)) is Some ==> state_after_tick(s, true, timings) != s,
{
}

} // verus!
