//! The integer side of an oscillator: its noise source and the clock that
//! decides, tick by tick, when the cycle restarts and when other oscillators
//! should hard-sync to it.
//!
//! The cycle position itself is a compensated floating-point sum kept by the
//! signal code; each tick it asks [OscillatorClock::begin_tick] what to do
//! with that position, and reports back through [OscillatorClock::end_tick]
//! whether the position crossed the end of a cycle.

use vstd::prelude::*;

verus! {

/// The first word of the noise generator's fixed seed.
pub const NOISE_SEED_1: u32 = 0x70f4f854;

/// The second word of the noise generator's fixed seed.
pub const NOISE_SEED_2: u32 = 0xe1e9f0a7;

/// A two-word xor-add generator of semi-deterministic noise. It is never
/// reseeded, so the same sequence of calls gives the same noise.
#[derive(Clone, Copy, Debug, PartialEq, Eq, Structural)]
pub struct NoiseGenerator {
    x1: u32,
    x2: u32,
}

/// The generator state after one step from `(x1, x2)`.
pub open spec fn noise_step(x1: u32, x2: u32) -> (u32, u32) {
    let y1 = x1 ^ x2;
    (y1, ((x2 as int + y1 as int) % 0x1_0000_0000) as u32)
}

impl NoiseGenerator {
    pub closed spec fn words(&self) -> (u32, u32) {
        (self.x1, self.x2)
    }

    /// A generator at the fixed seed.
    pub fn new() -> (r: Self)
        ensures
            r.words() == (NOISE_SEED_1, NOISE_SEED_2),
    {
        NoiseGenerator { x1: NOISE_SEED_1, x2: NOISE_SEED_2 }
    }

    /// The next raw noise word: the second state word before the step.
    pub fn next_word(&mut self) -> (r: u32)
        ensures
            r == old(self).words().1,
            final(self).words() == noise_step(old(self).words().0, old(self).words().1),
    {
        self.x1 = self.x1 ^ self.x2;
        let r = self.x2;
        self.x2 = self.x2.wrapping_add(self.x1);
        r
    }
}

impl Default for NoiseGenerator {
    fn default() -> (r: Self)
        ensures
            r.words() == (NOISE_SEED_1, NOISE_SEED_2),
    {
        NoiseGenerator::new()
    }
}

/// What the signal code does to the cycle position on this tick.
#[derive(Clone, Copy, Debug, PartialEq, Eq, Structural)]
pub struct PhaseAction {
    /// Recompute the per-sample phase increment from the current frequency
    /// and sample rate, and restart the compensated sum at its current value.
    pub recompute_delta: bool,
    /// Set the cycle position to zero.
    pub restart_cycle: bool,
    /// Add the increment to the cycle position, and wrap it if it crossed
    /// the end of the cycle. Never together with `restart_cycle`.
    pub advance: bool,
}

/// The flags and sample counter that steer an oscillator's cycle.
#[derive(Clone, Copy, Debug, Default, PartialEq, Eq, Structural)]
pub struct OscillatorClock {
    ticks: usize,
    reset_handled: bool,
    delta_updated: bool,
    sync_pending: bool,
    should_sync: bool,
    in_tick: bool,
}

impl OscillatorClock {
    /// Samples since the last reset.
    pub closed spec fn ticks_spec(&self) -> usize {
        self.ticks
    }

    /// The first tick after construction or a sample-rate change is still to
    /// come.
    pub closed spec fn reset_pending(&self) -> bool {
        !self.reset_handled
    }

    /// A frequency-affecting parameter changed since the increment was last
    /// computed.
    pub closed spec fn delta_stale(&self) -> bool {
        !self.delta_updated
    }

    pub closed spec fn sync_pending_spec(&self) -> bool {
        self.sync_pending
    }

    pub closed spec fn should_sync_spec(&self) -> bool {
        self.should_sync
    }

    /// Between `begin_tick` and `end_tick`.
    pub closed spec fn in_tick_spec(&self) -> bool {
        self.in_tick
    }

    /// A clock whose first tick is a reset.
    pub fn new() -> (r: Self)
        ensures
            r.reset_pending(),
            r.delta_stale(),
            !r.sync_pending_spec(),
            !r.should_sync_spec(),
            !r.in_tick_spec(),
            r.ticks_spec() == 0,
    {
        OscillatorClock {
            ticks: 0,
            reset_handled: false,
            delta_updated: false,
            sync_pending: false,
            should_sync: false,
            in_tick: false,
        }
    }

    /// A new sample rate: the next tick starts over.
    pub fn update_sample_rate(&mut self)
        ensures
            final(self).reset_pending(),
            final(self).delta_stale() == old(self).delta_stale(),
            final(self).sync_pending_spec() == old(self).sync_pending_spec(),
            final(self).should_sync_spec() == old(self).should_sync_spec(),
            final(self).in_tick_spec() == old(self).in_tick_spec(),
            final(self).ticks_spec() == old(self).ticks_spec(),
    {
        self.reset_handled = false;
    }

    /// A frequency-affecting parameter changed.
    pub fn frequency_changed(&mut self)
        ensures
            final(self).delta_stale(),
            final(self).reset_pending() == old(self).reset_pending(),
            final(self).sync_pending_spec() == old(self).sync_pending_spec(),
            final(self).should_sync_spec() == old(self).should_sync_spec(),
            final(self).in_tick_spec() == old(self).in_tick_spec(),
            final(self).ticks_spec() == old(self).ticks_spec(),
    {
        self.delta_updated = false;
    }

    /// Asks that the next tick restart the cycle (hard sync).
    pub fn sync(&mut self)
        ensures
            final(self).sync_pending_spec(),
            final(self).reset_pending() == old(self).reset_pending(),
            final(self).delta_stale() == old(self).delta_stale(),
            final(self).should_sync_spec() == old(self).should_sync_spec(),
            final(self).in_tick_spec() == old(self).in_tick_spec(),
            final(self).ticks_spec() == old(self).ticks_spec(),
    {
        self.sync_pending = true;
    }

    /// Whether the last tick started a cycle, the signal for oscillators
    /// hard-synced to this one.
    pub fn should_sync(&self) -> (r: bool)
        ensures
            r == self.should_sync_spec(),
    {
        self.should_sync
    }

    pub fn ticks(&self) -> (r: usize)
        ensures
            r == self.ticks_spec(),
    {
        self.ticks
    }

    /// Starts a tick. After a reset the counter returns to zero, the
    /// increment is recomputed and the cycle starts at zero without
    /// advancing. Otherwise the counter moves on, stopping at its largest
    /// value, and a stale increment is recomputed; then a pending sync puts
    /// this tick's sample at position zero, in place of advancing and
    /// wrapping, and without one the position advances.
    pub fn begin_tick(&mut self) -> (r: PhaseAction)
        requires
            !old(self).in_tick_spec(),
        ensures
            final(self).in_tick_spec(),
            !final(self).delta_stale(),
            !final(self).sync_pending_spec(),
            final(self).reset_pending() == old(self).reset_pending(),
            final(self).should_sync_spec() == old(self).should_sync_spec(),
            final(self).ticks_spec() == if old(self).reset_pending() {
                0
            } else if old(self).ticks_spec() < usize::MAX {
                (old(self).ticks_spec() + 1) as usize
            } else {
                usize::MAX
            },
            r.recompute_delta == (old(self).reset_pending() || old(self).delta_stale()),
            r.restart_cycle == (old(self).reset_pending() || old(self).sync_pending_spec()),
            r.advance == !(old(self).reset_pending() || old(self).sync_pending_spec()),
    {
        let first = !self.reset_handled;
        if first {
            self.ticks = 0;
        } else {
            self.ticks = self.ticks.saturating_add(1);
        }
        let recompute_delta = first || !self.delta_updated;
        self.delta_updated = true;
        let restart_cycle = first || self.sync_pending;
        self.sync_pending = false;
        self.in_tick = true;
        PhaseAction { recompute_delta, restart_cycle, advance: !restart_cycle }
    }

    /// Ends a tick. `crossed_cycle_end` says whether advancing the position
    /// crossed the end of the cycle (the signal code then wrapped it). The
    /// oscillator signals sync on the first tick after a reset and on every
    /// tick that wrapped.
    pub fn end_tick(&mut self, crossed_cycle_end: bool)
        requires
            old(self).in_tick_spec(),
        ensures
            !final(self).in_tick_spec(),
            !final(self).reset_pending(),
            final(self).should_sync_spec() == (old(self).reset_pending() || crossed_cycle_end),
            final(self).delta_stale() == old(self).delta_stale(),
            final(self).sync_pending_spec() == old(self).sync_pending_spec(),
            final(self).ticks_spec() == old(self).ticks_spec(),
    {
        self.should_sync = !self.reset_handled || crossed_cycle_end;
        self.reset_handled = true;
        self.in_tick = false;
    }
}

} // verus!
