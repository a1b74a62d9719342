use ensnare_synth::oscillator::{NoiseGenerator, OscillatorClock, PhaseAction, NOISE_SEED_1, NOISE_SEED_2};

#[test]
fn noise_follows_xor_add_steps() {
    let mut n = NoiseGenerator::new();
    assert_eq!(n.next_word(), NOISE_SEED_2);
    let x1 = NOISE_SEED_1 ^ NOISE_SEED_2;
    let x2 = NOISE_SEED_2.wrapping_add(x1);
    assert_eq!(n.next_word(), x2);
    let x1b = x1 ^ x2;
    assert_eq!(n.next_word(), x2.wrapping_add(x1b));
}

#[test]
fn noise_is_reproducible_from_the_seed() {
    let mut a = NoiseGenerator::default();
    let mut b = NoiseGenerator::new();
    for _ in 0..1000 {
        assert_eq!(a.next_word(), b.next_word());
    }
}

#[test]
fn first_tick_after_reset_restarts_and_syncs() {
    let mut clock = OscillatorClock::new();
    let action = clock.begin_tick();
    assert_eq!(
        action,
        PhaseAction { recompute_delta: true, restart_cycle: true, advance: false }
    );
    clock.end_tick(false);
    assert!(clock.should_sync(), "the first tick after reset signals sync");
    assert_eq!(clock.ticks(), 0);

    let action = clock.begin_tick();
    assert_eq!(
        action,
        PhaseAction { recompute_delta: false, restart_cycle: false, advance: true }
    );
    clock.end_tick(false);
    assert!(!clock.should_sync(), "no sync midway through a cycle");
    assert_eq!(clock.ticks(), 1);

    clock.begin_tick();
    clock.end_tick(true);
    assert!(clock.should_sync(), "a wrapped cycle signals sync");
}

#[test]
fn sync_and_frequency_changes_take_effect_on_next_tick() {
    let mut clock = OscillatorClock::new();
    clock.begin_tick();
    clock.end_tick(false);
    clock.sync();
    clock.frequency_changed();
    let action = clock.begin_tick();
    assert!(action.restart_cycle);
    assert!(action.recompute_delta);
    assert!(!action.advance, "the synced tick sits at position zero");
    clock.end_tick(false);
    let action = clock.begin_tick();
    assert!(!action.restart_cycle);
    assert!(!action.recompute_delta);
    assert!(action.advance);
    clock.end_tick(false);
}

#[test]
fn sample_rate_change_resets_the_counter() {
    let mut clock = OscillatorClock::new();
    for _ in 0..5 {
        clock.begin_tick();
        clock.end_tick(false);
    }
    assert_eq!(clock.ticks(), 4);
    clock.update_sample_rate();
    let action = clock.begin_tick();
    assert!(!action.advance);
    clock.end_tick(false);
    assert_eq!(clock.ticks(), 0);
    assert!(clock.should_sync());
}
