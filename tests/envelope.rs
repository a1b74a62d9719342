use ensnare_synth::envelope::{enter_state, EnvelopeStages, EnvelopeState, StageTimings};

fn timed() -> StageTimings {
    StageTimings {
        attack_is_instant: false,
        decay_is_instant: false,
        release_is_instant: false,
    }
}

#[test]
fn envelope_is_idle_on_creation_and_stays_idle() {
    let mut e = EnvelopeStages::new_with(timed());
    assert!(e.is_idle());
    e.tick(true);
    assert!(e.is_idle());
    e.tick(false);
    assert_eq!(e.state(), EnvelopeState::Idle);
}

#[test]
fn timed_envelope_walks_every_stage() {
    let mut e = EnvelopeStages::new_with(timed());
    e.trigger_attack();
    assert_eq!(e.state(), EnvelopeState::Attack);
    e.tick(false);
    assert_eq!(e.state(), EnvelopeState::Attack);
    e.tick(true);
    assert_eq!(e.state(), EnvelopeState::Decay);
    e.tick(true);
    assert_eq!(e.state(), EnvelopeState::Sustain);
    e.tick(true);
    assert_eq!(e.state(), EnvelopeState::Sustain, "sustain holds until release");
    e.trigger_release();
    assert_eq!(e.state(), EnvelopeState::Release);
    e.tick(false);
    assert_eq!(e.state(), EnvelopeState::Release);
    e.tick(true);
    assert!(e.is_idle());
}

#[test]
fn instant_envelope_sustains_then_idles_at_once() {
    let all_instant = StageTimings {
        attack_is_instant: true,
        decay_is_instant: true,
        release_is_instant: true,
    };
    let mut e = EnvelopeStages::new_with(all_instant);
    e.trigger_attack();
    assert_eq!(e.state(), EnvelopeState::Sustain);
    e.trigger_release();
    assert_eq!(e.state(), EnvelopeState::Idle);
}

#[test]
fn instant_attack_goes_straight_to_decay() {
    let t = StageTimings {
        attack_is_instant: true,
        decay_is_instant: false,
        release_is_instant: false,
    };
    assert_eq!(enter_state(EnvelopeState::Attack, t), EnvelopeState::Decay);
    assert_eq!(enter_state(EnvelopeState::Decay, t), EnvelopeState::Decay);
}

#[test]
fn decay_with_full_sustain_reaches_sustain() {
    let mut e = EnvelopeStages::new_with(StageTimings {
        attack_is_instant: true,
        decay_is_instant: false,
        release_is_instant: false,
    });
    e.trigger_attack();
    assert_eq!(e.state(), EnvelopeState::Decay);
    e.tick(true);
    assert_eq!(e.state(), EnvelopeState::Sustain);
}

#[test]
fn shutdown_from_any_state_leads_to_idle() {
    for start in [false, true] {
        let mut e = EnvelopeStages::new_with(timed());
        if start {
            e.trigger_attack();
        }
        e.trigger_shutdown();
        assert!(e.is_shutting_down());
        e.tick(false);
        assert!(e.is_shutting_down());
        e.tick(true);
        assert!(e.is_idle());
    }
}

#[test]
fn timings_round_trip() {
    let mut e = EnvelopeStages::new_with(timed());
    let t = StageTimings {
        attack_is_instant: true,
        decay_is_instant: false,
        release_is_instant: true,
    };
    e.set_timings(t);
    assert_eq!(e.timings(), t);
}
