use schoffhauzer_synth::envelope::{ADSRInstance, ADSRPhase, ADSR};

/// Ticks of one nanosecond.
const NANOS: u32 = 1_000_000_000;

fn shape() -> ADSR<i64> {
    ADSR {
        attack_duration: 100_000,
        attack_power: 700_000,
        decay_duration: 300_000,
        decay_power: 700_000,
        sustain: 500_000,
        release_duration: 300_000,
        release_power: 700_000,
    }
}

#[test]
fn attack_starts_at_zero() {
    let e = ADSRInstance::new(shape(), NANOS);
    assert_eq!(e.phase, Some(ADSRPhase::Attack));
    assert_eq!(e.elapsed, 0);
    assert_eq!(e.progress(), 0);
    assert_eq!(e.start_level, 0);
    assert_eq!(e.current_level(0), 0);
}

#[test]
fn phases_follow_in_order() {
    assert_eq!(ADSRPhase::Attack.next(), Some(ADSRPhase::Decay));
    assert_eq!(ADSRPhase::Decay.next(), Some(ADSRPhase::Sustain));
    assert_eq!(ADSRPhase::Sustain.next(), Some(ADSRPhase::Release));
    assert_eq!(ADSRPhase::Release.next(), None);
}

#[test]
fn duration_and_power_by_phase() {
    let a = shape();
    assert_eq!(a.duration(ADSRPhase::Attack), Some(&100_000));
    assert_eq!(a.duration(ADSRPhase::Decay), Some(&300_000));
    assert_eq!(a.duration(ADSRPhase::Sustain), None);
    assert_eq!(a.duration(ADSRPhase::Release), Some(&300_000));
    assert_eq!(a.power(ADSRPhase::Attack), Some(&700_000));
    assert_eq!(a.power(ADSRPhase::Sustain), None);
}

#[test]
fn map_and_map2_apply_to_every_field() {
    let a = shape();
    let doubled = a.map(|x| x * 2);
    assert_eq!(doubled.attack_duration, 200_000);
    assert_eq!(doubled.release_power, 1_400_000);
    let sums = a.map2(&doubled, |x, y| x + y);
    assert_eq!(sums.sustain, 1_500_000);
    assert_eq!(sums.decay_duration, 900_000);
}

#[test]
fn advance_adds_delta_over_duration() {
    let mut e = ADSRInstance::new(shape(), NANOS);
    // 10 ms of a 100 ms attack is a tenth of the phase.
    e.advance(10_000_000);
    assert_eq!(e.phase, Some(ADSRPhase::Attack));
    assert_eq!(e.elapsed, 10_000_000);
    assert_eq!(e.progress(), 100_000_000);
}

#[test]
fn completing_attack_enters_decay_at_full_level_with_carry() {
    let mut e = ADSRInstance::new(shape(), NANOS);
    e.advance(90_000_000);
    e.advance(20_000_000);
    assert_eq!(e.phase, Some(ADSRPhase::Decay));
    assert_eq!(e.start_level, 1_000_000);
    // A tenth of the attack overran: a tenth of the 300 ms decay carries over.
    assert_eq!(e.elapsed, 30_000_000);
    assert_eq!(e.progress(), 100_000_000);
}

#[test]
fn zero_duration_phase_is_instant() {
    let mut a = shape();
    a.attack_duration = 0;
    let mut e = ADSRInstance::new(a, NANOS);
    e.advance(0);
    assert_eq!(e.phase, Some(ADSRPhase::Decay));
    assert_eq!(e.elapsed, 0);
    assert_eq!(e.start_level, 1_000_000);
}

#[test]
fn decay_completes_exactly_at_sustain() {
    let mut e = ADSRInstance::new(shape(), NANOS);
    e.advance(100_000_000);
    assert_eq!(e.phase, Some(ADSRPhase::Decay));
    e.advance(300_000_000);
    assert_eq!(e.phase, Some(ADSRPhase::Sustain));
    assert_eq!(e.current_level(0), 500_000);
    assert_eq!(e.current_level(1_000_000_000), 500_000);
}

#[test]
fn sustain_never_advances() {
    let mut e = ADSRInstance::new(shape(), NANOS);
    e.advance(100_000_000);
    e.advance(300_000_000);
    let before = e;
    e.advance(10_000_000_000);
    assert_eq!(e, before);
}

#[test]
fn release_runs_to_end() {
    let mut e = ADSRInstance::new(shape(), NANOS);
    e.off(0);
    assert_eq!(e.phase, Some(ADSRPhase::Release));
    e.advance(300_000_000);
    assert_eq!(e.phase, None);
    assert!(e.ended());
    assert_eq!(e.current_level(0), 0);
}

#[test]
fn level_interpolates_each_phase() {
    let mut e = ADSRInstance::new(shape(), NANOS);
    assert_eq!(e.current_level(250_000_000), 250_000);
    e.advance(100_000_000);
    // Decay from 1.0 toward 0.5.
    assert_eq!(e.current_level(500_000_000), 750_000);
    e.advance(300_000_000);
    e.off(0);
    // Release from 0.5 toward 0.
    assert_eq!(e.start_level, 500_000);
    assert_eq!(e.current_level(200_000_000), 400_000);
}

#[test]
fn off_in_attack_keeps_level() {
    let mut e = ADSRInstance::new(shape(), NANOS);
    e.advance(50_000_000);
    let level = e.current_level(600_000_000);
    assert_eq!(level, 600_000);
    e.off(600_000_000);
    assert_eq!(e.phase, Some(ADSRPhase::Release));
    assert_eq!(e.start_level, level);
    assert_eq!(e.elapsed, 0);
    assert_eq!(e.current_level(0), level);
}

#[test]
fn off_in_sustain_starts_release_at_sustain() {
    let mut e = ADSRInstance::new(shape(), NANOS);
    e.advance(100_000_000);
    e.advance(300_000_000);
    e.off(123);
    assert_eq!(e.phase, Some(ADSRPhase::Release));
    assert_eq!(e.start_level, 500_000);
}

#[test]
fn off_in_release_or_after_end_changes_nothing() {
    let mut e = ADSRInstance::new(shape(), NANOS);
    e.off(0);
    e.advance(30_000_000);
    let before = e;
    e.off(999);
    assert_eq!(e, before);
    e.force_end();
    let ended = e;
    e.off(999);
    assert_eq!(e, ended);
}

#[test]
fn force_end_is_silent_at_once() {
    let mut e = ADSRInstance::new(shape(), NANOS);
    e.advance(100_000_000);
    e.force_end();
    assert!(e.ended());
    assert_eq!(e.current_level(700_000_000), 0);
    e.advance(1_000);
    assert!(e.ended());
}

#[test]
fn split_steps_equal_single_step() {
    let mut single = ADSRInstance::new(shape(), NANOS);
    single.advance(100_000_000);
    let mut fixed = ADSRInstance::new(shape(), NANOS);
    for _ in 0..4 {
        fixed.advance(25_000_000);
    }
    let mut varied = ADSRInstance::new(shape(), NANOS);
    for d in [10_000_000u64, 0, 40_000_000, 30_000_000, 20_000_000] {
        varied.advance(d);
    }
    assert_eq!(single.phase, Some(ADSRPhase::Decay));
    assert_eq!(single.elapsed, 0);
    assert_eq!(fixed, single);
    assert_eq!(varied, single);
}

#[test]
fn phase_power_follows_phase() {
    let mut e = ADSRInstance::new(shape(), NANOS);
    assert_eq!(e.phase_power(), Some(700_000));
    e.advance(100_000_000);
    e.advance(300_000_000);
    assert_eq!(e.phase_power(), None);
}

#[test]
fn uneven_steps_equal_single_step() {
    // 20833 ns does not divide the attack evenly; the steps still add up.
    let mut stepped = ADSRInstance::new(shape(), NANOS);
    for _ in 0..7 {
        stepped.advance(20_833);
    }
    let mut single = ADSRInstance::new(shape(), NANOS);
    single.advance(7 * 20_833);
    assert_eq!(stepped, single);
    assert_eq!(stepped.elapsed, 145_831);
    assert_eq!(stepped.progress(), 1_458_310);
}

#[test]
fn attack_ends_after_its_sample_count() {
    // 0.1 s at 48 kHz in steps of 20833 ns: 4801 steps.
    let mut e = ADSRInstance::new(shape(), NANOS);
    let mut steps = 0;
    while e.phase == Some(ADSRPhase::Attack) {
        e.advance(20_833);
        steps += 1;
    }
    assert_eq!(steps, 4801);
}

#[test]
fn new_shape_keeps_part_of_phase_run() {
    let mut e = ADSRInstance::new(shape(), NANOS);
    e.advance(50_000_000);
    assert_eq!(e.progress(), 500_000_000);
    let mut longer = shape();
    longer.attack_duration = 200_000;
    e.set_shape(longer);
    assert_eq!(e.elapsed, 100_000_000);
    assert_eq!(e.progress(), 500_000_000);
    assert_eq!(e.adsr, longer);
}

#[test]
fn sample_ticks_end_attack_exactly() {
    // 0.1 s at 48 kHz is exactly 4800 samples when a tick is one sample.
    let mut e = ADSRInstance::new(shape(), 48_000);
    for _ in 0..4799 {
        e.advance(1);
    }
    assert_eq!(e.phase, Some(ADSRPhase::Attack));
    assert_eq!(e.progress(), 999_791_666);
    e.advance(1);
    assert_eq!(e.phase, Some(ADSRPhase::Decay));
    assert_eq!(e.elapsed, 0);
}
