use clack_plugin::events::{Match, Pckn};
use schoffhauzer_synth::envelope::{curve_position, ADSRPhase};
use schoffhauzer_synth::note_match::{HostNoteMatch, NoteIdent, NoteIdentHost};
use schoffhauzer_synth::params::{
    ParamField, ParamSet, ParamWrite, RELEASE_DURATION_ID, VOLUME_ID,
};
use schoffhauzer_synth::poly_synth::{PolySynth, Voice, VoiceBlock, VoiceSource};

/// The power curve in floating point.
fn float_curve(progress: u64, power: i64) -> u32 {
    let t = (progress as f64 / 1e9).powf(power as f64 / 1e6);
    (t * 1e9).round() as u32
}

fn note(channel: u16, key: u16) -> Pckn {
    Pckn::new(0u16, channel, key, Match::All)
}

fn render(pool: &mut PolySynth<u16>, len: usize, params: &ParamSet<i32>) -> Vec<VoiceBlock<u16>> {
    pool.synth(len, params, &float_curve)
}

#[test]
fn note_on_spawns_one_fresh_voice() {
    let params = ParamSet::initial();
    let mut pool: PolySynth<u16> = PolySynth::new(48_000);
    assert!(!pool.is_busy());
    pool.handle_note_on_event(&Pckn::new(0u16, 2u16, 60u16, 9u32), &params, |k| k + 1000);
    assert!(pool.is_busy());
    let v = &pool.voices()[0];
    assert_eq!(v.ident, NoteIdent::Host(NoteIdentHost { channel: 2, note: 60, id: Some(9) }));
    assert_eq!(v.audio, 1060);
    assert_eq!(v.adsr_instance.phase, Some(ADSRPhase::Attack));
    assert_eq!(v.adsr_instance.elapsed, 0);
    assert_eq!(v.adsr_instance.adsr.attack_power, 700_000);
    assert_eq!(v.adsr_instance.adsr.release_duration, 300_000);
    assert_eq!(v.overrides, ParamSet::none());
}

#[test]
fn note_on_wildcards_default_channel_and_span_all_keys() {
    let params = ParamSet::initial();
    let mut pool: PolySynth<u16> = PolySynth::new(48_000);
    pool.handle_note_on_event(&Pckn::new(0u16, Match::All, Match::All, Match::All), &params, |k| k);
    assert_eq!(pool.voices().len(), 128);
    for (i, v) in pool.voices().iter().enumerate() {
        assert_eq!(v.ident, NoteIdent::Host(NoteIdentHost { channel: 0, note: i as u16, id: None }));
    }
}

#[test]
fn note_on_for_other_port_is_ignored() {
    let params = ParamSet::initial();
    let mut pool: PolySynth<u16> = PolySynth::new(48_000);
    pool.handle_note_on_event(&Pckn::new(1u16, 0u16, 60u16, Match::All), &params, |k| k);
    assert!(!pool.is_busy());
}

#[test]
fn note_off_releases_only_matching_voices() {
    let params = ParamSet::initial();
    let mut pool: PolySynth<u16> = PolySynth::new(48_000);
    pool.handle_note_on_event(&note(0, 60), &params, |k| k);
    pool.handle_note_on_event(&note(0, 64), &params, |k| k);
    pool.handle_note_off_event(&note(0, 60), &float_curve);
    assert_eq!(pool.voices()[0].adsr_instance.phase, Some(ADSRPhase::Release));
    assert_eq!(pool.voices()[1].adsr_instance.phase, Some(ADSRPhase::Attack));
}

#[test]
fn note_off_for_other_port_is_ignored() {
    let params = ParamSet::initial();
    let mut pool: PolySynth<u16> = PolySynth::new(48_000);
    pool.handle_note_on_event(&note(0, 60), &params, |k| k);
    pool.handle_note_off_event(&Pckn::new(3u16, 0u16, 60u16, Match::All), &float_curve);
    assert_eq!(pool.voices()[0].adsr_instance.phase, Some(ADSRPhase::Attack));
}

#[test]
fn note_off_without_match_is_noop() {
    let params = ParamSet::initial();
    let mut pool: PolySynth<u16> = PolySynth::new(48_000);
    pool.handle_note_on_event(&note(0, 60), &params, |k| k);
    pool.handle_note_off_event(&note(5, 60), &float_curve);
    assert_eq!(pool.voices()[0].adsr_instance.phase, Some(ADSRPhase::Attack));
}

#[test]
fn immediate_note_off_releases_from_silence() {
    let params = ParamSet::initial();
    let mut pool: PolySynth<u16> = PolySynth::new(48_000);
    pool.handle_note_on_event(&note(0, 60), &params, |k| k);
    pool.handle_note_off_event(&note(0, 60), &float_curve);
    assert_eq!(pool.voices()[0].adsr_instance.start_level, 0);
    let blocks = render(&mut pool, 64, &params);
    assert!(blocks[0].render.levels.iter().all(|&l| l == 0));
}

#[test]
fn release_then_voice_is_dropped_after_release_time() {
    let params = ParamSet::initial();
    let mut pool: PolySynth<u16> = PolySynth::new(48_000);
    pool.handle_note_on_event(&note(0, 60), &params, |k| k);
    pool.handle_note_off_event(&note(0, 60), &float_curve);
    assert_eq!(pool.voices()[0].adsr_instance.phase, Some(ADSRPhase::Release));
    let mut produced: i64 = 0;
    let mut last_block = None;
    let mut blocks_run = 0;
    while pool.is_busy() {
        let blocks = render(&mut pool, 256, &params);
        produced += blocks[0].render.levels.len() as i64;
        last_block = Some(blocks);
        blocks_run += 1;
        assert!(blocks_run < 1000);
    }
    // 0.3 s at 48 kHz is exactly 14400 samples.
    assert_eq!(produced, 14_400);
    let last = &last_block.unwrap()[0];
    assert!(!last.render.alive);
    assert_eq!(last.render.levels.len(), 14_400 % 256);
    assert_eq!(*last.render.levels.last().unwrap(), 0);
    assert!(matches!(last.source, VoiceSource::Finished(60)));
}

#[test]
fn release_from_sustain_fades_to_zero() {
    let params = ParamSet::initial();
    let mut pool: PolySynth<u16> = PolySynth::new(48_000);
    pool.handle_note_on_event(&note(0, 60), &params, |k| k);
    // Attack and decay take 0.4 s; run past them into sustain.
    for _ in 0..100 {
        render(&mut pool, 256, &params);
    }
    assert_eq!(pool.voices()[0].adsr_instance.phase, Some(ADSRPhase::Sustain));
    let blocks = render(&mut pool, 4, &params);
    assert_eq!(blocks[0].render.levels, vec![500_000; 4]);
    pool.handle_note_off_event(&note(0, 60), &float_curve);
    assert_eq!(pool.voices()[0].adsr_instance.start_level, 500_000);
    let blocks = render(&mut pool, 256, &params);
    let levels = &blocks[0].render.levels;
    assert!(levels.windows(2).all(|w| w[0] >= w[1]));
    assert!(levels[0] < 500_000);
}

#[test]
fn synth_blocks_carry_resolved_values() {
    let mut params = ParamSet::initial();
    params.handle_param_value_event(VOLUME_ID, -6_000_000);
    let mut pool: PolySynth<u16> = PolySynth::new(48_000);
    pool.handle_note_on_event(&note(0, 60), &params, |k| k);
    let blocks = pool.synth(4, &params, &float_curve);
    assert_eq!(blocks.len(), 1);
    assert!(matches!(blocks[0].source, VoiceSource::Kept(0)));
    let b = &blocks[0].render;
    assert!(b.alive);
    assert_eq!(b.volume, -6_000_000);
    assert_eq!(b.hf_rolloff, 1_000_000);
    assert_eq!(b.levels.len(), 4);
    assert_eq!(b.positions.len(), 4);
    // Attack at 0.7 power: each level is the curve position scaled to 1.0.
    for i in 0..4 {
        let progress = (i as u64 + 1) * 1_000_000_000_000_000 / (100_000 * 48_000);
        assert_eq!(b.positions[i], float_curve(progress, 700_000));
        assert_eq!(b.levels[i], b.positions[i] as i64 / 1000);
    }
    assert!(b.levels[3] > b.levels[0]);
}

#[test]
fn voice_override_wins_over_global() {
    let mut params = ParamSet::initial();
    let mut pool: PolySynth<u16> = PolySynth::new(48_000);
    pool.handle_note_on_event(&note(0, 60), &params, |k| k);
    pool.handle_note_on_event(&note(0, 64), &params, |k| k);
    let global = pool.apply_parameter_event(VOLUME_ID, &Pckn::match_all(), ParamField::Value, -6_000_000);
    let write = global.unwrap();
    assert_eq!(write, ParamWrite { id: VOLUME_ID, field: ParamField::Value, value: -6_000_000 });
    write.apply(&mut params);
    assert!(pool.apply_parameter_event(VOLUME_ID, &note(0, 60), ParamField::Value, 0).is_none());
    assert_eq!(params.get_volume().value, -6_000_000);
    assert_eq!(pool.voices()[0].resolve(&params).volume, 0);
    assert_eq!(pool.voices()[1].resolve(&params).volume, -6_000_000);
    let blocks = pool.synth(8, &params, &float_curve);
    assert_eq!(blocks[0].render.volume, 0);
    assert_eq!(blocks[1].render.volume, -6_000_000);
}

#[test]
fn per_voice_modulation_event() {
    let params = ParamSet::initial();
    let mut pool: PolySynth<u16> = PolySynth::new(48_000);
    pool.handle_note_on_event(&note(0, 60), &params, |k| k);
    let q = HostNoteMatch { channel: Match::All, note: Match::Specific(60), id: Match::All };
    pool.handle_param_mod_event(RELEASE_DURATION_ID, &q, -100_000);
    pool.handle_param_value_event(VOLUME_ID, &q, 3_000_000);
    let r = pool.voices()[0].resolve(&params);
    assert_eq!(r.adsr.release_duration, 200_000);
    assert_eq!(r.volume, 3_000_000);
}

#[test]
fn choke_kills_at_once_and_voice_leaves_next_render() {
    let params = ParamSet::initial();
    let mut pool: PolySynth<u16> = PolySynth::new(48_000);
    pool.handle_note_on_event(&note(0, 60), &params, |k| k);
    pool.handle_note_on_event(&note(0, 61), &params, |k| k);
    pool.handle_note_choke_event(&note(0, 60));
    assert!(pool.voices()[0].adsr_instance.ended());
    assert_eq!(pool.voices()[0].adsr_instance.current_level(0), 0);
    let blocks = render(&mut pool, 16, &params);
    assert_eq!(pool.voices().len(), 1);
    assert_eq!(pool.voices()[0].audio, 61);
    // The choked voice gave one silent sample before it was dropped.
    assert!(!blocks[0].render.alive);
    assert!(matches!(blocks[0].source, VoiceSource::Finished(60)));
    assert!(matches!(blocks[1].source, VoiceSource::Kept(0)));
    assert_eq!(blocks[0].render.levels, vec![0]);
    assert!(blocks[1].render.alive);
    assert_eq!(blocks[1].render.levels.len(), 16);
}

#[test]
fn choke_twice_is_noop() {
    let params = ParamSet::initial();
    let mut pool: PolySynth<u16> = PolySynth::new(48_000);
    pool.handle_note_on_event(&note(0, 60), &params, |k| k);
    pool.handle_note_choke_event(&note(0, 60));
    let phase = pool.voices()[0].adsr_instance;
    pool.handle_note_choke_event(&note(0, 60));
    assert_eq!(pool.voices()[0].adsr_instance, phase);
    assert_eq!(pool.voices().len(), 1);
}

#[test]
fn voice_render_reports_end() {
    let params = ParamSet::initial();
    let mut v = Voice::new_host(7u16, 0, 60, None, &params, 48_000);
    let b = v.synth_block(10, 1, &params, &float_curve);
    assert!(b.alive);
    assert_eq!(b.levels.len(), 10);
    v.choke();
    let b = v.synth_block(10, 1, &params, &float_curve);
    assert!(!b.alive);
    assert_eq!(b.levels, vec![0]);
    let b = v.synth_block(0, 1, &params, &float_curve);
    assert!(b.alive);
    assert!(b.levels.is_empty());
}

#[test]
fn audio_access_and_drop_keep_order() {
    let params = ParamSet::initial();
    let mut pool: PolySynth<u16> = PolySynth::new(48_000);
    for key in [60u16, 61, 62] {
        pool.handle_note_on_event(&note(0, key), &params, |k| k);
    }
    *pool.audio_mut(1) = 99;
    pool.handle_note_choke_event(&note(0, 60));
    let blocks = render(&mut pool, 8, &params);
    let left: Vec<u16> = pool.voices().iter().map(|v| v.audio).collect();
    assert_eq!(left, vec![99, 62]);
    assert!(matches!(blocks[0].source, VoiceSource::Finished(60)));
    assert!(matches!(blocks[1].source, VoiceSource::Kept(0)));
    assert!(matches!(blocks[2].source, VoiceSource::Kept(1)));
}

#[test]
fn curve_position_is_zero_at_phase_start() {
    let params = ParamSet::initial();
    let v = Voice::new_host(0u16, 0, 60, None, &params, 48_000);
    assert_eq!(curve_position(&v.adsr_instance, &|_p: u64, _w: i64| 777u32), 0);
}

#[test]
fn sample_rate_is_kept() {
    let pool: PolySynth<u16> = PolySynth::new(44_100);
    assert_eq!(pool.sample_rate(), 44_100);
}

#[test]
fn voice_leaves_pool_on_render_after_release() {
    let params = ParamSet::initial();
    let mut pool: PolySynth<u16> = PolySynth::new(48_000);
    pool.handle_note_on_event(&note(0, 60), &params, |k| k);
    pool.handle_note_off_event(&note(0, 60), &float_curve);
    let blocks = render(&mut pool, 20_000, &params);
    assert!(!pool.is_busy());
    assert_eq!(blocks[0].render.levels.len(), 14_400);
}
