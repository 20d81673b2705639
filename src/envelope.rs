use vstd::prelude::*;
use crate::utils::{clamp_i64, lerp, lerp_spec, UNIT};

verus! {

/// The shape of an envelope: duration and curve power of each timed phase,
/// and the sustain level.
///
/// In the engine's envelopes durations are microseconds, and powers and the
/// sustain level are millionths.
#[derive(Clone, Copy, Debug, Default, PartialEq, Eq)]
pub struct ADSR<T> {
    pub attack_duration: T,
    pub attack_power: T,
    pub decay_duration: T,
    pub decay_power: T,
    pub sustain: T,
    pub release_duration: T,
    pub release_power: T,
}

/// The four phases of an envelope, in the order in which they are run.
#[derive(Clone, Copy, Debug, PartialEq, Eq, Structural)]
pub enum ADSRPhase {
    Attack,
    Decay,
    Sustain,
    Release,
}

impl<T> ADSR<T> {
    /// The duration of `phase`; the sustain phase has none.
    pub open spec fn duration_of(self, phase: ADSRPhase) -> Option<T> {
        match phase {
            ADSRPhase::Attack => Some(self.attack_duration),
            ADSRPhase::Decay => Some(self.decay_duration),
            ADSRPhase::Sustain => None,
            ADSRPhase::Release => Some(self.release_duration),
        }
    }

    /// The curve power of `phase`; the sustain phase has none.
    pub open spec fn power_of(self, phase: ADSRPhase) -> Option<T> {
        match phase {
            ADSRPhase::Attack => Some(self.attack_power),
            ADSRPhase::Decay => Some(self.decay_power),
            ADSRPhase::Sustain => None,
            ADSRPhase::Release => Some(self.release_power),
        }
    }

    pub fn duration(&self, phase: ADSRPhase) -> (r: Option<&T>)
        ensures
            match r {
                Some(v) => self.duration_of(phase) == Some(*v),
                None => self.duration_of(phase) is None,
            },
    {
        match phase {
            ADSRPhase::Attack => Some(&self.attack_duration),
            ADSRPhase::Decay => Some(&self.decay_duration),
            ADSRPhase::Sustain => None,
            ADSRPhase::Release => Some(&self.release_duration),
        }
    }

    pub fn power(&self, phase: ADSRPhase) -> (r: Option<&T>)
        ensures
            match r {
                Some(v) => self.power_of(phase) == Some(*v),
                None => self.power_of(phase) is None,
            },
    {
        match phase {
            ADSRPhase::Attack => Some(&self.attack_power),
            ADSRPhase::Decay => Some(&self.decay_power),
            ADSRPhase::Sustain => None,
            ADSRPhase::Release => Some(&self.release_power),
        }
    }

    /// Applies `f` to each field.
    pub fn map<R, F: Fn(&T) -> R>(&self, f: F) -> (r: ADSR<R>)
        requires
            forall|x: &T| #[trigger] f.requires((x,)),
        ensures
            f.ensures((&self.attack_duration,), r.attack_duration),
            f.ensures((&self.attack_power,), r.attack_power),
            f.ensures((&self.decay_duration,), r.decay_duration),
            f.ensures((&self.decay_power,), r.decay_power),
            f.ensures((&self.sustain,), r.sustain),
            f.ensures((&self.release_duration,), r.release_duration),
            f.ensures((&self.release_power,), r.release_power),
    {
        ADSR {
            attack_duration: f(&self.attack_duration),
            attack_power: f(&self.attack_power),
            decay_duration: f(&self.decay_duration),
            decay_power: f(&self.decay_power),
            sustain: f(&self.sustain),
            release_duration: f(&self.release_duration),
            release_power: f(&self.release_power),
        }
    }

    /// Combines this shape with another field by field.
    pub fn map2<B, R, F: Fn(&T, &B) -> R>(&self, other: &ADSR<B>, f: F) -> (r: ADSR<R>)
        requires
            forall|x: &T, y: &B| #[trigger] f.requires((x, y)),
        ensures
            f.ensures((&self.attack_duration, &other.attack_duration), r.attack_duration),
            f.ensures((&self.attack_power, &other.attack_power), r.attack_power),
            f.ensures((&self.decay_duration, &other.decay_duration), r.decay_duration),
            f.ensures((&self.decay_power, &other.decay_power), r.decay_power),
            f.ensures((&self.sustain, &other.sustain), r.sustain),
            f.ensures((&self.release_duration, &other.release_duration), r.release_duration),
            f.ensures((&self.release_power, &other.release_power), r.release_power),
    {
        ADSR {
            attack_duration: f(&self.attack_duration, &other.attack_duration),
            attack_power: f(&self.attack_power, &other.attack_power),
            decay_duration: f(&self.decay_duration, &other.decay_duration),
            decay_power: f(&self.decay_power, &other.decay_power),
            sustain: f(&self.sustain, &other.sustain),
            release_duration: f(&self.release_duration, &other.release_duration),
            release_power: f(&self.release_power, &other.release_power),
        }
    }
}

/// The phase that follows `phase`; the release phase is the last.
pub open spec fn next_phase(phase: ADSRPhase) -> Option<ADSRPhase> {
    match phase {
        ADSRPhase::Attack => Some(ADSRPhase::Decay),
        ADSRPhase::Decay => Some(ADSRPhase::Sustain),
        ADSRPhase::Sustain => Some(ADSRPhase::Release),
        ADSRPhase::Release => None,
    }
}

impl ADSRPhase {
    pub fn next(self) -> (r: Option<ADSRPhase>)
        ensures
            r == next_phase(self),
    {
        match self {
            ADSRPhase::Attack => Some(ADSRPhase::Decay),
            ADSRPhase::Decay => Some(ADSRPhase::Sustain),
            ADSRPhase::Sustain => Some(ADSRPhase::Release),
            ADSRPhase::Release => None,
        }
    }
}

/// The power of the current phase of `e`, in millionths; none in sustain or
/// once ended.
pub open spec fn phase_power_spec(e: ADSRInstance) -> Option<i64> {
    match e.phase {
        Some(p) => e.adsr.power_of(p),
        None => None,
    }
}

/// `x` held within `u64`.
pub open spec fn cap_u64(x: int) -> u64 {
    if x > u64::MAX { u64::MAX } else { x as u64 }
}

/// The duration of the current phase of `e`, in microseconds, where it is a
/// timed phase; none in sustain or once ended.
pub open spec fn phase_duration_spec(e: ADSRInstance) -> Option<i64> {
    match e.phase {
        Some(p) => e.adsr.duration_of(p),
        None => None,
    }
}

/// The part of its current phase that `e` has run, in billionths: the time
/// elapsed over the phase's duration. Zero in phases without positive
/// duration, and where the envelope counts no ticks per second.
pub open spec fn progress_spec(e: ADSRInstance) -> u64 {
    match phase_duration_spec(e) {
        Some(d) => if d > 0 && e.tick_rate > 0 {
            cap_u64(e.elapsed * 1_000_000_000_000_000 / (d * e.tick_rate))
        } else {
            0
        },
        None => 0,
    }
}

/// Whether `t` is a curve position that `curve` may give for `e`: zero at
/// the start of a phase with positive power and in phases without a curve;
/// otherwise a result of `curve` for the progress and power of `e`.
pub open spec fn taken_position<C: Fn(u64, i64) -> u32>(curve: C, e: ADSRInstance, t: u32) -> bool {
    match phase_power_spec(e) {
        Some(w) => if progress_spec(e) == 0 && w > 0 {
            t == 0
        } else {
            curve.ensures((progress_spec(e), w), t)
        },
        None => t == 0,
    }
}

/// A running envelope.
///
/// `phase` is `None` once the envelope has ended. Time is counted in ticks,
/// `tick_rate` of them to the second (the sample rate, say, or a billion
/// for nanoseconds). `elapsed` is the time run in the current phase, in
/// ticks; its part of the phase's duration is the phase's progress.
/// `start_level` is the level at which the current phase began, in
/// millionths. The shape holds durations in microseconds and powers and
/// sustain in millionths.
#[derive(Clone, Copy, Debug, PartialEq, Eq)]
pub struct ADSRInstance {
    pub adsr: ADSR<i64>,
    pub phase: Option<ADSRPhase>,
    pub start_level: i64,
    pub elapsed: u64,
    pub tick_rate: u32,
}

/// A fresh envelope of shape `adsr` counting `tick_rate` ticks to the
/// second: attack phase, nothing run.
pub open spec fn new_envelope(adsr: ADSR<i64>, tick_rate: u32) -> ADSRInstance {
    ADSRInstance { adsr, phase: Some(ADSRPhase::Attack), start_level: 0, elapsed: 0, tick_rate }
}

/// The level at which `phase` begins when it is entered by running on.
pub open spec fn entry_level(adsr: ADSR<i64>, phase: Option<ADSRPhase>) -> i64 {
    match phase {
        Some(ADSRPhase::Decay) => UNIT,
        Some(ADSRPhase::Sustain) => adsr.sustain,
        Some(ADSRPhase::Release) => adsr.sustain,
        _ => 0,
    }
}

/// The time, in ticks, that `next` starts with when the phase before it,
/// of `d` microseconds, overran by `excess` whole ticks: the same part of
/// `next`'s duration. Nothing where `next` has no positive duration.
pub open spec fn carry_spec(adsr: ADSR<i64>, next: Option<ADSRPhase>, excess: int, d: i64) -> u64 {
    match next {
        Some(q) => match adsr.duration_of(q) {
            Some(dn) => if dn > 0 && d > 0 {
                cap_u64(excess * dn / (d as int))
            } else {
                0
            },
            None => 0,
        },
        None => 0,
    }
}

/// `e` after `delta` ticks.
///
/// A timed phase of duration `d` gains `delta` of elapsed time. It is
/// complete once the elapsed time reaches `d`, or at once where `d` is not
/// positive; then the envelope enters the next phase, which starts with the
/// overrun carried over as the same part of its own duration. The sustain
/// phase and an ended envelope do not move.
pub open spec fn advance_spec(e: ADSRInstance, delta: u64) -> ADSRInstance {
    match e.phase {
        None => e,
        Some(ADSRPhase::Sustain) => e,
        Some(p) => {
            let d = e.adsr.duration_of(p).unwrap();
            let next = next_phase(p);
            if d <= 0 {
                ADSRInstance { phase: next, start_level: entry_level(e.adsr, next), elapsed: 0, ..e }
            } else {
                let total = cap_u64(e.elapsed + delta);
                let whole = d * e.tick_rate;
                if total * 1_000_000 >= whole {
                    ADSRInstance {
                        phase: next,
                        start_level: entry_level(e.adsr, next),
                        elapsed: carry_spec(e.adsr, next, (total * 1_000_000 - whole) / 1_000_000, d),
                        ..e
                    }
                } else {
                    ADSRInstance { elapsed: total, ..e }
                }
            }
        },
    }
}

/// `e` with its shape replaced by `adsr`, its current phase keeping the
/// part already run: the elapsed time is scaled from the old duration to
/// the new one where both are positive.
pub open spec fn reshaped(e: ADSRInstance, adsr: ADSR<i64>) -> ADSRInstance {
    let elapsed = match e.phase {
        Some(p) => match (e.adsr.duration_of(p), adsr.duration_of(p)) {
            (Some(d0), Some(d1)) => if d0 > 0 && d1 > 0 {
                cap_u64(e.elapsed * d1 / (d0 as int))
            } else {
                e.elapsed
            },
            _ => e.elapsed,
        },
        None => e.elapsed,
    };
    ADSRInstance { adsr, elapsed, ..e }
}

/// The level of `e`, in millionths, where `shaped` is the progress of its
/// phase raised to the phase's power (the curve position, in billionths).
pub open spec fn level_spec(e: ADSRInstance, shaped: u32) -> i64 {
    match e.phase {
        None => 0,
        Some(ADSRPhase::Sustain) => e.adsr.sustain,
        Some(ADSRPhase::Attack) => clamp_i64(lerp_spec(0, UNIT as int, shaped as int)) as i64,
        Some(ADSRPhase::Decay) => clamp_i64(
            lerp_spec(e.start_level as int, e.adsr.sustain as int, shaped as int),
        ) as i64,
        Some(ADSRPhase::Release) => clamp_i64(lerp_spec(e.start_level as int, 0, shaped as int)) as i64,
    }
}

/// `e` after its note was released, where `shaped` is its curve position.
///
/// From attack or decay the envelope enters release at the level it had
/// reached; from sustain at the sustain level. Release and an ended envelope
/// are left as they are.
pub open spec fn off_spec(e: ADSRInstance, shaped: u32) -> ADSRInstance {
    match e.phase {
        Some(ADSRPhase::Attack) | Some(ADSRPhase::Decay) => ADSRInstance {
            phase: Some(ADSRPhase::Release),
            start_level: level_spec(e, shaped),
            elapsed: 0,
            ..e
        },
        Some(ADSRPhase::Sustain) => ADSRInstance {
            phase: Some(ADSRPhase::Release),
            start_level: e.adsr.sustain,
            elapsed: 0,
            ..e
        },
        _ => e,
    }
}

fn entry_level_exec(adsr: &ADSR<i64>, phase: Option<ADSRPhase>) -> (r: i64)
    ensures
        r == entry_level(*adsr, phase),
{
    match phase {
        Some(ADSRPhase::Decay) => UNIT,
        Some(ADSRPhase::Sustain) => adsr.sustain,
        Some(ADSRPhase::Release) => adsr.sustain,
        _ => 0,
    }
}

fn carry(adsr: &ADSR<i64>, next: Option<ADSRPhase>, excess: u128, d: i64) -> (r: u64)
    requires
        excess <= u64::MAX,
    ensures
        r == carry_spec(*adsr, next, excess as int, d),
{
    let dn: i64 = match next {
        Some(q) => match adsr.duration(q) {
            Some(v) => *v,
            None => 0,
        },
        None => 0,
    };
    if dn > 0 && d > 0 {
        assert(excess * (dn as u128) <= 0xffff_ffff_ffff_ffff * 0x7fff_ffff_ffff_ffff) by (nonlinear_arith)
            requires excess <= 0xffff_ffff_ffff_ffffu128, 0 < dn <= 0x7fff_ffff_ffff_ffffi64;
        let c = excess * (dn as u128) / (d as u128);
        if c > u64::MAX as u128 { u64::MAX } else { c as u64 }
    } else {
        0
    }
}

impl ADSRInstance {
    pub fn new(adsr: ADSR<i64>, tick_rate: u32) -> (r: Self)
        ensures
            r == new_envelope(adsr, tick_rate),
    {
        ADSRInstance { adsr, phase: Some(ADSRPhase::Attack), start_level: 0, elapsed: 0, tick_rate }
    }

    /// The part of the current phase run so far, in billionths.
    pub fn progress(&self) -> (r: u64)
        ensures
            r == progress_spec(*self),
    {
        let d: i64 = match self.phase {
            Some(p) => match self.adsr.duration(p) {
                Some(v) => *v,
                None => 0,
            },
            None => 0,
        };
        if d > 0 && self.tick_rate > 0 {
            let d128 = d as u128;
            let r128 = self.tick_rate as u128;
            assert(0 < d128 * r128 <= 0x7fff_ffff_ffff_ffff * 0xffff_ffff) by (nonlinear_arith)
                requires 0 < d128 <= 0x7fff_ffff_ffff_ffffu128, 0 < r128 <= 0xffff_ffffu128;
            let den = d128 * r128;
            let q = (self.elapsed as u128) * 1_000_000_000_000_000 / den;
            if q > u64::MAX as u128 { u64::MAX } else { q as u64 }
        } else {
            0
        }
    }

    /// The level of the envelope, given its curve position `shaped`: the
    /// progress of the current phase raised to the phase's power, in
    /// billionths.
    pub fn current_level(&self, shaped: u32) -> (r: i64)
        ensures
            r == level_spec(*self, shaped),
    {
        match self.phase {
            None => 0,
            Some(ADSRPhase::Sustain) => self.adsr.sustain,
            Some(ADSRPhase::Attack) => lerp(0, UNIT, shaped),
            Some(ADSRPhase::Decay) => lerp(self.start_level, self.adsr.sustain, shaped),
            Some(ADSRPhase::Release) => lerp(self.start_level, 0, shaped),
        }
    }

    /// Runs the envelope on by `delta` ticks.
    pub fn advance(&mut self, delta: u64)
        ensures
            *final(self) == advance_spec(*old(self), delta),
    {
        let phase = match self.phase {
            None => return,
            Some(ADSRPhase::Sustain) => return,
            Some(p) => p,
        };
        let d: i64 = match self.adsr.duration(phase) {
            Some(d) => *d,
            None => return,
        };
        let next = phase.next();
        if d <= 0 {
            self.start_level = entry_level_exec(&self.adsr, next);
            self.phase = next;
            self.elapsed = 0;
            return;
        }
        let sum: u128 = self.elapsed as u128 + delta as u128;
        let total: u64 = if sum > u64::MAX as u128 { u64::MAX } else { sum as u64 };
        let d128 = d as u128;
        let r128 = self.tick_rate as u128;
        assert(d128 * r128 <= 0x7fff_ffff_ffff_ffff * 0xffff_ffff) by (nonlinear_arith)
            requires 0 < d128 <= 0x7fff_ffff_ffff_ffffu128, r128 <= 0xffff_ffffu128;
        let whole: u128 = d128 * r128;
        let scaled: u128 = total as u128 * 1_000_000;
        if scaled >= whole {
            self.elapsed = carry(&self.adsr, next, (scaled - whole) / 1_000_000, d);
            self.start_level = entry_level_exec(&self.adsr, next);
            self.phase = next;
        } else {
            self.elapsed = total;
        }
    }

    /// Replaces the shape, keeping the part of the current phase already
    /// run.
    pub fn set_shape(&mut self, adsr: ADSR<i64>)
        ensures
            *final(self) == reshaped(*old(self), adsr),
    {
        let (d0, d1): (i64, i64) = match self.phase {
            Some(p) => match (self.adsr.duration(p), adsr.duration(p)) {
                (Some(a), Some(b)) => (*a, *b),
                _ => (0, 0),
            },
            None => (0, 0),
        };
        if d0 > 0 && d1 > 0 {
            let e = self.elapsed as u128;
            assert(e * (d1 as u128) <= 0xffff_ffff_ffff_ffff * 0x7fff_ffff_ffff_ffff) by (nonlinear_arith)
                requires e <= 0xffff_ffff_ffff_ffffu128, 0 < d1 <= 0x7fff_ffff_ffff_ffffi64;
            let c = e * (d1 as u128) / (d0 as u128);
            self.elapsed = if c > u64::MAX as u128 { u64::MAX } else { c as u64 };
        }
        self.adsr = adsr;
    }

    /// Releases the note, given the envelope's curve position `shaped`.
    pub fn off(&mut self, shaped: u32)
        ensures
            *final(self) == off_spec(*old(self), shaped),
    {
        match self.phase {
            Some(ADSRPhase::Attack) | Some(ADSRPhase::Decay) => {
                self.start_level = self.current_level(shaped);
                self.phase = Some(ADSRPhase::Release);
                self.elapsed = 0;
            },
            Some(ADSRPhase::Sustain) => {
                self.start_level = self.adsr.sustain;
                self.phase = Some(ADSRPhase::Release);
                self.elapsed = 0;
            },
            _ => {},
        }
    }

    /// Ends the envelope at once, skipping any release.
    pub fn force_end(&mut self)
        ensures
            *final(self) == (ADSRInstance { phase: None, ..*old(self) }),
    {
        self.phase = None;
    }

    pub fn ended(&self) -> (r: bool)
        ensures
            r == (self.phase is None),
    {
        self.phase.is_none()
    }

    /// The power of the current phase's curve, in millionths; none in
    /// sustain or once ended.
    pub fn phase_power(&self) -> (r: Option<i64>)
        ensures
            r == phase_power_spec(*self),
    {
        match self.phase {
            Some(p) => match self.adsr.power(p) {
                Some(v) => Some(*v),
                None => None,
            },
            None => None,
        }
    }
}

/// The curve position of `e` under `curve` at its current progress: zero
/// at the start of a phase whose power is positive (`0^p = 0`), else the
/// position that `curve` gives for the progress and the power; zero in
/// phases without a curve.
pub fn curve_position<C: Fn(u64, i64) -> u32>(e: &ADSRInstance, curve: &C) -> (t: u32)
    requires
        forall|p: u64, w: i64| #[trigger] curve.requires((p, w)),
    ensures
        taken_position(*curve, *e, t),
{
    match e.phase_power() {
        Some(power) => {
            let progress = e.progress();
            if progress == 0 && power > 0 {
                0
            } else {
                curve(progress, power)
            }
        },
        None => 0,
    }
}

/// Releasing a fresh envelope whose attack power is positive starts the
/// release from silence.
pub proof fn lemma_fresh_release_starts_silent<C: Fn(u64, i64) -> u32>(
    curve: C,
    adsr: ADSR<i64>,
    rate: u32,
    t: u32,
)
    requires
        adsr.attack_power > 0,
        taken_position(curve, new_envelope(adsr, rate), t),
    ensures
        off_spec(new_envelope(adsr, rate), t).phase == Some(ADSRPhase::Release),
        off_spec(new_envelope(adsr, rate), t).start_level == 0,
{
    let e = new_envelope(adsr, rate);
    let d = adsr.attack_duration as int;
    if d > 0 && rate > 0 {
        let den = d * rate;
        assert(den > 0) by (nonlinear_arith)
            requires d > 0, rate > 0, den == d * rate;
        assert(0int * 1_000_000_000_000_000 / den == 0) by (nonlinear_arith)
            requires den > 0;
    }
    assert(progress_spec(e) == 0);
}

/// A fresh envelope sits at level zero: its attack starts from silence.
pub proof fn lemma_attack_starts_silent(adsr: ADSR<i64>, rate: u32)
    ensures
        level_spec(new_envelope(adsr, rate), 0) == 0,
{
}

/// When a decay phase completes, the envelope is in sustain, exactly at the
/// sustain level, whatever its curve position.
pub proof fn lemma_decay_completes_at_sustain(e: ADSRInstance, delta: u64, shaped: u32)
    requires
        e.phase == Some(ADSRPhase::Decay),
        advance_spec(e, delta).phase != Some(ADSRPhase::Decay),
    ensures
        advance_spec(e, delta).phase == Some(ADSRPhase::Sustain),
        level_spec(advance_spec(e, delta), shaped) == e.adsr.sustain,
{
}

/// Releasing a note during attack or decay starts the release at the level
/// reached, and the level does not jump at that moment.
pub proof fn lemma_release_is_continuous(e: ADSRInstance, shaped: u32)
    requires
        e.phase == Some(ADSRPhase::Attack) || e.phase == Some(ADSRPhase::Decay),
    ensures
        off_spec(e, shaped).phase == Some(ADSRPhase::Release),
        off_spec(e, shaped).start_level == level_spec(e, shaped),
        level_spec(off_spec(e, shaped), 0) == level_spec(e, shaped),
{
}

/// An envelope that was forced to end is silent.
pub proof fn lemma_forced_end_is_silent(e: ADSRInstance, shaped: u32)
    ensures
        level_spec(ADSRInstance { phase: None, ..e }, shaped) == 0,
{
}

/// `e` after a run of steps of `deltas[0]`, `deltas[1]`, ... ticks.
pub open spec fn advance_all(e: ADSRInstance, deltas: Seq<u64>) -> ADSRInstance
    decreases deltas.len(),
{
    if deltas.len() == 0 {
        e
    } else {
        advance_all(advance_spec(e, deltas[0]), deltas.drop_first())
    }
}

/// The total of `deltas`.
pub open spec fn total(deltas: Seq<u64>) -> int
    decreases deltas.len(),
{
    if deltas.len() == 0 {
        0
    } else {
        deltas[0] + total(deltas.drop_first())
    }
}

proof fn lemma_total_nonneg(deltas: Seq<u64>)
    ensures
        total(deltas) >= 0,
    decreases deltas.len(),
{
    if deltas.len() > 0 {
        lemma_total_nonneg(deltas.drop_first());
    }
}

/// Running a timed phase of positive duration by several steps, all but
/// the last of which stay within the phase, ends where one step of their
/// total ends: fixed and varying step sizes alike.
pub proof fn lemma_steps_add_up(e: ADSRInstance, deltas: Seq<u64>)
    requires
        phase_duration_spec(e) is Some,
        phase_duration_spec(e).unwrap() > 0,
        deltas.len() > 0,
        (e.elapsed + total(deltas.drop_last())) * 1_000_000 < phase_duration_spec(e).unwrap() * e.tick_rate,
        e.elapsed + total(deltas) <= u64::MAX,
    ensures
        advance_all(e, deltas) == advance_spec(e, total(deltas) as u64),
    decreases deltas.len(),
{
    let rest = deltas.drop_first();
    lemma_total_nonneg(rest);
    if rest.len() == 0 {
        assert(total(deltas) == deltas[0]);
        assert(advance_all(advance_spec(e, deltas[0]), rest) == advance_spec(e, deltas[0]));
    } else {
        let front = deltas.drop_last();
        assert(front.drop_first() =~= rest.drop_last());
        assert(front[0] == deltas[0]);
        lemma_total_nonneg(rest.drop_last());
        let e2 = advance_spec(e, deltas[0]);
        assert(e2 == ADSRInstance { elapsed: (e.elapsed + deltas[0]) as u64, ..e });
        lemma_steps_add_up(e2, rest);
    }
}

/// Running a timed phase of positive duration from its start for exactly
/// that duration in several steps, the last of them not empty, ends where a
/// single step of the whole duration ends: in the next phase with nothing
/// carried over.
pub proof fn lemma_split_advance_matches_single(e: ADSRInstance, deltas: Seq<u64>)
    requires
        phase_duration_spec(e) is Some,
        phase_duration_spec(e).unwrap() > 0,
        e.elapsed == 0,
        total(deltas) <= u64::MAX,
        total(deltas) * 1_000_000 == phase_duration_spec(e).unwrap() * e.tick_rate,
        deltas.len() > 0,
        deltas.last() > 0,
    ensures
        advance_all(e, deltas) == advance_spec(e, total(deltas) as u64),
        advance_all(e, deltas).phase == next_phase(e.phase.unwrap()),
        advance_all(e, deltas).elapsed == 0,
{
    lemma_total_last(deltas);
    lemma_steps_add_up(e, deltas);
    assert forall|x: int| #[trigger] (0int * x) == 0 by {
        assert(0int * x == 0) by (nonlinear_arith);
    }
}

proof fn lemma_total_last(deltas: Seq<u64>)
    requires
        deltas.len() > 0,
    ensures
        total(deltas) == total(deltas.drop_last()) + deltas.last(),
    decreases deltas.len(),
{
    let rest = deltas.drop_first();
    if rest.len() > 0 {
        lemma_total_last(rest);
        let front = deltas.drop_last();
        assert(front.drop_first() =~= rest.drop_last());
        assert(front[0] == deltas[0]);
        assert(total(front) == front[0] + total(front.drop_first()));
        assert(rest.last() == deltas.last());
    } else {
        assert(deltas.drop_last().len() == 0);
        assert(total(deltas.drop_last()) == 0);
        assert(total(rest) == 0);
    }
}

} // verus!
