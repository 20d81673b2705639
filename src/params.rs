use vstd::prelude::*;
use crate::envelope::ADSR;
use crate::modulated::Modulated;

verus! {

/// Identifier of the volume parameter (decibels).
pub const VOLUME_ID: u32 = 0;
/// Identifier of the attack duration parameter (seconds).
pub const ATTACK_DURATION_ID: u32 = 1;
/// Identifier of the attack power parameter.
pub const ATTACK_POWER_ID: u32 = 2;
/// Identifier of the decay duration parameter (seconds).
pub const DECAY_DURATION_ID: u32 = 3;
/// Identifier of the decay power parameter.
pub const DECAY_POWER_ID: u32 = 4;
/// Identifier of the sustain level parameter.
pub const SUSTAIN_ID: u32 = 5;
/// Identifier of the release duration parameter (seconds).
pub const RELEASE_DURATION_ID: u32 = 6;
/// Identifier of the release power parameter.
pub const RELEASE_POWER_ID: u32 = 7;
/// Identifier of the brightness (high-frequency roll-off) parameter.
pub const HF_ROLLOFF_ID: u32 = 8;

/// Which half of a parameter an event writes.
#[derive(Clone, Copy, Debug, PartialEq, Eq, Structural)]
pub enum ParamField {
    Value,
    Modulation,
}

/// One value of each of the engine's parameters.
///
/// With `T = i32` these are the global parameters; with `T = Option<i32>`
/// a voice's overrides, `None` where the voice follows the global value.
/// Values are millionths of the parameter's unit; durations are stored in
/// microseconds.
#[derive(Clone, Copy, Debug, PartialEq, Eq)]
pub struct ParamSet<T> {
    pub volume: Modulated<T>,
    pub adsr: ADSR<Modulated<T>>,
    pub hf_rolloff: Modulated<T>,
}

/// The global parameters of the engine.
pub type SchoffhauzerSynthPluginParams = ParamSet<i32>;

/// `m` with `field` set to `v`.
pub open spec fn modulated_with<T>(m: Modulated<T>, field: ParamField, v: T) -> Modulated<T> {
    match field {
        ParamField::Value => Modulated { value: v, ..m },
        ParamField::Modulation => Modulated { modulation: v, ..m },
    }
}

/// `p` with `field` of parameter `id` set to `v`; `p` itself for an unknown
/// identifier.
pub open spec fn with_param<T>(p: ParamSet<T>, id: u32, field: ParamField, v: T) -> ParamSet<T> {
    let a = p.adsr;
    if id == VOLUME_ID {
        ParamSet { volume: modulated_with(p.volume, field, v), ..p }
    } else if id == ATTACK_DURATION_ID {
        ParamSet { adsr: ADSR { attack_duration: modulated_with(a.attack_duration, field, v), ..a }, ..p }
    } else if id == ATTACK_POWER_ID {
        ParamSet { adsr: ADSR { attack_power: modulated_with(a.attack_power, field, v), ..a }, ..p }
    } else if id == DECAY_DURATION_ID {
        ParamSet { adsr: ADSR { decay_duration: modulated_with(a.decay_duration, field, v), ..a }, ..p }
    } else if id == DECAY_POWER_ID {
        ParamSet { adsr: ADSR { decay_power: modulated_with(a.decay_power, field, v), ..a }, ..p }
    } else if id == SUSTAIN_ID {
        ParamSet { adsr: ADSR { sustain: modulated_with(a.sustain, field, v), ..a }, ..p }
    } else if id == RELEASE_DURATION_ID {
        ParamSet { adsr: ADSR { release_duration: modulated_with(a.release_duration, field, v), ..a }, ..p }
    } else if id == RELEASE_POWER_ID {
        ParamSet { adsr: ADSR { release_power: modulated_with(a.release_power, field, v), ..a }, ..p }
    } else if id == HF_ROLLOFF_ID {
        ParamSet { hf_rolloff: modulated_with(p.hf_rolloff, field, v), ..p }
    } else {
        p
    }
}

fn set_modulated<T>(m: &mut Modulated<T>, field: ParamField, v: T)
    ensures
        *final(m) == modulated_with(*old(m), field, v),
{
    match field {
        ParamField::Value => m.value = v,
        ParamField::Modulation => m.modulation = v,
    }
}

impl<T> ParamSet<T> {
    /// Writes `v` into `field` of parameter `id`; an unknown identifier
    /// changes nothing.
    pub fn set(&mut self, id: u32, field: ParamField, v: T)
        ensures
            *final(self) == with_param(*old(self), id, field, v),
    {
        if id == VOLUME_ID {
            set_modulated(&mut self.volume, field, v);
        } else if id == ATTACK_DURATION_ID {
            set_modulated(&mut self.adsr.attack_duration, field, v);
        } else if id == ATTACK_POWER_ID {
            set_modulated(&mut self.adsr.attack_power, field, v);
        } else if id == DECAY_DURATION_ID {
            set_modulated(&mut self.adsr.decay_duration, field, v);
        } else if id == DECAY_POWER_ID {
            set_modulated(&mut self.adsr.decay_power, field, v);
        } else if id == SUSTAIN_ID {
            set_modulated(&mut self.adsr.sustain, field, v);
        } else if id == RELEASE_DURATION_ID {
            set_modulated(&mut self.adsr.release_duration, field, v);
        } else if id == RELEASE_POWER_ID {
            set_modulated(&mut self.adsr.release_power, field, v);
        } else if id == HF_ROLLOFF_ID {
            set_modulated(&mut self.hf_rolloff, field, v);
        }
    }
}

/// The effective value of a parameter of a voice: each half taken from the
/// voice's override where it has one, else from the global value.
pub open spec fn resolve_spec(o: Modulated<Option<i32>>, g: Modulated<i32>) -> i64 {
    ((match o.value { Some(v) => v, None => g.value }) + (match o.modulation {
        Some(m) => m,
        None => g.modulation,
    })) as i64
}

/// The effective envelope shape of a voice with overrides `o` under global
/// shape `g`.
pub open spec fn resolve_adsr_spec(o: ADSR<Modulated<Option<i32>>>, g: ADSR<Modulated<i32>>) -> ADSR<i64> {
    ADSR {
        attack_duration: resolve_spec(o.attack_duration, g.attack_duration),
        attack_power: resolve_spec(o.attack_power, g.attack_power),
        decay_duration: resolve_spec(o.decay_duration, g.decay_duration),
        decay_power: resolve_spec(o.decay_power, g.decay_power),
        sustain: resolve_spec(o.sustain, g.sustain),
        release_duration: resolve_spec(o.release_duration, g.release_duration),
        release_power: resolve_spec(o.release_power, g.release_power),
    }
}

/// A write into the global parameters: `field` of parameter `id` set to
/// `value`.
#[derive(Clone, Copy, Debug, PartialEq, Eq, Structural)]
pub struct ParamWrite {
    pub id: u32,
    pub field: ParamField,
    pub value: i32,
}

impl ParamWrite {
    /// Performs the write on `p`.
    pub fn apply(&self, p: &mut ParamSet<i32>)
        ensures
            *final(p) == with_param(*old(p), self.id, self.field, self.value),
    {
        p.set(self.id, self.field, self.value);
    }
}

/// A parameter half-pair that follows the global value in both halves.
pub open spec fn follow_global() -> Modulated<Option<i32>> {
    Modulated { value: None, modulation: None }
}

/// The value `v` without modulation.
pub open spec fn unmodulated(v: i32) -> Modulated<i32> {
    Modulated { value: v, modulation: 0 }
}

/// The effective parameters of one voice for one rendering call.
#[derive(Clone, Copy, Debug, PartialEq, Eq)]
pub struct Resolved {
    /// Volume in millionths of a decibel.
    pub volume: i64,
    /// Envelope shape: durations in microseconds, the rest in millionths.
    pub adsr: ADSR<i64>,
    /// Brightness in millionths.
    pub hf_rolloff: i64,
}

/// The effective value of one parameter of a voice.
pub fn resolve_one(o: &Modulated<Option<i32>>, g: &Modulated<i32>) -> (r: i64)
    ensures
        r == resolve_spec(*o, *g),
{
    o.unwrap_or(*g).into_modulated()
}

impl ParamSet<Option<i32>> {
    /// No overrides: every parameter follows the global value.
    pub fn none() -> (r: Self)
        ensures
            r.volume == follow_global(),
            r.hf_rolloff == follow_global(),
            r.adsr.attack_duration == follow_global(),
            r.adsr.attack_power == follow_global(),
            r.adsr.decay_duration == follow_global(),
            r.adsr.decay_power == follow_global(),
            r.adsr.sustain == follow_global(),
            r.adsr.release_duration == follow_global(),
            r.adsr.release_power == follow_global(),
    {
        let n: Modulated<Option<i32>> = Modulated::new(None, None);
        ParamSet {
            volume: n,
            adsr: ADSR {
                attack_duration: n,
                attack_power: n,
                decay_duration: n,
                decay_power: n,
                sustain: n,
                release_duration: n,
                release_power: n,
            },
            hf_rolloff: n,
        }
    }

    /// These overrides merged with the global parameters `global`.
    pub fn resolve(&self, global: &ParamSet<i32>) -> (r: Resolved)
        ensures
            r.volume == resolve_spec(self.volume, global.volume),
            r.adsr == resolve_adsr_spec(self.adsr, global.adsr),
            r.hf_rolloff == resolve_spec(self.hf_rolloff, global.hf_rolloff),
    {
        let adsr = self.adsr.map2(&global.adsr, resolve_one);
        Resolved {
            volume: resolve_one(&self.volume, &global.volume),
            adsr,
            hf_rolloff: resolve_one(&self.hf_rolloff, &global.hf_rolloff),
        }
    }
}

impl ParamSet<i32> {
    /// The engine's initial parameters: volume 0 dB, attack 0.1 s, decay
    /// 0.3 s, sustain 0.5, release 0.3 s, every curve power 0.7,
    /// brightness 1, no modulation.
    pub fn initial() -> (r: Self)
        ensures
            r.volume == unmodulated(0),
            r.adsr.attack_duration == unmodulated(100_000),
            r.adsr.attack_power == unmodulated(700_000),
            r.adsr.decay_duration == unmodulated(300_000),
            r.adsr.decay_power == unmodulated(700_000),
            r.adsr.sustain == unmodulated(500_000),
            r.adsr.release_duration == unmodulated(300_000),
            r.adsr.release_power == unmodulated(700_000),
            r.hf_rolloff == unmodulated(1_000_000),
    {
        ParamSet {
            volume: Modulated::new(0, 0),
            adsr: ADSR {
                attack_duration: Modulated::new(100_000, 0),
                attack_power: Modulated::new(700_000, 0),
                decay_duration: Modulated::new(300_000, 0),
                decay_power: Modulated::new(700_000, 0),
                sustain: Modulated::new(500_000, 0),
                release_duration: Modulated::new(300_000, 0),
                release_power: Modulated::new(700_000, 0),
            },
            hf_rolloff: Modulated::new(1_000_000, 0),
        }
    }

    pub fn get_volume(&self) -> (r: Modulated<i32>)
        ensures
            r == self.volume,
    {
        self.volume
    }

    pub fn get_adsr(&self) -> (r: ADSR<Modulated<i32>>)
        ensures
            r == self.adsr,
    {
        self.adsr
    }

    pub fn get_hf_rolloff(&self) -> (r: Modulated<i32>)
        ensures
            r == self.hf_rolloff,
    {
        self.hf_rolloff
    }

    /// Sets the base value of parameter `id`.
    pub fn handle_param_value_event(&mut self, id: u32, value: i32)
        ensures
            *final(self) == with_param(*old(self), id, ParamField::Value, value),
    {
        self.set(id, ParamField::Value, value);
    }

    /// Sets the modulation of parameter `id`.
    pub fn handle_param_mod_event(&mut self, id: u32, amount: i32)
        ensures
            *final(self) == with_param(*old(self), id, ParamField::Modulation, amount),
    {
        self.set(id, ParamField::Modulation, amount);
    }
}

} // verus!
