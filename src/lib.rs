//! Voice engine of a polyphonic synthesiser: parameter values with
//! modulation and per-voice overrides, an attack/decay/sustain/release
//! envelope, host note matching and a pool of voices.
//!
//! Numbers are held in fixed point: a parameter value is an `i32` count of
//! millionths, a duration a count of microseconds, time run and time steps
//! counts of envelope ticks (one per sample in the voice pool), and a
//! phase's progress and curve position counts of billionths.
//!
//! The floating-point work (oscillator, power curve, gain) is left to the
//! caller: the pool renders each voice as a list of envelope levels, and
//! takes the power curve as a function.

pub mod envelope;
pub mod modulated;
pub mod note_match;
pub mod params;
pub mod poly_synth;
pub mod utils;
