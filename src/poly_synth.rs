use vstd::prelude::*;
use clack_plugin::events::{Match, Pckn};
use crate::envelope::{
    ADSR, ADSRInstance, advance_spec, curve_position, reshaped, level_spec, new_envelope, off_spec,
    taken_position,
};
use crate::note_match::{
    HostNoteMatch, NoteIdent, NoteIdentHost, admits, ident_matches, is_global, match_u16,
    pckn_is_global,
};
use crate::params::{
    ParamField, ParamSet, ParamWrite, Resolved, follow_global, resolve_adsr_spec, resolve_spec, with_param,
};

verus! {

/// What a voice renders in one call.
///
/// `volume` (millionths of a decibel) and `hf_rolloff` (brightness, in
/// millionths) are the values the voice plays at. Entry `i` of `levels` is
/// the envelope level (millionths) for output position `i`, reached after
/// that sample's step, and entry `i` of `positions` the curve position it
/// was taken at. The voice writes positions `0 .. levels.len()` only.
/// `alive` is false when the envelope ended on the last sample listed.
pub struct VoiceRender {
    pub volume: i64,
    pub hf_rolloff: i64,
    pub positions: Vec<u32>,
    pub levels: Vec<i64>,
    pub alive: bool,
}

/// Where the sound source of a rendered voice is after a pool rendering
/// call: still in the pool, at the given index, or handed back because the
/// voice finished and left the pool.
pub enum VoiceSource<A> {
    Kept(usize),
    Finished(A),
}

/// What one voice of the pool rendered, and where its sound source is now.
pub struct VoiceBlock<A> {
    pub render: VoiceRender,
    pub source: VoiceSource<A>,
}

/// The state of a voice that the engine decides; its sound source aside.
pub struct VoiceState {
    pub ident: NoteIdent,
    pub overrides: ParamSet<Option<i32>>,
    pub adsr_instance: ADSRInstance,
}

/// One sounding note: a sound source, an envelope, an identity and the
/// voice's parameter overrides.
pub struct Voice<A> {
    pub ident: NoteIdent,
    pub audio: A,
    pub overrides: ParamSet<Option<i32>>,
    pub adsr_instance: ADSRInstance,
}

/// The state of `v` without its sound source.
pub open spec fn state_of<A>(v: Voice<A>) -> VoiceState {
    VoiceState { ident: v.ident, overrides: v.overrides, adsr_instance: v.adsr_instance }
}

/// Envelope `e` run on by up to `n` steps of `delta` ticks, stopping
/// at the step on which it ends.
pub open spec fn run_env(e: ADSRInstance, delta: u64, n: nat) -> ADSRInstance
    decreases n,
{
    if n == 0 {
        e
    } else {
        let e2 = advance_spec(e, delta);
        if e2.phase is None {
            e2
        } else {
            run_env(e2, delta, (n - 1) as nat)
        }
    }
}

/// The envelope of a voice in state `s` after a rendering call of `len`
/// samples of `delta` ticks under global parameters `g`.
pub open spec fn rendered_env(s: VoiceState, g: ParamSet<i32>, delta: u64, len: nat) -> ADSRInstance {
    run_env(start_env(s, g), delta, len)
}

/// The envelope of a voice in state `s` as a rendering call under global
/// parameters `g` begins: its shape resolved, keeping the part of the
/// current phase already run.
pub open spec fn start_env(s: VoiceState, g: ParamSet<i32>) -> ADSRInstance {
    reshaped(s.adsr_instance, resolve_adsr_spec(s.overrides.adsr, g.adsr))
}

/// Whether `b` is what a voice in state `s` renders in a call of `len`
/// samples of `delta` ticks under global parameters `g` and power
/// curve `curve`.
///
/// It plays at its resolved volume and brightness; it lists a sample for
/// each step of its envelope, `len` of them while it stays alive, else up to
/// and including the step on which the envelope ends; each level is that of
/// the envelope after the step, at the curve position taken for it.
pub open spec fn block_spec<C: Fn(u64, i64) -> u32>(
    s: VoiceState,
    b: VoiceRender,
    g: ParamSet<i32>,
    delta: u64,
    len: nat,
    curve: C,
) -> bool {
    let e0 = start_env(s, g);
    let n = b.levels@.len();
    &&& b.volume == resolve_spec(s.overrides.volume, g.volume)
    &&& b.hf_rolloff == resolve_spec(s.overrides.hf_rolloff, g.hf_rolloff)
    &&& b.alive == stays_alive(s, g, delta, len)
    &&& b.positions@.len() == n
    &&& n <= len
    &&& (b.alive ==> n == len)
    &&& (!b.alive ==> n >= 1 && run_env(e0, delta, n).phase is None)
    &&& forall|j: nat| 0 < j < n ==> (#[trigger] run_env(e0, delta, j)).phase is Some
    &&& forall|i: int|
        0 <= i < n ==> taken_position(curve, run_env(e0, delta, (i + 1) as nat), #[trigger] b.positions@[i])
    &&& forall|i: int|
        0 <= i < n ==> #[trigger] b.levels@[i] == level_spec(
            run_env(e0, delta, (i + 1) as nat),
            b.positions@[i],
        )
}

/// Whether a voice in state `s` is still alive after such a call.
pub open spec fn stays_alive(s: VoiceState, g: ParamSet<i32>, delta: u64, len: nat) -> bool {
    len == 0 || rendered_env(s, g, delta, len).phase is Some
}

/// `s` after such a call.
pub open spec fn rendered_state(s: VoiceState, g: ParamSet<i32>, delta: u64, len: nat) -> VoiceState {
    VoiceState { adsr_instance: rendered_env(s, g, delta, len), ..s }
}

/// One step more of `run_env` is one `advance_spec` more, while the
/// envelope has not ended.
pub proof fn lemma_run_env_step(e: ADSRInstance, delta: u64, i: nat)
    requires
        i == 0 || run_env(e, delta, i).phase is Some,
    ensures
        run_env(e, delta, i + 1) == advance_spec(run_env(e, delta, i), delta),
    decreases i,
{
    let e2 = advance_spec(e, delta);
    if i > 0 {
        assert(e2.phase is Some);
        assert(run_env(e, delta, i) == run_env(e2, delta, (i - 1) as nat));
        lemma_run_env_step(e2, delta, (i - 1) as nat);
        assert(run_env(e, delta, i + 1) == run_env(e2, delta, i));
    } else {
        assert(run_env(e2, delta, 0) == e2);
    }
}

impl<A> Voice<A> {
    /// A fresh voice for a host note: attack from silence, with the shape
    /// that the global parameters `params` give, its envelope counting
    /// `tick_rate` ticks to the second.
    pub fn new_host(
        audio: A,
        channel: u16,
        note: u16,
        id: Option<u32>,
        params: &ParamSet<i32>,
        tick_rate: u32,
    ) -> (r: Self)
        ensures
            r.ident == NoteIdent::Host(NoteIdentHost { channel, note, id }),
            r.audio == audio,
            r.overrides == no_overrides(),
            r.adsr_instance == new_envelope(resolve_adsr_spec(no_overrides().adsr, params.adsr), tick_rate),
    {
        let overrides = ParamSet::none();
        let shape = overrides.resolve(params).adsr;
        Voice {
            ident: NoteIdent::Host(NoteIdentHost { channel, note, id }),
            audio,
            overrides,
            adsr_instance: ADSRInstance::new(shape, tick_rate),
        }
    }

    pub fn match_host(&self, q: &HostNoteMatch) -> (r: bool)
        ensures
            r == ident_matches(self.ident, *q),
    {
        self.ident.matches(q)
    }

    /// Releases the note, from the level at the envelope's curve position
    /// under `curve`.
    pub fn off<C: Fn(u64, i64) -> u32>(&mut self, curve: &C)
        requires
            forall|p: u64, w: i64| #[trigger] curve.requires((p, w)),
        ensures
            final(self).ident == old(self).ident,
            final(self).audio == old(self).audio,
            final(self).overrides == old(self).overrides,
            exists|t: u32|
                taken_position(*curve, old(self).adsr_instance, t) && final(self).adsr_instance
                    == off_spec(old(self).adsr_instance, t),
    {
        let t = curve_position(&self.adsr_instance, curve);
        self.adsr_instance.off(t);
        assert(taken_position(*curve, old(self).adsr_instance, t));
    }

    /// Silences the voice at once.
    pub fn choke(&mut self)
        ensures
            *final(self) == (Voice { adsr_instance: ADSRInstance { phase: None, ..old(self).adsr_instance }, ..*old(self) }),
    {
        self.adsr_instance.force_end();
    }

    /// The voice's effective parameters under global parameters `params`.
    pub fn resolve(&self, params: &ParamSet<i32>) -> (r: Resolved)
        ensures
            r.volume == resolve_spec(self.overrides.volume, params.volume),
            r.adsr == resolve_adsr_spec(self.overrides.adsr, params.adsr),
            r.hf_rolloff == resolve_spec(self.overrides.hf_rolloff, params.hf_rolloff),
    {
        self.overrides.resolve(params)
    }

    /// Renders up to `len` samples, each `delta` ticks long, under
    /// global parameters `params` and power curve `curve`: the shape is
    /// resolved once, then per sample the envelope steps and its level is
    /// listed, stopping after the sample on which the envelope ends.
    pub fn synth_block<C: Fn(u64, i64) -> u32>(
        &mut self,
        len: usize,
        delta: u64,
        params: &ParamSet<i32>,
        curve: &C,
    ) -> (r: VoiceRender)
        requires
            forall|p: u64, w: i64| #[trigger] curve.requires((p, w)),
        ensures
            final(self).audio == old(self).audio,
            state_of(*final(self)) == rendered_state(state_of(*old(self)), *params, delta, len as nat),
            block_spec(state_of(*old(self)), r, *params, delta, len as nat, *curve),
    {
        let resolved = self.resolve(params);
        self.adsr_instance.set_shape(resolved.adsr);
        let ghost e0 = self.adsr_instance;
        let mut positions: Vec<u32> = Vec::new();
        let mut levels: Vec<i64> = Vec::new();
        let mut i: usize = 0;
        while i < len
            invariant
                0 <= i <= len,
                forall|p: u64, w: i64| #[trigger] curve.requires((p, w)),
                self.adsr_instance == run_env(e0, delta, i as nat),
                forall|j: nat| 0 < j <= i ==> (#[trigger] run_env(e0, delta, j)).phase is Some,
                self.ident == old(self).ident,
                self.overrides == old(self).overrides,
                self.audio == old(self).audio,
                e0 == start_env(state_of(*old(self)), *params),
                resolved.volume == resolve_spec(old(self).overrides.volume, params.volume),
                resolved.hf_rolloff == resolve_spec(old(self).overrides.hf_rolloff, params.hf_rolloff),
                positions@.len() == i,
                levels@.len() == i,
                forall|k: int|
                    0 <= k < i ==> taken_position(*curve, run_env(e0, delta, (k + 1) as nat), #[trigger] positions@[k]),
                forall|k: int|
                    0 <= k < i ==> #[trigger] levels@[k] == level_spec(
                        run_env(e0, delta, (k + 1) as nat),
                        positions@[k],
                    ),
            decreases len - i,
        {
            proof {
                if i > 0 {
                    assert(run_env(e0, delta, i as nat).phase is Some);
                }
                lemma_run_env_step(e0, delta, i as nat);
            }
            self.adsr_instance.advance(delta);
            let t = curve_position(&self.adsr_instance, curve);
            let level = self.adsr_instance.current_level(t);
            positions.push(t);
            levels.push(level);
            if self.adsr_instance.ended() {
                proof {
                    lemma_run_env_ended(e0, delta, (i + 1) as nat, len as nat);
                }
                return VoiceRender {
                    volume: resolved.volume,
                    hf_rolloff: resolved.hf_rolloff,
                    positions,
                    levels,
                    alive: false,
                };
            }
            i += 1;
        }
        proof {
            if len > 0 {
                assert(run_env(e0, delta, len as nat).phase is Some);
            }
        }
        VoiceRender { volume: resolved.volume, hf_rolloff: resolved.hf_rolloff, positions, levels, alive: true }
    }
}

/// Once `run_env` has ended, more steps change nothing.
pub proof fn lemma_run_env_ended(e: ADSRInstance, delta: u64, i: nat, n: nat)
    requires
        i <= n,
        run_env(e, delta, i).phase is None,
    ensures
        run_env(e, delta, n) == run_env(e, delta, i),
    decreases i,
{
    if i == 0 {
        lemma_ended_stays(e, delta, n);
    } else {
        let e2 = advance_spec(e, delta);
        if e2.phase is Some {
            assert(run_env(e, delta, i) == run_env(e2, delta, (i - 1) as nat));
            lemma_run_env_ended(e2, delta, (i - 1) as nat, (n - 1) as nat);
            assert(run_env(e, delta, n) == run_env(e2, delta, (n - 1) as nat));
        }
    }
}

/// An ended envelope stays as it is.
pub proof fn lemma_ended_stays(e: ADSRInstance, delta: u64, n: nat)
    requires
        e.phase is None,
    ensures
        run_env(e, delta, n) == e,
    decreases n,
{
    if n > 0 {
        assert(advance_spec(e, delta) == e);
    }
}

/// Overrides that follow the global value everywhere.
pub open spec fn no_overrides() -> ParamSet<Option<i32>> {
    ParamSet {
        volume: follow_global(),
        adsr: ADSR {
            attack_duration: follow_global(),
            attack_power: follow_global(),
            decay_duration: follow_global(),
            decay_power: follow_global(),
            sustain: follow_global(),
            release_duration: follow_global(),
            release_power: follow_global(),
        },
        hf_rolloff: follow_global(),
    }
}

/// Voices `vs` without those whose block in `bs` (one per voice, in
/// order) reports them no longer alive; order kept.
pub open spec fn kept<A>(vs: Seq<Voice<A>>, bs: Seq<VoiceBlock<A>>) -> Seq<Voice<A>>
    decreases vs.len(),
{
    if vs.len() == 0 || bs.len() == 0 {
        Seq::empty()
    } else {
        let rest = kept(vs.drop_last(), bs.drop_last());
        if bs.last().render.alive {
            rest.push(vs.last())
        } else {
            rest
        }
    }
}

/// Voices `vs` with their envelopes after a rendering call of `len` samples
/// of `delta` ticks under global parameters `g`.
pub open spec fn rendered_voices<A>(vs: Seq<Voice<A>>, g: ParamSet<i32>, delta: u64, len: nat) -> Seq<Voice<A>> {
    Seq::new(
        vs.len(),
        |j: int| Voice { adsr_instance: rendered_env(state_of(vs[j]), g, delta, len), ..vs[j] },
    )
}

/// Whether `b` is what the pool's rendering call gave for voice `j` of
/// `vs`: the voice's render, and its sound source left in the pool at its
/// new index when it stays alive, else handed back.
pub open spec fn pool_block_spec<A, C: Fn(u64, i64) -> u32>(
    vs: Seq<Voice<A>>,
    bs: Seq<VoiceBlock<A>>,
    j: int,
    g: ParamSet<i32>,
    delta: u64,
    len: nat,
    curve: C,
) -> bool {
    &&& block_spec(state_of(vs[j]), bs[j].render, g, delta, len, curve)
    &&& match bs[j].source {
        VoiceSource::Kept(k) => bs[j].render.alive && k == kept(
            rendered_voices(vs, g, delta, len).subrange(0, j),
            bs.subrange(0, j),
        ).len(),
        VoiceSource::Finished(a) => !bs[j].render.alive && a == vs[j].audio,
    }
}

/// The keys that a note-on event for key matcher `key` starts: the one key
/// given, or all 128.
pub open spec fn note_on_keys(key: Match<u16>) -> Seq<u16> {
    match key {
        Match::Specific(k) => seq![k],
        Match::All => Seq::new(128, |i: int| i as u16),
    }
}

/// The channel on which a note-on event for channel matcher `channel`
/// plays: the one given, else channel 0.
pub open spec fn note_on_channel(channel: Match<u16>) -> u16 {
    match channel {
        Match::Specific(c) => c,
        Match::All => 0,
    }
}

/// The note id that a note-on event for id matcher `id` gives its voices.
pub open spec fn note_on_id(id: Match<u32>) -> Option<u32> {
    match id {
        Match::Specific(n) => Some(n),
        Match::All => None,
    }
}

/// Voices `vs` with every voice that `q` reaches choked.
pub open spec fn choked<A>(vs: Seq<Voice<A>>, q: HostNoteMatch) -> Seq<Voice<A>> {
    Seq::new(
        vs.len(),
        |i: int|
            if ident_matches(vs[i].ident, q) {
                Voice { adsr_instance: ADSRInstance { phase: None, ..vs[i].adsr_instance }, ..vs[i] }
            } else {
                vs[i]
            },
    )
}

/// Voices `vs` with `field` of parameter `id` overridden to `v` in every
/// voice that `q` reaches.
pub open spec fn overridden<A>(vs: Seq<Voice<A>>, q: HostNoteMatch, id: u32, field: ParamField, v: i32) -> Seq<Voice<A>> {
    Seq::new(
        vs.len(),
        |i: int|
            if ident_matches(vs[i].ident, q) {
                Voice { overrides: with_param(vs[i].overrides, id, field, Some(v)), ..vs[i] }
            } else {
                vs[i]
            },
    )
}

/// The pool of sounding voices, in the order in which they were started.
pub struct PolySynth<A> {
    sample_rate: u32,
    voices: Vec<Voice<A>>,
}

impl<A> View for PolySynth<A> {
    type V = Seq<Voice<A>>;

    closed spec fn view(&self) -> Seq<Voice<A>> {
        self.voices@
    }
}

impl<A> PolySynth<A> {
    /// The sample rate, in hertz.
    pub closed spec fn rate(&self) -> u32 {
        self.sample_rate
    }

    /// An empty pool for audio at `sample_rate` hertz.
    pub fn new(sample_rate: u32) -> (r: Self)
        requires
            sample_rate > 0,
        ensures
            r@ == Seq::<Voice<A>>::empty(),
            r.rate() == sample_rate,
    {
        PolySynth { sample_rate, voices: Vec::new() }
    }

    pub fn sample_rate(&self) -> (r: u32)
        ensures
            r == self.rate(),
    {
        self.sample_rate
    }

    /// Whether any voice is sounding.
    pub fn is_busy(&self) -> (r: bool)
        ensures
            r == (self@.len() > 0),
    {
        self.voices.len() > 0
    }

    pub fn voices(&self) -> (r: &Vec<Voice<A>>)
        ensures
            r@ == self@,
    {
        &self.voices
    }

    /// Starts a voice for each key that the event at `pckn` addresses, with
    /// the sound source that `make_audio` gives for the key and the envelope
    /// shape of the global parameters `params`. Events for a
    /// port other than port 0 are ignored.
    pub fn handle_note_on_event<F: Fn(u16) -> A>(&mut self, pckn: &Pckn, params: &ParamSet<i32>, make_audio: F)
        requires
            forall|k: u16| #[trigger] make_audio.requires((k,)),
        ensures
            final(self).rate() == old(self).rate(),
            !admits(pckn.port_index, 0u16) ==> final(self)@ == old(self)@,
            admits(pckn.port_index, 0u16) ==> {
                let keys = note_on_keys(pckn.key);
                &&& final(self)@.len() == old(self)@.len() + keys.len()
                &&& final(self)@.subrange(0, old(self)@.len() as int) == old(self)@
                &&& forall|j: int|
                    0 <= j < keys.len() ==> {
                        let v = #[trigger] final(self)@[old(self)@.len() + j];
                        &&& v.ident == NoteIdent::Host(
                            NoteIdentHost {
                                channel: note_on_channel(pckn.channel),
                                note: keys[j],
                                id: note_on_id(pckn.note_id),
                            },
                        )
                        &&& make_audio.ensures((keys[j],), v.audio)
                        &&& v.overrides == no_overrides()
                        &&& v.adsr_instance == new_envelope(resolve_adsr_spec(no_overrides().adsr, params.adsr), old(self).rate())
                    }
            },
    {
        if !match_u16(pckn.port_index, 0) {
            return;
        }
        let channel: u16 = match pckn.channel {
            Match::Specific(c) => c,
            Match::All => 0,
        };
        let id: Option<u32> = match pckn.note_id {
            Match::Specific(n) => Some(n),
            Match::All => None,
        };
        let (lo, hi): (u32, u32) = match pckn.key {
            Match::Specific(k) => (k as u32, k as u32 + 1),
            Match::All => (0, 128),
        };
        let ghost keys = note_on_keys(pckn.key);
        proof {
            assert(keys.len() == hi - lo);
            assert(forall|j: int| 0 <= j < keys.len() ==> keys[j] == (lo + j) as u16);
        }
        let ghost n0 = self.voices@.len();
        let mut key: u32 = lo;
        while key < hi
            invariant
                lo <= key <= hi,
                hi <= 65536,
                keys.len() == hi - lo,
                forall|j: int| 0 <= j < keys.len() ==> keys[j] == (lo + j) as u16,
                forall|k: u16| #[trigger] make_audio.requires((k,)),
                self.sample_rate == old(self).sample_rate,
                n0 == old(self)@.len(),
                self.voices@.len() == n0 + (key - lo),
                self.voices@.subrange(0, n0 as int) == old(self)@,
                forall|j: int|
                    0 <= j < key - lo ==> {
                        let v = #[trigger] self.voices@[n0 + j];
                        &&& v.ident == NoteIdent::Host(
                            NoteIdentHost { channel, note: keys[j], id },
                        )
                        &&& make_audio.ensures((keys[j],), v.audio)
                        &&& v.overrides == no_overrides()
                        &&& v.adsr_instance == new_envelope(resolve_adsr_spec(no_overrides().adsr, params.adsr), self.sample_rate)
                    },
            decreases hi - key,
        {
            let k = key as u16;
            let audio = make_audio(k);
            self.voices.push(Voice::new_host(audio, channel, k, id, params, self.sample_rate));
            proof {
                assert(self.voices@.subrange(0, n0 as int) =~= old(self)@);
                assert(keys[key - lo] == k);
            }
            key += 1;
        }
    }

    /// Releases every voice that the event at `pckn` reaches. Events for a
    /// port other than port 0 are ignored.
    pub fn handle_note_off_event<C: Fn(u64, i64) -> u32>(&mut self, pckn: &Pckn, curve: &C)
        requires
            forall|p: u64, w: i64| #[trigger] curve.requires((p, w)),
        ensures
            final(self).rate() == old(self).rate(),
            final(self)@.len() == old(self)@.len(),
            forall|i: int|
                0 <= i < old(self)@.len() ==> {
                    let (a, b) = (old(self)@[i], #[trigger] final(self)@[i]);
                    if admits(pckn.port_index, 0u16) && ident_matches(
                        a.ident,
                        HostNoteMatch { channel: pckn.channel, note: pckn.key, id: pckn.note_id },
                    ) {
                        &&& b.ident == a.ident
                        &&& b.audio == a.audio
                        &&& b.overrides == a.overrides
                        &&& exists|t: u32|
                            taken_position(*curve, a.adsr_instance, t) && b.adsr_instance
                                == off_spec(a.adsr_instance, t)
                    } else {
                        b == a
                    }
                },
    {
        let q = HostNoteMatch::from_pckn(pckn);
        let port_ok = match_u16(pckn.port_index, 0);
        let mut i: usize = 0;
        while i < self.voices.len()
            invariant
                q == (HostNoteMatch { channel: pckn.channel, note: pckn.key, id: pckn.note_id }),
                port_ok == admits(pckn.port_index, 0u16),
                self.sample_rate == old(self).sample_rate,
                self.voices@.len() == old(self)@.len(),
                0 <= i <= self.voices@.len(),
                forall|j: int| i <= j < self.voices@.len() ==> self.voices@[j] == old(self)@[j],
                forall|j: int|
                    0 <= j < i ==> {
                        let (a, b) = (old(self)@[j], #[trigger] self.voices@[j]);
                        if port_ok && ident_matches(a.ident, q) {
                            &&& b.ident == a.ident
                            &&& b.audio == a.audio
                            &&& b.overrides == a.overrides
                            &&& exists|t: u32|
                                taken_position(*curve, a.adsr_instance, t) && b.adsr_instance
                                    == off_spec(a.adsr_instance, t)
                        } else {
                            b == a
                        }
                    },
                forall|p: u64, w: i64| #[trigger] curve.requires((p, w)),
            decreases self.voices@.len() - i,
        {
            if port_ok && self.voices[i].match_host(&q) {
                self.voices[i].off(curve);
            }
            i += 1;
        }
    }

    /// Silences at once every voice that the event at `pckn` reaches. Events
    /// for a port other than port 0 are ignored.
    pub fn handle_note_choke_event(&mut self, pckn: &Pckn)
        ensures
            final(self).rate() == old(self).rate(),
            admits(pckn.port_index, 0u16) ==> final(self)@ == choked(
                old(self)@,
                HostNoteMatch { channel: pckn.channel, note: pckn.key, id: pckn.note_id },
            ),
            !admits(pckn.port_index, 0u16) ==> final(self)@ == old(self)@,
    {
        if !match_u16(pckn.port_index, 0) {
            return;
        }
        let q = HostNoteMatch::from_pckn(pckn);
        self.choke_matching(&q);
    }

    /// Silences at once every voice that `q` reaches.
    pub fn choke_matching(&mut self, q: &HostNoteMatch)
        ensures
            final(self).rate() == old(self).rate(),
            final(self)@ == choked(old(self)@, *q),
    {
        let mut i: usize = 0;
        while i < self.voices.len()
            invariant
                self.sample_rate == old(self).sample_rate,
                self.voices@.len() == old(self)@.len(),
                0 <= i <= self.voices@.len(),
                forall|j: int| i <= j < self.voices@.len() ==> self.voices@[j] == old(self)@[j],
                forall|j: int| 0 <= j < i ==> self.voices@[j] == choked(old(self)@, *q)[j],
            decreases self.voices@.len() - i,
        {
            if self.voices[i].match_host(q) {
                self.voices[i].choke();
            }
            i += 1;
        }
        assert(self.voices@ =~= choked(old(self)@, *q));
    }

    /// Overrides `field` of parameter `id` with `v` in every voice that `q`
    /// reaches.
    pub fn override_matching(&mut self, q: &HostNoteMatch, id: u32, field: ParamField, v: i32)
        ensures
            final(self).rate() == old(self).rate(),
            final(self)@ == overridden(old(self)@, *q, id, field, v),
    {
        let mut i: usize = 0;
        while i < self.voices.len()
            invariant
                self.sample_rate == old(self).sample_rate,
                self.voices@.len() == old(self)@.len(),
                0 <= i <= self.voices@.len(),
                forall|j: int| i <= j < self.voices@.len() ==> self.voices@[j] == old(self)@[j],
                forall|j: int| 0 <= j < i ==> self.voices@[j] == overridden(old(self)@, *q, id, field, v)[j],
            decreases self.voices@.len() - i,
        {
            if self.voices[i].match_host(q) {
                self.voices[i].overrides.set(id, field, Some(v));
            }
            i += 1;
        }
        assert(self.voices@ =~= overridden(old(self)@, *q, id, field, v));
    }

    /// Sets, in every voice that `q` reaches, the voice's own base value of
    /// parameter `id`.
    pub fn handle_param_value_event(&mut self, id: u32, q: &HostNoteMatch, value: i32)
        ensures
            final(self).rate() == old(self).rate(),
            final(self)@ == overridden(old(self)@, *q, id, ParamField::Value, value),
    {
        self.override_matching(q, id, ParamField::Value, value);
    }

    /// Sets, in every voice that `q` reaches, the voice's own modulation of
    /// parameter `id`.
    pub fn handle_param_mod_event(&mut self, id: u32, q: &HostNoteMatch, amount: i32)
        ensures
            final(self).rate() == old(self).rate(),
            final(self)@ == overridden(old(self)@, *q, id, ParamField::Modulation, amount),
    {
        self.override_matching(q, id, ParamField::Modulation, amount);
    }

    /// Renders up to `len` samples of every voice, in pool order, each
    /// sample one tick of the voices' envelopes, under
    /// global parameters `params` and power curve `curve`, and drops the
    /// voices whose envelope ended. Entry `j` of the result is what voice
    /// `j` rendered, with its sound source: still in the pool at its new
    /// index, or handed back with the finished voice.
    pub fn synth<C: Fn(u64, i64) -> u32>(&mut self, len: usize, params: &ParamSet<i32>, curve: &C) -> (r: Vec<VoiceBlock<A>>)
        requires
            forall|p: u64, w: i64| #[trigger] curve.requires((p, w)),
        ensures
            final(self).rate() == old(self).rate(),
            r@.len() == old(self)@.len(),
            final(self)@ == kept(
                rendered_voices(old(self)@, *params, 1, len as nat),
                r@,
            ),
            forall|j: int|
                0 <= j < old(self)@.len() ==> #[trigger] pool_block_spec(
                    old(self)@,
                    r@,
                    j,
                    *params,
                    1,
                    len as nat,
                    *curve,
                ),
    {
        let delta: u64 = 1;
        let ghost old_vs = self.voices@;
        let ghost rv = rendered_voices(old_vs, *params, delta, len as nat);
        let mut blocks: Vec<VoiceBlock<A>> = Vec::new();
        let ghost mut k: int = 0;
        let mut i: usize = 0;
        while i < self.voices.len()
            invariant
                forall|p: u64, w: i64| #[trigger] curve.requires((p, w)),
                self.sample_rate == old(self).sample_rate,
                delta == 1,
                old_vs == old(self)@,
                rv == rendered_voices(old_vs, *params, delta, len as nat),
                0 <= k <= old_vs.len(),
                blocks@.len() == k,
                0 <= i <= self.voices@.len(),
                self.voices@.len() - i == old_vs.len() - k,
                self.voices@.subrange(0, i as int) == kept(rv.subrange(0, k), blocks@),
                forall|j: int| i <= j < self.voices@.len() ==> self.voices@[j] == old_vs[k + j - i],
                forall|j: int|
                    0 <= j < k ==> #[trigger] pool_block_spec(old_vs, blocks@, j, *params, delta, len as nat, *curve),
            decreases old_vs.len() - k,
        {
            let ghost before = self.voices@;
            let ghost before_blocks = blocks@;
            let render = self.voices[i].synth_block(len, delta, params, curve);
            proof {
                assert(self.voices@[i as int] == rv[k]);
                let vs = rv.subrange(0, k + 1);
                assert(vs.drop_last() =~= rv.subrange(0, k));
                assert(vs.last() == rv[k]);
                assert(self.voices@.subrange(0, i as int) =~= before.subrange(0, i as int));
            }
            if render.alive {
                blocks.push(VoiceBlock { render, source: VoiceSource::Kept(i) });
                proof {
                    assert(blocks@.drop_last() =~= before_blocks);
                    assert(self.voices@.subrange(0, i + 1) =~= before.subrange(0, i as int).push(rv[k]));
                }
                i += 1;
            } else {
                let v = self.voices.remove(i);
                blocks.push(VoiceBlock { render, source: VoiceSource::Finished(v.audio) });
                proof {
                    assert(blocks@.drop_last() =~= before_blocks);
                    assert(self.voices@.subrange(0, i as int) =~= before.subrange(0, i as int));
                }
            }
            proof {
                assert(blocks@.subrange(0, k) =~= before_blocks);
                assert forall|j: int| 0 <= j < k + 1 implies #[trigger] pool_block_spec(
                    old_vs,
                    blocks@,
                    j,
                    *params,
                    delta,
                    len as nat,
                    *curve,
                ) by {
                    assert(blocks@[j] == if j < k { before_blocks[j] } else { blocks@[k] });
                    if j < k {
                        assert(pool_block_spec(old_vs, before_blocks, j, *params, delta, len as nat, *curve));
                        assert(blocks@.subrange(0, j) =~= before_blocks.subrange(0, j));
                    }
                }
                k = k + 1;
            }
        }
        proof {
            assert(rv.subrange(0, k) =~= rv);
            assert(self.voices@.subrange(0, i as int) =~= self.voices@);
        }
        blocks
    }

    /// Gives access to the sound source of voice `j`.
    pub fn audio_mut(&mut self, j: usize) -> (r: &mut A)
        requires
            j < old(self)@.len(),
        ensures
            *r == old(self)@[j as int].audio,
            final(self).rate() == old(self).rate(),
            final(self)@ == old(self)@.update(j as int, Voice { audio: *final(r), ..old(self)@[j as int] }),
    {
        &mut self.voices[j].audio
    }

    /// Applies a parameter event addressed to `pckn`. An event addressed
    /// to every note is global: the pool is left as it is and the result is
    /// the write owed to the global parameters. Any other event overrides
    /// the parameter in the voices it reaches, and the result is `None`.
    pub fn apply_parameter_event(&mut self, id: u32, pckn: &Pckn, field: ParamField, value: i32) -> (r: Option<ParamWrite>)
        ensures
            final(self).rate() == old(self).rate(),
            pckn_is_global(*pckn) ==> {
                &&& r == Some(ParamWrite { id, field, value })
                &&& final(self)@ == old(self)@
            },
            !pckn_is_global(*pckn) ==> {
                &&& r is None
                &&& final(self)@ == overridden(
                    old(self)@,
                    HostNoteMatch { channel: pckn.channel, note: pckn.key, id: pckn.note_id },
                    id,
                    field,
                    value,
                )
            },
    {
        if is_global(pckn) {
            Some(ParamWrite { id, field, value })
        } else {
            let q = HostNoteMatch::from_pckn(pckn);
            self.override_matching(&q, id, field, value);
            None
        }
    }
}

/// A voice whose envelope was forced to end does not survive its next
/// rendering call of one sample or more.
pub proof fn lemma_choked_voice_dies(s: VoiceState, g: ParamSet<i32>, delta: u64, len: nat)
    requires
        s.adsr_instance.phase is None,
        len > 0,
    ensures
        !stays_alive(s, g, delta, len),
{
    lemma_ended_stays(start_env(s, g), delta, len);
}

/// A voice whose envelope was forced to end renders, on its next call of
/// one sample or more, a single sample at level zero, and is no longer
/// alive.
pub proof fn lemma_choked_voice_renders_silence<C: Fn(u64, i64) -> u32>(
    s: VoiceState,
    b: VoiceRender,
    g: ParamSet<i32>,
    delta: u64,
    len: nat,
    curve: C,
)
    requires
        s.adsr_instance.phase is None,
        len > 0,
        block_spec(s, b, g, delta, len, curve),
    ensures
        !b.alive,
        b.levels@.len() == 1,
        b.levels@[0] == 0,
{
    lemma_choked_voice_dies(s, g, delta, len);
    let e0 = start_env(s, g);
    lemma_ended_stays(e0, delta, 1);
    if b.levels@.len() > 1 {
        assert(run_env(e0, delta, 1nat).phase is Some);
    }
}

/// A rendering call after which no voice is alive leaves the pool empty.
pub proof fn lemma_kept_empty_when_none_alive<A>(vs: Seq<Voice<A>>, bs: Seq<VoiceBlock<A>>)
    requires
        vs.len() == bs.len(),
        forall|j: int| 0 <= j < bs.len() ==> !(#[trigger] bs[j]).render.alive,
    ensures
        kept(vs, bs).len() == 0,
    decreases vs.len(),
{
    if vs.len() > 0 {
        let bs2 = bs.drop_last();
        assert forall|j: int| 0 <= j < bs2.len() implies !(#[trigger] bs2[j]).render.alive by {
            assert(bs2[j] == bs[j]);
        }
        lemma_kept_empty_when_none_alive(vs.drop_last(), bs2);
        assert(!bs.last().render.alive);
    }
}

/// Choking the same notes twice does what choking them once does.
pub proof fn lemma_choke_idempotent<A>(vs: Seq<Voice<A>>, q: HostNoteMatch)
    ensures
        choked(choked(vs, q), q) == choked(vs, q),
{
    assert(choked(choked(vs, q), q) =~= choked(vs, q));
}

/// Choking voices that have all ended already changes nothing.
pub proof fn lemma_choke_ended_is_noop<A>(vs: Seq<Voice<A>>, q: HostNoteMatch)
    requires
        forall|i: int| 0 <= i < vs.len() ==> (#[trigger] vs[i]).adsr_instance.phase is None,
    ensures
        choked(vs, q) == vs,
{
    assert(choked(vs, q) =~= vs);
}

} // verus!
