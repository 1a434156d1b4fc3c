use vstd::prelude::*;
use crate::flags::{FlagSet, RavesFlags};
use crate::lut::{bitres_pos, osc_bitres_pos, LutPos};
use crate::mathutil::{clip_min_max, clipminmax};
use crate::params::{RavesParams, UserOscParamId, UserOscParams, K_PARAM_MAX};
use crate::wavebank::{
    alt_wave, get_waves_a_elt, get_waves_d_elt, main_wave, osc_wave_scan_pos, resolve,
    scan_pos, select_alt_wave, select_main_wave, select_sub_wave, sub_wave, Bank, ScanPos,
    WaveHandle,
};
use vstd::arithmetic::div_mod::{lemma_add_mod_noop_right, lemma_mod_bound};

verus! {

/// One full waveform cycle in units of phase.
pub const K_PHASE_ONE: u64 = 0x1_0000_0000;
/// Phase increment of 440 Hz at 48 kHz.
pub const K_SR440: u32 = 39370534;
/// Phase increment of 220 Hz at 48 kHz.
pub const K_SR220: u32 = 19685267;
/// `1023 * 192000`: a detune factor of one adds 0.25 Hz at 48 kHz to the
/// alternate oscillator.
pub const K_ALT_DRIFT_DEN: u64 = 196416000;
/// `1023 * 320000`: a detune factor of one adds 0.15 Hz at 48 kHz to the sub
/// oscillator.
pub const K_SUB_DRIFT_DEN: u64 = 327360000;

/// `1.0` in Q31.
pub const K_Q31_ONE: i64 = 0x8000_0000;
/// Least cross-fade between the main and alternate oscillators: 0.005 in Q31.
pub const K_MIX_LO: i64 = 10737418;
/// Greatest cross-fade between the main and alternate oscillators: 0.995 in
/// Q31.
pub const K_MIX_HI: i64 = 2136746230;

/// `x` wrapped into one cycle of phase.
pub open spec fn wrap(x: int) -> u32 {
    (x % K_PHASE_ONE as int) as u32
}

/// The phase after `k` samples from phase `p` with increment `w`.
pub open spec fn phase_after(p: u32, w: u32, k: nat) -> u32 {
    wrap(p + k * w)
}

/// The extra increment of the alternate oscillator for a detune factor of
/// `s / 1023`.
pub open spec fn alt_drift(s: int) -> int {
    s * K_PHASE_ONE / K_ALT_DRIFT_DEN as int
}

/// The extra increment of the sub oscillator for a detune factor of `s / 1023`.
pub open spec fn sub_drift(s: int) -> int {
    s * K_PHASE_ONE / K_SUB_DRIFT_DEN as int
}

/// The LFO value `k` samples into a ramp of `n` samples from `a` to `b`; a
/// ramp of no samples stays at `a`.
pub open spec fn ramp(a: int, b: int, k: int, n: int) -> int {
    if n == 0 {
        a
    } else if b >= a {
        a + (b - a) * k / n
    } else {
        a - (a - b) * k / n
    }
}

/// A shape of `s / 1023` in Q31.
pub open spec fn shape_q31(s: int) -> int {
    s * K_Q31_ONE / K_PARAM_MAX as int
}

/// The cross-fade between the main and alternate oscillators for a shape of
/// `s / 1023` and an LFO value `lfoz`, in Q31: never quite 0 or 1.
pub open spec fn wavemix(s: int, lfoz: int) -> int {
    clip_min_max(K_MIX_LO as int, shape_q31(s) + lfoz, K_MIX_HI as int)
}

/// `(a + b)` wrapped into one cycle.
pub fn wrap_add(a: u32, b: u32) -> (r: u32)
    ensures
        r == wrap(a + b),
{
    ((a as u64 + b as u64) % K_PHASE_ONE) as u32
}

/// The per-voice state that the cycle call advances.
#[derive(Clone, Copy, Debug, PartialEq, Eq, Structural)]
pub struct RavesState {
    pub wave0: WaveHandle,
    pub wave1: WaveHandle,
    pub subwave: WaveHandle,
    /// Phases of the main, alternate and sub oscillators.
    pub phi0: u32,
    pub phi1: u32,
    pub phisub: u32,
    /// Their increments per sample.
    pub w00: u32,
    pub w01: u32,
    pub w0sub: u32,
    /// Shape LFO target of the current block, in Q31.
    pub lfo: i32,
    /// Shape LFO value reached so far, in Q31.
    pub lfoz: i32,
    pub flags: FlagSet,
}

impl RavesState {
    pub open spec fn wf(self) -> bool {
        self.wave0.wf() && self.wave1.wf() && self.subwave.wf()
    }

    /// Power-on state: first table of bank A for the main and sub
    /// oscillators, of bank D for the alternate one; 440 Hz, sub at 220 Hz.
    pub open spec fn spec_new() -> RavesState {
        RavesState {
            wave0: WaveHandle { bank: Bank::A, index: 0 },
            wave1: WaveHandle { bank: Bank::D, index: 0 },
            subwave: WaveHandle { bank: Bank::A, index: 0 },
            phi0: 0,
            phi1: 0,
            phisub: 0,
            w00: K_SR440,
            w01: K_SR440,
            w0sub: K_SR220,
            lfo: 0,
            lfoz: 0,
            flags: FlagSet::none(),
        }
    }

    pub fn new() -> (r: RavesState)
        ensures
            r == RavesState::spec_new(),
            r.wf(),
    {
        RavesState {
            wave0: get_waves_a_elt(0),
            wave1: get_waves_d_elt(0),
            subwave: get_waves_a_elt(0),
            phi0: 0,
            phi1: 0,
            phisub: 0,
            w00: K_SR440,
            w01: K_SR440,
            w0sub: K_SR220,
            lfo: 0,
            lfoz: 0,
            flags: FlagSet::empty(),
        }
    }

    /// Selects the power-on tables again.
    pub fn init(&mut self)
        ensures
            *final(self) == (RavesState {
                wave0: RavesState::spec_new().wave0,
                wave1: RavesState::spec_new().wave1,
                subwave: RavesState::spec_new().subwave,
                ..*old(self)
            }),
            final(self).wf(),
    {
        self.wave0 = get_waves_a_elt(0);
        self.wave1 = get_waves_d_elt(0);
        self.subwave = get_waves_a_elt(0);
    }

    /// The state after a note reset: phases at zero, and the LFO ramp settled
    /// on its last target.
    pub open spec fn spec_reset(self) -> RavesState {
        RavesState { phi0: 0, phi1: 0, phisub: 0, lfoz: self.lfo, ..self }
    }

    pub fn reset(&mut self)
        ensures
            *final(self) == old(self).spec_reset(),
    {
        self.phi0 = 0;
        self.phi1 = 0;
        self.phisub = 0;
        self.lfoz = self.lfo;
    }
}

/// One voice: its state and its parameters.
#[derive(Clone, Copy, Debug, PartialEq, Eq, Structural)]
pub struct Raves {
    pub state: RavesState,
    pub params: RavesParams,
}

/// The flag that an edit of `id` leaves pending.
pub open spec fn param_flag(id: UserOscParamId) -> RavesFlags {
    match id {
        UserOscParamId::Id1 => RavesFlags::Wave0,
        UserOscParamId::Id2 => RavesFlags::Wave1,
        UserOscParamId::Id3 => RavesFlags::SubWave,
        UserOscParamId::Id6 => RavesFlags::BitCrush,
        _ => RavesFlags::Clear,
    }
}

impl Raves {
    pub open spec fn wf(self) -> bool {
        self.state.wf() && self.params.wf()
    }

    pub open spec fn spec_new() -> Raves {
        Raves { state: RavesState::spec_new(), params: RavesParams::spec_new() }
    }

    pub fn new() -> (r: Raves)
        ensures
            r == Raves::spec_new(),
            r.wf(),
    {
        Raves { state: RavesState::new(), params: RavesParams::new() }
    }

    /// Back to power-on parameters and state.
    pub fn init(&mut self)
        ensures
            *final(self) == Raves::spec_new(),
            final(self).wf(),
    {
        self.params = RavesParams::new();
        self.state = RavesState::new();
        self.state.init();
    }

    /// The voice with pitch increment `w0` for the main oscillator, and the
    /// alternate and sub oscillators detuned from it.
    pub open spec fn with_pitch(self, w0: u32) -> Raves {
        let s = self.params.shiftshape as int;
        Raves {
            state: RavesState {
                w00: w0,
                w01: wrap(w0 + alt_drift(s)),
                w0sub: wrap(w0 / 2 + sub_drift(s)),
                ..self.state
            },
            ..self
        }
    }

    /// Sets the increments of the three oscillators from `w0`, that of the
    /// main one: the alternate one runs slightly faster, the sub one an octave
    /// lower and slightly faster, both by the detune factor.
    pub fn update_pitch(&mut self, w0: u32)
        ensures
            *final(self) == old(self).with_pitch(w0),
    {
        let s = self.params.shiftshape as u64;
        let alt = (s * 4294967296 / K_ALT_DRIFT_DEN) as u32;
        let sub = (s * 4294967296 / K_SUB_DRIFT_DEN) as u32;
        self.state.w00 = w0;
        self.state.w01 = wrap_add(w0, alt);
        self.state.w0sub = wrap_add(w0 / 2, sub);
    }

    /// The voice with the tables that `flags` ask for resolved from the
    /// selected indices.
    pub open spec fn with_waves(self, flags: FlagSet) -> Raves {
        let p = self.params;
        let s = self.state;
        Raves {
            state: RavesState {
                wave0: if flags.has(RavesFlags::Wave0) {
                    resolve(main_wave(p.wave0 as int), s.wave0)
                } else {
                    s.wave0
                },
                wave1: if flags.has(RavesFlags::Wave1) {
                    resolve(alt_wave(p.wave1 as int), s.wave1)
                } else {
                    s.wave1
                },
                subwave: if flags.has(RavesFlags::SubWave) {
                    resolve(sub_wave(p.subwave as int), s.subwave)
                } else {
                    s.subwave
                },
                ..s
            },
            ..self
        }
    }

    /// Resolves the table handles whose selection `flags` mark as changed; a
    /// selection past every bank keeps the previous table.
    pub fn update_waves(&mut self, flags: FlagSet)
        requires
            old(self).state.wf(),
        ensures
            *final(self) == old(self).with_waves(flags),
            final(self).state.wf(),
    {
        if flags.contains(RavesFlags::Wave0) {
            self.state.wave0 = select_main_wave(self.params.wave0 as usize, self.state.wave0);
        }
        if flags.contains(RavesFlags::Wave1) {
            self.state.wave1 = select_alt_wave(self.params.wave1 as usize, self.state.wave1);
        }
        if flags.contains(RavesFlags::SubWave) {
            self.state.subwave = select_sub_wave(self.params.subwave as usize, self.state.subwave);
        }
    }

    /// The voice after a note-on: a reset pending.
    pub open spec fn after_noteon(self) -> Raves {
        Raves {
            state: RavesState { flags: self.state.flags.with(RavesFlags::Reset), ..self.state },
            ..self
        }
    }

    /// The voice after an edit of `id` to raw value `v`: the value stored, and
    /// the flag of the edit pending.
    pub open spec fn after_param(self, id: UserOscParamId, v: int) -> Raves {
        Raves {
            state: RavesState { flags: self.state.flags.with(param_flag(id)), ..self.state },
            params: self.params.edited(id, v),
        }
    }
}

/// What one output sample reads: where each oscillator scans its table, and
/// the cross-fade between the main and alternate oscillators in Q31.
#[derive(Clone, Copy, Debug, PartialEq, Eq, Structural)]
pub struct Frame {
    pub pos0: ScanPos,
    pub pos1: ScanPos,
    pub possub: ScanPos,
    pub wavemix: i32,
}

/// Frame `k` of a block of `n` samples that starts from state `s`, for shape
/// `shape / 1023`.
pub open spec fn frame_at(s: RavesState, shape: int, k: nat, n: nat) -> Frame {
    Frame {
        pos0: scan_pos(phase_after(s.phi0, s.w00, k)),
        pos1: scan_pos(phase_after(s.phi1, s.w01, k)),
        possub: scan_pos(phase_after(s.phisub, s.w0sub, k)),
        wavemix: wavemix(shape, ramp(s.lfoz as int, s.lfo as int, k as int, n as int)) as i32,
    }
}

impl Raves {
    /// The voice at the start of a block, after the pending changes are
    /// applied: increments from `w0`, tables resolved, phases and LFO ramp
    /// reset on a note-on, LFO target `lfo`, nothing pending.
    pub open spec fn cycle_start(self, lfo: i32, w0: u32) -> Raves {
        let flags = self.state.flags;
        let r = self.with_pitch(w0).with_waves(flags);
        let s = if flags.has(RavesFlags::Reset) {
            r.state.spec_reset()
        } else {
            r.state
        };
        Raves { state: RavesState { lfo, flags: FlagSet::none(), ..s }, ..r }
    }

    /// The voice after a block of `n` samples: phases advanced `n` steps and
    /// the LFO ramp at its end.
    pub open spec fn after_cycle(self, lfo: i32, w0: u32, n: nat) -> Raves {
        let r = self.cycle_start(lfo, w0);
        let s = r.state;
        Raves {
            state: RavesState {
                phi0: phase_after(s.phi0, s.w00, n),
                phi1: phase_after(s.phi1, s.w01, n),
                phisub: phase_after(s.phisub, s.w0sub, n),
                lfoz: ramp(s.lfoz as int, s.lfo as int, n as int, n as int) as i32,
                ..s
            },
            ..r
        }
    }

    /// The bit-resolution lookup that a block starts with: only when the
    /// bitcrush amount changed since the last block.
    pub open spec fn cycle_bitcrush(self) -> Option<LutPos> {
        if self.state.flags.has(RavesFlags::BitCrush) {
            Some(bitres_pos(self.params.bitcrush as int))
        } else {
            None
        }
    }
}

/// A ramp stays between its ends.
proof fn lemma_ramp_bounds(a: int, b: int, k: int, n: int)
    requires
        0 <= k <= n,
    ensures
        a <= b ==> a <= ramp(a, b, k, n) <= b,
        b < a ==> b <= ramp(a, b, k, n) <= a,
        k == n ==> ramp(a, b, k, n) == b || n == 0,
{
    if n > 0 {
        let d = if b >= a {
            b - a
        } else {
            a - b
        };
        assert(0 <= d * k / n <= d) by (nonlinear_arith)
            requires
                0 <= k <= n,
                n > 0,
                d >= 0,
        ;
        assert(k == n ==> d * k / n == d) by (nonlinear_arith)
            requires
                n > 0,
        ;
    }
}

/// The LFO value `k` samples into a ramp of `n` samples from `a` to `b`.
fn ramp_at(a: i32, b: i32, k: usize, n: usize) -> (r: i32)
    requires
        k <= n,
    ensures
        r == ramp(a as int, b as int, k as int, n as int),
{
    proof {
        lemma_ramp_bounds(a as int, b as int, k as int, n as int);
    }
    if n == 0 {
        a
    } else if b >= a {
        let d = (b as i64 - a as i64) as u128;
        assert(d * (k as u128) < 0x1_0000_0000_0000_0000_0000_0000) by (nonlinear_arith)
            requires
                d < 0x1_0000_0000,
                k < 0x1_0000_0000_0000_0000,
        ;
        let step = d * (k as u128) / (n as u128);
        (a as i64 + step as i64) as i32
    } else {
        let d = (a as i64 - b as i64) as u128;
        assert(d * (k as u128) < 0x1_0000_0000_0000_0000_0000_0000) by (nonlinear_arith)
            requires
                d < 0x1_0000_0000,
                k < 0x1_0000_0000_0000_0000,
        ;
        let step = d * (k as u128) / (n as u128);
        (a as i64 - step as i64) as i32
    }
}

/// Advancing a phase one more step is wrapping the sum with the increment.
pub proof fn lemma_phase_step(p: u32, w: u32, k: nat)
    ensures
        phase_after(p, w, k + 1) == wrap(phase_after(p, w, k) + w),
{
    let m = K_PHASE_ONE as int;
    let x = p + k * w;
    lemma_mod_bound(x, m);
    lemma_add_mod_noop_right(w as int, x, m);
    assert(p + (k + 1) * w == x + w) by (nonlinear_arith)
        requires
            x == p + k * w,
    ;
}

/// Runs one block, one sample per entry of `frames`: applies the pending
/// changes, then plans every output sample into `frames` and advances the
/// phases and the LFO ramp. `w0` is the phase increment of the main
/// oscillator for the current pitch. Returns the bit-resolution lookup when
/// the bitcrush amount changed since the last block.
pub fn osc_cycle(
    raves: &mut Raves,
    params: &UserOscParams,
    w0: u32,
    frames: &mut Vec<Frame>,
) -> (bitcrush: Option<LutPos>)
    requires
        old(raves).wf(),
    ensures
        *final(raves) == old(raves).after_cycle(params.shape_lfo, w0, old(frames)@.len()),
        final(raves).wf(),
        bitcrush == old(raves).cycle_bitcrush(),
        final(frames)@.len() == old(frames)@.len(),
        forall|k: int|
            0 <= k < old(frames)@.len() ==> #[trigger] final(frames)@[k] == frame_at(
                old(raves).cycle_start(params.shape_lfo, w0).state,
                old(raves).params.shape as int,
                k as nat,
                old(frames)@.len(),
            ),
        forall|k: int|
            0 <= k < old(frames)@.len() ==> K_MIX_LO <= #[trigger] final(frames)@[k].wavemix
                <= K_MIX_HI,
{
    let n = frames.len();
    let ghost start = old(raves).cycle_start(params.shape_lfo, w0);
    let flags = raves.state.flags;
    raves.update_pitch(w0);
    raves.update_waves(flags);
    if flags.contains(RavesFlags::Reset) {
        raves.state.reset();
    }
    let bitcrush = if flags.contains(RavesFlags::BitCrush) {
        Some(osc_bitres_pos(raves.params.bitcrush))
    } else {
        None
    };
    raves.state.lfo = params.shape_lfo;
    raves.state.flags.clear();
    assert(*raves == start);

    let s = raves.state;
    let shape = raves.params.shape;
    let shape_q = (shape as i64 * K_Q31_ONE) / (K_PARAM_MAX as i64);
    let mut phi0 = s.phi0;
    let mut phi1 = s.phi1;
    let mut phisub = s.phisub;
    let mut k: usize = 0;
    while k < n
        invariant
            k <= n,
            n == old(frames)@.len(),
            frames@.len() == n,
            s == start.state,
            shape == old(raves).params.shape,
            shape_q == shape_q31(shape as int),
            phi0 == phase_after(s.phi0, s.w00, k as nat),
            phi1 == phase_after(s.phi1, s.w01, k as nat),
            phisub == phase_after(s.phisub, s.w0sub, k as nat),
            forall|j: int|
                0 <= j < k ==> #[trigger] frames@[j] == frame_at(s, shape as int, j as nat, n as nat),
            forall|j: int| 0 <= j < k ==> K_MIX_LO <= #[trigger] frames@[j].wavemix <= K_MIX_HI,
        decreases n - k,
    {
        let lfoz = ramp_at(s.lfoz, s.lfo, k, n);
        let mix = clipminmax(K_MIX_LO, shape_q + lfoz as i64, K_MIX_HI) as i32;
        let f = Frame {
            pos0: osc_wave_scan_pos(phi0),
            pos1: osc_wave_scan_pos(phi1),
            possub: osc_wave_scan_pos(phisub),
            wavemix: mix,
        };
        assert(f == frame_at(s, shape as int, k as nat, n as nat));
        frames[k] = f;
        proof {
            lemma_phase_step(s.phi0, s.w00, k as nat);
            lemma_phase_step(s.phi1, s.w01, k as nat);
            lemma_phase_step(s.phisub, s.w0sub, k as nat);
        }
        phi0 = wrap_add(phi0, s.w00);
        phi1 = wrap_add(phi1, s.w01);
        phisub = wrap_add(phisub, s.w0sub);
        k = k + 1;
    }
    raves.state.phi0 = phi0;
    raves.state.phi1 = phi1;
    raves.state.phisub = phisub;
    raves.state.lfoz = ramp_at(s.lfoz, s.lfo, n, n);
    bitcrush
}

/// Resets the voice to power-on parameters and state.
pub fn osc_init(raves: &mut Raves, _platform: u32, _api: u32)
    ensures
        *final(raves) == Raves::spec_new(),
        final(raves).wf(),
{
    raves.init();
}

/// Marks a reset as pending for the next cycle call.
pub fn osc_noteon(raves: &mut Raves, _params: &UserOscParams)
    ensures
        *final(raves) == old(raves).after_noteon(),
{
    raves.state.flags.insert(RavesFlags::Reset);
}

/// Stores a parameter edit and marks the change as pending; nothing else is
/// recomputed until the next cycle call.
pub fn osc_param(raves: &mut Raves, index: UserOscParamId, value: u16)
    requires
        old(raves).wf(),
    ensures
        *final(raves) == old(raves).after_param(index, value as int),
        final(raves).wf(),
{
    raves.params.edit(index, value);
    match index {
        UserOscParamId::Id1 => raves.state.flags.insert(RavesFlags::Wave0),
        UserOscParamId::Id2 => raves.state.flags.insert(RavesFlags::Wave1),
        UserOscParamId::Id3 => raves.state.flags.insert(RavesFlags::SubWave),
        UserOscParamId::Id6 => raves.state.flags.insert(RavesFlags::BitCrush),
        _ => raves.state.flags.insert(RavesFlags::Clear),
    }
}

} // verus!
