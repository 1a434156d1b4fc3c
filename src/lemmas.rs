use vstd::prelude::*;
use crate::flags::{FlagSet, RavesFlags};
use crate::params::{UserOscParamId, K_ALT_WAVES_CNT, K_MAIN_WAVES_CNT, K_SUB_WAVES_CNT};
use crate::voice::{
    frame_at, lemma_phase_step, phase_after, ramp, wavemix, wrap, Raves, K_MIX_HI, K_MIX_LO,
    K_PHASE_ONE,
};
use crate::wavebank::{alt_wave, main_wave, resolve, scan_pos, sub_wave};
use vstd::arithmetic::div_mod::{lemma_add_mod_noop_right, lemma_mod_bound};

verus! {

/// A phase that starts in the cycle stays in the cycle for any number of
/// samples and any increment, those of less than half a cycle among them:
/// each step adds the increment and drops whole cycles.
pub proof fn lemma_phase_stays_in_cycle(p: u32, w: u32, k: nat)
    ensures
        0 <= phase_after(p, w, k) < K_PHASE_ONE,
        phase_after(p, w, k) as int == (p + k * w) % (K_PHASE_ONE as int),
        phase_after(p, w, k + 1) == wrap(phase_after(p, w, k) + w),
{
    lemma_mod_bound(p + k * w, K_PHASE_ONE as int);
    lemma_phase_step(p, w, k);
}

/// Advancing `n` samples and then `j` more is advancing `n + j` samples.
pub proof fn lemma_phase_after_add(p: u32, w: u32, n: nat, j: nat)
    ensures
        phase_after(phase_after(p, w, n), w, j) == phase_after(p, w, n + j),
{
    let m = K_PHASE_ONE as int;
    let x = p + n * w;
    lemma_mod_bound(x, m);
    lemma_add_mod_noop_right(j * w, x, m);
    assert(p + (n + j) * w == x + j * w) by (nonlinear_arith)
        requires
            x == p + n * w,
    ;
}

/// The cross-fade between the main and alternate oscillators never leaves
/// `[0.005, 0.995]`, whatever the shape and the LFO value.
pub proof fn lemma_wavemix_bounds(shape: int, lfoz: int)
    ensures
        K_MIX_LO <= wavemix(shape, lfoz) <= K_MIX_HI,
{
}

/// A wave selection edit leaves every table handle as it was; the next cycle
/// call resolves the edited selection.
pub proof fn lemma_wave_edit_deferred(r: Raves, id: UserOscParamId, v: u16, lfo: i32, w0: u32, n: nat)
    ensures
        r.after_param(id, v as int).state.wave0 == r.state.wave0,
        r.after_param(id, v as int).state.wave1 == r.state.wave1,
        r.after_param(id, v as int).state.subwave == r.state.subwave,
        id == UserOscParamId::Id1 ==> r.after_param(id, v as int).after_cycle(lfo, w0, n).state.wave0
            == resolve(main_wave(v as int % K_MAIN_WAVES_CNT as int), r.state.wave0),
        id == UserOscParamId::Id2 ==> r.after_param(id, v as int).after_cycle(lfo, w0, n).state.wave1
            == resolve(alt_wave(v as int % K_ALT_WAVES_CNT as int), r.state.wave1),
        id == UserOscParamId::Id3 ==> r.after_param(id, v as int).after_cycle(
            lfo,
            w0,
            n,
        ).state.subwave == resolve(sub_wave(v as int % K_SUB_WAVES_CNT as int), r.state.subwave),
{
    let f = r.state.flags;
    f.lemma_with_has(RavesFlags::Wave0, RavesFlags::Wave0);
    f.lemma_with_has(RavesFlags::Wave1, RavesFlags::Wave1);
    f.lemma_with_has(RavesFlags::SubWave, RavesFlags::SubWave);
}

/// After a note-on, the next block starts with every phase at zero and the
/// LFO ramp at the previous target, so each phase equals its increment after
/// the first sample and the first sample reads every table at its start.
pub proof fn lemma_noteon_restarts(r: Raves, lfo: i32, w0: u32, n: nat)
    requires
        n >= 1,
    ensures
        ({
            let s = r.after_noteon().cycle_start(lfo, w0).state;
            &&& s.phi0 == 0 && s.phi1 == 0 && s.phisub == 0
            &&& s.lfoz == r.state.lfo
            &&& phase_after(s.phi0, s.w00, 1) == s.w00
            &&& phase_after(s.phi1, s.w01, 1) == s.w01
            &&& phase_after(s.phisub, s.w0sub, 1) == s.w0sub
            &&& frame_at(s, r.params.shape as int, 0, n).pos0 == scan_pos(0)
            &&& frame_at(s, r.params.shape as int, 0, n).pos1 == scan_pos(0)
            &&& frame_at(s, r.params.shape as int, 0, n).possub == scan_pos(0)
            &&& ramp(s.lfoz as int, s.lfo as int, 0, n as int) == r.state.lfo
        }),
{
    r.state.flags.lemma_with_has(RavesFlags::Reset, RavesFlags::Reset);
    let s = r.after_noteon().cycle_start(lfo, w0).state;
    assert(0 <= s.w00 < K_PHASE_ONE);
    assert(0 <= s.w01 < K_PHASE_ONE);
    assert(0 <= s.w0sub < K_PHASE_ONE);
}

/// Two blocks with no pending change and the same control input advance the
/// phases as one block of twice the length, keep the tables, and leave the
/// LFO at its target; the second block goes on where the first ended.
pub proof fn lemma_two_blocks(r: Raves, lfo: i32, w0: u32, n: nat, k: nat)
    requires
        r.state.flags == FlagSet::none(),
        n >= 1,
    ensures
        ({
            let s = r.cycle_start(lfo, w0).state;
            let a = r.after_cycle(lfo, w0, n);
            let b = a.after_cycle(lfo, w0, n);
            let t = a.cycle_start(lfo, w0).state;
            &&& b.state.phi0 == phase_after(r.state.phi0, s.w00, 2 * n)
            &&& b.state.phi1 == phase_after(r.state.phi1, s.w01, 2 * n)
            &&& b.state.phisub == phase_after(r.state.phisub, s.w0sub, 2 * n)
            &&& b.state.wave0 == r.state.wave0
            &&& b.state.wave1 == r.state.wave1
            &&& b.state.subwave == r.state.subwave
            &&& a.state.lfoz == lfo && b.state.lfoz == lfo
            &&& b.state.flags == FlagSet::none()
            &&& (k < n ==> frame_at(t, r.params.shape as int, k, n).pos0 == scan_pos(
                phase_after(r.state.phi0, s.w00, n + k),
            ))
        }),
{
    FlagSet::lemma_none_has(RavesFlags::Wave0);
    FlagSet::lemma_none_has(RavesFlags::Wave1);
    FlagSet::lemma_none_has(RavesFlags::SubWave);
    FlagSet::lemma_none_has(RavesFlags::Reset);
    let s = r.cycle_start(lfo, w0).state;
    let a = r.after_cycle(lfo, w0, n);
    let t = a.cycle_start(lfo, w0).state;
    assert(t.w00 == s.w00 && t.w01 == s.w01 && t.w0sub == s.w0sub);
    lemma_phase_after_add(r.state.phi0, s.w00, n, n);
    lemma_phase_after_add(r.state.phi1, s.w01, n, n);
    lemma_phase_after_add(r.state.phisub, s.w0sub, n, n);
    lemma_phase_after_add(r.state.phi0, s.w00, n, k);
    let d = if lfo >= s.lfoz {
        lfo - s.lfoz
    } else {
        s.lfoz - lfo
    };
    assert(d * n / (n as int) == d) by (nonlinear_arith)
        requires
            n >= 1,
    ;
    assert(2 * n == n + n);
}

} // verus!
