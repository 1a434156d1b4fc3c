use vstd::prelude::*;

verus! {

/// Samples in one wavetable cycle.
pub const K_WAVES_SIZE: usize = 128;
/// Samples stored per wavetable: one cycle and a guard copy of the first.
pub const K_WAVES_LUT_SIZE: usize = 129;
/// One table step in units of phase: `2^25`.
pub const K_WAVES_STEP: u32 = 33554432;

pub const K_WAVES_A_CNT: usize = 16;
pub const K_WAVES_B_CNT: usize = 16;
pub const K_WAVES_C_CNT: usize = 14;
pub const K_WAVES_D_CNT: usize = 13;
pub const K_WAVES_E_CNT: usize = 15;
pub const K_WAVES_F_CNT: usize = 16;

/// One of the six banks of wavetables that the platform supplies.
#[derive(Clone, Copy, Debug, PartialEq, Eq, Structural)]
pub enum Bank {
    A,
    B,
    C,
    D,
    E,
    F,
}

pub open spec fn bank_count(b: Bank) -> nat {
    match b {
        Bank::A => 16,
        Bank::B => 16,
        Bank::C => 14,
        Bank::D => 13,
        Bank::E => 15,
        Bank::F => 16,
    }
}

/// A non-owning handle to one wavetable: its bank and its place there.
#[derive(Clone, Copy, Debug, PartialEq, Eq, Structural)]
pub struct WaveHandle {
    pub bank: Bank,
    pub index: usize,
}

impl WaveHandle {
    /// The handle names a table that exists.
    pub open spec fn wf(self) -> bool {
        self.index < bank_count(self.bank)
    }
}

pub fn get_waves_a_elt(idx: usize) -> (r: WaveHandle)
    requires
        idx < K_WAVES_A_CNT,
    ensures
        r == (WaveHandle { bank: Bank::A, index: idx }),
        r.wf(),
{
    WaveHandle { bank: Bank::A, index: idx }
}

pub fn get_waves_b_elt(idx: usize) -> (r: WaveHandle)
    requires
        idx < K_WAVES_B_CNT,
    ensures
        r == (WaveHandle { bank: Bank::B, index: idx }),
        r.wf(),
{
    WaveHandle { bank: Bank::B, index: idx }
}

pub fn get_waves_c_elt(idx: usize) -> (r: WaveHandle)
    requires
        idx < K_WAVES_C_CNT,
    ensures
        r == (WaveHandle { bank: Bank::C, index: idx }),
        r.wf(),
{
    WaveHandle { bank: Bank::C, index: idx }
}

pub fn get_waves_d_elt(idx: usize) -> (r: WaveHandle)
    requires
        idx < K_WAVES_D_CNT,
    ensures
        r == (WaveHandle { bank: Bank::D, index: idx }),
        r.wf(),
{
    WaveHandle { bank: Bank::D, index: idx }
}

pub fn get_waves_e_elt(idx: usize) -> (r: WaveHandle)
    requires
        idx < K_WAVES_E_CNT,
    ensures
        r == (WaveHandle { bank: Bank::E, index: idx }),
        r.wf(),
{
    WaveHandle { bank: Bank::E, index: idx }
}

pub fn get_waves_f_elt(idx: usize) -> (r: WaveHandle)
    requires
        idx < K_WAVES_F_CNT,
    ensures
        r == (WaveHandle { bank: Bank::F, index: idx }),
        r.wf(),
{
    WaveHandle { bank: Bank::F, index: idx }
}

/// Picks from three banks laid end to end: the table at flat index `idx`,
/// or `None` past their combined count.
pub open spec fn pick3(idx: int, b0: Bank, b1: Bank, b2: Bank) -> Option<WaveHandle> {
    let t0 = bank_count(b0) as int;
    let t1 = t0 + bank_count(b1);
    let t2 = t1 + bank_count(b2);
    if 0 <= idx < t0 {
        Some(WaveHandle { bank: b0, index: idx as usize })
    } else if t0 <= idx < t1 {
        Some(WaveHandle { bank: b1, index: (idx - t0) as usize })
    } else if t1 <= idx < t2 {
        Some(WaveHandle { bank: b2, index: (idx - t1) as usize })
    } else {
        None
    }
}

/// The table of the main oscillator at flat index `idx` over banks A, B, C.
pub open spec fn main_wave(idx: int) -> Option<WaveHandle> {
    pick3(idx, Bank::A, Bank::B, Bank::C)
}

/// The table of the alternate oscillator at flat index `idx` over banks D, E, F.
pub open spec fn alt_wave(idx: int) -> Option<WaveHandle> {
    pick3(idx, Bank::D, Bank::E, Bank::F)
}

/// The table of the sub oscillator at index `idx` of bank A.
pub open spec fn sub_wave(idx: int) -> Option<WaveHandle> {
    if 0 <= idx < bank_count(Bank::A) {
        Some(WaveHandle { bank: Bank::A, index: idx as usize })
    } else {
        None
    }
}

/// The table that a selection resolves to; an index past every bank keeps
/// the previous table.
pub open spec fn resolve(sel: Option<WaveHandle>, prev: WaveHandle) -> WaveHandle {
    match sel {
        Some(h) => h,
        None => prev,
    }
}

/// Resolves a flat index over banks A, B, C for the main oscillator.
pub fn select_main_wave(idx: usize, prev: WaveHandle) -> (r: WaveHandle)
    requires
        prev.wf(),
    ensures
        r == resolve(main_wave(idx as int), prev),
        r.wf(),
{
    let k_a_thr = K_WAVES_A_CNT;
    let k_b_thr = k_a_thr + K_WAVES_B_CNT;
    let k_c_thr = k_b_thr + K_WAVES_C_CNT;
    if idx < k_a_thr {
        get_waves_a_elt(idx)
    } else if idx < k_b_thr {
        get_waves_b_elt(idx - k_a_thr)
    } else if idx < k_c_thr {
        get_waves_c_elt(idx - k_b_thr)
    } else {
        prev
    }
}

/// Resolves a flat index over banks D, E, F for the alternate oscillator.
pub fn select_alt_wave(idx: usize, prev: WaveHandle) -> (r: WaveHandle)
    requires
        prev.wf(),
    ensures
        r == resolve(alt_wave(idx as int), prev),
        r.wf(),
{
    let k_d_thr = K_WAVES_D_CNT;
    let k_e_thr = k_d_thr + K_WAVES_E_CNT;
    let k_f_thr = k_e_thr + K_WAVES_F_CNT;
    if idx < k_d_thr {
        get_waves_d_elt(idx)
    } else if idx < k_e_thr {
        get_waves_e_elt(idx - k_d_thr)
    } else if idx < k_f_thr {
        get_waves_f_elt(idx - k_e_thr)
    } else {
        prev
    }
}

/// Resolves an index of bank A for the sub oscillator.
pub fn select_sub_wave(idx: usize, prev: WaveHandle) -> (r: WaveHandle)
    requires
        prev.wf(),
    ensures
        r == resolve(sub_wave(idx as int), prev),
        r.wf(),
{
    if idx < K_WAVES_A_CNT {
        get_waves_a_elt(idx)
    } else {
        prev
    }
}

/// Where a phase reads a wavetable: the two neighbouring samples and the
/// weight of the second, in units of `1 / K_WAVES_STEP`.
#[derive(Clone, Copy, Debug, PartialEq, Eq, Structural)]
pub struct ScanPos {
    pub i0: usize,
    pub i1: usize,
    pub frac: u32,
}

/// The scan position of phase `p`, where `2^32` is one cycle: the cycle is cut
/// into `K_WAVES_SIZE` steps and the second sample of the last step is the
/// guard sample.
pub open spec fn scan_pos(p: u32) -> ScanPos {
    ScanPos {
        i0: (p / K_WAVES_STEP) as usize,
        i1: (p / K_WAVES_STEP + 1) as usize,
        frac: (p % K_WAVES_STEP) as u32,
    }
}

/// The linear interpolation at `pos` of table `t`, scaled by `K_WAVES_STEP`.
pub open spec fn scan_scaled(t: Seq<int>, pos: ScanPos) -> int {
    t[pos.i0 as int] * (K_WAVES_STEP - pos.frac) + t[pos.i1 as int] * pos.frac
}

/// The scan position of a `u32` phase.
pub fn osc_wave_scan_pos(p: u32) -> (r: ScanPos)
    ensures
        r == scan_pos(p),
        r.i0 < K_WAVES_SIZE,
        r.i1 == r.i0 + 1,
        r.i1 < K_WAVES_LUT_SIZE,
        r.frac < K_WAVES_STEP,
{
    let i0 = (p / K_WAVES_STEP) as usize;
    ScanPos { i0, i1: i0 + 1, frac: p % K_WAVES_STEP }
}

/// A wavetable scan is continuous, also where the phase wraps: one unit of
/// phase moves the interpolated value by one `K_WAVES_STEP`-th of the step
/// between the two samples read, provided the guard sample repeats the first.
pub proof fn lemma_scan_continuous(t: Seq<int>, p: u32)
    requires
        t.len() == K_WAVES_LUT_SIZE,
        t[K_WAVES_SIZE as int] == t[0],
    ensures
        ({
            let q = ((p as int + 1) % 0x1_0000_0000) as u32;
            scan_scaled(t, scan_pos(q)) - scan_scaled(t, scan_pos(p))
                == t[scan_pos(p).i1 as int] - t[scan_pos(p).i0 as int]
        }),
{
    let q = ((p as int + 1) % 0x1_0000_0000) as u32;
    let a = scan_pos(p);
    let b = scan_pos(q);
    assert(a.i0 < 128);
    if p == 0xffff_ffff {
        assert(q == 0);
        assert(a.i0 == 127 && a.frac == K_WAVES_STEP - 1);
        assert(b.i0 == 0 && b.frac == 0);
    } else if a.frac == K_WAVES_STEP - 1 {
        assert(q == p + 1);
        assert(b.i0 == a.i0 + 1 && b.frac == 0);
    } else {
        assert(q == p + 1);
        assert(b.i0 == a.i0 && b.frac == a.frac + 1);
    }
    assert(scan_scaled(t, b) - scan_scaled(t, a) == t[a.i1 as int] - t[a.i0 as int])
        by (nonlinear_arith)
        requires
            (b.i0 == a.i0 && b.frac == a.frac + 1 && b.i1 == a.i1)
                || (b.frac == 0 && a.frac == K_WAVES_STEP - 1 && t[b.i0 as int] == t[a.i1 as int]),
            scan_scaled(t, a) == t[a.i0 as int] * (K_WAVES_STEP - a.frac) + t[a.i1 as int] * a.frac,
            scan_scaled(t, b) == t[b.i0 as int] * (K_WAVES_STEP - b.frac) + t[b.i1 as int] * b.frac,
    ;
}

} // verus!
