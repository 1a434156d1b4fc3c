use vstd::prelude::*;
use crate::mathutil::clip_max;
use crate::wavebank::{
    K_WAVES_A_CNT, K_WAVES_B_CNT, K_WAVES_C_CNT, K_WAVES_D_CNT, K_WAVES_E_CNT, K_WAVES_F_CNT,
};

verus! {

/// The control block that the host hands to every cycle call.
#[derive(Clone, Copy, Debug)]
pub struct UserOscParams {
    /// Value of the LFO applied to the shape parameter, in Q31.
    pub shape_lfo: i32,
    /// Current pitch. High byte: note number. Low byte: fine (0-255).
    pub pitch: u16,
    /// Current cutoff value (0x0000-0x1fff).
    pub cutoff: u16,
    /// Current resonance value (0x0000-0x1fff).
    pub resonance: u16,
    pub reserved0: [u16; 3],
}

/// The parameters that the host can edit.
#[derive(Clone, Copy, Debug, PartialEq, Eq, Structural)]
pub enum UserOscParamId {
    /// Wave of the main oscillator, over banks A, B and C.
    Id1,
    /// Wave of the alternate oscillator, over banks D, E and F.
    Id2,
    /// Wave of the sub oscillator, in bank A.
    Id3,
    /// Amount of the sub oscillator.
    Id4,
    /// Amount of ring modulation.
    Id5,
    /// Amount of bitcrush.
    Id6,
    /// Shape: the cross-fade between the main and alternate oscillators.
    Shape,
    /// Alternative shape: the detune of the alternate and sub oscillators.
    ShiftShape,
}

/// Tables that the main oscillator selects from: banks A, B and C.
pub const K_MAIN_WAVES_CNT: u16 = 46;
/// Tables that the alternate oscillator selects from: banks D, E and F.
pub const K_ALT_WAVES_CNT: u16 = 44;
/// Tables that the sub oscillator selects from: bank A.
pub const K_SUB_WAVES_CNT: u16 = 16;
/// Largest value of a 10-bit edit.
pub const K_PARAM_MAX: u16 = 1023;

/// The edited parameters, as exact integers on fixed scales.
#[derive(Clone, Copy, Debug, PartialEq, Eq, Structural)]
pub struct RavesParams {
    /// Sub oscillator amount, in thousandths.
    pub submix: u16,
    /// Ring modulation amount, in hundredths.
    pub ringmix: u16,
    /// Bitcrush amount, in hundredths.
    pub bitcrush: u16,
    /// Shape, in 1023rds.
    pub shape: u16,
    /// Alternative shape, in 1023rds: the detune of the alternate and sub
    /// oscillators.
    pub shiftshape: u16,
    pub wave0: u8,
    pub wave1: u8,
    pub subwave: u8,
}

/// Sub oscillator amount for an edit value: `0.05 + 0.009 * v`, at most 1.
pub open spec fn submix_of(v: int) -> int {
    clip_max(50 + 9 * v, 1000)
}

/// An amount in hundredths for an edit value: `0.01 * v`, at most 1.
pub open spec fn percent_of(v: int) -> int {
    clip_max(v, 100)
}

/// A 10-bit edit value, capped at its largest.
pub open spec fn ten_bit_of(v: int) -> int {
    clip_max(v, K_PARAM_MAX as int)
}


impl RavesParams {
    /// Every value lies in its range.
    pub open spec fn wf(self) -> bool {
        &&& 50 <= self.submix <= 1000
        &&& self.ringmix <= 100
        &&& self.bitcrush <= 100
        &&& self.shape <= K_PARAM_MAX
        &&& self.shiftshape <= K_PARAM_MAX
        &&& self.wave0 < K_MAIN_WAVES_CNT
        &&& self.wave1 < K_ALT_WAVES_CNT
        &&& self.subwave < K_SUB_WAVES_CNT
    }

    /// Power-on values.
    pub open spec fn spec_new() -> RavesParams {
        RavesParams {
            submix: 50,
            ringmix: 0,
            bitcrush: 0,
            shape: 0,
            shiftshape: 0,
            wave0: 0,
            wave1: 0,
            subwave: 0,
        }
    }

    pub fn new() -> (r: RavesParams)
        ensures
            r == RavesParams::spec_new(),
            r.wf(),
    {
        RavesParams {
            submix: 50,
            ringmix: 0,
            bitcrush: 0,
            shape: 0,
            shiftshape: 0,
            wave0: 0,
            wave1: 0,
            subwave: 0,
        }
    }

    /// The parameters after an edit of `id` to raw value `v`.
    pub open spec fn edited(self, id: UserOscParamId, v: int) -> RavesParams {
        match id {
            UserOscParamId::Id1 => RavesParams { wave0: (v % K_MAIN_WAVES_CNT as int) as u8, ..self },
            UserOscParamId::Id2 => RavesParams { wave1: (v % K_ALT_WAVES_CNT as int) as u8, ..self },
            UserOscParamId::Id3 => RavesParams { subwave: (v % K_SUB_WAVES_CNT as int) as u8, ..self },
            UserOscParamId::Id4 => RavesParams { submix: submix_of(v) as u16, ..self },
            UserOscParamId::Id5 => RavesParams { ringmix: percent_of(v) as u16, ..self },
            UserOscParamId::Id6 => RavesParams { bitcrush: percent_of(v) as u16, ..self },
            UserOscParamId::Shape => RavesParams { shape: ten_bit_of(v) as u16, ..self },
            UserOscParamId::ShiftShape => RavesParams { shiftshape: ten_bit_of(v) as u16, ..self },
        }
    }

    /// Stores an edit of `id` to raw value `value`: amounts are clamped, wave
    /// indices reduced modulo the number of tables to select from.
    pub fn edit(&mut self, id: UserOscParamId, value: u16)
        requires
            old(self).wf(),
        ensures
            *final(self) == old(self).edited(id, value as int),
            final(self).wf(),
    {
        match id {
            UserOscParamId::Id1 => {
                let cnt = (K_WAVES_A_CNT + K_WAVES_B_CNT + K_WAVES_C_CNT) as u16;
                self.wave0 = (value % cnt) as u8;
            },
            UserOscParamId::Id2 => {
                let cnt = (K_WAVES_D_CNT + K_WAVES_E_CNT + K_WAVES_F_CNT) as u16;
                self.wave1 = (value % cnt) as u8;
            },
            UserOscParamId::Id3 => {
                self.subwave = (value % K_WAVES_A_CNT as u16) as u8;
            },
            UserOscParamId::Id4 => {
                let m: u32 = 50 + 9 * value as u32;
                self.submix = if m >= 1000 {
                    1000
                } else {
                    m as u16
                };
            },
            UserOscParamId::Id5 => {
                self.ringmix = if value >= 100 {
                    100
                } else {
                    value
                };
            },
            UserOscParamId::Id6 => {
                self.bitcrush = if value >= 100 {
                    100
                } else {
                    value
                };
            },
            UserOscParamId::Shape => {
                self.shape = if value >= K_PARAM_MAX {
                    K_PARAM_MAX
                } else {
                    value
                };
            },
            UserOscParamId::ShiftShape => {
                self.shiftshape = if value >= K_PARAM_MAX {
                    K_PARAM_MAX
                } else {
                    value
                };
            },
        }
    }
}

} // verus!
