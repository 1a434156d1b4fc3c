//! Integer core of a single-voice wavetable oscillator.
//!
//! The library holds the parts of the voice that are exact: the pending-change
//! flag set, the parameter store, wave-bank selection, lookup-table positions,
//! fixed-point phase accumulation and the per-block cycle planning. Phases are
//! `u32` values where `2^32` stands for one full waveform cycle; mix values are
//! Q31 fixed-point numbers where `2^31` stands for `1.0`.
pub mod mathutil;
pub mod flags;
pub mod wavebank;
pub mod lut;
pub mod params;
pub mod voice;
pub mod lemmas;

pub use flags::{FlagSet, RavesFlags};
pub use mathutil::{clipmaxnote, clipmaxu32};
pub use params::{RavesParams, UserOscParamId, UserOscParams};
pub use voice::{osc_cycle, osc_init, osc_noteon, osc_param, Frame, Raves, RavesState};
