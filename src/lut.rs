use vstd::prelude::*;
use crate::mathutil::{clip_max, clipmaxnote};

verus! {

/// Entries of the note-to-Hz table, one per note number.
pub const K_MIDI_TO_HZ_SIZE: usize = 152;
/// Steps of fine pitch between two notes.
pub const K_NOTE_FINE_STEPS: u64 = 255;

/// Steps of the bit-resolution curve over bitcrush amounts `[0, 1]`.
pub const K_BITRES_SIZE: usize = 128;
pub const K_BITRES_LUT_SIZE: usize = 129;

/// Steps of the tan-pi curve over `[0, 0.49]`.
pub const K_TANPI_SIZE: usize = 256;
pub const K_TANPI_LUT_SIZE: usize = 257;
/// The range that the tan-pi curve spans, in thousandths.
pub const K_TANPI_RANGE_PERMILLE: u64 = 490;

/// Where a lookup reads a table: the value is
/// `t[i0] + (num / den) * (t[i1] - t[i0])`.
#[derive(Clone, Copy, Debug, PartialEq, Eq, Structural)]
pub struct LutPos {
    pub i0: usize,
    pub i1: usize,
    pub num: u64,
    pub den: u64,
}

/// The position `x / den` on a table whose last entry is `last`; a position at
/// or past `last` reads that entry.
pub open spec fn lut_pos(x: int, den: int, last: int) -> LutPos {
    if x / den >= last {
        LutPos { i0: (last - 1) as usize, i1: last as usize, num: den as u64, den: den as u64 }
    } else {
        LutPos {
            i0: (x / den) as usize,
            i1: (x / den + 1) as usize,
            num: (x % den) as u64,
            den: den as u64,
        }
    }
}

/// The position `x / den` on a table whose last entry is `last`.
pub fn osc_lut_pos(x: u64, den: u64, last: usize) -> (r: LutPos)
    requires
        den > 0,
        last >= 1,
    ensures
        r == lut_pos(x as int, den as int, last as int),
        r.i0 < r.i1 <= last,
        r.num <= r.den,
        r.den == den,
{
    let q = x / den;
    if q >= last as u64 {
        LutPos { i0: last - 1, i1: last, num: den, den }
    } else {
        LutPos { i0: q as usize, i1: (q + 1) as usize, num: x % den, den }
    }
}

/// The note-to-Hz entry of `note`, capped at the last one.
pub open spec fn note_index(note: int) -> int {
    clip_max(note, K_MIDI_TO_HZ_SIZE - 1)
}

/// Where pitch `(note, fine)` reads the note-to-Hz table: between the entries
/// of `note` and `note + 1`, each capped at the last, by `fine / 255`.
pub open spec fn pitch_pos(note: int, fine: int) -> LutPos {
    LutPos {
        i0: note_index(note) as usize,
        i1: note_index(note + 1) as usize,
        num: fine as u64,
        den: K_NOTE_FINE_STEPS,
    }
}

/// The note-to-Hz entry of `note`, which is capped at the last.
pub fn osc_notehz_index(note: u8) -> (r: usize)
    ensures
        r == note_index(note as int),
        r < K_MIDI_TO_HZ_SIZE,
{
    clipmaxnote(note, K_MIDI_TO_HZ_SIZE - 1)
}

/// Where pitch `(note, fine)` reads the note-to-Hz table.
pub fn osc_w0f_pitch_pos(note: u8, fine: u8) -> (r: LutPos)
    ensures
        r == pitch_pos(note as int, fine as int),
        r.i0 <= r.i1 < K_MIDI_TO_HZ_SIZE,
        r.num <= r.den,
{
    let i0 = osc_notehz_index(note);
    let i1 = if i0 + 1 >= K_MIDI_TO_HZ_SIZE - 1 {
        K_MIDI_TO_HZ_SIZE - 1
    } else {
        i0 + 1
    };
    LutPos { i0, i1, num: fine as u64, den: K_NOTE_FINE_STEPS }
}

/// The note number and fine pitch packed in a pitch word: high byte, low byte.
pub fn decode_pitch(pitch: u16) -> (r: (u8, u8))
    ensures
        r.0 == pitch / 256,
        r.1 == pitch % 256,
{
    ((pitch / 256) as u8, (pitch % 256) as u8)
}

/// Where a bitcrush amount of `percent / 100` reads the bit-resolution curve.
pub open spec fn bitres_pos(percent: int) -> LutPos {
    lut_pos(percent * K_BITRES_SIZE, 100, K_BITRES_SIZE as int)
}

/// Where a bitcrush amount of `percent / 100` reads the bit-resolution curve.
pub fn osc_bitres_pos(percent: u16) -> (r: LutPos)
    ensures
        r == bitres_pos(percent as int),
        r.i1 < K_BITRES_LUT_SIZE,
        r.num <= r.den,
{
    let size: u64 = K_BITRES_SIZE as u64;
    assert(size == 128);
    osc_lut_pos(percent as u64 * size, 100, K_BITRES_SIZE)
}

/// Where `permille / 1000` reads the tan-pi curve.
pub open spec fn tanpi_pos(permille: int) -> LutPos {
    lut_pos(permille * K_TANPI_SIZE, K_TANPI_RANGE_PERMILLE as int, K_TANPI_SIZE as int)
}

/// Where `permille / 1000` reads the tan-pi curve.
pub fn osc_tanpi_pos(permille: u16) -> (r: LutPos)
    ensures
        r == tanpi_pos(permille as int),
        r.i1 < K_TANPI_LUT_SIZE,
        r.num <= r.den,
{
    let size: u64 = K_TANPI_SIZE as u64;
    assert(size == 256);
    osc_lut_pos(permille as u64 * size, K_TANPI_RANGE_PERMILLE, K_TANPI_SIZE)
}

} // verus!
