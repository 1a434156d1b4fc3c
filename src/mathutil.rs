use vstd::prelude::*;

verus! {

/// The smaller of `x` and `m`.
pub open spec fn clip_max(x: int, m: int) -> int {
    if x >= m {
        m
    } else {
        x
    }
}

/// `x` clamped to `[lo, hi]`.
pub open spec fn clip_min_max(lo: int, x: int, hi: int) -> int {
    if x >= hi {
        hi
    } else if x <= lo {
        lo
    } else {
        x
    }
}

/// Caps `x` at `m`.
pub fn clipmaxu32(x: u32, m: u32) -> (r: u32)
    ensures
        r == clip_max(x as int, m as int),
{
    if x >= m {
        m
    } else {
        x
    }
}

/// Widens a note number to an index and caps it at `m`, the last valid index
/// of a table.
pub fn clipmaxnote(note: u8, m: usize) -> (r: usize)
    ensures
        r == clip_max(note as int, m as int),
{
    let unote = note as usize;
    if unote >= m {
        m
    } else {
        unote
    }
}

/// Clamps `x` to `[lo, hi]`; `hi` wins where the bounds cross.
pub fn clipminmax(lo: i64, x: i64, hi: i64) -> (r: i64)
    ensures
        r == clip_min_max(lo as int, x as int, hi as int),
{
    if x >= hi {
        hi
    } else if x <= lo {
        lo
    } else {
        x
    }
}

} // verus!
