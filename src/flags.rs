use vstd::prelude::*;

verus! {

/// Deferred changes that a parameter edit or a note-on leaves for the next
/// cycle call to apply.
#[derive(Clone, Copy, Debug, PartialEq, Eq, Structural)]
pub enum RavesFlags {
    Clear,
    Wave0,
    Wave1,
    SubWave,
    RingMix,
    BitCrush,
    Reset,
}

/// The bit that stands for `f` in a flag byte (`Clear` has none).
pub open spec fn flag_bit(f: RavesFlags) -> u8 {
    match f {
        RavesFlags::Clear => 0,
        RavesFlags::Wave0 => 2,
        RavesFlags::Wave1 => 4,
        RavesFlags::SubWave => 8,
        RavesFlags::RingMix => 16,
        RavesFlags::BitCrush => 32,
        RavesFlags::Reset => 64,
    }
}

/// The position of the bit of a flag other than `Clear`.
pub open spec fn flag_shift(f: RavesFlags) -> u8 {
    match f {
        RavesFlags::Clear => 0,
        RavesFlags::Wave0 => 1,
        RavesFlags::Wave1 => 2,
        RavesFlags::SubWave => 3,
        RavesFlags::RingMix => 4,
        RavesFlags::BitCrush => 5,
        RavesFlags::Reset => 6,
    }
}

impl RavesFlags {
    pub fn bit(&self) -> (r: u8)
        ensures
            r == flag_bit(*self),
    {
        match self {
            RavesFlags::Clear => 0,
            RavesFlags::Wave0 => 2,
            RavesFlags::Wave1 => 4,
            RavesFlags::SubWave => 8,
            RavesFlags::RingMix => 16,
            RavesFlags::BitCrush => 32,
            RavesFlags::Reset => 64,
        }
    }
}

/// A set of pending flags, one bit each in a byte.
#[derive(Clone, Copy, Debug, PartialEq, Eq, Structural)]
pub struct FlagSet {
    pub bits: u8,
}

proof fn lemma_bit_shift(f: RavesFlags)
    requires
        f != RavesFlags::Clear,
    ensures
        flag_shift(f) < 7,
        flag_bit(f) == 1u8 << flag_shift(f),
{
    assert(2u8 == 1u8 << 1u8) by (bit_vector);
    assert(4u8 == 1u8 << 2u8) by (bit_vector);
    assert(8u8 == 1u8 << 3u8) by (bit_vector);
    assert(16u8 == 1u8 << 4u8) by (bit_vector);
    assert(32u8 == 1u8 << 5u8) by (bit_vector);
    assert(64u8 == 1u8 << 6u8) by (bit_vector);
}

proof fn lemma_or_bit(b: u8, i: u8, j: u8)
    requires
        i < 8,
        j < 8,
    ensures
        ((b | (1u8 << i)) & (1u8 << j) != 0) == ((b & (1u8 << j) != 0) || i == j),
{
    assert(((b | (1u8 << i)) & (1u8 << j) != 0) == ((b & (1u8 << j) != 0) || i == j))
        by (bit_vector)
        requires
            i < 8,
            j < 8,
    ;
}

impl FlagSet {
    /// Whether `f` is pending; `Clear` never is.
    pub open spec fn has(self, f: RavesFlags) -> bool {
        self.bits & flag_bit(f) != 0
    }

    /// The set with nothing pending.
    pub open spec fn none() -> FlagSet {
        FlagSet { bits: 0 }
    }

    /// The set with `f` added.
    pub open spec fn with(self, f: RavesFlags) -> FlagSet {
        FlagSet { bits: self.bits | flag_bit(f) }
    }

    /// Nothing is pending in the empty set.
    pub proof fn lemma_none_has(f: RavesFlags)
        ensures
            !FlagSet::none().has(f),
    {
        let m = flag_bit(f);
        assert(0u8 & m == 0) by (bit_vector);
    }

    /// Adding `f` makes `f` pending, unless it is `Clear`, and leaves the other
    /// flags as they were.
    pub proof fn lemma_with_has(self, f: RavesFlags, g: RavesFlags)
        ensures
            self.with(f).has(g) == (self.has(g) || (g == f && f != RavesFlags::Clear)),
    {
        let old_bits = self.bits;
        let b = self.with(f).bits;
        if g == RavesFlags::Clear {
            assert(b & 0u8 == 0) by (bit_vector);
            assert(old_bits & 0u8 == 0) by (bit_vector);
        } else if f == RavesFlags::Clear {
            assert(old_bits | 0u8 == old_bits) by (bit_vector);
        } else {
            lemma_bit_shift(f);
            lemma_bit_shift(g);
            lemma_or_bit(old_bits, flag_shift(f), flag_shift(g));
            assert(flag_shift(f) == flag_shift(g) ==> f == g);
        }
    }

    pub fn empty() -> (r: FlagSet)
        ensures
            r == FlagSet::none(),
            forall|f: RavesFlags| !(#[trigger] r.has(f)),
    {
        proof {
            assert forall|f: RavesFlags| !(#[trigger] FlagSet::none().has(f)) by {
                FlagSet::lemma_none_has(f);
            }
        }
        FlagSet { bits: 0 }
    }

    /// Marks `f` as pending and leaves the other flags as they were.
    pub fn insert(&mut self, f: RavesFlags)
        ensures
            *final(self) == old(self).with(f),
            forall|g: RavesFlags| #[trigger]
                final(self).has(g) == (old(self).has(g) || (g == f && f != RavesFlags::Clear)),
    {
        proof {
            assert forall|g: RavesFlags| #[trigger]
                self.with(f).has(g) == (self.has(g) || (g == f && f != RavesFlags::Clear)) by {
                self.lemma_with_has(f, g);
            }
        }
        self.bits = self.bits | f.bit();
    }

    pub fn contains(&self, f: RavesFlags) -> (r: bool)
        ensures
            r == self.has(f),
    {
        self.bits & f.bit() != 0
    }

    /// Drops every pending flag.
    pub fn clear(&mut self)
        ensures
            *final(self) == FlagSet::none(),
            forall|f: RavesFlags| !(#[trigger] final(self).has(f)),
    {
        *self = FlagSet::empty();
    }
}

} // verus!
