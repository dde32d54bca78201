//! The 32-bit program status word, held as an integer with named bits.

use vstd::prelude::*;

verus! {

/// True when bit `b` of `x` is set.
pub open spec fn bit_set(x: u32, b: u32) -> bool {
    (x >> b) & 1 == 1
}

/// Returns a mask of `n` consecutive set bits starting at bit `shift`
/// (a single bit when `n` is zero).
pub fn make_n_shifted_bits(n: u32, shift: u32) -> (r: u32)
    requires
        n < 32,
        shift < 32,
    ensures
        forall|b: u32|
            b < 32 ==> (#[trigger] bit_set(r, b) <==> (shift <= b && b - shift < (if n == 0 {
                1
            } else {
                n
            }))),
{
    if n == 0 {
        assert(forall|b: u32|
            b < 32 ==> (#[trigger] bit_set(1u32 << shift, b) <==> (shift <= b && b - shift < 1)))
            by (bit_vector)
            requires
                shift < 32,
        ;
        return 1u32 << shift;
    }
    assert(1u32 << n >= 1) by (bit_vector)
        requires
            n < 32,
    ;
    let low: u32 = (1u32 << n) - 1;
    let r: u32 = low << shift;
    assert(forall|b: u32|
        b < 32 ==> (#[trigger] bit_set(low << shift, b) <==> (shift <= b && b - shift < n)))
        by (bit_vector)
        requires
            0 < n < 32,
            shift < 32,
            low == (1u32 << n) - 1,
    ;
    r
}


pub const SIGNED: u32 = 1 << 31;
pub const ZERO: u32 = 1 << 30;
pub const CARRY: u32 = 1 << 29;
pub const OVERFLOW: u32 = 1 << 28;
pub const STICKY_OVERFLOW: u32 = 1 << 27;
pub const RESERVED_26_25: u32 = 0x3 << 25;
pub const JAZELLE_MODE: u32 = 1 << 24;
/// The reserved bits 10 to 23.
pub const RESERVED_23_10: u32 = 0x3FFF << 10;
pub const BIG_ENDIAN: u32 = 1 << 9;
pub const ABORT_DISABLE: u32 = 1 << 8;
pub const IRQ_DISABLE: u32 = 1 << 7;
pub const FIQ_DISABLE: u32 = 1 << 6;
/// Set while the processor runs the 16-bit (Thumb) instruction set.
pub const STATE: u32 = 1 << 5;
pub const M4: u32 = 1 << 4;
pub const M3: u32 = 1 << 3;
pub const M2: u32 = 1 << 2;
pub const M1: u32 = 1 << 1;
pub const M0: u32 = 1 << 0;

/// The five bits that encode the processor mode.
pub const MODE_MASK: u32 = M4 | M3 | M2 | M1 | M0;

/// Every named bit. With the reserved fields counted, the names cover the
/// whole word; a bit outside them would never persist in a flag set.
pub const ALL_FLAGS: u32 = SIGNED | ZERO | CARRY | OVERFLOW | STICKY_OVERFLOW | RESERVED_26_25
    | JAZELLE_MODE | RESERVED_23_10 | BIG_ENDIAN | ABORT_DISABLE | IRQ_DISABLE | FIQ_DISABLE | STATE
    | MODE_MASK;

/// A set of status flags: a 32-bit word in which only named bits may be set.
#[derive(Clone, Copy, PartialEq, Eq, Structural, Debug)]
pub struct StatusFlags {
    bits: u32,
}

impl View for StatusFlags {
    type V = u32;

    closed spec fn view(&self) -> u32 {
        self.bits
    }
}

impl StatusFlags {
    #[verifier::type_invariant]
    spec fn only_named_bits(self) -> bool {
        self.bits & !ALL_FLAGS == 0
    }

    /// The set with no flag.
    pub fn empty() -> (r: StatusFlags)
        ensures
            r@ == 0,
    {
        assert(0u32 & !ALL_FLAGS == 0) by (bit_vector);
        StatusFlags { bits: 0 }
    }

    /// The set with every named flag.
    pub fn all() -> (r: StatusFlags)
        ensures
            r@ == ALL_FLAGS,
    {
        assert(ALL_FLAGS & !ALL_FLAGS == 0) by (bit_vector);
        StatusFlags { bits: ALL_FLAGS }
    }

    /// Builds a set from a raw word, clearing every bit that has no name.
    pub fn from_bits_truncate(bits: u32) -> (r: StatusFlags)
        ensures
            r@ == bits & ALL_FLAGS,
    {
        assert((bits & ALL_FLAGS) & !ALL_FLAGS == 0) by (bit_vector);
        StatusFlags { bits: bits & ALL_FLAGS }
    }

    /// The raw word; no bit outside the named ones is ever set.
    pub fn bits(&self) -> (r: u32)
        ensures
            r == self@,
            r & !ALL_FLAGS == 0,
    {
        proof {
            use_type_invariant(self);
        }
        self.bits
    }

    /// True when every flag of `other` is also in `self`.
    pub fn contains(&self, other: StatusFlags) -> (r: bool)
        ensures
            r == (self@ & other@ == other@),
    {
        self.bits & other.bits == other.bits
    }

    /// The flags that are in either set.
    pub fn union(self, other: StatusFlags) -> (r: StatusFlags)
        ensures
            r@ == self@ | other@,
    {
        proof {
            use_type_invariant(self);
            use_type_invariant(other);
        }
        let a = self.bits;
        let b = other.bits;
        assert((a | b) & !ALL_FLAGS == 0) by (bit_vector)
            requires
                a & !ALL_FLAGS == 0,
                b & !ALL_FLAGS == 0,
        ;
        StatusFlags { bits: a | b }
    }

    /// The flags of `self` that are not in `other`.
    pub fn difference(self, other: StatusFlags) -> (r: StatusFlags)
        ensures
            r@ == self@ & !other@,
    {
        proof {
            use_type_invariant(self);
        }
        let a = self.bits;
        let b = other.bits;
        assert((a & !b) & !ALL_FLAGS == 0) by (bit_vector)
            requires
                a & !ALL_FLAGS == 0,
        ;
        StatusFlags { bits: a & !b }
    }
}

} // verus!
