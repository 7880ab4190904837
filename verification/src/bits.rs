//! Bit-level facts about 64-bit occupancy masks.

use vstd::prelude::*;

verus! {

/// Bit `i` of `mask` is set. Squares outside `0..64` are never set.
pub open spec fn bit_set(mask: u64, i: int) -> bool {
    0 <= i < 64 && (mask >> (i as u64)) & 1 == 1
}

/// Tests bit `i` of `mask`.
pub fn test_bit(mask: u64, i: usize) -> (b: bool)
    requires
        i < 64,
    ensures
        b == bit_set(mask, i as int),
{
    (mask >> (i as u64)) & 1 == 1
}

/// The empty mask has no set bit.
pub proof fn lemma_bit_zero(i: int)
    ensures
        !bit_set(0, i),
{
    if 0 <= i < 64 {
        let k: u64 = i as u64;
        assert((0u64 >> k) & 1 != 1) by (bit_vector);
    }
}

/// A bit of a union is set exactly when it is set in one of the operands.
pub proof fn lemma_bit_or(a: u64, b: u64, i: int)
    ensures
        bit_set(a | b, i) == (bit_set(a, i) || bit_set(b, i)),
{
    if 0 <= i < 64 {
        let k: u64 = i as u64;
        assert(((a | b) >> k) & 1 == 1 <==> ((a >> k) & 1 == 1 || (b >> k) & 1 == 1)) by (bit_vector)
            requires
                k < 64,
        ;
    }
}

/// Masks with an empty intersection share no set bit.
pub proof fn lemma_bit_disjoint(a: u64, b: u64, i: int)
    requires
        a & b == 0,
    ensures
        !(bit_set(a, i) && bit_set(b, i)),
{
    if 0 <= i < 64 {
        let k: u64 = i as u64;
        assert(!((a >> k) & 1 == 1 && (b >> k) & 1 == 1)) by (bit_vector)
            requires
                k < 64,
                a & b == 0,
        ;
    }
}

proof fn lemma_set_bit_from(x: u64, i: u64) -> (j: int)
    requires
        i < 64,
        x >> i != 0,
    ensures
        i <= j < 64,
        bit_set(x, j),
    decreases 64 - i,
{
    if (x >> i) & 1 == 1 {
        i as int
    } else {
        let n: u64 = (i + 1) as u64;
        assert(i < 63 && x >> n != 0) by (bit_vector)
            requires
                i < 64,
                x >> i != 0,
                (x >> i) & 1 != 1,
                n == i + 1,
        ;
        lemma_set_bit_from(x, n)
    }
}

/// A nonzero mask has a set bit; the result is one.
pub proof fn lemma_nonzero_has_bit(x: u64) -> (j: int)
    requires
        x != 0,
    ensures
        bit_set(x, j),
{
    assert(x >> 0u64 == x) by (bit_vector);
    lemma_set_bit_from(x, 0)
}

/// A set bit common to two masks is set in their intersection.
pub proof fn lemma_bit_and(a: u64, b: u64, i: int)
    ensures
        bit_set(a & b, i) == (bit_set(a, i) && bit_set(b, i)),
{
    if 0 <= i < 64 {
        let k: u64 = i as u64;
        assert(((a & b) >> k) & 1 == 1 <==> ((a >> k) & 1 == 1 && (b >> k) & 1 == 1)) by (bit_vector)
            requires
                k < 64,
        ;
    }
}

} // verus!
