//! Bit-level facts about `u32` channel masks.

use vstd::prelude::*;

verus! {

/// Bit `i` of `bits` is set.
pub open spec fn mask_has(bits: u32, i: u32) -> bool {
    i < 32 && bits & (1u32 << i) != 0
}

/// A bit of `a | b` is set exactly when it is set in `a` or in `b`.
pub proof fn lemma_mask_or(a: u32, b: u32, i: u32)
    ensures
        mask_has(a | b, i) == (mask_has(a, i) || mask_has(b, i)),
{
    assert(i < 32 ==> ((a | b) & (1u32 << i) != 0) == ((a & (1u32 << i) != 0) || (b & (1u32
        << i) != 0))) by (bit_vector);
}

/// A bit of `a & b` is set exactly when it is set in both.
pub proof fn lemma_mask_and(a: u32, b: u32, i: u32)
    ensures
        mask_has(a & b, i) == (mask_has(a, i) && mask_has(b, i)),
{
    assert(i < 32 ==> ((a & b) & (1u32 << i) != 0) == ((a & (1u32 << i) != 0) && (b & (1u32
        << i) != 0))) by (bit_vector);
}

/// A bit of `a & !b` is set exactly when it is set in `a` and not in `b`.
pub proof fn lemma_mask_and_not(a: u32, b: u32, i: u32)
    ensures
        mask_has(a & !b, i) == (mask_has(a, i) && !mask_has(b, i)),
{
    assert(i < 32 ==> ((a & !b) & (1u32 << i) != 0) == ((a & (1u32 << i) != 0) && !(b & (1u32
        << i) != 0))) by (bit_vector);
}

/// `1 << j` has exactly bit `j` set.
pub proof fn lemma_mask_single(j: u32, i: u32)
    requires
        j < 32,
    ensures
        mask_has(1u32 << j, i) == (i == j),
{
    assert(j < 32 && i < 32 ==> (((1u32 << j) & (1u32 << i) != 0) == (i == j))) by (bit_vector);
}

/// No bit of zero is set.
pub proof fn lemma_mask_zero(i: u32)
    ensures
        !mask_has(0, i),
{
    assert(0u32 & (1u32 << i) == 0) by (bit_vector);
}

} // verus!

verus! {

/// Two masks with the same 32 bits are equal.
pub proof fn lemma_mask_ext(a: u32, b: u32)
    requires
        forall|i: u32| i < 32 ==> #[trigger] mask_has(a, i) == mask_has(b, i),
    ensures
        a == b,
{
    assert(mask_has(a, 0u32) == mask_has(b, 0u32));
    assert(mask_has(a, 1u32) == mask_has(b, 1u32));
    assert(mask_has(a, 2u32) == mask_has(b, 2u32));
    assert(mask_has(a, 3u32) == mask_has(b, 3u32));
    assert(mask_has(a, 4u32) == mask_has(b, 4u32));
    assert(mask_has(a, 5u32) == mask_has(b, 5u32));
    assert(mask_has(a, 6u32) == mask_has(b, 6u32));
    assert(mask_has(a, 7u32) == mask_has(b, 7u32));
    assert(mask_has(a, 8u32) == mask_has(b, 8u32));
    assert(mask_has(a, 9u32) == mask_has(b, 9u32));
    assert(mask_has(a, 10u32) == mask_has(b, 10u32));
    assert(mask_has(a, 11u32) == mask_has(b, 11u32));
    assert(mask_has(a, 12u32) == mask_has(b, 12u32));
    assert(mask_has(a, 13u32) == mask_has(b, 13u32));
    assert(mask_has(a, 14u32) == mask_has(b, 14u32));
    assert(mask_has(a, 15u32) == mask_has(b, 15u32));
    assert(mask_has(a, 16u32) == mask_has(b, 16u32));
    assert(mask_has(a, 17u32) == mask_has(b, 17u32));
    assert(mask_has(a, 18u32) == mask_has(b, 18u32));
    assert(mask_has(a, 19u32) == mask_has(b, 19u32));
    assert(mask_has(a, 20u32) == mask_has(b, 20u32));
    assert(mask_has(a, 21u32) == mask_has(b, 21u32));
    assert(mask_has(a, 22u32) == mask_has(b, 22u32));
    assert(mask_has(a, 23u32) == mask_has(b, 23u32));
    assert(mask_has(a, 24u32) == mask_has(b, 24u32));
    assert(mask_has(a, 25u32) == mask_has(b, 25u32));
    assert(mask_has(a, 26u32) == mask_has(b, 26u32));
    assert(mask_has(a, 27u32) == mask_has(b, 27u32));
    assert(mask_has(a, 28u32) == mask_has(b, 28u32));
    assert(mask_has(a, 29u32) == mask_has(b, 29u32));
    assert(mask_has(a, 30u32) == mask_has(b, 30u32));
    assert(mask_has(a, 31u32) == mask_has(b, 31u32));
    assert(a == b) by (bit_vector)
        requires
            (a & (1u32 << 0u32) != 0) == (b & (1u32 << 0u32) != 0),
            (a & (1u32 << 1u32) != 0) == (b & (1u32 << 1u32) != 0),
            (a & (1u32 << 2u32) != 0) == (b & (1u32 << 2u32) != 0),
            (a & (1u32 << 3u32) != 0) == (b & (1u32 << 3u32) != 0),
            (a & (1u32 << 4u32) != 0) == (b & (1u32 << 4u32) != 0),
            (a & (1u32 << 5u32) != 0) == (b & (1u32 << 5u32) != 0),
            (a & (1u32 << 6u32) != 0) == (b & (1u32 << 6u32) != 0),
            (a & (1u32 << 7u32) != 0) == (b & (1u32 << 7u32) != 0),
            (a & (1u32 << 8u32) != 0) == (b & (1u32 << 8u32) != 0),
            (a & (1u32 << 9u32) != 0) == (b & (1u32 << 9u32) != 0),
            (a & (1u32 << 10u32) != 0) == (b & (1u32 << 10u32) != 0),
            (a & (1u32 << 11u32) != 0) == (b & (1u32 << 11u32) != 0),
            (a & (1u32 << 12u32) != 0) == (b & (1u32 << 12u32) != 0),
            (a & (1u32 << 13u32) != 0) == (b & (1u32 << 13u32) != 0),
            (a & (1u32 << 14u32) != 0) == (b & (1u32 << 14u32) != 0),
            (a & (1u32 << 15u32) != 0) == (b & (1u32 << 15u32) != 0),
            (a & (1u32 << 16u32) != 0) == (b & (1u32 << 16u32) != 0),
            (a & (1u32 << 17u32) != 0) == (b & (1u32 << 17u32) != 0),
            (a & (1u32 << 18u32) != 0) == (b & (1u32 << 18u32) != 0),
            (a & (1u32 << 19u32) != 0) == (b & (1u32 << 19u32) != 0),
            (a & (1u32 << 20u32) != 0) == (b & (1u32 << 20u32) != 0),
            (a & (1u32 << 21u32) != 0) == (b & (1u32 << 21u32) != 0),
            (a & (1u32 << 22u32) != 0) == (b & (1u32 << 22u32) != 0),
            (a & (1u32 << 23u32) != 0) == (b & (1u32 << 23u32) != 0),
            (a & (1u32 << 24u32) != 0) == (b & (1u32 << 24u32) != 0),
            (a & (1u32 << 25u32) != 0) == (b & (1u32 << 25u32) != 0),
            (a & (1u32 << 26u32) != 0) == (b & (1u32 << 26u32) != 0),
            (a & (1u32 << 27u32) != 0) == (b & (1u32 << 27u32) != 0),
            (a & (1u32 << 28u32) != 0) == (b & (1u32 << 28u32) != 0),
            (a & (1u32 << 29u32) != 0) == (b & (1u32 << 29u32) != 0),
            (a & (1u32 << 30u32) != 0) == (b & (1u32 << 30u32) != 0),
            (a & (1u32 << 31u32) != 0) == (b & (1u32 << 31u32) != 0),
    ;
}

} // verus!
