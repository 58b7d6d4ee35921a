//! Seed derivation: mixing two 32-bit values into one.
use vstd::prelude::*;

verus! {

/// Odd multiplier of the mix; odd, so multiplying by it permutes the `u32` values.
pub const MIX_MULTIPLIER: u32 = 0x517c_c1b7;

/// Multiplicative inverse of `MIX_MULTIPLIER` modulo 2^32.
pub const MIX_MULTIPLIER_INVERSE: u32 = 0x2d0e_ec07;

/// `h * MIX_MULTIPLIER` with wraparound.
pub open spec fn mul_wrap(h: u32) -> u32 {
    ((h as nat * MIX_MULTIPLIER as nat) % 0x1_0000_0000) as u32
}

/// The xor-shift that folds the high half into the low half.
pub open spec fn fold_high(h: u32) -> u32 {
    h ^ (h >> 16u32)
}

/// The mix of two 32-bit values: xor them, multiply with wraparound, fold.
pub open spec fn combine(a: u32, b: u32) -> u32 {
    fold_high(mul_wrap(a ^ b))
}

/// Mixes `a` and `b` into one well-spread 32-bit value.
pub fn hash_combine(a: u32, b: u32) -> (r: u32)
    ensures
        r == combine(a, b),
{
    let mut h: u32 = a;
    h ^= b;
    h = h.wrapping_mul(MIX_MULTIPLIER);
    h ^= h >> 16;
    h
}

proof fn lemma_fold_high_involutive(h: u32)
    ensures
        fold_high(fold_high(h)) == h,
{
    assert((h ^ (h >> 16u32)) ^ ((h ^ (h >> 16u32)) >> 16u32) == h) by (bit_vector);
}

proof fn lemma_mul_wrap_invertible(h: u32)
    ensures
        ((mul_wrap(h) as nat * MIX_MULTIPLIER_INVERSE as nat) % 0x1_0000_0000) as u32 == h,
{
    assert(((((h as nat * 0x517c_c1b7nat) % 0x1_0000_0000) as u32) as nat * 0x2d0e_ec07nat)
        % 0x1_0000_0000 == h) by (bit_vector);
}

/// The mix of a fixed second value is a permutation of the first.
pub proof fn lemma_combine_injective_left(a1: u32, a2: u32, b: u32)
    requires
        a1 != a2,
    ensures
        combine(a1, b) != combine(a2, b),
{
    assert((a1 ^ b) != (a2 ^ b)) by (bit_vector)
        requires
            a1 != a2,
    ;
    lemma_mul_wrap_invertible(a1 ^ b);
    lemma_mul_wrap_invertible(a2 ^ b);
    lemma_fold_high_involutive(mul_wrap(a1 ^ b));
    lemma_fold_high_involutive(mul_wrap(a2 ^ b));
}

/// The mix of a fixed first value is a permutation of the second.
pub proof fn lemma_combine_injective_right(a: u32, b1: u32, b2: u32)
    requires
        b1 != b2,
    ensures
        combine(a, b1) != combine(a, b2),
{
    assert((a ^ b1) != (a ^ b2)) by (bit_vector)
        requires
            b1 != b2,
    ;
    lemma_mul_wrap_invertible(a ^ b1);
    lemma_mul_wrap_invertible(a ^ b2);
    lemma_fold_high_involutive(mul_wrap(a ^ b1));
    lemma_fold_high_involutive(mul_wrap(a ^ b2));
}

} // verus!
