//! Stateless bit-diffusion functions used for seeding and splitting.
use vstd::prelude::*;

verus! {

/// Fixed odd increment used to decorrelate gamma derivation from seed derivation.
pub const GOLDEN_GAMMA: u64 = 0x9e3779b97f4a7c15;

/// Mask applied to a gamma candidate whose bit transitions are too few.
pub const GAMMA_FIX: u64 = 0xaaaaaaaaaaaaaaaa;

/// Least number of bit transitions that an accepted gamma has.
pub const MIN_TRANSITIONS: u32 = 24;

/// Number of set bits among the `n` lowest bits of `x`.
pub open spec fn ones_below(x: u64, n: nat) -> nat
    decreases n,
{
    if n == 0 {
        0
    } else {
        ones_below(x, (n - 1) as nat) + (if (x >> ((n - 1) as u64)) & 1 == 1 {
            1nat
        } else {
            0nat
        })
    }
}

/// Population count of a 64-bit word.
pub open spec fn popcount(x: u64) -> nat {
    ones_below(x, 64)
}

pub open spec fn spec_shift_xor(n: u32, w: u64) -> u64 {
    w ^ w.wrapping_shr(n)
}

pub open spec fn spec_shift_xor_mult(n: u32, k: u64, w: u64) -> u64 {
    spec_shift_xor(n, w).wrapping_mul(k)
}

pub open spec fn spec_mix64(z: u64) -> u64 {
    spec_shift_xor(
        31,
        spec_shift_xor_mult(33, 0xc4ceb9fe1a85ec53, spec_shift_xor_mult(33, 0xff51afd7ed558ccd, z)),
    )
}

pub open spec fn spec_mix64_variant_13(z: u64) -> u64 {
    spec_shift_xor(
        31,
        spec_shift_xor_mult(27, 0x94d049bb133111eb, spec_shift_xor_mult(30, 0xbf58476d1ce4e5b9, z)),
    )
}

/// Number of adjacent bit positions of `z` that differ.
pub open spec fn transitions(z: u64) -> nat {
    popcount(z ^ (z >> 1u64))
}

pub open spec fn spec_mix_gamma(z: u64) -> u64 {
    let c = spec_mix64_variant_13(z) | 1;
    if transitions(c) >= MIN_TRANSITIONS {
        c
    } else {
        c ^ GAMMA_FIX
    }
}

/// A gamma is acceptable when it is odd and has enough bit transitions.
pub open spec fn good_gamma(g: u64) -> bool {
    g & 1 == 1 && transitions(g) >= MIN_TRANSITIONS
}

/// `w` xor `w` shifted right by `n` (modulo 64) bits.
pub fn shift_xor(n: u32, w: u64) -> (r: u64)
    ensures
        r == spec_shift_xor(n, w),
{
    w ^ w.wrapping_shr(n)
}

/// `shift_xor(n, w)` times `k`, wrapping.
pub fn shift_xor_mult(n: u32, k: u64, w: u64) -> (r: u64)
    ensures
        r == spec_shift_xor_mult(n, k, w),
{
    shift_xor(n, w).wrapping_mul(k)
}

/// Final-avalanche mixer producing outputs and child seeds.
pub fn mix64(z: u64) -> (r: u64)
    ensures
        r == spec_mix64(z),
{
    let z = shift_xor_mult(33, 0xff51afd7ed558ccd, z);
    let z = shift_xor_mult(33, 0xc4ceb9fe1a85ec53, z);
    let z = shift_xor(31, z);
    z
}

/// Second mixer, with its own constants, used only to derive gammas.
pub fn mix64_variant_13(z: u64) -> (r: u64)
    ensures
        r == spec_mix64_variant_13(z),
{
    let z = shift_xor_mult(30, 0xbf58476d1ce4e5b9, z);
    let z = shift_xor_mult(27, 0x94d049bb133111eb, z);
    let z = shift_xor(31, z);
    z
}

/// Number of set bits of `x`.
pub fn count_ones(x: u64) -> (r: u32)
    ensures
        r as nat == popcount(x),
{
    let mut i: u64 = 0;
    let mut c: u32 = 0;
    while i < 64
        invariant
            i <= 64,
            c as nat == ones_below(x, i as nat),
            c <= i,
        decreases 64 - i,
    {
        let b: u64 = (x >> i) & 1;
        assert(b == 0 || b == 1) by (bit_vector)
            requires
                b == (x >> i) & 1,
        ;
        c = c + b as u32;
        i = i + 1;
    }
    c
}

/// Derives an odd gamma with enough bit transitions from `z`.
pub fn mix_gamma(z: u64) -> (r: u64)
    ensures
        r == spec_mix_gamma(z),
        good_gamma(r),
{
    let v = mix64_variant_13(z);
    let z = v | 1;
    assert(z & 1 == 1) by (bit_vector)
        requires
            z == v | 1,
    ;
    let n = count_ones(shift_xor(1, z));
    assert(z.wrapping_shr(1) == z >> 1u64) by (bit_vector);
    proof {
        lemma_mix_gamma_good(z);
    }
    if n >= MIN_TRANSITIONS {
        z
    } else {
        z ^ GAMMA_FIX
    }
}

/// Every gamma that `mix_gamma` derives is odd and has enough bit transitions.
pub proof fn lemma_mix_gamma_always_good(z: u64)
    ensures
        good_gamma(spec_mix_gamma(z)),
{
    let v = spec_mix64_variant_13(z);
    let c = v | 1;
    assert(c & 1 == 1) by (bit_vector)
        requires
            c == v | 1,
    ;
    lemma_mix_gamma_good(c);
}

/// Flipping every bit leaves `n - k` of the `n` low bits set where `k` were.
pub proof fn lemma_ones_below_not(x: u64, n: nat)
    requires
        n <= 64,
    ensures
        ones_below(!x, n) == n - ones_below(x, n),
        ones_below(x, n) <= n,
    decreases n,
{
    if n > 0 {
        lemma_ones_below_not(x, (n - 1) as nat);
        let s: u64 = (n - 1) as u64;
        assert(((!x) >> s) & 1 == 1 <==> (x >> s) & 1 != 1) by (bit_vector)
            requires
                s < 64,
        ;
    }
}

/// Correcting an odd candidate keeps it odd and complements its bit transitions.
pub proof fn lemma_mix_gamma_good(c: u64)
    requires
        c & 1 == 1,
    ensures
        (c ^ GAMMA_FIX) & 1 == 1,
        transitions(c ^ GAMMA_FIX) == 64 - transitions(c),
{
    let d = c ^ GAMMA_FIX;
    assert(d & 1 == 1) by (bit_vector)
        requires
            c & 1 == 1,
            d == c ^ 0xaaaaaaaaaaaaaaaa,
    ;
    assert(d ^ (d >> 1u64) == !(c ^ (c >> 1u64))) by (bit_vector)
        requires
            d == c ^ 0xaaaaaaaaaaaaaaaa,
    ;
    lemma_ones_below_not(c ^ (c >> 1u64), 64);
}

} // verus!
