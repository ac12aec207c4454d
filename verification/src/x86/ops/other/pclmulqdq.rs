//! PCLMULQDQ (Westmere, 2010): carry-less 64x64->128 multiply. Token: [`Pclmulqdq`].

use vstd::prelude::*;

use super::super::super::{Feature, FeatureSet};

verus! {

/// Carry-less product of `x` with the low `n` bits of `y`: XOR of `x << k` over the set bits
/// `k < n` of `y`.
pub open spec fn clmul_bits(x: u64, y: u64, n: nat) -> u128
    decreases n,
{
    if n == 0 {
        0
    } else {
        clmul_bits(x, y, (n - 1) as nat) ^ (if (y >> (n - 1) as u64) & 1 == 1 {
            (x as u128) << (n - 1) as u128
        } else {
            0
        })
    }
}

/// The full 128-bit carry-less (GF(2)[x]) product of two 64-bit polynomials.
pub open spec fn clmul64(x: u64, y: u64) -> u128 {
    clmul_bits(x, y, 64)
}

/// The two half-selector bits of a `pclmulqdq` immediate are each 0 or 1.
pub proof fn lemma_half_selectors(imm8: u32)
    ensures
        imm8 & 1 <= 1,
        (imm8 >> 4u32) & 1 <= 1,
{
    assert(imm8 & 1 <= 1 && (imm8 >> 4u32) & 1 <= 1) by (bit_vector);
}

/// The 128-bit carry-less product of `x` and `y`, computed bit by bit.
pub fn clmul64_exec(x: u64, y: u64) -> (r: u128)
    ensures
        r == clmul64(x, y),
{
    let mut acc: u128 = 0;
    let mut i: u64 = 0;
    while i < 64
        invariant
            i <= 64,
            acc == clmul_bits(x, y, i as nat),
        decreases 64 - i,
    {
        if (y >> i) & 1 == 1 {
            acc = acc ^ ((x as u128) << i);
        } else {
            assert(acc ^ 0u128 == acc) by (bit_vector);
        }
        i += 1;
    }
    acc
}

/// Proof token: PCLMULQDQ available. Zero-sized, `Copy`.
#[derive(Debug, Clone, Copy)]
pub struct Pclmulqdq(());

impl Pclmulqdq {
    /// From a raw feature bitset (e.g. `x86::detect_features()`).
    pub fn from_features(set: FeatureSet) -> (r: Option<Self>)
        ensures
            r is Some <==> set@.contains(Feature::Pclmulqdq),
    {
        if set.contains(Feature::Pclmulqdq) {
            Some(Pclmulqdq(()))
        } else {
            None
        }
    }

    /// Carry-less multiply of one 64-bit half of `a` by one 64-bit half of `b`, no carry
    /// propagation, 128-bit product as `[low, high]` (`pclmulqdq`). `IMM8` bit 0 selects `a`'s
    /// half (0 = low, 1 = high); bit 4 selects `b`'s half the same way.
    pub fn clmul<const IMM8: u32>(self, a: [u64; 2], b: [u64; 2]) -> (r: [u64; 2])
        ensures
            r[0] == clmul64(a[(IMM8 & 1) as int], b[((IMM8 >> 4u32) & 1) as int]) as u64,
            r[1] == (clmul64(a[(IMM8 & 1) as int], b[((IMM8 >> 4u32) & 1) as int]) >> 64u128) as u64,
    {
        let sa = IMM8 & 1;
        let sb = (IMM8 >> 4) & 1;
        proof {
            lemma_half_selectors(IMM8);
        }
        let x = a[sa as usize];
        let y = b[sb as usize];
        let p = clmul64_exec(x, y);
        [p as u64, (p >> 64) as u64]
    }
}

} // verus!
