//! VPCLMULQDQ (Ice Lake, 2019): PCLMULQDQ widened to 256/512-bit, one independent carry-less
//! multiply per 128-bit lane. Tokens: [`Vpclmulqdq`] (256-bit), [`Vpclmulqdq512`] (512-bit).

use vstd::prelude::*;

use super::super::super::{Feature, FeatureSet};
use super::pclmulqdq::{clmul64, clmul64_exec, lemma_half_selectors};

verus! {

/// The carry-less product of the `imm8`-selected halves of 128-bit lane `l` of `a` and `b`.
pub open spec fn lane_product(a: Seq<u64>, b: Seq<u64>, imm8: u32, l: int) -> u128 {
    clmul64(a[2 * l + (imm8 & 1) as int], b[2 * l + ((imm8 >> 4u32) & 1) as int])
}

/// Whether `r` holds, in every 128-bit lane `l < lanes`, the carry-less product of `a`'s and
/// `b`'s `IMM8`-selected halves of that lane as `[low, high]`.
pub open spec fn is_lane_clmul(r: Seq<u64>, a: Seq<u64>, b: Seq<u64>, imm8: u32, lanes: int) -> bool {
    forall|l: int|
        0 <= l < lanes ==> r[2 * l] == #[trigger] lane_product(a, b, imm8, l) as u64 && r[2 * l
            + 1] == (lane_product(a, b, imm8, l) >> 64u128) as u64
}

/// Proof token: VPCLMULQDQ available (256-bit form). Zero-sized, `Copy`.
#[derive(Debug, Clone, Copy)]
pub struct Vpclmulqdq(());

/// Proof token: VPCLMULQDQ *and* AVX-512F, both required for the 512-bit form. Zero-sized,
/// `Copy`.
#[derive(Debug, Clone, Copy)]
pub struct Vpclmulqdq512(());

impl Vpclmulqdq {
    /// From a raw feature bitset (e.g. `x86::detect_features()`).
    pub fn from_features(set: FeatureSet) -> (r: Option<Self>)
        ensures
            r is Some <==> set@.contains(Feature::Vpclmulqdq),
    {
        if set.contains(Feature::Vpclmulqdq) {
            Some(Vpclmulqdq(()))
        } else {
            None
        }
    }

    /// Two independent carry-less multiplies, one per 128-bit lane (same half-selection as
    /// [`super::pclmulqdq::Pclmulqdq::clmul`]) (`vpclmulqdq`, 256-bit).
    pub fn clmul_u64x4<const IMM8: u32>(self, a: [u64; 4], b: [u64; 4]) -> (r: [u64; 4])
        ensures
            is_lane_clmul(r@, a@, b@, IMM8, 2),
    {
        let mut out = [0u64; 4];
        let sa = IMM8 & 1;
        let sb = (IMM8 >> 4) & 1;
        proof {
            lemma_half_selectors(IMM8);
        }
        let mut l: usize = 0;
        while l < 2
            invariant
                sa == IMM8 & 1,
                sb == (IMM8 >> 4u32) & 1,
                sa <= 1 && sb <= 1,
                l <= 2,
                is_lane_clmul(out@, a@, b@, IMM8, l as int),
            decreases 2 - l,
        {
            let p = clmul64_exec(a[2 * l + sa as usize], b[2 * l + sb as usize]);
            assert(p == lane_product(a@, b@, IMM8, l as int));
            out[2 * l] = p as u64;
            out[2 * l + 1] = (p >> 64) as u64;
            l += 1;
        }
        out
    }
}

impl Vpclmulqdq512 {
    /// `None` unless the set has both VPCLMULQDQ and AVX-512F.
    pub fn from_features(set: FeatureSet) -> (r: Option<Self>)
        ensures
            r is Some <==> set@.contains(Feature::Vpclmulqdq) && set@.contains(Feature::Avx512f),
    {
        if set.contains(Feature::Vpclmulqdq) && set.contains(Feature::Avx512f) {
            Some(Vpclmulqdq512(()))
        } else {
            None
        }
    }

    /// Four independent carry-less multiplies, one per 128-bit lane (`vpclmulqdq`, 512-bit).
    pub fn clmul_u64x8<const IMM8: u32>(self, a: [u64; 8], b: [u64; 8]) -> (r: [u64; 8])
        ensures
            is_lane_clmul(r@, a@, b@, IMM8, 4),
    {
        let mut out = [0u64; 8];
        let sa = IMM8 & 1;
        let sb = (IMM8 >> 4) & 1;
        proof {
            lemma_half_selectors(IMM8);
        }
        let mut l: usize = 0;
        while l < 4
            invariant
                sa == IMM8 & 1,
                sb == (IMM8 >> 4u32) & 1,
                sa <= 1 && sb <= 1,
                l <= 4,
                is_lane_clmul(out@, a@, b@, IMM8, l as int),
            decreases 4 - l,
        {
            let p = clmul64_exec(a[2 * l + sa as usize], b[2 * l + sb as usize]);
            assert(p == lane_product(a@, b@, IMM8, l as int));
            out[2 * l] = p as u64;
            out[2 * l + 1] = (p >> 64) as u64;
            l += 1;
        }
        out
    }
}

} // verus!
