//! XOP (AMD Bulldozer, 2011): packed rotate `vprotd`. Token: [`Xop`].

use vstd::prelude::*;

use super::super::super::{Feature, FeatureSet};

verus! {

/// `x` rotated left by `k` bits (`k < 32`).
pub open spec fn rotl32(x: u32, k: u32) -> u32 {
    if k == 0 {
        x
    } else {
        (x << k) | (x >> (32 - k) as u32)
    }
}

/// Proof token: XOP available. Zero-sized, `Copy`.
#[derive(Debug, Clone, Copy)]
pub struct Xop(());

impl Xop {
    /// From a raw feature bitset (e.g. `x86::detect_features()`).
    pub fn from_features(set: FeatureSet) -> (r: Option<Self>)
        ensures
            r is Some <==> set@.contains(Feature::Xop),
    {
        if set.contains(Feature::Xop) {
            Some(Xop(()))
        } else {
            None
        }
    }

    /// Per-lane left rotate of `a` by `counts` (mod 32) (`vprotd`, variable form).
    pub fn rotl_u32x4(self, a: [u32; 4], counts: [u32; 4]) -> (r: [u32; 4])
        ensures
            forall|i: int| 0 <= i < 4 ==> r[i] == rotl32(a[i], counts[i] & 31u32),
    {
        let mut out = [0u32; 4];
        let mut i: usize = 0;
        while i < 4
            invariant
                i <= 4,
                forall|j: int| 0 <= j < i ==> out[j] == rotl32(a[j], counts[j] & 31u32),
            decreases 4 - i,
        {
            let c = counts[i];
            assert(c & 31u32 < 32u32) by (bit_vector);
            let k = c & 31;
            let x = a[i];
            out[i] = if k == 0 {
                x
            } else {
                (x << k) | (x >> (32 - k))
            };
            i += 1;
        }
        out
    }
}

} // verus!
