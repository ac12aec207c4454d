//! Mask construction from a lane count (`mask_between`): a k-mask with the low `n` bits set
//! (lanes `[0, n)` active), the shape a masked partial/tail load or store needs. Pure bit
//! arithmetic, token-gated so it only appears alongside the masked ops it feeds. See [`super`]
//! for feature gating.

use vstd::prelude::*;

use super::super::avx512bw::Avx512Bw;
use super::super::avx512dq::Avx512Dq;
use super::super::avx512f::Avx512f;
use super::super::super::super::feature_set::bit_set;
use super::lemma_low_masks;

verus! {

impl Avx512Dq {
    /// 8-bit mask with lanes `[0, n)` active (pairs with `Avx512Dq`'s mask8 ops).
    /// `n >= 8` returns all-ones (every lane active).
    pub fn mask_between_mask8(self, n: u32) -> (r: u8)
        ensures
            r == if n >= 8 { u8::MAX } else { ((1u8 << n) - 1) as u8 },
            forall|i: u64| i < 8 ==> (#[trigger] bit_set(r as u64, i) <==> i < n),
    {
        let r: u8 = if n >= 8 {
            u8::MAX
        } else {
            proof {
                lemma_low_masks(n, 0);
            }
            (1u8 << n) - 1
        };
        proof {
            assert forall|i: u64| i < 8 implies (#[trigger] bit_set(r as u64, i) <==> i < n) by {
                lemma_low_masks(n, i);
            }
        }
        r
    }
}

impl Avx512f {
    /// 16-bit mask with lanes `[0, n)` active (pairs with `Avx512f`'s mask16 ops).
    /// `n >= 16` returns all-ones (every lane active).
    pub fn mask_between_mask16(self, n: u32) -> (r: u16)
        ensures
            r == if n >= 16 { u16::MAX } else { ((1u16 << n) - 1) as u16 },
            forall|i: u64| i < 16 ==> (#[trigger] bit_set(r as u64, i) <==> i < n),
    {
        let r: u16 = if n >= 16 {
            u16::MAX
        } else {
            proof {
                lemma_low_masks(n, 0);
            }
            (1u16 << n) - 1
        };
        proof {
            assert forall|i: u64| i < 16 implies (#[trigger] bit_set(r as u64, i) <==> i < n) by {
                lemma_low_masks(n, i);
            }
        }
        r
    }
}

impl Avx512Bw {
    /// 32-bit mask with lanes `[0, n)` active (pairs with `Avx512Bw`'s mask32 ops).
    /// `n >= 32` returns all-ones (every lane active).
    pub fn mask_between_mask32(self, n: u32) -> (r: u32)
        ensures
            r == if n >= 32 { u32::MAX } else { ((1u32 << n) - 1) as u32 },
            forall|i: u64| i < 32 ==> (#[trigger] bit_set(r as u64, i) <==> i < n),
    {
        let r: u32 = if n >= 32 {
            u32::MAX
        } else {
            proof {
                lemma_low_masks(n, 0);
            }
            (1u32 << n) - 1
        };
        proof {
            assert forall|i: u64| i < 32 implies (#[trigger] bit_set(r as u64, i) <==> i < n) by {
                lemma_low_masks(n, i);
            }
        }
        r
    }
}

impl Avx512Bw {
    /// 64-bit mask with lanes `[0, n)` active (pairs with `Avx512Bw`'s mask64 ops).
    /// `n >= 64` returns all-ones (every lane active).
    pub fn mask_between_mask64(self, n: u32) -> (r: u64)
        ensures
            r == if n >= 64 { u64::MAX } else { ((1u64 << n) - 1) as u64 },
            forall|i: u64| i < 64 ==> (#[trigger] bit_set(r as u64, i) <==> i < n),
    {
        let r: u64 = if n >= 64 {
            u64::MAX
        } else {
            proof {
                lemma_low_masks(n, 0);
            }
            (1u64 << n) - 1
        };
        proof {
            assert forall|i: u64| i < 64 implies (#[trigger] bit_set(r as u64, i) <==> i < n) by {
                lemma_low_masks(n, i);
            }
        }
        r
    }
}

} // verus!
