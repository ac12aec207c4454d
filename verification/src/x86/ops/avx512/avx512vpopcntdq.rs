//! AVX512VPOPCNTDQ: 512-bit per-lane popcnt on `u32`/`u64`. Token: [`Avx512Vpopcntdq`].

use vstd::prelude::*;

use super::super::super::{Feature, FeatureSet};
use super::super::chunk::{loadu_u32x16, loadu_u64x8, storeu_u32x16, storeu_u64x8};
use super::super::other::popcnt::{popcount, popcount_u32, popcount_u64};

verus! {

/// Proof token: AVX512VPOPCNTDQ, 512-bit forms. Zero-sized, `Copy`.
#[derive(Debug, Clone, Copy)]
pub struct Avx512Vpopcntdq(());

impl Avx512Vpopcntdq {
    /// From a raw feature bitset (e.g. `x86::detect_features()`).
    pub fn from_features(set: FeatureSet) -> (r: Option<Self>)
        ensures
            r is Some <==> set@.contains(Feature::Avx512vpopcntdq),
    {
        if set.contains(Feature::Avx512vpopcntdq) {
            Some(Avx512Vpopcntdq(()))
        } else {
            None
        }
    }
}

impl Avx512Vpopcntdq {
    /// Per-lane population count (`vpopcntd`, 512-bit).
    pub fn popcnt_u32x16(self, a: [u32; 16]) -> (r: [u32; 16])
        ensures
            forall|i: int| 0 <= i < 16 ==> r[i] == popcount(a[i] as nat),
    {
        let mut out = [0u32; 16];
        let mut i: usize = 0;
        while i < 16
            invariant
                i <= 16,
                forall|j: int| 0 <= j < i ==> out[j] == popcount(a[j] as nat),
            decreases 16 - i,
        {
            out[i] = popcount_u32(a[i]);
            i += 1;
        }
        out
    }

    /// `out[i] = a[i].count_ones()`. 16-wide chunks, scalar remainder.
    pub fn popcnt_u32_slice(self, a: &[u32], out: &mut [u32])
        requires
            old(out)@.len() == a@.len(),
        ensures
            final(out)@.len() == a@.len(),
            forall|i: int| 0 <= i < a@.len() ==> final(out)@[i] == popcount(a@[i] as nat),
    {
        let len = a.len();
        let mut i: usize = 0;
        while len - i >= 16
            invariant
                i <= len,
                len == a@.len(),
                out@.len() == len,
                forall|j: int| 0 <= j < i ==> out@[j] == popcount(a@[j] as nat),
            decreases len - i,
        {
            let r = self.popcnt_u32x16(loadu_u32x16(a, i));
            storeu_u32x16(out, i, r);
            i += 16;
        }
        while i < len
            invariant
                i <= len,
                len == a@.len(),
                out@.len() == len,
                forall|j: int| 0 <= j < i ==> out@[j] == popcount(a@[j] as nat),
            decreases len - i,
        {
            out[i] = popcount_u32(a[i]);
            i += 1;
        }
    }

    /// Per-lane population count where `mask` bit is set, else copied from `src` (`vpopcntd`,
    /// merge-masked).
    pub fn popcnt_u32x16_merge_masked(self, src: [u32; 16], mask: u16, a: [u32; 16]) -> (r: [u32; 16])
        ensures
            forall|i: int|
                0 <= i < 16 ==> r[i] == if (mask >> i as u16) % 2 == 1 {
                    popcount(a[i] as nat) as u32
                } else {
                    src[i]
                },
    {
        let mut out = [0u32; 16];
        let mut i: usize = 0;
        while i < 16
            invariant
                i <= 16,
                forall|j: int|
                    0 <= j < i ==> out[j] == if (mask >> j as u16) % 2 == 1 {
                        popcount(a[j] as nat) as u32
                    } else {
                        src[j]
                    },
            decreases 16 - i,
        {
            out[i] = if (mask >> i as u16) % 2 == 1 {
                popcount_u32(a[i])
            } else {
                src[i]
            };
            i += 1;
        }
        out
    }

    /// Per-lane population count where `mask` bit is set, else zero (`vpopcntd`, zero-masked).
    pub fn popcnt_u32x16_zero_masked(self, mask: u16, a: [u32; 16]) -> (r: [u32; 16])
        ensures
            forall|i: int|
                0 <= i < 16 ==> r[i] == if (mask >> i as u16) % 2 == 1 {
                    popcount(a[i] as nat) as u32
                } else {
                    0
                },
    {
        self.popcnt_u32x16_merge_masked([0u32; 16], mask, a)
    }

    /// Per-lane population count (`vpopcntq`, 512-bit).
    pub fn popcnt_u64x8(self, a: [u64; 8]) -> (r: [u64; 8])
        ensures
            forall|i: int| 0 <= i < 8 ==> r[i] == popcount(a[i] as nat),
    {
        let mut out = [0u64; 8];
        let mut i: usize = 0;
        while i < 8
            invariant
                i <= 8,
                forall|j: int| 0 <= j < i ==> out[j] == popcount(a[j] as nat),
            decreases 8 - i,
        {
            out[i] = popcount_u64(a[i]);
            i += 1;
        }
        out
    }

    /// `out[i] = a[i].count_ones()`. 8-wide chunks, scalar remainder.
    pub fn popcnt_u64_slice(self, a: &[u64], out: &mut [u64])
        requires
            old(out)@.len() == a@.len(),
        ensures
            final(out)@.len() == a@.len(),
            forall|i: int| 0 <= i < a@.len() ==> final(out)@[i] == popcount(a@[i] as nat),
    {
        let len = a.len();
        let mut i: usize = 0;
        while len - i >= 8
            invariant
                i <= len,
                len == a@.len(),
                out@.len() == len,
                forall|j: int| 0 <= j < i ==> out@[j] == popcount(a@[j] as nat),
            decreases len - i,
        {
            let r = self.popcnt_u64x8(loadu_u64x8(a, i));
            storeu_u64x8(out, i, r);
            i += 8;
        }
        while i < len
            invariant
                i <= len,
                len == a@.len(),
                out@.len() == len,
                forall|j: int| 0 <= j < i ==> out@[j] == popcount(a@[j] as nat),
            decreases len - i,
        {
            out[i] = popcount_u64(a[i]);
            i += 1;
        }
    }

    /// Per-lane population count where `mask` bit is set, else copied from `src` (`vpopcntq`,
    /// merge-masked).
    pub fn popcnt_u64x8_merge_masked(self, src: [u64; 8], mask: u8, a: [u64; 8]) -> (r: [u64; 8])
        ensures
            forall|i: int|
                0 <= i < 8 ==> r[i] == if (mask >> i as u8) % 2 == 1 {
                    popcount(a[i] as nat) as u64
                } else {
                    src[i]
                },
    {
        let mut out = [0u64; 8];
        let mut i: usize = 0;
        while i < 8
            invariant
                i <= 8,
                forall|j: int|
                    0 <= j < i ==> out[j] == if (mask >> j as u8) % 2 == 1 {
                        popcount(a[j] as nat) as u64
                    } else {
                        src[j]
                    },
            decreases 8 - i,
        {
            out[i] = if (mask >> i as u8) % 2 == 1 {
                popcount_u64(a[i])
            } else {
                src[i]
            };
            i += 1;
        }
        out
    }

    /// Per-lane population count where `mask` bit is set, else zero (`vpopcntq`, zero-masked).
    pub fn popcnt_u64x8_zero_masked(self, mask: u8, a: [u64; 8]) -> (r: [u64; 8])
        ensures
            forall|i: int|
                0 <= i < 8 ==> r[i] == if (mask >> i as u8) % 2 == 1 {
                    popcount(a[i] as nat) as u64
                } else {
                    0
                },
    {
        self.popcnt_u64x8_merge_masked([0u64; 8], mask, a)
    }

}
} // verus!
