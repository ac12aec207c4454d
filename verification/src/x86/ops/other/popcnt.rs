//! POPCNT: scalar population count (no packed form on x86). Token: [`Popcnt`].

use vstd::prelude::*;

use super::super::super::{Feature, FeatureSet};

verus! {

/// Number of set bits in the binary representation of `x`.
pub open spec fn popcount(x: nat) -> nat
    decreases x,
{
    if x == 0 {
        0
    } else {
        x % 2 + popcount(x / 2)
    }
}

/// Shift facts behind the bit-by-bit count of a 32-bit word.
proof fn lemma_shift_steps_u32(x: u32, v: u32, i: u32, k: u32)
    by (bit_vector)
    ensures
        x >> 0u32 == x,
        x >> 32u32 == 0u32,
        v & 1u32 == v % 2u32,
        v >> 1u32 == v / 2u32,
        (i < 32u32 && k == i + 1u32) ==> (x >> i) >> 1u32 == x >> k,
{
}

/// Shift facts behind the bit-by-bit count of a 64-bit word.
proof fn lemma_shift_steps_u64(x: u64, v: u64, i: u64, k: u64)
    by (bit_vector)
    ensures
        x >> 0u64 == x,
        x >> 64u64 == 0u64,
        v & 1u64 == v % 2u64,
        v >> 1u64 == v / 2u64,
        (i < 64u64 && k == i + 1u64) ==> (x >> i) >> 1u64 == x >> k,
{
}

/// Number of set bits in a 32-bit word, one bit at a time.
pub(crate) fn popcount_u32(x: u32) -> (r: u32)
    ensures
        r == popcount(x as nat),
{
    let mut v = x;
    let mut c: u32 = 0;
    let mut i: u32 = 0;
    proof {
        lemma_shift_steps_u32(x, 0, 0, 0);
    }
    while i < 32
        invariant
            i <= 32,
            c <= i,
            v == x >> i,
            c + popcount(v as nat) == popcount(x as nat),
        decreases 32 - i,
    {
        proof {
            lemma_shift_steps_u32(x, v, i, (i + 1) as u32);
        }
        c = c + (v & 1);
        v = v >> 1;
        i += 1;
    }
    proof {
        lemma_shift_steps_u32(x, 0, 0, 0);
    }
    c
}

/// Number of set bits in a 64-bit word, one bit at a time.
pub(crate) fn popcount_u64(x: u64) -> (r: u64)
    ensures
        r == popcount(x as nat),
{
    let mut v = x;
    let mut c: u64 = 0;
    let mut i: u64 = 0;
    proof {
        lemma_shift_steps_u64(x, 0, 0, 0);
    }
    while i < 64
        invariant
            i <= 64,
            c <= i,
            v == x >> i,
            c + popcount(v as nat) == popcount(x as nat),
        decreases 64 - i,
    {
        proof {
            lemma_shift_steps_u64(x, v, i, (i + 1) as u64);
        }
        c = c + (v & 1);
        v = v >> 1;
        i += 1;
    }
    proof {
        lemma_shift_steps_u64(x, 0, 0, 0);
    }
    c
}

/// Proof token: POPCNT available. Zero-sized, `Copy`.
#[derive(Debug, Clone, Copy)]
pub struct Popcnt(());

impl Popcnt {
    /// From a raw feature bitset (e.g. `x86::detect_features()`).
    pub fn from_features(set: FeatureSet) -> (r: Option<Self>)
        ensures
            r is Some <==> set@.contains(Feature::Popcnt),
    {
        if set.contains(Feature::Popcnt) {
            Some(Popcnt(()))
        } else {
            None
        }
    }

    /// Number of set bits in `x` (`popcnt`, 32-bit form).
    pub fn popcnt_u32(self, x: u32) -> (r: u32)
        ensures
            r == popcount(x as nat),
    {
        popcount_u32(x)
    }

    /// Number of set bits in `x` (`popcnt`, 64-bit form).
    pub fn popcnt_u64(self, x: u64) -> (r: u64)
        ensures
            r == popcount(x as nat),
    {
        popcount_u64(x)
    }

    /// `out[i] = a[i].count_ones()`. No hardware SIMD popcount exists on x86 at any width (only
    /// the scalar form); plain per-element loop.
    ///
    /// # Panics
    /// `out.len() != a.len()`.
    pub fn popcnt_u32_slice(self, a: &[u32], out: &mut [u32])
        requires
            old(out)@.len() == a@.len(),
        ensures
            final(out)@.len() == a@.len(),
            forall|i: int| 0 <= i < a@.len() ==> final(out)@[i] == popcount(a@[i] as nat),
    {
        let len = a.len();
        let mut i: usize = 0;
        while i < len
            invariant
                i <= len,
                len == a@.len(),
                out@.len() == len,
                forall|j: int| 0 <= j < i ==> out@[j] == popcount(a@[j] as nat),
            decreases len - i,
        {
            out[i] = self.popcnt_u32(a[i]);
            i += 1;
        }
    }

    /// `out[i] = a[i].count_ones()` (as `u64`). Same no-SIMD-form limitation as
    /// [`Popcnt::popcnt_u32_slice`].
    ///
    /// # Panics
    /// `out.len() != a.len()`.
    pub fn popcnt_u64_slice(self, a: &[u64], out: &mut [u64])
        requires
            old(out)@.len() == a@.len(),
        ensures
            final(out)@.len() == a@.len(),
            forall|i: int| 0 <= i < a@.len() ==> final(out)@[i] == popcount(a@[i] as nat),
    {
        let len = a.len();
        let mut i: usize = 0;
        while i < len
            invariant
                i <= len,
                len == a@.len(),
                out@.len() == len,
                forall|j: int| 0 <= j < i ==> out@[j] == popcount(a@[j] as nat),
            decreases len - i,
        {
            out[i] = self.popcnt_u64(a[i]);
            i += 1;
        }
    }
}

} // verus!
