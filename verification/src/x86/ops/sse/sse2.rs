//! SSE2: XMM i32/u32/i64/u64 and i8/u8/i16/u16 lanes. x86-64 ABI baseline. Token: [`Sse2`].
//! Ordering compares (all widths, signed via native `pcmpgt`, unsigned via sign-bit flip),
//! composed min/max, `i64`/`u64` wrapping multiply from 32-bit halves, `i64` abs, and
//! byte-granularity shifts (no native 8-bit shift on x86).

use vstd::prelude::*;

use super::super::super::{Feature, FeatureSet};
use super::super::chunk::{
    loadu_i16x8, loadu_i32x4, loadu_i64x2, loadu_i8x16, loadu_u16x8, loadu_u32x4, loadu_u64x2,
    loadu_u8x16, storeu_i16x8, storeu_i32x4, storeu_i64x2, storeu_i8x16, storeu_u16x8, storeu_u32x4,
    storeu_u64x2, storeu_u8x16,
};
use super::super::lane_ops::{
    bias_u16x8, bias_u32x4, bias_u8x16, not_i16_in_place, not_i16x8, not_i32_in_place, not_i32x4,
    not_i8_in_place, not_i8x16, not_u16_in_place, not_u16x8, not_u32_in_place, not_u32x4,
    not_u8_in_place, not_u8x16, to_i64_lanes_u64x2, to_i8_lanes_u8x16, to_u16_lanes_i16x8,
    to_u32_lanes_i32x4, to_u64_lanes_i64x2, to_u8_lanes_i8x16,
};
use super::super::wide::{
    lemma_abs_sign_mask, lemma_mullo_halves, lemma_mullo_signed_view, wrapping_abs_i64,
};
use super::super::lanes::{
    lemma_blend_i32, lemma_blend_u32, lemma_mask_cast_i16, lemma_mask_cast_i32, lemma_mask_cast_i8,
    lemma_not_mask_i16, lemma_not_mask_i32, lemma_not_mask_i8, lemma_not_mask_u16,
    lemma_not_mask_u32, lemma_not_mask_u8, lemma_sign_flip_u16, lemma_sign_flip_u32,
    lemma_sign_flip_u8, mask_i16, mask_i32, mask_i8, mask_u16, mask_u32, mask_u8,
};

verus! {

/// Proof that SSE2 is available. Zero-sized, `Copy`.
///
/// Obtain via [`Sse2::from_features`], then call methods on the token. On x86_64, SSE2 is always part
/// of the ABI.
#[derive(Debug, Clone, Copy)]
pub struct Sse2(());

impl Sse2 {
    /// Build a token from a set you already have. `None` if `Feature::Sse2` is missing.
    pub fn from_features(set: FeatureSet) -> (r: Option<Self>)
        ensures
            r is Some <==> set@.contains(Feature::Sse2),
    {
        if set.contains(Feature::Sse2) {
            Some(Sse2(()))
        } else {
            None
        }
    }

    /// x86_64 ABI always has SSE2; no probe needed.
    pub(crate) fn assume_baseline() -> Self {
        Sse2(())
    }
}

// Bitwise lanes used by the composed min/max below (`pand`/`por`/`pandn`).
impl Sse2 {
    /// `a & b` per lane (`pand`).
    pub fn and_i32x4(self, a: [i32; 4], b: [i32; 4]) -> (r: [i32; 4])
        ensures
            forall|i: int| 0 <= i < 4 ==> r[i] == a[i] & b[i],
    {
        let mut out = [0i32; 4];
        let mut i: usize = 0;
        while i < 4
            invariant
                i <= 4,
                forall|j: int| 0 <= j < i ==> out[j] == a[j] & b[j],
            decreases 4 - i,
        {
            out[i] = a[i] & b[i];
            i += 1;
        }
        out
    }

    /// `a | b` per lane (`por`).
    pub fn or_i32x4(self, a: [i32; 4], b: [i32; 4]) -> (r: [i32; 4])
        ensures
            forall|i: int| 0 <= i < 4 ==> r[i] == a[i] | b[i],
    {
        let mut out = [0i32; 4];
        let mut i: usize = 0;
        while i < 4
            invariant
                i <= 4,
                forall|j: int| 0 <= j < i ==> out[j] == a[j] | b[j],
            decreases 4 - i,
        {
            out[i] = a[i] | b[i];
            i += 1;
        }
        out
    }

    /// `!a & b` per lane (`pandn`).
    pub fn andnot_i32x4(self, a: [i32; 4], b: [i32; 4]) -> (r: [i32; 4])
        ensures
            forall|i: int| 0 <= i < 4 ==> r[i] == !a[i] & b[i],
    {
        let mut out = [0i32; 4];
        let mut i: usize = 0;
        while i < 4
            invariant
                i <= 4,
                forall|j: int| 0 <= j < i ==> out[j] == !a[j] & b[j],
            decreases 4 - i,
        {
            out[i] = !a[i] & b[i];
            i += 1;
        }
        out
    }

    /// `a & b` per lane (`pand`).
    pub fn and_u32x4(self, a: [u32; 4], b: [u32; 4]) -> (r: [u32; 4])
        ensures
            forall|i: int| 0 <= i < 4 ==> r[i] == a[i] & b[i],
    {
        let mut out = [0u32; 4];
        let mut i: usize = 0;
        while i < 4
            invariant
                i <= 4,
                forall|j: int| 0 <= j < i ==> out[j] == a[j] & b[j],
            decreases 4 - i,
        {
            out[i] = a[i] & b[i];
            i += 1;
        }
        out
    }

    /// `a | b` per lane (`por`).
    pub fn or_u32x4(self, a: [u32; 4], b: [u32; 4]) -> (r: [u32; 4])
        ensures
            forall|i: int| 0 <= i < 4 ==> r[i] == a[i] | b[i],
    {
        let mut out = [0u32; 4];
        let mut i: usize = 0;
        while i < 4
            invariant
                i <= 4,
                forall|j: int| 0 <= j < i ==> out[j] == a[j] | b[j],
            decreases 4 - i,
        {
            out[i] = a[i] | b[i];
            i += 1;
        }
        out
    }

    /// `!a & b` per lane (`pandn`).
    pub fn andnot_u32x4(self, a: [u32; 4], b: [u32; 4]) -> (r: [u32; 4])
        ensures
            forall|i: int| 0 <= i < 4 ==> r[i] == !a[i] & b[i],
    {
        let mut out = [0u32; 4];
        let mut i: usize = 0;
        while i < 4
            invariant
                i <= 4,
                forall|j: int| 0 <= j < i ==> out[j] == !a[j] & b[j],
            decreases 4 - i,
        {
            out[i] = !a[i] & b[i];
            i += 1;
        }
        out
    }

}

// `i32` ordering compares.
impl Sse2 {
    /// Lane greater-than mask (all-1s if `a>b`, else 0).
    pub fn cmpgt_i32x4(self, a: [i32; 4], b: [i32; 4]) -> (r: [i32; 4])
        ensures
            forall|i: int| 0 <= i < 4 ==> r[i] == mask_i32(a[i] > b[i]),
    {
        let mut out = [0i32; 4];
        let mut i: usize = 0;
        while i < 4
            invariant
                i <= 4,
                forall|j: int| 0 <= j < i ==> out[j] == mask_i32(a[j] > b[j]),
            decreases 4 - i,
        {
            out[i] = if a[i] > b[i] { -1 } else { 0 };
            i += 1;
        }
        out
    }

    /// Lane less-than mask (all-1s if `a<b`): operand-swapped [`Self::cmpgt_i32x4`].
    pub fn cmplt_i32x4(self, a: [i32; 4], b: [i32; 4]) -> (r: [i32; 4])
        ensures
            forall|i: int| 0 <= i < 4 ==> r[i] == mask_i32(a[i] < b[i]),
    {
        self.cmpgt_i32x4(b, a)
    }

    /// Lane less-equal mask (all-1s if `a<=b`): bitwise NOT of [`Self::cmpgt_i32x4`].
    pub fn cmple_i32x4(self, a: [i32; 4], b: [i32; 4]) -> (r: [i32; 4])
        ensures
            forall|i: int| 0 <= i < 4 ==> r[i] == mask_i32(a[i] <= b[i]),
    {
        let r = not_i32x4(self.cmpgt_i32x4(a, b));
        assert forall|i: int| 0 <= i < 4 implies r[i] == mask_i32(a[i] <= b[i]) by {
            lemma_not_mask_i32(a[i] > b[i]);
        }
        r
    }

    /// Lane greater-equal mask (all-1s if `a>=b`): bitwise NOT of [`Self::cmplt_i32x4`].
    pub fn cmpge_i32x4(self, a: [i32; 4], b: [i32; 4]) -> (r: [i32; 4])
        ensures
            forall|i: int| 0 <= i < 4 ==> r[i] == mask_i32(a[i] >= b[i]),
    {
        let r = not_i32x4(self.cmplt_i32x4(a, b));
        assert forall|i: int| 0 <= i < 4 implies r[i] == mask_i32(a[i] >= b[i]) by {
            lemma_not_mask_i32(a[i] < b[i]);
        }
        r
    }

    /// `out[i] = all-1s if a[i]>b[i] else 0`. 4-wide chunks, scalar remainder.
    ///
    /// # Panics
    /// `a.len() != b.len() || out.len() != a.len()`.
    pub fn cmpgt_i32_slice(self, a: &[i32], b: &[i32], out: &mut [i32])
        requires
            a@.len() == b@.len(),
            old(out)@.len() == a@.len(),
        ensures
            final(out)@.len() == a@.len(),
            forall|i: int| 0 <= i < a@.len() ==> final(out)@[i] == mask_i32(a@[i] > b@[i]),
    {
        let len = a.len();
        let mut i: usize = 0;
        while len - i >= 4
            invariant
                i <= len,
                len == a@.len(),
                len == b@.len(),
                out@.len() == len,
                forall|j: int| 0 <= j < i ==> out@[j] == mask_i32(a@[j] > b@[j]),
            decreases len - i,
        {
            let r = self.cmpgt_i32x4(loadu_i32x4(a, i), loadu_i32x4(b, i));
            storeu_i32x4(out, i, r);
            i += 4;
        }
        while i < len
            invariant
                i <= len,
                len == a@.len(),
                len == b@.len(),
                out@.len() == len,
                forall|j: int| 0 <= j < i ==> out@[j] == mask_i32(a@[j] > b@[j]),
            decreases len - i,
        {
            out[i] = if a[i] > b[i] { -1 } else { 0 };
            i += 1;
        }
    }

    /// `out[i] = all-1s if a[i]<b[i] else 0`. Operand-swapped [`Self::cmpgt_i32_slice`].
    pub fn cmplt_i32_slice(self, a: &[i32], b: &[i32], out: &mut [i32])
        requires
            a@.len() == b@.len(),
            old(out)@.len() == a@.len(),
        ensures
            final(out)@.len() == a@.len(),
            forall|i: int| 0 <= i < a@.len() ==> final(out)@[i] == mask_i32(a@[i] < b@[i]),
    {
        self.cmpgt_i32_slice(b, a, out);
    }

    /// `out[i] = all-1s if a[i]<=b[i] else 0`. NOT of [`Self::cmpgt_i32_slice`].
    pub fn cmple_i32_slice(self, a: &[i32], b: &[i32], out: &mut [i32])
        requires
            a@.len() == b@.len(),
            old(out)@.len() == a@.len(),
        ensures
            final(out)@.len() == a@.len(),
            forall|i: int| 0 <= i < a@.len() ==> final(out)@[i] == mask_i32(a@[i] <= b@[i]),
    {
        self.cmpgt_i32_slice(a, b, out);
        not_i32_in_place(out);
        assert forall|i: int| 0 <= i < a@.len() implies out@[i] == mask_i32(a@[i] <= b@[i]) by {
            lemma_not_mask_i32(a@[i] > b@[i]);
        }
    }

    /// `out[i] = all-1s if a[i]>=b[i] else 0`. NOT of [`Self::cmplt_i32_slice`].
    pub fn cmpge_i32_slice(self, a: &[i32], b: &[i32], out: &mut [i32])
        requires
            a@.len() == b@.len(),
            old(out)@.len() == a@.len(),
        ensures
            final(out)@.len() == a@.len(),
            forall|i: int| 0 <= i < a@.len() ==> final(out)@[i] == mask_i32(a@[i] >= b@[i]),
    {
        self.cmplt_i32_slice(a, b, out);
        not_i32_in_place(out);
        assert forall|i: int| 0 <= i < a@.len() implies out@[i] == mask_i32(a@[i] >= b@[i]) by {
            lemma_not_mask_i32(a@[i] < b@[i]);
        }
    }

    /// Per-lane signed min: composed `cmpgt`+and/or/andnot (`(!gt & a) | (gt & b)`).
    pub fn min_i32x4(self, a: [i32; 4], b: [i32; 4]) -> (r: [i32; 4])
        ensures
            forall|i: int| 0 <= i < 4 ==> r[i] == (if a[i] <= b[i] { a[i] } else { b[i] }),
    {
        let gt = self.cmpgt_i32x4(a, b);
        let r = self.or_i32x4(self.andnot_i32x4(gt, a), self.and_i32x4(gt, b));
        assert forall|i: int| 0 <= i < 4 implies r[i] == (if a[i] <= b[i] { a[i] } else { b[i] }) by {
            lemma_blend_i32(a[i] > b[i], a[i], b[i]);
        }
        r
    }

    /// `out[i] = min(a[i], b[i])`. 4-wide chunks, scalar remainder.
    ///
    /// # Panics
    /// `a.len() != b.len() || out.len() != a.len()`.
    pub fn min_i32_slice(self, a: &[i32], b: &[i32], out: &mut [i32])
        requires
            a@.len() == b@.len(),
            old(out)@.len() == a@.len(),
        ensures
            final(out)@.len() == a@.len(),
            forall|i: int| 0 <= i < a@.len() ==> final(out)@[i] == (if a@[i] <= b@[i] { a@[i] } else { b@[i] }),
    {
        let len = a.len();
        let mut i: usize = 0;
        while len - i >= 4
            invariant
                i <= len,
                len == a@.len(),
                len == b@.len(),
                out@.len() == len,
                forall|j: int| 0 <= j < i ==> out@[j] == (if a@[j] <= b@[j] { a@[j] } else { b@[j] }),
            decreases len - i,
        {
            let r = self.min_i32x4(loadu_i32x4(a, i), loadu_i32x4(b, i));
            storeu_i32x4(out, i, r);
            i += 4;
        }
        while i < len
            invariant
                i <= len,
                len == a@.len(),
                len == b@.len(),
                out@.len() == len,
                forall|j: int| 0 <= j < i ==> out@[j] == (if a@[j] <= b@[j] { a@[j] } else { b@[j] }),
            decreases len - i,
        {
            out[i] = if a[i] <= b[i] { a[i] } else { b[i] };
            i += 1;
        }
    }

    /// Per-lane signed max: composed `cmpgt`+and/or/andnot (`(gt & a) | (!gt & b)`).
    pub fn max_i32x4(self, a: [i32; 4], b: [i32; 4]) -> (r: [i32; 4])
        ensures
            forall|i: int| 0 <= i < 4 ==> r[i] == (if a[i] >= b[i] { a[i] } else { b[i] }),
    {
        let gt = self.cmpgt_i32x4(a, b);
        let r = self.or_i32x4(self.and_i32x4(gt, a), self.andnot_i32x4(gt, b));
        assert forall|i: int| 0 <= i < 4 implies r[i] == (if a[i] >= b[i] { a[i] } else { b[i] }) by {
            lemma_blend_i32(a[i] > b[i], a[i], b[i]);
        }
        r
    }

    /// `out[i] = max(a[i], b[i])`. 4-wide chunks, scalar remainder.
    ///
    /// # Panics
    /// `a.len() != b.len() || out.len() != a.len()`.
    pub fn max_i32_slice(self, a: &[i32], b: &[i32], out: &mut [i32])
        requires
            a@.len() == b@.len(),
            old(out)@.len() == a@.len(),
        ensures
            final(out)@.len() == a@.len(),
            forall|i: int| 0 <= i < a@.len() ==> final(out)@[i] == (if a@[i] >= b@[i] { a@[i] } else { b@[i] }),
    {
        let len = a.len();
        let mut i: usize = 0;
        while len - i >= 4
            invariant
                i <= len,
                len == a@.len(),
                len == b@.len(),
                out@.len() == len,
                forall|j: int| 0 <= j < i ==> out@[j] == (if a@[j] >= b@[j] { a@[j] } else { b@[j] }),
            decreases len - i,
        {
            let r = self.max_i32x4(loadu_i32x4(a, i), loadu_i32x4(b, i));
            storeu_i32x4(out, i, r);
            i += 4;
        }
        while i < len
            invariant
                i <= len,
                len == a@.len(),
                len == b@.len(),
                out@.len() == len,
                forall|j: int| 0 <= j < i ==> out@[j] == (if a@[j] >= b@[j] { a@[j] } else { b@[j] }),
            decreases len - i,
        {
            out[i] = if a[i] >= b[i] { a[i] } else { b[i] };
            i += 1;
        }
    }

}

// `u32` ordering compares.
impl Sse2 {
    /// Unsigned greater-than mask (all-1s if `a>b`). Sign-bit flip + [`Self::cmpgt_i32x4`].
    pub fn cmpgt_u32x4(self, a: [u32; 4], b: [u32; 4]) -> (r: [u32; 4])
        ensures
            forall|i: int| 0 <= i < 4 ==> r[i] == mask_u32(a[i] > b[i]),
    {
        let ai = bias_u32x4(a);
        let bi = bias_u32x4(b);
        let r = to_u32_lanes_i32x4(self.cmpgt_i32x4(ai, bi));
        assert forall|i: int| 0 <= i < 4 implies r[i] == mask_u32(a[i] > b[i]) by {
            lemma_sign_flip_u32(a[i], b[i]);
            lemma_mask_cast_i32(ai[i] > bi[i]);
        }
        r
    }

    /// Lane less-than mask (all-1s if `a<b`): operand-swapped [`Self::cmpgt_u32x4`].
    pub fn cmplt_u32x4(self, a: [u32; 4], b: [u32; 4]) -> (r: [u32; 4])
        ensures
            forall|i: int| 0 <= i < 4 ==> r[i] == mask_u32(a[i] < b[i]),
    {
        self.cmpgt_u32x4(b, a)
    }

    /// Lane less-equal mask (all-1s if `a<=b`): bitwise NOT of [`Self::cmpgt_u32x4`].
    pub fn cmple_u32x4(self, a: [u32; 4], b: [u32; 4]) -> (r: [u32; 4])
        ensures
            forall|i: int| 0 <= i < 4 ==> r[i] == mask_u32(a[i] <= b[i]),
    {
        let r = not_u32x4(self.cmpgt_u32x4(a, b));
        assert forall|i: int| 0 <= i < 4 implies r[i] == mask_u32(a[i] <= b[i]) by {
            lemma_not_mask_u32(a[i] > b[i]);
        }
        r
    }

    /// Lane greater-equal mask (all-1s if `a>=b`): bitwise NOT of [`Self::cmplt_u32x4`].
    pub fn cmpge_u32x4(self, a: [u32; 4], b: [u32; 4]) -> (r: [u32; 4])
        ensures
            forall|i: int| 0 <= i < 4 ==> r[i] == mask_u32(a[i] >= b[i]),
    {
        let r = not_u32x4(self.cmplt_u32x4(a, b));
        assert forall|i: int| 0 <= i < 4 implies r[i] == mask_u32(a[i] >= b[i]) by {
            lemma_not_mask_u32(a[i] < b[i]);
        }
        r
    }

    /// `out[i] = all-1s if a[i]>b[i] else 0`. 4-wide chunks, scalar remainder.
    ///
    /// # Panics
    /// `a.len() != b.len() || out.len() != a.len()`.
    pub fn cmpgt_u32_slice(self, a: &[u32], b: &[u32], out: &mut [u32])
        requires
            a@.len() == b@.len(),
            old(out)@.len() == a@.len(),
        ensures
            final(out)@.len() == a@.len(),
            forall|i: int| 0 <= i < a@.len() ==> final(out)@[i] == mask_u32(a@[i] > b@[i]),
    {
        let len = a.len();
        let mut i: usize = 0;
        while len - i >= 4
            invariant
                i <= len,
                len == a@.len(),
                len == b@.len(),
                out@.len() == len,
                forall|j: int| 0 <= j < i ==> out@[j] == mask_u32(a@[j] > b@[j]),
            decreases len - i,
        {
            let r = self.cmpgt_u32x4(loadu_u32x4(a, i), loadu_u32x4(b, i));
            storeu_u32x4(out, i, r);
            i += 4;
        }
        while i < len
            invariant
                i <= len,
                len == a@.len(),
                len == b@.len(),
                out@.len() == len,
                forall|j: int| 0 <= j < i ==> out@[j] == mask_u32(a@[j] > b@[j]),
            decreases len - i,
        {
            out[i] = if a[i] > b[i] { u32::MAX } else { 0 };
            i += 1;
        }
    }

    /// `out[i] = all-1s if a[i]<b[i] else 0`. Operand-swapped [`Self::cmpgt_u32_slice`].
    pub fn cmplt_u32_slice(self, a: &[u32], b: &[u32], out: &mut [u32])
        requires
            a@.len() == b@.len(),
            old(out)@.len() == a@.len(),
        ensures
            final(out)@.len() == a@.len(),
            forall|i: int| 0 <= i < a@.len() ==> final(out)@[i] == mask_u32(a@[i] < b@[i]),
    {
        self.cmpgt_u32_slice(b, a, out);
    }

    /// `out[i] = all-1s if a[i]<=b[i] else 0`. NOT of [`Self::cmpgt_u32_slice`].
    pub fn cmple_u32_slice(self, a: &[u32], b: &[u32], out: &mut [u32])
        requires
            a@.len() == b@.len(),
            old(out)@.len() == a@.len(),
        ensures
            final(out)@.len() == a@.len(),
            forall|i: int| 0 <= i < a@.len() ==> final(out)@[i] == mask_u32(a@[i] <= b@[i]),
    {
        self.cmpgt_u32_slice(a, b, out);
        not_u32_in_place(out);
        assert forall|i: int| 0 <= i < a@.len() implies out@[i] == mask_u32(a@[i] <= b@[i]) by {
            lemma_not_mask_u32(a@[i] > b@[i]);
        }
    }

    /// `out[i] = all-1s if a[i]>=b[i] else 0`. NOT of [`Self::cmplt_u32_slice`].
    pub fn cmpge_u32_slice(self, a: &[u32], b: &[u32], out: &mut [u32])
        requires
            a@.len() == b@.len(),
            old(out)@.len() == a@.len(),
        ensures
            final(out)@.len() == a@.len(),
            forall|i: int| 0 <= i < a@.len() ==> final(out)@[i] == mask_u32(a@[i] >= b@[i]),
    {
        self.cmplt_u32_slice(a, b, out);
        not_u32_in_place(out);
        assert forall|i: int| 0 <= i < a@.len() implies out@[i] == mask_u32(a@[i] >= b@[i]) by {
            lemma_not_mask_u32(a@[i] < b@[i]);
        }
    }

    /// Per-lane unsigned min: composed `cmpgt`+and/or/andnot (`(!gt & a) | (gt & b)`).
    pub fn min_u32x4(self, a: [u32; 4], b: [u32; 4]) -> (r: [u32; 4])
        ensures
            forall|i: int| 0 <= i < 4 ==> r[i] == (if a[i] <= b[i] { a[i] } else { b[i] }),
    {
        let gt = self.cmpgt_u32x4(a, b);
        let r = self.or_u32x4(self.andnot_u32x4(gt, a), self.and_u32x4(gt, b));
        assert forall|i: int| 0 <= i < 4 implies r[i] == (if a[i] <= b[i] { a[i] } else { b[i] }) by {
            lemma_blend_u32(a[i] > b[i], a[i], b[i]);
        }
        r
    }

    /// `out[i] = min(a[i], b[i])`. 4-wide chunks, scalar remainder.
    ///
    /// # Panics
    /// `a.len() != b.len() || out.len() != a.len()`.
    pub fn min_u32_slice(self, a: &[u32], b: &[u32], out: &mut [u32])
        requires
            a@.len() == b@.len(),
            old(out)@.len() == a@.len(),
        ensures
            final(out)@.len() == a@.len(),
            forall|i: int| 0 <= i < a@.len() ==> final(out)@[i] == (if a@[i] <= b@[i] { a@[i] } else { b@[i] }),
    {
        let len = a.len();
        let mut i: usize = 0;
        while len - i >= 4
            invariant
                i <= len,
                len == a@.len(),
                len == b@.len(),
                out@.len() == len,
                forall|j: int| 0 <= j < i ==> out@[j] == (if a@[j] <= b@[j] { a@[j] } else { b@[j] }),
            decreases len - i,
        {
            let r = self.min_u32x4(loadu_u32x4(a, i), loadu_u32x4(b, i));
            storeu_u32x4(out, i, r);
            i += 4;
        }
        while i < len
            invariant
                i <= len,
                len == a@.len(),
                len == b@.len(),
                out@.len() == len,
                forall|j: int| 0 <= j < i ==> out@[j] == (if a@[j] <= b@[j] { a@[j] } else { b@[j] }),
            decreases len - i,
        {
            out[i] = if a[i] <= b[i] { a[i] } else { b[i] };
            i += 1;
        }
    }

    /// Per-lane unsigned max: composed `cmpgt`+and/or/andnot (`(gt & a) | (!gt & b)`).
    pub fn max_u32x4(self, a: [u32; 4], b: [u32; 4]) -> (r: [u32; 4])
        ensures
            forall|i: int| 0 <= i < 4 ==> r[i] == (if a[i] >= b[i] { a[i] } else { b[i] }),
    {
        let gt = self.cmpgt_u32x4(a, b);
        let r = self.or_u32x4(self.and_u32x4(gt, a), self.andnot_u32x4(gt, b));
        assert forall|i: int| 0 <= i < 4 implies r[i] == (if a[i] >= b[i] { a[i] } else { b[i] }) by {
            lemma_blend_u32(a[i] > b[i], a[i], b[i]);
        }
        r
    }

    /// `out[i] = max(a[i], b[i])`. 4-wide chunks, scalar remainder.
    ///
    /// # Panics
    /// `a.len() != b.len() || out.len() != a.len()`.
    pub fn max_u32_slice(self, a: &[u32], b: &[u32], out: &mut [u32])
        requires
            a@.len() == b@.len(),
            old(out)@.len() == a@.len(),
        ensures
            final(out)@.len() == a@.len(),
            forall|i: int| 0 <= i < a@.len() ==> final(out)@[i] == (if a@[i] >= b@[i] { a@[i] } else { b@[i] }),
    {
        let len = a.len();
        let mut i: usize = 0;
        while len - i >= 4
            invariant
                i <= len,
                len == a@.len(),
                len == b@.len(),
                out@.len() == len,
                forall|j: int| 0 <= j < i ==> out@[j] == (if a@[j] >= b@[j] { a@[j] } else { b@[j] }),
            decreases len - i,
        {
            let r = self.max_u32x4(loadu_u32x4(a, i), loadu_u32x4(b, i));
            storeu_u32x4(out, i, r);
            i += 4;
        }
        while i < len
            invariant
                i <= len,
                len == a@.len(),
                len == b@.len(),
                out@.len() == len,
                forall|j: int| 0 <= j < i ==> out@[j] == (if a@[j] >= b@[j] { a@[j] } else { b@[j] }),
            decreases len - i,
        {
            out[i] = if a[i] >= b[i] { a[i] } else { b[i] };
            i += 1;
        }
    }

}

// `i8` ordering compares.
impl Sse2 {
    /// Lane greater-than mask (all-1s if `a>b`, else 0).
    pub fn cmpgt_i8x16(self, a: [i8; 16], b: [i8; 16]) -> (r: [i8; 16])
        ensures
            forall|i: int| 0 <= i < 16 ==> r[i] == mask_i8(a[i] > b[i]),
    {
        let mut out = [0i8; 16];
        let mut i: usize = 0;
        while i < 16
            invariant
                i <= 16,
                forall|j: int| 0 <= j < i ==> out[j] == mask_i8(a[j] > b[j]),
            decreases 16 - i,
        {
            out[i] = if a[i] > b[i] { -1 } else { 0 };
            i += 1;
        }
        out
    }

    /// Lane less-than mask (all-1s if `a<b`): operand-swapped [`Self::cmpgt_i8x16`].
    pub fn cmplt_i8x16(self, a: [i8; 16], b: [i8; 16]) -> (r: [i8; 16])
        ensures
            forall|i: int| 0 <= i < 16 ==> r[i] == mask_i8(a[i] < b[i]),
    {
        self.cmpgt_i8x16(b, a)
    }

    /// Lane less-equal mask (all-1s if `a<=b`): bitwise NOT of [`Self::cmpgt_i8x16`].
    pub fn cmple_i8x16(self, a: [i8; 16], b: [i8; 16]) -> (r: [i8; 16])
        ensures
            forall|i: int| 0 <= i < 16 ==> r[i] == mask_i8(a[i] <= b[i]),
    {
        let r = not_i8x16(self.cmpgt_i8x16(a, b));
        assert forall|i: int| 0 <= i < 16 implies r[i] == mask_i8(a[i] <= b[i]) by {
            lemma_not_mask_i8(a[i] > b[i]);
        }
        r
    }

    /// Lane greater-equal mask (all-1s if `a>=b`): bitwise NOT of [`Self::cmplt_i8x16`].
    pub fn cmpge_i8x16(self, a: [i8; 16], b: [i8; 16]) -> (r: [i8; 16])
        ensures
            forall|i: int| 0 <= i < 16 ==> r[i] == mask_i8(a[i] >= b[i]),
    {
        let r = not_i8x16(self.cmplt_i8x16(a, b));
        assert forall|i: int| 0 <= i < 16 implies r[i] == mask_i8(a[i] >= b[i]) by {
            lemma_not_mask_i8(a[i] < b[i]);
        }
        r
    }

    /// `out[i] = all-1s if a[i]>b[i] else 0`. 16-wide chunks, scalar remainder.
    ///
    /// # Panics
    /// `a.len() != b.len() || out.len() != a.len()`.
    pub fn cmpgt_i8_slice(self, a: &[i8], b: &[i8], out: &mut [i8])
        requires
            a@.len() == b@.len(),
            old(out)@.len() == a@.len(),
        ensures
            final(out)@.len() == a@.len(),
            forall|i: int| 0 <= i < a@.len() ==> final(out)@[i] == mask_i8(a@[i] > b@[i]),
    {
        let len = a.len();
        let mut i: usize = 0;
        while len - i >= 16
            invariant
                i <= len,
                len == a@.len(),
                len == b@.len(),
                out@.len() == len,
                forall|j: int| 0 <= j < i ==> out@[j] == mask_i8(a@[j] > b@[j]),
            decreases len - i,
        {
            let r = self.cmpgt_i8x16(loadu_i8x16(a, i), loadu_i8x16(b, i));
            storeu_i8x16(out, i, r);
            i += 16;
        }
        while i < len
            invariant
                i <= len,
                len == a@.len(),
                len == b@.len(),
                out@.len() == len,
                forall|j: int| 0 <= j < i ==> out@[j] == mask_i8(a@[j] > b@[j]),
            decreases len - i,
        {
            out[i] = if a[i] > b[i] { -1 } else { 0 };
            i += 1;
        }
    }

    /// `out[i] = all-1s if a[i]<b[i] else 0`. Operand-swapped [`Self::cmpgt_i8_slice`].
    pub fn cmplt_i8_slice(self, a: &[i8], b: &[i8], out: &mut [i8])
        requires
            a@.len() == b@.len(),
            old(out)@.len() == a@.len(),
        ensures
            final(out)@.len() == a@.len(),
            forall|i: int| 0 <= i < a@.len() ==> final(out)@[i] == mask_i8(a@[i] < b@[i]),
    {
        self.cmpgt_i8_slice(b, a, out);
    }

    /// `out[i] = all-1s if a[i]<=b[i] else 0`. NOT of [`Self::cmpgt_i8_slice`].
    pub fn cmple_i8_slice(self, a: &[i8], b: &[i8], out: &mut [i8])
        requires
            a@.len() == b@.len(),
            old(out)@.len() == a@.len(),
        ensures
            final(out)@.len() == a@.len(),
            forall|i: int| 0 <= i < a@.len() ==> final(out)@[i] == mask_i8(a@[i] <= b@[i]),
    {
        self.cmpgt_i8_slice(a, b, out);
        not_i8_in_place(out);
        assert forall|i: int| 0 <= i < a@.len() implies out@[i] == mask_i8(a@[i] <= b@[i]) by {
            lemma_not_mask_i8(a@[i] > b@[i]);
        }
    }

    /// `out[i] = all-1s if a[i]>=b[i] else 0`. NOT of [`Self::cmplt_i8_slice`].
    pub fn cmpge_i8_slice(self, a: &[i8], b: &[i8], out: &mut [i8])
        requires
            a@.len() == b@.len(),
            old(out)@.len() == a@.len(),
        ensures
            final(out)@.len() == a@.len(),
            forall|i: int| 0 <= i < a@.len() ==> final(out)@[i] == mask_i8(a@[i] >= b@[i]),
    {
        self.cmplt_i8_slice(a, b, out);
        not_i8_in_place(out);
        assert forall|i: int| 0 <= i < a@.len() implies out@[i] == mask_i8(a@[i] >= b@[i]) by {
            lemma_not_mask_i8(a@[i] < b@[i]);
        }
    }

}

// `u8` ordering compares.
impl Sse2 {
    /// Unsigned greater-than mask (all-1s if `a>b`). Sign-bit flip + [`Self::cmpgt_i8x16`].
    pub fn cmpgt_u8x16(self, a: [u8; 16], b: [u8; 16]) -> (r: [u8; 16])
        ensures
            forall|i: int| 0 <= i < 16 ==> r[i] == mask_u8(a[i] > b[i]),
    {
        let ai = bias_u8x16(a);
        let bi = bias_u8x16(b);
        let r = to_u8_lanes_i8x16(self.cmpgt_i8x16(ai, bi));
        assert forall|i: int| 0 <= i < 16 implies r[i] == mask_u8(a[i] > b[i]) by {
            lemma_sign_flip_u8(a[i], b[i]);
            lemma_mask_cast_i8(ai[i] > bi[i]);
        }
        r
    }

    /// Lane less-than mask (all-1s if `a<b`): operand-swapped [`Self::cmpgt_u8x16`].
    pub fn cmplt_u8x16(self, a: [u8; 16], b: [u8; 16]) -> (r: [u8; 16])
        ensures
            forall|i: int| 0 <= i < 16 ==> r[i] == mask_u8(a[i] < b[i]),
    {
        self.cmpgt_u8x16(b, a)
    }

    /// Lane less-equal mask (all-1s if `a<=b`): bitwise NOT of [`Self::cmpgt_u8x16`].
    pub fn cmple_u8x16(self, a: [u8; 16], b: [u8; 16]) -> (r: [u8; 16])
        ensures
            forall|i: int| 0 <= i < 16 ==> r[i] == mask_u8(a[i] <= b[i]),
    {
        let r = not_u8x16(self.cmpgt_u8x16(a, b));
        assert forall|i: int| 0 <= i < 16 implies r[i] == mask_u8(a[i] <= b[i]) by {
            lemma_not_mask_u8(a[i] > b[i]);
        }
        r
    }

    /// Lane greater-equal mask (all-1s if `a>=b`): bitwise NOT of [`Self::cmplt_u8x16`].
    pub fn cmpge_u8x16(self, a: [u8; 16], b: [u8; 16]) -> (r: [u8; 16])
        ensures
            forall|i: int| 0 <= i < 16 ==> r[i] == mask_u8(a[i] >= b[i]),
    {
        let r = not_u8x16(self.cmplt_u8x16(a, b));
        assert forall|i: int| 0 <= i < 16 implies r[i] == mask_u8(a[i] >= b[i]) by {
            lemma_not_mask_u8(a[i] < b[i]);
        }
        r
    }

    /// `out[i] = all-1s if a[i]>b[i] else 0`. 16-wide chunks, scalar remainder.
    ///
    /// # Panics
    /// `a.len() != b.len() || out.len() != a.len()`.
    pub fn cmpgt_u8_slice(self, a: &[u8], b: &[u8], out: &mut [u8])
        requires
            a@.len() == b@.len(),
            old(out)@.len() == a@.len(),
        ensures
            final(out)@.len() == a@.len(),
            forall|i: int| 0 <= i < a@.len() ==> final(out)@[i] == mask_u8(a@[i] > b@[i]),
    {
        let len = a.len();
        let mut i: usize = 0;
        while len - i >= 16
            invariant
                i <= len,
                len == a@.len(),
                len == b@.len(),
                out@.len() == len,
                forall|j: int| 0 <= j < i ==> out@[j] == mask_u8(a@[j] > b@[j]),
            decreases len - i,
        {
            let r = self.cmpgt_u8x16(loadu_u8x16(a, i), loadu_u8x16(b, i));
            storeu_u8x16(out, i, r);
            i += 16;
        }
        while i < len
            invariant
                i <= len,
                len == a@.len(),
                len == b@.len(),
                out@.len() == len,
                forall|j: int| 0 <= j < i ==> out@[j] == mask_u8(a@[j] > b@[j]),
            decreases len - i,
        {
            out[i] = if a[i] > b[i] { u8::MAX } else { 0 };
            i += 1;
        }
    }

    /// `out[i] = all-1s if a[i]<b[i] else 0`. Operand-swapped [`Self::cmpgt_u8_slice`].
    pub fn cmplt_u8_slice(self, a: &[u8], b: &[u8], out: &mut [u8])
        requires
            a@.len() == b@.len(),
            old(out)@.len() == a@.len(),
        ensures
            final(out)@.len() == a@.len(),
            forall|i: int| 0 <= i < a@.len() ==> final(out)@[i] == mask_u8(a@[i] < b@[i]),
    {
        self.cmpgt_u8_slice(b, a, out);
    }

    /// `out[i] = all-1s if a[i]<=b[i] else 0`. NOT of [`Self::cmpgt_u8_slice`].
    pub fn cmple_u8_slice(self, a: &[u8], b: &[u8], out: &mut [u8])
        requires
            a@.len() == b@.len(),
            old(out)@.len() == a@.len(),
        ensures
            final(out)@.len() == a@.len(),
            forall|i: int| 0 <= i < a@.len() ==> final(out)@[i] == mask_u8(a@[i] <= b@[i]),
    {
        self.cmpgt_u8_slice(a, b, out);
        not_u8_in_place(out);
        assert forall|i: int| 0 <= i < a@.len() implies out@[i] == mask_u8(a@[i] <= b@[i]) by {
            lemma_not_mask_u8(a@[i] > b@[i]);
        }
    }

    /// `out[i] = all-1s if a[i]>=b[i] else 0`. NOT of [`Self::cmplt_u8_slice`].
    pub fn cmpge_u8_slice(self, a: &[u8], b: &[u8], out: &mut [u8])
        requires
            a@.len() == b@.len(),
            old(out)@.len() == a@.len(),
        ensures
            final(out)@.len() == a@.len(),
            forall|i: int| 0 <= i < a@.len() ==> final(out)@[i] == mask_u8(a@[i] >= b@[i]),
    {
        self.cmplt_u8_slice(a, b, out);
        not_u8_in_place(out);
        assert forall|i: int| 0 <= i < a@.len() implies out@[i] == mask_u8(a@[i] >= b@[i]) by {
            lemma_not_mask_u8(a@[i] < b@[i]);
        }
    }

}

// `i16` ordering compares.
impl Sse2 {
    /// Lane greater-than mask (all-1s if `a>b`, else 0).
    pub fn cmpgt_i16x8(self, a: [i16; 8], b: [i16; 8]) -> (r: [i16; 8])
        ensures
            forall|i: int| 0 <= i < 8 ==> r[i] == mask_i16(a[i] > b[i]),
    {
        let mut out = [0i16; 8];
        let mut i: usize = 0;
        while i < 8
            invariant
                i <= 8,
                forall|j: int| 0 <= j < i ==> out[j] == mask_i16(a[j] > b[j]),
            decreases 8 - i,
        {
            out[i] = if a[i] > b[i] { -1 } else { 0 };
            i += 1;
        }
        out
    }

    /// Lane less-than mask (all-1s if `a<b`): operand-swapped [`Self::cmpgt_i16x8`].
    pub fn cmplt_i16x8(self, a: [i16; 8], b: [i16; 8]) -> (r: [i16; 8])
        ensures
            forall|i: int| 0 <= i < 8 ==> r[i] == mask_i16(a[i] < b[i]),
    {
        self.cmpgt_i16x8(b, a)
    }

    /// Lane less-equal mask (all-1s if `a<=b`): bitwise NOT of [`Self::cmpgt_i16x8`].
    pub fn cmple_i16x8(self, a: [i16; 8], b: [i16; 8]) -> (r: [i16; 8])
        ensures
            forall|i: int| 0 <= i < 8 ==> r[i] == mask_i16(a[i] <= b[i]),
    {
        let r = not_i16x8(self.cmpgt_i16x8(a, b));
        assert forall|i: int| 0 <= i < 8 implies r[i] == mask_i16(a[i] <= b[i]) by {
            lemma_not_mask_i16(a[i] > b[i]);
        }
        r
    }

    /// Lane greater-equal mask (all-1s if `a>=b`): bitwise NOT of [`Self::cmplt_i16x8`].
    pub fn cmpge_i16x8(self, a: [i16; 8], b: [i16; 8]) -> (r: [i16; 8])
        ensures
            forall|i: int| 0 <= i < 8 ==> r[i] == mask_i16(a[i] >= b[i]),
    {
        let r = not_i16x8(self.cmplt_i16x8(a, b));
        assert forall|i: int| 0 <= i < 8 implies r[i] == mask_i16(a[i] >= b[i]) by {
            lemma_not_mask_i16(a[i] < b[i]);
        }
        r
    }

    /// `out[i] = all-1s if a[i]>b[i] else 0`. 8-wide chunks, scalar remainder.
    ///
    /// # Panics
    /// `a.len() != b.len() || out.len() != a.len()`.
    pub fn cmpgt_i16_slice(self, a: &[i16], b: &[i16], out: &mut [i16])
        requires
            a@.len() == b@.len(),
            old(out)@.len() == a@.len(),
        ensures
            final(out)@.len() == a@.len(),
            forall|i: int| 0 <= i < a@.len() ==> final(out)@[i] == mask_i16(a@[i] > b@[i]),
    {
        let len = a.len();
        let mut i: usize = 0;
        while len - i >= 8
            invariant
                i <= len,
                len == a@.len(),
                len == b@.len(),
                out@.len() == len,
                forall|j: int| 0 <= j < i ==> out@[j] == mask_i16(a@[j] > b@[j]),
            decreases len - i,
        {
            let r = self.cmpgt_i16x8(loadu_i16x8(a, i), loadu_i16x8(b, i));
            storeu_i16x8(out, i, r);
            i += 8;
        }
        while i < len
            invariant
                i <= len,
                len == a@.len(),
                len == b@.len(),
                out@.len() == len,
                forall|j: int| 0 <= j < i ==> out@[j] == mask_i16(a@[j] > b@[j]),
            decreases len - i,
        {
            out[i] = if a[i] > b[i] { -1 } else { 0 };
            i += 1;
        }
    }

    /// `out[i] = all-1s if a[i]<b[i] else 0`. Operand-swapped [`Self::cmpgt_i16_slice`].
    pub fn cmplt_i16_slice(self, a: &[i16], b: &[i16], out: &mut [i16])
        requires
            a@.len() == b@.len(),
            old(out)@.len() == a@.len(),
        ensures
            final(out)@.len() == a@.len(),
            forall|i: int| 0 <= i < a@.len() ==> final(out)@[i] == mask_i16(a@[i] < b@[i]),
    {
        self.cmpgt_i16_slice(b, a, out);
    }

    /// `out[i] = all-1s if a[i]<=b[i] else 0`. NOT of [`Self::cmpgt_i16_slice`].
    pub fn cmple_i16_slice(self, a: &[i16], b: &[i16], out: &mut [i16])
        requires
            a@.len() == b@.len(),
            old(out)@.len() == a@.len(),
        ensures
            final(out)@.len() == a@.len(),
            forall|i: int| 0 <= i < a@.len() ==> final(out)@[i] == mask_i16(a@[i] <= b@[i]),
    {
        self.cmpgt_i16_slice(a, b, out);
        not_i16_in_place(out);
        assert forall|i: int| 0 <= i < a@.len() implies out@[i] == mask_i16(a@[i] <= b@[i]) by {
            lemma_not_mask_i16(a@[i] > b@[i]);
        }
    }

    /// `out[i] = all-1s if a[i]>=b[i] else 0`. NOT of [`Self::cmplt_i16_slice`].
    pub fn cmpge_i16_slice(self, a: &[i16], b: &[i16], out: &mut [i16])
        requires
            a@.len() == b@.len(),
            old(out)@.len() == a@.len(),
        ensures
            final(out)@.len() == a@.len(),
            forall|i: int| 0 <= i < a@.len() ==> final(out)@[i] == mask_i16(a@[i] >= b@[i]),
    {
        self.cmplt_i16_slice(a, b, out);
        not_i16_in_place(out);
        assert forall|i: int| 0 <= i < a@.len() implies out@[i] == mask_i16(a@[i] >= b@[i]) by {
            lemma_not_mask_i16(a@[i] < b@[i]);
        }
    }

}

// `u16` ordering compares.
impl Sse2 {
    /// Unsigned greater-than mask (all-1s if `a>b`). Sign-bit flip + [`Self::cmpgt_i16x8`].
    pub fn cmpgt_u16x8(self, a: [u16; 8], b: [u16; 8]) -> (r: [u16; 8])
        ensures
            forall|i: int| 0 <= i < 8 ==> r[i] == mask_u16(a[i] > b[i]),
    {
        let ai = bias_u16x8(a);
        let bi = bias_u16x8(b);
        let r = to_u16_lanes_i16x8(self.cmpgt_i16x8(ai, bi));
        assert forall|i: int| 0 <= i < 8 implies r[i] == mask_u16(a[i] > b[i]) by {
            lemma_sign_flip_u16(a[i], b[i]);
            lemma_mask_cast_i16(ai[i] > bi[i]);
        }
        r
    }

    /// Lane less-than mask (all-1s if `a<b`): operand-swapped [`Self::cmpgt_u16x8`].
    pub fn cmplt_u16x8(self, a: [u16; 8], b: [u16; 8]) -> (r: [u16; 8])
        ensures
            forall|i: int| 0 <= i < 8 ==> r[i] == mask_u16(a[i] < b[i]),
    {
        self.cmpgt_u16x8(b, a)
    }

    /// Lane less-equal mask (all-1s if `a<=b`): bitwise NOT of [`Self::cmpgt_u16x8`].
    pub fn cmple_u16x8(self, a: [u16; 8], b: [u16; 8]) -> (r: [u16; 8])
        ensures
            forall|i: int| 0 <= i < 8 ==> r[i] == mask_u16(a[i] <= b[i]),
    {
        let r = not_u16x8(self.cmpgt_u16x8(a, b));
        assert forall|i: int| 0 <= i < 8 implies r[i] == mask_u16(a[i] <= b[i]) by {
            lemma_not_mask_u16(a[i] > b[i]);
        }
        r
    }

    /// Lane greater-equal mask (all-1s if `a>=b`): bitwise NOT of [`Self::cmplt_u16x8`].
    pub fn cmpge_u16x8(self, a: [u16; 8], b: [u16; 8]) -> (r: [u16; 8])
        ensures
            forall|i: int| 0 <= i < 8 ==> r[i] == mask_u16(a[i] >= b[i]),
    {
        let r = not_u16x8(self.cmplt_u16x8(a, b));
        assert forall|i: int| 0 <= i < 8 implies r[i] == mask_u16(a[i] >= b[i]) by {
            lemma_not_mask_u16(a[i] < b[i]);
        }
        r
    }

    /// `out[i] = all-1s if a[i]>b[i] else 0`. 8-wide chunks, scalar remainder.
    ///
    /// # Panics
    /// `a.len() != b.len() || out.len() != a.len()`.
    pub fn cmpgt_u16_slice(self, a: &[u16], b: &[u16], out: &mut [u16])
        requires
            a@.len() == b@.len(),
            old(out)@.len() == a@.len(),
        ensures
            final(out)@.len() == a@.len(),
            forall|i: int| 0 <= i < a@.len() ==> final(out)@[i] == mask_u16(a@[i] > b@[i]),
    {
        let len = a.len();
        let mut i: usize = 0;
        while len - i >= 8
            invariant
                i <= len,
                len == a@.len(),
                len == b@.len(),
                out@.len() == len,
                forall|j: int| 0 <= j < i ==> out@[j] == mask_u16(a@[j] > b@[j]),
            decreases len - i,
        {
            let r = self.cmpgt_u16x8(loadu_u16x8(a, i), loadu_u16x8(b, i));
            storeu_u16x8(out, i, r);
            i += 8;
        }
        while i < len
            invariant
                i <= len,
                len == a@.len(),
                len == b@.len(),
                out@.len() == len,
                forall|j: int| 0 <= j < i ==> out@[j] == mask_u16(a@[j] > b@[j]),
            decreases len - i,
        {
            out[i] = if a[i] > b[i] { u16::MAX } else { 0 };
            i += 1;
        }
    }

    /// `out[i] = all-1s if a[i]<b[i] else 0`. Operand-swapped [`Self::cmpgt_u16_slice`].
    pub fn cmplt_u16_slice(self, a: &[u16], b: &[u16], out: &mut [u16])
        requires
            a@.len() == b@.len(),
            old(out)@.len() == a@.len(),
        ensures
            final(out)@.len() == a@.len(),
            forall|i: int| 0 <= i < a@.len() ==> final(out)@[i] == mask_u16(a@[i] < b@[i]),
    {
        self.cmpgt_u16_slice(b, a, out);
    }

    /// `out[i] = all-1s if a[i]<=b[i] else 0`. NOT of [`Self::cmpgt_u16_slice`].
    pub fn cmple_u16_slice(self, a: &[u16], b: &[u16], out: &mut [u16])
        requires
            a@.len() == b@.len(),
            old(out)@.len() == a@.len(),
        ensures
            final(out)@.len() == a@.len(),
            forall|i: int| 0 <= i < a@.len() ==> final(out)@[i] == mask_u16(a@[i] <= b@[i]),
    {
        self.cmpgt_u16_slice(a, b, out);
        not_u16_in_place(out);
        assert forall|i: int| 0 <= i < a@.len() implies out@[i] == mask_u16(a@[i] <= b@[i]) by {
            lemma_not_mask_u16(a@[i] > b@[i]);
        }
    }

    /// `out[i] = all-1s if a[i]>=b[i] else 0`. NOT of [`Self::cmplt_u16_slice`].
    pub fn cmpge_u16_slice(self, a: &[u16], b: &[u16], out: &mut [u16])
        requires
            a@.len() == b@.len(),
            old(out)@.len() == a@.len(),
        ensures
            final(out)@.len() == a@.len(),
            forall|i: int| 0 <= i < a@.len() ==> final(out)@[i] == mask_u16(a@[i] >= b@[i]),
    {
        self.cmplt_u16_slice(a, b, out);
        not_u16_in_place(out);
        assert forall|i: int| 0 <= i < a@.len() implies out@[i] == mask_u16(a@[i] >= b@[i]) by {
            lemma_not_mask_u16(a@[i] < b@[i]);
        }
    }

}

// `i64`/`u64` wrapping multiply from 32-bit halves (no native 64x64->64 multiply below
// AVX-512DQ), and branchless `i64` abs (no native 64-bit arithmetic shift below AVX-512).
impl Sse2 {
    /// Per-lane low-64-bit multiply, wrapping: schoolbook decomposition into 32-bit half-lane
    /// products (`pmuludq`+shifts+adds).
    pub fn mullo_u64x2(self, a: [u64; 2], b: [u64; 2]) -> (r: [u64; 2])
        ensures
            forall|i: int| 0 <= i < 2 ==> r[i] == a[i].wrapping_mul(b[i]),
    {
        let mut out = [0u64; 2];
        let mut i: usize = 0;
        while i < 2
            invariant
                i <= 2,
                forall|j: int| 0 <= j < i ==> out[j] == a[j].wrapping_mul(b[j]),
            decreases 2 - i,
        {
            let x = a[i];
            let y = b[i];
            proof {
                lemma_mullo_halves(x, y);
            }
            let xl = x & 0xffff_ffffu64;
            let xh = x >> 32u64;
            let yl = y & 0xffff_ffffu64;
            let yh = y >> 32u64;
            let low = xl * yl;
            let cross = (xh * yl).wrapping_add(xl * yh);
            out[i] = low.wrapping_add(cross << 32u64);
            i += 1;
        }
        out
    }

    /// `out[i] = a[i].wrapping_mul(b[i])`. 2-wide chunks, scalar remainder.
    ///
    /// # Panics
    /// `a.len() != b.len() || out.len() != a.len()`.
    pub fn mullo_u64_slice(self, a: &[u64], b: &[u64], out: &mut [u64])
        requires
            a@.len() == b@.len(),
            old(out)@.len() == a@.len(),
        ensures
            final(out)@.len() == a@.len(),
            forall|i: int| 0 <= i < a@.len() ==> final(out)@[i] == a@[i].wrapping_mul(b@[i]),
    {
        let len = a.len();
        let mut i: usize = 0;
        while len - i >= 2
            invariant
                i <= len,
                len == a@.len(),
                len == b@.len(),
                out@.len() == len,
                forall|j: int| 0 <= j < i ==> out@[j] == a@[j].wrapping_mul(b@[j]),
            decreases len - i,
        {
            let r = self.mullo_u64x2(loadu_u64x2(a, i), loadu_u64x2(b, i));
            storeu_u64x2(out, i, r);
            i += 2;
        }
        while i < len
            invariant
                i <= len,
                len == a@.len(),
                len == b@.len(),
                out@.len() == len,
                forall|j: int| 0 <= j < i ==> out@[j] == a@[j].wrapping_mul(b@[j]),
            decreases len - i,
        {
            out[i] = a[i].wrapping_mul(b[i]);
            i += 1;
        }
    }

    /// Signed view of [`mullo_u64x2`](Self::mullo_u64x2): wrapping low-64 multiply is
    /// bit-identical for signed and unsigned operands.
    pub fn mullo_i64x2(self, a: [i64; 2], b: [i64; 2]) -> (r: [i64; 2])
        ensures
            forall|i: int| 0 <= i < 2 ==> r[i] == a[i].wrapping_mul(b[i]),
    {
        let au = to_u64_lanes_i64x2(a);
        let bu = to_u64_lanes_i64x2(b);
        let r = to_i64_lanes_u64x2(self.mullo_u64x2(au, bu));
        assert forall|i: int| 0 <= i < 2 implies r[i] == a[i].wrapping_mul(b[i]) by {
            lemma_mullo_signed_view(a[i], b[i]);
        }
        r
    }

    /// `out[i] = a[i].wrapping_mul(b[i])`. 2-wide chunks, scalar remainder.
    ///
    /// # Panics
    /// `a.len() != b.len() || out.len() != a.len()`.
    pub fn mullo_i64_slice(self, a: &[i64], b: &[i64], out: &mut [i64])
        requires
            a@.len() == b@.len(),
            old(out)@.len() == a@.len(),
        ensures
            final(out)@.len() == a@.len(),
            forall|i: int| 0 <= i < a@.len() ==> final(out)@[i] == a@[i].wrapping_mul(b@[i]),
    {
        let len = a.len();
        let mut i: usize = 0;
        while len - i >= 2
            invariant
                i <= len,
                len == a@.len(),
                len == b@.len(),
                out@.len() == len,
                forall|j: int| 0 <= j < i ==> out@[j] == a@[j].wrapping_mul(b@[j]),
            decreases len - i,
        {
            let r = self.mullo_i64x2(loadu_i64x2(a, i), loadu_i64x2(b, i));
            storeu_i64x2(out, i, r);
            i += 2;
        }
        while i < len
            invariant
                i <= len,
                len == a@.len(),
                len == b@.len(),
                out@.len() == len,
                forall|j: int| 0 <= j < i ==> out@[j] == a@[j].wrapping_mul(b@[j]),
            decreases len - i,
        {
            out[i] = a[i].wrapping_mul(b[i]);
            i += 1;
        }
    }

    /// Per-lane absolute value, wrapping (`i64::MIN` stays `i64::MIN`): branchless
    /// sign-broadcast mask + `(a XOR mask) - mask`.
    pub fn abs_i64x2(self, a: [i64; 2]) -> (r: [i64; 2])
        ensures
            forall|i: int| 0 <= i < 2 ==> r[i] == wrapping_abs_i64(a[i]),
    {
        let mut out = [0i64; 2];
        let mut i: usize = 0;
        while i < 2
            invariant
                i <= 2,
                forall|j: int| 0 <= j < i ==> out[j] == wrapping_abs_i64(a[j]),
            decreases 2 - i,
        {
            let x = a[i];
            proof {
                lemma_abs_sign_mask(x);
            }
            let m = x >> 63u64;
            out[i] = (x ^ m).wrapping_sub(m);
            i += 1;
        }
        out
    }

    /// `out[i] = a[i].wrapping_abs()`. 2-wide chunks, scalar remainder.
    ///
    /// # Panics
    /// `out.len() != a.len()`.
    pub fn abs_i64_slice(self, a: &[i64], out: &mut [i64])
        requires
            old(out)@.len() == a@.len(),
        ensures
            final(out)@.len() == a@.len(),
            forall|i: int| 0 <= i < a@.len() ==> final(out)@[i] == wrapping_abs_i64(a@[i]),
    {
        let len = a.len();
        let mut i: usize = 0;
        while len - i >= 2
            invariant
                i <= len,
                len == a@.len(),
                out@.len() == len,
                forall|j: int| 0 <= j < i ==> out@[j] == wrapping_abs_i64(a@[j]),
            decreases len - i,
        {
            let r = self.abs_i64x2(loadu_i64x2(a, i));
            storeu_i64x2(out, i, r);
            i += 2;
        }
        while i < len
            invariant
                i <= len,
                len == a@.len(),
                out@.len() == len,
                forall|j: int| 0 <= j < i ==> out@[j] == wrapping_abs_i64(a@[j]),
            decreases len - i,
        {
            out[i] = if a[i] == i64::MIN { a[i] } else if a[i] < 0 { -a[i] } else { a[i] };
            i += 1;
        }
    }

}

// Byte-granularity shifts (no native 8-bit shift exists on x86 SIMD at any tier), the
// whole-register byte shifts `pslldq`/`psrldq`, and the signed saturating narrow `packssdw`.
impl Sse2 {
    /// Per-lane logical left shift by `IMM` (masked to `IMM & 7`, matching [`u8::wrapping_shl`]).
    pub fn shl_u8x16<const IMM: u32>(self, a: [u8; 16]) -> (r: [u8; 16])
        ensures
            forall|i: int| 0 <= i < 16 ==> r[i] == a[i].wrapping_shl(IMM),
    {
        let mut out = [0u8; 16];
        let mut i: usize = 0;
        while i < 16
            invariant
                i <= 16,
                forall|j: int| 0 <= j < i ==> out[j] == a[j].wrapping_shl(IMM),
            decreases 16 - i,
        {
            out[i] = a[i].wrapping_shl(IMM);
            i += 1;
        }
        out
    }

    /// `out[i] = a[i].wrapping_shl(IMM)`. 16-wide chunks, scalar remainder.
    ///
    /// # Panics
    /// `out.len() != a.len()`.
    pub fn shl_u8_slice<const IMM: u32>(self, a: &[u8], out: &mut [u8])
        requires
            old(out)@.len() == a@.len(),
        ensures
            final(out)@.len() == a@.len(),
            forall|i: int| 0 <= i < a@.len() ==> final(out)@[i] == a@[i].wrapping_shl(IMM),
    {
        let len = a.len();
        let mut i: usize = 0;
        while len - i >= 16
            invariant
                i <= len,
                len == a@.len(),
                out@.len() == len,
                forall|j: int| 0 <= j < i ==> out@[j] == a@[j].wrapping_shl(IMM),
            decreases len - i,
        {
            let r = self.shl_u8x16::<IMM>(loadu_u8x16(a, i));
            storeu_u8x16(out, i, r);
            i += 16;
        }
        while i < len
            invariant
                i <= len,
                len == a@.len(),
                out@.len() == len,
                forall|j: int| 0 <= j < i ==> out@[j] == a@[j].wrapping_shl(IMM),
            decreases len - i,
        {
            out[i] = a[i].wrapping_shl(IMM);
            i += 1;
        }
    }

    /// Per-lane logical right shift by `IMM` (masked to `IMM & 7`, matching [`u8::wrapping_shr`]).
    pub fn shr_u8x16<const IMM: u32>(self, a: [u8; 16]) -> (r: [u8; 16])
        ensures
            forall|i: int| 0 <= i < 16 ==> r[i] == a[i].wrapping_shr(IMM),
    {
        let mut out = [0u8; 16];
        let mut i: usize = 0;
        while i < 16
            invariant
                i <= 16,
                forall|j: int| 0 <= j < i ==> out[j] == a[j].wrapping_shr(IMM),
            decreases 16 - i,
        {
            out[i] = a[i].wrapping_shr(IMM);
            i += 1;
        }
        out
    }

    /// `out[i] = a[i].wrapping_shr(IMM)`. 16-wide chunks, scalar remainder.
    ///
    /// # Panics
    /// `out.len() != a.len()`.
    pub fn shr_u8_slice<const IMM: u32>(self, a: &[u8], out: &mut [u8])
        requires
            old(out)@.len() == a@.len(),
        ensures
            final(out)@.len() == a@.len(),
            forall|i: int| 0 <= i < a@.len() ==> final(out)@[i] == a@[i].wrapping_shr(IMM),
    {
        let len = a.len();
        let mut i: usize = 0;
        while len - i >= 16
            invariant
                i <= len,
                len == a@.len(),
                out@.len() == len,
                forall|j: int| 0 <= j < i ==> out@[j] == a@[j].wrapping_shr(IMM),
            decreases len - i,
        {
            let r = self.shr_u8x16::<IMM>(loadu_u8x16(a, i));
            storeu_u8x16(out, i, r);
            i += 16;
        }
        while i < len
            invariant
                i <= len,
                len == a@.len(),
                out@.len() == len,
                forall|j: int| 0 <= j < i ==> out@[j] == a@[j].wrapping_shr(IMM),
            decreases len - i,
        {
            out[i] = a[i].wrapping_shr(IMM);
            i += 1;
        }
    }

    /// Per-lane arithmetic right shift by `IMM` (masked to `IMM & 7`, matching [`i8::wrapping_shr`]).
    pub fn sra_i8x16<const IMM: u32>(self, a: [i8; 16]) -> (r: [i8; 16])
        ensures
            forall|i: int| 0 <= i < 16 ==> r[i] == a[i].wrapping_shr(IMM),
    {
        let mut out = [0i8; 16];
        let mut i: usize = 0;
        while i < 16
            invariant
                i <= 16,
                forall|j: int| 0 <= j < i ==> out[j] == a[j].wrapping_shr(IMM),
            decreases 16 - i,
        {
            out[i] = a[i].wrapping_shr(IMM);
            i += 1;
        }
        out
    }

    /// `out[i] = a[i].wrapping_shr(IMM)`. 16-wide chunks, scalar remainder.
    ///
    /// # Panics
    /// `out.len() != a.len()`.
    pub fn sra_i8_slice<const IMM: u32>(self, a: &[i8], out: &mut [i8])
        requires
            old(out)@.len() == a@.len(),
        ensures
            final(out)@.len() == a@.len(),
            forall|i: int| 0 <= i < a@.len() ==> final(out)@[i] == a@[i].wrapping_shr(IMM),
    {
        let len = a.len();
        let mut i: usize = 0;
        while len - i >= 16
            invariant
                i <= len,
                len == a@.len(),
                out@.len() == len,
                forall|j: int| 0 <= j < i ==> out@[j] == a@[j].wrapping_shr(IMM),
            decreases len - i,
        {
            let r = self.sra_i8x16::<IMM>(loadu_i8x16(a, i));
            storeu_i8x16(out, i, r);
            i += 16;
        }
        while i < len
            invariant
                i <= len,
                len == a@.len(),
                out@.len() == len,
                forall|j: int| 0 <= j < i ==> out@[j] == a@[j].wrapping_shr(IMM),
            decreases len - i,
        {
            out[i] = a[i].wrapping_shr(IMM);
            i += 1;
        }
    }

    /// Signed view of [`shl_u8x16`](Self::shl_u8x16): left shift doesn't depend on operand
    /// signedness.
    pub fn shl_i8x16<const IMM: u32>(self, a: [i8; 16]) -> (r: [i8; 16])
        ensures
            forall|i: int| 0 <= i < 16 ==> r[i] == a[i].wrapping_shl(IMM),
    {
        let r = to_i8_lanes_u8x16(self.shl_u8x16::<IMM>(to_u8_lanes_i8x16(a)));
        assert forall|i: int| 0 <= i < 16 implies r[i] == a[i].wrapping_shl(IMM) by {
            lemma_shl_signed_view(a[i], IMM % 8);
        }
        r
    }

    /// `out[i] = a[i].wrapping_shl(IMM)`. 16-wide chunks, scalar remainder.
    ///
    /// # Panics
    /// `out.len() != a.len()`.
    pub fn shl_i8_slice<const IMM: u32>(self, a: &[i8], out: &mut [i8])
        requires
            old(out)@.len() == a@.len(),
        ensures
            final(out)@.len() == a@.len(),
            forall|i: int| 0 <= i < a@.len() ==> final(out)@[i] == a@[i].wrapping_shl(IMM),
    {
        let len = a.len();
        let mut i: usize = 0;
        while len - i >= 16
            invariant
                i <= len,
                len == a@.len(),
                out@.len() == len,
                forall|j: int| 0 <= j < i ==> out@[j] == a@[j].wrapping_shl(IMM),
            decreases len - i,
        {
            let r = self.shl_i8x16::<IMM>(loadu_i8x16(a, i));
            storeu_i8x16(out, i, r);
            i += 16;
        }
        while i < len
            invariant
                i <= len,
                len == a@.len(),
                out@.len() == len,
                forall|j: int| 0 <= j < i ==> out@[j] == a@[j].wrapping_shl(IMM),
            decreases len - i,
        {
            out[i] = a[i].wrapping_shl(IMM);
            i += 1;
        }
    }

    /// Logical (unsigned) view of [`shr_u8x16`](Self::shr_u8x16): `(a as u8) >> IMM` as `i8`.
    pub fn shr_i8x16<const IMM: u32>(self, a: [i8; 16]) -> (r: [i8; 16])
        ensures
            forall|i: int| 0 <= i < 16 ==> r[i] == ((a[i] as u8).wrapping_shr(IMM)) as i8,
    {
        to_i8_lanes_u8x16(self.shr_u8x16::<IMM>(to_u8_lanes_i8x16(a)))
    }

    /// `out[i] = ((a[i] as u8).wrapping_shr(IMM)) as i8`. 16-wide chunks, scalar remainder.
    ///
    /// # Panics
    /// `out.len() != a.len()`.
    pub fn shr_i8_slice<const IMM: u32>(self, a: &[i8], out: &mut [i8])
        requires
            old(out)@.len() == a@.len(),
        ensures
            final(out)@.len() == a@.len(),
            forall|i: int| 0 <= i < a@.len() ==> final(out)@[i] == ((a@[i] as u8).wrapping_shr(IMM)) as i8,
    {
        let len = a.len();
        let mut i: usize = 0;
        while len - i >= 16
            invariant
                i <= len,
                len == a@.len(),
                out@.len() == len,
                forall|j: int| 0 <= j < i ==> out@[j] == ((a@[j] as u8).wrapping_shr(IMM)) as i8,
            decreases len - i,
        {
            let r = self.shr_i8x16::<IMM>(loadu_i8x16(a, i));
            storeu_i8x16(out, i, r);
            i += 16;
        }
        while i < len
            invariant
                i <= len,
                len == a@.len(),
                out@.len() == len,
                forall|j: int| 0 <= j < i ==> out@[j] == ((a@[j] as u8).wrapping_shr(IMM)) as i8,
            decreases len - i,
        {
            out[i] = ((a[i] as u8).wrapping_shr(IMM)) as i8;
            i += 1;
        }
    }

    /// `pslldq`: whole-register byte shift left by `IMM8`, zero-filled from the bottom
    /// (`IMM8 >= 16` yields all zero).
    pub fn slli_u8x16<const IMM8: u32>(self, a: [u8; 16]) -> (r: [u8; 16])
        ensures
            forall|i: int| 0 <= i < 16 ==> r[i] == if i >= IMM8 { a[i - IMM8] } else { 0u8 },
    {
        let mut out = [0u8; 16];
        let mut i: usize = 0;
        while i < 16
            invariant
                i <= 16,
                forall|j: int| 0 <= j < i ==> out[j] == if j >= IMM8 { a[j - IMM8] } else { 0u8 },
                forall|j: int| i <= j < 16 ==> out[j] == 0u8,
            decreases 16 - i,
        {
            if i as u32 >= IMM8 {
                out[i] = a[i - IMM8 as usize];
            }
            i += 1;
        }
        out
    }

    /// `psrldq`: whole-register byte shift right by `IMM8`, zero-filled from the top
    /// (`IMM8 >= 16` yields all zero).
    pub fn srli_u8x16<const IMM8: u32>(self, a: [u8; 16]) -> (r: [u8; 16])
        ensures
            forall|i: int| 0 <= i < 16 ==> r[i] == if i + IMM8 < 16 { a[i + IMM8] } else { 0u8 },
    {
        let mut out = [0u8; 16];
        assert(forall|j: int| 0 <= j < 16 ==> out[j] == 0u8);
        if IMM8 < 16 {
            let s = IMM8 as usize;
            let mut i: usize = 0;
            while i + s < 16
                invariant
                    s == IMM8,
                    s < 16,
                    i + s <= 16,
                    forall|j: int| 0 <= j < i ==> out[j] == a[j + IMM8],
                    forall|j: int| i <= j < 16 ==> out[j] == 0u8,
                decreases 16 - i,
            {
                out[i] = a[i + s];
                i += 1;
            }
        }
        out
    }

    /// Signed saturating narrow (`packssdw`): `a`'s 4 lanes to the low 4 `i16` lanes, `b`'s
    /// 4 lanes to the high 4.
    pub fn pack_i32x4_to_i16x8(self, a: [i32; 4], b: [i32; 4]) -> (r: [i16; 8])
        ensures
            forall|i: int| 0 <= i < 4 ==> r[i] == saturate_i16(a[i]),
            forall|i: int| 4 <= i < 8 ==> r[i] == saturate_i16(b[i - 4]),
    {
        let mut out = [0i16; 8];
        let mut i: usize = 0;
        while i < 4
            invariant
                i <= 4,
                forall|j: int| 0 <= j < i ==> out[j] == saturate_i16(a[j]),
                forall|j: int| 0 <= j < i ==> out[j + 4] == saturate_i16(b[j]),
            decreases 4 - i,
        {
            out[i] = narrow_i16(a[i]);
            out[i + 4] = narrow_i16(b[i]);
            i += 1;
        }
        out
    }
}

/// `x` clamped into `i16` range.
pub open spec fn saturate_i16(x: i32) -> i16 {
    if x > i16::MAX {
        i16::MAX
    } else if x < i16::MIN {
        i16::MIN
    } else {
        x as i16
    }
}

fn narrow_i16(x: i32) -> (r: i16)
    ensures
        r == saturate_i16(x),
{
    if x > i16::MAX as i32 {
        i16::MAX
    } else if x < i16::MIN as i32 {
        i16::MIN
    } else {
        x as i16
    }
}

/// Left shift commutes with the signed/unsigned reinterpretation of a byte.
pub proof fn lemma_shl_signed_view(a: i8, s: u32)
    requires
        s < 8,
    ensures
        ((a as u8) << s) as i8 == a << s,
{
    assert(((a as u8) << s) as i8 == a << s) by (bit_vector)
        requires
            s < 8,
    ;
}

} // verus!
