//! SSE4.2: native 64-bit ordering compare (`pcmpgtq`) and the `i64`/`u64` compare, min and
//! max families built on it. Token: [`Sse42`].

use vstd::prelude::*;

use super::super::super::{Feature, FeatureSet};
use super::super::chunk::{loadu_i64x2, loadu_u64x2, storeu_i64x2, storeu_u64x2};
use super::super::lane_ops::{
    bias_u64x2, blendv_i64x2, blendv_u64x2, not_i64_in_place, not_i64x2, not_u64_in_place,
    not_u64x2, to_u64_lanes_i64x2,
};
use super::super::lanes::{
    lemma_mask_cast_i64, lemma_not_mask_i64, lemma_not_mask_u64, lemma_sign_flip_u64, mask_i64,
    mask_u64,
};

verus! {

/// Proof token: SSE4.2 available. Zero-sized, `Copy`.
#[derive(Debug, Clone, Copy)]
pub struct Sse42(());

impl Sse42 {
    /// From a raw feature bitset (e.g. `x86::detect_features()`).
    pub fn from_features(set: FeatureSet) -> (r: Option<Self>)
        ensures
            r is Some <==> set@.contains(Feature::Sse42),
    {
        if set.contains(Feature::Sse42) {
            Some(Sse42(()))
        } else {
            None
        }
    }
}

// `i64` ordering compares.
impl Sse42 {
    /// Lane greater-than mask (all-1s if `a>b`, else 0).
    pub fn cmpgt_i64x2(self, a: [i64; 2], b: [i64; 2]) -> (r: [i64; 2])
        ensures
            forall|i: int| 0 <= i < 2 ==> r[i] == mask_i64(a[i] > b[i]),
    {
        let mut out = [0i64; 2];
        let mut i: usize = 0;
        while i < 2
            invariant
                i <= 2,
                forall|j: int| 0 <= j < i ==> out[j] == mask_i64(a[j] > b[j]),
            decreases 2 - i,
        {
            out[i] = if a[i] > b[i] { -1 } else { 0 };
            i += 1;
        }
        out
    }

    /// Lane less-than mask (all-1s if `a<b`): operand-swapped [`Self::cmpgt_i64x2`].
    pub fn cmplt_i64x2(self, a: [i64; 2], b: [i64; 2]) -> (r: [i64; 2])
        ensures
            forall|i: int| 0 <= i < 2 ==> r[i] == mask_i64(a[i] < b[i]),
    {
        self.cmpgt_i64x2(b, a)
    }

    /// Lane less-equal mask (all-1s if `a<=b`): bitwise NOT of [`Self::cmpgt_i64x2`].
    pub fn cmple_i64x2(self, a: [i64; 2], b: [i64; 2]) -> (r: [i64; 2])
        ensures
            forall|i: int| 0 <= i < 2 ==> r[i] == mask_i64(a[i] <= b[i]),
    {
        let r = not_i64x2(self.cmpgt_i64x2(a, b));
        assert forall|i: int| 0 <= i < 2 implies r[i] == mask_i64(a[i] <= b[i]) by {
            lemma_not_mask_i64(a[i] > b[i]);
        }
        r
    }

    /// Lane greater-equal mask (all-1s if `a>=b`): bitwise NOT of [`Self::cmplt_i64x2`].
    pub fn cmpge_i64x2(self, a: [i64; 2], b: [i64; 2]) -> (r: [i64; 2])
        ensures
            forall|i: int| 0 <= i < 2 ==> r[i] == mask_i64(a[i] >= b[i]),
    {
        let r = not_i64x2(self.cmplt_i64x2(a, b));
        assert forall|i: int| 0 <= i < 2 implies r[i] == mask_i64(a[i] >= b[i]) by {
            lemma_not_mask_i64(a[i] < b[i]);
        }
        r
    }

    /// `out[i] = all-1s if a[i]>b[i] else 0`. 2-wide chunks, scalar remainder.
    ///
    /// # Panics
    /// `a.len() != b.len() || out.len() != a.len()`.
    pub fn cmpgt_i64_slice(self, a: &[i64], b: &[i64], out: &mut [i64])
        requires
            a@.len() == b@.len(),
            old(out)@.len() == a@.len(),
        ensures
            final(out)@.len() == a@.len(),
            forall|i: int| 0 <= i < a@.len() ==> final(out)@[i] == mask_i64(a@[i] > b@[i]),
    {
        let len = a.len();
        let mut i: usize = 0;
        while len - i >= 2
            invariant
                i <= len,
                len == a@.len(),
                len == b@.len(),
                out@.len() == len,
                forall|j: int| 0 <= j < i ==> out@[j] == mask_i64(a@[j] > b@[j]),
            decreases len - i,
        {
            let r = self.cmpgt_i64x2(loadu_i64x2(a, i), loadu_i64x2(b, i));
            storeu_i64x2(out, i, r);
            i += 2;
        }
        while i < len
            invariant
                i <= len,
                len == a@.len(),
                len == b@.len(),
                out@.len() == len,
                forall|j: int| 0 <= j < i ==> out@[j] == mask_i64(a@[j] > b@[j]),
            decreases len - i,
        {
            out[i] = if a[i] > b[i] { -1 } else { 0 };
            i += 1;
        }
    }

    /// `out[i] = all-1s if a[i]<b[i] else 0`. Operand-swapped [`Self::cmpgt_i64_slice`].
    pub fn cmplt_i64_slice(self, a: &[i64], b: &[i64], out: &mut [i64])
        requires
            a@.len() == b@.len(),
            old(out)@.len() == a@.len(),
        ensures
            final(out)@.len() == a@.len(),
            forall|i: int| 0 <= i < a@.len() ==> final(out)@[i] == mask_i64(a@[i] < b@[i]),
    {
        self.cmpgt_i64_slice(b, a, out);
    }

    /// `out[i] = all-1s if a[i]<=b[i] else 0`. NOT of [`Self::cmpgt_i64_slice`].
    pub fn cmple_i64_slice(self, a: &[i64], b: &[i64], out: &mut [i64])
        requires
            a@.len() == b@.len(),
            old(out)@.len() == a@.len(),
        ensures
            final(out)@.len() == a@.len(),
            forall|i: int| 0 <= i < a@.len() ==> final(out)@[i] == mask_i64(a@[i] <= b@[i]),
    {
        self.cmpgt_i64_slice(a, b, out);
        not_i64_in_place(out);
        assert forall|i: int| 0 <= i < a@.len() implies out@[i] == mask_i64(a@[i] <= b@[i]) by {
            lemma_not_mask_i64(a@[i] > b@[i]);
        }
    }

    /// `out[i] = all-1s if a[i]>=b[i] else 0`. NOT of [`Self::cmplt_i64_slice`].
    pub fn cmpge_i64_slice(self, a: &[i64], b: &[i64], out: &mut [i64])
        requires
            a@.len() == b@.len(),
            old(out)@.len() == a@.len(),
        ensures
            final(out)@.len() == a@.len(),
            forall|i: int| 0 <= i < a@.len() ==> final(out)@[i] == mask_i64(a@[i] >= b@[i]),
    {
        self.cmplt_i64_slice(a, b, out);
        not_i64_in_place(out);
        assert forall|i: int| 0 <= i < a@.len() implies out@[i] == mask_i64(a@[i] >= b@[i]) by {
            lemma_not_mask_i64(a@[i] < b@[i]);
        }
    }

}

// `u64` ordering compares.
impl Sse42 {
    /// Unsigned greater-than mask (all-1s if `a>b`). Sign-bit flip + [`Self::cmpgt_i64x2`].
    pub fn cmpgt_u64x2(self, a: [u64; 2], b: [u64; 2]) -> (r: [u64; 2])
        ensures
            forall|i: int| 0 <= i < 2 ==> r[i] == mask_u64(a[i] > b[i]),
    {
        let ai = bias_u64x2(a);
        let bi = bias_u64x2(b);
        let r = to_u64_lanes_i64x2(self.cmpgt_i64x2(ai, bi));
        assert forall|i: int| 0 <= i < 2 implies r[i] == mask_u64(a[i] > b[i]) by {
            lemma_sign_flip_u64(a[i], b[i]);
            lemma_mask_cast_i64(ai[i] > bi[i]);
        }
        r
    }

    /// Lane less-than mask (all-1s if `a<b`): operand-swapped [`Self::cmpgt_u64x2`].
    pub fn cmplt_u64x2(self, a: [u64; 2], b: [u64; 2]) -> (r: [u64; 2])
        ensures
            forall|i: int| 0 <= i < 2 ==> r[i] == mask_u64(a[i] < b[i]),
    {
        self.cmpgt_u64x2(b, a)
    }

    /// Lane less-equal mask (all-1s if `a<=b`): bitwise NOT of [`Self::cmpgt_u64x2`].
    pub fn cmple_u64x2(self, a: [u64; 2], b: [u64; 2]) -> (r: [u64; 2])
        ensures
            forall|i: int| 0 <= i < 2 ==> r[i] == mask_u64(a[i] <= b[i]),
    {
        let r = not_u64x2(self.cmpgt_u64x2(a, b));
        assert forall|i: int| 0 <= i < 2 implies r[i] == mask_u64(a[i] <= b[i]) by {
            lemma_not_mask_u64(a[i] > b[i]);
        }
        r
    }

    /// Lane greater-equal mask (all-1s if `a>=b`): bitwise NOT of [`Self::cmplt_u64x2`].
    pub fn cmpge_u64x2(self, a: [u64; 2], b: [u64; 2]) -> (r: [u64; 2])
        ensures
            forall|i: int| 0 <= i < 2 ==> r[i] == mask_u64(a[i] >= b[i]),
    {
        let r = not_u64x2(self.cmplt_u64x2(a, b));
        assert forall|i: int| 0 <= i < 2 implies r[i] == mask_u64(a[i] >= b[i]) by {
            lemma_not_mask_u64(a[i] < b[i]);
        }
        r
    }

    /// `out[i] = all-1s if a[i]>b[i] else 0`. 2-wide chunks, scalar remainder.
    ///
    /// # Panics
    /// `a.len() != b.len() || out.len() != a.len()`.
    pub fn cmpgt_u64_slice(self, a: &[u64], b: &[u64], out: &mut [u64])
        requires
            a@.len() == b@.len(),
            old(out)@.len() == a@.len(),
        ensures
            final(out)@.len() == a@.len(),
            forall|i: int| 0 <= i < a@.len() ==> final(out)@[i] == mask_u64(a@[i] > b@[i]),
    {
        let len = a.len();
        let mut i: usize = 0;
        while len - i >= 2
            invariant
                i <= len,
                len == a@.len(),
                len == b@.len(),
                out@.len() == len,
                forall|j: int| 0 <= j < i ==> out@[j] == mask_u64(a@[j] > b@[j]),
            decreases len - i,
        {
            let r = self.cmpgt_u64x2(loadu_u64x2(a, i), loadu_u64x2(b, i));
            storeu_u64x2(out, i, r);
            i += 2;
        }
        while i < len
            invariant
                i <= len,
                len == a@.len(),
                len == b@.len(),
                out@.len() == len,
                forall|j: int| 0 <= j < i ==> out@[j] == mask_u64(a@[j] > b@[j]),
            decreases len - i,
        {
            out[i] = if a[i] > b[i] { u64::MAX } else { 0 };
            i += 1;
        }
    }

    /// `out[i] = all-1s if a[i]<b[i] else 0`. Operand-swapped [`Self::cmpgt_u64_slice`].
    pub fn cmplt_u64_slice(self, a: &[u64], b: &[u64], out: &mut [u64])
        requires
            a@.len() == b@.len(),
            old(out)@.len() == a@.len(),
        ensures
            final(out)@.len() == a@.len(),
            forall|i: int| 0 <= i < a@.len() ==> final(out)@[i] == mask_u64(a@[i] < b@[i]),
    {
        self.cmpgt_u64_slice(b, a, out);
    }

    /// `out[i] = all-1s if a[i]<=b[i] else 0`. NOT of [`Self::cmpgt_u64_slice`].
    pub fn cmple_u64_slice(self, a: &[u64], b: &[u64], out: &mut [u64])
        requires
            a@.len() == b@.len(),
            old(out)@.len() == a@.len(),
        ensures
            final(out)@.len() == a@.len(),
            forall|i: int| 0 <= i < a@.len() ==> final(out)@[i] == mask_u64(a@[i] <= b@[i]),
    {
        self.cmpgt_u64_slice(a, b, out);
        not_u64_in_place(out);
        assert forall|i: int| 0 <= i < a@.len() implies out@[i] == mask_u64(a@[i] <= b@[i]) by {
            lemma_not_mask_u64(a@[i] > b@[i]);
        }
    }

    /// `out[i] = all-1s if a[i]>=b[i] else 0`. NOT of [`Self::cmplt_u64_slice`].
    pub fn cmpge_u64_slice(self, a: &[u64], b: &[u64], out: &mut [u64])
        requires
            a@.len() == b@.len(),
            old(out)@.len() == a@.len(),
        ensures
            final(out)@.len() == a@.len(),
            forall|i: int| 0 <= i < a@.len() ==> final(out)@[i] == mask_u64(a@[i] >= b@[i]),
    {
        self.cmplt_u64_slice(a, b, out);
        not_u64_in_place(out);
        assert forall|i: int| 0 <= i < a@.len() implies out@[i] == mask_u64(a@[i] >= b@[i]) by {
            lemma_not_mask_u64(a@[i] < b@[i]);
        }
    }

}

// `i64`/`u64` min/max: compare + `pblendvb` (no native `pminsq`/`pmaxsq` below AVX-512F).
impl Sse42 {
    /// Per-lane signed min: `blendv(a, b, cmpgt(a, b))` picks `b` where `a > b`.
    pub fn min_i64x2(self, a: [i64; 2], b: [i64; 2]) -> (r: [i64; 2])
        ensures
            forall|i: int| 0 <= i < 2 ==> r[i] == (if a[i] <= b[i] { a[i] } else { b[i] }),
    {
        let gt = self.cmpgt_i64x2(a, b);
        blendv_i64x2(a, b, gt)
    }

    /// `out[i] = min(a[i], b[i])`. 2-wide chunks, scalar remainder.
    ///
    /// # Panics
    /// `a.len() != b.len() || out.len() != a.len()`.
    pub fn min_i64_slice(self, a: &[i64], b: &[i64], out: &mut [i64])
        requires
            a@.len() == b@.len(),
            old(out)@.len() == a@.len(),
        ensures
            final(out)@.len() == a@.len(),
            forall|i: int| 0 <= i < a@.len() ==> final(out)@[i] == (if a@[i] <= b@[i] { a@[i] } else { b@[i] }),
    {
        let len = a.len();
        let mut i: usize = 0;
        while len - i >= 2
            invariant
                i <= len,
                len == a@.len(),
                len == b@.len(),
                out@.len() == len,
                forall|j: int| 0 <= j < i ==> out@[j] == (if a@[j] <= b@[j] { a@[j] } else { b@[j] }),
            decreases len - i,
        {
            let r = self.min_i64x2(loadu_i64x2(a, i), loadu_i64x2(b, i));
            storeu_i64x2(out, i, r);
            i += 2;
        }
        while i < len
            invariant
                i <= len,
                len == a@.len(),
                len == b@.len(),
                out@.len() == len,
                forall|j: int| 0 <= j < i ==> out@[j] == (if a@[j] <= b@[j] { a@[j] } else { b@[j] }),
            decreases len - i,
        {
            out[i] = if a[i] <= b[i] { a[i] } else { b[i] };
            i += 1;
        }
    }

    /// Per-lane signed max: `blendv(a, b, cmpgt(b, a))` picks `b` where `b > a`.
    pub fn max_i64x2(self, a: [i64; 2], b: [i64; 2]) -> (r: [i64; 2])
        ensures
            forall|i: int| 0 <= i < 2 ==> r[i] == (if a[i] >= b[i] { a[i] } else { b[i] }),
    {
        let gt = self.cmpgt_i64x2(b, a);
        blendv_i64x2(a, b, gt)
    }

    /// `out[i] = max(a[i], b[i])`. 2-wide chunks, scalar remainder.
    ///
    /// # Panics
    /// `a.len() != b.len() || out.len() != a.len()`.
    pub fn max_i64_slice(self, a: &[i64], b: &[i64], out: &mut [i64])
        requires
            a@.len() == b@.len(),
            old(out)@.len() == a@.len(),
        ensures
            final(out)@.len() == a@.len(),
            forall|i: int| 0 <= i < a@.len() ==> final(out)@[i] == (if a@[i] >= b@[i] { a@[i] } else { b@[i] }),
    {
        let len = a.len();
        let mut i: usize = 0;
        while len - i >= 2
            invariant
                i <= len,
                len == a@.len(),
                len == b@.len(),
                out@.len() == len,
                forall|j: int| 0 <= j < i ==> out@[j] == (if a@[j] >= b@[j] { a@[j] } else { b@[j] }),
            decreases len - i,
        {
            let r = self.max_i64x2(loadu_i64x2(a, i), loadu_i64x2(b, i));
            storeu_i64x2(out, i, r);
            i += 2;
        }
        while i < len
            invariant
                i <= len,
                len == a@.len(),
                len == b@.len(),
                out@.len() == len,
                forall|j: int| 0 <= j < i ==> out@[j] == (if a@[j] >= b@[j] { a@[j] } else { b@[j] }),
            decreases len - i,
        {
            out[i] = if a[i] >= b[i] { a[i] } else { b[i] };
            i += 1;
        }
    }

    /// Per-lane unsigned min: `blendv(a, b, cmpgt(a, b))` picks `b` where `a > b`.
    pub fn min_u64x2(self, a: [u64; 2], b: [u64; 2]) -> (r: [u64; 2])
        ensures
            forall|i: int| 0 <= i < 2 ==> r[i] == (if a[i] <= b[i] { a[i] } else { b[i] }),
    {
        let gt = self.cmpgt_u64x2(a, b);
        blendv_u64x2(a, b, gt)
    }

    /// `out[i] = min(a[i], b[i])`. 2-wide chunks, scalar remainder.
    ///
    /// # Panics
    /// `a.len() != b.len() || out.len() != a.len()`.
    pub fn min_u64_slice(self, a: &[u64], b: &[u64], out: &mut [u64])
        requires
            a@.len() == b@.len(),
            old(out)@.len() == a@.len(),
        ensures
            final(out)@.len() == a@.len(),
            forall|i: int| 0 <= i < a@.len() ==> final(out)@[i] == (if a@[i] <= b@[i] { a@[i] } else { b@[i] }),
    {
        let len = a.len();
        let mut i: usize = 0;
        while len - i >= 2
            invariant
                i <= len,
                len == a@.len(),
                len == b@.len(),
                out@.len() == len,
                forall|j: int| 0 <= j < i ==> out@[j] == (if a@[j] <= b@[j] { a@[j] } else { b@[j] }),
            decreases len - i,
        {
            let r = self.min_u64x2(loadu_u64x2(a, i), loadu_u64x2(b, i));
            storeu_u64x2(out, i, r);
            i += 2;
        }
        while i < len
            invariant
                i <= len,
                len == a@.len(),
                len == b@.len(),
                out@.len() == len,
                forall|j: int| 0 <= j < i ==> out@[j] == (if a@[j] <= b@[j] { a@[j] } else { b@[j] }),
            decreases len - i,
        {
            out[i] = if a[i] <= b[i] { a[i] } else { b[i] };
            i += 1;
        }
    }

    /// Per-lane unsigned max: `blendv(a, b, cmpgt(b, a))` picks `b` where `b > a`.
    pub fn max_u64x2(self, a: [u64; 2], b: [u64; 2]) -> (r: [u64; 2])
        ensures
            forall|i: int| 0 <= i < 2 ==> r[i] == (if a[i] >= b[i] { a[i] } else { b[i] }),
    {
        let gt = self.cmpgt_u64x2(b, a);
        blendv_u64x2(a, b, gt)
    }

    /// `out[i] = max(a[i], b[i])`. 2-wide chunks, scalar remainder.
    ///
    /// # Panics
    /// `a.len() != b.len() || out.len() != a.len()`.
    pub fn max_u64_slice(self, a: &[u64], b: &[u64], out: &mut [u64])
        requires
            a@.len() == b@.len(),
            old(out)@.len() == a@.len(),
        ensures
            final(out)@.len() == a@.len(),
            forall|i: int| 0 <= i < a@.len() ==> final(out)@[i] == (if a@[i] >= b@[i] { a@[i] } else { b@[i] }),
    {
        let len = a.len();
        let mut i: usize = 0;
        while len - i >= 2
            invariant
                i <= len,
                len == a@.len(),
                len == b@.len(),
                out@.len() == len,
                forall|j: int| 0 <= j < i ==> out@[j] == (if a@[j] >= b@[j] { a@[j] } else { b@[j] }),
            decreases len - i,
        {
            let r = self.max_u64x2(loadu_u64x2(a, i), loadu_u64x2(b, i));
            storeu_u64x2(out, i, r);
            i += 2;
        }
        while i < len
            invariant
                i <= len,
                len == a@.len(),
                len == b@.len(),
                out@.len() == len,
                forall|j: int| 0 <= j < i ==> out@[j] == (if a@[j] >= b@[j] { a@[j] } else { b@[j] }),
            decreases len - i,
        {
            out[i] = if a[i] >= b[i] { a[i] } else { b[i] };
            i += 1;
        }
    }

}

} // verus!
