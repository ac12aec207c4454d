//! SSE4.1: native `i64` equality (`pcmpeqq`). Token: [`Sse41`].

use vstd::prelude::*;

use super::super::super::{Feature, FeatureSet};
use super::super::chunk::{loadu_i64x2, loadu_u64x2, storeu_i64x2, storeu_u64x2};
use super::super::lane_ops::{to_i64_lanes_u64x2, to_u64_lanes_i64x2};
use super::super::lanes::{lemma_eq_signed_view_u64, lemma_mask_cast_i64, mask_i64, mask_u64};

verus! {

/// Proof token: SSE4.1 available. Zero-sized, `Copy`.
#[derive(Debug, Clone, Copy)]
pub struct Sse41(());

impl Sse41 {
    /// From a raw feature bitset (e.g. `x86::detect_features()`).
    pub fn from_features(set: FeatureSet) -> (r: Option<Self>)
        ensures
            r is Some <==> set@.contains(Feature::Sse41),
    {
        if set.contains(Feature::Sse41) {
            Some(Sse41(()))
        } else {
            None
        }
    }

    /// Lane equality mask, `i64` (all-1s if equal, else 0; `pcmpeqq`, native from SSE4.1).
    pub fn cmpeq_i64x2(self, a: [i64; 2], b: [i64; 2]) -> (r: [i64; 2])
        ensures
            forall|i: int| 0 <= i < 2 ==> r[i] == mask_i64(a[i] == b[i]),
    {
        let mut out = [0i64; 2];
        let mut i: usize = 0;
        while i < 2
            invariant
                i <= 2,
                forall|j: int| 0 <= j < i ==> out[j] == mask_i64(a[j] == b[j]),
            decreases 2 - i,
        {
            out[i] = if a[i] == b[i] { -1 } else { 0 };
            i += 1;
        }
        out
    }

    /// `out[i] = all-1s if a[i]==b[i] else 0`. 2-wide chunks, scalar remainder.
    ///
    /// # Panics
    /// `a.len() != b.len() || out.len() != a.len()`.
    pub fn cmpeq_i64_slice(self, a: &[i64], b: &[i64], out: &mut [i64])
        requires
            a@.len() == b@.len(),
            old(out)@.len() == a@.len(),
        ensures
            final(out)@.len() == a@.len(),
            forall|i: int| 0 <= i < a@.len() ==> final(out)@[i] == mask_i64(a@[i] == b@[i]),
    {
        let len = a.len();
        let mut i: usize = 0;
        while len - i >= 2
            invariant
                i <= len,
                len == a@.len(),
                len == b@.len(),
                out@.len() == len,
                forall|j: int| 0 <= j < i ==> out@[j] == mask_i64(a@[j] == b@[j]),
            decreases len - i,
        {
            let r = self.cmpeq_i64x2(loadu_i64x2(a, i), loadu_i64x2(b, i));
            storeu_i64x2(out, i, r);
            i += 2;
        }
        while i < len
            invariant
                i <= len,
                len == a@.len(),
                len == b@.len(),
                out@.len() == len,
                forall|j: int| 0 <= j < i ==> out@[j] == mask_i64(a@[j] == b@[j]),
            decreases len - i,
        {
            out[i] = if a[i] == b[i] { -1 } else { 0 };
            i += 1;
        }
    }

    /// Lane equality mask as `u64` all-1s / 0 (`pcmpeqq` view).
    pub fn cmpeq_u64x2(self, a: [u64; 2], b: [u64; 2]) -> (r: [u64; 2])
        ensures
            forall|i: int| 0 <= i < 2 ==> r[i] == mask_u64(a[i] == b[i]),
    {
        let ai = to_i64_lanes_u64x2(a);
        let bi = to_i64_lanes_u64x2(b);
        let r = to_u64_lanes_i64x2(self.cmpeq_i64x2(ai, bi));
        assert forall|i: int| 0 <= i < 2 implies r[i] == mask_u64(a[i] == b[i]) by {
            lemma_eq_signed_view_u64(a[i], b[i]);
            lemma_mask_cast_i64(ai[i] == bi[i]);
        }
        r
    }

    /// `out[i] = all-1s if a[i]==b[i] else 0` (`u64` view).
    ///
    /// # Panics
    /// `a.len() != b.len() || out.len() != a.len()`.
    pub fn cmpeq_u64_slice(self, a: &[u64], b: &[u64], out: &mut [u64])
        requires
            a@.len() == b@.len(),
            old(out)@.len() == a@.len(),
        ensures
            final(out)@.len() == a@.len(),
            forall|i: int| 0 <= i < a@.len() ==> final(out)@[i] == mask_u64(a@[i] == b@[i]),
    {
        let len = a.len();
        let mut i: usize = 0;
        while len - i >= 2
            invariant
                i <= len,
                len == a@.len(),
                len == b@.len(),
                out@.len() == len,
                forall|j: int| 0 <= j < i ==> out@[j] == mask_u64(a@[j] == b@[j]),
            decreases len - i,
        {
            let r = self.cmpeq_u64x2(loadu_u64x2(a, i), loadu_u64x2(b, i));
            storeu_u64x2(out, i, r);
            i += 2;
        }
        while i < len
            invariant
                i <= len,
                len == a@.len(),
                len == b@.len(),
                out@.len() == len,
                forall|j: int| 0 <= j < i ==> out@[j] == mask_u64(a@[j] == b@[j]),
            decreases len - i,
        {
            out[i] = if a[i] == b[i] { u64::MAX } else { 0 };
            i += 1;
        }
    }

}

} // verus!
