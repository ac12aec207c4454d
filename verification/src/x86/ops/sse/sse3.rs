//! SSE3 (2004): `addsub` and horizontal `hadd`/`hsub` on `f32x4`/`f64x2`. Token: [`Sse3`].

use vstd::prelude::*;

use super::super::super::{Feature, FeatureSet};

verus! {

/// Proof token: SSE3 available. Zero-sized, `Copy`.
#[derive(Debug, Clone, Copy)]
pub struct Sse3(());

impl Sse3 {
    /// From a raw feature bitset (e.g. `x86::detect_features()`).
    pub fn from_features(set: FeatureSet) -> (r: Option<Self>)
        ensures
            r is Some <==> set@.contains(Feature::Sse3),
    {
        if set.contains(Feature::Sse3) {
            Some(Sse3(()))
        } else {
            None
        }
    }
}

} // verus!
