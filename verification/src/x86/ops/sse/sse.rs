//! SSE: 128-bit XMM packed `f32`. Token: [`Sse`].

use vstd::prelude::*;

use super::super::super::{Feature, FeatureSet};

verus! {

/// Proof token: SSE available. Zero-sized, `Copy`.
#[derive(Debug, Clone, Copy)]
pub struct Sse(());

impl Sse {
    /// From a raw feature bitset (e.g. `x86::detect_features()`).
    pub fn from_features(set: FeatureSet) -> (r: Option<Self>)
        ensures
            r is Some <==> set@.contains(Feature::Sse),
    {
        if set.contains(Feature::Sse) {
            Some(Sse(()))
        } else {
            None
        }
    }
}

impl Sse {
    /// x86_64 ABI always has SSE/SSE2; no probe needed.
    pub(crate) fn assume_baseline() -> Self {
        Sse(())
    }
}

} // verus!
