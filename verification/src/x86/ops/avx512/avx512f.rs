//! AVX-512 Foundation: 512-bit vectors and the 16-bit k-mask register ops. Token: [`Avx512f`].

use vstd::prelude::*;

use super::super::super::{Feature, FeatureSet};

verus! {

/// Proof token: AVX512F available. Zero-sized, `Copy`.
#[derive(Debug, Clone, Copy)]
pub struct Avx512f(());

impl Avx512f {
    /// From a raw feature bitset (e.g. `x86::detect_features()`).
    pub fn from_features(set: FeatureSet) -> (r: Option<Self>)
        ensures
            r is Some <==> set@.contains(Feature::Avx512f),
    {
        if set.contains(Feature::Avx512f) {
            Some(Avx512f(()))
        } else {
            None
        }
    }
}

} // verus!
