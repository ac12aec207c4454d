//! AVX-512 Byte/Word: the 32- and 64-bit k-mask ops and the byte/word mask bridges. Token: [`Avx512Bw`].

use vstd::prelude::*;

use super::super::super::{Feature, FeatureSet};

verus! {

/// Proof token: AVX512BW available. Zero-sized, `Copy`.
#[derive(Debug, Clone, Copy)]
pub struct Avx512Bw(());

impl Avx512Bw {
    /// From a raw feature bitset (e.g. `x86::detect_features()`).
    pub fn from_features(set: FeatureSet) -> (r: Option<Self>)
        ensures
            r is Some <==> set@.contains(Feature::Avx512bw),
    {
        if set.contains(Feature::Avx512bw) {
            Some(Avx512Bw(()))
        } else {
            None
        }
    }
}

} // verus!
