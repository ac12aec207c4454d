//! AVX-512 Doubleword/Quadword: the 8-bit k-mask ops, mask add/test and the dword/qword mask bridges. Token: [`Avx512Dq`].

use vstd::prelude::*;

use super::super::super::{Feature, FeatureSet};

verus! {

/// Proof token: AVX512DQ available. Zero-sized, `Copy`.
#[derive(Debug, Clone, Copy)]
pub struct Avx512Dq(());

impl Avx512Dq {
    /// From a raw feature bitset (e.g. `x86::detect_features()`).
    pub fn from_features(set: FeatureSet) -> (r: Option<Self>)
        ensures
            r is Some <==> set@.contains(Feature::Avx512dq),
    {
        if set.contains(Feature::Avx512dq) {
            Some(Avx512Dq(()))
        } else {
            None
        }
    }
}

} // verus!
