//! FMA4 (AMD Bulldozer, 2011): four-operand FMA. Token: [`Fma4`].

use vstd::prelude::*;

use super::super::super::{Feature, FeatureSet};

verus! {

/// Proof token: FMA4 available. Zero-sized, `Copy`.
#[derive(Debug, Clone, Copy)]
pub struct Fma4(());

impl Fma4 {
    /// From a raw feature bitset (e.g. `x86::detect_features()`).
    pub fn from_features(set: FeatureSet) -> (r: Option<Self>)
        ensures
            r is Some <==> set@.contains(Feature::Fma4),
    {
        if set.contains(Feature::Fma4) {
            Some(Fma4(()))
        } else {
            None
        }
    }
}

} // verus!
