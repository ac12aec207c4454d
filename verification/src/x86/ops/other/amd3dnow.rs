//! 3DNow! (AMD K6-2, 1998): two `f32` in MMX registers. Long deprecated. Token: [`ThreeDNow`].

use vstd::prelude::*;

use super::super::super::{Feature, FeatureSet};

verus! {

/// Proof token: 3DNow! available. Zero-sized, `Copy`.
#[derive(Debug, Clone, Copy)]
pub struct ThreeDNow(());

impl ThreeDNow {
    /// From a raw feature bitset (e.g. `x86::detect_features()`).
    pub fn from_features(set: FeatureSet) -> (r: Option<Self>)
        ensures
            r is Some <==> set@.contains(Feature::ThreeDNow),
    {
        if set.contains(Feature::ThreeDNow) {
            Some(ThreeDNow(()))
        } else {
            None
        }
    }
}

} // verus!
