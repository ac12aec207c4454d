//! [`GenericLevel`]: the coarse x86-64 psABI tiers V1..V4 and the features each one requires.

use vstd::prelude::*;

use super::feature::Feature;
use super::feature_set::FeatureSet;

verus! {

/// Coarse psABI tier.
#[derive(Debug, Clone, Copy, PartialEq, Eq, PartialOrd, Ord, Structural)]
pub enum GenericLevel {
    /// x86-64 baseline (SSE, SSE2).
    V1,
    /// x86-64-v2: POPCNT, SSE3, SSSE3, SSE4.1, SSE4.2.
    V2,
    /// x86-64-v3: v2 plus AVX2, BMI1, BMI2, F16C, FMA, LZCNT, MOVBE, XSAVE.
    V3,
    /// x86-64-v4: v3 plus AVX-512 F, BW, CD, DQ, VL.
    V4,
}

/// The features of the x86-64-v2 bundle.
pub open spec fn v2_features() -> Set<Feature> {
    set![Feature::Popcnt, Feature::Sse3, Feature::Ssse3, Feature::Sse41, Feature::Sse42]
}

/// The features of the x86-64-v3 bundle (including v2's).
pub open spec fn v3_features() -> Set<Feature> {
    v2_features().union(
        set![
            Feature::Avx2,
            Feature::Bmi1,
            Feature::Bmi2,
            Feature::F16c,
            Feature::Fma,
            Feature::Lzcnt,
            Feature::Movbe,
            Feature::Xsave,
        ],
    )
}

/// The features of the x86-64-v4 bundle (including v3's).
pub open spec fn v4_features() -> Set<Feature> {
    v3_features().union(
        set![
            Feature::Avx512f,
            Feature::Avx512bw,
            Feature::Avx512cd,
            Feature::Avx512dq,
            Feature::Avx512vl,
        ],
    )
}

/// The features a tier requires.
pub open spec fn level_features(level: GenericLevel) -> Set<Feature> {
    match level {
        GenericLevel::V1 => set![Feature::Sse, Feature::Sse2],
        GenericLevel::V2 => v2_features(),
        GenericLevel::V3 => v3_features(),
        GenericLevel::V4 => v4_features(),
    }
}

/// Each tier from V2 up requires everything the tier below it requires.
pub proof fn lemma_levels_nested()
    ensures
        level_features(GenericLevel::V2).subset_of(level_features(GenericLevel::V3)),
        level_features(GenericLevel::V3).subset_of(level_features(GenericLevel::V4)),
{
}

/// What each tier from V2 up adds, as the psABI lists it: V2 needs POPCNT and SSE3 through
/// SSE4.2; V3 adds AVX2, BMI1, BMI2, F16C, FMA, LZCNT, MOVBE and XSAVE; V4 adds AVX-512 F, BW,
/// CD, DQ and VL.
pub proof fn lemma_level_bundles()
    ensures
        forall|f: Feature|
            #[trigger] level_features(GenericLevel::V2).contains(f) <==> (f == Feature::Popcnt || f
                == Feature::Sse3 || f == Feature::Ssse3 || f == Feature::Sse41 || f == Feature::Sse42),
        forall|f: Feature|
            #[trigger] level_features(GenericLevel::V3).contains(f) <==> (level_features(
                GenericLevel::V2,
            ).contains(f) || f == Feature::Avx2 || f == Feature::Bmi1 || f == Feature::Bmi2 || f
                == Feature::F16c || f == Feature::Fma || f == Feature::Lzcnt || f == Feature::Movbe
                || f == Feature::Xsave),
        forall|f: Feature|
            #[trigger] level_features(GenericLevel::V4).contains(f) <==> (level_features(
                GenericLevel::V3,
            ).contains(f) || f == Feature::Avx512f || f == Feature::Avx512bw || f
                == Feature::Avx512cd || f == Feature::Avx512dq || f == Feature::Avx512vl),
{
}

impl GenericLevel {
    /// The features this tier requires, as a set.
    pub fn required_features(self) -> (r: FeatureSet)
        ensures
            r.wf(),
            r@ == level_features(self),
    {
        let base = FeatureSet::empty();
        match self {
            GenericLevel::V1 => {
                let r = base.with(Feature::Sse).with(Feature::Sse2);
                assert(r@ =~= level_features(self));
                r
            },
            GenericLevel::V2 => {
                let r = v2_set();
                r
            },
            GenericLevel::V3 => {
                let r = v3_set();
                r
            },
            GenericLevel::V4 => {
                let r = v3_set().with(Feature::Avx512f).with(Feature::Avx512bw).with(
                    Feature::Avx512cd,
                ).with(Feature::Avx512dq).with(Feature::Avx512vl);
                assert(r@ =~= level_features(self));
                r
            },
        }
    }
}

fn v2_set() -> (r: FeatureSet)
    ensures
        r.wf(),
        r@ == v2_features(),
{
    let r = FeatureSet::empty().with(Feature::Popcnt).with(Feature::Sse3).with(Feature::Ssse3).with(
        Feature::Sse41,
    ).with(Feature::Sse42);
    assert(r@ =~= v2_features());
    r
}

fn v3_set() -> (r: FeatureSet)
    ensures
        r.wf(),
        r@ == v3_features(),
{
    let r = v2_set().with(Feature::Avx2).with(Feature::Bmi1).with(Feature::Bmi2).with(
        Feature::F16c,
    ).with(Feature::Fma).with(Feature::Lzcnt).with(Feature::Movbe).with(Feature::Xsave);
    assert(r@ =~= v3_features());
    r
}

} // verus!
