use miraculix::x86::ops::avx512::avx512vl::{Avx512BitalgVl, Avx512VbmiVl};
use miraculix::x86::ops::avx512::avx512vnni::Avx512Vnni;
use miraculix::x86::ops::other::gfni::{Gfni, Gfni512};
use miraculix::x86::ops::other::pclmulqdq::Pclmulqdq;
use miraculix::x86::ops::other::popcnt::Popcnt;
use miraculix::x86::ops::other::rtm::{xbegin_outcome, XBEGIN_STARTED};
use miraculix::x86::ops::sse::sse2::Sse2;
use miraculix::x86::ops::sse::sse41::Sse41;
use miraculix::x86::ops::sse::sse42::Sse42;
use miraculix::x86::ops::sse::ssse3::Ssse3;
use miraculix::x86::shortpath::{assumed_level, host_supports, resolve, ResolvedPath};
use miraculix::x86::{Feature, FeatureSet, GenericLevel};

#[test]
fn empty_set_contains_nothing() {
    let s = FeatureSet::empty();
    assert!(!s.contains(Feature::Sse));
    assert!(!s.contains(Feature::Avx512vl));
    assert!(!s.contains(Feature::Xop));
    assert_eq!(s, FeatureSet::default());
}

#[test]
fn with_adds_exactly_one_feature() {
    let s = FeatureSet::empty().with(Feature::Sse42);
    assert!(s.contains(Feature::Sse42));
    assert!(!s.contains(Feature::Sse41));
    assert!(!s.contains(Feature::Popcnt));
    // adding twice is the same as adding once
    assert_eq!(s.with(Feature::Sse42), s);
}

#[test]
fn union_holds_both_sides() {
    let a = FeatureSet::empty().with(Feature::Aes).with(Feature::Sha);
    let b = FeatureSet::empty().with(Feature::Gfni);
    let u = a.union(b);
    assert!(u.contains(Feature::Aes));
    assert!(u.contains(Feature::Sha));
    assert!(u.contains(Feature::Gfni));
    assert!(!u.contains(Feature::Vaes));
    assert_eq!(a.union(b), b.union(a));
}

#[test]
fn contains_all_is_subset() {
    let small = FeatureSet::empty().with(Feature::Sse).with(Feature::Sse2);
    let big = small.with(Feature::Sse3);
    assert!(big.contains_all(small));
    assert!(!small.contains_all(big));
    assert!(small.contains_all(FeatureSet::empty()));
    assert!(FeatureSet::empty().contains_all(FeatureSet::empty()));
}

#[test]
fn tokens_need_their_feature() {
    let none = FeatureSet::empty();
    assert!(Sse2::from_features(none).is_none());
    assert!(Popcnt::from_features(none).is_none());
    assert!(Gfni::from_features(none).is_none());
    let set = none.with(Feature::Sse2).with(Feature::Popcnt).with(Feature::Gfni);
    assert!(Sse2::from_features(set).is_some());
    assert!(Popcnt::from_features(set).is_some());
    assert!(Gfni::from_features(set).is_some());
    assert!(Sse41::from_features(set).is_none());
}

#[test]
fn composite_tokens_need_every_feature() {
    // GFNI at 512 bits needs AVX-512F as well.
    let gfni = FeatureSet::empty().with(Feature::Gfni);
    assert!(Gfni512::from_features(gfni).is_none());
    assert!(Gfni512::from_features(gfni.with(Feature::Avx512f)).is_some());
    // VL forms need AVX-512VL next to the extension itself.
    let vbmi = FeatureSet::empty().with(Feature::Avx512vbmi);
    assert!(Avx512VbmiVl::from_features(vbmi).is_none());
    assert!(Avx512VbmiVl::from_features(vbmi.with(Feature::Avx512vl)).is_some());
    let bitalg = FeatureSet::empty().with(Feature::Avx512bitalg).with(Feature::Avx512vl);
    assert!(Avx512BitalgVl::from_features(bitalg).is_some());
    let vnni = FeatureSet::empty().with(Feature::Avx512vnni);
    assert!(Avx512Vnni::from_features(vnni).is_some());
    assert!(Pclmulqdq::from_features(vnni).is_none());
    assert!(Ssse3::from_features(FeatureSet::empty().with(Feature::Ssse3)).is_some());
    assert!(Sse42::from_features(FeatureSet::empty().with(Feature::Sse42)).is_some());
}

fn v2() -> FeatureSet {
    FeatureSet::empty()
        .with(Feature::Popcnt)
        .with(Feature::Sse3)
        .with(Feature::Ssse3)
        .with(Feature::Sse41)
        .with(Feature::Sse42)
}

fn v3() -> FeatureSet {
    v2().with(Feature::Avx2)
        .with(Feature::Bmi1)
        .with(Feature::Bmi2)
        .with(Feature::F16c)
        .with(Feature::Fma)
        .with(Feature::Lzcnt)
        .with(Feature::Movbe)
        .with(Feature::Xsave)
}

fn v4() -> FeatureSet {
    v3().with(Feature::Avx512f)
        .with(Feature::Avx512bw)
        .with(Feature::Avx512cd)
        .with(Feature::Avx512dq)
        .with(Feature::Avx512vl)
}

#[test]
fn required_features_match_the_psabi_tiers() {
    assert_eq!(GenericLevel::V2.required_features(), v2());
    assert_eq!(GenericLevel::V3.required_features(), v3());
    assert_eq!(GenericLevel::V4.required_features(), v4());
    let v1 = FeatureSet::empty().with(Feature::Sse).with(Feature::Sse2);
    assert_eq!(GenericLevel::V1.required_features(), v1);
}

#[test]
fn tiers_are_nested() {
    assert!(v3().contains_all(v2()));
    assert!(v4().contains_all(v3()));
    assert!(!v2().contains_all(v3()));
}

#[test]
fn assumed_level_picks_the_highest_full_tier() {
    assert_eq!(assumed_level(FeatureSet::empty()), None);
    assert_eq!(assumed_level(v2()), Some(GenericLevel::V2));
    assert_eq!(assumed_level(v3()), Some(GenericLevel::V3));
    assert_eq!(assumed_level(v4()), Some(GenericLevel::V4));
    // AVX-512 without CD does not make a V4 build.
    let partial = v3()
        .with(Feature::Avx512f)
        .with(Feature::Avx512bw)
        .with(Feature::Avx512dq)
        .with(Feature::Avx512vl);
    assert_eq!(assumed_level(partial), Some(GenericLevel::V3));
    // One V2 feature missing drops to no tier at all.
    let no_popcnt = FeatureSet::empty()
        .with(Feature::Sse3)
        .with(Feature::Ssse3)
        .with(Feature::Sse41)
        .with(Feature::Sse42)
        .with(Feature::Avx2);
    assert_eq!(assumed_level(no_popcnt), None);
}

#[test]
fn resolve_maps_level_to_path() {
    assert_eq!(resolve(None), ResolvedPath::RuntimeDispatch);
    assert_eq!(resolve(Some(GenericLevel::V3)), ResolvedPath::Assumed(GenericLevel::V3));
}

#[test]
fn host_supports_checks_the_assumed_tier() {
    assert!(host_supports(ResolvedPath::RuntimeDispatch, FeatureSet::empty()));
    assert!(host_supports(ResolvedPath::Assumed(GenericLevel::V3), v4()));
    assert!(host_supports(ResolvedPath::Assumed(GenericLevel::V3), v3()));
    assert!(!host_supports(ResolvedPath::Assumed(GenericLevel::V4), v3()));
    assert!(!host_supports(ResolvedPath::Assumed(GenericLevel::V2), FeatureSet::empty()));
}

#[test]
fn xbegin_status_maps_to_result() {
    assert_eq!(xbegin_outcome(XBEGIN_STARTED), Ok(()));
    assert_eq!(xbegin_outcome(0), Err(0));
    assert_eq!(xbegin_outcome(1 << 1), Err(2));
}
