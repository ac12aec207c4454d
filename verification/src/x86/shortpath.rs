//! Compile-time shortpath (advanced / startup).
//!
//! Most callers never need this module. It answers "was a whole tier assumed when this
//! binary was built?" and decides whether a host satisfies the tier a binary assumes. The
//! compile-time flags themselves are read by the program around the library; the decisions
//! on them live here.

use vstd::prelude::*;

use super::feature_set::FeatureSet;
use super::feature::Feature;
use super::tiers::{level_features, GenericLevel};

verus! {

/// Result of [`resolve`]: was a whole tier assumed when this binary was built?
#[derive(Debug, Clone, Copy, PartialEq, Eq, Structural)]
pub enum ResolvedPath {
    /// Compiler flags already guarantee this [`GenericLevel`] (no runtime probe needed for the
    /// tier).
    Assumed(GenericLevel),
    /// Must probe the host at runtime.
    RuntimeDispatch,
}

/// The highest tier from V2 up whose required features all lie in `set`, if any (tier
/// bucketing is whole-bundle-or-nothing).
pub open spec fn spec_highest_level(set: Set<Feature>) -> Option<GenericLevel> {
    if level_features(GenericLevel::V4).subset_of(set) {
        Some(GenericLevel::V4)
    } else if level_features(GenericLevel::V3).subset_of(set) {
        Some(GenericLevel::V3)
    } else if level_features(GenericLevel::V2).subset_of(set) {
        Some(GenericLevel::V2)
    } else {
        None
    }
}

/// The order of the tiers: V1 below V2 below V3 below V4.
pub open spec fn level_rank(level: GenericLevel) -> int {
    match level {
        GenericLevel::V1 => 1,
        GenericLevel::V2 => 2,
        GenericLevel::V3 => 3,
        GenericLevel::V4 => 4,
    }
}

/// The tier a feature set resolves to is present in full, and it is the highest such tier:
/// a tier from V2 up is only reported when every feature it requires is in the set, and every
/// tier from V2 up whose features are all in the set is at or below the one reported.
pub proof fn lemma_highest_level_is_highest_present(set: Set<Feature>)
    ensures
        match spec_highest_level(set) {
            Some(l) => l != GenericLevel::V1 && level_features(l).subset_of(set),
            None => true,
        },
        forall|l: GenericLevel|
            l != GenericLevel::V1 && #[trigger] level_features(l).subset_of(set) ==> match spec_highest_level(set) {
                Some(m) => level_rank(l) <= level_rank(m),
                None => false,
            },
{
    crate::x86::tiers::lemma_levels_nested();
}

/// The tier a build assumes, given the features its compile-time flags guarantee: the
/// highest of V2..V4 whose whole bundle is present, or `None`.
pub fn assumed_level(compile_time: FeatureSet) -> (r: Option<GenericLevel>)
    requires
        compile_time.wf(),
    ensures
        r == spec_highest_level(compile_time@),
{
    let v4 = GenericLevel::V4.required_features();
    if compile_time.contains_all(v4) {
        return Some(GenericLevel::V4);
    }
    let v3 = GenericLevel::V3.required_features();
    if compile_time.contains_all(v3) {
        return Some(GenericLevel::V3);
    }
    let v2 = GenericLevel::V2.required_features();
    if compile_time.contains_all(v2) {
        return Some(GenericLevel::V2);
    }
    None
}

/// Did compile flags assume a full [`GenericLevel`] for this binary? `compile_time_level` is
/// the tier the build assumes (see [`assumed_level`]).
pub fn resolve(compile_time_level: Option<GenericLevel>) -> (r: ResolvedPath)
    ensures
        r == match compile_time_level {
            Some(level) => ResolvedPath::Assumed(level),
            None => ResolvedPath::RuntimeDispatch,
        },
{
    match compile_time_level {
        Some(level) => ResolvedPath::Assumed(level),
        None => ResolvedPath::RuntimeDispatch,
    }
}

/// Whether a host with features `host` can run a binary resolved as `path`: always for
/// runtime dispatch, else exactly when the host has every feature of the assumed tier.
pub fn host_supports(path: ResolvedPath, host: FeatureSet) -> (r: bool)
    requires
        host.wf(),
    ensures
        r == match path {
            ResolvedPath::Assumed(level) => level_features(level).subset_of(host@),
            ResolvedPath::RuntimeDispatch => true,
        },
{
    match path {
        ResolvedPath::Assumed(level) => host.contains_all(level.required_features()),
        ResolvedPath::RuntimeDispatch => true,
    }
}

} // verus!
