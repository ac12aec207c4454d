//! x86 / x86_64: feature flags, psABI tiers, the compile-time shortpath, and token-gated ops.

pub mod feature;
pub mod feature_set;
pub mod ops;
pub mod shortpath;
pub mod tiers;

pub use feature::Feature;
pub use feature_set::FeatureSet;
pub use tiers::GenericLevel;
