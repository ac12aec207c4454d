//! Token-gated SIMD lane operations.
//!
//! Each extension is a zero-sized token that can only be obtained from a
//! [`super::FeatureSet`] holding the extension. Methods on the token take and
//! return fixed-width lane arrays (or equal-length slices) and are specified
//! lane by lane.

pub mod avx512;
pub(crate) mod chunk;
pub(crate) mod lane_ops;
pub mod lanes;
pub mod mmx;
pub mod other;
pub mod sse;
pub mod wide;

