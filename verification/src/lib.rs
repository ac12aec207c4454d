//! miraculix: token-gated SIMD lane operations with verified lane semantics.

pub mod x86;
