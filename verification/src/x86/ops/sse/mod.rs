//! SSE family tokens: [`sse::Sse`], [`sse2::Sse2`], [`sse3::Sse3`], [`sse41::Sse41`],
//! [`sse42::Sse42`].

pub mod sse;
pub mod sse2;
pub mod sse2_lanes;
pub mod sse3;
pub mod ssse3;
pub mod sse41;
pub mod sse41_lanes;
pub mod crc32c;
pub mod sse42;
