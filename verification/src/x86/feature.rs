//! ISA feature flags and the bitset that holds them.
//!
//! A [`FeatureSet`] is modelled as the mathematical set of [`Feature`]s it
//! holds. Every feature owns one bit of a `u64`; bits above the last feature
//! are always clear, which is what lets `contains_all` be a single word test.

use vstd::prelude::*;

verus! {

/// Number of distinct [`Feature`] flags (and of meaningful bits in a [`FeatureSet`]).
pub const FEATURE_COUNT: u64 = 43;

/// One x86 ISA extension flag.
#[derive(Debug, Clone, Copy, PartialEq, Eq, Structural)]
pub enum Feature {
    /// SSE.
    Sse,
    /// SSE2.
    Sse2,
    /// SSE3.
    Sse3,
    /// SSSE3.
    Ssse3,
    /// SSE4.1.
    Sse41,
    /// SSE4.2.
    Sse42,
    /// POPCNT.
    Popcnt,
    /// MMX.
    Mmx,
    /// AVX.
    Avx,
    /// AVX2.
    Avx2,
    /// BMI1.
    Bmi1,
    /// BMI2.
    Bmi2,
    /// F16C.
    F16c,
    /// FMA3.
    Fma,
    /// LZCNT.
    Lzcnt,
    /// MOVBE.
    Movbe,
    /// XSAVE.
    Xsave,
    /// AVX-512 Foundation.
    Avx512f,
    /// AVX-512 byte/word.
    Avx512bw,
    /// AVX-512 conflict detection.
    Avx512cd,
    /// AVX-512 doubleword/quadword.
    Avx512dq,
    /// AVX-512 vector length extensions.
    Avx512vl,
    /// AVX-512 BF16.
    Avx512bf16,
    /// AVX-512 BITALG.
    Avx512bitalg,
    /// AVX-512 FP16.
    Avx512fp16,
    /// AVX-512 VNNI.
    Avx512vnni,
    /// AVX-512 IFMA.
    Avx512ifma,
    /// AVX-512 VPOPCNTDQ.
    Avx512vpopcntdq,
    /// AVX-512 VBMI.
    Avx512vbmi,
    /// AVX-512 VBMI2.
    Avx512vbmi2,
    /// AVX-IFMA (VEX).
    AvxIfma,
    /// AVX-VNNI (VEX).
    AvxVnni,
    /// AES-NI.
    Aes,
    /// PCLMULQDQ.
    Pclmulqdq,
    /// VAES.
    Vaes,
    /// VPCLMULQDQ.
    Vpclmulqdq,
    /// GFNI.
    Gfni,
    /// SHA.
    Sha,
    /// RTM.
    Rtm,
    /// SSE4a (AMD).
    Sse4a,
    /// XOP (AMD).
    Xop,
    /// FMA4 (AMD).
    Fma4,
    /// 3DNow! (AMD).
    ThreeDNow,
}

/// Bit position of a feature inside a [`FeatureSet`] word.
pub open spec fn feature_index(f: Feature) -> u64 {
    match f {
        Feature::Sse => 0,
        Feature::Sse2 => 1,
        Feature::Sse3 => 2,
        Feature::Ssse3 => 3,
        Feature::Sse41 => 4,
        Feature::Sse42 => 5,
        Feature::Popcnt => 6,
        Feature::Mmx => 7,
        Feature::Avx => 8,
        Feature::Avx2 => 9,
        Feature::Bmi1 => 10,
        Feature::Bmi2 => 11,
        Feature::F16c => 12,
        Feature::Fma => 13,
        Feature::Lzcnt => 14,
        Feature::Movbe => 15,
        Feature::Xsave => 16,
        Feature::Avx512f => 17,
        Feature::Avx512bw => 18,
        Feature::Avx512cd => 19,
        Feature::Avx512dq => 20,
        Feature::Avx512vl => 21,
        Feature::Avx512bf16 => 22,
        Feature::Avx512bitalg => 23,
        Feature::Avx512fp16 => 24,
        Feature::Avx512vnni => 25,
        Feature::Avx512ifma => 26,
        Feature::Avx512vpopcntdq => 27,
        Feature::Avx512vbmi => 28,
        Feature::Avx512vbmi2 => 29,
        Feature::AvxIfma => 30,
        Feature::AvxVnni => 31,
        Feature::Aes => 32,
        Feature::Pclmulqdq => 33,
        Feature::Vaes => 34,
        Feature::Vpclmulqdq => 35,
        Feature::Gfni => 36,
        Feature::Sha => 37,
        Feature::Rtm => 38,
        Feature::Sse4a => 39,
        Feature::Xop => 40,
        Feature::Fma4 => 41,
        Feature::ThreeDNow => 42,
    }
}

/// The feature that owns bit `i`, if any.
pub open spec fn feature_at(i: u64) -> Option<Feature> {
    if i == 0 {
        Some(Feature::Sse)
    } else if i == 1 {
        Some(Feature::Sse2)
    } else if i == 2 {
        Some(Feature::Sse3)
    } else if i == 3 {
        Some(Feature::Ssse3)
    } else if i == 4 {
        Some(Feature::Sse41)
    } else if i == 5 {
        Some(Feature::Sse42)
    } else if i == 6 {
        Some(Feature::Popcnt)
    } else if i == 7 {
        Some(Feature::Mmx)
    } else if i == 8 {
        Some(Feature::Avx)
    } else if i == 9 {
        Some(Feature::Avx2)
    } else if i == 10 {
        Some(Feature::Bmi1)
    } else if i == 11 {
        Some(Feature::Bmi2)
    } else if i == 12 {
        Some(Feature::F16c)
    } else if i == 13 {
        Some(Feature::Fma)
    } else if i == 14 {
        Some(Feature::Lzcnt)
    } else if i == 15 {
        Some(Feature::Movbe)
    } else if i == 16 {
        Some(Feature::Xsave)
    } else if i == 17 {
        Some(Feature::Avx512f)
    } else if i == 18 {
        Some(Feature::Avx512bw)
    } else if i == 19 {
        Some(Feature::Avx512cd)
    } else if i == 20 {
        Some(Feature::Avx512dq)
    } else if i == 21 {
        Some(Feature::Avx512vl)
    } else if i == 22 {
        Some(Feature::Avx512bf16)
    } else if i == 23 {
        Some(Feature::Avx512bitalg)
    } else if i == 24 {
        Some(Feature::Avx512fp16)
    } else if i == 25 {
        Some(Feature::Avx512vnni)
    } else if i == 26 {
        Some(Feature::Avx512ifma)
    } else if i == 27 {
        Some(Feature::Avx512vpopcntdq)
    } else if i == 28 {
        Some(Feature::Avx512vbmi)
    } else if i == 29 {
        Some(Feature::Avx512vbmi2)
    } else if i == 30 {
        Some(Feature::AvxIfma)
    } else if i == 31 {
        Some(Feature::AvxVnni)
    } else if i == 32 {
        Some(Feature::Aes)
    } else if i == 33 {
        Some(Feature::Pclmulqdq)
    } else if i == 34 {
        Some(Feature::Vaes)
    } else if i == 35 {
        Some(Feature::Vpclmulqdq)
    } else if i == 36 {
        Some(Feature::Gfni)
    } else if i == 37 {
        Some(Feature::Sha)
    } else if i == 38 {
        Some(Feature::Rtm)
    } else if i == 39 {
        Some(Feature::Sse4a)
    } else if i == 40 {
        Some(Feature::Xop)
    } else if i == 41 {
        Some(Feature::Fma4)
    } else if i == 42 {
        Some(Feature::ThreeDNow)
    } else {
        None
    }
}

/// Every feature index is below [`FEATURE_COUNT`], and bit positions identify features.
pub proof fn lemma_feature_index(f: Feature)
    ensures
        feature_index(f) < FEATURE_COUNT,
        feature_at(feature_index(f)) == Some(f),
{
}

/// Every bit below [`FEATURE_COUNT`] belongs to a feature.
pub proof fn lemma_feature_at(i: u64)
    requires
        i < FEATURE_COUNT,
    ensures
        feature_at(i) is Some,
        feature_index(feature_at(i).unwrap()) == i,
{
}

impl Feature {
    /// Single-bit mask of this feature inside a [`FeatureSet`] word.
    pub fn bit(self) -> (r: u64)
        ensures
            r == 1u64 << feature_index(self),
    {
        let i: u64 = match self {
            Feature::Sse => 0,
            Feature::Sse2 => 1,
            Feature::Sse3 => 2,
            Feature::Ssse3 => 3,
            Feature::Sse41 => 4,
            Feature::Sse42 => 5,
            Feature::Popcnt => 6,
            Feature::Mmx => 7,
            Feature::Avx => 8,
            Feature::Avx2 => 9,
            Feature::Bmi1 => 10,
            Feature::Bmi2 => 11,
            Feature::F16c => 12,
            Feature::Fma => 13,
            Feature::Lzcnt => 14,
            Feature::Movbe => 15,
            Feature::Xsave => 16,
            Feature::Avx512f => 17,
            Feature::Avx512bw => 18,
            Feature::Avx512cd => 19,
            Feature::Avx512dq => 20,
            Feature::Avx512vl => 21,
            Feature::Avx512bf16 => 22,
            Feature::Avx512bitalg => 23,
            Feature::Avx512fp16 => 24,
            Feature::Avx512vnni => 25,
            Feature::Avx512ifma => 26,
            Feature::Avx512vpopcntdq => 27,
            Feature::Avx512vbmi => 28,
            Feature::Avx512vbmi2 => 29,
            Feature::AvxIfma => 30,
            Feature::AvxVnni => 31,
            Feature::Aes => 32,
            Feature::Pclmulqdq => 33,
            Feature::Vaes => 34,
            Feature::Vpclmulqdq => 35,
            Feature::Gfni => 36,
            Feature::Sha => 37,
            Feature::Rtm => 38,
            Feature::Sse4a => 39,
            Feature::Xop => 40,
            Feature::Fma4 => 41,
            Feature::ThreeDNow => 42,
        };
        proof {
            lemma_feature_index(self);
        }
        1u64 << i
    }
}

} // verus!
