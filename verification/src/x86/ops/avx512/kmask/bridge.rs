//! Mask<->vector bridge (`movepi*_mask` / `movm_epi*`) for 512-bit (`Avx512Bw`/`Avx512Dq`) and
//! 128/256-bit (`Avx512BwVl`/`Avx512DqVl`). Mask bit `i` is the sign of lane `i`; a mask wider
//! than the lane count has its upper bits clear. See [`super`] for feature gating.

use vstd::prelude::*;

use super::super::avx512bw::Avx512Bw;
use super::super::avx512vl::Avx512BwVl;
use super::super::avx512dq::Avx512Dq;
use super::super::avx512vl::Avx512DqVl;
use super::super::super::super::feature_set::{bit_set, lemma_agree_from, lemma_word_bits};
use super::{lemma_narrow_words, mask_lane_i16, mask_lane_i32, mask_lane_i64, mask_lane_i8};

verus! {

/// Bit `j` of the result is the sign of `a[j]`; the bits from `a.len()` up are clear.
fn sign_bits_i8(a: &[i8]) -> (m: u64)
    requires
        a@.len() <= 64,
    ensures
        forall|j: int| 0 <= j < a@.len() ==> bit_set(m, j as u64) == (a@[j] < 0),
        forall|j: u64| a@.len() <= j < 64 ==> !bit_set(m, j),
{
    let mut m: u64 = 0;
    let len = a.len();
    let mut i: usize = 0;
    proof {
        assert forall|j: u64| j < 64 implies !bit_set(0u64, j) by {
            lemma_word_bits(0, 0, j, 0, 0);
        }
    }
    while i < len
        invariant
            i <= len,
            len == a@.len(),
            len <= 64,
            forall|j: int| 0 <= j < i ==> bit_set(m, j as u64) == (a@[j] < 0),
            forall|j: u64| i <= j < 64 ==> !bit_set(m, j),
        decreases len - i,
    {
        if a[i] < 0 {
            let bit: u64 = 1u64 << (i as u64);
            proof {
                assert forall|j: u64| j < 64 implies #[trigger] bit_set(m | bit, j) == (bit_set(m, j)
                    || j == i as u64) by {
                    lemma_word_bits(m, bit, j, 0, 0);
                    lemma_word_bits(0, 0, i as u64, j, 0);
                }
            }
            m = m | bit;
        }
        i += 1;
    }
    m
}

/// Bit `j` of the result is the sign of `a[j]`; the bits from `a.len()` up are clear.
fn sign_bits_i16(a: &[i16]) -> (m: u64)
    requires
        a@.len() <= 64,
    ensures
        forall|j: int| 0 <= j < a@.len() ==> bit_set(m, j as u64) == (a@[j] < 0),
        forall|j: u64| a@.len() <= j < 64 ==> !bit_set(m, j),
{
    let mut m: u64 = 0;
    let len = a.len();
    let mut i: usize = 0;
    proof {
        assert forall|j: u64| j < 64 implies !bit_set(0u64, j) by {
            lemma_word_bits(0, 0, j, 0, 0);
        }
    }
    while i < len
        invariant
            i <= len,
            len == a@.len(),
            len <= 64,
            forall|j: int| 0 <= j < i ==> bit_set(m, j as u64) == (a@[j] < 0),
            forall|j: u64| i <= j < 64 ==> !bit_set(m, j),
        decreases len - i,
    {
        if a[i] < 0 {
            let bit: u64 = 1u64 << (i as u64);
            proof {
                assert forall|j: u64| j < 64 implies #[trigger] bit_set(m | bit, j) == (bit_set(m, j)
                    || j == i as u64) by {
                    lemma_word_bits(m, bit, j, 0, 0);
                    lemma_word_bits(0, 0, i as u64, j, 0);
                }
            }
            m = m | bit;
        }
        i += 1;
    }
    m
}

/// Bit `j` of the result is the sign of `a[j]`; the bits from `a.len()` up are clear.
fn sign_bits_i32(a: &[i32]) -> (m: u64)
    requires
        a@.len() <= 64,
    ensures
        forall|j: int| 0 <= j < a@.len() ==> bit_set(m, j as u64) == (a@[j] < 0),
        forall|j: u64| a@.len() <= j < 64 ==> !bit_set(m, j),
{
    let mut m: u64 = 0;
    let len = a.len();
    let mut i: usize = 0;
    proof {
        assert forall|j: u64| j < 64 implies !bit_set(0u64, j) by {
            lemma_word_bits(0, 0, j, 0, 0);
        }
    }
    while i < len
        invariant
            i <= len,
            len == a@.len(),
            len <= 64,
            forall|j: int| 0 <= j < i ==> bit_set(m, j as u64) == (a@[j] < 0),
            forall|j: u64| i <= j < 64 ==> !bit_set(m, j),
        decreases len - i,
    {
        if a[i] < 0 {
            let bit: u64 = 1u64 << (i as u64);
            proof {
                assert forall|j: u64| j < 64 implies #[trigger] bit_set(m | bit, j) == (bit_set(m, j)
                    || j == i as u64) by {
                    lemma_word_bits(m, bit, j, 0, 0);
                    lemma_word_bits(0, 0, i as u64, j, 0);
                }
            }
            m = m | bit;
        }
        i += 1;
    }
    m
}

/// Bit `j` of the result is the sign of `a[j]`; the bits from `a.len()` up are clear.
fn sign_bits_i64(a: &[i64]) -> (m: u64)
    requires
        a@.len() <= 64,
    ensures
        forall|j: int| 0 <= j < a@.len() ==> bit_set(m, j as u64) == (a@[j] < 0),
        forall|j: u64| a@.len() <= j < 64 ==> !bit_set(m, j),
{
    let mut m: u64 = 0;
    let len = a.len();
    let mut i: usize = 0;
    proof {
        assert forall|j: u64| j < 64 implies !bit_set(0u64, j) by {
            lemma_word_bits(0, 0, j, 0, 0);
        }
    }
    while i < len
        invariant
            i <= len,
            len == a@.len(),
            len <= 64,
            forall|j: int| 0 <= j < i ==> bit_set(m, j as u64) == (a@[j] < 0),
            forall|j: u64| i <= j < 64 ==> !bit_set(m, j),
        decreases len - i,
    {
        if a[i] < 0 {
            let bit: u64 = 1u64 << (i as u64);
            proof {
                assert forall|j: u64| j < 64 implies #[trigger] bit_set(m | bit, j) == (bit_set(m, j)
                    || j == i as u64) by {
                    lemma_word_bits(m, bit, j, 0, 0);
                    lemma_word_bits(0, 0, i as u64, j, 0);
                }
            }
            m = m | bit;
        }
        i += 1;
    }
    m
}

/// The low 8 bits of a word whose higher bits are clear, as a `u8` of the same value.
fn narrow_u8(x: u64) -> (r: u8)
    requires
        forall|j: u64| 8 <= j < 64 ==> !bit_set(x, j),
    ensures
        r as u64 == x,
{
    proof {
        assert forall|j: u64| 8u64 <= j < 64 implies bit_set(x, j) == bit_set(0u64, j) by {
            lemma_word_bits(0, 0, j, 0, 0);
        }
        lemma_agree_from(x, 0, 8);
        lemma_narrow_words(x, 0, 0, 0, 8);
    }
    x as u8
}

/// The low 16 bits of a word whose higher bits are clear, as a `u16` of the same value.
fn narrow_u16(x: u64) -> (r: u16)
    requires
        forall|j: u64| 16 <= j < 64 ==> !bit_set(x, j),
    ensures
        r as u64 == x,
{
    proof {
        assert forall|j: u64| 16u64 <= j < 64 implies bit_set(x, j) == bit_set(0u64, j) by {
            lemma_word_bits(0, 0, j, 0, 0);
        }
        lemma_agree_from(x, 0, 16);
        lemma_narrow_words(x, 0, 0, 0, 16);
    }
    x as u16
}

/// The low 32 bits of a word whose higher bits are clear, as a `u32` of the same value.
fn narrow_u32(x: u64) -> (r: u32)
    requires
        forall|j: u64| 32 <= j < 64 ==> !bit_set(x, j),
    ensures
        r as u64 == x,
{
    proof {
        assert forall|j: u64| 32u64 <= j < 64 implies bit_set(x, j) == bit_set(0u64, j) by {
            lemma_word_bits(0, 0, j, 0, 0);
        }
        lemma_agree_from(x, 0, 32);
        lemma_narrow_words(x, 0, 0, 0, 32);
    }
    x as u32
}

impl Avx512Bw {
    /// Extract a mask from each lane's sign bit (`vpmovb2m`): bit `i` is set iff `a[i] < 0`.
    pub fn movepi8_mask(self, a: [i8; 64]) -> (r: u64)
        ensures
            forall|i: int| 0 <= i < 64 ==> bit_set(r as u64, i as u64) == (a[i] < 0),
    {
        sign_bits_i8(&a)
    }

    /// Expand a mask into lanes, each all-1 if its bit is set, else 0 (`vpmovm2b`).
    pub fn movm_epi8(self, k: u64) -> (r: [i8; 64])
        ensures
            forall|i: int| 0 <= i < 64 ==> r[i] == mask_lane_i8(k as u64, i),
    {
        let mut out = [0i8; 64];
        let mut i: usize = 0;
        while i < 64
            invariant
                i <= 64,
                forall|j: int| 0 <= j < i ==> out[j] == mask_lane_i8(k as u64, j),
            decreases 64 - i,
        {
            out[i] = if (k as u64) & (1u64 << (i as u64)) != 0 {
                -1
            } else {
                0
            };
            i += 1;
        }
        out
    }

    /// Extract a mask from each lane's sign bit (`vpmovw2m`): bit `i` is set iff `a[i] < 0`.
    pub fn movepi16_mask(self, a: [i16; 32]) -> (r: u32)
        ensures
            forall|i: int| 0 <= i < 32 ==> bit_set(r as u64, i as u64) == (a[i] < 0),
            forall|i: u64| 32 <= i < 64 ==> !#[trigger] bit_set(r as u64, i),
    {
        narrow_u32(sign_bits_i16(&a))
    }

    /// Expand a mask into lanes, each all-1 if its bit is set, else 0 (`vpmovm2w`).
    pub fn movm_epi16(self, k: u32) -> (r: [i16; 32])
        ensures
            forall|i: int| 0 <= i < 32 ==> r[i] == mask_lane_i16(k as u64, i),
    {
        let mut out = [0i16; 32];
        let mut i: usize = 0;
        while i < 32
            invariant
                i <= 32,
                forall|j: int| 0 <= j < i ==> out[j] == mask_lane_i16(k as u64, j),
            decreases 32 - i,
        {
            out[i] = if (k as u64) & (1u64 << (i as u64)) != 0 {
                -1
            } else {
                0
            };
            i += 1;
        }
        out
    }
}

impl Avx512Dq {
    /// Extract a mask from each lane's sign bit (`vpmovd2m`): bit `i` is set iff `a[i] < 0`.
    pub fn movepi32_mask(self, a: [i32; 16]) -> (r: u16)
        ensures
            forall|i: int| 0 <= i < 16 ==> bit_set(r as u64, i as u64) == (a[i] < 0),
            forall|i: u64| 16 <= i < 64 ==> !#[trigger] bit_set(r as u64, i),
    {
        narrow_u16(sign_bits_i32(&a))
    }

    /// Expand a mask into lanes, each all-1 if its bit is set, else 0 (`vpmovm2d`).
    pub fn movm_epi32(self, k: u16) -> (r: [i32; 16])
        ensures
            forall|i: int| 0 <= i < 16 ==> r[i] == mask_lane_i32(k as u64, i),
    {
        let mut out = [0i32; 16];
        let mut i: usize = 0;
        while i < 16
            invariant
                i <= 16,
                forall|j: int| 0 <= j < i ==> out[j] == mask_lane_i32(k as u64, j),
            decreases 16 - i,
        {
            out[i] = if (k as u64) & (1u64 << (i as u64)) != 0 {
                -1
            } else {
                0
            };
            i += 1;
        }
        out
    }

    /// Extract a mask from each lane's sign bit (`vpmovq2m`): bit `i` is set iff `a[i] < 0`.
    pub fn movepi64_mask(self, a: [i64; 8]) -> (r: u8)
        ensures
            forall|i: int| 0 <= i < 8 ==> bit_set(r as u64, i as u64) == (a[i] < 0),
            forall|i: u64| 8 <= i < 64 ==> !#[trigger] bit_set(r as u64, i),
    {
        narrow_u8(sign_bits_i64(&a))
    }

    /// Expand a mask into lanes, each all-1 if its bit is set, else 0 (`vpmovm2q`).
    pub fn movm_epi64(self, k: u8) -> (r: [i64; 8])
        ensures
            forall|i: int| 0 <= i < 8 ==> r[i] == mask_lane_i64(k as u64, i),
    {
        let mut out = [0i64; 8];
        let mut i: usize = 0;
        while i < 8
            invariant
                i <= 8,
                forall|j: int| 0 <= j < i ==> out[j] == mask_lane_i64(k as u64, j),
            decreases 8 - i,
        {
            out[i] = if (k as u64) & (1u64 << (i as u64)) != 0 {
                -1
            } else {
                0
            };
            i += 1;
        }
        out
    }
}

impl Avx512BwVl {
    /// Extract a mask from each lane's sign bit (`vpmovb2m`, 128-bit): bit `i` is set iff `a[i] < 0`.
    pub fn movepi8_mask_x16(self, a: [i8; 16]) -> (r: u16)
        ensures
            forall|i: int| 0 <= i < 16 ==> bit_set(r as u64, i as u64) == (a[i] < 0),
            forall|i: u64| 16 <= i < 64 ==> !#[trigger] bit_set(r as u64, i),
    {
        narrow_u16(sign_bits_i8(&a))
    }

    /// Expand a mask into lanes, each all-1 if its bit is set, else 0 (`vpmovm2b`, 128-bit).
    pub fn movm_epi8_x16(self, k: u16) -> (r: [i8; 16])
        ensures
            forall|i: int| 0 <= i < 16 ==> r[i] == mask_lane_i8(k as u64, i),
    {
        let mut out = [0i8; 16];
        let mut i: usize = 0;
        while i < 16
            invariant
                i <= 16,
                forall|j: int| 0 <= j < i ==> out[j] == mask_lane_i8(k as u64, j),
            decreases 16 - i,
        {
            out[i] = if (k as u64) & (1u64 << (i as u64)) != 0 {
                -1
            } else {
                0
            };
            i += 1;
        }
        out
    }

    /// Extract a mask from each lane's sign bit (`vpmovb2m`, 256-bit): bit `i` is set iff `a[i] < 0`.
    pub fn movepi8_mask_x32(self, a: [i8; 32]) -> (r: u32)
        ensures
            forall|i: int| 0 <= i < 32 ==> bit_set(r as u64, i as u64) == (a[i] < 0),
            forall|i: u64| 32 <= i < 64 ==> !#[trigger] bit_set(r as u64, i),
    {
        narrow_u32(sign_bits_i8(&a))
    }

    /// Expand a mask into lanes, each all-1 if its bit is set, else 0 (`vpmovm2b`, 256-bit).
    pub fn movm_epi8_x32(self, k: u32) -> (r: [i8; 32])
        ensures
            forall|i: int| 0 <= i < 32 ==> r[i] == mask_lane_i8(k as u64, i),
    {
        let mut out = [0i8; 32];
        let mut i: usize = 0;
        while i < 32
            invariant
                i <= 32,
                forall|j: int| 0 <= j < i ==> out[j] == mask_lane_i8(k as u64, j),
            decreases 32 - i,
        {
            out[i] = if (k as u64) & (1u64 << (i as u64)) != 0 {
                -1
            } else {
                0
            };
            i += 1;
        }
        out
    }

    /// Extract a mask from each lane's sign bit (`vpmovw2m`, 128-bit): bit `i` is set iff `a[i] < 0`.
    pub fn movepi16_mask_x8(self, a: [i16; 8]) -> (r: u8)
        ensures
            forall|i: int| 0 <= i < 8 ==> bit_set(r as u64, i as u64) == (a[i] < 0),
            forall|i: u64| 8 <= i < 64 ==> !#[trigger] bit_set(r as u64, i),
    {
        narrow_u8(sign_bits_i16(&a))
    }

    /// Expand a mask into lanes, each all-1 if its bit is set, else 0 (`vpmovm2w`, 128-bit).
    pub fn movm_epi16_x8(self, k: u8) -> (r: [i16; 8])
        ensures
            forall|i: int| 0 <= i < 8 ==> r[i] == mask_lane_i16(k as u64, i),
    {
        let mut out = [0i16; 8];
        let mut i: usize = 0;
        while i < 8
            invariant
                i <= 8,
                forall|j: int| 0 <= j < i ==> out[j] == mask_lane_i16(k as u64, j),
            decreases 8 - i,
        {
            out[i] = if (k as u64) & (1u64 << (i as u64)) != 0 {
                -1
            } else {
                0
            };
            i += 1;
        }
        out
    }

    /// Extract a mask from each lane's sign bit (`vpmovw2m`, 256-bit): bit `i` is set iff `a[i] < 0`.
    pub fn movepi16_mask_x16(self, a: [i16; 16]) -> (r: u16)
        ensures
            forall|i: int| 0 <= i < 16 ==> bit_set(r as u64, i as u64) == (a[i] < 0),
            forall|i: u64| 16 <= i < 64 ==> !#[trigger] bit_set(r as u64, i),
    {
        narrow_u16(sign_bits_i16(&a))
    }

    /// Expand a mask into lanes, each all-1 if its bit is set, else 0 (`vpmovm2w`, 256-bit).
    pub fn movm_epi16_x16(self, k: u16) -> (r: [i16; 16])
        ensures
            forall|i: int| 0 <= i < 16 ==> r[i] == mask_lane_i16(k as u64, i),
    {
        let mut out = [0i16; 16];
        let mut i: usize = 0;
        while i < 16
            invariant
                i <= 16,
                forall|j: int| 0 <= j < i ==> out[j] == mask_lane_i16(k as u64, j),
            decreases 16 - i,
        {
            out[i] = if (k as u64) & (1u64 << (i as u64)) != 0 {
                -1
            } else {
                0
            };
            i += 1;
        }
        out
    }
}

impl Avx512DqVl {
    /// Extract a mask from each lane's sign bit (`vpmovd2m`, 128-bit): bit `i` is set iff `a[i] < 0`. Bits 4.. of the `u8` are clear (the AVX-512 minimum mask is wider than 4 lanes).
    pub fn movepi32_mask_x4(self, a: [i32; 4]) -> (r: u8)
        ensures
            forall|i: int| 0 <= i < 4 ==> bit_set(r as u64, i as u64) == (a[i] < 0),
            forall|i: u64| 4 <= i < 64 ==> !#[trigger] bit_set(r as u64, i),
    {
        narrow_u8(sign_bits_i32(&a))
    }

    /// Expand a mask into lanes, each all-1 if its bit is set, else 0 (`vpmovm2d`, 128-bit). Only the low 4 mask bits are read.
    pub fn movm_epi32_x4(self, k: u8) -> (r: [i32; 4])
        ensures
            forall|i: int| 0 <= i < 4 ==> r[i] == mask_lane_i32(k as u64, i),
    {
        let mut out = [0i32; 4];
        let mut i: usize = 0;
        while i < 4
            invariant
                i <= 4,
                forall|j: int| 0 <= j < i ==> out[j] == mask_lane_i32(k as u64, j),
            decreases 4 - i,
        {
            out[i] = if (k as u64) & (1u64 << (i as u64)) != 0 {
                -1
            } else {
                0
            };
            i += 1;
        }
        out
    }

    /// Extract a mask from each lane's sign bit (`vpmovd2m`, 256-bit): bit `i` is set iff `a[i] < 0`.
    pub fn movepi32_mask_x8(self, a: [i32; 8]) -> (r: u8)
        ensures
            forall|i: int| 0 <= i < 8 ==> bit_set(r as u64, i as u64) == (a[i] < 0),
            forall|i: u64| 8 <= i < 64 ==> !#[trigger] bit_set(r as u64, i),
    {
        narrow_u8(sign_bits_i32(&a))
    }

    /// Expand a mask into lanes, each all-1 if its bit is set, else 0 (`vpmovm2d`, 256-bit).
    pub fn movm_epi32_x8(self, k: u8) -> (r: [i32; 8])
        ensures
            forall|i: int| 0 <= i < 8 ==> r[i] == mask_lane_i32(k as u64, i),
    {
        let mut out = [0i32; 8];
        let mut i: usize = 0;
        while i < 8
            invariant
                i <= 8,
                forall|j: int| 0 <= j < i ==> out[j] == mask_lane_i32(k as u64, j),
            decreases 8 - i,
        {
            out[i] = if (k as u64) & (1u64 << (i as u64)) != 0 {
                -1
            } else {
                0
            };
            i += 1;
        }
        out
    }

    /// Extract a mask from each lane's sign bit (`vpmovq2m`, 128-bit): bit `i` is set iff `a[i] < 0`. Bits 2.. of the `u8` are clear (the AVX-512 minimum mask is wider than 2 lanes).
    pub fn movepi64_mask_x2(self, a: [i64; 2]) -> (r: u8)
        ensures
            forall|i: int| 0 <= i < 2 ==> bit_set(r as u64, i as u64) == (a[i] < 0),
            forall|i: u64| 2 <= i < 64 ==> !#[trigger] bit_set(r as u64, i),
    {
        narrow_u8(sign_bits_i64(&a))
    }

    /// Expand a mask into lanes, each all-1 if its bit is set, else 0 (`vpmovm2q`, 128-bit). Only the low 2 mask bits are read.
    pub fn movm_epi64_x2(self, k: u8) -> (r: [i64; 2])
        ensures
            forall|i: int| 0 <= i < 2 ==> r[i] == mask_lane_i64(k as u64, i),
    {
        let mut out = [0i64; 2];
        let mut i: usize = 0;
        while i < 2
            invariant
                i <= 2,
                forall|j: int| 0 <= j < i ==> out[j] == mask_lane_i64(k as u64, j),
            decreases 2 - i,
        {
            out[i] = if (k as u64) & (1u64 << (i as u64)) != 0 {
                -1
            } else {
                0
            };
            i += 1;
        }
        out
    }

    /// Extract a mask from each lane's sign bit (`vpmovq2m`, 256-bit): bit `i` is set iff `a[i] < 0`. Bits 4.. of the `u8` are clear (the AVX-512 minimum mask is wider than 4 lanes).
    pub fn movepi64_mask_x4(self, a: [i64; 4]) -> (r: u8)
        ensures
            forall|i: int| 0 <= i < 4 ==> bit_set(r as u64, i as u64) == (a[i] < 0),
            forall|i: u64| 4 <= i < 64 ==> !#[trigger] bit_set(r as u64, i),
    {
        narrow_u8(sign_bits_i64(&a))
    }

    /// Expand a mask into lanes, each all-1 if its bit is set, else 0 (`vpmovm2q`, 256-bit). Only the low 4 mask bits are read.
    pub fn movm_epi64_x4(self, k: u8) -> (r: [i64; 4])
        ensures
            forall|i: int| 0 <= i < 4 ==> r[i] == mask_lane_i64(k as u64, i),
    {
        let mut out = [0i64; 4];
        let mut i: usize = 0;
        while i < 4
            invariant
                i <= 4,
                forall|j: int| 0 <= j < i ==> out[j] == mask_lane_i64(k as u64, j),
            decreases 4 - i,
        {
            out[i] = if (k as u64) & (1u64 << (i as u64)) != 0 {
                -1
            } else {
                0
            };
            i += 1;
        }
        out
    }
}

} // verus!
