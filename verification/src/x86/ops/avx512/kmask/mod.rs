//! AVX-512 k-mask ops by kind: [`logic`], [`shift`], [`ktest`], [`bridge`] (vector<->mask) and
//! [`between`] (mask from a lane count). Covers `u8`/`u16`/`u32`/`u64` masks; 128/256-bit bridges
//! via `Avx512BwVl`/`Avx512DqVl`. Gating: F for mask16, DQ for mask8 and mask add/test, BW for
//! mask32/64, VL for the narrow bridges.
//!
//! Bit `i` of a mask (as in [`bit_set`]) governs lane `i`.

use vstd::prelude::*;

use super::super::super::feature_set::{bit_set, lemma_agree_from, lemma_word_bits};

pub mod between;
pub mod bridge;

pub mod ktest;
pub mod logic;
pub mod shift;

verus! {

/// Lane `i` of a mask expanded into byte lanes: all-1 if bit `i` of `k` is set, else 0.
pub open spec fn mask_lane_i8(k: u64, i: int) -> i8 {
    if bit_set(k, i as u64) {
        -1i8
    } else {
        0i8
    }
}

/// Lane `i` of a mask expanded into word lanes: all-1 if bit `i` of `k` is set, else 0.
pub open spec fn mask_lane_i16(k: u64, i: int) -> i16 {
    if bit_set(k, i as u64) {
        -1i16
    } else {
        0i16
    }
}

/// Lane `i` of a mask expanded into dword lanes: all-1 if bit `i` of `k` is set, else 0.
pub open spec fn mask_lane_i32(k: u64, i: int) -> i32 {
    if bit_set(k, i as u64) {
        -1i32
    } else {
        0i32
    }
}

/// Lane `i` of a mask expanded into qword lanes: all-1 if bit `i` of `k` is set, else 0.
pub open spec fn mask_lane_i64(k: u64, i: int) -> i64 {
    if bit_set(k, i as u64) {
        -1i64
    } else {
        0i64
    }
}

/// The low-`n`-bits masks: how they are formed and which bits they hold.
pub(crate) proof fn lemma_low_masks(n: u32, i: u64)
    by (bit_vector)
    ensures
        n < 8 ==> 1u8 << n >= 1u8,
        n < 16 ==> 1u16 << n >= 1u16,
        n < 32 ==> 1u32 << n >= 1u32,
        n < 64 ==> 1u64 << n >= 1u64,
        i < 8 ==> (bit_set(
            (if n >= 8 {
                0xffu8
            } else {
                ((1u8 << n) - 1u8) as u8
            }) as u64,
            i,
        ) == (i < n as u64)),
        i < 16 ==> (bit_set(
            (if n >= 16 {
                0xffffu16
            } else {
                ((1u16 << n) - 1u16) as u16
            }) as u64,
            i,
        ) == (i < n as u64)),
        i < 32 ==> (bit_set(
            (if n >= 32 {
                0xffff_ffffu32
            } else {
                ((1u32 << n) - 1u32) as u32
            }) as u64,
            i,
        ) == (i < n as u64)),
        i < 64 ==> (bit_set(
            if n >= 64 {
                0xffff_ffff_ffff_ffffu64
            } else {
                ((1u64 << n) - 1u64) as u64
            },
            i,
        ) == (i < n as u64)),
{
}

/// Narrow masks seen as 64-bit words: their high bits are clear, and a word with clear high
/// bits survives the round trip through the narrow type.
pub(crate) proof fn lemma_narrow_words(x: u64, x8: u8, x16: u16, x32: u32, i: u64)
    by (bit_vector)
    ensures
        0u64 >> i == 0u64,
        (x >> 8u64 == 0u64) ==> (x as u8) as u64 == x,
        (x >> 16u64 == 0u64) ==> (x as u16) as u64 == x,
        (x >> 32u64 == 0u64) ==> (x as u32) as u64 == x,
        (8 <= i && i < 64) ==> !bit_set(x8 as u64, i),
        (16 <= i && i < 64) ==> !bit_set(x16 as u64, i),
        (32 <= i && i < 64) ==> !bit_set(x32 as u64, i),
{
}

/// A 64-bit word is determined by its bits.
pub proof fn lemma_bits_determine(x: u64, y: u64)
    requires
        forall|j: u64| j < 64 ==> bit_set(x, j) == bit_set(y, j),
    ensures
        x == y,
{
    lemma_agree_from(x, y, 0);
    lemma_word_bits(x, 0, 0, 0, 0);
    lemma_word_bits(y, 0, 0, 0, 0);
}

/// Expanding a 64-bit mask into byte lanes (`movm_epi8`) and collecting the lanes' sign bits
/// (`movepi8_mask`) gives the mask back.
pub proof fn lemma_movepi8_movm_roundtrip(k: u64, r: u64)
    requires
        forall|j: int| 0 <= j < 64 ==> bit_set(r, j as u64) == (mask_lane_i8(k, j) < 0),
    ensures
        r == k,
{
    assert forall|j: u64| j < 64 implies bit_set(r, j) == bit_set(k, j) by {
        assert(bit_set(r, j as int as u64) == (mask_lane_i8(k, j as int) < 0));
    }
    lemma_bits_determine(r, k);
}

/// Expanding a 32-bit mask into word lanes (`movm_epi16`) and collecting the lanes' sign bits
/// (`movepi16_mask`) gives the mask back.
pub proof fn lemma_movepi16_movm_roundtrip(k: u32, r: u32)
    requires
        forall|j: int| 0 <= j < 32 ==> bit_set(r as u64, j as u64) == (#[trigger] mask_lane_i16(k as u64, j) < 0),
    ensures
        r == k,
{
    assert forall|j: u64| j < 64 implies #[trigger] bit_set(r as u64, j) == bit_set(k as u64, j) by {
        if j < 32 {
            assert(bit_set(r as u64, j as int as u64) == (mask_lane_i16(k as u64, j as int) < 0));
        } else {
            lemma_narrow_words(0, 0, 0, r, j);
            lemma_narrow_words(0, 0, 0, k, j);
        }
    }
    lemma_bits_determine(r as u64, k as u64);
}

/// Expanding a 16-bit mask into dword lanes (`movm_epi32`) and collecting the lanes' sign bits
/// (`movepi32_mask`) gives the mask back.
pub proof fn lemma_movepi32_movm_roundtrip(k: u16, r: u16)
    requires
        forall|j: int| 0 <= j < 16 ==> bit_set(r as u64, j as u64) == (#[trigger] mask_lane_i32(k as u64, j) < 0),
    ensures
        r == k,
{
    assert forall|j: u64| j < 64 implies #[trigger] bit_set(r as u64, j) == bit_set(k as u64, j) by {
        if j < 16 {
            assert(bit_set(r as u64, j as int as u64) == (mask_lane_i32(k as u64, j as int) < 0));
        } else {
            lemma_narrow_words(0, 0, r, 0, j);
            lemma_narrow_words(0, 0, k, 0, j);
        }
    }
    lemma_bits_determine(r as u64, k as u64);
}

/// Expanding an 8-bit mask into qword lanes (`movm_epi64`) and collecting the lanes' sign bits
/// (`movepi64_mask`) gives the mask back.
pub proof fn lemma_movepi64_movm_roundtrip(k: u8, r: u8)
    requires
        forall|j: int| 0 <= j < 8 ==> bit_set(r as u64, j as u64) == (#[trigger] mask_lane_i64(k as u64, j) < 0),
    ensures
        r == k,
{
    assert forall|j: u64| j < 64 implies #[trigger] bit_set(r as u64, j) == bit_set(k as u64, j) by {
        if j < 8 {
            assert(bit_set(r as u64, j as int as u64) == (mask_lane_i64(k as u64, j as int) < 0));
        } else {
            lemma_narrow_words(0, r, 0, 0, j);
            lemma_narrow_words(0, k, 0, 0, j);
        }
    }
    lemma_bits_determine(r as u64, k as u64);
}

/// Collecting byte lanes' sign bits into a mask (`movepi8_mask`) and expanding it again
/// (`movm_epi8`) turns every negative lane into all-1 and every other lane into 0.
pub proof fn lemma_movm_movepi8_signs(a: [i8; 64], r: u64)
    requires
        forall|j: int| 0 <= j < 64 ==> bit_set(r, j as u64) == (a[j] < 0),
    ensures
        forall|i: int|
            0 <= i < 64 ==> mask_lane_i8(r, i) == if a[i] < 0 {
                -1i8
            } else {
                0i8
            },
{
}

} // verus!
