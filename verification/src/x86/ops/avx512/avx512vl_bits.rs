//! Bitwise-structure ops of the 128/256-bit AVX-512 tokens: the VBMI2 funnel shifts (immediate
//! and per-lane counts, 16/32/64-bit lanes), the `vpternlog` 3-input truth tables, and the
//! masked forms of the VBMI byte permutes and multishift.

use vstd::prelude::*;

use super::super::chunk::{
    loadu_i16x16, loadu_i16x8, loadu_i32x4, loadu_i32x8, loadu_i64x2, loadu_i64x4, loadu_u16x16,
    loadu_u16x8, loadu_u32x4, loadu_u32x8, loadu_u64x2, loadu_u64x4, storeu_i16x16, storeu_i16x8,
    storeu_i32x4, storeu_i32x8, storeu_i64x2, storeu_i64x4, storeu_u16x16, storeu_u16x8,
    storeu_u32x4, storeu_u32x8, storeu_u64x2, storeu_u64x4,
};
use super::super::other::gfni::le_qword;
use super::super::other::xop::rotl32;
use super::avx512vl::{rotr64, Avx512FVl, Avx512Vbmi2Vl, Avx512VbmiVl};

verus! {

/// Funnel shift left (`vpshldw`): the upper 16 bits of the 32-bit `a:b` shifted left by
/// `k mod 16`.
pub open spec fn shld16(a: u16, b: u16, k: u32) -> u16 {
    (((((a as u32) << 16u32) | (b as u32)) << (k % 16)) >> 16u32) as u16
}

/// Funnel shift right (`vpshrdw`): the lower 16 bits of the 32-bit `b:a` shifted right by
/// `k mod 16`.
pub open spec fn shrd16(a: u16, b: u16, k: u32) -> u16 {
    ((((b as u32) << 16u32) | (a as u32)) >> (k % 16)) as u16
}

fn shld16_exec(a: u16, b: u16, k: u32) -> (r: u16)
    ensures
        r == shld16(a, b, k),
{
    (((((a as u32) << 16u32) | (b as u32)) << (k % 16)) >> 16u32) as u16
}

fn shrd16_exec(a: u16, b: u16, k: u32) -> (r: u16)
    ensures
        r == shrd16(a, b, k),
{
    ((((b as u32) << 16u32) | (a as u32)) >> (k % 16)) as u16
}

/// Funnel shift left (`vpshldd`): the upper 32 bits of the 64-bit `a:b` shifted left by
/// `k mod 32`.
pub open spec fn shld32(a: u32, b: u32, k: u32) -> u32 {
    (((((a as u64) << 32u32) | (b as u64)) << (k % 32)) >> 32u32) as u32
}

/// Funnel shift right (`vpshrdd`): the lower 32 bits of the 64-bit `b:a` shifted right by
/// `k mod 32`.
pub open spec fn shrd32(a: u32, b: u32, k: u32) -> u32 {
    ((((b as u64) << 32u32) | (a as u64)) >> (k % 32)) as u32
}

fn shld32_exec(a: u32, b: u32, k: u32) -> (r: u32)
    ensures
        r == shld32(a, b, k),
{
    (((((a as u64) << 32u32) | (b as u64)) << (k % 32)) >> 32u32) as u32
}

fn shrd32_exec(a: u32, b: u32, k: u32) -> (r: u32)
    ensures
        r == shrd32(a, b, k),
{
    ((((b as u64) << 32u32) | (a as u64)) >> (k % 32)) as u32
}

/// Funnel shift left (`vpshldq`): the upper 64 bits of the 128-bit `a:b` shifted left by
/// `k mod 64`.
pub open spec fn shld64(a: u64, b: u64, k: u32) -> u64 {
    (((((a as u128) << 64u32) | (b as u128)) << (k % 64)) >> 64u32) as u64
}

/// Funnel shift right (`vpshrdq`): the lower 64 bits of the 128-bit `b:a` shifted right by
/// `k mod 64`.
pub open spec fn shrd64(a: u64, b: u64, k: u32) -> u64 {
    ((((b as u128) << 64u32) | (a as u128)) >> (k % 64)) as u64
}

fn shld64_exec(a: u64, b: u64, k: u32) -> (r: u64)
    ensures
        r == shld64(a, b, k),
{
    (((((a as u128) << 64u32) | (b as u128)) << (k % 64)) >> 64u32) as u64
}

fn shrd64_exec(a: u64, b: u64, k: u32) -> (r: u64)
    ensures
        r == shrd64(a, b, k),
{
    ((((b as u128) << 64u32) | (a as u128)) >> (k % 64)) as u64
}

/// The funnel-shift laws, for every lane width `W` in 16, 32, 64: for `0 < k < W`, the left
/// funnel shift of `a:b` is `(a << k) | (b >> (W - k))` and the right funnel shift of `b:a` is
/// `(a >> k) | (b << (W - k))`; a count of 0 returns `a`. A dword shifted with itself is the
/// `vprotd` rotation.
#[verifier::rlimit(100)]
pub proof fn lemma_funnel_shifts(a16: u16, b16: u16, a32: u32, b32: u32, a64: u64, b64: u64, k: u32)
    by (bit_vector)
    ensures
        (0 < k && k < 16) ==> shld16(a16, b16, k) == (a16 << k) | (b16 >> ((16u32 - k) as u32)),
        (0 < k && k < 16) ==> shrd16(a16, b16, k) == (a16 >> k) | (b16 << ((16u32 - k) as u32)),
        shld16(a16, b16, 0) == a16,
        shrd16(a16, b16, 0) == a16,
        (0 < k && k < 32) ==> shld32(a32, b32, k) == (a32 << k) | (b32 >> ((32u32 - k) as u32)),
        (0 < k && k < 32) ==> shrd32(a32, b32, k) == (a32 >> k) | (b32 << ((32u32 - k) as u32)),
        shld32(a32, b32, 0) == a32,
        shrd32(a32, b32, 0) == a32,
        (0 < k && k < 64) ==> shld64(a64, b64, k) == (a64 << k) | (b64 >> ((64u32 - k) as u32)),
        (0 < k && k < 64) ==> shrd64(a64, b64, k) == (a64 >> k) | (b64 << ((64u32 - k) as u32)),
        shld64(a64, b64, 0) == a64,
        shrd64(a64, b64, 0) == a64,
        shld32(a32, a32, k) == rotl32(a32, k & 31u32),
{
}

/// Every funnel shift reads its count modulo the lane width `W`.
pub proof fn lemma_funnel_count_mod(a16: u16, b16: u16, a32: u32, b32: u32, a64: u64, b64: u64, k: u32)
    ensures
        shld16(a16, b16, k) == shld16(a16, b16, k % 16),
        shrd16(a16, b16, k) == shrd16(a16, b16, k % 16),
        shld32(a32, b32, k) == shld32(a32, b32, k % 32),
        shrd32(a32, b32, k) == shrd32(a32, b32, k % 32),
        shld64(a64, b64, k) == shld64(a64, b64, k % 64),
        shrd64(a64, b64, k) == shrd64(a64, b64, k % 64),
{
    assert((k % 16) % 16 == k % 16);
    assert((k % 32) % 32 == k % 32);
    assert((k % 64) % 64 == k % 64);
}

/// Per-bit 3-input truth table: bit `j` of the result is bit `4a_j + 2b_j + c_j` of `imm`,
/// written as the OR of the minterms `imm` selects (`vpternlog`).
pub open spec fn ternlog_u32(a: u32, b: u32, c: u32, imm: u8) -> u32 {
    (if imm & 0x01u8 != 0 { !a & !b & !c } else { 0 })
        | (if imm & 0x02u8 != 0 { !a & !b & c } else { 0 })
        | (if imm & 0x04u8 != 0 { !a & b & !c } else { 0 })
        | (if imm & 0x08u8 != 0 { !a & b & c } else { 0 })
        | (if imm & 0x10u8 != 0 { a & !b & !c } else { 0 })
        | (if imm & 0x20u8 != 0 { a & !b & c } else { 0 })
        | (if imm & 0x40u8 != 0 { a & b & !c } else { 0 })
        | (if imm & 0x80u8 != 0 { a & b & c } else { 0 })
}

fn ternlog_u32_exec(a: u32, b: u32, c: u32, imm: u8) -> (r: u32)
    ensures
        r == ternlog_u32(a, b, c, imm),
{
    (if imm & 0x01u8 != 0 { !a & !b & !c } else { 0 })
        | (if imm & 0x02u8 != 0 { !a & !b & c } else { 0 })
        | (if imm & 0x04u8 != 0 { !a & b & !c } else { 0 })
        | (if imm & 0x08u8 != 0 { !a & b & c } else { 0 })
        | (if imm & 0x10u8 != 0 { a & !b & !c } else { 0 })
        | (if imm & 0x20u8 != 0 { a & !b & c } else { 0 })
        | (if imm & 0x40u8 != 0 { a & b & !c } else { 0 })
        | (if imm & 0x80u8 != 0 { a & b & c } else { 0 })
}

/// Per-bit 3-input truth table: bit `j` of the result is bit `4a_j + 2b_j + c_j` of `imm`,
/// written as the OR of the minterms `imm` selects (`vpternlog`).
pub open spec fn ternlog_i32(a: i32, b: i32, c: i32, imm: u8) -> i32 {
    (if imm & 0x01u8 != 0 { !a & !b & !c } else { 0 })
        | (if imm & 0x02u8 != 0 { !a & !b & c } else { 0 })
        | (if imm & 0x04u8 != 0 { !a & b & !c } else { 0 })
        | (if imm & 0x08u8 != 0 { !a & b & c } else { 0 })
        | (if imm & 0x10u8 != 0 { a & !b & !c } else { 0 })
        | (if imm & 0x20u8 != 0 { a & !b & c } else { 0 })
        | (if imm & 0x40u8 != 0 { a & b & !c } else { 0 })
        | (if imm & 0x80u8 != 0 { a & b & c } else { 0 })
}

fn ternlog_i32_exec(a: i32, b: i32, c: i32, imm: u8) -> (r: i32)
    ensures
        r == ternlog_i32(a, b, c, imm),
{
    (if imm & 0x01u8 != 0 { !a & !b & !c } else { 0 })
        | (if imm & 0x02u8 != 0 { !a & !b & c } else { 0 })
        | (if imm & 0x04u8 != 0 { !a & b & !c } else { 0 })
        | (if imm & 0x08u8 != 0 { !a & b & c } else { 0 })
        | (if imm & 0x10u8 != 0 { a & !b & !c } else { 0 })
        | (if imm & 0x20u8 != 0 { a & !b & c } else { 0 })
        | (if imm & 0x40u8 != 0 { a & b & !c } else { 0 })
        | (if imm & 0x80u8 != 0 { a & b & c } else { 0 })
}

/// Per-bit 3-input truth table: bit `j` of the result is bit `4a_j + 2b_j + c_j` of `imm`,
/// written as the OR of the minterms `imm` selects (`vpternlog`).
pub open spec fn ternlog_u64(a: u64, b: u64, c: u64, imm: u8) -> u64 {
    (if imm & 0x01u8 != 0 { !a & !b & !c } else { 0 })
        | (if imm & 0x02u8 != 0 { !a & !b & c } else { 0 })
        | (if imm & 0x04u8 != 0 { !a & b & !c } else { 0 })
        | (if imm & 0x08u8 != 0 { !a & b & c } else { 0 })
        | (if imm & 0x10u8 != 0 { a & !b & !c } else { 0 })
        | (if imm & 0x20u8 != 0 { a & !b & c } else { 0 })
        | (if imm & 0x40u8 != 0 { a & b & !c } else { 0 })
        | (if imm & 0x80u8 != 0 { a & b & c } else { 0 })
}

fn ternlog_u64_exec(a: u64, b: u64, c: u64, imm: u8) -> (r: u64)
    ensures
        r == ternlog_u64(a, b, c, imm),
{
    (if imm & 0x01u8 != 0 { !a & !b & !c } else { 0 })
        | (if imm & 0x02u8 != 0 { !a & !b & c } else { 0 })
        | (if imm & 0x04u8 != 0 { !a & b & !c } else { 0 })
        | (if imm & 0x08u8 != 0 { !a & b & c } else { 0 })
        | (if imm & 0x10u8 != 0 { a & !b & !c } else { 0 })
        | (if imm & 0x20u8 != 0 { a & !b & c } else { 0 })
        | (if imm & 0x40u8 != 0 { a & b & !c } else { 0 })
        | (if imm & 0x80u8 != 0 { a & b & c } else { 0 })
}

/// Per-bit 3-input truth table: bit `j` of the result is bit `4a_j + 2b_j + c_j` of `imm`,
/// written as the OR of the minterms `imm` selects (`vpternlog`).
pub open spec fn ternlog_i64(a: i64, b: i64, c: i64, imm: u8) -> i64 {
    (if imm & 0x01u8 != 0 { !a & !b & !c } else { 0 })
        | (if imm & 0x02u8 != 0 { !a & !b & c } else { 0 })
        | (if imm & 0x04u8 != 0 { !a & b & !c } else { 0 })
        | (if imm & 0x08u8 != 0 { !a & b & c } else { 0 })
        | (if imm & 0x10u8 != 0 { a & !b & !c } else { 0 })
        | (if imm & 0x20u8 != 0 { a & !b & c } else { 0 })
        | (if imm & 0x40u8 != 0 { a & b & !c } else { 0 })
        | (if imm & 0x80u8 != 0 { a & b & c } else { 0 })
}

fn ternlog_i64_exec(a: i64, b: i64, c: i64, imm: u8) -> (r: i64)
    ensures
        r == ternlog_i64(a, b, c, imm),
{
    (if imm & 0x01u8 != 0 { !a & !b & !c } else { 0 })
        | (if imm & 0x02u8 != 0 { !a & !b & c } else { 0 })
        | (if imm & 0x04u8 != 0 { !a & b & !c } else { 0 })
        | (if imm & 0x08u8 != 0 { !a & b & c } else { 0 })
        | (if imm & 0x10u8 != 0 { a & !b & !c } else { 0 })
        | (if imm & 0x20u8 != 0 { a & !b & c } else { 0 })
        | (if imm & 0x40u8 != 0 { a & b & !c } else { 0 })
        | (if imm & 0x80u8 != 0 { a & b & c } else { 0 })
}

/// The truth-table law of `vpternlog`, for every lane type: bit `j` of the result is bit
/// `4a_j + 2b_j + c_j` of `imm`, where `a_j`, `b_j`, `c_j` are bits `j` of the three inputs; in
/// particular `0x96` is three-way XOR, `0xE8` the bitwise majority and `0xCA` the bitwise
/// select `a ? b : c`.
#[verifier::rlimit(100)]
pub proof fn lemma_ternlog_truth_table(
    a: u32,
    b: u32,
    c: u32,
    sa: i32,
    sb: i32,
    sc: i32,
    x: u64,
    y: u64,
    z: u64,
    sx: i64,
    sy: i64,
    sz: i64,
    imm: u8,
    j: u32,
)
    by (bit_vector)
    ensures
        j < 32 ==> (ternlog_u32(a, b, c, imm) >> j) & 1u32 == ((imm >> (((((a >> j) & 1u32) << 2u32) | (((b
            >> j) & 1u32) << 1u32) | ((c >> j) & 1u32)) as u8)) & 1u8) as u32,
        j < 32 ==> (ternlog_i32(sa, sb, sc, imm) >> j) & 1i32 == ((imm >> (((((sa >> j) & 1i32) << 2u32) | (((sb
            >> j) & 1i32) << 1u32) | ((sc >> j) & 1i32)) as u8)) & 1u8) as i32,
        j < 64 ==> (ternlog_u64(x, y, z, imm) >> j) & 1u64 == ((imm >> (((((x >> j) & 1u64) << 2u32) | (((y
            >> j) & 1u64) << 1u32) | ((z >> j) & 1u64)) as u8)) & 1u8) as u64,
        j < 64 ==> (ternlog_i64(sx, sy, sz, imm) >> j) & 1i64 == ((imm >> (((((sx >> j) & 1i64) << 2u32) | (((sy
            >> j) & 1i64) << 1u32) | ((sz >> j) & 1i64)) as u8)) & 1u8) as i64,
        ternlog_u32(a, b, c, 0x96) == a ^ b ^ c,
        ternlog_u32(a, b, c, 0xE8) == (a & b) | (a & c) | (b & c),
        ternlog_u32(a, b, c, 0xCA) == (a & b) | (!a & c),
        ternlog_i32(sa, sb, sc, 0x96) == sa ^ sb ^ sc,
        ternlog_i32(sa, sb, sc, 0xE8) == (sa & sb) | (sa & sc) | (sb & sc),
        ternlog_i32(sa, sb, sc, 0xCA) == (sa & sb) | (!sa & sc),
        ternlog_u64(x, y, z, 0x96) == x ^ y ^ z,
        ternlog_u64(x, y, z, 0xE8) == (x & y) | (x & z) | (y & z),
        ternlog_u64(x, y, z, 0xCA) == (x & y) | (!x & z),
        ternlog_i64(sx, sy, sz, 0x96) == sx ^ sy ^ sz,
        ternlog_i64(sx, sy, sz, 0xE8) == (sx & sy) | (sx & sz) | (sy & sz),
        ternlog_i64(sx, sy, sz, 0xCA) == (sx & sy) | (!sx & sz),
{
}

impl Avx512Vbmi2Vl {
    /// Funnel shift left `a:b` by `IMM8` (`vpshldw`, 128-bit).
    pub fn shldi_i16x8<const IMM8: u8>(self, a: [i16; 8], b: [i16; 8]) -> (r: [i16; 8])
        ensures
            forall|i: int| 0 <= i < 8 ==> r[i] == shld16(a[i] as u16, b[i] as u16, IMM8 as u32) as i16,
    {
        let mut out = [0i16; 8];
        let mut i: usize = 0;
        while i < 8
            invariant
                i <= 8,
                forall|j: int| 0 <= j < i ==> out[j] == shld16(a[j] as u16, b[j] as u16, IMM8 as u32) as i16,
            decreases 8 - i,
        {
            out[i] = shld16_exec(a[i] as u16, b[i] as u16, IMM8 as u32) as i16;
            i += 1;
        }
        out
    }

    /// `out[i] = shldi(a[i], b[i], IMM8)`. 8-wide chunks, scalar remainder.
    pub fn shldi_i16_slice<const IMM8: u8>(self, a: &[i16], b: &[i16], out: &mut [i16])
        requires
            b@.len() == a@.len(),
            old(out)@.len() == a@.len(),
        ensures
            final(out)@.len() == a@.len(),
            forall|i: int| 0 <= i < a@.len() ==> final(out)@[i] == shld16(a@[i] as u16, b@[i] as u16, IMM8 as u32) as i16,
    {
        let len = a.len();
        let mut i: usize = 0;
        while len - i >= 8
            invariant
                i <= len,
                len == a@.len(),
                len == b@.len(),
                out@.len() == len,
                forall|j: int| 0 <= j < i ==> out@[j] == shld16(a@[j] as u16, b@[j] as u16, IMM8 as u32) as i16,
            decreases len - i,
        {
            let r = self.shldi_i16x8::<IMM8>(loadu_i16x8(a, i), loadu_i16x8(b, i));
            storeu_i16x8(out, i, r);
            i += 8;
        }
        while i < len
            invariant
                i <= len,
                len == a@.len(),
                len == b@.len(),
                out@.len() == len,
                forall|j: int| 0 <= j < i ==> out@[j] == shld16(a@[j] as u16, b@[j] as u16, IMM8 as u32) as i16,
            decreases len - i,
        {
            out[i] = shld16_exec(a[i] as u16, b[i] as u16, IMM8 as u32) as i16;
            i += 1;
        }
    }

    /// [`Avx512Vbmi2Vl::shldi_i16x8`] where `mask` bit is set, else copied from `src` (`vpshldw`, merge-masked).
    pub fn shldi_i16x8_merge_masked<const IMM8: u8>(self, src: [i16; 8], mask: u8, a: [i16; 8], b: [i16; 8]) -> (r: [i16; 8])
        ensures
            forall|i: int|
                0 <= i < 8 ==> r[i] == if (mask >> i as u8) % 2 == 1 {
                    shld16(a[i] as u16, b[i] as u16, IMM8 as u32) as i16
                } else {
                    src[i]
                },
    {
        let full = self.shldi_i16x8::<IMM8>(a, b);
        let mut out = [0i16; 8];
        let mut i: usize = 0;
        while i < 8
            invariant
                i <= 8,
                forall|j: int| 0 <= j < 8 ==> full[j] == shld16(a[j] as u16, b[j] as u16, IMM8 as u32) as i16,
                forall|j: int| 0 <= j < i ==> out[j] == (if (mask >> j as u8) % 2 == 1 { shld16(a[j] as u16, b[j] as u16, IMM8 as u32) as i16 } else { src[j] }),
            decreases 8 - i,
        {
            out[i] = if (mask >> i as u8) % 2 == 1 { full[i] } else { src[i] };
            i += 1;
        }
        out
    }

    /// [`Avx512Vbmi2Vl::shldi_i16x8`] where `mask` bit is set, else zero (`vpshldw`, zero-masked).
    pub fn shldi_i16x8_zero_masked<const IMM8: u8>(self, mask: u8, a: [i16; 8], b: [i16; 8]) -> (r: [i16; 8])
        ensures
            forall|i: int|
                0 <= i < 8 ==> r[i] == if (mask >> i as u8) % 2 == 1 {
                    shld16(a[i] as u16, b[i] as u16, IMM8 as u32) as i16
                } else {
                    0
                },
    {
        let full = self.shldi_i16x8::<IMM8>(a, b);
        let mut out = [0i16; 8];
        let mut i: usize = 0;
        while i < 8
            invariant
                i <= 8,
                forall|j: int| 0 <= j < 8 ==> full[j] == shld16(a[j] as u16, b[j] as u16, IMM8 as u32) as i16,
                forall|j: int| 0 <= j < i ==> out[j] == (if (mask >> j as u8) % 2 == 1 { shld16(a[j] as u16, b[j] as u16, IMM8 as u32) as i16 } else { 0 }),
            decreases 8 - i,
        {
            out[i] = if (mask >> i as u8) % 2 == 1 { full[i] } else { 0 };
            i += 1;
        }
        out
    }

    /// Funnel shift left `a:b` by `c` (`vpshldvw`, 128-bit).
    pub fn shldv_i16x8(self, a: [i16; 8], b: [i16; 8], c: [i16; 8]) -> (r: [i16; 8])
        ensures
            forall|i: int| 0 <= i < 8 ==> r[i] == shld16(a[i] as u16, b[i] as u16, c[i] as u16 as u32) as i16,
    {
        let mut out = [0i16; 8];
        let mut i: usize = 0;
        while i < 8
            invariant
                i <= 8,
                forall|j: int| 0 <= j < i ==> out[j] == shld16(a[j] as u16, b[j] as u16, c[j] as u16 as u32) as i16,
            decreases 8 - i,
        {
            out[i] = shld16_exec(a[i] as u16, b[i] as u16, c[i] as u16 as u32) as i16;
            i += 1;
        }
        out
    }

    /// `out[i] = shldv(a[i], b[i], c[i])`. 8-wide chunks, scalar remainder.
    pub fn shldv_i16_slice(self, a: &[i16], b: &[i16], c: &[i16], out: &mut [i16])
        requires
            b@.len() == a@.len(),
            c@.len() == a@.len(),
            old(out)@.len() == a@.len(),
        ensures
            final(out)@.len() == a@.len(),
            forall|i: int| 0 <= i < a@.len() ==> final(out)@[i] == shld16(a@[i] as u16, b@[i] as u16, c@[i] as u16 as u32) as i16,
    {
        let len = a.len();
        let mut i: usize = 0;
        while len - i >= 8
            invariant
                i <= len,
                len == a@.len(),
                len == b@.len(),
                len == c@.len(),
                out@.len() == len,
                forall|j: int| 0 <= j < i ==> out@[j] == shld16(a@[j] as u16, b@[j] as u16, c@[j] as u16 as u32) as i16,
            decreases len - i,
        {
            let r = self.shldv_i16x8(loadu_i16x8(a, i), loadu_i16x8(b, i), loadu_i16x8(c, i));
            storeu_i16x8(out, i, r);
            i += 8;
        }
        while i < len
            invariant
                i <= len,
                len == a@.len(),
                len == b@.len(),
                len == c@.len(),
                out@.len() == len,
                forall|j: int| 0 <= j < i ==> out@[j] == shld16(a@[j] as u16, b@[j] as u16, c@[j] as u16 as u32) as i16,
            decreases len - i,
        {
            out[i] = shld16_exec(a[i] as u16, b[i] as u16, c[i] as u16 as u32) as i16;
            i += 1;
        }
    }

    /// [`Avx512Vbmi2Vl::shldv_i16x8`] where `mask` bit is set, else copied from `a` (`vpshldvw`, merge-masked).
    pub fn shldv_i16x8_merge_masked(self, a: [i16; 8], mask: u8, b: [i16; 8], c: [i16; 8]) -> (r: [i16; 8])
        ensures
            forall|i: int|
                0 <= i < 8 ==> r[i] == if (mask >> i as u8) % 2 == 1 {
                    shld16(a[i] as u16, b[i] as u16, c[i] as u16 as u32) as i16
                } else {
                    a[i]
                },
    {
        let full = self.shldv_i16x8(a, b, c);
        let mut out = [0i16; 8];
        let mut i: usize = 0;
        while i < 8
            invariant
                i <= 8,
                forall|j: int| 0 <= j < 8 ==> full[j] == shld16(a[j] as u16, b[j] as u16, c[j] as u16 as u32) as i16,
                forall|j: int| 0 <= j < i ==> out[j] == (if (mask >> j as u8) % 2 == 1 { shld16(a[j] as u16, b[j] as u16, c[j] as u16 as u32) as i16 } else { a[j] }),
            decreases 8 - i,
        {
            out[i] = if (mask >> i as u8) % 2 == 1 { full[i] } else { a[i] };
            i += 1;
        }
        out
    }

    /// [`Avx512Vbmi2Vl::shldv_i16x8`] where `mask` bit is set, else zero (`vpshldvw`, zero-masked).
    pub fn shldv_i16x8_zero_masked(self, mask: u8, a: [i16; 8], b: [i16; 8], c: [i16; 8]) -> (r: [i16; 8])
        ensures
            forall|i: int|
                0 <= i < 8 ==> r[i] == if (mask >> i as u8) % 2 == 1 {
                    shld16(a[i] as u16, b[i] as u16, c[i] as u16 as u32) as i16
                } else {
                    0
                },
    {
        let full = self.shldv_i16x8(a, b, c);
        let mut out = [0i16; 8];
        let mut i: usize = 0;
        while i < 8
            invariant
                i <= 8,
                forall|j: int| 0 <= j < 8 ==> full[j] == shld16(a[j] as u16, b[j] as u16, c[j] as u16 as u32) as i16,
                forall|j: int| 0 <= j < i ==> out[j] == (if (mask >> j as u8) % 2 == 1 { shld16(a[j] as u16, b[j] as u16, c[j] as u16 as u32) as i16 } else { 0 }),
            decreases 8 - i,
        {
            out[i] = if (mask >> i as u8) % 2 == 1 { full[i] } else { 0 };
            i += 1;
        }
        out
    }

    /// Funnel shift right `b:a` by `IMM8` (`vpshrdw`, 128-bit).
    pub fn shrdi_i16x8<const IMM8: u8>(self, a: [i16; 8], b: [i16; 8]) -> (r: [i16; 8])
        ensures
            forall|i: int| 0 <= i < 8 ==> r[i] == shrd16(a[i] as u16, b[i] as u16, IMM8 as u32) as i16,
    {
        let mut out = [0i16; 8];
        let mut i: usize = 0;
        while i < 8
            invariant
                i <= 8,
                forall|j: int| 0 <= j < i ==> out[j] == shrd16(a[j] as u16, b[j] as u16, IMM8 as u32) as i16,
            decreases 8 - i,
        {
            out[i] = shrd16_exec(a[i] as u16, b[i] as u16, IMM8 as u32) as i16;
            i += 1;
        }
        out
    }

    /// `out[i] = shrdi(a[i], b[i], IMM8)`. 8-wide chunks, scalar remainder.
    pub fn shrdi_i16_slice<const IMM8: u8>(self, a: &[i16], b: &[i16], out: &mut [i16])
        requires
            b@.len() == a@.len(),
            old(out)@.len() == a@.len(),
        ensures
            final(out)@.len() == a@.len(),
            forall|i: int| 0 <= i < a@.len() ==> final(out)@[i] == shrd16(a@[i] as u16, b@[i] as u16, IMM8 as u32) as i16,
    {
        let len = a.len();
        let mut i: usize = 0;
        while len - i >= 8
            invariant
                i <= len,
                len == a@.len(),
                len == b@.len(),
                out@.len() == len,
                forall|j: int| 0 <= j < i ==> out@[j] == shrd16(a@[j] as u16, b@[j] as u16, IMM8 as u32) as i16,
            decreases len - i,
        {
            let r = self.shrdi_i16x8::<IMM8>(loadu_i16x8(a, i), loadu_i16x8(b, i));
            storeu_i16x8(out, i, r);
            i += 8;
        }
        while i < len
            invariant
                i <= len,
                len == a@.len(),
                len == b@.len(),
                out@.len() == len,
                forall|j: int| 0 <= j < i ==> out@[j] == shrd16(a@[j] as u16, b@[j] as u16, IMM8 as u32) as i16,
            decreases len - i,
        {
            out[i] = shrd16_exec(a[i] as u16, b[i] as u16, IMM8 as u32) as i16;
            i += 1;
        }
    }

    /// [`Avx512Vbmi2Vl::shrdi_i16x8`] where `mask` bit is set, else copied from `src` (`vpshrdw`, merge-masked).
    pub fn shrdi_i16x8_merge_masked<const IMM8: u8>(self, src: [i16; 8], mask: u8, a: [i16; 8], b: [i16; 8]) -> (r: [i16; 8])
        ensures
            forall|i: int|
                0 <= i < 8 ==> r[i] == if (mask >> i as u8) % 2 == 1 {
                    shrd16(a[i] as u16, b[i] as u16, IMM8 as u32) as i16
                } else {
                    src[i]
                },
    {
        let full = self.shrdi_i16x8::<IMM8>(a, b);
        let mut out = [0i16; 8];
        let mut i: usize = 0;
        while i < 8
            invariant
                i <= 8,
                forall|j: int| 0 <= j < 8 ==> full[j] == shrd16(a[j] as u16, b[j] as u16, IMM8 as u32) as i16,
                forall|j: int| 0 <= j < i ==> out[j] == (if (mask >> j as u8) % 2 == 1 { shrd16(a[j] as u16, b[j] as u16, IMM8 as u32) as i16 } else { src[j] }),
            decreases 8 - i,
        {
            out[i] = if (mask >> i as u8) % 2 == 1 { full[i] } else { src[i] };
            i += 1;
        }
        out
    }

    /// [`Avx512Vbmi2Vl::shrdi_i16x8`] where `mask` bit is set, else zero (`vpshrdw`, zero-masked).
    pub fn shrdi_i16x8_zero_masked<const IMM8: u8>(self, mask: u8, a: [i16; 8], b: [i16; 8]) -> (r: [i16; 8])
        ensures
            forall|i: int|
                0 <= i < 8 ==> r[i] == if (mask >> i as u8) % 2 == 1 {
                    shrd16(a[i] as u16, b[i] as u16, IMM8 as u32) as i16
                } else {
                    0
                },
    {
        let full = self.shrdi_i16x8::<IMM8>(a, b);
        let mut out = [0i16; 8];
        let mut i: usize = 0;
        while i < 8
            invariant
                i <= 8,
                forall|j: int| 0 <= j < 8 ==> full[j] == shrd16(a[j] as u16, b[j] as u16, IMM8 as u32) as i16,
                forall|j: int| 0 <= j < i ==> out[j] == (if (mask >> j as u8) % 2 == 1 { shrd16(a[j] as u16, b[j] as u16, IMM8 as u32) as i16 } else { 0 }),
            decreases 8 - i,
        {
            out[i] = if (mask >> i as u8) % 2 == 1 { full[i] } else { 0 };
            i += 1;
        }
        out
    }

    /// Funnel shift right `b:a` by `c` (`vpshrdvw`, 128-bit).
    pub fn shrdv_i16x8(self, a: [i16; 8], b: [i16; 8], c: [i16; 8]) -> (r: [i16; 8])
        ensures
            forall|i: int| 0 <= i < 8 ==> r[i] == shrd16(a[i] as u16, b[i] as u16, c[i] as u16 as u32) as i16,
    {
        let mut out = [0i16; 8];
        let mut i: usize = 0;
        while i < 8
            invariant
                i <= 8,
                forall|j: int| 0 <= j < i ==> out[j] == shrd16(a[j] as u16, b[j] as u16, c[j] as u16 as u32) as i16,
            decreases 8 - i,
        {
            out[i] = shrd16_exec(a[i] as u16, b[i] as u16, c[i] as u16 as u32) as i16;
            i += 1;
        }
        out
    }

    /// `out[i] = shrdv(a[i], b[i], c[i])`. 8-wide chunks, scalar remainder.
    pub fn shrdv_i16_slice(self, a: &[i16], b: &[i16], c: &[i16], out: &mut [i16])
        requires
            b@.len() == a@.len(),
            c@.len() == a@.len(),
            old(out)@.len() == a@.len(),
        ensures
            final(out)@.len() == a@.len(),
            forall|i: int| 0 <= i < a@.len() ==> final(out)@[i] == shrd16(a@[i] as u16, b@[i] as u16, c@[i] as u16 as u32) as i16,
    {
        let len = a.len();
        let mut i: usize = 0;
        while len - i >= 8
            invariant
                i <= len,
                len == a@.len(),
                len == b@.len(),
                len == c@.len(),
                out@.len() == len,
                forall|j: int| 0 <= j < i ==> out@[j] == shrd16(a@[j] as u16, b@[j] as u16, c@[j] as u16 as u32) as i16,
            decreases len - i,
        {
            let r = self.shrdv_i16x8(loadu_i16x8(a, i), loadu_i16x8(b, i), loadu_i16x8(c, i));
            storeu_i16x8(out, i, r);
            i += 8;
        }
        while i < len
            invariant
                i <= len,
                len == a@.len(),
                len == b@.len(),
                len == c@.len(),
                out@.len() == len,
                forall|j: int| 0 <= j < i ==> out@[j] == shrd16(a@[j] as u16, b@[j] as u16, c@[j] as u16 as u32) as i16,
            decreases len - i,
        {
            out[i] = shrd16_exec(a[i] as u16, b[i] as u16, c[i] as u16 as u32) as i16;
            i += 1;
        }
    }

    /// [`Avx512Vbmi2Vl::shrdv_i16x8`] where `mask` bit is set, else copied from `a` (`vpshrdvw`, merge-masked).
    pub fn shrdv_i16x8_merge_masked(self, a: [i16; 8], mask: u8, b: [i16; 8], c: [i16; 8]) -> (r: [i16; 8])
        ensures
            forall|i: int|
                0 <= i < 8 ==> r[i] == if (mask >> i as u8) % 2 == 1 {
                    shrd16(a[i] as u16, b[i] as u16, c[i] as u16 as u32) as i16
                } else {
                    a[i]
                },
    {
        let full = self.shrdv_i16x8(a, b, c);
        let mut out = [0i16; 8];
        let mut i: usize = 0;
        while i < 8
            invariant
                i <= 8,
                forall|j: int| 0 <= j < 8 ==> full[j] == shrd16(a[j] as u16, b[j] as u16, c[j] as u16 as u32) as i16,
                forall|j: int| 0 <= j < i ==> out[j] == (if (mask >> j as u8) % 2 == 1 { shrd16(a[j] as u16, b[j] as u16, c[j] as u16 as u32) as i16 } else { a[j] }),
            decreases 8 - i,
        {
            out[i] = if (mask >> i as u8) % 2 == 1 { full[i] } else { a[i] };
            i += 1;
        }
        out
    }

    /// [`Avx512Vbmi2Vl::shrdv_i16x8`] where `mask` bit is set, else zero (`vpshrdvw`, zero-masked).
    pub fn shrdv_i16x8_zero_masked(self, mask: u8, a: [i16; 8], b: [i16; 8], c: [i16; 8]) -> (r: [i16; 8])
        ensures
            forall|i: int|
                0 <= i < 8 ==> r[i] == if (mask >> i as u8) % 2 == 1 {
                    shrd16(a[i] as u16, b[i] as u16, c[i] as u16 as u32) as i16
                } else {
                    0
                },
    {
        let full = self.shrdv_i16x8(a, b, c);
        let mut out = [0i16; 8];
        let mut i: usize = 0;
        while i < 8
            invariant
                i <= 8,
                forall|j: int| 0 <= j < 8 ==> full[j] == shrd16(a[j] as u16, b[j] as u16, c[j] as u16 as u32) as i16,
                forall|j: int| 0 <= j < i ==> out[j] == (if (mask >> j as u8) % 2 == 1 { shrd16(a[j] as u16, b[j] as u16, c[j] as u16 as u32) as i16 } else { 0 }),
            decreases 8 - i,
        {
            out[i] = if (mask >> i as u8) % 2 == 1 { full[i] } else { 0 };
            i += 1;
        }
        out
    }

    /// Funnel shift left `a:b` by `IMM8` (`vpshldw`, 256-bit).
    pub fn shldi_i16x16<const IMM8: u8>(self, a: [i16; 16], b: [i16; 16]) -> (r: [i16; 16])
        ensures
            forall|i: int| 0 <= i < 16 ==> r[i] == shld16(a[i] as u16, b[i] as u16, IMM8 as u32) as i16,
    {
        let mut out = [0i16; 16];
        let mut i: usize = 0;
        while i < 16
            invariant
                i <= 16,
                forall|j: int| 0 <= j < i ==> out[j] == shld16(a[j] as u16, b[j] as u16, IMM8 as u32) as i16,
            decreases 16 - i,
        {
            out[i] = shld16_exec(a[i] as u16, b[i] as u16, IMM8 as u32) as i16;
            i += 1;
        }
        out
    }

    /// `out[i] = shldi(a[i], b[i], IMM8)`. 16-wide chunks, scalar remainder.
    pub fn shldi_i16_slice_wide<const IMM8: u8>(self, a: &[i16], b: &[i16], out: &mut [i16])
        requires
            b@.len() == a@.len(),
            old(out)@.len() == a@.len(),
        ensures
            final(out)@.len() == a@.len(),
            forall|i: int| 0 <= i < a@.len() ==> final(out)@[i] == shld16(a@[i] as u16, b@[i] as u16, IMM8 as u32) as i16,
    {
        let len = a.len();
        let mut i: usize = 0;
        while len - i >= 16
            invariant
                i <= len,
                len == a@.len(),
                len == b@.len(),
                out@.len() == len,
                forall|j: int| 0 <= j < i ==> out@[j] == shld16(a@[j] as u16, b@[j] as u16, IMM8 as u32) as i16,
            decreases len - i,
        {
            let r = self.shldi_i16x16::<IMM8>(loadu_i16x16(a, i), loadu_i16x16(b, i));
            storeu_i16x16(out, i, r);
            i += 16;
        }
        while i < len
            invariant
                i <= len,
                len == a@.len(),
                len == b@.len(),
                out@.len() == len,
                forall|j: int| 0 <= j < i ==> out@[j] == shld16(a@[j] as u16, b@[j] as u16, IMM8 as u32) as i16,
            decreases len - i,
        {
            out[i] = shld16_exec(a[i] as u16, b[i] as u16, IMM8 as u32) as i16;
            i += 1;
        }
    }

    /// [`Avx512Vbmi2Vl::shldi_i16x16`] where `mask` bit is set, else copied from `src` (`vpshldw`, merge-masked).
    pub fn shldi_i16x16_merge_masked<const IMM8: u8>(self, src: [i16; 16], mask: u16, a: [i16; 16], b: [i16; 16]) -> (r: [i16; 16])
        ensures
            forall|i: int|
                0 <= i < 16 ==> r[i] == if (mask >> i as u16) % 2 == 1 {
                    shld16(a[i] as u16, b[i] as u16, IMM8 as u32) as i16
                } else {
                    src[i]
                },
    {
        let full = self.shldi_i16x16::<IMM8>(a, b);
        let mut out = [0i16; 16];
        let mut i: usize = 0;
        while i < 16
            invariant
                i <= 16,
                forall|j: int| 0 <= j < 16 ==> full[j] == shld16(a[j] as u16, b[j] as u16, IMM8 as u32) as i16,
                forall|j: int| 0 <= j < i ==> out[j] == (if (mask >> j as u16) % 2 == 1 { shld16(a[j] as u16, b[j] as u16, IMM8 as u32) as i16 } else { src[j] }),
            decreases 16 - i,
        {
            out[i] = if (mask >> i as u16) % 2 == 1 { full[i] } else { src[i] };
            i += 1;
        }
        out
    }

    /// [`Avx512Vbmi2Vl::shldi_i16x16`] where `mask` bit is set, else zero (`vpshldw`, zero-masked).
    pub fn shldi_i16x16_zero_masked<const IMM8: u8>(self, mask: u16, a: [i16; 16], b: [i16; 16]) -> (r: [i16; 16])
        ensures
            forall|i: int|
                0 <= i < 16 ==> r[i] == if (mask >> i as u16) % 2 == 1 {
                    shld16(a[i] as u16, b[i] as u16, IMM8 as u32) as i16
                } else {
                    0
                },
    {
        let full = self.shldi_i16x16::<IMM8>(a, b);
        let mut out = [0i16; 16];
        let mut i: usize = 0;
        while i < 16
            invariant
                i <= 16,
                forall|j: int| 0 <= j < 16 ==> full[j] == shld16(a[j] as u16, b[j] as u16, IMM8 as u32) as i16,
                forall|j: int| 0 <= j < i ==> out[j] == (if (mask >> j as u16) % 2 == 1 { shld16(a[j] as u16, b[j] as u16, IMM8 as u32) as i16 } else { 0 }),
            decreases 16 - i,
        {
            out[i] = if (mask >> i as u16) % 2 == 1 { full[i] } else { 0 };
            i += 1;
        }
        out
    }

    /// Funnel shift left `a:b` by `c` (`vpshldvw`, 256-bit).
    pub fn shldv_i16x16(self, a: [i16; 16], b: [i16; 16], c: [i16; 16]) -> (r: [i16; 16])
        ensures
            forall|i: int| 0 <= i < 16 ==> r[i] == shld16(a[i] as u16, b[i] as u16, c[i] as u16 as u32) as i16,
    {
        let mut out = [0i16; 16];
        let mut i: usize = 0;
        while i < 16
            invariant
                i <= 16,
                forall|j: int| 0 <= j < i ==> out[j] == shld16(a[j] as u16, b[j] as u16, c[j] as u16 as u32) as i16,
            decreases 16 - i,
        {
            out[i] = shld16_exec(a[i] as u16, b[i] as u16, c[i] as u16 as u32) as i16;
            i += 1;
        }
        out
    }

    /// `out[i] = shldv(a[i], b[i], c[i])`. 16-wide chunks, scalar remainder.
    pub fn shldv_i16_slice_wide(self, a: &[i16], b: &[i16], c: &[i16], out: &mut [i16])
        requires
            b@.len() == a@.len(),
            c@.len() == a@.len(),
            old(out)@.len() == a@.len(),
        ensures
            final(out)@.len() == a@.len(),
            forall|i: int| 0 <= i < a@.len() ==> final(out)@[i] == shld16(a@[i] as u16, b@[i] as u16, c@[i] as u16 as u32) as i16,
    {
        let len = a.len();
        let mut i: usize = 0;
        while len - i >= 16
            invariant
                i <= len,
                len == a@.len(),
                len == b@.len(),
                len == c@.len(),
                out@.len() == len,
                forall|j: int| 0 <= j < i ==> out@[j] == shld16(a@[j] as u16, b@[j] as u16, c@[j] as u16 as u32) as i16,
            decreases len - i,
        {
            let r = self.shldv_i16x16(loadu_i16x16(a, i), loadu_i16x16(b, i), loadu_i16x16(c, i));
            storeu_i16x16(out, i, r);
            i += 16;
        }
        while i < len
            invariant
                i <= len,
                len == a@.len(),
                len == b@.len(),
                len == c@.len(),
                out@.len() == len,
                forall|j: int| 0 <= j < i ==> out@[j] == shld16(a@[j] as u16, b@[j] as u16, c@[j] as u16 as u32) as i16,
            decreases len - i,
        {
            out[i] = shld16_exec(a[i] as u16, b[i] as u16, c[i] as u16 as u32) as i16;
            i += 1;
        }
    }

    /// [`Avx512Vbmi2Vl::shldv_i16x16`] where `mask` bit is set, else copied from `a` (`vpshldvw`, merge-masked).
    pub fn shldv_i16x16_merge_masked(self, a: [i16; 16], mask: u16, b: [i16; 16], c: [i16; 16]) -> (r: [i16; 16])
        ensures
            forall|i: int|
                0 <= i < 16 ==> r[i] == if (mask >> i as u16) % 2 == 1 {
                    shld16(a[i] as u16, b[i] as u16, c[i] as u16 as u32) as i16
                } else {
                    a[i]
                },
    {
        let full = self.shldv_i16x16(a, b, c);
        let mut out = [0i16; 16];
        let mut i: usize = 0;
        while i < 16
            invariant
                i <= 16,
                forall|j: int| 0 <= j < 16 ==> full[j] == shld16(a[j] as u16, b[j] as u16, c[j] as u16 as u32) as i16,
                forall|j: int| 0 <= j < i ==> out[j] == (if (mask >> j as u16) % 2 == 1 { shld16(a[j] as u16, b[j] as u16, c[j] as u16 as u32) as i16 } else { a[j] }),
            decreases 16 - i,
        {
            out[i] = if (mask >> i as u16) % 2 == 1 { full[i] } else { a[i] };
            i += 1;
        }
        out
    }

    /// [`Avx512Vbmi2Vl::shldv_i16x16`] where `mask` bit is set, else zero (`vpshldvw`, zero-masked).
    pub fn shldv_i16x16_zero_masked(self, mask: u16, a: [i16; 16], b: [i16; 16], c: [i16; 16]) -> (r: [i16; 16])
        ensures
            forall|i: int|
                0 <= i < 16 ==> r[i] == if (mask >> i as u16) % 2 == 1 {
                    shld16(a[i] as u16, b[i] as u16, c[i] as u16 as u32) as i16
                } else {
                    0
                },
    {
        let full = self.shldv_i16x16(a, b, c);
        let mut out = [0i16; 16];
        let mut i: usize = 0;
        while i < 16
            invariant
                i <= 16,
                forall|j: int| 0 <= j < 16 ==> full[j] == shld16(a[j] as u16, b[j] as u16, c[j] as u16 as u32) as i16,
                forall|j: int| 0 <= j < i ==> out[j] == (if (mask >> j as u16) % 2 == 1 { shld16(a[j] as u16, b[j] as u16, c[j] as u16 as u32) as i16 } else { 0 }),
            decreases 16 - i,
        {
            out[i] = if (mask >> i as u16) % 2 == 1 { full[i] } else { 0 };
            i += 1;
        }
        out
    }

    /// Funnel shift right `b:a` by `IMM8` (`vpshrdw`, 256-bit).
    pub fn shrdi_i16x16<const IMM8: u8>(self, a: [i16; 16], b: [i16; 16]) -> (r: [i16; 16])
        ensures
            forall|i: int| 0 <= i < 16 ==> r[i] == shrd16(a[i] as u16, b[i] as u16, IMM8 as u32) as i16,
    {
        let mut out = [0i16; 16];
        let mut i: usize = 0;
        while i < 16
            invariant
                i <= 16,
                forall|j: int| 0 <= j < i ==> out[j] == shrd16(a[j] as u16, b[j] as u16, IMM8 as u32) as i16,
            decreases 16 - i,
        {
            out[i] = shrd16_exec(a[i] as u16, b[i] as u16, IMM8 as u32) as i16;
            i += 1;
        }
        out
    }

    /// `out[i] = shrdi(a[i], b[i], IMM8)`. 16-wide chunks, scalar remainder.
    pub fn shrdi_i16_slice_wide<const IMM8: u8>(self, a: &[i16], b: &[i16], out: &mut [i16])
        requires
            b@.len() == a@.len(),
            old(out)@.len() == a@.len(),
        ensures
            final(out)@.len() == a@.len(),
            forall|i: int| 0 <= i < a@.len() ==> final(out)@[i] == shrd16(a@[i] as u16, b@[i] as u16, IMM8 as u32) as i16,
    {
        let len = a.len();
        let mut i: usize = 0;
        while len - i >= 16
            invariant
                i <= len,
                len == a@.len(),
                len == b@.len(),
                out@.len() == len,
                forall|j: int| 0 <= j < i ==> out@[j] == shrd16(a@[j] as u16, b@[j] as u16, IMM8 as u32) as i16,
            decreases len - i,
        {
            let r = self.shrdi_i16x16::<IMM8>(loadu_i16x16(a, i), loadu_i16x16(b, i));
            storeu_i16x16(out, i, r);
            i += 16;
        }
        while i < len
            invariant
                i <= len,
                len == a@.len(),
                len == b@.len(),
                out@.len() == len,
                forall|j: int| 0 <= j < i ==> out@[j] == shrd16(a@[j] as u16, b@[j] as u16, IMM8 as u32) as i16,
            decreases len - i,
        {
            out[i] = shrd16_exec(a[i] as u16, b[i] as u16, IMM8 as u32) as i16;
            i += 1;
        }
    }

    /// [`Avx512Vbmi2Vl::shrdi_i16x16`] where `mask` bit is set, else copied from `src` (`vpshrdw`, merge-masked).
    pub fn shrdi_i16x16_merge_masked<const IMM8: u8>(self, src: [i16; 16], mask: u16, a: [i16; 16], b: [i16; 16]) -> (r: [i16; 16])
        ensures
            forall|i: int|
                0 <= i < 16 ==> r[i] == if (mask >> i as u16) % 2 == 1 {
                    shrd16(a[i] as u16, b[i] as u16, IMM8 as u32) as i16
                } else {
                    src[i]
                },
    {
        let full = self.shrdi_i16x16::<IMM8>(a, b);
        let mut out = [0i16; 16];
        let mut i: usize = 0;
        while i < 16
            invariant
                i <= 16,
                forall|j: int| 0 <= j < 16 ==> full[j] == shrd16(a[j] as u16, b[j] as u16, IMM8 as u32) as i16,
                forall|j: int| 0 <= j < i ==> out[j] == (if (mask >> j as u16) % 2 == 1 { shrd16(a[j] as u16, b[j] as u16, IMM8 as u32) as i16 } else { src[j] }),
            decreases 16 - i,
        {
            out[i] = if (mask >> i as u16) % 2 == 1 { full[i] } else { src[i] };
            i += 1;
        }
        out
    }

    /// [`Avx512Vbmi2Vl::shrdi_i16x16`] where `mask` bit is set, else zero (`vpshrdw`, zero-masked).
    pub fn shrdi_i16x16_zero_masked<const IMM8: u8>(self, mask: u16, a: [i16; 16], b: [i16; 16]) -> (r: [i16; 16])
        ensures
            forall|i: int|
                0 <= i < 16 ==> r[i] == if (mask >> i as u16) % 2 == 1 {
                    shrd16(a[i] as u16, b[i] as u16, IMM8 as u32) as i16
                } else {
                    0
                },
    {
        let full = self.shrdi_i16x16::<IMM8>(a, b);
        let mut out = [0i16; 16];
        let mut i: usize = 0;
        while i < 16
            invariant
                i <= 16,
                forall|j: int| 0 <= j < 16 ==> full[j] == shrd16(a[j] as u16, b[j] as u16, IMM8 as u32) as i16,
                forall|j: int| 0 <= j < i ==> out[j] == (if (mask >> j as u16) % 2 == 1 { shrd16(a[j] as u16, b[j] as u16, IMM8 as u32) as i16 } else { 0 }),
            decreases 16 - i,
        {
            out[i] = if (mask >> i as u16) % 2 == 1 { full[i] } else { 0 };
            i += 1;
        }
        out
    }

    /// Funnel shift right `b:a` by `c` (`vpshrdvw`, 256-bit).
    pub fn shrdv_i16x16(self, a: [i16; 16], b: [i16; 16], c: [i16; 16]) -> (r: [i16; 16])
        ensures
            forall|i: int| 0 <= i < 16 ==> r[i] == shrd16(a[i] as u16, b[i] as u16, c[i] as u16 as u32) as i16,
    {
        let mut out = [0i16; 16];
        let mut i: usize = 0;
        while i < 16
            invariant
                i <= 16,
                forall|j: int| 0 <= j < i ==> out[j] == shrd16(a[j] as u16, b[j] as u16, c[j] as u16 as u32) as i16,
            decreases 16 - i,
        {
            out[i] = shrd16_exec(a[i] as u16, b[i] as u16, c[i] as u16 as u32) as i16;
            i += 1;
        }
        out
    }

    /// `out[i] = shrdv(a[i], b[i], c[i])`. 16-wide chunks, scalar remainder.
    pub fn shrdv_i16_slice_wide(self, a: &[i16], b: &[i16], c: &[i16], out: &mut [i16])
        requires
            b@.len() == a@.len(),
            c@.len() == a@.len(),
            old(out)@.len() == a@.len(),
        ensures
            final(out)@.len() == a@.len(),
            forall|i: int| 0 <= i < a@.len() ==> final(out)@[i] == shrd16(a@[i] as u16, b@[i] as u16, c@[i] as u16 as u32) as i16,
    {
        let len = a.len();
        let mut i: usize = 0;
        while len - i >= 16
            invariant
                i <= len,
                len == a@.len(),
                len == b@.len(),
                len == c@.len(),
                out@.len() == len,
                forall|j: int| 0 <= j < i ==> out@[j] == shrd16(a@[j] as u16, b@[j] as u16, c@[j] as u16 as u32) as i16,
            decreases len - i,
        {
            let r = self.shrdv_i16x16(loadu_i16x16(a, i), loadu_i16x16(b, i), loadu_i16x16(c, i));
            storeu_i16x16(out, i, r);
            i += 16;
        }
        while i < len
            invariant
                i <= len,
                len == a@.len(),
                len == b@.len(),
                len == c@.len(),
                out@.len() == len,
                forall|j: int| 0 <= j < i ==> out@[j] == shrd16(a@[j] as u16, b@[j] as u16, c@[j] as u16 as u32) as i16,
            decreases len - i,
        {
            out[i] = shrd16_exec(a[i] as u16, b[i] as u16, c[i] as u16 as u32) as i16;
            i += 1;
        }
    }

    /// [`Avx512Vbmi2Vl::shrdv_i16x16`] where `mask` bit is set, else copied from `a` (`vpshrdvw`, merge-masked).
    pub fn shrdv_i16x16_merge_masked(self, a: [i16; 16], mask: u16, b: [i16; 16], c: [i16; 16]) -> (r: [i16; 16])
        ensures
            forall|i: int|
                0 <= i < 16 ==> r[i] == if (mask >> i as u16) % 2 == 1 {
                    shrd16(a[i] as u16, b[i] as u16, c[i] as u16 as u32) as i16
                } else {
                    a[i]
                },
    {
        let full = self.shrdv_i16x16(a, b, c);
        let mut out = [0i16; 16];
        let mut i: usize = 0;
        while i < 16
            invariant
                i <= 16,
                forall|j: int| 0 <= j < 16 ==> full[j] == shrd16(a[j] as u16, b[j] as u16, c[j] as u16 as u32) as i16,
                forall|j: int| 0 <= j < i ==> out[j] == (if (mask >> j as u16) % 2 == 1 { shrd16(a[j] as u16, b[j] as u16, c[j] as u16 as u32) as i16 } else { a[j] }),
            decreases 16 - i,
        {
            out[i] = if (mask >> i as u16) % 2 == 1 { full[i] } else { a[i] };
            i += 1;
        }
        out
    }

    /// [`Avx512Vbmi2Vl::shrdv_i16x16`] where `mask` bit is set, else zero (`vpshrdvw`, zero-masked).
    pub fn shrdv_i16x16_zero_masked(self, mask: u16, a: [i16; 16], b: [i16; 16], c: [i16; 16]) -> (r: [i16; 16])
        ensures
            forall|i: int|
                0 <= i < 16 ==> r[i] == if (mask >> i as u16) % 2 == 1 {
                    shrd16(a[i] as u16, b[i] as u16, c[i] as u16 as u32) as i16
                } else {
                    0
                },
    {
        let full = self.shrdv_i16x16(a, b, c);
        let mut out = [0i16; 16];
        let mut i: usize = 0;
        while i < 16
            invariant
                i <= 16,
                forall|j: int| 0 <= j < 16 ==> full[j] == shrd16(a[j] as u16, b[j] as u16, c[j] as u16 as u32) as i16,
                forall|j: int| 0 <= j < i ==> out[j] == (if (mask >> j as u16) % 2 == 1 { shrd16(a[j] as u16, b[j] as u16, c[j] as u16 as u32) as i16 } else { 0 }),
            decreases 16 - i,
        {
            out[i] = if (mask >> i as u16) % 2 == 1 { full[i] } else { 0 };
            i += 1;
        }
        out
    }

    /// Funnel shift left `a:b` by `IMM8` (`vpshldw`, 128-bit).
    pub fn shldi_u16x8<const IMM8: u8>(self, a: [u16; 8], b: [u16; 8]) -> (r: [u16; 8])
        ensures
            forall|i: int| 0 <= i < 8 ==> r[i] == shld16(a[i], b[i], IMM8 as u32),
    {
        let mut out = [0u16; 8];
        let mut i: usize = 0;
        while i < 8
            invariant
                i <= 8,
                forall|j: int| 0 <= j < i ==> out[j] == shld16(a[j], b[j], IMM8 as u32),
            decreases 8 - i,
        {
            out[i] = shld16_exec(a[i], b[i], IMM8 as u32);
            i += 1;
        }
        out
    }

    /// `out[i] = shldi(a[i], b[i], IMM8)`. 8-wide chunks, scalar remainder.
    pub fn shldi_u16_slice<const IMM8: u8>(self, a: &[u16], b: &[u16], out: &mut [u16])
        requires
            b@.len() == a@.len(),
            old(out)@.len() == a@.len(),
        ensures
            final(out)@.len() == a@.len(),
            forall|i: int| 0 <= i < a@.len() ==> final(out)@[i] == shld16(a@[i], b@[i], IMM8 as u32),
    {
        let len = a.len();
        let mut i: usize = 0;
        while len - i >= 8
            invariant
                i <= len,
                len == a@.len(),
                len == b@.len(),
                out@.len() == len,
                forall|j: int| 0 <= j < i ==> out@[j] == shld16(a@[j], b@[j], IMM8 as u32),
            decreases len - i,
        {
            let r = self.shldi_u16x8::<IMM8>(loadu_u16x8(a, i), loadu_u16x8(b, i));
            storeu_u16x8(out, i, r);
            i += 8;
        }
        while i < len
            invariant
                i <= len,
                len == a@.len(),
                len == b@.len(),
                out@.len() == len,
                forall|j: int| 0 <= j < i ==> out@[j] == shld16(a@[j], b@[j], IMM8 as u32),
            decreases len - i,
        {
            out[i] = shld16_exec(a[i], b[i], IMM8 as u32);
            i += 1;
        }
    }

    /// [`Avx512Vbmi2Vl::shldi_u16x8`] where `mask` bit is set, else copied from `src` (`vpshldw`, merge-masked).
    pub fn shldi_u16x8_merge_masked<const IMM8: u8>(self, src: [u16; 8], mask: u8, a: [u16; 8], b: [u16; 8]) -> (r: [u16; 8])
        ensures
            forall|i: int|
                0 <= i < 8 ==> r[i] == if (mask >> i as u8) % 2 == 1 {
                    shld16(a[i], b[i], IMM8 as u32)
                } else {
                    src[i]
                },
    {
        let full = self.shldi_u16x8::<IMM8>(a, b);
        let mut out = [0u16; 8];
        let mut i: usize = 0;
        while i < 8
            invariant
                i <= 8,
                forall|j: int| 0 <= j < 8 ==> full[j] == shld16(a[j], b[j], IMM8 as u32),
                forall|j: int| 0 <= j < i ==> out[j] == (if (mask >> j as u8) % 2 == 1 { shld16(a[j], b[j], IMM8 as u32) } else { src[j] }),
            decreases 8 - i,
        {
            out[i] = if (mask >> i as u8) % 2 == 1 { full[i] } else { src[i] };
            i += 1;
        }
        out
    }

    /// [`Avx512Vbmi2Vl::shldi_u16x8`] where `mask` bit is set, else zero (`vpshldw`, zero-masked).
    pub fn shldi_u16x8_zero_masked<const IMM8: u8>(self, mask: u8, a: [u16; 8], b: [u16; 8]) -> (r: [u16; 8])
        ensures
            forall|i: int|
                0 <= i < 8 ==> r[i] == if (mask >> i as u8) % 2 == 1 {
                    shld16(a[i], b[i], IMM8 as u32)
                } else {
                    0
                },
    {
        let full = self.shldi_u16x8::<IMM8>(a, b);
        let mut out = [0u16; 8];
        let mut i: usize = 0;
        while i < 8
            invariant
                i <= 8,
                forall|j: int| 0 <= j < 8 ==> full[j] == shld16(a[j], b[j], IMM8 as u32),
                forall|j: int| 0 <= j < i ==> out[j] == (if (mask >> j as u8) % 2 == 1 { shld16(a[j], b[j], IMM8 as u32) } else { 0 }),
            decreases 8 - i,
        {
            out[i] = if (mask >> i as u8) % 2 == 1 { full[i] } else { 0 };
            i += 1;
        }
        out
    }

    /// Funnel shift left `a:b` by `c` (`vpshldvw`, 128-bit).
    pub fn shldv_u16x8(self, a: [u16; 8], b: [u16; 8], c: [u16; 8]) -> (r: [u16; 8])
        ensures
            forall|i: int| 0 <= i < 8 ==> r[i] == shld16(a[i], b[i], c[i] as u32),
    {
        let mut out = [0u16; 8];
        let mut i: usize = 0;
        while i < 8
            invariant
                i <= 8,
                forall|j: int| 0 <= j < i ==> out[j] == shld16(a[j], b[j], c[j] as u32),
            decreases 8 - i,
        {
            out[i] = shld16_exec(a[i], b[i], c[i] as u32);
            i += 1;
        }
        out
    }

    /// `out[i] = shldv(a[i], b[i], c[i])`. 8-wide chunks, scalar remainder.
    pub fn shldv_u16_slice(self, a: &[u16], b: &[u16], c: &[u16], out: &mut [u16])
        requires
            b@.len() == a@.len(),
            c@.len() == a@.len(),
            old(out)@.len() == a@.len(),
        ensures
            final(out)@.len() == a@.len(),
            forall|i: int| 0 <= i < a@.len() ==> final(out)@[i] == shld16(a@[i], b@[i], c@[i] as u32),
    {
        let len = a.len();
        let mut i: usize = 0;
        while len - i >= 8
            invariant
                i <= len,
                len == a@.len(),
                len == b@.len(),
                len == c@.len(),
                out@.len() == len,
                forall|j: int| 0 <= j < i ==> out@[j] == shld16(a@[j], b@[j], c@[j] as u32),
            decreases len - i,
        {
            let r = self.shldv_u16x8(loadu_u16x8(a, i), loadu_u16x8(b, i), loadu_u16x8(c, i));
            storeu_u16x8(out, i, r);
            i += 8;
        }
        while i < len
            invariant
                i <= len,
                len == a@.len(),
                len == b@.len(),
                len == c@.len(),
                out@.len() == len,
                forall|j: int| 0 <= j < i ==> out@[j] == shld16(a@[j], b@[j], c@[j] as u32),
            decreases len - i,
        {
            out[i] = shld16_exec(a[i], b[i], c[i] as u32);
            i += 1;
        }
    }

    /// [`Avx512Vbmi2Vl::shldv_u16x8`] where `mask` bit is set, else copied from `a` (`vpshldvw`, merge-masked).
    pub fn shldv_u16x8_merge_masked(self, a: [u16; 8], mask: u8, b: [u16; 8], c: [u16; 8]) -> (r: [u16; 8])
        ensures
            forall|i: int|
                0 <= i < 8 ==> r[i] == if (mask >> i as u8) % 2 == 1 {
                    shld16(a[i], b[i], c[i] as u32)
                } else {
                    a[i]
                },
    {
        let full = self.shldv_u16x8(a, b, c);
        let mut out = [0u16; 8];
        let mut i: usize = 0;
        while i < 8
            invariant
                i <= 8,
                forall|j: int| 0 <= j < 8 ==> full[j] == shld16(a[j], b[j], c[j] as u32),
                forall|j: int| 0 <= j < i ==> out[j] == (if (mask >> j as u8) % 2 == 1 { shld16(a[j], b[j], c[j] as u32) } else { a[j] }),
            decreases 8 - i,
        {
            out[i] = if (mask >> i as u8) % 2 == 1 { full[i] } else { a[i] };
            i += 1;
        }
        out
    }

    /// [`Avx512Vbmi2Vl::shldv_u16x8`] where `mask` bit is set, else zero (`vpshldvw`, zero-masked).
    pub fn shldv_u16x8_zero_masked(self, mask: u8, a: [u16; 8], b: [u16; 8], c: [u16; 8]) -> (r: [u16; 8])
        ensures
            forall|i: int|
                0 <= i < 8 ==> r[i] == if (mask >> i as u8) % 2 == 1 {
                    shld16(a[i], b[i], c[i] as u32)
                } else {
                    0
                },
    {
        let full = self.shldv_u16x8(a, b, c);
        let mut out = [0u16; 8];
        let mut i: usize = 0;
        while i < 8
            invariant
                i <= 8,
                forall|j: int| 0 <= j < 8 ==> full[j] == shld16(a[j], b[j], c[j] as u32),
                forall|j: int| 0 <= j < i ==> out[j] == (if (mask >> j as u8) % 2 == 1 { shld16(a[j], b[j], c[j] as u32) } else { 0 }),
            decreases 8 - i,
        {
            out[i] = if (mask >> i as u8) % 2 == 1 { full[i] } else { 0 };
            i += 1;
        }
        out
    }

    /// Funnel shift right `b:a` by `IMM8` (`vpshrdw`, 128-bit).
    pub fn shrdi_u16x8<const IMM8: u8>(self, a: [u16; 8], b: [u16; 8]) -> (r: [u16; 8])
        ensures
            forall|i: int| 0 <= i < 8 ==> r[i] == shrd16(a[i], b[i], IMM8 as u32),
    {
        let mut out = [0u16; 8];
        let mut i: usize = 0;
        while i < 8
            invariant
                i <= 8,
                forall|j: int| 0 <= j < i ==> out[j] == shrd16(a[j], b[j], IMM8 as u32),
            decreases 8 - i,
        {
            out[i] = shrd16_exec(a[i], b[i], IMM8 as u32);
            i += 1;
        }
        out
    }

    /// `out[i] = shrdi(a[i], b[i], IMM8)`. 8-wide chunks, scalar remainder.
    pub fn shrdi_u16_slice<const IMM8: u8>(self, a: &[u16], b: &[u16], out: &mut [u16])
        requires
            b@.len() == a@.len(),
            old(out)@.len() == a@.len(),
        ensures
            final(out)@.len() == a@.len(),
            forall|i: int| 0 <= i < a@.len() ==> final(out)@[i] == shrd16(a@[i], b@[i], IMM8 as u32),
    {
        let len = a.len();
        let mut i: usize = 0;
        while len - i >= 8
            invariant
                i <= len,
                len == a@.len(),
                len == b@.len(),
                out@.len() == len,
                forall|j: int| 0 <= j < i ==> out@[j] == shrd16(a@[j], b@[j], IMM8 as u32),
            decreases len - i,
        {
            let r = self.shrdi_u16x8::<IMM8>(loadu_u16x8(a, i), loadu_u16x8(b, i));
            storeu_u16x8(out, i, r);
            i += 8;
        }
        while i < len
            invariant
                i <= len,
                len == a@.len(),
                len == b@.len(),
                out@.len() == len,
                forall|j: int| 0 <= j < i ==> out@[j] == shrd16(a@[j], b@[j], IMM8 as u32),
            decreases len - i,
        {
            out[i] = shrd16_exec(a[i], b[i], IMM8 as u32);
            i += 1;
        }
    }

    /// [`Avx512Vbmi2Vl::shrdi_u16x8`] where `mask` bit is set, else copied from `src` (`vpshrdw`, merge-masked).
    pub fn shrdi_u16x8_merge_masked<const IMM8: u8>(self, src: [u16; 8], mask: u8, a: [u16; 8], b: [u16; 8]) -> (r: [u16; 8])
        ensures
            forall|i: int|
                0 <= i < 8 ==> r[i] == if (mask >> i as u8) % 2 == 1 {
                    shrd16(a[i], b[i], IMM8 as u32)
                } else {
                    src[i]
                },
    {
        let full = self.shrdi_u16x8::<IMM8>(a, b);
        let mut out = [0u16; 8];
        let mut i: usize = 0;
        while i < 8
            invariant
                i <= 8,
                forall|j: int| 0 <= j < 8 ==> full[j] == shrd16(a[j], b[j], IMM8 as u32),
                forall|j: int| 0 <= j < i ==> out[j] == (if (mask >> j as u8) % 2 == 1 { shrd16(a[j], b[j], IMM8 as u32) } else { src[j] }),
            decreases 8 - i,
        {
            out[i] = if (mask >> i as u8) % 2 == 1 { full[i] } else { src[i] };
            i += 1;
        }
        out
    }

    /// [`Avx512Vbmi2Vl::shrdi_u16x8`] where `mask` bit is set, else zero (`vpshrdw`, zero-masked).
    pub fn shrdi_u16x8_zero_masked<const IMM8: u8>(self, mask: u8, a: [u16; 8], b: [u16; 8]) -> (r: [u16; 8])
        ensures
            forall|i: int|
                0 <= i < 8 ==> r[i] == if (mask >> i as u8) % 2 == 1 {
                    shrd16(a[i], b[i], IMM8 as u32)
                } else {
                    0
                },
    {
        let full = self.shrdi_u16x8::<IMM8>(a, b);
        let mut out = [0u16; 8];
        let mut i: usize = 0;
        while i < 8
            invariant
                i <= 8,
                forall|j: int| 0 <= j < 8 ==> full[j] == shrd16(a[j], b[j], IMM8 as u32),
                forall|j: int| 0 <= j < i ==> out[j] == (if (mask >> j as u8) % 2 == 1 { shrd16(a[j], b[j], IMM8 as u32) } else { 0 }),
            decreases 8 - i,
        {
            out[i] = if (mask >> i as u8) % 2 == 1 { full[i] } else { 0 };
            i += 1;
        }
        out
    }

    /// Funnel shift right `b:a` by `c` (`vpshrdvw`, 128-bit).
    pub fn shrdv_u16x8(self, a: [u16; 8], b: [u16; 8], c: [u16; 8]) -> (r: [u16; 8])
        ensures
            forall|i: int| 0 <= i < 8 ==> r[i] == shrd16(a[i], b[i], c[i] as u32),
    {
        let mut out = [0u16; 8];
        let mut i: usize = 0;
        while i < 8
            invariant
                i <= 8,
                forall|j: int| 0 <= j < i ==> out[j] == shrd16(a[j], b[j], c[j] as u32),
            decreases 8 - i,
        {
            out[i] = shrd16_exec(a[i], b[i], c[i] as u32);
            i += 1;
        }
        out
    }

    /// `out[i] = shrdv(a[i], b[i], c[i])`. 8-wide chunks, scalar remainder.
    pub fn shrdv_u16_slice(self, a: &[u16], b: &[u16], c: &[u16], out: &mut [u16])
        requires
            b@.len() == a@.len(),
            c@.len() == a@.len(),
            old(out)@.len() == a@.len(),
        ensures
            final(out)@.len() == a@.len(),
            forall|i: int| 0 <= i < a@.len() ==> final(out)@[i] == shrd16(a@[i], b@[i], c@[i] as u32),
    {
        let len = a.len();
        let mut i: usize = 0;
        while len - i >= 8
            invariant
                i <= len,
                len == a@.len(),
                len == b@.len(),
                len == c@.len(),
                out@.len() == len,
                forall|j: int| 0 <= j < i ==> out@[j] == shrd16(a@[j], b@[j], c@[j] as u32),
            decreases len - i,
        {
            let r = self.shrdv_u16x8(loadu_u16x8(a, i), loadu_u16x8(b, i), loadu_u16x8(c, i));
            storeu_u16x8(out, i, r);
            i += 8;
        }
        while i < len
            invariant
                i <= len,
                len == a@.len(),
                len == b@.len(),
                len == c@.len(),
                out@.len() == len,
                forall|j: int| 0 <= j < i ==> out@[j] == shrd16(a@[j], b@[j], c@[j] as u32),
            decreases len - i,
        {
            out[i] = shrd16_exec(a[i], b[i], c[i] as u32);
            i += 1;
        }
    }

    /// [`Avx512Vbmi2Vl::shrdv_u16x8`] where `mask` bit is set, else copied from `a` (`vpshrdvw`, merge-masked).
    pub fn shrdv_u16x8_merge_masked(self, a: [u16; 8], mask: u8, b: [u16; 8], c: [u16; 8]) -> (r: [u16; 8])
        ensures
            forall|i: int|
                0 <= i < 8 ==> r[i] == if (mask >> i as u8) % 2 == 1 {
                    shrd16(a[i], b[i], c[i] as u32)
                } else {
                    a[i]
                },
    {
        let full = self.shrdv_u16x8(a, b, c);
        let mut out = [0u16; 8];
        let mut i: usize = 0;
        while i < 8
            invariant
                i <= 8,
                forall|j: int| 0 <= j < 8 ==> full[j] == shrd16(a[j], b[j], c[j] as u32),
                forall|j: int| 0 <= j < i ==> out[j] == (if (mask >> j as u8) % 2 == 1 { shrd16(a[j], b[j], c[j] as u32) } else { a[j] }),
            decreases 8 - i,
        {
            out[i] = if (mask >> i as u8) % 2 == 1 { full[i] } else { a[i] };
            i += 1;
        }
        out
    }

    /// [`Avx512Vbmi2Vl::shrdv_u16x8`] where `mask` bit is set, else zero (`vpshrdvw`, zero-masked).
    pub fn shrdv_u16x8_zero_masked(self, mask: u8, a: [u16; 8], b: [u16; 8], c: [u16; 8]) -> (r: [u16; 8])
        ensures
            forall|i: int|
                0 <= i < 8 ==> r[i] == if (mask >> i as u8) % 2 == 1 {
                    shrd16(a[i], b[i], c[i] as u32)
                } else {
                    0
                },
    {
        let full = self.shrdv_u16x8(a, b, c);
        let mut out = [0u16; 8];
        let mut i: usize = 0;
        while i < 8
            invariant
                i <= 8,
                forall|j: int| 0 <= j < 8 ==> full[j] == shrd16(a[j], b[j], c[j] as u32),
                forall|j: int| 0 <= j < i ==> out[j] == (if (mask >> j as u8) % 2 == 1 { shrd16(a[j], b[j], c[j] as u32) } else { 0 }),
            decreases 8 - i,
        {
            out[i] = if (mask >> i as u8) % 2 == 1 { full[i] } else { 0 };
            i += 1;
        }
        out
    }

    /// Funnel shift left `a:b` by `IMM8` (`vpshldw`, 256-bit).
    pub fn shldi_u16x16<const IMM8: u8>(self, a: [u16; 16], b: [u16; 16]) -> (r: [u16; 16])
        ensures
            forall|i: int| 0 <= i < 16 ==> r[i] == shld16(a[i], b[i], IMM8 as u32),
    {
        let mut out = [0u16; 16];
        let mut i: usize = 0;
        while i < 16
            invariant
                i <= 16,
                forall|j: int| 0 <= j < i ==> out[j] == shld16(a[j], b[j], IMM8 as u32),
            decreases 16 - i,
        {
            out[i] = shld16_exec(a[i], b[i], IMM8 as u32);
            i += 1;
        }
        out
    }

    /// `out[i] = shldi(a[i], b[i], IMM8)`. 16-wide chunks, scalar remainder.
    pub fn shldi_u16_slice_wide<const IMM8: u8>(self, a: &[u16], b: &[u16], out: &mut [u16])
        requires
            b@.len() == a@.len(),
            old(out)@.len() == a@.len(),
        ensures
            final(out)@.len() == a@.len(),
            forall|i: int| 0 <= i < a@.len() ==> final(out)@[i] == shld16(a@[i], b@[i], IMM8 as u32),
    {
        let len = a.len();
        let mut i: usize = 0;
        while len - i >= 16
            invariant
                i <= len,
                len == a@.len(),
                len == b@.len(),
                out@.len() == len,
                forall|j: int| 0 <= j < i ==> out@[j] == shld16(a@[j], b@[j], IMM8 as u32),
            decreases len - i,
        {
            let r = self.shldi_u16x16::<IMM8>(loadu_u16x16(a, i), loadu_u16x16(b, i));
            storeu_u16x16(out, i, r);
            i += 16;
        }
        while i < len
            invariant
                i <= len,
                len == a@.len(),
                len == b@.len(),
                out@.len() == len,
                forall|j: int| 0 <= j < i ==> out@[j] == shld16(a@[j], b@[j], IMM8 as u32),
            decreases len - i,
        {
            out[i] = shld16_exec(a[i], b[i], IMM8 as u32);
            i += 1;
        }
    }

    /// [`Avx512Vbmi2Vl::shldi_u16x16`] where `mask` bit is set, else copied from `src` (`vpshldw`, merge-masked).
    pub fn shldi_u16x16_merge_masked<const IMM8: u8>(self, src: [u16; 16], mask: u16, a: [u16; 16], b: [u16; 16]) -> (r: [u16; 16])
        ensures
            forall|i: int|
                0 <= i < 16 ==> r[i] == if (mask >> i as u16) % 2 == 1 {
                    shld16(a[i], b[i], IMM8 as u32)
                } else {
                    src[i]
                },
    {
        let full = self.shldi_u16x16::<IMM8>(a, b);
        let mut out = [0u16; 16];
        let mut i: usize = 0;
        while i < 16
            invariant
                i <= 16,
                forall|j: int| 0 <= j < 16 ==> full[j] == shld16(a[j], b[j], IMM8 as u32),
                forall|j: int| 0 <= j < i ==> out[j] == (if (mask >> j as u16) % 2 == 1 { shld16(a[j], b[j], IMM8 as u32) } else { src[j] }),
            decreases 16 - i,
        {
            out[i] = if (mask >> i as u16) % 2 == 1 { full[i] } else { src[i] };
            i += 1;
        }
        out
    }

    /// [`Avx512Vbmi2Vl::shldi_u16x16`] where `mask` bit is set, else zero (`vpshldw`, zero-masked).
    pub fn shldi_u16x16_zero_masked<const IMM8: u8>(self, mask: u16, a: [u16; 16], b: [u16; 16]) -> (r: [u16; 16])
        ensures
            forall|i: int|
                0 <= i < 16 ==> r[i] == if (mask >> i as u16) % 2 == 1 {
                    shld16(a[i], b[i], IMM8 as u32)
                } else {
                    0
                },
    {
        let full = self.shldi_u16x16::<IMM8>(a, b);
        let mut out = [0u16; 16];
        let mut i: usize = 0;
        while i < 16
            invariant
                i <= 16,
                forall|j: int| 0 <= j < 16 ==> full[j] == shld16(a[j], b[j], IMM8 as u32),
                forall|j: int| 0 <= j < i ==> out[j] == (if (mask >> j as u16) % 2 == 1 { shld16(a[j], b[j], IMM8 as u32) } else { 0 }),
            decreases 16 - i,
        {
            out[i] = if (mask >> i as u16) % 2 == 1 { full[i] } else { 0 };
            i += 1;
        }
        out
    }

    /// Funnel shift left `a:b` by `c` (`vpshldvw`, 256-bit).
    pub fn shldv_u16x16(self, a: [u16; 16], b: [u16; 16], c: [u16; 16]) -> (r: [u16; 16])
        ensures
            forall|i: int| 0 <= i < 16 ==> r[i] == shld16(a[i], b[i], c[i] as u32),
    {
        let mut out = [0u16; 16];
        let mut i: usize = 0;
        while i < 16
            invariant
                i <= 16,
                forall|j: int| 0 <= j < i ==> out[j] == shld16(a[j], b[j], c[j] as u32),
            decreases 16 - i,
        {
            out[i] = shld16_exec(a[i], b[i], c[i] as u32);
            i += 1;
        }
        out
    }

    /// `out[i] = shldv(a[i], b[i], c[i])`. 16-wide chunks, scalar remainder.
    pub fn shldv_u16_slice_wide(self, a: &[u16], b: &[u16], c: &[u16], out: &mut [u16])
        requires
            b@.len() == a@.len(),
            c@.len() == a@.len(),
            old(out)@.len() == a@.len(),
        ensures
            final(out)@.len() == a@.len(),
            forall|i: int| 0 <= i < a@.len() ==> final(out)@[i] == shld16(a@[i], b@[i], c@[i] as u32),
    {
        let len = a.len();
        let mut i: usize = 0;
        while len - i >= 16
            invariant
                i <= len,
                len == a@.len(),
                len == b@.len(),
                len == c@.len(),
                out@.len() == len,
                forall|j: int| 0 <= j < i ==> out@[j] == shld16(a@[j], b@[j], c@[j] as u32),
            decreases len - i,
        {
            let r = self.shldv_u16x16(loadu_u16x16(a, i), loadu_u16x16(b, i), loadu_u16x16(c, i));
            storeu_u16x16(out, i, r);
            i += 16;
        }
        while i < len
            invariant
                i <= len,
                len == a@.len(),
                len == b@.len(),
                len == c@.len(),
                out@.len() == len,
                forall|j: int| 0 <= j < i ==> out@[j] == shld16(a@[j], b@[j], c@[j] as u32),
            decreases len - i,
        {
            out[i] = shld16_exec(a[i], b[i], c[i] as u32);
            i += 1;
        }
    }

    /// [`Avx512Vbmi2Vl::shldv_u16x16`] where `mask` bit is set, else copied from `a` (`vpshldvw`, merge-masked).
    pub fn shldv_u16x16_merge_masked(self, a: [u16; 16], mask: u16, b: [u16; 16], c: [u16; 16]) -> (r: [u16; 16])
        ensures
            forall|i: int|
                0 <= i < 16 ==> r[i] == if (mask >> i as u16) % 2 == 1 {
                    shld16(a[i], b[i], c[i] as u32)
                } else {
                    a[i]
                },
    {
        let full = self.shldv_u16x16(a, b, c);
        let mut out = [0u16; 16];
        let mut i: usize = 0;
        while i < 16
            invariant
                i <= 16,
                forall|j: int| 0 <= j < 16 ==> full[j] == shld16(a[j], b[j], c[j] as u32),
                forall|j: int| 0 <= j < i ==> out[j] == (if (mask >> j as u16) % 2 == 1 { shld16(a[j], b[j], c[j] as u32) } else { a[j] }),
            decreases 16 - i,
        {
            out[i] = if (mask >> i as u16) % 2 == 1 { full[i] } else { a[i] };
            i += 1;
        }
        out
    }

    /// [`Avx512Vbmi2Vl::shldv_u16x16`] where `mask` bit is set, else zero (`vpshldvw`, zero-masked).
    pub fn shldv_u16x16_zero_masked(self, mask: u16, a: [u16; 16], b: [u16; 16], c: [u16; 16]) -> (r: [u16; 16])
        ensures
            forall|i: int|
                0 <= i < 16 ==> r[i] == if (mask >> i as u16) % 2 == 1 {
                    shld16(a[i], b[i], c[i] as u32)
                } else {
                    0
                },
    {
        let full = self.shldv_u16x16(a, b, c);
        let mut out = [0u16; 16];
        let mut i: usize = 0;
        while i < 16
            invariant
                i <= 16,
                forall|j: int| 0 <= j < 16 ==> full[j] == shld16(a[j], b[j], c[j] as u32),
                forall|j: int| 0 <= j < i ==> out[j] == (if (mask >> j as u16) % 2 == 1 { shld16(a[j], b[j], c[j] as u32) } else { 0 }),
            decreases 16 - i,
        {
            out[i] = if (mask >> i as u16) % 2 == 1 { full[i] } else { 0 };
            i += 1;
        }
        out
    }

    /// Funnel shift right `b:a` by `IMM8` (`vpshrdw`, 256-bit).
    pub fn shrdi_u16x16<const IMM8: u8>(self, a: [u16; 16], b: [u16; 16]) -> (r: [u16; 16])
        ensures
            forall|i: int| 0 <= i < 16 ==> r[i] == shrd16(a[i], b[i], IMM8 as u32),
    {
        let mut out = [0u16; 16];
        let mut i: usize = 0;
        while i < 16
            invariant
                i <= 16,
                forall|j: int| 0 <= j < i ==> out[j] == shrd16(a[j], b[j], IMM8 as u32),
            decreases 16 - i,
        {
            out[i] = shrd16_exec(a[i], b[i], IMM8 as u32);
            i += 1;
        }
        out
    }

    /// `out[i] = shrdi(a[i], b[i], IMM8)`. 16-wide chunks, scalar remainder.
    pub fn shrdi_u16_slice_wide<const IMM8: u8>(self, a: &[u16], b: &[u16], out: &mut [u16])
        requires
            b@.len() == a@.len(),
            old(out)@.len() == a@.len(),
        ensures
            final(out)@.len() == a@.len(),
            forall|i: int| 0 <= i < a@.len() ==> final(out)@[i] == shrd16(a@[i], b@[i], IMM8 as u32),
    {
        let len = a.len();
        let mut i: usize = 0;
        while len - i >= 16
            invariant
                i <= len,
                len == a@.len(),
                len == b@.len(),
                out@.len() == len,
                forall|j: int| 0 <= j < i ==> out@[j] == shrd16(a@[j], b@[j], IMM8 as u32),
            decreases len - i,
        {
            let r = self.shrdi_u16x16::<IMM8>(loadu_u16x16(a, i), loadu_u16x16(b, i));
            storeu_u16x16(out, i, r);
            i += 16;
        }
        while i < len
            invariant
                i <= len,
                len == a@.len(),
                len == b@.len(),
                out@.len() == len,
                forall|j: int| 0 <= j < i ==> out@[j] == shrd16(a@[j], b@[j], IMM8 as u32),
            decreases len - i,
        {
            out[i] = shrd16_exec(a[i], b[i], IMM8 as u32);
            i += 1;
        }
    }

    /// [`Avx512Vbmi2Vl::shrdi_u16x16`] where `mask` bit is set, else copied from `src` (`vpshrdw`, merge-masked).
    pub fn shrdi_u16x16_merge_masked<const IMM8: u8>(self, src: [u16; 16], mask: u16, a: [u16; 16], b: [u16; 16]) -> (r: [u16; 16])
        ensures
            forall|i: int|
                0 <= i < 16 ==> r[i] == if (mask >> i as u16) % 2 == 1 {
                    shrd16(a[i], b[i], IMM8 as u32)
                } else {
                    src[i]
                },
    {
        let full = self.shrdi_u16x16::<IMM8>(a, b);
        let mut out = [0u16; 16];
        let mut i: usize = 0;
        while i < 16
            invariant
                i <= 16,
                forall|j: int| 0 <= j < 16 ==> full[j] == shrd16(a[j], b[j], IMM8 as u32),
                forall|j: int| 0 <= j < i ==> out[j] == (if (mask >> j as u16) % 2 == 1 { shrd16(a[j], b[j], IMM8 as u32) } else { src[j] }),
            decreases 16 - i,
        {
            out[i] = if (mask >> i as u16) % 2 == 1 { full[i] } else { src[i] };
            i += 1;
        }
        out
    }

    /// [`Avx512Vbmi2Vl::shrdi_u16x16`] where `mask` bit is set, else zero (`vpshrdw`, zero-masked).
    pub fn shrdi_u16x16_zero_masked<const IMM8: u8>(self, mask: u16, a: [u16; 16], b: [u16; 16]) -> (r: [u16; 16])
        ensures
            forall|i: int|
                0 <= i < 16 ==> r[i] == if (mask >> i as u16) % 2 == 1 {
                    shrd16(a[i], b[i], IMM8 as u32)
                } else {
                    0
                },
    {
        let full = self.shrdi_u16x16::<IMM8>(a, b);
        let mut out = [0u16; 16];
        let mut i: usize = 0;
        while i < 16
            invariant
                i <= 16,
                forall|j: int| 0 <= j < 16 ==> full[j] == shrd16(a[j], b[j], IMM8 as u32),
                forall|j: int| 0 <= j < i ==> out[j] == (if (mask >> j as u16) % 2 == 1 { shrd16(a[j], b[j], IMM8 as u32) } else { 0 }),
            decreases 16 - i,
        {
            out[i] = if (mask >> i as u16) % 2 == 1 { full[i] } else { 0 };
            i += 1;
        }
        out
    }

    /// Funnel shift right `b:a` by `c` (`vpshrdvw`, 256-bit).
    pub fn shrdv_u16x16(self, a: [u16; 16], b: [u16; 16], c: [u16; 16]) -> (r: [u16; 16])
        ensures
            forall|i: int| 0 <= i < 16 ==> r[i] == shrd16(a[i], b[i], c[i] as u32),
    {
        let mut out = [0u16; 16];
        let mut i: usize = 0;
        while i < 16
            invariant
                i <= 16,
                forall|j: int| 0 <= j < i ==> out[j] == shrd16(a[j], b[j], c[j] as u32),
            decreases 16 - i,
        {
            out[i] = shrd16_exec(a[i], b[i], c[i] as u32);
            i += 1;
        }
        out
    }

    /// `out[i] = shrdv(a[i], b[i], c[i])`. 16-wide chunks, scalar remainder.
    pub fn shrdv_u16_slice_wide(self, a: &[u16], b: &[u16], c: &[u16], out: &mut [u16])
        requires
            b@.len() == a@.len(),
            c@.len() == a@.len(),
            old(out)@.len() == a@.len(),
        ensures
            final(out)@.len() == a@.len(),
            forall|i: int| 0 <= i < a@.len() ==> final(out)@[i] == shrd16(a@[i], b@[i], c@[i] as u32),
    {
        let len = a.len();
        let mut i: usize = 0;
        while len - i >= 16
            invariant
                i <= len,
                len == a@.len(),
                len == b@.len(),
                len == c@.len(),
                out@.len() == len,
                forall|j: int| 0 <= j < i ==> out@[j] == shrd16(a@[j], b@[j], c@[j] as u32),
            decreases len - i,
        {
            let r = self.shrdv_u16x16(loadu_u16x16(a, i), loadu_u16x16(b, i), loadu_u16x16(c, i));
            storeu_u16x16(out, i, r);
            i += 16;
        }
        while i < len
            invariant
                i <= len,
                len == a@.len(),
                len == b@.len(),
                len == c@.len(),
                out@.len() == len,
                forall|j: int| 0 <= j < i ==> out@[j] == shrd16(a@[j], b@[j], c@[j] as u32),
            decreases len - i,
        {
            out[i] = shrd16_exec(a[i], b[i], c[i] as u32);
            i += 1;
        }
    }

    /// [`Avx512Vbmi2Vl::shrdv_u16x16`] where `mask` bit is set, else copied from `a` (`vpshrdvw`, merge-masked).
    pub fn shrdv_u16x16_merge_masked(self, a: [u16; 16], mask: u16, b: [u16; 16], c: [u16; 16]) -> (r: [u16; 16])
        ensures
            forall|i: int|
                0 <= i < 16 ==> r[i] == if (mask >> i as u16) % 2 == 1 {
                    shrd16(a[i], b[i], c[i] as u32)
                } else {
                    a[i]
                },
    {
        let full = self.shrdv_u16x16(a, b, c);
        let mut out = [0u16; 16];
        let mut i: usize = 0;
        while i < 16
            invariant
                i <= 16,
                forall|j: int| 0 <= j < 16 ==> full[j] == shrd16(a[j], b[j], c[j] as u32),
                forall|j: int| 0 <= j < i ==> out[j] == (if (mask >> j as u16) % 2 == 1 { shrd16(a[j], b[j], c[j] as u32) } else { a[j] }),
            decreases 16 - i,
        {
            out[i] = if (mask >> i as u16) % 2 == 1 { full[i] } else { a[i] };
            i += 1;
        }
        out
    }

    /// [`Avx512Vbmi2Vl::shrdv_u16x16`] where `mask` bit is set, else zero (`vpshrdvw`, zero-masked).
    pub fn shrdv_u16x16_zero_masked(self, mask: u16, a: [u16; 16], b: [u16; 16], c: [u16; 16]) -> (r: [u16; 16])
        ensures
            forall|i: int|
                0 <= i < 16 ==> r[i] == if (mask >> i as u16) % 2 == 1 {
                    shrd16(a[i], b[i], c[i] as u32)
                } else {
                    0
                },
    {
        let full = self.shrdv_u16x16(a, b, c);
        let mut out = [0u16; 16];
        let mut i: usize = 0;
        while i < 16
            invariant
                i <= 16,
                forall|j: int| 0 <= j < 16 ==> full[j] == shrd16(a[j], b[j], c[j] as u32),
                forall|j: int| 0 <= j < i ==> out[j] == (if (mask >> j as u16) % 2 == 1 { shrd16(a[j], b[j], c[j] as u32) } else { 0 }),
            decreases 16 - i,
        {
            out[i] = if (mask >> i as u16) % 2 == 1 { full[i] } else { 0 };
            i += 1;
        }
        out
    }

    /// Funnel shift left `a:b` by `IMM8` (`vpshldd`, 128-bit).
    pub fn shldi_i32x4<const IMM8: u8>(self, a: [i32; 4], b: [i32; 4]) -> (r: [i32; 4])
        ensures
            forall|i: int| 0 <= i < 4 ==> r[i] == shld32(a[i] as u32, b[i] as u32, IMM8 as u32) as i32,
    {
        let mut out = [0i32; 4];
        let mut i: usize = 0;
        while i < 4
            invariant
                i <= 4,
                forall|j: int| 0 <= j < i ==> out[j] == shld32(a[j] as u32, b[j] as u32, IMM8 as u32) as i32,
            decreases 4 - i,
        {
            out[i] = shld32_exec(a[i] as u32, b[i] as u32, IMM8 as u32) as i32;
            i += 1;
        }
        out
    }

    /// `out[i] = shldi(a[i], b[i], IMM8)`. 4-wide chunks, scalar remainder.
    pub fn shldi_i32_slice<const IMM8: u8>(self, a: &[i32], b: &[i32], out: &mut [i32])
        requires
            b@.len() == a@.len(),
            old(out)@.len() == a@.len(),
        ensures
            final(out)@.len() == a@.len(),
            forall|i: int| 0 <= i < a@.len() ==> final(out)@[i] == shld32(a@[i] as u32, b@[i] as u32, IMM8 as u32) as i32,
    {
        let len = a.len();
        let mut i: usize = 0;
        while len - i >= 4
            invariant
                i <= len,
                len == a@.len(),
                len == b@.len(),
                out@.len() == len,
                forall|j: int| 0 <= j < i ==> out@[j] == shld32(a@[j] as u32, b@[j] as u32, IMM8 as u32) as i32,
            decreases len - i,
        {
            let r = self.shldi_i32x4::<IMM8>(loadu_i32x4(a, i), loadu_i32x4(b, i));
            storeu_i32x4(out, i, r);
            i += 4;
        }
        while i < len
            invariant
                i <= len,
                len == a@.len(),
                len == b@.len(),
                out@.len() == len,
                forall|j: int| 0 <= j < i ==> out@[j] == shld32(a@[j] as u32, b@[j] as u32, IMM8 as u32) as i32,
            decreases len - i,
        {
            out[i] = shld32_exec(a[i] as u32, b[i] as u32, IMM8 as u32) as i32;
            i += 1;
        }
    }

    /// [`Avx512Vbmi2Vl::shldi_i32x4`] where `mask` bit is set, else copied from `src` (`vpshldd`, merge-masked).
    pub fn shldi_i32x4_merge_masked<const IMM8: u8>(self, src: [i32; 4], mask: u8, a: [i32; 4], b: [i32; 4]) -> (r: [i32; 4])
        ensures
            forall|i: int|
                0 <= i < 4 ==> r[i] == if (mask >> i as u8) % 2 == 1 {
                    shld32(a[i] as u32, b[i] as u32, IMM8 as u32) as i32
                } else {
                    src[i]
                },
    {
        let full = self.shldi_i32x4::<IMM8>(a, b);
        let mut out = [0i32; 4];
        let mut i: usize = 0;
        while i < 4
            invariant
                i <= 4,
                forall|j: int| 0 <= j < 4 ==> full[j] == shld32(a[j] as u32, b[j] as u32, IMM8 as u32) as i32,
                forall|j: int| 0 <= j < i ==> out[j] == (if (mask >> j as u8) % 2 == 1 { shld32(a[j] as u32, b[j] as u32, IMM8 as u32) as i32 } else { src[j] }),
            decreases 4 - i,
        {
            out[i] = if (mask >> i as u8) % 2 == 1 { full[i] } else { src[i] };
            i += 1;
        }
        out
    }

    /// [`Avx512Vbmi2Vl::shldi_i32x4`] where `mask` bit is set, else zero (`vpshldd`, zero-masked).
    pub fn shldi_i32x4_zero_masked<const IMM8: u8>(self, mask: u8, a: [i32; 4], b: [i32; 4]) -> (r: [i32; 4])
        ensures
            forall|i: int|
                0 <= i < 4 ==> r[i] == if (mask >> i as u8) % 2 == 1 {
                    shld32(a[i] as u32, b[i] as u32, IMM8 as u32) as i32
                } else {
                    0
                },
    {
        let full = self.shldi_i32x4::<IMM8>(a, b);
        let mut out = [0i32; 4];
        let mut i: usize = 0;
        while i < 4
            invariant
                i <= 4,
                forall|j: int| 0 <= j < 4 ==> full[j] == shld32(a[j] as u32, b[j] as u32, IMM8 as u32) as i32,
                forall|j: int| 0 <= j < i ==> out[j] == (if (mask >> j as u8) % 2 == 1 { shld32(a[j] as u32, b[j] as u32, IMM8 as u32) as i32 } else { 0 }),
            decreases 4 - i,
        {
            out[i] = if (mask >> i as u8) % 2 == 1 { full[i] } else { 0 };
            i += 1;
        }
        out
    }

    /// Funnel shift left `a:b` by `c` (`vpshldvd`, 128-bit).
    pub fn shldv_i32x4(self, a: [i32; 4], b: [i32; 4], c: [i32; 4]) -> (r: [i32; 4])
        ensures
            forall|i: int| 0 <= i < 4 ==> r[i] == shld32(a[i] as u32, b[i] as u32, c[i] as u32 as u32) as i32,
    {
        let mut out = [0i32; 4];
        let mut i: usize = 0;
        while i < 4
            invariant
                i <= 4,
                forall|j: int| 0 <= j < i ==> out[j] == shld32(a[j] as u32, b[j] as u32, c[j] as u32 as u32) as i32,
            decreases 4 - i,
        {
            out[i] = shld32_exec(a[i] as u32, b[i] as u32, c[i] as u32 as u32) as i32;
            i += 1;
        }
        out
    }

    /// `out[i] = shldv(a[i], b[i], c[i])`. 4-wide chunks, scalar remainder.
    pub fn shldv_i32_slice(self, a: &[i32], b: &[i32], c: &[i32], out: &mut [i32])
        requires
            b@.len() == a@.len(),
            c@.len() == a@.len(),
            old(out)@.len() == a@.len(),
        ensures
            final(out)@.len() == a@.len(),
            forall|i: int| 0 <= i < a@.len() ==> final(out)@[i] == shld32(a@[i] as u32, b@[i] as u32, c@[i] as u32 as u32) as i32,
    {
        let len = a.len();
        let mut i: usize = 0;
        while len - i >= 4
            invariant
                i <= len,
                len == a@.len(),
                len == b@.len(),
                len == c@.len(),
                out@.len() == len,
                forall|j: int| 0 <= j < i ==> out@[j] == shld32(a@[j] as u32, b@[j] as u32, c@[j] as u32 as u32) as i32,
            decreases len - i,
        {
            let r = self.shldv_i32x4(loadu_i32x4(a, i), loadu_i32x4(b, i), loadu_i32x4(c, i));
            storeu_i32x4(out, i, r);
            i += 4;
        }
        while i < len
            invariant
                i <= len,
                len == a@.len(),
                len == b@.len(),
                len == c@.len(),
                out@.len() == len,
                forall|j: int| 0 <= j < i ==> out@[j] == shld32(a@[j] as u32, b@[j] as u32, c@[j] as u32 as u32) as i32,
            decreases len - i,
        {
            out[i] = shld32_exec(a[i] as u32, b[i] as u32, c[i] as u32 as u32) as i32;
            i += 1;
        }
    }

    /// [`Avx512Vbmi2Vl::shldv_i32x4`] where `mask` bit is set, else copied from `a` (`vpshldvd`, merge-masked).
    pub fn shldv_i32x4_merge_masked(self, a: [i32; 4], mask: u8, b: [i32; 4], c: [i32; 4]) -> (r: [i32; 4])
        ensures
            forall|i: int|
                0 <= i < 4 ==> r[i] == if (mask >> i as u8) % 2 == 1 {
                    shld32(a[i] as u32, b[i] as u32, c[i] as u32 as u32) as i32
                } else {
                    a[i]
                },
    {
        let full = self.shldv_i32x4(a, b, c);
        let mut out = [0i32; 4];
        let mut i: usize = 0;
        while i < 4
            invariant
                i <= 4,
                forall|j: int| 0 <= j < 4 ==> full[j] == shld32(a[j] as u32, b[j] as u32, c[j] as u32 as u32) as i32,
                forall|j: int| 0 <= j < i ==> out[j] == (if (mask >> j as u8) % 2 == 1 { shld32(a[j] as u32, b[j] as u32, c[j] as u32 as u32) as i32 } else { a[j] }),
            decreases 4 - i,
        {
            out[i] = if (mask >> i as u8) % 2 == 1 { full[i] } else { a[i] };
            i += 1;
        }
        out
    }

    /// [`Avx512Vbmi2Vl::shldv_i32x4`] where `mask` bit is set, else zero (`vpshldvd`, zero-masked).
    pub fn shldv_i32x4_zero_masked(self, mask: u8, a: [i32; 4], b: [i32; 4], c: [i32; 4]) -> (r: [i32; 4])
        ensures
            forall|i: int|
                0 <= i < 4 ==> r[i] == if (mask >> i as u8) % 2 == 1 {
                    shld32(a[i] as u32, b[i] as u32, c[i] as u32 as u32) as i32
                } else {
                    0
                },
    {
        let full = self.shldv_i32x4(a, b, c);
        let mut out = [0i32; 4];
        let mut i: usize = 0;
        while i < 4
            invariant
                i <= 4,
                forall|j: int| 0 <= j < 4 ==> full[j] == shld32(a[j] as u32, b[j] as u32, c[j] as u32 as u32) as i32,
                forall|j: int| 0 <= j < i ==> out[j] == (if (mask >> j as u8) % 2 == 1 { shld32(a[j] as u32, b[j] as u32, c[j] as u32 as u32) as i32 } else { 0 }),
            decreases 4 - i,
        {
            out[i] = if (mask >> i as u8) % 2 == 1 { full[i] } else { 0 };
            i += 1;
        }
        out
    }

    /// Funnel shift right `b:a` by `IMM8` (`vpshrdd`, 128-bit).
    pub fn shrdi_i32x4<const IMM8: u8>(self, a: [i32; 4], b: [i32; 4]) -> (r: [i32; 4])
        ensures
            forall|i: int| 0 <= i < 4 ==> r[i] == shrd32(a[i] as u32, b[i] as u32, IMM8 as u32) as i32,
    {
        let mut out = [0i32; 4];
        let mut i: usize = 0;
        while i < 4
            invariant
                i <= 4,
                forall|j: int| 0 <= j < i ==> out[j] == shrd32(a[j] as u32, b[j] as u32, IMM8 as u32) as i32,
            decreases 4 - i,
        {
            out[i] = shrd32_exec(a[i] as u32, b[i] as u32, IMM8 as u32) as i32;
            i += 1;
        }
        out
    }

    /// `out[i] = shrdi(a[i], b[i], IMM8)`. 4-wide chunks, scalar remainder.
    pub fn shrdi_i32_slice<const IMM8: u8>(self, a: &[i32], b: &[i32], out: &mut [i32])
        requires
            b@.len() == a@.len(),
            old(out)@.len() == a@.len(),
        ensures
            final(out)@.len() == a@.len(),
            forall|i: int| 0 <= i < a@.len() ==> final(out)@[i] == shrd32(a@[i] as u32, b@[i] as u32, IMM8 as u32) as i32,
    {
        let len = a.len();
        let mut i: usize = 0;
        while len - i >= 4
            invariant
                i <= len,
                len == a@.len(),
                len == b@.len(),
                out@.len() == len,
                forall|j: int| 0 <= j < i ==> out@[j] == shrd32(a@[j] as u32, b@[j] as u32, IMM8 as u32) as i32,
            decreases len - i,
        {
            let r = self.shrdi_i32x4::<IMM8>(loadu_i32x4(a, i), loadu_i32x4(b, i));
            storeu_i32x4(out, i, r);
            i += 4;
        }
        while i < len
            invariant
                i <= len,
                len == a@.len(),
                len == b@.len(),
                out@.len() == len,
                forall|j: int| 0 <= j < i ==> out@[j] == shrd32(a@[j] as u32, b@[j] as u32, IMM8 as u32) as i32,
            decreases len - i,
        {
            out[i] = shrd32_exec(a[i] as u32, b[i] as u32, IMM8 as u32) as i32;
            i += 1;
        }
    }

    /// [`Avx512Vbmi2Vl::shrdi_i32x4`] where `mask` bit is set, else copied from `src` (`vpshrdd`, merge-masked).
    pub fn shrdi_i32x4_merge_masked<const IMM8: u8>(self, src: [i32; 4], mask: u8, a: [i32; 4], b: [i32; 4]) -> (r: [i32; 4])
        ensures
            forall|i: int|
                0 <= i < 4 ==> r[i] == if (mask >> i as u8) % 2 == 1 {
                    shrd32(a[i] as u32, b[i] as u32, IMM8 as u32) as i32
                } else {
                    src[i]
                },
    {
        let full = self.shrdi_i32x4::<IMM8>(a, b);
        let mut out = [0i32; 4];
        let mut i: usize = 0;
        while i < 4
            invariant
                i <= 4,
                forall|j: int| 0 <= j < 4 ==> full[j] == shrd32(a[j] as u32, b[j] as u32, IMM8 as u32) as i32,
                forall|j: int| 0 <= j < i ==> out[j] == (if (mask >> j as u8) % 2 == 1 { shrd32(a[j] as u32, b[j] as u32, IMM8 as u32) as i32 } else { src[j] }),
            decreases 4 - i,
        {
            out[i] = if (mask >> i as u8) % 2 == 1 { full[i] } else { src[i] };
            i += 1;
        }
        out
    }

    /// [`Avx512Vbmi2Vl::shrdi_i32x4`] where `mask` bit is set, else zero (`vpshrdd`, zero-masked).
    pub fn shrdi_i32x4_zero_masked<const IMM8: u8>(self, mask: u8, a: [i32; 4], b: [i32; 4]) -> (r: [i32; 4])
        ensures
            forall|i: int|
                0 <= i < 4 ==> r[i] == if (mask >> i as u8) % 2 == 1 {
                    shrd32(a[i] as u32, b[i] as u32, IMM8 as u32) as i32
                } else {
                    0
                },
    {
        let full = self.shrdi_i32x4::<IMM8>(a, b);
        let mut out = [0i32; 4];
        let mut i: usize = 0;
        while i < 4
            invariant
                i <= 4,
                forall|j: int| 0 <= j < 4 ==> full[j] == shrd32(a[j] as u32, b[j] as u32, IMM8 as u32) as i32,
                forall|j: int| 0 <= j < i ==> out[j] == (if (mask >> j as u8) % 2 == 1 { shrd32(a[j] as u32, b[j] as u32, IMM8 as u32) as i32 } else { 0 }),
            decreases 4 - i,
        {
            out[i] = if (mask >> i as u8) % 2 == 1 { full[i] } else { 0 };
            i += 1;
        }
        out
    }

    /// Funnel shift right `b:a` by `c` (`vpshrdvd`, 128-bit).
    pub fn shrdv_i32x4(self, a: [i32; 4], b: [i32; 4], c: [i32; 4]) -> (r: [i32; 4])
        ensures
            forall|i: int| 0 <= i < 4 ==> r[i] == shrd32(a[i] as u32, b[i] as u32, c[i] as u32 as u32) as i32,
    {
        let mut out = [0i32; 4];
        let mut i: usize = 0;
        while i < 4
            invariant
                i <= 4,
                forall|j: int| 0 <= j < i ==> out[j] == shrd32(a[j] as u32, b[j] as u32, c[j] as u32 as u32) as i32,
            decreases 4 - i,
        {
            out[i] = shrd32_exec(a[i] as u32, b[i] as u32, c[i] as u32 as u32) as i32;
            i += 1;
        }
        out
    }

    /// `out[i] = shrdv(a[i], b[i], c[i])`. 4-wide chunks, scalar remainder.
    pub fn shrdv_i32_slice(self, a: &[i32], b: &[i32], c: &[i32], out: &mut [i32])
        requires
            b@.len() == a@.len(),
            c@.len() == a@.len(),
            old(out)@.len() == a@.len(),
        ensures
            final(out)@.len() == a@.len(),
            forall|i: int| 0 <= i < a@.len() ==> final(out)@[i] == shrd32(a@[i] as u32, b@[i] as u32, c@[i] as u32 as u32) as i32,
    {
        let len = a.len();
        let mut i: usize = 0;
        while len - i >= 4
            invariant
                i <= len,
                len == a@.len(),
                len == b@.len(),
                len == c@.len(),
                out@.len() == len,
                forall|j: int| 0 <= j < i ==> out@[j] == shrd32(a@[j] as u32, b@[j] as u32, c@[j] as u32 as u32) as i32,
            decreases len - i,
        {
            let r = self.shrdv_i32x4(loadu_i32x4(a, i), loadu_i32x4(b, i), loadu_i32x4(c, i));
            storeu_i32x4(out, i, r);
            i += 4;
        }
        while i < len
            invariant
                i <= len,
                len == a@.len(),
                len == b@.len(),
                len == c@.len(),
                out@.len() == len,
                forall|j: int| 0 <= j < i ==> out@[j] == shrd32(a@[j] as u32, b@[j] as u32, c@[j] as u32 as u32) as i32,
            decreases len - i,
        {
            out[i] = shrd32_exec(a[i] as u32, b[i] as u32, c[i] as u32 as u32) as i32;
            i += 1;
        }
    }

    /// [`Avx512Vbmi2Vl::shrdv_i32x4`] where `mask` bit is set, else copied from `a` (`vpshrdvd`, merge-masked).
    pub fn shrdv_i32x4_merge_masked(self, a: [i32; 4], mask: u8, b: [i32; 4], c: [i32; 4]) -> (r: [i32; 4])
        ensures
            forall|i: int|
                0 <= i < 4 ==> r[i] == if (mask >> i as u8) % 2 == 1 {
                    shrd32(a[i] as u32, b[i] as u32, c[i] as u32 as u32) as i32
                } else {
                    a[i]
                },
    {
        let full = self.shrdv_i32x4(a, b, c);
        let mut out = [0i32; 4];
        let mut i: usize = 0;
        while i < 4
            invariant
                i <= 4,
                forall|j: int| 0 <= j < 4 ==> full[j] == shrd32(a[j] as u32, b[j] as u32, c[j] as u32 as u32) as i32,
                forall|j: int| 0 <= j < i ==> out[j] == (if (mask >> j as u8) % 2 == 1 { shrd32(a[j] as u32, b[j] as u32, c[j] as u32 as u32) as i32 } else { a[j] }),
            decreases 4 - i,
        {
            out[i] = if (mask >> i as u8) % 2 == 1 { full[i] } else { a[i] };
            i += 1;
        }
        out
    }

    /// [`Avx512Vbmi2Vl::shrdv_i32x4`] where `mask` bit is set, else zero (`vpshrdvd`, zero-masked).
    pub fn shrdv_i32x4_zero_masked(self, mask: u8, a: [i32; 4], b: [i32; 4], c: [i32; 4]) -> (r: [i32; 4])
        ensures
            forall|i: int|
                0 <= i < 4 ==> r[i] == if (mask >> i as u8) % 2 == 1 {
                    shrd32(a[i] as u32, b[i] as u32, c[i] as u32 as u32) as i32
                } else {
                    0
                },
    {
        let full = self.shrdv_i32x4(a, b, c);
        let mut out = [0i32; 4];
        let mut i: usize = 0;
        while i < 4
            invariant
                i <= 4,
                forall|j: int| 0 <= j < 4 ==> full[j] == shrd32(a[j] as u32, b[j] as u32, c[j] as u32 as u32) as i32,
                forall|j: int| 0 <= j < i ==> out[j] == (if (mask >> j as u8) % 2 == 1 { shrd32(a[j] as u32, b[j] as u32, c[j] as u32 as u32) as i32 } else { 0 }),
            decreases 4 - i,
        {
            out[i] = if (mask >> i as u8) % 2 == 1 { full[i] } else { 0 };
            i += 1;
        }
        out
    }

    /// Funnel shift left `a:b` by `IMM8` (`vpshldd`, 256-bit).
    pub fn shldi_i32x8<const IMM8: u8>(self, a: [i32; 8], b: [i32; 8]) -> (r: [i32; 8])
        ensures
            forall|i: int| 0 <= i < 8 ==> r[i] == shld32(a[i] as u32, b[i] as u32, IMM8 as u32) as i32,
    {
        let mut out = [0i32; 8];
        let mut i: usize = 0;
        while i < 8
            invariant
                i <= 8,
                forall|j: int| 0 <= j < i ==> out[j] == shld32(a[j] as u32, b[j] as u32, IMM8 as u32) as i32,
            decreases 8 - i,
        {
            out[i] = shld32_exec(a[i] as u32, b[i] as u32, IMM8 as u32) as i32;
            i += 1;
        }
        out
    }

    /// `out[i] = shldi(a[i], b[i], IMM8)`. 8-wide chunks, scalar remainder.
    pub fn shldi_i32_slice_wide<const IMM8: u8>(self, a: &[i32], b: &[i32], out: &mut [i32])
        requires
            b@.len() == a@.len(),
            old(out)@.len() == a@.len(),
        ensures
            final(out)@.len() == a@.len(),
            forall|i: int| 0 <= i < a@.len() ==> final(out)@[i] == shld32(a@[i] as u32, b@[i] as u32, IMM8 as u32) as i32,
    {
        let len = a.len();
        let mut i: usize = 0;
        while len - i >= 8
            invariant
                i <= len,
                len == a@.len(),
                len == b@.len(),
                out@.len() == len,
                forall|j: int| 0 <= j < i ==> out@[j] == shld32(a@[j] as u32, b@[j] as u32, IMM8 as u32) as i32,
            decreases len - i,
        {
            let r = self.shldi_i32x8::<IMM8>(loadu_i32x8(a, i), loadu_i32x8(b, i));
            storeu_i32x8(out, i, r);
            i += 8;
        }
        while i < len
            invariant
                i <= len,
                len == a@.len(),
                len == b@.len(),
                out@.len() == len,
                forall|j: int| 0 <= j < i ==> out@[j] == shld32(a@[j] as u32, b@[j] as u32, IMM8 as u32) as i32,
            decreases len - i,
        {
            out[i] = shld32_exec(a[i] as u32, b[i] as u32, IMM8 as u32) as i32;
            i += 1;
        }
    }

    /// [`Avx512Vbmi2Vl::shldi_i32x8`] where `mask` bit is set, else copied from `src` (`vpshldd`, merge-masked).
    pub fn shldi_i32x8_merge_masked<const IMM8: u8>(self, src: [i32; 8], mask: u8, a: [i32; 8], b: [i32; 8]) -> (r: [i32; 8])
        ensures
            forall|i: int|
                0 <= i < 8 ==> r[i] == if (mask >> i as u8) % 2 == 1 {
                    shld32(a[i] as u32, b[i] as u32, IMM8 as u32) as i32
                } else {
                    src[i]
                },
    {
        let full = self.shldi_i32x8::<IMM8>(a, b);
        let mut out = [0i32; 8];
        let mut i: usize = 0;
        while i < 8
            invariant
                i <= 8,
                forall|j: int| 0 <= j < 8 ==> full[j] == shld32(a[j] as u32, b[j] as u32, IMM8 as u32) as i32,
                forall|j: int| 0 <= j < i ==> out[j] == (if (mask >> j as u8) % 2 == 1 { shld32(a[j] as u32, b[j] as u32, IMM8 as u32) as i32 } else { src[j] }),
            decreases 8 - i,
        {
            out[i] = if (mask >> i as u8) % 2 == 1 { full[i] } else { src[i] };
            i += 1;
        }
        out
    }

    /// [`Avx512Vbmi2Vl::shldi_i32x8`] where `mask` bit is set, else zero (`vpshldd`, zero-masked).
    pub fn shldi_i32x8_zero_masked<const IMM8: u8>(self, mask: u8, a: [i32; 8], b: [i32; 8]) -> (r: [i32; 8])
        ensures
            forall|i: int|
                0 <= i < 8 ==> r[i] == if (mask >> i as u8) % 2 == 1 {
                    shld32(a[i] as u32, b[i] as u32, IMM8 as u32) as i32
                } else {
                    0
                },
    {
        let full = self.shldi_i32x8::<IMM8>(a, b);
        let mut out = [0i32; 8];
        let mut i: usize = 0;
        while i < 8
            invariant
                i <= 8,
                forall|j: int| 0 <= j < 8 ==> full[j] == shld32(a[j] as u32, b[j] as u32, IMM8 as u32) as i32,
                forall|j: int| 0 <= j < i ==> out[j] == (if (mask >> j as u8) % 2 == 1 { shld32(a[j] as u32, b[j] as u32, IMM8 as u32) as i32 } else { 0 }),
            decreases 8 - i,
        {
            out[i] = if (mask >> i as u8) % 2 == 1 { full[i] } else { 0 };
            i += 1;
        }
        out
    }

    /// Funnel shift left `a:b` by `c` (`vpshldvd`, 256-bit).
    pub fn shldv_i32x8(self, a: [i32; 8], b: [i32; 8], c: [i32; 8]) -> (r: [i32; 8])
        ensures
            forall|i: int| 0 <= i < 8 ==> r[i] == shld32(a[i] as u32, b[i] as u32, c[i] as u32 as u32) as i32,
    {
        let mut out = [0i32; 8];
        let mut i: usize = 0;
        while i < 8
            invariant
                i <= 8,
                forall|j: int| 0 <= j < i ==> out[j] == shld32(a[j] as u32, b[j] as u32, c[j] as u32 as u32) as i32,
            decreases 8 - i,
        {
            out[i] = shld32_exec(a[i] as u32, b[i] as u32, c[i] as u32 as u32) as i32;
            i += 1;
        }
        out
    }

    /// `out[i] = shldv(a[i], b[i], c[i])`. 8-wide chunks, scalar remainder.
    pub fn shldv_i32_slice_wide(self, a: &[i32], b: &[i32], c: &[i32], out: &mut [i32])
        requires
            b@.len() == a@.len(),
            c@.len() == a@.len(),
            old(out)@.len() == a@.len(),
        ensures
            final(out)@.len() == a@.len(),
            forall|i: int| 0 <= i < a@.len() ==> final(out)@[i] == shld32(a@[i] as u32, b@[i] as u32, c@[i] as u32 as u32) as i32,
    {
        let len = a.len();
        let mut i: usize = 0;
        while len - i >= 8
            invariant
                i <= len,
                len == a@.len(),
                len == b@.len(),
                len == c@.len(),
                out@.len() == len,
                forall|j: int| 0 <= j < i ==> out@[j] == shld32(a@[j] as u32, b@[j] as u32, c@[j] as u32 as u32) as i32,
            decreases len - i,
        {
            let r = self.shldv_i32x8(loadu_i32x8(a, i), loadu_i32x8(b, i), loadu_i32x8(c, i));
            storeu_i32x8(out, i, r);
            i += 8;
        }
        while i < len
            invariant
                i <= len,
                len == a@.len(),
                len == b@.len(),
                len == c@.len(),
                out@.len() == len,
                forall|j: int| 0 <= j < i ==> out@[j] == shld32(a@[j] as u32, b@[j] as u32, c@[j] as u32 as u32) as i32,
            decreases len - i,
        {
            out[i] = shld32_exec(a[i] as u32, b[i] as u32, c[i] as u32 as u32) as i32;
            i += 1;
        }
    }

    /// [`Avx512Vbmi2Vl::shldv_i32x8`] where `mask` bit is set, else copied from `a` (`vpshldvd`, merge-masked).
    pub fn shldv_i32x8_merge_masked(self, a: [i32; 8], mask: u8, b: [i32; 8], c: [i32; 8]) -> (r: [i32; 8])
        ensures
            forall|i: int|
                0 <= i < 8 ==> r[i] == if (mask >> i as u8) % 2 == 1 {
                    shld32(a[i] as u32, b[i] as u32, c[i] as u32 as u32) as i32
                } else {
                    a[i]
                },
    {
        let full = self.shldv_i32x8(a, b, c);
        let mut out = [0i32; 8];
        let mut i: usize = 0;
        while i < 8
            invariant
                i <= 8,
                forall|j: int| 0 <= j < 8 ==> full[j] == shld32(a[j] as u32, b[j] as u32, c[j] as u32 as u32) as i32,
                forall|j: int| 0 <= j < i ==> out[j] == (if (mask >> j as u8) % 2 == 1 { shld32(a[j] as u32, b[j] as u32, c[j] as u32 as u32) as i32 } else { a[j] }),
            decreases 8 - i,
        {
            out[i] = if (mask >> i as u8) % 2 == 1 { full[i] } else { a[i] };
            i += 1;
        }
        out
    }

    /// [`Avx512Vbmi2Vl::shldv_i32x8`] where `mask` bit is set, else zero (`vpshldvd`, zero-masked).
    pub fn shldv_i32x8_zero_masked(self, mask: u8, a: [i32; 8], b: [i32; 8], c: [i32; 8]) -> (r: [i32; 8])
        ensures
            forall|i: int|
                0 <= i < 8 ==> r[i] == if (mask >> i as u8) % 2 == 1 {
                    shld32(a[i] as u32, b[i] as u32, c[i] as u32 as u32) as i32
                } else {
                    0
                },
    {
        let full = self.shldv_i32x8(a, b, c);
        let mut out = [0i32; 8];
        let mut i: usize = 0;
        while i < 8
            invariant
                i <= 8,
                forall|j: int| 0 <= j < 8 ==> full[j] == shld32(a[j] as u32, b[j] as u32, c[j] as u32 as u32) as i32,
                forall|j: int| 0 <= j < i ==> out[j] == (if (mask >> j as u8) % 2 == 1 { shld32(a[j] as u32, b[j] as u32, c[j] as u32 as u32) as i32 } else { 0 }),
            decreases 8 - i,
        {
            out[i] = if (mask >> i as u8) % 2 == 1 { full[i] } else { 0 };
            i += 1;
        }
        out
    }

    /// Funnel shift right `b:a` by `IMM8` (`vpshrdd`, 256-bit).
    pub fn shrdi_i32x8<const IMM8: u8>(self, a: [i32; 8], b: [i32; 8]) -> (r: [i32; 8])
        ensures
            forall|i: int| 0 <= i < 8 ==> r[i] == shrd32(a[i] as u32, b[i] as u32, IMM8 as u32) as i32,
    {
        let mut out = [0i32; 8];
        let mut i: usize = 0;
        while i < 8
            invariant
                i <= 8,
                forall|j: int| 0 <= j < i ==> out[j] == shrd32(a[j] as u32, b[j] as u32, IMM8 as u32) as i32,
            decreases 8 - i,
        {
            out[i] = shrd32_exec(a[i] as u32, b[i] as u32, IMM8 as u32) as i32;
            i += 1;
        }
        out
    }

    /// `out[i] = shrdi(a[i], b[i], IMM8)`. 8-wide chunks, scalar remainder.
    pub fn shrdi_i32_slice_wide<const IMM8: u8>(self, a: &[i32], b: &[i32], out: &mut [i32])
        requires
            b@.len() == a@.len(),
            old(out)@.len() == a@.len(),
        ensures
            final(out)@.len() == a@.len(),
            forall|i: int| 0 <= i < a@.len() ==> final(out)@[i] == shrd32(a@[i] as u32, b@[i] as u32, IMM8 as u32) as i32,
    {
        let len = a.len();
        let mut i: usize = 0;
        while len - i >= 8
            invariant
                i <= len,
                len == a@.len(),
                len == b@.len(),
                out@.len() == len,
                forall|j: int| 0 <= j < i ==> out@[j] == shrd32(a@[j] as u32, b@[j] as u32, IMM8 as u32) as i32,
            decreases len - i,
        {
            let r = self.shrdi_i32x8::<IMM8>(loadu_i32x8(a, i), loadu_i32x8(b, i));
            storeu_i32x8(out, i, r);
            i += 8;
        }
        while i < len
            invariant
                i <= len,
                len == a@.len(),
                len == b@.len(),
                out@.len() == len,
                forall|j: int| 0 <= j < i ==> out@[j] == shrd32(a@[j] as u32, b@[j] as u32, IMM8 as u32) as i32,
            decreases len - i,
        {
            out[i] = shrd32_exec(a[i] as u32, b[i] as u32, IMM8 as u32) as i32;
            i += 1;
        }
    }

    /// [`Avx512Vbmi2Vl::shrdi_i32x8`] where `mask` bit is set, else copied from `src` (`vpshrdd`, merge-masked).
    pub fn shrdi_i32x8_merge_masked<const IMM8: u8>(self, src: [i32; 8], mask: u8, a: [i32; 8], b: [i32; 8]) -> (r: [i32; 8])
        ensures
            forall|i: int|
                0 <= i < 8 ==> r[i] == if (mask >> i as u8) % 2 == 1 {
                    shrd32(a[i] as u32, b[i] as u32, IMM8 as u32) as i32
                } else {
                    src[i]
                },
    {
        let full = self.shrdi_i32x8::<IMM8>(a, b);
        let mut out = [0i32; 8];
        let mut i: usize = 0;
        while i < 8
            invariant
                i <= 8,
                forall|j: int| 0 <= j < 8 ==> full[j] == shrd32(a[j] as u32, b[j] as u32, IMM8 as u32) as i32,
                forall|j: int| 0 <= j < i ==> out[j] == (if (mask >> j as u8) % 2 == 1 { shrd32(a[j] as u32, b[j] as u32, IMM8 as u32) as i32 } else { src[j] }),
            decreases 8 - i,
        {
            out[i] = if (mask >> i as u8) % 2 == 1 { full[i] } else { src[i] };
            i += 1;
        }
        out
    }

    /// [`Avx512Vbmi2Vl::shrdi_i32x8`] where `mask` bit is set, else zero (`vpshrdd`, zero-masked).
    pub fn shrdi_i32x8_zero_masked<const IMM8: u8>(self, mask: u8, a: [i32; 8], b: [i32; 8]) -> (r: [i32; 8])
        ensures
            forall|i: int|
                0 <= i < 8 ==> r[i] == if (mask >> i as u8) % 2 == 1 {
                    shrd32(a[i] as u32, b[i] as u32, IMM8 as u32) as i32
                } else {
                    0
                },
    {
        let full = self.shrdi_i32x8::<IMM8>(a, b);
        let mut out = [0i32; 8];
        let mut i: usize = 0;
        while i < 8
            invariant
                i <= 8,
                forall|j: int| 0 <= j < 8 ==> full[j] == shrd32(a[j] as u32, b[j] as u32, IMM8 as u32) as i32,
                forall|j: int| 0 <= j < i ==> out[j] == (if (mask >> j as u8) % 2 == 1 { shrd32(a[j] as u32, b[j] as u32, IMM8 as u32) as i32 } else { 0 }),
            decreases 8 - i,
        {
            out[i] = if (mask >> i as u8) % 2 == 1 { full[i] } else { 0 };
            i += 1;
        }
        out
    }

    /// Funnel shift right `b:a` by `c` (`vpshrdvd`, 256-bit).
    pub fn shrdv_i32x8(self, a: [i32; 8], b: [i32; 8], c: [i32; 8]) -> (r: [i32; 8])
        ensures
            forall|i: int| 0 <= i < 8 ==> r[i] == shrd32(a[i] as u32, b[i] as u32, c[i] as u32 as u32) as i32,
    {
        let mut out = [0i32; 8];
        let mut i: usize = 0;
        while i < 8
            invariant
                i <= 8,
                forall|j: int| 0 <= j < i ==> out[j] == shrd32(a[j] as u32, b[j] as u32, c[j] as u32 as u32) as i32,
            decreases 8 - i,
        {
            out[i] = shrd32_exec(a[i] as u32, b[i] as u32, c[i] as u32 as u32) as i32;
            i += 1;
        }
        out
    }

    /// `out[i] = shrdv(a[i], b[i], c[i])`. 8-wide chunks, scalar remainder.
    pub fn shrdv_i32_slice_wide(self, a: &[i32], b: &[i32], c: &[i32], out: &mut [i32])
        requires
            b@.len() == a@.len(),
            c@.len() == a@.len(),
            old(out)@.len() == a@.len(),
        ensures
            final(out)@.len() == a@.len(),
            forall|i: int| 0 <= i < a@.len() ==> final(out)@[i] == shrd32(a@[i] as u32, b@[i] as u32, c@[i] as u32 as u32) as i32,
    {
        let len = a.len();
        let mut i: usize = 0;
        while len - i >= 8
            invariant
                i <= len,
                len == a@.len(),
                len == b@.len(),
                len == c@.len(),
                out@.len() == len,
                forall|j: int| 0 <= j < i ==> out@[j] == shrd32(a@[j] as u32, b@[j] as u32, c@[j] as u32 as u32) as i32,
            decreases len - i,
        {
            let r = self.shrdv_i32x8(loadu_i32x8(a, i), loadu_i32x8(b, i), loadu_i32x8(c, i));
            storeu_i32x8(out, i, r);
            i += 8;
        }
        while i < len
            invariant
                i <= len,
                len == a@.len(),
                len == b@.len(),
                len == c@.len(),
                out@.len() == len,
                forall|j: int| 0 <= j < i ==> out@[j] == shrd32(a@[j] as u32, b@[j] as u32, c@[j] as u32 as u32) as i32,
            decreases len - i,
        {
            out[i] = shrd32_exec(a[i] as u32, b[i] as u32, c[i] as u32 as u32) as i32;
            i += 1;
        }
    }

    /// [`Avx512Vbmi2Vl::shrdv_i32x8`] where `mask` bit is set, else copied from `a` (`vpshrdvd`, merge-masked).
    pub fn shrdv_i32x8_merge_masked(self, a: [i32; 8], mask: u8, b: [i32; 8], c: [i32; 8]) -> (r: [i32; 8])
        ensures
            forall|i: int|
                0 <= i < 8 ==> r[i] == if (mask >> i as u8) % 2 == 1 {
                    shrd32(a[i] as u32, b[i] as u32, c[i] as u32 as u32) as i32
                } else {
                    a[i]
                },
    {
        let full = self.shrdv_i32x8(a, b, c);
        let mut out = [0i32; 8];
        let mut i: usize = 0;
        while i < 8
            invariant
                i <= 8,
                forall|j: int| 0 <= j < 8 ==> full[j] == shrd32(a[j] as u32, b[j] as u32, c[j] as u32 as u32) as i32,
                forall|j: int| 0 <= j < i ==> out[j] == (if (mask >> j as u8) % 2 == 1 { shrd32(a[j] as u32, b[j] as u32, c[j] as u32 as u32) as i32 } else { a[j] }),
            decreases 8 - i,
        {
            out[i] = if (mask >> i as u8) % 2 == 1 { full[i] } else { a[i] };
            i += 1;
        }
        out
    }

    /// [`Avx512Vbmi2Vl::shrdv_i32x8`] where `mask` bit is set, else zero (`vpshrdvd`, zero-masked).
    pub fn shrdv_i32x8_zero_masked(self, mask: u8, a: [i32; 8], b: [i32; 8], c: [i32; 8]) -> (r: [i32; 8])
        ensures
            forall|i: int|
                0 <= i < 8 ==> r[i] == if (mask >> i as u8) % 2 == 1 {
                    shrd32(a[i] as u32, b[i] as u32, c[i] as u32 as u32) as i32
                } else {
                    0
                },
    {
        let full = self.shrdv_i32x8(a, b, c);
        let mut out = [0i32; 8];
        let mut i: usize = 0;
        while i < 8
            invariant
                i <= 8,
                forall|j: int| 0 <= j < 8 ==> full[j] == shrd32(a[j] as u32, b[j] as u32, c[j] as u32 as u32) as i32,
                forall|j: int| 0 <= j < i ==> out[j] == (if (mask >> j as u8) % 2 == 1 { shrd32(a[j] as u32, b[j] as u32, c[j] as u32 as u32) as i32 } else { 0 }),
            decreases 8 - i,
        {
            out[i] = if (mask >> i as u8) % 2 == 1 { full[i] } else { 0 };
            i += 1;
        }
        out
    }

    /// Funnel shift left `a:b` by `IMM8` (`vpshldd`, 128-bit).
    pub fn shldi_u32x4<const IMM8: u8>(self, a: [u32; 4], b: [u32; 4]) -> (r: [u32; 4])
        ensures
            forall|i: int| 0 <= i < 4 ==> r[i] == shld32(a[i], b[i], IMM8 as u32),
    {
        let mut out = [0u32; 4];
        let mut i: usize = 0;
        while i < 4
            invariant
                i <= 4,
                forall|j: int| 0 <= j < i ==> out[j] == shld32(a[j], b[j], IMM8 as u32),
            decreases 4 - i,
        {
            out[i] = shld32_exec(a[i], b[i], IMM8 as u32);
            i += 1;
        }
        out
    }

    /// `out[i] = shldi(a[i], b[i], IMM8)`. 4-wide chunks, scalar remainder.
    pub fn shldi_u32_slice<const IMM8: u8>(self, a: &[u32], b: &[u32], out: &mut [u32])
        requires
            b@.len() == a@.len(),
            old(out)@.len() == a@.len(),
        ensures
            final(out)@.len() == a@.len(),
            forall|i: int| 0 <= i < a@.len() ==> final(out)@[i] == shld32(a@[i], b@[i], IMM8 as u32),
    {
        let len = a.len();
        let mut i: usize = 0;
        while len - i >= 4
            invariant
                i <= len,
                len == a@.len(),
                len == b@.len(),
                out@.len() == len,
                forall|j: int| 0 <= j < i ==> out@[j] == shld32(a@[j], b@[j], IMM8 as u32),
            decreases len - i,
        {
            let r = self.shldi_u32x4::<IMM8>(loadu_u32x4(a, i), loadu_u32x4(b, i));
            storeu_u32x4(out, i, r);
            i += 4;
        }
        while i < len
            invariant
                i <= len,
                len == a@.len(),
                len == b@.len(),
                out@.len() == len,
                forall|j: int| 0 <= j < i ==> out@[j] == shld32(a@[j], b@[j], IMM8 as u32),
            decreases len - i,
        {
            out[i] = shld32_exec(a[i], b[i], IMM8 as u32);
            i += 1;
        }
    }

    /// [`Avx512Vbmi2Vl::shldi_u32x4`] where `mask` bit is set, else copied from `src` (`vpshldd`, merge-masked).
    pub fn shldi_u32x4_merge_masked<const IMM8: u8>(self, src: [u32; 4], mask: u8, a: [u32; 4], b: [u32; 4]) -> (r: [u32; 4])
        ensures
            forall|i: int|
                0 <= i < 4 ==> r[i] == if (mask >> i as u8) % 2 == 1 {
                    shld32(a[i], b[i], IMM8 as u32)
                } else {
                    src[i]
                },
    {
        let full = self.shldi_u32x4::<IMM8>(a, b);
        let mut out = [0u32; 4];
        let mut i: usize = 0;
        while i < 4
            invariant
                i <= 4,
                forall|j: int| 0 <= j < 4 ==> full[j] == shld32(a[j], b[j], IMM8 as u32),
                forall|j: int| 0 <= j < i ==> out[j] == (if (mask >> j as u8) % 2 == 1 { shld32(a[j], b[j], IMM8 as u32) } else { src[j] }),
            decreases 4 - i,
        {
            out[i] = if (mask >> i as u8) % 2 == 1 { full[i] } else { src[i] };
            i += 1;
        }
        out
    }

    /// [`Avx512Vbmi2Vl::shldi_u32x4`] where `mask` bit is set, else zero (`vpshldd`, zero-masked).
    pub fn shldi_u32x4_zero_masked<const IMM8: u8>(self, mask: u8, a: [u32; 4], b: [u32; 4]) -> (r: [u32; 4])
        ensures
            forall|i: int|
                0 <= i < 4 ==> r[i] == if (mask >> i as u8) % 2 == 1 {
                    shld32(a[i], b[i], IMM8 as u32)
                } else {
                    0
                },
    {
        let full = self.shldi_u32x4::<IMM8>(a, b);
        let mut out = [0u32; 4];
        let mut i: usize = 0;
        while i < 4
            invariant
                i <= 4,
                forall|j: int| 0 <= j < 4 ==> full[j] == shld32(a[j], b[j], IMM8 as u32),
                forall|j: int| 0 <= j < i ==> out[j] == (if (mask >> j as u8) % 2 == 1 { shld32(a[j], b[j], IMM8 as u32) } else { 0 }),
            decreases 4 - i,
        {
            out[i] = if (mask >> i as u8) % 2 == 1 { full[i] } else { 0 };
            i += 1;
        }
        out
    }

    /// Funnel shift left `a:b` by `c` (`vpshldvd`, 128-bit).
    pub fn shldv_u32x4(self, a: [u32; 4], b: [u32; 4], c: [u32; 4]) -> (r: [u32; 4])
        ensures
            forall|i: int| 0 <= i < 4 ==> r[i] == shld32(a[i], b[i], c[i]),
    {
        let mut out = [0u32; 4];
        let mut i: usize = 0;
        while i < 4
            invariant
                i <= 4,
                forall|j: int| 0 <= j < i ==> out[j] == shld32(a[j], b[j], c[j]),
            decreases 4 - i,
        {
            out[i] = shld32_exec(a[i], b[i], c[i]);
            i += 1;
        }
        out
    }

    /// `out[i] = shldv(a[i], b[i], c[i])`. 4-wide chunks, scalar remainder.
    pub fn shldv_u32_slice(self, a: &[u32], b: &[u32], c: &[u32], out: &mut [u32])
        requires
            b@.len() == a@.len(),
            c@.len() == a@.len(),
            old(out)@.len() == a@.len(),
        ensures
            final(out)@.len() == a@.len(),
            forall|i: int| 0 <= i < a@.len() ==> final(out)@[i] == shld32(a@[i], b@[i], c@[i]),
    {
        let len = a.len();
        let mut i: usize = 0;
        while len - i >= 4
            invariant
                i <= len,
                len == a@.len(),
                len == b@.len(),
                len == c@.len(),
                out@.len() == len,
                forall|j: int| 0 <= j < i ==> out@[j] == shld32(a@[j], b@[j], c@[j]),
            decreases len - i,
        {
            let r = self.shldv_u32x4(loadu_u32x4(a, i), loadu_u32x4(b, i), loadu_u32x4(c, i));
            storeu_u32x4(out, i, r);
            i += 4;
        }
        while i < len
            invariant
                i <= len,
                len == a@.len(),
                len == b@.len(),
                len == c@.len(),
                out@.len() == len,
                forall|j: int| 0 <= j < i ==> out@[j] == shld32(a@[j], b@[j], c@[j]),
            decreases len - i,
        {
            out[i] = shld32_exec(a[i], b[i], c[i]);
            i += 1;
        }
    }

    /// [`Avx512Vbmi2Vl::shldv_u32x4`] where `mask` bit is set, else copied from `a` (`vpshldvd`, merge-masked).
    pub fn shldv_u32x4_merge_masked(self, a: [u32; 4], mask: u8, b: [u32; 4], c: [u32; 4]) -> (r: [u32; 4])
        ensures
            forall|i: int|
                0 <= i < 4 ==> r[i] == if (mask >> i as u8) % 2 == 1 {
                    shld32(a[i], b[i], c[i])
                } else {
                    a[i]
                },
    {
        let full = self.shldv_u32x4(a, b, c);
        let mut out = [0u32; 4];
        let mut i: usize = 0;
        while i < 4
            invariant
                i <= 4,
                forall|j: int| 0 <= j < 4 ==> full[j] == shld32(a[j], b[j], c[j]),
                forall|j: int| 0 <= j < i ==> out[j] == (if (mask >> j as u8) % 2 == 1 { shld32(a[j], b[j], c[j]) } else { a[j] }),
            decreases 4 - i,
        {
            out[i] = if (mask >> i as u8) % 2 == 1 { full[i] } else { a[i] };
            i += 1;
        }
        out
    }

    /// [`Avx512Vbmi2Vl::shldv_u32x4`] where `mask` bit is set, else zero (`vpshldvd`, zero-masked).
    pub fn shldv_u32x4_zero_masked(self, mask: u8, a: [u32; 4], b: [u32; 4], c: [u32; 4]) -> (r: [u32; 4])
        ensures
            forall|i: int|
                0 <= i < 4 ==> r[i] == if (mask >> i as u8) % 2 == 1 {
                    shld32(a[i], b[i], c[i])
                } else {
                    0
                },
    {
        let full = self.shldv_u32x4(a, b, c);
        let mut out = [0u32; 4];
        let mut i: usize = 0;
        while i < 4
            invariant
                i <= 4,
                forall|j: int| 0 <= j < 4 ==> full[j] == shld32(a[j], b[j], c[j]),
                forall|j: int| 0 <= j < i ==> out[j] == (if (mask >> j as u8) % 2 == 1 { shld32(a[j], b[j], c[j]) } else { 0 }),
            decreases 4 - i,
        {
            out[i] = if (mask >> i as u8) % 2 == 1 { full[i] } else { 0 };
            i += 1;
        }
        out
    }

    /// Funnel shift right `b:a` by `IMM8` (`vpshrdd`, 128-bit).
    pub fn shrdi_u32x4<const IMM8: u8>(self, a: [u32; 4], b: [u32; 4]) -> (r: [u32; 4])
        ensures
            forall|i: int| 0 <= i < 4 ==> r[i] == shrd32(a[i], b[i], IMM8 as u32),
    {
        let mut out = [0u32; 4];
        let mut i: usize = 0;
        while i < 4
            invariant
                i <= 4,
                forall|j: int| 0 <= j < i ==> out[j] == shrd32(a[j], b[j], IMM8 as u32),
            decreases 4 - i,
        {
            out[i] = shrd32_exec(a[i], b[i], IMM8 as u32);
            i += 1;
        }
        out
    }

    /// `out[i] = shrdi(a[i], b[i], IMM8)`. 4-wide chunks, scalar remainder.
    pub fn shrdi_u32_slice<const IMM8: u8>(self, a: &[u32], b: &[u32], out: &mut [u32])
        requires
            b@.len() == a@.len(),
            old(out)@.len() == a@.len(),
        ensures
            final(out)@.len() == a@.len(),
            forall|i: int| 0 <= i < a@.len() ==> final(out)@[i] == shrd32(a@[i], b@[i], IMM8 as u32),
    {
        let len = a.len();
        let mut i: usize = 0;
        while len - i >= 4
            invariant
                i <= len,
                len == a@.len(),
                len == b@.len(),
                out@.len() == len,
                forall|j: int| 0 <= j < i ==> out@[j] == shrd32(a@[j], b@[j], IMM8 as u32),
            decreases len - i,
        {
            let r = self.shrdi_u32x4::<IMM8>(loadu_u32x4(a, i), loadu_u32x4(b, i));
            storeu_u32x4(out, i, r);
            i += 4;
        }
        while i < len
            invariant
                i <= len,
                len == a@.len(),
                len == b@.len(),
                out@.len() == len,
                forall|j: int| 0 <= j < i ==> out@[j] == shrd32(a@[j], b@[j], IMM8 as u32),
            decreases len - i,
        {
            out[i] = shrd32_exec(a[i], b[i], IMM8 as u32);
            i += 1;
        }
    }

    /// [`Avx512Vbmi2Vl::shrdi_u32x4`] where `mask` bit is set, else copied from `src` (`vpshrdd`, merge-masked).
    pub fn shrdi_u32x4_merge_masked<const IMM8: u8>(self, src: [u32; 4], mask: u8, a: [u32; 4], b: [u32; 4]) -> (r: [u32; 4])
        ensures
            forall|i: int|
                0 <= i < 4 ==> r[i] == if (mask >> i as u8) % 2 == 1 {
                    shrd32(a[i], b[i], IMM8 as u32)
                } else {
                    src[i]
                },
    {
        let full = self.shrdi_u32x4::<IMM8>(a, b);
        let mut out = [0u32; 4];
        let mut i: usize = 0;
        while i < 4
            invariant
                i <= 4,
                forall|j: int| 0 <= j < 4 ==> full[j] == shrd32(a[j], b[j], IMM8 as u32),
                forall|j: int| 0 <= j < i ==> out[j] == (if (mask >> j as u8) % 2 == 1 { shrd32(a[j], b[j], IMM8 as u32) } else { src[j] }),
            decreases 4 - i,
        {
            out[i] = if (mask >> i as u8) % 2 == 1 { full[i] } else { src[i] };
            i += 1;
        }
        out
    }

    /// [`Avx512Vbmi2Vl::shrdi_u32x4`] where `mask` bit is set, else zero (`vpshrdd`, zero-masked).
    pub fn shrdi_u32x4_zero_masked<const IMM8: u8>(self, mask: u8, a: [u32; 4], b: [u32; 4]) -> (r: [u32; 4])
        ensures
            forall|i: int|
                0 <= i < 4 ==> r[i] == if (mask >> i as u8) % 2 == 1 {
                    shrd32(a[i], b[i], IMM8 as u32)
                } else {
                    0
                },
    {
        let full = self.shrdi_u32x4::<IMM8>(a, b);
        let mut out = [0u32; 4];
        let mut i: usize = 0;
        while i < 4
            invariant
                i <= 4,
                forall|j: int| 0 <= j < 4 ==> full[j] == shrd32(a[j], b[j], IMM8 as u32),
                forall|j: int| 0 <= j < i ==> out[j] == (if (mask >> j as u8) % 2 == 1 { shrd32(a[j], b[j], IMM8 as u32) } else { 0 }),
            decreases 4 - i,
        {
            out[i] = if (mask >> i as u8) % 2 == 1 { full[i] } else { 0 };
            i += 1;
        }
        out
    }

    /// Funnel shift right `b:a` by `c` (`vpshrdvd`, 128-bit).
    pub fn shrdv_u32x4(self, a: [u32; 4], b: [u32; 4], c: [u32; 4]) -> (r: [u32; 4])
        ensures
            forall|i: int| 0 <= i < 4 ==> r[i] == shrd32(a[i], b[i], c[i]),
    {
        let mut out = [0u32; 4];
        let mut i: usize = 0;
        while i < 4
            invariant
                i <= 4,
                forall|j: int| 0 <= j < i ==> out[j] == shrd32(a[j], b[j], c[j]),
            decreases 4 - i,
        {
            out[i] = shrd32_exec(a[i], b[i], c[i]);
            i += 1;
        }
        out
    }

    /// `out[i] = shrdv(a[i], b[i], c[i])`. 4-wide chunks, scalar remainder.
    pub fn shrdv_u32_slice(self, a: &[u32], b: &[u32], c: &[u32], out: &mut [u32])
        requires
            b@.len() == a@.len(),
            c@.len() == a@.len(),
            old(out)@.len() == a@.len(),
        ensures
            final(out)@.len() == a@.len(),
            forall|i: int| 0 <= i < a@.len() ==> final(out)@[i] == shrd32(a@[i], b@[i], c@[i]),
    {
        let len = a.len();
        let mut i: usize = 0;
        while len - i >= 4
            invariant
                i <= len,
                len == a@.len(),
                len == b@.len(),
                len == c@.len(),
                out@.len() == len,
                forall|j: int| 0 <= j < i ==> out@[j] == shrd32(a@[j], b@[j], c@[j]),
            decreases len - i,
        {
            let r = self.shrdv_u32x4(loadu_u32x4(a, i), loadu_u32x4(b, i), loadu_u32x4(c, i));
            storeu_u32x4(out, i, r);
            i += 4;
        }
        while i < len
            invariant
                i <= len,
                len == a@.len(),
                len == b@.len(),
                len == c@.len(),
                out@.len() == len,
                forall|j: int| 0 <= j < i ==> out@[j] == shrd32(a@[j], b@[j], c@[j]),
            decreases len - i,
        {
            out[i] = shrd32_exec(a[i], b[i], c[i]);
            i += 1;
        }
    }

    /// [`Avx512Vbmi2Vl::shrdv_u32x4`] where `mask` bit is set, else copied from `a` (`vpshrdvd`, merge-masked).
    pub fn shrdv_u32x4_merge_masked(self, a: [u32; 4], mask: u8, b: [u32; 4], c: [u32; 4]) -> (r: [u32; 4])
        ensures
            forall|i: int|
                0 <= i < 4 ==> r[i] == if (mask >> i as u8) % 2 == 1 {
                    shrd32(a[i], b[i], c[i])
                } else {
                    a[i]
                },
    {
        let full = self.shrdv_u32x4(a, b, c);
        let mut out = [0u32; 4];
        let mut i: usize = 0;
        while i < 4
            invariant
                i <= 4,
                forall|j: int| 0 <= j < 4 ==> full[j] == shrd32(a[j], b[j], c[j]),
                forall|j: int| 0 <= j < i ==> out[j] == (if (mask >> j as u8) % 2 == 1 { shrd32(a[j], b[j], c[j]) } else { a[j] }),
            decreases 4 - i,
        {
            out[i] = if (mask >> i as u8) % 2 == 1 { full[i] } else { a[i] };
            i += 1;
        }
        out
    }

    /// [`Avx512Vbmi2Vl::shrdv_u32x4`] where `mask` bit is set, else zero (`vpshrdvd`, zero-masked).
    pub fn shrdv_u32x4_zero_masked(self, mask: u8, a: [u32; 4], b: [u32; 4], c: [u32; 4]) -> (r: [u32; 4])
        ensures
            forall|i: int|
                0 <= i < 4 ==> r[i] == if (mask >> i as u8) % 2 == 1 {
                    shrd32(a[i], b[i], c[i])
                } else {
                    0
                },
    {
        let full = self.shrdv_u32x4(a, b, c);
        let mut out = [0u32; 4];
        let mut i: usize = 0;
        while i < 4
            invariant
                i <= 4,
                forall|j: int| 0 <= j < 4 ==> full[j] == shrd32(a[j], b[j], c[j]),
                forall|j: int| 0 <= j < i ==> out[j] == (if (mask >> j as u8) % 2 == 1 { shrd32(a[j], b[j], c[j]) } else { 0 }),
            decreases 4 - i,
        {
            out[i] = if (mask >> i as u8) % 2 == 1 { full[i] } else { 0 };
            i += 1;
        }
        out
    }

    /// Funnel shift left `a:b` by `IMM8` (`vpshldd`, 256-bit).
    pub fn shldi_u32x8<const IMM8: u8>(self, a: [u32; 8], b: [u32; 8]) -> (r: [u32; 8])
        ensures
            forall|i: int| 0 <= i < 8 ==> r[i] == shld32(a[i], b[i], IMM8 as u32),
    {
        let mut out = [0u32; 8];
        let mut i: usize = 0;
        while i < 8
            invariant
                i <= 8,
                forall|j: int| 0 <= j < i ==> out[j] == shld32(a[j], b[j], IMM8 as u32),
            decreases 8 - i,
        {
            out[i] = shld32_exec(a[i], b[i], IMM8 as u32);
            i += 1;
        }
        out
    }

    /// `out[i] = shldi(a[i], b[i], IMM8)`. 8-wide chunks, scalar remainder.
    pub fn shldi_u32_slice_wide<const IMM8: u8>(self, a: &[u32], b: &[u32], out: &mut [u32])
        requires
            b@.len() == a@.len(),
            old(out)@.len() == a@.len(),
        ensures
            final(out)@.len() == a@.len(),
            forall|i: int| 0 <= i < a@.len() ==> final(out)@[i] == shld32(a@[i], b@[i], IMM8 as u32),
    {
        let len = a.len();
        let mut i: usize = 0;
        while len - i >= 8
            invariant
                i <= len,
                len == a@.len(),
                len == b@.len(),
                out@.len() == len,
                forall|j: int| 0 <= j < i ==> out@[j] == shld32(a@[j], b@[j], IMM8 as u32),
            decreases len - i,
        {
            let r = self.shldi_u32x8::<IMM8>(loadu_u32x8(a, i), loadu_u32x8(b, i));
            storeu_u32x8(out, i, r);
            i += 8;
        }
        while i < len
            invariant
                i <= len,
                len == a@.len(),
                len == b@.len(),
                out@.len() == len,
                forall|j: int| 0 <= j < i ==> out@[j] == shld32(a@[j], b@[j], IMM8 as u32),
            decreases len - i,
        {
            out[i] = shld32_exec(a[i], b[i], IMM8 as u32);
            i += 1;
        }
    }

    /// [`Avx512Vbmi2Vl::shldi_u32x8`] where `mask` bit is set, else copied from `src` (`vpshldd`, merge-masked).
    pub fn shldi_u32x8_merge_masked<const IMM8: u8>(self, src: [u32; 8], mask: u8, a: [u32; 8], b: [u32; 8]) -> (r: [u32; 8])
        ensures
            forall|i: int|
                0 <= i < 8 ==> r[i] == if (mask >> i as u8) % 2 == 1 {
                    shld32(a[i], b[i], IMM8 as u32)
                } else {
                    src[i]
                },
    {
        let full = self.shldi_u32x8::<IMM8>(a, b);
        let mut out = [0u32; 8];
        let mut i: usize = 0;
        while i < 8
            invariant
                i <= 8,
                forall|j: int| 0 <= j < 8 ==> full[j] == shld32(a[j], b[j], IMM8 as u32),
                forall|j: int| 0 <= j < i ==> out[j] == (if (mask >> j as u8) % 2 == 1 { shld32(a[j], b[j], IMM8 as u32) } else { src[j] }),
            decreases 8 - i,
        {
            out[i] = if (mask >> i as u8) % 2 == 1 { full[i] } else { src[i] };
            i += 1;
        }
        out
    }

    /// [`Avx512Vbmi2Vl::shldi_u32x8`] where `mask` bit is set, else zero (`vpshldd`, zero-masked).
    pub fn shldi_u32x8_zero_masked<const IMM8: u8>(self, mask: u8, a: [u32; 8], b: [u32; 8]) -> (r: [u32; 8])
        ensures
            forall|i: int|
                0 <= i < 8 ==> r[i] == if (mask >> i as u8) % 2 == 1 {
                    shld32(a[i], b[i], IMM8 as u32)
                } else {
                    0
                },
    {
        let full = self.shldi_u32x8::<IMM8>(a, b);
        let mut out = [0u32; 8];
        let mut i: usize = 0;
        while i < 8
            invariant
                i <= 8,
                forall|j: int| 0 <= j < 8 ==> full[j] == shld32(a[j], b[j], IMM8 as u32),
                forall|j: int| 0 <= j < i ==> out[j] == (if (mask >> j as u8) % 2 == 1 { shld32(a[j], b[j], IMM8 as u32) } else { 0 }),
            decreases 8 - i,
        {
            out[i] = if (mask >> i as u8) % 2 == 1 { full[i] } else { 0 };
            i += 1;
        }
        out
    }

    /// Funnel shift left `a:b` by `c` (`vpshldvd`, 256-bit).
    pub fn shldv_u32x8(self, a: [u32; 8], b: [u32; 8], c: [u32; 8]) -> (r: [u32; 8])
        ensures
            forall|i: int| 0 <= i < 8 ==> r[i] == shld32(a[i], b[i], c[i]),
    {
        let mut out = [0u32; 8];
        let mut i: usize = 0;
        while i < 8
            invariant
                i <= 8,
                forall|j: int| 0 <= j < i ==> out[j] == shld32(a[j], b[j], c[j]),
            decreases 8 - i,
        {
            out[i] = shld32_exec(a[i], b[i], c[i]);
            i += 1;
        }
        out
    }

    /// `out[i] = shldv(a[i], b[i], c[i])`. 8-wide chunks, scalar remainder.
    pub fn shldv_u32_slice_wide(self, a: &[u32], b: &[u32], c: &[u32], out: &mut [u32])
        requires
            b@.len() == a@.len(),
            c@.len() == a@.len(),
            old(out)@.len() == a@.len(),
        ensures
            final(out)@.len() == a@.len(),
            forall|i: int| 0 <= i < a@.len() ==> final(out)@[i] == shld32(a@[i], b@[i], c@[i]),
    {
        let len = a.len();
        let mut i: usize = 0;
        while len - i >= 8
            invariant
                i <= len,
                len == a@.len(),
                len == b@.len(),
                len == c@.len(),
                out@.len() == len,
                forall|j: int| 0 <= j < i ==> out@[j] == shld32(a@[j], b@[j], c@[j]),
            decreases len - i,
        {
            let r = self.shldv_u32x8(loadu_u32x8(a, i), loadu_u32x8(b, i), loadu_u32x8(c, i));
            storeu_u32x8(out, i, r);
            i += 8;
        }
        while i < len
            invariant
                i <= len,
                len == a@.len(),
                len == b@.len(),
                len == c@.len(),
                out@.len() == len,
                forall|j: int| 0 <= j < i ==> out@[j] == shld32(a@[j], b@[j], c@[j]),
            decreases len - i,
        {
            out[i] = shld32_exec(a[i], b[i], c[i]);
            i += 1;
        }
    }

    /// [`Avx512Vbmi2Vl::shldv_u32x8`] where `mask` bit is set, else copied from `a` (`vpshldvd`, merge-masked).
    pub fn shldv_u32x8_merge_masked(self, a: [u32; 8], mask: u8, b: [u32; 8], c: [u32; 8]) -> (r: [u32; 8])
        ensures
            forall|i: int|
                0 <= i < 8 ==> r[i] == if (mask >> i as u8) % 2 == 1 {
                    shld32(a[i], b[i], c[i])
                } else {
                    a[i]
                },
    {
        let full = self.shldv_u32x8(a, b, c);
        let mut out = [0u32; 8];
        let mut i: usize = 0;
        while i < 8
            invariant
                i <= 8,
                forall|j: int| 0 <= j < 8 ==> full[j] == shld32(a[j], b[j], c[j]),
                forall|j: int| 0 <= j < i ==> out[j] == (if (mask >> j as u8) % 2 == 1 { shld32(a[j], b[j], c[j]) } else { a[j] }),
            decreases 8 - i,
        {
            out[i] = if (mask >> i as u8) % 2 == 1 { full[i] } else { a[i] };
            i += 1;
        }
        out
    }

    /// [`Avx512Vbmi2Vl::shldv_u32x8`] where `mask` bit is set, else zero (`vpshldvd`, zero-masked).
    pub fn shldv_u32x8_zero_masked(self, mask: u8, a: [u32; 8], b: [u32; 8], c: [u32; 8]) -> (r: [u32; 8])
        ensures
            forall|i: int|
                0 <= i < 8 ==> r[i] == if (mask >> i as u8) % 2 == 1 {
                    shld32(a[i], b[i], c[i])
                } else {
                    0
                },
    {
        let full = self.shldv_u32x8(a, b, c);
        let mut out = [0u32; 8];
        let mut i: usize = 0;
        while i < 8
            invariant
                i <= 8,
                forall|j: int| 0 <= j < 8 ==> full[j] == shld32(a[j], b[j], c[j]),
                forall|j: int| 0 <= j < i ==> out[j] == (if (mask >> j as u8) % 2 == 1 { shld32(a[j], b[j], c[j]) } else { 0 }),
            decreases 8 - i,
        {
            out[i] = if (mask >> i as u8) % 2 == 1 { full[i] } else { 0 };
            i += 1;
        }
        out
    }

    /// Funnel shift right `b:a` by `IMM8` (`vpshrdd`, 256-bit).
    pub fn shrdi_u32x8<const IMM8: u8>(self, a: [u32; 8], b: [u32; 8]) -> (r: [u32; 8])
        ensures
            forall|i: int| 0 <= i < 8 ==> r[i] == shrd32(a[i], b[i], IMM8 as u32),
    {
        let mut out = [0u32; 8];
        let mut i: usize = 0;
        while i < 8
            invariant
                i <= 8,
                forall|j: int| 0 <= j < i ==> out[j] == shrd32(a[j], b[j], IMM8 as u32),
            decreases 8 - i,
        {
            out[i] = shrd32_exec(a[i], b[i], IMM8 as u32);
            i += 1;
        }
        out
    }

    /// `out[i] = shrdi(a[i], b[i], IMM8)`. 8-wide chunks, scalar remainder.
    pub fn shrdi_u32_slice_wide<const IMM8: u8>(self, a: &[u32], b: &[u32], out: &mut [u32])
        requires
            b@.len() == a@.len(),
            old(out)@.len() == a@.len(),
        ensures
            final(out)@.len() == a@.len(),
            forall|i: int| 0 <= i < a@.len() ==> final(out)@[i] == shrd32(a@[i], b@[i], IMM8 as u32),
    {
        let len = a.len();
        let mut i: usize = 0;
        while len - i >= 8
            invariant
                i <= len,
                len == a@.len(),
                len == b@.len(),
                out@.len() == len,
                forall|j: int| 0 <= j < i ==> out@[j] == shrd32(a@[j], b@[j], IMM8 as u32),
            decreases len - i,
        {
            let r = self.shrdi_u32x8::<IMM8>(loadu_u32x8(a, i), loadu_u32x8(b, i));
            storeu_u32x8(out, i, r);
            i += 8;
        }
        while i < len
            invariant
                i <= len,
                len == a@.len(),
                len == b@.len(),
                out@.len() == len,
                forall|j: int| 0 <= j < i ==> out@[j] == shrd32(a@[j], b@[j], IMM8 as u32),
            decreases len - i,
        {
            out[i] = shrd32_exec(a[i], b[i], IMM8 as u32);
            i += 1;
        }
    }

    /// [`Avx512Vbmi2Vl::shrdi_u32x8`] where `mask` bit is set, else copied from `src` (`vpshrdd`, merge-masked).
    pub fn shrdi_u32x8_merge_masked<const IMM8: u8>(self, src: [u32; 8], mask: u8, a: [u32; 8], b: [u32; 8]) -> (r: [u32; 8])
        ensures
            forall|i: int|
                0 <= i < 8 ==> r[i] == if (mask >> i as u8) % 2 == 1 {
                    shrd32(a[i], b[i], IMM8 as u32)
                } else {
                    src[i]
                },
    {
        let full = self.shrdi_u32x8::<IMM8>(a, b);
        let mut out = [0u32; 8];
        let mut i: usize = 0;
        while i < 8
            invariant
                i <= 8,
                forall|j: int| 0 <= j < 8 ==> full[j] == shrd32(a[j], b[j], IMM8 as u32),
                forall|j: int| 0 <= j < i ==> out[j] == (if (mask >> j as u8) % 2 == 1 { shrd32(a[j], b[j], IMM8 as u32) } else { src[j] }),
            decreases 8 - i,
        {
            out[i] = if (mask >> i as u8) % 2 == 1 { full[i] } else { src[i] };
            i += 1;
        }
        out
    }

    /// [`Avx512Vbmi2Vl::shrdi_u32x8`] where `mask` bit is set, else zero (`vpshrdd`, zero-masked).
    pub fn shrdi_u32x8_zero_masked<const IMM8: u8>(self, mask: u8, a: [u32; 8], b: [u32; 8]) -> (r: [u32; 8])
        ensures
            forall|i: int|
                0 <= i < 8 ==> r[i] == if (mask >> i as u8) % 2 == 1 {
                    shrd32(a[i], b[i], IMM8 as u32)
                } else {
                    0
                },
    {
        let full = self.shrdi_u32x8::<IMM8>(a, b);
        let mut out = [0u32; 8];
        let mut i: usize = 0;
        while i < 8
            invariant
                i <= 8,
                forall|j: int| 0 <= j < 8 ==> full[j] == shrd32(a[j], b[j], IMM8 as u32),
                forall|j: int| 0 <= j < i ==> out[j] == (if (mask >> j as u8) % 2 == 1 { shrd32(a[j], b[j], IMM8 as u32) } else { 0 }),
            decreases 8 - i,
        {
            out[i] = if (mask >> i as u8) % 2 == 1 { full[i] } else { 0 };
            i += 1;
        }
        out
    }

    /// Funnel shift right `b:a` by `c` (`vpshrdvd`, 256-bit).
    pub fn shrdv_u32x8(self, a: [u32; 8], b: [u32; 8], c: [u32; 8]) -> (r: [u32; 8])
        ensures
            forall|i: int| 0 <= i < 8 ==> r[i] == shrd32(a[i], b[i], c[i]),
    {
        let mut out = [0u32; 8];
        let mut i: usize = 0;
        while i < 8
            invariant
                i <= 8,
                forall|j: int| 0 <= j < i ==> out[j] == shrd32(a[j], b[j], c[j]),
            decreases 8 - i,
        {
            out[i] = shrd32_exec(a[i], b[i], c[i]);
            i += 1;
        }
        out
    }

    /// `out[i] = shrdv(a[i], b[i], c[i])`. 8-wide chunks, scalar remainder.
    pub fn shrdv_u32_slice_wide(self, a: &[u32], b: &[u32], c: &[u32], out: &mut [u32])
        requires
            b@.len() == a@.len(),
            c@.len() == a@.len(),
            old(out)@.len() == a@.len(),
        ensures
            final(out)@.len() == a@.len(),
            forall|i: int| 0 <= i < a@.len() ==> final(out)@[i] == shrd32(a@[i], b@[i], c@[i]),
    {
        let len = a.len();
        let mut i: usize = 0;
        while len - i >= 8
            invariant
                i <= len,
                len == a@.len(),
                len == b@.len(),
                len == c@.len(),
                out@.len() == len,
                forall|j: int| 0 <= j < i ==> out@[j] == shrd32(a@[j], b@[j], c@[j]),
            decreases len - i,
        {
            let r = self.shrdv_u32x8(loadu_u32x8(a, i), loadu_u32x8(b, i), loadu_u32x8(c, i));
            storeu_u32x8(out, i, r);
            i += 8;
        }
        while i < len
            invariant
                i <= len,
                len == a@.len(),
                len == b@.len(),
                len == c@.len(),
                out@.len() == len,
                forall|j: int| 0 <= j < i ==> out@[j] == shrd32(a@[j], b@[j], c@[j]),
            decreases len - i,
        {
            out[i] = shrd32_exec(a[i], b[i], c[i]);
            i += 1;
        }
    }

    /// [`Avx512Vbmi2Vl::shrdv_u32x8`] where `mask` bit is set, else copied from `a` (`vpshrdvd`, merge-masked).
    pub fn shrdv_u32x8_merge_masked(self, a: [u32; 8], mask: u8, b: [u32; 8], c: [u32; 8]) -> (r: [u32; 8])
        ensures
            forall|i: int|
                0 <= i < 8 ==> r[i] == if (mask >> i as u8) % 2 == 1 {
                    shrd32(a[i], b[i], c[i])
                } else {
                    a[i]
                },
    {
        let full = self.shrdv_u32x8(a, b, c);
        let mut out = [0u32; 8];
        let mut i: usize = 0;
        while i < 8
            invariant
                i <= 8,
                forall|j: int| 0 <= j < 8 ==> full[j] == shrd32(a[j], b[j], c[j]),
                forall|j: int| 0 <= j < i ==> out[j] == (if (mask >> j as u8) % 2 == 1 { shrd32(a[j], b[j], c[j]) } else { a[j] }),
            decreases 8 - i,
        {
            out[i] = if (mask >> i as u8) % 2 == 1 { full[i] } else { a[i] };
            i += 1;
        }
        out
    }

    /// [`Avx512Vbmi2Vl::shrdv_u32x8`] where `mask` bit is set, else zero (`vpshrdvd`, zero-masked).
    pub fn shrdv_u32x8_zero_masked(self, mask: u8, a: [u32; 8], b: [u32; 8], c: [u32; 8]) -> (r: [u32; 8])
        ensures
            forall|i: int|
                0 <= i < 8 ==> r[i] == if (mask >> i as u8) % 2 == 1 {
                    shrd32(a[i], b[i], c[i])
                } else {
                    0
                },
    {
        let full = self.shrdv_u32x8(a, b, c);
        let mut out = [0u32; 8];
        let mut i: usize = 0;
        while i < 8
            invariant
                i <= 8,
                forall|j: int| 0 <= j < 8 ==> full[j] == shrd32(a[j], b[j], c[j]),
                forall|j: int| 0 <= j < i ==> out[j] == (if (mask >> j as u8) % 2 == 1 { shrd32(a[j], b[j], c[j]) } else { 0 }),
            decreases 8 - i,
        {
            out[i] = if (mask >> i as u8) % 2 == 1 { full[i] } else { 0 };
            i += 1;
        }
        out
    }

    /// Funnel shift left `a:b` by `IMM8` (`vpshldq`, 128-bit).
    pub fn shldi_i64x2<const IMM8: u8>(self, a: [i64; 2], b: [i64; 2]) -> (r: [i64; 2])
        ensures
            forall|i: int| 0 <= i < 2 ==> r[i] == shld64(a[i] as u64, b[i] as u64, IMM8 as u32) as i64,
    {
        let mut out = [0i64; 2];
        let mut i: usize = 0;
        while i < 2
            invariant
                i <= 2,
                forall|j: int| 0 <= j < i ==> out[j] == shld64(a[j] as u64, b[j] as u64, IMM8 as u32) as i64,
            decreases 2 - i,
        {
            out[i] = shld64_exec(a[i] as u64, b[i] as u64, IMM8 as u32) as i64;
            i += 1;
        }
        out
    }

    /// `out[i] = shldi(a[i], b[i], IMM8)`. 2-wide chunks, scalar remainder.
    pub fn shldi_i64_slice<const IMM8: u8>(self, a: &[i64], b: &[i64], out: &mut [i64])
        requires
            b@.len() == a@.len(),
            old(out)@.len() == a@.len(),
        ensures
            final(out)@.len() == a@.len(),
            forall|i: int| 0 <= i < a@.len() ==> final(out)@[i] == shld64(a@[i] as u64, b@[i] as u64, IMM8 as u32) as i64,
    {
        let len = a.len();
        let mut i: usize = 0;
        while len - i >= 2
            invariant
                i <= len,
                len == a@.len(),
                len == b@.len(),
                out@.len() == len,
                forall|j: int| 0 <= j < i ==> out@[j] == shld64(a@[j] as u64, b@[j] as u64, IMM8 as u32) as i64,
            decreases len - i,
        {
            let r = self.shldi_i64x2::<IMM8>(loadu_i64x2(a, i), loadu_i64x2(b, i));
            storeu_i64x2(out, i, r);
            i += 2;
        }
        while i < len
            invariant
                i <= len,
                len == a@.len(),
                len == b@.len(),
                out@.len() == len,
                forall|j: int| 0 <= j < i ==> out@[j] == shld64(a@[j] as u64, b@[j] as u64, IMM8 as u32) as i64,
            decreases len - i,
        {
            out[i] = shld64_exec(a[i] as u64, b[i] as u64, IMM8 as u32) as i64;
            i += 1;
        }
    }

    /// [`Avx512Vbmi2Vl::shldi_i64x2`] where `mask` bit is set, else copied from `src` (`vpshldq`, merge-masked).
    pub fn shldi_i64x2_merge_masked<const IMM8: u8>(self, src: [i64; 2], mask: u8, a: [i64; 2], b: [i64; 2]) -> (r: [i64; 2])
        ensures
            forall|i: int|
                0 <= i < 2 ==> r[i] == if (mask >> i as u8) % 2 == 1 {
                    shld64(a[i] as u64, b[i] as u64, IMM8 as u32) as i64
                } else {
                    src[i]
                },
    {
        let full = self.shldi_i64x2::<IMM8>(a, b);
        let mut out = [0i64; 2];
        let mut i: usize = 0;
        while i < 2
            invariant
                i <= 2,
                forall|j: int| 0 <= j < 2 ==> full[j] == shld64(a[j] as u64, b[j] as u64, IMM8 as u32) as i64,
                forall|j: int| 0 <= j < i ==> out[j] == (if (mask >> j as u8) % 2 == 1 { shld64(a[j] as u64, b[j] as u64, IMM8 as u32) as i64 } else { src[j] }),
            decreases 2 - i,
        {
            out[i] = if (mask >> i as u8) % 2 == 1 { full[i] } else { src[i] };
            i += 1;
        }
        out
    }

    /// [`Avx512Vbmi2Vl::shldi_i64x2`] where `mask` bit is set, else zero (`vpshldq`, zero-masked).
    pub fn shldi_i64x2_zero_masked<const IMM8: u8>(self, mask: u8, a: [i64; 2], b: [i64; 2]) -> (r: [i64; 2])
        ensures
            forall|i: int|
                0 <= i < 2 ==> r[i] == if (mask >> i as u8) % 2 == 1 {
                    shld64(a[i] as u64, b[i] as u64, IMM8 as u32) as i64
                } else {
                    0
                },
    {
        let full = self.shldi_i64x2::<IMM8>(a, b);
        let mut out = [0i64; 2];
        let mut i: usize = 0;
        while i < 2
            invariant
                i <= 2,
                forall|j: int| 0 <= j < 2 ==> full[j] == shld64(a[j] as u64, b[j] as u64, IMM8 as u32) as i64,
                forall|j: int| 0 <= j < i ==> out[j] == (if (mask >> j as u8) % 2 == 1 { shld64(a[j] as u64, b[j] as u64, IMM8 as u32) as i64 } else { 0 }),
            decreases 2 - i,
        {
            out[i] = if (mask >> i as u8) % 2 == 1 { full[i] } else { 0 };
            i += 1;
        }
        out
    }

    /// Funnel shift left `a:b` by `c` (`vpshldvq`, 128-bit).
    pub fn shldv_i64x2(self, a: [i64; 2], b: [i64; 2], c: [i64; 2]) -> (r: [i64; 2])
        ensures
            forall|i: int| 0 <= i < 2 ==> r[i] == shld64(a[i] as u64, b[i] as u64, c[i] as u64 as u32) as i64,
    {
        let mut out = [0i64; 2];
        let mut i: usize = 0;
        while i < 2
            invariant
                i <= 2,
                forall|j: int| 0 <= j < i ==> out[j] == shld64(a[j] as u64, b[j] as u64, c[j] as u64 as u32) as i64,
            decreases 2 - i,
        {
            out[i] = shld64_exec(a[i] as u64, b[i] as u64, c[i] as u64 as u32) as i64;
            i += 1;
        }
        out
    }

    /// `out[i] = shldv(a[i], b[i], c[i])`. 2-wide chunks, scalar remainder.
    pub fn shldv_i64_slice(self, a: &[i64], b: &[i64], c: &[i64], out: &mut [i64])
        requires
            b@.len() == a@.len(),
            c@.len() == a@.len(),
            old(out)@.len() == a@.len(),
        ensures
            final(out)@.len() == a@.len(),
            forall|i: int| 0 <= i < a@.len() ==> final(out)@[i] == shld64(a@[i] as u64, b@[i] as u64, c@[i] as u64 as u32) as i64,
    {
        let len = a.len();
        let mut i: usize = 0;
        while len - i >= 2
            invariant
                i <= len,
                len == a@.len(),
                len == b@.len(),
                len == c@.len(),
                out@.len() == len,
                forall|j: int| 0 <= j < i ==> out@[j] == shld64(a@[j] as u64, b@[j] as u64, c@[j] as u64 as u32) as i64,
            decreases len - i,
        {
            let r = self.shldv_i64x2(loadu_i64x2(a, i), loadu_i64x2(b, i), loadu_i64x2(c, i));
            storeu_i64x2(out, i, r);
            i += 2;
        }
        while i < len
            invariant
                i <= len,
                len == a@.len(),
                len == b@.len(),
                len == c@.len(),
                out@.len() == len,
                forall|j: int| 0 <= j < i ==> out@[j] == shld64(a@[j] as u64, b@[j] as u64, c@[j] as u64 as u32) as i64,
            decreases len - i,
        {
            out[i] = shld64_exec(a[i] as u64, b[i] as u64, c[i] as u64 as u32) as i64;
            i += 1;
        }
    }

    /// [`Avx512Vbmi2Vl::shldv_i64x2`] where `mask` bit is set, else copied from `a` (`vpshldvq`, merge-masked).
    pub fn shldv_i64x2_merge_masked(self, a: [i64; 2], mask: u8, b: [i64; 2], c: [i64; 2]) -> (r: [i64; 2])
        ensures
            forall|i: int|
                0 <= i < 2 ==> r[i] == if (mask >> i as u8) % 2 == 1 {
                    shld64(a[i] as u64, b[i] as u64, c[i] as u64 as u32) as i64
                } else {
                    a[i]
                },
    {
        let full = self.shldv_i64x2(a, b, c);
        let mut out = [0i64; 2];
        let mut i: usize = 0;
        while i < 2
            invariant
                i <= 2,
                forall|j: int| 0 <= j < 2 ==> full[j] == shld64(a[j] as u64, b[j] as u64, c[j] as u64 as u32) as i64,
                forall|j: int| 0 <= j < i ==> out[j] == (if (mask >> j as u8) % 2 == 1 { shld64(a[j] as u64, b[j] as u64, c[j] as u64 as u32) as i64 } else { a[j] }),
            decreases 2 - i,
        {
            out[i] = if (mask >> i as u8) % 2 == 1 { full[i] } else { a[i] };
            i += 1;
        }
        out
    }

    /// [`Avx512Vbmi2Vl::shldv_i64x2`] where `mask` bit is set, else zero (`vpshldvq`, zero-masked).
    pub fn shldv_i64x2_zero_masked(self, mask: u8, a: [i64; 2], b: [i64; 2], c: [i64; 2]) -> (r: [i64; 2])
        ensures
            forall|i: int|
                0 <= i < 2 ==> r[i] == if (mask >> i as u8) % 2 == 1 {
                    shld64(a[i] as u64, b[i] as u64, c[i] as u64 as u32) as i64
                } else {
                    0
                },
    {
        let full = self.shldv_i64x2(a, b, c);
        let mut out = [0i64; 2];
        let mut i: usize = 0;
        while i < 2
            invariant
                i <= 2,
                forall|j: int| 0 <= j < 2 ==> full[j] == shld64(a[j] as u64, b[j] as u64, c[j] as u64 as u32) as i64,
                forall|j: int| 0 <= j < i ==> out[j] == (if (mask >> j as u8) % 2 == 1 { shld64(a[j] as u64, b[j] as u64, c[j] as u64 as u32) as i64 } else { 0 }),
            decreases 2 - i,
        {
            out[i] = if (mask >> i as u8) % 2 == 1 { full[i] } else { 0 };
            i += 1;
        }
        out
    }

    /// Funnel shift right `b:a` by `IMM8` (`vpshrdq`, 128-bit).
    pub fn shrdi_i64x2<const IMM8: u8>(self, a: [i64; 2], b: [i64; 2]) -> (r: [i64; 2])
        ensures
            forall|i: int| 0 <= i < 2 ==> r[i] == shrd64(a[i] as u64, b[i] as u64, IMM8 as u32) as i64,
    {
        let mut out = [0i64; 2];
        let mut i: usize = 0;
        while i < 2
            invariant
                i <= 2,
                forall|j: int| 0 <= j < i ==> out[j] == shrd64(a[j] as u64, b[j] as u64, IMM8 as u32) as i64,
            decreases 2 - i,
        {
            out[i] = shrd64_exec(a[i] as u64, b[i] as u64, IMM8 as u32) as i64;
            i += 1;
        }
        out
    }

    /// `out[i] = shrdi(a[i], b[i], IMM8)`. 2-wide chunks, scalar remainder.
    pub fn shrdi_i64_slice<const IMM8: u8>(self, a: &[i64], b: &[i64], out: &mut [i64])
        requires
            b@.len() == a@.len(),
            old(out)@.len() == a@.len(),
        ensures
            final(out)@.len() == a@.len(),
            forall|i: int| 0 <= i < a@.len() ==> final(out)@[i] == shrd64(a@[i] as u64, b@[i] as u64, IMM8 as u32) as i64,
    {
        let len = a.len();
        let mut i: usize = 0;
        while len - i >= 2
            invariant
                i <= len,
                len == a@.len(),
                len == b@.len(),
                out@.len() == len,
                forall|j: int| 0 <= j < i ==> out@[j] == shrd64(a@[j] as u64, b@[j] as u64, IMM8 as u32) as i64,
            decreases len - i,
        {
            let r = self.shrdi_i64x2::<IMM8>(loadu_i64x2(a, i), loadu_i64x2(b, i));
            storeu_i64x2(out, i, r);
            i += 2;
        }
        while i < len
            invariant
                i <= len,
                len == a@.len(),
                len == b@.len(),
                out@.len() == len,
                forall|j: int| 0 <= j < i ==> out@[j] == shrd64(a@[j] as u64, b@[j] as u64, IMM8 as u32) as i64,
            decreases len - i,
        {
            out[i] = shrd64_exec(a[i] as u64, b[i] as u64, IMM8 as u32) as i64;
            i += 1;
        }
    }

    /// [`Avx512Vbmi2Vl::shrdi_i64x2`] where `mask` bit is set, else copied from `src` (`vpshrdq`, merge-masked).
    pub fn shrdi_i64x2_merge_masked<const IMM8: u8>(self, src: [i64; 2], mask: u8, a: [i64; 2], b: [i64; 2]) -> (r: [i64; 2])
        ensures
            forall|i: int|
                0 <= i < 2 ==> r[i] == if (mask >> i as u8) % 2 == 1 {
                    shrd64(a[i] as u64, b[i] as u64, IMM8 as u32) as i64
                } else {
                    src[i]
                },
    {
        let full = self.shrdi_i64x2::<IMM8>(a, b);
        let mut out = [0i64; 2];
        let mut i: usize = 0;
        while i < 2
            invariant
                i <= 2,
                forall|j: int| 0 <= j < 2 ==> full[j] == shrd64(a[j] as u64, b[j] as u64, IMM8 as u32) as i64,
                forall|j: int| 0 <= j < i ==> out[j] == (if (mask >> j as u8) % 2 == 1 { shrd64(a[j] as u64, b[j] as u64, IMM8 as u32) as i64 } else { src[j] }),
            decreases 2 - i,
        {
            out[i] = if (mask >> i as u8) % 2 == 1 { full[i] } else { src[i] };
            i += 1;
        }
        out
    }

    /// [`Avx512Vbmi2Vl::shrdi_i64x2`] where `mask` bit is set, else zero (`vpshrdq`, zero-masked).
    pub fn shrdi_i64x2_zero_masked<const IMM8: u8>(self, mask: u8, a: [i64; 2], b: [i64; 2]) -> (r: [i64; 2])
        ensures
            forall|i: int|
                0 <= i < 2 ==> r[i] == if (mask >> i as u8) % 2 == 1 {
                    shrd64(a[i] as u64, b[i] as u64, IMM8 as u32) as i64
                } else {
                    0
                },
    {
        let full = self.shrdi_i64x2::<IMM8>(a, b);
        let mut out = [0i64; 2];
        let mut i: usize = 0;
        while i < 2
            invariant
                i <= 2,
                forall|j: int| 0 <= j < 2 ==> full[j] == shrd64(a[j] as u64, b[j] as u64, IMM8 as u32) as i64,
                forall|j: int| 0 <= j < i ==> out[j] == (if (mask >> j as u8) % 2 == 1 { shrd64(a[j] as u64, b[j] as u64, IMM8 as u32) as i64 } else { 0 }),
            decreases 2 - i,
        {
            out[i] = if (mask >> i as u8) % 2 == 1 { full[i] } else { 0 };
            i += 1;
        }
        out
    }

    /// Funnel shift right `b:a` by `c` (`vpshrdvq`, 128-bit).
    pub fn shrdv_i64x2(self, a: [i64; 2], b: [i64; 2], c: [i64; 2]) -> (r: [i64; 2])
        ensures
            forall|i: int| 0 <= i < 2 ==> r[i] == shrd64(a[i] as u64, b[i] as u64, c[i] as u64 as u32) as i64,
    {
        let mut out = [0i64; 2];
        let mut i: usize = 0;
        while i < 2
            invariant
                i <= 2,
                forall|j: int| 0 <= j < i ==> out[j] == shrd64(a[j] as u64, b[j] as u64, c[j] as u64 as u32) as i64,
            decreases 2 - i,
        {
            out[i] = shrd64_exec(a[i] as u64, b[i] as u64, c[i] as u64 as u32) as i64;
            i += 1;
        }
        out
    }

    /// `out[i] = shrdv(a[i], b[i], c[i])`. 2-wide chunks, scalar remainder.
    pub fn shrdv_i64_slice(self, a: &[i64], b: &[i64], c: &[i64], out: &mut [i64])
        requires
            b@.len() == a@.len(),
            c@.len() == a@.len(),
            old(out)@.len() == a@.len(),
        ensures
            final(out)@.len() == a@.len(),
            forall|i: int| 0 <= i < a@.len() ==> final(out)@[i] == shrd64(a@[i] as u64, b@[i] as u64, c@[i] as u64 as u32) as i64,
    {
        let len = a.len();
        let mut i: usize = 0;
        while len - i >= 2
            invariant
                i <= len,
                len == a@.len(),
                len == b@.len(),
                len == c@.len(),
                out@.len() == len,
                forall|j: int| 0 <= j < i ==> out@[j] == shrd64(a@[j] as u64, b@[j] as u64, c@[j] as u64 as u32) as i64,
            decreases len - i,
        {
            let r = self.shrdv_i64x2(loadu_i64x2(a, i), loadu_i64x2(b, i), loadu_i64x2(c, i));
            storeu_i64x2(out, i, r);
            i += 2;
        }
        while i < len
            invariant
                i <= len,
                len == a@.len(),
                len == b@.len(),
                len == c@.len(),
                out@.len() == len,
                forall|j: int| 0 <= j < i ==> out@[j] == shrd64(a@[j] as u64, b@[j] as u64, c@[j] as u64 as u32) as i64,
            decreases len - i,
        {
            out[i] = shrd64_exec(a[i] as u64, b[i] as u64, c[i] as u64 as u32) as i64;
            i += 1;
        }
    }

    /// [`Avx512Vbmi2Vl::shrdv_i64x2`] where `mask` bit is set, else copied from `a` (`vpshrdvq`, merge-masked).
    pub fn shrdv_i64x2_merge_masked(self, a: [i64; 2], mask: u8, b: [i64; 2], c: [i64; 2]) -> (r: [i64; 2])
        ensures
            forall|i: int|
                0 <= i < 2 ==> r[i] == if (mask >> i as u8) % 2 == 1 {
                    shrd64(a[i] as u64, b[i] as u64, c[i] as u64 as u32) as i64
                } else {
                    a[i]
                },
    {
        let full = self.shrdv_i64x2(a, b, c);
        let mut out = [0i64; 2];
        let mut i: usize = 0;
        while i < 2
            invariant
                i <= 2,
                forall|j: int| 0 <= j < 2 ==> full[j] == shrd64(a[j] as u64, b[j] as u64, c[j] as u64 as u32) as i64,
                forall|j: int| 0 <= j < i ==> out[j] == (if (mask >> j as u8) % 2 == 1 { shrd64(a[j] as u64, b[j] as u64, c[j] as u64 as u32) as i64 } else { a[j] }),
            decreases 2 - i,
        {
            out[i] = if (mask >> i as u8) % 2 == 1 { full[i] } else { a[i] };
            i += 1;
        }
        out
    }

    /// [`Avx512Vbmi2Vl::shrdv_i64x2`] where `mask` bit is set, else zero (`vpshrdvq`, zero-masked).
    pub fn shrdv_i64x2_zero_masked(self, mask: u8, a: [i64; 2], b: [i64; 2], c: [i64; 2]) -> (r: [i64; 2])
        ensures
            forall|i: int|
                0 <= i < 2 ==> r[i] == if (mask >> i as u8) % 2 == 1 {
                    shrd64(a[i] as u64, b[i] as u64, c[i] as u64 as u32) as i64
                } else {
                    0
                },
    {
        let full = self.shrdv_i64x2(a, b, c);
        let mut out = [0i64; 2];
        let mut i: usize = 0;
        while i < 2
            invariant
                i <= 2,
                forall|j: int| 0 <= j < 2 ==> full[j] == shrd64(a[j] as u64, b[j] as u64, c[j] as u64 as u32) as i64,
                forall|j: int| 0 <= j < i ==> out[j] == (if (mask >> j as u8) % 2 == 1 { shrd64(a[j] as u64, b[j] as u64, c[j] as u64 as u32) as i64 } else { 0 }),
            decreases 2 - i,
        {
            out[i] = if (mask >> i as u8) % 2 == 1 { full[i] } else { 0 };
            i += 1;
        }
        out
    }

    /// Funnel shift left `a:b` by `IMM8` (`vpshldq`, 256-bit).
    pub fn shldi_i64x4<const IMM8: u8>(self, a: [i64; 4], b: [i64; 4]) -> (r: [i64; 4])
        ensures
            forall|i: int| 0 <= i < 4 ==> r[i] == shld64(a[i] as u64, b[i] as u64, IMM8 as u32) as i64,
    {
        let mut out = [0i64; 4];
        let mut i: usize = 0;
        while i < 4
            invariant
                i <= 4,
                forall|j: int| 0 <= j < i ==> out[j] == shld64(a[j] as u64, b[j] as u64, IMM8 as u32) as i64,
            decreases 4 - i,
        {
            out[i] = shld64_exec(a[i] as u64, b[i] as u64, IMM8 as u32) as i64;
            i += 1;
        }
        out
    }

    /// `out[i] = shldi(a[i], b[i], IMM8)`. 4-wide chunks, scalar remainder.
    pub fn shldi_i64_slice_wide<const IMM8: u8>(self, a: &[i64], b: &[i64], out: &mut [i64])
        requires
            b@.len() == a@.len(),
            old(out)@.len() == a@.len(),
        ensures
            final(out)@.len() == a@.len(),
            forall|i: int| 0 <= i < a@.len() ==> final(out)@[i] == shld64(a@[i] as u64, b@[i] as u64, IMM8 as u32) as i64,
    {
        let len = a.len();
        let mut i: usize = 0;
        while len - i >= 4
            invariant
                i <= len,
                len == a@.len(),
                len == b@.len(),
                out@.len() == len,
                forall|j: int| 0 <= j < i ==> out@[j] == shld64(a@[j] as u64, b@[j] as u64, IMM8 as u32) as i64,
            decreases len - i,
        {
            let r = self.shldi_i64x4::<IMM8>(loadu_i64x4(a, i), loadu_i64x4(b, i));
            storeu_i64x4(out, i, r);
            i += 4;
        }
        while i < len
            invariant
                i <= len,
                len == a@.len(),
                len == b@.len(),
                out@.len() == len,
                forall|j: int| 0 <= j < i ==> out@[j] == shld64(a@[j] as u64, b@[j] as u64, IMM8 as u32) as i64,
            decreases len - i,
        {
            out[i] = shld64_exec(a[i] as u64, b[i] as u64, IMM8 as u32) as i64;
            i += 1;
        }
    }

    /// [`Avx512Vbmi2Vl::shldi_i64x4`] where `mask` bit is set, else copied from `src` (`vpshldq`, merge-masked).
    pub fn shldi_i64x4_merge_masked<const IMM8: u8>(self, src: [i64; 4], mask: u8, a: [i64; 4], b: [i64; 4]) -> (r: [i64; 4])
        ensures
            forall|i: int|
                0 <= i < 4 ==> r[i] == if (mask >> i as u8) % 2 == 1 {
                    shld64(a[i] as u64, b[i] as u64, IMM8 as u32) as i64
                } else {
                    src[i]
                },
    {
        let full = self.shldi_i64x4::<IMM8>(a, b);
        let mut out = [0i64; 4];
        let mut i: usize = 0;
        while i < 4
            invariant
                i <= 4,
                forall|j: int| 0 <= j < 4 ==> full[j] == shld64(a[j] as u64, b[j] as u64, IMM8 as u32) as i64,
                forall|j: int| 0 <= j < i ==> out[j] == (if (mask >> j as u8) % 2 == 1 { shld64(a[j] as u64, b[j] as u64, IMM8 as u32) as i64 } else { src[j] }),
            decreases 4 - i,
        {
            out[i] = if (mask >> i as u8) % 2 == 1 { full[i] } else { src[i] };
            i += 1;
        }
        out
    }

    /// [`Avx512Vbmi2Vl::shldi_i64x4`] where `mask` bit is set, else zero (`vpshldq`, zero-masked).
    pub fn shldi_i64x4_zero_masked<const IMM8: u8>(self, mask: u8, a: [i64; 4], b: [i64; 4]) -> (r: [i64; 4])
        ensures
            forall|i: int|
                0 <= i < 4 ==> r[i] == if (mask >> i as u8) % 2 == 1 {
                    shld64(a[i] as u64, b[i] as u64, IMM8 as u32) as i64
                } else {
                    0
                },
    {
        let full = self.shldi_i64x4::<IMM8>(a, b);
        let mut out = [0i64; 4];
        let mut i: usize = 0;
        while i < 4
            invariant
                i <= 4,
                forall|j: int| 0 <= j < 4 ==> full[j] == shld64(a[j] as u64, b[j] as u64, IMM8 as u32) as i64,
                forall|j: int| 0 <= j < i ==> out[j] == (if (mask >> j as u8) % 2 == 1 { shld64(a[j] as u64, b[j] as u64, IMM8 as u32) as i64 } else { 0 }),
            decreases 4 - i,
        {
            out[i] = if (mask >> i as u8) % 2 == 1 { full[i] } else { 0 };
            i += 1;
        }
        out
    }

    /// Funnel shift left `a:b` by `c` (`vpshldvq`, 256-bit).
    pub fn shldv_i64x4(self, a: [i64; 4], b: [i64; 4], c: [i64; 4]) -> (r: [i64; 4])
        ensures
            forall|i: int| 0 <= i < 4 ==> r[i] == shld64(a[i] as u64, b[i] as u64, c[i] as u64 as u32) as i64,
    {
        let mut out = [0i64; 4];
        let mut i: usize = 0;
        while i < 4
            invariant
                i <= 4,
                forall|j: int| 0 <= j < i ==> out[j] == shld64(a[j] as u64, b[j] as u64, c[j] as u64 as u32) as i64,
            decreases 4 - i,
        {
            out[i] = shld64_exec(a[i] as u64, b[i] as u64, c[i] as u64 as u32) as i64;
            i += 1;
        }
        out
    }

    /// `out[i] = shldv(a[i], b[i], c[i])`. 4-wide chunks, scalar remainder.
    pub fn shldv_i64_slice_wide(self, a: &[i64], b: &[i64], c: &[i64], out: &mut [i64])
        requires
            b@.len() == a@.len(),
            c@.len() == a@.len(),
            old(out)@.len() == a@.len(),
        ensures
            final(out)@.len() == a@.len(),
            forall|i: int| 0 <= i < a@.len() ==> final(out)@[i] == shld64(a@[i] as u64, b@[i] as u64, c@[i] as u64 as u32) as i64,
    {
        let len = a.len();
        let mut i: usize = 0;
        while len - i >= 4
            invariant
                i <= len,
                len == a@.len(),
                len == b@.len(),
                len == c@.len(),
                out@.len() == len,
                forall|j: int| 0 <= j < i ==> out@[j] == shld64(a@[j] as u64, b@[j] as u64, c@[j] as u64 as u32) as i64,
            decreases len - i,
        {
            let r = self.shldv_i64x4(loadu_i64x4(a, i), loadu_i64x4(b, i), loadu_i64x4(c, i));
            storeu_i64x4(out, i, r);
            i += 4;
        }
        while i < len
            invariant
                i <= len,
                len == a@.len(),
                len == b@.len(),
                len == c@.len(),
                out@.len() == len,
                forall|j: int| 0 <= j < i ==> out@[j] == shld64(a@[j] as u64, b@[j] as u64, c@[j] as u64 as u32) as i64,
            decreases len - i,
        {
            out[i] = shld64_exec(a[i] as u64, b[i] as u64, c[i] as u64 as u32) as i64;
            i += 1;
        }
    }

    /// [`Avx512Vbmi2Vl::shldv_i64x4`] where `mask` bit is set, else copied from `a` (`vpshldvq`, merge-masked).
    pub fn shldv_i64x4_merge_masked(self, a: [i64; 4], mask: u8, b: [i64; 4], c: [i64; 4]) -> (r: [i64; 4])
        ensures
            forall|i: int|
                0 <= i < 4 ==> r[i] == if (mask >> i as u8) % 2 == 1 {
                    shld64(a[i] as u64, b[i] as u64, c[i] as u64 as u32) as i64
                } else {
                    a[i]
                },
    {
        let full = self.shldv_i64x4(a, b, c);
        let mut out = [0i64; 4];
        let mut i: usize = 0;
        while i < 4
            invariant
                i <= 4,
                forall|j: int| 0 <= j < 4 ==> full[j] == shld64(a[j] as u64, b[j] as u64, c[j] as u64 as u32) as i64,
                forall|j: int| 0 <= j < i ==> out[j] == (if (mask >> j as u8) % 2 == 1 { shld64(a[j] as u64, b[j] as u64, c[j] as u64 as u32) as i64 } else { a[j] }),
            decreases 4 - i,
        {
            out[i] = if (mask >> i as u8) % 2 == 1 { full[i] } else { a[i] };
            i += 1;
        }
        out
    }

    /// [`Avx512Vbmi2Vl::shldv_i64x4`] where `mask` bit is set, else zero (`vpshldvq`, zero-masked).
    pub fn shldv_i64x4_zero_masked(self, mask: u8, a: [i64; 4], b: [i64; 4], c: [i64; 4]) -> (r: [i64; 4])
        ensures
            forall|i: int|
                0 <= i < 4 ==> r[i] == if (mask >> i as u8) % 2 == 1 {
                    shld64(a[i] as u64, b[i] as u64, c[i] as u64 as u32) as i64
                } else {
                    0
                },
    {
        let full = self.shldv_i64x4(a, b, c);
        let mut out = [0i64; 4];
        let mut i: usize = 0;
        while i < 4
            invariant
                i <= 4,
                forall|j: int| 0 <= j < 4 ==> full[j] == shld64(a[j] as u64, b[j] as u64, c[j] as u64 as u32) as i64,
                forall|j: int| 0 <= j < i ==> out[j] == (if (mask >> j as u8) % 2 == 1 { shld64(a[j] as u64, b[j] as u64, c[j] as u64 as u32) as i64 } else { 0 }),
            decreases 4 - i,
        {
            out[i] = if (mask >> i as u8) % 2 == 1 { full[i] } else { 0 };
            i += 1;
        }
        out
    }

    /// Funnel shift right `b:a` by `IMM8` (`vpshrdq`, 256-bit).
    pub fn shrdi_i64x4<const IMM8: u8>(self, a: [i64; 4], b: [i64; 4]) -> (r: [i64; 4])
        ensures
            forall|i: int| 0 <= i < 4 ==> r[i] == shrd64(a[i] as u64, b[i] as u64, IMM8 as u32) as i64,
    {
        let mut out = [0i64; 4];
        let mut i: usize = 0;
        while i < 4
            invariant
                i <= 4,
                forall|j: int| 0 <= j < i ==> out[j] == shrd64(a[j] as u64, b[j] as u64, IMM8 as u32) as i64,
            decreases 4 - i,
        {
            out[i] = shrd64_exec(a[i] as u64, b[i] as u64, IMM8 as u32) as i64;
            i += 1;
        }
        out
    }

    /// `out[i] = shrdi(a[i], b[i], IMM8)`. 4-wide chunks, scalar remainder.
    pub fn shrdi_i64_slice_wide<const IMM8: u8>(self, a: &[i64], b: &[i64], out: &mut [i64])
        requires
            b@.len() == a@.len(),
            old(out)@.len() == a@.len(),
        ensures
            final(out)@.len() == a@.len(),
            forall|i: int| 0 <= i < a@.len() ==> final(out)@[i] == shrd64(a@[i] as u64, b@[i] as u64, IMM8 as u32) as i64,
    {
        let len = a.len();
        let mut i: usize = 0;
        while len - i >= 4
            invariant
                i <= len,
                len == a@.len(),
                len == b@.len(),
                out@.len() == len,
                forall|j: int| 0 <= j < i ==> out@[j] == shrd64(a@[j] as u64, b@[j] as u64, IMM8 as u32) as i64,
            decreases len - i,
        {
            let r = self.shrdi_i64x4::<IMM8>(loadu_i64x4(a, i), loadu_i64x4(b, i));
            storeu_i64x4(out, i, r);
            i += 4;
        }
        while i < len
            invariant
                i <= len,
                len == a@.len(),
                len == b@.len(),
                out@.len() == len,
                forall|j: int| 0 <= j < i ==> out@[j] == shrd64(a@[j] as u64, b@[j] as u64, IMM8 as u32) as i64,
            decreases len - i,
        {
            out[i] = shrd64_exec(a[i] as u64, b[i] as u64, IMM8 as u32) as i64;
            i += 1;
        }
    }

    /// [`Avx512Vbmi2Vl::shrdi_i64x4`] where `mask` bit is set, else copied from `src` (`vpshrdq`, merge-masked).
    pub fn shrdi_i64x4_merge_masked<const IMM8: u8>(self, src: [i64; 4], mask: u8, a: [i64; 4], b: [i64; 4]) -> (r: [i64; 4])
        ensures
            forall|i: int|
                0 <= i < 4 ==> r[i] == if (mask >> i as u8) % 2 == 1 {
                    shrd64(a[i] as u64, b[i] as u64, IMM8 as u32) as i64
                } else {
                    src[i]
                },
    {
        let full = self.shrdi_i64x4::<IMM8>(a, b);
        let mut out = [0i64; 4];
        let mut i: usize = 0;
        while i < 4
            invariant
                i <= 4,
                forall|j: int| 0 <= j < 4 ==> full[j] == shrd64(a[j] as u64, b[j] as u64, IMM8 as u32) as i64,
                forall|j: int| 0 <= j < i ==> out[j] == (if (mask >> j as u8) % 2 == 1 { shrd64(a[j] as u64, b[j] as u64, IMM8 as u32) as i64 } else { src[j] }),
            decreases 4 - i,
        {
            out[i] = if (mask >> i as u8) % 2 == 1 { full[i] } else { src[i] };
            i += 1;
        }
        out
    }

    /// [`Avx512Vbmi2Vl::shrdi_i64x4`] where `mask` bit is set, else zero (`vpshrdq`, zero-masked).
    pub fn shrdi_i64x4_zero_masked<const IMM8: u8>(self, mask: u8, a: [i64; 4], b: [i64; 4]) -> (r: [i64; 4])
        ensures
            forall|i: int|
                0 <= i < 4 ==> r[i] == if (mask >> i as u8) % 2 == 1 {
                    shrd64(a[i] as u64, b[i] as u64, IMM8 as u32) as i64
                } else {
                    0
                },
    {
        let full = self.shrdi_i64x4::<IMM8>(a, b);
        let mut out = [0i64; 4];
        let mut i: usize = 0;
        while i < 4
            invariant
                i <= 4,
                forall|j: int| 0 <= j < 4 ==> full[j] == shrd64(a[j] as u64, b[j] as u64, IMM8 as u32) as i64,
                forall|j: int| 0 <= j < i ==> out[j] == (if (mask >> j as u8) % 2 == 1 { shrd64(a[j] as u64, b[j] as u64, IMM8 as u32) as i64 } else { 0 }),
            decreases 4 - i,
        {
            out[i] = if (mask >> i as u8) % 2 == 1 { full[i] } else { 0 };
            i += 1;
        }
        out
    }

    /// Funnel shift right `b:a` by `c` (`vpshrdvq`, 256-bit).
    pub fn shrdv_i64x4(self, a: [i64; 4], b: [i64; 4], c: [i64; 4]) -> (r: [i64; 4])
        ensures
            forall|i: int| 0 <= i < 4 ==> r[i] == shrd64(a[i] as u64, b[i] as u64, c[i] as u64 as u32) as i64,
    {
        let mut out = [0i64; 4];
        let mut i: usize = 0;
        while i < 4
            invariant
                i <= 4,
                forall|j: int| 0 <= j < i ==> out[j] == shrd64(a[j] as u64, b[j] as u64, c[j] as u64 as u32) as i64,
            decreases 4 - i,
        {
            out[i] = shrd64_exec(a[i] as u64, b[i] as u64, c[i] as u64 as u32) as i64;
            i += 1;
        }
        out
    }

    /// `out[i] = shrdv(a[i], b[i], c[i])`. 4-wide chunks, scalar remainder.
    pub fn shrdv_i64_slice_wide(self, a: &[i64], b: &[i64], c: &[i64], out: &mut [i64])
        requires
            b@.len() == a@.len(),
            c@.len() == a@.len(),
            old(out)@.len() == a@.len(),
        ensures
            final(out)@.len() == a@.len(),
            forall|i: int| 0 <= i < a@.len() ==> final(out)@[i] == shrd64(a@[i] as u64, b@[i] as u64, c@[i] as u64 as u32) as i64,
    {
        let len = a.len();
        let mut i: usize = 0;
        while len - i >= 4
            invariant
                i <= len,
                len == a@.len(),
                len == b@.len(),
                len == c@.len(),
                out@.len() == len,
                forall|j: int| 0 <= j < i ==> out@[j] == shrd64(a@[j] as u64, b@[j] as u64, c@[j] as u64 as u32) as i64,
            decreases len - i,
        {
            let r = self.shrdv_i64x4(loadu_i64x4(a, i), loadu_i64x4(b, i), loadu_i64x4(c, i));
            storeu_i64x4(out, i, r);
            i += 4;
        }
        while i < len
            invariant
                i <= len,
                len == a@.len(),
                len == b@.len(),
                len == c@.len(),
                out@.len() == len,
                forall|j: int| 0 <= j < i ==> out@[j] == shrd64(a@[j] as u64, b@[j] as u64, c@[j] as u64 as u32) as i64,
            decreases len - i,
        {
            out[i] = shrd64_exec(a[i] as u64, b[i] as u64, c[i] as u64 as u32) as i64;
            i += 1;
        }
    }

    /// [`Avx512Vbmi2Vl::shrdv_i64x4`] where `mask` bit is set, else copied from `a` (`vpshrdvq`, merge-masked).
    pub fn shrdv_i64x4_merge_masked(self, a: [i64; 4], mask: u8, b: [i64; 4], c: [i64; 4]) -> (r: [i64; 4])
        ensures
            forall|i: int|
                0 <= i < 4 ==> r[i] == if (mask >> i as u8) % 2 == 1 {
                    shrd64(a[i] as u64, b[i] as u64, c[i] as u64 as u32) as i64
                } else {
                    a[i]
                },
    {
        let full = self.shrdv_i64x4(a, b, c);
        let mut out = [0i64; 4];
        let mut i: usize = 0;
        while i < 4
            invariant
                i <= 4,
                forall|j: int| 0 <= j < 4 ==> full[j] == shrd64(a[j] as u64, b[j] as u64, c[j] as u64 as u32) as i64,
                forall|j: int| 0 <= j < i ==> out[j] == (if (mask >> j as u8) % 2 == 1 { shrd64(a[j] as u64, b[j] as u64, c[j] as u64 as u32) as i64 } else { a[j] }),
            decreases 4 - i,
        {
            out[i] = if (mask >> i as u8) % 2 == 1 { full[i] } else { a[i] };
            i += 1;
        }
        out
    }

    /// [`Avx512Vbmi2Vl::shrdv_i64x4`] where `mask` bit is set, else zero (`vpshrdvq`, zero-masked).
    pub fn shrdv_i64x4_zero_masked(self, mask: u8, a: [i64; 4], b: [i64; 4], c: [i64; 4]) -> (r: [i64; 4])
        ensures
            forall|i: int|
                0 <= i < 4 ==> r[i] == if (mask >> i as u8) % 2 == 1 {
                    shrd64(a[i] as u64, b[i] as u64, c[i] as u64 as u32) as i64
                } else {
                    0
                },
    {
        let full = self.shrdv_i64x4(a, b, c);
        let mut out = [0i64; 4];
        let mut i: usize = 0;
        while i < 4
            invariant
                i <= 4,
                forall|j: int| 0 <= j < 4 ==> full[j] == shrd64(a[j] as u64, b[j] as u64, c[j] as u64 as u32) as i64,
                forall|j: int| 0 <= j < i ==> out[j] == (if (mask >> j as u8) % 2 == 1 { shrd64(a[j] as u64, b[j] as u64, c[j] as u64 as u32) as i64 } else { 0 }),
            decreases 4 - i,
        {
            out[i] = if (mask >> i as u8) % 2 == 1 { full[i] } else { 0 };
            i += 1;
        }
        out
    }

    /// Funnel shift left `a:b` by `IMM8` (`vpshldq`, 128-bit).
    pub fn shldi_u64x2<const IMM8: u8>(self, a: [u64; 2], b: [u64; 2]) -> (r: [u64; 2])
        ensures
            forall|i: int| 0 <= i < 2 ==> r[i] == shld64(a[i], b[i], IMM8 as u32),
    {
        let mut out = [0u64; 2];
        let mut i: usize = 0;
        while i < 2
            invariant
                i <= 2,
                forall|j: int| 0 <= j < i ==> out[j] == shld64(a[j], b[j], IMM8 as u32),
            decreases 2 - i,
        {
            out[i] = shld64_exec(a[i], b[i], IMM8 as u32);
            i += 1;
        }
        out
    }

    /// `out[i] = shldi(a[i], b[i], IMM8)`. 2-wide chunks, scalar remainder.
    pub fn shldi_u64_slice<const IMM8: u8>(self, a: &[u64], b: &[u64], out: &mut [u64])
        requires
            b@.len() == a@.len(),
            old(out)@.len() == a@.len(),
        ensures
            final(out)@.len() == a@.len(),
            forall|i: int| 0 <= i < a@.len() ==> final(out)@[i] == shld64(a@[i], b@[i], IMM8 as u32),
    {
        let len = a.len();
        let mut i: usize = 0;
        while len - i >= 2
            invariant
                i <= len,
                len == a@.len(),
                len == b@.len(),
                out@.len() == len,
                forall|j: int| 0 <= j < i ==> out@[j] == shld64(a@[j], b@[j], IMM8 as u32),
            decreases len - i,
        {
            let r = self.shldi_u64x2::<IMM8>(loadu_u64x2(a, i), loadu_u64x2(b, i));
            storeu_u64x2(out, i, r);
            i += 2;
        }
        while i < len
            invariant
                i <= len,
                len == a@.len(),
                len == b@.len(),
                out@.len() == len,
                forall|j: int| 0 <= j < i ==> out@[j] == shld64(a@[j], b@[j], IMM8 as u32),
            decreases len - i,
        {
            out[i] = shld64_exec(a[i], b[i], IMM8 as u32);
            i += 1;
        }
    }

    /// [`Avx512Vbmi2Vl::shldi_u64x2`] where `mask` bit is set, else copied from `src` (`vpshldq`, merge-masked).
    pub fn shldi_u64x2_merge_masked<const IMM8: u8>(self, src: [u64; 2], mask: u8, a: [u64; 2], b: [u64; 2]) -> (r: [u64; 2])
        ensures
            forall|i: int|
                0 <= i < 2 ==> r[i] == if (mask >> i as u8) % 2 == 1 {
                    shld64(a[i], b[i], IMM8 as u32)
                } else {
                    src[i]
                },
    {
        let full = self.shldi_u64x2::<IMM8>(a, b);
        let mut out = [0u64; 2];
        let mut i: usize = 0;
        while i < 2
            invariant
                i <= 2,
                forall|j: int| 0 <= j < 2 ==> full[j] == shld64(a[j], b[j], IMM8 as u32),
                forall|j: int| 0 <= j < i ==> out[j] == (if (mask >> j as u8) % 2 == 1 { shld64(a[j], b[j], IMM8 as u32) } else { src[j] }),
            decreases 2 - i,
        {
            out[i] = if (mask >> i as u8) % 2 == 1 { full[i] } else { src[i] };
            i += 1;
        }
        out
    }

    /// [`Avx512Vbmi2Vl::shldi_u64x2`] where `mask` bit is set, else zero (`vpshldq`, zero-masked).
    pub fn shldi_u64x2_zero_masked<const IMM8: u8>(self, mask: u8, a: [u64; 2], b: [u64; 2]) -> (r: [u64; 2])
        ensures
            forall|i: int|
                0 <= i < 2 ==> r[i] == if (mask >> i as u8) % 2 == 1 {
                    shld64(a[i], b[i], IMM8 as u32)
                } else {
                    0
                },
    {
        let full = self.shldi_u64x2::<IMM8>(a, b);
        let mut out = [0u64; 2];
        let mut i: usize = 0;
        while i < 2
            invariant
                i <= 2,
                forall|j: int| 0 <= j < 2 ==> full[j] == shld64(a[j], b[j], IMM8 as u32),
                forall|j: int| 0 <= j < i ==> out[j] == (if (mask >> j as u8) % 2 == 1 { shld64(a[j], b[j], IMM8 as u32) } else { 0 }),
            decreases 2 - i,
        {
            out[i] = if (mask >> i as u8) % 2 == 1 { full[i] } else { 0 };
            i += 1;
        }
        out
    }

    /// Funnel shift left `a:b` by `c` (`vpshldvq`, 128-bit).
    pub fn shldv_u64x2(self, a: [u64; 2], b: [u64; 2], c: [u64; 2]) -> (r: [u64; 2])
        ensures
            forall|i: int| 0 <= i < 2 ==> r[i] == shld64(a[i], b[i], c[i] as u32),
    {
        let mut out = [0u64; 2];
        let mut i: usize = 0;
        while i < 2
            invariant
                i <= 2,
                forall|j: int| 0 <= j < i ==> out[j] == shld64(a[j], b[j], c[j] as u32),
            decreases 2 - i,
        {
            out[i] = shld64_exec(a[i], b[i], c[i] as u32);
            i += 1;
        }
        out
    }

    /// `out[i] = shldv(a[i], b[i], c[i])`. 2-wide chunks, scalar remainder.
    pub fn shldv_u64_slice(self, a: &[u64], b: &[u64], c: &[u64], out: &mut [u64])
        requires
            b@.len() == a@.len(),
            c@.len() == a@.len(),
            old(out)@.len() == a@.len(),
        ensures
            final(out)@.len() == a@.len(),
            forall|i: int| 0 <= i < a@.len() ==> final(out)@[i] == shld64(a@[i], b@[i], c@[i] as u32),
    {
        let len = a.len();
        let mut i: usize = 0;
        while len - i >= 2
            invariant
                i <= len,
                len == a@.len(),
                len == b@.len(),
                len == c@.len(),
                out@.len() == len,
                forall|j: int| 0 <= j < i ==> out@[j] == shld64(a@[j], b@[j], c@[j] as u32),
            decreases len - i,
        {
            let r = self.shldv_u64x2(loadu_u64x2(a, i), loadu_u64x2(b, i), loadu_u64x2(c, i));
            storeu_u64x2(out, i, r);
            i += 2;
        }
        while i < len
            invariant
                i <= len,
                len == a@.len(),
                len == b@.len(),
                len == c@.len(),
                out@.len() == len,
                forall|j: int| 0 <= j < i ==> out@[j] == shld64(a@[j], b@[j], c@[j] as u32),
            decreases len - i,
        {
            out[i] = shld64_exec(a[i], b[i], c[i] as u32);
            i += 1;
        }
    }

    /// [`Avx512Vbmi2Vl::shldv_u64x2`] where `mask` bit is set, else copied from `a` (`vpshldvq`, merge-masked).
    pub fn shldv_u64x2_merge_masked(self, a: [u64; 2], mask: u8, b: [u64; 2], c: [u64; 2]) -> (r: [u64; 2])
        ensures
            forall|i: int|
                0 <= i < 2 ==> r[i] == if (mask >> i as u8) % 2 == 1 {
                    shld64(a[i], b[i], c[i] as u32)
                } else {
                    a[i]
                },
    {
        let full = self.shldv_u64x2(a, b, c);
        let mut out = [0u64; 2];
        let mut i: usize = 0;
        while i < 2
            invariant
                i <= 2,
                forall|j: int| 0 <= j < 2 ==> full[j] == shld64(a[j], b[j], c[j] as u32),
                forall|j: int| 0 <= j < i ==> out[j] == (if (mask >> j as u8) % 2 == 1 { shld64(a[j], b[j], c[j] as u32) } else { a[j] }),
            decreases 2 - i,
        {
            out[i] = if (mask >> i as u8) % 2 == 1 { full[i] } else { a[i] };
            i += 1;
        }
        out
    }

    /// [`Avx512Vbmi2Vl::shldv_u64x2`] where `mask` bit is set, else zero (`vpshldvq`, zero-masked).
    pub fn shldv_u64x2_zero_masked(self, mask: u8, a: [u64; 2], b: [u64; 2], c: [u64; 2]) -> (r: [u64; 2])
        ensures
            forall|i: int|
                0 <= i < 2 ==> r[i] == if (mask >> i as u8) % 2 == 1 {
                    shld64(a[i], b[i], c[i] as u32)
                } else {
                    0
                },
    {
        let full = self.shldv_u64x2(a, b, c);
        let mut out = [0u64; 2];
        let mut i: usize = 0;
        while i < 2
            invariant
                i <= 2,
                forall|j: int| 0 <= j < 2 ==> full[j] == shld64(a[j], b[j], c[j] as u32),
                forall|j: int| 0 <= j < i ==> out[j] == (if (mask >> j as u8) % 2 == 1 { shld64(a[j], b[j], c[j] as u32) } else { 0 }),
            decreases 2 - i,
        {
            out[i] = if (mask >> i as u8) % 2 == 1 { full[i] } else { 0 };
            i += 1;
        }
        out
    }

    /// Funnel shift right `b:a` by `IMM8` (`vpshrdq`, 128-bit).
    pub fn shrdi_u64x2<const IMM8: u8>(self, a: [u64; 2], b: [u64; 2]) -> (r: [u64; 2])
        ensures
            forall|i: int| 0 <= i < 2 ==> r[i] == shrd64(a[i], b[i], IMM8 as u32),
    {
        let mut out = [0u64; 2];
        let mut i: usize = 0;
        while i < 2
            invariant
                i <= 2,
                forall|j: int| 0 <= j < i ==> out[j] == shrd64(a[j], b[j], IMM8 as u32),
            decreases 2 - i,
        {
            out[i] = shrd64_exec(a[i], b[i], IMM8 as u32);
            i += 1;
        }
        out
    }

    /// `out[i] = shrdi(a[i], b[i], IMM8)`. 2-wide chunks, scalar remainder.
    pub fn shrdi_u64_slice<const IMM8: u8>(self, a: &[u64], b: &[u64], out: &mut [u64])
        requires
            b@.len() == a@.len(),
            old(out)@.len() == a@.len(),
        ensures
            final(out)@.len() == a@.len(),
            forall|i: int| 0 <= i < a@.len() ==> final(out)@[i] == shrd64(a@[i], b@[i], IMM8 as u32),
    {
        let len = a.len();
        let mut i: usize = 0;
        while len - i >= 2
            invariant
                i <= len,
                len == a@.len(),
                len == b@.len(),
                out@.len() == len,
                forall|j: int| 0 <= j < i ==> out@[j] == shrd64(a@[j], b@[j], IMM8 as u32),
            decreases len - i,
        {
            let r = self.shrdi_u64x2::<IMM8>(loadu_u64x2(a, i), loadu_u64x2(b, i));
            storeu_u64x2(out, i, r);
            i += 2;
        }
        while i < len
            invariant
                i <= len,
                len == a@.len(),
                len == b@.len(),
                out@.len() == len,
                forall|j: int| 0 <= j < i ==> out@[j] == shrd64(a@[j], b@[j], IMM8 as u32),
            decreases len - i,
        {
            out[i] = shrd64_exec(a[i], b[i], IMM8 as u32);
            i += 1;
        }
    }

    /// [`Avx512Vbmi2Vl::shrdi_u64x2`] where `mask` bit is set, else copied from `src` (`vpshrdq`, merge-masked).
    pub fn shrdi_u64x2_merge_masked<const IMM8: u8>(self, src: [u64; 2], mask: u8, a: [u64; 2], b: [u64; 2]) -> (r: [u64; 2])
        ensures
            forall|i: int|
                0 <= i < 2 ==> r[i] == if (mask >> i as u8) % 2 == 1 {
                    shrd64(a[i], b[i], IMM8 as u32)
                } else {
                    src[i]
                },
    {
        let full = self.shrdi_u64x2::<IMM8>(a, b);
        let mut out = [0u64; 2];
        let mut i: usize = 0;
        while i < 2
            invariant
                i <= 2,
                forall|j: int| 0 <= j < 2 ==> full[j] == shrd64(a[j], b[j], IMM8 as u32),
                forall|j: int| 0 <= j < i ==> out[j] == (if (mask >> j as u8) % 2 == 1 { shrd64(a[j], b[j], IMM8 as u32) } else { src[j] }),
            decreases 2 - i,
        {
            out[i] = if (mask >> i as u8) % 2 == 1 { full[i] } else { src[i] };
            i += 1;
        }
        out
    }

    /// [`Avx512Vbmi2Vl::shrdi_u64x2`] where `mask` bit is set, else zero (`vpshrdq`, zero-masked).
    pub fn shrdi_u64x2_zero_masked<const IMM8: u8>(self, mask: u8, a: [u64; 2], b: [u64; 2]) -> (r: [u64; 2])
        ensures
            forall|i: int|
                0 <= i < 2 ==> r[i] == if (mask >> i as u8) % 2 == 1 {
                    shrd64(a[i], b[i], IMM8 as u32)
                } else {
                    0
                },
    {
        let full = self.shrdi_u64x2::<IMM8>(a, b);
        let mut out = [0u64; 2];
        let mut i: usize = 0;
        while i < 2
            invariant
                i <= 2,
                forall|j: int| 0 <= j < 2 ==> full[j] == shrd64(a[j], b[j], IMM8 as u32),
                forall|j: int| 0 <= j < i ==> out[j] == (if (mask >> j as u8) % 2 == 1 { shrd64(a[j], b[j], IMM8 as u32) } else { 0 }),
            decreases 2 - i,
        {
            out[i] = if (mask >> i as u8) % 2 == 1 { full[i] } else { 0 };
            i += 1;
        }
        out
    }

    /// Funnel shift right `b:a` by `c` (`vpshrdvq`, 128-bit).
    pub fn shrdv_u64x2(self, a: [u64; 2], b: [u64; 2], c: [u64; 2]) -> (r: [u64; 2])
        ensures
            forall|i: int| 0 <= i < 2 ==> r[i] == shrd64(a[i], b[i], c[i] as u32),
    {
        let mut out = [0u64; 2];
        let mut i: usize = 0;
        while i < 2
            invariant
                i <= 2,
                forall|j: int| 0 <= j < i ==> out[j] == shrd64(a[j], b[j], c[j] as u32),
            decreases 2 - i,
        {
            out[i] = shrd64_exec(a[i], b[i], c[i] as u32);
            i += 1;
        }
        out
    }

    /// `out[i] = shrdv(a[i], b[i], c[i])`. 2-wide chunks, scalar remainder.
    pub fn shrdv_u64_slice(self, a: &[u64], b: &[u64], c: &[u64], out: &mut [u64])
        requires
            b@.len() == a@.len(),
            c@.len() == a@.len(),
            old(out)@.len() == a@.len(),
        ensures
            final(out)@.len() == a@.len(),
            forall|i: int| 0 <= i < a@.len() ==> final(out)@[i] == shrd64(a@[i], b@[i], c@[i] as u32),
    {
        let len = a.len();
        let mut i: usize = 0;
        while len - i >= 2
            invariant
                i <= len,
                len == a@.len(),
                len == b@.len(),
                len == c@.len(),
                out@.len() == len,
                forall|j: int| 0 <= j < i ==> out@[j] == shrd64(a@[j], b@[j], c@[j] as u32),
            decreases len - i,
        {
            let r = self.shrdv_u64x2(loadu_u64x2(a, i), loadu_u64x2(b, i), loadu_u64x2(c, i));
            storeu_u64x2(out, i, r);
            i += 2;
        }
        while i < len
            invariant
                i <= len,
                len == a@.len(),
                len == b@.len(),
                len == c@.len(),
                out@.len() == len,
                forall|j: int| 0 <= j < i ==> out@[j] == shrd64(a@[j], b@[j], c@[j] as u32),
            decreases len - i,
        {
            out[i] = shrd64_exec(a[i], b[i], c[i] as u32);
            i += 1;
        }
    }

    /// [`Avx512Vbmi2Vl::shrdv_u64x2`] where `mask` bit is set, else copied from `a` (`vpshrdvq`, merge-masked).
    pub fn shrdv_u64x2_merge_masked(self, a: [u64; 2], mask: u8, b: [u64; 2], c: [u64; 2]) -> (r: [u64; 2])
        ensures
            forall|i: int|
                0 <= i < 2 ==> r[i] == if (mask >> i as u8) % 2 == 1 {
                    shrd64(a[i], b[i], c[i] as u32)
                } else {
                    a[i]
                },
    {
        let full = self.shrdv_u64x2(a, b, c);
        let mut out = [0u64; 2];
        let mut i: usize = 0;
        while i < 2
            invariant
                i <= 2,
                forall|j: int| 0 <= j < 2 ==> full[j] == shrd64(a[j], b[j], c[j] as u32),
                forall|j: int| 0 <= j < i ==> out[j] == (if (mask >> j as u8) % 2 == 1 { shrd64(a[j], b[j], c[j] as u32) } else { a[j] }),
            decreases 2 - i,
        {
            out[i] = if (mask >> i as u8) % 2 == 1 { full[i] } else { a[i] };
            i += 1;
        }
        out
    }

    /// [`Avx512Vbmi2Vl::shrdv_u64x2`] where `mask` bit is set, else zero (`vpshrdvq`, zero-masked).
    pub fn shrdv_u64x2_zero_masked(self, mask: u8, a: [u64; 2], b: [u64; 2], c: [u64; 2]) -> (r: [u64; 2])
        ensures
            forall|i: int|
                0 <= i < 2 ==> r[i] == if (mask >> i as u8) % 2 == 1 {
                    shrd64(a[i], b[i], c[i] as u32)
                } else {
                    0
                },
    {
        let full = self.shrdv_u64x2(a, b, c);
        let mut out = [0u64; 2];
        let mut i: usize = 0;
        while i < 2
            invariant
                i <= 2,
                forall|j: int| 0 <= j < 2 ==> full[j] == shrd64(a[j], b[j], c[j] as u32),
                forall|j: int| 0 <= j < i ==> out[j] == (if (mask >> j as u8) % 2 == 1 { shrd64(a[j], b[j], c[j] as u32) } else { 0 }),
            decreases 2 - i,
        {
            out[i] = if (mask >> i as u8) % 2 == 1 { full[i] } else { 0 };
            i += 1;
        }
        out
    }

    /// Funnel shift left `a:b` by `IMM8` (`vpshldq`, 256-bit).
    pub fn shldi_u64x4<const IMM8: u8>(self, a: [u64; 4], b: [u64; 4]) -> (r: [u64; 4])
        ensures
            forall|i: int| 0 <= i < 4 ==> r[i] == shld64(a[i], b[i], IMM8 as u32),
    {
        let mut out = [0u64; 4];
        let mut i: usize = 0;
        while i < 4
            invariant
                i <= 4,
                forall|j: int| 0 <= j < i ==> out[j] == shld64(a[j], b[j], IMM8 as u32),
            decreases 4 - i,
        {
            out[i] = shld64_exec(a[i], b[i], IMM8 as u32);
            i += 1;
        }
        out
    }

    /// `out[i] = shldi(a[i], b[i], IMM8)`. 4-wide chunks, scalar remainder.
    pub fn shldi_u64_slice_wide<const IMM8: u8>(self, a: &[u64], b: &[u64], out: &mut [u64])
        requires
            b@.len() == a@.len(),
            old(out)@.len() == a@.len(),
        ensures
            final(out)@.len() == a@.len(),
            forall|i: int| 0 <= i < a@.len() ==> final(out)@[i] == shld64(a@[i], b@[i], IMM8 as u32),
    {
        let len = a.len();
        let mut i: usize = 0;
        while len - i >= 4
            invariant
                i <= len,
                len == a@.len(),
                len == b@.len(),
                out@.len() == len,
                forall|j: int| 0 <= j < i ==> out@[j] == shld64(a@[j], b@[j], IMM8 as u32),
            decreases len - i,
        {
            let r = self.shldi_u64x4::<IMM8>(loadu_u64x4(a, i), loadu_u64x4(b, i));
            storeu_u64x4(out, i, r);
            i += 4;
        }
        while i < len
            invariant
                i <= len,
                len == a@.len(),
                len == b@.len(),
                out@.len() == len,
                forall|j: int| 0 <= j < i ==> out@[j] == shld64(a@[j], b@[j], IMM8 as u32),
            decreases len - i,
        {
            out[i] = shld64_exec(a[i], b[i], IMM8 as u32);
            i += 1;
        }
    }

    /// [`Avx512Vbmi2Vl::shldi_u64x4`] where `mask` bit is set, else copied from `src` (`vpshldq`, merge-masked).
    pub fn shldi_u64x4_merge_masked<const IMM8: u8>(self, src: [u64; 4], mask: u8, a: [u64; 4], b: [u64; 4]) -> (r: [u64; 4])
        ensures
            forall|i: int|
                0 <= i < 4 ==> r[i] == if (mask >> i as u8) % 2 == 1 {
                    shld64(a[i], b[i], IMM8 as u32)
                } else {
                    src[i]
                },
    {
        let full = self.shldi_u64x4::<IMM8>(a, b);
        let mut out = [0u64; 4];
        let mut i: usize = 0;
        while i < 4
            invariant
                i <= 4,
                forall|j: int| 0 <= j < 4 ==> full[j] == shld64(a[j], b[j], IMM8 as u32),
                forall|j: int| 0 <= j < i ==> out[j] == (if (mask >> j as u8) % 2 == 1 { shld64(a[j], b[j], IMM8 as u32) } else { src[j] }),
            decreases 4 - i,
        {
            out[i] = if (mask >> i as u8) % 2 == 1 { full[i] } else { src[i] };
            i += 1;
        }
        out
    }

    /// [`Avx512Vbmi2Vl::shldi_u64x4`] where `mask` bit is set, else zero (`vpshldq`, zero-masked).
    pub fn shldi_u64x4_zero_masked<const IMM8: u8>(self, mask: u8, a: [u64; 4], b: [u64; 4]) -> (r: [u64; 4])
        ensures
            forall|i: int|
                0 <= i < 4 ==> r[i] == if (mask >> i as u8) % 2 == 1 {
                    shld64(a[i], b[i], IMM8 as u32)
                } else {
                    0
                },
    {
        let full = self.shldi_u64x4::<IMM8>(a, b);
        let mut out = [0u64; 4];
        let mut i: usize = 0;
        while i < 4
            invariant
                i <= 4,
                forall|j: int| 0 <= j < 4 ==> full[j] == shld64(a[j], b[j], IMM8 as u32),
                forall|j: int| 0 <= j < i ==> out[j] == (if (mask >> j as u8) % 2 == 1 { shld64(a[j], b[j], IMM8 as u32) } else { 0 }),
            decreases 4 - i,
        {
            out[i] = if (mask >> i as u8) % 2 == 1 { full[i] } else { 0 };
            i += 1;
        }
        out
    }

    /// Funnel shift left `a:b` by `c` (`vpshldvq`, 256-bit).
    pub fn shldv_u64x4(self, a: [u64; 4], b: [u64; 4], c: [u64; 4]) -> (r: [u64; 4])
        ensures
            forall|i: int| 0 <= i < 4 ==> r[i] == shld64(a[i], b[i], c[i] as u32),
    {
        let mut out = [0u64; 4];
        let mut i: usize = 0;
        while i < 4
            invariant
                i <= 4,
                forall|j: int| 0 <= j < i ==> out[j] == shld64(a[j], b[j], c[j] as u32),
            decreases 4 - i,
        {
            out[i] = shld64_exec(a[i], b[i], c[i] as u32);
            i += 1;
        }
        out
    }

    /// `out[i] = shldv(a[i], b[i], c[i])`. 4-wide chunks, scalar remainder.
    pub fn shldv_u64_slice_wide(self, a: &[u64], b: &[u64], c: &[u64], out: &mut [u64])
        requires
            b@.len() == a@.len(),
            c@.len() == a@.len(),
            old(out)@.len() == a@.len(),
        ensures
            final(out)@.len() == a@.len(),
            forall|i: int| 0 <= i < a@.len() ==> final(out)@[i] == shld64(a@[i], b@[i], c@[i] as u32),
    {
        let len = a.len();
        let mut i: usize = 0;
        while len - i >= 4
            invariant
                i <= len,
                len == a@.len(),
                len == b@.len(),
                len == c@.len(),
                out@.len() == len,
                forall|j: int| 0 <= j < i ==> out@[j] == shld64(a@[j], b@[j], c@[j] as u32),
            decreases len - i,
        {
            let r = self.shldv_u64x4(loadu_u64x4(a, i), loadu_u64x4(b, i), loadu_u64x4(c, i));
            storeu_u64x4(out, i, r);
            i += 4;
        }
        while i < len
            invariant
                i <= len,
                len == a@.len(),
                len == b@.len(),
                len == c@.len(),
                out@.len() == len,
                forall|j: int| 0 <= j < i ==> out@[j] == shld64(a@[j], b@[j], c@[j] as u32),
            decreases len - i,
        {
            out[i] = shld64_exec(a[i], b[i], c[i] as u32);
            i += 1;
        }
    }

    /// [`Avx512Vbmi2Vl::shldv_u64x4`] where `mask` bit is set, else copied from `a` (`vpshldvq`, merge-masked).
    pub fn shldv_u64x4_merge_masked(self, a: [u64; 4], mask: u8, b: [u64; 4], c: [u64; 4]) -> (r: [u64; 4])
        ensures
            forall|i: int|
                0 <= i < 4 ==> r[i] == if (mask >> i as u8) % 2 == 1 {
                    shld64(a[i], b[i], c[i] as u32)
                } else {
                    a[i]
                },
    {
        let full = self.shldv_u64x4(a, b, c);
        let mut out = [0u64; 4];
        let mut i: usize = 0;
        while i < 4
            invariant
                i <= 4,
                forall|j: int| 0 <= j < 4 ==> full[j] == shld64(a[j], b[j], c[j] as u32),
                forall|j: int| 0 <= j < i ==> out[j] == (if (mask >> j as u8) % 2 == 1 { shld64(a[j], b[j], c[j] as u32) } else { a[j] }),
            decreases 4 - i,
        {
            out[i] = if (mask >> i as u8) % 2 == 1 { full[i] } else { a[i] };
            i += 1;
        }
        out
    }

    /// [`Avx512Vbmi2Vl::shldv_u64x4`] where `mask` bit is set, else zero (`vpshldvq`, zero-masked).
    pub fn shldv_u64x4_zero_masked(self, mask: u8, a: [u64; 4], b: [u64; 4], c: [u64; 4]) -> (r: [u64; 4])
        ensures
            forall|i: int|
                0 <= i < 4 ==> r[i] == if (mask >> i as u8) % 2 == 1 {
                    shld64(a[i], b[i], c[i] as u32)
                } else {
                    0
                },
    {
        let full = self.shldv_u64x4(a, b, c);
        let mut out = [0u64; 4];
        let mut i: usize = 0;
        while i < 4
            invariant
                i <= 4,
                forall|j: int| 0 <= j < 4 ==> full[j] == shld64(a[j], b[j], c[j] as u32),
                forall|j: int| 0 <= j < i ==> out[j] == (if (mask >> j as u8) % 2 == 1 { shld64(a[j], b[j], c[j] as u32) } else { 0 }),
            decreases 4 - i,
        {
            out[i] = if (mask >> i as u8) % 2 == 1 { full[i] } else { 0 };
            i += 1;
        }
        out
    }

    /// Funnel shift right `b:a` by `IMM8` (`vpshrdq`, 256-bit).
    pub fn shrdi_u64x4<const IMM8: u8>(self, a: [u64; 4], b: [u64; 4]) -> (r: [u64; 4])
        ensures
            forall|i: int| 0 <= i < 4 ==> r[i] == shrd64(a[i], b[i], IMM8 as u32),
    {
        let mut out = [0u64; 4];
        let mut i: usize = 0;
        while i < 4
            invariant
                i <= 4,
                forall|j: int| 0 <= j < i ==> out[j] == shrd64(a[j], b[j], IMM8 as u32),
            decreases 4 - i,
        {
            out[i] = shrd64_exec(a[i], b[i], IMM8 as u32);
            i += 1;
        }
        out
    }

    /// `out[i] = shrdi(a[i], b[i], IMM8)`. 4-wide chunks, scalar remainder.
    pub fn shrdi_u64_slice_wide<const IMM8: u8>(self, a: &[u64], b: &[u64], out: &mut [u64])
        requires
            b@.len() == a@.len(),
            old(out)@.len() == a@.len(),
        ensures
            final(out)@.len() == a@.len(),
            forall|i: int| 0 <= i < a@.len() ==> final(out)@[i] == shrd64(a@[i], b@[i], IMM8 as u32),
    {
        let len = a.len();
        let mut i: usize = 0;
        while len - i >= 4
            invariant
                i <= len,
                len == a@.len(),
                len == b@.len(),
                out@.len() == len,
                forall|j: int| 0 <= j < i ==> out@[j] == shrd64(a@[j], b@[j], IMM8 as u32),
            decreases len - i,
        {
            let r = self.shrdi_u64x4::<IMM8>(loadu_u64x4(a, i), loadu_u64x4(b, i));
            storeu_u64x4(out, i, r);
            i += 4;
        }
        while i < len
            invariant
                i <= len,
                len == a@.len(),
                len == b@.len(),
                out@.len() == len,
                forall|j: int| 0 <= j < i ==> out@[j] == shrd64(a@[j], b@[j], IMM8 as u32),
            decreases len - i,
        {
            out[i] = shrd64_exec(a[i], b[i], IMM8 as u32);
            i += 1;
        }
    }

    /// [`Avx512Vbmi2Vl::shrdi_u64x4`] where `mask` bit is set, else copied from `src` (`vpshrdq`, merge-masked).
    pub fn shrdi_u64x4_merge_masked<const IMM8: u8>(self, src: [u64; 4], mask: u8, a: [u64; 4], b: [u64; 4]) -> (r: [u64; 4])
        ensures
            forall|i: int|
                0 <= i < 4 ==> r[i] == if (mask >> i as u8) % 2 == 1 {
                    shrd64(a[i], b[i], IMM8 as u32)
                } else {
                    src[i]
                },
    {
        let full = self.shrdi_u64x4::<IMM8>(a, b);
        let mut out = [0u64; 4];
        let mut i: usize = 0;
        while i < 4
            invariant
                i <= 4,
                forall|j: int| 0 <= j < 4 ==> full[j] == shrd64(a[j], b[j], IMM8 as u32),
                forall|j: int| 0 <= j < i ==> out[j] == (if (mask >> j as u8) % 2 == 1 { shrd64(a[j], b[j], IMM8 as u32) } else { src[j] }),
            decreases 4 - i,
        {
            out[i] = if (mask >> i as u8) % 2 == 1 { full[i] } else { src[i] };
            i += 1;
        }
        out
    }

    /// [`Avx512Vbmi2Vl::shrdi_u64x4`] where `mask` bit is set, else zero (`vpshrdq`, zero-masked).
    pub fn shrdi_u64x4_zero_masked<const IMM8: u8>(self, mask: u8, a: [u64; 4], b: [u64; 4]) -> (r: [u64; 4])
        ensures
            forall|i: int|
                0 <= i < 4 ==> r[i] == if (mask >> i as u8) % 2 == 1 {
                    shrd64(a[i], b[i], IMM8 as u32)
                } else {
                    0
                },
    {
        let full = self.shrdi_u64x4::<IMM8>(a, b);
        let mut out = [0u64; 4];
        let mut i: usize = 0;
        while i < 4
            invariant
                i <= 4,
                forall|j: int| 0 <= j < 4 ==> full[j] == shrd64(a[j], b[j], IMM8 as u32),
                forall|j: int| 0 <= j < i ==> out[j] == (if (mask >> j as u8) % 2 == 1 { shrd64(a[j], b[j], IMM8 as u32) } else { 0 }),
            decreases 4 - i,
        {
            out[i] = if (mask >> i as u8) % 2 == 1 { full[i] } else { 0 };
            i += 1;
        }
        out
    }

    /// Funnel shift right `b:a` by `c` (`vpshrdvq`, 256-bit).
    pub fn shrdv_u64x4(self, a: [u64; 4], b: [u64; 4], c: [u64; 4]) -> (r: [u64; 4])
        ensures
            forall|i: int| 0 <= i < 4 ==> r[i] == shrd64(a[i], b[i], c[i] as u32),
    {
        let mut out = [0u64; 4];
        let mut i: usize = 0;
        while i < 4
            invariant
                i <= 4,
                forall|j: int| 0 <= j < i ==> out[j] == shrd64(a[j], b[j], c[j] as u32),
            decreases 4 - i,
        {
            out[i] = shrd64_exec(a[i], b[i], c[i] as u32);
            i += 1;
        }
        out
    }

    /// `out[i] = shrdv(a[i], b[i], c[i])`. 4-wide chunks, scalar remainder.
    pub fn shrdv_u64_slice_wide(self, a: &[u64], b: &[u64], c: &[u64], out: &mut [u64])
        requires
            b@.len() == a@.len(),
            c@.len() == a@.len(),
            old(out)@.len() == a@.len(),
        ensures
            final(out)@.len() == a@.len(),
            forall|i: int| 0 <= i < a@.len() ==> final(out)@[i] == shrd64(a@[i], b@[i], c@[i] as u32),
    {
        let len = a.len();
        let mut i: usize = 0;
        while len - i >= 4
            invariant
                i <= len,
                len == a@.len(),
                len == b@.len(),
                len == c@.len(),
                out@.len() == len,
                forall|j: int| 0 <= j < i ==> out@[j] == shrd64(a@[j], b@[j], c@[j] as u32),
            decreases len - i,
        {
            let r = self.shrdv_u64x4(loadu_u64x4(a, i), loadu_u64x4(b, i), loadu_u64x4(c, i));
            storeu_u64x4(out, i, r);
            i += 4;
        }
        while i < len
            invariant
                i <= len,
                len == a@.len(),
                len == b@.len(),
                len == c@.len(),
                out@.len() == len,
                forall|j: int| 0 <= j < i ==> out@[j] == shrd64(a@[j], b@[j], c@[j] as u32),
            decreases len - i,
        {
            out[i] = shrd64_exec(a[i], b[i], c[i] as u32);
            i += 1;
        }
    }

    /// [`Avx512Vbmi2Vl::shrdv_u64x4`] where `mask` bit is set, else copied from `a` (`vpshrdvq`, merge-masked).
    pub fn shrdv_u64x4_merge_masked(self, a: [u64; 4], mask: u8, b: [u64; 4], c: [u64; 4]) -> (r: [u64; 4])
        ensures
            forall|i: int|
                0 <= i < 4 ==> r[i] == if (mask >> i as u8) % 2 == 1 {
                    shrd64(a[i], b[i], c[i] as u32)
                } else {
                    a[i]
                },
    {
        let full = self.shrdv_u64x4(a, b, c);
        let mut out = [0u64; 4];
        let mut i: usize = 0;
        while i < 4
            invariant
                i <= 4,
                forall|j: int| 0 <= j < 4 ==> full[j] == shrd64(a[j], b[j], c[j] as u32),
                forall|j: int| 0 <= j < i ==> out[j] == (if (mask >> j as u8) % 2 == 1 { shrd64(a[j], b[j], c[j] as u32) } else { a[j] }),
            decreases 4 - i,
        {
            out[i] = if (mask >> i as u8) % 2 == 1 { full[i] } else { a[i] };
            i += 1;
        }
        out
    }

    /// [`Avx512Vbmi2Vl::shrdv_u64x4`] where `mask` bit is set, else zero (`vpshrdvq`, zero-masked).
    pub fn shrdv_u64x4_zero_masked(self, mask: u8, a: [u64; 4], b: [u64; 4], c: [u64; 4]) -> (r: [u64; 4])
        ensures
            forall|i: int|
                0 <= i < 4 ==> r[i] == if (mask >> i as u8) % 2 == 1 {
                    shrd64(a[i], b[i], c[i] as u32)
                } else {
                    0
                },
    {
        let full = self.shrdv_u64x4(a, b, c);
        let mut out = [0u64; 4];
        let mut i: usize = 0;
        while i < 4
            invariant
                i <= 4,
                forall|j: int| 0 <= j < 4 ==> full[j] == shrd64(a[j], b[j], c[j] as u32),
                forall|j: int| 0 <= j < i ==> out[j] == (if (mask >> j as u8) % 2 == 1 { shrd64(a[j], b[j], c[j] as u32) } else { 0 }),
            decreases 4 - i,
        {
            out[i] = if (mask >> i as u8) % 2 == 1 { full[i] } else { 0 };
            i += 1;
        }
        out
    }
}

impl Avx512FVl {
    /// Per-bit 3-input truth table `IMM8` over `(a, b, c)` (`vpternlogd`, 128-bit).
    pub fn ternarylogic_i32x4<const IMM8: u8>(self, a: [i32; 4], b: [i32; 4], c: [i32; 4]) -> (r: [i32; 4])
        ensures
            forall|i: int| 0 <= i < 4 ==> r[i] == ternlog_i32(a[i], b[i], c[i], IMM8),
    {
        let mut out = [0i32; 4];
        let mut i: usize = 0;
        while i < 4
            invariant
                i <= 4,
                forall|j: int| 0 <= j < i ==> out[j] == ternlog_i32(a[j], b[j], c[j], IMM8),
            decreases 4 - i,
        {
            out[i] = ternlog_i32_exec(a[i], b[i], c[i], IMM8);
            i += 1;
        }
        out
    }

    /// Per-bit 3-input truth table `IMM8` over `(src, a, b)`, else copied from `src` where `mask`
    /// bit is unset (`vpternlogd`, 128-bit, merge-masked).
    pub fn ternarylogic_i32x4_merge_masked<const IMM8: u8>(self, src: [i32; 4], mask: u8, a: [i32; 4], b: [i32; 4]) -> (r: [i32; 4])
        ensures
            forall|i: int|
                0 <= i < 4 ==> r[i] == if (mask >> i as u8) % 2 == 1 {
                    ternlog_i32(src[i], a[i], b[i], IMM8)
                } else {
                    src[i]
                },
    {
        let full = self.ternarylogic_i32x4::<IMM8>(src, a, b);
        let mut out = [0i32; 4];
        let mut i: usize = 0;
        while i < 4
            invariant
                i <= 4,
                forall|j: int| 0 <= j < 4 ==> full[j] == ternlog_i32(src[j], a[j], b[j], IMM8),
                forall|j: int| 0 <= j < i ==> out[j] == (if (mask >> j as u8) % 2 == 1 { ternlog_i32(src[j], a[j], b[j], IMM8) } else { src[j] }),
            decreases 4 - i,
        {
            out[i] = if (mask >> i as u8) % 2 == 1 { full[i] } else { src[i] };
            i += 1;
        }
        out
    }

    /// Per-bit 3-input truth table `IMM8` over `(a, b, c)`, else zero where `mask` bit is unset
    /// (`vpternlogd`, 128-bit, zero-masked).
    pub fn ternarylogic_i32x4_zero_masked<const IMM8: u8>(self, mask: u8, a: [i32; 4], b: [i32; 4], c: [i32; 4]) -> (r: [i32; 4])
        ensures
            forall|i: int|
                0 <= i < 4 ==> r[i] == if (mask >> i as u8) % 2 == 1 {
                    ternlog_i32(a[i], b[i], c[i], IMM8)
                } else {
                    0
                },
    {
        let full = self.ternarylogic_i32x4::<IMM8>(a, b, c);
        let mut out = [0i32; 4];
        let mut i: usize = 0;
        while i < 4
            invariant
                i <= 4,
                forall|j: int| 0 <= j < 4 ==> full[j] == ternlog_i32(a[j], b[j], c[j], IMM8),
                forall|j: int| 0 <= j < i ==> out[j] == (if (mask >> j as u8) % 2 == 1 { ternlog_i32(a[j], b[j], c[j], IMM8) } else { 0 }),
            decreases 4 - i,
        {
            out[i] = if (mask >> i as u8) % 2 == 1 { full[i] } else { 0 };
            i += 1;
        }
        out
    }

    /// Per-bit 3-input truth table `IMM8` over `(a, b, c)` (`vpternlogd`, 256-bit).
    pub fn ternarylogic_i32x8<const IMM8: u8>(self, a: [i32; 8], b: [i32; 8], c: [i32; 8]) -> (r: [i32; 8])
        ensures
            forall|i: int| 0 <= i < 8 ==> r[i] == ternlog_i32(a[i], b[i], c[i], IMM8),
    {
        let mut out = [0i32; 8];
        let mut i: usize = 0;
        while i < 8
            invariant
                i <= 8,
                forall|j: int| 0 <= j < i ==> out[j] == ternlog_i32(a[j], b[j], c[j], IMM8),
            decreases 8 - i,
        {
            out[i] = ternlog_i32_exec(a[i], b[i], c[i], IMM8);
            i += 1;
        }
        out
    }

    /// Per-bit 3-input truth table `IMM8` over `(src, a, b)`, else copied from `src` where `mask`
    /// bit is unset (`vpternlogd`, 256-bit, merge-masked).
    pub fn ternarylogic_i32x8_merge_masked<const IMM8: u8>(self, src: [i32; 8], mask: u8, a: [i32; 8], b: [i32; 8]) -> (r: [i32; 8])
        ensures
            forall|i: int|
                0 <= i < 8 ==> r[i] == if (mask >> i as u8) % 2 == 1 {
                    ternlog_i32(src[i], a[i], b[i], IMM8)
                } else {
                    src[i]
                },
    {
        let full = self.ternarylogic_i32x8::<IMM8>(src, a, b);
        let mut out = [0i32; 8];
        let mut i: usize = 0;
        while i < 8
            invariant
                i <= 8,
                forall|j: int| 0 <= j < 8 ==> full[j] == ternlog_i32(src[j], a[j], b[j], IMM8),
                forall|j: int| 0 <= j < i ==> out[j] == (if (mask >> j as u8) % 2 == 1 { ternlog_i32(src[j], a[j], b[j], IMM8) } else { src[j] }),
            decreases 8 - i,
        {
            out[i] = if (mask >> i as u8) % 2 == 1 { full[i] } else { src[i] };
            i += 1;
        }
        out
    }

    /// Per-bit 3-input truth table `IMM8` over `(a, b, c)`, else zero where `mask` bit is unset
    /// (`vpternlogd`, 256-bit, zero-masked).
    pub fn ternarylogic_i32x8_zero_masked<const IMM8: u8>(self, mask: u8, a: [i32; 8], b: [i32; 8], c: [i32; 8]) -> (r: [i32; 8])
        ensures
            forall|i: int|
                0 <= i < 8 ==> r[i] == if (mask >> i as u8) % 2 == 1 {
                    ternlog_i32(a[i], b[i], c[i], IMM8)
                } else {
                    0
                },
    {
        let full = self.ternarylogic_i32x8::<IMM8>(a, b, c);
        let mut out = [0i32; 8];
        let mut i: usize = 0;
        while i < 8
            invariant
                i <= 8,
                forall|j: int| 0 <= j < 8 ==> full[j] == ternlog_i32(a[j], b[j], c[j], IMM8),
                forall|j: int| 0 <= j < i ==> out[j] == (if (mask >> j as u8) % 2 == 1 { ternlog_i32(a[j], b[j], c[j], IMM8) } else { 0 }),
            decreases 8 - i,
        {
            out[i] = if (mask >> i as u8) % 2 == 1 { full[i] } else { 0 };
            i += 1;
        }
        out
    }

    /// Per-bit 3-input truth table `IMM8` over `(a, b, c)` (`vpternlogd`, 128-bit).
    pub fn ternarylogic_u32x4<const IMM8: u8>(self, a: [u32; 4], b: [u32; 4], c: [u32; 4]) -> (r: [u32; 4])
        ensures
            forall|i: int| 0 <= i < 4 ==> r[i] == ternlog_u32(a[i], b[i], c[i], IMM8),
    {
        let mut out = [0u32; 4];
        let mut i: usize = 0;
        while i < 4
            invariant
                i <= 4,
                forall|j: int| 0 <= j < i ==> out[j] == ternlog_u32(a[j], b[j], c[j], IMM8),
            decreases 4 - i,
        {
            out[i] = ternlog_u32_exec(a[i], b[i], c[i], IMM8);
            i += 1;
        }
        out
    }

    /// Per-bit 3-input truth table `IMM8` over `(src, a, b)`, else copied from `src` where `mask`
    /// bit is unset (`vpternlogd`, 128-bit, merge-masked).
    pub fn ternarylogic_u32x4_merge_masked<const IMM8: u8>(self, src: [u32; 4], mask: u8, a: [u32; 4], b: [u32; 4]) -> (r: [u32; 4])
        ensures
            forall|i: int|
                0 <= i < 4 ==> r[i] == if (mask >> i as u8) % 2 == 1 {
                    ternlog_u32(src[i], a[i], b[i], IMM8)
                } else {
                    src[i]
                },
    {
        let full = self.ternarylogic_u32x4::<IMM8>(src, a, b);
        let mut out = [0u32; 4];
        let mut i: usize = 0;
        while i < 4
            invariant
                i <= 4,
                forall|j: int| 0 <= j < 4 ==> full[j] == ternlog_u32(src[j], a[j], b[j], IMM8),
                forall|j: int| 0 <= j < i ==> out[j] == (if (mask >> j as u8) % 2 == 1 { ternlog_u32(src[j], a[j], b[j], IMM8) } else { src[j] }),
            decreases 4 - i,
        {
            out[i] = if (mask >> i as u8) % 2 == 1 { full[i] } else { src[i] };
            i += 1;
        }
        out
    }

    /// Per-bit 3-input truth table `IMM8` over `(a, b, c)`, else zero where `mask` bit is unset
    /// (`vpternlogd`, 128-bit, zero-masked).
    pub fn ternarylogic_u32x4_zero_masked<const IMM8: u8>(self, mask: u8, a: [u32; 4], b: [u32; 4], c: [u32; 4]) -> (r: [u32; 4])
        ensures
            forall|i: int|
                0 <= i < 4 ==> r[i] == if (mask >> i as u8) % 2 == 1 {
                    ternlog_u32(a[i], b[i], c[i], IMM8)
                } else {
                    0
                },
    {
        let full = self.ternarylogic_u32x4::<IMM8>(a, b, c);
        let mut out = [0u32; 4];
        let mut i: usize = 0;
        while i < 4
            invariant
                i <= 4,
                forall|j: int| 0 <= j < 4 ==> full[j] == ternlog_u32(a[j], b[j], c[j], IMM8),
                forall|j: int| 0 <= j < i ==> out[j] == (if (mask >> j as u8) % 2 == 1 { ternlog_u32(a[j], b[j], c[j], IMM8) } else { 0 }),
            decreases 4 - i,
        {
            out[i] = if (mask >> i as u8) % 2 == 1 { full[i] } else { 0 };
            i += 1;
        }
        out
    }

    /// Per-bit 3-input truth table `IMM8` over `(a, b, c)` (`vpternlogd`, 256-bit).
    pub fn ternarylogic_u32x8<const IMM8: u8>(self, a: [u32; 8], b: [u32; 8], c: [u32; 8]) -> (r: [u32; 8])
        ensures
            forall|i: int| 0 <= i < 8 ==> r[i] == ternlog_u32(a[i], b[i], c[i], IMM8),
    {
        let mut out = [0u32; 8];
        let mut i: usize = 0;
        while i < 8
            invariant
                i <= 8,
                forall|j: int| 0 <= j < i ==> out[j] == ternlog_u32(a[j], b[j], c[j], IMM8),
            decreases 8 - i,
        {
            out[i] = ternlog_u32_exec(a[i], b[i], c[i], IMM8);
            i += 1;
        }
        out
    }

    /// Per-bit 3-input truth table `IMM8` over `(src, a, b)`, else copied from `src` where `mask`
    /// bit is unset (`vpternlogd`, 256-bit, merge-masked).
    pub fn ternarylogic_u32x8_merge_masked<const IMM8: u8>(self, src: [u32; 8], mask: u8, a: [u32; 8], b: [u32; 8]) -> (r: [u32; 8])
        ensures
            forall|i: int|
                0 <= i < 8 ==> r[i] == if (mask >> i as u8) % 2 == 1 {
                    ternlog_u32(src[i], a[i], b[i], IMM8)
                } else {
                    src[i]
                },
    {
        let full = self.ternarylogic_u32x8::<IMM8>(src, a, b);
        let mut out = [0u32; 8];
        let mut i: usize = 0;
        while i < 8
            invariant
                i <= 8,
                forall|j: int| 0 <= j < 8 ==> full[j] == ternlog_u32(src[j], a[j], b[j], IMM8),
                forall|j: int| 0 <= j < i ==> out[j] == (if (mask >> j as u8) % 2 == 1 { ternlog_u32(src[j], a[j], b[j], IMM8) } else { src[j] }),
            decreases 8 - i,
        {
            out[i] = if (mask >> i as u8) % 2 == 1 { full[i] } else { src[i] };
            i += 1;
        }
        out
    }

    /// Per-bit 3-input truth table `IMM8` over `(a, b, c)`, else zero where `mask` bit is unset
    /// (`vpternlogd`, 256-bit, zero-masked).
    pub fn ternarylogic_u32x8_zero_masked<const IMM8: u8>(self, mask: u8, a: [u32; 8], b: [u32; 8], c: [u32; 8]) -> (r: [u32; 8])
        ensures
            forall|i: int|
                0 <= i < 8 ==> r[i] == if (mask >> i as u8) % 2 == 1 {
                    ternlog_u32(a[i], b[i], c[i], IMM8)
                } else {
                    0
                },
    {
        let full = self.ternarylogic_u32x8::<IMM8>(a, b, c);
        let mut out = [0u32; 8];
        let mut i: usize = 0;
        while i < 8
            invariant
                i <= 8,
                forall|j: int| 0 <= j < 8 ==> full[j] == ternlog_u32(a[j], b[j], c[j], IMM8),
                forall|j: int| 0 <= j < i ==> out[j] == (if (mask >> j as u8) % 2 == 1 { ternlog_u32(a[j], b[j], c[j], IMM8) } else { 0 }),
            decreases 8 - i,
        {
            out[i] = if (mask >> i as u8) % 2 == 1 { full[i] } else { 0 };
            i += 1;
        }
        out
    }

    /// Per-bit 3-input truth table `IMM8` over `(a, b, c)` (`vpternlogq`, 128-bit).
    pub fn ternarylogic_i64x2<const IMM8: u8>(self, a: [i64; 2], b: [i64; 2], c: [i64; 2]) -> (r: [i64; 2])
        ensures
            forall|i: int| 0 <= i < 2 ==> r[i] == ternlog_i64(a[i], b[i], c[i], IMM8),
    {
        let mut out = [0i64; 2];
        let mut i: usize = 0;
        while i < 2
            invariant
                i <= 2,
                forall|j: int| 0 <= j < i ==> out[j] == ternlog_i64(a[j], b[j], c[j], IMM8),
            decreases 2 - i,
        {
            out[i] = ternlog_i64_exec(a[i], b[i], c[i], IMM8);
            i += 1;
        }
        out
    }

    /// Per-bit 3-input truth table `IMM8` over `(src, a, b)`, else copied from `src` where `mask`
    /// bit is unset (`vpternlogq`, 128-bit, merge-masked).
    pub fn ternarylogic_i64x2_merge_masked<const IMM8: u8>(self, src: [i64; 2], mask: u8, a: [i64; 2], b: [i64; 2]) -> (r: [i64; 2])
        ensures
            forall|i: int|
                0 <= i < 2 ==> r[i] == if (mask >> i as u8) % 2 == 1 {
                    ternlog_i64(src[i], a[i], b[i], IMM8)
                } else {
                    src[i]
                },
    {
        let full = self.ternarylogic_i64x2::<IMM8>(src, a, b);
        let mut out = [0i64; 2];
        let mut i: usize = 0;
        while i < 2
            invariant
                i <= 2,
                forall|j: int| 0 <= j < 2 ==> full[j] == ternlog_i64(src[j], a[j], b[j], IMM8),
                forall|j: int| 0 <= j < i ==> out[j] == (if (mask >> j as u8) % 2 == 1 { ternlog_i64(src[j], a[j], b[j], IMM8) } else { src[j] }),
            decreases 2 - i,
        {
            out[i] = if (mask >> i as u8) % 2 == 1 { full[i] } else { src[i] };
            i += 1;
        }
        out
    }

    /// Per-bit 3-input truth table `IMM8` over `(a, b, c)`, else zero where `mask` bit is unset
    /// (`vpternlogq`, 128-bit, zero-masked).
    pub fn ternarylogic_i64x2_zero_masked<const IMM8: u8>(self, mask: u8, a: [i64; 2], b: [i64; 2], c: [i64; 2]) -> (r: [i64; 2])
        ensures
            forall|i: int|
                0 <= i < 2 ==> r[i] == if (mask >> i as u8) % 2 == 1 {
                    ternlog_i64(a[i], b[i], c[i], IMM8)
                } else {
                    0
                },
    {
        let full = self.ternarylogic_i64x2::<IMM8>(a, b, c);
        let mut out = [0i64; 2];
        let mut i: usize = 0;
        while i < 2
            invariant
                i <= 2,
                forall|j: int| 0 <= j < 2 ==> full[j] == ternlog_i64(a[j], b[j], c[j], IMM8),
                forall|j: int| 0 <= j < i ==> out[j] == (if (mask >> j as u8) % 2 == 1 { ternlog_i64(a[j], b[j], c[j], IMM8) } else { 0 }),
            decreases 2 - i,
        {
            out[i] = if (mask >> i as u8) % 2 == 1 { full[i] } else { 0 };
            i += 1;
        }
        out
    }

    /// Per-bit 3-input truth table `IMM8` over `(a, b, c)` (`vpternlogq`, 256-bit).
    pub fn ternarylogic_i64x4<const IMM8: u8>(self, a: [i64; 4], b: [i64; 4], c: [i64; 4]) -> (r: [i64; 4])
        ensures
            forall|i: int| 0 <= i < 4 ==> r[i] == ternlog_i64(a[i], b[i], c[i], IMM8),
    {
        let mut out = [0i64; 4];
        let mut i: usize = 0;
        while i < 4
            invariant
                i <= 4,
                forall|j: int| 0 <= j < i ==> out[j] == ternlog_i64(a[j], b[j], c[j], IMM8),
            decreases 4 - i,
        {
            out[i] = ternlog_i64_exec(a[i], b[i], c[i], IMM8);
            i += 1;
        }
        out
    }

    /// Per-bit 3-input truth table `IMM8` over `(src, a, b)`, else copied from `src` where `mask`
    /// bit is unset (`vpternlogq`, 256-bit, merge-masked).
    pub fn ternarylogic_i64x4_merge_masked<const IMM8: u8>(self, src: [i64; 4], mask: u8, a: [i64; 4], b: [i64; 4]) -> (r: [i64; 4])
        ensures
            forall|i: int|
                0 <= i < 4 ==> r[i] == if (mask >> i as u8) % 2 == 1 {
                    ternlog_i64(src[i], a[i], b[i], IMM8)
                } else {
                    src[i]
                },
    {
        let full = self.ternarylogic_i64x4::<IMM8>(src, a, b);
        let mut out = [0i64; 4];
        let mut i: usize = 0;
        while i < 4
            invariant
                i <= 4,
                forall|j: int| 0 <= j < 4 ==> full[j] == ternlog_i64(src[j], a[j], b[j], IMM8),
                forall|j: int| 0 <= j < i ==> out[j] == (if (mask >> j as u8) % 2 == 1 { ternlog_i64(src[j], a[j], b[j], IMM8) } else { src[j] }),
            decreases 4 - i,
        {
            out[i] = if (mask >> i as u8) % 2 == 1 { full[i] } else { src[i] };
            i += 1;
        }
        out
    }

    /// Per-bit 3-input truth table `IMM8` over `(a, b, c)`, else zero where `mask` bit is unset
    /// (`vpternlogq`, 256-bit, zero-masked).
    pub fn ternarylogic_i64x4_zero_masked<const IMM8: u8>(self, mask: u8, a: [i64; 4], b: [i64; 4], c: [i64; 4]) -> (r: [i64; 4])
        ensures
            forall|i: int|
                0 <= i < 4 ==> r[i] == if (mask >> i as u8) % 2 == 1 {
                    ternlog_i64(a[i], b[i], c[i], IMM8)
                } else {
                    0
                },
    {
        let full = self.ternarylogic_i64x4::<IMM8>(a, b, c);
        let mut out = [0i64; 4];
        let mut i: usize = 0;
        while i < 4
            invariant
                i <= 4,
                forall|j: int| 0 <= j < 4 ==> full[j] == ternlog_i64(a[j], b[j], c[j], IMM8),
                forall|j: int| 0 <= j < i ==> out[j] == (if (mask >> j as u8) % 2 == 1 { ternlog_i64(a[j], b[j], c[j], IMM8) } else { 0 }),
            decreases 4 - i,
        {
            out[i] = if (mask >> i as u8) % 2 == 1 { full[i] } else { 0 };
            i += 1;
        }
        out
    }

    /// Per-bit 3-input truth table `IMM8` over `(a, b, c)` (`vpternlogq`, 128-bit).
    pub fn ternarylogic_u64x2<const IMM8: u8>(self, a: [u64; 2], b: [u64; 2], c: [u64; 2]) -> (r: [u64; 2])
        ensures
            forall|i: int| 0 <= i < 2 ==> r[i] == ternlog_u64(a[i], b[i], c[i], IMM8),
    {
        let mut out = [0u64; 2];
        let mut i: usize = 0;
        while i < 2
            invariant
                i <= 2,
                forall|j: int| 0 <= j < i ==> out[j] == ternlog_u64(a[j], b[j], c[j], IMM8),
            decreases 2 - i,
        {
            out[i] = ternlog_u64_exec(a[i], b[i], c[i], IMM8);
            i += 1;
        }
        out
    }

    /// Per-bit 3-input truth table `IMM8` over `(src, a, b)`, else copied from `src` where `mask`
    /// bit is unset (`vpternlogq`, 128-bit, merge-masked).
    pub fn ternarylogic_u64x2_merge_masked<const IMM8: u8>(self, src: [u64; 2], mask: u8, a: [u64; 2], b: [u64; 2]) -> (r: [u64; 2])
        ensures
            forall|i: int|
                0 <= i < 2 ==> r[i] == if (mask >> i as u8) % 2 == 1 {
                    ternlog_u64(src[i], a[i], b[i], IMM8)
                } else {
                    src[i]
                },
    {
        let full = self.ternarylogic_u64x2::<IMM8>(src, a, b);
        let mut out = [0u64; 2];
        let mut i: usize = 0;
        while i < 2
            invariant
                i <= 2,
                forall|j: int| 0 <= j < 2 ==> full[j] == ternlog_u64(src[j], a[j], b[j], IMM8),
                forall|j: int| 0 <= j < i ==> out[j] == (if (mask >> j as u8) % 2 == 1 { ternlog_u64(src[j], a[j], b[j], IMM8) } else { src[j] }),
            decreases 2 - i,
        {
            out[i] = if (mask >> i as u8) % 2 == 1 { full[i] } else { src[i] };
            i += 1;
        }
        out
    }

    /// Per-bit 3-input truth table `IMM8` over `(a, b, c)`, else zero where `mask` bit is unset
    /// (`vpternlogq`, 128-bit, zero-masked).
    pub fn ternarylogic_u64x2_zero_masked<const IMM8: u8>(self, mask: u8, a: [u64; 2], b: [u64; 2], c: [u64; 2]) -> (r: [u64; 2])
        ensures
            forall|i: int|
                0 <= i < 2 ==> r[i] == if (mask >> i as u8) % 2 == 1 {
                    ternlog_u64(a[i], b[i], c[i], IMM8)
                } else {
                    0
                },
    {
        let full = self.ternarylogic_u64x2::<IMM8>(a, b, c);
        let mut out = [0u64; 2];
        let mut i: usize = 0;
        while i < 2
            invariant
                i <= 2,
                forall|j: int| 0 <= j < 2 ==> full[j] == ternlog_u64(a[j], b[j], c[j], IMM8),
                forall|j: int| 0 <= j < i ==> out[j] == (if (mask >> j as u8) % 2 == 1 { ternlog_u64(a[j], b[j], c[j], IMM8) } else { 0 }),
            decreases 2 - i,
        {
            out[i] = if (mask >> i as u8) % 2 == 1 { full[i] } else { 0 };
            i += 1;
        }
        out
    }

    /// Per-bit 3-input truth table `IMM8` over `(a, b, c)` (`vpternlogq`, 256-bit).
    pub fn ternarylogic_u64x4<const IMM8: u8>(self, a: [u64; 4], b: [u64; 4], c: [u64; 4]) -> (r: [u64; 4])
        ensures
            forall|i: int| 0 <= i < 4 ==> r[i] == ternlog_u64(a[i], b[i], c[i], IMM8),
    {
        let mut out = [0u64; 4];
        let mut i: usize = 0;
        while i < 4
            invariant
                i <= 4,
                forall|j: int| 0 <= j < i ==> out[j] == ternlog_u64(a[j], b[j], c[j], IMM8),
            decreases 4 - i,
        {
            out[i] = ternlog_u64_exec(a[i], b[i], c[i], IMM8);
            i += 1;
        }
        out
    }

    /// Per-bit 3-input truth table `IMM8` over `(src, a, b)`, else copied from `src` where `mask`
    /// bit is unset (`vpternlogq`, 256-bit, merge-masked).
    pub fn ternarylogic_u64x4_merge_masked<const IMM8: u8>(self, src: [u64; 4], mask: u8, a: [u64; 4], b: [u64; 4]) -> (r: [u64; 4])
        ensures
            forall|i: int|
                0 <= i < 4 ==> r[i] == if (mask >> i as u8) % 2 == 1 {
                    ternlog_u64(src[i], a[i], b[i], IMM8)
                } else {
                    src[i]
                },
    {
        let full = self.ternarylogic_u64x4::<IMM8>(src, a, b);
        let mut out = [0u64; 4];
        let mut i: usize = 0;
        while i < 4
            invariant
                i <= 4,
                forall|j: int| 0 <= j < 4 ==> full[j] == ternlog_u64(src[j], a[j], b[j], IMM8),
                forall|j: int| 0 <= j < i ==> out[j] == (if (mask >> j as u8) % 2 == 1 { ternlog_u64(src[j], a[j], b[j], IMM8) } else { src[j] }),
            decreases 4 - i,
        {
            out[i] = if (mask >> i as u8) % 2 == 1 { full[i] } else { src[i] };
            i += 1;
        }
        out
    }

    /// Per-bit 3-input truth table `IMM8` over `(a, b, c)`, else zero where `mask` bit is unset
    /// (`vpternlogq`, 256-bit, zero-masked).
    pub fn ternarylogic_u64x4_zero_masked<const IMM8: u8>(self, mask: u8, a: [u64; 4], b: [u64; 4], c: [u64; 4]) -> (r: [u64; 4])
        ensures
            forall|i: int|
                0 <= i < 4 ==> r[i] == if (mask >> i as u8) % 2 == 1 {
                    ternlog_u64(a[i], b[i], c[i], IMM8)
                } else {
                    0
                },
    {
        let full = self.ternarylogic_u64x4::<IMM8>(a, b, c);
        let mut out = [0u64; 4];
        let mut i: usize = 0;
        while i < 4
            invariant
                i <= 4,
                forall|j: int| 0 <= j < 4 ==> full[j] == ternlog_u64(a[j], b[j], c[j], IMM8),
                forall|j: int| 0 <= j < i ==> out[j] == (if (mask >> j as u8) % 2 == 1 { ternlog_u64(a[j], b[j], c[j], IMM8) } else { 0 }),
            decreases 4 - i,
        {
            out[i] = if (mask >> i as u8) % 2 == 1 { full[i] } else { 0 };
            i += 1;
        }
        out
    }
}

impl Avx512VbmiVl {
    /// [`Avx512VbmiVl::permutexvar_u8x32`] where `mask` bit is set, else copied from `src` (`vpermb`, merge-masked).
    pub fn permutexvar_u8x32_merge_masked(self, src: [u8; 32], mask: u32, idx: [u8; 32], a: [u8; 32]) -> (r: [u8; 32])
        ensures
            forall|i: int|
                0 <= i < 32 ==> r[i] == if (mask >> i as u32) % 2 == 1 {
                    a[(idx[i] & 31u8) as int]
                } else {
                    src[i]
                },
    {
        let full = self.permutexvar_u8x32(idx, a);
        let mut out = [0u8; 32];
        let mut i: usize = 0;
        while i < 32
            invariant
                i <= 32,
                forall|j: int| 0 <= j < 32 ==> full[j] == a[(idx[j] & 31u8) as int],
                forall|j: int| 0 <= j < i ==> out[j] == (if (mask >> j as u32) % 2 == 1 { a[(idx[j] & 31u8) as int] } else { src[j] }),
            decreases 32 - i,
        {
            out[i] = if (mask >> i as u32) % 2 == 1 { full[i] } else { src[i] };
            i += 1;
        }
        out
    }

    /// [`Avx512VbmiVl::permutexvar_u8x32`] where `mask` bit is set, else zero (`vpermb`, zero-masked).
    pub fn permutexvar_u8x32_zero_masked(self, mask: u32, idx: [u8; 32], a: [u8; 32]) -> (r: [u8; 32])
        ensures
            forall|i: int|
                0 <= i < 32 ==> r[i] == if (mask >> i as u32) % 2 == 1 {
                    a[(idx[i] & 31u8) as int]
                } else {
                    0
                },
    {
        let full = self.permutexvar_u8x32(idx, a);
        let mut out = [0u8; 32];
        let mut i: usize = 0;
        while i < 32
            invariant
                i <= 32,
                forall|j: int| 0 <= j < 32 ==> full[j] == a[(idx[j] & 31u8) as int],
                forall|j: int| 0 <= j < i ==> out[j] == (if (mask >> j as u32) % 2 == 1 { a[(idx[j] & 31u8) as int] } else { 0 }),
            decreases 32 - i,
        {
            out[i] = if (mask >> i as u32) % 2 == 1 { full[i] } else { 0 };
            i += 1;
        }
        out
    }

    /// [`Avx512VbmiVl::permutex2var_u8x32`] where `mask` bit is set, else copied from `a` (`vpermt2b`, merge-masked).
    pub fn permutex2var_u8x32_merge_masked(self, a: [u8; 32], mask: u32, idx: [u8; 32], b: [u8; 32]) -> (r: [u8; 32])
        ensures
            forall|i: int|
                0 <= i < 32 ==> r[i] == if (mask >> i as u32) % 2 == 1 {
                    (if idx[i] & 0x20u8 != 0 { b[(idx[i] & 31u8) as int] } else { a[(idx[i] & 31u8) as int] })
                } else {
                    a[i]
                },
    {
        let full = self.permutex2var_u8x32(a, idx, b);
        let mut out = [0u8; 32];
        let mut i: usize = 0;
        while i < 32
            invariant
                i <= 32,
                forall|j: int| 0 <= j < 32 ==> full[j] == (if idx[j] & 0x20u8 != 0 { b[(idx[j] & 31u8) as int] } else { a[(idx[j] & 31u8) as int] }),
                forall|j: int| 0 <= j < i ==> out[j] == (if (mask >> j as u32) % 2 == 1 { (if idx[j] & 0x20u8 != 0 { b[(idx[j] & 31u8) as int] } else { a[(idx[j] & 31u8) as int] }) } else { a[j] }),
            decreases 32 - i,
        {
            out[i] = if (mask >> i as u32) % 2 == 1 { full[i] } else { a[i] };
            i += 1;
        }
        out
    }

    /// [`Avx512VbmiVl::permutex2var_u8x32`] where `mask` bit is set, else zero (`vpermt2b`, zero-masked).
    pub fn permutex2var_u8x32_zero_masked(self, mask: u32, a: [u8; 32], idx: [u8; 32], b: [u8; 32]) -> (r: [u8; 32])
        ensures
            forall|i: int|
                0 <= i < 32 ==> r[i] == if (mask >> i as u32) % 2 == 1 {
                    (if idx[i] & 0x20u8 != 0 { b[(idx[i] & 31u8) as int] } else { a[(idx[i] & 31u8) as int] })
                } else {
                    0
                },
    {
        let full = self.permutex2var_u8x32(a, idx, b);
        let mut out = [0u8; 32];
        let mut i: usize = 0;
        while i < 32
            invariant
                i <= 32,
                forall|j: int| 0 <= j < 32 ==> full[j] == (if idx[j] & 0x20u8 != 0 { b[(idx[j] & 31u8) as int] } else { a[(idx[j] & 31u8) as int] }),
                forall|j: int| 0 <= j < i ==> out[j] == (if (mask >> j as u32) % 2 == 1 { (if idx[j] & 0x20u8 != 0 { b[(idx[j] & 31u8) as int] } else { a[(idx[j] & 31u8) as int] }) } else { 0 }),
            decreases 32 - i,
        {
            out[i] = if (mask >> i as u32) % 2 == 1 { full[i] } else { 0 };
            i += 1;
        }
        out
    }

    /// [`Avx512VbmiVl::multishift_u8x32`] where `mask` bit is set, else copied from `src` (`vpmultishiftqb`, merge-masked).
    pub fn multishift_u8x32_merge_masked(self, src: [u8; 32], mask: u32, a: [u8; 32], b: [u8; 32]) -> (r: [u8; 32])
        ensures
            forall|i: int|
                0 <= i < 32 ==> r[i] == if (mask >> i as u32) % 2 == 1 {
                    rotr64(le_qword(b@, i / 8), (a[i] & 63u8) as u64) as u8
                } else {
                    src[i]
                },
    {
        let full = self.multishift_u8x32(a, b);
        let mut out = [0u8; 32];
        let mut i: usize = 0;
        while i < 32
            invariant
                i <= 32,
                forall|j: int| 0 <= j < 32 ==> full[j] == rotr64(le_qword(b@, j / 8), (a[j] & 63u8) as u64) as u8,
                forall|j: int| 0 <= j < i ==> out[j] == (if (mask >> j as u32) % 2 == 1 { rotr64(le_qword(b@, j / 8), (a[j] & 63u8) as u64) as u8 } else { src[j] }),
            decreases 32 - i,
        {
            out[i] = if (mask >> i as u32) % 2 == 1 { full[i] } else { src[i] };
            i += 1;
        }
        out
    }

    /// [`Avx512VbmiVl::multishift_u8x32`] where `mask` bit is set, else zero (`vpmultishiftqb`, zero-masked).
    pub fn multishift_u8x32_zero_masked(self, mask: u32, a: [u8; 32], b: [u8; 32]) -> (r: [u8; 32])
        ensures
            forall|i: int|
                0 <= i < 32 ==> r[i] == if (mask >> i as u32) % 2 == 1 {
                    rotr64(le_qword(b@, i / 8), (a[i] & 63u8) as u64) as u8
                } else {
                    0
                },
    {
        let full = self.multishift_u8x32(a, b);
        let mut out = [0u8; 32];
        let mut i: usize = 0;
        while i < 32
            invariant
                i <= 32,
                forall|j: int| 0 <= j < 32 ==> full[j] == rotr64(le_qword(b@, j / 8), (a[j] & 63u8) as u64) as u8,
                forall|j: int| 0 <= j < i ==> out[j] == (if (mask >> j as u32) % 2 == 1 { rotr64(le_qword(b@, j / 8), (a[j] & 63u8) as u64) as u8 } else { 0 }),
            decreases 32 - i,
        {
            out[i] = if (mask >> i as u32) % 2 == 1 { full[i] } else { 0 };
            i += 1;
        }
        out
    }

    /// [`Avx512VbmiVl::permutexvar_u8x16`] where `mask` bit is set, else copied from `src` (`vpermb`, merge-masked).
    pub fn permutexvar_u8x16_merge_masked(self, src: [u8; 16], mask: u16, idx: [u8; 16], a: [u8; 16]) -> (r: [u8; 16])
        ensures
            forall|i: int|
                0 <= i < 16 ==> r[i] == if (mask >> i as u16) % 2 == 1 {
                    a[(idx[i] & 15u8) as int]
                } else {
                    src[i]
                },
    {
        let full = self.permutexvar_u8x16(idx, a);
        let mut out = [0u8; 16];
        let mut i: usize = 0;
        while i < 16
            invariant
                i <= 16,
                forall|j: int| 0 <= j < 16 ==> full[j] == a[(idx[j] & 15u8) as int],
                forall|j: int| 0 <= j < i ==> out[j] == (if (mask >> j as u16) % 2 == 1 { a[(idx[j] & 15u8) as int] } else { src[j] }),
            decreases 16 - i,
        {
            out[i] = if (mask >> i as u16) % 2 == 1 { full[i] } else { src[i] };
            i += 1;
        }
        out
    }

    /// [`Avx512VbmiVl::permutexvar_u8x16`] where `mask` bit is set, else zero (`vpermb`, zero-masked).
    pub fn permutexvar_u8x16_zero_masked(self, mask: u16, idx: [u8; 16], a: [u8; 16]) -> (r: [u8; 16])
        ensures
            forall|i: int|
                0 <= i < 16 ==> r[i] == if (mask >> i as u16) % 2 == 1 {
                    a[(idx[i] & 15u8) as int]
                } else {
                    0
                },
    {
        let full = self.permutexvar_u8x16(idx, a);
        let mut out = [0u8; 16];
        let mut i: usize = 0;
        while i < 16
            invariant
                i <= 16,
                forall|j: int| 0 <= j < 16 ==> full[j] == a[(idx[j] & 15u8) as int],
                forall|j: int| 0 <= j < i ==> out[j] == (if (mask >> j as u16) % 2 == 1 { a[(idx[j] & 15u8) as int] } else { 0 }),
            decreases 16 - i,
        {
            out[i] = if (mask >> i as u16) % 2 == 1 { full[i] } else { 0 };
            i += 1;
        }
        out
    }

    /// [`Avx512VbmiVl::permutex2var_u8x16`] where `mask` bit is set, else copied from `a` (`vpermt2b`, merge-masked).
    pub fn permutex2var_u8x16_merge_masked(self, a: [u8; 16], mask: u16, idx: [u8; 16], b: [u8; 16]) -> (r: [u8; 16])
        ensures
            forall|i: int|
                0 <= i < 16 ==> r[i] == if (mask >> i as u16) % 2 == 1 {
                    (if idx[i] & 0x10u8 != 0 { b[(idx[i] & 15u8) as int] } else { a[(idx[i] & 15u8) as int] })
                } else {
                    a[i]
                },
    {
        let full = self.permutex2var_u8x16(a, idx, b);
        let mut out = [0u8; 16];
        let mut i: usize = 0;
        while i < 16
            invariant
                i <= 16,
                forall|j: int| 0 <= j < 16 ==> full[j] == (if idx[j] & 0x10u8 != 0 { b[(idx[j] & 15u8) as int] } else { a[(idx[j] & 15u8) as int] }),
                forall|j: int| 0 <= j < i ==> out[j] == (if (mask >> j as u16) % 2 == 1 { (if idx[j] & 0x10u8 != 0 { b[(idx[j] & 15u8) as int] } else { a[(idx[j] & 15u8) as int] }) } else { a[j] }),
            decreases 16 - i,
        {
            out[i] = if (mask >> i as u16) % 2 == 1 { full[i] } else { a[i] };
            i += 1;
        }
        out
    }

    /// [`Avx512VbmiVl::permutex2var_u8x16`] where `mask` bit is set, else zero (`vpermt2b`, zero-masked).
    pub fn permutex2var_u8x16_zero_masked(self, mask: u16, a: [u8; 16], idx: [u8; 16], b: [u8; 16]) -> (r: [u8; 16])
        ensures
            forall|i: int|
                0 <= i < 16 ==> r[i] == if (mask >> i as u16) % 2 == 1 {
                    (if idx[i] & 0x10u8 != 0 { b[(idx[i] & 15u8) as int] } else { a[(idx[i] & 15u8) as int] })
                } else {
                    0
                },
    {
        let full = self.permutex2var_u8x16(a, idx, b);
        let mut out = [0u8; 16];
        let mut i: usize = 0;
        while i < 16
            invariant
                i <= 16,
                forall|j: int| 0 <= j < 16 ==> full[j] == (if idx[j] & 0x10u8 != 0 { b[(idx[j] & 15u8) as int] } else { a[(idx[j] & 15u8) as int] }),
                forall|j: int| 0 <= j < i ==> out[j] == (if (mask >> j as u16) % 2 == 1 { (if idx[j] & 0x10u8 != 0 { b[(idx[j] & 15u8) as int] } else { a[(idx[j] & 15u8) as int] }) } else { 0 }),
            decreases 16 - i,
        {
            out[i] = if (mask >> i as u16) % 2 == 1 { full[i] } else { 0 };
            i += 1;
        }
        out
    }

    /// [`Avx512VbmiVl::multishift_u8x16`] where `mask` bit is set, else copied from `src` (`vpmultishiftqb`, merge-masked).
    pub fn multishift_u8x16_merge_masked(self, src: [u8; 16], mask: u16, a: [u8; 16], b: [u8; 16]) -> (r: [u8; 16])
        ensures
            forall|i: int|
                0 <= i < 16 ==> r[i] == if (mask >> i as u16) % 2 == 1 {
                    rotr64(le_qword(b@, i / 8), (a[i] & 63u8) as u64) as u8
                } else {
                    src[i]
                },
    {
        let full = self.multishift_u8x16(a, b);
        let mut out = [0u8; 16];
        let mut i: usize = 0;
        while i < 16
            invariant
                i <= 16,
                forall|j: int| 0 <= j < 16 ==> full[j] == rotr64(le_qword(b@, j / 8), (a[j] & 63u8) as u64) as u8,
                forall|j: int| 0 <= j < i ==> out[j] == (if (mask >> j as u16) % 2 == 1 { rotr64(le_qword(b@, j / 8), (a[j] & 63u8) as u64) as u8 } else { src[j] }),
            decreases 16 - i,
        {
            out[i] = if (mask >> i as u16) % 2 == 1 { full[i] } else { src[i] };
            i += 1;
        }
        out
    }

    /// [`Avx512VbmiVl::multishift_u8x16`] where `mask` bit is set, else zero (`vpmultishiftqb`, zero-masked).
    pub fn multishift_u8x16_zero_masked(self, mask: u16, a: [u8; 16], b: [u8; 16]) -> (r: [u8; 16])
        ensures
            forall|i: int|
                0 <= i < 16 ==> r[i] == if (mask >> i as u16) % 2 == 1 {
                    rotr64(le_qword(b@, i / 8), (a[i] & 63u8) as u64) as u8
                } else {
                    0
                },
    {
        let full = self.multishift_u8x16(a, b);
        let mut out = [0u8; 16];
        let mut i: usize = 0;
        while i < 16
            invariant
                i <= 16,
                forall|j: int| 0 <= j < 16 ==> full[j] == rotr64(le_qword(b@, j / 8), (a[j] & 63u8) as u64) as u8,
                forall|j: int| 0 <= j < i ==> out[j] == (if (mask >> j as u16) % 2 == 1 { rotr64(le_qword(b@, j / 8), (a[j] & 63u8) as u64) as u8 } else { 0 }),
            decreases 16 - i,
        {
            out[i] = if (mask >> i as u16) % 2 == 1 { full[i] } else { 0 };
            i += 1;
        }
        out
    }
}

} // verus!
