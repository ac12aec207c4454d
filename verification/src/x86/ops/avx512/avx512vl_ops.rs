//! The remaining integer forms of the 128/256-bit AVX-512 tokens: byte/word and dword/qword
//! population counts, 64-bit low multiply, 52-bit multiply-accumulate (IFMA), narrow dot
//! products into `i32` (VNNI), and the qword-pair broadcast/extract/insert moves. Each has its
//! fixed-width form, slice forms for the element-wise ones (full-width chunks, then a scalar
//! remainder), and merge/zero-masked forms (lane `i` takes the result where bit `i` of `mask` is
//! set, else the fallback lane or zero).

use vstd::arithmetic::div_mod::lemma_fundamental_div_mod;
use vstd::prelude::*;

use super::super::chunk::{
    loadu_i64x2, loadu_i64x4, loadu_u16x16, loadu_u16x8, loadu_u32x4, loadu_u32x8, loadu_u64x2,
    loadu_u64x4, loadu_u8x16, loadu_u8x32, storeu_i64x2, storeu_i64x4, storeu_u16x16, storeu_u16x8,
    storeu_u32x4, storeu_u32x8, storeu_u64x2, storeu_u64x4, storeu_u8x16, storeu_u8x32,
};
use super::super::other::popcnt::{popcount, popcount_u32, popcount_u64};
use super::avx512vl::{Avx512BitalgVl, Avx512DqVl, Avx512IfmaVl, Avx512VnniVl, Avx512VpopcntdqVl};
use super::avx512vnni::{
    pair_dot, pair_dot_exec, quad_dot, quad_dot_exec, sat_i32, vnni_acc_saturating,
    vnni_acc_wrapping, wrap_i32,
};

verus! {

/// `2^52`, the IFMA operand and result field size.
pub const FIELD52: u64 = 0x10_0000_0000_0000;

/// The low 52 bits of `x`, as IFMA reads each multiplicand.
pub open spec fn low52(x: u64) -> nat {
    (x as nat) % (FIELD52 as nat)
}

/// `a` plus the low 52 bits of the 104-bit product of `b` and `c`'s low 52 bits, wrapping
/// (`vpmadd52luq`).
pub open spec fn madd52lo(a: u64, b: u64, c: u64) -> u64 {
    a.wrapping_add(((low52(b) * low52(c)) % (FIELD52 as nat)) as u64)
}

/// `a` plus the high 52 bits of the 104-bit product of `b` and `c`'s low 52 bits, wrapping
/// (`vpmadd52huq`).
pub open spec fn madd52hi(a: u64, b: u64, c: u64) -> u64 {
    a.wrapping_add(((low52(b) * low52(c)) / (FIELD52 as nat)) as u64)
}

/// The exact 104-bit product of the low 52 bits of `b` and `c`.
fn product52(b: u64, c: u64) -> (p: u128)
    ensures
        p == low52(b) * low52(c),
        p < 0x100_0000_0000_0000_0000_0000_0000,
{
    let b52 = b % FIELD52;
    let c52 = c % FIELD52;
    assert((b52 as int) * (c52 as int) < 0x100_0000_0000_0000_0000_0000_0000) by (nonlinear_arith)
        requires
            b52 < 0x10_0000_0000_0000,
            c52 < 0x10_0000_0000_0000,
    ;
    b52 as u128 * c52 as u128
}

fn madd52lo_exec(a: u64, b: u64, c: u64) -> (r: u64)
    ensures
        r == madd52lo(a, b, c),
{
    let p = product52(b, c);
    a.wrapping_add((p % (FIELD52 as u128)) as u64)
}

fn madd52hi_exec(a: u64, b: u64, c: u64) -> (r: u64)
    ensures
        r == madd52hi(a, b, c),
{
    let p = product52(b, c);
    assert(p / 0x10_0000_0000_0000 < 0x10_0000_0000_0000) by (nonlinear_arith)
        requires
            p < 0x100_0000_0000_0000_0000_0000_0000,
    ;
    a.wrapping_add((p / (FIELD52 as u128)) as u64)
}

/// `low52` is the value of the low 52 bits: below `2^52`, and congruent to `x` modulo `2^52`.
/// With a zero accumulator the IFMA forms return the low and the high 52 bits of the 104-bit
/// product of the operands' low 52 bits, so the two together give the exact product back.
pub proof fn lemma_madd52_product_split(b: u64, c: u64)
    ensures
        low52(b) < FIELD52,
        (b - low52(b)) % (FIELD52 as int) == 0,
        madd52lo(0, b, c) < FIELD52,
        madd52hi(0, b, c) < FIELD52,
        low52(b) * low52(c) == madd52lo(0, b, c) + madd52hi(0, b, c) * FIELD52,
{
    let f = FIELD52 as int;
    let p: int = (low52(b) * low52(c)) as int;
    lemma_fundamental_div_mod(b as int, f);
    lemma_fundamental_div_mod(p, f);
    assert(p < 0x100_0000_0000_0000_0000_0000_0000) by (nonlinear_arith)
        requires
            p == low52(b) * low52(c),
            low52(b) < 0x10_0000_0000_0000,
            low52(c) < 0x10_0000_0000_0000,
    ;
    assert(p / f < f) by (nonlinear_arith)
        requires
            f == 0x10_0000_0000_0000,
            0 <= p < 0x100_0000_0000_0000_0000_0000_0000,
    ;
}

/// Both IFMA forms add into the whole 64-bit accumulator, wrapping modulo `2^64`: the result
/// is the accumulator plus what the same operands give with a zero accumulator.
pub proof fn lemma_madd52_accumulates(a: u64, b: u64, c: u64)
    ensures
        madd52lo(a, b, c) as int == (a as int + madd52lo(0, b, c) as int) % 0x1_0000_0000_0000_0000,
        madd52hi(a, b, c) as int == (a as int + madd52hi(0, b, c) as int) % 0x1_0000_0000_0000_0000,
{
    lemma_madd52_product_split(b, c);
}

impl Avx512BitalgVl {
    /// Per-lane population count (`vpopcntb`, 128-bit).
    pub fn popcnt_u8x16(self, a: [u8; 16]) -> (r: [u8; 16])
        ensures
            forall|i: int| 0 <= i < 16 ==> r[i] == popcount(a[i] as nat) as u8,
    {
        let mut out = [0u8; 16];
        let mut i: usize = 0;
        while i < 16
            invariant
                i <= 16,
                forall|j: int| 0 <= j < i ==> out[j] == popcount(a[j] as nat) as u8,
            decreases 16 - i,
        {
            out[i] = popcount_u32(a[i] as u32) as u8;
            i += 1;
        }
        out
    }

    /// `out[i] = a[i].count_ones()`. 16-wide chunks, scalar remainder.
    pub fn popcnt_u8_slice(self, a: &[u8], out: &mut [u8])
        requires
            old(out)@.len() == a@.len(),
        ensures
            final(out)@.len() == a@.len(),
            forall|i: int| 0 <= i < a@.len() ==> final(out)@[i] == popcount(a@[i] as nat) as u8,
    {
        let len = a.len();
        let mut i: usize = 0;
        while len - i >= 16
            invariant
                i <= len,
                len == a@.len(),
                out@.len() == len,
                forall|j: int| 0 <= j < i ==> out@[j] == popcount(a@[j] as nat) as u8,
            decreases len - i,
        {
            let r = self.popcnt_u8x16(loadu_u8x16(a, i));
            storeu_u8x16(out, i, r);
            i += 16;
        }
        while i < len
            invariant
                i <= len,
                len == a@.len(),
                out@.len() == len,
                forall|j: int| 0 <= j < i ==> out@[j] == popcount(a@[j] as nat) as u8,
            decreases len - i,
        {
            out[i] = popcount_u32(a[i] as u32) as u8;
            i += 1;
        }
    }

    /// Per-lane population count (`vpopcntb`, 256-bit).
    pub fn popcnt_u8x32(self, a: [u8; 32]) -> (r: [u8; 32])
        ensures
            forall|i: int| 0 <= i < 32 ==> r[i] == popcount(a[i] as nat) as u8,
    {
        let mut out = [0u8; 32];
        let mut i: usize = 0;
        while i < 32
            invariant
                i <= 32,
                forall|j: int| 0 <= j < i ==> out[j] == popcount(a[j] as nat) as u8,
            decreases 32 - i,
        {
            out[i] = popcount_u32(a[i] as u32) as u8;
            i += 1;
        }
        out
    }

    /// `out[i] = a[i].count_ones()`. 32-wide chunks, scalar remainder.
    pub fn popcnt_u8_slice_wide(self, a: &[u8], out: &mut [u8])
        requires
            old(out)@.len() == a@.len(),
        ensures
            final(out)@.len() == a@.len(),
            forall|i: int| 0 <= i < a@.len() ==> final(out)@[i] == popcount(a@[i] as nat) as u8,
    {
        let len = a.len();
        let mut i: usize = 0;
        while len - i >= 32
            invariant
                i <= len,
                len == a@.len(),
                out@.len() == len,
                forall|j: int| 0 <= j < i ==> out@[j] == popcount(a@[j] as nat) as u8,
            decreases len - i,
        {
            let r = self.popcnt_u8x32(loadu_u8x32(a, i));
            storeu_u8x32(out, i, r);
            i += 32;
        }
        while i < len
            invariant
                i <= len,
                len == a@.len(),
                out@.len() == len,
                forall|j: int| 0 <= j < i ==> out@[j] == popcount(a@[j] as nat) as u8,
            decreases len - i,
        {
            out[i] = popcount_u32(a[i] as u32) as u8;
            i += 1;
        }
    }

    /// Per-lane population count (`vpopcntw`, 128-bit).
    pub fn popcnt_u16x8(self, a: [u16; 8]) -> (r: [u16; 8])
        ensures
            forall|i: int| 0 <= i < 8 ==> r[i] == popcount(a[i] as nat) as u16,
    {
        let mut out = [0u16; 8];
        let mut i: usize = 0;
        while i < 8
            invariant
                i <= 8,
                forall|j: int| 0 <= j < i ==> out[j] == popcount(a[j] as nat) as u16,
            decreases 8 - i,
        {
            out[i] = popcount_u32(a[i] as u32) as u16;
            i += 1;
        }
        out
    }

    /// `out[i] = a[i].count_ones()`. 8-wide chunks, scalar remainder.
    pub fn popcnt_u16_slice(self, a: &[u16], out: &mut [u16])
        requires
            old(out)@.len() == a@.len(),
        ensures
            final(out)@.len() == a@.len(),
            forall|i: int| 0 <= i < a@.len() ==> final(out)@[i] == popcount(a@[i] as nat) as u16,
    {
        let len = a.len();
        let mut i: usize = 0;
        while len - i >= 8
            invariant
                i <= len,
                len == a@.len(),
                out@.len() == len,
                forall|j: int| 0 <= j < i ==> out@[j] == popcount(a@[j] as nat) as u16,
            decreases len - i,
        {
            let r = self.popcnt_u16x8(loadu_u16x8(a, i));
            storeu_u16x8(out, i, r);
            i += 8;
        }
        while i < len
            invariant
                i <= len,
                len == a@.len(),
                out@.len() == len,
                forall|j: int| 0 <= j < i ==> out@[j] == popcount(a@[j] as nat) as u16,
            decreases len - i,
        {
            out[i] = popcount_u32(a[i] as u32) as u16;
            i += 1;
        }
    }

    /// Per-lane population count (`vpopcntw`, 256-bit).
    pub fn popcnt_u16x16(self, a: [u16; 16]) -> (r: [u16; 16])
        ensures
            forall|i: int| 0 <= i < 16 ==> r[i] == popcount(a[i] as nat) as u16,
    {
        let mut out = [0u16; 16];
        let mut i: usize = 0;
        while i < 16
            invariant
                i <= 16,
                forall|j: int| 0 <= j < i ==> out[j] == popcount(a[j] as nat) as u16,
            decreases 16 - i,
        {
            out[i] = popcount_u32(a[i] as u32) as u16;
            i += 1;
        }
        out
    }

    /// `out[i] = a[i].count_ones()`. 16-wide chunks, scalar remainder.
    pub fn popcnt_u16_slice_wide(self, a: &[u16], out: &mut [u16])
        requires
            old(out)@.len() == a@.len(),
        ensures
            final(out)@.len() == a@.len(),
            forall|i: int| 0 <= i < a@.len() ==> final(out)@[i] == popcount(a@[i] as nat) as u16,
    {
        let len = a.len();
        let mut i: usize = 0;
        while len - i >= 16
            invariant
                i <= len,
                len == a@.len(),
                out@.len() == len,
                forall|j: int| 0 <= j < i ==> out@[j] == popcount(a@[j] as nat) as u16,
            decreases len - i,
        {
            let r = self.popcnt_u16x16(loadu_u16x16(a, i));
            storeu_u16x16(out, i, r);
            i += 16;
        }
        while i < len
            invariant
                i <= len,
                len == a@.len(),
                out@.len() == len,
                forall|j: int| 0 <= j < i ==> out@[j] == popcount(a@[j] as nat) as u16,
            decreases len - i,
        {
            out[i] = popcount_u32(a[i] as u32) as u16;
            i += 1;
        }
    }
}

impl Avx512VpopcntdqVl {
    /// Per-lane population count (`vpopcntd`, 128-bit).
    pub fn popcnt_u32x4(self, a: [u32; 4]) -> (r: [u32; 4])
        ensures
            forall|i: int| 0 <= i < 4 ==> r[i] == popcount(a[i] as nat) as u32,
    {
        let mut out = [0u32; 4];
        let mut i: usize = 0;
        while i < 4
            invariant
                i <= 4,
                forall|j: int| 0 <= j < i ==> out[j] == popcount(a[j] as nat) as u32,
            decreases 4 - i,
        {
            out[i] = popcount_u32(a[i]);
            i += 1;
        }
        out
    }

    /// `out[i] = a[i].count_ones()`. 4-wide chunks, scalar remainder.
    pub fn popcnt_u32_slice(self, a: &[u32], out: &mut [u32])
        requires
            old(out)@.len() == a@.len(),
        ensures
            final(out)@.len() == a@.len(),
            forall|i: int| 0 <= i < a@.len() ==> final(out)@[i] == popcount(a@[i] as nat) as u32,
    {
        let len = a.len();
        let mut i: usize = 0;
        while len - i >= 4
            invariant
                i <= len,
                len == a@.len(),
                out@.len() == len,
                forall|j: int| 0 <= j < i ==> out@[j] == popcount(a@[j] as nat) as u32,
            decreases len - i,
        {
            let r = self.popcnt_u32x4(loadu_u32x4(a, i));
            storeu_u32x4(out, i, r);
            i += 4;
        }
        while i < len
            invariant
                i <= len,
                len == a@.len(),
                out@.len() == len,
                forall|j: int| 0 <= j < i ==> out@[j] == popcount(a@[j] as nat) as u32,
            decreases len - i,
        {
            out[i] = popcount_u32(a[i]);
            i += 1;
        }
    }

    /// Per-lane population count (`vpopcntd`, 256-bit).
    pub fn popcnt_u32x8(self, a: [u32; 8]) -> (r: [u32; 8])
        ensures
            forall|i: int| 0 <= i < 8 ==> r[i] == popcount(a[i] as nat) as u32,
    {
        let mut out = [0u32; 8];
        let mut i: usize = 0;
        while i < 8
            invariant
                i <= 8,
                forall|j: int| 0 <= j < i ==> out[j] == popcount(a[j] as nat) as u32,
            decreases 8 - i,
        {
            out[i] = popcount_u32(a[i]);
            i += 1;
        }
        out
    }

    /// `out[i] = a[i].count_ones()`. 8-wide chunks, scalar remainder.
    pub fn popcnt_u32_slice_wide(self, a: &[u32], out: &mut [u32])
        requires
            old(out)@.len() == a@.len(),
        ensures
            final(out)@.len() == a@.len(),
            forall|i: int| 0 <= i < a@.len() ==> final(out)@[i] == popcount(a@[i] as nat) as u32,
    {
        let len = a.len();
        let mut i: usize = 0;
        while len - i >= 8
            invariant
                i <= len,
                len == a@.len(),
                out@.len() == len,
                forall|j: int| 0 <= j < i ==> out@[j] == popcount(a@[j] as nat) as u32,
            decreases len - i,
        {
            let r = self.popcnt_u32x8(loadu_u32x8(a, i));
            storeu_u32x8(out, i, r);
            i += 8;
        }
        while i < len
            invariant
                i <= len,
                len == a@.len(),
                out@.len() == len,
                forall|j: int| 0 <= j < i ==> out@[j] == popcount(a@[j] as nat) as u32,
            decreases len - i,
        {
            out[i] = popcount_u32(a[i]);
            i += 1;
        }
    }

    /// Per-lane population count (`vpopcntq`, 128-bit).
    pub fn popcnt_u64x2(self, a: [u64; 2]) -> (r: [u64; 2])
        ensures
            forall|i: int| 0 <= i < 2 ==> r[i] == popcount(a[i] as nat) as u64,
    {
        let mut out = [0u64; 2];
        let mut i: usize = 0;
        while i < 2
            invariant
                i <= 2,
                forall|j: int| 0 <= j < i ==> out[j] == popcount(a[j] as nat) as u64,
            decreases 2 - i,
        {
            out[i] = popcount_u64(a[i]);
            i += 1;
        }
        out
    }

    /// `out[i] = a[i].count_ones()`. 2-wide chunks, scalar remainder.
    pub fn popcnt_u64_slice(self, a: &[u64], out: &mut [u64])
        requires
            old(out)@.len() == a@.len(),
        ensures
            final(out)@.len() == a@.len(),
            forall|i: int| 0 <= i < a@.len() ==> final(out)@[i] == popcount(a@[i] as nat) as u64,
    {
        let len = a.len();
        let mut i: usize = 0;
        while len - i >= 2
            invariant
                i <= len,
                len == a@.len(),
                out@.len() == len,
                forall|j: int| 0 <= j < i ==> out@[j] == popcount(a@[j] as nat) as u64,
            decreases len - i,
        {
            let r = self.popcnt_u64x2(loadu_u64x2(a, i));
            storeu_u64x2(out, i, r);
            i += 2;
        }
        while i < len
            invariant
                i <= len,
                len == a@.len(),
                out@.len() == len,
                forall|j: int| 0 <= j < i ==> out@[j] == popcount(a@[j] as nat) as u64,
            decreases len - i,
        {
            out[i] = popcount_u64(a[i]);
            i += 1;
        }
    }

    /// Per-lane population count (`vpopcntq`, 256-bit).
    pub fn popcnt_u64x4(self, a: [u64; 4]) -> (r: [u64; 4])
        ensures
            forall|i: int| 0 <= i < 4 ==> r[i] == popcount(a[i] as nat) as u64,
    {
        let mut out = [0u64; 4];
        let mut i: usize = 0;
        while i < 4
            invariant
                i <= 4,
                forall|j: int| 0 <= j < i ==> out[j] == popcount(a[j] as nat) as u64,
            decreases 4 - i,
        {
            out[i] = popcount_u64(a[i]);
            i += 1;
        }
        out
    }

    /// `out[i] = a[i].count_ones()`. 4-wide chunks, scalar remainder.
    pub fn popcnt_u64_slice_wide(self, a: &[u64], out: &mut [u64])
        requires
            old(out)@.len() == a@.len(),
        ensures
            final(out)@.len() == a@.len(),
            forall|i: int| 0 <= i < a@.len() ==> final(out)@[i] == popcount(a@[i] as nat) as u64,
    {
        let len = a.len();
        let mut i: usize = 0;
        while len - i >= 4
            invariant
                i <= len,
                len == a@.len(),
                out@.len() == len,
                forall|j: int| 0 <= j < i ==> out@[j] == popcount(a@[j] as nat) as u64,
            decreases len - i,
        {
            let r = self.popcnt_u64x4(loadu_u64x4(a, i));
            storeu_u64x4(out, i, r);
            i += 4;
        }
        while i < len
            invariant
                i <= len,
                len == a@.len(),
                out@.len() == len,
                forall|j: int| 0 <= j < i ==> out@[j] == popcount(a@[j] as nat) as u64,
            decreases len - i,
        {
            out[i] = popcount_u64(a[i]);
            i += 1;
        }
    }
}

impl Avx512DqVl {
    /// `a * b` per lane, low 64 bits (`vpmullq`, 128-bit).
    pub fn mullo_i64x2(self, a: [i64; 2], b: [i64; 2]) -> (r: [i64; 2])
        ensures
            forall|i: int| 0 <= i < 2 ==> r[i] == a[i].wrapping_mul(b[i]),
    {
        let mut out = [0i64; 2];
        let mut i: usize = 0;
        while i < 2
            invariant
                i <= 2,
                forall|j: int| 0 <= j < i ==> out[j] == a[j].wrapping_mul(b[j]),
            decreases 2 - i,
        {
            out[i] = a[i].wrapping_mul(b[i]);
            i += 1;
        }
        out
    }

    /// `out[i] = a[i].wrapping_mul(b[i])`. 2-wide chunks, scalar remainder.
    pub fn mullo_i64_slice(self, a: &[i64], b: &[i64], out: &mut [i64])
        requires
            b@.len() == a@.len(),
            old(out)@.len() == a@.len(),
        ensures
            final(out)@.len() == a@.len(),
            forall|i: int| 0 <= i < a@.len() ==> final(out)@[i] == a@[i].wrapping_mul(b@[i]),
    {
        let len = a.len();
        let mut i: usize = 0;
        while len - i >= 2
            invariant
                i <= len,
                len == a@.len(),
                len == b@.len(),
                out@.len() == len,
                forall|j: int| 0 <= j < i ==> out@[j] == a@[j].wrapping_mul(b@[j]),
            decreases len - i,
        {
            let r = self.mullo_i64x2(loadu_i64x2(a, i), loadu_i64x2(b, i));
            storeu_i64x2(out, i, r);
            i += 2;
        }
        while i < len
            invariant
                i <= len,
                len == a@.len(),
                len == b@.len(),
                out@.len() == len,
                forall|j: int| 0 <= j < i ==> out@[j] == a@[j].wrapping_mul(b@[j]),
            decreases len - i,
        {
            out[i] = a[i].wrapping_mul(b[i]);
            i += 1;
        }
    }

    /// [`Avx512DqVl::mullo_i64x2`] where `mask` bit is set, else copied from `src` (`vpmullq`, merge-masked).
    pub fn mullo_i64x2_merge_masked(self, src: [i64; 2], mask: u8, a: [i64; 2], b: [i64; 2]) -> (r: [i64; 2])
        ensures
            forall|i: int|
                0 <= i < 2 ==> r[i] == if (mask >> i as u8) % 2 == 1 {
                    a[i].wrapping_mul(b[i])
                } else {
                    src[i]
                },
    {
        let full = self.mullo_i64x2(a, b);
        let mut out = [0i64; 2];
        let mut i: usize = 0;
        while i < 2
            invariant
                i <= 2,
                forall|j: int| 0 <= j < 2 ==> full[j] == a[j].wrapping_mul(b[j]),
                forall|j: int| 0 <= j < i ==> out[j] == (if (mask >> j as u8) % 2 == 1 { a[j].wrapping_mul(b[j]) } else { src[j] }),
            decreases 2 - i,
        {
            out[i] = if (mask >> i as u8) % 2 == 1 { full[i] } else { src[i] };
            i += 1;
        }
        out
    }

    /// [`Avx512DqVl::mullo_i64x2`] where `mask` bit is set, else zero (`vpmullq`, zero-masked).
    pub fn mullo_i64x2_zero_masked(self, mask: u8, a: [i64; 2], b: [i64; 2]) -> (r: [i64; 2])
        ensures
            forall|i: int|
                0 <= i < 2 ==> r[i] == if (mask >> i as u8) % 2 == 1 {
                    a[i].wrapping_mul(b[i])
                } else {
                    0
                },
    {
        let full = self.mullo_i64x2(a, b);
        let mut out = [0i64; 2];
        let mut i: usize = 0;
        while i < 2
            invariant
                i <= 2,
                forall|j: int| 0 <= j < 2 ==> full[j] == a[j].wrapping_mul(b[j]),
                forall|j: int| 0 <= j < i ==> out[j] == (if (mask >> j as u8) % 2 == 1 { a[j].wrapping_mul(b[j]) } else { 0 }),
            decreases 2 - i,
        {
            out[i] = if (mask >> i as u8) % 2 == 1 { full[i] } else { 0 };
            i += 1;
        }
        out
    }

    /// `a * b` per lane, low 64 bits (`vpmullq`, 256-bit).
    pub fn mullo_i64x4(self, a: [i64; 4], b: [i64; 4]) -> (r: [i64; 4])
        ensures
            forall|i: int| 0 <= i < 4 ==> r[i] == a[i].wrapping_mul(b[i]),
    {
        let mut out = [0i64; 4];
        let mut i: usize = 0;
        while i < 4
            invariant
                i <= 4,
                forall|j: int| 0 <= j < i ==> out[j] == a[j].wrapping_mul(b[j]),
            decreases 4 - i,
        {
            out[i] = a[i].wrapping_mul(b[i]);
            i += 1;
        }
        out
    }

    /// `out[i] = a[i].wrapping_mul(b[i])`. 4-wide chunks, scalar remainder.
    pub fn mullo_i64_slice_wide(self, a: &[i64], b: &[i64], out: &mut [i64])
        requires
            b@.len() == a@.len(),
            old(out)@.len() == a@.len(),
        ensures
            final(out)@.len() == a@.len(),
            forall|i: int| 0 <= i < a@.len() ==> final(out)@[i] == a@[i].wrapping_mul(b@[i]),
    {
        let len = a.len();
        let mut i: usize = 0;
        while len - i >= 4
            invariant
                i <= len,
                len == a@.len(),
                len == b@.len(),
                out@.len() == len,
                forall|j: int| 0 <= j < i ==> out@[j] == a@[j].wrapping_mul(b@[j]),
            decreases len - i,
        {
            let r = self.mullo_i64x4(loadu_i64x4(a, i), loadu_i64x4(b, i));
            storeu_i64x4(out, i, r);
            i += 4;
        }
        while i < len
            invariant
                i <= len,
                len == a@.len(),
                len == b@.len(),
                out@.len() == len,
                forall|j: int| 0 <= j < i ==> out@[j] == a@[j].wrapping_mul(b@[j]),
            decreases len - i,
        {
            out[i] = a[i].wrapping_mul(b[i]);
            i += 1;
        }
    }

    /// [`Avx512DqVl::mullo_i64x4`] where `mask` bit is set, else copied from `src` (`vpmullq`, merge-masked).
    pub fn mullo_i64x4_merge_masked(self, src: [i64; 4], mask: u8, a: [i64; 4], b: [i64; 4]) -> (r: [i64; 4])
        ensures
            forall|i: int|
                0 <= i < 4 ==> r[i] == if (mask >> i as u8) % 2 == 1 {
                    a[i].wrapping_mul(b[i])
                } else {
                    src[i]
                },
    {
        let full = self.mullo_i64x4(a, b);
        let mut out = [0i64; 4];
        let mut i: usize = 0;
        while i < 4
            invariant
                i <= 4,
                forall|j: int| 0 <= j < 4 ==> full[j] == a[j].wrapping_mul(b[j]),
                forall|j: int| 0 <= j < i ==> out[j] == (if (mask >> j as u8) % 2 == 1 { a[j].wrapping_mul(b[j]) } else { src[j] }),
            decreases 4 - i,
        {
            out[i] = if (mask >> i as u8) % 2 == 1 { full[i] } else { src[i] };
            i += 1;
        }
        out
    }

    /// [`Avx512DqVl::mullo_i64x4`] where `mask` bit is set, else zero (`vpmullq`, zero-masked).
    pub fn mullo_i64x4_zero_masked(self, mask: u8, a: [i64; 4], b: [i64; 4]) -> (r: [i64; 4])
        ensures
            forall|i: int|
                0 <= i < 4 ==> r[i] == if (mask >> i as u8) % 2 == 1 {
                    a[i].wrapping_mul(b[i])
                } else {
                    0
                },
    {
        let full = self.mullo_i64x4(a, b);
        let mut out = [0i64; 4];
        let mut i: usize = 0;
        while i < 4
            invariant
                i <= 4,
                forall|j: int| 0 <= j < 4 ==> full[j] == a[j].wrapping_mul(b[j]),
                forall|j: int| 0 <= j < i ==> out[j] == (if (mask >> j as u8) % 2 == 1 { a[j].wrapping_mul(b[j]) } else { 0 }),
            decreases 4 - i,
        {
            out[i] = if (mask >> i as u8) % 2 == 1 { full[i] } else { 0 };
            i += 1;
        }
        out
    }

    /// `a * b` per lane, low 64 bits (`vpmullq`, 128-bit).
    pub fn mullo_u64x2(self, a: [u64; 2], b: [u64; 2]) -> (r: [u64; 2])
        ensures
            forall|i: int| 0 <= i < 2 ==> r[i] == a[i].wrapping_mul(b[i]),
    {
        let mut out = [0u64; 2];
        let mut i: usize = 0;
        while i < 2
            invariant
                i <= 2,
                forall|j: int| 0 <= j < i ==> out[j] == a[j].wrapping_mul(b[j]),
            decreases 2 - i,
        {
            out[i] = a[i].wrapping_mul(b[i]);
            i += 1;
        }
        out
    }

    /// `out[i] = a[i].wrapping_mul(b[i])`. 2-wide chunks, scalar remainder.
    pub fn mullo_u64_slice(self, a: &[u64], b: &[u64], out: &mut [u64])
        requires
            b@.len() == a@.len(),
            old(out)@.len() == a@.len(),
        ensures
            final(out)@.len() == a@.len(),
            forall|i: int| 0 <= i < a@.len() ==> final(out)@[i] == a@[i].wrapping_mul(b@[i]),
    {
        let len = a.len();
        let mut i: usize = 0;
        while len - i >= 2
            invariant
                i <= len,
                len == a@.len(),
                len == b@.len(),
                out@.len() == len,
                forall|j: int| 0 <= j < i ==> out@[j] == a@[j].wrapping_mul(b@[j]),
            decreases len - i,
        {
            let r = self.mullo_u64x2(loadu_u64x2(a, i), loadu_u64x2(b, i));
            storeu_u64x2(out, i, r);
            i += 2;
        }
        while i < len
            invariant
                i <= len,
                len == a@.len(),
                len == b@.len(),
                out@.len() == len,
                forall|j: int| 0 <= j < i ==> out@[j] == a@[j].wrapping_mul(b@[j]),
            decreases len - i,
        {
            out[i] = a[i].wrapping_mul(b[i]);
            i += 1;
        }
    }

    /// [`Avx512DqVl::mullo_u64x2`] where `mask` bit is set, else copied from `src` (`vpmullq`, merge-masked).
    pub fn mullo_u64x2_merge_masked(self, src: [u64; 2], mask: u8, a: [u64; 2], b: [u64; 2]) -> (r: [u64; 2])
        ensures
            forall|i: int|
                0 <= i < 2 ==> r[i] == if (mask >> i as u8) % 2 == 1 {
                    a[i].wrapping_mul(b[i])
                } else {
                    src[i]
                },
    {
        let full = self.mullo_u64x2(a, b);
        let mut out = [0u64; 2];
        let mut i: usize = 0;
        while i < 2
            invariant
                i <= 2,
                forall|j: int| 0 <= j < 2 ==> full[j] == a[j].wrapping_mul(b[j]),
                forall|j: int| 0 <= j < i ==> out[j] == (if (mask >> j as u8) % 2 == 1 { a[j].wrapping_mul(b[j]) } else { src[j] }),
            decreases 2 - i,
        {
            out[i] = if (mask >> i as u8) % 2 == 1 { full[i] } else { src[i] };
            i += 1;
        }
        out
    }

    /// [`Avx512DqVl::mullo_u64x2`] where `mask` bit is set, else zero (`vpmullq`, zero-masked).
    pub fn mullo_u64x2_zero_masked(self, mask: u8, a: [u64; 2], b: [u64; 2]) -> (r: [u64; 2])
        ensures
            forall|i: int|
                0 <= i < 2 ==> r[i] == if (mask >> i as u8) % 2 == 1 {
                    a[i].wrapping_mul(b[i])
                } else {
                    0
                },
    {
        let full = self.mullo_u64x2(a, b);
        let mut out = [0u64; 2];
        let mut i: usize = 0;
        while i < 2
            invariant
                i <= 2,
                forall|j: int| 0 <= j < 2 ==> full[j] == a[j].wrapping_mul(b[j]),
                forall|j: int| 0 <= j < i ==> out[j] == (if (mask >> j as u8) % 2 == 1 { a[j].wrapping_mul(b[j]) } else { 0 }),
            decreases 2 - i,
        {
            out[i] = if (mask >> i as u8) % 2 == 1 { full[i] } else { 0 };
            i += 1;
        }
        out
    }

    /// `a * b` per lane, low 64 bits (`vpmullq`, 256-bit).
    pub fn mullo_u64x4(self, a: [u64; 4], b: [u64; 4]) -> (r: [u64; 4])
        ensures
            forall|i: int| 0 <= i < 4 ==> r[i] == a[i].wrapping_mul(b[i]),
    {
        let mut out = [0u64; 4];
        let mut i: usize = 0;
        while i < 4
            invariant
                i <= 4,
                forall|j: int| 0 <= j < i ==> out[j] == a[j].wrapping_mul(b[j]),
            decreases 4 - i,
        {
            out[i] = a[i].wrapping_mul(b[i]);
            i += 1;
        }
        out
    }

    /// `out[i] = a[i].wrapping_mul(b[i])`. 4-wide chunks, scalar remainder.
    pub fn mullo_u64_slice_wide(self, a: &[u64], b: &[u64], out: &mut [u64])
        requires
            b@.len() == a@.len(),
            old(out)@.len() == a@.len(),
        ensures
            final(out)@.len() == a@.len(),
            forall|i: int| 0 <= i < a@.len() ==> final(out)@[i] == a@[i].wrapping_mul(b@[i]),
    {
        let len = a.len();
        let mut i: usize = 0;
        while len - i >= 4
            invariant
                i <= len,
                len == a@.len(),
                len == b@.len(),
                out@.len() == len,
                forall|j: int| 0 <= j < i ==> out@[j] == a@[j].wrapping_mul(b@[j]),
            decreases len - i,
        {
            let r = self.mullo_u64x4(loadu_u64x4(a, i), loadu_u64x4(b, i));
            storeu_u64x4(out, i, r);
            i += 4;
        }
        while i < len
            invariant
                i <= len,
                len == a@.len(),
                len == b@.len(),
                out@.len() == len,
                forall|j: int| 0 <= j < i ==> out@[j] == a@[j].wrapping_mul(b@[j]),
            decreases len - i,
        {
            out[i] = a[i].wrapping_mul(b[i]);
            i += 1;
        }
    }

    /// [`Avx512DqVl::mullo_u64x4`] where `mask` bit is set, else copied from `src` (`vpmullq`, merge-masked).
    pub fn mullo_u64x4_merge_masked(self, src: [u64; 4], mask: u8, a: [u64; 4], b: [u64; 4]) -> (r: [u64; 4])
        ensures
            forall|i: int|
                0 <= i < 4 ==> r[i] == if (mask >> i as u8) % 2 == 1 {
                    a[i].wrapping_mul(b[i])
                } else {
                    src[i]
                },
    {
        let full = self.mullo_u64x4(a, b);
        let mut out = [0u64; 4];
        let mut i: usize = 0;
        while i < 4
            invariant
                i <= 4,
                forall|j: int| 0 <= j < 4 ==> full[j] == a[j].wrapping_mul(b[j]),
                forall|j: int| 0 <= j < i ==> out[j] == (if (mask >> j as u8) % 2 == 1 { a[j].wrapping_mul(b[j]) } else { src[j] }),
            decreases 4 - i,
        {
            out[i] = if (mask >> i as u8) % 2 == 1 { full[i] } else { src[i] };
            i += 1;
        }
        out
    }

    /// [`Avx512DqVl::mullo_u64x4`] where `mask` bit is set, else zero (`vpmullq`, zero-masked).
    pub fn mullo_u64x4_zero_masked(self, mask: u8, a: [u64; 4], b: [u64; 4]) -> (r: [u64; 4])
        ensures
            forall|i: int|
                0 <= i < 4 ==> r[i] == if (mask >> i as u8) % 2 == 1 {
                    a[i].wrapping_mul(b[i])
                } else {
                    0
                },
    {
        let full = self.mullo_u64x4(a, b);
        let mut out = [0u64; 4];
        let mut i: usize = 0;
        while i < 4
            invariant
                i <= 4,
                forall|j: int| 0 <= j < 4 ==> full[j] == a[j].wrapping_mul(b[j]),
                forall|j: int| 0 <= j < i ==> out[j] == (if (mask >> j as u8) % 2 == 1 { a[j].wrapping_mul(b[j]) } else { 0 }),
            decreases 4 - i,
        {
            out[i] = if (mask >> i as u8) % 2 == 1 { full[i] } else { 0 };
            i += 1;
        }
        out
    }

    /// Broadcasts `a`'s lower 2 `i32` lanes across all 8 output lanes; `a`'s upper 2 lanes are ignored (`vbroadcasti32x2`, 256-bit).
    pub fn broadcast_i32x2_to_x8(self, a: [i32; 4]) -> (r: [i32; 8])
        ensures
            forall|i: int| 0 <= i < 8 ==> r[i] == a[i % 2],
    {
        let mut out = [0i32; 8];
        let mut i: usize = 0;
        while i < 8
            invariant
                i <= 8,
                forall|j: int| 0 <= j < i ==> out[j] == a[j % 2],
            decreases 8 - i,
        {
            out[i] = a[i % 2];
            i += 1;
        }
        out
    }

    /// [`Avx512DqVl::broadcast_i32x2_to_x8`] where `mask` bit is set, else copied from `src` (`vbroadcasti32x2`, merge-masked).
    pub fn broadcast_i32x2_to_x8_merge_masked(self, src: [i32; 8], mask: u8, a: [i32; 4]) -> (r: [i32; 8])
        ensures
            forall|i: int|
                0 <= i < 8 ==> r[i] == if (mask >> i as u8) % 2 == 1 {
                    a[i % 2]
                } else {
                    src[i]
                },
    {
        let full = self.broadcast_i32x2_to_x8(a);
        let mut out = [0i32; 8];
        let mut i: usize = 0;
        while i < 8
            invariant
                i <= 8,
                forall|j: int| 0 <= j < 8 ==> full[j] == a[j % 2],
                forall|j: int| 0 <= j < i ==> out[j] == (if (mask >> j as u8) % 2 == 1 { a[j % 2] } else { src[j] }),
            decreases 8 - i,
        {
            out[i] = if (mask >> i as u8) % 2 == 1 { full[i] } else { src[i] };
            i += 1;
        }
        out
    }

    /// [`Avx512DqVl::broadcast_i32x2_to_x8`] where `mask` bit is set, else zero (`vbroadcasti32x2`, zero-masked).
    pub fn broadcast_i32x2_to_x8_zero_masked(self, mask: u8, a: [i32; 4]) -> (r: [i32; 8])
        ensures
            forall|i: int|
                0 <= i < 8 ==> r[i] == if (mask >> i as u8) % 2 == 1 {
                    a[i % 2]
                } else {
                    0
                },
    {
        let full = self.broadcast_i32x2_to_x8(a);
        let mut out = [0i32; 8];
        let mut i: usize = 0;
        while i < 8
            invariant
                i <= 8,
                forall|j: int| 0 <= j < 8 ==> full[j] == a[j % 2],
                forall|j: int| 0 <= j < i ==> out[j] == (if (mask >> j as u8) % 2 == 1 { a[j % 2] } else { 0 }),
            decreases 8 - i,
        {
            out[i] = if (mask >> i as u8) % 2 == 1 { full[i] } else { 0 };
            i += 1;
        }
        out
    }

    /// Broadcasts `a`'s 2 `i64` lanes across all 4 output lanes (`vbroadcasti64x2`, 256-bit).
    pub fn broadcast_i64x2_to_x4(self, a: [i64; 2]) -> (r: [i64; 4])
        ensures
            forall|i: int| 0 <= i < 4 ==> r[i] == a[i % 2],
    {
        let mut out = [0i64; 4];
        let mut i: usize = 0;
        while i < 4
            invariant
                i <= 4,
                forall|j: int| 0 <= j < i ==> out[j] == a[j % 2],
            decreases 4 - i,
        {
            out[i] = a[i % 2];
            i += 1;
        }
        out
    }

    /// [`Avx512DqVl::broadcast_i64x2_to_x4`] where `mask` bit is set, else copied from `src` (`vbroadcasti64x2`, merge-masked).
    pub fn broadcast_i64x2_to_x4_merge_masked(self, src: [i64; 4], mask: u8, a: [i64; 2]) -> (r: [i64; 4])
        ensures
            forall|i: int|
                0 <= i < 4 ==> r[i] == if (mask >> i as u8) % 2 == 1 {
                    a[i % 2]
                } else {
                    src[i]
                },
    {
        let full = self.broadcast_i64x2_to_x4(a);
        let mut out = [0i64; 4];
        let mut i: usize = 0;
        while i < 4
            invariant
                i <= 4,
                forall|j: int| 0 <= j < 4 ==> full[j] == a[j % 2],
                forall|j: int| 0 <= j < i ==> out[j] == (if (mask >> j as u8) % 2 == 1 { a[j % 2] } else { src[j] }),
            decreases 4 - i,
        {
            out[i] = if (mask >> i as u8) % 2 == 1 { full[i] } else { src[i] };
            i += 1;
        }
        out
    }

    /// [`Avx512DqVl::broadcast_i64x2_to_x4`] where `mask` bit is set, else zero (`vbroadcasti64x2`, zero-masked).
    pub fn broadcast_i64x2_to_x4_zero_masked(self, mask: u8, a: [i64; 2]) -> (r: [i64; 4])
        ensures
            forall|i: int|
                0 <= i < 4 ==> r[i] == if (mask >> i as u8) % 2 == 1 {
                    a[i % 2]
                } else {
                    0
                },
    {
        let full = self.broadcast_i64x2_to_x4(a);
        let mut out = [0i64; 4];
        let mut i: usize = 0;
        while i < 4
            invariant
                i <= 4,
                forall|j: int| 0 <= j < 4 ==> full[j] == a[j % 2],
                forall|j: int| 0 <= j < i ==> out[j] == (if (mask >> j as u8) % 2 == 1 { a[j % 2] } else { 0 }),
            decreases 4 - i,
        {
            out[i] = if (mask >> i as u8) % 2 == 1 { full[i] } else { 0 };
            i += 1;
        }
        out
    }

    /// Extracts the `IMM8 & 1`-selected 2-lane half of `a` (`vextracti64x2`, 256-bit source).
    pub fn extract_i64x2_from_x4<const IMM8: u8>(self, a: [i64; 4]) -> (r: [i64; 2])
        ensures
            forall|i: int| 0 <= i < 2 ==> r[i] == a[2 * (IMM8 % 2) as int + i],
    {
        let mut out = [0i64; 2];
        let mut i: usize = 0;
        while i < 2
            invariant
                i <= 2,
                forall|j: int| 0 <= j < i ==> out[j] == a[2 * (IMM8 % 2) as int + j],
            decreases 2 - i,
        {
            out[i] = a[2 * (IMM8 % 2) as usize + i];
            i += 1;
        }
        out
    }

    /// [`Avx512DqVl::extract_i64x2_from_x4`] where `mask` bit is set, else copied from `src` (`vextracti64x2`, merge-masked).
    pub fn extract_i64x2_from_x4_merge_masked<const IMM8: u8>(self, src: [i64; 2], mask: u8, a: [i64; 4]) -> (r: [i64; 2])
        ensures
            forall|i: int|
                0 <= i < 2 ==> r[i] == if (mask >> i as u8) % 2 == 1 {
                    a[2 * (IMM8 % 2) as int + i]
                } else {
                    src[i]
                },
    {
        let full = self.extract_i64x2_from_x4::<IMM8>(a);
        let mut out = [0i64; 2];
        let mut i: usize = 0;
        while i < 2
            invariant
                i <= 2,
                forall|j: int| 0 <= j < 2 ==> full[j] == a[2 * (IMM8 % 2) as int + j],
                forall|j: int| 0 <= j < i ==> out[j] == (if (mask >> j as u8) % 2 == 1 { a[2 * (IMM8 % 2) as int + j] } else { src[j] }),
            decreases 2 - i,
        {
            out[i] = if (mask >> i as u8) % 2 == 1 { full[i] } else { src[i] };
            i += 1;
        }
        out
    }

    /// [`Avx512DqVl::extract_i64x2_from_x4`] where `mask` bit is set, else zero (`vextracti64x2`, zero-masked).
    pub fn extract_i64x2_from_x4_zero_masked<const IMM8: u8>(self, mask: u8, a: [i64; 4]) -> (r: [i64; 2])
        ensures
            forall|i: int|
                0 <= i < 2 ==> r[i] == if (mask >> i as u8) % 2 == 1 {
                    a[2 * (IMM8 % 2) as int + i]
                } else {
                    0
                },
    {
        let full = self.extract_i64x2_from_x4::<IMM8>(a);
        let mut out = [0i64; 2];
        let mut i: usize = 0;
        while i < 2
            invariant
                i <= 2,
                forall|j: int| 0 <= j < 2 ==> full[j] == a[2 * (IMM8 % 2) as int + j],
                forall|j: int| 0 <= j < i ==> out[j] == (if (mask >> j as u8) % 2 == 1 { a[2 * (IMM8 % 2) as int + j] } else { 0 }),
            decreases 2 - i,
        {
            out[i] = if (mask >> i as u8) % 2 == 1 { full[i] } else { 0 };
            i += 1;
        }
        out
    }

    /// Copies `a`, then overwrites its `IMM8 & 1`-selected 2-lane half with `b` (`vinserti64x2`, 256-bit).
    pub fn insert_i64x2_into_x4<const IMM8: u8>(self, a: [i64; 4], b: [i64; 2]) -> (r: [i64; 4])
        ensures
            forall|i: int| 0 <= i < 4 ==> r[i] == (if i / 2 == (IMM8 % 2) as int { b[i % 2] } else { a[i] }),
    {
        let mut out = [0i64; 4];
        let mut i: usize = 0;
        while i < 4
            invariant
                i <= 4,
                forall|j: int| 0 <= j < i ==> out[j] == (if j / 2 == (IMM8 % 2) as int { b[j % 2] } else { a[j] }),
            decreases 4 - i,
        {
            out[i] = if i / 2 == (IMM8 % 2) as usize { b[i % 2] } else { a[i] };
            i += 1;
        }
        out
    }

    /// [`Avx512DqVl::insert_i64x2_into_x4`] where `mask` bit is set, else copied from `src` (`vinserti64x2`, merge-masked).
    pub fn insert_i64x2_into_x4_merge_masked<const IMM8: u8>(self, src: [i64; 4], mask: u8, a: [i64; 4], b: [i64; 2]) -> (r: [i64; 4])
        ensures
            forall|i: int|
                0 <= i < 4 ==> r[i] == if (mask >> i as u8) % 2 == 1 {
                    (if i / 2 == (IMM8 % 2) as int { b[i % 2] } else { a[i] })
                } else {
                    src[i]
                },
    {
        let full = self.insert_i64x2_into_x4::<IMM8>(a, b);
        let mut out = [0i64; 4];
        let mut i: usize = 0;
        while i < 4
            invariant
                i <= 4,
                forall|j: int| 0 <= j < 4 ==> full[j] == (if j / 2 == (IMM8 % 2) as int { b[j % 2] } else { a[j] }),
                forall|j: int| 0 <= j < i ==> out[j] == (if (mask >> j as u8) % 2 == 1 { (if j / 2 == (IMM8 % 2) as int { b[j % 2] } else { a[j] }) } else { src[j] }),
            decreases 4 - i,
        {
            out[i] = if (mask >> i as u8) % 2 == 1 { full[i] } else { src[i] };
            i += 1;
        }
        out
    }

    /// [`Avx512DqVl::insert_i64x2_into_x4`] where `mask` bit is set, else zero (`vinserti64x2`, zero-masked).
    pub fn insert_i64x2_into_x4_zero_masked<const IMM8: u8>(self, mask: u8, a: [i64; 4], b: [i64; 2]) -> (r: [i64; 4])
        ensures
            forall|i: int|
                0 <= i < 4 ==> r[i] == if (mask >> i as u8) % 2 == 1 {
                    (if i / 2 == (IMM8 % 2) as int { b[i % 2] } else { a[i] })
                } else {
                    0
                },
    {
        let full = self.insert_i64x2_into_x4::<IMM8>(a, b);
        let mut out = [0i64; 4];
        let mut i: usize = 0;
        while i < 4
            invariant
                i <= 4,
                forall|j: int| 0 <= j < 4 ==> full[j] == (if j / 2 == (IMM8 % 2) as int { b[j % 2] } else { a[j] }),
                forall|j: int| 0 <= j < i ==> out[j] == (if (mask >> j as u8) % 2 == 1 { (if j / 2 == (IMM8 % 2) as int { b[j % 2] } else { a[j] }) } else { 0 }),
            decreases 4 - i,
        {
            out[i] = if (mask >> i as u8) % 2 == 1 { full[i] } else { 0 };
            i += 1;
        }
        out
    }
}

impl Avx512IfmaVl {
    /// `a + low52(b * c)` per lane, reading the low 52 bits of `b` and `c`, wrapping (`vpmadd52luq`, 128-bit).
    pub fn madd52lo_u64x2(self, a: [u64; 2], b: [u64; 2], c: [u64; 2]) -> (r: [u64; 2])
        ensures
            forall|i: int| 0 <= i < 2 ==> r[i] == madd52lo(a[i], b[i], c[i]),
    {
        let mut out = [0u64; 2];
        let mut i: usize = 0;
        while i < 2
            invariant
                i <= 2,
                forall|j: int| 0 <= j < i ==> out[j] == madd52lo(a[j], b[j], c[j]),
            decreases 2 - i,
        {
            out[i] = madd52lo_exec(a[i], b[i], c[i]);
            i += 1;
        }
        out
    }

    /// `out[i] = a[i] + low52(b[i] * c[i])`. 2-wide chunks, scalar remainder.
    pub fn madd52lo_u64_slice(self, a: &[u64], b: &[u64], c: &[u64], out: &mut [u64])
        requires
            b@.len() == a@.len(),
            c@.len() == a@.len(),
            old(out)@.len() == a@.len(),
        ensures
            final(out)@.len() == a@.len(),
            forall|i: int| 0 <= i < a@.len() ==> final(out)@[i] == madd52lo(a@[i], b@[i], c@[i]),
    {
        let len = a.len();
        let mut i: usize = 0;
        while len - i >= 2
            invariant
                i <= len,
                len == a@.len(),
                len == b@.len(),
                len == c@.len(),
                out@.len() == len,
                forall|j: int| 0 <= j < i ==> out@[j] == madd52lo(a@[j], b@[j], c@[j]),
            decreases len - i,
        {
            let r = self.madd52lo_u64x2(loadu_u64x2(a, i), loadu_u64x2(b, i), loadu_u64x2(c, i));
            storeu_u64x2(out, i, r);
            i += 2;
        }
        while i < len
            invariant
                i <= len,
                len == a@.len(),
                len == b@.len(),
                len == c@.len(),
                out@.len() == len,
                forall|j: int| 0 <= j < i ==> out@[j] == madd52lo(a@[j], b@[j], c@[j]),
            decreases len - i,
        {
            out[i] = madd52lo_exec(a[i], b[i], c[i]);
            i += 1;
        }
    }

    /// [`Avx512IfmaVl::madd52lo_u64x2`] where `mask` bit is set, else copied from `a` (`vpmadd52luq`, merge-masked).
    pub fn madd52lo_u64x2_merge_masked(self, a: [u64; 2], mask: u8, b: [u64; 2], c: [u64; 2]) -> (r: [u64; 2])
        ensures
            forall|i: int|
                0 <= i < 2 ==> r[i] == if (mask >> i as u8) % 2 == 1 {
                    madd52lo(a[i], b[i], c[i])
                } else {
                    a[i]
                },
    {
        let full = self.madd52lo_u64x2(a, b, c);
        let mut out = [0u64; 2];
        let mut i: usize = 0;
        while i < 2
            invariant
                i <= 2,
                forall|j: int| 0 <= j < 2 ==> full[j] == madd52lo(a[j], b[j], c[j]),
                forall|j: int| 0 <= j < i ==> out[j] == (if (mask >> j as u8) % 2 == 1 { madd52lo(a[j], b[j], c[j]) } else { a[j] }),
            decreases 2 - i,
        {
            out[i] = if (mask >> i as u8) % 2 == 1 { full[i] } else { a[i] };
            i += 1;
        }
        out
    }

    /// [`Avx512IfmaVl::madd52lo_u64x2`] where `mask` bit is set, else zero (`vpmadd52luq`, zero-masked).
    pub fn madd52lo_u64x2_zero_masked(self, mask: u8, a: [u64; 2], b: [u64; 2], c: [u64; 2]) -> (r: [u64; 2])
        ensures
            forall|i: int|
                0 <= i < 2 ==> r[i] == if (mask >> i as u8) % 2 == 1 {
                    madd52lo(a[i], b[i], c[i])
                } else {
                    0
                },
    {
        let full = self.madd52lo_u64x2(a, b, c);
        let mut out = [0u64; 2];
        let mut i: usize = 0;
        while i < 2
            invariant
                i <= 2,
                forall|j: int| 0 <= j < 2 ==> full[j] == madd52lo(a[j], b[j], c[j]),
                forall|j: int| 0 <= j < i ==> out[j] == (if (mask >> j as u8) % 2 == 1 { madd52lo(a[j], b[j], c[j]) } else { 0 }),
            decreases 2 - i,
        {
            out[i] = if (mask >> i as u8) % 2 == 1 { full[i] } else { 0 };
            i += 1;
        }
        out
    }

    /// `a + low52(b * c)` per lane, reading the low 52 bits of `b` and `c`, wrapping (`vpmadd52luq`, 256-bit).
    pub fn madd52lo_u64x4(self, a: [u64; 4], b: [u64; 4], c: [u64; 4]) -> (r: [u64; 4])
        ensures
            forall|i: int| 0 <= i < 4 ==> r[i] == madd52lo(a[i], b[i], c[i]),
    {
        let mut out = [0u64; 4];
        let mut i: usize = 0;
        while i < 4
            invariant
                i <= 4,
                forall|j: int| 0 <= j < i ==> out[j] == madd52lo(a[j], b[j], c[j]),
            decreases 4 - i,
        {
            out[i] = madd52lo_exec(a[i], b[i], c[i]);
            i += 1;
        }
        out
    }

    /// `out[i] = a[i] + low52(b[i] * c[i])`. 4-wide chunks, scalar remainder.
    pub fn madd52lo_u64_slice_wide(self, a: &[u64], b: &[u64], c: &[u64], out: &mut [u64])
        requires
            b@.len() == a@.len(),
            c@.len() == a@.len(),
            old(out)@.len() == a@.len(),
        ensures
            final(out)@.len() == a@.len(),
            forall|i: int| 0 <= i < a@.len() ==> final(out)@[i] == madd52lo(a@[i], b@[i], c@[i]),
    {
        let len = a.len();
        let mut i: usize = 0;
        while len - i >= 4
            invariant
                i <= len,
                len == a@.len(),
                len == b@.len(),
                len == c@.len(),
                out@.len() == len,
                forall|j: int| 0 <= j < i ==> out@[j] == madd52lo(a@[j], b@[j], c@[j]),
            decreases len - i,
        {
            let r = self.madd52lo_u64x4(loadu_u64x4(a, i), loadu_u64x4(b, i), loadu_u64x4(c, i));
            storeu_u64x4(out, i, r);
            i += 4;
        }
        while i < len
            invariant
                i <= len,
                len == a@.len(),
                len == b@.len(),
                len == c@.len(),
                out@.len() == len,
                forall|j: int| 0 <= j < i ==> out@[j] == madd52lo(a@[j], b@[j], c@[j]),
            decreases len - i,
        {
            out[i] = madd52lo_exec(a[i], b[i], c[i]);
            i += 1;
        }
    }

    /// [`Avx512IfmaVl::madd52lo_u64x4`] where `mask` bit is set, else copied from `a` (`vpmadd52luq`, merge-masked).
    pub fn madd52lo_u64x4_merge_masked(self, a: [u64; 4], mask: u8, b: [u64; 4], c: [u64; 4]) -> (r: [u64; 4])
        ensures
            forall|i: int|
                0 <= i < 4 ==> r[i] == if (mask >> i as u8) % 2 == 1 {
                    madd52lo(a[i], b[i], c[i])
                } else {
                    a[i]
                },
    {
        let full = self.madd52lo_u64x4(a, b, c);
        let mut out = [0u64; 4];
        let mut i: usize = 0;
        while i < 4
            invariant
                i <= 4,
                forall|j: int| 0 <= j < 4 ==> full[j] == madd52lo(a[j], b[j], c[j]),
                forall|j: int| 0 <= j < i ==> out[j] == (if (mask >> j as u8) % 2 == 1 { madd52lo(a[j], b[j], c[j]) } else { a[j] }),
            decreases 4 - i,
        {
            out[i] = if (mask >> i as u8) % 2 == 1 { full[i] } else { a[i] };
            i += 1;
        }
        out
    }

    /// [`Avx512IfmaVl::madd52lo_u64x4`] where `mask` bit is set, else zero (`vpmadd52luq`, zero-masked).
    pub fn madd52lo_u64x4_zero_masked(self, mask: u8, a: [u64; 4], b: [u64; 4], c: [u64; 4]) -> (r: [u64; 4])
        ensures
            forall|i: int|
                0 <= i < 4 ==> r[i] == if (mask >> i as u8) % 2 == 1 {
                    madd52lo(a[i], b[i], c[i])
                } else {
                    0
                },
    {
        let full = self.madd52lo_u64x4(a, b, c);
        let mut out = [0u64; 4];
        let mut i: usize = 0;
        while i < 4
            invariant
                i <= 4,
                forall|j: int| 0 <= j < 4 ==> full[j] == madd52lo(a[j], b[j], c[j]),
                forall|j: int| 0 <= j < i ==> out[j] == (if (mask >> j as u8) % 2 == 1 { madd52lo(a[j], b[j], c[j]) } else { 0 }),
            decreases 4 - i,
        {
            out[i] = if (mask >> i as u8) % 2 == 1 { full[i] } else { 0 };
            i += 1;
        }
        out
    }

    /// `a + high52(b * c)` per lane, reading the low 52 bits of `b` and `c`, wrapping (`vpmadd52huq`, 128-bit).
    pub fn madd52hi_u64x2(self, a: [u64; 2], b: [u64; 2], c: [u64; 2]) -> (r: [u64; 2])
        ensures
            forall|i: int| 0 <= i < 2 ==> r[i] == madd52hi(a[i], b[i], c[i]),
    {
        let mut out = [0u64; 2];
        let mut i: usize = 0;
        while i < 2
            invariant
                i <= 2,
                forall|j: int| 0 <= j < i ==> out[j] == madd52hi(a[j], b[j], c[j]),
            decreases 2 - i,
        {
            out[i] = madd52hi_exec(a[i], b[i], c[i]);
            i += 1;
        }
        out
    }

    /// `out[i] = a[i] + high52(b[i] * c[i])`. 2-wide chunks, scalar remainder.
    pub fn madd52hi_u64_slice(self, a: &[u64], b: &[u64], c: &[u64], out: &mut [u64])
        requires
            b@.len() == a@.len(),
            c@.len() == a@.len(),
            old(out)@.len() == a@.len(),
        ensures
            final(out)@.len() == a@.len(),
            forall|i: int| 0 <= i < a@.len() ==> final(out)@[i] == madd52hi(a@[i], b@[i], c@[i]),
    {
        let len = a.len();
        let mut i: usize = 0;
        while len - i >= 2
            invariant
                i <= len,
                len == a@.len(),
                len == b@.len(),
                len == c@.len(),
                out@.len() == len,
                forall|j: int| 0 <= j < i ==> out@[j] == madd52hi(a@[j], b@[j], c@[j]),
            decreases len - i,
        {
            let r = self.madd52hi_u64x2(loadu_u64x2(a, i), loadu_u64x2(b, i), loadu_u64x2(c, i));
            storeu_u64x2(out, i, r);
            i += 2;
        }
        while i < len
            invariant
                i <= len,
                len == a@.len(),
                len == b@.len(),
                len == c@.len(),
                out@.len() == len,
                forall|j: int| 0 <= j < i ==> out@[j] == madd52hi(a@[j], b@[j], c@[j]),
            decreases len - i,
        {
            out[i] = madd52hi_exec(a[i], b[i], c[i]);
            i += 1;
        }
    }

    /// [`Avx512IfmaVl::madd52hi_u64x2`] where `mask` bit is set, else copied from `a` (`vpmadd52huq`, merge-masked).
    pub fn madd52hi_u64x2_merge_masked(self, a: [u64; 2], mask: u8, b: [u64; 2], c: [u64; 2]) -> (r: [u64; 2])
        ensures
            forall|i: int|
                0 <= i < 2 ==> r[i] == if (mask >> i as u8) % 2 == 1 {
                    madd52hi(a[i], b[i], c[i])
                } else {
                    a[i]
                },
    {
        let full = self.madd52hi_u64x2(a, b, c);
        let mut out = [0u64; 2];
        let mut i: usize = 0;
        while i < 2
            invariant
                i <= 2,
                forall|j: int| 0 <= j < 2 ==> full[j] == madd52hi(a[j], b[j], c[j]),
                forall|j: int| 0 <= j < i ==> out[j] == (if (mask >> j as u8) % 2 == 1 { madd52hi(a[j], b[j], c[j]) } else { a[j] }),
            decreases 2 - i,
        {
            out[i] = if (mask >> i as u8) % 2 == 1 { full[i] } else { a[i] };
            i += 1;
        }
        out
    }

    /// [`Avx512IfmaVl::madd52hi_u64x2`] where `mask` bit is set, else zero (`vpmadd52huq`, zero-masked).
    pub fn madd52hi_u64x2_zero_masked(self, mask: u8, a: [u64; 2], b: [u64; 2], c: [u64; 2]) -> (r: [u64; 2])
        ensures
            forall|i: int|
                0 <= i < 2 ==> r[i] == if (mask >> i as u8) % 2 == 1 {
                    madd52hi(a[i], b[i], c[i])
                } else {
                    0
                },
    {
        let full = self.madd52hi_u64x2(a, b, c);
        let mut out = [0u64; 2];
        let mut i: usize = 0;
        while i < 2
            invariant
                i <= 2,
                forall|j: int| 0 <= j < 2 ==> full[j] == madd52hi(a[j], b[j], c[j]),
                forall|j: int| 0 <= j < i ==> out[j] == (if (mask >> j as u8) % 2 == 1 { madd52hi(a[j], b[j], c[j]) } else { 0 }),
            decreases 2 - i,
        {
            out[i] = if (mask >> i as u8) % 2 == 1 { full[i] } else { 0 };
            i += 1;
        }
        out
    }

    /// `a + high52(b * c)` per lane, reading the low 52 bits of `b` and `c`, wrapping (`vpmadd52huq`, 256-bit).
    pub fn madd52hi_u64x4(self, a: [u64; 4], b: [u64; 4], c: [u64; 4]) -> (r: [u64; 4])
        ensures
            forall|i: int| 0 <= i < 4 ==> r[i] == madd52hi(a[i], b[i], c[i]),
    {
        let mut out = [0u64; 4];
        let mut i: usize = 0;
        while i < 4
            invariant
                i <= 4,
                forall|j: int| 0 <= j < i ==> out[j] == madd52hi(a[j], b[j], c[j]),
            decreases 4 - i,
        {
            out[i] = madd52hi_exec(a[i], b[i], c[i]);
            i += 1;
        }
        out
    }

    /// `out[i] = a[i] + high52(b[i] * c[i])`. 4-wide chunks, scalar remainder.
    pub fn madd52hi_u64_slice_wide(self, a: &[u64], b: &[u64], c: &[u64], out: &mut [u64])
        requires
            b@.len() == a@.len(),
            c@.len() == a@.len(),
            old(out)@.len() == a@.len(),
        ensures
            final(out)@.len() == a@.len(),
            forall|i: int| 0 <= i < a@.len() ==> final(out)@[i] == madd52hi(a@[i], b@[i], c@[i]),
    {
        let len = a.len();
        let mut i: usize = 0;
        while len - i >= 4
            invariant
                i <= len,
                len == a@.len(),
                len == b@.len(),
                len == c@.len(),
                out@.len() == len,
                forall|j: int| 0 <= j < i ==> out@[j] == madd52hi(a@[j], b@[j], c@[j]),
            decreases len - i,
        {
            let r = self.madd52hi_u64x4(loadu_u64x4(a, i), loadu_u64x4(b, i), loadu_u64x4(c, i));
            storeu_u64x4(out, i, r);
            i += 4;
        }
        while i < len
            invariant
                i <= len,
                len == a@.len(),
                len == b@.len(),
                len == c@.len(),
                out@.len() == len,
                forall|j: int| 0 <= j < i ==> out@[j] == madd52hi(a@[j], b@[j], c@[j]),
            decreases len - i,
        {
            out[i] = madd52hi_exec(a[i], b[i], c[i]);
            i += 1;
        }
    }

    /// [`Avx512IfmaVl::madd52hi_u64x4`] where `mask` bit is set, else copied from `a` (`vpmadd52huq`, merge-masked).
    pub fn madd52hi_u64x4_merge_masked(self, a: [u64; 4], mask: u8, b: [u64; 4], c: [u64; 4]) -> (r: [u64; 4])
        ensures
            forall|i: int|
                0 <= i < 4 ==> r[i] == if (mask >> i as u8) % 2 == 1 {
                    madd52hi(a[i], b[i], c[i])
                } else {
                    a[i]
                },
    {
        let full = self.madd52hi_u64x4(a, b, c);
        let mut out = [0u64; 4];
        let mut i: usize = 0;
        while i < 4
            invariant
                i <= 4,
                forall|j: int| 0 <= j < 4 ==> full[j] == madd52hi(a[j], b[j], c[j]),
                forall|j: int| 0 <= j < i ==> out[j] == (if (mask >> j as u8) % 2 == 1 { madd52hi(a[j], b[j], c[j]) } else { a[j] }),
            decreases 4 - i,
        {
            out[i] = if (mask >> i as u8) % 2 == 1 { full[i] } else { a[i] };
            i += 1;
        }
        out
    }

    /// [`Avx512IfmaVl::madd52hi_u64x4`] where `mask` bit is set, else zero (`vpmadd52huq`, zero-masked).
    pub fn madd52hi_u64x4_zero_masked(self, mask: u8, a: [u64; 4], b: [u64; 4], c: [u64; 4]) -> (r: [u64; 4])
        ensures
            forall|i: int|
                0 <= i < 4 ==> r[i] == if (mask >> i as u8) % 2 == 1 {
                    madd52hi(a[i], b[i], c[i])
                } else {
                    0
                },
    {
        let full = self.madd52hi_u64x4(a, b, c);
        let mut out = [0u64; 4];
        let mut i: usize = 0;
        while i < 4
            invariant
                i <= 4,
                forall|j: int| 0 <= j < 4 ==> full[j] == madd52hi(a[j], b[j], c[j]),
                forall|j: int| 0 <= j < i ==> out[j] == (if (mask >> j as u8) % 2 == 1 { madd52hi(a[j], b[j], c[j]) } else { 0 }),
            decreases 4 - i,
        {
            out[i] = if (mask >> i as u8) % 2 == 1 { full[i] } else { 0 };
            i += 1;
        }
        out
    }
}

impl Avx512VnniVl {
    /// `out[j] = src[j] + sum_k(a[4j+k] * b[4j+k])`, wrapping (`vpdpbusd`, 128-bit).
    pub fn dpbusd_i32x4(self, src: [i32; 4], a: [u8; 16], b: [i8; 16]) -> (r: [i32; 4])
        ensures
            forall|j: int| 0 <= j < 4 ==> r[j] == wrap_i32(src[j] + quad_dot(a@, b@, j)),
    {
        let a_s = a.as_slice();
        let b_s = b.as_slice();
        let mut out = [0i32; 4];
        let mut i: usize = 0;
        while i < 4
            invariant
                i <= 4,
                a_s@ == a@,
                b_s@ == b@,
                forall|j: int| 0 <= j < i ==> out[j] == wrap_i32(src[j] + quad_dot(a@, b@, j)),
            decreases 4 - i,
        {
            out[i] = vnni_acc_wrapping(src[i], quad_dot_exec(a_s, b_s, i));
            i += 1;
        }
        out
    }

    /// `out[j] = src[j] + sum_k(a[4j+k] * b[4j+k])`, wrapping (`vpdpbusd`). `a` and `b` hold 4 elements
    /// per `src` lane.
    pub fn dpbusd_i32_slice(self, src: &[i32], a: &[u8], b: &[i8], out: &mut [i32])
        requires
            a@.len() == 4 * src@.len(),
            b@.len() == a@.len(),
            old(out)@.len() == src@.len(),
        ensures
            final(out)@.len() == src@.len(),
            forall|j: int| 0 <= j < src@.len() ==> final(out)@[j] == wrap_i32(src@[j] + quad_dot(a@, b@, j)),
    {
        let len = src.len();
        let alen = a.len();
        let mut j: usize = 0;
        while j < len
            invariant
                j <= len,
                len == src@.len(),
                alen == a@.len(),
                a@.len() == 4 * len,
                b@.len() == a@.len(),
                out@.len() == len,
                forall|q: int| 0 <= q < j ==> out@[q] == wrap_i32(src@[q] + quad_dot(a@, b@, q)),
            decreases len - j,
        {
            let sum = quad_dot_exec(a, b, j);
            out[j] = vnni_acc_wrapping(src[j], sum);
            j += 1;
        }
    }

    /// [`Avx512VnniVl::dpbusd_i32x4`] where `mask` bit is set, else copied from `src` (`vpdpbusd`, merge-masked).
    pub fn dpbusd_i32x4_merge_masked(self, src: [i32; 4], mask: u8, a: [u8; 16], b: [i8; 16]) -> (r: [i32; 4])
        ensures
            forall|i: int|
                0 <= i < 4 ==> r[i] == if (mask >> i as u8) % 2 == 1 {
                    wrap_i32(src[i] + quad_dot(a@, b@, i))
                } else {
                    src[i]
                },
    {
        let full = self.dpbusd_i32x4(src, a, b);
        let mut out = [0i32; 4];
        let mut i: usize = 0;
        while i < 4
            invariant
                i <= 4,
                forall|j: int| 0 <= j < 4 ==> full[j] == wrap_i32(src[j] + quad_dot(a@, b@, j)),
                forall|j: int| 0 <= j < i ==> out[j] == (if (mask >> j as u8) % 2 == 1 { wrap_i32(src[j] + quad_dot(a@, b@, j)) } else { src[j] }),
            decreases 4 - i,
        {
            out[i] = if (mask >> i as u8) % 2 == 1 { full[i] } else { src[i] };
            i += 1;
        }
        out
    }

    /// [`Avx512VnniVl::dpbusd_i32x4`] where `mask` bit is set, else zero (`vpdpbusd`, zero-masked).
    pub fn dpbusd_i32x4_zero_masked(self, mask: u8, src: [i32; 4], a: [u8; 16], b: [i8; 16]) -> (r: [i32; 4])
        ensures
            forall|i: int|
                0 <= i < 4 ==> r[i] == if (mask >> i as u8) % 2 == 1 {
                    wrap_i32(src[i] + quad_dot(a@, b@, i))
                } else {
                    0
                },
    {
        let full = self.dpbusd_i32x4(src, a, b);
        let mut out = [0i32; 4];
        let mut i: usize = 0;
        while i < 4
            invariant
                i <= 4,
                forall|j: int| 0 <= j < 4 ==> full[j] == wrap_i32(src[j] + quad_dot(a@, b@, j)),
                forall|j: int| 0 <= j < i ==> out[j] == (if (mask >> j as u8) % 2 == 1 { wrap_i32(src[j] + quad_dot(a@, b@, j)) } else { 0 }),
            decreases 4 - i,
        {
            out[i] = if (mask >> i as u8) % 2 == 1 { full[i] } else { 0 };
            i += 1;
        }
        out
    }

    /// `out[j] = src[j] + sum_k(a[4j+k] * b[4j+k])`, wrapping (`vpdpbusd`, 256-bit).
    pub fn dpbusd_i32x8(self, src: [i32; 8], a: [u8; 32], b: [i8; 32]) -> (r: [i32; 8])
        ensures
            forall|j: int| 0 <= j < 8 ==> r[j] == wrap_i32(src[j] + quad_dot(a@, b@, j)),
    {
        let a_s = a.as_slice();
        let b_s = b.as_slice();
        let mut out = [0i32; 8];
        let mut i: usize = 0;
        while i < 8
            invariant
                i <= 8,
                a_s@ == a@,
                b_s@ == b@,
                forall|j: int| 0 <= j < i ==> out[j] == wrap_i32(src[j] + quad_dot(a@, b@, j)),
            decreases 8 - i,
        {
            out[i] = vnni_acc_wrapping(src[i], quad_dot_exec(a_s, b_s, i));
            i += 1;
        }
        out
    }

    /// `out[j] = src[j] + sum_k(a[4j+k] * b[4j+k])`, wrapping (`vpdpbusd`). `a` and `b` hold 4 elements
    /// per `src` lane.
    pub fn dpbusd_i32_slice_wide(self, src: &[i32], a: &[u8], b: &[i8], out: &mut [i32])
        requires
            a@.len() == 4 * src@.len(),
            b@.len() == a@.len(),
            old(out)@.len() == src@.len(),
        ensures
            final(out)@.len() == src@.len(),
            forall|j: int| 0 <= j < src@.len() ==> final(out)@[j] == wrap_i32(src@[j] + quad_dot(a@, b@, j)),
    {
        let len = src.len();
        let alen = a.len();
        let mut j: usize = 0;
        while j < len
            invariant
                j <= len,
                len == src@.len(),
                alen == a@.len(),
                a@.len() == 4 * len,
                b@.len() == a@.len(),
                out@.len() == len,
                forall|q: int| 0 <= q < j ==> out@[q] == wrap_i32(src@[q] + quad_dot(a@, b@, q)),
            decreases len - j,
        {
            let sum = quad_dot_exec(a, b, j);
            out[j] = vnni_acc_wrapping(src[j], sum);
            j += 1;
        }
    }

    /// [`Avx512VnniVl::dpbusd_i32x8`] where `mask` bit is set, else copied from `src` (`vpdpbusd`, merge-masked).
    pub fn dpbusd_i32x8_merge_masked(self, src: [i32; 8], mask: u8, a: [u8; 32], b: [i8; 32]) -> (r: [i32; 8])
        ensures
            forall|i: int|
                0 <= i < 8 ==> r[i] == if (mask >> i as u8) % 2 == 1 {
                    wrap_i32(src[i] + quad_dot(a@, b@, i))
                } else {
                    src[i]
                },
    {
        let full = self.dpbusd_i32x8(src, a, b);
        let mut out = [0i32; 8];
        let mut i: usize = 0;
        while i < 8
            invariant
                i <= 8,
                forall|j: int| 0 <= j < 8 ==> full[j] == wrap_i32(src[j] + quad_dot(a@, b@, j)),
                forall|j: int| 0 <= j < i ==> out[j] == (if (mask >> j as u8) % 2 == 1 { wrap_i32(src[j] + quad_dot(a@, b@, j)) } else { src[j] }),
            decreases 8 - i,
        {
            out[i] = if (mask >> i as u8) % 2 == 1 { full[i] } else { src[i] };
            i += 1;
        }
        out
    }

    /// [`Avx512VnniVl::dpbusd_i32x8`] where `mask` bit is set, else zero (`vpdpbusd`, zero-masked).
    pub fn dpbusd_i32x8_zero_masked(self, mask: u8, src: [i32; 8], a: [u8; 32], b: [i8; 32]) -> (r: [i32; 8])
        ensures
            forall|i: int|
                0 <= i < 8 ==> r[i] == if (mask >> i as u8) % 2 == 1 {
                    wrap_i32(src[i] + quad_dot(a@, b@, i))
                } else {
                    0
                },
    {
        let full = self.dpbusd_i32x8(src, a, b);
        let mut out = [0i32; 8];
        let mut i: usize = 0;
        while i < 8
            invariant
                i <= 8,
                forall|j: int| 0 <= j < 8 ==> full[j] == wrap_i32(src[j] + quad_dot(a@, b@, j)),
                forall|j: int| 0 <= j < i ==> out[j] == (if (mask >> j as u8) % 2 == 1 { wrap_i32(src[j] + quad_dot(a@, b@, j)) } else { 0 }),
            decreases 8 - i,
        {
            out[i] = if (mask >> i as u8) % 2 == 1 { full[i] } else { 0 };
            i += 1;
        }
        out
    }

    /// `out[j] = src[j] + sum_k(a[4j+k] * b[4j+k])`, saturating (`vpdpbusds`, 128-bit).
    pub fn dpbusds_i32x4(self, src: [i32; 4], a: [u8; 16], b: [i8; 16]) -> (r: [i32; 4])
        ensures
            forall|j: int| 0 <= j < 4 ==> r[j] == sat_i32(src[j] + quad_dot(a@, b@, j)),
    {
        let a_s = a.as_slice();
        let b_s = b.as_slice();
        let mut out = [0i32; 4];
        let mut i: usize = 0;
        while i < 4
            invariant
                i <= 4,
                a_s@ == a@,
                b_s@ == b@,
                forall|j: int| 0 <= j < i ==> out[j] == sat_i32(src[j] + quad_dot(a@, b@, j)),
            decreases 4 - i,
        {
            out[i] = vnni_acc_saturating(src[i], quad_dot_exec(a_s, b_s, i));
            i += 1;
        }
        out
    }

    /// `out[j] = src[j] + sum_k(a[4j+k] * b[4j+k])`, saturating (`vpdpbusds`). `a` and `b` hold 4 elements
    /// per `src` lane.
    pub fn dpbusds_i32_slice(self, src: &[i32], a: &[u8], b: &[i8], out: &mut [i32])
        requires
            a@.len() == 4 * src@.len(),
            b@.len() == a@.len(),
            old(out)@.len() == src@.len(),
        ensures
            final(out)@.len() == src@.len(),
            forall|j: int| 0 <= j < src@.len() ==> final(out)@[j] == sat_i32(src@[j] + quad_dot(a@, b@, j)),
    {
        let len = src.len();
        let alen = a.len();
        let mut j: usize = 0;
        while j < len
            invariant
                j <= len,
                len == src@.len(),
                alen == a@.len(),
                a@.len() == 4 * len,
                b@.len() == a@.len(),
                out@.len() == len,
                forall|q: int| 0 <= q < j ==> out@[q] == sat_i32(src@[q] + quad_dot(a@, b@, q)),
            decreases len - j,
        {
            let sum = quad_dot_exec(a, b, j);
            out[j] = vnni_acc_saturating(src[j], sum);
            j += 1;
        }
    }

    /// [`Avx512VnniVl::dpbusds_i32x4`] where `mask` bit is set, else copied from `src` (`vpdpbusds`, merge-masked).
    pub fn dpbusds_i32x4_merge_masked(self, src: [i32; 4], mask: u8, a: [u8; 16], b: [i8; 16]) -> (r: [i32; 4])
        ensures
            forall|i: int|
                0 <= i < 4 ==> r[i] == if (mask >> i as u8) % 2 == 1 {
                    sat_i32(src[i] + quad_dot(a@, b@, i))
                } else {
                    src[i]
                },
    {
        let full = self.dpbusds_i32x4(src, a, b);
        let mut out = [0i32; 4];
        let mut i: usize = 0;
        while i < 4
            invariant
                i <= 4,
                forall|j: int| 0 <= j < 4 ==> full[j] == sat_i32(src[j] + quad_dot(a@, b@, j)),
                forall|j: int| 0 <= j < i ==> out[j] == (if (mask >> j as u8) % 2 == 1 { sat_i32(src[j] + quad_dot(a@, b@, j)) } else { src[j] }),
            decreases 4 - i,
        {
            out[i] = if (mask >> i as u8) % 2 == 1 { full[i] } else { src[i] };
            i += 1;
        }
        out
    }

    /// [`Avx512VnniVl::dpbusds_i32x4`] where `mask` bit is set, else zero (`vpdpbusds`, zero-masked).
    pub fn dpbusds_i32x4_zero_masked(self, mask: u8, src: [i32; 4], a: [u8; 16], b: [i8; 16]) -> (r: [i32; 4])
        ensures
            forall|i: int|
                0 <= i < 4 ==> r[i] == if (mask >> i as u8) % 2 == 1 {
                    sat_i32(src[i] + quad_dot(a@, b@, i))
                } else {
                    0
                },
    {
        let full = self.dpbusds_i32x4(src, a, b);
        let mut out = [0i32; 4];
        let mut i: usize = 0;
        while i < 4
            invariant
                i <= 4,
                forall|j: int| 0 <= j < 4 ==> full[j] == sat_i32(src[j] + quad_dot(a@, b@, j)),
                forall|j: int| 0 <= j < i ==> out[j] == (if (mask >> j as u8) % 2 == 1 { sat_i32(src[j] + quad_dot(a@, b@, j)) } else { 0 }),
            decreases 4 - i,
        {
            out[i] = if (mask >> i as u8) % 2 == 1 { full[i] } else { 0 };
            i += 1;
        }
        out
    }

    /// `out[j] = src[j] + sum_k(a[4j+k] * b[4j+k])`, saturating (`vpdpbusds`, 256-bit).
    pub fn dpbusds_i32x8(self, src: [i32; 8], a: [u8; 32], b: [i8; 32]) -> (r: [i32; 8])
        ensures
            forall|j: int| 0 <= j < 8 ==> r[j] == sat_i32(src[j] + quad_dot(a@, b@, j)),
    {
        let a_s = a.as_slice();
        let b_s = b.as_slice();
        let mut out = [0i32; 8];
        let mut i: usize = 0;
        while i < 8
            invariant
                i <= 8,
                a_s@ == a@,
                b_s@ == b@,
                forall|j: int| 0 <= j < i ==> out[j] == sat_i32(src[j] + quad_dot(a@, b@, j)),
            decreases 8 - i,
        {
            out[i] = vnni_acc_saturating(src[i], quad_dot_exec(a_s, b_s, i));
            i += 1;
        }
        out
    }

    /// `out[j] = src[j] + sum_k(a[4j+k] * b[4j+k])`, saturating (`vpdpbusds`). `a` and `b` hold 4 elements
    /// per `src` lane.
    pub fn dpbusds_i32_slice_wide(self, src: &[i32], a: &[u8], b: &[i8], out: &mut [i32])
        requires
            a@.len() == 4 * src@.len(),
            b@.len() == a@.len(),
            old(out)@.len() == src@.len(),
        ensures
            final(out)@.len() == src@.len(),
            forall|j: int| 0 <= j < src@.len() ==> final(out)@[j] == sat_i32(src@[j] + quad_dot(a@, b@, j)),
    {
        let len = src.len();
        let alen = a.len();
        let mut j: usize = 0;
        while j < len
            invariant
                j <= len,
                len == src@.len(),
                alen == a@.len(),
                a@.len() == 4 * len,
                b@.len() == a@.len(),
                out@.len() == len,
                forall|q: int| 0 <= q < j ==> out@[q] == sat_i32(src@[q] + quad_dot(a@, b@, q)),
            decreases len - j,
        {
            let sum = quad_dot_exec(a, b, j);
            out[j] = vnni_acc_saturating(src[j], sum);
            j += 1;
        }
    }

    /// [`Avx512VnniVl::dpbusds_i32x8`] where `mask` bit is set, else copied from `src` (`vpdpbusds`, merge-masked).
    pub fn dpbusds_i32x8_merge_masked(self, src: [i32; 8], mask: u8, a: [u8; 32], b: [i8; 32]) -> (r: [i32; 8])
        ensures
            forall|i: int|
                0 <= i < 8 ==> r[i] == if (mask >> i as u8) % 2 == 1 {
                    sat_i32(src[i] + quad_dot(a@, b@, i))
                } else {
                    src[i]
                },
    {
        let full = self.dpbusds_i32x8(src, a, b);
        let mut out = [0i32; 8];
        let mut i: usize = 0;
        while i < 8
            invariant
                i <= 8,
                forall|j: int| 0 <= j < 8 ==> full[j] == sat_i32(src[j] + quad_dot(a@, b@, j)),
                forall|j: int| 0 <= j < i ==> out[j] == (if (mask >> j as u8) % 2 == 1 { sat_i32(src[j] + quad_dot(a@, b@, j)) } else { src[j] }),
            decreases 8 - i,
        {
            out[i] = if (mask >> i as u8) % 2 == 1 { full[i] } else { src[i] };
            i += 1;
        }
        out
    }

    /// [`Avx512VnniVl::dpbusds_i32x8`] where `mask` bit is set, else zero (`vpdpbusds`, zero-masked).
    pub fn dpbusds_i32x8_zero_masked(self, mask: u8, src: [i32; 8], a: [u8; 32], b: [i8; 32]) -> (r: [i32; 8])
        ensures
            forall|i: int|
                0 <= i < 8 ==> r[i] == if (mask >> i as u8) % 2 == 1 {
                    sat_i32(src[i] + quad_dot(a@, b@, i))
                } else {
                    0
                },
    {
        let full = self.dpbusds_i32x8(src, a, b);
        let mut out = [0i32; 8];
        let mut i: usize = 0;
        while i < 8
            invariant
                i <= 8,
                forall|j: int| 0 <= j < 8 ==> full[j] == sat_i32(src[j] + quad_dot(a@, b@, j)),
                forall|j: int| 0 <= j < i ==> out[j] == (if (mask >> j as u8) % 2 == 1 { sat_i32(src[j] + quad_dot(a@, b@, j)) } else { 0 }),
            decreases 8 - i,
        {
            out[i] = if (mask >> i as u8) % 2 == 1 { full[i] } else { 0 };
            i += 1;
        }
        out
    }

    /// `out[j] = src[j] + sum_k(a[2j+k] * b[2j+k])`, wrapping (`vpdpwssd`, 128-bit).
    pub fn dpwssd_i32x4(self, src: [i32; 4], a: [i16; 8], b: [i16; 8]) -> (r: [i32; 4])
        ensures
            forall|j: int| 0 <= j < 4 ==> r[j] == wrap_i32(src[j] + pair_dot(a[2 * j], a[2 * j + 1], b[2 * j], b[2 * j + 1])),
    {
        let mut out = [0i32; 4];
        let mut i: usize = 0;
        while i < 4
            invariant
                i <= 4,
                forall|j: int| 0 <= j < i ==> out[j] == wrap_i32(src[j] + pair_dot(a[2 * j], a[2 * j + 1], b[2 * j], b[2 * j + 1])),
            decreases 4 - i,
        {
            out[i] = vnni_acc_wrapping(src[i], pair_dot_exec(a[2 * i], a[2 * i + 1], b[2 * i], b[2 * i + 1]));
            i += 1;
        }
        out
    }

    /// `out[j] = src[j] + sum_k(a[2j+k] * b[2j+k])`, wrapping (`vpdpwssd`). `a` and `b` hold 2 elements
    /// per `src` lane.
    pub fn dpwssd_i32_slice(self, src: &[i32], a: &[i16], b: &[i16], out: &mut [i32])
        requires
            a@.len() == 2 * src@.len(),
            b@.len() == a@.len(),
            old(out)@.len() == src@.len(),
        ensures
            final(out)@.len() == src@.len(),
            forall|j: int| 0 <= j < src@.len() ==> final(out)@[j] == wrap_i32(src@[j] + pair_dot(a@[2 * j], a@[2 * j + 1], b@[2 * j], b@[2 * j + 1])),
    {
        let len = src.len();
        let alen = a.len();
        let mut j: usize = 0;
        while j < len
            invariant
                j <= len,
                len == src@.len(),
                alen == a@.len(),
                a@.len() == 2 * len,
                b@.len() == a@.len(),
                out@.len() == len,
                forall|q: int| 0 <= q < j ==> out@[q] == wrap_i32(src@[q] + pair_dot(a@[2 * q], a@[2 * q + 1], b@[2 * q], b@[2 * q + 1])),
            decreases len - j,
        {
            let sum = pair_dot_exec(a[2 * j], a[2 * j + 1], b[2 * j], b[2 * j + 1]);
            out[j] = vnni_acc_wrapping(src[j], sum);
            j += 1;
        }
    }

    /// [`Avx512VnniVl::dpwssd_i32x4`] where `mask` bit is set, else copied from `src` (`vpdpwssd`, merge-masked).
    pub fn dpwssd_i32x4_merge_masked(self, src: [i32; 4], mask: u8, a: [i16; 8], b: [i16; 8]) -> (r: [i32; 4])
        ensures
            forall|i: int|
                0 <= i < 4 ==> r[i] == if (mask >> i as u8) % 2 == 1 {
                    wrap_i32(src[i] + pair_dot(a[2 * i], a[2 * i + 1], b[2 * i], b[2 * i + 1]))
                } else {
                    src[i]
                },
    {
        let full = self.dpwssd_i32x4(src, a, b);
        let mut out = [0i32; 4];
        let mut i: usize = 0;
        while i < 4
            invariant
                i <= 4,
                forall|j: int| 0 <= j < 4 ==> full[j] == wrap_i32(src[j] + pair_dot(a[2 * j], a[2 * j + 1], b[2 * j], b[2 * j + 1])),
                forall|j: int| 0 <= j < i ==> out[j] == (if (mask >> j as u8) % 2 == 1 { wrap_i32(src[j] + pair_dot(a[2 * j], a[2 * j + 1], b[2 * j], b[2 * j + 1])) } else { src[j] }),
            decreases 4 - i,
        {
            out[i] = if (mask >> i as u8) % 2 == 1 { full[i] } else { src[i] };
            i += 1;
        }
        out
    }

    /// [`Avx512VnniVl::dpwssd_i32x4`] where `mask` bit is set, else zero (`vpdpwssd`, zero-masked).
    pub fn dpwssd_i32x4_zero_masked(self, mask: u8, src: [i32; 4], a: [i16; 8], b: [i16; 8]) -> (r: [i32; 4])
        ensures
            forall|i: int|
                0 <= i < 4 ==> r[i] == if (mask >> i as u8) % 2 == 1 {
                    wrap_i32(src[i] + pair_dot(a[2 * i], a[2 * i + 1], b[2 * i], b[2 * i + 1]))
                } else {
                    0
                },
    {
        let full = self.dpwssd_i32x4(src, a, b);
        let mut out = [0i32; 4];
        let mut i: usize = 0;
        while i < 4
            invariant
                i <= 4,
                forall|j: int| 0 <= j < 4 ==> full[j] == wrap_i32(src[j] + pair_dot(a[2 * j], a[2 * j + 1], b[2 * j], b[2 * j + 1])),
                forall|j: int| 0 <= j < i ==> out[j] == (if (mask >> j as u8) % 2 == 1 { wrap_i32(src[j] + pair_dot(a[2 * j], a[2 * j + 1], b[2 * j], b[2 * j + 1])) } else { 0 }),
            decreases 4 - i,
        {
            out[i] = if (mask >> i as u8) % 2 == 1 { full[i] } else { 0 };
            i += 1;
        }
        out
    }

    /// `out[j] = src[j] + sum_k(a[2j+k] * b[2j+k])`, wrapping (`vpdpwssd`, 256-bit).
    pub fn dpwssd_i32x8(self, src: [i32; 8], a: [i16; 16], b: [i16; 16]) -> (r: [i32; 8])
        ensures
            forall|j: int| 0 <= j < 8 ==> r[j] == wrap_i32(src[j] + pair_dot(a[2 * j], a[2 * j + 1], b[2 * j], b[2 * j + 1])),
    {
        let mut out = [0i32; 8];
        let mut i: usize = 0;
        while i < 8
            invariant
                i <= 8,
                forall|j: int| 0 <= j < i ==> out[j] == wrap_i32(src[j] + pair_dot(a[2 * j], a[2 * j + 1], b[2 * j], b[2 * j + 1])),
            decreases 8 - i,
        {
            out[i] = vnni_acc_wrapping(src[i], pair_dot_exec(a[2 * i], a[2 * i + 1], b[2 * i], b[2 * i + 1]));
            i += 1;
        }
        out
    }

    /// `out[j] = src[j] + sum_k(a[2j+k] * b[2j+k])`, wrapping (`vpdpwssd`). `a` and `b` hold 2 elements
    /// per `src` lane.
    pub fn dpwssd_i32_slice_wide(self, src: &[i32], a: &[i16], b: &[i16], out: &mut [i32])
        requires
            a@.len() == 2 * src@.len(),
            b@.len() == a@.len(),
            old(out)@.len() == src@.len(),
        ensures
            final(out)@.len() == src@.len(),
            forall|j: int| 0 <= j < src@.len() ==> final(out)@[j] == wrap_i32(src@[j] + pair_dot(a@[2 * j], a@[2 * j + 1], b@[2 * j], b@[2 * j + 1])),
    {
        let len = src.len();
        let alen = a.len();
        let mut j: usize = 0;
        while j < len
            invariant
                j <= len,
                len == src@.len(),
                alen == a@.len(),
                a@.len() == 2 * len,
                b@.len() == a@.len(),
                out@.len() == len,
                forall|q: int| 0 <= q < j ==> out@[q] == wrap_i32(src@[q] + pair_dot(a@[2 * q], a@[2 * q + 1], b@[2 * q], b@[2 * q + 1])),
            decreases len - j,
        {
            let sum = pair_dot_exec(a[2 * j], a[2 * j + 1], b[2 * j], b[2 * j + 1]);
            out[j] = vnni_acc_wrapping(src[j], sum);
            j += 1;
        }
    }

    /// [`Avx512VnniVl::dpwssd_i32x8`] where `mask` bit is set, else copied from `src` (`vpdpwssd`, merge-masked).
    pub fn dpwssd_i32x8_merge_masked(self, src: [i32; 8], mask: u8, a: [i16; 16], b: [i16; 16]) -> (r: [i32; 8])
        ensures
            forall|i: int|
                0 <= i < 8 ==> r[i] == if (mask >> i as u8) % 2 == 1 {
                    wrap_i32(src[i] + pair_dot(a[2 * i], a[2 * i + 1], b[2 * i], b[2 * i + 1]))
                } else {
                    src[i]
                },
    {
        let full = self.dpwssd_i32x8(src, a, b);
        let mut out = [0i32; 8];
        let mut i: usize = 0;
        while i < 8
            invariant
                i <= 8,
                forall|j: int| 0 <= j < 8 ==> full[j] == wrap_i32(src[j] + pair_dot(a[2 * j], a[2 * j + 1], b[2 * j], b[2 * j + 1])),
                forall|j: int| 0 <= j < i ==> out[j] == (if (mask >> j as u8) % 2 == 1 { wrap_i32(src[j] + pair_dot(a[2 * j], a[2 * j + 1], b[2 * j], b[2 * j + 1])) } else { src[j] }),
            decreases 8 - i,
        {
            out[i] = if (mask >> i as u8) % 2 == 1 { full[i] } else { src[i] };
            i += 1;
        }
        out
    }

    /// [`Avx512VnniVl::dpwssd_i32x8`] where `mask` bit is set, else zero (`vpdpwssd`, zero-masked).
    pub fn dpwssd_i32x8_zero_masked(self, mask: u8, src: [i32; 8], a: [i16; 16], b: [i16; 16]) -> (r: [i32; 8])
        ensures
            forall|i: int|
                0 <= i < 8 ==> r[i] == if (mask >> i as u8) % 2 == 1 {
                    wrap_i32(src[i] + pair_dot(a[2 * i], a[2 * i + 1], b[2 * i], b[2 * i + 1]))
                } else {
                    0
                },
    {
        let full = self.dpwssd_i32x8(src, a, b);
        let mut out = [0i32; 8];
        let mut i: usize = 0;
        while i < 8
            invariant
                i <= 8,
                forall|j: int| 0 <= j < 8 ==> full[j] == wrap_i32(src[j] + pair_dot(a[2 * j], a[2 * j + 1], b[2 * j], b[2 * j + 1])),
                forall|j: int| 0 <= j < i ==> out[j] == (if (mask >> j as u8) % 2 == 1 { wrap_i32(src[j] + pair_dot(a[2 * j], a[2 * j + 1], b[2 * j], b[2 * j + 1])) } else { 0 }),
            decreases 8 - i,
        {
            out[i] = if (mask >> i as u8) % 2 == 1 { full[i] } else { 0 };
            i += 1;
        }
        out
    }

    /// `out[j] = src[j] + sum_k(a[2j+k] * b[2j+k])`, saturating (`vpdpwssds`, 128-bit).
    pub fn dpwssds_i32x4(self, src: [i32; 4], a: [i16; 8], b: [i16; 8]) -> (r: [i32; 4])
        ensures
            forall|j: int| 0 <= j < 4 ==> r[j] == sat_i32(src[j] + pair_dot(a[2 * j], a[2 * j + 1], b[2 * j], b[2 * j + 1])),
    {
        let mut out = [0i32; 4];
        let mut i: usize = 0;
        while i < 4
            invariant
                i <= 4,
                forall|j: int| 0 <= j < i ==> out[j] == sat_i32(src[j] + pair_dot(a[2 * j], a[2 * j + 1], b[2 * j], b[2 * j + 1])),
            decreases 4 - i,
        {
            out[i] = vnni_acc_saturating(src[i], pair_dot_exec(a[2 * i], a[2 * i + 1], b[2 * i], b[2 * i + 1]));
            i += 1;
        }
        out
    }

    /// `out[j] = src[j] + sum_k(a[2j+k] * b[2j+k])`, saturating (`vpdpwssds`). `a` and `b` hold 2 elements
    /// per `src` lane.
    pub fn dpwssds_i32_slice(self, src: &[i32], a: &[i16], b: &[i16], out: &mut [i32])
        requires
            a@.len() == 2 * src@.len(),
            b@.len() == a@.len(),
            old(out)@.len() == src@.len(),
        ensures
            final(out)@.len() == src@.len(),
            forall|j: int| 0 <= j < src@.len() ==> final(out)@[j] == sat_i32(src@[j] + pair_dot(a@[2 * j], a@[2 * j + 1], b@[2 * j], b@[2 * j + 1])),
    {
        let len = src.len();
        let alen = a.len();
        let mut j: usize = 0;
        while j < len
            invariant
                j <= len,
                len == src@.len(),
                alen == a@.len(),
                a@.len() == 2 * len,
                b@.len() == a@.len(),
                out@.len() == len,
                forall|q: int| 0 <= q < j ==> out@[q] == sat_i32(src@[q] + pair_dot(a@[2 * q], a@[2 * q + 1], b@[2 * q], b@[2 * q + 1])),
            decreases len - j,
        {
            let sum = pair_dot_exec(a[2 * j], a[2 * j + 1], b[2 * j], b[2 * j + 1]);
            out[j] = vnni_acc_saturating(src[j], sum);
            j += 1;
        }
    }

    /// [`Avx512VnniVl::dpwssds_i32x4`] where `mask` bit is set, else copied from `src` (`vpdpwssds`, merge-masked).
    pub fn dpwssds_i32x4_merge_masked(self, src: [i32; 4], mask: u8, a: [i16; 8], b: [i16; 8]) -> (r: [i32; 4])
        ensures
            forall|i: int|
                0 <= i < 4 ==> r[i] == if (mask >> i as u8) % 2 == 1 {
                    sat_i32(src[i] + pair_dot(a[2 * i], a[2 * i + 1], b[2 * i], b[2 * i + 1]))
                } else {
                    src[i]
                },
    {
        let full = self.dpwssds_i32x4(src, a, b);
        let mut out = [0i32; 4];
        let mut i: usize = 0;
        while i < 4
            invariant
                i <= 4,
                forall|j: int| 0 <= j < 4 ==> full[j] == sat_i32(src[j] + pair_dot(a[2 * j], a[2 * j + 1], b[2 * j], b[2 * j + 1])),
                forall|j: int| 0 <= j < i ==> out[j] == (if (mask >> j as u8) % 2 == 1 { sat_i32(src[j] + pair_dot(a[2 * j], a[2 * j + 1], b[2 * j], b[2 * j + 1])) } else { src[j] }),
            decreases 4 - i,
        {
            out[i] = if (mask >> i as u8) % 2 == 1 { full[i] } else { src[i] };
            i += 1;
        }
        out
    }

    /// [`Avx512VnniVl::dpwssds_i32x4`] where `mask` bit is set, else zero (`vpdpwssds`, zero-masked).
    pub fn dpwssds_i32x4_zero_masked(self, mask: u8, src: [i32; 4], a: [i16; 8], b: [i16; 8]) -> (r: [i32; 4])
        ensures
            forall|i: int|
                0 <= i < 4 ==> r[i] == if (mask >> i as u8) % 2 == 1 {
                    sat_i32(src[i] + pair_dot(a[2 * i], a[2 * i + 1], b[2 * i], b[2 * i + 1]))
                } else {
                    0
                },
    {
        let full = self.dpwssds_i32x4(src, a, b);
        let mut out = [0i32; 4];
        let mut i: usize = 0;
        while i < 4
            invariant
                i <= 4,
                forall|j: int| 0 <= j < 4 ==> full[j] == sat_i32(src[j] + pair_dot(a[2 * j], a[2 * j + 1], b[2 * j], b[2 * j + 1])),
                forall|j: int| 0 <= j < i ==> out[j] == (if (mask >> j as u8) % 2 == 1 { sat_i32(src[j] + pair_dot(a[2 * j], a[2 * j + 1], b[2 * j], b[2 * j + 1])) } else { 0 }),
            decreases 4 - i,
        {
            out[i] = if (mask >> i as u8) % 2 == 1 { full[i] } else { 0 };
            i += 1;
        }
        out
    }

    /// `out[j] = src[j] + sum_k(a[2j+k] * b[2j+k])`, saturating (`vpdpwssds`, 256-bit).
    pub fn dpwssds_i32x8(self, src: [i32; 8], a: [i16; 16], b: [i16; 16]) -> (r: [i32; 8])
        ensures
            forall|j: int| 0 <= j < 8 ==> r[j] == sat_i32(src[j] + pair_dot(a[2 * j], a[2 * j + 1], b[2 * j], b[2 * j + 1])),
    {
        let mut out = [0i32; 8];
        let mut i: usize = 0;
        while i < 8
            invariant
                i <= 8,
                forall|j: int| 0 <= j < i ==> out[j] == sat_i32(src[j] + pair_dot(a[2 * j], a[2 * j + 1], b[2 * j], b[2 * j + 1])),
            decreases 8 - i,
        {
            out[i] = vnni_acc_saturating(src[i], pair_dot_exec(a[2 * i], a[2 * i + 1], b[2 * i], b[2 * i + 1]));
            i += 1;
        }
        out
    }

    /// `out[j] = src[j] + sum_k(a[2j+k] * b[2j+k])`, saturating (`vpdpwssds`). `a` and `b` hold 2 elements
    /// per `src` lane.
    pub fn dpwssds_i32_slice_wide(self, src: &[i32], a: &[i16], b: &[i16], out: &mut [i32])
        requires
            a@.len() == 2 * src@.len(),
            b@.len() == a@.len(),
            old(out)@.len() == src@.len(),
        ensures
            final(out)@.len() == src@.len(),
            forall|j: int| 0 <= j < src@.len() ==> final(out)@[j] == sat_i32(src@[j] + pair_dot(a@[2 * j], a@[2 * j + 1], b@[2 * j], b@[2 * j + 1])),
    {
        let len = src.len();
        let alen = a.len();
        let mut j: usize = 0;
        while j < len
            invariant
                j <= len,
                len == src@.len(),
                alen == a@.len(),
                a@.len() == 2 * len,
                b@.len() == a@.len(),
                out@.len() == len,
                forall|q: int| 0 <= q < j ==> out@[q] == sat_i32(src@[q] + pair_dot(a@[2 * q], a@[2 * q + 1], b@[2 * q], b@[2 * q + 1])),
            decreases len - j,
        {
            let sum = pair_dot_exec(a[2 * j], a[2 * j + 1], b[2 * j], b[2 * j + 1]);
            out[j] = vnni_acc_saturating(src[j], sum);
            j += 1;
        }
    }

    /// [`Avx512VnniVl::dpwssds_i32x8`] where `mask` bit is set, else copied from `src` (`vpdpwssds`, merge-masked).
    pub fn dpwssds_i32x8_merge_masked(self, src: [i32; 8], mask: u8, a: [i16; 16], b: [i16; 16]) -> (r: [i32; 8])
        ensures
            forall|i: int|
                0 <= i < 8 ==> r[i] == if (mask >> i as u8) % 2 == 1 {
                    sat_i32(src[i] + pair_dot(a[2 * i], a[2 * i + 1], b[2 * i], b[2 * i + 1]))
                } else {
                    src[i]
                },
    {
        let full = self.dpwssds_i32x8(src, a, b);
        let mut out = [0i32; 8];
        let mut i: usize = 0;
        while i < 8
            invariant
                i <= 8,
                forall|j: int| 0 <= j < 8 ==> full[j] == sat_i32(src[j] + pair_dot(a[2 * j], a[2 * j + 1], b[2 * j], b[2 * j + 1])),
                forall|j: int| 0 <= j < i ==> out[j] == (if (mask >> j as u8) % 2 == 1 { sat_i32(src[j] + pair_dot(a[2 * j], a[2 * j + 1], b[2 * j], b[2 * j + 1])) } else { src[j] }),
            decreases 8 - i,
        {
            out[i] = if (mask >> i as u8) % 2 == 1 { full[i] } else { src[i] };
            i += 1;
        }
        out
    }

    /// [`Avx512VnniVl::dpwssds_i32x8`] where `mask` bit is set, else zero (`vpdpwssds`, zero-masked).
    pub fn dpwssds_i32x8_zero_masked(self, mask: u8, src: [i32; 8], a: [i16; 16], b: [i16; 16]) -> (r: [i32; 8])
        ensures
            forall|i: int|
                0 <= i < 8 ==> r[i] == if (mask >> i as u8) % 2 == 1 {
                    sat_i32(src[i] + pair_dot(a[2 * i], a[2 * i + 1], b[2 * i], b[2 * i + 1]))
                } else {
                    0
                },
    {
        let full = self.dpwssds_i32x8(src, a, b);
        let mut out = [0i32; 8];
        let mut i: usize = 0;
        while i < 8
            invariant
                i <= 8,
                forall|j: int| 0 <= j < 8 ==> full[j] == sat_i32(src[j] + pair_dot(a[2 * j], a[2 * j + 1], b[2 * j], b[2 * j + 1])),
                forall|j: int| 0 <= j < i ==> out[j] == (if (mask >> j as u8) % 2 == 1 { sat_i32(src[j] + pair_dot(a[2 * j], a[2 * j + 1], b[2 * j], b[2 * j + 1])) } else { 0 }),
            decreases 8 - i,
        {
            out[i] = if (mask >> i as u8) % 2 == 1 { full[i] } else { 0 };
            i += 1;
        }
        out
    }
}

} // verus!
