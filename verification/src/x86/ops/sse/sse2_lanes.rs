//! SSE2 lane arithmetic and bitwise ops on [`Sse2`]: wrapping and saturating add/sub,
//! equality masks, AND/OR/XOR/ANDN, byte/word min/max, low-half multiply, rounded average,
//! uniform-count shifts, scalar divide, interleave, word/dword shuffles and the byte sign
//! mask. Each op has a fixed-width form and most have an equal-length slice form (full-width
//! chunks, then a scalar remainder).

use vstd::arithmetic::div_mod::lemma_div_is_ordered_by_denominator;
use vstd::arithmetic::power2::{lemma2_to64, lemma_pow2_strictly_increases, lemma_pow2_unfold, pow2};
use vstd::prelude::*;

use super::super::chunk::{
    loadu_i16x8, loadu_i32x4, loadu_i64x2, loadu_i8x16, loadu_u16x8, loadu_u32x4, loadu_u64x2,
    loadu_u8x16, storeu_i16x8, storeu_i32x4, storeu_i64x2, storeu_i8x16, storeu_u16x8, storeu_u32x4,
    storeu_u64x2, storeu_u8x16,
};
use super::super::lanes::{
    lemma_not_ranges, mask_i16, mask_i32, mask_i8, mask_u16, mask_u32, mask_u8,
};
use super::sse2::Sse2;

verus! {

/// `x` clamped into `i8` range.
pub open spec fn sat_i8(x: int) -> i8 {
    if x > i8::MAX {
        i8::MAX
    } else if x < i8::MIN {
        i8::MIN
    } else {
        x as i8
    }
}

/// `x` clamped into `i16` range.
pub open spec fn sat_i16(x: int) -> i16 {
    if x > i16::MAX {
        i16::MAX
    } else if x < i16::MIN {
        i16::MIN
    } else {
        x as i16
    }
}

/// Quotient of `x / d` rounded toward zero, as Rust's `/` on integers computes it.
pub open spec fn trunc_div(x: int, d: int) -> int {
    if x == 0 {
        0
    } else if x > 0 && d > 0 {
        x / d
    } else if x < 0 && d < 0 {
        (x * -1) / (d * -1)
    } else if x < 0 {
        ((x * -1) / d) * -1
    } else {
        (x / (d * -1)) * -1
    }
}

/// Sum of `2^i` over the lanes `i < n` of `a` whose sign bit is set.
pub open spec fn sign_mask(a: Seq<i8>, n: nat) -> nat
    decreases n,
{
    if n == 0 {
        0
    } else {
        sign_mask(a, (n - 1) as nat) + if a[n - 1] < 0 {
            pow2((n - 1) as nat)
        } else {
            0
        }
    }
}

/// A quotient rounded toward zero of `i32` operands fits in `i32`, except `i32::MIN / -1`.
proof fn lemma_trunc_div_range(x: int, d: int)
    requires
        i32::MIN <= x <= i32::MAX,
        i32::MIN <= d <= i32::MAX,
        d != 0,
        !(x == i32::MIN && d == -1),
    ensures
        i32::MIN <= trunc_div(x, d) <= i32::MAX,
{
    if x > 0 && d > 0 {
        lemma_div_is_ordered_by_denominator(x, 1, d);
    } else if x < 0 && d < 0 {
        if d != -1 {
            lemma_div_is_ordered_by_denominator(-x, 2, -d);
        }
    } else if x < 0 {
        lemma_div_is_ordered_by_denominator(-x, 1, d);
    } else if x > 0 {
        lemma_div_is_ordered_by_denominator(x, 1, -d);
    }
}

/// `x + y` clamped into `i8` range.
pub(crate) fn adds_i8(x: i8, y: i8) -> (r: i8)
    ensures
        r == sat_i8(x + y),
{
    let s: i32 = x as i32 + y as i32;
    if s > i8::MAX as i32 {
        i8::MAX
    } else if s < i8::MIN as i32 {
        i8::MIN
    } else {
        s as i8
    }
}

/// `x - y` clamped into `i8` range.
pub(crate) fn subs_i8(x: i8, y: i8) -> (r: i8)
    ensures
        r == sat_i8(x - y),
{
    let s: i32 = x as i32 - y as i32;
    if s > i8::MAX as i32 {
        i8::MAX
    } else if s < i8::MIN as i32 {
        i8::MIN
    } else {
        s as i8
    }
}

/// `x + y` clamped into `i16` range.
pub(crate) fn adds_i16(x: i16, y: i16) -> (r: i16)
    ensures
        r == sat_i16(x + y),
{
    let s: i32 = x as i32 + y as i32;
    if s > i16::MAX as i32 {
        i16::MAX
    } else if s < i16::MIN as i32 {
        i16::MIN
    } else {
        s as i16
    }
}

/// `x - y` clamped into `i16` range.
pub(crate) fn subs_i16(x: i16, y: i16) -> (r: i16)
    ensures
        r == sat_i16(x - y),
{
    let s: i32 = x as i32 - y as i32;
    if s > i16::MAX as i32 {
        i16::MAX
    } else if s < i16::MIN as i32 {
        i16::MIN
    } else {
        s as i16
    }
}

// `i8` lanes.
impl Sse2 {
    /// `a + b` per lane, wrapping (`paddb`).
    pub fn add_i8x16(self, a: [i8; 16], b: [i8; 16]) -> (r: [i8; 16])
        ensures
            forall|i: int| 0 <= i < 16 ==> r[i] == a[i].wrapping_add(b[i]),
    {
        let mut out = [0i8; 16];
        let mut i: usize = 0;
        while i < 16
            invariant
                i <= 16,
                forall|j: int| 0 <= j < i ==> out[j] == a[j].wrapping_add(b[j]),
            decreases 16 - i,
        {
            out[i] = a[i].wrapping_add(b[i]);
            i += 1;
        }
        out
    }

    /// `out[i] = a[i].wrapping_add(b[i])`. 16-wide chunks, scalar remainder.
    pub fn add_i8_slice(self, a: &[i8], b: &[i8], out: &mut [i8])
        requires
            a@.len() == b@.len(),
            old(out)@.len() == a@.len(),
        ensures
            final(out)@.len() == a@.len(),
            forall|i: int| 0 <= i < a@.len() ==> final(out)@[i] == a@[i].wrapping_add(b@[i]),
    {
        let len = a.len();
        let mut i: usize = 0;
        while len - i >= 16
            invariant
                i <= len,
                len == a@.len(),
                len == b@.len(),
                out@.len() == len,
                forall|j: int| 0 <= j < i ==> out@[j] == a@[j].wrapping_add(b@[j]),
            decreases len - i,
        {
            let r = self.add_i8x16(loadu_i8x16(a, i), loadu_i8x16(b, i));
            storeu_i8x16(out, i, r);
            i += 16;
        }
        while i < len
            invariant
                i <= len,
                len == a@.len(),
                len == b@.len(),
                out@.len() == len,
                forall|j: int| 0 <= j < i ==> out@[j] == a@[j].wrapping_add(b@[j]),
            decreases len - i,
        {
            out[i] = a[i].wrapping_add(b[i]);
            i += 1;
        }
    }

    /// `a - b` per lane, wrapping (`psubb`).
    pub fn sub_i8x16(self, a: [i8; 16], b: [i8; 16]) -> (r: [i8; 16])
        ensures
            forall|i: int| 0 <= i < 16 ==> r[i] == a[i].wrapping_sub(b[i]),
    {
        let mut out = [0i8; 16];
        let mut i: usize = 0;
        while i < 16
            invariant
                i <= 16,
                forall|j: int| 0 <= j < i ==> out[j] == a[j].wrapping_sub(b[j]),
            decreases 16 - i,
        {
            out[i] = a[i].wrapping_sub(b[i]);
            i += 1;
        }
        out
    }

    /// `out[i] = a[i].wrapping_sub(b[i])`. 16-wide chunks, scalar remainder.
    pub fn sub_i8_slice(self, a: &[i8], b: &[i8], out: &mut [i8])
        requires
            a@.len() == b@.len(),
            old(out)@.len() == a@.len(),
        ensures
            final(out)@.len() == a@.len(),
            forall|i: int| 0 <= i < a@.len() ==> final(out)@[i] == a@[i].wrapping_sub(b@[i]),
    {
        let len = a.len();
        let mut i: usize = 0;
        while len - i >= 16
            invariant
                i <= len,
                len == a@.len(),
                len == b@.len(),
                out@.len() == len,
                forall|j: int| 0 <= j < i ==> out@[j] == a@[j].wrapping_sub(b@[j]),
            decreases len - i,
        {
            let r = self.sub_i8x16(loadu_i8x16(a, i), loadu_i8x16(b, i));
            storeu_i8x16(out, i, r);
            i += 16;
        }
        while i < len
            invariant
                i <= len,
                len == a@.len(),
                len == b@.len(),
                out@.len() == len,
                forall|j: int| 0 <= j < i ==> out@[j] == a@[j].wrapping_sub(b@[j]),
            decreases len - i,
        {
            out[i] = a[i].wrapping_sub(b[i]);
            i += 1;
        }
    }

    /// `a + b` per lane, saturating (`paddsb`).
    pub fn adds_i8x16(self, a: [i8; 16], b: [i8; 16]) -> (r: [i8; 16])
        ensures
            forall|i: int| 0 <= i < 16 ==> r[i] == sat_i8(a[i] + b[i]),
    {
        let mut out = [0i8; 16];
        let mut i: usize = 0;
        while i < 16
            invariant
                i <= 16,
                forall|j: int| 0 <= j < i ==> out[j] == sat_i8(a[j] + b[j]),
            decreases 16 - i,
        {
            out[i] = adds_i8(a[i], b[i]);
            i += 1;
        }
        out
    }

    /// `out[i] = a[i].saturating_add(b[i])`. 16-wide chunks, scalar remainder.
    pub fn adds_i8_slice(self, a: &[i8], b: &[i8], out: &mut [i8])
        requires
            a@.len() == b@.len(),
            old(out)@.len() == a@.len(),
        ensures
            final(out)@.len() == a@.len(),
            forall|i: int| 0 <= i < a@.len() ==> final(out)@[i] == sat_i8(a@[i] + b@[i]),
    {
        let len = a.len();
        let mut i: usize = 0;
        while len - i >= 16
            invariant
                i <= len,
                len == a@.len(),
                len == b@.len(),
                out@.len() == len,
                forall|j: int| 0 <= j < i ==> out@[j] == sat_i8(a@[j] + b@[j]),
            decreases len - i,
        {
            let r = self.adds_i8x16(loadu_i8x16(a, i), loadu_i8x16(b, i));
            storeu_i8x16(out, i, r);
            i += 16;
        }
        while i < len
            invariant
                i <= len,
                len == a@.len(),
                len == b@.len(),
                out@.len() == len,
                forall|j: int| 0 <= j < i ==> out@[j] == sat_i8(a@[j] + b@[j]),
            decreases len - i,
        {
            out[i] = adds_i8(a[i], b[i]);
            i += 1;
        }
    }

    /// `a - b` per lane, saturating (`psubsb`).
    pub fn subs_i8x16(self, a: [i8; 16], b: [i8; 16]) -> (r: [i8; 16])
        ensures
            forall|i: int| 0 <= i < 16 ==> r[i] == sat_i8(a[i] - b[i]),
    {
        let mut out = [0i8; 16];
        let mut i: usize = 0;
        while i < 16
            invariant
                i <= 16,
                forall|j: int| 0 <= j < i ==> out[j] == sat_i8(a[j] - b[j]),
            decreases 16 - i,
        {
            out[i] = subs_i8(a[i], b[i]);
            i += 1;
        }
        out
    }

    /// `out[i] = a[i].saturating_sub(b[i])`. 16-wide chunks, scalar remainder.
    pub fn subs_i8_slice(self, a: &[i8], b: &[i8], out: &mut [i8])
        requires
            a@.len() == b@.len(),
            old(out)@.len() == a@.len(),
        ensures
            final(out)@.len() == a@.len(),
            forall|i: int| 0 <= i < a@.len() ==> final(out)@[i] == sat_i8(a@[i] - b@[i]),
    {
        let len = a.len();
        let mut i: usize = 0;
        while len - i >= 16
            invariant
                i <= len,
                len == a@.len(),
                len == b@.len(),
                out@.len() == len,
                forall|j: int| 0 <= j < i ==> out@[j] == sat_i8(a@[j] - b@[j]),
            decreases len - i,
        {
            let r = self.subs_i8x16(loadu_i8x16(a, i), loadu_i8x16(b, i));
            storeu_i8x16(out, i, r);
            i += 16;
        }
        while i < len
            invariant
                i <= len,
                len == a@.len(),
                len == b@.len(),
                out@.len() == len,
                forall|j: int| 0 <= j < i ==> out@[j] == sat_i8(a@[j] - b@[j]),
            decreases len - i,
        {
            out[i] = subs_i8(a[i], b[i]);
            i += 1;
        }
    }

    /// Lane equality mask (`pcmpeqb`): all-1s if equal, else 0.
    pub fn cmpeq_i8x16(self, a: [i8; 16], b: [i8; 16]) -> (r: [i8; 16])
        ensures
            forall|i: int| 0 <= i < 16 ==> r[i] == mask_i8(a[i] == b[i]),
    {
        let mut out = [0i8; 16];
        let mut i: usize = 0;
        while i < 16
            invariant
                i <= 16,
                forall|j: int| 0 <= j < i ==> out[j] == mask_i8(a[j] == b[j]),
            decreases 16 - i,
        {
            out[i] = if a[i] == b[i] { -1 } else { 0 };
            i += 1;
        }
        out
    }

    /// `out[i] = all-1s if a[i]==b[i] else 0`. 16-wide chunks, scalar remainder.
    pub fn cmpeq_i8_slice(self, a: &[i8], b: &[i8], out: &mut [i8])
        requires
            a@.len() == b@.len(),
            old(out)@.len() == a@.len(),
        ensures
            final(out)@.len() == a@.len(),
            forall|i: int| 0 <= i < a@.len() ==> final(out)@[i] == mask_i8(a@[i] == b@[i]),
    {
        let len = a.len();
        let mut i: usize = 0;
        while len - i >= 16
            invariant
                i <= len,
                len == a@.len(),
                len == b@.len(),
                out@.len() == len,
                forall|j: int| 0 <= j < i ==> out@[j] == mask_i8(a@[j] == b@[j]),
            decreases len - i,
        {
            let r = self.cmpeq_i8x16(loadu_i8x16(a, i), loadu_i8x16(b, i));
            storeu_i8x16(out, i, r);
            i += 16;
        }
        while i < len
            invariant
                i <= len,
                len == a@.len(),
                len == b@.len(),
                out@.len() == len,
                forall|j: int| 0 <= j < i ==> out@[j] == mask_i8(a@[j] == b@[j]),
            decreases len - i,
        {
            out[i] = if a[i] == b[i] { -1 } else { 0 };
            i += 1;
        }
    }

    /// `a & b` per lane (`pand`).
    pub fn and_i8x16(self, a: [i8; 16], b: [i8; 16]) -> (r: [i8; 16])
        ensures
            forall|i: int| 0 <= i < 16 ==> r[i] == a[i] & b[i],
    {
        let mut out = [0i8; 16];
        let mut i: usize = 0;
        while i < 16
            invariant
                i <= 16,
                forall|j: int| 0 <= j < i ==> out[j] == a[j] & b[j],
            decreases 16 - i,
        {
            out[i] = a[i] & b[i];
            i += 1;
        }
        out
    }

    /// `out[i] = a[i] & b[i]`. 16-wide chunks, scalar remainder.
    pub fn and_i8_slice(self, a: &[i8], b: &[i8], out: &mut [i8])
        requires
            a@.len() == b@.len(),
            old(out)@.len() == a@.len(),
        ensures
            final(out)@.len() == a@.len(),
            forall|i: int| 0 <= i < a@.len() ==> final(out)@[i] == a@[i] & b@[i],
    {
        let len = a.len();
        let mut i: usize = 0;
        while len - i >= 16
            invariant
                i <= len,
                len == a@.len(),
                len == b@.len(),
                out@.len() == len,
                forall|j: int| 0 <= j < i ==> out@[j] == a@[j] & b@[j],
            decreases len - i,
        {
            let r = self.and_i8x16(loadu_i8x16(a, i), loadu_i8x16(b, i));
            storeu_i8x16(out, i, r);
            i += 16;
        }
        while i < len
            invariant
                i <= len,
                len == a@.len(),
                len == b@.len(),
                out@.len() == len,
                forall|j: int| 0 <= j < i ==> out@[j] == a@[j] & b@[j],
            decreases len - i,
        {
            out[i] = a[i] & b[i];
            i += 1;
        }
    }

    /// `a | b` per lane (`por`).
    pub fn or_i8x16(self, a: [i8; 16], b: [i8; 16]) -> (r: [i8; 16])
        ensures
            forall|i: int| 0 <= i < 16 ==> r[i] == a[i] | b[i],
    {
        let mut out = [0i8; 16];
        let mut i: usize = 0;
        while i < 16
            invariant
                i <= 16,
                forall|j: int| 0 <= j < i ==> out[j] == a[j] | b[j],
            decreases 16 - i,
        {
            out[i] = a[i] | b[i];
            i += 1;
        }
        out
    }

    /// `out[i] = a[i] | b[i]`. 16-wide chunks, scalar remainder.
    pub fn or_i8_slice(self, a: &[i8], b: &[i8], out: &mut [i8])
        requires
            a@.len() == b@.len(),
            old(out)@.len() == a@.len(),
        ensures
            final(out)@.len() == a@.len(),
            forall|i: int| 0 <= i < a@.len() ==> final(out)@[i] == a@[i] | b@[i],
    {
        let len = a.len();
        let mut i: usize = 0;
        while len - i >= 16
            invariant
                i <= len,
                len == a@.len(),
                len == b@.len(),
                out@.len() == len,
                forall|j: int| 0 <= j < i ==> out@[j] == a@[j] | b@[j],
            decreases len - i,
        {
            let r = self.or_i8x16(loadu_i8x16(a, i), loadu_i8x16(b, i));
            storeu_i8x16(out, i, r);
            i += 16;
        }
        while i < len
            invariant
                i <= len,
                len == a@.len(),
                len == b@.len(),
                out@.len() == len,
                forall|j: int| 0 <= j < i ==> out@[j] == a@[j] | b@[j],
            decreases len - i,
        {
            out[i] = a[i] | b[i];
            i += 1;
        }
    }

    /// `a ^ b` per lane (`pxor`).
    pub fn xor_i8x16(self, a: [i8; 16], b: [i8; 16]) -> (r: [i8; 16])
        ensures
            forall|i: int| 0 <= i < 16 ==> r[i] == a[i] ^ b[i],
    {
        let mut out = [0i8; 16];
        let mut i: usize = 0;
        while i < 16
            invariant
                i <= 16,
                forall|j: int| 0 <= j < i ==> out[j] == a[j] ^ b[j],
            decreases 16 - i,
        {
            out[i] = a[i] ^ b[i];
            i += 1;
        }
        out
    }

    /// `out[i] = a[i] ^ b[i]`. 16-wide chunks, scalar remainder.
    pub fn xor_i8_slice(self, a: &[i8], b: &[i8], out: &mut [i8])
        requires
            a@.len() == b@.len(),
            old(out)@.len() == a@.len(),
        ensures
            final(out)@.len() == a@.len(),
            forall|i: int| 0 <= i < a@.len() ==> final(out)@[i] == a@[i] ^ b@[i],
    {
        let len = a.len();
        let mut i: usize = 0;
        while len - i >= 16
            invariant
                i <= len,
                len == a@.len(),
                len == b@.len(),
                out@.len() == len,
                forall|j: int| 0 <= j < i ==> out@[j] == a@[j] ^ b@[j],
            decreases len - i,
        {
            let r = self.xor_i8x16(loadu_i8x16(a, i), loadu_i8x16(b, i));
            storeu_i8x16(out, i, r);
            i += 16;
        }
        while i < len
            invariant
                i <= len,
                len == a@.len(),
                len == b@.len(),
                out@.len() == len,
                forall|j: int| 0 <= j < i ==> out@[j] == a@[j] ^ b@[j],
            decreases len - i,
        {
            out[i] = a[i] ^ b[i];
            i += 1;
        }
    }

    /// `!a & b` per lane (`pandn`).
    pub fn andnot_i8x16(self, a: [i8; 16], b: [i8; 16]) -> (r: [i8; 16])
        ensures
            forall|i: int| 0 <= i < 16 ==> r[i] == !a[i] & b[i],
    {
        let mut out = [0i8; 16];
        let mut i: usize = 0;
        while i < 16
            invariant
                i <= 16,
                forall|j: int| 0 <= j < i ==> out[j] == !a[j] & b[j],
            decreases 16 - i,
        {
            proof {
                lemma_not_ranges();
            }
            out[i] = !a[i] & b[i];
            i += 1;
        }
        out
    }

    /// `out[i] = !a[i] & b[i]`. 16-wide chunks, scalar remainder.
    pub fn andnot_i8_slice(self, a: &[i8], b: &[i8], out: &mut [i8])
        requires
            a@.len() == b@.len(),
            old(out)@.len() == a@.len(),
        ensures
            final(out)@.len() == a@.len(),
            forall|i: int| 0 <= i < a@.len() ==> final(out)@[i] == !a@[i] & b@[i],
    {
        let len = a.len();
        let mut i: usize = 0;
        while len - i >= 16
            invariant
                i <= len,
                len == a@.len(),
                len == b@.len(),
                out@.len() == len,
                forall|j: int| 0 <= j < i ==> out@[j] == !a@[j] & b@[j],
            decreases len - i,
        {
            let r = self.andnot_i8x16(loadu_i8x16(a, i), loadu_i8x16(b, i));
            storeu_i8x16(out, i, r);
            i += 16;
        }
        while i < len
            invariant
                i <= len,
                len == a@.len(),
                len == b@.len(),
                out@.len() == len,
                forall|j: int| 0 <= j < i ==> out@[j] == !a@[j] & b@[j],
            decreases len - i,
        {
            proof {
                lemma_not_ranges();
            }
            out[i] = !a[i] & b[i];
            i += 1;
        }
    }

    /// `a * b` per lane, wrapping (no native 8-bit SIMD multiply on x86 at any tier).
    pub fn mul_i8x16(self, a: [i8; 16], b: [i8; 16]) -> (r: [i8; 16])
        ensures
            forall|i: int| 0 <= i < 16 ==> r[i] == a[i].wrapping_mul(b[i]),
    {
        let mut out = [0i8; 16];
        let mut i: usize = 0;
        while i < 16
            invariant
                i <= 16,
                forall|j: int| 0 <= j < i ==> out[j] == a[j].wrapping_mul(b[j]),
            decreases 16 - i,
        {
            out[i] = a[i].wrapping_mul(b[i]);
            i += 1;
        }
        out
    }

    /// `out[i] = a[i].wrapping_mul(b[i])`. 16-wide chunks, scalar remainder.
    pub fn mul_i8_slice(self, a: &[i8], b: &[i8], out: &mut [i8])
        requires
            a@.len() == b@.len(),
            old(out)@.len() == a@.len(),
        ensures
            final(out)@.len() == a@.len(),
            forall|i: int| 0 <= i < a@.len() ==> final(out)@[i] == a@[i].wrapping_mul(b@[i]),
    {
        let len = a.len();
        let mut i: usize = 0;
        while len - i >= 16
            invariant
                i <= len,
                len == a@.len(),
                len == b@.len(),
                out@.len() == len,
                forall|j: int| 0 <= j < i ==> out@[j] == a@[j].wrapping_mul(b@[j]),
            decreases len - i,
        {
            let r = self.mul_i8x16(loadu_i8x16(a, i), loadu_i8x16(b, i));
            storeu_i8x16(out, i, r);
            i += 16;
        }
        while i < len
            invariant
                i <= len,
                len == a@.len(),
                len == b@.len(),
                out@.len() == len,
                forall|j: int| 0 <= j < i ==> out@[j] == a@[j].wrapping_mul(b@[j]),
            decreases len - i,
        {
            out[i] = a[i].wrapping_mul(b[i]);
            i += 1;
        }
    }

}

// `u8` lanes.
impl Sse2 {
    /// `a + b` per lane, wrapping (`paddb`).
    pub fn add_u8x16(self, a: [u8; 16], b: [u8; 16]) -> (r: [u8; 16])
        ensures
            forall|i: int| 0 <= i < 16 ==> r[i] == a[i].wrapping_add(b[i]),
    {
        let mut out = [0u8; 16];
        let mut i: usize = 0;
        while i < 16
            invariant
                i <= 16,
                forall|j: int| 0 <= j < i ==> out[j] == a[j].wrapping_add(b[j]),
            decreases 16 - i,
        {
            out[i] = a[i].wrapping_add(b[i]);
            i += 1;
        }
        out
    }

    /// `out[i] = a[i].wrapping_add(b[i])`. 16-wide chunks, scalar remainder.
    pub fn add_u8_slice(self, a: &[u8], b: &[u8], out: &mut [u8])
        requires
            a@.len() == b@.len(),
            old(out)@.len() == a@.len(),
        ensures
            final(out)@.len() == a@.len(),
            forall|i: int| 0 <= i < a@.len() ==> final(out)@[i] == a@[i].wrapping_add(b@[i]),
    {
        let len = a.len();
        let mut i: usize = 0;
        while len - i >= 16
            invariant
                i <= len,
                len == a@.len(),
                len == b@.len(),
                out@.len() == len,
                forall|j: int| 0 <= j < i ==> out@[j] == a@[j].wrapping_add(b@[j]),
            decreases len - i,
        {
            let r = self.add_u8x16(loadu_u8x16(a, i), loadu_u8x16(b, i));
            storeu_u8x16(out, i, r);
            i += 16;
        }
        while i < len
            invariant
                i <= len,
                len == a@.len(),
                len == b@.len(),
                out@.len() == len,
                forall|j: int| 0 <= j < i ==> out@[j] == a@[j].wrapping_add(b@[j]),
            decreases len - i,
        {
            out[i] = a[i].wrapping_add(b[i]);
            i += 1;
        }
    }

    /// `a - b` per lane, wrapping (`psubb`).
    pub fn sub_u8x16(self, a: [u8; 16], b: [u8; 16]) -> (r: [u8; 16])
        ensures
            forall|i: int| 0 <= i < 16 ==> r[i] == a[i].wrapping_sub(b[i]),
    {
        let mut out = [0u8; 16];
        let mut i: usize = 0;
        while i < 16
            invariant
                i <= 16,
                forall|j: int| 0 <= j < i ==> out[j] == a[j].wrapping_sub(b[j]),
            decreases 16 - i,
        {
            out[i] = a[i].wrapping_sub(b[i]);
            i += 1;
        }
        out
    }

    /// `out[i] = a[i].wrapping_sub(b[i])`. 16-wide chunks, scalar remainder.
    pub fn sub_u8_slice(self, a: &[u8], b: &[u8], out: &mut [u8])
        requires
            a@.len() == b@.len(),
            old(out)@.len() == a@.len(),
        ensures
            final(out)@.len() == a@.len(),
            forall|i: int| 0 <= i < a@.len() ==> final(out)@[i] == a@[i].wrapping_sub(b@[i]),
    {
        let len = a.len();
        let mut i: usize = 0;
        while len - i >= 16
            invariant
                i <= len,
                len == a@.len(),
                len == b@.len(),
                out@.len() == len,
                forall|j: int| 0 <= j < i ==> out@[j] == a@[j].wrapping_sub(b@[j]),
            decreases len - i,
        {
            let r = self.sub_u8x16(loadu_u8x16(a, i), loadu_u8x16(b, i));
            storeu_u8x16(out, i, r);
            i += 16;
        }
        while i < len
            invariant
                i <= len,
                len == a@.len(),
                len == b@.len(),
                out@.len() == len,
                forall|j: int| 0 <= j < i ==> out@[j] == a@[j].wrapping_sub(b@[j]),
            decreases len - i,
        {
            out[i] = a[i].wrapping_sub(b[i]);
            i += 1;
        }
    }

    /// `a + b` per lane, saturating (`paddusb`).
    pub fn adds_u8x16(self, a: [u8; 16], b: [u8; 16]) -> (r: [u8; 16])
        ensures
            forall|i: int| 0 <= i < 16 ==> r[i] == a[i].saturating_add(b[i]),
    {
        let mut out = [0u8; 16];
        let mut i: usize = 0;
        while i < 16
            invariant
                i <= 16,
                forall|j: int| 0 <= j < i ==> out[j] == a[j].saturating_add(b[j]),
            decreases 16 - i,
        {
            out[i] = a[i].saturating_add(b[i]);
            i += 1;
        }
        out
    }

    /// `out[i] = a[i].saturating_add(b[i])`. 16-wide chunks, scalar remainder.
    pub fn adds_u8_slice(self, a: &[u8], b: &[u8], out: &mut [u8])
        requires
            a@.len() == b@.len(),
            old(out)@.len() == a@.len(),
        ensures
            final(out)@.len() == a@.len(),
            forall|i: int| 0 <= i < a@.len() ==> final(out)@[i] == a@[i].saturating_add(b@[i]),
    {
        let len = a.len();
        let mut i: usize = 0;
        while len - i >= 16
            invariant
                i <= len,
                len == a@.len(),
                len == b@.len(),
                out@.len() == len,
                forall|j: int| 0 <= j < i ==> out@[j] == a@[j].saturating_add(b@[j]),
            decreases len - i,
        {
            let r = self.adds_u8x16(loadu_u8x16(a, i), loadu_u8x16(b, i));
            storeu_u8x16(out, i, r);
            i += 16;
        }
        while i < len
            invariant
                i <= len,
                len == a@.len(),
                len == b@.len(),
                out@.len() == len,
                forall|j: int| 0 <= j < i ==> out@[j] == a@[j].saturating_add(b@[j]),
            decreases len - i,
        {
            out[i] = a[i].saturating_add(b[i]);
            i += 1;
        }
    }

    /// `a - b` per lane, saturating (`psubusb`).
    pub fn subs_u8x16(self, a: [u8; 16], b: [u8; 16]) -> (r: [u8; 16])
        ensures
            forall|i: int| 0 <= i < 16 ==> r[i] == a[i].saturating_sub(b[i]),
    {
        let mut out = [0u8; 16];
        let mut i: usize = 0;
        while i < 16
            invariant
                i <= 16,
                forall|j: int| 0 <= j < i ==> out[j] == a[j].saturating_sub(b[j]),
            decreases 16 - i,
        {
            out[i] = a[i].saturating_sub(b[i]);
            i += 1;
        }
        out
    }

    /// `out[i] = a[i].saturating_sub(b[i])`. 16-wide chunks, scalar remainder.
    pub fn subs_u8_slice(self, a: &[u8], b: &[u8], out: &mut [u8])
        requires
            a@.len() == b@.len(),
            old(out)@.len() == a@.len(),
        ensures
            final(out)@.len() == a@.len(),
            forall|i: int| 0 <= i < a@.len() ==> final(out)@[i] == a@[i].saturating_sub(b@[i]),
    {
        let len = a.len();
        let mut i: usize = 0;
        while len - i >= 16
            invariant
                i <= len,
                len == a@.len(),
                len == b@.len(),
                out@.len() == len,
                forall|j: int| 0 <= j < i ==> out@[j] == a@[j].saturating_sub(b@[j]),
            decreases len - i,
        {
            let r = self.subs_u8x16(loadu_u8x16(a, i), loadu_u8x16(b, i));
            storeu_u8x16(out, i, r);
            i += 16;
        }
        while i < len
            invariant
                i <= len,
                len == a@.len(),
                len == b@.len(),
                out@.len() == len,
                forall|j: int| 0 <= j < i ==> out@[j] == a@[j].saturating_sub(b@[j]),
            decreases len - i,
        {
            out[i] = a[i].saturating_sub(b[i]);
            i += 1;
        }
    }

    /// Lane equality mask (`pcmpeqb`): all-1s if equal, else 0.
    pub fn cmpeq_u8x16(self, a: [u8; 16], b: [u8; 16]) -> (r: [u8; 16])
        ensures
            forall|i: int| 0 <= i < 16 ==> r[i] == mask_u8(a[i] == b[i]),
    {
        let mut out = [0u8; 16];
        let mut i: usize = 0;
        while i < 16
            invariant
                i <= 16,
                forall|j: int| 0 <= j < i ==> out[j] == mask_u8(a[j] == b[j]),
            decreases 16 - i,
        {
            out[i] = if a[i] == b[i] { u8::MAX } else { 0 };
            i += 1;
        }
        out
    }

    /// `out[i] = all-1s if a[i]==b[i] else 0`. 16-wide chunks, scalar remainder.
    pub fn cmpeq_u8_slice(self, a: &[u8], b: &[u8], out: &mut [u8])
        requires
            a@.len() == b@.len(),
            old(out)@.len() == a@.len(),
        ensures
            final(out)@.len() == a@.len(),
            forall|i: int| 0 <= i < a@.len() ==> final(out)@[i] == mask_u8(a@[i] == b@[i]),
    {
        let len = a.len();
        let mut i: usize = 0;
        while len - i >= 16
            invariant
                i <= len,
                len == a@.len(),
                len == b@.len(),
                out@.len() == len,
                forall|j: int| 0 <= j < i ==> out@[j] == mask_u8(a@[j] == b@[j]),
            decreases len - i,
        {
            let r = self.cmpeq_u8x16(loadu_u8x16(a, i), loadu_u8x16(b, i));
            storeu_u8x16(out, i, r);
            i += 16;
        }
        while i < len
            invariant
                i <= len,
                len == a@.len(),
                len == b@.len(),
                out@.len() == len,
                forall|j: int| 0 <= j < i ==> out@[j] == mask_u8(a@[j] == b@[j]),
            decreases len - i,
        {
            out[i] = if a[i] == b[i] { u8::MAX } else { 0 };
            i += 1;
        }
    }

    /// `a & b` per lane (`pand`).
    pub fn and_u8x16(self, a: [u8; 16], b: [u8; 16]) -> (r: [u8; 16])
        ensures
            forall|i: int| 0 <= i < 16 ==> r[i] == a[i] & b[i],
    {
        let mut out = [0u8; 16];
        let mut i: usize = 0;
        while i < 16
            invariant
                i <= 16,
                forall|j: int| 0 <= j < i ==> out[j] == a[j] & b[j],
            decreases 16 - i,
        {
            out[i] = a[i] & b[i];
            i += 1;
        }
        out
    }

    /// `out[i] = a[i] & b[i]`. 16-wide chunks, scalar remainder.
    pub fn and_u8_slice(self, a: &[u8], b: &[u8], out: &mut [u8])
        requires
            a@.len() == b@.len(),
            old(out)@.len() == a@.len(),
        ensures
            final(out)@.len() == a@.len(),
            forall|i: int| 0 <= i < a@.len() ==> final(out)@[i] == a@[i] & b@[i],
    {
        let len = a.len();
        let mut i: usize = 0;
        while len - i >= 16
            invariant
                i <= len,
                len == a@.len(),
                len == b@.len(),
                out@.len() == len,
                forall|j: int| 0 <= j < i ==> out@[j] == a@[j] & b@[j],
            decreases len - i,
        {
            let r = self.and_u8x16(loadu_u8x16(a, i), loadu_u8x16(b, i));
            storeu_u8x16(out, i, r);
            i += 16;
        }
        while i < len
            invariant
                i <= len,
                len == a@.len(),
                len == b@.len(),
                out@.len() == len,
                forall|j: int| 0 <= j < i ==> out@[j] == a@[j] & b@[j],
            decreases len - i,
        {
            out[i] = a[i] & b[i];
            i += 1;
        }
    }

    /// `a | b` per lane (`por`).
    pub fn or_u8x16(self, a: [u8; 16], b: [u8; 16]) -> (r: [u8; 16])
        ensures
            forall|i: int| 0 <= i < 16 ==> r[i] == a[i] | b[i],
    {
        let mut out = [0u8; 16];
        let mut i: usize = 0;
        while i < 16
            invariant
                i <= 16,
                forall|j: int| 0 <= j < i ==> out[j] == a[j] | b[j],
            decreases 16 - i,
        {
            out[i] = a[i] | b[i];
            i += 1;
        }
        out
    }

    /// `out[i] = a[i] | b[i]`. 16-wide chunks, scalar remainder.
    pub fn or_u8_slice(self, a: &[u8], b: &[u8], out: &mut [u8])
        requires
            a@.len() == b@.len(),
            old(out)@.len() == a@.len(),
        ensures
            final(out)@.len() == a@.len(),
            forall|i: int| 0 <= i < a@.len() ==> final(out)@[i] == a@[i] | b@[i],
    {
        let len = a.len();
        let mut i: usize = 0;
        while len - i >= 16
            invariant
                i <= len,
                len == a@.len(),
                len == b@.len(),
                out@.len() == len,
                forall|j: int| 0 <= j < i ==> out@[j] == a@[j] | b@[j],
            decreases len - i,
        {
            let r = self.or_u8x16(loadu_u8x16(a, i), loadu_u8x16(b, i));
            storeu_u8x16(out, i, r);
            i += 16;
        }
        while i < len
            invariant
                i <= len,
                len == a@.len(),
                len == b@.len(),
                out@.len() == len,
                forall|j: int| 0 <= j < i ==> out@[j] == a@[j] | b@[j],
            decreases len - i,
        {
            out[i] = a[i] | b[i];
            i += 1;
        }
    }

    /// `a ^ b` per lane (`pxor`).
    pub fn xor_u8x16(self, a: [u8; 16], b: [u8; 16]) -> (r: [u8; 16])
        ensures
            forall|i: int| 0 <= i < 16 ==> r[i] == a[i] ^ b[i],
    {
        let mut out = [0u8; 16];
        let mut i: usize = 0;
        while i < 16
            invariant
                i <= 16,
                forall|j: int| 0 <= j < i ==> out[j] == a[j] ^ b[j],
            decreases 16 - i,
        {
            out[i] = a[i] ^ b[i];
            i += 1;
        }
        out
    }

    /// `out[i] = a[i] ^ b[i]`. 16-wide chunks, scalar remainder.
    pub fn xor_u8_slice(self, a: &[u8], b: &[u8], out: &mut [u8])
        requires
            a@.len() == b@.len(),
            old(out)@.len() == a@.len(),
        ensures
            final(out)@.len() == a@.len(),
            forall|i: int| 0 <= i < a@.len() ==> final(out)@[i] == a@[i] ^ b@[i],
    {
        let len = a.len();
        let mut i: usize = 0;
        while len - i >= 16
            invariant
                i <= len,
                len == a@.len(),
                len == b@.len(),
                out@.len() == len,
                forall|j: int| 0 <= j < i ==> out@[j] == a@[j] ^ b@[j],
            decreases len - i,
        {
            let r = self.xor_u8x16(loadu_u8x16(a, i), loadu_u8x16(b, i));
            storeu_u8x16(out, i, r);
            i += 16;
        }
        while i < len
            invariant
                i <= len,
                len == a@.len(),
                len == b@.len(),
                out@.len() == len,
                forall|j: int| 0 <= j < i ==> out@[j] == a@[j] ^ b@[j],
            decreases len - i,
        {
            out[i] = a[i] ^ b[i];
            i += 1;
        }
    }

    /// `!a & b` per lane (`pandn`).
    pub fn andnot_u8x16(self, a: [u8; 16], b: [u8; 16]) -> (r: [u8; 16])
        ensures
            forall|i: int| 0 <= i < 16 ==> r[i] == !a[i] & b[i],
    {
        let mut out = [0u8; 16];
        let mut i: usize = 0;
        while i < 16
            invariant
                i <= 16,
                forall|j: int| 0 <= j < i ==> out[j] == !a[j] & b[j],
            decreases 16 - i,
        {
            proof {
                lemma_not_ranges();
            }
            out[i] = !a[i] & b[i];
            i += 1;
        }
        out
    }

    /// `out[i] = !a[i] & b[i]`. 16-wide chunks, scalar remainder.
    pub fn andnot_u8_slice(self, a: &[u8], b: &[u8], out: &mut [u8])
        requires
            a@.len() == b@.len(),
            old(out)@.len() == a@.len(),
        ensures
            final(out)@.len() == a@.len(),
            forall|i: int| 0 <= i < a@.len() ==> final(out)@[i] == !a@[i] & b@[i],
    {
        let len = a.len();
        let mut i: usize = 0;
        while len - i >= 16
            invariant
                i <= len,
                len == a@.len(),
                len == b@.len(),
                out@.len() == len,
                forall|j: int| 0 <= j < i ==> out@[j] == !a@[j] & b@[j],
            decreases len - i,
        {
            let r = self.andnot_u8x16(loadu_u8x16(a, i), loadu_u8x16(b, i));
            storeu_u8x16(out, i, r);
            i += 16;
        }
        while i < len
            invariant
                i <= len,
                len == a@.len(),
                len == b@.len(),
                out@.len() == len,
                forall|j: int| 0 <= j < i ==> out@[j] == !a@[j] & b@[j],
            decreases len - i,
        {
            proof {
                lemma_not_ranges();
            }
            out[i] = !a[i] & b[i];
            i += 1;
        }
    }

    /// Per-lane unsigned min (`pminub`).
    pub fn min_u8x16(self, a: [u8; 16], b: [u8; 16]) -> (r: [u8; 16])
        ensures
            forall|i: int| 0 <= i < 16 ==> r[i] == if a[i] <= b[i] { a[i] } else { b[i] },
    {
        let mut out = [0u8; 16];
        let mut i: usize = 0;
        while i < 16
            invariant
                i <= 16,
                forall|j: int| 0 <= j < i ==> out[j] == if a[j] <= b[j] { a[j] } else { b[j] },
            decreases 16 - i,
        {
            out[i] = if a[i] <= b[i] { a[i] } else { b[i] };
            i += 1;
        }
        out
    }

    /// `out[i] = min(a[i], b[i])`. 16-wide chunks, scalar remainder.
    pub fn min_u8_slice(self, a: &[u8], b: &[u8], out: &mut [u8])
        requires
            a@.len() == b@.len(),
            old(out)@.len() == a@.len(),
        ensures
            final(out)@.len() == a@.len(),
            forall|i: int| 0 <= i < a@.len() ==> final(out)@[i] == if a@[i] <= b@[i] { a@[i] } else { b@[i] },
    {
        let len = a.len();
        let mut i: usize = 0;
        while len - i >= 16
            invariant
                i <= len,
                len == a@.len(),
                len == b@.len(),
                out@.len() == len,
                forall|j: int| 0 <= j < i ==> out@[j] == if a@[j] <= b@[j] { a@[j] } else { b@[j] },
            decreases len - i,
        {
            let r = self.min_u8x16(loadu_u8x16(a, i), loadu_u8x16(b, i));
            storeu_u8x16(out, i, r);
            i += 16;
        }
        while i < len
            invariant
                i <= len,
                len == a@.len(),
                len == b@.len(),
                out@.len() == len,
                forall|j: int| 0 <= j < i ==> out@[j] == if a@[j] <= b@[j] { a@[j] } else { b@[j] },
            decreases len - i,
        {
            out[i] = if a[i] <= b[i] { a[i] } else { b[i] };
            i += 1;
        }
    }

    /// Per-lane unsigned max (`pmaxub`).
    pub fn max_u8x16(self, a: [u8; 16], b: [u8; 16]) -> (r: [u8; 16])
        ensures
            forall|i: int| 0 <= i < 16 ==> r[i] == if a[i] >= b[i] { a[i] } else { b[i] },
    {
        let mut out = [0u8; 16];
        let mut i: usize = 0;
        while i < 16
            invariant
                i <= 16,
                forall|j: int| 0 <= j < i ==> out[j] == if a[j] >= b[j] { a[j] } else { b[j] },
            decreases 16 - i,
        {
            out[i] = if a[i] >= b[i] { a[i] } else { b[i] };
            i += 1;
        }
        out
    }

    /// `out[i] = max(a[i], b[i])`. 16-wide chunks, scalar remainder.
    pub fn max_u8_slice(self, a: &[u8], b: &[u8], out: &mut [u8])
        requires
            a@.len() == b@.len(),
            old(out)@.len() == a@.len(),
        ensures
            final(out)@.len() == a@.len(),
            forall|i: int| 0 <= i < a@.len() ==> final(out)@[i] == if a@[i] >= b@[i] { a@[i] } else { b@[i] },
    {
        let len = a.len();
        let mut i: usize = 0;
        while len - i >= 16
            invariant
                i <= len,
                len == a@.len(),
                len == b@.len(),
                out@.len() == len,
                forall|j: int| 0 <= j < i ==> out@[j] == if a@[j] >= b@[j] { a@[j] } else { b@[j] },
            decreases len - i,
        {
            let r = self.max_u8x16(loadu_u8x16(a, i), loadu_u8x16(b, i));
            storeu_u8x16(out, i, r);
            i += 16;
        }
        while i < len
            invariant
                i <= len,
                len == a@.len(),
                len == b@.len(),
                out@.len() == len,
                forall|j: int| 0 <= j < i ==> out@[j] == if a@[j] >= b@[j] { a@[j] } else { b@[j] },
            decreases len - i,
        {
            out[i] = if a[i] >= b[i] { a[i] } else { b[i] };
            i += 1;
        }
    }

    /// `a * b` per lane, wrapping (no native 8-bit SIMD multiply on x86 at any tier).
    pub fn mul_u8x16(self, a: [u8; 16], b: [u8; 16]) -> (r: [u8; 16])
        ensures
            forall|i: int| 0 <= i < 16 ==> r[i] == a[i].wrapping_mul(b[i]),
    {
        let mut out = [0u8; 16];
        let mut i: usize = 0;
        while i < 16
            invariant
                i <= 16,
                forall|j: int| 0 <= j < i ==> out[j] == a[j].wrapping_mul(b[j]),
            decreases 16 - i,
        {
            out[i] = a[i].wrapping_mul(b[i]);
            i += 1;
        }
        out
    }

    /// `out[i] = a[i].wrapping_mul(b[i])`. 16-wide chunks, scalar remainder.
    pub fn mul_u8_slice(self, a: &[u8], b: &[u8], out: &mut [u8])
        requires
            a@.len() == b@.len(),
            old(out)@.len() == a@.len(),
        ensures
            final(out)@.len() == a@.len(),
            forall|i: int| 0 <= i < a@.len() ==> final(out)@[i] == a@[i].wrapping_mul(b@[i]),
    {
        let len = a.len();
        let mut i: usize = 0;
        while len - i >= 16
            invariant
                i <= len,
                len == a@.len(),
                len == b@.len(),
                out@.len() == len,
                forall|j: int| 0 <= j < i ==> out@[j] == a@[j].wrapping_mul(b@[j]),
            decreases len - i,
        {
            let r = self.mul_u8x16(loadu_u8x16(a, i), loadu_u8x16(b, i));
            storeu_u8x16(out, i, r);
            i += 16;
        }
        while i < len
            invariant
                i <= len,
                len == a@.len(),
                len == b@.len(),
                out@.len() == len,
                forall|j: int| 0 <= j < i ==> out@[j] == a@[j].wrapping_mul(b@[j]),
            decreases len - i,
        {
            out[i] = a[i].wrapping_mul(b[i]);
            i += 1;
        }
    }

    /// Per-lane rounded unsigned average, `(a+b+1)/2` (`pavgb`). No signed form exists in the ISA.
    pub fn avg_u8x16(self, a: [u8; 16], b: [u8; 16]) -> (r: [u8; 16])
        ensures
            forall|i: int| 0 <= i < 16 ==> r[i] == ((a[i] + b[i] + 1) / 2) as u8,
    {
        let mut out = [0u8; 16];
        let mut i: usize = 0;
        while i < 16
            invariant
                i <= 16,
                forall|j: int| 0 <= j < i ==> out[j] == ((a[j] + b[j] + 1) / 2) as u8,
            decreases 16 - i,
        {
            out[i] = ((a[i] as u16 + b[i] as u16 + 1) / 2) as u8;
            i += 1;
        }
        out
    }

    /// `out[i] = (a[i] + b[i] + 1) / 2`. 16-wide chunks, scalar remainder.
    pub fn avg_u8_slice(self, a: &[u8], b: &[u8], out: &mut [u8])
        requires
            a@.len() == b@.len(),
            old(out)@.len() == a@.len(),
        ensures
            final(out)@.len() == a@.len(),
            forall|i: int| 0 <= i < a@.len() ==> final(out)@[i] == ((a@[i] + b@[i] + 1) / 2) as u8,
    {
        let len = a.len();
        let mut i: usize = 0;
        while len - i >= 16
            invariant
                i <= len,
                len == a@.len(),
                len == b@.len(),
                out@.len() == len,
                forall|j: int| 0 <= j < i ==> out@[j] == ((a@[j] + b@[j] + 1) / 2) as u8,
            decreases len - i,
        {
            let r = self.avg_u8x16(loadu_u8x16(a, i), loadu_u8x16(b, i));
            storeu_u8x16(out, i, r);
            i += 16;
        }
        while i < len
            invariant
                i <= len,
                len == a@.len(),
                len == b@.len(),
                out@.len() == len,
                forall|j: int| 0 <= j < i ==> out@[j] == ((a@[j] + b@[j] + 1) / 2) as u8,
            decreases len - i,
        {
            out[i] = ((a[i] as u16 + b[i] as u16 + 1) / 2) as u8;
            i += 1;
        }
    }

}

// `i16` lanes.
impl Sse2 {
    /// `a + b` per lane, wrapping (`paddw`).
    pub fn add_i16x8(self, a: [i16; 8], b: [i16; 8]) -> (r: [i16; 8])
        ensures
            forall|i: int| 0 <= i < 8 ==> r[i] == a[i].wrapping_add(b[i]),
    {
        let mut out = [0i16; 8];
        let mut i: usize = 0;
        while i < 8
            invariant
                i <= 8,
                forall|j: int| 0 <= j < i ==> out[j] == a[j].wrapping_add(b[j]),
            decreases 8 - i,
        {
            out[i] = a[i].wrapping_add(b[i]);
            i += 1;
        }
        out
    }

    /// `out[i] = a[i].wrapping_add(b[i])`. 8-wide chunks, scalar remainder.
    pub fn add_i16_slice(self, a: &[i16], b: &[i16], out: &mut [i16])
        requires
            a@.len() == b@.len(),
            old(out)@.len() == a@.len(),
        ensures
            final(out)@.len() == a@.len(),
            forall|i: int| 0 <= i < a@.len() ==> final(out)@[i] == a@[i].wrapping_add(b@[i]),
    {
        let len = a.len();
        let mut i: usize = 0;
        while len - i >= 8
            invariant
                i <= len,
                len == a@.len(),
                len == b@.len(),
                out@.len() == len,
                forall|j: int| 0 <= j < i ==> out@[j] == a@[j].wrapping_add(b@[j]),
            decreases len - i,
        {
            let r = self.add_i16x8(loadu_i16x8(a, i), loadu_i16x8(b, i));
            storeu_i16x8(out, i, r);
            i += 8;
        }
        while i < len
            invariant
                i <= len,
                len == a@.len(),
                len == b@.len(),
                out@.len() == len,
                forall|j: int| 0 <= j < i ==> out@[j] == a@[j].wrapping_add(b@[j]),
            decreases len - i,
        {
            out[i] = a[i].wrapping_add(b[i]);
            i += 1;
        }
    }

    /// `a - b` per lane, wrapping (`psubw`).
    pub fn sub_i16x8(self, a: [i16; 8], b: [i16; 8]) -> (r: [i16; 8])
        ensures
            forall|i: int| 0 <= i < 8 ==> r[i] == a[i].wrapping_sub(b[i]),
    {
        let mut out = [0i16; 8];
        let mut i: usize = 0;
        while i < 8
            invariant
                i <= 8,
                forall|j: int| 0 <= j < i ==> out[j] == a[j].wrapping_sub(b[j]),
            decreases 8 - i,
        {
            out[i] = a[i].wrapping_sub(b[i]);
            i += 1;
        }
        out
    }

    /// `out[i] = a[i].wrapping_sub(b[i])`. 8-wide chunks, scalar remainder.
    pub fn sub_i16_slice(self, a: &[i16], b: &[i16], out: &mut [i16])
        requires
            a@.len() == b@.len(),
            old(out)@.len() == a@.len(),
        ensures
            final(out)@.len() == a@.len(),
            forall|i: int| 0 <= i < a@.len() ==> final(out)@[i] == a@[i].wrapping_sub(b@[i]),
    {
        let len = a.len();
        let mut i: usize = 0;
        while len - i >= 8
            invariant
                i <= len,
                len == a@.len(),
                len == b@.len(),
                out@.len() == len,
                forall|j: int| 0 <= j < i ==> out@[j] == a@[j].wrapping_sub(b@[j]),
            decreases len - i,
        {
            let r = self.sub_i16x8(loadu_i16x8(a, i), loadu_i16x8(b, i));
            storeu_i16x8(out, i, r);
            i += 8;
        }
        while i < len
            invariant
                i <= len,
                len == a@.len(),
                len == b@.len(),
                out@.len() == len,
                forall|j: int| 0 <= j < i ==> out@[j] == a@[j].wrapping_sub(b@[j]),
            decreases len - i,
        {
            out[i] = a[i].wrapping_sub(b[i]);
            i += 1;
        }
    }

    /// `a + b` per lane, saturating (`paddsw`).
    pub fn adds_i16x8(self, a: [i16; 8], b: [i16; 8]) -> (r: [i16; 8])
        ensures
            forall|i: int| 0 <= i < 8 ==> r[i] == sat_i16(a[i] + b[i]),
    {
        let mut out = [0i16; 8];
        let mut i: usize = 0;
        while i < 8
            invariant
                i <= 8,
                forall|j: int| 0 <= j < i ==> out[j] == sat_i16(a[j] + b[j]),
            decreases 8 - i,
        {
            out[i] = adds_i16(a[i], b[i]);
            i += 1;
        }
        out
    }

    /// `out[i] = a[i].saturating_add(b[i])`. 8-wide chunks, scalar remainder.
    pub fn adds_i16_slice(self, a: &[i16], b: &[i16], out: &mut [i16])
        requires
            a@.len() == b@.len(),
            old(out)@.len() == a@.len(),
        ensures
            final(out)@.len() == a@.len(),
            forall|i: int| 0 <= i < a@.len() ==> final(out)@[i] == sat_i16(a@[i] + b@[i]),
    {
        let len = a.len();
        let mut i: usize = 0;
        while len - i >= 8
            invariant
                i <= len,
                len == a@.len(),
                len == b@.len(),
                out@.len() == len,
                forall|j: int| 0 <= j < i ==> out@[j] == sat_i16(a@[j] + b@[j]),
            decreases len - i,
        {
            let r = self.adds_i16x8(loadu_i16x8(a, i), loadu_i16x8(b, i));
            storeu_i16x8(out, i, r);
            i += 8;
        }
        while i < len
            invariant
                i <= len,
                len == a@.len(),
                len == b@.len(),
                out@.len() == len,
                forall|j: int| 0 <= j < i ==> out@[j] == sat_i16(a@[j] + b@[j]),
            decreases len - i,
        {
            out[i] = adds_i16(a[i], b[i]);
            i += 1;
        }
    }

    /// `a - b` per lane, saturating (`psubsw`).
    pub fn subs_i16x8(self, a: [i16; 8], b: [i16; 8]) -> (r: [i16; 8])
        ensures
            forall|i: int| 0 <= i < 8 ==> r[i] == sat_i16(a[i] - b[i]),
    {
        let mut out = [0i16; 8];
        let mut i: usize = 0;
        while i < 8
            invariant
                i <= 8,
                forall|j: int| 0 <= j < i ==> out[j] == sat_i16(a[j] - b[j]),
            decreases 8 - i,
        {
            out[i] = subs_i16(a[i], b[i]);
            i += 1;
        }
        out
    }

    /// `out[i] = a[i].saturating_sub(b[i])`. 8-wide chunks, scalar remainder.
    pub fn subs_i16_slice(self, a: &[i16], b: &[i16], out: &mut [i16])
        requires
            a@.len() == b@.len(),
            old(out)@.len() == a@.len(),
        ensures
            final(out)@.len() == a@.len(),
            forall|i: int| 0 <= i < a@.len() ==> final(out)@[i] == sat_i16(a@[i] - b@[i]),
    {
        let len = a.len();
        let mut i: usize = 0;
        while len - i >= 8
            invariant
                i <= len,
                len == a@.len(),
                len == b@.len(),
                out@.len() == len,
                forall|j: int| 0 <= j < i ==> out@[j] == sat_i16(a@[j] - b@[j]),
            decreases len - i,
        {
            let r = self.subs_i16x8(loadu_i16x8(a, i), loadu_i16x8(b, i));
            storeu_i16x8(out, i, r);
            i += 8;
        }
        while i < len
            invariant
                i <= len,
                len == a@.len(),
                len == b@.len(),
                out@.len() == len,
                forall|j: int| 0 <= j < i ==> out@[j] == sat_i16(a@[j] - b@[j]),
            decreases len - i,
        {
            out[i] = subs_i16(a[i], b[i]);
            i += 1;
        }
    }

    /// Lane equality mask (`pcmpeqw`): all-1s if equal, else 0.
    pub fn cmpeq_i16x8(self, a: [i16; 8], b: [i16; 8]) -> (r: [i16; 8])
        ensures
            forall|i: int| 0 <= i < 8 ==> r[i] == mask_i16(a[i] == b[i]),
    {
        let mut out = [0i16; 8];
        let mut i: usize = 0;
        while i < 8
            invariant
                i <= 8,
                forall|j: int| 0 <= j < i ==> out[j] == mask_i16(a[j] == b[j]),
            decreases 8 - i,
        {
            out[i] = if a[i] == b[i] { -1 } else { 0 };
            i += 1;
        }
        out
    }

    /// `out[i] = all-1s if a[i]==b[i] else 0`. 8-wide chunks, scalar remainder.
    pub fn cmpeq_i16_slice(self, a: &[i16], b: &[i16], out: &mut [i16])
        requires
            a@.len() == b@.len(),
            old(out)@.len() == a@.len(),
        ensures
            final(out)@.len() == a@.len(),
            forall|i: int| 0 <= i < a@.len() ==> final(out)@[i] == mask_i16(a@[i] == b@[i]),
    {
        let len = a.len();
        let mut i: usize = 0;
        while len - i >= 8
            invariant
                i <= len,
                len == a@.len(),
                len == b@.len(),
                out@.len() == len,
                forall|j: int| 0 <= j < i ==> out@[j] == mask_i16(a@[j] == b@[j]),
            decreases len - i,
        {
            let r = self.cmpeq_i16x8(loadu_i16x8(a, i), loadu_i16x8(b, i));
            storeu_i16x8(out, i, r);
            i += 8;
        }
        while i < len
            invariant
                i <= len,
                len == a@.len(),
                len == b@.len(),
                out@.len() == len,
                forall|j: int| 0 <= j < i ==> out@[j] == mask_i16(a@[j] == b@[j]),
            decreases len - i,
        {
            out[i] = if a[i] == b[i] { -1 } else { 0 };
            i += 1;
        }
    }

    /// `a & b` per lane (`pand`).
    pub fn and_i16x8(self, a: [i16; 8], b: [i16; 8]) -> (r: [i16; 8])
        ensures
            forall|i: int| 0 <= i < 8 ==> r[i] == a[i] & b[i],
    {
        let mut out = [0i16; 8];
        let mut i: usize = 0;
        while i < 8
            invariant
                i <= 8,
                forall|j: int| 0 <= j < i ==> out[j] == a[j] & b[j],
            decreases 8 - i,
        {
            out[i] = a[i] & b[i];
            i += 1;
        }
        out
    }

    /// `out[i] = a[i] & b[i]`. 8-wide chunks, scalar remainder.
    pub fn and_i16_slice(self, a: &[i16], b: &[i16], out: &mut [i16])
        requires
            a@.len() == b@.len(),
            old(out)@.len() == a@.len(),
        ensures
            final(out)@.len() == a@.len(),
            forall|i: int| 0 <= i < a@.len() ==> final(out)@[i] == a@[i] & b@[i],
    {
        let len = a.len();
        let mut i: usize = 0;
        while len - i >= 8
            invariant
                i <= len,
                len == a@.len(),
                len == b@.len(),
                out@.len() == len,
                forall|j: int| 0 <= j < i ==> out@[j] == a@[j] & b@[j],
            decreases len - i,
        {
            let r = self.and_i16x8(loadu_i16x8(a, i), loadu_i16x8(b, i));
            storeu_i16x8(out, i, r);
            i += 8;
        }
        while i < len
            invariant
                i <= len,
                len == a@.len(),
                len == b@.len(),
                out@.len() == len,
                forall|j: int| 0 <= j < i ==> out@[j] == a@[j] & b@[j],
            decreases len - i,
        {
            out[i] = a[i] & b[i];
            i += 1;
        }
    }

    /// `a | b` per lane (`por`).
    pub fn or_i16x8(self, a: [i16; 8], b: [i16; 8]) -> (r: [i16; 8])
        ensures
            forall|i: int| 0 <= i < 8 ==> r[i] == a[i] | b[i],
    {
        let mut out = [0i16; 8];
        let mut i: usize = 0;
        while i < 8
            invariant
                i <= 8,
                forall|j: int| 0 <= j < i ==> out[j] == a[j] | b[j],
            decreases 8 - i,
        {
            out[i] = a[i] | b[i];
            i += 1;
        }
        out
    }

    /// `out[i] = a[i] | b[i]`. 8-wide chunks, scalar remainder.
    pub fn or_i16_slice(self, a: &[i16], b: &[i16], out: &mut [i16])
        requires
            a@.len() == b@.len(),
            old(out)@.len() == a@.len(),
        ensures
            final(out)@.len() == a@.len(),
            forall|i: int| 0 <= i < a@.len() ==> final(out)@[i] == a@[i] | b@[i],
    {
        let len = a.len();
        let mut i: usize = 0;
        while len - i >= 8
            invariant
                i <= len,
                len == a@.len(),
                len == b@.len(),
                out@.len() == len,
                forall|j: int| 0 <= j < i ==> out@[j] == a@[j] | b@[j],
            decreases len - i,
        {
            let r = self.or_i16x8(loadu_i16x8(a, i), loadu_i16x8(b, i));
            storeu_i16x8(out, i, r);
            i += 8;
        }
        while i < len
            invariant
                i <= len,
                len == a@.len(),
                len == b@.len(),
                out@.len() == len,
                forall|j: int| 0 <= j < i ==> out@[j] == a@[j] | b@[j],
            decreases len - i,
        {
            out[i] = a[i] | b[i];
            i += 1;
        }
    }

    /// `a ^ b` per lane (`pxor`).
    pub fn xor_i16x8(self, a: [i16; 8], b: [i16; 8]) -> (r: [i16; 8])
        ensures
            forall|i: int| 0 <= i < 8 ==> r[i] == a[i] ^ b[i],
    {
        let mut out = [0i16; 8];
        let mut i: usize = 0;
        while i < 8
            invariant
                i <= 8,
                forall|j: int| 0 <= j < i ==> out[j] == a[j] ^ b[j],
            decreases 8 - i,
        {
            out[i] = a[i] ^ b[i];
            i += 1;
        }
        out
    }

    /// `out[i] = a[i] ^ b[i]`. 8-wide chunks, scalar remainder.
    pub fn xor_i16_slice(self, a: &[i16], b: &[i16], out: &mut [i16])
        requires
            a@.len() == b@.len(),
            old(out)@.len() == a@.len(),
        ensures
            final(out)@.len() == a@.len(),
            forall|i: int| 0 <= i < a@.len() ==> final(out)@[i] == a@[i] ^ b@[i],
    {
        let len = a.len();
        let mut i: usize = 0;
        while len - i >= 8
            invariant
                i <= len,
                len == a@.len(),
                len == b@.len(),
                out@.len() == len,
                forall|j: int| 0 <= j < i ==> out@[j] == a@[j] ^ b@[j],
            decreases len - i,
        {
            let r = self.xor_i16x8(loadu_i16x8(a, i), loadu_i16x8(b, i));
            storeu_i16x8(out, i, r);
            i += 8;
        }
        while i < len
            invariant
                i <= len,
                len == a@.len(),
                len == b@.len(),
                out@.len() == len,
                forall|j: int| 0 <= j < i ==> out@[j] == a@[j] ^ b@[j],
            decreases len - i,
        {
            out[i] = a[i] ^ b[i];
            i += 1;
        }
    }

    /// `!a & b` per lane (`pandn`).
    pub fn andnot_i16x8(self, a: [i16; 8], b: [i16; 8]) -> (r: [i16; 8])
        ensures
            forall|i: int| 0 <= i < 8 ==> r[i] == !a[i] & b[i],
    {
        let mut out = [0i16; 8];
        let mut i: usize = 0;
        while i < 8
            invariant
                i <= 8,
                forall|j: int| 0 <= j < i ==> out[j] == !a[j] & b[j],
            decreases 8 - i,
        {
            proof {
                lemma_not_ranges();
            }
            out[i] = !a[i] & b[i];
            i += 1;
        }
        out
    }

    /// `out[i] = !a[i] & b[i]`. 8-wide chunks, scalar remainder.
    pub fn andnot_i16_slice(self, a: &[i16], b: &[i16], out: &mut [i16])
        requires
            a@.len() == b@.len(),
            old(out)@.len() == a@.len(),
        ensures
            final(out)@.len() == a@.len(),
            forall|i: int| 0 <= i < a@.len() ==> final(out)@[i] == !a@[i] & b@[i],
    {
        let len = a.len();
        let mut i: usize = 0;
        while len - i >= 8
            invariant
                i <= len,
                len == a@.len(),
                len == b@.len(),
                out@.len() == len,
                forall|j: int| 0 <= j < i ==> out@[j] == !a@[j] & b@[j],
            decreases len - i,
        {
            let r = self.andnot_i16x8(loadu_i16x8(a, i), loadu_i16x8(b, i));
            storeu_i16x8(out, i, r);
            i += 8;
        }
        while i < len
            invariant
                i <= len,
                len == a@.len(),
                len == b@.len(),
                out@.len() == len,
                forall|j: int| 0 <= j < i ==> out@[j] == !a@[j] & b@[j],
            decreases len - i,
        {
            proof {
                lemma_not_ranges();
            }
            out[i] = !a[i] & b[i];
            i += 1;
        }
    }

    /// Per-lane signed min (`pminsw`).
    pub fn min_i16x8(self, a: [i16; 8], b: [i16; 8]) -> (r: [i16; 8])
        ensures
            forall|i: int| 0 <= i < 8 ==> r[i] == if a[i] <= b[i] { a[i] } else { b[i] },
    {
        let mut out = [0i16; 8];
        let mut i: usize = 0;
        while i < 8
            invariant
                i <= 8,
                forall|j: int| 0 <= j < i ==> out[j] == if a[j] <= b[j] { a[j] } else { b[j] },
            decreases 8 - i,
        {
            out[i] = if a[i] <= b[i] { a[i] } else { b[i] };
            i += 1;
        }
        out
    }

    /// `out[i] = min(a[i], b[i])`. 8-wide chunks, scalar remainder.
    pub fn min_i16_slice(self, a: &[i16], b: &[i16], out: &mut [i16])
        requires
            a@.len() == b@.len(),
            old(out)@.len() == a@.len(),
        ensures
            final(out)@.len() == a@.len(),
            forall|i: int| 0 <= i < a@.len() ==> final(out)@[i] == if a@[i] <= b@[i] { a@[i] } else { b@[i] },
    {
        let len = a.len();
        let mut i: usize = 0;
        while len - i >= 8
            invariant
                i <= len,
                len == a@.len(),
                len == b@.len(),
                out@.len() == len,
                forall|j: int| 0 <= j < i ==> out@[j] == if a@[j] <= b@[j] { a@[j] } else { b@[j] },
            decreases len - i,
        {
            let r = self.min_i16x8(loadu_i16x8(a, i), loadu_i16x8(b, i));
            storeu_i16x8(out, i, r);
            i += 8;
        }
        while i < len
            invariant
                i <= len,
                len == a@.len(),
                len == b@.len(),
                out@.len() == len,
                forall|j: int| 0 <= j < i ==> out@[j] == if a@[j] <= b@[j] { a@[j] } else { b@[j] },
            decreases len - i,
        {
            out[i] = if a[i] <= b[i] { a[i] } else { b[i] };
            i += 1;
        }
    }

    /// Per-lane signed max (`pmaxsw`).
    pub fn max_i16x8(self, a: [i16; 8], b: [i16; 8]) -> (r: [i16; 8])
        ensures
            forall|i: int| 0 <= i < 8 ==> r[i] == if a[i] >= b[i] { a[i] } else { b[i] },
    {
        let mut out = [0i16; 8];
        let mut i: usize = 0;
        while i < 8
            invariant
                i <= 8,
                forall|j: int| 0 <= j < i ==> out[j] == if a[j] >= b[j] { a[j] } else { b[j] },
            decreases 8 - i,
        {
            out[i] = if a[i] >= b[i] { a[i] } else { b[i] };
            i += 1;
        }
        out
    }

    /// `out[i] = max(a[i], b[i])`. 8-wide chunks, scalar remainder.
    pub fn max_i16_slice(self, a: &[i16], b: &[i16], out: &mut [i16])
        requires
            a@.len() == b@.len(),
            old(out)@.len() == a@.len(),
        ensures
            final(out)@.len() == a@.len(),
            forall|i: int| 0 <= i < a@.len() ==> final(out)@[i] == if a@[i] >= b@[i] { a@[i] } else { b@[i] },
    {
        let len = a.len();
        let mut i: usize = 0;
        while len - i >= 8
            invariant
                i <= len,
                len == a@.len(),
                len == b@.len(),
                out@.len() == len,
                forall|j: int| 0 <= j < i ==> out@[j] == if a@[j] >= b@[j] { a@[j] } else { b@[j] },
            decreases len - i,
        {
            let r = self.max_i16x8(loadu_i16x8(a, i), loadu_i16x8(b, i));
            storeu_i16x8(out, i, r);
            i += 8;
        }
        while i < len
            invariant
                i <= len,
                len == a@.len(),
                len == b@.len(),
                out@.len() == len,
                forall|j: int| 0 <= j < i ==> out@[j] == if a@[j] >= b@[j] { a@[j] } else { b@[j] },
            decreases len - i,
        {
            out[i] = if a[i] >= b[i] { a[i] } else { b[i] };
            i += 1;
        }
    }

    /// `a * b` per lane, low 16 bits (`pmullw`).
    pub fn mul_i16x8(self, a: [i16; 8], b: [i16; 8]) -> (r: [i16; 8])
        ensures
            forall|i: int| 0 <= i < 8 ==> r[i] == a[i].wrapping_mul(b[i]),
    {
        let mut out = [0i16; 8];
        let mut i: usize = 0;
        while i < 8
            invariant
                i <= 8,
                forall|j: int| 0 <= j < i ==> out[j] == a[j].wrapping_mul(b[j]),
            decreases 8 - i,
        {
            out[i] = a[i].wrapping_mul(b[i]);
            i += 1;
        }
        out
    }

    /// `out[i] = a[i].wrapping_mul(b[i])`. 8-wide chunks, scalar remainder.
    pub fn mul_i16_slice(self, a: &[i16], b: &[i16], out: &mut [i16])
        requires
            a@.len() == b@.len(),
            old(out)@.len() == a@.len(),
        ensures
            final(out)@.len() == a@.len(),
            forall|i: int| 0 <= i < a@.len() ==> final(out)@[i] == a@[i].wrapping_mul(b@[i]),
    {
        let len = a.len();
        let mut i: usize = 0;
        while len - i >= 8
            invariant
                i <= len,
                len == a@.len(),
                len == b@.len(),
                out@.len() == len,
                forall|j: int| 0 <= j < i ==> out@[j] == a@[j].wrapping_mul(b@[j]),
            decreases len - i,
        {
            let r = self.mul_i16x8(loadu_i16x8(a, i), loadu_i16x8(b, i));
            storeu_i16x8(out, i, r);
            i += 8;
        }
        while i < len
            invariant
                i <= len,
                len == a@.len(),
                len == b@.len(),
                out@.len() == len,
                forall|j: int| 0 <= j < i ==> out@[j] == a@[j].wrapping_mul(b@[j]),
            decreases len - i,
        {
            out[i] = a[i].wrapping_mul(b[i]);
            i += 1;
        }
    }

    /// `a << IMM` per lane (`psllw`, uniform count; `IMM >= 16` clears every lane).
    pub fn shl_i16x8<const IMM: u32>(self, a: [i16; 8]) -> (r: [i16; 8])
        ensures
            forall|i: int| 0 <= i < 8 ==> r[i] == if IMM < 16 { a[i].wrapping_shl(IMM) } else { 0 },
    {
        let mut out = [0i16; 8];
        let mut i: usize = 0;
        while i < 8
            invariant
                i <= 8,
                forall|j: int| 0 <= j < i ==> out[j] == if IMM < 16 { a[j].wrapping_shl(IMM) } else { 0 },
            decreases 8 - i,
        {
            out[i] = if IMM < 16 { a[i].wrapping_shl(IMM) } else { 0 };
            i += 1;
        }
        out
    }

    /// `out[i]` is lane `i` of [`Self::shl_i16x8`] applied to `a`. 8-wide chunks, scalar remainder.
    pub fn shl_i16_slice<const IMM: u32>(self, a: &[i16], out: &mut [i16])
        requires
            old(out)@.len() == a@.len(),
        ensures
            final(out)@.len() == a@.len(),
            forall|i: int| 0 <= i < a@.len() ==> final(out)@[i] == if IMM < 16 { a@[i].wrapping_shl(IMM) } else { 0 },
    {
        let len = a.len();
        let mut i: usize = 0;
        while len - i >= 8
            invariant
                i <= len,
                len == a@.len(),
                out@.len() == len,
                forall|j: int| 0 <= j < i ==> out@[j] == if IMM < 16 { a@[j].wrapping_shl(IMM) } else { 0 },
            decreases len - i,
        {
            let r = self.shl_i16x8::<IMM>(loadu_i16x8(a, i));
            storeu_i16x8(out, i, r);
            i += 8;
        }
        while i < len
            invariant
                i <= len,
                len == a@.len(),
                out@.len() == len,
                forall|j: int| 0 <= j < i ==> out@[j] == if IMM < 16 { a@[j].wrapping_shl(IMM) } else { 0 },
            decreases len - i,
        {
            out[i] = if IMM < 16 { a[i].wrapping_shl(IMM) } else { 0 };
            i += 1;
        }
    }

    /// `a >> IMM` logical per lane (`psrlw`, uniform count; `IMM >= 16` clears every lane).
    pub fn shr_i16x8<const IMM: u32>(self, a: [i16; 8]) -> (r: [i16; 8])
        ensures
            forall|i: int| 0 <= i < 8 ==> r[i] == if IMM < 16 { ((a[i] as u16).wrapping_shr(IMM)) as i16 } else { 0 },
    {
        let mut out = [0i16; 8];
        let mut i: usize = 0;
        while i < 8
            invariant
                i <= 8,
                forall|j: int| 0 <= j < i ==> out[j] == if IMM < 16 { ((a[j] as u16).wrapping_shr(IMM)) as i16 } else { 0 },
            decreases 8 - i,
        {
            out[i] = if IMM < 16 { ((a[i] as u16).wrapping_shr(IMM)) as i16 } else { 0 };
            i += 1;
        }
        out
    }

    /// `out[i]` is lane `i` of [`Self::shr_i16x8`] applied to `a`. 8-wide chunks, scalar remainder.
    pub fn shr_i16_slice<const IMM: u32>(self, a: &[i16], out: &mut [i16])
        requires
            old(out)@.len() == a@.len(),
        ensures
            final(out)@.len() == a@.len(),
            forall|i: int| 0 <= i < a@.len() ==> final(out)@[i] == if IMM < 16 { ((a@[i] as u16).wrapping_shr(IMM)) as i16 } else { 0 },
    {
        let len = a.len();
        let mut i: usize = 0;
        while len - i >= 8
            invariant
                i <= len,
                len == a@.len(),
                out@.len() == len,
                forall|j: int| 0 <= j < i ==> out@[j] == if IMM < 16 { ((a@[j] as u16).wrapping_shr(IMM)) as i16 } else { 0 },
            decreases len - i,
        {
            let r = self.shr_i16x8::<IMM>(loadu_i16x8(a, i));
            storeu_i16x8(out, i, r);
            i += 8;
        }
        while i < len
            invariant
                i <= len,
                len == a@.len(),
                out@.len() == len,
                forall|j: int| 0 <= j < i ==> out@[j] == if IMM < 16 { ((a@[j] as u16).wrapping_shr(IMM)) as i16 } else { 0 },
            decreases len - i,
        {
            out[i] = if IMM < 16 { ((a[i] as u16).wrapping_shr(IMM)) as i16 } else { 0 };
            i += 1;
        }
    }

    /// `a >> IMM` arithmetic per lane (`psraw`, uniform count; `IMM >= 16` fills with the sign).
    pub fn sra_i16x8<const IMM: u32>(self, a: [i16; 8]) -> (r: [i16; 8])
        ensures
            forall|i: int| 0 <= i < 8 ==> r[i] == a[i].wrapping_shr(if IMM < 16 { IMM } else { 15 }),
    {
        let mut out = [0i16; 8];
        let mut i: usize = 0;
        while i < 8
            invariant
                i <= 8,
                forall|j: int| 0 <= j < i ==> out[j] == a[j].wrapping_shr(if IMM < 16 { IMM } else { 15 }),
            decreases 8 - i,
        {
            out[i] = a[i].wrapping_shr(if IMM < 16 { IMM } else { 15 });
            i += 1;
        }
        out
    }

    /// `out[i]` is lane `i` of [`Self::sra_i16x8`] applied to `a`. 8-wide chunks, scalar remainder.
    pub fn sra_i16_slice<const IMM: u32>(self, a: &[i16], out: &mut [i16])
        requires
            old(out)@.len() == a@.len(),
        ensures
            final(out)@.len() == a@.len(),
            forall|i: int| 0 <= i < a@.len() ==> final(out)@[i] == a@[i].wrapping_shr(if IMM < 16 { IMM } else { 15 }),
    {
        let len = a.len();
        let mut i: usize = 0;
        while len - i >= 8
            invariant
                i <= len,
                len == a@.len(),
                out@.len() == len,
                forall|j: int| 0 <= j < i ==> out@[j] == a@[j].wrapping_shr(if IMM < 16 { IMM } else { 15 }),
            decreases len - i,
        {
            let r = self.sra_i16x8::<IMM>(loadu_i16x8(a, i));
            storeu_i16x8(out, i, r);
            i += 8;
        }
        while i < len
            invariant
                i <= len,
                len == a@.len(),
                out@.len() == len,
                forall|j: int| 0 <= j < i ==> out@[j] == a@[j].wrapping_shr(if IMM < 16 { IMM } else { 15 }),
            decreases len - i,
        {
            out[i] = a[i].wrapping_shr(if IMM < 16 { IMM } else { 15 });
            i += 1;
        }
    }

}

// `u16` lanes.
impl Sse2 {
    /// `a + b` per lane, wrapping (`paddw`).
    pub fn add_u16x8(self, a: [u16; 8], b: [u16; 8]) -> (r: [u16; 8])
        ensures
            forall|i: int| 0 <= i < 8 ==> r[i] == a[i].wrapping_add(b[i]),
    {
        let mut out = [0u16; 8];
        let mut i: usize = 0;
        while i < 8
            invariant
                i <= 8,
                forall|j: int| 0 <= j < i ==> out[j] == a[j].wrapping_add(b[j]),
            decreases 8 - i,
        {
            out[i] = a[i].wrapping_add(b[i]);
            i += 1;
        }
        out
    }

    /// `out[i] = a[i].wrapping_add(b[i])`. 8-wide chunks, scalar remainder.
    pub fn add_u16_slice(self, a: &[u16], b: &[u16], out: &mut [u16])
        requires
            a@.len() == b@.len(),
            old(out)@.len() == a@.len(),
        ensures
            final(out)@.len() == a@.len(),
            forall|i: int| 0 <= i < a@.len() ==> final(out)@[i] == a@[i].wrapping_add(b@[i]),
    {
        let len = a.len();
        let mut i: usize = 0;
        while len - i >= 8
            invariant
                i <= len,
                len == a@.len(),
                len == b@.len(),
                out@.len() == len,
                forall|j: int| 0 <= j < i ==> out@[j] == a@[j].wrapping_add(b@[j]),
            decreases len - i,
        {
            let r = self.add_u16x8(loadu_u16x8(a, i), loadu_u16x8(b, i));
            storeu_u16x8(out, i, r);
            i += 8;
        }
        while i < len
            invariant
                i <= len,
                len == a@.len(),
                len == b@.len(),
                out@.len() == len,
                forall|j: int| 0 <= j < i ==> out@[j] == a@[j].wrapping_add(b@[j]),
            decreases len - i,
        {
            out[i] = a[i].wrapping_add(b[i]);
            i += 1;
        }
    }

    /// `a - b` per lane, wrapping (`psubw`).
    pub fn sub_u16x8(self, a: [u16; 8], b: [u16; 8]) -> (r: [u16; 8])
        ensures
            forall|i: int| 0 <= i < 8 ==> r[i] == a[i].wrapping_sub(b[i]),
    {
        let mut out = [0u16; 8];
        let mut i: usize = 0;
        while i < 8
            invariant
                i <= 8,
                forall|j: int| 0 <= j < i ==> out[j] == a[j].wrapping_sub(b[j]),
            decreases 8 - i,
        {
            out[i] = a[i].wrapping_sub(b[i]);
            i += 1;
        }
        out
    }

    /// `out[i] = a[i].wrapping_sub(b[i])`. 8-wide chunks, scalar remainder.
    pub fn sub_u16_slice(self, a: &[u16], b: &[u16], out: &mut [u16])
        requires
            a@.len() == b@.len(),
            old(out)@.len() == a@.len(),
        ensures
            final(out)@.len() == a@.len(),
            forall|i: int| 0 <= i < a@.len() ==> final(out)@[i] == a@[i].wrapping_sub(b@[i]),
    {
        let len = a.len();
        let mut i: usize = 0;
        while len - i >= 8
            invariant
                i <= len,
                len == a@.len(),
                len == b@.len(),
                out@.len() == len,
                forall|j: int| 0 <= j < i ==> out@[j] == a@[j].wrapping_sub(b@[j]),
            decreases len - i,
        {
            let r = self.sub_u16x8(loadu_u16x8(a, i), loadu_u16x8(b, i));
            storeu_u16x8(out, i, r);
            i += 8;
        }
        while i < len
            invariant
                i <= len,
                len == a@.len(),
                len == b@.len(),
                out@.len() == len,
                forall|j: int| 0 <= j < i ==> out@[j] == a@[j].wrapping_sub(b@[j]),
            decreases len - i,
        {
            out[i] = a[i].wrapping_sub(b[i]);
            i += 1;
        }
    }

    /// `a + b` per lane, saturating (`paddusw`).
    pub fn adds_u16x8(self, a: [u16; 8], b: [u16; 8]) -> (r: [u16; 8])
        ensures
            forall|i: int| 0 <= i < 8 ==> r[i] == a[i].saturating_add(b[i]),
    {
        let mut out = [0u16; 8];
        let mut i: usize = 0;
        while i < 8
            invariant
                i <= 8,
                forall|j: int| 0 <= j < i ==> out[j] == a[j].saturating_add(b[j]),
            decreases 8 - i,
        {
            out[i] = a[i].saturating_add(b[i]);
            i += 1;
        }
        out
    }

    /// `out[i] = a[i].saturating_add(b[i])`. 8-wide chunks, scalar remainder.
    pub fn adds_u16_slice(self, a: &[u16], b: &[u16], out: &mut [u16])
        requires
            a@.len() == b@.len(),
            old(out)@.len() == a@.len(),
        ensures
            final(out)@.len() == a@.len(),
            forall|i: int| 0 <= i < a@.len() ==> final(out)@[i] == a@[i].saturating_add(b@[i]),
    {
        let len = a.len();
        let mut i: usize = 0;
        while len - i >= 8
            invariant
                i <= len,
                len == a@.len(),
                len == b@.len(),
                out@.len() == len,
                forall|j: int| 0 <= j < i ==> out@[j] == a@[j].saturating_add(b@[j]),
            decreases len - i,
        {
            let r = self.adds_u16x8(loadu_u16x8(a, i), loadu_u16x8(b, i));
            storeu_u16x8(out, i, r);
            i += 8;
        }
        while i < len
            invariant
                i <= len,
                len == a@.len(),
                len == b@.len(),
                out@.len() == len,
                forall|j: int| 0 <= j < i ==> out@[j] == a@[j].saturating_add(b@[j]),
            decreases len - i,
        {
            out[i] = a[i].saturating_add(b[i]);
            i += 1;
        }
    }

    /// `a - b` per lane, saturating (`psubusw`).
    pub fn subs_u16x8(self, a: [u16; 8], b: [u16; 8]) -> (r: [u16; 8])
        ensures
            forall|i: int| 0 <= i < 8 ==> r[i] == a[i].saturating_sub(b[i]),
    {
        let mut out = [0u16; 8];
        let mut i: usize = 0;
        while i < 8
            invariant
                i <= 8,
                forall|j: int| 0 <= j < i ==> out[j] == a[j].saturating_sub(b[j]),
            decreases 8 - i,
        {
            out[i] = a[i].saturating_sub(b[i]);
            i += 1;
        }
        out
    }

    /// `out[i] = a[i].saturating_sub(b[i])`. 8-wide chunks, scalar remainder.
    pub fn subs_u16_slice(self, a: &[u16], b: &[u16], out: &mut [u16])
        requires
            a@.len() == b@.len(),
            old(out)@.len() == a@.len(),
        ensures
            final(out)@.len() == a@.len(),
            forall|i: int| 0 <= i < a@.len() ==> final(out)@[i] == a@[i].saturating_sub(b@[i]),
    {
        let len = a.len();
        let mut i: usize = 0;
        while len - i >= 8
            invariant
                i <= len,
                len == a@.len(),
                len == b@.len(),
                out@.len() == len,
                forall|j: int| 0 <= j < i ==> out@[j] == a@[j].saturating_sub(b@[j]),
            decreases len - i,
        {
            let r = self.subs_u16x8(loadu_u16x8(a, i), loadu_u16x8(b, i));
            storeu_u16x8(out, i, r);
            i += 8;
        }
        while i < len
            invariant
                i <= len,
                len == a@.len(),
                len == b@.len(),
                out@.len() == len,
                forall|j: int| 0 <= j < i ==> out@[j] == a@[j].saturating_sub(b@[j]),
            decreases len - i,
        {
            out[i] = a[i].saturating_sub(b[i]);
            i += 1;
        }
    }

    /// Lane equality mask (`pcmpeqw`): all-1s if equal, else 0.
    pub fn cmpeq_u16x8(self, a: [u16; 8], b: [u16; 8]) -> (r: [u16; 8])
        ensures
            forall|i: int| 0 <= i < 8 ==> r[i] == mask_u16(a[i] == b[i]),
    {
        let mut out = [0u16; 8];
        let mut i: usize = 0;
        while i < 8
            invariant
                i <= 8,
                forall|j: int| 0 <= j < i ==> out[j] == mask_u16(a[j] == b[j]),
            decreases 8 - i,
        {
            out[i] = if a[i] == b[i] { u16::MAX } else { 0 };
            i += 1;
        }
        out
    }

    /// `out[i] = all-1s if a[i]==b[i] else 0`. 8-wide chunks, scalar remainder.
    pub fn cmpeq_u16_slice(self, a: &[u16], b: &[u16], out: &mut [u16])
        requires
            a@.len() == b@.len(),
            old(out)@.len() == a@.len(),
        ensures
            final(out)@.len() == a@.len(),
            forall|i: int| 0 <= i < a@.len() ==> final(out)@[i] == mask_u16(a@[i] == b@[i]),
    {
        let len = a.len();
        let mut i: usize = 0;
        while len - i >= 8
            invariant
                i <= len,
                len == a@.len(),
                len == b@.len(),
                out@.len() == len,
                forall|j: int| 0 <= j < i ==> out@[j] == mask_u16(a@[j] == b@[j]),
            decreases len - i,
        {
            let r = self.cmpeq_u16x8(loadu_u16x8(a, i), loadu_u16x8(b, i));
            storeu_u16x8(out, i, r);
            i += 8;
        }
        while i < len
            invariant
                i <= len,
                len == a@.len(),
                len == b@.len(),
                out@.len() == len,
                forall|j: int| 0 <= j < i ==> out@[j] == mask_u16(a@[j] == b@[j]),
            decreases len - i,
        {
            out[i] = if a[i] == b[i] { u16::MAX } else { 0 };
            i += 1;
        }
    }

    /// `a & b` per lane (`pand`).
    pub fn and_u16x8(self, a: [u16; 8], b: [u16; 8]) -> (r: [u16; 8])
        ensures
            forall|i: int| 0 <= i < 8 ==> r[i] == a[i] & b[i],
    {
        let mut out = [0u16; 8];
        let mut i: usize = 0;
        while i < 8
            invariant
                i <= 8,
                forall|j: int| 0 <= j < i ==> out[j] == a[j] & b[j],
            decreases 8 - i,
        {
            out[i] = a[i] & b[i];
            i += 1;
        }
        out
    }

    /// `out[i] = a[i] & b[i]`. 8-wide chunks, scalar remainder.
    pub fn and_u16_slice(self, a: &[u16], b: &[u16], out: &mut [u16])
        requires
            a@.len() == b@.len(),
            old(out)@.len() == a@.len(),
        ensures
            final(out)@.len() == a@.len(),
            forall|i: int| 0 <= i < a@.len() ==> final(out)@[i] == a@[i] & b@[i],
    {
        let len = a.len();
        let mut i: usize = 0;
        while len - i >= 8
            invariant
                i <= len,
                len == a@.len(),
                len == b@.len(),
                out@.len() == len,
                forall|j: int| 0 <= j < i ==> out@[j] == a@[j] & b@[j],
            decreases len - i,
        {
            let r = self.and_u16x8(loadu_u16x8(a, i), loadu_u16x8(b, i));
            storeu_u16x8(out, i, r);
            i += 8;
        }
        while i < len
            invariant
                i <= len,
                len == a@.len(),
                len == b@.len(),
                out@.len() == len,
                forall|j: int| 0 <= j < i ==> out@[j] == a@[j] & b@[j],
            decreases len - i,
        {
            out[i] = a[i] & b[i];
            i += 1;
        }
    }

    /// `a | b` per lane (`por`).
    pub fn or_u16x8(self, a: [u16; 8], b: [u16; 8]) -> (r: [u16; 8])
        ensures
            forall|i: int| 0 <= i < 8 ==> r[i] == a[i] | b[i],
    {
        let mut out = [0u16; 8];
        let mut i: usize = 0;
        while i < 8
            invariant
                i <= 8,
                forall|j: int| 0 <= j < i ==> out[j] == a[j] | b[j],
            decreases 8 - i,
        {
            out[i] = a[i] | b[i];
            i += 1;
        }
        out
    }

    /// `out[i] = a[i] | b[i]`. 8-wide chunks, scalar remainder.
    pub fn or_u16_slice(self, a: &[u16], b: &[u16], out: &mut [u16])
        requires
            a@.len() == b@.len(),
            old(out)@.len() == a@.len(),
        ensures
            final(out)@.len() == a@.len(),
            forall|i: int| 0 <= i < a@.len() ==> final(out)@[i] == a@[i] | b@[i],
    {
        let len = a.len();
        let mut i: usize = 0;
        while len - i >= 8
            invariant
                i <= len,
                len == a@.len(),
                len == b@.len(),
                out@.len() == len,
                forall|j: int| 0 <= j < i ==> out@[j] == a@[j] | b@[j],
            decreases len - i,
        {
            let r = self.or_u16x8(loadu_u16x8(a, i), loadu_u16x8(b, i));
            storeu_u16x8(out, i, r);
            i += 8;
        }
        while i < len
            invariant
                i <= len,
                len == a@.len(),
                len == b@.len(),
                out@.len() == len,
                forall|j: int| 0 <= j < i ==> out@[j] == a@[j] | b@[j],
            decreases len - i,
        {
            out[i] = a[i] | b[i];
            i += 1;
        }
    }

    /// `a ^ b` per lane (`pxor`).
    pub fn xor_u16x8(self, a: [u16; 8], b: [u16; 8]) -> (r: [u16; 8])
        ensures
            forall|i: int| 0 <= i < 8 ==> r[i] == a[i] ^ b[i],
    {
        let mut out = [0u16; 8];
        let mut i: usize = 0;
        while i < 8
            invariant
                i <= 8,
                forall|j: int| 0 <= j < i ==> out[j] == a[j] ^ b[j],
            decreases 8 - i,
        {
            out[i] = a[i] ^ b[i];
            i += 1;
        }
        out
    }

    /// `out[i] = a[i] ^ b[i]`. 8-wide chunks, scalar remainder.
    pub fn xor_u16_slice(self, a: &[u16], b: &[u16], out: &mut [u16])
        requires
            a@.len() == b@.len(),
            old(out)@.len() == a@.len(),
        ensures
            final(out)@.len() == a@.len(),
            forall|i: int| 0 <= i < a@.len() ==> final(out)@[i] == a@[i] ^ b@[i],
    {
        let len = a.len();
        let mut i: usize = 0;
        while len - i >= 8
            invariant
                i <= len,
                len == a@.len(),
                len == b@.len(),
                out@.len() == len,
                forall|j: int| 0 <= j < i ==> out@[j] == a@[j] ^ b@[j],
            decreases len - i,
        {
            let r = self.xor_u16x8(loadu_u16x8(a, i), loadu_u16x8(b, i));
            storeu_u16x8(out, i, r);
            i += 8;
        }
        while i < len
            invariant
                i <= len,
                len == a@.len(),
                len == b@.len(),
                out@.len() == len,
                forall|j: int| 0 <= j < i ==> out@[j] == a@[j] ^ b@[j],
            decreases len - i,
        {
            out[i] = a[i] ^ b[i];
            i += 1;
        }
    }

    /// `!a & b` per lane (`pandn`).
    pub fn andnot_u16x8(self, a: [u16; 8], b: [u16; 8]) -> (r: [u16; 8])
        ensures
            forall|i: int| 0 <= i < 8 ==> r[i] == !a[i] & b[i],
    {
        let mut out = [0u16; 8];
        let mut i: usize = 0;
        while i < 8
            invariant
                i <= 8,
                forall|j: int| 0 <= j < i ==> out[j] == !a[j] & b[j],
            decreases 8 - i,
        {
            proof {
                lemma_not_ranges();
            }
            out[i] = !a[i] & b[i];
            i += 1;
        }
        out
    }

    /// `out[i] = !a[i] & b[i]`. 8-wide chunks, scalar remainder.
    pub fn andnot_u16_slice(self, a: &[u16], b: &[u16], out: &mut [u16])
        requires
            a@.len() == b@.len(),
            old(out)@.len() == a@.len(),
        ensures
            final(out)@.len() == a@.len(),
            forall|i: int| 0 <= i < a@.len() ==> final(out)@[i] == !a@[i] & b@[i],
    {
        let len = a.len();
        let mut i: usize = 0;
        while len - i >= 8
            invariant
                i <= len,
                len == a@.len(),
                len == b@.len(),
                out@.len() == len,
                forall|j: int| 0 <= j < i ==> out@[j] == !a@[j] & b@[j],
            decreases len - i,
        {
            let r = self.andnot_u16x8(loadu_u16x8(a, i), loadu_u16x8(b, i));
            storeu_u16x8(out, i, r);
            i += 8;
        }
        while i < len
            invariant
                i <= len,
                len == a@.len(),
                len == b@.len(),
                out@.len() == len,
                forall|j: int| 0 <= j < i ==> out@[j] == !a@[j] & b@[j],
            decreases len - i,
        {
            proof {
                lemma_not_ranges();
            }
            out[i] = !a[i] & b[i];
            i += 1;
        }
    }

    /// `a * b` per lane, low 16 bits (`pmullw`).
    pub fn mul_u16x8(self, a: [u16; 8], b: [u16; 8]) -> (r: [u16; 8])
        ensures
            forall|i: int| 0 <= i < 8 ==> r[i] == a[i].wrapping_mul(b[i]),
    {
        let mut out = [0u16; 8];
        let mut i: usize = 0;
        while i < 8
            invariant
                i <= 8,
                forall|j: int| 0 <= j < i ==> out[j] == a[j].wrapping_mul(b[j]),
            decreases 8 - i,
        {
            out[i] = a[i].wrapping_mul(b[i]);
            i += 1;
        }
        out
    }

    /// `out[i] = a[i].wrapping_mul(b[i])`. 8-wide chunks, scalar remainder.
    pub fn mul_u16_slice(self, a: &[u16], b: &[u16], out: &mut [u16])
        requires
            a@.len() == b@.len(),
            old(out)@.len() == a@.len(),
        ensures
            final(out)@.len() == a@.len(),
            forall|i: int| 0 <= i < a@.len() ==> final(out)@[i] == a@[i].wrapping_mul(b@[i]),
    {
        let len = a.len();
        let mut i: usize = 0;
        while len - i >= 8
            invariant
                i <= len,
                len == a@.len(),
                len == b@.len(),
                out@.len() == len,
                forall|j: int| 0 <= j < i ==> out@[j] == a@[j].wrapping_mul(b@[j]),
            decreases len - i,
        {
            let r = self.mul_u16x8(loadu_u16x8(a, i), loadu_u16x8(b, i));
            storeu_u16x8(out, i, r);
            i += 8;
        }
        while i < len
            invariant
                i <= len,
                len == a@.len(),
                len == b@.len(),
                out@.len() == len,
                forall|j: int| 0 <= j < i ==> out@[j] == a@[j].wrapping_mul(b@[j]),
            decreases len - i,
        {
            out[i] = a[i].wrapping_mul(b[i]);
            i += 1;
        }
    }

    /// Per-lane rounded unsigned average, `(a+b+1)/2` (`pavgw`). No signed form exists in the ISA.
    pub fn avg_u16x8(self, a: [u16; 8], b: [u16; 8]) -> (r: [u16; 8])
        ensures
            forall|i: int| 0 <= i < 8 ==> r[i] == ((a[i] + b[i] + 1) / 2) as u16,
    {
        let mut out = [0u16; 8];
        let mut i: usize = 0;
        while i < 8
            invariant
                i <= 8,
                forall|j: int| 0 <= j < i ==> out[j] == ((a[j] + b[j] + 1) / 2) as u16,
            decreases 8 - i,
        {
            out[i] = ((a[i] as u32 + b[i] as u32 + 1) / 2) as u16;
            i += 1;
        }
        out
    }

    /// `out[i] = (a[i] + b[i] + 1) / 2`. 8-wide chunks, scalar remainder.
    pub fn avg_u16_slice(self, a: &[u16], b: &[u16], out: &mut [u16])
        requires
            a@.len() == b@.len(),
            old(out)@.len() == a@.len(),
        ensures
            final(out)@.len() == a@.len(),
            forall|i: int| 0 <= i < a@.len() ==> final(out)@[i] == ((a@[i] + b@[i] + 1) / 2) as u16,
    {
        let len = a.len();
        let mut i: usize = 0;
        while len - i >= 8
            invariant
                i <= len,
                len == a@.len(),
                len == b@.len(),
                out@.len() == len,
                forall|j: int| 0 <= j < i ==> out@[j] == ((a@[j] + b@[j] + 1) / 2) as u16,
            decreases len - i,
        {
            let r = self.avg_u16x8(loadu_u16x8(a, i), loadu_u16x8(b, i));
            storeu_u16x8(out, i, r);
            i += 8;
        }
        while i < len
            invariant
                i <= len,
                len == a@.len(),
                len == b@.len(),
                out@.len() == len,
                forall|j: int| 0 <= j < i ==> out@[j] == ((a@[j] + b@[j] + 1) / 2) as u16,
            decreases len - i,
        {
            out[i] = ((a[i] as u32 + b[i] as u32 + 1) / 2) as u16;
            i += 1;
        }
    }

    /// `a << IMM` per lane (`psllw`, uniform count; `IMM >= 16` clears every lane).
    pub fn shl_u16x8<const IMM: u32>(self, a: [u16; 8]) -> (r: [u16; 8])
        ensures
            forall|i: int| 0 <= i < 8 ==> r[i] == if IMM < 16 { a[i].wrapping_shl(IMM) } else { 0 },
    {
        let mut out = [0u16; 8];
        let mut i: usize = 0;
        while i < 8
            invariant
                i <= 8,
                forall|j: int| 0 <= j < i ==> out[j] == if IMM < 16 { a[j].wrapping_shl(IMM) } else { 0 },
            decreases 8 - i,
        {
            out[i] = if IMM < 16 { a[i].wrapping_shl(IMM) } else { 0 };
            i += 1;
        }
        out
    }

    /// `out[i]` is lane `i` of [`Self::shl_u16x8`] applied to `a`. 8-wide chunks, scalar remainder.
    pub fn shl_u16_slice<const IMM: u32>(self, a: &[u16], out: &mut [u16])
        requires
            old(out)@.len() == a@.len(),
        ensures
            final(out)@.len() == a@.len(),
            forall|i: int| 0 <= i < a@.len() ==> final(out)@[i] == if IMM < 16 { a@[i].wrapping_shl(IMM) } else { 0 },
    {
        let len = a.len();
        let mut i: usize = 0;
        while len - i >= 8
            invariant
                i <= len,
                len == a@.len(),
                out@.len() == len,
                forall|j: int| 0 <= j < i ==> out@[j] == if IMM < 16 { a@[j].wrapping_shl(IMM) } else { 0 },
            decreases len - i,
        {
            let r = self.shl_u16x8::<IMM>(loadu_u16x8(a, i));
            storeu_u16x8(out, i, r);
            i += 8;
        }
        while i < len
            invariant
                i <= len,
                len == a@.len(),
                out@.len() == len,
                forall|j: int| 0 <= j < i ==> out@[j] == if IMM < 16 { a@[j].wrapping_shl(IMM) } else { 0 },
            decreases len - i,
        {
            out[i] = if IMM < 16 { a[i].wrapping_shl(IMM) } else { 0 };
            i += 1;
        }
    }

    /// `a >> IMM` logical per lane (`psrlw`, uniform count; `IMM >= 16` clears every lane).
    pub fn shr_u16x8<const IMM: u32>(self, a: [u16; 8]) -> (r: [u16; 8])
        ensures
            forall|i: int| 0 <= i < 8 ==> r[i] == if IMM < 16 { a[i].wrapping_shr(IMM) } else { 0 },
    {
        let mut out = [0u16; 8];
        let mut i: usize = 0;
        while i < 8
            invariant
                i <= 8,
                forall|j: int| 0 <= j < i ==> out[j] == if IMM < 16 { a[j].wrapping_shr(IMM) } else { 0 },
            decreases 8 - i,
        {
            out[i] = if IMM < 16 { a[i].wrapping_shr(IMM) } else { 0 };
            i += 1;
        }
        out
    }

    /// `out[i]` is lane `i` of [`Self::shr_u16x8`] applied to `a`. 8-wide chunks, scalar remainder.
    pub fn shr_u16_slice<const IMM: u32>(self, a: &[u16], out: &mut [u16])
        requires
            old(out)@.len() == a@.len(),
        ensures
            final(out)@.len() == a@.len(),
            forall|i: int| 0 <= i < a@.len() ==> final(out)@[i] == if IMM < 16 { a@[i].wrapping_shr(IMM) } else { 0 },
    {
        let len = a.len();
        let mut i: usize = 0;
        while len - i >= 8
            invariant
                i <= len,
                len == a@.len(),
                out@.len() == len,
                forall|j: int| 0 <= j < i ==> out@[j] == if IMM < 16 { a@[j].wrapping_shr(IMM) } else { 0 },
            decreases len - i,
        {
            let r = self.shr_u16x8::<IMM>(loadu_u16x8(a, i));
            storeu_u16x8(out, i, r);
            i += 8;
        }
        while i < len
            invariant
                i <= len,
                len == a@.len(),
                out@.len() == len,
                forall|j: int| 0 <= j < i ==> out@[j] == if IMM < 16 { a@[j].wrapping_shr(IMM) } else { 0 },
            decreases len - i,
        {
            out[i] = if IMM < 16 { a[i].wrapping_shr(IMM) } else { 0 };
            i += 1;
        }
    }

}

// `i32` lanes.
impl Sse2 {
    /// `a + b` per lane, wrapping (`paddd`).
    pub fn add_i32x4(self, a: [i32; 4], b: [i32; 4]) -> (r: [i32; 4])
        ensures
            forall|i: int| 0 <= i < 4 ==> r[i] == a[i].wrapping_add(b[i]),
    {
        let mut out = [0i32; 4];
        let mut i: usize = 0;
        while i < 4
            invariant
                i <= 4,
                forall|j: int| 0 <= j < i ==> out[j] == a[j].wrapping_add(b[j]),
            decreases 4 - i,
        {
            out[i] = a[i].wrapping_add(b[i]);
            i += 1;
        }
        out
    }

    /// `out[i] = a[i].wrapping_add(b[i])`. 4-wide chunks, scalar remainder.
    pub fn add_i32_slice(self, a: &[i32], b: &[i32], out: &mut [i32])
        requires
            a@.len() == b@.len(),
            old(out)@.len() == a@.len(),
        ensures
            final(out)@.len() == a@.len(),
            forall|i: int| 0 <= i < a@.len() ==> final(out)@[i] == a@[i].wrapping_add(b@[i]),
    {
        let len = a.len();
        let mut i: usize = 0;
        while len - i >= 4
            invariant
                i <= len,
                len == a@.len(),
                len == b@.len(),
                out@.len() == len,
                forall|j: int| 0 <= j < i ==> out@[j] == a@[j].wrapping_add(b@[j]),
            decreases len - i,
        {
            let r = self.add_i32x4(loadu_i32x4(a, i), loadu_i32x4(b, i));
            storeu_i32x4(out, i, r);
            i += 4;
        }
        while i < len
            invariant
                i <= len,
                len == a@.len(),
                len == b@.len(),
                out@.len() == len,
                forall|j: int| 0 <= j < i ==> out@[j] == a@[j].wrapping_add(b@[j]),
            decreases len - i,
        {
            out[i] = a[i].wrapping_add(b[i]);
            i += 1;
        }
    }

    /// `a - b` per lane, wrapping (`psubd`).
    pub fn sub_i32x4(self, a: [i32; 4], b: [i32; 4]) -> (r: [i32; 4])
        ensures
            forall|i: int| 0 <= i < 4 ==> r[i] == a[i].wrapping_sub(b[i]),
    {
        let mut out = [0i32; 4];
        let mut i: usize = 0;
        while i < 4
            invariant
                i <= 4,
                forall|j: int| 0 <= j < i ==> out[j] == a[j].wrapping_sub(b[j]),
            decreases 4 - i,
        {
            out[i] = a[i].wrapping_sub(b[i]);
            i += 1;
        }
        out
    }

    /// `out[i] = a[i].wrapping_sub(b[i])`. 4-wide chunks, scalar remainder.
    pub fn sub_i32_slice(self, a: &[i32], b: &[i32], out: &mut [i32])
        requires
            a@.len() == b@.len(),
            old(out)@.len() == a@.len(),
        ensures
            final(out)@.len() == a@.len(),
            forall|i: int| 0 <= i < a@.len() ==> final(out)@[i] == a@[i].wrapping_sub(b@[i]),
    {
        let len = a.len();
        let mut i: usize = 0;
        while len - i >= 4
            invariant
                i <= len,
                len == a@.len(),
                len == b@.len(),
                out@.len() == len,
                forall|j: int| 0 <= j < i ==> out@[j] == a@[j].wrapping_sub(b@[j]),
            decreases len - i,
        {
            let r = self.sub_i32x4(loadu_i32x4(a, i), loadu_i32x4(b, i));
            storeu_i32x4(out, i, r);
            i += 4;
        }
        while i < len
            invariant
                i <= len,
                len == a@.len(),
                len == b@.len(),
                out@.len() == len,
                forall|j: int| 0 <= j < i ==> out@[j] == a@[j].wrapping_sub(b@[j]),
            decreases len - i,
        {
            out[i] = a[i].wrapping_sub(b[i]);
            i += 1;
        }
    }

    /// Lane equality mask (`pcmpeqd`): all-1s if equal, else 0.
    pub fn cmpeq_i32x4(self, a: [i32; 4], b: [i32; 4]) -> (r: [i32; 4])
        ensures
            forall|i: int| 0 <= i < 4 ==> r[i] == mask_i32(a[i] == b[i]),
    {
        let mut out = [0i32; 4];
        let mut i: usize = 0;
        while i < 4
            invariant
                i <= 4,
                forall|j: int| 0 <= j < i ==> out[j] == mask_i32(a[j] == b[j]),
            decreases 4 - i,
        {
            out[i] = if a[i] == b[i] { -1 } else { 0 };
            i += 1;
        }
        out
    }

    /// `out[i] = all-1s if a[i]==b[i] else 0`. 4-wide chunks, scalar remainder.
    pub fn cmpeq_i32_slice(self, a: &[i32], b: &[i32], out: &mut [i32])
        requires
            a@.len() == b@.len(),
            old(out)@.len() == a@.len(),
        ensures
            final(out)@.len() == a@.len(),
            forall|i: int| 0 <= i < a@.len() ==> final(out)@[i] == mask_i32(a@[i] == b@[i]),
    {
        let len = a.len();
        let mut i: usize = 0;
        while len - i >= 4
            invariant
                i <= len,
                len == a@.len(),
                len == b@.len(),
                out@.len() == len,
                forall|j: int| 0 <= j < i ==> out@[j] == mask_i32(a@[j] == b@[j]),
            decreases len - i,
        {
            let r = self.cmpeq_i32x4(loadu_i32x4(a, i), loadu_i32x4(b, i));
            storeu_i32x4(out, i, r);
            i += 4;
        }
        while i < len
            invariant
                i <= len,
                len == a@.len(),
                len == b@.len(),
                out@.len() == len,
                forall|j: int| 0 <= j < i ==> out@[j] == mask_i32(a@[j] == b@[j]),
            decreases len - i,
        {
            out[i] = if a[i] == b[i] { -1 } else { 0 };
            i += 1;
        }
    }

    /// `out[i] = a[i] & b[i]`. 4-wide chunks, scalar remainder.
    pub fn and_i32_slice(self, a: &[i32], b: &[i32], out: &mut [i32])
        requires
            a@.len() == b@.len(),
            old(out)@.len() == a@.len(),
        ensures
            final(out)@.len() == a@.len(),
            forall|i: int| 0 <= i < a@.len() ==> final(out)@[i] == a@[i] & b@[i],
    {
        let len = a.len();
        let mut i: usize = 0;
        while len - i >= 4
            invariant
                i <= len,
                len == a@.len(),
                len == b@.len(),
                out@.len() == len,
                forall|j: int| 0 <= j < i ==> out@[j] == a@[j] & b@[j],
            decreases len - i,
        {
            let r = self.and_i32x4(loadu_i32x4(a, i), loadu_i32x4(b, i));
            storeu_i32x4(out, i, r);
            i += 4;
        }
        while i < len
            invariant
                i <= len,
                len == a@.len(),
                len == b@.len(),
                out@.len() == len,
                forall|j: int| 0 <= j < i ==> out@[j] == a@[j] & b@[j],
            decreases len - i,
        {
            out[i] = a[i] & b[i];
            i += 1;
        }
    }

    /// `out[i] = a[i] | b[i]`. 4-wide chunks, scalar remainder.
    pub fn or_i32_slice(self, a: &[i32], b: &[i32], out: &mut [i32])
        requires
            a@.len() == b@.len(),
            old(out)@.len() == a@.len(),
        ensures
            final(out)@.len() == a@.len(),
            forall|i: int| 0 <= i < a@.len() ==> final(out)@[i] == a@[i] | b@[i],
    {
        let len = a.len();
        let mut i: usize = 0;
        while len - i >= 4
            invariant
                i <= len,
                len == a@.len(),
                len == b@.len(),
                out@.len() == len,
                forall|j: int| 0 <= j < i ==> out@[j] == a@[j] | b@[j],
            decreases len - i,
        {
            let r = self.or_i32x4(loadu_i32x4(a, i), loadu_i32x4(b, i));
            storeu_i32x4(out, i, r);
            i += 4;
        }
        while i < len
            invariant
                i <= len,
                len == a@.len(),
                len == b@.len(),
                out@.len() == len,
                forall|j: int| 0 <= j < i ==> out@[j] == a@[j] | b@[j],
            decreases len - i,
        {
            out[i] = a[i] | b[i];
            i += 1;
        }
    }

    /// `a ^ b` per lane (`pxor`).
    pub fn xor_i32x4(self, a: [i32; 4], b: [i32; 4]) -> (r: [i32; 4])
        ensures
            forall|i: int| 0 <= i < 4 ==> r[i] == a[i] ^ b[i],
    {
        let mut out = [0i32; 4];
        let mut i: usize = 0;
        while i < 4
            invariant
                i <= 4,
                forall|j: int| 0 <= j < i ==> out[j] == a[j] ^ b[j],
            decreases 4 - i,
        {
            out[i] = a[i] ^ b[i];
            i += 1;
        }
        out
    }

    /// `out[i] = a[i] ^ b[i]`. 4-wide chunks, scalar remainder.
    pub fn xor_i32_slice(self, a: &[i32], b: &[i32], out: &mut [i32])
        requires
            a@.len() == b@.len(),
            old(out)@.len() == a@.len(),
        ensures
            final(out)@.len() == a@.len(),
            forall|i: int| 0 <= i < a@.len() ==> final(out)@[i] == a@[i] ^ b@[i],
    {
        let len = a.len();
        let mut i: usize = 0;
        while len - i >= 4
            invariant
                i <= len,
                len == a@.len(),
                len == b@.len(),
                out@.len() == len,
                forall|j: int| 0 <= j < i ==> out@[j] == a@[j] ^ b@[j],
            decreases len - i,
        {
            let r = self.xor_i32x4(loadu_i32x4(a, i), loadu_i32x4(b, i));
            storeu_i32x4(out, i, r);
            i += 4;
        }
        while i < len
            invariant
                i <= len,
                len == a@.len(),
                len == b@.len(),
                out@.len() == len,
                forall|j: int| 0 <= j < i ==> out@[j] == a@[j] ^ b@[j],
            decreases len - i,
        {
            out[i] = a[i] ^ b[i];
            i += 1;
        }
    }

    /// `out[i] = !a[i] & b[i]`. 4-wide chunks, scalar remainder.
    pub fn andnot_i32_slice(self, a: &[i32], b: &[i32], out: &mut [i32])
        requires
            a@.len() == b@.len(),
            old(out)@.len() == a@.len(),
        ensures
            final(out)@.len() == a@.len(),
            forall|i: int| 0 <= i < a@.len() ==> final(out)@[i] == !a@[i] & b@[i],
    {
        let len = a.len();
        let mut i: usize = 0;
        while len - i >= 4
            invariant
                i <= len,
                len == a@.len(),
                len == b@.len(),
                out@.len() == len,
                forall|j: int| 0 <= j < i ==> out@[j] == !a@[j] & b@[j],
            decreases len - i,
        {
            let r = self.andnot_i32x4(loadu_i32x4(a, i), loadu_i32x4(b, i));
            storeu_i32x4(out, i, r);
            i += 4;
        }
        while i < len
            invariant
                i <= len,
                len == a@.len(),
                len == b@.len(),
                out@.len() == len,
                forall|j: int| 0 <= j < i ==> out@[j] == !a@[j] & b@[j],
            decreases len - i,
        {
            proof {
                lemma_not_ranges();
            }
            out[i] = !a[i] & b[i];
            i += 1;
        }
    }

    /// `a << IMM` per lane (`pslld`, uniform count; `IMM >= 32` clears every lane).
    pub fn shl_i32x4<const IMM: u32>(self, a: [i32; 4]) -> (r: [i32; 4])
        ensures
            forall|i: int| 0 <= i < 4 ==> r[i] == if IMM < 32 { a[i].wrapping_shl(IMM) } else { 0 },
    {
        let mut out = [0i32; 4];
        let mut i: usize = 0;
        while i < 4
            invariant
                i <= 4,
                forall|j: int| 0 <= j < i ==> out[j] == if IMM < 32 { a[j].wrapping_shl(IMM) } else { 0 },
            decreases 4 - i,
        {
            out[i] = if IMM < 32 { a[i].wrapping_shl(IMM) } else { 0 };
            i += 1;
        }
        out
    }

    /// `out[i]` is lane `i` of [`Self::shl_i32x4`] applied to `a`. 4-wide chunks, scalar remainder.
    pub fn shl_i32_slice<const IMM: u32>(self, a: &[i32], out: &mut [i32])
        requires
            old(out)@.len() == a@.len(),
        ensures
            final(out)@.len() == a@.len(),
            forall|i: int| 0 <= i < a@.len() ==> final(out)@[i] == if IMM < 32 { a@[i].wrapping_shl(IMM) } else { 0 },
    {
        let len = a.len();
        let mut i: usize = 0;
        while len - i >= 4
            invariant
                i <= len,
                len == a@.len(),
                out@.len() == len,
                forall|j: int| 0 <= j < i ==> out@[j] == if IMM < 32 { a@[j].wrapping_shl(IMM) } else { 0 },
            decreases len - i,
        {
            let r = self.shl_i32x4::<IMM>(loadu_i32x4(a, i));
            storeu_i32x4(out, i, r);
            i += 4;
        }
        while i < len
            invariant
                i <= len,
                len == a@.len(),
                out@.len() == len,
                forall|j: int| 0 <= j < i ==> out@[j] == if IMM < 32 { a@[j].wrapping_shl(IMM) } else { 0 },
            decreases len - i,
        {
            out[i] = if IMM < 32 { a[i].wrapping_shl(IMM) } else { 0 };
            i += 1;
        }
    }

    /// `a >> IMM` logical per lane (`psrld`, uniform count; `IMM >= 32` clears every lane).
    pub fn shr_i32x4<const IMM: u32>(self, a: [i32; 4]) -> (r: [i32; 4])
        ensures
            forall|i: int| 0 <= i < 4 ==> r[i] == if IMM < 32 { ((a[i] as u32).wrapping_shr(IMM)) as i32 } else { 0 },
    {
        let mut out = [0i32; 4];
        let mut i: usize = 0;
        while i < 4
            invariant
                i <= 4,
                forall|j: int| 0 <= j < i ==> out[j] == if IMM < 32 { ((a[j] as u32).wrapping_shr(IMM)) as i32 } else { 0 },
            decreases 4 - i,
        {
            out[i] = if IMM < 32 { ((a[i] as u32).wrapping_shr(IMM)) as i32 } else { 0 };
            i += 1;
        }
        out
    }

    /// `out[i]` is lane `i` of [`Self::shr_i32x4`] applied to `a`. 4-wide chunks, scalar remainder.
    pub fn shr_i32_slice<const IMM: u32>(self, a: &[i32], out: &mut [i32])
        requires
            old(out)@.len() == a@.len(),
        ensures
            final(out)@.len() == a@.len(),
            forall|i: int| 0 <= i < a@.len() ==> final(out)@[i] == if IMM < 32 { ((a@[i] as u32).wrapping_shr(IMM)) as i32 } else { 0 },
    {
        let len = a.len();
        let mut i: usize = 0;
        while len - i >= 4
            invariant
                i <= len,
                len == a@.len(),
                out@.len() == len,
                forall|j: int| 0 <= j < i ==> out@[j] == if IMM < 32 { ((a@[j] as u32).wrapping_shr(IMM)) as i32 } else { 0 },
            decreases len - i,
        {
            let r = self.shr_i32x4::<IMM>(loadu_i32x4(a, i));
            storeu_i32x4(out, i, r);
            i += 4;
        }
        while i < len
            invariant
                i <= len,
                len == a@.len(),
                out@.len() == len,
                forall|j: int| 0 <= j < i ==> out@[j] == if IMM < 32 { ((a@[j] as u32).wrapping_shr(IMM)) as i32 } else { 0 },
            decreases len - i,
        {
            out[i] = if IMM < 32 { ((a[i] as u32).wrapping_shr(IMM)) as i32 } else { 0 };
            i += 1;
        }
    }

    /// `a >> IMM` arithmetic per lane (`psrad`, uniform count; `IMM >= 32` fills with the sign).
    pub fn sra_i32x4<const IMM: u32>(self, a: [i32; 4]) -> (r: [i32; 4])
        ensures
            forall|i: int| 0 <= i < 4 ==> r[i] == a[i].wrapping_shr(if IMM < 32 { IMM } else { 31 }),
    {
        let mut out = [0i32; 4];
        let mut i: usize = 0;
        while i < 4
            invariant
                i <= 4,
                forall|j: int| 0 <= j < i ==> out[j] == a[j].wrapping_shr(if IMM < 32 { IMM } else { 31 }),
            decreases 4 - i,
        {
            out[i] = a[i].wrapping_shr(if IMM < 32 { IMM } else { 31 });
            i += 1;
        }
        out
    }

    /// `out[i]` is lane `i` of [`Self::sra_i32x4`] applied to `a`. 4-wide chunks, scalar remainder.
    pub fn sra_i32_slice<const IMM: u32>(self, a: &[i32], out: &mut [i32])
        requires
            old(out)@.len() == a@.len(),
        ensures
            final(out)@.len() == a@.len(),
            forall|i: int| 0 <= i < a@.len() ==> final(out)@[i] == a@[i].wrapping_shr(if IMM < 32 { IMM } else { 31 }),
    {
        let len = a.len();
        let mut i: usize = 0;
        while len - i >= 4
            invariant
                i <= len,
                len == a@.len(),
                out@.len() == len,
                forall|j: int| 0 <= j < i ==> out@[j] == a@[j].wrapping_shr(if IMM < 32 { IMM } else { 31 }),
            decreases len - i,
        {
            let r = self.sra_i32x4::<IMM>(loadu_i32x4(a, i));
            storeu_i32x4(out, i, r);
            i += 4;
        }
        while i < len
            invariant
                i <= len,
                len == a@.len(),
                out@.len() == len,
                forall|j: int| 0 <= j < i ==> out@[j] == a@[j].wrapping_shr(if IMM < 32 { IMM } else { 31 }),
            decreases len - i,
        {
            out[i] = a[i].wrapping_shr(if IMM < 32 { IMM } else { 31 });
            i += 1;
        }
    }

}

// `u32` lanes.
impl Sse2 {
    /// `a + b` per lane, wrapping (`paddd`).
    pub fn add_u32x4(self, a: [u32; 4], b: [u32; 4]) -> (r: [u32; 4])
        ensures
            forall|i: int| 0 <= i < 4 ==> r[i] == a[i].wrapping_add(b[i]),
    {
        let mut out = [0u32; 4];
        let mut i: usize = 0;
        while i < 4
            invariant
                i <= 4,
                forall|j: int| 0 <= j < i ==> out[j] == a[j].wrapping_add(b[j]),
            decreases 4 - i,
        {
            out[i] = a[i].wrapping_add(b[i]);
            i += 1;
        }
        out
    }

    /// `out[i] = a[i].wrapping_add(b[i])`. 4-wide chunks, scalar remainder.
    pub fn add_u32_slice(self, a: &[u32], b: &[u32], out: &mut [u32])
        requires
            a@.len() == b@.len(),
            old(out)@.len() == a@.len(),
        ensures
            final(out)@.len() == a@.len(),
            forall|i: int| 0 <= i < a@.len() ==> final(out)@[i] == a@[i].wrapping_add(b@[i]),
    {
        let len = a.len();
        let mut i: usize = 0;
        while len - i >= 4
            invariant
                i <= len,
                len == a@.len(),
                len == b@.len(),
                out@.len() == len,
                forall|j: int| 0 <= j < i ==> out@[j] == a@[j].wrapping_add(b@[j]),
            decreases len - i,
        {
            let r = self.add_u32x4(loadu_u32x4(a, i), loadu_u32x4(b, i));
            storeu_u32x4(out, i, r);
            i += 4;
        }
        while i < len
            invariant
                i <= len,
                len == a@.len(),
                len == b@.len(),
                out@.len() == len,
                forall|j: int| 0 <= j < i ==> out@[j] == a@[j].wrapping_add(b@[j]),
            decreases len - i,
        {
            out[i] = a[i].wrapping_add(b[i]);
            i += 1;
        }
    }

    /// `a - b` per lane, wrapping (`psubd`).
    pub fn sub_u32x4(self, a: [u32; 4], b: [u32; 4]) -> (r: [u32; 4])
        ensures
            forall|i: int| 0 <= i < 4 ==> r[i] == a[i].wrapping_sub(b[i]),
    {
        let mut out = [0u32; 4];
        let mut i: usize = 0;
        while i < 4
            invariant
                i <= 4,
                forall|j: int| 0 <= j < i ==> out[j] == a[j].wrapping_sub(b[j]),
            decreases 4 - i,
        {
            out[i] = a[i].wrapping_sub(b[i]);
            i += 1;
        }
        out
    }

    /// `out[i] = a[i].wrapping_sub(b[i])`. 4-wide chunks, scalar remainder.
    pub fn sub_u32_slice(self, a: &[u32], b: &[u32], out: &mut [u32])
        requires
            a@.len() == b@.len(),
            old(out)@.len() == a@.len(),
        ensures
            final(out)@.len() == a@.len(),
            forall|i: int| 0 <= i < a@.len() ==> final(out)@[i] == a@[i].wrapping_sub(b@[i]),
    {
        let len = a.len();
        let mut i: usize = 0;
        while len - i >= 4
            invariant
                i <= len,
                len == a@.len(),
                len == b@.len(),
                out@.len() == len,
                forall|j: int| 0 <= j < i ==> out@[j] == a@[j].wrapping_sub(b@[j]),
            decreases len - i,
        {
            let r = self.sub_u32x4(loadu_u32x4(a, i), loadu_u32x4(b, i));
            storeu_u32x4(out, i, r);
            i += 4;
        }
        while i < len
            invariant
                i <= len,
                len == a@.len(),
                len == b@.len(),
                out@.len() == len,
                forall|j: int| 0 <= j < i ==> out@[j] == a@[j].wrapping_sub(b@[j]),
            decreases len - i,
        {
            out[i] = a[i].wrapping_sub(b[i]);
            i += 1;
        }
    }

    /// Lane equality mask (`pcmpeqd`): all-1s if equal, else 0.
    pub fn cmpeq_u32x4(self, a: [u32; 4], b: [u32; 4]) -> (r: [u32; 4])
        ensures
            forall|i: int| 0 <= i < 4 ==> r[i] == mask_u32(a[i] == b[i]),
    {
        let mut out = [0u32; 4];
        let mut i: usize = 0;
        while i < 4
            invariant
                i <= 4,
                forall|j: int| 0 <= j < i ==> out[j] == mask_u32(a[j] == b[j]),
            decreases 4 - i,
        {
            out[i] = if a[i] == b[i] { u32::MAX } else { 0 };
            i += 1;
        }
        out
    }

    /// `out[i] = all-1s if a[i]==b[i] else 0`. 4-wide chunks, scalar remainder.
    pub fn cmpeq_u32_slice(self, a: &[u32], b: &[u32], out: &mut [u32])
        requires
            a@.len() == b@.len(),
            old(out)@.len() == a@.len(),
        ensures
            final(out)@.len() == a@.len(),
            forall|i: int| 0 <= i < a@.len() ==> final(out)@[i] == mask_u32(a@[i] == b@[i]),
    {
        let len = a.len();
        let mut i: usize = 0;
        while len - i >= 4
            invariant
                i <= len,
                len == a@.len(),
                len == b@.len(),
                out@.len() == len,
                forall|j: int| 0 <= j < i ==> out@[j] == mask_u32(a@[j] == b@[j]),
            decreases len - i,
        {
            let r = self.cmpeq_u32x4(loadu_u32x4(a, i), loadu_u32x4(b, i));
            storeu_u32x4(out, i, r);
            i += 4;
        }
        while i < len
            invariant
                i <= len,
                len == a@.len(),
                len == b@.len(),
                out@.len() == len,
                forall|j: int| 0 <= j < i ==> out@[j] == mask_u32(a@[j] == b@[j]),
            decreases len - i,
        {
            out[i] = if a[i] == b[i] { u32::MAX } else { 0 };
            i += 1;
        }
    }

    /// `out[i] = a[i] & b[i]`. 4-wide chunks, scalar remainder.
    pub fn and_u32_slice(self, a: &[u32], b: &[u32], out: &mut [u32])
        requires
            a@.len() == b@.len(),
            old(out)@.len() == a@.len(),
        ensures
            final(out)@.len() == a@.len(),
            forall|i: int| 0 <= i < a@.len() ==> final(out)@[i] == a@[i] & b@[i],
    {
        let len = a.len();
        let mut i: usize = 0;
        while len - i >= 4
            invariant
                i <= len,
                len == a@.len(),
                len == b@.len(),
                out@.len() == len,
                forall|j: int| 0 <= j < i ==> out@[j] == a@[j] & b@[j],
            decreases len - i,
        {
            let r = self.and_u32x4(loadu_u32x4(a, i), loadu_u32x4(b, i));
            storeu_u32x4(out, i, r);
            i += 4;
        }
        while i < len
            invariant
                i <= len,
                len == a@.len(),
                len == b@.len(),
                out@.len() == len,
                forall|j: int| 0 <= j < i ==> out@[j] == a@[j] & b@[j],
            decreases len - i,
        {
            out[i] = a[i] & b[i];
            i += 1;
        }
    }

    /// `out[i] = a[i] | b[i]`. 4-wide chunks, scalar remainder.
    pub fn or_u32_slice(self, a: &[u32], b: &[u32], out: &mut [u32])
        requires
            a@.len() == b@.len(),
            old(out)@.len() == a@.len(),
        ensures
            final(out)@.len() == a@.len(),
            forall|i: int| 0 <= i < a@.len() ==> final(out)@[i] == a@[i] | b@[i],
    {
        let len = a.len();
        let mut i: usize = 0;
        while len - i >= 4
            invariant
                i <= len,
                len == a@.len(),
                len == b@.len(),
                out@.len() == len,
                forall|j: int| 0 <= j < i ==> out@[j] == a@[j] | b@[j],
            decreases len - i,
        {
            let r = self.or_u32x4(loadu_u32x4(a, i), loadu_u32x4(b, i));
            storeu_u32x4(out, i, r);
            i += 4;
        }
        while i < len
            invariant
                i <= len,
                len == a@.len(),
                len == b@.len(),
                out@.len() == len,
                forall|j: int| 0 <= j < i ==> out@[j] == a@[j] | b@[j],
            decreases len - i,
        {
            out[i] = a[i] | b[i];
            i += 1;
        }
    }

    /// `a ^ b` per lane (`pxor`).
    pub fn xor_u32x4(self, a: [u32; 4], b: [u32; 4]) -> (r: [u32; 4])
        ensures
            forall|i: int| 0 <= i < 4 ==> r[i] == a[i] ^ b[i],
    {
        let mut out = [0u32; 4];
        let mut i: usize = 0;
        while i < 4
            invariant
                i <= 4,
                forall|j: int| 0 <= j < i ==> out[j] == a[j] ^ b[j],
            decreases 4 - i,
        {
            out[i] = a[i] ^ b[i];
            i += 1;
        }
        out
    }

    /// `out[i] = a[i] ^ b[i]`. 4-wide chunks, scalar remainder.
    pub fn xor_u32_slice(self, a: &[u32], b: &[u32], out: &mut [u32])
        requires
            a@.len() == b@.len(),
            old(out)@.len() == a@.len(),
        ensures
            final(out)@.len() == a@.len(),
            forall|i: int| 0 <= i < a@.len() ==> final(out)@[i] == a@[i] ^ b@[i],
    {
        let len = a.len();
        let mut i: usize = 0;
        while len - i >= 4
            invariant
                i <= len,
                len == a@.len(),
                len == b@.len(),
                out@.len() == len,
                forall|j: int| 0 <= j < i ==> out@[j] == a@[j] ^ b@[j],
            decreases len - i,
        {
            let r = self.xor_u32x4(loadu_u32x4(a, i), loadu_u32x4(b, i));
            storeu_u32x4(out, i, r);
            i += 4;
        }
        while i < len
            invariant
                i <= len,
                len == a@.len(),
                len == b@.len(),
                out@.len() == len,
                forall|j: int| 0 <= j < i ==> out@[j] == a@[j] ^ b@[j],
            decreases len - i,
        {
            out[i] = a[i] ^ b[i];
            i += 1;
        }
    }

    /// `out[i] = !a[i] & b[i]`. 4-wide chunks, scalar remainder.
    pub fn andnot_u32_slice(self, a: &[u32], b: &[u32], out: &mut [u32])
        requires
            a@.len() == b@.len(),
            old(out)@.len() == a@.len(),
        ensures
            final(out)@.len() == a@.len(),
            forall|i: int| 0 <= i < a@.len() ==> final(out)@[i] == !a@[i] & b@[i],
    {
        let len = a.len();
        let mut i: usize = 0;
        while len - i >= 4
            invariant
                i <= len,
                len == a@.len(),
                len == b@.len(),
                out@.len() == len,
                forall|j: int| 0 <= j < i ==> out@[j] == !a@[j] & b@[j],
            decreases len - i,
        {
            let r = self.andnot_u32x4(loadu_u32x4(a, i), loadu_u32x4(b, i));
            storeu_u32x4(out, i, r);
            i += 4;
        }
        while i < len
            invariant
                i <= len,
                len == a@.len(),
                len == b@.len(),
                out@.len() == len,
                forall|j: int| 0 <= j < i ==> out@[j] == !a@[j] & b@[j],
            decreases len - i,
        {
            proof {
                lemma_not_ranges();
            }
            out[i] = !a[i] & b[i];
            i += 1;
        }
    }

    /// `a << IMM` per lane (`pslld`, uniform count; `IMM >= 32` clears every lane).
    pub fn shl_u32x4<const IMM: u32>(self, a: [u32; 4]) -> (r: [u32; 4])
        ensures
            forall|i: int| 0 <= i < 4 ==> r[i] == if IMM < 32 { a[i].wrapping_shl(IMM) } else { 0 },
    {
        let mut out = [0u32; 4];
        let mut i: usize = 0;
        while i < 4
            invariant
                i <= 4,
                forall|j: int| 0 <= j < i ==> out[j] == if IMM < 32 { a[j].wrapping_shl(IMM) } else { 0 },
            decreases 4 - i,
        {
            out[i] = if IMM < 32 { a[i].wrapping_shl(IMM) } else { 0 };
            i += 1;
        }
        out
    }

    /// `out[i]` is lane `i` of [`Self::shl_u32x4`] applied to `a`. 4-wide chunks, scalar remainder.
    pub fn shl_u32_slice<const IMM: u32>(self, a: &[u32], out: &mut [u32])
        requires
            old(out)@.len() == a@.len(),
        ensures
            final(out)@.len() == a@.len(),
            forall|i: int| 0 <= i < a@.len() ==> final(out)@[i] == if IMM < 32 { a@[i].wrapping_shl(IMM) } else { 0 },
    {
        let len = a.len();
        let mut i: usize = 0;
        while len - i >= 4
            invariant
                i <= len,
                len == a@.len(),
                out@.len() == len,
                forall|j: int| 0 <= j < i ==> out@[j] == if IMM < 32 { a@[j].wrapping_shl(IMM) } else { 0 },
            decreases len - i,
        {
            let r = self.shl_u32x4::<IMM>(loadu_u32x4(a, i));
            storeu_u32x4(out, i, r);
            i += 4;
        }
        while i < len
            invariant
                i <= len,
                len == a@.len(),
                out@.len() == len,
                forall|j: int| 0 <= j < i ==> out@[j] == if IMM < 32 { a@[j].wrapping_shl(IMM) } else { 0 },
            decreases len - i,
        {
            out[i] = if IMM < 32 { a[i].wrapping_shl(IMM) } else { 0 };
            i += 1;
        }
    }

    /// `a >> IMM` logical per lane (`psrld`, uniform count; `IMM >= 32` clears every lane).
    pub fn shr_u32x4<const IMM: u32>(self, a: [u32; 4]) -> (r: [u32; 4])
        ensures
            forall|i: int| 0 <= i < 4 ==> r[i] == if IMM < 32 { a[i].wrapping_shr(IMM) } else { 0 },
    {
        let mut out = [0u32; 4];
        let mut i: usize = 0;
        while i < 4
            invariant
                i <= 4,
                forall|j: int| 0 <= j < i ==> out[j] == if IMM < 32 { a[j].wrapping_shr(IMM) } else { 0 },
            decreases 4 - i,
        {
            out[i] = if IMM < 32 { a[i].wrapping_shr(IMM) } else { 0 };
            i += 1;
        }
        out
    }

    /// `out[i]` is lane `i` of [`Self::shr_u32x4`] applied to `a`. 4-wide chunks, scalar remainder.
    pub fn shr_u32_slice<const IMM: u32>(self, a: &[u32], out: &mut [u32])
        requires
            old(out)@.len() == a@.len(),
        ensures
            final(out)@.len() == a@.len(),
            forall|i: int| 0 <= i < a@.len() ==> final(out)@[i] == if IMM < 32 { a@[i].wrapping_shr(IMM) } else { 0 },
    {
        let len = a.len();
        let mut i: usize = 0;
        while len - i >= 4
            invariant
                i <= len,
                len == a@.len(),
                out@.len() == len,
                forall|j: int| 0 <= j < i ==> out@[j] == if IMM < 32 { a@[j].wrapping_shr(IMM) } else { 0 },
            decreases len - i,
        {
            let r = self.shr_u32x4::<IMM>(loadu_u32x4(a, i));
            storeu_u32x4(out, i, r);
            i += 4;
        }
        while i < len
            invariant
                i <= len,
                len == a@.len(),
                out@.len() == len,
                forall|j: int| 0 <= j < i ==> out@[j] == if IMM < 32 { a@[j].wrapping_shr(IMM) } else { 0 },
            decreases len - i,
        {
            out[i] = if IMM < 32 { a[i].wrapping_shr(IMM) } else { 0 };
            i += 1;
        }
    }

}

// `i64` lanes.
impl Sse2 {
    /// `a + b` per lane, wrapping (`paddq`).
    pub fn add_i64x2(self, a: [i64; 2], b: [i64; 2]) -> (r: [i64; 2])
        ensures
            forall|i: int| 0 <= i < 2 ==> r[i] == a[i].wrapping_add(b[i]),
    {
        let mut out = [0i64; 2];
        let mut i: usize = 0;
        while i < 2
            invariant
                i <= 2,
                forall|j: int| 0 <= j < i ==> out[j] == a[j].wrapping_add(b[j]),
            decreases 2 - i,
        {
            out[i] = a[i].wrapping_add(b[i]);
            i += 1;
        }
        out
    }

    /// `out[i] = a[i].wrapping_add(b[i])`. 2-wide chunks, scalar remainder.
    pub fn add_i64_slice(self, a: &[i64], b: &[i64], out: &mut [i64])
        requires
            a@.len() == b@.len(),
            old(out)@.len() == a@.len(),
        ensures
            final(out)@.len() == a@.len(),
            forall|i: int| 0 <= i < a@.len() ==> final(out)@[i] == a@[i].wrapping_add(b@[i]),
    {
        let len = a.len();
        let mut i: usize = 0;
        while len - i >= 2
            invariant
                i <= len,
                len == a@.len(),
                len == b@.len(),
                out@.len() == len,
                forall|j: int| 0 <= j < i ==> out@[j] == a@[j].wrapping_add(b@[j]),
            decreases len - i,
        {
            let r = self.add_i64x2(loadu_i64x2(a, i), loadu_i64x2(b, i));
            storeu_i64x2(out, i, r);
            i += 2;
        }
        while i < len
            invariant
                i <= len,
                len == a@.len(),
                len == b@.len(),
                out@.len() == len,
                forall|j: int| 0 <= j < i ==> out@[j] == a@[j].wrapping_add(b@[j]),
            decreases len - i,
        {
            out[i] = a[i].wrapping_add(b[i]);
            i += 1;
        }
    }

    /// `a - b` per lane, wrapping (`psubq`).
    pub fn sub_i64x2(self, a: [i64; 2], b: [i64; 2]) -> (r: [i64; 2])
        ensures
            forall|i: int| 0 <= i < 2 ==> r[i] == a[i].wrapping_sub(b[i]),
    {
        let mut out = [0i64; 2];
        let mut i: usize = 0;
        while i < 2
            invariant
                i <= 2,
                forall|j: int| 0 <= j < i ==> out[j] == a[j].wrapping_sub(b[j]),
            decreases 2 - i,
        {
            out[i] = a[i].wrapping_sub(b[i]);
            i += 1;
        }
        out
    }

    /// `out[i] = a[i].wrapping_sub(b[i])`. 2-wide chunks, scalar remainder.
    pub fn sub_i64_slice(self, a: &[i64], b: &[i64], out: &mut [i64])
        requires
            a@.len() == b@.len(),
            old(out)@.len() == a@.len(),
        ensures
            final(out)@.len() == a@.len(),
            forall|i: int| 0 <= i < a@.len() ==> final(out)@[i] == a@[i].wrapping_sub(b@[i]),
    {
        let len = a.len();
        let mut i: usize = 0;
        while len - i >= 2
            invariant
                i <= len,
                len == a@.len(),
                len == b@.len(),
                out@.len() == len,
                forall|j: int| 0 <= j < i ==> out@[j] == a@[j].wrapping_sub(b@[j]),
            decreases len - i,
        {
            let r = self.sub_i64x2(loadu_i64x2(a, i), loadu_i64x2(b, i));
            storeu_i64x2(out, i, r);
            i += 2;
        }
        while i < len
            invariant
                i <= len,
                len == a@.len(),
                len == b@.len(),
                out@.len() == len,
                forall|j: int| 0 <= j < i ==> out@[j] == a@[j].wrapping_sub(b@[j]),
            decreases len - i,
        {
            out[i] = a[i].wrapping_sub(b[i]);
            i += 1;
        }
    }

    /// `a & b` per lane (`pand`).
    pub fn and_i64x2(self, a: [i64; 2], b: [i64; 2]) -> (r: [i64; 2])
        ensures
            forall|i: int| 0 <= i < 2 ==> r[i] == a[i] & b[i],
    {
        let mut out = [0i64; 2];
        let mut i: usize = 0;
        while i < 2
            invariant
                i <= 2,
                forall|j: int| 0 <= j < i ==> out[j] == a[j] & b[j],
            decreases 2 - i,
        {
            out[i] = a[i] & b[i];
            i += 1;
        }
        out
    }

    /// `out[i] = a[i] & b[i]`. 2-wide chunks, scalar remainder.
    pub fn and_i64_slice(self, a: &[i64], b: &[i64], out: &mut [i64])
        requires
            a@.len() == b@.len(),
            old(out)@.len() == a@.len(),
        ensures
            final(out)@.len() == a@.len(),
            forall|i: int| 0 <= i < a@.len() ==> final(out)@[i] == a@[i] & b@[i],
    {
        let len = a.len();
        let mut i: usize = 0;
        while len - i >= 2
            invariant
                i <= len,
                len == a@.len(),
                len == b@.len(),
                out@.len() == len,
                forall|j: int| 0 <= j < i ==> out@[j] == a@[j] & b@[j],
            decreases len - i,
        {
            let r = self.and_i64x2(loadu_i64x2(a, i), loadu_i64x2(b, i));
            storeu_i64x2(out, i, r);
            i += 2;
        }
        while i < len
            invariant
                i <= len,
                len == a@.len(),
                len == b@.len(),
                out@.len() == len,
                forall|j: int| 0 <= j < i ==> out@[j] == a@[j] & b@[j],
            decreases len - i,
        {
            out[i] = a[i] & b[i];
            i += 1;
        }
    }

    /// `a | b` per lane (`por`).
    pub fn or_i64x2(self, a: [i64; 2], b: [i64; 2]) -> (r: [i64; 2])
        ensures
            forall|i: int| 0 <= i < 2 ==> r[i] == a[i] | b[i],
    {
        let mut out = [0i64; 2];
        let mut i: usize = 0;
        while i < 2
            invariant
                i <= 2,
                forall|j: int| 0 <= j < i ==> out[j] == a[j] | b[j],
            decreases 2 - i,
        {
            out[i] = a[i] | b[i];
            i += 1;
        }
        out
    }

    /// `out[i] = a[i] | b[i]`. 2-wide chunks, scalar remainder.
    pub fn or_i64_slice(self, a: &[i64], b: &[i64], out: &mut [i64])
        requires
            a@.len() == b@.len(),
            old(out)@.len() == a@.len(),
        ensures
            final(out)@.len() == a@.len(),
            forall|i: int| 0 <= i < a@.len() ==> final(out)@[i] == a@[i] | b@[i],
    {
        let len = a.len();
        let mut i: usize = 0;
        while len - i >= 2
            invariant
                i <= len,
                len == a@.len(),
                len == b@.len(),
                out@.len() == len,
                forall|j: int| 0 <= j < i ==> out@[j] == a@[j] | b@[j],
            decreases len - i,
        {
            let r = self.or_i64x2(loadu_i64x2(a, i), loadu_i64x2(b, i));
            storeu_i64x2(out, i, r);
            i += 2;
        }
        while i < len
            invariant
                i <= len,
                len == a@.len(),
                len == b@.len(),
                out@.len() == len,
                forall|j: int| 0 <= j < i ==> out@[j] == a@[j] | b@[j],
            decreases len - i,
        {
            out[i] = a[i] | b[i];
            i += 1;
        }
    }

    /// `a ^ b` per lane (`pxor`).
    pub fn xor_i64x2(self, a: [i64; 2], b: [i64; 2]) -> (r: [i64; 2])
        ensures
            forall|i: int| 0 <= i < 2 ==> r[i] == a[i] ^ b[i],
    {
        let mut out = [0i64; 2];
        let mut i: usize = 0;
        while i < 2
            invariant
                i <= 2,
                forall|j: int| 0 <= j < i ==> out[j] == a[j] ^ b[j],
            decreases 2 - i,
        {
            out[i] = a[i] ^ b[i];
            i += 1;
        }
        out
    }

    /// `out[i] = a[i] ^ b[i]`. 2-wide chunks, scalar remainder.
    pub fn xor_i64_slice(self, a: &[i64], b: &[i64], out: &mut [i64])
        requires
            a@.len() == b@.len(),
            old(out)@.len() == a@.len(),
        ensures
            final(out)@.len() == a@.len(),
            forall|i: int| 0 <= i < a@.len() ==> final(out)@[i] == a@[i] ^ b@[i],
    {
        let len = a.len();
        let mut i: usize = 0;
        while len - i >= 2
            invariant
                i <= len,
                len == a@.len(),
                len == b@.len(),
                out@.len() == len,
                forall|j: int| 0 <= j < i ==> out@[j] == a@[j] ^ b@[j],
            decreases len - i,
        {
            let r = self.xor_i64x2(loadu_i64x2(a, i), loadu_i64x2(b, i));
            storeu_i64x2(out, i, r);
            i += 2;
        }
        while i < len
            invariant
                i <= len,
                len == a@.len(),
                len == b@.len(),
                out@.len() == len,
                forall|j: int| 0 <= j < i ==> out@[j] == a@[j] ^ b@[j],
            decreases len - i,
        {
            out[i] = a[i] ^ b[i];
            i += 1;
        }
    }

    /// `!a & b` per lane (`pandn`).
    pub fn andnot_i64x2(self, a: [i64; 2], b: [i64; 2]) -> (r: [i64; 2])
        ensures
            forall|i: int| 0 <= i < 2 ==> r[i] == !a[i] & b[i],
    {
        let mut out = [0i64; 2];
        let mut i: usize = 0;
        while i < 2
            invariant
                i <= 2,
                forall|j: int| 0 <= j < i ==> out[j] == !a[j] & b[j],
            decreases 2 - i,
        {
            proof {
                lemma_not_ranges();
            }
            out[i] = !a[i] & b[i];
            i += 1;
        }
        out
    }

    /// `out[i] = !a[i] & b[i]`. 2-wide chunks, scalar remainder.
    pub fn andnot_i64_slice(self, a: &[i64], b: &[i64], out: &mut [i64])
        requires
            a@.len() == b@.len(),
            old(out)@.len() == a@.len(),
        ensures
            final(out)@.len() == a@.len(),
            forall|i: int| 0 <= i < a@.len() ==> final(out)@[i] == !a@[i] & b@[i],
    {
        let len = a.len();
        let mut i: usize = 0;
        while len - i >= 2
            invariant
                i <= len,
                len == a@.len(),
                len == b@.len(),
                out@.len() == len,
                forall|j: int| 0 <= j < i ==> out@[j] == !a@[j] & b@[j],
            decreases len - i,
        {
            let r = self.andnot_i64x2(loadu_i64x2(a, i), loadu_i64x2(b, i));
            storeu_i64x2(out, i, r);
            i += 2;
        }
        while i < len
            invariant
                i <= len,
                len == a@.len(),
                len == b@.len(),
                out@.len() == len,
                forall|j: int| 0 <= j < i ==> out@[j] == !a@[j] & b@[j],
            decreases len - i,
        {
            proof {
                lemma_not_ranges();
            }
            out[i] = !a[i] & b[i];
            i += 1;
        }
    }

}

// `u64` lanes.
impl Sse2 {
    /// `a + b` per lane, wrapping (`paddq`).
    pub fn add_u64x2(self, a: [u64; 2], b: [u64; 2]) -> (r: [u64; 2])
        ensures
            forall|i: int| 0 <= i < 2 ==> r[i] == a[i].wrapping_add(b[i]),
    {
        let mut out = [0u64; 2];
        let mut i: usize = 0;
        while i < 2
            invariant
                i <= 2,
                forall|j: int| 0 <= j < i ==> out[j] == a[j].wrapping_add(b[j]),
            decreases 2 - i,
        {
            out[i] = a[i].wrapping_add(b[i]);
            i += 1;
        }
        out
    }

    /// `out[i] = a[i].wrapping_add(b[i])`. 2-wide chunks, scalar remainder.
    pub fn add_u64_slice(self, a: &[u64], b: &[u64], out: &mut [u64])
        requires
            a@.len() == b@.len(),
            old(out)@.len() == a@.len(),
        ensures
            final(out)@.len() == a@.len(),
            forall|i: int| 0 <= i < a@.len() ==> final(out)@[i] == a@[i].wrapping_add(b@[i]),
    {
        let len = a.len();
        let mut i: usize = 0;
        while len - i >= 2
            invariant
                i <= len,
                len == a@.len(),
                len == b@.len(),
                out@.len() == len,
                forall|j: int| 0 <= j < i ==> out@[j] == a@[j].wrapping_add(b@[j]),
            decreases len - i,
        {
            let r = self.add_u64x2(loadu_u64x2(a, i), loadu_u64x2(b, i));
            storeu_u64x2(out, i, r);
            i += 2;
        }
        while i < len
            invariant
                i <= len,
                len == a@.len(),
                len == b@.len(),
                out@.len() == len,
                forall|j: int| 0 <= j < i ==> out@[j] == a@[j].wrapping_add(b@[j]),
            decreases len - i,
        {
            out[i] = a[i].wrapping_add(b[i]);
            i += 1;
        }
    }

    /// `a - b` per lane, wrapping (`psubq`).
    pub fn sub_u64x2(self, a: [u64; 2], b: [u64; 2]) -> (r: [u64; 2])
        ensures
            forall|i: int| 0 <= i < 2 ==> r[i] == a[i].wrapping_sub(b[i]),
    {
        let mut out = [0u64; 2];
        let mut i: usize = 0;
        while i < 2
            invariant
                i <= 2,
                forall|j: int| 0 <= j < i ==> out[j] == a[j].wrapping_sub(b[j]),
            decreases 2 - i,
        {
            out[i] = a[i].wrapping_sub(b[i]);
            i += 1;
        }
        out
    }

    /// `out[i] = a[i].wrapping_sub(b[i])`. 2-wide chunks, scalar remainder.
    pub fn sub_u64_slice(self, a: &[u64], b: &[u64], out: &mut [u64])
        requires
            a@.len() == b@.len(),
            old(out)@.len() == a@.len(),
        ensures
            final(out)@.len() == a@.len(),
            forall|i: int| 0 <= i < a@.len() ==> final(out)@[i] == a@[i].wrapping_sub(b@[i]),
    {
        let len = a.len();
        let mut i: usize = 0;
        while len - i >= 2
            invariant
                i <= len,
                len == a@.len(),
                len == b@.len(),
                out@.len() == len,
                forall|j: int| 0 <= j < i ==> out@[j] == a@[j].wrapping_sub(b@[j]),
            decreases len - i,
        {
            let r = self.sub_u64x2(loadu_u64x2(a, i), loadu_u64x2(b, i));
            storeu_u64x2(out, i, r);
            i += 2;
        }
        while i < len
            invariant
                i <= len,
                len == a@.len(),
                len == b@.len(),
                out@.len() == len,
                forall|j: int| 0 <= j < i ==> out@[j] == a@[j].wrapping_sub(b@[j]),
            decreases len - i,
        {
            out[i] = a[i].wrapping_sub(b[i]);
            i += 1;
        }
    }

    /// `a & b` per lane (`pand`).
    pub fn and_u64x2(self, a: [u64; 2], b: [u64; 2]) -> (r: [u64; 2])
        ensures
            forall|i: int| 0 <= i < 2 ==> r[i] == a[i] & b[i],
    {
        let mut out = [0u64; 2];
        let mut i: usize = 0;
        while i < 2
            invariant
                i <= 2,
                forall|j: int| 0 <= j < i ==> out[j] == a[j] & b[j],
            decreases 2 - i,
        {
            out[i] = a[i] & b[i];
            i += 1;
        }
        out
    }

    /// `out[i] = a[i] & b[i]`. 2-wide chunks, scalar remainder.
    pub fn and_u64_slice(self, a: &[u64], b: &[u64], out: &mut [u64])
        requires
            a@.len() == b@.len(),
            old(out)@.len() == a@.len(),
        ensures
            final(out)@.len() == a@.len(),
            forall|i: int| 0 <= i < a@.len() ==> final(out)@[i] == a@[i] & b@[i],
    {
        let len = a.len();
        let mut i: usize = 0;
        while len - i >= 2
            invariant
                i <= len,
                len == a@.len(),
                len == b@.len(),
                out@.len() == len,
                forall|j: int| 0 <= j < i ==> out@[j] == a@[j] & b@[j],
            decreases len - i,
        {
            let r = self.and_u64x2(loadu_u64x2(a, i), loadu_u64x2(b, i));
            storeu_u64x2(out, i, r);
            i += 2;
        }
        while i < len
            invariant
                i <= len,
                len == a@.len(),
                len == b@.len(),
                out@.len() == len,
                forall|j: int| 0 <= j < i ==> out@[j] == a@[j] & b@[j],
            decreases len - i,
        {
            out[i] = a[i] & b[i];
            i += 1;
        }
    }

    /// `a | b` per lane (`por`).
    pub fn or_u64x2(self, a: [u64; 2], b: [u64; 2]) -> (r: [u64; 2])
        ensures
            forall|i: int| 0 <= i < 2 ==> r[i] == a[i] | b[i],
    {
        let mut out = [0u64; 2];
        let mut i: usize = 0;
        while i < 2
            invariant
                i <= 2,
                forall|j: int| 0 <= j < i ==> out[j] == a[j] | b[j],
            decreases 2 - i,
        {
            out[i] = a[i] | b[i];
            i += 1;
        }
        out
    }

    /// `out[i] = a[i] | b[i]`. 2-wide chunks, scalar remainder.
    pub fn or_u64_slice(self, a: &[u64], b: &[u64], out: &mut [u64])
        requires
            a@.len() == b@.len(),
            old(out)@.len() == a@.len(),
        ensures
            final(out)@.len() == a@.len(),
            forall|i: int| 0 <= i < a@.len() ==> final(out)@[i] == a@[i] | b@[i],
    {
        let len = a.len();
        let mut i: usize = 0;
        while len - i >= 2
            invariant
                i <= len,
                len == a@.len(),
                len == b@.len(),
                out@.len() == len,
                forall|j: int| 0 <= j < i ==> out@[j] == a@[j] | b@[j],
            decreases len - i,
        {
            let r = self.or_u64x2(loadu_u64x2(a, i), loadu_u64x2(b, i));
            storeu_u64x2(out, i, r);
            i += 2;
        }
        while i < len
            invariant
                i <= len,
                len == a@.len(),
                len == b@.len(),
                out@.len() == len,
                forall|j: int| 0 <= j < i ==> out@[j] == a@[j] | b@[j],
            decreases len - i,
        {
            out[i] = a[i] | b[i];
            i += 1;
        }
    }

    /// `a ^ b` per lane (`pxor`).
    pub fn xor_u64x2(self, a: [u64; 2], b: [u64; 2]) -> (r: [u64; 2])
        ensures
            forall|i: int| 0 <= i < 2 ==> r[i] == a[i] ^ b[i],
    {
        let mut out = [0u64; 2];
        let mut i: usize = 0;
        while i < 2
            invariant
                i <= 2,
                forall|j: int| 0 <= j < i ==> out[j] == a[j] ^ b[j],
            decreases 2 - i,
        {
            out[i] = a[i] ^ b[i];
            i += 1;
        }
        out
    }

    /// `out[i] = a[i] ^ b[i]`. 2-wide chunks, scalar remainder.
    pub fn xor_u64_slice(self, a: &[u64], b: &[u64], out: &mut [u64])
        requires
            a@.len() == b@.len(),
            old(out)@.len() == a@.len(),
        ensures
            final(out)@.len() == a@.len(),
            forall|i: int| 0 <= i < a@.len() ==> final(out)@[i] == a@[i] ^ b@[i],
    {
        let len = a.len();
        let mut i: usize = 0;
        while len - i >= 2
            invariant
                i <= len,
                len == a@.len(),
                len == b@.len(),
                out@.len() == len,
                forall|j: int| 0 <= j < i ==> out@[j] == a@[j] ^ b@[j],
            decreases len - i,
        {
            let r = self.xor_u64x2(loadu_u64x2(a, i), loadu_u64x2(b, i));
            storeu_u64x2(out, i, r);
            i += 2;
        }
        while i < len
            invariant
                i <= len,
                len == a@.len(),
                len == b@.len(),
                out@.len() == len,
                forall|j: int| 0 <= j < i ==> out@[j] == a@[j] ^ b@[j],
            decreases len - i,
        {
            out[i] = a[i] ^ b[i];
            i += 1;
        }
    }

    /// `!a & b` per lane (`pandn`).
    pub fn andnot_u64x2(self, a: [u64; 2], b: [u64; 2]) -> (r: [u64; 2])
        ensures
            forall|i: int| 0 <= i < 2 ==> r[i] == !a[i] & b[i],
    {
        let mut out = [0u64; 2];
        let mut i: usize = 0;
        while i < 2
            invariant
                i <= 2,
                forall|j: int| 0 <= j < i ==> out[j] == !a[j] & b[j],
            decreases 2 - i,
        {
            proof {
                lemma_not_ranges();
            }
            out[i] = !a[i] & b[i];
            i += 1;
        }
        out
    }

    /// `out[i] = !a[i] & b[i]`. 2-wide chunks, scalar remainder.
    pub fn andnot_u64_slice(self, a: &[u64], b: &[u64], out: &mut [u64])
        requires
            a@.len() == b@.len(),
            old(out)@.len() == a@.len(),
        ensures
            final(out)@.len() == a@.len(),
            forall|i: int| 0 <= i < a@.len() ==> final(out)@[i] == !a@[i] & b@[i],
    {
        let len = a.len();
        let mut i: usize = 0;
        while len - i >= 2
            invariant
                i <= len,
                len == a@.len(),
                len == b@.len(),
                out@.len() == len,
                forall|j: int| 0 <= j < i ==> out@[j] == !a@[j] & b@[j],
            decreases len - i,
        {
            let r = self.andnot_u64x2(loadu_u64x2(a, i), loadu_u64x2(b, i));
            storeu_u64x2(out, i, r);
            i += 2;
        }
        while i < len
            invariant
                i <= len,
                len == a@.len(),
                len == b@.len(),
                out@.len() == len,
                forall|j: int| 0 <= j < i ==> out@[j] == !a@[j] & b@[j],
            decreases len - i,
        {
            proof {
                lemma_not_ranges();
            }
            out[i] = !a[i] & b[i];
            i += 1;
        }
    }

}

// Scalar divide, interleave, shuffles and the byte sign mask.
impl Sse2 {
    /// `a / b` per lane, rounded toward zero. No hardware SIMD integer divide exists on x86
    /// at any width; this is a plain scalar loop. The divisor must be nonzero and
    /// `i32::MIN / -1` must not occur (both panic in Rust's `/`).
    pub fn div_i32x4(self, a: [i32; 4], b: [i32; 4]) -> (r: [i32; 4])
        requires
            forall|i: int| 0 <= i < 4 ==> b[i] != 0 && !(a[i] == i32::MIN && b[i] == -1),
        ensures
            forall|i: int| 0 <= i < 4 ==> r[i] == trunc_div(a[i] as int, b[i] as int),
    {
        let mut out = [0i32; 4];
        let mut i: usize = 0;
        while i < 4
            invariant
                i <= 4,
                forall|k: int| 0 <= k < 4 ==> b[k] != 0 && !(a[k] == i32::MIN && b[k] == -1),
                forall|j: int| 0 <= j < i ==> out[j] == trunc_div(a[j] as int, b[j] as int),
            decreases 4 - i,
        {
            out[i] = div_i32(a[i], b[i]);
            i += 1;
        }
        out
    }

    /// `out[i] = a[i] / b[i]`, rounded toward zero. Scalar loop, no chunking. Every divisor
    /// must be nonzero and no lane may be `i32::MIN / -1`.
    pub fn div_i32_slice(self, a: &[i32], b: &[i32], out: &mut [i32])
        requires
            a@.len() == b@.len(),
            old(out)@.len() == a@.len(),
            forall|i: int| 0 <= i < b@.len() ==> b@[i] != 0 && !(a@[i] == i32::MIN && b@[i] == -1),
        ensures
            final(out)@.len() == a@.len(),
            forall|i: int| 0 <= i < a@.len() ==> final(out)@[i] == trunc_div(a@[i] as int, b@[i] as int),
    {
        let len = a.len();
        let mut i: usize = 0;
        while i < len
            invariant
                i <= len,
                len == a@.len(),
                len == b@.len(),
                out@.len() == len,
                forall|k: int| 0 <= k < len ==> b@[k] != 0 && !(a@[k] == i32::MIN && b@[k] == -1),
                forall|j: int| 0 <= j < i ==> out@[j] == trunc_div(a@[j] as int, b@[j] as int),
            decreases len - i,
        {
            out[i] = div_i32(a[i], b[i]);
            i += 1;
        }
    }

    /// `a / b` per lane. No hardware SIMD integer divide exists on x86 at any width; this is
    /// a plain scalar loop. Every divisor must be nonzero (zero panics in Rust's `/`).
    pub fn div_u32x4(self, a: [u32; 4], b: [u32; 4]) -> (r: [u32; 4])
        requires
            forall|i: int| 0 <= i < 4 ==> b[i] != 0,
        ensures
            forall|i: int| 0 <= i < 4 ==> r[i] == a[i] / b[i],
    {
        let mut out = [0u32; 4];
        let mut i: usize = 0;
        while i < 4
            invariant
                i <= 4,
                forall|k: int| 0 <= k < 4 ==> b[k] != 0,
                forall|j: int| 0 <= j < i ==> out[j] == a[j] / b[j],
            decreases 4 - i,
        {
            out[i] = a[i] / b[i];
            i += 1;
        }
        out
    }

    /// `out[i] = a[i] / b[i]`. Scalar loop, no chunking. Every divisor must be nonzero.
    pub fn div_u32_slice(self, a: &[u32], b: &[u32], out: &mut [u32])
        requires
            a@.len() == b@.len(),
            old(out)@.len() == a@.len(),
            forall|i: int| 0 <= i < b@.len() ==> b@[i] != 0,
        ensures
            final(out)@.len() == a@.len(),
            forall|i: int| 0 <= i < a@.len() ==> final(out)@[i] == a@[i] / b@[i],
    {
        let len = a.len();
        let mut i: usize = 0;
        while i < len
            invariant
                i <= len,
                len == a@.len(),
                len == b@.len(),
                out@.len() == len,
                forall|k: int| 0 <= k < len ==> b@[k] != 0,
                forall|j: int| 0 <= j < i ==> out@[j] == a@[j] / b@[j],
            decreases len - i,
        {
            out[i] = a[i] / b[i];
            i += 1;
        }
    }

    /// Interleaves the low 4 lanes of `a`/`b` (`punpcklwd`): `[a[0], b[0], ...]`.
    pub fn unpacklo_i16x8(self, a: [i16; 8], b: [i16; 8]) -> (r: [i16; 8])
        ensures
            forall|i: int| 0 <= i < 8 ==> r[i] == if i % 2 == 0 { a[0 + i / 2] } else { b[0 + i / 2] },
    {
        let mut out = [0i16; 8];
        let mut k: usize = 0;
        while k < 4
            invariant
                k <= 4,
                forall|i: int| 0 <= i < 2 * k ==> out[i] == if i % 2 == 0 { a[0 + i / 2] } else { b[0 + i / 2] },
            decreases 4 - k,
        {
            out[2 * k] = a[0 + k];
            out[2 * k + 1] = b[0 + k];
            k += 1;
        }
        out
    }

    /// Interleaves the high 4 lanes of `a`/`b` (`punpckhwd`): `[a[4], b[4], ...]`.
    pub fn unpackhi_i16x8(self, a: [i16; 8], b: [i16; 8]) -> (r: [i16; 8])
        ensures
            forall|i: int| 0 <= i < 8 ==> r[i] == if i % 2 == 0 { a[4 + i / 2] } else { b[4 + i / 2] },
    {
        let mut out = [0i16; 8];
        let mut k: usize = 0;
        while k < 4
            invariant
                k <= 4,
                forall|i: int| 0 <= i < 2 * k ==> out[i] == if i % 2 == 0 { a[4 + i / 2] } else { b[4 + i / 2] },
            decreases 4 - k,
        {
            out[2 * k] = a[4 + k];
            out[2 * k + 1] = b[4 + k];
            k += 1;
        }
        out
    }

    /// Interleaves the low 2 lanes of `a`/`b` (`punpckldq`): `[a[0], b[0], ...]`.
    pub fn unpacklo_i32x4(self, a: [i32; 4], b: [i32; 4]) -> (r: [i32; 4])
        ensures
            forall|i: int| 0 <= i < 4 ==> r[i] == if i % 2 == 0 { a[0 + i / 2] } else { b[0 + i / 2] },
    {
        let mut out = [0i32; 4];
        let mut k: usize = 0;
        while k < 2
            invariant
                k <= 2,
                forall|i: int| 0 <= i < 2 * k ==> out[i] == if i % 2 == 0 { a[0 + i / 2] } else { b[0 + i / 2] },
            decreases 2 - k,
        {
            out[2 * k] = a[0 + k];
            out[2 * k + 1] = b[0 + k];
            k += 1;
        }
        out
    }

    /// Interleaves the high 2 lanes of `a`/`b` (`punpckhdq`): `[a[2], b[2], ...]`.
    pub fn unpackhi_i32x4(self, a: [i32; 4], b: [i32; 4]) -> (r: [i32; 4])
        ensures
            forall|i: int| 0 <= i < 4 ==> r[i] == if i % 2 == 0 { a[2 + i / 2] } else { b[2 + i / 2] },
    {
        let mut out = [0i32; 4];
        let mut k: usize = 0;
        while k < 2
            invariant
                k <= 2,
                forall|i: int| 0 <= i < 2 * k ==> out[i] == if i % 2 == 0 { a[2 + i / 2] } else { b[2 + i / 2] },
            decreases 2 - k,
        {
            out[2 * k] = a[2 + k];
            out[2 * k + 1] = b[2 + k];
            k += 1;
        }
        out
    }

    /// Interleaves the low 1 lane of `a`/`b` (`punpcklqdq`): `[a[0], b[0], ...]`.
    pub fn unpacklo_i64x2(self, a: [i64; 2], b: [i64; 2]) -> (r: [i64; 2])
        ensures
            forall|i: int| 0 <= i < 2 ==> r[i] == if i % 2 == 0 { a[0 + i / 2] } else { b[0 + i / 2] },
    {
        let mut out = [0i64; 2];
        let mut k: usize = 0;
        while k < 1
            invariant
                k <= 1,
                forall|i: int| 0 <= i < 2 * k ==> out[i] == if i % 2 == 0 { a[0 + i / 2] } else { b[0 + i / 2] },
            decreases 1 - k,
        {
            out[2 * k] = a[0 + k];
            out[2 * k + 1] = b[0 + k];
            k += 1;
        }
        out
    }

    /// Interleaves the high 1 lane of `a`/`b` (`punpckhqdq`): `[a[1], b[1], ...]`.
    pub fn unpackhi_i64x2(self, a: [i64; 2], b: [i64; 2]) -> (r: [i64; 2])
        ensures
            forall|i: int| 0 <= i < 2 ==> r[i] == if i % 2 == 0 { a[1 + i / 2] } else { b[1 + i / 2] },
    {
        let mut out = [0i64; 2];
        let mut k: usize = 0;
        while k < 1
            invariant
                k <= 1,
                forall|i: int| 0 <= i < 2 * k ==> out[i] == if i % 2 == 0 { a[1 + i / 2] } else { b[1 + i / 2] },
            decreases 1 - k,
        {
            out[2 * k] = a[1 + k];
            out[2 * k + 1] = b[1 + k];
            k += 1;
        }
        out
    }

    /// 4-way shuffle of `a`'s low 4 lanes by `IMM8` (lane `i` takes lane `(IMM8 >> 2i) % 4`);
    /// the high 4 lanes pass through (`pshuflw`).
    pub fn shufflelo_i16x8<const IMM8: u32>(self, a: [i16; 8]) -> (r: [i16; 8])
        ensures
            forall|i: int| 0 <= i < 4 ==> r[i] == a[((IMM8 >> (2 * i) as u32) % 4) as int],
            forall|i: int| 4 <= i < 8 ==> r[i] == a[i],
    {
        let mut out = a;
        let mut i: usize = 0;
        while i < 4
            invariant
                i <= 4,
                forall|j: int| 0 <= j < i ==> out[j] == a[((IMM8 >> (2 * j) as u32) % 4) as int],
                forall|j: int| 4 <= j < 8 ==> out[j] == a[j],
            decreases 4 - i,
        {
            let k = ((IMM8 >> (2 * i as u32)) % 4) as usize;
            out[i] = a[k];
            i += 1;
        }
        out
    }

    /// 4-way shuffle of `a`'s high 4 lanes by `IMM8` (lane `4 + i` takes lane
    /// `4 + (IMM8 >> 2i) % 4`); the low 4 lanes pass through (`pshufhw`).
    pub fn shufflehi_i16x8<const IMM8: u32>(self, a: [i16; 8]) -> (r: [i16; 8])
        ensures
            forall|i: int| 0 <= i < 4 ==> r[i] == a[i],
            forall|i: int| 4 <= i < 8 ==> r[i] == a[4 + ((IMM8 >> (2 * (i - 4)) as u32) % 4) as int],
    {
        let mut out = a;
        let mut i: usize = 0;
        while i < 4
            invariant
                i <= 4,
                forall|j: int| 0 <= j < 4 ==> out[j] == a[j],
                forall|j: int| 4 <= j < 4 + i ==> out[j] == a[4 + ((IMM8 >> (2 * (j - 4)) as u32) % 4) as int],
                forall|j: int| 4 + i <= j < 8 ==> out[j] == a[j],
            decreases 4 - i,
        {
            let k = ((IMM8 >> (2 * i as u32)) % 4) as usize;
            out[4 + i] = a[4 + k];
            i += 1;
        }
        out
    }

    /// 4-way shuffle of `a`'s lanes by `IMM8`: lane `i` takes lane `(IMM8 >> 2i) % 4`
    /// (`pshufd`).
    pub fn shuffle_i32x4<const IMM8: u32>(self, a: [i32; 4]) -> (r: [i32; 4])
        ensures
            forall|i: int| 0 <= i < 4 ==> r[i] == a[((IMM8 >> (2 * i) as u32) % 4) as int],
    {
        let mut out = [0i32; 4];
        let mut i: usize = 0;
        while i < 4
            invariant
                i <= 4,
                forall|j: int| 0 <= j < i ==> out[j] == a[((IMM8 >> (2 * j) as u32) % 4) as int],
            decreases 4 - i,
        {
            let k = ((IMM8 >> (2 * i as u32)) % 4) as usize;
            out[i] = a[k];
            i += 1;
        }
        out
    }

    /// Sign-bit mask, one bit per lane (`pmovmskb`): the sum of `2^i` over the lanes `i`
    /// whose sign bit is set.
    pub fn movemask_i8x16(self, a: [i8; 16]) -> (r: u16)
        ensures
            r == sign_mask(a@, 16),
    {
        let mut m: u32 = 0;
        let mut bit: u32 = 1;
        let mut i: usize = 0;
        proof {
            lemma2_to64();
        }
        while i < 16
            invariant
                i <= 16,
                bit == pow2(i as nat),
                m == sign_mask(a@, i as nat),
                m < bit,
                pow2(16) == 0x1_0000,
            decreases 16 - i,
        {
            proof {
                lemma_pow2_strictly_increases(i as nat, 16);
                lemma_pow2_unfold((i + 1) as nat);
            }
            if a[i] < 0 {
                m = m + bit;
            }
            bit = bit * 2;
            i += 1;
        }
        m as u16
    }
}

/// `x / d` rounded toward zero.
fn div_i32(x: i32, d: i32) -> (r: i32)
    requires
        d != 0,
        !(x == i32::MIN && d == -1),
    ensures
        r == trunc_div(x as int, d as int),
{
    proof {
        lemma_trunc_div_range(x as int, d as int);
    }
    match x.checked_div(d) {
        Some(q) => q,
        None => 0,
    }
}

} // verus!
