//! SSE4.1 integer lanes on [`Sse41`]: 32-bit low multiply, the min/max forms SSE2 lacks,
//! mask-driven select, and the immediate word blend. SSSE3 absolute value on [`Ssse3`].

use vstd::prelude::*;

use super::super::chunk::{
    loadu_i16x8, loadu_i32x4, loadu_i64x2, loadu_i8x16, loadu_u16x8, loadu_u32x4, loadu_u64x2,
    loadu_u8x16, storeu_i16x8, storeu_i32x4, storeu_i64x2, storeu_i8x16, storeu_u16x8, storeu_u32x4,
    storeu_u64x2, storeu_u8x16,
};
use super::sse41::Sse41;
use super::ssse3::Ssse3;

verus! {

/// `i8::wrapping_abs`: `|x|`, with `i8::MIN` mapped to itself.
pub open spec fn wrapping_abs_i8(x: i8) -> i8 {
    if x == i8::MIN {
        x
    } else if x < 0 {
        -x as i8
    } else {
        x
    }
}

/// `i16::wrapping_abs`: `|x|`, with `i16::MIN` mapped to itself.
pub open spec fn wrapping_abs_i16(x: i16) -> i16 {
    if x == i16::MIN {
        x
    } else if x < 0 {
        -x as i16
    } else {
        x
    }
}

/// `i32::wrapping_abs`: `|x|`, with `i32::MIN` mapped to itself.
pub open spec fn wrapping_abs_i32(x: i32) -> i32 {
    if x == i32::MIN {
        x
    } else if x < 0 {
        -x as i32
    } else {
        x
    }
}

impl Sse41 {
    /// `a * b` per lane, low 32 bits (`pmulld`).
    pub fn mul_i32x4(self, a: [i32; 4], b: [i32; 4]) -> (r: [i32; 4])
        ensures
            forall|i: int| 0 <= i < 4 ==> r[i] == a[i].wrapping_mul(b[i]),
    {
        let mut out = [0i32; 4];
        let mut i: usize = 0;
        while i < 4
            invariant
                i <= 4,
                forall|j: int| 0 <= j < i ==> out[j] == a[j].wrapping_mul(b[j]),
            decreases 4 - i,
        {
            out[i] = a[i].wrapping_mul(b[i]);
            i += 1;
        }
        out
    }

    /// `out[i] = a[i].wrapping_mul(b[i])`. 4-wide chunks, scalar remainder.
    pub fn mul_i32_slice(self, a: &[i32], b: &[i32], out: &mut [i32])
        requires
            a@.len() == b@.len(),
            old(out)@.len() == a@.len(),
        ensures
            final(out)@.len() == a@.len(),
            forall|i: int| 0 <= i < a@.len() ==> final(out)@[i] == a@[i].wrapping_mul(b@[i]),
    {
        let len = a.len();
        let mut i: usize = 0;
        while len - i >= 4
            invariant
                i <= len,
                len == a@.len(),
                len == b@.len(),
                out@.len() == len,
                forall|j: int| 0 <= j < i ==> out@[j] == a@[j].wrapping_mul(b@[j]),
            decreases len - i,
        {
            let r = self.mul_i32x4(loadu_i32x4(a, i), loadu_i32x4(b, i));
            storeu_i32x4(out, i, r);
            i += 4;
        }
        while i < len
            invariant
                i <= len,
                len == a@.len(),
                len == b@.len(),
                out@.len() == len,
                forall|j: int| 0 <= j < i ==> out@[j] == a@[j].wrapping_mul(b@[j]),
            decreases len - i,
        {
            out[i] = a[i].wrapping_mul(b[i]);
            i += 1;
        }
    }

    /// `a * b` per lane, low 32 bits (`pmulld`).
    pub fn mul_u32x4(self, a: [u32; 4], b: [u32; 4]) -> (r: [u32; 4])
        ensures
            forall|i: int| 0 <= i < 4 ==> r[i] == a[i].wrapping_mul(b[i]),
    {
        let mut out = [0u32; 4];
        let mut i: usize = 0;
        while i < 4
            invariant
                i <= 4,
                forall|j: int| 0 <= j < i ==> out[j] == a[j].wrapping_mul(b[j]),
            decreases 4 - i,
        {
            out[i] = a[i].wrapping_mul(b[i]);
            i += 1;
        }
        out
    }

    /// `out[i] = a[i].wrapping_mul(b[i])`. 4-wide chunks, scalar remainder.
    pub fn mul_u32_slice(self, a: &[u32], b: &[u32], out: &mut [u32])
        requires
            a@.len() == b@.len(),
            old(out)@.len() == a@.len(),
        ensures
            final(out)@.len() == a@.len(),
            forall|i: int| 0 <= i < a@.len() ==> final(out)@[i] == a@[i].wrapping_mul(b@[i]),
    {
        let len = a.len();
        let mut i: usize = 0;
        while len - i >= 4
            invariant
                i <= len,
                len == a@.len(),
                len == b@.len(),
                out@.len() == len,
                forall|j: int| 0 <= j < i ==> out@[j] == a@[j].wrapping_mul(b@[j]),
            decreases len - i,
        {
            let r = self.mul_u32x4(loadu_u32x4(a, i), loadu_u32x4(b, i));
            storeu_u32x4(out, i, r);
            i += 4;
        }
        while i < len
            invariant
                i <= len,
                len == a@.len(),
                len == b@.len(),
                out@.len() == len,
                forall|j: int| 0 <= j < i ==> out@[j] == a@[j].wrapping_mul(b@[j]),
            decreases len - i,
        {
            out[i] = a[i].wrapping_mul(b[i]);
            i += 1;
        }
    }

    /// Per-lane signed min (`pminsd`).
    pub fn min_i32x4(self, a: [i32; 4], b: [i32; 4]) -> (r: [i32; 4])
        ensures
            forall|i: int| 0 <= i < 4 ==> r[i] == if a[i] <= b[i] { a[i] } else { b[i] },
    {
        let mut out = [0i32; 4];
        let mut i: usize = 0;
        while i < 4
            invariant
                i <= 4,
                forall|j: int| 0 <= j < i ==> out[j] == if a[j] <= b[j] { a[j] } else { b[j] },
            decreases 4 - i,
        {
            out[i] = if a[i] <= b[i] { a[i] } else { b[i] };
            i += 1;
        }
        out
    }

    /// `out[i] = min(a[i], b[i])`. 4-wide chunks, scalar remainder.
    pub fn min_i32_slice(self, a: &[i32], b: &[i32], out: &mut [i32])
        requires
            a@.len() == b@.len(),
            old(out)@.len() == a@.len(),
        ensures
            final(out)@.len() == a@.len(),
            forall|i: int| 0 <= i < a@.len() ==> final(out)@[i] == if a@[i] <= b@[i] { a@[i] } else { b@[i] },
    {
        let len = a.len();
        let mut i: usize = 0;
        while len - i >= 4
            invariant
                i <= len,
                len == a@.len(),
                len == b@.len(),
                out@.len() == len,
                forall|j: int| 0 <= j < i ==> out@[j] == if a@[j] <= b@[j] { a@[j] } else { b@[j] },
            decreases len - i,
        {
            let r = self.min_i32x4(loadu_i32x4(a, i), loadu_i32x4(b, i));
            storeu_i32x4(out, i, r);
            i += 4;
        }
        while i < len
            invariant
                i <= len,
                len == a@.len(),
                len == b@.len(),
                out@.len() == len,
                forall|j: int| 0 <= j < i ==> out@[j] == if a@[j] <= b@[j] { a@[j] } else { b@[j] },
            decreases len - i,
        {
            out[i] = if a[i] <= b[i] { a[i] } else { b[i] };
            i += 1;
        }
    }

    /// Per-lane signed max (`pmaxsd`).
    pub fn max_i32x4(self, a: [i32; 4], b: [i32; 4]) -> (r: [i32; 4])
        ensures
            forall|i: int| 0 <= i < 4 ==> r[i] == if a[i] >= b[i] { a[i] } else { b[i] },
    {
        let mut out = [0i32; 4];
        let mut i: usize = 0;
        while i < 4
            invariant
                i <= 4,
                forall|j: int| 0 <= j < i ==> out[j] == if a[j] >= b[j] { a[j] } else { b[j] },
            decreases 4 - i,
        {
            out[i] = if a[i] >= b[i] { a[i] } else { b[i] };
            i += 1;
        }
        out
    }

    /// `out[i] = max(a[i], b[i])`. 4-wide chunks, scalar remainder.
    pub fn max_i32_slice(self, a: &[i32], b: &[i32], out: &mut [i32])
        requires
            a@.len() == b@.len(),
            old(out)@.len() == a@.len(),
        ensures
            final(out)@.len() == a@.len(),
            forall|i: int| 0 <= i < a@.len() ==> final(out)@[i] == if a@[i] >= b@[i] { a@[i] } else { b@[i] },
    {
        let len = a.len();
        let mut i: usize = 0;
        while len - i >= 4
            invariant
                i <= len,
                len == a@.len(),
                len == b@.len(),
                out@.len() == len,
                forall|j: int| 0 <= j < i ==> out@[j] == if a@[j] >= b@[j] { a@[j] } else { b@[j] },
            decreases len - i,
        {
            let r = self.max_i32x4(loadu_i32x4(a, i), loadu_i32x4(b, i));
            storeu_i32x4(out, i, r);
            i += 4;
        }
        while i < len
            invariant
                i <= len,
                len == a@.len(),
                len == b@.len(),
                out@.len() == len,
                forall|j: int| 0 <= j < i ==> out@[j] == if a@[j] >= b@[j] { a@[j] } else { b@[j] },
            decreases len - i,
        {
            out[i] = if a[i] >= b[i] { a[i] } else { b[i] };
            i += 1;
        }
    }

    /// Per-lane unsigned min (`pminud`).
    pub fn min_u32x4(self, a: [u32; 4], b: [u32; 4]) -> (r: [u32; 4])
        ensures
            forall|i: int| 0 <= i < 4 ==> r[i] == if a[i] <= b[i] { a[i] } else { b[i] },
    {
        let mut out = [0u32; 4];
        let mut i: usize = 0;
        while i < 4
            invariant
                i <= 4,
                forall|j: int| 0 <= j < i ==> out[j] == if a[j] <= b[j] { a[j] } else { b[j] },
            decreases 4 - i,
        {
            out[i] = if a[i] <= b[i] { a[i] } else { b[i] };
            i += 1;
        }
        out
    }

    /// `out[i] = min(a[i], b[i])`. 4-wide chunks, scalar remainder.
    pub fn min_u32_slice(self, a: &[u32], b: &[u32], out: &mut [u32])
        requires
            a@.len() == b@.len(),
            old(out)@.len() == a@.len(),
        ensures
            final(out)@.len() == a@.len(),
            forall|i: int| 0 <= i < a@.len() ==> final(out)@[i] == if a@[i] <= b@[i] { a@[i] } else { b@[i] },
    {
        let len = a.len();
        let mut i: usize = 0;
        while len - i >= 4
            invariant
                i <= len,
                len == a@.len(),
                len == b@.len(),
                out@.len() == len,
                forall|j: int| 0 <= j < i ==> out@[j] == if a@[j] <= b@[j] { a@[j] } else { b@[j] },
            decreases len - i,
        {
            let r = self.min_u32x4(loadu_u32x4(a, i), loadu_u32x4(b, i));
            storeu_u32x4(out, i, r);
            i += 4;
        }
        while i < len
            invariant
                i <= len,
                len == a@.len(),
                len == b@.len(),
                out@.len() == len,
                forall|j: int| 0 <= j < i ==> out@[j] == if a@[j] <= b@[j] { a@[j] } else { b@[j] },
            decreases len - i,
        {
            out[i] = if a[i] <= b[i] { a[i] } else { b[i] };
            i += 1;
        }
    }

    /// Per-lane unsigned max (`pmaxud`).
    pub fn max_u32x4(self, a: [u32; 4], b: [u32; 4]) -> (r: [u32; 4])
        ensures
            forall|i: int| 0 <= i < 4 ==> r[i] == if a[i] >= b[i] { a[i] } else { b[i] },
    {
        let mut out = [0u32; 4];
        let mut i: usize = 0;
        while i < 4
            invariant
                i <= 4,
                forall|j: int| 0 <= j < i ==> out[j] == if a[j] >= b[j] { a[j] } else { b[j] },
            decreases 4 - i,
        {
            out[i] = if a[i] >= b[i] { a[i] } else { b[i] };
            i += 1;
        }
        out
    }

    /// `out[i] = max(a[i], b[i])`. 4-wide chunks, scalar remainder.
    pub fn max_u32_slice(self, a: &[u32], b: &[u32], out: &mut [u32])
        requires
            a@.len() == b@.len(),
            old(out)@.len() == a@.len(),
        ensures
            final(out)@.len() == a@.len(),
            forall|i: int| 0 <= i < a@.len() ==> final(out)@[i] == if a@[i] >= b@[i] { a@[i] } else { b@[i] },
    {
        let len = a.len();
        let mut i: usize = 0;
        while len - i >= 4
            invariant
                i <= len,
                len == a@.len(),
                len == b@.len(),
                out@.len() == len,
                forall|j: int| 0 <= j < i ==> out@[j] == if a@[j] >= b@[j] { a@[j] } else { b@[j] },
            decreases len - i,
        {
            let r = self.max_u32x4(loadu_u32x4(a, i), loadu_u32x4(b, i));
            storeu_u32x4(out, i, r);
            i += 4;
        }
        while i < len
            invariant
                i <= len,
                len == a@.len(),
                len == b@.len(),
                out@.len() == len,
                forall|j: int| 0 <= j < i ==> out@[j] == if a@[j] >= b@[j] { a@[j] } else { b@[j] },
            decreases len - i,
        {
            out[i] = if a[i] >= b[i] { a[i] } else { b[i] };
            i += 1;
        }
    }

    /// Per-lane signed min (`pminsb`).
    pub fn min_i8x16(self, a: [i8; 16], b: [i8; 16]) -> (r: [i8; 16])
        ensures
            forall|i: int| 0 <= i < 16 ==> r[i] == if a[i] <= b[i] { a[i] } else { b[i] },
    {
        let mut out = [0i8; 16];
        let mut i: usize = 0;
        while i < 16
            invariant
                i <= 16,
                forall|j: int| 0 <= j < i ==> out[j] == if a[j] <= b[j] { a[j] } else { b[j] },
            decreases 16 - i,
        {
            out[i] = if a[i] <= b[i] { a[i] } else { b[i] };
            i += 1;
        }
        out
    }

    /// `out[i] = min(a[i], b[i])`. 16-wide chunks, scalar remainder.
    pub fn min_i8_slice(self, a: &[i8], b: &[i8], out: &mut [i8])
        requires
            a@.len() == b@.len(),
            old(out)@.len() == a@.len(),
        ensures
            final(out)@.len() == a@.len(),
            forall|i: int| 0 <= i < a@.len() ==> final(out)@[i] == if a@[i] <= b@[i] { a@[i] } else { b@[i] },
    {
        let len = a.len();
        let mut i: usize = 0;
        while len - i >= 16
            invariant
                i <= len,
                len == a@.len(),
                len == b@.len(),
                out@.len() == len,
                forall|j: int| 0 <= j < i ==> out@[j] == if a@[j] <= b@[j] { a@[j] } else { b@[j] },
            decreases len - i,
        {
            let r = self.min_i8x16(loadu_i8x16(a, i), loadu_i8x16(b, i));
            storeu_i8x16(out, i, r);
            i += 16;
        }
        while i < len
            invariant
                i <= len,
                len == a@.len(),
                len == b@.len(),
                out@.len() == len,
                forall|j: int| 0 <= j < i ==> out@[j] == if a@[j] <= b@[j] { a@[j] } else { b@[j] },
            decreases len - i,
        {
            out[i] = if a[i] <= b[i] { a[i] } else { b[i] };
            i += 1;
        }
    }

    /// Per-lane signed max (`pmaxsb`).
    pub fn max_i8x16(self, a: [i8; 16], b: [i8; 16]) -> (r: [i8; 16])
        ensures
            forall|i: int| 0 <= i < 16 ==> r[i] == if a[i] >= b[i] { a[i] } else { b[i] },
    {
        let mut out = [0i8; 16];
        let mut i: usize = 0;
        while i < 16
            invariant
                i <= 16,
                forall|j: int| 0 <= j < i ==> out[j] == if a[j] >= b[j] { a[j] } else { b[j] },
            decreases 16 - i,
        {
            out[i] = if a[i] >= b[i] { a[i] } else { b[i] };
            i += 1;
        }
        out
    }

    /// `out[i] = max(a[i], b[i])`. 16-wide chunks, scalar remainder.
    pub fn max_i8_slice(self, a: &[i8], b: &[i8], out: &mut [i8])
        requires
            a@.len() == b@.len(),
            old(out)@.len() == a@.len(),
        ensures
            final(out)@.len() == a@.len(),
            forall|i: int| 0 <= i < a@.len() ==> final(out)@[i] == if a@[i] >= b@[i] { a@[i] } else { b@[i] },
    {
        let len = a.len();
        let mut i: usize = 0;
        while len - i >= 16
            invariant
                i <= len,
                len == a@.len(),
                len == b@.len(),
                out@.len() == len,
                forall|j: int| 0 <= j < i ==> out@[j] == if a@[j] >= b@[j] { a@[j] } else { b@[j] },
            decreases len - i,
        {
            let r = self.max_i8x16(loadu_i8x16(a, i), loadu_i8x16(b, i));
            storeu_i8x16(out, i, r);
            i += 16;
        }
        while i < len
            invariant
                i <= len,
                len == a@.len(),
                len == b@.len(),
                out@.len() == len,
                forall|j: int| 0 <= j < i ==> out@[j] == if a@[j] >= b@[j] { a@[j] } else { b@[j] },
            decreases len - i,
        {
            out[i] = if a[i] >= b[i] { a[i] } else { b[i] };
            i += 1;
        }
    }

    /// Per-lane unsigned min (`pminuw`).
    pub fn min_u16x8(self, a: [u16; 8], b: [u16; 8]) -> (r: [u16; 8])
        ensures
            forall|i: int| 0 <= i < 8 ==> r[i] == if a[i] <= b[i] { a[i] } else { b[i] },
    {
        let mut out = [0u16; 8];
        let mut i: usize = 0;
        while i < 8
            invariant
                i <= 8,
                forall|j: int| 0 <= j < i ==> out[j] == if a[j] <= b[j] { a[j] } else { b[j] },
            decreases 8 - i,
        {
            out[i] = if a[i] <= b[i] { a[i] } else { b[i] };
            i += 1;
        }
        out
    }

    /// `out[i] = min(a[i], b[i])`. 8-wide chunks, scalar remainder.
    pub fn min_u16_slice(self, a: &[u16], b: &[u16], out: &mut [u16])
        requires
            a@.len() == b@.len(),
            old(out)@.len() == a@.len(),
        ensures
            final(out)@.len() == a@.len(),
            forall|i: int| 0 <= i < a@.len() ==> final(out)@[i] == if a@[i] <= b@[i] { a@[i] } else { b@[i] },
    {
        let len = a.len();
        let mut i: usize = 0;
        while len - i >= 8
            invariant
                i <= len,
                len == a@.len(),
                len == b@.len(),
                out@.len() == len,
                forall|j: int| 0 <= j < i ==> out@[j] == if a@[j] <= b@[j] { a@[j] } else { b@[j] },
            decreases len - i,
        {
            let r = self.min_u16x8(loadu_u16x8(a, i), loadu_u16x8(b, i));
            storeu_u16x8(out, i, r);
            i += 8;
        }
        while i < len
            invariant
                i <= len,
                len == a@.len(),
                len == b@.len(),
                out@.len() == len,
                forall|j: int| 0 <= j < i ==> out@[j] == if a@[j] <= b@[j] { a@[j] } else { b@[j] },
            decreases len - i,
        {
            out[i] = if a[i] <= b[i] { a[i] } else { b[i] };
            i += 1;
        }
    }

    /// Per-lane unsigned max (`pmaxuw`).
    pub fn max_u16x8(self, a: [u16; 8], b: [u16; 8]) -> (r: [u16; 8])
        ensures
            forall|i: int| 0 <= i < 8 ==> r[i] == if a[i] >= b[i] { a[i] } else { b[i] },
    {
        let mut out = [0u16; 8];
        let mut i: usize = 0;
        while i < 8
            invariant
                i <= 8,
                forall|j: int| 0 <= j < i ==> out[j] == if a[j] >= b[j] { a[j] } else { b[j] },
            decreases 8 - i,
        {
            out[i] = if a[i] >= b[i] { a[i] } else { b[i] };
            i += 1;
        }
        out
    }

    /// `out[i] = max(a[i], b[i])`. 8-wide chunks, scalar remainder.
    pub fn max_u16_slice(self, a: &[u16], b: &[u16], out: &mut [u16])
        requires
            a@.len() == b@.len(),
            old(out)@.len() == a@.len(),
        ensures
            final(out)@.len() == a@.len(),
            forall|i: int| 0 <= i < a@.len() ==> final(out)@[i] == if a@[i] >= b@[i] { a@[i] } else { b@[i] },
    {
        let len = a.len();
        let mut i: usize = 0;
        while len - i >= 8
            invariant
                i <= len,
                len == a@.len(),
                len == b@.len(),
                out@.len() == len,
                forall|j: int| 0 <= j < i ==> out@[j] == if a@[j] >= b@[j] { a@[j] } else { b@[j] },
            decreases len - i,
        {
            let r = self.max_u16x8(loadu_u16x8(a, i), loadu_u16x8(b, i));
            storeu_u16x8(out, i, r);
            i += 8;
        }
        while i < len
            invariant
                i <= len,
                len == a@.len(),
                len == b@.len(),
                out@.len() == len,
                forall|j: int| 0 <= j < i ==> out@[j] == if a@[j] >= b@[j] { a@[j] } else { b@[j] },
            decreases len - i,
        {
            out[i] = if a[i] >= b[i] { a[i] } else { b[i] };
            i += 1;
        }
    }

    /// Per-lane select (`pblendvb`): `mask` lanes are all-0 or all-1; picks `b` where set.
    pub fn select_i8x16(self, a: [i8; 16], b: [i8; 16], mask: [i8; 16]) -> (r: [i8; 16])
        requires
            forall|i: int| 0 <= i < 16 ==> mask[i] == 0 || mask[i] == -1,
        ensures
            forall|i: int| 0 <= i < 16 ==> r[i] == if mask[i] != 0 { b[i] } else { a[i] },
    {
        let mut out = [0i8; 16];
        let mut i: usize = 0;
        while i < 16
            invariant
                i <= 16,
                forall|j: int| 0 <= j < i ==> out[j] == if mask[j] != 0 { b[j] } else { a[j] },
            decreases 16 - i,
        {
            out[i] = if mask[i] != 0 { b[i] } else { a[i] };
            i += 1;
        }
        out
    }

    /// `out[i] = if mask[i] != 0 { b[i] } else { a[i] }`, `mask` lanes all-0 or all-1. 16-wide
    /// chunks, scalar remainder.
    pub fn select_i8_slice(self, a: &[i8], b: &[i8], mask: &[i8], out: &mut [i8])
        requires
            a@.len() == b@.len(),
            a@.len() == mask@.len(),
            old(out)@.len() == a@.len(),
            forall|i: int| 0 <= i < mask@.len() ==> mask@[i] == 0 || mask@[i] == -1,
        ensures
            final(out)@.len() == a@.len(),
            forall|i: int| 0 <= i < a@.len() ==> final(out)@[i] == if mask@[i] != 0 { b@[i] } else { a@[i] },
    {
        let len = a.len();
        let mut i: usize = 0;
        while len - i >= 16
            invariant
                i <= len,
                len == a@.len(),
                len == b@.len(),
                len == mask@.len(),
                out@.len() == len,
                forall|k: int| 0 <= k < len ==> mask@[k] == 0 || mask@[k] == -1,
                forall|j: int| 0 <= j < i ==> out@[j] == if mask@[j] != 0 { b@[j] } else { a@[j] },
            decreases len - i,
        {
            let r = self.select_i8x16(loadu_i8x16(a, i), loadu_i8x16(b, i), loadu_i8x16(mask, i));
            storeu_i8x16(out, i, r);
            i += 16;
        }
        while i < len
            invariant
                i <= len,
                len == a@.len(),
                len == b@.len(),
                len == mask@.len(),
                out@.len() == len,
                forall|k: int| 0 <= k < len ==> mask@[k] == 0 || mask@[k] == -1,
                forall|j: int| 0 <= j < i ==> out@[j] == if mask@[j] != 0 { b@[j] } else { a@[j] },
            decreases len - i,
        {
            out[i] = if mask[i] != 0 { b[i] } else { a[i] };
            i += 1;
        }
    }

    /// Per-lane select (`pblendvb`): `mask` lanes are all-0 or all-1; picks `b` where set.
    pub fn select_u8x16(self, a: [u8; 16], b: [u8; 16], mask: [u8; 16]) -> (r: [u8; 16])
        requires
            forall|i: int| 0 <= i < 16 ==> mask[i] == 0 || mask[i] == u8::MAX,
        ensures
            forall|i: int| 0 <= i < 16 ==> r[i] == if mask[i] != 0 { b[i] } else { a[i] },
    {
        let mut out = [0u8; 16];
        let mut i: usize = 0;
        while i < 16
            invariant
                i <= 16,
                forall|j: int| 0 <= j < i ==> out[j] == if mask[j] != 0 { b[j] } else { a[j] },
            decreases 16 - i,
        {
            out[i] = if mask[i] != 0 { b[i] } else { a[i] };
            i += 1;
        }
        out
    }

    /// `out[i] = if mask[i] != 0 { b[i] } else { a[i] }`, `mask` lanes all-0 or all-1. 16-wide
    /// chunks, scalar remainder.
    pub fn select_u8_slice(self, a: &[u8], b: &[u8], mask: &[u8], out: &mut [u8])
        requires
            a@.len() == b@.len(),
            a@.len() == mask@.len(),
            old(out)@.len() == a@.len(),
            forall|i: int| 0 <= i < mask@.len() ==> mask@[i] == 0 || mask@[i] == u8::MAX,
        ensures
            final(out)@.len() == a@.len(),
            forall|i: int| 0 <= i < a@.len() ==> final(out)@[i] == if mask@[i] != 0 { b@[i] } else { a@[i] },
    {
        let len = a.len();
        let mut i: usize = 0;
        while len - i >= 16
            invariant
                i <= len,
                len == a@.len(),
                len == b@.len(),
                len == mask@.len(),
                out@.len() == len,
                forall|k: int| 0 <= k < len ==> mask@[k] == 0 || mask@[k] == u8::MAX,
                forall|j: int| 0 <= j < i ==> out@[j] == if mask@[j] != 0 { b@[j] } else { a@[j] },
            decreases len - i,
        {
            let r = self.select_u8x16(loadu_u8x16(a, i), loadu_u8x16(b, i), loadu_u8x16(mask, i));
            storeu_u8x16(out, i, r);
            i += 16;
        }
        while i < len
            invariant
                i <= len,
                len == a@.len(),
                len == b@.len(),
                len == mask@.len(),
                out@.len() == len,
                forall|k: int| 0 <= k < len ==> mask@[k] == 0 || mask@[k] == u8::MAX,
                forall|j: int| 0 <= j < i ==> out@[j] == if mask@[j] != 0 { b@[j] } else { a@[j] },
            decreases len - i,
        {
            out[i] = if mask[i] != 0 { b[i] } else { a[i] };
            i += 1;
        }
    }

    /// Per-lane select (`pblendvb`): `mask` lanes are all-0 or all-1; picks `b` where set.
    pub fn select_i16x8(self, a: [i16; 8], b: [i16; 8], mask: [i16; 8]) -> (r: [i16; 8])
        requires
            forall|i: int| 0 <= i < 8 ==> mask[i] == 0 || mask[i] == -1,
        ensures
            forall|i: int| 0 <= i < 8 ==> r[i] == if mask[i] != 0 { b[i] } else { a[i] },
    {
        let mut out = [0i16; 8];
        let mut i: usize = 0;
        while i < 8
            invariant
                i <= 8,
                forall|j: int| 0 <= j < i ==> out[j] == if mask[j] != 0 { b[j] } else { a[j] },
            decreases 8 - i,
        {
            out[i] = if mask[i] != 0 { b[i] } else { a[i] };
            i += 1;
        }
        out
    }

    /// `out[i] = if mask[i] != 0 { b[i] } else { a[i] }`, `mask` lanes all-0 or all-1. 8-wide
    /// chunks, scalar remainder.
    pub fn select_i16_slice(self, a: &[i16], b: &[i16], mask: &[i16], out: &mut [i16])
        requires
            a@.len() == b@.len(),
            a@.len() == mask@.len(),
            old(out)@.len() == a@.len(),
            forall|i: int| 0 <= i < mask@.len() ==> mask@[i] == 0 || mask@[i] == -1,
        ensures
            final(out)@.len() == a@.len(),
            forall|i: int| 0 <= i < a@.len() ==> final(out)@[i] == if mask@[i] != 0 { b@[i] } else { a@[i] },
    {
        let len = a.len();
        let mut i: usize = 0;
        while len - i >= 8
            invariant
                i <= len,
                len == a@.len(),
                len == b@.len(),
                len == mask@.len(),
                out@.len() == len,
                forall|k: int| 0 <= k < len ==> mask@[k] == 0 || mask@[k] == -1,
                forall|j: int| 0 <= j < i ==> out@[j] == if mask@[j] != 0 { b@[j] } else { a@[j] },
            decreases len - i,
        {
            let r = self.select_i16x8(loadu_i16x8(a, i), loadu_i16x8(b, i), loadu_i16x8(mask, i));
            storeu_i16x8(out, i, r);
            i += 8;
        }
        while i < len
            invariant
                i <= len,
                len == a@.len(),
                len == b@.len(),
                len == mask@.len(),
                out@.len() == len,
                forall|k: int| 0 <= k < len ==> mask@[k] == 0 || mask@[k] == -1,
                forall|j: int| 0 <= j < i ==> out@[j] == if mask@[j] != 0 { b@[j] } else { a@[j] },
            decreases len - i,
        {
            out[i] = if mask[i] != 0 { b[i] } else { a[i] };
            i += 1;
        }
    }

    /// Per-lane select (`pblendvb`): `mask` lanes are all-0 or all-1; picks `b` where set.
    pub fn select_u16x8(self, a: [u16; 8], b: [u16; 8], mask: [u16; 8]) -> (r: [u16; 8])
        requires
            forall|i: int| 0 <= i < 8 ==> mask[i] == 0 || mask[i] == u16::MAX,
        ensures
            forall|i: int| 0 <= i < 8 ==> r[i] == if mask[i] != 0 { b[i] } else { a[i] },
    {
        let mut out = [0u16; 8];
        let mut i: usize = 0;
        while i < 8
            invariant
                i <= 8,
                forall|j: int| 0 <= j < i ==> out[j] == if mask[j] != 0 { b[j] } else { a[j] },
            decreases 8 - i,
        {
            out[i] = if mask[i] != 0 { b[i] } else { a[i] };
            i += 1;
        }
        out
    }

    /// `out[i] = if mask[i] != 0 { b[i] } else { a[i] }`, `mask` lanes all-0 or all-1. 8-wide
    /// chunks, scalar remainder.
    pub fn select_u16_slice(self, a: &[u16], b: &[u16], mask: &[u16], out: &mut [u16])
        requires
            a@.len() == b@.len(),
            a@.len() == mask@.len(),
            old(out)@.len() == a@.len(),
            forall|i: int| 0 <= i < mask@.len() ==> mask@[i] == 0 || mask@[i] == u16::MAX,
        ensures
            final(out)@.len() == a@.len(),
            forall|i: int| 0 <= i < a@.len() ==> final(out)@[i] == if mask@[i] != 0 { b@[i] } else { a@[i] },
    {
        let len = a.len();
        let mut i: usize = 0;
        while len - i >= 8
            invariant
                i <= len,
                len == a@.len(),
                len == b@.len(),
                len == mask@.len(),
                out@.len() == len,
                forall|k: int| 0 <= k < len ==> mask@[k] == 0 || mask@[k] == u16::MAX,
                forall|j: int| 0 <= j < i ==> out@[j] == if mask@[j] != 0 { b@[j] } else { a@[j] },
            decreases len - i,
        {
            let r = self.select_u16x8(loadu_u16x8(a, i), loadu_u16x8(b, i), loadu_u16x8(mask, i));
            storeu_u16x8(out, i, r);
            i += 8;
        }
        while i < len
            invariant
                i <= len,
                len == a@.len(),
                len == b@.len(),
                len == mask@.len(),
                out@.len() == len,
                forall|k: int| 0 <= k < len ==> mask@[k] == 0 || mask@[k] == u16::MAX,
                forall|j: int| 0 <= j < i ==> out@[j] == if mask@[j] != 0 { b@[j] } else { a@[j] },
            decreases len - i,
        {
            out[i] = if mask[i] != 0 { b[i] } else { a[i] };
            i += 1;
        }
    }

    /// Per-lane select (`pblendvb`): `mask` lanes are all-0 or all-1; picks `b` where set.
    pub fn select_i32x4(self, a: [i32; 4], b: [i32; 4], mask: [i32; 4]) -> (r: [i32; 4])
        requires
            forall|i: int| 0 <= i < 4 ==> mask[i] == 0 || mask[i] == -1,
        ensures
            forall|i: int| 0 <= i < 4 ==> r[i] == if mask[i] != 0 { b[i] } else { a[i] },
    {
        let mut out = [0i32; 4];
        let mut i: usize = 0;
        while i < 4
            invariant
                i <= 4,
                forall|j: int| 0 <= j < i ==> out[j] == if mask[j] != 0 { b[j] } else { a[j] },
            decreases 4 - i,
        {
            out[i] = if mask[i] != 0 { b[i] } else { a[i] };
            i += 1;
        }
        out
    }

    /// `out[i] = if mask[i] != 0 { b[i] } else { a[i] }`, `mask` lanes all-0 or all-1. 4-wide
    /// chunks, scalar remainder.
    pub fn select_i32_slice(self, a: &[i32], b: &[i32], mask: &[i32], out: &mut [i32])
        requires
            a@.len() == b@.len(),
            a@.len() == mask@.len(),
            old(out)@.len() == a@.len(),
            forall|i: int| 0 <= i < mask@.len() ==> mask@[i] == 0 || mask@[i] == -1,
        ensures
            final(out)@.len() == a@.len(),
            forall|i: int| 0 <= i < a@.len() ==> final(out)@[i] == if mask@[i] != 0 { b@[i] } else { a@[i] },
    {
        let len = a.len();
        let mut i: usize = 0;
        while len - i >= 4
            invariant
                i <= len,
                len == a@.len(),
                len == b@.len(),
                len == mask@.len(),
                out@.len() == len,
                forall|k: int| 0 <= k < len ==> mask@[k] == 0 || mask@[k] == -1,
                forall|j: int| 0 <= j < i ==> out@[j] == if mask@[j] != 0 { b@[j] } else { a@[j] },
            decreases len - i,
        {
            let r = self.select_i32x4(loadu_i32x4(a, i), loadu_i32x4(b, i), loadu_i32x4(mask, i));
            storeu_i32x4(out, i, r);
            i += 4;
        }
        while i < len
            invariant
                i <= len,
                len == a@.len(),
                len == b@.len(),
                len == mask@.len(),
                out@.len() == len,
                forall|k: int| 0 <= k < len ==> mask@[k] == 0 || mask@[k] == -1,
                forall|j: int| 0 <= j < i ==> out@[j] == if mask@[j] != 0 { b@[j] } else { a@[j] },
            decreases len - i,
        {
            out[i] = if mask[i] != 0 { b[i] } else { a[i] };
            i += 1;
        }
    }

    /// Per-lane select (`pblendvb`): `mask` lanes are all-0 or all-1; picks `b` where set.
    pub fn select_u32x4(self, a: [u32; 4], b: [u32; 4], mask: [u32; 4]) -> (r: [u32; 4])
        requires
            forall|i: int| 0 <= i < 4 ==> mask[i] == 0 || mask[i] == u32::MAX,
        ensures
            forall|i: int| 0 <= i < 4 ==> r[i] == if mask[i] != 0 { b[i] } else { a[i] },
    {
        let mut out = [0u32; 4];
        let mut i: usize = 0;
        while i < 4
            invariant
                i <= 4,
                forall|j: int| 0 <= j < i ==> out[j] == if mask[j] != 0 { b[j] } else { a[j] },
            decreases 4 - i,
        {
            out[i] = if mask[i] != 0 { b[i] } else { a[i] };
            i += 1;
        }
        out
    }

    /// `out[i] = if mask[i] != 0 { b[i] } else { a[i] }`, `mask` lanes all-0 or all-1. 4-wide
    /// chunks, scalar remainder.
    pub fn select_u32_slice(self, a: &[u32], b: &[u32], mask: &[u32], out: &mut [u32])
        requires
            a@.len() == b@.len(),
            a@.len() == mask@.len(),
            old(out)@.len() == a@.len(),
            forall|i: int| 0 <= i < mask@.len() ==> mask@[i] == 0 || mask@[i] == u32::MAX,
        ensures
            final(out)@.len() == a@.len(),
            forall|i: int| 0 <= i < a@.len() ==> final(out)@[i] == if mask@[i] != 0 { b@[i] } else { a@[i] },
    {
        let len = a.len();
        let mut i: usize = 0;
        while len - i >= 4
            invariant
                i <= len,
                len == a@.len(),
                len == b@.len(),
                len == mask@.len(),
                out@.len() == len,
                forall|k: int| 0 <= k < len ==> mask@[k] == 0 || mask@[k] == u32::MAX,
                forall|j: int| 0 <= j < i ==> out@[j] == if mask@[j] != 0 { b@[j] } else { a@[j] },
            decreases len - i,
        {
            let r = self.select_u32x4(loadu_u32x4(a, i), loadu_u32x4(b, i), loadu_u32x4(mask, i));
            storeu_u32x4(out, i, r);
            i += 4;
        }
        while i < len
            invariant
                i <= len,
                len == a@.len(),
                len == b@.len(),
                len == mask@.len(),
                out@.len() == len,
                forall|k: int| 0 <= k < len ==> mask@[k] == 0 || mask@[k] == u32::MAX,
                forall|j: int| 0 <= j < i ==> out@[j] == if mask@[j] != 0 { b@[j] } else { a@[j] },
            decreases len - i,
        {
            out[i] = if mask[i] != 0 { b[i] } else { a[i] };
            i += 1;
        }
    }

    /// Per-lane select (`pblendvb`): `mask` lanes are all-0 or all-1; picks `b` where set.
    pub fn select_i64x2(self, a: [i64; 2], b: [i64; 2], mask: [i64; 2]) -> (r: [i64; 2])
        requires
            forall|i: int| 0 <= i < 2 ==> mask[i] == 0 || mask[i] == -1,
        ensures
            forall|i: int| 0 <= i < 2 ==> r[i] == if mask[i] != 0 { b[i] } else { a[i] },
    {
        let mut out = [0i64; 2];
        let mut i: usize = 0;
        while i < 2
            invariant
                i <= 2,
                forall|j: int| 0 <= j < i ==> out[j] == if mask[j] != 0 { b[j] } else { a[j] },
            decreases 2 - i,
        {
            out[i] = if mask[i] != 0 { b[i] } else { a[i] };
            i += 1;
        }
        out
    }

    /// `out[i] = if mask[i] != 0 { b[i] } else { a[i] }`, `mask` lanes all-0 or all-1. 2-wide
    /// chunks, scalar remainder.
    pub fn select_i64_slice(self, a: &[i64], b: &[i64], mask: &[i64], out: &mut [i64])
        requires
            a@.len() == b@.len(),
            a@.len() == mask@.len(),
            old(out)@.len() == a@.len(),
            forall|i: int| 0 <= i < mask@.len() ==> mask@[i] == 0 || mask@[i] == -1,
        ensures
            final(out)@.len() == a@.len(),
            forall|i: int| 0 <= i < a@.len() ==> final(out)@[i] == if mask@[i] != 0 { b@[i] } else { a@[i] },
    {
        let len = a.len();
        let mut i: usize = 0;
        while len - i >= 2
            invariant
                i <= len,
                len == a@.len(),
                len == b@.len(),
                len == mask@.len(),
                out@.len() == len,
                forall|k: int| 0 <= k < len ==> mask@[k] == 0 || mask@[k] == -1,
                forall|j: int| 0 <= j < i ==> out@[j] == if mask@[j] != 0 { b@[j] } else { a@[j] },
            decreases len - i,
        {
            let r = self.select_i64x2(loadu_i64x2(a, i), loadu_i64x2(b, i), loadu_i64x2(mask, i));
            storeu_i64x2(out, i, r);
            i += 2;
        }
        while i < len
            invariant
                i <= len,
                len == a@.len(),
                len == b@.len(),
                len == mask@.len(),
                out@.len() == len,
                forall|k: int| 0 <= k < len ==> mask@[k] == 0 || mask@[k] == -1,
                forall|j: int| 0 <= j < i ==> out@[j] == if mask@[j] != 0 { b@[j] } else { a@[j] },
            decreases len - i,
        {
            out[i] = if mask[i] != 0 { b[i] } else { a[i] };
            i += 1;
        }
    }

    /// Per-lane select (`pblendvb`): `mask` lanes are all-0 or all-1; picks `b` where set.
    pub fn select_u64x2(self, a: [u64; 2], b: [u64; 2], mask: [u64; 2]) -> (r: [u64; 2])
        requires
            forall|i: int| 0 <= i < 2 ==> mask[i] == 0 || mask[i] == u64::MAX,
        ensures
            forall|i: int| 0 <= i < 2 ==> r[i] == if mask[i] != 0 { b[i] } else { a[i] },
    {
        let mut out = [0u64; 2];
        let mut i: usize = 0;
        while i < 2
            invariant
                i <= 2,
                forall|j: int| 0 <= j < i ==> out[j] == if mask[j] != 0 { b[j] } else { a[j] },
            decreases 2 - i,
        {
            out[i] = if mask[i] != 0 { b[i] } else { a[i] };
            i += 1;
        }
        out
    }

    /// `out[i] = if mask[i] != 0 { b[i] } else { a[i] }`, `mask` lanes all-0 or all-1. 2-wide
    /// chunks, scalar remainder.
    pub fn select_u64_slice(self, a: &[u64], b: &[u64], mask: &[u64], out: &mut [u64])
        requires
            a@.len() == b@.len(),
            a@.len() == mask@.len(),
            old(out)@.len() == a@.len(),
            forall|i: int| 0 <= i < mask@.len() ==> mask@[i] == 0 || mask@[i] == u64::MAX,
        ensures
            final(out)@.len() == a@.len(),
            forall|i: int| 0 <= i < a@.len() ==> final(out)@[i] == if mask@[i] != 0 { b@[i] } else { a@[i] },
    {
        let len = a.len();
        let mut i: usize = 0;
        while len - i >= 2
            invariant
                i <= len,
                len == a@.len(),
                len == b@.len(),
                len == mask@.len(),
                out@.len() == len,
                forall|k: int| 0 <= k < len ==> mask@[k] == 0 || mask@[k] == u64::MAX,
                forall|j: int| 0 <= j < i ==> out@[j] == if mask@[j] != 0 { b@[j] } else { a@[j] },
            decreases len - i,
        {
            let r = self.select_u64x2(loadu_u64x2(a, i), loadu_u64x2(b, i), loadu_u64x2(mask, i));
            storeu_u64x2(out, i, r);
            i += 2;
        }
        while i < len
            invariant
                i <= len,
                len == a@.len(),
                len == b@.len(),
                len == mask@.len(),
                out@.len() == len,
                forall|k: int| 0 <= k < len ==> mask@[k] == 0 || mask@[k] == u64::MAX,
                forall|j: int| 0 <= j < i ==> out@[j] == if mask@[j] != 0 { b@[j] } else { a@[j] },
            decreases len - i,
        {
            out[i] = if mask[i] != 0 { b[i] } else { a[i] };
            i += 1;
        }
    }

    /// Per-lane select by the compile-time bitmask `IMM8`: lane `i` from `b` if bit `i` is set,
    /// else from `a` (`pblendw`).
    pub fn blend_i16x8<const IMM8: u32>(self, a: [i16; 8], b: [i16; 8]) -> (r: [i16; 8])
        ensures
            forall|i: int| 0 <= i < 8 ==> r[i] == if (IMM8 >> i as u32) % 2 == 1 { b[i] } else { a[i] },
    {
        let mut out = [0i16; 8];
        let mut i: usize = 0;
        while i < 8
            invariant
                i <= 8,
                forall|j: int| 0 <= j < i ==> out[j] == if (IMM8 >> j as u32) % 2 == 1 { b[j] } else { a[j] },
            decreases 8 - i,
        {
            out[i] = if (IMM8 >> i as u32) % 2 == 1 { b[i] } else { a[i] };
            i += 1;
        }
        out
    }
}

impl Ssse3 {
    /// Per-lane absolute value (`pabsb`); `i8::MIN` stays `i8::MIN`.
    pub fn abs_i8x16(self, a: [i8; 16]) -> (r: [i8; 16])
        ensures
            forall|i: int| 0 <= i < 16 ==> r[i] == wrapping_abs_i8(a[i]),
    {
        let mut out = [0i8; 16];
        let mut i: usize = 0;
        while i < 16
            invariant
                i <= 16,
                forall|j: int| 0 <= j < i ==> out[j] == wrapping_abs_i8(a[j]),
            decreases 16 - i,
        {
            out[i] = if a[i] == i8::MIN { a[i] } else if a[i] < 0 { -a[i] } else { a[i] };
            i += 1;
        }
        out
    }

    /// `out[i] = a[i].wrapping_abs()`. 16-wide chunks, scalar remainder.
    pub fn abs_i8_slice(self, a: &[i8], out: &mut [i8])
        requires
            old(out)@.len() == a@.len(),
        ensures
            final(out)@.len() == a@.len(),
            forall|i: int| 0 <= i < a@.len() ==> final(out)@[i] == wrapping_abs_i8(a@[i]),
    {
        let len = a.len();
        let mut i: usize = 0;
        while len - i >= 16
            invariant
                i <= len,
                len == a@.len(),
                out@.len() == len,
                forall|j: int| 0 <= j < i ==> out@[j] == wrapping_abs_i8(a@[j]),
            decreases len - i,
        {
            let r = self.abs_i8x16(loadu_i8x16(a, i));
            storeu_i8x16(out, i, r);
            i += 16;
        }
        while i < len
            invariant
                i <= len,
                len == a@.len(),
                out@.len() == len,
                forall|j: int| 0 <= j < i ==> out@[j] == wrapping_abs_i8(a@[j]),
            decreases len - i,
        {
            out[i] = if a[i] == i8::MIN { a[i] } else if a[i] < 0 { -a[i] } else { a[i] };
            i += 1;
        }
    }

    /// Per-lane absolute value (`pabsw`); `i16::MIN` stays `i16::MIN`.
    pub fn abs_i16x8(self, a: [i16; 8]) -> (r: [i16; 8])
        ensures
            forall|i: int| 0 <= i < 8 ==> r[i] == wrapping_abs_i16(a[i]),
    {
        let mut out = [0i16; 8];
        let mut i: usize = 0;
        while i < 8
            invariant
                i <= 8,
                forall|j: int| 0 <= j < i ==> out[j] == wrapping_abs_i16(a[j]),
            decreases 8 - i,
        {
            out[i] = if a[i] == i16::MIN { a[i] } else if a[i] < 0 { -a[i] } else { a[i] };
            i += 1;
        }
        out
    }

    /// `out[i] = a[i].wrapping_abs()`. 8-wide chunks, scalar remainder.
    pub fn abs_i16_slice(self, a: &[i16], out: &mut [i16])
        requires
            old(out)@.len() == a@.len(),
        ensures
            final(out)@.len() == a@.len(),
            forall|i: int| 0 <= i < a@.len() ==> final(out)@[i] == wrapping_abs_i16(a@[i]),
    {
        let len = a.len();
        let mut i: usize = 0;
        while len - i >= 8
            invariant
                i <= len,
                len == a@.len(),
                out@.len() == len,
                forall|j: int| 0 <= j < i ==> out@[j] == wrapping_abs_i16(a@[j]),
            decreases len - i,
        {
            let r = self.abs_i16x8(loadu_i16x8(a, i));
            storeu_i16x8(out, i, r);
            i += 8;
        }
        while i < len
            invariant
                i <= len,
                len == a@.len(),
                out@.len() == len,
                forall|j: int| 0 <= j < i ==> out@[j] == wrapping_abs_i16(a@[j]),
            decreases len - i,
        {
            out[i] = if a[i] == i16::MIN { a[i] } else if a[i] < 0 { -a[i] } else { a[i] };
            i += 1;
        }
    }

    /// Per-lane absolute value (`pabsd`); `i32::MIN` stays `i32::MIN`.
    pub fn abs_i32x4(self, a: [i32; 4]) -> (r: [i32; 4])
        ensures
            forall|i: int| 0 <= i < 4 ==> r[i] == wrapping_abs_i32(a[i]),
    {
        let mut out = [0i32; 4];
        let mut i: usize = 0;
        while i < 4
            invariant
                i <= 4,
                forall|j: int| 0 <= j < i ==> out[j] == wrapping_abs_i32(a[j]),
            decreases 4 - i,
        {
            out[i] = if a[i] == i32::MIN { a[i] } else if a[i] < 0 { -a[i] } else { a[i] };
            i += 1;
        }
        out
    }

    /// `out[i] = a[i].wrapping_abs()`. 4-wide chunks, scalar remainder.
    pub fn abs_i32_slice(self, a: &[i32], out: &mut [i32])
        requires
            old(out)@.len() == a@.len(),
        ensures
            final(out)@.len() == a@.len(),
            forall|i: int| 0 <= i < a@.len() ==> final(out)@[i] == wrapping_abs_i32(a@[i]),
    {
        let len = a.len();
        let mut i: usize = 0;
        while len - i >= 4
            invariant
                i <= len,
                len == a@.len(),
                out@.len() == len,
                forall|j: int| 0 <= j < i ==> out@[j] == wrapping_abs_i32(a@[j]),
            decreases len - i,
        {
            let r = self.abs_i32x4(loadu_i32x4(a, i));
            storeu_i32x4(out, i, r);
            i += 4;
        }
        while i < len
            invariant
                i <= len,
                len == a@.len(),
                out@.len() == len,
                forall|j: int| 0 <= j < i ==> out@[j] == wrapping_abs_i32(a@[j]),
            decreases len - i,
        {
            out[i] = if a[i] == i32::MIN { a[i] } else if a[i] < 0 { -a[i] } else { a[i] };
            i += 1;
        }
    }

}

} // verus!
