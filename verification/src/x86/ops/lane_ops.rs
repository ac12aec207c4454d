//! Lane-array helpers shared by the tokens: bitwise NOT of a mask, the sign-bit
//! bias that maps unsigned lanes onto signed ones, and same-width reinterpretation.

use vstd::prelude::*;

use super::lanes::lemma_not_ranges;

verus! {

/// Bitwise NOT of every lane.
pub fn not_i8x16(m: [i8; 16]) -> (r: [i8; 16])
    ensures
        forall|j: int| 0 <= j < 16 ==> r[j] == !m[j],
{
    let mut r = [0i8; 16];
    let mut i: usize = 0;
    while i < 16
        invariant
            i <= 16,
            forall|j: int| 0 <= j < i ==> r[j] == !m[j],
        decreases 16 - i,
    {
        let x = m[i];
        let v = !x;
        proof {
            lemma_not_ranges();
        }
        r[i] = v;
        i += 1;
    }
    r
}

/// Bitwise NOT of every lane.
pub fn not_u8x16(m: [u8; 16]) -> (r: [u8; 16])
    ensures
        forall|j: int| 0 <= j < 16 ==> r[j] == !m[j],
{
    let mut r = [0u8; 16];
    let mut i: usize = 0;
    while i < 16
        invariant
            i <= 16,
            forall|j: int| 0 <= j < i ==> r[j] == !m[j],
        decreases 16 - i,
    {
        let x = m[i];
        let v = !x;
        proof {
            lemma_not_ranges();
        }
        r[i] = v;
        i += 1;
    }
    r
}

/// Bitwise NOT of every lane.
pub fn not_i16x8(m: [i16; 8]) -> (r: [i16; 8])
    ensures
        forall|j: int| 0 <= j < 8 ==> r[j] == !m[j],
{
    let mut r = [0i16; 8];
    let mut i: usize = 0;
    while i < 8
        invariant
            i <= 8,
            forall|j: int| 0 <= j < i ==> r[j] == !m[j],
        decreases 8 - i,
    {
        let x = m[i];
        let v = !x;
        proof {
            lemma_not_ranges();
        }
        r[i] = v;
        i += 1;
    }
    r
}

/// Bitwise NOT of every lane.
pub fn not_u16x8(m: [u16; 8]) -> (r: [u16; 8])
    ensures
        forall|j: int| 0 <= j < 8 ==> r[j] == !m[j],
{
    let mut r = [0u16; 8];
    let mut i: usize = 0;
    while i < 8
        invariant
            i <= 8,
            forall|j: int| 0 <= j < i ==> r[j] == !m[j],
        decreases 8 - i,
    {
        let x = m[i];
        let v = !x;
        proof {
            lemma_not_ranges();
        }
        r[i] = v;
        i += 1;
    }
    r
}

/// Bitwise NOT of every lane.
pub fn not_i32x4(m: [i32; 4]) -> (r: [i32; 4])
    ensures
        forall|j: int| 0 <= j < 4 ==> r[j] == !m[j],
{
    let mut r = [0i32; 4];
    let mut i: usize = 0;
    while i < 4
        invariant
            i <= 4,
            forall|j: int| 0 <= j < i ==> r[j] == !m[j],
        decreases 4 - i,
    {
        let x = m[i];
        let v = !x;
        proof {
            lemma_not_ranges();
        }
        r[i] = v;
        i += 1;
    }
    r
}

/// Bitwise NOT of every lane.
pub fn not_u32x4(m: [u32; 4]) -> (r: [u32; 4])
    ensures
        forall|j: int| 0 <= j < 4 ==> r[j] == !m[j],
{
    let mut r = [0u32; 4];
    let mut i: usize = 0;
    while i < 4
        invariant
            i <= 4,
            forall|j: int| 0 <= j < i ==> r[j] == !m[j],
        decreases 4 - i,
    {
        let x = m[i];
        let v = !x;
        proof {
            lemma_not_ranges();
        }
        r[i] = v;
        i += 1;
    }
    r
}

/// Bitwise NOT of every lane.
pub fn not_i64x2(m: [i64; 2]) -> (r: [i64; 2])
    ensures
        forall|j: int| 0 <= j < 2 ==> r[j] == !m[j],
{
    let mut r = [0i64; 2];
    let mut i: usize = 0;
    while i < 2
        invariant
            i <= 2,
            forall|j: int| 0 <= j < i ==> r[j] == !m[j],
        decreases 2 - i,
    {
        let x = m[i];
        let v = !x;
        proof {
            lemma_not_ranges();
        }
        r[i] = v;
        i += 1;
    }
    r
}

/// Bitwise NOT of every lane.
pub fn not_u64x2(m: [u64; 2]) -> (r: [u64; 2])
    ensures
        forall|j: int| 0 <= j < 2 ==> r[j] == !m[j],
{
    let mut r = [0u64; 2];
    let mut i: usize = 0;
    while i < 2
        invariant
            i <= 2,
            forall|j: int| 0 <= j < i ==> r[j] == !m[j],
        decreases 2 - i,
    {
        let x = m[i];
        let v = !x;
        proof {
            lemma_not_ranges();
        }
        r[i] = v;
        i += 1;
    }
    r
}

/// Bitwise NOT of every element of `out`, in place.
pub fn not_i8_in_place(out: &mut [i8])
    ensures
        final(out)@.len() == old(out)@.len(),
        forall|j: int| 0 <= j < old(out)@.len() ==> final(out)@[j] == !old(out)@[j],
{
    let len = out.len();
    let mut i: usize = 0;
    while i < len
        invariant
            i <= len,
            len == old(out)@.len(),
            out@.len() == len,
            forall|j: int| 0 <= j < i ==> out@[j] == !old(out)@[j],
            forall|j: int| i <= j < len ==> out@[j] == old(out)@[j],
        decreases len - i,
    {
        let x = out[i];
        let v = !x;
        proof {
            lemma_not_ranges();
        }
        out[i] = v;
        i += 1;
    }
}

/// Bitwise NOT of every element of `out`, in place.
pub fn not_u8_in_place(out: &mut [u8])
    ensures
        final(out)@.len() == old(out)@.len(),
        forall|j: int| 0 <= j < old(out)@.len() ==> final(out)@[j] == !old(out)@[j],
{
    let len = out.len();
    let mut i: usize = 0;
    while i < len
        invariant
            i <= len,
            len == old(out)@.len(),
            out@.len() == len,
            forall|j: int| 0 <= j < i ==> out@[j] == !old(out)@[j],
            forall|j: int| i <= j < len ==> out@[j] == old(out)@[j],
        decreases len - i,
    {
        let x = out[i];
        let v = !x;
        proof {
            lemma_not_ranges();
        }
        out[i] = v;
        i += 1;
    }
}

/// Bitwise NOT of every element of `out`, in place.
pub fn not_i16_in_place(out: &mut [i16])
    ensures
        final(out)@.len() == old(out)@.len(),
        forall|j: int| 0 <= j < old(out)@.len() ==> final(out)@[j] == !old(out)@[j],
{
    let len = out.len();
    let mut i: usize = 0;
    while i < len
        invariant
            i <= len,
            len == old(out)@.len(),
            out@.len() == len,
            forall|j: int| 0 <= j < i ==> out@[j] == !old(out)@[j],
            forall|j: int| i <= j < len ==> out@[j] == old(out)@[j],
        decreases len - i,
    {
        let x = out[i];
        let v = !x;
        proof {
            lemma_not_ranges();
        }
        out[i] = v;
        i += 1;
    }
}

/// Bitwise NOT of every element of `out`, in place.
pub fn not_u16_in_place(out: &mut [u16])
    ensures
        final(out)@.len() == old(out)@.len(),
        forall|j: int| 0 <= j < old(out)@.len() ==> final(out)@[j] == !old(out)@[j],
{
    let len = out.len();
    let mut i: usize = 0;
    while i < len
        invariant
            i <= len,
            len == old(out)@.len(),
            out@.len() == len,
            forall|j: int| 0 <= j < i ==> out@[j] == !old(out)@[j],
            forall|j: int| i <= j < len ==> out@[j] == old(out)@[j],
        decreases len - i,
    {
        let x = out[i];
        let v = !x;
        proof {
            lemma_not_ranges();
        }
        out[i] = v;
        i += 1;
    }
}

/// Bitwise NOT of every element of `out`, in place.
pub fn not_i32_in_place(out: &mut [i32])
    ensures
        final(out)@.len() == old(out)@.len(),
        forall|j: int| 0 <= j < old(out)@.len() ==> final(out)@[j] == !old(out)@[j],
{
    let len = out.len();
    let mut i: usize = 0;
    while i < len
        invariant
            i <= len,
            len == old(out)@.len(),
            out@.len() == len,
            forall|j: int| 0 <= j < i ==> out@[j] == !old(out)@[j],
            forall|j: int| i <= j < len ==> out@[j] == old(out)@[j],
        decreases len - i,
    {
        let x = out[i];
        let v = !x;
        proof {
            lemma_not_ranges();
        }
        out[i] = v;
        i += 1;
    }
}

/// Bitwise NOT of every element of `out`, in place.
pub fn not_u32_in_place(out: &mut [u32])
    ensures
        final(out)@.len() == old(out)@.len(),
        forall|j: int| 0 <= j < old(out)@.len() ==> final(out)@[j] == !old(out)@[j],
{
    let len = out.len();
    let mut i: usize = 0;
    while i < len
        invariant
            i <= len,
            len == old(out)@.len(),
            out@.len() == len,
            forall|j: int| 0 <= j < i ==> out@[j] == !old(out)@[j],
            forall|j: int| i <= j < len ==> out@[j] == old(out)@[j],
        decreases len - i,
    {
        let x = out[i];
        let v = !x;
        proof {
            lemma_not_ranges();
        }
        out[i] = v;
        i += 1;
    }
}

/// Bitwise NOT of every element of `out`, in place.
pub fn not_i64_in_place(out: &mut [i64])
    ensures
        final(out)@.len() == old(out)@.len(),
        forall|j: int| 0 <= j < old(out)@.len() ==> final(out)@[j] == !old(out)@[j],
{
    let len = out.len();
    let mut i: usize = 0;
    while i < len
        invariant
            i <= len,
            len == old(out)@.len(),
            out@.len() == len,
            forall|j: int| 0 <= j < i ==> out@[j] == !old(out)@[j],
            forall|j: int| i <= j < len ==> out@[j] == old(out)@[j],
        decreases len - i,
    {
        let x = out[i];
        let v = !x;
        proof {
            lemma_not_ranges();
        }
        out[i] = v;
        i += 1;
    }
}

/// Bitwise NOT of every element of `out`, in place.
pub fn not_u64_in_place(out: &mut [u64])
    ensures
        final(out)@.len() == old(out)@.len(),
        forall|j: int| 0 <= j < old(out)@.len() ==> final(out)@[j] == !old(out)@[j],
{
    let len = out.len();
    let mut i: usize = 0;
    while i < len
        invariant
            i <= len,
            len == old(out)@.len(),
            out@.len() == len,
            forall|j: int| 0 <= j < i ==> out@[j] == !old(out)@[j],
            forall|j: int| i <= j < len ==> out@[j] == old(out)@[j],
        decreases len - i,
    {
        let x = out[i];
        let v = !x;
        proof {
            lemma_not_ranges();
        }
        out[i] = v;
        i += 1;
    }
}

/// Flips each lane's sign bit and reinterprets it as `i8`: unsigned order becomes signed order.
pub fn bias_u8x16(a: [u8; 16]) -> (r: [i8; 16])
    ensures
        forall|j: int| 0 <= j < 16 ==> r[j] == (a[j] ^ 0x80u8) as i8,
{
    let mut r = [0i8; 16];
    let mut i: usize = 0;
    while i < 16
        invariant
            i <= 16,
            forall|j: int| 0 <= j < i ==> r[j] == (a[j] ^ 0x80u8) as i8,
        decreases 16 - i,
    {
        r[i] = (a[i] ^ 0x80) as i8;
        i += 1;
    }
    r
}

/// Reinterprets every `i8` lane as `u8` (same bits).
pub fn to_u8_lanes_i8x16(a: [i8; 16]) -> (r: [u8; 16])
    ensures
        forall|j: int| 0 <= j < 16 ==> r[j] == a[j] as u8,
{
    let mut r = [0u8; 16];
    let mut i: usize = 0;
    while i < 16
        invariant
            i <= 16,
            forall|j: int| 0 <= j < i ==> r[j] == a[j] as u8,
        decreases 16 - i,
    {
        r[i] = a[i] as u8;
        i += 1;
    }
    r
}

/// Reinterprets every `u8` lane as `i8` (same bits).
pub fn to_i8_lanes_u8x16(a: [u8; 16]) -> (r: [i8; 16])
    ensures
        forall|j: int| 0 <= j < 16 ==> r[j] == a[j] as i8,
{
    let mut r = [0i8; 16];
    let mut i: usize = 0;
    while i < 16
        invariant
            i <= 16,
            forall|j: int| 0 <= j < i ==> r[j] == a[j] as i8,
        decreases 16 - i,
    {
        r[i] = a[i] as i8;
        i += 1;
    }
    r
}

/// Flips each lane's sign bit and reinterprets it as `i16`: unsigned order becomes signed order.
pub fn bias_u16x8(a: [u16; 8]) -> (r: [i16; 8])
    ensures
        forall|j: int| 0 <= j < 8 ==> r[j] == (a[j] ^ 0x8000u16) as i16,
{
    let mut r = [0i16; 8];
    let mut i: usize = 0;
    while i < 8
        invariant
            i <= 8,
            forall|j: int| 0 <= j < i ==> r[j] == (a[j] ^ 0x8000u16) as i16,
        decreases 8 - i,
    {
        r[i] = (a[i] ^ 0x8000) as i16;
        i += 1;
    }
    r
}

/// Reinterprets every `i16` lane as `u16` (same bits).
pub fn to_u16_lanes_i16x8(a: [i16; 8]) -> (r: [u16; 8])
    ensures
        forall|j: int| 0 <= j < 8 ==> r[j] == a[j] as u16,
{
    let mut r = [0u16; 8];
    let mut i: usize = 0;
    while i < 8
        invariant
            i <= 8,
            forall|j: int| 0 <= j < i ==> r[j] == a[j] as u16,
        decreases 8 - i,
    {
        r[i] = a[i] as u16;
        i += 1;
    }
    r
}

/// Reinterprets every `u16` lane as `i16` (same bits).
pub fn to_i16_lanes_u16x8(a: [u16; 8]) -> (r: [i16; 8])
    ensures
        forall|j: int| 0 <= j < 8 ==> r[j] == a[j] as i16,
{
    let mut r = [0i16; 8];
    let mut i: usize = 0;
    while i < 8
        invariant
            i <= 8,
            forall|j: int| 0 <= j < i ==> r[j] == a[j] as i16,
        decreases 8 - i,
    {
        r[i] = a[i] as i16;
        i += 1;
    }
    r
}

/// Flips each lane's sign bit and reinterprets it as `i32`: unsigned order becomes signed order.
pub fn bias_u32x4(a: [u32; 4]) -> (r: [i32; 4])
    ensures
        forall|j: int| 0 <= j < 4 ==> r[j] == (a[j] ^ 0x80000000u32) as i32,
{
    let mut r = [0i32; 4];
    let mut i: usize = 0;
    while i < 4
        invariant
            i <= 4,
            forall|j: int| 0 <= j < i ==> r[j] == (a[j] ^ 0x80000000u32) as i32,
        decreases 4 - i,
    {
        r[i] = (a[i] ^ 0x80000000) as i32;
        i += 1;
    }
    r
}

/// Reinterprets every `i32` lane as `u32` (same bits).
pub fn to_u32_lanes_i32x4(a: [i32; 4]) -> (r: [u32; 4])
    ensures
        forall|j: int| 0 <= j < 4 ==> r[j] == a[j] as u32,
{
    let mut r = [0u32; 4];
    let mut i: usize = 0;
    while i < 4
        invariant
            i <= 4,
            forall|j: int| 0 <= j < i ==> r[j] == a[j] as u32,
        decreases 4 - i,
    {
        r[i] = a[i] as u32;
        i += 1;
    }
    r
}

/// Reinterprets every `u32` lane as `i32` (same bits).
pub fn to_i32_lanes_u32x4(a: [u32; 4]) -> (r: [i32; 4])
    ensures
        forall|j: int| 0 <= j < 4 ==> r[j] == a[j] as i32,
{
    let mut r = [0i32; 4];
    let mut i: usize = 0;
    while i < 4
        invariant
            i <= 4,
            forall|j: int| 0 <= j < i ==> r[j] == a[j] as i32,
        decreases 4 - i,
    {
        r[i] = a[i] as i32;
        i += 1;
    }
    r
}

/// Flips each lane's sign bit and reinterprets it as `i64`: unsigned order becomes signed order.
pub fn bias_u64x2(a: [u64; 2]) -> (r: [i64; 2])
    ensures
        forall|j: int| 0 <= j < 2 ==> r[j] == (a[j] ^ 0x8000000000000000u64) as i64,
{
    let mut r = [0i64; 2];
    let mut i: usize = 0;
    while i < 2
        invariant
            i <= 2,
            forall|j: int| 0 <= j < i ==> r[j] == (a[j] ^ 0x8000000000000000u64) as i64,
        decreases 2 - i,
    {
        r[i] = (a[i] ^ 0x8000000000000000) as i64;
        i += 1;
    }
    r
}

/// Reinterprets every `i64` lane as `u64` (same bits).
pub fn to_u64_lanes_i64x2(a: [i64; 2]) -> (r: [u64; 2])
    ensures
        forall|j: int| 0 <= j < 2 ==> r[j] == a[j] as u64,
{
    let mut r = [0u64; 2];
    let mut i: usize = 0;
    while i < 2
        invariant
            i <= 2,
            forall|j: int| 0 <= j < i ==> r[j] == a[j] as u64,
        decreases 2 - i,
    {
        r[i] = a[i] as u64;
        i += 1;
    }
    r
}

/// Reinterprets every `u64` lane as `i64` (same bits).
pub fn to_i64_lanes_u64x2(a: [u64; 2]) -> (r: [i64; 2])
    ensures
        forall|j: int| 0 <= j < 2 ==> r[j] == a[j] as i64,
{
    let mut r = [0i64; 2];
    let mut i: usize = 0;
    while i < 2
        invariant
            i <= 2,
            forall|j: int| 0 <= j < i ==> r[j] == a[j] as i64,
        decreases 2 - i,
    {
        r[i] = a[i] as i64;
        i += 1;
    }
    r
}

/// Per-lane `pblendvb` select with a lane-wide mask: `b` where the mask's sign bit is set,
/// else `a`.
pub fn blendv_i64x2(a: [i64; 2], b: [i64; 2], m: [i64; 2]) -> (r: [i64; 2])
    ensures
        forall|j: int| 0 <= j < 2 ==> r[j] == if m[j] < 0 { b[j] } else { a[j] },
{
    let mut r = a;
    if m[0] < 0 {
        r[0] = b[0];
    }
    if m[1] < 0 {
        r[1] = b[1];
    }
    r
}

/// Per-lane `pblendvb` select with a lane-wide mask: `b` where the mask's top bit is set,
/// else `a`.
pub fn blendv_u64x2(a: [u64; 2], b: [u64; 2], m: [u64; 2]) -> (r: [u64; 2])
    ensures
        forall|j: int| 0 <= j < 2 ==> r[j] == if m[j] >= 0x8000_0000_0000_0000u64 { b[j] } else { a[j] },
{
    let mut r = a;
    if m[0] >= 0x8000_0000_0000_0000u64 {
        r[0] = b[0];
    }
    if m[1] >= 0x8000_0000_0000_0000u64 {
        r[1] = b[1];
    }
    r
}

} // verus!
