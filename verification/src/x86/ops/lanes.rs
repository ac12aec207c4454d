//! Lane-level models shared by every token: compare masks, select identities
//! and the sign-flip trick that turns a signed compare into an unsigned one.
//!
//! A compare writes a *lane mask*: all bits set when the predicate holds,
//! zero otherwise.

use vstd::prelude::*;

verus! {

/// `i8` lane mask: all-1s (`-1`) when `c`, else `0`.
pub open spec fn mask_i8(c: bool) -> i8 {
    if c {
        -1i8
    } else {
        0i8
    }
}

/// `u8` lane mask: all-1s (`u8::MAX`) when `c`, else `0`.
pub open spec fn mask_u8(c: bool) -> u8 {
    if c {
        u8::MAX
    } else {
        0u8
    }
}

/// `i16` lane mask: all-1s (`-1`) when `c`, else `0`.
pub open spec fn mask_i16(c: bool) -> i16 {
    if c {
        -1i16
    } else {
        0i16
    }
}

/// `u16` lane mask: all-1s (`u16::MAX`) when `c`, else `0`.
pub open spec fn mask_u16(c: bool) -> u16 {
    if c {
        u16::MAX
    } else {
        0u16
    }
}

/// `i32` lane mask: all-1s (`-1`) when `c`, else `0`.
pub open spec fn mask_i32(c: bool) -> i32 {
    if c {
        -1i32
    } else {
        0i32
    }
}

/// `u32` lane mask: all-1s (`u32::MAX`) when `c`, else `0`.
pub open spec fn mask_u32(c: bool) -> u32 {
    if c {
        u32::MAX
    } else {
        0u32
    }
}

/// `i64` lane mask: all-1s (`-1`) when `c`, else `0`.
pub open spec fn mask_i64(c: bool) -> i64 {
    if c {
        -1i64
    } else {
        0i64
    }
}

/// `u64` lane mask: all-1s (`u64::MAX`) when `c`, else `0`.
pub open spec fn mask_u64(c: bool) -> u64 {
    if c {
        u64::MAX
    } else {
        0u64
    }
}

/// Bitwise NOT of a lane stays inside the lane type.
pub proof fn lemma_not_ranges()
    by (bit_vector)
    ensures
        forall|x: i8| #![trigger !x] i8::MIN <= !x && !x <= i8::MAX,
        forall|x: u8| #![trigger !x] u8::MIN <= !x && !x <= u8::MAX,
        forall|x: i16| #![trigger !x] i16::MIN <= !x && !x <= i16::MAX,
        forall|x: u16| #![trigger !x] u16::MIN <= !x && !x <= u16::MAX,
        forall|x: i32| #![trigger !x] i32::MIN <= !x && !x <= i32::MAX,
        forall|x: u32| #![trigger !x] u32::MIN <= !x && !x <= u32::MAX,
        forall|x: i64| #![trigger !x] i64::MIN <= !x && !x <= i64::MAX,
        forall|x: u64| #![trigger !x] u64::MIN <= !x && !x <= u64::MAX,
{
}

/// The 8-bit lane identities: NOT of a mask, blending by a mask, the sign flip,
/// and reinterpreting a mask between `i8` and `u8`.
proof fn lemma_lane_bits_8(a: i8, b: i8, x: u8, y: u8)
    by (bit_vector)
    ensures
        !(-1i8) == 0i8 && !(0i8) == -1i8,
        !(u8::MAX) == 0u8 && !(0u8) == u8::MAX,
        (!(-1i8) & a) | ((-1i8) & b) == b && ((-1i8) & a) | (!(-1i8) & b) == a,
        (!(0i8) & a) | ((0i8) & b) == a && ((0i8) & a) | (!(0i8) & b) == b,
        (!(u8::MAX) & x) | ((u8::MAX) & y) == y && ((u8::MAX) & x) | (!(u8::MAX) & y) == x,
        (!(0u8) & x) | ((0u8) & y) == x && ((0u8) & x) | (!(0u8) & y) == y,
        ((x ^ 0x80u8) as i8 > (y ^ 0x80u8) as i8) == (x > y),
        (-1i8) as u8 == u8::MAX && (0i8) as u8 == 0u8,
        (x as i8 == y as i8) == (x == y),
{
}

/// Bitwise NOT of a `i8` lane mask is the mask of the negated predicate.
pub proof fn lemma_not_mask_i8(c: bool)
    ensures
        !mask_i8(c) == mask_i8(!c),
{
    lemma_lane_bits_8(0, 0, 0, 0);
}

/// Blending by a `i8` lane mask: `(!m & a) | (m & b)` picks `b` exactly where the mask is set,
/// and `(m & a) | (!m & b)` picks `a` there.
pub proof fn lemma_blend_i8(c: bool, a: i8, b: i8)
    ensures
        (!mask_i8(c) & a) | (mask_i8(c) & b) == if c { b } else { a },
        (mask_i8(c) & a) | (!mask_i8(c) & b) == if c { a } else { b },
{
    lemma_lane_bits_8(a, b, 0, 0);
}

/// Bitwise NOT of a `u8` lane mask is the mask of the negated predicate.
pub proof fn lemma_not_mask_u8(c: bool)
    ensures
        !mask_u8(c) == mask_u8(!c),
{
    lemma_lane_bits_8(0, 0, 0, 0);
}

/// Blending by a `u8` lane mask: `(!m & a) | (m & b)` picks `b` exactly where the mask is set,
/// and `(m & a) | (!m & b)` picks `a` there.
pub proof fn lemma_blend_u8(c: bool, a: u8, b: u8)
    ensures
        (!mask_u8(c) & a) | (mask_u8(c) & b) == if c { b } else { a },
        (mask_u8(c) & a) | (!mask_u8(c) & b) == if c { a } else { b },
{
    lemma_lane_bits_8(0, 0, a, b);
}

/// Flipping the sign bit maps unsigned order onto signed order.
pub proof fn lemma_sign_flip_u8(a: u8, b: u8)
    ensures
        ((a ^ 0x80u8) as i8 > (b ^ 0x80u8) as i8) == (a > b),
{
    lemma_lane_bits_8(0, 0, a, b);
}

/// A `i8` lane mask reinterpreted as `u8` is the `u8` lane mask of the same predicate.
pub proof fn lemma_mask_cast_i8(c: bool)
    ensures
        mask_i8(c) as u8 == mask_u8(c),
{
    lemma_lane_bits_8(0, 0, 0, 0);
}

/// The 16-bit lane identities: NOT of a mask, blending by a mask, the sign flip,
/// and reinterpreting a mask between `i16` and `u16`.
proof fn lemma_lane_bits_16(a: i16, b: i16, x: u16, y: u16)
    by (bit_vector)
    ensures
        !(-1i16) == 0i16 && !(0i16) == -1i16,
        !(u16::MAX) == 0u16 && !(0u16) == u16::MAX,
        (!(-1i16) & a) | ((-1i16) & b) == b && ((-1i16) & a) | (!(-1i16) & b) == a,
        (!(0i16) & a) | ((0i16) & b) == a && ((0i16) & a) | (!(0i16) & b) == b,
        (!(u16::MAX) & x) | ((u16::MAX) & y) == y && ((u16::MAX) & x) | (!(u16::MAX) & y) == x,
        (!(0u16) & x) | ((0u16) & y) == x && ((0u16) & x) | (!(0u16) & y) == y,
        ((x ^ 0x8000u16) as i16 > (y ^ 0x8000u16) as i16) == (x > y),
        (-1i16) as u16 == u16::MAX && (0i16) as u16 == 0u16,
        (x as i16 == y as i16) == (x == y),
{
}

/// Bitwise NOT of a `i16` lane mask is the mask of the negated predicate.
pub proof fn lemma_not_mask_i16(c: bool)
    ensures
        !mask_i16(c) == mask_i16(!c),
{
    lemma_lane_bits_16(0, 0, 0, 0);
}

/// Blending by a `i16` lane mask: `(!m & a) | (m & b)` picks `b` exactly where the mask is set,
/// and `(m & a) | (!m & b)` picks `a` there.
pub proof fn lemma_blend_i16(c: bool, a: i16, b: i16)
    ensures
        (!mask_i16(c) & a) | (mask_i16(c) & b) == if c { b } else { a },
        (mask_i16(c) & a) | (!mask_i16(c) & b) == if c { a } else { b },
{
    lemma_lane_bits_16(a, b, 0, 0);
}

/// Bitwise NOT of a `u16` lane mask is the mask of the negated predicate.
pub proof fn lemma_not_mask_u16(c: bool)
    ensures
        !mask_u16(c) == mask_u16(!c),
{
    lemma_lane_bits_16(0, 0, 0, 0);
}

/// Blending by a `u16` lane mask: `(!m & a) | (m & b)` picks `b` exactly where the mask is set,
/// and `(m & a) | (!m & b)` picks `a` there.
pub proof fn lemma_blend_u16(c: bool, a: u16, b: u16)
    ensures
        (!mask_u16(c) & a) | (mask_u16(c) & b) == if c { b } else { a },
        (mask_u16(c) & a) | (!mask_u16(c) & b) == if c { a } else { b },
{
    lemma_lane_bits_16(0, 0, a, b);
}

/// Flipping the sign bit maps unsigned order onto signed order.
pub proof fn lemma_sign_flip_u16(a: u16, b: u16)
    ensures
        ((a ^ 0x8000u16) as i16 > (b ^ 0x8000u16) as i16) == (a > b),
{
    lemma_lane_bits_16(0, 0, a, b);
}

/// A `i16` lane mask reinterpreted as `u16` is the `u16` lane mask of the same predicate.
pub proof fn lemma_mask_cast_i16(c: bool)
    ensures
        mask_i16(c) as u16 == mask_u16(c),
{
    lemma_lane_bits_16(0, 0, 0, 0);
}

/// The 32-bit lane identities: NOT of a mask, blending by a mask, the sign flip,
/// and reinterpreting a mask between `i32` and `u32`.
proof fn lemma_lane_bits_32(a: i32, b: i32, x: u32, y: u32)
    by (bit_vector)
    ensures
        !(-1i32) == 0i32 && !(0i32) == -1i32,
        !(u32::MAX) == 0u32 && !(0u32) == u32::MAX,
        (!(-1i32) & a) | ((-1i32) & b) == b && ((-1i32) & a) | (!(-1i32) & b) == a,
        (!(0i32) & a) | ((0i32) & b) == a && ((0i32) & a) | (!(0i32) & b) == b,
        (!(u32::MAX) & x) | ((u32::MAX) & y) == y && ((u32::MAX) & x) | (!(u32::MAX) & y) == x,
        (!(0u32) & x) | ((0u32) & y) == x && ((0u32) & x) | (!(0u32) & y) == y,
        ((x ^ 0x80000000u32) as i32 > (y ^ 0x80000000u32) as i32) == (x > y),
        (-1i32) as u32 == u32::MAX && (0i32) as u32 == 0u32,
        (x as i32 == y as i32) == (x == y),
{
}

/// Bitwise NOT of a `i32` lane mask is the mask of the negated predicate.
pub proof fn lemma_not_mask_i32(c: bool)
    ensures
        !mask_i32(c) == mask_i32(!c),
{
    lemma_lane_bits_32(0, 0, 0, 0);
}

/// Blending by a `i32` lane mask: `(!m & a) | (m & b)` picks `b` exactly where the mask is set,
/// and `(m & a) | (!m & b)` picks `a` there.
pub proof fn lemma_blend_i32(c: bool, a: i32, b: i32)
    ensures
        (!mask_i32(c) & a) | (mask_i32(c) & b) == if c { b } else { a },
        (mask_i32(c) & a) | (!mask_i32(c) & b) == if c { a } else { b },
{
    lemma_lane_bits_32(a, b, 0, 0);
}

/// Bitwise NOT of a `u32` lane mask is the mask of the negated predicate.
pub proof fn lemma_not_mask_u32(c: bool)
    ensures
        !mask_u32(c) == mask_u32(!c),
{
    lemma_lane_bits_32(0, 0, 0, 0);
}

/// Blending by a `u32` lane mask: `(!m & a) | (m & b)` picks `b` exactly where the mask is set,
/// and `(m & a) | (!m & b)` picks `a` there.
pub proof fn lemma_blend_u32(c: bool, a: u32, b: u32)
    ensures
        (!mask_u32(c) & a) | (mask_u32(c) & b) == if c { b } else { a },
        (mask_u32(c) & a) | (!mask_u32(c) & b) == if c { a } else { b },
{
    lemma_lane_bits_32(0, 0, a, b);
}

/// Flipping the sign bit maps unsigned order onto signed order.
pub proof fn lemma_sign_flip_u32(a: u32, b: u32)
    ensures
        ((a ^ 0x80000000u32) as i32 > (b ^ 0x80000000u32) as i32) == (a > b),
{
    lemma_lane_bits_32(0, 0, a, b);
}

/// A `i32` lane mask reinterpreted as `u32` is the `u32` lane mask of the same predicate.
pub proof fn lemma_mask_cast_i32(c: bool)
    ensures
        mask_i32(c) as u32 == mask_u32(c),
{
    lemma_lane_bits_32(0, 0, 0, 0);
}

/// The 64-bit lane identities: NOT of a mask, blending by a mask, the sign flip,
/// and reinterpreting a mask between `i64` and `u64`.
proof fn lemma_lane_bits_64(a: i64, b: i64, x: u64, y: u64)
    by (bit_vector)
    ensures
        !(-1i64) == 0i64 && !(0i64) == -1i64,
        !(u64::MAX) == 0u64 && !(0u64) == u64::MAX,
        (!(-1i64) & a) | ((-1i64) & b) == b && ((-1i64) & a) | (!(-1i64) & b) == a,
        (!(0i64) & a) | ((0i64) & b) == a && ((0i64) & a) | (!(0i64) & b) == b,
        (!(u64::MAX) & x) | ((u64::MAX) & y) == y && ((u64::MAX) & x) | (!(u64::MAX) & y) == x,
        (!(0u64) & x) | ((0u64) & y) == x && ((0u64) & x) | (!(0u64) & y) == y,
        ((x ^ 0x8000000000000000u64) as i64 > (y ^ 0x8000000000000000u64) as i64) == (x > y),
        (-1i64) as u64 == u64::MAX && (0i64) as u64 == 0u64,
        (x as i64 == y as i64) == (x == y),
{
}

/// Bitwise NOT of a `i64` lane mask is the mask of the negated predicate.
pub proof fn lemma_not_mask_i64(c: bool)
    ensures
        !mask_i64(c) == mask_i64(!c),
{
    lemma_lane_bits_64(0, 0, 0, 0);
}

/// Blending by a `i64` lane mask: `(!m & a) | (m & b)` picks `b` exactly where the mask is set,
/// and `(m & a) | (!m & b)` picks `a` there.
pub proof fn lemma_blend_i64(c: bool, a: i64, b: i64)
    ensures
        (!mask_i64(c) & a) | (mask_i64(c) & b) == if c { b } else { a },
        (mask_i64(c) & a) | (!mask_i64(c) & b) == if c { a } else { b },
{
    lemma_lane_bits_64(a, b, 0, 0);
}

/// Bitwise NOT of a `u64` lane mask is the mask of the negated predicate.
pub proof fn lemma_not_mask_u64(c: bool)
    ensures
        !mask_u64(c) == mask_u64(!c),
{
    lemma_lane_bits_64(0, 0, 0, 0);
}

/// Blending by a `u64` lane mask: `(!m & a) | (m & b)` picks `b` exactly where the mask is set,
/// and `(m & a) | (!m & b)` picks `a` there.
pub proof fn lemma_blend_u64(c: bool, a: u64, b: u64)
    ensures
        (!mask_u64(c) & a) | (mask_u64(c) & b) == if c { b } else { a },
        (mask_u64(c) & a) | (!mask_u64(c) & b) == if c { a } else { b },
{
    lemma_lane_bits_64(0, 0, a, b);
}

/// Flipping the sign bit maps unsigned order onto signed order.
pub proof fn lemma_sign_flip_u64(a: u64, b: u64)
    ensures
        ((a ^ 0x8000000000000000u64) as i64 > (b ^ 0x8000000000000000u64) as i64) == (a > b),
{
    lemma_lane_bits_64(0, 0, a, b);
}

/// A `i64` lane mask reinterpreted as `u64` is the `u64` lane mask of the same predicate.
pub proof fn lemma_mask_cast_i64(c: bool)
    ensures
        mask_i64(c) as u64 == mask_u64(c),
{
    lemma_lane_bits_64(0, 0, 0, 0);
}

/// Reinterpreting `u64` lanes as `i64` preserves equality.
pub proof fn lemma_eq_signed_view_u64(a: u64, b: u64)
    ensures
        (a as i64 == b as i64) == (a == b),
{
    lemma_lane_bits_64(0, 0, a, b);
}

} // verus!
