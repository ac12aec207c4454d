//! GFNI: byte-wise arithmetic in GF(2^8) with reduction polynomial `0x11B` (the AES field).
//! Tokens: [`Gfni`] (128/256-bit forms), [`Gfni512`] (512-bit forms, needs AVX-512F too).
//!
//! Multiplication is specified the way FIPS-197 defines it: repeated `xtime` (multiply by
//! `x`, reduce) of the first operand, summed (XOR) over the set bits of the second.

use vstd::prelude::*;
use vstd::set_lib::{lemma_int_range, lemma_map_size, lemma_subset_equality, set_int_range};

use super::super::super::{Feature, FeatureSet};
use super::super::chunk::{loadu_u8x16, loadu_u8x32, storeu_u8x16, storeu_u8x32};

verus! {

/// Multiplication by `x` in GF(2^8): shift left, reduce by `0x11B` on overflow.
pub open spec fn xtime(a: u8) -> u8 {
    if a & 0x80u8 != 0 {
        (a << 1u8) ^ 0x1bu8
    } else {
        a << 1u8
    }
}

/// Product in GF(2^8) modulo `x^8 + x^4 + x^3 + x + 1`: XOR of `a * x^k` over the set bits
/// `k` of `b`.
pub open spec fn gf_mul(a: u8, b: u8) -> u8 {
    let a1 = xtime(a);
    let a2 = xtime(a1);
    let a3 = xtime(a2);
    let a4 = xtime(a3);
    let a5 = xtime(a4);
    let a6 = xtime(a5);
    let a7 = xtime(a6);
    (if b & 0x01u8 != 0 { a } else { 0u8 }) ^ (if b & 0x02u8 != 0 { a1 } else { 0u8 }) ^ (if b
        & 0x04u8 != 0 { a2 } else { 0u8 }) ^ (if b & 0x08u8 != 0 { a3 } else { 0u8 }) ^ (if b
        & 0x10u8 != 0 { a4 } else { 0u8 }) ^ (if b & 0x20u8 != 0 { a5 } else { 0u8 }) ^ (if b
        & 0x40u8 != 0 { a6 } else { 0u8 }) ^ (if b & 0x80u8 != 0 { a7 } else { 0u8 })
}

/// Carry-less (polynomial over GF(2)) product of two bytes: XOR of `a << k` over the set
/// bits `k` of `b`.
pub open spec fn clmul8(a: u32, b: u32) -> u32 {
    (if b & 0x01u32 != 0 { a } else { 0u32 }) ^ (if b & 0x02u32 != 0 { a << 1u32 } else { 0u32 })
        ^ (if b & 0x04u32 != 0 { a << 2u32 } else { 0u32 }) ^ (if b & 0x08u32 != 0 {
        a << 3u32
    } else {
        0u32
    }) ^ (if b & 0x10u32 != 0 { a << 4u32 } else { 0u32 }) ^ (if b & 0x20u32 != 0 {
        a << 5u32
    } else {
        0u32
    }) ^ (if b & 0x40u32 != 0 { a << 6u32 } else { 0u32 }) ^ (if b & 0x80u32 != 0 {
        a << 7u32
    } else {
        0u32
    })
}

/// Remainder modulo `0x11B` of a polynomial of degree below 15: the low byte, plus
/// `x^k mod 0x11B` for each set bit `k` in `8..15`.
pub open spec fn gf_reduce(t: u32) -> u8 {
    ((t & 0xffu32) as u8) ^ (if t & 0x0100u32 != 0 { 0x1bu8 } else { 0u8 }) ^ (if t & 0x0200u32
        != 0 { 0x36u8 } else { 0u8 }) ^ (if t & 0x0400u32 != 0 { 0x6cu8 } else { 0u8 }) ^ (if t
        & 0x0800u32 != 0 { 0xd8u8 } else { 0u8 }) ^ (if t & 0x1000u32 != 0 { 0xabu8 } else { 0u8 })
        ^ (if t & 0x2000u32 != 0 { 0x4du8 } else { 0u8 }) ^ (if t & 0x4000u32 != 0 {
        0x9au8
    } else {
        0u8
    })
}

/// The multiplicative inverse of `s`: the `x` with `gf_mul(s, x) == 1` where one exists
/// (it is unique), and `0` for `s == 0`.
pub open spec fn gf_inv(s: u8) -> u8 {
    if exists|x: u8| gf_mul(s, x) == 1 {
        choose|x: u8| gf_mul(s, x) == 1
    } else {
        0
    }
}

/// XOR of all 8 bits of `x` (0 or 1).
pub open spec fn parity8(x: u8) -> u8 {
    (x ^ (x >> 1u8) ^ (x >> 2u8) ^ (x >> 3u8) ^ (x >> 4u8) ^ (x >> 5u8) ^ (x >> 6u8) ^ (x >> 7u8))
        & 1u8
}

/// Bit `i` of one `gf2p8affineqb` output byte: `parity(matrix.byte[7-i] & src) ^ imm8.bit[i]`.
pub open spec fn affine_bit(matrix: u64, src: u8, imm8: u8, i: u8) -> u8 {
    parity8(((matrix >> (8 * (7 - i)) as u64) as u8) & src) ^ ((imm8 >> i) & 1u8)
}

/// The `j`-th little-endian quadword of a byte sequence.
pub open spec fn le_qword(m: Seq<u8>, j: int) -> u64 {
    (m[8 * j] as u64) | ((m[8 * j + 1] as u64) << 8u64) | ((m[8 * j + 2] as u64) << 16u64) | ((m[8
        * j + 3] as u64) << 24u64) | ((m[8 * j + 4] as u64) << 32u64) | ((m[8 * j + 5] as u64)
        << 40u64) | ((m[8 * j + 6] as u64) << 48u64) | ((m[8 * j + 7] as u64) << 56u64)
}

/// The reduction of a carry-less product is the field product.
pub proof fn lemma_reduce_clmul(a: u8, b: u8)
    ensures
        gf_reduce(clmul8(a as u32, b as u32)) == gf_mul(a, b),
{
    let x = a as u32;
    let y = b as u32;
    assert(gf_reduce(clmul8(x, y)) == gf_mul(a, b)) by (bit_vector)
        requires
            x == a as u32,
            y == b as u32,
    ;
}

/// Multiplication in GF(2^8) is commutative.
pub proof fn lemma_gf_mul_commutative(a: u8, b: u8)
    ensures
        gf_mul(a, b) == gf_mul(b, a),
{
    let x = a as u32;
    let y = b as u32;
    assert(clmul8(x, y) == clmul8(y, x)) by (bit_vector)
        requires
            x < 256,
            y < 256,
    ;
    lemma_reduce_clmul(a, b);
    lemma_reduce_clmul(b, a);
}

/// Multiplication distributes over addition (XOR).
#[verifier::rlimit(50)]
pub proof fn lemma_gf_mul_distributes(a: u8, b: u8, c: u8)
    ensures
        gf_mul(a, b ^ c) == gf_mul(a, b) ^ gf_mul(a, c),
{
    let x = a as u32;
    let y = b as u32;
    let z = c as u32;
    let yz = (b ^ c) as u32;
    assert(yz == y ^ z) by (bit_vector)
        requires
            yz == (b ^ c) as u32,
            y == b as u32,
            z == c as u32,
    ;
    assert(clmul8(x, yz) == clmul8(x, y) ^ clmul8(x, z)) by (bit_vector)
        requires
            yz == y ^ z,
            x < 256,
            y < 256,
            z < 256,
    ;
    let s = clmul8(x, y);
    let t = clmul8(x, z);
    assert(gf_reduce(s ^ t) == gf_reduce(s) ^ gf_reduce(t)) by (bit_vector);
    lemma_reduce_clmul(a, b);
    lemma_reduce_clmul(a, c);
    lemma_reduce_clmul(a, b ^ c);
}

/// `1` is the multiplicative identity and `0` annihilates.
pub proof fn lemma_gf_mul_identity(a: u8)
    ensures
        gf_mul(a, 1) == a,
        gf_mul(a, 0) == 0,
{
    assert(gf_mul(a, 1) == a && gf_mul(a, 0) == 0) by (bit_vector);
}

/// GF(2^8) has no zero divisors.
#[verifier::rlimit(100)]
pub proof fn lemma_gf_no_zero_divisors(a: u8, b: u8)
    ensures
        gf_mul(a, b) == 0 ==> a == 0 || b == 0,
{
    let x = a as u32;
    let y = b as u32;
    lemma_reduce_clmul(a, b);
    assert(gf_reduce(clmul8(x, y)) == 0 ==> x == 0 || y == 0) by (bit_vector)
        requires
            x < 256,
            y < 256,
    ;
}

/// Multiplying by `x` commutes with multiplication: `x * (a * b) == a * (x * b)`.
#[verifier::rlimit(100)]
proof fn lemma_xtime_mul(a: u8, b: u8)
    ensures
        xtime(gf_mul(a, b)) == gf_mul(a, xtime(b)),
{
    let p = gf_mul(a, b);
    let q = xtime(b);
    assert(xtime(p) == gf_mul(a, q)) by (bit_vector)
        requires
            p == gf_mul(a, b),
            q == xtime(b),
    ;
}

/// `t` if `c` has any of the bits of `m` set, else zero: one term of a product's XOR sum.
pub open spec fn gf_term(c: u8, m: u8, t: u8) -> u8 {
    if c & m != 0 {
        t
    } else {
        0u8
    }
}

/// Multiplication in GF(2^8) is associative.
pub proof fn lemma_gf_mul_associative(a: u8, b: u8, c: u8)
    ensures
        gf_mul(gf_mul(a, b), c) == gf_mul(a, gf_mul(b, c)),
{
    let b1 = xtime(b);
    let b2 = xtime(b1);
    let b3 = xtime(b2);
    let b4 = xtime(b3);
    let b5 = xtime(b4);
    let b6 = xtime(b5);
    let b7 = xtime(b6);
    let p = gf_mul(a, b);
    lemma_xtime_mul(a, b);
    lemma_xtime_mul(a, b1);
    lemma_xtime_mul(a, b2);
    lemma_xtime_mul(a, b3);
    lemma_xtime_mul(a, b4);
    lemma_xtime_mul(a, b5);
    lemma_xtime_mul(a, b6);
    let t0 = gf_term(c, 0x01u8, b);
    let t1 = gf_term(c, 0x02u8, b1);
    let t2 = gf_term(c, 0x04u8, b2);
    let t3 = gf_term(c, 0x08u8, b3);
    let t4 = gf_term(c, 0x10u8, b4);
    let t5 = gf_term(c, 0x20u8, b5);
    let t6 = gf_term(c, 0x40u8, b6);
    let t7 = gf_term(c, 0x80u8, b7);
    assert(gf_mul(b, c) == t0 ^ t1 ^ t2 ^ t3 ^ t4 ^ t5 ^ t6 ^ t7);
    lemma_gf_mul_distributes(a, t0 ^ t1 ^ t2 ^ t3 ^ t4 ^ t5 ^ t6, t7);
    lemma_gf_mul_distributes(a, t0 ^ t1 ^ t2 ^ t3 ^ t4 ^ t5, t6);
    lemma_gf_mul_distributes(a, t0 ^ t1 ^ t2 ^ t3 ^ t4, t5);
    lemma_gf_mul_distributes(a, t0 ^ t1 ^ t2 ^ t3, t4);
    lemma_gf_mul_distributes(a, t0 ^ t1 ^ t2, t3);
    lemma_gf_mul_distributes(a, t0 ^ t1, t2);
    lemma_gf_mul_distributes(a, t0, t1);
    lemma_gf_mul_identity(a);
    let p1 = xtime(p);
    let p2 = xtime(p1);
    let p3 = xtime(p2);
    let p4 = xtime(p3);
    let p5 = xtime(p4);
    let p6 = xtime(p5);
    let p7 = xtime(p6);
    assert(gf_mul(a, t0) == gf_term(c, 0x01u8, p));
    assert(gf_mul(a, t1) == gf_term(c, 0x02u8, p1));
    assert(gf_mul(a, t2) == gf_term(c, 0x04u8, p2));
    assert(gf_mul(a, t3) == gf_term(c, 0x08u8, p3));
    assert(gf_mul(a, t4) == gf_term(c, 0x10u8, p4));
    assert(gf_mul(a, t5) == gf_term(c, 0x20u8, p5));
    assert(gf_mul(a, t6) == gf_term(c, 0x40u8, p6));
    assert(gf_mul(a, t7) == gf_term(c, 0x80u8, p7));
    assert(gf_mul(p, c) == gf_term(c, 0x01u8, p) ^ gf_term(c, 0x02u8, p1) ^ gf_term(c, 0x04u8, p2) ^ gf_term(c, 0x08u8, p3)
        ^ gf_term(c, 0x10u8, p4) ^ gf_term(c, 0x20u8, p5) ^ gf_term(c, 0x40u8, p6) ^ gf_term(c, 0x80u8, p7));
}

/// XOR facts on bytes: cancellation, zero, and staying a single bit.
proof fn lemma_xor_byte(x: u8, y: u8)
    by (bit_vector)
    ensures
        x ^ x == 0u8,
        x ^ 0u8 == x,
        x ^ y == 0u8 ==> x == y,
        parity8(x) <= 1u8,
        x <= 1u8 ==> x ^ (y & 1u8) <= 1u8,
{
}

/// Word facts behind the shift-and-XOR byte multiply.
proof fn lemma_clmul_word(x: u32, y: u32, w: u32)
    by (bit_vector)
    ensures
        clmul8(x, y & !(0xffff_ffffu32 << 0u32)) == 0u32,
        w ^ 0u32 == w,
        y < 256u32 ==> y & !(0xffff_ffffu32 << 8u32) == y,
        (x < 256u32 && y < 256u32) ==> clmul8(x, y) < (1u32 << 15u32),
        (0u8 as u32) < (1u32 << 0u32),
{
}

/// An inverse, when one exists, is unique.
pub proof fn lemma_gf_inverse_unique(s: u8, x: u8, y: u8)
    requires
        gf_mul(s, x) == 1,
        gf_mul(s, y) == 1,
    ensures
        x == y,
{
    lemma_gf_mul_distributes(s, x, y);
    lemma_xor_byte(1, 0);
    lemma_gf_mul_commutative(s, x);
    lemma_gf_mul_identity(x);
    lemma_gf_no_zero_divisors(s, x ^ y);
    lemma_gf_mul_identity(s);
    lemma_xor_byte(x, y);
}

/// Any `x` with `gf_mul(s, x) == 1` is `gf_inv(s)`.
pub proof fn lemma_gf_inv_is_inverse(s: u8, x: u8)
    requires
        gf_mul(s, x) == 1,
    ensures
        gf_inv(s) == x,
{
    let c = choose|y: u8| gf_mul(s, y) == 1;
    lemma_gf_inverse_unique(s, c, x);
}

/// Every nonzero element of GF(2^8) has a multiplicative inverse: multiplication by a
/// nonzero `s` is injective on the 256 bytes, hence onto, so some `x` maps to `1`.
pub proof fn lemma_gf_inverse_exists(s: u8)
    requires
        s != 0,
    ensures
        exists|x: u8| gf_mul(s, x) == 1,
{
    let f = |i: int| gf_mul(s, i as u8) as int;
    let d = set_int_range(0, 256);
    lemma_int_range(0, 256);
    assert forall|i: int, j: int| d.contains(i) && d.contains(j) && #[trigger] f(i) == #[trigger] f(
        j,
    ) implies i == j by {
        let x = i as u8;
        let y = j as u8;
        lemma_gf_mul_distributes(s, x, y);
        lemma_gf_no_zero_divisors(s, x ^ y);
        lemma_xor_byte(gf_mul(s, x), 0);
        lemma_xor_byte(x, y);
    }
    let img = d.map(f);
    lemma_map_size(d, img, f);
    assert(img.subset_of(d));
    lemma_subset_equality(img, d);
    assert(d.contains(1));
    let i = choose|i: int| d.contains(i) && f(i) == 1;
    assert(gf_mul(s, i as u8) == 1);
}

/// `gf_inv(s)` is the multiplicative inverse of every nonzero `s`, and `gf_inv(0) == 0`.
pub proof fn lemma_gf_inv_correct(s: u8)
    ensures
        s != 0 ==> gf_mul(s, gf_inv(s)) == 1,
        s != 0 ==> gf_mul(gf_inv(s), s) == 1,
        s == 0 ==> gf_inv(s) == 0,
{
    if s != 0 {
        lemma_gf_inverse_exists(s);
        lemma_gf_mul_commutative(s, gf_inv(s));
    } else {
        assert forall|x: u8| gf_mul(s, x) != 1 by {
            lemma_gf_mul_identity(x);
            lemma_gf_mul_commutative(s, x);
        }
    }
}

/// Inversion in GF(2^8) is an involution: `gf_inv(gf_inv(s)) == s` for every byte.
pub proof fn lemma_gf_inv_involution(s: u8)
    ensures
        gf_inv(gf_inv(s)) == s,
{
    lemma_gf_inv_correct(s);
    if s != 0 {
        lemma_gf_inv_is_inverse(gf_inv(s), s);
    } else {
        lemma_gf_inv_correct(0);
    }
}

/// Per-byte GF(2^8) multiply, reduction polynomial `0x11B` (same field as the AES S-box):
/// carry-less product of the two bytes, then the bits from 14 down to 8 are cleared by
/// XORing in shifted copies of the polynomial.
pub fn gf2p8mul_byte(a: u8, b: u8) -> (r: u8)
    ensures
        r == gf_mul(a, b),
{
    let x = a as u32;
    let y = b as u32;
    let mut tword: u32 = 0;
    let mut i: u32 = 0;
    proof {
        lemma_clmul_word(x, y, 0);
    }
    while i < 8
        invariant
            i <= 8,
            x < 256,
            y < 256,
            tword == clmul8(x, y & !(0xffff_ffffu32 << i)),
        decreases 8 - i,
    {
        proof {
            lemma_clmul_step(x, y, i);
        }
        let ghost before = tword;
        if (y >> i) & 1 != 0 {
            tword ^= x << i;
        } else {
            proof {
                lemma_clmul_word(x, y, before);
            }
        }
        i += 1;
    }
    proof {
        lemma_clmul_word(x, y, 0);
        lemma_reduce_clmul(a, b);
    }
    let ghost product = tword;
    let mut k: u32 = 15;
    while k > 8
        invariant
            8 <= k <= 15,
            tword < (1u32 << k),
            gf_reduce(tword) == gf_reduce(product),
        decreases k,
    {
        let i = k - 1;
        proof {
            lemma_reduce_step(tword, i);
        }
        if (tword >> i) & 1 != 0 {
            tword ^= 0x11b << (i - 8);
        }
        k = i;
    }
    proof {
        assert(gf_reduce(tword) == tword as u8 && tword as u8 == tword) by (bit_vector)
            requires
                tword < (1u32 << 8u32),
        ;
    }
    tword as u8
}

/// One step of the carry-less product loop: taking bit `i` of `b` into account.
proof fn lemma_clmul_step(a: u32, b: u32, i: u32)
    requires
        i < 8,
        a < 256,
        b < 256,
    ensures
        clmul8(a, b & !(0xffff_ffffu32 << (i + 1) as u32)) == clmul8(a, b & !(0xffff_ffffu32 << i)) ^ (
        if (b >> i) & 1 != 0 {
            a << i
        } else {
            0
        }),
{
    let i1 = (i + 1) as u32;
    assert(clmul8(a, b & !(0xffff_ffffu32 << i1)) == clmul8(a, b & !(0xffff_ffffu32 << i)) ^ (if (b
        >> i) & 1 != 0 {
        a << i
    } else {
        0
    })) by (bit_vector)
        requires
            i < 8,
            i1 == i + 1,
            a < 256,
            b < 256,
    ;
}

/// One step of the reduction loop: clearing bit `i` (`8 <= i < 15`) with a shifted copy of
/// `0x11B` leaves the remainder unchanged.
proof fn lemma_reduce_step(t: u32, i: u32)
    requires
        8 <= i < 15,
        t < (1u32 << (i + 1) as u32),
    ensures
        ({
            let t2 = if (t >> i) & 1 != 0 {
                t ^ (0x11bu32 << (i - 8) as u32)
            } else {
                t
            };
            t2 < (1u32 << i) && gf_reduce(t2) == gf_reduce(t)
        }),
{
    let i1 = (i + 1) as u32;
    let i8 = (i - 8) as u32;
    assert({
        let t2 = if (t >> i) & 1 != 0 {
            t ^ (0x11bu32 << i8)
        } else {
            t
        };
        t2 < (1u32 << i) && gf_reduce(t2) == gf_reduce(t)
    }) by (bit_vector)
        requires
            8 <= i < 15,
            i1 == i + 1,
            i8 == i - 8,
            t < (1u32 << i1),
    ;
}

/// Whether `r` is the `gf2p8affineqb` output byte for `matrix`, `src` and `imm8`.
pub open spec fn is_affine_byte(r: u8, matrix: u64, src: u8, imm8: u8) -> bool {
    forall|i: u8| i < 8 ==> (r >> i) & 1u8 == affine_bit(matrix, src, imm8, i)
}

/// `parity(x)`: XOR of all 8 bits of `x` (0 or 1).
pub fn parity(x: u8) -> (r: u8)
    ensures
        r == parity8(x),
{
    let p = x ^ (x >> 4u8);
    let q = p ^ (p >> 2u8);
    let t = q ^ (q >> 1u8);
    assert(t & 1u8 == parity8(x)) by (bit_vector)
        requires
            p == x ^ (x >> 4u8),
            q == p ^ (p >> 2u8),
            t == q ^ (q >> 1u8),
    ;
    t & 1
}

/// Setting bit `i` of a word whose bits `i..` are clear keeps the lower bits and stores `bit`.
proof fn lemma_set_bit(out: u8, bit: u8, i: u8)
    requires
        i < 8,
        bit <= 1,
        (out as u32) < (1u32 << i as u32),
    ensures
        ((out | (bit << i)) as u32) < (1u32 << (i + 1) as u32),
        ((out | (bit << i)) >> i) & 1u8 == bit,
        forall|j: u8| j < i ==> ((out | (bit << i)) >> j) & 1u8 == (out >> j) & 1u8,
{
    let i32 = i as u32;
    let i1 = (i + 1) as u32;
    assert(((out | (bit << i)) as u32) < (1u32 << i1) && ((out | (bit << i)) >> i) & 1u8 == bit)
        by (bit_vector)
        requires
            i < 8,
            i32 == i as u32,
            i1 == i32 + 1,
            bit <= 1,
            (out as u32) < (1u32 << i32),
    ;
    assert forall|j: u8| j < i implies ((out | (bit << i)) >> j) & 1u8 == (out >> j) & 1u8 by {
        assert(((out | (bit << i)) >> j) & 1u8 == (out >> j) & 1u8) by (bit_vector)
            requires
                j < i,
                i < 8,
                bit <= 1,
        ;
    }
}

/// One output byte of `gf2p8affine_epi64_epi8`: `retbyte.bit[i] = parity(matrix.byte[7-i]
/// AND src) XOR imm8.bit[i]`.
pub fn gf2p8affine_byte(matrix: u64, src: u8, imm8: u8) -> (r: u8)
    ensures
        is_affine_byte(r, matrix, src, imm8),
{
    let mut out: u8 = 0;
    let mut i: u8 = 0;
    proof {
        lemma_clmul_word(0, 0, 0);
    }
    while i < 8
        invariant
            i <= 8,
            (out as u32) < (1u32 << i as u32),
            forall|j: u8| j < i ==> (out >> j) & 1u8 == affine_bit(matrix, src, imm8, j),
        decreases 8 - i,
    {
        let matrix_byte = (matrix >> (8 * (7 - i)) as u64) as u8;
        let p = parity(matrix_byte & src);
        let bit = p ^ ((imm8 >> i) & 1);
        proof {
            lemma_xor_byte(matrix_byte & src, 0);
            lemma_xor_byte(p, imm8 >> i);
        }
        proof {
            lemma_set_bit(out, bit, i);
        }
        out = out | (bit << i);
        i += 1;
    }
    out
}

/// One output byte of `gf2p8affineinv_epi64_epi8`: same as [`gf2p8affine_byte`], but `src` is
/// first replaced by its GF(2^8) multiplicative inverse (`0 -> 0`, found by search).
pub fn gf2p8affineinv_byte(matrix: u64, src: u8, imm8: u8) -> (r: u8)
    ensures
        is_affine_byte(r, matrix, gf_inv(src), imm8),
{
    let inv = gf_inverse_search(src);
    gf2p8affine_byte(matrix, inv, imm8)
}

/// The multiplicative inverse of `s` by search over `1..=255` (`0 -> 0`).
pub(crate) fn gf_inverse_search(s: u8) -> (r: u8)
    ensures
        r == gf_inv(s),
{
    if s == 0 {
        proof {
            assert forall|x: u8| gf_mul(s, x) != 1 by {
                lemma_gf_mul_identity(x);
                lemma_gf_mul_commutative(s, x);
            }
        }
        return 0;
    }
    let mut x: u16 = 1;
    while x <= 255
        invariant
            1 <= x <= 256,
            forall|y: u8| 1 <= y < x ==> gf_mul(s, y) != 1,
        decreases 256 - x,
    {
        if gf2p8mul_byte(s, x as u8) == 1 {
            proof {
                lemma_gf_inv_is_inverse(s, x as u8);
            }
            return x as u8;
        }
        x += 1;
    }
    proof {
        assert forall|y: u8| gf_mul(s, y) != 1 by {
            if y == 0 {
                lemma_gf_mul_identity(s);
            }
        }
    }
    0
}

/// Applies [`gf2p8affine_byte`] (or [`gf2p8affineinv_byte`] when `inv`) to every byte of an
/// 8-byte (one 64-bit lane's worth of) input, given that lane's matrix qword.
pub fn affine_lane(matrix: u64, x: [u8; 8], imm8: u8, inv: bool) -> (r: [u8; 8])
    ensures
        forall|k: int|
            0 <= k < 8 ==> is_affine_byte(
                r[k],
                matrix,
                if inv {
                    gf_inv(x[k])
                } else {
                    x[k]
                },
                imm8,
            ),
{
    let mut out = [0u8; 8];
    let mut k: usize = 0;
    while k < 8
        invariant
            k <= 8,
            forall|j: int|
                0 <= j < k ==> is_affine_byte(
                    out[j],
                    matrix,
                    if inv {
                        gf_inv(x[j])
                    } else {
                        x[j]
                    },
                    imm8,
                ),
        decreases 8 - k,
    {
        out[k] = if inv {
            gf2p8affineinv_byte(matrix, x[k], imm8)
        } else {
            gf2p8affine_byte(matrix, x[k], imm8)
        };
        k += 1;
    }
    out
}

/// The little-endian quadword `m[8j..8j + 8]`.
pub(crate) fn qword_at(m: &[u8], j: usize) -> (r: u64)
    requires
        8 * j + 8 <= m.len(),
    ensures
        r == le_qword(m@, j as int),
{
    let b = 8 * j;
    (m[b] as u64) | ((m[b + 1] as u64) << 8u64) | ((m[b + 2] as u64) << 16u64) | ((m[b + 3] as u64)
        << 24u64) | ((m[b + 4] as u64) << 32u64) | ((m[b + 5] as u64) << 40u64) | ((m[b + 6] as u64)
        << 48u64) | ((m[b + 7] as u64) << 56u64)
}

/// Proof token: GFNI available (128/256-bit ops). Zero-sized, `Copy`.
#[derive(Debug, Clone, Copy)]
pub struct Gfni(());

/// Proof token: GFNI *and* AVX-512F, both required for the 512-bit forms. Real hardware has
/// GFNI without AVX-512F, so this is a genuine second check. Zero-sized, `Copy`.
#[derive(Debug, Clone, Copy)]
pub struct Gfni512(());

impl Gfni {
    /// From a raw feature bitset (e.g. `x86::detect_features()`).
    pub fn from_features(set: FeatureSet) -> (r: Option<Self>)
        ensures
            r is Some <==> set@.contains(Feature::Gfni),
    {
        if set.contains(Feature::Gfni) {
            Some(Gfni(()))
        } else {
            None
        }
    }
}

impl Gfni512 {
    /// `None` unless the set has both GFNI and AVX-512F.
    pub fn from_features(set: FeatureSet) -> (r: Option<Self>)
        ensures
            r is Some <==> set@.contains(Feature::Gfni) && set@.contains(Feature::Avx512f),
    {
        if set.contains(Feature::Gfni) && set.contains(Feature::Avx512f) {
            Some(Gfni512(()))
        } else {
            None
        }
    }
}

impl Gfni {
    /// Per-byte GF(2^8) multiply, reduction `0x11B` (`vgf2p8mulb`, 128-bit).
    pub fn gf2p8mul_epi8_u8x16(self, a: [u8; 16], b: [u8; 16]) -> (r: [u8; 16])
        ensures
            forall|i: int| 0 <= i < 16 ==> r[i] == gf_mul(a[i], b[i]),
    {
        let mut out = [0u8; 16];
        let mut i: usize = 0;
        while i < 16
            invariant
                i <= 16,
                forall|j: int| 0 <= j < i ==> out[j] == gf_mul(a[j], b[j]),
            decreases 16 - i,
        {
            out[i] = gf2p8mul_byte(a[i], b[i]);
            i += 1;
        }
        out
    }

    /// GF(2^8) affine transform per byte with an 8x8 bit matrix per 64-bit lane
    /// (`vgf2p8affineqb`, 128-bit): byte `k` of the result is the affine image of `x[k]` under the
    /// little-endian matrix quadword of lane `k / 8`, plus `B`.
    pub fn gf2p8affine_epi64_epi8_u8x16<const B: u8>(self, x: [u8; 16], matrix: [u8; 16]) -> (r: [u8; 16])
        ensures
            forall|k: int| 0 <= k < 16 ==> is_affine_byte(r[k], le_qword(matrix@, k / 8), x[k], B),
    {
        let m = matrix.as_slice();
        let mut out = [0u8; 16];
        let mut k: usize = 0;
        while k < 16
            invariant
                k <= 16,
                m@ == matrix@,
                forall|j: int| 0 <= j < k ==> is_affine_byte(out[j], le_qword(matrix@, j / 8), x[j], B),
            decreases 16 - k,
        {
            let q = qword_at(m, k / 8);
            out[k] = gf2p8affine_byte(q, x[k], B);
            k += 1;
        }
        out
    }

    /// GF(2^8) affine transform of the multiplicative inverse per byte
    /// (`vgf2p8affineinvqb`, 128-bit).
    pub fn gf2p8affineinv_epi64_epi8_u8x16<const B: u8>(self, x: [u8; 16], matrix: [u8; 16]) -> (r: [u8; 16])
        ensures
            forall|k: int|
                0 <= k < 16 ==> is_affine_byte(r[k], le_qword(matrix@, k / 8), gf_inv(x[k]), B),
    {
        let m = matrix.as_slice();
        let mut out = [0u8; 16];
        let mut k: usize = 0;
        while k < 16
            invariant
                k <= 16,
                m@ == matrix@,
                forall|j: int|
                    0 <= j < k ==> is_affine_byte(out[j], le_qword(matrix@, j / 8), gf_inv(x[j]), B),
            decreases 16 - k,
        {
            let q = qword_at(m, k / 8);
            out[k] = gf2p8affineinv_byte(q, x[k], B);
            k += 1;
        }
        out
    }

    /// Slice form of [`Gfni::gf2p8mul_epi8_u8x16`]: `out[i] = gf_mul(a[i], b[i])`, 16-wide chunks,
    /// scalar remainder.
    ///
    /// # Panics
    /// `a.len() != b.len() || out.len() != a.len()`.
    pub fn gf2p8mul_epi8_slice_u8x16(self, a: &[u8], b: &[u8], out: &mut [u8])
        requires
            a@.len() == b@.len(),
            old(out)@.len() == a@.len(),
        ensures
            final(out)@.len() == a@.len(),
            forall|i: int| 0 <= i < a@.len() ==> final(out)@[i] == gf_mul(a@[i], b@[i]),
    {
        let len = a.len();
        let mut i: usize = 0;
        while len - i >= 16
            invariant
                i <= len,
                len == a@.len(),
                len == b@.len(),
                out@.len() == len,
                forall|j: int| 0 <= j < i ==> out@[j] == gf_mul(a@[j], b@[j]),
            decreases len - i,
        {
            let r = self.gf2p8mul_epi8_u8x16(loadu_u8x16(a, i), loadu_u8x16(b, i));
            storeu_u8x16(out, i, r);
            i += 16;
        }
        while i < len
            invariant
                i <= len,
                len == a@.len(),
                len == b@.len(),
                out@.len() == len,
                forall|j: int| 0 <= j < i ==> out@[j] == gf_mul(a@[j], b@[j]),
            decreases len - i,
        {
            out[i] = gf2p8mul_byte(a[i], b[i]);
            i += 1;
        }
    }
}

impl Gfni {
    /// Per-byte GF(2^8) multiply, reduction `0x11B` (`vgf2p8mulb`, 256-bit).
    pub fn gf2p8mul_epi8_u8x32(self, a: [u8; 32], b: [u8; 32]) -> (r: [u8; 32])
        ensures
            forall|i: int| 0 <= i < 32 ==> r[i] == gf_mul(a[i], b[i]),
    {
        let mut out = [0u8; 32];
        let mut i: usize = 0;
        while i < 32
            invariant
                i <= 32,
                forall|j: int| 0 <= j < i ==> out[j] == gf_mul(a[j], b[j]),
            decreases 32 - i,
        {
            out[i] = gf2p8mul_byte(a[i], b[i]);
            i += 1;
        }
        out
    }

    /// GF(2^8) affine transform per byte with an 8x8 bit matrix per 64-bit lane
    /// (`vgf2p8affineqb`, 256-bit): byte `k` of the result is the affine image of `x[k]` under the
    /// little-endian matrix quadword of lane `k / 8`, plus `B`.
    pub fn gf2p8affine_epi64_epi8_u8x32<const B: u8>(self, x: [u8; 32], matrix: [u8; 32]) -> (r: [u8; 32])
        ensures
            forall|k: int| 0 <= k < 32 ==> is_affine_byte(r[k], le_qword(matrix@, k / 8), x[k], B),
    {
        let m = matrix.as_slice();
        let mut out = [0u8; 32];
        let mut k: usize = 0;
        while k < 32
            invariant
                k <= 32,
                m@ == matrix@,
                forall|j: int| 0 <= j < k ==> is_affine_byte(out[j], le_qword(matrix@, j / 8), x[j], B),
            decreases 32 - k,
        {
            let q = qword_at(m, k / 8);
            out[k] = gf2p8affine_byte(q, x[k], B);
            k += 1;
        }
        out
    }

    /// GF(2^8) affine transform of the multiplicative inverse per byte
    /// (`vgf2p8affineinvqb`, 256-bit).
    pub fn gf2p8affineinv_epi64_epi8_u8x32<const B: u8>(self, x: [u8; 32], matrix: [u8; 32]) -> (r: [u8; 32])
        ensures
            forall|k: int|
                0 <= k < 32 ==> is_affine_byte(r[k], le_qword(matrix@, k / 8), gf_inv(x[k]), B),
    {
        let m = matrix.as_slice();
        let mut out = [0u8; 32];
        let mut k: usize = 0;
        while k < 32
            invariant
                k <= 32,
                m@ == matrix@,
                forall|j: int|
                    0 <= j < k ==> is_affine_byte(out[j], le_qword(matrix@, j / 8), gf_inv(x[j]), B),
            decreases 32 - k,
        {
            let q = qword_at(m, k / 8);
            out[k] = gf2p8affineinv_byte(q, x[k], B);
            k += 1;
        }
        out
    }

    /// Slice form of [`Gfni::gf2p8mul_epi8_u8x32`]: `out[i] = gf_mul(a[i], b[i])`, 32-wide chunks,
    /// scalar remainder.
    ///
    /// # Panics
    /// `a.len() != b.len() || out.len() != a.len()`.
    pub fn gf2p8mul_epi8_slice_u8x32(self, a: &[u8], b: &[u8], out: &mut [u8])
        requires
            a@.len() == b@.len(),
            old(out)@.len() == a@.len(),
        ensures
            final(out)@.len() == a@.len(),
            forall|i: int| 0 <= i < a@.len() ==> final(out)@[i] == gf_mul(a@[i], b@[i]),
    {
        let len = a.len();
        let mut i: usize = 0;
        while len - i >= 32
            invariant
                i <= len,
                len == a@.len(),
                len == b@.len(),
                out@.len() == len,
                forall|j: int| 0 <= j < i ==> out@[j] == gf_mul(a@[j], b@[j]),
            decreases len - i,
        {
            let r = self.gf2p8mul_epi8_u8x32(loadu_u8x32(a, i), loadu_u8x32(b, i));
            storeu_u8x32(out, i, r);
            i += 32;
        }
        while i < len
            invariant
                i <= len,
                len == a@.len(),
                len == b@.len(),
                out@.len() == len,
                forall|j: int| 0 <= j < i ==> out@[j] == gf_mul(a@[j], b@[j]),
            decreases len - i,
        {
            out[i] = gf2p8mul_byte(a[i], b[i]);
            i += 1;
        }
    }
}

impl Gfni512 {
    /// Per-byte GF(2^8) multiply, reduction `0x11B` (`vgf2p8mulb`, 512-bit).
    pub fn gf2p8mul_epi8_u8x64(self, a: [u8; 64], b: [u8; 64]) -> (r: [u8; 64])
        ensures
            forall|i: int| 0 <= i < 64 ==> r[i] == gf_mul(a[i], b[i]),
    {
        let mut out = [0u8; 64];
        let mut i: usize = 0;
        while i < 64
            invariant
                i <= 64,
                forall|j: int| 0 <= j < i ==> out[j] == gf_mul(a[j], b[j]),
            decreases 64 - i,
        {
            out[i] = gf2p8mul_byte(a[i], b[i]);
            i += 1;
        }
        out
    }

    /// GF(2^8) affine transform per byte with an 8x8 bit matrix per 64-bit lane
    /// (`vgf2p8affineqb`, 512-bit): byte `k` of the result is the affine image of `x[k]` under the
    /// little-endian matrix quadword of lane `k / 8`, plus `B`.
    pub fn gf2p8affine_epi64_epi8_u8x64<const B: u8>(self, x: [u8; 64], matrix: [u8; 64]) -> (r: [u8; 64])
        ensures
            forall|k: int| 0 <= k < 64 ==> is_affine_byte(r[k], le_qword(matrix@, k / 8), x[k], B),
    {
        let m = matrix.as_slice();
        let mut out = [0u8; 64];
        let mut k: usize = 0;
        while k < 64
            invariant
                k <= 64,
                m@ == matrix@,
                forall|j: int| 0 <= j < k ==> is_affine_byte(out[j], le_qword(matrix@, j / 8), x[j], B),
            decreases 64 - k,
        {
            let q = qword_at(m, k / 8);
            out[k] = gf2p8affine_byte(q, x[k], B);
            k += 1;
        }
        out
    }

    /// GF(2^8) affine transform of the multiplicative inverse per byte
    /// (`vgf2p8affineinvqb`, 512-bit).
    pub fn gf2p8affineinv_epi64_epi8_u8x64<const B: u8>(self, x: [u8; 64], matrix: [u8; 64]) -> (r: [u8; 64])
        ensures
            forall|k: int|
                0 <= k < 64 ==> is_affine_byte(r[k], le_qword(matrix@, k / 8), gf_inv(x[k]), B),
    {
        let m = matrix.as_slice();
        let mut out = [0u8; 64];
        let mut k: usize = 0;
        while k < 64
            invariant
                k <= 64,
                m@ == matrix@,
                forall|j: int|
                    0 <= j < k ==> is_affine_byte(out[j], le_qword(matrix@, j / 8), gf_inv(x[j]), B),
            decreases 64 - k,
        {
            let q = qword_at(m, k / 8);
            out[k] = gf2p8affineinv_byte(q, x[k], B);
            k += 1;
        }
        out
    }
}

} // verus!
