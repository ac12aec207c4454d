//! Integer identities behind the composed lane ops: 64-bit multiply from 32-bit
//! halves, the two's-complement view of wrapping multiply, and branchless abs.

use vstd::arithmetic::div_mod::{lemma_fundamental_div_mod, lemma_mod_multiples_vanish};
use vstd::prelude::*;

verus! {

/// The 64-bit word facts used below: splitting into 32-bit halves, shifting
/// left by 32, reinterpreting between `u64` and `i64`, and the broadcast sign.
proof fn lemma_word64(x: u64, a: i64)
    by (bit_vector)
    ensures
        x << 32u64 == (x & 0xffff_ffffu64) * 0x1_0000_0000u64,
        x & 0xffff_ffffu64 == x % 0x1_0000_0000u64,
        x == (x >> 32u64) * 0x1_0000_0000u64 + (x & 0xffff_ffffu64),
        x >> 32u64 < 0x1_0000_0000u64,
        x & 0xffff_ffffu64 < 0x1_0000_0000u64,
        x as i64 as int == if x > 0x7fff_ffff_ffff_ffffu64 {
            x - 0x1_0000_0000_0000_0000int
        } else {
            x as int
        },
        a as u64 as int == if a < 0 { a + 0x1_0000_0000_0000_0000int } else { a as int },
        a < 0 ==> (a >> 63u64 == -1i64 && a ^ -1i64 == -1 - a),
        a >= 0 ==> (a >> 63u64 == 0i64 && a ^ 0i64 == a),
{
}

proof fn lemma_shl32(x: u64)
    ensures x << 32u64 == (x % 0x1_0000_0000) * 0x1_0000_0000,
{
    lemma_word64(x, 0);
}

proof fn lemma_split(a: u64)
    ensures
        a == (a >> 32u64) * 0x1_0000_0000 + (a & 0xffff_ffffu64),
        a >> 32u64 < 0x1_0000_0000,
        a & 0xffff_ffffu64 < 0x1_0000_0000,
{
    lemma_word64(a, 0);
}

/// Low 64 bits of a 64x64 product from its 32-bit halves.
pub proof fn lemma_mullo_halves(a: u64, b: u64)
    ensures
        ({
            let al = a & 0xffff_ffffu64;
            let ah = a >> 32u64;
            let bl = b & 0xffff_ffffu64;
            let bh = b >> 32u64;
            let low = (al * bl) as u64;
            let cross = ((ah * bl) as u64).wrapping_add((al * bh) as u64);
            &&& al * bl <= u64::MAX
            &&& ah * bl <= u64::MAX
            &&& al * bh <= u64::MAX
            &&& low.wrapping_add(cross << 32u64) == a.wrapping_mul(b)
        }),
{
    let al = a & 0xffff_ffffu64;
    let ah = a >> 32u64;
    let bl = b & 0xffff_ffffu64;
    let bh = b >> 32u64;
    lemma_split(a);
    lemma_split(b);
    let p32: int = 0x1_0000_0000;
    let p64: int = 0x1_0000_0000_0000_0000;
    assert(al * bl <= (p32 - 1) * (p32 - 1)) by (nonlinear_arith)
        requires 0 <= al < p32, 0 <= bl < p32;
    assert(ah * bl <= (p32 - 1) * (p32 - 1)) by (nonlinear_arith)
        requires 0 <= ah < p32, 0 <= bl < p32;
    assert(al * bh <= (p32 - 1) * (p32 - 1)) by (nonlinear_arith)
        requires 0 <= al < p32, 0 <= bh < p32;
    let c: int = ah * bl + al * bh;
    let low = (al * bl) as u64;
    let cross = ((ah * bl) as u64).wrapping_add((al * bh) as u64);
    // cross is c modulo 2^64, hence agrees with c modulo 2^32
    assert(cross as int % p32 == c % p32) by {
        if c > u64::MAX {
            assert(cross as int == c - p64);
            lemma_mod_multiples_vanish(-p32, c, p32);
            assert(p32 * -p32 == -p64) by (nonlinear_arith)
                requires
                    p32 == 0x1_0000_0000int,
                    p64 == 0x1_0000_0000_0000_0000int,
            ;
        } else {
            assert(cross as int == c);
        }
    }
    lemma_shl32(cross);
    let sh = cross << 32u64;
    assert(sh as int == (c % p32) * p32);
    // a*b = (ah*bh + c / 2^32) * 2^64 + (al*bl + (c % 2^32) * 2^32)
    lemma_fundamental_div_mod(c, p32);
    let q = ah * bh + c / p32;
    let x: int = ah * p32;
    let y: int = bh * p32;
    assert(a * b == x * y + (x * bl + al * y) + al * bl) by (nonlinear_arith)
        requires
            a == x + al,
            b == y + bl,
    ;
    assert(x * y == (ah * bh) * p64) by (nonlinear_arith)
        requires
            x == ah * p32,
            y == bh * p32,
            p64 == p32 * p32,
    ;
    assert(x * bl + al * y == c * p32) by (nonlinear_arith)
        requires
            x == ah * p32,
            y == bh * p32,
            c == ah * bl + al * bh,
    ;
    assert(c * p32 == (c / p32) * p64 + (c % p32) * p32) by (nonlinear_arith)
        requires
            c == p32 * (c / p32) + c % p32,
            p64 == p32 * p32,
    ;
    assert(a * b == q * p64 + (al * bl + (c % p32) * p32)) by (nonlinear_arith)
        requires
            a * b == x * y + (x * bl + al * y) + al * bl,
            x * y == (ah * bh) * p64,
            x * bl + al * y == c * p32,
            c * p32 == (c / p32) * p64 + (c % p32) * p32,
            q == ah * bh + c / p32,
    ;
    lemma_mod_multiples_vanish(q, al * bl + (c % p32) * p32, p64);
    assert(p64 * q == q * p64) by (nonlinear_arith);
    // wrapping_add(low, sh) is (low + sh) mod 2^64
    let s: int = al * bl + (c % p32) * p32;
    assert(0 <= s < 2 * p64) by (nonlinear_arith)
        requires 0 <= al * bl < p64, 0 <= c % p32 < p32, s == al * bl + (c % p32) * p32, p64 == p32 * p32;
    if s >= p64 {
        lemma_mod_multiples_vanish(-1, s, p64);
    }
}

proof fn lemma_u64_as_i64(u: u64)
    ensures
        u as i64 as int == if u > i64::MAX { u - 0x1_0000_0000_0000_0000int } else { u as int },
{
    lemma_word64(u, 0);
}

proof fn lemma_i64_as_u64(a: i64)
    ensures
        a as u64 as int == if a < 0 { a + 0x1_0000_0000_0000_0000int } else { a as int },
{
    lemma_word64(0, a);
}

/// Wrapping multiply is the same on the two's-complement bits of signed operands.
pub proof fn lemma_mullo_signed_view(a: i64, b: i64)
    ensures
        ((a as u64).wrapping_mul(b as u64)) as i64 == a.wrapping_mul(b),
{
    let p64: int = 0x1_0000_0000_0000_0000;
    let ua = a as u64;
    let ub = b as u64;
    lemma_i64_as_u64(a);
    lemma_i64_as_u64(b);
    let ka: int = if a < 0 { 1 } else { 0 };
    let kb: int = if b < 0 { 1 } else { 0 };
    assert(ua as int == a + ka * p64);
    assert(ub as int == b + kb * p64);
    let m: int = a * kb + b * ka + ka * kb * p64;
    assert((ua as int) * (ub as int) == a * b + m * p64) by (nonlinear_arith)
        requires
            ua as int == a + ka * p64,
            ub as int == b + kb * p64,
            m == a * kb + b * ka + ka * kb * p64,
    ;
    lemma_mod_multiples_vanish(m, a * b, p64);
    assert(p64 * m + a * b == a * b + m * p64) by (nonlinear_arith);
    let w = ua.wrapping_mul(ub);
    assert(w as int == (a * b) % p64);
    lemma_u64_as_i64(w);
}
/// `i64::wrapping_abs`: `|a|`, with `i64::MIN` mapped to itself.
pub open spec fn wrapping_abs_i64(a: i64) -> i64 {
    if a == i64::MIN { a } else if a < 0 { -a as i64 } else { a }
}

/// Branchless abs: XOR with the broadcast sign, then subtract it.
pub proof fn lemma_abs_sign_mask(a: i64)
    ensures
        (a ^ (a >> 63u64)).wrapping_sub(a >> 63u64) == wrapping_abs_i64(a),
{
    let m = a >> 63u64;
    let x = a ^ m;
    lemma_word64(0, a);
}

} // verus!
