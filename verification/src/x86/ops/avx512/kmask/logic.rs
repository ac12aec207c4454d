//! k-mask bitwise logic (`kand`/`kor`/`kxor`/`kxnor`/`kandn`/`knot`) plus wrapping add
//! (`kadd`), `u8`/`u16`/`u32`/`u64`. See [`super`] for feature gating.

use vstd::prelude::*;

use super::super::avx512bw::Avx512Bw;
use super::super::avx512dq::Avx512Dq;
use super::super::avx512f::Avx512f;

verus! {

impl Avx512f {
    /// Bitwise AND of two 16-bit masks (`kandw`).
    pub fn kand_mask16(self, a: u16, b: u16) -> (r: u16)
        ensures
            r == a & b,
    {
        a & b
    }

    /// Bitwise OR of two 16-bit masks (`korw`).
    pub fn kor_mask16(self, a: u16, b: u16) -> (r: u16)
        ensures
            r == a | b,
    {
        a | b
    }

    /// Bitwise XOR of two 16-bit masks (`kxorw`).
    pub fn kxor_mask16(self, a: u16, b: u16) -> (r: u16)
        ensures
            r == a ^ b,
    {
        a ^ b
    }

    /// Bitwise XNOR of two 16-bit masks (`kxnorw`).
    pub fn kxnor_mask16(self, a: u16, b: u16) -> (r: u16)
        ensures
            r == !(a ^ b),
    {
        !(a ^ b)
    }

    /// Bitwise NOT of `a` ANDed with `b`, 16-bit masks (`kandnw`).
    pub fn kandn_mask16(self, a: u16, b: u16) -> (r: u16)
        ensures
            r == !a & b,
    {
        !a & b
    }

    /// Bitwise NOT of a 16-bit mask (`knotw`).
    pub fn knot_mask16(self, a: u16) -> (r: u16)
        ensures
            r == !a,
    {
        !a
    }
}

impl Avx512Dq {
    /// Bitwise AND of two 8-bit masks (`kandb`).
    pub fn kand_mask8(self, a: u8, b: u8) -> (r: u8)
        ensures
            r == a & b,
    {
        a & b
    }

    /// Bitwise OR of two 8-bit masks (`korb`).
    pub fn kor_mask8(self, a: u8, b: u8) -> (r: u8)
        ensures
            r == a | b,
    {
        a | b
    }

    /// Bitwise XOR of two 8-bit masks (`kxorb`).
    pub fn kxor_mask8(self, a: u8, b: u8) -> (r: u8)
        ensures
            r == a ^ b,
    {
        a ^ b
    }

    /// Bitwise XNOR of two 8-bit masks (`kxnorb`).
    pub fn kxnor_mask8(self, a: u8, b: u8) -> (r: u8)
        ensures
            r == !(a ^ b),
    {
        !(a ^ b)
    }

    /// Bitwise NOT of `a` ANDed with `b`, 8-bit masks (`kandnb`).
    pub fn kandn_mask8(self, a: u8, b: u8) -> (r: u8)
        ensures
            r == !a & b,
    {
        !a & b
    }

    /// Sum of two 8-bit masks, wrapping (`kaddb`).
    pub fn kadd_mask8(self, a: u8, b: u8) -> (r: u8)
        ensures
            r == a.wrapping_add(b),
    {
        a.wrapping_add(b)
    }

    /// Bitwise NOT of a 8-bit mask (`knotb`).
    pub fn knot_mask8(self, a: u8) -> (r: u8)
        ensures
            r == !a,
    {
        !a
    }
}

impl Avx512Dq {
    /// Sum of two 16-bit masks, wrapping (`kaddw`).
    pub fn kadd_mask16(self, a: u16, b: u16) -> (r: u16)
        ensures
            r == a.wrapping_add(b),
    {
        a.wrapping_add(b)
    }
}

impl Avx512Bw {
    /// Bitwise AND of two 32-bit masks (`kandd`).
    pub fn kand_mask32(self, a: u32, b: u32) -> (r: u32)
        ensures
            r == a & b,
    {
        a & b
    }

    /// Bitwise OR of two 32-bit masks (`kord`).
    pub fn kor_mask32(self, a: u32, b: u32) -> (r: u32)
        ensures
            r == a | b,
    {
        a | b
    }

    /// Bitwise XOR of two 32-bit masks (`kxord`).
    pub fn kxor_mask32(self, a: u32, b: u32) -> (r: u32)
        ensures
            r == a ^ b,
    {
        a ^ b
    }

    /// Bitwise XNOR of two 32-bit masks (`kxnord`).
    pub fn kxnor_mask32(self, a: u32, b: u32) -> (r: u32)
        ensures
            r == !(a ^ b),
    {
        !(a ^ b)
    }

    /// Bitwise NOT of `a` ANDed with `b`, 32-bit masks (`kandnd`).
    pub fn kandn_mask32(self, a: u32, b: u32) -> (r: u32)
        ensures
            r == !a & b,
    {
        !a & b
    }

    /// Sum of two 32-bit masks, wrapping (`kaddd`).
    pub fn kadd_mask32(self, a: u32, b: u32) -> (r: u32)
        ensures
            r == a.wrapping_add(b),
    {
        a.wrapping_add(b)
    }

    /// Bitwise NOT of a 32-bit mask (`knotd`).
    pub fn knot_mask32(self, a: u32) -> (r: u32)
        ensures
            r == !a,
    {
        !a
    }
}

impl Avx512Bw {
    /// Bitwise AND of two 64-bit masks (`kandq`).
    pub fn kand_mask64(self, a: u64, b: u64) -> (r: u64)
        ensures
            r == a & b,
    {
        a & b
    }

    /// Bitwise OR of two 64-bit masks (`korq`).
    pub fn kor_mask64(self, a: u64, b: u64) -> (r: u64)
        ensures
            r == a | b,
    {
        a | b
    }

    /// Bitwise XOR of two 64-bit masks (`kxorq`).
    pub fn kxor_mask64(self, a: u64, b: u64) -> (r: u64)
        ensures
            r == a ^ b,
    {
        a ^ b
    }

    /// Bitwise XNOR of two 64-bit masks (`kxnorq`).
    pub fn kxnor_mask64(self, a: u64, b: u64) -> (r: u64)
        ensures
            r == !(a ^ b),
    {
        !(a ^ b)
    }

    /// Bitwise NOT of `a` ANDed with `b`, 64-bit masks (`kandnq`).
    pub fn kandn_mask64(self, a: u64, b: u64) -> (r: u64)
        ensures
            r == !a & b,
    {
        !a & b
    }

    /// Sum of two 64-bit masks, wrapping (`kaddq`).
    pub fn kadd_mask64(self, a: u64, b: u64) -> (r: u64)
        ensures
            r == a.wrapping_add(b),
    {
        a.wrapping_add(b)
    }

    /// Bitwise NOT of a 64-bit mask (`knotq`).
    pub fn knot_mask64(self, a: u64) -> (r: u64)
        ensures
            r == !a,
    {
        !a
    }
}

} // verus!
