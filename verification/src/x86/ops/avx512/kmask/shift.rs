//! k-mask shifts (`kshiftl`/`kshiftr`, zero-filled) for `u8`/`u16`/`u32`/`u64`. A count of the
//! mask's width or more clears the mask. See [`super`] for feature gating.

use vstd::prelude::*;

use super::super::avx512bw::Avx512Bw;
use super::super::avx512dq::Avx512Dq;
use super::super::avx512f::Avx512f;

verus! {

impl Avx512f {
    /// Shift a 16-bit mask left by `IMM` bits, zero-filled (`kshiftlw`).
    pub fn kshiftli_mask16<const IMM: u32>(self, a: u16) -> (r: u16)
        ensures
            r == if IMM < 16 { a << IMM } else { 0 },
    {
        if IMM < 16 {
            a << IMM
        } else {
            0
        }
    }

    /// Shift a 16-bit mask right by `IMM` bits, zero-filled (`kshiftrw`).
    pub fn kshiftri_mask16<const IMM: u32>(self, a: u16) -> (r: u16)
        ensures
            r == if IMM < 16 { a >> IMM } else { 0 },
    {
        if IMM < 16 {
            a >> IMM
        } else {
            0
        }
    }
}

impl Avx512Dq {
    /// Shift a 8-bit mask left by `IMM` bits, zero-filled (`kshiftlb`).
    pub fn kshiftli_mask8<const IMM: u32>(self, a: u8) -> (r: u8)
        ensures
            r == if IMM < 8 { a << IMM } else { 0 },
    {
        if IMM < 8 {
            a << IMM
        } else {
            0
        }
    }

    /// Shift a 8-bit mask right by `IMM` bits, zero-filled (`kshiftrb`).
    pub fn kshiftri_mask8<const IMM: u32>(self, a: u8) -> (r: u8)
        ensures
            r == if IMM < 8 { a >> IMM } else { 0 },
    {
        if IMM < 8 {
            a >> IMM
        } else {
            0
        }
    }
}

impl Avx512Bw {
    /// Shift a 32-bit mask left by `IMM` bits, zero-filled (`kshiftld`).
    pub fn kshiftli_mask32<const IMM: u32>(self, a: u32) -> (r: u32)
        ensures
            r == if IMM < 32 { a << IMM } else { 0 },
    {
        if IMM < 32 {
            a << IMM
        } else {
            0
        }
    }

    /// Shift a 32-bit mask right by `IMM` bits, zero-filled (`kshiftrd`).
    pub fn kshiftri_mask32<const IMM: u32>(self, a: u32) -> (r: u32)
        ensures
            r == if IMM < 32 { a >> IMM } else { 0 },
    {
        if IMM < 32 {
            a >> IMM
        } else {
            0
        }
    }

    /// Shift a 64-bit mask left by `IMM` bits, zero-filled (`kshiftlq`).
    pub fn kshiftli_mask64<const IMM: u32>(self, a: u64) -> (r: u64)
        ensures
            r == if IMM < 64 { a << IMM } else { 0 },
    {
        if IMM < 64 {
            a << IMM
        } else {
            0
        }
    }

    /// Shift a 64-bit mask right by `IMM` bits, zero-filled (`kshiftrq`).
    pub fn kshiftri_mask64<const IMM: u32>(self, a: u64) -> (r: u64)
        ensures
            r == if IMM < 64 { a >> IMM } else { 0 },
    {
        if IMM < 64 {
            a >> IMM
        } else {
            0
        }
    }
}

} // verus!
