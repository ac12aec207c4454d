//! k-mask flag predicates (`kortest`/`ktest`, `u8`/`u16`/`u32`/`u64`). CF/ZF are returned as
//! `bool` rather than a mask value. See [`super`] for feature gating.

use vstd::prelude::*;

use super::super::avx512bw::Avx512Bw;
use super::super::avx512dq::Avx512Dq;
use super::super::avx512f::Avx512f;

verus! {

impl Avx512f {
    /// `true` iff `a | b` is all-ones, 16-bit masks (`kortestw`, CF).
    pub fn kortestc_mask16(self, a: u16, b: u16) -> (r: bool)
        ensures
            r == ((a | b) == u16::MAX),
    {
        (a | b) == u16::MAX
    }

    /// `true` iff `a | b` is all-zero, 16-bit masks (`kortestw`, ZF).
    pub fn kortestz_mask16(self, a: u16, b: u16) -> (r: bool)
        ensures
            r == ((a | b) == 0),
    {
        (a | b) == 0
    }
}

impl Avx512Dq {
    /// `true` iff `a | b` is all-ones, 8-bit masks (`kortestb`, CF).
    pub fn kortestc_mask8(self, a: u8, b: u8) -> (r: bool)
        ensures
            r == ((a | b) == u8::MAX),
    {
        (a | b) == u8::MAX
    }

    /// `true` iff `a | b` is all-zero, 8-bit masks (`kortestb`, ZF).
    pub fn kortestz_mask8(self, a: u8, b: u8) -> (r: bool)
        ensures
            r == ((a | b) == 0),
    {
        (a | b) == 0
    }

    /// `true` iff `!a & b` is all-zero, 8-bit masks (`ktestb`, CF).
    pub fn ktestc_mask8(self, a: u8, b: u8) -> (r: bool)
        ensures
            r == ((!a & b) == 0),
    {
        (!a & b) == 0
    }

    /// `true` iff `a & b` is all-zero, 8-bit masks (`ktestb`, ZF).
    pub fn ktestz_mask8(self, a: u8, b: u8) -> (r: bool)
        ensures
            r == ((a & b) == 0),
    {
        (a & b) == 0
    }
}

impl Avx512Dq {
    /// `true` iff `!a & b` is all-zero, 16-bit masks (`ktestw`, CF); needs AVX-512DQ.
    pub fn ktestc_mask16(self, a: u16, b: u16) -> (r: bool)
        ensures
            r == ((!a & b) == 0),
    {
        (!a & b) == 0
    }

    /// `true` iff `a & b` is all-zero, 16-bit masks (`ktestw`, ZF); needs AVX-512DQ.
    pub fn ktestz_mask16(self, a: u16, b: u16) -> (r: bool)
        ensures
            r == ((a & b) == 0),
    {
        (a & b) == 0
    }
}

impl Avx512Bw {
    /// `true` iff `a | b` is all-ones, 32-bit masks (`kortestd`, CF).
    pub fn kortestc_mask32(self, a: u32, b: u32) -> (r: bool)
        ensures
            r == ((a | b) == u32::MAX),
    {
        (a | b) == u32::MAX
    }

    /// `true` iff `a | b` is all-zero, 32-bit masks (`kortestd`, ZF).
    pub fn kortestz_mask32(self, a: u32, b: u32) -> (r: bool)
        ensures
            r == ((a | b) == 0),
    {
        (a | b) == 0
    }

    /// `true` iff `!a & b` is all-zero, 32-bit masks (`ktestd`, CF).
    pub fn ktestc_mask32(self, a: u32, b: u32) -> (r: bool)
        ensures
            r == ((!a & b) == 0),
    {
        (!a & b) == 0
    }

    /// `true` iff `a & b` is all-zero, 32-bit masks (`ktestd`, ZF).
    pub fn ktestz_mask32(self, a: u32, b: u32) -> (r: bool)
        ensures
            r == ((a & b) == 0),
    {
        (a & b) == 0
    }
}

impl Avx512Bw {
    /// `true` iff `a | b` is all-ones, 64-bit masks (`kortestq`, CF).
    pub fn kortestc_mask64(self, a: u64, b: u64) -> (r: bool)
        ensures
            r == ((a | b) == u64::MAX),
    {
        (a | b) == u64::MAX
    }

    /// `true` iff `a | b` is all-zero, 64-bit masks (`kortestq`, ZF).
    pub fn kortestz_mask64(self, a: u64, b: u64) -> (r: bool)
        ensures
            r == ((a | b) == 0),
    {
        (a | b) == 0
    }

    /// `true` iff `!a & b` is all-zero, 64-bit masks (`ktestq`, CF).
    pub fn ktestc_mask64(self, a: u64, b: u64) -> (r: bool)
        ensures
            r == ((!a & b) == 0),
    {
        (!a & b) == 0
    }

    /// `true` iff `a & b` is all-zero, 64-bit masks (`ktestq`, ZF).
    pub fn ktestz_mask64(self, a: u64, b: u64) -> (r: bool)
        ensures
            r == ((a & b) == 0),
    {
        (a & b) == 0
    }
}

} // verus!
