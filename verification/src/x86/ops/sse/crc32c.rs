//! SSE4.2 `crc32`: the CRC-32C (Castagnoli) accumulator on the [`Sse42`] token.
//!
//! The instruction runs the bit-reflected CRC with polynomial `0x82F63B78` over the bytes of
//! its source, least significant byte first, and applies no initial or final inversion: the
//! caller keeps the running value.

use vstd::prelude::*;

use super::sse42::Sse42;

verus! {

/// One bit step of the reflected CRC-32C register.
pub open spec fn crc32c_step(crc: u32) -> u32 {
    if crc & 1u32 == 1u32 {
        (crc >> 1u32) ^ 0x82f6_3b78u32
    } else {
        crc >> 1u32
    }
}

/// `n` bit steps of the register.
pub open spec fn crc32c_steps(crc: u32, n: nat) -> u32
    decreases n,
{
    if n == 0 {
        crc
    } else {
        crc32c_step(crc32c_steps(crc, (n - 1) as nat))
    }
}

/// The register after taking in one byte.
pub open spec fn crc32c_byte(crc: u32, b: u8) -> u32 {
    crc32c_steps(crc ^ (b as u32), 8)
}

/// The register after taking in `bytes`, first to last.
pub open spec fn crc32c_bytes(crc: u32, bytes: Seq<u8>) -> u32
    decreases bytes.len(),
{
    if bytes.len() == 0 {
        crc
    } else {
        crc32c_byte(crc32c_bytes(crc, bytes.drop_last()), bytes.last())
    }
}

/// The little-endian bytes of a 16-bit value: byte `k` is `v >> 8k`, truncated.
pub open spec fn le_bytes_u16(v: u16) -> Seq<u8> {
    Seq::new(2, |k: int| (v >> (8 * k) as u16) as u8)
}

/// The little-endian bytes of a 32-bit value: byte `k` is `v >> 8k`, truncated.
pub open spec fn le_bytes_u32(v: u32) -> Seq<u8> {
    Seq::new(4, |k: int| (v >> (8 * k) as u32) as u8)
}

/// The little-endian bytes of a 64-bit value: byte `k` is `v >> 8k`, truncated.
pub open spec fn le_bytes_u64(v: u64) -> Seq<u8> {
    Seq::new(8, |k: int| (v >> (8 * k) as u64) as u8)
}

/// Taking in `a` and then `b` is taking in `a + b`: the running value can be fed in pieces
/// of any size.
pub proof fn lemma_crc32c_append(crc: u32, a: Seq<u8>, b: Seq<u8>)
    ensures
        crc32c_bytes(crc32c_bytes(crc, a), b) == crc32c_bytes(crc, a + b),
    decreases b.len(),
{
    if b.len() == 0 {
        assert(a + b =~= a);
    } else {
        lemma_crc32c_append(crc, a, b.drop_last());
        assert((a + b).drop_last() =~= a + b.drop_last());
        assert((a + b).last() == b.last());
    }
}

/// One byte into the register, bit by bit.
fn crc32c_byte_exec(crc: u32, b: u8) -> (r: u32)
    ensures
        r == crc32c_byte(crc, b),
{
    let mut c = crc ^ (b as u32);
    let mut i: u32 = 0;
    while i < 8
        invariant
            i <= 8,
            c == crc32c_steps(crc ^ (b as u32), i as nat),
        decreases 8 - i,
    {
        c = if c & 1 == 1 {
            (c >> 1) ^ 0x82f6_3b78
        } else {
            c >> 1
        };
        i += 1;
    }
    c
}

/// `n` little-endian bytes of `v` into the register, lowest first.
fn crc32c_le_exec(crc: u32, v: u64, n: u32) -> (r: u32)
    requires
        n <= 8,
    ensures
        r == crc32c_bytes(crc, le_bytes_u64(v).take(n as int)),
{
    let mut c = crc;
    let mut i: u32 = 0;
    while i < n
        invariant
            i <= n <= 8,
            c == crc32c_bytes(crc, le_bytes_u64(v).take(i as int)),
        decreases n - i,
    {
        let byte = (v >> (8 * i)) as u8;
        proof {
            let bs = le_bytes_u64(v);
            assert(bs.take(i + 1).drop_last() =~= bs.take(i as int));
            assert(bs[i as int] == byte);
        }
        c = crc32c_byte_exec(c, byte);
        i += 1;
    }
    c
}

impl Sse42 {
    /// Accumulates `byte` into the running CRC32-C `crc` (`crc32b`).
    pub fn crc32_u8(self, crc: u32, byte: u8) -> (r: u32)
        ensures
            r == crc32c_byte(crc, byte),
    {
        crc32c_byte_exec(crc, byte)
    }

    /// Accumulates `v`'s 2 little-endian bytes into the running CRC32-C `crc` (`crc32w`).
    pub fn crc32_u16(self, crc: u32, v: u16) -> (r: u32)
        ensures
            r == crc32c_bytes(crc, le_bytes_u16(v)),
    {
        let r = crc32c_le_exec(crc, v as u64, 2);
        proof {
            let w = v as u64;
            assert forall|k: int| 0 <= k < 2 implies le_bytes_u64(w).take(2)[k] == le_bytes_u16(v)[k] by {
                let kk = k as u16;
                assert((w >> (8 * kk) as u64) as u8 == (v >> (8 * kk) as u16) as u8) by (bit_vector)
                    requires
                        w == v as u64,
                        kk < 2,
                ;
            }
            assert(le_bytes_u64(w).take(2) =~= le_bytes_u16(v));
        }
        r
    }

    /// Accumulates `v`'s 4 little-endian bytes into the running CRC32-C `crc` (`crc32d`).
    pub fn crc32_u32(self, crc: u32, v: u32) -> (r: u32)
        ensures
            r == crc32c_bytes(crc, le_bytes_u32(v)),
    {
        let r = crc32c_le_exec(crc, v as u64, 4);
        proof {
            let w = v as u64;
            assert forall|k: int| 0 <= k < 4 implies le_bytes_u64(w).take(4)[k] == le_bytes_u32(v)[k] by {
                let kk = k as u32;
                assert((w >> (8 * kk) as u64) as u8 == (v >> (8 * kk) as u32) as u8) by (bit_vector)
                    requires
                        w == v as u64,
                        kk < 4,
                ;
            }
            assert(le_bytes_u64(w).take(4) =~= le_bytes_u32(v));
        }
        r
    }

    /// Accumulates `v`'s 8 little-endian bytes into the running CRC32-C in the low 32 bits of
    /// `crc` (`crc32q`); the result is zero-extended.
    pub fn crc32_u64(self, crc: u64, v: u64) -> (r: u64)
        ensures
            r == crc32c_bytes(crc as u32, le_bytes_u64(v)) as u64,
    {
        let r = crc32c_le_exec(crc as u32, v, 8);
        proof {
            assert(le_bytes_u64(v).take(8) =~= le_bytes_u64(v));
        }
        r as u64
    }
}

} // verus!
