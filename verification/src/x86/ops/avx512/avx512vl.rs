//! AVX-512 VL: the 128/256-bit forms of the AVX-512 extensions. Each token proves the
//! extension *and* AVX512VL.

use vstd::prelude::*;

use super::super::super::{Feature, FeatureSet};
use super::super::other::gfni::{le_qword, qword_at};

verus! {

/// Proof token: AVX512BITALG *and* AVX512VL, for the 128/256-bit forms. Zero-sized, `Copy`.
#[derive(Debug, Clone, Copy)]
pub struct Avx512BitalgVl(());

impl Avx512BitalgVl {
    /// `None` unless the set has both AVX512BITALG and AVX512VL.
    pub fn from_features(set: FeatureSet) -> (r: Option<Self>)
        ensures
            r is Some <==> set@.contains(Feature::Avx512bitalg) && set@.contains(Feature::Avx512vl),
    {
        if set.contains(Feature::Avx512bitalg) && set.contains(Feature::Avx512vl) {
            Some(Avx512BitalgVl(()))
        } else {
            None
        }
    }
}

/// Proof token: AVX512DQ *and* AVX512VL, for the 128/256-bit forms. Zero-sized, `Copy`.
#[derive(Debug, Clone, Copy)]
pub struct Avx512DqVl(());

impl Avx512DqVl {
    /// `None` unless the set has both AVX512DQ and AVX512VL.
    pub fn from_features(set: FeatureSet) -> (r: Option<Self>)
        ensures
            r is Some <==> set@.contains(Feature::Avx512dq) && set@.contains(Feature::Avx512vl),
    {
        if set.contains(Feature::Avx512dq) && set.contains(Feature::Avx512vl) {
            Some(Avx512DqVl(()))
        } else {
            None
        }
    }
}

/// Proof token: AVX-512F *and* AVX512VL, for the 128/256-bit forms. Zero-sized, `Copy`.
#[derive(Debug, Clone, Copy)]
pub struct Avx512FVl(());

impl Avx512FVl {
    /// `None` unless the set has both AVX-512F and AVX512VL.
    pub fn from_features(set: FeatureSet) -> (r: Option<Self>)
        ensures
            r is Some <==> set@.contains(Feature::Avx512f) && set@.contains(Feature::Avx512vl),
    {
        if set.contains(Feature::Avx512f) && set.contains(Feature::Avx512vl) {
            Some(Avx512FVl(()))
        } else {
            None
        }
    }
}

/// Proof token: AVX512BW *and* AVX512VL, for the 128/256-bit forms. Zero-sized, `Copy`.
#[derive(Debug, Clone, Copy)]
pub struct Avx512BwVl(());

impl Avx512BwVl {
    /// `None` unless the set has both AVX512BW and AVX512VL.
    pub fn from_features(set: FeatureSet) -> (r: Option<Self>)
        ensures
            r is Some <==> set@.contains(Feature::Avx512bw) && set@.contains(Feature::Avx512vl),
    {
        if set.contains(Feature::Avx512bw) && set.contains(Feature::Avx512vl) {
            Some(Avx512BwVl(()))
        } else {
            None
        }
    }
}

/// Proof token: AVX512IFMA *and* AVX512VL, for the 128/256-bit forms. Zero-sized, `Copy`.
#[derive(Debug, Clone, Copy)]
pub struct Avx512IfmaVl(());

impl Avx512IfmaVl {
    /// `None` unless the set has both AVX512IFMA and AVX512VL.
    pub fn from_features(set: FeatureSet) -> (r: Option<Self>)
        ensures
            r is Some <==> set@.contains(Feature::Avx512ifma) && set@.contains(Feature::Avx512vl),
    {
        if set.contains(Feature::Avx512ifma) && set.contains(Feature::Avx512vl) {
            Some(Avx512IfmaVl(()))
        } else {
            None
        }
    }
}

/// Proof token: AVX512VBMI *and* AVX512VL, for the 128/256-bit forms. Zero-sized, `Copy`.
#[derive(Debug, Clone, Copy)]
pub struct Avx512VbmiVl(());

impl Avx512VbmiVl {
    /// `None` unless the set has both AVX512VBMI and AVX512VL.
    pub fn from_features(set: FeatureSet) -> (r: Option<Self>)
        ensures
            r is Some <==> set@.contains(Feature::Avx512vbmi) && set@.contains(Feature::Avx512vl),
    {
        if set.contains(Feature::Avx512vbmi) && set.contains(Feature::Avx512vl) {
            Some(Avx512VbmiVl(()))
        } else {
            None
        }
    }
}

/// Proof token: AVX512VBMI2 *and* AVX512VL, for the 128/256-bit forms. Zero-sized, `Copy`.
#[derive(Debug, Clone, Copy)]
pub struct Avx512Vbmi2Vl(());

impl Avx512Vbmi2Vl {
    /// `None` unless the set has both AVX512VBMI2 and AVX512VL.
    pub fn from_features(set: FeatureSet) -> (r: Option<Self>)
        ensures
            r is Some <==> set@.contains(Feature::Avx512vbmi2) && set@.contains(Feature::Avx512vl),
    {
        if set.contains(Feature::Avx512vbmi2) && set.contains(Feature::Avx512vl) {
            Some(Avx512Vbmi2Vl(()))
        } else {
            None
        }
    }
}

/// Proof token: AVX512VNNI *and* AVX512VL, for the 128/256-bit forms. Zero-sized, `Copy`.
#[derive(Debug, Clone, Copy)]
pub struct Avx512VnniVl(());

impl Avx512VnniVl {
    /// `None` unless the set has both AVX512VNNI and AVX512VL.
    pub fn from_features(set: FeatureSet) -> (r: Option<Self>)
        ensures
            r is Some <==> set@.contains(Feature::Avx512vnni) && set@.contains(Feature::Avx512vl),
    {
        if set.contains(Feature::Avx512vnni) && set.contains(Feature::Avx512vl) {
            Some(Avx512VnniVl(()))
        } else {
            None
        }
    }
}

/// Proof token: AVX512VPOPCNTDQ *and* AVX512VL, for the 128/256-bit forms. Zero-sized, `Copy`.
#[derive(Debug, Clone, Copy)]
pub struct Avx512VpopcntdqVl(());

impl Avx512VpopcntdqVl {
    /// `None` unless the set has both AVX512VPOPCNTDQ and AVX512VL.
    pub fn from_features(set: FeatureSet) -> (r: Option<Self>)
        ensures
            r is Some <==> set@.contains(Feature::Avx512vpopcntdq) && set@.contains(Feature::Avx512vl),
    {
        if set.contains(Feature::Avx512vpopcntdq) && set.contains(Feature::Avx512vl) {
            Some(Avx512VpopcntdqVl(()))
        } else {
            None
        }
    }
}

/// Proof token: AVX512BF16 *and* AVX512VL, for the 128/256-bit forms. Zero-sized, `Copy`.
#[derive(Debug, Clone, Copy)]
pub struct Avx512Bf16Vl(());

impl Avx512Bf16Vl {
    /// `None` unless the set has both AVX512BF16 and AVX512VL.
    pub fn from_features(set: FeatureSet) -> (r: Option<Self>)
        ensures
            r is Some <==> set@.contains(Feature::Avx512bf16) && set@.contains(Feature::Avx512vl),
    {
        if set.contains(Feature::Avx512bf16) && set.contains(Feature::Avx512vl) {
            Some(Avx512Bf16Vl(()))
        } else {
            None
        }
    }
}

/// `vpshufbitqmb` selection: bit `(c >> 8j) & 63` of `b`, for control byte `j` of `c`.
pub open spec fn shuffled_bit(b: u64, c: u64, j: int) -> u64 {
    (b >> ((c >> (8 * j) as u64) & 63u64)) & 1u64
}

/// `x` rotated right by `k` bits (`k < 64`).
pub open spec fn rotr64(x: u64, k: u64) -> u64 {
    if k == 0 {
        x
    } else {
        (x >> k) | (x << (64 - k) as u64)
    }
}

/// Setting bit `k` of a mask whose bits `k..` are clear keeps the lower bits and stores `bit`.
/// Masking a byte to its low bits bounds it.
proof fn lemma_byte_masks(x: u8)
    by (bit_vector)
    ensures
        x & 15u8 < 16u8,
        x & 31u8 < 32u8,
        x & 63u8 < 64u8,
{
}

/// Masked fields of a shifted quadword are bounded; the empty mask fits in zero bits.
proof fn lemma_qword_masks(q: u64, s: u64)
    by (bit_vector)
    ensures
        (q >> s) & 63u64 < 64u64,
        (q >> s) & 1u64 <= 1u64,
        (0u32 as u64) < (1u64 << 0u64),
{
}

proof fn lemma_set_mask_bit(m: u32, bit: u32, k: u32)
    requires
        k < 32,
        bit <= 1,
        (m as u64) < (1u64 << k as u64),
    ensures
        ((m | (bit << k)) as u64) < (1u64 << (k + 1) as u64),
        ((m | (bit << k)) >> k) & 1u32 == bit,
        forall|j: u32| j < k ==> ((m | (bit << k)) >> j) & 1u32 == (m >> j) & 1u32,
{
    let k64 = k as u64;
    let k1 = (k + 1) as u64;
    assert(((m | (bit << k)) as u64) < (1u64 << k1) && ((m | (bit << k)) >> k) & 1u32 == bit)
        by (bit_vector)
        requires
            k < 32,
            k64 == k as u64,
            k1 == k64 + 1,
            bit <= 1,
            (m as u64) < (1u64 << k64),
    ;
    assert forall|j: u32| j < k implies ((m | (bit << k)) >> j) & 1u32 == (m >> j) & 1u32 by {
        assert(((m | (bit << k)) >> j) & 1u32 == (m >> j) & 1u32) by (bit_vector)
            requires
                j < k,
                k < 32,
                bit <= 1,
        ;
    }
}

/// The bit-shuffle mask over `lanes` quadword lanes: bit `8q + j` is [`shuffled_bit`] of lane
/// `q`'s data quadword and control byte `j`.
fn bitshuffle_mask(b: &[u64], c: &[u64], lanes: usize) -> (r: u32)
    requires
        lanes <= 4,
        b@.len() == lanes,
        c@.len() == lanes,
    ensures
        (r as u64) < (1u64 << (8 * lanes) as u64),
        forall|k: u32|
            k < 8 * lanes ==> ((r >> k) & 1u32) as u64 == shuffled_bit(
                b@[k as int / 8],
                c@[k as int / 8],
                k as int % 8,
            ),
{
    let mut out: u32 = 0;
    let mut k: u32 = 0;
    let n = (8 * lanes) as u32;
    proof {
        lemma_qword_masks(0, 0);
    }
    while k < n
        invariant
            n == 8 * lanes,
            lanes <= 4,
            b@.len() == lanes,
            c@.len() == lanes,
            k <= n,
            (out as u64) < (1u64 << k as u64),
            forall|j: u32|
                j < k ==> ((out >> j) & 1u32) as u64 == shuffled_bit(
                    b@[j as int / 8],
                    c@[j as int / 8],
                    j as int % 8,
                ),
        decreases n - k,
    {
        let q = (k / 8) as usize;
        let j = (k % 8) as u64;
        let cq = c[q];
        let ctrl = (cq >> (8 * j)) & 63;
        proof {
            lemma_qword_masks(cq, (8 * j) as u64);
        }
        let bq = b[q];
        let bit64 = (bq >> ctrl) & 1;
        proof {
            lemma_qword_masks(bq, ctrl);
        }
        assert(bit64 == shuffled_bit(b@[k as int / 8], c@[k as int / 8], k as int % 8));
        let bit = bit64 as u32;
        proof {
            lemma_set_mask_bit(out, bit, k);
        }
        let ghost prev = out;
        out = out | (bit << k);
        assert forall|i: u32| i < k + 1 implies ((out >> i) & 1u32) as u64 == shuffled_bit(
            b@[i as int / 8],
            c@[i as int / 8],
            i as int % 8,
        ) by {
            if i < k {
                assert((out >> i) & 1u32 == (prev >> i) & 1u32);
            } else {
                assert(i == k);
            }
        }
        k += 1;
    }
    out
}

impl Avx512BitalgVl {
    /// 256-bit `vpshufbitqmb`: 4 qword lanes -> 32 mask bits. Bit `8q + j` is bit
    /// `c[q].byte[j] & 63` of `b[q]`.
    pub fn bitshuffle_mask_u64x4(self, b: [u64; 4], c: [u64; 4]) -> (r: u32)
        ensures
            forall|k: u32|
                k < 32 ==> ((r >> k) & 1u32) as u64 == shuffled_bit(
                    b[k as int / 8],
                    c[k as int / 8],
                    k as int % 8,
                ),
    {
        let bs = b.as_slice();
        let cs = c.as_slice();
        let m = bitshuffle_mask(bs, cs, 4);
        assert(bs@ == b@ && cs@ == c@);
        m
    }

    /// 128-bit `vpshufbitqmb`: 2 qword lanes -> 16 mask bits.
    pub fn bitshuffle_mask_u64x2(self, b: [u64; 2], c: [u64; 2]) -> (r: u16)
        ensures
            forall|k: u32|
                k < 16 ==> ((r >> k) & 1u16) as u64 == shuffled_bit(
                    b[k as int / 8],
                    c[k as int / 8],
                    k as int % 8,
                ),
    {
        let bs = b.as_slice();
        let cs = c.as_slice();
        let m = bitshuffle_mask(bs, cs, 2);
        assert(bs@ == b@ && cs@ == c@);
        assert((m as u64) < (1u64 << 16u64));
        let r = m as u16;
        assert forall|k: u32| k < 16 implies ((r >> k) & 1u16) as u64 == shuffled_bit(
            b[k as int / 8],
            c[k as int / 8],
            k as int % 8,
        ) by {
            assert(((r >> k) & 1u16) as u64 == ((m >> k) & 1u32) as u64) by (bit_vector)
                requires
                    r == m as u16,
                    (m as u64) < (1u64 << 16u64),
                    k < 16,
            ;
        }
        r
    }
}

impl Avx512VbmiVl {
    /// 32-lane byte permute (`vpermb`): `out[i] = a[idx[i] & 31]`.
    pub fn permutexvar_u8x32(self, idx: [u8; 32], a: [u8; 32]) -> (r: [u8; 32])
        ensures
            forall|i: int| 0 <= i < 32 ==> r[i] == a[(idx[i] & 31u8) as int],
    {
        let mut out = [0u8; 32];
        let mut i: usize = 0;
        while i < 32
            invariant
                i <= 32,
                forall|j: int| 0 <= j < i ==> out[j] == a[(idx[j] & 31u8) as int],
            decreases 32 - i,
        {
            let x = idx[i];
            proof {
                lemma_byte_masks(x);
            }
            out[i] = a[(x & 31) as usize];
            i += 1;
        }
        out
    }

    /// 32-lane 2-source byte permute (`vpermi2b`): index bit `0x20` selects `b` over `a`, the low
    /// bits pick the byte.
    pub fn permutex2var_u8x32(self, a: [u8; 32], idx: [u8; 32], b: [u8; 32]) -> (r: [u8; 32])
        ensures
            forall|i: int|
                0 <= i < 32 ==> r[i] == if idx[i] & 0x20u8 != 0 {
                    b[(idx[i] & 31u8) as int]
                } else {
                    a[(idx[i] & 31u8) as int]
                },
    {
        let mut out = [0u8; 32];
        let mut i: usize = 0;
        while i < 32
            invariant
                i <= 32,
                forall|j: int|
                    0 <= j < i ==> out[j] == if idx[j] & 0x20u8 != 0 {
                        b[(idx[j] & 31u8) as int]
                    } else {
                        a[(idx[j] & 31u8) as int]
                    },
            decreases 32 - i,
        {
            let x = idx[i];
            proof {
                lemma_byte_masks(x);
            }
            let k = (x & 31) as usize;
            out[i] = if x & 0x20 != 0 {
                b[k]
            } else {
                a[k]
            };
            i += 1;
        }
        out
    }

    /// `vpmultishiftqb`, 4 quadwords: byte `j` of quadword `q` is the low byte of `b`'s quadword
    /// `q` rotated right by `a[8q + j] & 63` bits.
    pub fn multishift_u8x32(self, a: [u8; 32], b: [u8; 32]) -> (r: [u8; 32])
        ensures
            forall|i: int|
                0 <= i < 32 ==> r[i] == rotr64(le_qword(b@, i / 8), (a[i] & 63u8) as u64) as u8,
    {
        let bs = b.as_slice();
        let mut out = [0u8; 32];
        let mut i: usize = 0;
        while i < 32
            invariant
                i <= 32,
                bs@ == b@,
                forall|j: int|
                    0 <= j < i ==> out[j] == rotr64(le_qword(b@, j / 8), (a[j] & 63u8) as u64) as u8,
            decreases 32 - i,
        {
            let q = qword_at(bs, i / 8);
            let ai = a[i];
            proof {
                lemma_byte_masks(ai);
            }
            let k = (ai & 63) as u64;
            let rot = if k == 0 {
                q
            } else {
                (q >> k) | (q << (64 - k))
            };
            out[i] = rot as u8;
            i += 1;
        }
        out
    }

    /// 16-lane byte permute (`vpermb`): `out[i] = a[idx[i] & 15]`.
    pub fn permutexvar_u8x16(self, idx: [u8; 16], a: [u8; 16]) -> (r: [u8; 16])
        ensures
            forall|i: int| 0 <= i < 16 ==> r[i] == a[(idx[i] & 15u8) as int],
    {
        let mut out = [0u8; 16];
        let mut i: usize = 0;
        while i < 16
            invariant
                i <= 16,
                forall|j: int| 0 <= j < i ==> out[j] == a[(idx[j] & 15u8) as int],
            decreases 16 - i,
        {
            let x = idx[i];
            proof {
                lemma_byte_masks(x);
            }
            out[i] = a[(x & 15) as usize];
            i += 1;
        }
        out
    }

    /// 16-lane 2-source byte permute (`vpermi2b`): index bit `0x10` selects `b` over `a`, the low
    /// bits pick the byte.
    pub fn permutex2var_u8x16(self, a: [u8; 16], idx: [u8; 16], b: [u8; 16]) -> (r: [u8; 16])
        ensures
            forall|i: int|
                0 <= i < 16 ==> r[i] == if idx[i] & 0x10u8 != 0 {
                    b[(idx[i] & 15u8) as int]
                } else {
                    a[(idx[i] & 15u8) as int]
                },
    {
        let mut out = [0u8; 16];
        let mut i: usize = 0;
        while i < 16
            invariant
                i <= 16,
                forall|j: int|
                    0 <= j < i ==> out[j] == if idx[j] & 0x10u8 != 0 {
                        b[(idx[j] & 15u8) as int]
                    } else {
                        a[(idx[j] & 15u8) as int]
                    },
            decreases 16 - i,
        {
            let x = idx[i];
            proof {
                lemma_byte_masks(x);
            }
            let k = (x & 15) as usize;
            out[i] = if x & 0x10 != 0 {
                b[k]
            } else {
                a[k]
            };
            i += 1;
        }
        out
    }

    /// `vpmultishiftqb`, 2 quadwords: byte `j` of quadword `q` is the low byte of `b`'s quadword
    /// `q` rotated right by `a[8q + j] & 63` bits.
    pub fn multishift_u8x16(self, a: [u8; 16], b: [u8; 16]) -> (r: [u8; 16])
        ensures
            forall|i: int|
                0 <= i < 16 ==> r[i] == rotr64(le_qword(b@, i / 8), (a[i] & 63u8) as u64) as u8,
    {
        let bs = b.as_slice();
        let mut out = [0u8; 16];
        let mut i: usize = 0;
        while i < 16
            invariant
                i <= 16,
                bs@ == b@,
                forall|j: int|
                    0 <= j < i ==> out[j] == rotr64(le_qword(b@, j / 8), (a[j] & 63u8) as u64) as u8,
            decreases 16 - i,
        {
            let q = qword_at(bs, i / 8);
            let ai = a[i];
            proof {
                lemma_byte_masks(ai);
            }
            let k = (ai & 63) as u64;
            let rot = if k == 0 {
                q
            } else {
                (q >> k) | (q << (64 - k))
            };
            out[i] = rot as u8;
            i += 1;
        }
        out
    }
}

} // verus!
