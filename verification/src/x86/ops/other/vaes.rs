//! VAES (Ice Lake, 2019): AES-NI widened to 256/512-bit, independent 128-bit AESENC lanes.
//! Tokens: [`Vaes`] (`"vaes"`), [`Vaes512`] (`"vaes,avx512f"`).

use vstd::prelude::*;

use super::super::super::{Feature, FeatureSet};
use super::super::chunk::loadu_u8x16;
use super::aes::{
    aesdec_block, aesdeclast_block, aesenc_block, aesenclast_block, dec_last_round, dec_round,
    enc_last_round, enc_round,
};

verus! {

/// The 16-byte block `l` of a byte sequence (one 128-bit lane).
pub open spec fn lane(s: Seq<u8>, l: int) -> Seq<u8> {
    s.subrange(16 * l, 16 * l + 16)
}

/// Round `op` (0 `aesenc`, 1 `aesenclast`, 2 `aesdec`, 3 `aesdeclast`) on lane `l` of the
/// state `a` with lane `l` of the round key `k`.
#[verifier::opaque]
pub open spec fn lane_round(op: int, a: Seq<u8>, k: Seq<u8>, l: int) -> Seq<u8> {
    if op == 0 {
        enc_round(lane(a, l), lane(k, l))
    } else if op == 1 {
        enc_last_round(lane(a, l), lane(k, l))
    } else if op == 2 {
        dec_round(lane(a, l), lane(k, l))
    } else {
        dec_last_round(lane(a, l), lane(k, l))
    }
}

/// Proof token: VAES available (256-bit ops). Zero-sized, `Copy`.
#[derive(Debug, Clone, Copy)]
pub struct Vaes(());

impl Vaes {
    /// From a raw feature bitset (e.g. `x86::detect_features()`).
    pub fn from_features(set: FeatureSet) -> (r: Option<Self>)
        ensures
            r is Some <==> set@.contains(Feature::Vaes),
    {
        if set.contains(Feature::Vaes) {
            Some(Vaes(()))
        } else {
            None
        }
    }
}

/// Proof token: VAES *and* AVX-512F, both required for the 512-bit forms. Zero-sized, `Copy`.
#[derive(Debug, Clone, Copy)]
pub struct Vaes512(());

impl Vaes512 {
    /// `None` unless the set has both VAES and AVX-512F.
    pub fn from_features(set: FeatureSet) -> (r: Option<Self>)
        ensures
            r is Some <==> set@.contains(Feature::Vaes) && set@.contains(Feature::Avx512f),
    {
        if set.contains(Feature::Vaes) && set.contains(Feature::Avx512f) {
            Some(Vaes512(()))
        } else {
            None
        }
    }
}

impl Vaes {
    /// Two independent AES encrypt rounds, one per 128-bit lane (`vaesenc`, 256-bit).
    pub fn aesenc_u8x32(self, a: [u8; 32], round_key: [u8; 32]) -> (r: [u8; 32])
        ensures
            forall|i: int|
                0 <= i < 32 ==> r[i] == enc_round(lane(a@, i / 16), lane(round_key@, i / 16))[i % 16],
    {
        let mut out = [0u8; 32];
        let mut l: usize = 0;
        while l < 2
            invariant
                l <= 2,
                forall|i: int| 0 <= i < 16 * l ==> out[i] == lane_round(0, a@, round_key@, i / 16)[i % 16],
            decreases 2 - l,
        {
            let s = loadu_u8x16(a.as_slice(), 16 * l);
            let k = loadu_u8x16(round_key.as_slice(), 16 * l);
            assert(s@ =~= lane(a@, l as int));
            assert(k@ =~= lane(round_key@, l as int));
            let v = aesenc_block(s, k);
            assert(v@ == lane_round(0, a@, round_key@, l as int)) by {
                reveal(lane_round);
            }
            let mut j: usize = 0;
            while j < 16
                invariant
                    j <= 16,
                    l < 2,
                    v@ == lane_round(0, a@, round_key@, l as int),
                    forall|i: int|
                        0 <= i < 16 * l + j ==> out[i] == lane_round(0, a@, round_key@, i / 16)[i % 16],
                decreases 16 - j,
            {
                out[16 * l + j] = v[j];
                j += 1;
            }
            l += 1;
        }
        assert forall|i: int| 0 <= i < 32 implies out[i] == enc_round(
            lane(a@, i / 16),
            lane(round_key@, i / 16),
        )[i % 16] by {
            reveal(lane_round);
        }
        out
    }

    /// Two independent final AES encrypt rounds, one per 128-bit lane (`vaesenclast`, 256-bit).
    pub fn aesenclast_u8x32(self, a: [u8; 32], round_key: [u8; 32]) -> (r: [u8; 32])
        ensures
            forall|i: int|
                0 <= i < 32 ==> r[i] == enc_last_round(lane(a@, i / 16), lane(round_key@, i / 16))[i % 16],
    {
        let mut out = [0u8; 32];
        let mut l: usize = 0;
        while l < 2
            invariant
                l <= 2,
                forall|i: int| 0 <= i < 16 * l ==> out[i] == lane_round(1, a@, round_key@, i / 16)[i % 16],
            decreases 2 - l,
        {
            let s = loadu_u8x16(a.as_slice(), 16 * l);
            let k = loadu_u8x16(round_key.as_slice(), 16 * l);
            assert(s@ =~= lane(a@, l as int));
            assert(k@ =~= lane(round_key@, l as int));
            let v = aesenclast_block(s, k);
            assert(v@ == lane_round(1, a@, round_key@, l as int)) by {
                reveal(lane_round);
            }
            let mut j: usize = 0;
            while j < 16
                invariant
                    j <= 16,
                    l < 2,
                    v@ == lane_round(1, a@, round_key@, l as int),
                    forall|i: int|
                        0 <= i < 16 * l + j ==> out[i] == lane_round(1, a@, round_key@, i / 16)[i % 16],
                decreases 16 - j,
            {
                out[16 * l + j] = v[j];
                j += 1;
            }
            l += 1;
        }
        assert forall|i: int| 0 <= i < 32 implies out[i] == enc_last_round(
            lane(a@, i / 16),
            lane(round_key@, i / 16),
        )[i % 16] by {
            reveal(lane_round);
        }
        out
    }

    /// Two independent AES decrypt rounds, one per 128-bit lane (`vaesdec`, 256-bit).
    pub fn aesdec_u8x32(self, a: [u8; 32], round_key: [u8; 32]) -> (r: [u8; 32])
        ensures
            forall|i: int|
                0 <= i < 32 ==> r[i] == dec_round(lane(a@, i / 16), lane(round_key@, i / 16))[i % 16],
    {
        let mut out = [0u8; 32];
        let mut l: usize = 0;
        while l < 2
            invariant
                l <= 2,
                forall|i: int| 0 <= i < 16 * l ==> out[i] == lane_round(2, a@, round_key@, i / 16)[i % 16],
            decreases 2 - l,
        {
            let s = loadu_u8x16(a.as_slice(), 16 * l);
            let k = loadu_u8x16(round_key.as_slice(), 16 * l);
            assert(s@ =~= lane(a@, l as int));
            assert(k@ =~= lane(round_key@, l as int));
            let v = aesdec_block(s, k);
            assert(v@ == lane_round(2, a@, round_key@, l as int)) by {
                reveal(lane_round);
            }
            let mut j: usize = 0;
            while j < 16
                invariant
                    j <= 16,
                    l < 2,
                    v@ == lane_round(2, a@, round_key@, l as int),
                    forall|i: int|
                        0 <= i < 16 * l + j ==> out[i] == lane_round(2, a@, round_key@, i / 16)[i % 16],
                decreases 16 - j,
            {
                out[16 * l + j] = v[j];
                j += 1;
            }
            l += 1;
        }
        assert forall|i: int| 0 <= i < 32 implies out[i] == dec_round(
            lane(a@, i / 16),
            lane(round_key@, i / 16),
        )[i % 16] by {
            reveal(lane_round);
        }
        out
    }

    /// Two independent final AES decrypt rounds, one per 128-bit lane (`vaesdeclast`, 256-bit).
    pub fn aesdeclast_u8x32(self, a: [u8; 32], round_key: [u8; 32]) -> (r: [u8; 32])
        ensures
            forall|i: int|
                0 <= i < 32 ==> r[i] == dec_last_round(lane(a@, i / 16), lane(round_key@, i / 16))[i % 16],
    {
        let mut out = [0u8; 32];
        let mut l: usize = 0;
        while l < 2
            invariant
                l <= 2,
                forall|i: int| 0 <= i < 16 * l ==> out[i] == lane_round(3, a@, round_key@, i / 16)[i % 16],
            decreases 2 - l,
        {
            let s = loadu_u8x16(a.as_slice(), 16 * l);
            let k = loadu_u8x16(round_key.as_slice(), 16 * l);
            assert(s@ =~= lane(a@, l as int));
            assert(k@ =~= lane(round_key@, l as int));
            let v = aesdeclast_block(s, k);
            assert(v@ == lane_round(3, a@, round_key@, l as int)) by {
                reveal(lane_round);
            }
            let mut j: usize = 0;
            while j < 16
                invariant
                    j <= 16,
                    l < 2,
                    v@ == lane_round(3, a@, round_key@, l as int),
                    forall|i: int|
                        0 <= i < 16 * l + j ==> out[i] == lane_round(3, a@, round_key@, i / 16)[i % 16],
                decreases 16 - j,
            {
                out[16 * l + j] = v[j];
                j += 1;
            }
            l += 1;
        }
        assert forall|i: int| 0 <= i < 32 implies out[i] == dec_last_round(
            lane(a@, i / 16),
            lane(round_key@, i / 16),
        )[i % 16] by {
            reveal(lane_round);
        }
        out
    }

}

impl Vaes512 {
    /// Four independent AES encrypt rounds, one per 128-bit lane (`vaesenc`, 512-bit).
    pub fn aesenc_u8x64(self, a: [u8; 64], round_key: [u8; 64]) -> (r: [u8; 64])
        ensures
            forall|i: int|
                0 <= i < 64 ==> r[i] == enc_round(lane(a@, i / 16), lane(round_key@, i / 16))[i % 16],
    {
        let mut out = [0u8; 64];
        let mut l: usize = 0;
        while l < 4
            invariant
                l <= 4,
                forall|i: int| 0 <= i < 16 * l ==> out[i] == lane_round(0, a@, round_key@, i / 16)[i % 16],
            decreases 4 - l,
        {
            let s = loadu_u8x16(a.as_slice(), 16 * l);
            let k = loadu_u8x16(round_key.as_slice(), 16 * l);
            assert(s@ =~= lane(a@, l as int));
            assert(k@ =~= lane(round_key@, l as int));
            let v = aesenc_block(s, k);
            assert(v@ == lane_round(0, a@, round_key@, l as int)) by {
                reveal(lane_round);
            }
            let mut j: usize = 0;
            while j < 16
                invariant
                    j <= 16,
                    l < 4,
                    v@ == lane_round(0, a@, round_key@, l as int),
                    forall|i: int|
                        0 <= i < 16 * l + j ==> out[i] == lane_round(0, a@, round_key@, i / 16)[i % 16],
                decreases 16 - j,
            {
                out[16 * l + j] = v[j];
                j += 1;
            }
            l += 1;
        }
        assert forall|i: int| 0 <= i < 64 implies out[i] == enc_round(
            lane(a@, i / 16),
            lane(round_key@, i / 16),
        )[i % 16] by {
            reveal(lane_round);
        }
        out
    }

    /// Four independent final AES encrypt rounds, one per 128-bit lane (`vaesenclast`, 512-bit).
    pub fn aesenclast_u8x64(self, a: [u8; 64], round_key: [u8; 64]) -> (r: [u8; 64])
        ensures
            forall|i: int|
                0 <= i < 64 ==> r[i] == enc_last_round(lane(a@, i / 16), lane(round_key@, i / 16))[i % 16],
    {
        let mut out = [0u8; 64];
        let mut l: usize = 0;
        while l < 4
            invariant
                l <= 4,
                forall|i: int| 0 <= i < 16 * l ==> out[i] == lane_round(1, a@, round_key@, i / 16)[i % 16],
            decreases 4 - l,
        {
            let s = loadu_u8x16(a.as_slice(), 16 * l);
            let k = loadu_u8x16(round_key.as_slice(), 16 * l);
            assert(s@ =~= lane(a@, l as int));
            assert(k@ =~= lane(round_key@, l as int));
            let v = aesenclast_block(s, k);
            assert(v@ == lane_round(1, a@, round_key@, l as int)) by {
                reveal(lane_round);
            }
            let mut j: usize = 0;
            while j < 16
                invariant
                    j <= 16,
                    l < 4,
                    v@ == lane_round(1, a@, round_key@, l as int),
                    forall|i: int|
                        0 <= i < 16 * l + j ==> out[i] == lane_round(1, a@, round_key@, i / 16)[i % 16],
                decreases 16 - j,
            {
                out[16 * l + j] = v[j];
                j += 1;
            }
            l += 1;
        }
        assert forall|i: int| 0 <= i < 64 implies out[i] == enc_last_round(
            lane(a@, i / 16),
            lane(round_key@, i / 16),
        )[i % 16] by {
            reveal(lane_round);
        }
        out
    }

    /// Four independent AES decrypt rounds, one per 128-bit lane (`vaesdec`, 512-bit).
    pub fn aesdec_u8x64(self, a: [u8; 64], round_key: [u8; 64]) -> (r: [u8; 64])
        ensures
            forall|i: int|
                0 <= i < 64 ==> r[i] == dec_round(lane(a@, i / 16), lane(round_key@, i / 16))[i % 16],
    {
        let mut out = [0u8; 64];
        let mut l: usize = 0;
        while l < 4
            invariant
                l <= 4,
                forall|i: int| 0 <= i < 16 * l ==> out[i] == lane_round(2, a@, round_key@, i / 16)[i % 16],
            decreases 4 - l,
        {
            let s = loadu_u8x16(a.as_slice(), 16 * l);
            let k = loadu_u8x16(round_key.as_slice(), 16 * l);
            assert(s@ =~= lane(a@, l as int));
            assert(k@ =~= lane(round_key@, l as int));
            let v = aesdec_block(s, k);
            assert(v@ == lane_round(2, a@, round_key@, l as int)) by {
                reveal(lane_round);
            }
            let mut j: usize = 0;
            while j < 16
                invariant
                    j <= 16,
                    l < 4,
                    v@ == lane_round(2, a@, round_key@, l as int),
                    forall|i: int|
                        0 <= i < 16 * l + j ==> out[i] == lane_round(2, a@, round_key@, i / 16)[i % 16],
                decreases 16 - j,
            {
                out[16 * l + j] = v[j];
                j += 1;
            }
            l += 1;
        }
        assert forall|i: int| 0 <= i < 64 implies out[i] == dec_round(
            lane(a@, i / 16),
            lane(round_key@, i / 16),
        )[i % 16] by {
            reveal(lane_round);
        }
        out
    }

    /// Four independent final AES decrypt rounds, one per 128-bit lane (`vaesdeclast`, 512-bit).
    pub fn aesdeclast_u8x64(self, a: [u8; 64], round_key: [u8; 64]) -> (r: [u8; 64])
        ensures
            forall|i: int|
                0 <= i < 64 ==> r[i] == dec_last_round(lane(a@, i / 16), lane(round_key@, i / 16))[i % 16],
    {
        let mut out = [0u8; 64];
        let mut l: usize = 0;
        while l < 4
            invariant
                l <= 4,
                forall|i: int| 0 <= i < 16 * l ==> out[i] == lane_round(3, a@, round_key@, i / 16)[i % 16],
            decreases 4 - l,
        {
            let s = loadu_u8x16(a.as_slice(), 16 * l);
            let k = loadu_u8x16(round_key.as_slice(), 16 * l);
            assert(s@ =~= lane(a@, l as int));
            assert(k@ =~= lane(round_key@, l as int));
            let v = aesdeclast_block(s, k);
            assert(v@ == lane_round(3, a@, round_key@, l as int)) by {
                reveal(lane_round);
            }
            let mut j: usize = 0;
            while j < 16
                invariant
                    j <= 16,
                    l < 4,
                    v@ == lane_round(3, a@, round_key@, l as int),
                    forall|i: int|
                        0 <= i < 16 * l + j ==> out[i] == lane_round(3, a@, round_key@, i / 16)[i % 16],
                decreases 16 - j,
            {
                out[16 * l + j] = v[j];
                j += 1;
            }
            l += 1;
        }
        assert forall|i: int| 0 <= i < 64 implies out[i] == dec_last_round(
            lane(a@, i / 16),
            lane(round_key@, i / 16),
        )[i % 16] by {
            reveal(lane_round);
        }
        out
    }

}
} // verus!
