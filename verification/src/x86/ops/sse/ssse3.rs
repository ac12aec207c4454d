//! SSSE3: `pshufb` byte table lookup/permute and `palignr` byte-window align. Token: [`Ssse3`].

use vstd::prelude::*;

use super::super::super::{Feature, FeatureSet};

verus! {

/// Byte `p` of the window `w`, or 0 outside it.
pub open spec fn window_byte(w: Seq<u8>, p: int) -> u8 {
    if 0 <= p < w.len() {
        w[p]
    } else {
        0
    }
}

/// Proof token: SSSE3 available. Zero-sized, `Copy`.
#[derive(Debug, Clone, Copy)]
pub struct Ssse3(());

impl Ssse3 {
    /// From a raw feature bitset (e.g. `x86::detect_features()`).
    pub fn from_features(set: FeatureSet) -> (r: Option<Self>)
        ensures
            r is Some <==> set@.contains(Feature::Ssse3),
    {
        if set.contains(Feature::Ssse3) {
            Some(Ssse3(()))
        } else {
            None
        }
    }

    /// Per-byte table lookup (`pshufb`): `out[i] = a[idx & 0x0F]`, or 0 if `idx`'s high bit
    /// is set.
    pub fn shuffle_i8x16(self, a: [i8; 16], indices: [i8; 16]) -> (r: [i8; 16])
        ensures
            forall|i: int|
                0 <= i < 16 ==> r[i] == if indices[i] < 0 {
                    0i8
                } else {
                    a[(indices[i] & 15i8) as int]
                },
    {
        let mut out = [0i8; 16];
        let mut i: usize = 0;
        while i < 16
            invariant
                i <= 16,
                forall|j: int|
                    0 <= j < i ==> out[j] == if indices[j] < 0 {
                        0i8
                    } else {
                        a[(indices[j] & 15i8) as int]
                    },
                forall|j: int| i <= j < 16 ==> out[j] == 0i8,
            decreases 16 - i,
        {
            let x = indices[i];
            if x >= 0 {
                assert(0 <= x & 15i8 < 16) by (bit_vector)
                    requires
                        x >= 0,
                ;
                out[i] = a[(x & 15) as usize];
            }
            i += 1;
        }
        out
    }

    /// `palignr`: concatenate `[b, a]` into a 32-byte window (`b` low, `a` high), shift right
    /// by `IMM8` bytes, keep the low 16. `IMM8 >= 32` yields all zero; `16 <= IMM8 < 32` reads
    /// only from `a`, zero-filled from the top.
    pub fn alignr_u8x16<const IMM8: u32>(self, a: [u8; 16], b: [u8; 16]) -> (r: [u8; 16])
        ensures
            forall|i: int| 0 <= i < 16 ==> r[i] == window_byte(b@ + a@, i + IMM8),
    {
        let mut out = [0u8; 16];
        let mut i: usize = 0;
        while i < 16
            invariant
                i <= 16,
                forall|j: int| 0 <= j < i ==> out[j] == window_byte(b@ + a@, j + IMM8),
                forall|j: int| i <= j < 16 ==> out[j] == 0u8,
            decreases 16 - i,
        {
            let p = i as u64 + IMM8 as u64;
            if p < 16 {
                assert((b@ + a@)[i + IMM8] == b@[p as int]);
                out[i] = b[p as usize];
            } else if p < 32 {
                assert((b@ + a@)[i + IMM8] == a@[p - 16]);
                out[i] = a[(p - 16) as usize];
            }
            i += 1;
        }
        out
    }
}

/// Software reference for `palignr` on any width: `out[i] = window[imm + i]` where
/// `window = [b, a]` concatenated (`b` first), or 0 past either end.
pub(crate) fn alignr_scalar(a: &[u8], b: &[u8], imm: i32) -> (r: Vec<u8>)
    requires
        a@.len() == b@.len(),
        a@.len() + b@.len() <= usize::MAX,
    ensures
        r@.len() == a@.len(),
        forall|i: int| 0 <= i < a@.len() ==> r@[i] == window_byte(b@ + a@, imm + i),
{
    let n = a.len();
    let mut out: Vec<u8> = Vec::new();
    let mut i: usize = 0;
    while i < n
        invariant
            i <= n,
            n == a@.len(),
            n == b@.len(),
            n + n <= usize::MAX,
            out@.len() == i,
            forall|j: int| 0 <= j < i ==> out@[j] == window_byte(b@ + a@, imm + j),
        decreases n - i,
    {
        let pos: Option<usize> = if imm >= 0 {
            i.checked_add(imm as usize)
        } else {
            let back = (-(imm as i64)) as usize;
            if i >= back {
                Some(i - back)
            } else {
                None
            }
        };
        assert(pos is Some ==> pos->0 == imm + i);
        assert(pos is None ==> imm + i < 0 || imm + i > usize::MAX);
        let v = match pos {
            Some(p) => {
                if p < n {
                    assert((b@ + a@)[p as int] == b@[p as int]);
                    b[p]
                } else if p - n < n {
                    assert((b@ + a@)[p as int] == a@[p - n]);
                    a[p - n]
                } else {
                    0
                }
            },
            None => 0,
        };
        assert(v == window_byte(b@ + a@, imm + i));
        out.push(v);
        i += 1;
    }
    out
}

} // verus!
