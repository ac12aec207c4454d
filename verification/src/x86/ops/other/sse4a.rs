//! SSE4a (AMD, 2007): immediate `extrq`/`insertq` bit-field ops. Token: [`Sse4a`].

use vstd::prelude::*;

use super::super::super::{Feature, FeatureSet};

verus! {

/// Mask of the low `len` bits of a field, where a length of 0 encodes 64.
pub open spec fn field_mask(len: u32) -> u64 {
    if len == 0 {
        u64::MAX
    } else {
        !(u64::MAX << len)
    }
}

/// Whether `LEN`/`IDX` describe a bit field that lies inside a 64-bit word (the hardware
/// leaves the result undefined otherwise).
pub open spec fn field_in_word(len: u32, idx: u32) -> bool {
    &&& len < 64
    &&& idx < 64
    &&& (if len == 0 { 64 } else { len as int }) + idx <= 64
}

/// The `extrq` result: `len` bits of `x` from bit `idx` up, zero-extended.
pub open spec fn extract_field(x: u64, len: u32, idx: u32) -> u64 {
    (x >> idx) & field_mask(len)
}

/// The `insertq` result: `dst` with its `len` bits from bit `idx` up replaced by the low bits
/// of `src`.
pub open spec fn insert_field(dst: u64, src: u64, len: u32, idx: u32) -> u64 {
    (dst & !(field_mask(len) << idx)) | ((src & field_mask(len)) << idx)
}

/// The bit-field laws, bit by bit, for a field of `L` bits at `idx` inside the word (`L` is
/// `len`, or 64 when `len == 0`): the mask holds exactly the bits below `L`; bit `i` of an
/// extract is bit `idx + i` of `x` for `i < L` and clear above; bit `i` of an insert is bit
/// `i - idx` of `src` inside the field and bit `i` of `dst` outside it.
#[verifier::rlimit(100)]
pub proof fn lemma_bit_fields(x: u64, dst: u64, src: u64, len: u32, idx: u32, i: u32)
    by (bit_vector)
    requires
        len < 64,
        idx < 64,
        i < 64,
        len == 0 ==> idx == 0,
        len + idx <= 64,
    ensures
        (field_mask(len) >> i) & 1u64 == 1u64 <==> (len == 0 || i < len),
        (extract_field(x, len, idx) >> i) & 1u64 == 1u64 <==> ((len == 0 || i < len) && (x >> (i
            + idx)) & 1u64 == 1u64),
        (insert_field(dst, src, len, idx) >> i) & 1u64 == (if idx <= i && (len == 0 || i < idx
            + len) {
            (src >> ((i - idx) as u32)) & 1u64
        } else {
            (dst >> i) & 1u64
        }),
{
}

fn field_mask_exec(len: u32) -> (r: u64)
    requires
        len < 64,
    ensures
        r == field_mask(len),
{
    if len == 0 {
        u64::MAX
    } else {
        !(u64::MAX << len)
    }
}

/// Proof token: SSE4a available. Zero-sized, `Copy`.
#[derive(Debug, Clone, Copy)]
pub struct Sse4a(());

impl Sse4a {
    /// From a raw feature bitset (e.g. `x86::detect_features()`).
    pub fn from_features(set: FeatureSet) -> (r: Option<Self>)
        ensures
            r is Some <==> set@.contains(Feature::Sse4a),
    {
        if set.contains(Feature::Sse4a) {
            Some(Sse4a(()))
        } else {
            None
        }
    }

    /// Extract `LEN` bits at `IDX` from `x` (`extrq`), zero-extended. `LEN == 0` means 64.
    pub fn extract_bits<const LEN: u32, const IDX: u32>(self, x: u64) -> (r: u64)
        requires
            field_in_word(LEN, IDX),
        ensures
            r == extract_field(x, LEN, IDX),
    {
        (x >> IDX) & field_mask_exec(LEN)
    }

    /// Insert the low `LEN` bits of `src` into `dst` at `IDX`, other bits of `dst` unchanged
    /// (`insertq`). `LEN == 0` means 64.
    pub fn insert_bits<const LEN: u32, const IDX: u32>(self, dst: u64, src: u64) -> (r: u64)
        requires
            field_in_word(LEN, IDX),
        ensures
            r == insert_field(dst, src, LEN, IDX),
    {
        let m = field_mask_exec(LEN);
        (dst & !(m << IDX)) | ((src & m) << IDX)
    }
}

} // verus!
