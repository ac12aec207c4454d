//! MMX (1997): 8-byte SIMD. Token: [`Mmx`]. Not on the x86_64 auto ladder (SSE2 is the ABI
//! floor); standalone for completeness. Every op works on one 64-bit register's worth of
//! lanes: wrapping and saturating add/sub, equality masks, AND/OR/XOR/ANDN, 16-bit multiplies,
//! immediate-count shifts and the pairwise multiply-add.

use vstd::arithmetic::div_mod::lemma_fundamental_div_mod;
use vstd::prelude::*;

use super::super::{Feature, FeatureSet};
use super::avx512::avx512vnni::{pair_dot, pair_dot_exec, wrap_i32};
use super::lanes::{lemma_not_ranges, mask_i16, mask_i32, mask_i8, mask_u16, mask_u32, mask_u8};
use super::sse::sse2_lanes::{adds_i16, adds_i8, sat_i16, sat_i8, subs_i16, subs_i8};

verus! {

/// High 16 bits of the signed 32-bit product `x * y` (`pmulhw`): the product shifted right
/// by 16, rounding toward minus infinity.
pub open spec fn mulhi_i16(x: i16, y: i16) -> i16 {
    ((x * y) / 65536) as i16
}

/// An arithmetic right shift by 16 of an `i32` is floor division by `65536`.
proof fn lemma_asr16(p: i32)
    ensures
        (p >> 16u32) as int == (p as int) / 65536,
{
    assert((p >> 16u32) as int == (p as int) / 65536) by (bit_vector);
}

/// `pmulhw` returns the floor of the exact product over `2^16`: for the returned high half
/// `h`, the product `x * y` lies in `[h * 2^16, (h + 1) * 2^16)`.
pub proof fn lemma_mulhi_is_floor(x: i16, y: i16)
    ensures
        mulhi_i16(x, y) * 65536 <= x * y < mulhi_i16(x, y) * 65536 + 65536,
{
    let p: int = x * y;
    assert(-1073709056 <= p <= 1073741824) by (nonlinear_arith)
        requires
            p == x * y,
            -32768 <= x <= 32767,
            -32768 <= y <= 32767,
    ;
    lemma_fundamental_div_mod(p, 65536);
    assert(-16384 <= p / 65536 <= 16384);
}

fn mulhi_i16_exec(x: i16, y: i16) -> (r: i16)
    ensures
        r == mulhi_i16(x, y),
{
    assert(-1073709056 <= (x as int) * (y as int) <= 1073741824) by (nonlinear_arith);
    let p: i32 = x as i32 * y as i32;
    proof {
        lemma_asr16(p);
    }
    (p >> 16u32) as i16
}

/// Proof token: MMX available. Zero-sized, `Copy`.
#[derive(Debug, Clone, Copy)]
pub struct Mmx(());

impl Mmx {
    /// From a raw feature bitset (e.g. `x86::detect_features()`).
    pub fn from_features(set: FeatureSet) -> (r: Option<Self>)
        ensures
            r is Some <==> set@.contains(Feature::Mmx),
    {
        if set.contains(Feature::Mmx) {
            Some(Mmx(()))
        } else {
            None
        }
    }

    /// Multiply pairs of 16-bit lanes, sum each pair into one 32-bit lane (`pmaddwd`):
    /// `[a[0]*b[0] + a[1]*b[1], a[2]*b[2] + a[3]*b[3]]`, wrapping (only `-32768` squared twice
    /// overflows). Width-converting (4 lanes in, 2 lanes out).
    pub fn maddwd_i16x4(self, a: [i16; 4], b: [i16; 4]) -> (r: [i32; 2])
        ensures
            forall|j: int|
                0 <= j < 2 ==> r[j] == wrap_i32(pair_dot(a[2 * j], a[2 * j + 1], b[2 * j], b[2 * j + 1])),
    {
        let lo = pair_dot_exec(a[0], a[1], b[0], b[1]);
        let hi = pair_dot_exec(a[2], a[3], b[2], b[3]);
        [lo as i32, hi as i32]
    }

    /// `a + b` per lane, wrapping mod 256 (`paddb`, no saturation).
    pub fn add_i8x8(self, a: [i8; 8], b: [i8; 8]) -> (r: [i8; 8])
        ensures
            forall|i: int| 0 <= i < 8 ==> r[i] == a[i].wrapping_add(b[i]),
    {
        let mut out = [0i8; 8];
        let mut i: usize = 0;
        while i < 8
            invariant
                i <= 8,
                forall|j: int| 0 <= j < i ==> out[j] == a[j].wrapping_add(b[j]),
            decreases 8 - i,
        {
            out[i] = a[i].wrapping_add(b[i]);
            i += 1;
        }
        out
    }

    /// `a - b` per lane, wrapping mod 256 (`psubb`, no saturation).
    pub fn sub_i8x8(self, a: [i8; 8], b: [i8; 8]) -> (r: [i8; 8])
        ensures
            forall|i: int| 0 <= i < 8 ==> r[i] == a[i].wrapping_sub(b[i]),
    {
        let mut out = [0i8; 8];
        let mut i: usize = 0;
        while i < 8
            invariant
                i <= 8,
                forall|j: int| 0 <= j < i ==> out[j] == a[j].wrapping_sub(b[j]),
            decreases 8 - i,
        {
            out[i] = a[i].wrapping_sub(b[i]);
            i += 1;
        }
        out
    }

    /// `a + b` per lane, wrapping mod 256 (`paddb`, no saturation).
    pub fn add_u8x8(self, a: [u8; 8], b: [u8; 8]) -> (r: [u8; 8])
        ensures
            forall|i: int| 0 <= i < 8 ==> r[i] == a[i].wrapping_add(b[i]),
    {
        let mut out = [0u8; 8];
        let mut i: usize = 0;
        while i < 8
            invariant
                i <= 8,
                forall|j: int| 0 <= j < i ==> out[j] == a[j].wrapping_add(b[j]),
            decreases 8 - i,
        {
            out[i] = a[i].wrapping_add(b[i]);
            i += 1;
        }
        out
    }

    /// `a - b` per lane, wrapping mod 256 (`psubb`, no saturation).
    pub fn sub_u8x8(self, a: [u8; 8], b: [u8; 8]) -> (r: [u8; 8])
        ensures
            forall|i: int| 0 <= i < 8 ==> r[i] == a[i].wrapping_sub(b[i]),
    {
        let mut out = [0u8; 8];
        let mut i: usize = 0;
        while i < 8
            invariant
                i <= 8,
                forall|j: int| 0 <= j < i ==> out[j] == a[j].wrapping_sub(b[j]),
            decreases 8 - i,
        {
            out[i] = a[i].wrapping_sub(b[i]);
            i += 1;
        }
        out
    }

    /// `a + b` per lane, saturating (`paddsb`).
    pub fn adds_i8x8(self, a: [i8; 8], b: [i8; 8]) -> (r: [i8; 8])
        ensures
            forall|i: int| 0 <= i < 8 ==> r[i] == sat_i8(a[i] + b[i]),
    {
        let mut out = [0i8; 8];
        let mut i: usize = 0;
        while i < 8
            invariant
                i <= 8,
                forall|j: int| 0 <= j < i ==> out[j] == sat_i8(a[j] + b[j]),
            decreases 8 - i,
        {
            out[i] = adds_i8(a[i], b[i]);
            i += 1;
        }
        out
    }

    /// `a - b` per lane, saturating (`psubsb`).
    pub fn subs_i8x8(self, a: [i8; 8], b: [i8; 8]) -> (r: [i8; 8])
        ensures
            forall|i: int| 0 <= i < 8 ==> r[i] == sat_i8(a[i] - b[i]),
    {
        let mut out = [0i8; 8];
        let mut i: usize = 0;
        while i < 8
            invariant
                i <= 8,
                forall|j: int| 0 <= j < i ==> out[j] == sat_i8(a[j] - b[j]),
            decreases 8 - i,
        {
            out[i] = subs_i8(a[i], b[i]);
            i += 1;
        }
        out
    }

    /// `a + b` per lane, saturating (`paddusb`).
    pub fn adds_u8x8(self, a: [u8; 8], b: [u8; 8]) -> (r: [u8; 8])
        ensures
            forall|i: int| 0 <= i < 8 ==> r[i] == a[i].saturating_add(b[i]),
    {
        let mut out = [0u8; 8];
        let mut i: usize = 0;
        while i < 8
            invariant
                i <= 8,
                forall|j: int| 0 <= j < i ==> out[j] == a[j].saturating_add(b[j]),
            decreases 8 - i,
        {
            out[i] = a[i].saturating_add(b[i]);
            i += 1;
        }
        out
    }

    /// `a - b` per lane, saturating (`psubusb`).
    pub fn subs_u8x8(self, a: [u8; 8], b: [u8; 8]) -> (r: [u8; 8])
        ensures
            forall|i: int| 0 <= i < 8 ==> r[i] == a[i].saturating_sub(b[i]),
    {
        let mut out = [0u8; 8];
        let mut i: usize = 0;
        while i < 8
            invariant
                i <= 8,
                forall|j: int| 0 <= j < i ==> out[j] == a[j].saturating_sub(b[j]),
            decreases 8 - i,
        {
            out[i] = a[i].saturating_sub(b[i]);
            i += 1;
        }
        out
    }

    /// Lane equality mask (`pcmpeqb`): all-1s if equal, else 0.
    pub fn cmpeq_i8x8(self, a: [i8; 8], b: [i8; 8]) -> (r: [i8; 8])
        ensures
            forall|i: int| 0 <= i < 8 ==> r[i] == mask_i8(a[i] == b[i]),
    {
        let mut out = [0i8; 8];
        let mut i: usize = 0;
        while i < 8
            invariant
                i <= 8,
                forall|j: int| 0 <= j < i ==> out[j] == mask_i8(a[j] == b[j]),
            decreases 8 - i,
        {
            out[i] = if a[i] == b[i] { -1 } else { 0 };
            i += 1;
        }
        out
    }

    /// Lane equality mask (`pcmpeqb`): all-1s if equal, else 0.
    pub fn cmpeq_u8x8(self, a: [u8; 8], b: [u8; 8]) -> (r: [u8; 8])
        ensures
            forall|i: int| 0 <= i < 8 ==> r[i] == mask_u8(a[i] == b[i]),
    {
        let mut out = [0u8; 8];
        let mut i: usize = 0;
        while i < 8
            invariant
                i <= 8,
                forall|j: int| 0 <= j < i ==> out[j] == mask_u8(a[j] == b[j]),
            decreases 8 - i,
        {
            out[i] = if a[i] == b[i] { u8::MAX } else { 0 };
            i += 1;
        }
        out
    }

    /// `a & b` per lane (`pand`, whole 64-bit register).
    pub fn and_u8x8(self, a: [u8; 8], b: [u8; 8]) -> (r: [u8; 8])
        ensures
            forall|i: int| 0 <= i < 8 ==> r[i] == a[i] & b[i],
    {
        let mut out = [0u8; 8];
        let mut i: usize = 0;
        while i < 8
            invariant
                i <= 8,
                forall|j: int| 0 <= j < i ==> out[j] == a[j] & b[j],
            decreases 8 - i,
        {
            out[i] = a[i] & b[i];
            i += 1;
        }
        out
    }

    /// `a | b` per lane (`por`, whole 64-bit register).
    pub fn or_u8x8(self, a: [u8; 8], b: [u8; 8]) -> (r: [u8; 8])
        ensures
            forall|i: int| 0 <= i < 8 ==> r[i] == a[i] | b[i],
    {
        let mut out = [0u8; 8];
        let mut i: usize = 0;
        while i < 8
            invariant
                i <= 8,
                forall|j: int| 0 <= j < i ==> out[j] == a[j] | b[j],
            decreases 8 - i,
        {
            out[i] = a[i] | b[i];
            i += 1;
        }
        out
    }

    /// `a ^ b` per lane (`pxor`, whole 64-bit register).
    pub fn xor_u8x8(self, a: [u8; 8], b: [u8; 8]) -> (r: [u8; 8])
        ensures
            forall|i: int| 0 <= i < 8 ==> r[i] == a[i] ^ b[i],
    {
        let mut out = [0u8; 8];
        let mut i: usize = 0;
        while i < 8
            invariant
                i <= 8,
                forall|j: int| 0 <= j < i ==> out[j] == a[j] ^ b[j],
            decreases 8 - i,
        {
            out[i] = a[i] ^ b[i];
            i += 1;
        }
        out
    }

    /// `!a & b` per lane (`pandn`, whole 64-bit register).
    pub fn andnot_u8x8(self, a: [u8; 8], b: [u8; 8]) -> (r: [u8; 8])
        ensures
            forall|i: int| 0 <= i < 8 ==> r[i] == !a[i] & b[i],
    {
        let mut out = [0u8; 8];
        let mut i: usize = 0;
        while i < 8
            invariant
                i <= 8,
                forall|j: int| 0 <= j < i ==> out[j] == !a[j] & b[j],
            decreases 8 - i,
        {
            proof {
                lemma_not_ranges();
            }
            out[i] = !a[i] & b[i];
            i += 1;
        }
        out
    }

    /// `a + b` per lane, wrapping (`paddw`, no saturation).
    pub fn add_i16x4(self, a: [i16; 4], b: [i16; 4]) -> (r: [i16; 4])
        ensures
            forall|i: int| 0 <= i < 4 ==> r[i] == a[i].wrapping_add(b[i]),
    {
        let mut out = [0i16; 4];
        let mut i: usize = 0;
        while i < 4
            invariant
                i <= 4,
                forall|j: int| 0 <= j < i ==> out[j] == a[j].wrapping_add(b[j]),
            decreases 4 - i,
        {
            out[i] = a[i].wrapping_add(b[i]);
            i += 1;
        }
        out
    }

    /// `a - b` per lane, wrapping (`psubw`, no saturation).
    pub fn sub_i16x4(self, a: [i16; 4], b: [i16; 4]) -> (r: [i16; 4])
        ensures
            forall|i: int| 0 <= i < 4 ==> r[i] == a[i].wrapping_sub(b[i]),
    {
        let mut out = [0i16; 4];
        let mut i: usize = 0;
        while i < 4
            invariant
                i <= 4,
                forall|j: int| 0 <= j < i ==> out[j] == a[j].wrapping_sub(b[j]),
            decreases 4 - i,
        {
            out[i] = a[i].wrapping_sub(b[i]);
            i += 1;
        }
        out
    }

    /// `a + b` per lane, wrapping (`paddw`, no saturation).
    pub fn add_u16x4(self, a: [u16; 4], b: [u16; 4]) -> (r: [u16; 4])
        ensures
            forall|i: int| 0 <= i < 4 ==> r[i] == a[i].wrapping_add(b[i]),
    {
        let mut out = [0u16; 4];
        let mut i: usize = 0;
        while i < 4
            invariant
                i <= 4,
                forall|j: int| 0 <= j < i ==> out[j] == a[j].wrapping_add(b[j]),
            decreases 4 - i,
        {
            out[i] = a[i].wrapping_add(b[i]);
            i += 1;
        }
        out
    }

    /// `a - b` per lane, wrapping (`psubw`, no saturation).
    pub fn sub_u16x4(self, a: [u16; 4], b: [u16; 4]) -> (r: [u16; 4])
        ensures
            forall|i: int| 0 <= i < 4 ==> r[i] == a[i].wrapping_sub(b[i]),
    {
        let mut out = [0u16; 4];
        let mut i: usize = 0;
        while i < 4
            invariant
                i <= 4,
                forall|j: int| 0 <= j < i ==> out[j] == a[j].wrapping_sub(b[j]),
            decreases 4 - i,
        {
            out[i] = a[i].wrapping_sub(b[i]);
            i += 1;
        }
        out
    }

    /// `a + b` per lane, saturating (`paddsw`).
    pub fn adds_i16x4(self, a: [i16; 4], b: [i16; 4]) -> (r: [i16; 4])
        ensures
            forall|i: int| 0 <= i < 4 ==> r[i] == sat_i16(a[i] + b[i]),
    {
        let mut out = [0i16; 4];
        let mut i: usize = 0;
        while i < 4
            invariant
                i <= 4,
                forall|j: int| 0 <= j < i ==> out[j] == sat_i16(a[j] + b[j]),
            decreases 4 - i,
        {
            out[i] = adds_i16(a[i], b[i]);
            i += 1;
        }
        out
    }

    /// `a - b` per lane, saturating (`psubsw`).
    pub fn subs_i16x4(self, a: [i16; 4], b: [i16; 4]) -> (r: [i16; 4])
        ensures
            forall|i: int| 0 <= i < 4 ==> r[i] == sat_i16(a[i] - b[i]),
    {
        let mut out = [0i16; 4];
        let mut i: usize = 0;
        while i < 4
            invariant
                i <= 4,
                forall|j: int| 0 <= j < i ==> out[j] == sat_i16(a[j] - b[j]),
            decreases 4 - i,
        {
            out[i] = subs_i16(a[i], b[i]);
            i += 1;
        }
        out
    }

    /// `a + b` per lane, saturating (`paddusw`).
    pub fn adds_u16x4(self, a: [u16; 4], b: [u16; 4]) -> (r: [u16; 4])
        ensures
            forall|i: int| 0 <= i < 4 ==> r[i] == a[i].saturating_add(b[i]),
    {
        let mut out = [0u16; 4];
        let mut i: usize = 0;
        while i < 4
            invariant
                i <= 4,
                forall|j: int| 0 <= j < i ==> out[j] == a[j].saturating_add(b[j]),
            decreases 4 - i,
        {
            out[i] = a[i].saturating_add(b[i]);
            i += 1;
        }
        out
    }

    /// `a - b` per lane, saturating (`psubusw`).
    pub fn subs_u16x4(self, a: [u16; 4], b: [u16; 4]) -> (r: [u16; 4])
        ensures
            forall|i: int| 0 <= i < 4 ==> r[i] == a[i].saturating_sub(b[i]),
    {
        let mut out = [0u16; 4];
        let mut i: usize = 0;
        while i < 4
            invariant
                i <= 4,
                forall|j: int| 0 <= j < i ==> out[j] == a[j].saturating_sub(b[j]),
            decreases 4 - i,
        {
            out[i] = a[i].saturating_sub(b[i]);
            i += 1;
        }
        out
    }

    /// Lane equality mask (`pcmpeqw`): all-1s if equal, else 0.
    pub fn cmpeq_i16x4(self, a: [i16; 4], b: [i16; 4]) -> (r: [i16; 4])
        ensures
            forall|i: int| 0 <= i < 4 ==> r[i] == mask_i16(a[i] == b[i]),
    {
        let mut out = [0i16; 4];
        let mut i: usize = 0;
        while i < 4
            invariant
                i <= 4,
                forall|j: int| 0 <= j < i ==> out[j] == mask_i16(a[j] == b[j]),
            decreases 4 - i,
        {
            out[i] = if a[i] == b[i] { -1 } else { 0 };
            i += 1;
        }
        out
    }

    /// Lane equality mask (`pcmpeqw`): all-1s if equal, else 0.
    pub fn cmpeq_u16x4(self, a: [u16; 4], b: [u16; 4]) -> (r: [u16; 4])
        ensures
            forall|i: int| 0 <= i < 4 ==> r[i] == mask_u16(a[i] == b[i]),
    {
        let mut out = [0u16; 4];
        let mut i: usize = 0;
        while i < 4
            invariant
                i <= 4,
                forall|j: int| 0 <= j < i ==> out[j] == mask_u16(a[j] == b[j]),
            decreases 4 - i,
        {
            out[i] = if a[i] == b[i] { u16::MAX } else { 0 };
            i += 1;
        }
        out
    }

    /// `a * b` per lane, low 16 bits (`pmullw`).
    pub fn mullo_i16x4(self, a: [i16; 4], b: [i16; 4]) -> (r: [i16; 4])
        ensures
            forall|i: int| 0 <= i < 4 ==> r[i] == a[i].wrapping_mul(b[i]),
    {
        let mut out = [0i16; 4];
        let mut i: usize = 0;
        while i < 4
            invariant
                i <= 4,
                forall|j: int| 0 <= j < i ==> out[j] == a[j].wrapping_mul(b[j]),
            decreases 4 - i,
        {
            out[i] = a[i].wrapping_mul(b[i]);
            i += 1;
        }
        out
    }

    /// `a * b` per lane, low 16 bits (`pmullw`).
    pub fn mullo_u16x4(self, a: [u16; 4], b: [u16; 4]) -> (r: [u16; 4])
        ensures
            forall|i: int| 0 <= i < 4 ==> r[i] == a[i].wrapping_mul(b[i]),
    {
        let mut out = [0u16; 4];
        let mut i: usize = 0;
        while i < 4
            invariant
                i <= 4,
                forall|j: int| 0 <= j < i ==> out[j] == a[j].wrapping_mul(b[j]),
            decreases 4 - i,
        {
            out[i] = a[i].wrapping_mul(b[i]);
            i += 1;
        }
        out
    }

    /// `a * b` per lane, high 16 bits, signed (`pmulhw`).
    pub fn mulhi_i16x4(self, a: [i16; 4], b: [i16; 4]) -> (r: [i16; 4])
        ensures
            forall|i: int| 0 <= i < 4 ==> r[i] == mulhi_i16(a[i], b[i]),
    {
        let mut out = [0i16; 4];
        let mut i: usize = 0;
        while i < 4
            invariant
                i <= 4,
                forall|j: int| 0 <= j < i ==> out[j] == mulhi_i16(a[j], b[j]),
            decreases 4 - i,
        {
            out[i] = mulhi_i16_exec(a[i], b[i]);
            i += 1;
        }
        out
    }

    /// `a + b` per lane, wrapping (`paddd`, no saturation).
    pub fn add_i32x2(self, a: [i32; 2], b: [i32; 2]) -> (r: [i32; 2])
        ensures
            forall|i: int| 0 <= i < 2 ==> r[i] == a[i].wrapping_add(b[i]),
    {
        let mut out = [0i32; 2];
        let mut i: usize = 0;
        while i < 2
            invariant
                i <= 2,
                forall|j: int| 0 <= j < i ==> out[j] == a[j].wrapping_add(b[j]),
            decreases 2 - i,
        {
            out[i] = a[i].wrapping_add(b[i]);
            i += 1;
        }
        out
    }

    /// `a - b` per lane, wrapping (`psubd`, no saturation).
    pub fn sub_i32x2(self, a: [i32; 2], b: [i32; 2]) -> (r: [i32; 2])
        ensures
            forall|i: int| 0 <= i < 2 ==> r[i] == a[i].wrapping_sub(b[i]),
    {
        let mut out = [0i32; 2];
        let mut i: usize = 0;
        while i < 2
            invariant
                i <= 2,
                forall|j: int| 0 <= j < i ==> out[j] == a[j].wrapping_sub(b[j]),
            decreases 2 - i,
        {
            out[i] = a[i].wrapping_sub(b[i]);
            i += 1;
        }
        out
    }

    /// `a + b` per lane, wrapping (`paddd`, no saturation).
    pub fn add_u32x2(self, a: [u32; 2], b: [u32; 2]) -> (r: [u32; 2])
        ensures
            forall|i: int| 0 <= i < 2 ==> r[i] == a[i].wrapping_add(b[i]),
    {
        let mut out = [0u32; 2];
        let mut i: usize = 0;
        while i < 2
            invariant
                i <= 2,
                forall|j: int| 0 <= j < i ==> out[j] == a[j].wrapping_add(b[j]),
            decreases 2 - i,
        {
            out[i] = a[i].wrapping_add(b[i]);
            i += 1;
        }
        out
    }

    /// `a - b` per lane, wrapping (`psubd`, no saturation).
    pub fn sub_u32x2(self, a: [u32; 2], b: [u32; 2]) -> (r: [u32; 2])
        ensures
            forall|i: int| 0 <= i < 2 ==> r[i] == a[i].wrapping_sub(b[i]),
    {
        let mut out = [0u32; 2];
        let mut i: usize = 0;
        while i < 2
            invariant
                i <= 2,
                forall|j: int| 0 <= j < i ==> out[j] == a[j].wrapping_sub(b[j]),
            decreases 2 - i,
        {
            out[i] = a[i].wrapping_sub(b[i]);
            i += 1;
        }
        out
    }

    /// Lane equality mask (`pcmpeqd`): all-1s if equal, else 0.
    pub fn cmpeq_i32x2(self, a: [i32; 2], b: [i32; 2]) -> (r: [i32; 2])
        ensures
            forall|i: int| 0 <= i < 2 ==> r[i] == mask_i32(a[i] == b[i]),
    {
        let mut out = [0i32; 2];
        let mut i: usize = 0;
        while i < 2
            invariant
                i <= 2,
                forall|j: int| 0 <= j < i ==> out[j] == mask_i32(a[j] == b[j]),
            decreases 2 - i,
        {
            out[i] = if a[i] == b[i] { -1 } else { 0 };
            i += 1;
        }
        out
    }

    /// Lane equality mask (`pcmpeqd`): all-1s if equal, else 0.
    pub fn cmpeq_u32x2(self, a: [u32; 2], b: [u32; 2]) -> (r: [u32; 2])
        ensures
            forall|i: int| 0 <= i < 2 ==> r[i] == mask_u32(a[i] == b[i]),
    {
        let mut out = [0u32; 2];
        let mut i: usize = 0;
        while i < 2
            invariant
                i <= 2,
                forall|j: int| 0 <= j < i ==> out[j] == mask_u32(a[j] == b[j]),
            decreases 2 - i,
        {
            out[i] = if a[i] == b[i] { u32::MAX } else { 0 };
            i += 1;
        }
        out
    }

    /// `a << IMM` per lane (`psllw`, immediate count; `IMM >= 16` clears every lane).
    pub fn shl_i16x4<const IMM: u32>(self, a: [i16; 4]) -> (r: [i16; 4])
        ensures
            forall|i: int| 0 <= i < 4 ==> r[i] == if IMM < 16 { a[i].wrapping_shl(IMM) } else { 0 },
    {
        let mut out = [0i16; 4];
        let mut i: usize = 0;
        while i < 4
            invariant
                i <= 4,
                forall|j: int| 0 <= j < i ==> out[j] == if IMM < 16 { a[j].wrapping_shl(IMM) } else { 0 },
            decreases 4 - i,
        {
            out[i] = if IMM < 16 { a[i].wrapping_shl(IMM) } else { 0 };
            i += 1;
        }
        out
    }

    /// `a >> IMM` logical per lane (`psrlw`, immediate count; `IMM >= 16` clears every lane).
    pub fn shr_i16x4<const IMM: u32>(self, a: [i16; 4]) -> (r: [i16; 4])
        ensures
            forall|i: int| 0 <= i < 4 ==> r[i] == if IMM < 16 { ((a[i] as u16).wrapping_shr(IMM)) as i16 } else { 0 },
    {
        let mut out = [0i16; 4];
        let mut i: usize = 0;
        while i < 4
            invariant
                i <= 4,
                forall|j: int| 0 <= j < i ==> out[j] == if IMM < 16 { ((a[j] as u16).wrapping_shr(IMM)) as i16 } else { 0 },
            decreases 4 - i,
        {
            out[i] = if IMM < 16 { ((a[i] as u16).wrapping_shr(IMM)) as i16 } else { 0 };
            i += 1;
        }
        out
    }

    /// `a >> IMM` arithmetic per lane (`psraw`, immediate count; `IMM >= 16` fills with the sign).
    pub fn sra_i16x4<const IMM: u32>(self, a: [i16; 4]) -> (r: [i16; 4])
        ensures
            forall|i: int| 0 <= i < 4 ==> r[i] == a[i].wrapping_shr(if IMM < 16 { IMM } else { 15 }),
    {
        let mut out = [0i16; 4];
        let mut i: usize = 0;
        while i < 4
            invariant
                i <= 4,
                forall|j: int| 0 <= j < i ==> out[j] == a[j].wrapping_shr(if IMM < 16 { IMM } else { 15 }),
            decreases 4 - i,
        {
            out[i] = a[i].wrapping_shr(if IMM < 16 { IMM } else { 15 });
            i += 1;
        }
        out
    }

    /// `a << IMM` per lane (`psllw`, immediate count; `IMM >= 16` clears every lane).
    pub fn shl_u16x4<const IMM: u32>(self, a: [u16; 4]) -> (r: [u16; 4])
        ensures
            forall|i: int| 0 <= i < 4 ==> r[i] == if IMM < 16 { a[i].wrapping_shl(IMM) } else { 0 },
    {
        let mut out = [0u16; 4];
        let mut i: usize = 0;
        while i < 4
            invariant
                i <= 4,
                forall|j: int| 0 <= j < i ==> out[j] == if IMM < 16 { a[j].wrapping_shl(IMM) } else { 0 },
            decreases 4 - i,
        {
            out[i] = if IMM < 16 { a[i].wrapping_shl(IMM) } else { 0 };
            i += 1;
        }
        out
    }

    /// `a >> IMM` per lane (`psrlw`, immediate count; `IMM >= 16` clears every lane).
    pub fn shr_u16x4<const IMM: u32>(self, a: [u16; 4]) -> (r: [u16; 4])
        ensures
            forall|i: int| 0 <= i < 4 ==> r[i] == if IMM < 16 { a[i].wrapping_shr(IMM) } else { 0 },
    {
        let mut out = [0u16; 4];
        let mut i: usize = 0;
        while i < 4
            invariant
                i <= 4,
                forall|j: int| 0 <= j < i ==> out[j] == if IMM < 16 { a[j].wrapping_shr(IMM) } else { 0 },
            decreases 4 - i,
        {
            out[i] = if IMM < 16 { a[i].wrapping_shr(IMM) } else { 0 };
            i += 1;
        }
        out
    }

    /// `a << IMM` per lane (`pslld`, immediate count; `IMM >= 32` clears every lane).
    pub fn shl_i32x2<const IMM: u32>(self, a: [i32; 2]) -> (r: [i32; 2])
        ensures
            forall|i: int| 0 <= i < 2 ==> r[i] == if IMM < 32 { a[i].wrapping_shl(IMM) } else { 0 },
    {
        let mut out = [0i32; 2];
        let mut i: usize = 0;
        while i < 2
            invariant
                i <= 2,
                forall|j: int| 0 <= j < i ==> out[j] == if IMM < 32 { a[j].wrapping_shl(IMM) } else { 0 },
            decreases 2 - i,
        {
            out[i] = if IMM < 32 { a[i].wrapping_shl(IMM) } else { 0 };
            i += 1;
        }
        out
    }

    /// `a >> IMM` logical per lane (`psrld`, immediate count; `IMM >= 32` clears every lane).
    pub fn shr_i32x2<const IMM: u32>(self, a: [i32; 2]) -> (r: [i32; 2])
        ensures
            forall|i: int| 0 <= i < 2 ==> r[i] == if IMM < 32 { ((a[i] as u32).wrapping_shr(IMM)) as i32 } else { 0 },
    {
        let mut out = [0i32; 2];
        let mut i: usize = 0;
        while i < 2
            invariant
                i <= 2,
                forall|j: int| 0 <= j < i ==> out[j] == if IMM < 32 { ((a[j] as u32).wrapping_shr(IMM)) as i32 } else { 0 },
            decreases 2 - i,
        {
            out[i] = if IMM < 32 { ((a[i] as u32).wrapping_shr(IMM)) as i32 } else { 0 };
            i += 1;
        }
        out
    }

    /// `a >> IMM` arithmetic per lane (`psrad`, immediate count; `IMM >= 32` fills with the sign).
    pub fn sra_i32x2<const IMM: u32>(self, a: [i32; 2]) -> (r: [i32; 2])
        ensures
            forall|i: int| 0 <= i < 2 ==> r[i] == a[i].wrapping_shr(if IMM < 32 { IMM } else { 31 }),
    {
        let mut out = [0i32; 2];
        let mut i: usize = 0;
        while i < 2
            invariant
                i <= 2,
                forall|j: int| 0 <= j < i ==> out[j] == a[j].wrapping_shr(if IMM < 32 { IMM } else { 31 }),
            decreases 2 - i,
        {
            out[i] = a[i].wrapping_shr(if IMM < 32 { IMM } else { 31 });
            i += 1;
        }
        out
    }

    /// `a << IMM` per lane (`pslld`, immediate count; `IMM >= 32` clears every lane).
    pub fn shl_u32x2<const IMM: u32>(self, a: [u32; 2]) -> (r: [u32; 2])
        ensures
            forall|i: int| 0 <= i < 2 ==> r[i] == if IMM < 32 { a[i].wrapping_shl(IMM) } else { 0 },
    {
        let mut out = [0u32; 2];
        let mut i: usize = 0;
        while i < 2
            invariant
                i <= 2,
                forall|j: int| 0 <= j < i ==> out[j] == if IMM < 32 { a[j].wrapping_shl(IMM) } else { 0 },
            decreases 2 - i,
        {
            out[i] = if IMM < 32 { a[i].wrapping_shl(IMM) } else { 0 };
            i += 1;
        }
        out
    }

    /// `a >> IMM` per lane (`psrld`, immediate count; `IMM >= 32` clears every lane).
    pub fn shr_u32x2<const IMM: u32>(self, a: [u32; 2]) -> (r: [u32; 2])
        ensures
            forall|i: int| 0 <= i < 2 ==> r[i] == if IMM < 32 { a[i].wrapping_shr(IMM) } else { 0 },
    {
        let mut out = [0u32; 2];
        let mut i: usize = 0;
        while i < 2
            invariant
                i <= 2,
                forall|j: int| 0 <= j < i ==> out[j] == if IMM < 32 { a[j].wrapping_shr(IMM) } else { 0 },
            decreases 2 - i,
        {
            out[i] = if IMM < 32 { a[i].wrapping_shr(IMM) } else { 0 };
            i += 1;
        }
        out
    }
}

} // verus!
