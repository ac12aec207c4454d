//! Unaligned chunk moves between slices and fixed-width lane arrays: the
//! `loadu`/`storeu` steps of every chunked slice loop.

use vstd::prelude::*;

verus! {

/// Copies `s[i..i + 16]` into a lane array.
pub fn loadu_i8x16(s: &[i8], i: usize) -> (r: [i8; 16])
    requires
        i + 16 <= s.len(),
    ensures
        forall|j: int| 0 <= j < 16 ==> r[j] == s@[i + j],
{
    let mut r = [0i8; 16];
    let mut k: usize = 0;
    while k < 16
        invariant
            i + 16 <= s.len(),
            k <= 16,
            forall|j: int| 0 <= j < k ==> r[j] == s@[i + j],
        decreases 16 - k,
    {
        r[k] = s[i + k];
        k += 1;
    }
    r
}

/// Writes a lane array over `out[i..i + 16]`, leaving the rest of `out` unchanged.
pub fn storeu_i8x16(out: &mut [i8], i: usize, v: [i8; 16])
    requires
        i + 16 <= old(out).len(),
    ensures
        final(out)@.len() == old(out)@.len(),
        forall|j: int|
            0 <= j < old(out)@.len() ==> final(out)@[j] == if i <= j < i + 16 {
                v[j - i]
            } else {
                old(out)@[j]
            },
{
    let mut k: usize = 0;
    while k < 16
        invariant
            i + 16 <= out.len(),
            out@.len() == old(out)@.len(),
            k <= 16,
            forall|j: int|
                0 <= j < out@.len() ==> out@[j] == if i <= j < i + k {
                    v[j - i]
                } else {
                    old(out)@[j]
                },
        decreases 16 - k,
    {
        out[i + k] = v[k];
        k += 1;
    }
}

/// Copies `s[i..i + 16]` into a lane array.
pub fn loadu_u8x16(s: &[u8], i: usize) -> (r: [u8; 16])
    requires
        i + 16 <= s.len(),
    ensures
        forall|j: int| 0 <= j < 16 ==> r[j] == s@[i + j],
{
    let mut r = [0u8; 16];
    let mut k: usize = 0;
    while k < 16
        invariant
            i + 16 <= s.len(),
            k <= 16,
            forall|j: int| 0 <= j < k ==> r[j] == s@[i + j],
        decreases 16 - k,
    {
        r[k] = s[i + k];
        k += 1;
    }
    r
}

/// Writes a lane array over `out[i..i + 16]`, leaving the rest of `out` unchanged.
pub fn storeu_u8x16(out: &mut [u8], i: usize, v: [u8; 16])
    requires
        i + 16 <= old(out).len(),
    ensures
        final(out)@.len() == old(out)@.len(),
        forall|j: int|
            0 <= j < old(out)@.len() ==> final(out)@[j] == if i <= j < i + 16 {
                v[j - i]
            } else {
                old(out)@[j]
            },
{
    let mut k: usize = 0;
    while k < 16
        invariant
            i + 16 <= out.len(),
            out@.len() == old(out)@.len(),
            k <= 16,
            forall|j: int|
                0 <= j < out@.len() ==> out@[j] == if i <= j < i + k {
                    v[j - i]
                } else {
                    old(out)@[j]
                },
        decreases 16 - k,
    {
        out[i + k] = v[k];
        k += 1;
    }
}

/// Copies `s[i..i + 8]` into a lane array.
pub fn loadu_i16x8(s: &[i16], i: usize) -> (r: [i16; 8])
    requires
        i + 8 <= s.len(),
    ensures
        forall|j: int| 0 <= j < 8 ==> r[j] == s@[i + j],
{
    let mut r = [0i16; 8];
    let mut k: usize = 0;
    while k < 8
        invariant
            i + 8 <= s.len(),
            k <= 8,
            forall|j: int| 0 <= j < k ==> r[j] == s@[i + j],
        decreases 8 - k,
    {
        r[k] = s[i + k];
        k += 1;
    }
    r
}

/// Writes a lane array over `out[i..i + 8]`, leaving the rest of `out` unchanged.
pub fn storeu_i16x8(out: &mut [i16], i: usize, v: [i16; 8])
    requires
        i + 8 <= old(out).len(),
    ensures
        final(out)@.len() == old(out)@.len(),
        forall|j: int|
            0 <= j < old(out)@.len() ==> final(out)@[j] == if i <= j < i + 8 {
                v[j - i]
            } else {
                old(out)@[j]
            },
{
    let mut k: usize = 0;
    while k < 8
        invariant
            i + 8 <= out.len(),
            out@.len() == old(out)@.len(),
            k <= 8,
            forall|j: int|
                0 <= j < out@.len() ==> out@[j] == if i <= j < i + k {
                    v[j - i]
                } else {
                    old(out)@[j]
                },
        decreases 8 - k,
    {
        out[i + k] = v[k];
        k += 1;
    }
}

/// Copies `s[i..i + 8]` into a lane array.
pub fn loadu_u16x8(s: &[u16], i: usize) -> (r: [u16; 8])
    requires
        i + 8 <= s.len(),
    ensures
        forall|j: int| 0 <= j < 8 ==> r[j] == s@[i + j],
{
    let mut r = [0u16; 8];
    let mut k: usize = 0;
    while k < 8
        invariant
            i + 8 <= s.len(),
            k <= 8,
            forall|j: int| 0 <= j < k ==> r[j] == s@[i + j],
        decreases 8 - k,
    {
        r[k] = s[i + k];
        k += 1;
    }
    r
}

/// Writes a lane array over `out[i..i + 8]`, leaving the rest of `out` unchanged.
pub fn storeu_u16x8(out: &mut [u16], i: usize, v: [u16; 8])
    requires
        i + 8 <= old(out).len(),
    ensures
        final(out)@.len() == old(out)@.len(),
        forall|j: int|
            0 <= j < old(out)@.len() ==> final(out)@[j] == if i <= j < i + 8 {
                v[j - i]
            } else {
                old(out)@[j]
            },
{
    let mut k: usize = 0;
    while k < 8
        invariant
            i + 8 <= out.len(),
            out@.len() == old(out)@.len(),
            k <= 8,
            forall|j: int|
                0 <= j < out@.len() ==> out@[j] == if i <= j < i + k {
                    v[j - i]
                } else {
                    old(out)@[j]
                },
        decreases 8 - k,
    {
        out[i + k] = v[k];
        k += 1;
    }
}

/// Copies `s[i..i + 4]` into a lane array.
pub fn loadu_i32x4(s: &[i32], i: usize) -> (r: [i32; 4])
    requires
        i + 4 <= s.len(),
    ensures
        forall|j: int| 0 <= j < 4 ==> r[j] == s@[i + j],
{
    let mut r = [0i32; 4];
    let mut k: usize = 0;
    while k < 4
        invariant
            i + 4 <= s.len(),
            k <= 4,
            forall|j: int| 0 <= j < k ==> r[j] == s@[i + j],
        decreases 4 - k,
    {
        r[k] = s[i + k];
        k += 1;
    }
    r
}

/// Writes a lane array over `out[i..i + 4]`, leaving the rest of `out` unchanged.
pub fn storeu_i32x4(out: &mut [i32], i: usize, v: [i32; 4])
    requires
        i + 4 <= old(out).len(),
    ensures
        final(out)@.len() == old(out)@.len(),
        forall|j: int|
            0 <= j < old(out)@.len() ==> final(out)@[j] == if i <= j < i + 4 {
                v[j - i]
            } else {
                old(out)@[j]
            },
{
    let mut k: usize = 0;
    while k < 4
        invariant
            i + 4 <= out.len(),
            out@.len() == old(out)@.len(),
            k <= 4,
            forall|j: int|
                0 <= j < out@.len() ==> out@[j] == if i <= j < i + k {
                    v[j - i]
                } else {
                    old(out)@[j]
                },
        decreases 4 - k,
    {
        out[i + k] = v[k];
        k += 1;
    }
}

/// Copies `s[i..i + 4]` into a lane array.
pub fn loadu_u32x4(s: &[u32], i: usize) -> (r: [u32; 4])
    requires
        i + 4 <= s.len(),
    ensures
        forall|j: int| 0 <= j < 4 ==> r[j] == s@[i + j],
{
    let mut r = [0u32; 4];
    let mut k: usize = 0;
    while k < 4
        invariant
            i + 4 <= s.len(),
            k <= 4,
            forall|j: int| 0 <= j < k ==> r[j] == s@[i + j],
        decreases 4 - k,
    {
        r[k] = s[i + k];
        k += 1;
    }
    r
}

/// Writes a lane array over `out[i..i + 4]`, leaving the rest of `out` unchanged.
pub fn storeu_u32x4(out: &mut [u32], i: usize, v: [u32; 4])
    requires
        i + 4 <= old(out).len(),
    ensures
        final(out)@.len() == old(out)@.len(),
        forall|j: int|
            0 <= j < old(out)@.len() ==> final(out)@[j] == if i <= j < i + 4 {
                v[j - i]
            } else {
                old(out)@[j]
            },
{
    let mut k: usize = 0;
    while k < 4
        invariant
            i + 4 <= out.len(),
            out@.len() == old(out)@.len(),
            k <= 4,
            forall|j: int|
                0 <= j < out@.len() ==> out@[j] == if i <= j < i + k {
                    v[j - i]
                } else {
                    old(out)@[j]
                },
        decreases 4 - k,
    {
        out[i + k] = v[k];
        k += 1;
    }
}

/// Copies `s[i..i + 2]` into a lane array.
pub fn loadu_i64x2(s: &[i64], i: usize) -> (r: [i64; 2])
    requires
        i + 2 <= s.len(),
    ensures
        forall|j: int| 0 <= j < 2 ==> r[j] == s@[i + j],
{
    let mut r = [0i64; 2];
    let mut k: usize = 0;
    while k < 2
        invariant
            i + 2 <= s.len(),
            k <= 2,
            forall|j: int| 0 <= j < k ==> r[j] == s@[i + j],
        decreases 2 - k,
    {
        r[k] = s[i + k];
        k += 1;
    }
    r
}

/// Writes a lane array over `out[i..i + 2]`, leaving the rest of `out` unchanged.
pub fn storeu_i64x2(out: &mut [i64], i: usize, v: [i64; 2])
    requires
        i + 2 <= old(out).len(),
    ensures
        final(out)@.len() == old(out)@.len(),
        forall|j: int|
            0 <= j < old(out)@.len() ==> final(out)@[j] == if i <= j < i + 2 {
                v[j - i]
            } else {
                old(out)@[j]
            },
{
    let mut k: usize = 0;
    while k < 2
        invariant
            i + 2 <= out.len(),
            out@.len() == old(out)@.len(),
            k <= 2,
            forall|j: int|
                0 <= j < out@.len() ==> out@[j] == if i <= j < i + k {
                    v[j - i]
                } else {
                    old(out)@[j]
                },
        decreases 2 - k,
    {
        out[i + k] = v[k];
        k += 1;
    }
}

/// Copies `s[i..i + 2]` into a lane array.
pub fn loadu_u64x2(s: &[u64], i: usize) -> (r: [u64; 2])
    requires
        i + 2 <= s.len(),
    ensures
        forall|j: int| 0 <= j < 2 ==> r[j] == s@[i + j],
{
    let mut r = [0u64; 2];
    let mut k: usize = 0;
    while k < 2
        invariant
            i + 2 <= s.len(),
            k <= 2,
            forall|j: int| 0 <= j < k ==> r[j] == s@[i + j],
        decreases 2 - k,
    {
        r[k] = s[i + k];
        k += 1;
    }
    r
}

/// Writes a lane array over `out[i..i + 2]`, leaving the rest of `out` unchanged.
pub fn storeu_u64x2(out: &mut [u64], i: usize, v: [u64; 2])
    requires
        i + 2 <= old(out).len(),
    ensures
        final(out)@.len() == old(out)@.len(),
        forall|j: int|
            0 <= j < old(out)@.len() ==> final(out)@[j] == if i <= j < i + 2 {
                v[j - i]
            } else {
                old(out)@[j]
            },
{
    let mut k: usize = 0;
    while k < 2
        invariant
            i + 2 <= out.len(),
            out@.len() == old(out)@.len(),
            k <= 2,
            forall|j: int|
                0 <= j < out@.len() ==> out@[j] == if i <= j < i + k {
                    v[j - i]
                } else {
                    old(out)@[j]
                },
        decreases 2 - k,
    {
        out[i + k] = v[k];
        k += 1;
    }
}

/// Copies `s[i..i + 32]` into a lane array.
pub fn loadu_i16x32(s: &[i16], i: usize) -> (r: [i16; 32])
    requires
        i + 32 <= s.len(),
    ensures
        forall|j: int| 0 <= j < 32 ==> r[j] == s@[i + j],
{
    let mut r = [0i16; 32];
    let mut k: usize = 0;
    while k < 32
        invariant
            i + 32 <= s.len(),
            k <= 32,
            forall|j: int| 0 <= j < k ==> r[j] == s@[i + j],
        decreases 32 - k,
    {
        r[k] = s[i + k];
        k += 1;
    }
    r
}

/// Writes a lane array over `out[i..i + 32]`, leaving the rest of `out` unchanged.
pub fn storeu_i16x32(out: &mut [i16], i: usize, v: [i16; 32])
    requires
        i + 32 <= old(out).len(),
    ensures
        final(out)@.len() == old(out)@.len(),
        forall|j: int|
            0 <= j < old(out)@.len() ==> final(out)@[j] == if i <= j < i + 32 {
                v[j - i]
            } else {
                old(out)@[j]
            },
{
    let mut k: usize = 0;
    while k < 32
        invariant
            i + 32 <= out.len(),
            out@.len() == old(out)@.len(),
            k <= 32,
            forall|j: int|
                0 <= j < out@.len() ==> out@[j] == if i <= j < i + k {
                    v[j - i]
                } else {
                    old(out)@[j]
                },
        decreases 32 - k,
    {
        out[i + k] = v[k];
        k += 1;
    }
}

/// Copies `s[i..i + 16]` into a lane array.
pub fn loadu_i32x16(s: &[i32], i: usize) -> (r: [i32; 16])
    requires
        i + 16 <= s.len(),
    ensures
        forall|j: int| 0 <= j < 16 ==> r[j] == s@[i + j],
{
    let mut r = [0i32; 16];
    let mut k: usize = 0;
    while k < 16
        invariant
            i + 16 <= s.len(),
            k <= 16,
            forall|j: int| 0 <= j < k ==> r[j] == s@[i + j],
        decreases 16 - k,
    {
        r[k] = s[i + k];
        k += 1;
    }
    r
}

/// Writes a lane array over `out[i..i + 16]`, leaving the rest of `out` unchanged.
pub fn storeu_i32x16(out: &mut [i32], i: usize, v: [i32; 16])
    requires
        i + 16 <= old(out).len(),
    ensures
        final(out)@.len() == old(out)@.len(),
        forall|j: int|
            0 <= j < old(out)@.len() ==> final(out)@[j] == if i <= j < i + 16 {
                v[j - i]
            } else {
                old(out)@[j]
            },
{
    let mut k: usize = 0;
    while k < 16
        invariant
            i + 16 <= out.len(),
            out@.len() == old(out)@.len(),
            k <= 16,
            forall|j: int|
                0 <= j < out@.len() ==> out@[j] == if i <= j < i + k {
                    v[j - i]
                } else {
                    old(out)@[j]
                },
        decreases 16 - k,
    {
        out[i + k] = v[k];
        k += 1;
    }
}

/// Copies `s[i..i + 32]` into a lane array.
pub fn loadu_u8x32(s: &[u8], i: usize) -> (r: [u8; 32])
    requires
        i + 32 <= s.len(),
    ensures
        forall|j: int| 0 <= j < 32 ==> r[j] == s@[i + j],
{
    let mut r = [0u8; 32];
    let mut k: usize = 0;
    while k < 32
        invariant
            i + 32 <= s.len(),
            k <= 32,
            forall|j: int| 0 <= j < k ==> r[j] == s@[i + j],
        decreases 32 - k,
    {
        r[k] = s[i + k];
        k += 1;
    }
    r
}

/// Writes a lane array over `out[i..i + 32]`, leaving the rest of `out` unchanged.
pub fn storeu_u8x32(out: &mut [u8], i: usize, v: [u8; 32])
    requires
        i + 32 <= old(out).len(),
    ensures
        final(out)@.len() == old(out)@.len(),
        forall|j: int|
            0 <= j < old(out)@.len() ==> final(out)@[j] == if i <= j < i + 32 {
                v[j - i]
            } else {
                old(out)@[j]
            },
{
    let mut k: usize = 0;
    while k < 32
        invariant
            i + 32 <= out.len(),
            out@.len() == old(out)@.len(),
            k <= 32,
            forall|j: int|
                0 <= j < out@.len() ==> out@[j] == if i <= j < i + k {
                    v[j - i]
                } else {
                    old(out)@[j]
                },
        decreases 32 - k,
    {
        out[i + k] = v[k];
        k += 1;
    }
}

/// Copies `s[i..i + 64]` into a lane array.
pub fn loadu_u8x64(s: &[u8], i: usize) -> (r: [u8; 64])
    requires
        i + 64 <= s.len(),
    ensures
        forall|j: int| 0 <= j < 64 ==> r[j] == s@[i + j],
{
    let mut r = [0u8; 64];
    let mut k: usize = 0;
    while k < 64
        invariant
            i + 64 <= s.len(),
            k <= 64,
            forall|j: int| 0 <= j < k ==> r[j] == s@[i + j],
        decreases 64 - k,
    {
        r[k] = s[i + k];
        k += 1;
    }
    r
}

/// Writes a lane array over `out[i..i + 64]`, leaving the rest of `out` unchanged.
pub fn storeu_u8x64(out: &mut [u8], i: usize, v: [u8; 64])
    requires
        i + 64 <= old(out).len(),
    ensures
        final(out)@.len() == old(out)@.len(),
        forall|j: int|
            0 <= j < old(out)@.len() ==> final(out)@[j] == if i <= j < i + 64 {
                v[j - i]
            } else {
                old(out)@[j]
            },
{
    let mut k: usize = 0;
    while k < 64
        invariant
            i + 64 <= out.len(),
            out@.len() == old(out)@.len(),
            k <= 64,
            forall|j: int|
                0 <= j < out@.len() ==> out@[j] == if i <= j < i + k {
                    v[j - i]
                } else {
                    old(out)@[j]
                },
        decreases 64 - k,
    {
        out[i + k] = v[k];
        k += 1;
    }
}

/// Copies `s[i..i + 16]` into a lane array.
pub fn loadu_u32x16(s: &[u32], i: usize) -> (r: [u32; 16])
    requires
        i + 16 <= s.len(),
    ensures
        forall|j: int| 0 <= j < 16 ==> r[j] == s@[i + j],
{
    let mut r = [0u32; 16];
    let mut k: usize = 0;
    while k < 16
        invariant
            i + 16 <= s.len(),
            k <= 16,
            forall|j: int| 0 <= j < k ==> r[j] == s@[i + j],
        decreases 16 - k,
    {
        r[k] = s[i + k];
        k += 1;
    }
    r
}

/// Writes a lane array over `out[i..i + 16]`, leaving the rest of `out` unchanged.
pub fn storeu_u32x16(out: &mut [u32], i: usize, v: [u32; 16])
    requires
        i + 16 <= old(out).len(),
    ensures
        final(out)@.len() == old(out)@.len(),
        forall|j: int|
            0 <= j < old(out)@.len() ==> final(out)@[j] == if i <= j < i + 16 {
                v[j - i]
            } else {
                old(out)@[j]
            },
{
    let mut k: usize = 0;
    while k < 16
        invariant
            i + 16 <= out.len(),
            out@.len() == old(out)@.len(),
            k <= 16,
            forall|j: int|
                0 <= j < out@.len() ==> out@[j] == if i <= j < i + k {
                    v[j - i]
                } else {
                    old(out)@[j]
                },
        decreases 16 - k,
    {
        out[i + k] = v[k];
        k += 1;
    }
}

/// Copies `s[i..i + 8]` into a lane array.
pub fn loadu_u64x8(s: &[u64], i: usize) -> (r: [u64; 8])
    requires
        i + 8 <= s.len(),
    ensures
        forall|j: int| 0 <= j < 8 ==> r[j] == s@[i + j],
{
    let mut r = [0u64; 8];
    let mut k: usize = 0;
    while k < 8
        invariant
            i + 8 <= s.len(),
            k <= 8,
            forall|j: int| 0 <= j < k ==> r[j] == s@[i + j],
        decreases 8 - k,
    {
        r[k] = s[i + k];
        k += 1;
    }
    r
}

/// Writes a lane array over `out[i..i + 8]`, leaving the rest of `out` unchanged.
pub fn storeu_u64x8(out: &mut [u64], i: usize, v: [u64; 8])
    requires
        i + 8 <= old(out).len(),
    ensures
        final(out)@.len() == old(out)@.len(),
        forall|j: int|
            0 <= j < old(out)@.len() ==> final(out)@[j] == if i <= j < i + 8 {
                v[j - i]
            } else {
                old(out)@[j]
            },
{
    let mut k: usize = 0;
    while k < 8
        invariant
            i + 8 <= out.len(),
            out@.len() == old(out)@.len(),
            k <= 8,
            forall|j: int|
                0 <= j < out@.len() ==> out@[j] == if i <= j < i + k {
                    v[j - i]
                } else {
                    old(out)@[j]
                },
        decreases 8 - k,
    {
        out[i + k] = v[k];
        k += 1;
    }
}

/// Copies `s[i..i + 16]` into a lane array.
pub fn loadu_u16x16(s: &[u16], i: usize) -> (r: [u16; 16])
    requires
        i + 16 <= s.len(),
    ensures
        forall|j: int| 0 <= j < 16 ==> r[j] == s@[i + j],
{
    let mut r = [0u16; 16];
    let mut k: usize = 0;
    while k < 16
        invariant
            i + 16 <= s.len(),
            k <= 16,
            forall|j: int| 0 <= j < k ==> r[j] == s@[i + j],
        decreases 16 - k,
    {
        r[k] = s[i + k];
        k += 1;
    }
    r
}

/// Writes a lane array over `out[i..i + 16]`, leaving the rest of `out` unchanged.
pub fn storeu_u16x16(out: &mut [u16], i: usize, v: [u16; 16])
    requires
        i + 16 <= old(out).len(),
    ensures
        final(out)@.len() == old(out)@.len(),
        forall|j: int|
            0 <= j < old(out)@.len() ==> final(out)@[j] == if i <= j < i + 16 {
                v[j - i]
            } else {
                old(out)@[j]
            },
{
    let mut k: usize = 0;
    while k < 16
        invariant
            i + 16 <= out.len(),
            out@.len() == old(out)@.len(),
            k <= 16,
            forall|j: int|
                0 <= j < out@.len() ==> out@[j] == if i <= j < i + k {
                    v[j - i]
                } else {
                    old(out)@[j]
                },
        decreases 16 - k,
    {
        out[i + k] = v[k];
        k += 1;
    }
}

/// Copies `s[i..i + 8]` into a lane array.
pub fn loadu_u32x8(s: &[u32], i: usize) -> (r: [u32; 8])
    requires
        i + 8 <= s.len(),
    ensures
        forall|j: int| 0 <= j < 8 ==> r[j] == s@[i + j],
{
    let mut r = [0u32; 8];
    let mut k: usize = 0;
    while k < 8
        invariant
            i + 8 <= s.len(),
            k <= 8,
            forall|j: int| 0 <= j < k ==> r[j] == s@[i + j],
        decreases 8 - k,
    {
        r[k] = s[i + k];
        k += 1;
    }
    r
}

/// Writes a lane array over `out[i..i + 8]`, leaving the rest of `out` unchanged.
pub fn storeu_u32x8(out: &mut [u32], i: usize, v: [u32; 8])
    requires
        i + 8 <= old(out).len(),
    ensures
        final(out)@.len() == old(out)@.len(),
        forall|j: int|
            0 <= j < old(out)@.len() ==> final(out)@[j] == if i <= j < i + 8 {
                v[j - i]
            } else {
                old(out)@[j]
            },
{
    let mut k: usize = 0;
    while k < 8
        invariant
            i + 8 <= out.len(),
            out@.len() == old(out)@.len(),
            k <= 8,
            forall|j: int|
                0 <= j < out@.len() ==> out@[j] == if i <= j < i + k {
                    v[j - i]
                } else {
                    old(out)@[j]
                },
        decreases 8 - k,
    {
        out[i + k] = v[k];
        k += 1;
    }
}

/// Copies `s[i..i + 4]` into a lane array.
pub fn loadu_u64x4(s: &[u64], i: usize) -> (r: [u64; 4])
    requires
        i + 4 <= s.len(),
    ensures
        forall|j: int| 0 <= j < 4 ==> r[j] == s@[i + j],
{
    let mut r = [0u64; 4];
    let mut k: usize = 0;
    while k < 4
        invariant
            i + 4 <= s.len(),
            k <= 4,
            forall|j: int| 0 <= j < k ==> r[j] == s@[i + j],
        decreases 4 - k,
    {
        r[k] = s[i + k];
        k += 1;
    }
    r
}

/// Writes a lane array over `out[i..i + 4]`, leaving the rest of `out` unchanged.
pub fn storeu_u64x4(out: &mut [u64], i: usize, v: [u64; 4])
    requires
        i + 4 <= old(out).len(),
    ensures
        final(out)@.len() == old(out)@.len(),
        forall|j: int|
            0 <= j < old(out)@.len() ==> final(out)@[j] == if i <= j < i + 4 {
                v[j - i]
            } else {
                old(out)@[j]
            },
{
    let mut k: usize = 0;
    while k < 4
        invariant
            i + 4 <= out.len(),
            out@.len() == old(out)@.len(),
            k <= 4,
            forall|j: int|
                0 <= j < out@.len() ==> out@[j] == if i <= j < i + k {
                    v[j - i]
                } else {
                    old(out)@[j]
                },
        decreases 4 - k,
    {
        out[i + k] = v[k];
        k += 1;
    }
}

/// Copies `s[i..i + 4]` into a lane array.
pub fn loadu_i64x4(s: &[i64], i: usize) -> (r: [i64; 4])
    requires
        i + 4 <= s.len(),
    ensures
        forall|j: int| 0 <= j < 4 ==> r[j] == s@[i + j],
{
    let mut r = [0i64; 4];
    let mut k: usize = 0;
    while k < 4
        invariant
            i + 4 <= s.len(),
            k <= 4,
            forall|j: int| 0 <= j < k ==> r[j] == s@[i + j],
        decreases 4 - k,
    {
        r[k] = s[i + k];
        k += 1;
    }
    r
}

/// Writes a lane array over `out[i..i + 4]`, leaving the rest of `out` unchanged.
pub fn storeu_i64x4(out: &mut [i64], i: usize, v: [i64; 4])
    requires
        i + 4 <= old(out).len(),
    ensures
        final(out)@.len() == old(out)@.len(),
        forall|j: int|
            0 <= j < old(out)@.len() ==> final(out)@[j] == if i <= j < i + 4 {
                v[j - i]
            } else {
                old(out)@[j]
            },
{
    let mut k: usize = 0;
    while k < 4
        invariant
            i + 4 <= out.len(),
            out@.len() == old(out)@.len(),
            k <= 4,
            forall|j: int|
                0 <= j < out@.len() ==> out@[j] == if i <= j < i + k {
                    v[j - i]
                } else {
                    old(out)@[j]
                },
        decreases 4 - k,
    {
        out[i + k] = v[k];
        k += 1;
    }
}

/// Copies `s[i..i + 16]` into a lane array.
pub fn loadu_i16x16(s: &[i16], i: usize) -> (r: [i16; 16])
    requires
        i + 16 <= s.len(),
    ensures
        forall|j: int| 0 <= j < 16 ==> r[j] == s@[i + j],
{
    let mut r = [0i16; 16];
    let mut k: usize = 0;
    while k < 16
        invariant
            i + 16 <= s.len(),
            k <= 16,
            forall|j: int| 0 <= j < k ==> r[j] == s@[i + j],
        decreases 16 - k,
    {
        r[k] = s[i + k];
        k += 1;
    }
    r
}

/// Writes a lane array over `out[i..i + 16]`, leaving the rest of `out` unchanged.
pub fn storeu_i16x16(out: &mut [i16], i: usize, v: [i16; 16])
    requires
        i + 16 <= old(out).len(),
    ensures
        final(out)@.len() == old(out)@.len(),
        forall|j: int|
            0 <= j < old(out)@.len() ==> final(out)@[j] == if i <= j < i + 16 {
                v[j - i]
            } else {
                old(out)@[j]
            },
{
    let mut k: usize = 0;
    while k < 16
        invariant
            i + 16 <= out.len(),
            out@.len() == old(out)@.len(),
            k <= 16,
            forall|j: int|
                0 <= j < out@.len() ==> out@[j] == if i <= j < i + k {
                    v[j - i]
                } else {
                    old(out)@[j]
                },
        decreases 16 - k,
    {
        out[i + k] = v[k];
        k += 1;
    }
}

/// Copies `s[i..i + 8]` into a lane array.
pub fn loadu_i32x8(s: &[i32], i: usize) -> (r: [i32; 8])
    requires
        i + 8 <= s.len(),
    ensures
        forall|j: int| 0 <= j < 8 ==> r[j] == s@[i + j],
{
    let mut r = [0i32; 8];
    let mut k: usize = 0;
    while k < 8
        invariant
            i + 8 <= s.len(),
            k <= 8,
            forall|j: int| 0 <= j < k ==> r[j] == s@[i + j],
        decreases 8 - k,
    {
        r[k] = s[i + k];
        k += 1;
    }
    r
}

/// Writes a lane array over `out[i..i + 8]`, leaving the rest of `out` unchanged.
pub fn storeu_i32x8(out: &mut [i32], i: usize, v: [i32; 8])
    requires
        i + 8 <= old(out).len(),
    ensures
        final(out)@.len() == old(out)@.len(),
        forall|j: int|
            0 <= j < old(out)@.len() ==> final(out)@[j] == if i <= j < i + 8 {
                v[j - i]
            } else {
                old(out)@[j]
            },
{
    let mut k: usize = 0;
    while k < 8
        invariant
            i + 8 <= out.len(),
            out@.len() == old(out)@.len(),
            k <= 8,
            forall|j: int|
                0 <= j < out@.len() ==> out@[j] == if i <= j < i + k {
                    v[j - i]
                } else {
                    old(out)@[j]
                },
        decreases 8 - k,
    {
        out[i + k] = v[k];
        k += 1;
    }
}

} // verus!
