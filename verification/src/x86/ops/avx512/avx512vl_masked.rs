//! Merge- and zero-masked integer lane arithmetic for the 128/256-bit AVX-512 forms
//! ([`Avx512BwVl`] bytes and words, [`Avx512FVl`] dwords and qwords): wrapping and saturating
//! add/sub, low multiply, min/max and rounded average. Lane `i` takes the op's result where bit
//! `i` of `mask` is set; otherwise it is copied from `src` (merge) or zeroed (zero).

use vstd::prelude::*;

use super::super::sse::sse2_lanes::{adds_i16, adds_i8, sat_i16, sat_i8, subs_i16, subs_i8};
use super::avx512vl::{Avx512BwVl, Avx512FVl};

verus! {

impl Avx512FVl {
    /// `a + b` per lane, wrapping, where `mask` bit is set, else copied from `src` (`vpaddd`, 128-bit, merge-masked).
    pub fn add_i32x4_merge_masked(self, src: [i32; 4], mask: u8, a: [i32; 4], b: [i32; 4]) -> (r: [i32; 4])
        ensures
            forall|i: int|
                0 <= i < 4 ==> r[i] == if (mask >> i as u8) % 2 == 1 {
                    a[i].wrapping_add(b[i])
                } else {
                    src[i]
                },
    {
        let mut out = [0i32; 4];
        let mut i: usize = 0;
        while i < 4
            invariant
                i <= 4,
                forall|j: int|
                    0 <= j < i ==> out[j] == if (mask >> j as u8) % 2 == 1 {
                        a[j].wrapping_add(b[j])
                    } else {
                        src[j]
                    },
            decreases 4 - i,
        {
            out[i] = if (mask >> i as u8) % 2 == 1 {
                a[i].wrapping_add(b[i])
            } else {
                src[i]
            };
            i += 1;
        }
        out
    }

    /// `a + b` per lane, wrapping, where `mask` bit is set, else zero (`vpaddd`, 128-bit, zero-masked).
    pub fn add_i32x4_zero_masked(self, mask: u8, a: [i32; 4], b: [i32; 4]) -> (r: [i32; 4])
        ensures
            forall|i: int|
                0 <= i < 4 ==> r[i] == if (mask >> i as u8) % 2 == 1 {
                    a[i].wrapping_add(b[i])
                } else {
                    0
                },
    {
        self.add_i32x4_merge_masked([0i32; 4], mask, a, b)
    }

    /// `a - b` per lane, wrapping, where `mask` bit is set, else copied from `src` (`vpsubd`, 128-bit, merge-masked).
    pub fn sub_i32x4_merge_masked(self, src: [i32; 4], mask: u8, a: [i32; 4], b: [i32; 4]) -> (r: [i32; 4])
        ensures
            forall|i: int|
                0 <= i < 4 ==> r[i] == if (mask >> i as u8) % 2 == 1 {
                    a[i].wrapping_sub(b[i])
                } else {
                    src[i]
                },
    {
        let mut out = [0i32; 4];
        let mut i: usize = 0;
        while i < 4
            invariant
                i <= 4,
                forall|j: int|
                    0 <= j < i ==> out[j] == if (mask >> j as u8) % 2 == 1 {
                        a[j].wrapping_sub(b[j])
                    } else {
                        src[j]
                    },
            decreases 4 - i,
        {
            out[i] = if (mask >> i as u8) % 2 == 1 {
                a[i].wrapping_sub(b[i])
            } else {
                src[i]
            };
            i += 1;
        }
        out
    }

    /// `a - b` per lane, wrapping, where `mask` bit is set, else zero (`vpsubd`, 128-bit, zero-masked).
    pub fn sub_i32x4_zero_masked(self, mask: u8, a: [i32; 4], b: [i32; 4]) -> (r: [i32; 4])
        ensures
            forall|i: int|
                0 <= i < 4 ==> r[i] == if (mask >> i as u8) % 2 == 1 {
                    a[i].wrapping_sub(b[i])
                } else {
                    0
                },
    {
        self.sub_i32x4_merge_masked([0i32; 4], mask, a, b)
    }

    /// `a * b` per lane, low 32 bits, where `mask` bit is set, else copied from `src` (`vpmulld`, 128-bit, merge-masked).
    pub fn mul_i32x4_merge_masked(self, src: [i32; 4], mask: u8, a: [i32; 4], b: [i32; 4]) -> (r: [i32; 4])
        ensures
            forall|i: int|
                0 <= i < 4 ==> r[i] == if (mask >> i as u8) % 2 == 1 {
                    a[i].wrapping_mul(b[i])
                } else {
                    src[i]
                },
    {
        let mut out = [0i32; 4];
        let mut i: usize = 0;
        while i < 4
            invariant
                i <= 4,
                forall|j: int|
                    0 <= j < i ==> out[j] == if (mask >> j as u8) % 2 == 1 {
                        a[j].wrapping_mul(b[j])
                    } else {
                        src[j]
                    },
            decreases 4 - i,
        {
            out[i] = if (mask >> i as u8) % 2 == 1 {
                a[i].wrapping_mul(b[i])
            } else {
                src[i]
            };
            i += 1;
        }
        out
    }

    /// `a * b` per lane, low 32 bits, where `mask` bit is set, else zero (`vpmulld`, 128-bit, zero-masked).
    pub fn mul_i32x4_zero_masked(self, mask: u8, a: [i32; 4], b: [i32; 4]) -> (r: [i32; 4])
        ensures
            forall|i: int|
                0 <= i < 4 ==> r[i] == if (mask >> i as u8) % 2 == 1 {
                    a[i].wrapping_mul(b[i])
                } else {
                    0
                },
    {
        self.mul_i32x4_merge_masked([0i32; 4], mask, a, b)
    }

    /// Per-lane signed min where `mask` bit is set, else copied from `src` (`vpminsd`, 128-bit, merge-masked).
    pub fn min_i32x4_merge_masked(self, src: [i32; 4], mask: u8, a: [i32; 4], b: [i32; 4]) -> (r: [i32; 4])
        ensures
            forall|i: int|
                0 <= i < 4 ==> r[i] == if (mask >> i as u8) % 2 == 1 {
                    if a[i] <= b[i] { a[i] } else { b[i] }
                } else {
                    src[i]
                },
    {
        let mut out = [0i32; 4];
        let mut i: usize = 0;
        while i < 4
            invariant
                i <= 4,
                forall|j: int|
                    0 <= j < i ==> out[j] == if (mask >> j as u8) % 2 == 1 {
                        if a[j] <= b[j] { a[j] } else { b[j] }
                    } else {
                        src[j]
                    },
            decreases 4 - i,
        {
            out[i] = if (mask >> i as u8) % 2 == 1 {
                if a[i] <= b[i] { a[i] } else { b[i] }
            } else {
                src[i]
            };
            i += 1;
        }
        out
    }

    /// Per-lane signed min where `mask` bit is set, else zero (`vpminsd`, 128-bit, zero-masked).
    pub fn min_i32x4_zero_masked(self, mask: u8, a: [i32; 4], b: [i32; 4]) -> (r: [i32; 4])
        ensures
            forall|i: int|
                0 <= i < 4 ==> r[i] == if (mask >> i as u8) % 2 == 1 {
                    if a[i] <= b[i] { a[i] } else { b[i] }
                } else {
                    0
                },
    {
        self.min_i32x4_merge_masked([0i32; 4], mask, a, b)
    }

    /// Per-lane signed max where `mask` bit is set, else copied from `src` (`vpmaxsd`, 128-bit, merge-masked).
    pub fn max_i32x4_merge_masked(self, src: [i32; 4], mask: u8, a: [i32; 4], b: [i32; 4]) -> (r: [i32; 4])
        ensures
            forall|i: int|
                0 <= i < 4 ==> r[i] == if (mask >> i as u8) % 2 == 1 {
                    if a[i] >= b[i] { a[i] } else { b[i] }
                } else {
                    src[i]
                },
    {
        let mut out = [0i32; 4];
        let mut i: usize = 0;
        while i < 4
            invariant
                i <= 4,
                forall|j: int|
                    0 <= j < i ==> out[j] == if (mask >> j as u8) % 2 == 1 {
                        if a[j] >= b[j] { a[j] } else { b[j] }
                    } else {
                        src[j]
                    },
            decreases 4 - i,
        {
            out[i] = if (mask >> i as u8) % 2 == 1 {
                if a[i] >= b[i] { a[i] } else { b[i] }
            } else {
                src[i]
            };
            i += 1;
        }
        out
    }

    /// Per-lane signed max where `mask` bit is set, else zero (`vpmaxsd`, 128-bit, zero-masked).
    pub fn max_i32x4_zero_masked(self, mask: u8, a: [i32; 4], b: [i32; 4]) -> (r: [i32; 4])
        ensures
            forall|i: int|
                0 <= i < 4 ==> r[i] == if (mask >> i as u8) % 2 == 1 {
                    if a[i] >= b[i] { a[i] } else { b[i] }
                } else {
                    0
                },
    {
        self.max_i32x4_merge_masked([0i32; 4], mask, a, b)
    }

    /// `a + b` per lane, wrapping, where `mask` bit is set, else copied from `src` (`vpaddd`, 256-bit, merge-masked).
    pub fn add_i32x8_merge_masked(self, src: [i32; 8], mask: u8, a: [i32; 8], b: [i32; 8]) -> (r: [i32; 8])
        ensures
            forall|i: int|
                0 <= i < 8 ==> r[i] == if (mask >> i as u8) % 2 == 1 {
                    a[i].wrapping_add(b[i])
                } else {
                    src[i]
                },
    {
        let mut out = [0i32; 8];
        let mut i: usize = 0;
        while i < 8
            invariant
                i <= 8,
                forall|j: int|
                    0 <= j < i ==> out[j] == if (mask >> j as u8) % 2 == 1 {
                        a[j].wrapping_add(b[j])
                    } else {
                        src[j]
                    },
            decreases 8 - i,
        {
            out[i] = if (mask >> i as u8) % 2 == 1 {
                a[i].wrapping_add(b[i])
            } else {
                src[i]
            };
            i += 1;
        }
        out
    }

    /// `a + b` per lane, wrapping, where `mask` bit is set, else zero (`vpaddd`, 256-bit, zero-masked).
    pub fn add_i32x8_zero_masked(self, mask: u8, a: [i32; 8], b: [i32; 8]) -> (r: [i32; 8])
        ensures
            forall|i: int|
                0 <= i < 8 ==> r[i] == if (mask >> i as u8) % 2 == 1 {
                    a[i].wrapping_add(b[i])
                } else {
                    0
                },
    {
        self.add_i32x8_merge_masked([0i32; 8], mask, a, b)
    }

    /// `a - b` per lane, wrapping, where `mask` bit is set, else copied from `src` (`vpsubd`, 256-bit, merge-masked).
    pub fn sub_i32x8_merge_masked(self, src: [i32; 8], mask: u8, a: [i32; 8], b: [i32; 8]) -> (r: [i32; 8])
        ensures
            forall|i: int|
                0 <= i < 8 ==> r[i] == if (mask >> i as u8) % 2 == 1 {
                    a[i].wrapping_sub(b[i])
                } else {
                    src[i]
                },
    {
        let mut out = [0i32; 8];
        let mut i: usize = 0;
        while i < 8
            invariant
                i <= 8,
                forall|j: int|
                    0 <= j < i ==> out[j] == if (mask >> j as u8) % 2 == 1 {
                        a[j].wrapping_sub(b[j])
                    } else {
                        src[j]
                    },
            decreases 8 - i,
        {
            out[i] = if (mask >> i as u8) % 2 == 1 {
                a[i].wrapping_sub(b[i])
            } else {
                src[i]
            };
            i += 1;
        }
        out
    }

    /// `a - b` per lane, wrapping, where `mask` bit is set, else zero (`vpsubd`, 256-bit, zero-masked).
    pub fn sub_i32x8_zero_masked(self, mask: u8, a: [i32; 8], b: [i32; 8]) -> (r: [i32; 8])
        ensures
            forall|i: int|
                0 <= i < 8 ==> r[i] == if (mask >> i as u8) % 2 == 1 {
                    a[i].wrapping_sub(b[i])
                } else {
                    0
                },
    {
        self.sub_i32x8_merge_masked([0i32; 8], mask, a, b)
    }

    /// `a * b` per lane, low 32 bits, where `mask` bit is set, else copied from `src` (`vpmulld`, 256-bit, merge-masked).
    pub fn mul_i32x8_merge_masked(self, src: [i32; 8], mask: u8, a: [i32; 8], b: [i32; 8]) -> (r: [i32; 8])
        ensures
            forall|i: int|
                0 <= i < 8 ==> r[i] == if (mask >> i as u8) % 2 == 1 {
                    a[i].wrapping_mul(b[i])
                } else {
                    src[i]
                },
    {
        let mut out = [0i32; 8];
        let mut i: usize = 0;
        while i < 8
            invariant
                i <= 8,
                forall|j: int|
                    0 <= j < i ==> out[j] == if (mask >> j as u8) % 2 == 1 {
                        a[j].wrapping_mul(b[j])
                    } else {
                        src[j]
                    },
            decreases 8 - i,
        {
            out[i] = if (mask >> i as u8) % 2 == 1 {
                a[i].wrapping_mul(b[i])
            } else {
                src[i]
            };
            i += 1;
        }
        out
    }

    /// `a * b` per lane, low 32 bits, where `mask` bit is set, else zero (`vpmulld`, 256-bit, zero-masked).
    pub fn mul_i32x8_zero_masked(self, mask: u8, a: [i32; 8], b: [i32; 8]) -> (r: [i32; 8])
        ensures
            forall|i: int|
                0 <= i < 8 ==> r[i] == if (mask >> i as u8) % 2 == 1 {
                    a[i].wrapping_mul(b[i])
                } else {
                    0
                },
    {
        self.mul_i32x8_merge_masked([0i32; 8], mask, a, b)
    }

    /// Per-lane signed min where `mask` bit is set, else copied from `src` (`vpminsd`, 256-bit, merge-masked).
    pub fn min_i32x8_merge_masked(self, src: [i32; 8], mask: u8, a: [i32; 8], b: [i32; 8]) -> (r: [i32; 8])
        ensures
            forall|i: int|
                0 <= i < 8 ==> r[i] == if (mask >> i as u8) % 2 == 1 {
                    if a[i] <= b[i] { a[i] } else { b[i] }
                } else {
                    src[i]
                },
    {
        let mut out = [0i32; 8];
        let mut i: usize = 0;
        while i < 8
            invariant
                i <= 8,
                forall|j: int|
                    0 <= j < i ==> out[j] == if (mask >> j as u8) % 2 == 1 {
                        if a[j] <= b[j] { a[j] } else { b[j] }
                    } else {
                        src[j]
                    },
            decreases 8 - i,
        {
            out[i] = if (mask >> i as u8) % 2 == 1 {
                if a[i] <= b[i] { a[i] } else { b[i] }
            } else {
                src[i]
            };
            i += 1;
        }
        out
    }

    /// Per-lane signed min where `mask` bit is set, else zero (`vpminsd`, 256-bit, zero-masked).
    pub fn min_i32x8_zero_masked(self, mask: u8, a: [i32; 8], b: [i32; 8]) -> (r: [i32; 8])
        ensures
            forall|i: int|
                0 <= i < 8 ==> r[i] == if (mask >> i as u8) % 2 == 1 {
                    if a[i] <= b[i] { a[i] } else { b[i] }
                } else {
                    0
                },
    {
        self.min_i32x8_merge_masked([0i32; 8], mask, a, b)
    }

    /// Per-lane signed max where `mask` bit is set, else copied from `src` (`vpmaxsd`, 256-bit, merge-masked).
    pub fn max_i32x8_merge_masked(self, src: [i32; 8], mask: u8, a: [i32; 8], b: [i32; 8]) -> (r: [i32; 8])
        ensures
            forall|i: int|
                0 <= i < 8 ==> r[i] == if (mask >> i as u8) % 2 == 1 {
                    if a[i] >= b[i] { a[i] } else { b[i] }
                } else {
                    src[i]
                },
    {
        let mut out = [0i32; 8];
        let mut i: usize = 0;
        while i < 8
            invariant
                i <= 8,
                forall|j: int|
                    0 <= j < i ==> out[j] == if (mask >> j as u8) % 2 == 1 {
                        if a[j] >= b[j] { a[j] } else { b[j] }
                    } else {
                        src[j]
                    },
            decreases 8 - i,
        {
            out[i] = if (mask >> i as u8) % 2 == 1 {
                if a[i] >= b[i] { a[i] } else { b[i] }
            } else {
                src[i]
            };
            i += 1;
        }
        out
    }

    /// Per-lane signed max where `mask` bit is set, else zero (`vpmaxsd`, 256-bit, zero-masked).
    pub fn max_i32x8_zero_masked(self, mask: u8, a: [i32; 8], b: [i32; 8]) -> (r: [i32; 8])
        ensures
            forall|i: int|
                0 <= i < 8 ==> r[i] == if (mask >> i as u8) % 2 == 1 {
                    if a[i] >= b[i] { a[i] } else { b[i] }
                } else {
                    0
                },
    {
        self.max_i32x8_merge_masked([0i32; 8], mask, a, b)
    }

    /// `a + b` per lane, wrapping, where `mask` bit is set, else copied from `src` (`vpaddd`, 128-bit, merge-masked; bit-identical to the signed form, no `epu32` add exists).
    pub fn add_u32x4_merge_masked(self, src: [u32; 4], mask: u8, a: [u32; 4], b: [u32; 4]) -> (r: [u32; 4])
        ensures
            forall|i: int|
                0 <= i < 4 ==> r[i] == if (mask >> i as u8) % 2 == 1 {
                    a[i].wrapping_add(b[i])
                } else {
                    src[i]
                },
    {
        let mut out = [0u32; 4];
        let mut i: usize = 0;
        while i < 4
            invariant
                i <= 4,
                forall|j: int|
                    0 <= j < i ==> out[j] == if (mask >> j as u8) % 2 == 1 {
                        a[j].wrapping_add(b[j])
                    } else {
                        src[j]
                    },
            decreases 4 - i,
        {
            out[i] = if (mask >> i as u8) % 2 == 1 {
                a[i].wrapping_add(b[i])
            } else {
                src[i]
            };
            i += 1;
        }
        out
    }

    /// `a + b` per lane, wrapping, where `mask` bit is set, else zero (`vpaddd`, 128-bit, zero-masked).
    pub fn add_u32x4_zero_masked(self, mask: u8, a: [u32; 4], b: [u32; 4]) -> (r: [u32; 4])
        ensures
            forall|i: int|
                0 <= i < 4 ==> r[i] == if (mask >> i as u8) % 2 == 1 {
                    a[i].wrapping_add(b[i])
                } else {
                    0
                },
    {
        self.add_u32x4_merge_masked([0u32; 4], mask, a, b)
    }

    /// `a - b` per lane, wrapping, where `mask` bit is set, else copied from `src` (`vpsubd`, 128-bit, merge-masked; bit-identical to the signed form, no `epu32` sub exists).
    pub fn sub_u32x4_merge_masked(self, src: [u32; 4], mask: u8, a: [u32; 4], b: [u32; 4]) -> (r: [u32; 4])
        ensures
            forall|i: int|
                0 <= i < 4 ==> r[i] == if (mask >> i as u8) % 2 == 1 {
                    a[i].wrapping_sub(b[i])
                } else {
                    src[i]
                },
    {
        let mut out = [0u32; 4];
        let mut i: usize = 0;
        while i < 4
            invariant
                i <= 4,
                forall|j: int|
                    0 <= j < i ==> out[j] == if (mask >> j as u8) % 2 == 1 {
                        a[j].wrapping_sub(b[j])
                    } else {
                        src[j]
                    },
            decreases 4 - i,
        {
            out[i] = if (mask >> i as u8) % 2 == 1 {
                a[i].wrapping_sub(b[i])
            } else {
                src[i]
            };
            i += 1;
        }
        out
    }

    /// `a - b` per lane, wrapping, where `mask` bit is set, else zero (`vpsubd`, 128-bit, zero-masked).
    pub fn sub_u32x4_zero_masked(self, mask: u8, a: [u32; 4], b: [u32; 4]) -> (r: [u32; 4])
        ensures
            forall|i: int|
                0 <= i < 4 ==> r[i] == if (mask >> i as u8) % 2 == 1 {
                    a[i].wrapping_sub(b[i])
                } else {
                    0
                },
    {
        self.sub_u32x4_merge_masked([0u32; 4], mask, a, b)
    }

    /// `a * b` per lane, low 32 bits, where `mask` bit is set, else copied from `src` (`vpmulld`, 128-bit, merge-masked; bit-identical to the signed form).
    pub fn mul_u32x4_merge_masked(self, src: [u32; 4], mask: u8, a: [u32; 4], b: [u32; 4]) -> (r: [u32; 4])
        ensures
            forall|i: int|
                0 <= i < 4 ==> r[i] == if (mask >> i as u8) % 2 == 1 {
                    a[i].wrapping_mul(b[i])
                } else {
                    src[i]
                },
    {
        let mut out = [0u32; 4];
        let mut i: usize = 0;
        while i < 4
            invariant
                i <= 4,
                forall|j: int|
                    0 <= j < i ==> out[j] == if (mask >> j as u8) % 2 == 1 {
                        a[j].wrapping_mul(b[j])
                    } else {
                        src[j]
                    },
            decreases 4 - i,
        {
            out[i] = if (mask >> i as u8) % 2 == 1 {
                a[i].wrapping_mul(b[i])
            } else {
                src[i]
            };
            i += 1;
        }
        out
    }

    /// `a * b` per lane, low 32 bits, where `mask` bit is set, else zero (`vpmulld`, 128-bit, zero-masked).
    pub fn mul_u32x4_zero_masked(self, mask: u8, a: [u32; 4], b: [u32; 4]) -> (r: [u32; 4])
        ensures
            forall|i: int|
                0 <= i < 4 ==> r[i] == if (mask >> i as u8) % 2 == 1 {
                    a[i].wrapping_mul(b[i])
                } else {
                    0
                },
    {
        self.mul_u32x4_merge_masked([0u32; 4], mask, a, b)
    }

    /// Per-lane unsigned min where `mask` bit is set, else copied from `src` (`vpminud`, 128-bit, merge-masked).
    pub fn min_u32x4_merge_masked(self, src: [u32; 4], mask: u8, a: [u32; 4], b: [u32; 4]) -> (r: [u32; 4])
        ensures
            forall|i: int|
                0 <= i < 4 ==> r[i] == if (mask >> i as u8) % 2 == 1 {
                    if a[i] <= b[i] { a[i] } else { b[i] }
                } else {
                    src[i]
                },
    {
        let mut out = [0u32; 4];
        let mut i: usize = 0;
        while i < 4
            invariant
                i <= 4,
                forall|j: int|
                    0 <= j < i ==> out[j] == if (mask >> j as u8) % 2 == 1 {
                        if a[j] <= b[j] { a[j] } else { b[j] }
                    } else {
                        src[j]
                    },
            decreases 4 - i,
        {
            out[i] = if (mask >> i as u8) % 2 == 1 {
                if a[i] <= b[i] { a[i] } else { b[i] }
            } else {
                src[i]
            };
            i += 1;
        }
        out
    }

    /// Per-lane unsigned min where `mask` bit is set, else zero (`vpminud`, 128-bit, zero-masked).
    pub fn min_u32x4_zero_masked(self, mask: u8, a: [u32; 4], b: [u32; 4]) -> (r: [u32; 4])
        ensures
            forall|i: int|
                0 <= i < 4 ==> r[i] == if (mask >> i as u8) % 2 == 1 {
                    if a[i] <= b[i] { a[i] } else { b[i] }
                } else {
                    0
                },
    {
        self.min_u32x4_merge_masked([0u32; 4], mask, a, b)
    }

    /// Per-lane unsigned max where `mask` bit is set, else copied from `src` (`vpmaxud`, 128-bit, merge-masked).
    pub fn max_u32x4_merge_masked(self, src: [u32; 4], mask: u8, a: [u32; 4], b: [u32; 4]) -> (r: [u32; 4])
        ensures
            forall|i: int|
                0 <= i < 4 ==> r[i] == if (mask >> i as u8) % 2 == 1 {
                    if a[i] >= b[i] { a[i] } else { b[i] }
                } else {
                    src[i]
                },
    {
        let mut out = [0u32; 4];
        let mut i: usize = 0;
        while i < 4
            invariant
                i <= 4,
                forall|j: int|
                    0 <= j < i ==> out[j] == if (mask >> j as u8) % 2 == 1 {
                        if a[j] >= b[j] { a[j] } else { b[j] }
                    } else {
                        src[j]
                    },
            decreases 4 - i,
        {
            out[i] = if (mask >> i as u8) % 2 == 1 {
                if a[i] >= b[i] { a[i] } else { b[i] }
            } else {
                src[i]
            };
            i += 1;
        }
        out
    }

    /// Per-lane unsigned max where `mask` bit is set, else zero (`vpmaxud`, 128-bit, zero-masked).
    pub fn max_u32x4_zero_masked(self, mask: u8, a: [u32; 4], b: [u32; 4]) -> (r: [u32; 4])
        ensures
            forall|i: int|
                0 <= i < 4 ==> r[i] == if (mask >> i as u8) % 2 == 1 {
                    if a[i] >= b[i] { a[i] } else { b[i] }
                } else {
                    0
                },
    {
        self.max_u32x4_merge_masked([0u32; 4], mask, a, b)
    }

    /// `a + b` per lane, wrapping, where `mask` bit is set, else copied from `src` (`vpaddd`, 256-bit, merge-masked; bit-identical to the signed form, no `epu32` add exists).
    pub fn add_u32x8_merge_masked(self, src: [u32; 8], mask: u8, a: [u32; 8], b: [u32; 8]) -> (r: [u32; 8])
        ensures
            forall|i: int|
                0 <= i < 8 ==> r[i] == if (mask >> i as u8) % 2 == 1 {
                    a[i].wrapping_add(b[i])
                } else {
                    src[i]
                },
    {
        let mut out = [0u32; 8];
        let mut i: usize = 0;
        while i < 8
            invariant
                i <= 8,
                forall|j: int|
                    0 <= j < i ==> out[j] == if (mask >> j as u8) % 2 == 1 {
                        a[j].wrapping_add(b[j])
                    } else {
                        src[j]
                    },
            decreases 8 - i,
        {
            out[i] = if (mask >> i as u8) % 2 == 1 {
                a[i].wrapping_add(b[i])
            } else {
                src[i]
            };
            i += 1;
        }
        out
    }

    /// `a + b` per lane, wrapping, where `mask` bit is set, else zero (`vpaddd`, 256-bit, zero-masked).
    pub fn add_u32x8_zero_masked(self, mask: u8, a: [u32; 8], b: [u32; 8]) -> (r: [u32; 8])
        ensures
            forall|i: int|
                0 <= i < 8 ==> r[i] == if (mask >> i as u8) % 2 == 1 {
                    a[i].wrapping_add(b[i])
                } else {
                    0
                },
    {
        self.add_u32x8_merge_masked([0u32; 8], mask, a, b)
    }

    /// `a - b` per lane, wrapping, where `mask` bit is set, else copied from `src` (`vpsubd`, 256-bit, merge-masked; bit-identical to the signed form, no `epu32` sub exists).
    pub fn sub_u32x8_merge_masked(self, src: [u32; 8], mask: u8, a: [u32; 8], b: [u32; 8]) -> (r: [u32; 8])
        ensures
            forall|i: int|
                0 <= i < 8 ==> r[i] == if (mask >> i as u8) % 2 == 1 {
                    a[i].wrapping_sub(b[i])
                } else {
                    src[i]
                },
    {
        let mut out = [0u32; 8];
        let mut i: usize = 0;
        while i < 8
            invariant
                i <= 8,
                forall|j: int|
                    0 <= j < i ==> out[j] == if (mask >> j as u8) % 2 == 1 {
                        a[j].wrapping_sub(b[j])
                    } else {
                        src[j]
                    },
            decreases 8 - i,
        {
            out[i] = if (mask >> i as u8) % 2 == 1 {
                a[i].wrapping_sub(b[i])
            } else {
                src[i]
            };
            i += 1;
        }
        out
    }

    /// `a - b` per lane, wrapping, where `mask` bit is set, else zero (`vpsubd`, 256-bit, zero-masked).
    pub fn sub_u32x8_zero_masked(self, mask: u8, a: [u32; 8], b: [u32; 8]) -> (r: [u32; 8])
        ensures
            forall|i: int|
                0 <= i < 8 ==> r[i] == if (mask >> i as u8) % 2 == 1 {
                    a[i].wrapping_sub(b[i])
                } else {
                    0
                },
    {
        self.sub_u32x8_merge_masked([0u32; 8], mask, a, b)
    }

    /// `a * b` per lane, low 32 bits, where `mask` bit is set, else copied from `src` (`vpmulld`, 256-bit, merge-masked; bit-identical to the signed form).
    pub fn mul_u32x8_merge_masked(self, src: [u32; 8], mask: u8, a: [u32; 8], b: [u32; 8]) -> (r: [u32; 8])
        ensures
            forall|i: int|
                0 <= i < 8 ==> r[i] == if (mask >> i as u8) % 2 == 1 {
                    a[i].wrapping_mul(b[i])
                } else {
                    src[i]
                },
    {
        let mut out = [0u32; 8];
        let mut i: usize = 0;
        while i < 8
            invariant
                i <= 8,
                forall|j: int|
                    0 <= j < i ==> out[j] == if (mask >> j as u8) % 2 == 1 {
                        a[j].wrapping_mul(b[j])
                    } else {
                        src[j]
                    },
            decreases 8 - i,
        {
            out[i] = if (mask >> i as u8) % 2 == 1 {
                a[i].wrapping_mul(b[i])
            } else {
                src[i]
            };
            i += 1;
        }
        out
    }

    /// `a * b` per lane, low 32 bits, where `mask` bit is set, else zero (`vpmulld`, 256-bit, zero-masked).
    pub fn mul_u32x8_zero_masked(self, mask: u8, a: [u32; 8], b: [u32; 8]) -> (r: [u32; 8])
        ensures
            forall|i: int|
                0 <= i < 8 ==> r[i] == if (mask >> i as u8) % 2 == 1 {
                    a[i].wrapping_mul(b[i])
                } else {
                    0
                },
    {
        self.mul_u32x8_merge_masked([0u32; 8], mask, a, b)
    }

    /// Per-lane unsigned min where `mask` bit is set, else copied from `src` (`vpminud`, 256-bit, merge-masked).
    pub fn min_u32x8_merge_masked(self, src: [u32; 8], mask: u8, a: [u32; 8], b: [u32; 8]) -> (r: [u32; 8])
        ensures
            forall|i: int|
                0 <= i < 8 ==> r[i] == if (mask >> i as u8) % 2 == 1 {
                    if a[i] <= b[i] { a[i] } else { b[i] }
                } else {
                    src[i]
                },
    {
        let mut out = [0u32; 8];
        let mut i: usize = 0;
        while i < 8
            invariant
                i <= 8,
                forall|j: int|
                    0 <= j < i ==> out[j] == if (mask >> j as u8) % 2 == 1 {
                        if a[j] <= b[j] { a[j] } else { b[j] }
                    } else {
                        src[j]
                    },
            decreases 8 - i,
        {
            out[i] = if (mask >> i as u8) % 2 == 1 {
                if a[i] <= b[i] { a[i] } else { b[i] }
            } else {
                src[i]
            };
            i += 1;
        }
        out
    }

    /// Per-lane unsigned min where `mask` bit is set, else zero (`vpminud`, 256-bit, zero-masked).
    pub fn min_u32x8_zero_masked(self, mask: u8, a: [u32; 8], b: [u32; 8]) -> (r: [u32; 8])
        ensures
            forall|i: int|
                0 <= i < 8 ==> r[i] == if (mask >> i as u8) % 2 == 1 {
                    if a[i] <= b[i] { a[i] } else { b[i] }
                } else {
                    0
                },
    {
        self.min_u32x8_merge_masked([0u32; 8], mask, a, b)
    }

    /// Per-lane unsigned max where `mask` bit is set, else copied from `src` (`vpmaxud`, 256-bit, merge-masked).
    pub fn max_u32x8_merge_masked(self, src: [u32; 8], mask: u8, a: [u32; 8], b: [u32; 8]) -> (r: [u32; 8])
        ensures
            forall|i: int|
                0 <= i < 8 ==> r[i] == if (mask >> i as u8) % 2 == 1 {
                    if a[i] >= b[i] { a[i] } else { b[i] }
                } else {
                    src[i]
                },
    {
        let mut out = [0u32; 8];
        let mut i: usize = 0;
        while i < 8
            invariant
                i <= 8,
                forall|j: int|
                    0 <= j < i ==> out[j] == if (mask >> j as u8) % 2 == 1 {
                        if a[j] >= b[j] { a[j] } else { b[j] }
                    } else {
                        src[j]
                    },
            decreases 8 - i,
        {
            out[i] = if (mask >> i as u8) % 2 == 1 {
                if a[i] >= b[i] { a[i] } else { b[i] }
            } else {
                src[i]
            };
            i += 1;
        }
        out
    }

    /// Per-lane unsigned max where `mask` bit is set, else zero (`vpmaxud`, 256-bit, zero-masked).
    pub fn max_u32x8_zero_masked(self, mask: u8, a: [u32; 8], b: [u32; 8]) -> (r: [u32; 8])
        ensures
            forall|i: int|
                0 <= i < 8 ==> r[i] == if (mask >> i as u8) % 2 == 1 {
                    if a[i] >= b[i] { a[i] } else { b[i] }
                } else {
                    0
                },
    {
        self.max_u32x8_merge_masked([0u32; 8], mask, a, b)
    }

    /// `a + b` per lane, wrapping, where `mask` bit is set, else copied from `src` (`vpaddq`, 128-bit, merge-masked).
    pub fn add_i64x2_merge_masked(self, src: [i64; 2], mask: u8, a: [i64; 2], b: [i64; 2]) -> (r: [i64; 2])
        ensures
            forall|i: int|
                0 <= i < 2 ==> r[i] == if (mask >> i as u8) % 2 == 1 {
                    a[i].wrapping_add(b[i])
                } else {
                    src[i]
                },
    {
        let mut out = [0i64; 2];
        let mut i: usize = 0;
        while i < 2
            invariant
                i <= 2,
                forall|j: int|
                    0 <= j < i ==> out[j] == if (mask >> j as u8) % 2 == 1 {
                        a[j].wrapping_add(b[j])
                    } else {
                        src[j]
                    },
            decreases 2 - i,
        {
            out[i] = if (mask >> i as u8) % 2 == 1 {
                a[i].wrapping_add(b[i])
            } else {
                src[i]
            };
            i += 1;
        }
        out
    }

    /// `a + b` per lane, wrapping, where `mask` bit is set, else zero (`vpaddq`, 128-bit, zero-masked).
    pub fn add_i64x2_zero_masked(self, mask: u8, a: [i64; 2], b: [i64; 2]) -> (r: [i64; 2])
        ensures
            forall|i: int|
                0 <= i < 2 ==> r[i] == if (mask >> i as u8) % 2 == 1 {
                    a[i].wrapping_add(b[i])
                } else {
                    0
                },
    {
        self.add_i64x2_merge_masked([0i64; 2], mask, a, b)
    }

    /// `a - b` per lane, wrapping, where `mask` bit is set, else copied from `src` (`vpsubq`, 128-bit, merge-masked).
    pub fn sub_i64x2_merge_masked(self, src: [i64; 2], mask: u8, a: [i64; 2], b: [i64; 2]) -> (r: [i64; 2])
        ensures
            forall|i: int|
                0 <= i < 2 ==> r[i] == if (mask >> i as u8) % 2 == 1 {
                    a[i].wrapping_sub(b[i])
                } else {
                    src[i]
                },
    {
        let mut out = [0i64; 2];
        let mut i: usize = 0;
        while i < 2
            invariant
                i <= 2,
                forall|j: int|
                    0 <= j < i ==> out[j] == if (mask >> j as u8) % 2 == 1 {
                        a[j].wrapping_sub(b[j])
                    } else {
                        src[j]
                    },
            decreases 2 - i,
        {
            out[i] = if (mask >> i as u8) % 2 == 1 {
                a[i].wrapping_sub(b[i])
            } else {
                src[i]
            };
            i += 1;
        }
        out
    }

    /// `a - b` per lane, wrapping, where `mask` bit is set, else zero (`vpsubq`, 128-bit, zero-masked).
    pub fn sub_i64x2_zero_masked(self, mask: u8, a: [i64; 2], b: [i64; 2]) -> (r: [i64; 2])
        ensures
            forall|i: int|
                0 <= i < 2 ==> r[i] == if (mask >> i as u8) % 2 == 1 {
                    a[i].wrapping_sub(b[i])
                } else {
                    0
                },
    {
        self.sub_i64x2_merge_masked([0i64; 2], mask, a, b)
    }

    /// Per-lane signed min where `mask` bit is set, else copied from `src` (`vpminsq`, 128-bit, merge-masked; no pre-AVX-512 form).
    pub fn min_i64x2_merge_masked(self, src: [i64; 2], mask: u8, a: [i64; 2], b: [i64; 2]) -> (r: [i64; 2])
        ensures
            forall|i: int|
                0 <= i < 2 ==> r[i] == if (mask >> i as u8) % 2 == 1 {
                    if a[i] <= b[i] { a[i] } else { b[i] }
                } else {
                    src[i]
                },
    {
        let mut out = [0i64; 2];
        let mut i: usize = 0;
        while i < 2
            invariant
                i <= 2,
                forall|j: int|
                    0 <= j < i ==> out[j] == if (mask >> j as u8) % 2 == 1 {
                        if a[j] <= b[j] { a[j] } else { b[j] }
                    } else {
                        src[j]
                    },
            decreases 2 - i,
        {
            out[i] = if (mask >> i as u8) % 2 == 1 {
                if a[i] <= b[i] { a[i] } else { b[i] }
            } else {
                src[i]
            };
            i += 1;
        }
        out
    }

    /// Per-lane signed min where `mask` bit is set, else zero (`vpminsq`, 128-bit, zero-masked).
    pub fn min_i64x2_zero_masked(self, mask: u8, a: [i64; 2], b: [i64; 2]) -> (r: [i64; 2])
        ensures
            forall|i: int|
                0 <= i < 2 ==> r[i] == if (mask >> i as u8) % 2 == 1 {
                    if a[i] <= b[i] { a[i] } else { b[i] }
                } else {
                    0
                },
    {
        self.min_i64x2_merge_masked([0i64; 2], mask, a, b)
    }

    /// Per-lane signed max where `mask` bit is set, else copied from `src` (`vpmaxsq`, 128-bit, merge-masked; no pre-AVX-512 form).
    pub fn max_i64x2_merge_masked(self, src: [i64; 2], mask: u8, a: [i64; 2], b: [i64; 2]) -> (r: [i64; 2])
        ensures
            forall|i: int|
                0 <= i < 2 ==> r[i] == if (mask >> i as u8) % 2 == 1 {
                    if a[i] >= b[i] { a[i] } else { b[i] }
                } else {
                    src[i]
                },
    {
        let mut out = [0i64; 2];
        let mut i: usize = 0;
        while i < 2
            invariant
                i <= 2,
                forall|j: int|
                    0 <= j < i ==> out[j] == if (mask >> j as u8) % 2 == 1 {
                        if a[j] >= b[j] { a[j] } else { b[j] }
                    } else {
                        src[j]
                    },
            decreases 2 - i,
        {
            out[i] = if (mask >> i as u8) % 2 == 1 {
                if a[i] >= b[i] { a[i] } else { b[i] }
            } else {
                src[i]
            };
            i += 1;
        }
        out
    }

    /// Per-lane signed max where `mask` bit is set, else zero (`vpmaxsq`, 128-bit, zero-masked).
    pub fn max_i64x2_zero_masked(self, mask: u8, a: [i64; 2], b: [i64; 2]) -> (r: [i64; 2])
        ensures
            forall|i: int|
                0 <= i < 2 ==> r[i] == if (mask >> i as u8) % 2 == 1 {
                    if a[i] >= b[i] { a[i] } else { b[i] }
                } else {
                    0
                },
    {
        self.max_i64x2_merge_masked([0i64; 2], mask, a, b)
    }

    /// `a + b` per lane, wrapping, where `mask` bit is set, else copied from `src` (`vpaddq`, 256-bit, merge-masked).
    pub fn add_i64x4_merge_masked(self, src: [i64; 4], mask: u8, a: [i64; 4], b: [i64; 4]) -> (r: [i64; 4])
        ensures
            forall|i: int|
                0 <= i < 4 ==> r[i] == if (mask >> i as u8) % 2 == 1 {
                    a[i].wrapping_add(b[i])
                } else {
                    src[i]
                },
    {
        let mut out = [0i64; 4];
        let mut i: usize = 0;
        while i < 4
            invariant
                i <= 4,
                forall|j: int|
                    0 <= j < i ==> out[j] == if (mask >> j as u8) % 2 == 1 {
                        a[j].wrapping_add(b[j])
                    } else {
                        src[j]
                    },
            decreases 4 - i,
        {
            out[i] = if (mask >> i as u8) % 2 == 1 {
                a[i].wrapping_add(b[i])
            } else {
                src[i]
            };
            i += 1;
        }
        out
    }

    /// `a + b` per lane, wrapping, where `mask` bit is set, else zero (`vpaddq`, 256-bit, zero-masked).
    pub fn add_i64x4_zero_masked(self, mask: u8, a: [i64; 4], b: [i64; 4]) -> (r: [i64; 4])
        ensures
            forall|i: int|
                0 <= i < 4 ==> r[i] == if (mask >> i as u8) % 2 == 1 {
                    a[i].wrapping_add(b[i])
                } else {
                    0
                },
    {
        self.add_i64x4_merge_masked([0i64; 4], mask, a, b)
    }

    /// `a - b` per lane, wrapping, where `mask` bit is set, else copied from `src` (`vpsubq`, 256-bit, merge-masked).
    pub fn sub_i64x4_merge_masked(self, src: [i64; 4], mask: u8, a: [i64; 4], b: [i64; 4]) -> (r: [i64; 4])
        ensures
            forall|i: int|
                0 <= i < 4 ==> r[i] == if (mask >> i as u8) % 2 == 1 {
                    a[i].wrapping_sub(b[i])
                } else {
                    src[i]
                },
    {
        let mut out = [0i64; 4];
        let mut i: usize = 0;
        while i < 4
            invariant
                i <= 4,
                forall|j: int|
                    0 <= j < i ==> out[j] == if (mask >> j as u8) % 2 == 1 {
                        a[j].wrapping_sub(b[j])
                    } else {
                        src[j]
                    },
            decreases 4 - i,
        {
            out[i] = if (mask >> i as u8) % 2 == 1 {
                a[i].wrapping_sub(b[i])
            } else {
                src[i]
            };
            i += 1;
        }
        out
    }

    /// `a - b` per lane, wrapping, where `mask` bit is set, else zero (`vpsubq`, 256-bit, zero-masked).
    pub fn sub_i64x4_zero_masked(self, mask: u8, a: [i64; 4], b: [i64; 4]) -> (r: [i64; 4])
        ensures
            forall|i: int|
                0 <= i < 4 ==> r[i] == if (mask >> i as u8) % 2 == 1 {
                    a[i].wrapping_sub(b[i])
                } else {
                    0
                },
    {
        self.sub_i64x4_merge_masked([0i64; 4], mask, a, b)
    }

    /// Per-lane signed min where `mask` bit is set, else copied from `src` (`vpminsq`, 256-bit, merge-masked; no pre-AVX-512 form).
    pub fn min_i64x4_merge_masked(self, src: [i64; 4], mask: u8, a: [i64; 4], b: [i64; 4]) -> (r: [i64; 4])
        ensures
            forall|i: int|
                0 <= i < 4 ==> r[i] == if (mask >> i as u8) % 2 == 1 {
                    if a[i] <= b[i] { a[i] } else { b[i] }
                } else {
                    src[i]
                },
    {
        let mut out = [0i64; 4];
        let mut i: usize = 0;
        while i < 4
            invariant
                i <= 4,
                forall|j: int|
                    0 <= j < i ==> out[j] == if (mask >> j as u8) % 2 == 1 {
                        if a[j] <= b[j] { a[j] } else { b[j] }
                    } else {
                        src[j]
                    },
            decreases 4 - i,
        {
            out[i] = if (mask >> i as u8) % 2 == 1 {
                if a[i] <= b[i] { a[i] } else { b[i] }
            } else {
                src[i]
            };
            i += 1;
        }
        out
    }

    /// Per-lane signed min where `mask` bit is set, else zero (`vpminsq`, 256-bit, zero-masked).
    pub fn min_i64x4_zero_masked(self, mask: u8, a: [i64; 4], b: [i64; 4]) -> (r: [i64; 4])
        ensures
            forall|i: int|
                0 <= i < 4 ==> r[i] == if (mask >> i as u8) % 2 == 1 {
                    if a[i] <= b[i] { a[i] } else { b[i] }
                } else {
                    0
                },
    {
        self.min_i64x4_merge_masked([0i64; 4], mask, a, b)
    }

    /// Per-lane signed max where `mask` bit is set, else copied from `src` (`vpmaxsq`, 256-bit, merge-masked; no pre-AVX-512 form).
    pub fn max_i64x4_merge_masked(self, src: [i64; 4], mask: u8, a: [i64; 4], b: [i64; 4]) -> (r: [i64; 4])
        ensures
            forall|i: int|
                0 <= i < 4 ==> r[i] == if (mask >> i as u8) % 2 == 1 {
                    if a[i] >= b[i] { a[i] } else { b[i] }
                } else {
                    src[i]
                },
    {
        let mut out = [0i64; 4];
        let mut i: usize = 0;
        while i < 4
            invariant
                i <= 4,
                forall|j: int|
                    0 <= j < i ==> out[j] == if (mask >> j as u8) % 2 == 1 {
                        if a[j] >= b[j] { a[j] } else { b[j] }
                    } else {
                        src[j]
                    },
            decreases 4 - i,
        {
            out[i] = if (mask >> i as u8) % 2 == 1 {
                if a[i] >= b[i] { a[i] } else { b[i] }
            } else {
                src[i]
            };
            i += 1;
        }
        out
    }

    /// Per-lane signed max where `mask` bit is set, else zero (`vpmaxsq`, 256-bit, zero-masked).
    pub fn max_i64x4_zero_masked(self, mask: u8, a: [i64; 4], b: [i64; 4]) -> (r: [i64; 4])
        ensures
            forall|i: int|
                0 <= i < 4 ==> r[i] == if (mask >> i as u8) % 2 == 1 {
                    if a[i] >= b[i] { a[i] } else { b[i] }
                } else {
                    0
                },
    {
        self.max_i64x4_merge_masked([0i64; 4], mask, a, b)
    }

    /// `a + b` per lane, wrapping, where `mask` bit is set, else copied from `src` (`vpaddq`, 128-bit, merge-masked; bit-identical to the signed form, no `epu64` add exists).
    pub fn add_u64x2_merge_masked(self, src: [u64; 2], mask: u8, a: [u64; 2], b: [u64; 2]) -> (r: [u64; 2])
        ensures
            forall|i: int|
                0 <= i < 2 ==> r[i] == if (mask >> i as u8) % 2 == 1 {
                    a[i].wrapping_add(b[i])
                } else {
                    src[i]
                },
    {
        let mut out = [0u64; 2];
        let mut i: usize = 0;
        while i < 2
            invariant
                i <= 2,
                forall|j: int|
                    0 <= j < i ==> out[j] == if (mask >> j as u8) % 2 == 1 {
                        a[j].wrapping_add(b[j])
                    } else {
                        src[j]
                    },
            decreases 2 - i,
        {
            out[i] = if (mask >> i as u8) % 2 == 1 {
                a[i].wrapping_add(b[i])
            } else {
                src[i]
            };
            i += 1;
        }
        out
    }

    /// `a + b` per lane, wrapping, where `mask` bit is set, else zero (`vpaddq`, 128-bit, zero-masked).
    pub fn add_u64x2_zero_masked(self, mask: u8, a: [u64; 2], b: [u64; 2]) -> (r: [u64; 2])
        ensures
            forall|i: int|
                0 <= i < 2 ==> r[i] == if (mask >> i as u8) % 2 == 1 {
                    a[i].wrapping_add(b[i])
                } else {
                    0
                },
    {
        self.add_u64x2_merge_masked([0u64; 2], mask, a, b)
    }

    /// `a - b` per lane, wrapping, where `mask` bit is set, else copied from `src` (`vpsubq`, 128-bit, merge-masked; bit-identical to the signed form, no `epu64` sub exists).
    pub fn sub_u64x2_merge_masked(self, src: [u64; 2], mask: u8, a: [u64; 2], b: [u64; 2]) -> (r: [u64; 2])
        ensures
            forall|i: int|
                0 <= i < 2 ==> r[i] == if (mask >> i as u8) % 2 == 1 {
                    a[i].wrapping_sub(b[i])
                } else {
                    src[i]
                },
    {
        let mut out = [0u64; 2];
        let mut i: usize = 0;
        while i < 2
            invariant
                i <= 2,
                forall|j: int|
                    0 <= j < i ==> out[j] == if (mask >> j as u8) % 2 == 1 {
                        a[j].wrapping_sub(b[j])
                    } else {
                        src[j]
                    },
            decreases 2 - i,
        {
            out[i] = if (mask >> i as u8) % 2 == 1 {
                a[i].wrapping_sub(b[i])
            } else {
                src[i]
            };
            i += 1;
        }
        out
    }

    /// `a - b` per lane, wrapping, where `mask` bit is set, else zero (`vpsubq`, 128-bit, zero-masked).
    pub fn sub_u64x2_zero_masked(self, mask: u8, a: [u64; 2], b: [u64; 2]) -> (r: [u64; 2])
        ensures
            forall|i: int|
                0 <= i < 2 ==> r[i] == if (mask >> i as u8) % 2 == 1 {
                    a[i].wrapping_sub(b[i])
                } else {
                    0
                },
    {
        self.sub_u64x2_merge_masked([0u64; 2], mask, a, b)
    }

    /// Per-lane unsigned min where `mask` bit is set, else copied from `src` (`vpminuq`, 128-bit, merge-masked; no pre-AVX-512 form).
    pub fn min_u64x2_merge_masked(self, src: [u64; 2], mask: u8, a: [u64; 2], b: [u64; 2]) -> (r: [u64; 2])
        ensures
            forall|i: int|
                0 <= i < 2 ==> r[i] == if (mask >> i as u8) % 2 == 1 {
                    if a[i] <= b[i] { a[i] } else { b[i] }
                } else {
                    src[i]
                },
    {
        let mut out = [0u64; 2];
        let mut i: usize = 0;
        while i < 2
            invariant
                i <= 2,
                forall|j: int|
                    0 <= j < i ==> out[j] == if (mask >> j as u8) % 2 == 1 {
                        if a[j] <= b[j] { a[j] } else { b[j] }
                    } else {
                        src[j]
                    },
            decreases 2 - i,
        {
            out[i] = if (mask >> i as u8) % 2 == 1 {
                if a[i] <= b[i] { a[i] } else { b[i] }
            } else {
                src[i]
            };
            i += 1;
        }
        out
    }

    /// Per-lane unsigned min where `mask` bit is set, else zero (`vpminuq`, 128-bit, zero-masked).
    pub fn min_u64x2_zero_masked(self, mask: u8, a: [u64; 2], b: [u64; 2]) -> (r: [u64; 2])
        ensures
            forall|i: int|
                0 <= i < 2 ==> r[i] == if (mask >> i as u8) % 2 == 1 {
                    if a[i] <= b[i] { a[i] } else { b[i] }
                } else {
                    0
                },
    {
        self.min_u64x2_merge_masked([0u64; 2], mask, a, b)
    }

    /// Per-lane unsigned max where `mask` bit is set, else copied from `src` (`vpmaxuq`, 128-bit, merge-masked; no pre-AVX-512 form).
    pub fn max_u64x2_merge_masked(self, src: [u64; 2], mask: u8, a: [u64; 2], b: [u64; 2]) -> (r: [u64; 2])
        ensures
            forall|i: int|
                0 <= i < 2 ==> r[i] == if (mask >> i as u8) % 2 == 1 {
                    if a[i] >= b[i] { a[i] } else { b[i] }
                } else {
                    src[i]
                },
    {
        let mut out = [0u64; 2];
        let mut i: usize = 0;
        while i < 2
            invariant
                i <= 2,
                forall|j: int|
                    0 <= j < i ==> out[j] == if (mask >> j as u8) % 2 == 1 {
                        if a[j] >= b[j] { a[j] } else { b[j] }
                    } else {
                        src[j]
                    },
            decreases 2 - i,
        {
            out[i] = if (mask >> i as u8) % 2 == 1 {
                if a[i] >= b[i] { a[i] } else { b[i] }
            } else {
                src[i]
            };
            i += 1;
        }
        out
    }

    /// Per-lane unsigned max where `mask` bit is set, else zero (`vpmaxuq`, 128-bit, zero-masked).
    pub fn max_u64x2_zero_masked(self, mask: u8, a: [u64; 2], b: [u64; 2]) -> (r: [u64; 2])
        ensures
            forall|i: int|
                0 <= i < 2 ==> r[i] == if (mask >> i as u8) % 2 == 1 {
                    if a[i] >= b[i] { a[i] } else { b[i] }
                } else {
                    0
                },
    {
        self.max_u64x2_merge_masked([0u64; 2], mask, a, b)
    }

    /// `a + b` per lane, wrapping, where `mask` bit is set, else copied from `src` (`vpaddq`, 256-bit, merge-masked; bit-identical to the signed form, no `epu64` add exists).
    pub fn add_u64x4_merge_masked(self, src: [u64; 4], mask: u8, a: [u64; 4], b: [u64; 4]) -> (r: [u64; 4])
        ensures
            forall|i: int|
                0 <= i < 4 ==> r[i] == if (mask >> i as u8) % 2 == 1 {
                    a[i].wrapping_add(b[i])
                } else {
                    src[i]
                },
    {
        let mut out = [0u64; 4];
        let mut i: usize = 0;
        while i < 4
            invariant
                i <= 4,
                forall|j: int|
                    0 <= j < i ==> out[j] == if (mask >> j as u8) % 2 == 1 {
                        a[j].wrapping_add(b[j])
                    } else {
                        src[j]
                    },
            decreases 4 - i,
        {
            out[i] = if (mask >> i as u8) % 2 == 1 {
                a[i].wrapping_add(b[i])
            } else {
                src[i]
            };
            i += 1;
        }
        out
    }

    /// `a + b` per lane, wrapping, where `mask` bit is set, else zero (`vpaddq`, 256-bit, zero-masked).
    pub fn add_u64x4_zero_masked(self, mask: u8, a: [u64; 4], b: [u64; 4]) -> (r: [u64; 4])
        ensures
            forall|i: int|
                0 <= i < 4 ==> r[i] == if (mask >> i as u8) % 2 == 1 {
                    a[i].wrapping_add(b[i])
                } else {
                    0
                },
    {
        self.add_u64x4_merge_masked([0u64; 4], mask, a, b)
    }

    /// `a - b` per lane, wrapping, where `mask` bit is set, else copied from `src` (`vpsubq`, 256-bit, merge-masked; bit-identical to the signed form, no `epu64` sub exists).
    pub fn sub_u64x4_merge_masked(self, src: [u64; 4], mask: u8, a: [u64; 4], b: [u64; 4]) -> (r: [u64; 4])
        ensures
            forall|i: int|
                0 <= i < 4 ==> r[i] == if (mask >> i as u8) % 2 == 1 {
                    a[i].wrapping_sub(b[i])
                } else {
                    src[i]
                },
    {
        let mut out = [0u64; 4];
        let mut i: usize = 0;
        while i < 4
            invariant
                i <= 4,
                forall|j: int|
                    0 <= j < i ==> out[j] == if (mask >> j as u8) % 2 == 1 {
                        a[j].wrapping_sub(b[j])
                    } else {
                        src[j]
                    },
            decreases 4 - i,
        {
            out[i] = if (mask >> i as u8) % 2 == 1 {
                a[i].wrapping_sub(b[i])
            } else {
                src[i]
            };
            i += 1;
        }
        out
    }

    /// `a - b` per lane, wrapping, where `mask` bit is set, else zero (`vpsubq`, 256-bit, zero-masked).
    pub fn sub_u64x4_zero_masked(self, mask: u8, a: [u64; 4], b: [u64; 4]) -> (r: [u64; 4])
        ensures
            forall|i: int|
                0 <= i < 4 ==> r[i] == if (mask >> i as u8) % 2 == 1 {
                    a[i].wrapping_sub(b[i])
                } else {
                    0
                },
    {
        self.sub_u64x4_merge_masked([0u64; 4], mask, a, b)
    }

    /// Per-lane unsigned min where `mask` bit is set, else copied from `src` (`vpminuq`, 256-bit, merge-masked; no pre-AVX-512 form).
    pub fn min_u64x4_merge_masked(self, src: [u64; 4], mask: u8, a: [u64; 4], b: [u64; 4]) -> (r: [u64; 4])
        ensures
            forall|i: int|
                0 <= i < 4 ==> r[i] == if (mask >> i as u8) % 2 == 1 {
                    if a[i] <= b[i] { a[i] } else { b[i] }
                } else {
                    src[i]
                },
    {
        let mut out = [0u64; 4];
        let mut i: usize = 0;
        while i < 4
            invariant
                i <= 4,
                forall|j: int|
                    0 <= j < i ==> out[j] == if (mask >> j as u8) % 2 == 1 {
                        if a[j] <= b[j] { a[j] } else { b[j] }
                    } else {
                        src[j]
                    },
            decreases 4 - i,
        {
            out[i] = if (mask >> i as u8) % 2 == 1 {
                if a[i] <= b[i] { a[i] } else { b[i] }
            } else {
                src[i]
            };
            i += 1;
        }
        out
    }

    /// Per-lane unsigned min where `mask` bit is set, else zero (`vpminuq`, 256-bit, zero-masked).
    pub fn min_u64x4_zero_masked(self, mask: u8, a: [u64; 4], b: [u64; 4]) -> (r: [u64; 4])
        ensures
            forall|i: int|
                0 <= i < 4 ==> r[i] == if (mask >> i as u8) % 2 == 1 {
                    if a[i] <= b[i] { a[i] } else { b[i] }
                } else {
                    0
                },
    {
        self.min_u64x4_merge_masked([0u64; 4], mask, a, b)
    }

    /// Per-lane unsigned max where `mask` bit is set, else copied from `src` (`vpmaxuq`, 256-bit, merge-masked; no pre-AVX-512 form).
    pub fn max_u64x4_merge_masked(self, src: [u64; 4], mask: u8, a: [u64; 4], b: [u64; 4]) -> (r: [u64; 4])
        ensures
            forall|i: int|
                0 <= i < 4 ==> r[i] == if (mask >> i as u8) % 2 == 1 {
                    if a[i] >= b[i] { a[i] } else { b[i] }
                } else {
                    src[i]
                },
    {
        let mut out = [0u64; 4];
        let mut i: usize = 0;
        while i < 4
            invariant
                i <= 4,
                forall|j: int|
                    0 <= j < i ==> out[j] == if (mask >> j as u8) % 2 == 1 {
                        if a[j] >= b[j] { a[j] } else { b[j] }
                    } else {
                        src[j]
                    },
            decreases 4 - i,
        {
            out[i] = if (mask >> i as u8) % 2 == 1 {
                if a[i] >= b[i] { a[i] } else { b[i] }
            } else {
                src[i]
            };
            i += 1;
        }
        out
    }

    /// Per-lane unsigned max where `mask` bit is set, else zero (`vpmaxuq`, 256-bit, zero-masked).
    pub fn max_u64x4_zero_masked(self, mask: u8, a: [u64; 4], b: [u64; 4]) -> (r: [u64; 4])
        ensures
            forall|i: int|
                0 <= i < 4 ==> r[i] == if (mask >> i as u8) % 2 == 1 {
                    if a[i] >= b[i] { a[i] } else { b[i] }
                } else {
                    0
                },
    {
        self.max_u64x4_merge_masked([0u64; 4], mask, a, b)
    }
}

impl Avx512BwVl {
    /// `a + b` per lane, wrapping, where `mask` bit is set, else copied from `src` (`vpaddb`, 128-bit, merge-masked).
    pub fn add_i8x16_merge_masked(self, src: [i8; 16], mask: u16, a: [i8; 16], b: [i8; 16]) -> (r: [i8; 16])
        ensures
            forall|i: int|
                0 <= i < 16 ==> r[i] == if (mask >> i as u16) % 2 == 1 {
                    a[i].wrapping_add(b[i])
                } else {
                    src[i]
                },
    {
        let mut out = [0i8; 16];
        let mut i: usize = 0;
        while i < 16
            invariant
                i <= 16,
                forall|j: int|
                    0 <= j < i ==> out[j] == if (mask >> j as u16) % 2 == 1 {
                        a[j].wrapping_add(b[j])
                    } else {
                        src[j]
                    },
            decreases 16 - i,
        {
            out[i] = if (mask >> i as u16) % 2 == 1 {
                a[i].wrapping_add(b[i])
            } else {
                src[i]
            };
            i += 1;
        }
        out
    }

    /// `a + b` per lane, wrapping, where `mask` bit is set, else zero (`vpaddb`, 128-bit, zero-masked).
    pub fn add_i8x16_zero_masked(self, mask: u16, a: [i8; 16], b: [i8; 16]) -> (r: [i8; 16])
        ensures
            forall|i: int|
                0 <= i < 16 ==> r[i] == if (mask >> i as u16) % 2 == 1 {
                    a[i].wrapping_add(b[i])
                } else {
                    0
                },
    {
        self.add_i8x16_merge_masked([0i8; 16], mask, a, b)
    }

    /// `a - b` per lane, wrapping, where `mask` bit is set, else copied from `src` (`vpsubb`, 128-bit, merge-masked).
    pub fn sub_i8x16_merge_masked(self, src: [i8; 16], mask: u16, a: [i8; 16], b: [i8; 16]) -> (r: [i8; 16])
        ensures
            forall|i: int|
                0 <= i < 16 ==> r[i] == if (mask >> i as u16) % 2 == 1 {
                    a[i].wrapping_sub(b[i])
                } else {
                    src[i]
                },
    {
        let mut out = [0i8; 16];
        let mut i: usize = 0;
        while i < 16
            invariant
                i <= 16,
                forall|j: int|
                    0 <= j < i ==> out[j] == if (mask >> j as u16) % 2 == 1 {
                        a[j].wrapping_sub(b[j])
                    } else {
                        src[j]
                    },
            decreases 16 - i,
        {
            out[i] = if (mask >> i as u16) % 2 == 1 {
                a[i].wrapping_sub(b[i])
            } else {
                src[i]
            };
            i += 1;
        }
        out
    }

    /// `a - b` per lane, wrapping, where `mask` bit is set, else zero (`vpsubb`, 128-bit, zero-masked).
    pub fn sub_i8x16_zero_masked(self, mask: u16, a: [i8; 16], b: [i8; 16]) -> (r: [i8; 16])
        ensures
            forall|i: int|
                0 <= i < 16 ==> r[i] == if (mask >> i as u16) % 2 == 1 {
                    a[i].wrapping_sub(b[i])
                } else {
                    0
                },
    {
        self.sub_i8x16_merge_masked([0i8; 16], mask, a, b)
    }

    /// `a + b` per lane, signed saturating, where `mask` bit is set, else copied from `src` (`vpaddsb`, 128-bit, merge-masked).
    pub fn adds_i8x16_merge_masked(self, src: [i8; 16], mask: u16, a: [i8; 16], b: [i8; 16]) -> (r: [i8; 16])
        ensures
            forall|i: int|
                0 <= i < 16 ==> r[i] == if (mask >> i as u16) % 2 == 1 {
                    sat_i8(a[i] + b[i])
                } else {
                    src[i]
                },
    {
        let mut out = [0i8; 16];
        let mut i: usize = 0;
        while i < 16
            invariant
                i <= 16,
                forall|j: int|
                    0 <= j < i ==> out[j] == if (mask >> j as u16) % 2 == 1 {
                        sat_i8(a[j] + b[j])
                    } else {
                        src[j]
                    },
            decreases 16 - i,
        {
            out[i] = if (mask >> i as u16) % 2 == 1 {
                adds_i8(a[i], b[i])
            } else {
                src[i]
            };
            i += 1;
        }
        out
    }

    /// `a + b` per lane, signed saturating, where `mask` bit is set, else zero (`vpaddsb`, 128-bit, zero-masked).
    pub fn adds_i8x16_zero_masked(self, mask: u16, a: [i8; 16], b: [i8; 16]) -> (r: [i8; 16])
        ensures
            forall|i: int|
                0 <= i < 16 ==> r[i] == if (mask >> i as u16) % 2 == 1 {
                    sat_i8(a[i] + b[i])
                } else {
                    0
                },
    {
        self.adds_i8x16_merge_masked([0i8; 16], mask, a, b)
    }

    /// `a - b` per lane, signed saturating, where `mask` bit is set, else copied from `src` (`vpsubsb`, 128-bit, merge-masked).
    pub fn subs_i8x16_merge_masked(self, src: [i8; 16], mask: u16, a: [i8; 16], b: [i8; 16]) -> (r: [i8; 16])
        ensures
            forall|i: int|
                0 <= i < 16 ==> r[i] == if (mask >> i as u16) % 2 == 1 {
                    sat_i8(a[i] - b[i])
                } else {
                    src[i]
                },
    {
        let mut out = [0i8; 16];
        let mut i: usize = 0;
        while i < 16
            invariant
                i <= 16,
                forall|j: int|
                    0 <= j < i ==> out[j] == if (mask >> j as u16) % 2 == 1 {
                        sat_i8(a[j] - b[j])
                    } else {
                        src[j]
                    },
            decreases 16 - i,
        {
            out[i] = if (mask >> i as u16) % 2 == 1 {
                subs_i8(a[i], b[i])
            } else {
                src[i]
            };
            i += 1;
        }
        out
    }

    /// `a - b` per lane, signed saturating, where `mask` bit is set, else zero (`vpsubsb`, 128-bit, zero-masked).
    pub fn subs_i8x16_zero_masked(self, mask: u16, a: [i8; 16], b: [i8; 16]) -> (r: [i8; 16])
        ensures
            forall|i: int|
                0 <= i < 16 ==> r[i] == if (mask >> i as u16) % 2 == 1 {
                    sat_i8(a[i] - b[i])
                } else {
                    0
                },
    {
        self.subs_i8x16_merge_masked([0i8; 16], mask, a, b)
    }

    /// Per-lane signed min where `mask` bit is set, else copied from `src` (`vpminsb`, 128-bit, merge-masked).
    pub fn min_i8x16_merge_masked(self, src: [i8; 16], mask: u16, a: [i8; 16], b: [i8; 16]) -> (r: [i8; 16])
        ensures
            forall|i: int|
                0 <= i < 16 ==> r[i] == if (mask >> i as u16) % 2 == 1 {
                    if a[i] <= b[i] { a[i] } else { b[i] }
                } else {
                    src[i]
                },
    {
        let mut out = [0i8; 16];
        let mut i: usize = 0;
        while i < 16
            invariant
                i <= 16,
                forall|j: int|
                    0 <= j < i ==> out[j] == if (mask >> j as u16) % 2 == 1 {
                        if a[j] <= b[j] { a[j] } else { b[j] }
                    } else {
                        src[j]
                    },
            decreases 16 - i,
        {
            out[i] = if (mask >> i as u16) % 2 == 1 {
                if a[i] <= b[i] { a[i] } else { b[i] }
            } else {
                src[i]
            };
            i += 1;
        }
        out
    }

    /// Per-lane signed min where `mask` bit is set, else zero (`vpminsb`, 128-bit, zero-masked).
    pub fn min_i8x16_zero_masked(self, mask: u16, a: [i8; 16], b: [i8; 16]) -> (r: [i8; 16])
        ensures
            forall|i: int|
                0 <= i < 16 ==> r[i] == if (mask >> i as u16) % 2 == 1 {
                    if a[i] <= b[i] { a[i] } else { b[i] }
                } else {
                    0
                },
    {
        self.min_i8x16_merge_masked([0i8; 16], mask, a, b)
    }

    /// Per-lane signed max where `mask` bit is set, else copied from `src` (`vpmaxsb`, 128-bit, merge-masked).
    pub fn max_i8x16_merge_masked(self, src: [i8; 16], mask: u16, a: [i8; 16], b: [i8; 16]) -> (r: [i8; 16])
        ensures
            forall|i: int|
                0 <= i < 16 ==> r[i] == if (mask >> i as u16) % 2 == 1 {
                    if a[i] >= b[i] { a[i] } else { b[i] }
                } else {
                    src[i]
                },
    {
        let mut out = [0i8; 16];
        let mut i: usize = 0;
        while i < 16
            invariant
                i <= 16,
                forall|j: int|
                    0 <= j < i ==> out[j] == if (mask >> j as u16) % 2 == 1 {
                        if a[j] >= b[j] { a[j] } else { b[j] }
                    } else {
                        src[j]
                    },
            decreases 16 - i,
        {
            out[i] = if (mask >> i as u16) % 2 == 1 {
                if a[i] >= b[i] { a[i] } else { b[i] }
            } else {
                src[i]
            };
            i += 1;
        }
        out
    }

    /// Per-lane signed max where `mask` bit is set, else zero (`vpmaxsb`, 128-bit, zero-masked).
    pub fn max_i8x16_zero_masked(self, mask: u16, a: [i8; 16], b: [i8; 16]) -> (r: [i8; 16])
        ensures
            forall|i: int|
                0 <= i < 16 ==> r[i] == if (mask >> i as u16) % 2 == 1 {
                    if a[i] >= b[i] { a[i] } else { b[i] }
                } else {
                    0
                },
    {
        self.max_i8x16_merge_masked([0i8; 16], mask, a, b)
    }

    /// `a + b` per lane, wrapping, where `mask` bit is set, else copied from `src` (`vpaddb`, 256-bit, merge-masked).
    pub fn add_i8x32_merge_masked(self, src: [i8; 32], mask: u32, a: [i8; 32], b: [i8; 32]) -> (r: [i8; 32])
        ensures
            forall|i: int|
                0 <= i < 32 ==> r[i] == if (mask >> i as u32) % 2 == 1 {
                    a[i].wrapping_add(b[i])
                } else {
                    src[i]
                },
    {
        let mut out = [0i8; 32];
        let mut i: usize = 0;
        while i < 32
            invariant
                i <= 32,
                forall|j: int|
                    0 <= j < i ==> out[j] == if (mask >> j as u32) % 2 == 1 {
                        a[j].wrapping_add(b[j])
                    } else {
                        src[j]
                    },
            decreases 32 - i,
        {
            out[i] = if (mask >> i as u32) % 2 == 1 {
                a[i].wrapping_add(b[i])
            } else {
                src[i]
            };
            i += 1;
        }
        out
    }

    /// `a + b` per lane, wrapping, where `mask` bit is set, else zero (`vpaddb`, 256-bit, zero-masked).
    pub fn add_i8x32_zero_masked(self, mask: u32, a: [i8; 32], b: [i8; 32]) -> (r: [i8; 32])
        ensures
            forall|i: int|
                0 <= i < 32 ==> r[i] == if (mask >> i as u32) % 2 == 1 {
                    a[i].wrapping_add(b[i])
                } else {
                    0
                },
    {
        self.add_i8x32_merge_masked([0i8; 32], mask, a, b)
    }

    /// `a - b` per lane, wrapping, where `mask` bit is set, else copied from `src` (`vpsubb`, 256-bit, merge-masked).
    pub fn sub_i8x32_merge_masked(self, src: [i8; 32], mask: u32, a: [i8; 32], b: [i8; 32]) -> (r: [i8; 32])
        ensures
            forall|i: int|
                0 <= i < 32 ==> r[i] == if (mask >> i as u32) % 2 == 1 {
                    a[i].wrapping_sub(b[i])
                } else {
                    src[i]
                },
    {
        let mut out = [0i8; 32];
        let mut i: usize = 0;
        while i < 32
            invariant
                i <= 32,
                forall|j: int|
                    0 <= j < i ==> out[j] == if (mask >> j as u32) % 2 == 1 {
                        a[j].wrapping_sub(b[j])
                    } else {
                        src[j]
                    },
            decreases 32 - i,
        {
            out[i] = if (mask >> i as u32) % 2 == 1 {
                a[i].wrapping_sub(b[i])
            } else {
                src[i]
            };
            i += 1;
        }
        out
    }

    /// `a - b` per lane, wrapping, where `mask` bit is set, else zero (`vpsubb`, 256-bit, zero-masked).
    pub fn sub_i8x32_zero_masked(self, mask: u32, a: [i8; 32], b: [i8; 32]) -> (r: [i8; 32])
        ensures
            forall|i: int|
                0 <= i < 32 ==> r[i] == if (mask >> i as u32) % 2 == 1 {
                    a[i].wrapping_sub(b[i])
                } else {
                    0
                },
    {
        self.sub_i8x32_merge_masked([0i8; 32], mask, a, b)
    }

    /// `a + b` per lane, signed saturating, where `mask` bit is set, else copied from `src` (`vpaddsb`, 256-bit, merge-masked).
    pub fn adds_i8x32_merge_masked(self, src: [i8; 32], mask: u32, a: [i8; 32], b: [i8; 32]) -> (r: [i8; 32])
        ensures
            forall|i: int|
                0 <= i < 32 ==> r[i] == if (mask >> i as u32) % 2 == 1 {
                    sat_i8(a[i] + b[i])
                } else {
                    src[i]
                },
    {
        let mut out = [0i8; 32];
        let mut i: usize = 0;
        while i < 32
            invariant
                i <= 32,
                forall|j: int|
                    0 <= j < i ==> out[j] == if (mask >> j as u32) % 2 == 1 {
                        sat_i8(a[j] + b[j])
                    } else {
                        src[j]
                    },
            decreases 32 - i,
        {
            out[i] = if (mask >> i as u32) % 2 == 1 {
                adds_i8(a[i], b[i])
            } else {
                src[i]
            };
            i += 1;
        }
        out
    }

    /// `a + b` per lane, signed saturating, where `mask` bit is set, else zero (`vpaddsb`, 256-bit, zero-masked).
    pub fn adds_i8x32_zero_masked(self, mask: u32, a: [i8; 32], b: [i8; 32]) -> (r: [i8; 32])
        ensures
            forall|i: int|
                0 <= i < 32 ==> r[i] == if (mask >> i as u32) % 2 == 1 {
                    sat_i8(a[i] + b[i])
                } else {
                    0
                },
    {
        self.adds_i8x32_merge_masked([0i8; 32], mask, a, b)
    }

    /// `a - b` per lane, signed saturating, where `mask` bit is set, else copied from `src` (`vpsubsb`, 256-bit, merge-masked).
    pub fn subs_i8x32_merge_masked(self, src: [i8; 32], mask: u32, a: [i8; 32], b: [i8; 32]) -> (r: [i8; 32])
        ensures
            forall|i: int|
                0 <= i < 32 ==> r[i] == if (mask >> i as u32) % 2 == 1 {
                    sat_i8(a[i] - b[i])
                } else {
                    src[i]
                },
    {
        let mut out = [0i8; 32];
        let mut i: usize = 0;
        while i < 32
            invariant
                i <= 32,
                forall|j: int|
                    0 <= j < i ==> out[j] == if (mask >> j as u32) % 2 == 1 {
                        sat_i8(a[j] - b[j])
                    } else {
                        src[j]
                    },
            decreases 32 - i,
        {
            out[i] = if (mask >> i as u32) % 2 == 1 {
                subs_i8(a[i], b[i])
            } else {
                src[i]
            };
            i += 1;
        }
        out
    }

    /// `a - b` per lane, signed saturating, where `mask` bit is set, else zero (`vpsubsb`, 256-bit, zero-masked).
    pub fn subs_i8x32_zero_masked(self, mask: u32, a: [i8; 32], b: [i8; 32]) -> (r: [i8; 32])
        ensures
            forall|i: int|
                0 <= i < 32 ==> r[i] == if (mask >> i as u32) % 2 == 1 {
                    sat_i8(a[i] - b[i])
                } else {
                    0
                },
    {
        self.subs_i8x32_merge_masked([0i8; 32], mask, a, b)
    }

    /// Per-lane signed min where `mask` bit is set, else copied from `src` (`vpminsb`, 256-bit, merge-masked).
    pub fn min_i8x32_merge_masked(self, src: [i8; 32], mask: u32, a: [i8; 32], b: [i8; 32]) -> (r: [i8; 32])
        ensures
            forall|i: int|
                0 <= i < 32 ==> r[i] == if (mask >> i as u32) % 2 == 1 {
                    if a[i] <= b[i] { a[i] } else { b[i] }
                } else {
                    src[i]
                },
    {
        let mut out = [0i8; 32];
        let mut i: usize = 0;
        while i < 32
            invariant
                i <= 32,
                forall|j: int|
                    0 <= j < i ==> out[j] == if (mask >> j as u32) % 2 == 1 {
                        if a[j] <= b[j] { a[j] } else { b[j] }
                    } else {
                        src[j]
                    },
            decreases 32 - i,
        {
            out[i] = if (mask >> i as u32) % 2 == 1 {
                if a[i] <= b[i] { a[i] } else { b[i] }
            } else {
                src[i]
            };
            i += 1;
        }
        out
    }

    /// Per-lane signed min where `mask` bit is set, else zero (`vpminsb`, 256-bit, zero-masked).
    pub fn min_i8x32_zero_masked(self, mask: u32, a: [i8; 32], b: [i8; 32]) -> (r: [i8; 32])
        ensures
            forall|i: int|
                0 <= i < 32 ==> r[i] == if (mask >> i as u32) % 2 == 1 {
                    if a[i] <= b[i] { a[i] } else { b[i] }
                } else {
                    0
                },
    {
        self.min_i8x32_merge_masked([0i8; 32], mask, a, b)
    }

    /// Per-lane signed max where `mask` bit is set, else copied from `src` (`vpmaxsb`, 256-bit, merge-masked).
    pub fn max_i8x32_merge_masked(self, src: [i8; 32], mask: u32, a: [i8; 32], b: [i8; 32]) -> (r: [i8; 32])
        ensures
            forall|i: int|
                0 <= i < 32 ==> r[i] == if (mask >> i as u32) % 2 == 1 {
                    if a[i] >= b[i] { a[i] } else { b[i] }
                } else {
                    src[i]
                },
    {
        let mut out = [0i8; 32];
        let mut i: usize = 0;
        while i < 32
            invariant
                i <= 32,
                forall|j: int|
                    0 <= j < i ==> out[j] == if (mask >> j as u32) % 2 == 1 {
                        if a[j] >= b[j] { a[j] } else { b[j] }
                    } else {
                        src[j]
                    },
            decreases 32 - i,
        {
            out[i] = if (mask >> i as u32) % 2 == 1 {
                if a[i] >= b[i] { a[i] } else { b[i] }
            } else {
                src[i]
            };
            i += 1;
        }
        out
    }

    /// Per-lane signed max where `mask` bit is set, else zero (`vpmaxsb`, 256-bit, zero-masked).
    pub fn max_i8x32_zero_masked(self, mask: u32, a: [i8; 32], b: [i8; 32]) -> (r: [i8; 32])
        ensures
            forall|i: int|
                0 <= i < 32 ==> r[i] == if (mask >> i as u32) % 2 == 1 {
                    if a[i] >= b[i] { a[i] } else { b[i] }
                } else {
                    0
                },
    {
        self.max_i8x32_merge_masked([0i8; 32], mask, a, b)
    }

    /// `a + b` per lane, wrapping, where `mask` bit is set, else copied from `src` (`vpaddb`, 128-bit, merge-masked; bit-identical to the signed form, no `epu8` add exists).
    pub fn add_u8x16_merge_masked(self, src: [u8; 16], mask: u16, a: [u8; 16], b: [u8; 16]) -> (r: [u8; 16])
        ensures
            forall|i: int|
                0 <= i < 16 ==> r[i] == if (mask >> i as u16) % 2 == 1 {
                    a[i].wrapping_add(b[i])
                } else {
                    src[i]
                },
    {
        let mut out = [0u8; 16];
        let mut i: usize = 0;
        while i < 16
            invariant
                i <= 16,
                forall|j: int|
                    0 <= j < i ==> out[j] == if (mask >> j as u16) % 2 == 1 {
                        a[j].wrapping_add(b[j])
                    } else {
                        src[j]
                    },
            decreases 16 - i,
        {
            out[i] = if (mask >> i as u16) % 2 == 1 {
                a[i].wrapping_add(b[i])
            } else {
                src[i]
            };
            i += 1;
        }
        out
    }

    /// `a + b` per lane, wrapping, where `mask` bit is set, else zero (`vpaddb`, 128-bit, zero-masked).
    pub fn add_u8x16_zero_masked(self, mask: u16, a: [u8; 16], b: [u8; 16]) -> (r: [u8; 16])
        ensures
            forall|i: int|
                0 <= i < 16 ==> r[i] == if (mask >> i as u16) % 2 == 1 {
                    a[i].wrapping_add(b[i])
                } else {
                    0
                },
    {
        self.add_u8x16_merge_masked([0u8; 16], mask, a, b)
    }

    /// `a - b` per lane, wrapping, where `mask` bit is set, else copied from `src` (`vpsubb`, 128-bit, merge-masked; bit-identical to the signed form, no `epu8` sub exists).
    pub fn sub_u8x16_merge_masked(self, src: [u8; 16], mask: u16, a: [u8; 16], b: [u8; 16]) -> (r: [u8; 16])
        ensures
            forall|i: int|
                0 <= i < 16 ==> r[i] == if (mask >> i as u16) % 2 == 1 {
                    a[i].wrapping_sub(b[i])
                } else {
                    src[i]
                },
    {
        let mut out = [0u8; 16];
        let mut i: usize = 0;
        while i < 16
            invariant
                i <= 16,
                forall|j: int|
                    0 <= j < i ==> out[j] == if (mask >> j as u16) % 2 == 1 {
                        a[j].wrapping_sub(b[j])
                    } else {
                        src[j]
                    },
            decreases 16 - i,
        {
            out[i] = if (mask >> i as u16) % 2 == 1 {
                a[i].wrapping_sub(b[i])
            } else {
                src[i]
            };
            i += 1;
        }
        out
    }

    /// `a - b` per lane, wrapping, where `mask` bit is set, else zero (`vpsubb`, 128-bit, zero-masked).
    pub fn sub_u8x16_zero_masked(self, mask: u16, a: [u8; 16], b: [u8; 16]) -> (r: [u8; 16])
        ensures
            forall|i: int|
                0 <= i < 16 ==> r[i] == if (mask >> i as u16) % 2 == 1 {
                    a[i].wrapping_sub(b[i])
                } else {
                    0
                },
    {
        self.sub_u8x16_merge_masked([0u8; 16], mask, a, b)
    }

    /// `a + b` per lane, unsigned saturating, where `mask` bit is set, else copied from `src` (`vpaddusb`, 128-bit, merge-masked).
    pub fn adds_u8x16_merge_masked(self, src: [u8; 16], mask: u16, a: [u8; 16], b: [u8; 16]) -> (r: [u8; 16])
        ensures
            forall|i: int|
                0 <= i < 16 ==> r[i] == if (mask >> i as u16) % 2 == 1 {
                    a[i].saturating_add(b[i])
                } else {
                    src[i]
                },
    {
        let mut out = [0u8; 16];
        let mut i: usize = 0;
        while i < 16
            invariant
                i <= 16,
                forall|j: int|
                    0 <= j < i ==> out[j] == if (mask >> j as u16) % 2 == 1 {
                        a[j].saturating_add(b[j])
                    } else {
                        src[j]
                    },
            decreases 16 - i,
        {
            out[i] = if (mask >> i as u16) % 2 == 1 {
                a[i].saturating_add(b[i])
            } else {
                src[i]
            };
            i += 1;
        }
        out
    }

    /// `a + b` per lane, unsigned saturating, where `mask` bit is set, else zero (`vpaddusb`, 128-bit, zero-masked).
    pub fn adds_u8x16_zero_masked(self, mask: u16, a: [u8; 16], b: [u8; 16]) -> (r: [u8; 16])
        ensures
            forall|i: int|
                0 <= i < 16 ==> r[i] == if (mask >> i as u16) % 2 == 1 {
                    a[i].saturating_add(b[i])
                } else {
                    0
                },
    {
        self.adds_u8x16_merge_masked([0u8; 16], mask, a, b)
    }

    /// `a - b` per lane, unsigned saturating, where `mask` bit is set, else copied from `src` (`vpsubusb`, 128-bit, merge-masked).
    pub fn subs_u8x16_merge_masked(self, src: [u8; 16], mask: u16, a: [u8; 16], b: [u8; 16]) -> (r: [u8; 16])
        ensures
            forall|i: int|
                0 <= i < 16 ==> r[i] == if (mask >> i as u16) % 2 == 1 {
                    a[i].saturating_sub(b[i])
                } else {
                    src[i]
                },
    {
        let mut out = [0u8; 16];
        let mut i: usize = 0;
        while i < 16
            invariant
                i <= 16,
                forall|j: int|
                    0 <= j < i ==> out[j] == if (mask >> j as u16) % 2 == 1 {
                        a[j].saturating_sub(b[j])
                    } else {
                        src[j]
                    },
            decreases 16 - i,
        {
            out[i] = if (mask >> i as u16) % 2 == 1 {
                a[i].saturating_sub(b[i])
            } else {
                src[i]
            };
            i += 1;
        }
        out
    }

    /// `a - b` per lane, unsigned saturating, where `mask` bit is set, else zero (`vpsubusb`, 128-bit, zero-masked).
    pub fn subs_u8x16_zero_masked(self, mask: u16, a: [u8; 16], b: [u8; 16]) -> (r: [u8; 16])
        ensures
            forall|i: int|
                0 <= i < 16 ==> r[i] == if (mask >> i as u16) % 2 == 1 {
                    a[i].saturating_sub(b[i])
                } else {
                    0
                },
    {
        self.subs_u8x16_merge_masked([0u8; 16], mask, a, b)
    }

    /// Per-lane unsigned min where `mask` bit is set, else copied from `src` (`vpminub`, 128-bit, merge-masked).
    pub fn min_u8x16_merge_masked(self, src: [u8; 16], mask: u16, a: [u8; 16], b: [u8; 16]) -> (r: [u8; 16])
        ensures
            forall|i: int|
                0 <= i < 16 ==> r[i] == if (mask >> i as u16) % 2 == 1 {
                    if a[i] <= b[i] { a[i] } else { b[i] }
                } else {
                    src[i]
                },
    {
        let mut out = [0u8; 16];
        let mut i: usize = 0;
        while i < 16
            invariant
                i <= 16,
                forall|j: int|
                    0 <= j < i ==> out[j] == if (mask >> j as u16) % 2 == 1 {
                        if a[j] <= b[j] { a[j] } else { b[j] }
                    } else {
                        src[j]
                    },
            decreases 16 - i,
        {
            out[i] = if (mask >> i as u16) % 2 == 1 {
                if a[i] <= b[i] { a[i] } else { b[i] }
            } else {
                src[i]
            };
            i += 1;
        }
        out
    }

    /// Per-lane unsigned min where `mask` bit is set, else zero (`vpminub`, 128-bit, zero-masked).
    pub fn min_u8x16_zero_masked(self, mask: u16, a: [u8; 16], b: [u8; 16]) -> (r: [u8; 16])
        ensures
            forall|i: int|
                0 <= i < 16 ==> r[i] == if (mask >> i as u16) % 2 == 1 {
                    if a[i] <= b[i] { a[i] } else { b[i] }
                } else {
                    0
                },
    {
        self.min_u8x16_merge_masked([0u8; 16], mask, a, b)
    }

    /// Per-lane unsigned max where `mask` bit is set, else copied from `src` (`vpmaxub`, 128-bit, merge-masked).
    pub fn max_u8x16_merge_masked(self, src: [u8; 16], mask: u16, a: [u8; 16], b: [u8; 16]) -> (r: [u8; 16])
        ensures
            forall|i: int|
                0 <= i < 16 ==> r[i] == if (mask >> i as u16) % 2 == 1 {
                    if a[i] >= b[i] { a[i] } else { b[i] }
                } else {
                    src[i]
                },
    {
        let mut out = [0u8; 16];
        let mut i: usize = 0;
        while i < 16
            invariant
                i <= 16,
                forall|j: int|
                    0 <= j < i ==> out[j] == if (mask >> j as u16) % 2 == 1 {
                        if a[j] >= b[j] { a[j] } else { b[j] }
                    } else {
                        src[j]
                    },
            decreases 16 - i,
        {
            out[i] = if (mask >> i as u16) % 2 == 1 {
                if a[i] >= b[i] { a[i] } else { b[i] }
            } else {
                src[i]
            };
            i += 1;
        }
        out
    }

    /// Per-lane unsigned max where `mask` bit is set, else zero (`vpmaxub`, 128-bit, zero-masked).
    pub fn max_u8x16_zero_masked(self, mask: u16, a: [u8; 16], b: [u8; 16]) -> (r: [u8; 16])
        ensures
            forall|i: int|
                0 <= i < 16 ==> r[i] == if (mask >> i as u16) % 2 == 1 {
                    if a[i] >= b[i] { a[i] } else { b[i] }
                } else {
                    0
                },
    {
        self.max_u8x16_merge_masked([0u8; 16], mask, a, b)
    }

    /// Per-lane rounded unsigned average, `(a+b+1)/2`, where `mask` bit is set, else copied from `src` (`vpavgb`, 128-bit, merge-masked).
    pub fn avg_u8x16_merge_masked(self, src: [u8; 16], mask: u16, a: [u8; 16], b: [u8; 16]) -> (r: [u8; 16])
        ensures
            forall|i: int|
                0 <= i < 16 ==> r[i] == if (mask >> i as u16) % 2 == 1 {
                    ((a[i] + b[i] + 1) / 2) as u8
                } else {
                    src[i]
                },
    {
        let mut out = [0u8; 16];
        let mut i: usize = 0;
        while i < 16
            invariant
                i <= 16,
                forall|j: int|
                    0 <= j < i ==> out[j] == if (mask >> j as u16) % 2 == 1 {
                        ((a[j] + b[j] + 1) / 2) as u8
                    } else {
                        src[j]
                    },
            decreases 16 - i,
        {
            out[i] = if (mask >> i as u16) % 2 == 1 {
                ((a[i] as u16 + b[i] as u16 + 1) / 2) as u8
            } else {
                src[i]
            };
            i += 1;
        }
        out
    }

    /// Per-lane rounded unsigned average, `(a+b+1)/2`, where `mask` bit is set, else zero (`vpavgb`, 128-bit, zero-masked).
    pub fn avg_u8x16_zero_masked(self, mask: u16, a: [u8; 16], b: [u8; 16]) -> (r: [u8; 16])
        ensures
            forall|i: int|
                0 <= i < 16 ==> r[i] == if (mask >> i as u16) % 2 == 1 {
                    ((a[i] + b[i] + 1) / 2) as u8
                } else {
                    0
                },
    {
        self.avg_u8x16_merge_masked([0u8; 16], mask, a, b)
    }

    /// `a + b` per lane, wrapping, where `mask` bit is set, else copied from `src` (`vpaddb`, 256-bit, merge-masked; bit-identical to the signed form, no `epu8` add exists).
    pub fn add_u8x32_merge_masked(self, src: [u8; 32], mask: u32, a: [u8; 32], b: [u8; 32]) -> (r: [u8; 32])
        ensures
            forall|i: int|
                0 <= i < 32 ==> r[i] == if (mask >> i as u32) % 2 == 1 {
                    a[i].wrapping_add(b[i])
                } else {
                    src[i]
                },
    {
        let mut out = [0u8; 32];
        let mut i: usize = 0;
        while i < 32
            invariant
                i <= 32,
                forall|j: int|
                    0 <= j < i ==> out[j] == if (mask >> j as u32) % 2 == 1 {
                        a[j].wrapping_add(b[j])
                    } else {
                        src[j]
                    },
            decreases 32 - i,
        {
            out[i] = if (mask >> i as u32) % 2 == 1 {
                a[i].wrapping_add(b[i])
            } else {
                src[i]
            };
            i += 1;
        }
        out
    }

    /// `a + b` per lane, wrapping, where `mask` bit is set, else zero (`vpaddb`, 256-bit, zero-masked).
    pub fn add_u8x32_zero_masked(self, mask: u32, a: [u8; 32], b: [u8; 32]) -> (r: [u8; 32])
        ensures
            forall|i: int|
                0 <= i < 32 ==> r[i] == if (mask >> i as u32) % 2 == 1 {
                    a[i].wrapping_add(b[i])
                } else {
                    0
                },
    {
        self.add_u8x32_merge_masked([0u8; 32], mask, a, b)
    }

    /// `a - b` per lane, wrapping, where `mask` bit is set, else copied from `src` (`vpsubb`, 256-bit, merge-masked; bit-identical to the signed form, no `epu8` sub exists).
    pub fn sub_u8x32_merge_masked(self, src: [u8; 32], mask: u32, a: [u8; 32], b: [u8; 32]) -> (r: [u8; 32])
        ensures
            forall|i: int|
                0 <= i < 32 ==> r[i] == if (mask >> i as u32) % 2 == 1 {
                    a[i].wrapping_sub(b[i])
                } else {
                    src[i]
                },
    {
        let mut out = [0u8; 32];
        let mut i: usize = 0;
        while i < 32
            invariant
                i <= 32,
                forall|j: int|
                    0 <= j < i ==> out[j] == if (mask >> j as u32) % 2 == 1 {
                        a[j].wrapping_sub(b[j])
                    } else {
                        src[j]
                    },
            decreases 32 - i,
        {
            out[i] = if (mask >> i as u32) % 2 == 1 {
                a[i].wrapping_sub(b[i])
            } else {
                src[i]
            };
            i += 1;
        }
        out
    }

    /// `a - b` per lane, wrapping, where `mask` bit is set, else zero (`vpsubb`, 256-bit, zero-masked).
    pub fn sub_u8x32_zero_masked(self, mask: u32, a: [u8; 32], b: [u8; 32]) -> (r: [u8; 32])
        ensures
            forall|i: int|
                0 <= i < 32 ==> r[i] == if (mask >> i as u32) % 2 == 1 {
                    a[i].wrapping_sub(b[i])
                } else {
                    0
                },
    {
        self.sub_u8x32_merge_masked([0u8; 32], mask, a, b)
    }

    /// `a + b` per lane, unsigned saturating, where `mask` bit is set, else copied from `src` (`vpaddusb`, 256-bit, merge-masked).
    pub fn adds_u8x32_merge_masked(self, src: [u8; 32], mask: u32, a: [u8; 32], b: [u8; 32]) -> (r: [u8; 32])
        ensures
            forall|i: int|
                0 <= i < 32 ==> r[i] == if (mask >> i as u32) % 2 == 1 {
                    a[i].saturating_add(b[i])
                } else {
                    src[i]
                },
    {
        let mut out = [0u8; 32];
        let mut i: usize = 0;
        while i < 32
            invariant
                i <= 32,
                forall|j: int|
                    0 <= j < i ==> out[j] == if (mask >> j as u32) % 2 == 1 {
                        a[j].saturating_add(b[j])
                    } else {
                        src[j]
                    },
            decreases 32 - i,
        {
            out[i] = if (mask >> i as u32) % 2 == 1 {
                a[i].saturating_add(b[i])
            } else {
                src[i]
            };
            i += 1;
        }
        out
    }

    /// `a + b` per lane, unsigned saturating, where `mask` bit is set, else zero (`vpaddusb`, 256-bit, zero-masked).
    pub fn adds_u8x32_zero_masked(self, mask: u32, a: [u8; 32], b: [u8; 32]) -> (r: [u8; 32])
        ensures
            forall|i: int|
                0 <= i < 32 ==> r[i] == if (mask >> i as u32) % 2 == 1 {
                    a[i].saturating_add(b[i])
                } else {
                    0
                },
    {
        self.adds_u8x32_merge_masked([0u8; 32], mask, a, b)
    }

    /// `a - b` per lane, unsigned saturating, where `mask` bit is set, else copied from `src` (`vpsubusb`, 256-bit, merge-masked).
    pub fn subs_u8x32_merge_masked(self, src: [u8; 32], mask: u32, a: [u8; 32], b: [u8; 32]) -> (r: [u8; 32])
        ensures
            forall|i: int|
                0 <= i < 32 ==> r[i] == if (mask >> i as u32) % 2 == 1 {
                    a[i].saturating_sub(b[i])
                } else {
                    src[i]
                },
    {
        let mut out = [0u8; 32];
        let mut i: usize = 0;
        while i < 32
            invariant
                i <= 32,
                forall|j: int|
                    0 <= j < i ==> out[j] == if (mask >> j as u32) % 2 == 1 {
                        a[j].saturating_sub(b[j])
                    } else {
                        src[j]
                    },
            decreases 32 - i,
        {
            out[i] = if (mask >> i as u32) % 2 == 1 {
                a[i].saturating_sub(b[i])
            } else {
                src[i]
            };
            i += 1;
        }
        out
    }

    /// `a - b` per lane, unsigned saturating, where `mask` bit is set, else zero (`vpsubusb`, 256-bit, zero-masked).
    pub fn subs_u8x32_zero_masked(self, mask: u32, a: [u8; 32], b: [u8; 32]) -> (r: [u8; 32])
        ensures
            forall|i: int|
                0 <= i < 32 ==> r[i] == if (mask >> i as u32) % 2 == 1 {
                    a[i].saturating_sub(b[i])
                } else {
                    0
                },
    {
        self.subs_u8x32_merge_masked([0u8; 32], mask, a, b)
    }

    /// Per-lane unsigned min where `mask` bit is set, else copied from `src` (`vpminub`, 256-bit, merge-masked).
    pub fn min_u8x32_merge_masked(self, src: [u8; 32], mask: u32, a: [u8; 32], b: [u8; 32]) -> (r: [u8; 32])
        ensures
            forall|i: int|
                0 <= i < 32 ==> r[i] == if (mask >> i as u32) % 2 == 1 {
                    if a[i] <= b[i] { a[i] } else { b[i] }
                } else {
                    src[i]
                },
    {
        let mut out = [0u8; 32];
        let mut i: usize = 0;
        while i < 32
            invariant
                i <= 32,
                forall|j: int|
                    0 <= j < i ==> out[j] == if (mask >> j as u32) % 2 == 1 {
                        if a[j] <= b[j] { a[j] } else { b[j] }
                    } else {
                        src[j]
                    },
            decreases 32 - i,
        {
            out[i] = if (mask >> i as u32) % 2 == 1 {
                if a[i] <= b[i] { a[i] } else { b[i] }
            } else {
                src[i]
            };
            i += 1;
        }
        out
    }

    /// Per-lane unsigned min where `mask` bit is set, else zero (`vpminub`, 256-bit, zero-masked).
    pub fn min_u8x32_zero_masked(self, mask: u32, a: [u8; 32], b: [u8; 32]) -> (r: [u8; 32])
        ensures
            forall|i: int|
                0 <= i < 32 ==> r[i] == if (mask >> i as u32) % 2 == 1 {
                    if a[i] <= b[i] { a[i] } else { b[i] }
                } else {
                    0
                },
    {
        self.min_u8x32_merge_masked([0u8; 32], mask, a, b)
    }

    /// Per-lane unsigned max where `mask` bit is set, else copied from `src` (`vpmaxub`, 256-bit, merge-masked).
    pub fn max_u8x32_merge_masked(self, src: [u8; 32], mask: u32, a: [u8; 32], b: [u8; 32]) -> (r: [u8; 32])
        ensures
            forall|i: int|
                0 <= i < 32 ==> r[i] == if (mask >> i as u32) % 2 == 1 {
                    if a[i] >= b[i] { a[i] } else { b[i] }
                } else {
                    src[i]
                },
    {
        let mut out = [0u8; 32];
        let mut i: usize = 0;
        while i < 32
            invariant
                i <= 32,
                forall|j: int|
                    0 <= j < i ==> out[j] == if (mask >> j as u32) % 2 == 1 {
                        if a[j] >= b[j] { a[j] } else { b[j] }
                    } else {
                        src[j]
                    },
            decreases 32 - i,
        {
            out[i] = if (mask >> i as u32) % 2 == 1 {
                if a[i] >= b[i] { a[i] } else { b[i] }
            } else {
                src[i]
            };
            i += 1;
        }
        out
    }

    /// Per-lane unsigned max where `mask` bit is set, else zero (`vpmaxub`, 256-bit, zero-masked).
    pub fn max_u8x32_zero_masked(self, mask: u32, a: [u8; 32], b: [u8; 32]) -> (r: [u8; 32])
        ensures
            forall|i: int|
                0 <= i < 32 ==> r[i] == if (mask >> i as u32) % 2 == 1 {
                    if a[i] >= b[i] { a[i] } else { b[i] }
                } else {
                    0
                },
    {
        self.max_u8x32_merge_masked([0u8; 32], mask, a, b)
    }

    /// Per-lane rounded unsigned average, `(a+b+1)/2`, where `mask` bit is set, else copied from `src` (`vpavgb`, 256-bit, merge-masked).
    pub fn avg_u8x32_merge_masked(self, src: [u8; 32], mask: u32, a: [u8; 32], b: [u8; 32]) -> (r: [u8; 32])
        ensures
            forall|i: int|
                0 <= i < 32 ==> r[i] == if (mask >> i as u32) % 2 == 1 {
                    ((a[i] + b[i] + 1) / 2) as u8
                } else {
                    src[i]
                },
    {
        let mut out = [0u8; 32];
        let mut i: usize = 0;
        while i < 32
            invariant
                i <= 32,
                forall|j: int|
                    0 <= j < i ==> out[j] == if (mask >> j as u32) % 2 == 1 {
                        ((a[j] + b[j] + 1) / 2) as u8
                    } else {
                        src[j]
                    },
            decreases 32 - i,
        {
            out[i] = if (mask >> i as u32) % 2 == 1 {
                ((a[i] as u16 + b[i] as u16 + 1) / 2) as u8
            } else {
                src[i]
            };
            i += 1;
        }
        out
    }

    /// Per-lane rounded unsigned average, `(a+b+1)/2`, where `mask` bit is set, else zero (`vpavgb`, 256-bit, zero-masked).
    pub fn avg_u8x32_zero_masked(self, mask: u32, a: [u8; 32], b: [u8; 32]) -> (r: [u8; 32])
        ensures
            forall|i: int|
                0 <= i < 32 ==> r[i] == if (mask >> i as u32) % 2 == 1 {
                    ((a[i] + b[i] + 1) / 2) as u8
                } else {
                    0
                },
    {
        self.avg_u8x32_merge_masked([0u8; 32], mask, a, b)
    }

    /// `a + b` per lane, wrapping, where `mask` bit is set, else copied from `src` (`vpaddw`, 128-bit, merge-masked).
    pub fn add_i16x8_merge_masked(self, src: [i16; 8], mask: u8, a: [i16; 8], b: [i16; 8]) -> (r: [i16; 8])
        ensures
            forall|i: int|
                0 <= i < 8 ==> r[i] == if (mask >> i as u8) % 2 == 1 {
                    a[i].wrapping_add(b[i])
                } else {
                    src[i]
                },
    {
        let mut out = [0i16; 8];
        let mut i: usize = 0;
        while i < 8
            invariant
                i <= 8,
                forall|j: int|
                    0 <= j < i ==> out[j] == if (mask >> j as u8) % 2 == 1 {
                        a[j].wrapping_add(b[j])
                    } else {
                        src[j]
                    },
            decreases 8 - i,
        {
            out[i] = if (mask >> i as u8) % 2 == 1 {
                a[i].wrapping_add(b[i])
            } else {
                src[i]
            };
            i += 1;
        }
        out
    }

    /// `a + b` per lane, wrapping, where `mask` bit is set, else zero (`vpaddw`, 128-bit, zero-masked).
    pub fn add_i16x8_zero_masked(self, mask: u8, a: [i16; 8], b: [i16; 8]) -> (r: [i16; 8])
        ensures
            forall|i: int|
                0 <= i < 8 ==> r[i] == if (mask >> i as u8) % 2 == 1 {
                    a[i].wrapping_add(b[i])
                } else {
                    0
                },
    {
        self.add_i16x8_merge_masked([0i16; 8], mask, a, b)
    }

    /// `a - b` per lane, wrapping, where `mask` bit is set, else copied from `src` (`vpsubw`, 128-bit, merge-masked).
    pub fn sub_i16x8_merge_masked(self, src: [i16; 8], mask: u8, a: [i16; 8], b: [i16; 8]) -> (r: [i16; 8])
        ensures
            forall|i: int|
                0 <= i < 8 ==> r[i] == if (mask >> i as u8) % 2 == 1 {
                    a[i].wrapping_sub(b[i])
                } else {
                    src[i]
                },
    {
        let mut out = [0i16; 8];
        let mut i: usize = 0;
        while i < 8
            invariant
                i <= 8,
                forall|j: int|
                    0 <= j < i ==> out[j] == if (mask >> j as u8) % 2 == 1 {
                        a[j].wrapping_sub(b[j])
                    } else {
                        src[j]
                    },
            decreases 8 - i,
        {
            out[i] = if (mask >> i as u8) % 2 == 1 {
                a[i].wrapping_sub(b[i])
            } else {
                src[i]
            };
            i += 1;
        }
        out
    }

    /// `a - b` per lane, wrapping, where `mask` bit is set, else zero (`vpsubw`, 128-bit, zero-masked).
    pub fn sub_i16x8_zero_masked(self, mask: u8, a: [i16; 8], b: [i16; 8]) -> (r: [i16; 8])
        ensures
            forall|i: int|
                0 <= i < 8 ==> r[i] == if (mask >> i as u8) % 2 == 1 {
                    a[i].wrapping_sub(b[i])
                } else {
                    0
                },
    {
        self.sub_i16x8_merge_masked([0i16; 8], mask, a, b)
    }

    /// `a + b` per lane, signed saturating, where `mask` bit is set, else copied from `src` (`vpaddsw`, 128-bit, merge-masked).
    pub fn adds_i16x8_merge_masked(self, src: [i16; 8], mask: u8, a: [i16; 8], b: [i16; 8]) -> (r: [i16; 8])
        ensures
            forall|i: int|
                0 <= i < 8 ==> r[i] == if (mask >> i as u8) % 2 == 1 {
                    sat_i16(a[i] + b[i])
                } else {
                    src[i]
                },
    {
        let mut out = [0i16; 8];
        let mut i: usize = 0;
        while i < 8
            invariant
                i <= 8,
                forall|j: int|
                    0 <= j < i ==> out[j] == if (mask >> j as u8) % 2 == 1 {
                        sat_i16(a[j] + b[j])
                    } else {
                        src[j]
                    },
            decreases 8 - i,
        {
            out[i] = if (mask >> i as u8) % 2 == 1 {
                adds_i16(a[i], b[i])
            } else {
                src[i]
            };
            i += 1;
        }
        out
    }

    /// `a + b` per lane, signed saturating, where `mask` bit is set, else zero (`vpaddsw`, 128-bit, zero-masked).
    pub fn adds_i16x8_zero_masked(self, mask: u8, a: [i16; 8], b: [i16; 8]) -> (r: [i16; 8])
        ensures
            forall|i: int|
                0 <= i < 8 ==> r[i] == if (mask >> i as u8) % 2 == 1 {
                    sat_i16(a[i] + b[i])
                } else {
                    0
                },
    {
        self.adds_i16x8_merge_masked([0i16; 8], mask, a, b)
    }

    /// `a - b` per lane, signed saturating, where `mask` bit is set, else copied from `src` (`vpsubsw`, 128-bit, merge-masked).
    pub fn subs_i16x8_merge_masked(self, src: [i16; 8], mask: u8, a: [i16; 8], b: [i16; 8]) -> (r: [i16; 8])
        ensures
            forall|i: int|
                0 <= i < 8 ==> r[i] == if (mask >> i as u8) % 2 == 1 {
                    sat_i16(a[i] - b[i])
                } else {
                    src[i]
                },
    {
        let mut out = [0i16; 8];
        let mut i: usize = 0;
        while i < 8
            invariant
                i <= 8,
                forall|j: int|
                    0 <= j < i ==> out[j] == if (mask >> j as u8) % 2 == 1 {
                        sat_i16(a[j] - b[j])
                    } else {
                        src[j]
                    },
            decreases 8 - i,
        {
            out[i] = if (mask >> i as u8) % 2 == 1 {
                subs_i16(a[i], b[i])
            } else {
                src[i]
            };
            i += 1;
        }
        out
    }

    /// `a - b` per lane, signed saturating, where `mask` bit is set, else zero (`vpsubsw`, 128-bit, zero-masked).
    pub fn subs_i16x8_zero_masked(self, mask: u8, a: [i16; 8], b: [i16; 8]) -> (r: [i16; 8])
        ensures
            forall|i: int|
                0 <= i < 8 ==> r[i] == if (mask >> i as u8) % 2 == 1 {
                    sat_i16(a[i] - b[i])
                } else {
                    0
                },
    {
        self.subs_i16x8_merge_masked([0i16; 8], mask, a, b)
    }

    /// `a * b` per lane, low 16 bits, where `mask` bit is set, else copied from `src` (`vpmullw`, 128-bit, merge-masked).
    pub fn mul_i16x8_merge_masked(self, src: [i16; 8], mask: u8, a: [i16; 8], b: [i16; 8]) -> (r: [i16; 8])
        ensures
            forall|i: int|
                0 <= i < 8 ==> r[i] == if (mask >> i as u8) % 2 == 1 {
                    a[i].wrapping_mul(b[i])
                } else {
                    src[i]
                },
    {
        let mut out = [0i16; 8];
        let mut i: usize = 0;
        while i < 8
            invariant
                i <= 8,
                forall|j: int|
                    0 <= j < i ==> out[j] == if (mask >> j as u8) % 2 == 1 {
                        a[j].wrapping_mul(b[j])
                    } else {
                        src[j]
                    },
            decreases 8 - i,
        {
            out[i] = if (mask >> i as u8) % 2 == 1 {
                a[i].wrapping_mul(b[i])
            } else {
                src[i]
            };
            i += 1;
        }
        out
    }

    /// `a * b` per lane, low 16 bits, where `mask` bit is set, else zero (`vpmullw`, 128-bit, zero-masked).
    pub fn mul_i16x8_zero_masked(self, mask: u8, a: [i16; 8], b: [i16; 8]) -> (r: [i16; 8])
        ensures
            forall|i: int|
                0 <= i < 8 ==> r[i] == if (mask >> i as u8) % 2 == 1 {
                    a[i].wrapping_mul(b[i])
                } else {
                    0
                },
    {
        self.mul_i16x8_merge_masked([0i16; 8], mask, a, b)
    }

    /// Per-lane signed min where `mask` bit is set, else copied from `src` (`vpminsw`, 128-bit, merge-masked).
    pub fn min_i16x8_merge_masked(self, src: [i16; 8], mask: u8, a: [i16; 8], b: [i16; 8]) -> (r: [i16; 8])
        ensures
            forall|i: int|
                0 <= i < 8 ==> r[i] == if (mask >> i as u8) % 2 == 1 {
                    if a[i] <= b[i] { a[i] } else { b[i] }
                } else {
                    src[i]
                },
    {
        let mut out = [0i16; 8];
        let mut i: usize = 0;
        while i < 8
            invariant
                i <= 8,
                forall|j: int|
                    0 <= j < i ==> out[j] == if (mask >> j as u8) % 2 == 1 {
                        if a[j] <= b[j] { a[j] } else { b[j] }
                    } else {
                        src[j]
                    },
            decreases 8 - i,
        {
            out[i] = if (mask >> i as u8) % 2 == 1 {
                if a[i] <= b[i] { a[i] } else { b[i] }
            } else {
                src[i]
            };
            i += 1;
        }
        out
    }

    /// Per-lane signed min where `mask` bit is set, else zero (`vpminsw`, 128-bit, zero-masked).
    pub fn min_i16x8_zero_masked(self, mask: u8, a: [i16; 8], b: [i16; 8]) -> (r: [i16; 8])
        ensures
            forall|i: int|
                0 <= i < 8 ==> r[i] == if (mask >> i as u8) % 2 == 1 {
                    if a[i] <= b[i] { a[i] } else { b[i] }
                } else {
                    0
                },
    {
        self.min_i16x8_merge_masked([0i16; 8], mask, a, b)
    }

    /// Per-lane signed max where `mask` bit is set, else copied from `src` (`vpmaxsw`, 128-bit, merge-masked).
    pub fn max_i16x8_merge_masked(self, src: [i16; 8], mask: u8, a: [i16; 8], b: [i16; 8]) -> (r: [i16; 8])
        ensures
            forall|i: int|
                0 <= i < 8 ==> r[i] == if (mask >> i as u8) % 2 == 1 {
                    if a[i] >= b[i] { a[i] } else { b[i] }
                } else {
                    src[i]
                },
    {
        let mut out = [0i16; 8];
        let mut i: usize = 0;
        while i < 8
            invariant
                i <= 8,
                forall|j: int|
                    0 <= j < i ==> out[j] == if (mask >> j as u8) % 2 == 1 {
                        if a[j] >= b[j] { a[j] } else { b[j] }
                    } else {
                        src[j]
                    },
            decreases 8 - i,
        {
            out[i] = if (mask >> i as u8) % 2 == 1 {
                if a[i] >= b[i] { a[i] } else { b[i] }
            } else {
                src[i]
            };
            i += 1;
        }
        out
    }

    /// Per-lane signed max where `mask` bit is set, else zero (`vpmaxsw`, 128-bit, zero-masked).
    pub fn max_i16x8_zero_masked(self, mask: u8, a: [i16; 8], b: [i16; 8]) -> (r: [i16; 8])
        ensures
            forall|i: int|
                0 <= i < 8 ==> r[i] == if (mask >> i as u8) % 2 == 1 {
                    if a[i] >= b[i] { a[i] } else { b[i] }
                } else {
                    0
                },
    {
        self.max_i16x8_merge_masked([0i16; 8], mask, a, b)
    }

    /// `a + b` per lane, wrapping, where `mask` bit is set, else copied from `src` (`vpaddw`, 256-bit, merge-masked).
    pub fn add_i16x16_merge_masked(self, src: [i16; 16], mask: u16, a: [i16; 16], b: [i16; 16]) -> (r: [i16; 16])
        ensures
            forall|i: int|
                0 <= i < 16 ==> r[i] == if (mask >> i as u16) % 2 == 1 {
                    a[i].wrapping_add(b[i])
                } else {
                    src[i]
                },
    {
        let mut out = [0i16; 16];
        let mut i: usize = 0;
        while i < 16
            invariant
                i <= 16,
                forall|j: int|
                    0 <= j < i ==> out[j] == if (mask >> j as u16) % 2 == 1 {
                        a[j].wrapping_add(b[j])
                    } else {
                        src[j]
                    },
            decreases 16 - i,
        {
            out[i] = if (mask >> i as u16) % 2 == 1 {
                a[i].wrapping_add(b[i])
            } else {
                src[i]
            };
            i += 1;
        }
        out
    }

    /// `a + b` per lane, wrapping, where `mask` bit is set, else zero (`vpaddw`, 256-bit, zero-masked).
    pub fn add_i16x16_zero_masked(self, mask: u16, a: [i16; 16], b: [i16; 16]) -> (r: [i16; 16])
        ensures
            forall|i: int|
                0 <= i < 16 ==> r[i] == if (mask >> i as u16) % 2 == 1 {
                    a[i].wrapping_add(b[i])
                } else {
                    0
                },
    {
        self.add_i16x16_merge_masked([0i16; 16], mask, a, b)
    }

    /// `a - b` per lane, wrapping, where `mask` bit is set, else copied from `src` (`vpsubw`, 256-bit, merge-masked).
    pub fn sub_i16x16_merge_masked(self, src: [i16; 16], mask: u16, a: [i16; 16], b: [i16; 16]) -> (r: [i16; 16])
        ensures
            forall|i: int|
                0 <= i < 16 ==> r[i] == if (mask >> i as u16) % 2 == 1 {
                    a[i].wrapping_sub(b[i])
                } else {
                    src[i]
                },
    {
        let mut out = [0i16; 16];
        let mut i: usize = 0;
        while i < 16
            invariant
                i <= 16,
                forall|j: int|
                    0 <= j < i ==> out[j] == if (mask >> j as u16) % 2 == 1 {
                        a[j].wrapping_sub(b[j])
                    } else {
                        src[j]
                    },
            decreases 16 - i,
        {
            out[i] = if (mask >> i as u16) % 2 == 1 {
                a[i].wrapping_sub(b[i])
            } else {
                src[i]
            };
            i += 1;
        }
        out
    }

    /// `a - b` per lane, wrapping, where `mask` bit is set, else zero (`vpsubw`, 256-bit, zero-masked).
    pub fn sub_i16x16_zero_masked(self, mask: u16, a: [i16; 16], b: [i16; 16]) -> (r: [i16; 16])
        ensures
            forall|i: int|
                0 <= i < 16 ==> r[i] == if (mask >> i as u16) % 2 == 1 {
                    a[i].wrapping_sub(b[i])
                } else {
                    0
                },
    {
        self.sub_i16x16_merge_masked([0i16; 16], mask, a, b)
    }

    /// `a + b` per lane, signed saturating, where `mask` bit is set, else copied from `src` (`vpaddsw`, 256-bit, merge-masked).
    pub fn adds_i16x16_merge_masked(self, src: [i16; 16], mask: u16, a: [i16; 16], b: [i16; 16]) -> (r: [i16; 16])
        ensures
            forall|i: int|
                0 <= i < 16 ==> r[i] == if (mask >> i as u16) % 2 == 1 {
                    sat_i16(a[i] + b[i])
                } else {
                    src[i]
                },
    {
        let mut out = [0i16; 16];
        let mut i: usize = 0;
        while i < 16
            invariant
                i <= 16,
                forall|j: int|
                    0 <= j < i ==> out[j] == if (mask >> j as u16) % 2 == 1 {
                        sat_i16(a[j] + b[j])
                    } else {
                        src[j]
                    },
            decreases 16 - i,
        {
            out[i] = if (mask >> i as u16) % 2 == 1 {
                adds_i16(a[i], b[i])
            } else {
                src[i]
            };
            i += 1;
        }
        out
    }

    /// `a + b` per lane, signed saturating, where `mask` bit is set, else zero (`vpaddsw`, 256-bit, zero-masked).
    pub fn adds_i16x16_zero_masked(self, mask: u16, a: [i16; 16], b: [i16; 16]) -> (r: [i16; 16])
        ensures
            forall|i: int|
                0 <= i < 16 ==> r[i] == if (mask >> i as u16) % 2 == 1 {
                    sat_i16(a[i] + b[i])
                } else {
                    0
                },
    {
        self.adds_i16x16_merge_masked([0i16; 16], mask, a, b)
    }

    /// `a - b` per lane, signed saturating, where `mask` bit is set, else copied from `src` (`vpsubsw`, 256-bit, merge-masked).
    pub fn subs_i16x16_merge_masked(self, src: [i16; 16], mask: u16, a: [i16; 16], b: [i16; 16]) -> (r: [i16; 16])
        ensures
            forall|i: int|
                0 <= i < 16 ==> r[i] == if (mask >> i as u16) % 2 == 1 {
                    sat_i16(a[i] - b[i])
                } else {
                    src[i]
                },
    {
        let mut out = [0i16; 16];
        let mut i: usize = 0;
        while i < 16
            invariant
                i <= 16,
                forall|j: int|
                    0 <= j < i ==> out[j] == if (mask >> j as u16) % 2 == 1 {
                        sat_i16(a[j] - b[j])
                    } else {
                        src[j]
                    },
            decreases 16 - i,
        {
            out[i] = if (mask >> i as u16) % 2 == 1 {
                subs_i16(a[i], b[i])
            } else {
                src[i]
            };
            i += 1;
        }
        out
    }

    /// `a - b` per lane, signed saturating, where `mask` bit is set, else zero (`vpsubsw`, 256-bit, zero-masked).
    pub fn subs_i16x16_zero_masked(self, mask: u16, a: [i16; 16], b: [i16; 16]) -> (r: [i16; 16])
        ensures
            forall|i: int|
                0 <= i < 16 ==> r[i] == if (mask >> i as u16) % 2 == 1 {
                    sat_i16(a[i] - b[i])
                } else {
                    0
                },
    {
        self.subs_i16x16_merge_masked([0i16; 16], mask, a, b)
    }

    /// `a * b` per lane, low 16 bits, where `mask` bit is set, else copied from `src` (`vpmullw`, 256-bit, merge-masked).
    pub fn mul_i16x16_merge_masked(self, src: [i16; 16], mask: u16, a: [i16; 16], b: [i16; 16]) -> (r: [i16; 16])
        ensures
            forall|i: int|
                0 <= i < 16 ==> r[i] == if (mask >> i as u16) % 2 == 1 {
                    a[i].wrapping_mul(b[i])
                } else {
                    src[i]
                },
    {
        let mut out = [0i16; 16];
        let mut i: usize = 0;
        while i < 16
            invariant
                i <= 16,
                forall|j: int|
                    0 <= j < i ==> out[j] == if (mask >> j as u16) % 2 == 1 {
                        a[j].wrapping_mul(b[j])
                    } else {
                        src[j]
                    },
            decreases 16 - i,
        {
            out[i] = if (mask >> i as u16) % 2 == 1 {
                a[i].wrapping_mul(b[i])
            } else {
                src[i]
            };
            i += 1;
        }
        out
    }

    /// `a * b` per lane, low 16 bits, where `mask` bit is set, else zero (`vpmullw`, 256-bit, zero-masked).
    pub fn mul_i16x16_zero_masked(self, mask: u16, a: [i16; 16], b: [i16; 16]) -> (r: [i16; 16])
        ensures
            forall|i: int|
                0 <= i < 16 ==> r[i] == if (mask >> i as u16) % 2 == 1 {
                    a[i].wrapping_mul(b[i])
                } else {
                    0
                },
    {
        self.mul_i16x16_merge_masked([0i16; 16], mask, a, b)
    }

    /// Per-lane signed min where `mask` bit is set, else copied from `src` (`vpminsw`, 256-bit, merge-masked).
    pub fn min_i16x16_merge_masked(self, src: [i16; 16], mask: u16, a: [i16; 16], b: [i16; 16]) -> (r: [i16; 16])
        ensures
            forall|i: int|
                0 <= i < 16 ==> r[i] == if (mask >> i as u16) % 2 == 1 {
                    if a[i] <= b[i] { a[i] } else { b[i] }
                } else {
                    src[i]
                },
    {
        let mut out = [0i16; 16];
        let mut i: usize = 0;
        while i < 16
            invariant
                i <= 16,
                forall|j: int|
                    0 <= j < i ==> out[j] == if (mask >> j as u16) % 2 == 1 {
                        if a[j] <= b[j] { a[j] } else { b[j] }
                    } else {
                        src[j]
                    },
            decreases 16 - i,
        {
            out[i] = if (mask >> i as u16) % 2 == 1 {
                if a[i] <= b[i] { a[i] } else { b[i] }
            } else {
                src[i]
            };
            i += 1;
        }
        out
    }

    /// Per-lane signed min where `mask` bit is set, else zero (`vpminsw`, 256-bit, zero-masked).
    pub fn min_i16x16_zero_masked(self, mask: u16, a: [i16; 16], b: [i16; 16]) -> (r: [i16; 16])
        ensures
            forall|i: int|
                0 <= i < 16 ==> r[i] == if (mask >> i as u16) % 2 == 1 {
                    if a[i] <= b[i] { a[i] } else { b[i] }
                } else {
                    0
                },
    {
        self.min_i16x16_merge_masked([0i16; 16], mask, a, b)
    }

    /// Per-lane signed max where `mask` bit is set, else copied from `src` (`vpmaxsw`, 256-bit, merge-masked).
    pub fn max_i16x16_merge_masked(self, src: [i16; 16], mask: u16, a: [i16; 16], b: [i16; 16]) -> (r: [i16; 16])
        ensures
            forall|i: int|
                0 <= i < 16 ==> r[i] == if (mask >> i as u16) % 2 == 1 {
                    if a[i] >= b[i] { a[i] } else { b[i] }
                } else {
                    src[i]
                },
    {
        let mut out = [0i16; 16];
        let mut i: usize = 0;
        while i < 16
            invariant
                i <= 16,
                forall|j: int|
                    0 <= j < i ==> out[j] == if (mask >> j as u16) % 2 == 1 {
                        if a[j] >= b[j] { a[j] } else { b[j] }
                    } else {
                        src[j]
                    },
            decreases 16 - i,
        {
            out[i] = if (mask >> i as u16) % 2 == 1 {
                if a[i] >= b[i] { a[i] } else { b[i] }
            } else {
                src[i]
            };
            i += 1;
        }
        out
    }

    /// Per-lane signed max where `mask` bit is set, else zero (`vpmaxsw`, 256-bit, zero-masked).
    pub fn max_i16x16_zero_masked(self, mask: u16, a: [i16; 16], b: [i16; 16]) -> (r: [i16; 16])
        ensures
            forall|i: int|
                0 <= i < 16 ==> r[i] == if (mask >> i as u16) % 2 == 1 {
                    if a[i] >= b[i] { a[i] } else { b[i] }
                } else {
                    0
                },
    {
        self.max_i16x16_merge_masked([0i16; 16], mask, a, b)
    }

    /// `a + b` per lane, wrapping, where `mask` bit is set, else copied from `src` (`vpaddw`, 128-bit, merge-masked; bit-identical to the signed form, no `epu16` add exists).
    pub fn add_u16x8_merge_masked(self, src: [u16; 8], mask: u8, a: [u16; 8], b: [u16; 8]) -> (r: [u16; 8])
        ensures
            forall|i: int|
                0 <= i < 8 ==> r[i] == if (mask >> i as u8) % 2 == 1 {
                    a[i].wrapping_add(b[i])
                } else {
                    src[i]
                },
    {
        let mut out = [0u16; 8];
        let mut i: usize = 0;
        while i < 8
            invariant
                i <= 8,
                forall|j: int|
                    0 <= j < i ==> out[j] == if (mask >> j as u8) % 2 == 1 {
                        a[j].wrapping_add(b[j])
                    } else {
                        src[j]
                    },
            decreases 8 - i,
        {
            out[i] = if (mask >> i as u8) % 2 == 1 {
                a[i].wrapping_add(b[i])
            } else {
                src[i]
            };
            i += 1;
        }
        out
    }

    /// `a + b` per lane, wrapping, where `mask` bit is set, else zero (`vpaddw`, 128-bit, zero-masked).
    pub fn add_u16x8_zero_masked(self, mask: u8, a: [u16; 8], b: [u16; 8]) -> (r: [u16; 8])
        ensures
            forall|i: int|
                0 <= i < 8 ==> r[i] == if (mask >> i as u8) % 2 == 1 {
                    a[i].wrapping_add(b[i])
                } else {
                    0
                },
    {
        self.add_u16x8_merge_masked([0u16; 8], mask, a, b)
    }

    /// `a - b` per lane, wrapping, where `mask` bit is set, else copied from `src` (`vpsubw`, 128-bit, merge-masked; bit-identical to the signed form, no `epu16` sub exists).
    pub fn sub_u16x8_merge_masked(self, src: [u16; 8], mask: u8, a: [u16; 8], b: [u16; 8]) -> (r: [u16; 8])
        ensures
            forall|i: int|
                0 <= i < 8 ==> r[i] == if (mask >> i as u8) % 2 == 1 {
                    a[i].wrapping_sub(b[i])
                } else {
                    src[i]
                },
    {
        let mut out = [0u16; 8];
        let mut i: usize = 0;
        while i < 8
            invariant
                i <= 8,
                forall|j: int|
                    0 <= j < i ==> out[j] == if (mask >> j as u8) % 2 == 1 {
                        a[j].wrapping_sub(b[j])
                    } else {
                        src[j]
                    },
            decreases 8 - i,
        {
            out[i] = if (mask >> i as u8) % 2 == 1 {
                a[i].wrapping_sub(b[i])
            } else {
                src[i]
            };
            i += 1;
        }
        out
    }

    /// `a - b` per lane, wrapping, where `mask` bit is set, else zero (`vpsubw`, 128-bit, zero-masked).
    pub fn sub_u16x8_zero_masked(self, mask: u8, a: [u16; 8], b: [u16; 8]) -> (r: [u16; 8])
        ensures
            forall|i: int|
                0 <= i < 8 ==> r[i] == if (mask >> i as u8) % 2 == 1 {
                    a[i].wrapping_sub(b[i])
                } else {
                    0
                },
    {
        self.sub_u16x8_merge_masked([0u16; 8], mask, a, b)
    }

    /// `a + b` per lane, unsigned saturating, where `mask` bit is set, else copied from `src` (`vpaddusw`, 128-bit, merge-masked).
    pub fn adds_u16x8_merge_masked(self, src: [u16; 8], mask: u8, a: [u16; 8], b: [u16; 8]) -> (r: [u16; 8])
        ensures
            forall|i: int|
                0 <= i < 8 ==> r[i] == if (mask >> i as u8) % 2 == 1 {
                    a[i].saturating_add(b[i])
                } else {
                    src[i]
                },
    {
        let mut out = [0u16; 8];
        let mut i: usize = 0;
        while i < 8
            invariant
                i <= 8,
                forall|j: int|
                    0 <= j < i ==> out[j] == if (mask >> j as u8) % 2 == 1 {
                        a[j].saturating_add(b[j])
                    } else {
                        src[j]
                    },
            decreases 8 - i,
        {
            out[i] = if (mask >> i as u8) % 2 == 1 {
                a[i].saturating_add(b[i])
            } else {
                src[i]
            };
            i += 1;
        }
        out
    }

    /// `a + b` per lane, unsigned saturating, where `mask` bit is set, else zero (`vpaddusw`, 128-bit, zero-masked).
    pub fn adds_u16x8_zero_masked(self, mask: u8, a: [u16; 8], b: [u16; 8]) -> (r: [u16; 8])
        ensures
            forall|i: int|
                0 <= i < 8 ==> r[i] == if (mask >> i as u8) % 2 == 1 {
                    a[i].saturating_add(b[i])
                } else {
                    0
                },
    {
        self.adds_u16x8_merge_masked([0u16; 8], mask, a, b)
    }

    /// `a - b` per lane, unsigned saturating, where `mask` bit is set, else copied from `src` (`vpsubusw`, 128-bit, merge-masked).
    pub fn subs_u16x8_merge_masked(self, src: [u16; 8], mask: u8, a: [u16; 8], b: [u16; 8]) -> (r: [u16; 8])
        ensures
            forall|i: int|
                0 <= i < 8 ==> r[i] == if (mask >> i as u8) % 2 == 1 {
                    a[i].saturating_sub(b[i])
                } else {
                    src[i]
                },
    {
        let mut out = [0u16; 8];
        let mut i: usize = 0;
        while i < 8
            invariant
                i <= 8,
                forall|j: int|
                    0 <= j < i ==> out[j] == if (mask >> j as u8) % 2 == 1 {
                        a[j].saturating_sub(b[j])
                    } else {
                        src[j]
                    },
            decreases 8 - i,
        {
            out[i] = if (mask >> i as u8) % 2 == 1 {
                a[i].saturating_sub(b[i])
            } else {
                src[i]
            };
            i += 1;
        }
        out
    }

    /// `a - b` per lane, unsigned saturating, where `mask` bit is set, else zero (`vpsubusw`, 128-bit, zero-masked).
    pub fn subs_u16x8_zero_masked(self, mask: u8, a: [u16; 8], b: [u16; 8]) -> (r: [u16; 8])
        ensures
            forall|i: int|
                0 <= i < 8 ==> r[i] == if (mask >> i as u8) % 2 == 1 {
                    a[i].saturating_sub(b[i])
                } else {
                    0
                },
    {
        self.subs_u16x8_merge_masked([0u16; 8], mask, a, b)
    }

    /// `a * b` per lane, low 16 bits, where `mask` bit is set, else copied from `src` (`vpmullw`, 128-bit, merge-masked; bit-identical to the signed form).
    pub fn mul_u16x8_merge_masked(self, src: [u16; 8], mask: u8, a: [u16; 8], b: [u16; 8]) -> (r: [u16; 8])
        ensures
            forall|i: int|
                0 <= i < 8 ==> r[i] == if (mask >> i as u8) % 2 == 1 {
                    a[i].wrapping_mul(b[i])
                } else {
                    src[i]
                },
    {
        let mut out = [0u16; 8];
        let mut i: usize = 0;
        while i < 8
            invariant
                i <= 8,
                forall|j: int|
                    0 <= j < i ==> out[j] == if (mask >> j as u8) % 2 == 1 {
                        a[j].wrapping_mul(b[j])
                    } else {
                        src[j]
                    },
            decreases 8 - i,
        {
            out[i] = if (mask >> i as u8) % 2 == 1 {
                a[i].wrapping_mul(b[i])
            } else {
                src[i]
            };
            i += 1;
        }
        out
    }

    /// `a * b` per lane, low 16 bits, where `mask` bit is set, else zero (`vpmullw`, 128-bit, zero-masked).
    pub fn mul_u16x8_zero_masked(self, mask: u8, a: [u16; 8], b: [u16; 8]) -> (r: [u16; 8])
        ensures
            forall|i: int|
                0 <= i < 8 ==> r[i] == if (mask >> i as u8) % 2 == 1 {
                    a[i].wrapping_mul(b[i])
                } else {
                    0
                },
    {
        self.mul_u16x8_merge_masked([0u16; 8], mask, a, b)
    }

    /// Per-lane unsigned min where `mask` bit is set, else copied from `src` (`vpminuw`, 128-bit, merge-masked).
    pub fn min_u16x8_merge_masked(self, src: [u16; 8], mask: u8, a: [u16; 8], b: [u16; 8]) -> (r: [u16; 8])
        ensures
            forall|i: int|
                0 <= i < 8 ==> r[i] == if (mask >> i as u8) % 2 == 1 {
                    if a[i] <= b[i] { a[i] } else { b[i] }
                } else {
                    src[i]
                },
    {
        let mut out = [0u16; 8];
        let mut i: usize = 0;
        while i < 8
            invariant
                i <= 8,
                forall|j: int|
                    0 <= j < i ==> out[j] == if (mask >> j as u8) % 2 == 1 {
                        if a[j] <= b[j] { a[j] } else { b[j] }
                    } else {
                        src[j]
                    },
            decreases 8 - i,
        {
            out[i] = if (mask >> i as u8) % 2 == 1 {
                if a[i] <= b[i] { a[i] } else { b[i] }
            } else {
                src[i]
            };
            i += 1;
        }
        out
    }

    /// Per-lane unsigned min where `mask` bit is set, else zero (`vpminuw`, 128-bit, zero-masked).
    pub fn min_u16x8_zero_masked(self, mask: u8, a: [u16; 8], b: [u16; 8]) -> (r: [u16; 8])
        ensures
            forall|i: int|
                0 <= i < 8 ==> r[i] == if (mask >> i as u8) % 2 == 1 {
                    if a[i] <= b[i] { a[i] } else { b[i] }
                } else {
                    0
                },
    {
        self.min_u16x8_merge_masked([0u16; 8], mask, a, b)
    }

    /// Per-lane unsigned max where `mask` bit is set, else copied from `src` (`vpmaxuw`, 128-bit, merge-masked).
    pub fn max_u16x8_merge_masked(self, src: [u16; 8], mask: u8, a: [u16; 8], b: [u16; 8]) -> (r: [u16; 8])
        ensures
            forall|i: int|
                0 <= i < 8 ==> r[i] == if (mask >> i as u8) % 2 == 1 {
                    if a[i] >= b[i] { a[i] } else { b[i] }
                } else {
                    src[i]
                },
    {
        let mut out = [0u16; 8];
        let mut i: usize = 0;
        while i < 8
            invariant
                i <= 8,
                forall|j: int|
                    0 <= j < i ==> out[j] == if (mask >> j as u8) % 2 == 1 {
                        if a[j] >= b[j] { a[j] } else { b[j] }
                    } else {
                        src[j]
                    },
            decreases 8 - i,
        {
            out[i] = if (mask >> i as u8) % 2 == 1 {
                if a[i] >= b[i] { a[i] } else { b[i] }
            } else {
                src[i]
            };
            i += 1;
        }
        out
    }

    /// Per-lane unsigned max where `mask` bit is set, else zero (`vpmaxuw`, 128-bit, zero-masked).
    pub fn max_u16x8_zero_masked(self, mask: u8, a: [u16; 8], b: [u16; 8]) -> (r: [u16; 8])
        ensures
            forall|i: int|
                0 <= i < 8 ==> r[i] == if (mask >> i as u8) % 2 == 1 {
                    if a[i] >= b[i] { a[i] } else { b[i] }
                } else {
                    0
                },
    {
        self.max_u16x8_merge_masked([0u16; 8], mask, a, b)
    }

    /// Per-lane rounded unsigned average, `(a+b+1)/2`, where `mask` bit is set, else copied from `src` (`vpavgw`, 128-bit, merge-masked).
    pub fn avg_u16x8_merge_masked(self, src: [u16; 8], mask: u8, a: [u16; 8], b: [u16; 8]) -> (r: [u16; 8])
        ensures
            forall|i: int|
                0 <= i < 8 ==> r[i] == if (mask >> i as u8) % 2 == 1 {
                    ((a[i] + b[i] + 1) / 2) as u16
                } else {
                    src[i]
                },
    {
        let mut out = [0u16; 8];
        let mut i: usize = 0;
        while i < 8
            invariant
                i <= 8,
                forall|j: int|
                    0 <= j < i ==> out[j] == if (mask >> j as u8) % 2 == 1 {
                        ((a[j] + b[j] + 1) / 2) as u16
                    } else {
                        src[j]
                    },
            decreases 8 - i,
        {
            out[i] = if (mask >> i as u8) % 2 == 1 {
                ((a[i] as u32 + b[i] as u32 + 1) / 2) as u16
            } else {
                src[i]
            };
            i += 1;
        }
        out
    }

    /// Per-lane rounded unsigned average, `(a+b+1)/2`, where `mask` bit is set, else zero (`vpavgw`, 128-bit, zero-masked).
    pub fn avg_u16x8_zero_masked(self, mask: u8, a: [u16; 8], b: [u16; 8]) -> (r: [u16; 8])
        ensures
            forall|i: int|
                0 <= i < 8 ==> r[i] == if (mask >> i as u8) % 2 == 1 {
                    ((a[i] + b[i] + 1) / 2) as u16
                } else {
                    0
                },
    {
        self.avg_u16x8_merge_masked([0u16; 8], mask, a, b)
    }

    /// `a + b` per lane, wrapping, where `mask` bit is set, else copied from `src` (`vpaddw`, 256-bit, merge-masked; bit-identical to the signed form, no `epu16` add exists).
    pub fn add_u16x16_merge_masked(self, src: [u16; 16], mask: u16, a: [u16; 16], b: [u16; 16]) -> (r: [u16; 16])
        ensures
            forall|i: int|
                0 <= i < 16 ==> r[i] == if (mask >> i as u16) % 2 == 1 {
                    a[i].wrapping_add(b[i])
                } else {
                    src[i]
                },
    {
        let mut out = [0u16; 16];
        let mut i: usize = 0;
        while i < 16
            invariant
                i <= 16,
                forall|j: int|
                    0 <= j < i ==> out[j] == if (mask >> j as u16) % 2 == 1 {
                        a[j].wrapping_add(b[j])
                    } else {
                        src[j]
                    },
            decreases 16 - i,
        {
            out[i] = if (mask >> i as u16) % 2 == 1 {
                a[i].wrapping_add(b[i])
            } else {
                src[i]
            };
            i += 1;
        }
        out
    }

    /// `a + b` per lane, wrapping, where `mask` bit is set, else zero (`vpaddw`, 256-bit, zero-masked).
    pub fn add_u16x16_zero_masked(self, mask: u16, a: [u16; 16], b: [u16; 16]) -> (r: [u16; 16])
        ensures
            forall|i: int|
                0 <= i < 16 ==> r[i] == if (mask >> i as u16) % 2 == 1 {
                    a[i].wrapping_add(b[i])
                } else {
                    0
                },
    {
        self.add_u16x16_merge_masked([0u16; 16], mask, a, b)
    }

    /// `a - b` per lane, wrapping, where `mask` bit is set, else copied from `src` (`vpsubw`, 256-bit, merge-masked; bit-identical to the signed form, no `epu16` sub exists).
    pub fn sub_u16x16_merge_masked(self, src: [u16; 16], mask: u16, a: [u16; 16], b: [u16; 16]) -> (r: [u16; 16])
        ensures
            forall|i: int|
                0 <= i < 16 ==> r[i] == if (mask >> i as u16) % 2 == 1 {
                    a[i].wrapping_sub(b[i])
                } else {
                    src[i]
                },
    {
        let mut out = [0u16; 16];
        let mut i: usize = 0;
        while i < 16
            invariant
                i <= 16,
                forall|j: int|
                    0 <= j < i ==> out[j] == if (mask >> j as u16) % 2 == 1 {
                        a[j].wrapping_sub(b[j])
                    } else {
                        src[j]
                    },
            decreases 16 - i,
        {
            out[i] = if (mask >> i as u16) % 2 == 1 {
                a[i].wrapping_sub(b[i])
            } else {
                src[i]
            };
            i += 1;
        }
        out
    }

    /// `a - b` per lane, wrapping, where `mask` bit is set, else zero (`vpsubw`, 256-bit, zero-masked).
    pub fn sub_u16x16_zero_masked(self, mask: u16, a: [u16; 16], b: [u16; 16]) -> (r: [u16; 16])
        ensures
            forall|i: int|
                0 <= i < 16 ==> r[i] == if (mask >> i as u16) % 2 == 1 {
                    a[i].wrapping_sub(b[i])
                } else {
                    0
                },
    {
        self.sub_u16x16_merge_masked([0u16; 16], mask, a, b)
    }

    /// `a + b` per lane, unsigned saturating, where `mask` bit is set, else copied from `src` (`vpaddusw`, 256-bit, merge-masked).
    pub fn adds_u16x16_merge_masked(self, src: [u16; 16], mask: u16, a: [u16; 16], b: [u16; 16]) -> (r: [u16; 16])
        ensures
            forall|i: int|
                0 <= i < 16 ==> r[i] == if (mask >> i as u16) % 2 == 1 {
                    a[i].saturating_add(b[i])
                } else {
                    src[i]
                },
    {
        let mut out = [0u16; 16];
        let mut i: usize = 0;
        while i < 16
            invariant
                i <= 16,
                forall|j: int|
                    0 <= j < i ==> out[j] == if (mask >> j as u16) % 2 == 1 {
                        a[j].saturating_add(b[j])
                    } else {
                        src[j]
                    },
            decreases 16 - i,
        {
            out[i] = if (mask >> i as u16) % 2 == 1 {
                a[i].saturating_add(b[i])
            } else {
                src[i]
            };
            i += 1;
        }
        out
    }

    /// `a + b` per lane, unsigned saturating, where `mask` bit is set, else zero (`vpaddusw`, 256-bit, zero-masked).
    pub fn adds_u16x16_zero_masked(self, mask: u16, a: [u16; 16], b: [u16; 16]) -> (r: [u16; 16])
        ensures
            forall|i: int|
                0 <= i < 16 ==> r[i] == if (mask >> i as u16) % 2 == 1 {
                    a[i].saturating_add(b[i])
                } else {
                    0
                },
    {
        self.adds_u16x16_merge_masked([0u16; 16], mask, a, b)
    }

    /// `a - b` per lane, unsigned saturating, where `mask` bit is set, else copied from `src` (`vpsubusw`, 256-bit, merge-masked).
    pub fn subs_u16x16_merge_masked(self, src: [u16; 16], mask: u16, a: [u16; 16], b: [u16; 16]) -> (r: [u16; 16])
        ensures
            forall|i: int|
                0 <= i < 16 ==> r[i] == if (mask >> i as u16) % 2 == 1 {
                    a[i].saturating_sub(b[i])
                } else {
                    src[i]
                },
    {
        let mut out = [0u16; 16];
        let mut i: usize = 0;
        while i < 16
            invariant
                i <= 16,
                forall|j: int|
                    0 <= j < i ==> out[j] == if (mask >> j as u16) % 2 == 1 {
                        a[j].saturating_sub(b[j])
                    } else {
                        src[j]
                    },
            decreases 16 - i,
        {
            out[i] = if (mask >> i as u16) % 2 == 1 {
                a[i].saturating_sub(b[i])
            } else {
                src[i]
            };
            i += 1;
        }
        out
    }

    /// `a - b` per lane, unsigned saturating, where `mask` bit is set, else zero (`vpsubusw`, 256-bit, zero-masked).
    pub fn subs_u16x16_zero_masked(self, mask: u16, a: [u16; 16], b: [u16; 16]) -> (r: [u16; 16])
        ensures
            forall|i: int|
                0 <= i < 16 ==> r[i] == if (mask >> i as u16) % 2 == 1 {
                    a[i].saturating_sub(b[i])
                } else {
                    0
                },
    {
        self.subs_u16x16_merge_masked([0u16; 16], mask, a, b)
    }

    /// `a * b` per lane, low 16 bits, where `mask` bit is set, else copied from `src` (`vpmullw`, 256-bit, merge-masked; bit-identical to the signed form).
    pub fn mul_u16x16_merge_masked(self, src: [u16; 16], mask: u16, a: [u16; 16], b: [u16; 16]) -> (r: [u16; 16])
        ensures
            forall|i: int|
                0 <= i < 16 ==> r[i] == if (mask >> i as u16) % 2 == 1 {
                    a[i].wrapping_mul(b[i])
                } else {
                    src[i]
                },
    {
        let mut out = [0u16; 16];
        let mut i: usize = 0;
        while i < 16
            invariant
                i <= 16,
                forall|j: int|
                    0 <= j < i ==> out[j] == if (mask >> j as u16) % 2 == 1 {
                        a[j].wrapping_mul(b[j])
                    } else {
                        src[j]
                    },
            decreases 16 - i,
        {
            out[i] = if (mask >> i as u16) % 2 == 1 {
                a[i].wrapping_mul(b[i])
            } else {
                src[i]
            };
            i += 1;
        }
        out
    }

    /// `a * b` per lane, low 16 bits, where `mask` bit is set, else zero (`vpmullw`, 256-bit, zero-masked).
    pub fn mul_u16x16_zero_masked(self, mask: u16, a: [u16; 16], b: [u16; 16]) -> (r: [u16; 16])
        ensures
            forall|i: int|
                0 <= i < 16 ==> r[i] == if (mask >> i as u16) % 2 == 1 {
                    a[i].wrapping_mul(b[i])
                } else {
                    0
                },
    {
        self.mul_u16x16_merge_masked([0u16; 16], mask, a, b)
    }

    /// Per-lane unsigned min where `mask` bit is set, else copied from `src` (`vpminuw`, 256-bit, merge-masked).
    pub fn min_u16x16_merge_masked(self, src: [u16; 16], mask: u16, a: [u16; 16], b: [u16; 16]) -> (r: [u16; 16])
        ensures
            forall|i: int|
                0 <= i < 16 ==> r[i] == if (mask >> i as u16) % 2 == 1 {
                    if a[i] <= b[i] { a[i] } else { b[i] }
                } else {
                    src[i]
                },
    {
        let mut out = [0u16; 16];
        let mut i: usize = 0;
        while i < 16
            invariant
                i <= 16,
                forall|j: int|
                    0 <= j < i ==> out[j] == if (mask >> j as u16) % 2 == 1 {
                        if a[j] <= b[j] { a[j] } else { b[j] }
                    } else {
                        src[j]
                    },
            decreases 16 - i,
        {
            out[i] = if (mask >> i as u16) % 2 == 1 {
                if a[i] <= b[i] { a[i] } else { b[i] }
            } else {
                src[i]
            };
            i += 1;
        }
        out
    }

    /// Per-lane unsigned min where `mask` bit is set, else zero (`vpminuw`, 256-bit, zero-masked).
    pub fn min_u16x16_zero_masked(self, mask: u16, a: [u16; 16], b: [u16; 16]) -> (r: [u16; 16])
        ensures
            forall|i: int|
                0 <= i < 16 ==> r[i] == if (mask >> i as u16) % 2 == 1 {
                    if a[i] <= b[i] { a[i] } else { b[i] }
                } else {
                    0
                },
    {
        self.min_u16x16_merge_masked([0u16; 16], mask, a, b)
    }

    /// Per-lane unsigned max where `mask` bit is set, else copied from `src` (`vpmaxuw`, 256-bit, merge-masked).
    pub fn max_u16x16_merge_masked(self, src: [u16; 16], mask: u16, a: [u16; 16], b: [u16; 16]) -> (r: [u16; 16])
        ensures
            forall|i: int|
                0 <= i < 16 ==> r[i] == if (mask >> i as u16) % 2 == 1 {
                    if a[i] >= b[i] { a[i] } else { b[i] }
                } else {
                    src[i]
                },
    {
        let mut out = [0u16; 16];
        let mut i: usize = 0;
        while i < 16
            invariant
                i <= 16,
                forall|j: int|
                    0 <= j < i ==> out[j] == if (mask >> j as u16) % 2 == 1 {
                        if a[j] >= b[j] { a[j] } else { b[j] }
                    } else {
                        src[j]
                    },
            decreases 16 - i,
        {
            out[i] = if (mask >> i as u16) % 2 == 1 {
                if a[i] >= b[i] { a[i] } else { b[i] }
            } else {
                src[i]
            };
            i += 1;
        }
        out
    }

    /// Per-lane unsigned max where `mask` bit is set, else zero (`vpmaxuw`, 256-bit, zero-masked).
    pub fn max_u16x16_zero_masked(self, mask: u16, a: [u16; 16], b: [u16; 16]) -> (r: [u16; 16])
        ensures
            forall|i: int|
                0 <= i < 16 ==> r[i] == if (mask >> i as u16) % 2 == 1 {
                    if a[i] >= b[i] { a[i] } else { b[i] }
                } else {
                    0
                },
    {
        self.max_u16x16_merge_masked([0u16; 16], mask, a, b)
    }

    /// Per-lane rounded unsigned average, `(a+b+1)/2`, where `mask` bit is set, else copied from `src` (`vpavgw`, 256-bit, merge-masked).
    pub fn avg_u16x16_merge_masked(self, src: [u16; 16], mask: u16, a: [u16; 16], b: [u16; 16]) -> (r: [u16; 16])
        ensures
            forall|i: int|
                0 <= i < 16 ==> r[i] == if (mask >> i as u16) % 2 == 1 {
                    ((a[i] + b[i] + 1) / 2) as u16
                } else {
                    src[i]
                },
    {
        let mut out = [0u16; 16];
        let mut i: usize = 0;
        while i < 16
            invariant
                i <= 16,
                forall|j: int|
                    0 <= j < i ==> out[j] == if (mask >> j as u16) % 2 == 1 {
                        ((a[j] + b[j] + 1) / 2) as u16
                    } else {
                        src[j]
                    },
            decreases 16 - i,
        {
            out[i] = if (mask >> i as u16) % 2 == 1 {
                ((a[i] as u32 + b[i] as u32 + 1) / 2) as u16
            } else {
                src[i]
            };
            i += 1;
        }
        out
    }

    /// Per-lane rounded unsigned average, `(a+b+1)/2`, where `mask` bit is set, else zero (`vpavgw`, 256-bit, zero-masked).
    pub fn avg_u16x16_zero_masked(self, mask: u16, a: [u16; 16], b: [u16; 16]) -> (r: [u16; 16])
        ensures
            forall|i: int|
                0 <= i < 16 ==> r[i] == if (mask >> i as u16) % 2 == 1 {
                    ((a[i] + b[i] + 1) / 2) as u16
                } else {
                    0
                },
    {
        self.avg_u16x16_merge_masked([0u16; 16], mask, a, b)
    }
}

} // verus!
