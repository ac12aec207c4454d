//! AVX512VNNI: 512-bit narrow dot-product into `i32` (`avx512vnni`), plus the
//! 4-iteration `VP4DPWSSD`/`VP4DPWSSDS` composition built on it. Token: [`Avx512Vnni`].

use vstd::prelude::*;

use super::super::super::{Feature, FeatureSet};
use super::super::chunk::{loadu_i16x32, loadu_i32x16, storeu_i32x16};

verus! {

/// `x` wrapped into `i32` (two's-complement truncation).
pub open spec fn wrap_i32(x: int) -> i32 {
    x as i32
}

/// `x` clamped into `i32` range.
pub open spec fn sat_i32(x: int) -> i32 {
    if x > i32::MAX {
        i32::MAX
    } else if x < i32::MIN {
        i32::MIN
    } else {
        x as i32
    }
}

/// One `vpdpwssd` lane product pair: `a[2j] * b[2j] + a[2j+1] * b[2j+1]`.
pub open spec fn pair_dot(a0: i16, a1: i16, b0: i16, b1: i16) -> int {
    a0 * b0 + a1 * b1
}

/// Sum over the first `n` steps of `VP4DPWSSD` for output lane `j`: step `m` pairs
/// `a[m][2j]`, `a[m][2j+1]` with the broadcast weights `b[2m]`, `b[2m+1]`.
pub open spec fn p4_sum(a: Seq<Seq<i16>>, b: [i16; 8], j: int, n: int) -> int
    decreases n,
{
    if n <= 0 {
        0
    } else {
        p4_sum(a, b, j, n - 1) + pair_dot(
            a[n - 1][2 * j],
            a[n - 1][2 * j + 1],
            b[2 * (n - 1)],
            b[2 * (n - 1) + 1],
        )
    }
}

/// First `n` saturating steps of `VP4DPWSSDS` for output lane `j`, starting from `s`:
/// each step saturates on its own.
pub open spec fn p4_sat_fold(s: i32, a: Seq<Seq<i16>>, b: [i16; 8], j: int, n: int) -> i32
    decreases n,
{
    if n <= 0 {
        s
    } else {
        sat_i32(
            p4_sat_fold(s, a, b, j, n - 1) + pair_dot(
                a[n - 1][2 * j],
                a[n - 1][2 * j + 1],
                b[2 * (n - 1)],
                b[2 * (n - 1) + 1],
            ),
        )
    }
}

/// The four 32-lane rows of a `VP4DPWSSD` source block, as sequences.
pub open spec fn rows_of(a: [[i16; 32]; 4]) -> Seq<Seq<i16>> {
    seq![a[0]@, a[1]@, a[2]@, a[3]@]
}

/// The four row slices of a slice-form `VP4DPWSSD` source, as sequences.
pub open spec fn rows_of_slices(a: [&[i16]; 4]) -> Seq<Seq<i16>> {
    seq![a[0]@, a[1]@, a[2]@, a[3]@]
}

/// Wrapping accumulate of an `i64` dot-product sum into an `i32` lane.
pub(crate) fn vnni_acc_wrapping(acc: i32, sum: i64) -> (r: i32)
    requires
        -0x1_0000_0000 <= sum <= 0x1_0000_0000,
    ensures
        r == wrap_i32(acc + sum),
{
    (acc as i64 + sum) as i32
}

/// Saturating accumulate of an `i64` dot-product sum into an `i32` lane.
pub(crate) fn vnni_acc_saturating(acc: i32, sum: i64) -> (r: i32)
    requires
        -0x1_0000_0000 <= sum <= 0x1_0000_0000,
    ensures
        r == sat_i32(acc + sum),
{
    let t = acc as i64 + sum;
    if t > i32::MAX as i64 {
        i32::MAX
    } else if t < i32::MIN as i64 {
        i32::MIN
    } else {
        t as i32
    }
}

/// Two signed 16-bit products, summed exactly in `i64`.
pub(crate) fn pair_dot_exec(a0: i16, a1: i16, b0: i16, b1: i16) -> (r: i64)
    ensures
        r == pair_dot(a0, a1, b0, b1),
        -0x1_0000_0000 <= r <= 0x1_0000_0000,
{
    proof {
        lemma_product_bound(a0, b0);
        lemma_product_bound(a1, b1);
    }
    a0 as i64 * b0 as i64 + a1 as i64 * b1 as i64
}

proof fn lemma_product_bound(x: i16, y: i16)
    ensures
        -0x4000_0000 <= x * y <= 0x4000_0000,
{
    assert(-0x4000_0000 <= x * y <= 0x4000_0000) by (nonlinear_arith)
        requires
            -0x8000 <= x <= 0x7fff,
            -0x8000 <= y <= 0x7fff,
    ;
}

/// Wrapping in steps equals wrapping once: truncation to 32 bits commutes with addition.
pub proof fn lemma_wrap_step(x: int, y: int)
    requires
        -0x1_0000_0000_0000 <= x <= 0x1_0000_0000_0000,
        -0x1_0000_0000_0000 <= y <= 0x1_0000_0000_0000,
    ensures
        wrap_i32(wrap_i32(x) + y) == wrap_i32(x + y),
{
    let xi = x as i64;
    let yi = y as i64;
    assert(((xi as i32) as i64 + yi) as i32 == (xi + yi) as i32) by (bit_vector)
        requires
            -0x1_0000_0000_0000i64 <= xi <= 0x1_0000_0000_0000i64,
            -0x1_0000_0000_0000i64 <= yi <= 0x1_0000_0000_0000i64,
    ;
}

/// Bound on the `n`-step `VP4DPWSSD` sum: each step contributes at most `2^31` in magnitude.
proof fn lemma_p4_sum_bound(a: Seq<Seq<i16>>, b: [i16; 8], j: int, n: int)
    requires
        0 <= n <= 4,
    ensures
        -n * 0x8000_0000 <= p4_sum(a, b, j, n) <= n * 0x8000_0000,
    decreases n,
{
    if n > 0 {
        lemma_p4_sum_bound(a, b, j, n - 1);
        lemma_product_bound(a[n - 1][2 * j], b[2 * (n - 1)]);
        lemma_product_bound(a[n - 1][2 * j + 1], b[2 * (n - 1) + 1]);
    }
}

/// The `VP4DPWSSD` sum and saturating fold only read the lane pair `2j`, `2j+1` of each row:
/// rows that agree there (with an offset) give the same results.
proof fn lemma_p4_rows_agree(
    x: Seq<Seq<i16>>,
    y: Seq<Seq<i16>>,
    b: [i16; 8],
    s: i32,
    k: int,
    off: int,
    n: int,
)
    requires
        0 <= n <= 4,
        forall|m: int|
            0 <= m < n ==> x[m][2 * k] == y[m][2 * (off + k)] && x[m][2 * k + 1] == y[m][2 * (off
                + k) + 1],
    ensures
        p4_sum(x, b, k, n) == p4_sum(y, b, off + k, n),
        p4_sat_fold(s, x, b, k, n) == p4_sat_fold(s, y, b, off + k, n),
    decreases n,
{
    if n > 0 {
        lemma_p4_rows_agree(x, y, b, s, k, off, n - 1);
        assert(2 * (off + k) == 2 * off + 2 * k);
    }
}

/// `[b[2n], b[2n+1], b[2n], b[2n+1], ...]`: the weight pair of step `n`, broadcast to 32 lanes.
fn broadcast_pair(b: [i16; 8], n: usize) -> (r: [i16; 32])
    requires
        n < 4,
    ensures
        forall|i: int| 0 <= i < 32 ==> r[i] == b[2 * n + i % 2],
{
    let mut r = [0i16; 32];
    let mut i: usize = 0;
    while i < 32
        invariant
            n < 4,
            i <= 32,
            forall|k: int| 0 <= k < i ==> r[k] == b[2 * n + k % 2],
        decreases 32 - i,
    {
        r[i] = b[2 * n + i % 2];
        i += 1;
    }
    r
}

/// Sum of the four `u8` x `i8` products of group `j` (`a[4j..4j+4]` against `b[4j..4j+4]`).
pub open spec fn quad_dot(a: Seq<u8>, b: Seq<i8>, j: int) -> int {
    a[4 * j] * b[4 * j] + a[4 * j + 1] * b[4 * j + 1] + a[4 * j + 2] * b[4 * j + 2] + a[4 * j + 3]
        * b[4 * j + 3]
}

proof fn lemma_byte_product_bound(x: u8, y: i8)
    ensures
        -0x8000 <= x * y <= 0x8000,
{
    assert(-0x8000 <= x * y <= 0x8000) by (nonlinear_arith)
        requires
            0 <= x <= 0xff,
            -0x80 <= y <= 0x7f,
    ;
}

/// The four products of group `j`, summed exactly in `i64`.
pub(crate) fn quad_dot_exec(a: &[u8], b: &[i8], j: usize) -> (r: i64)
    requires
        4 * j + 4 <= a@.len(),
        4 * j + 4 <= b@.len(),
    ensures
        r == quad_dot(a@, b@, j as int),
        -0x2_0000 <= r <= 0x2_0000,
{
    let n = a.len();
    assert(4 * j + 4 <= n);
    proof {
        lemma_byte_product_bound(a@[4 * j as int], b@[4 * j as int]);
        lemma_byte_product_bound(a@[4 * j + 1], b@[4 * j + 1]);
        lemma_byte_product_bound(a@[4 * j + 2], b@[4 * j + 2]);
        lemma_byte_product_bound(a@[4 * j + 3], b@[4 * j + 3]);
    }
    a[4 * j] as i64 * b[4 * j] as i64 + a[4 * j + 1] as i64 * b[4 * j + 1] as i64 + a[4 * j + 2] as i64
        * b[4 * j + 2] as i64 + a[4 * j + 3] as i64 * b[4 * j + 3] as i64
}

/// Proof token: AVX512VNNI, 512-bit forms. Zero-sized, `Copy`.
#[derive(Debug, Clone, Copy)]
pub struct Avx512Vnni(());

impl Avx512Vnni {
    /// From a raw feature bitset (e.g. `x86::detect_features()`).
    pub fn from_features(set: FeatureSet) -> (r: Option<Self>)
        ensures
            r is Some <==> set@.contains(Feature::Avx512vnni),
    {
        if set.contains(Feature::Avx512vnni) {
            Some(Avx512Vnni(()))
        } else {
            None
        }
    }

    /// `dst[j] = src[j] + a[2j] * b[2j] + a[2j+1] * b[2j+1]`, wrapping (`vpdpwssd`, 512-bit,
    /// `i16`x`i16`).
    pub fn dpwssd_i32x16(self, src: [i32; 16], a: [i16; 32], b: [i16; 32]) -> (r: [i32; 16])
        ensures
            forall|j: int|
                0 <= j < 16 ==> r[j] == wrap_i32(
                    src[j] + pair_dot(a[2 * j], a[2 * j + 1], b[2 * j], b[2 * j + 1]),
                ),
    {
        let mut out = [0i32; 16];
        let mut j: usize = 0;
        while j < 16
            invariant
                j <= 16,
                forall|k: int|
                    0 <= k < j ==> out[k] == wrap_i32(
                        src[k] + pair_dot(a[2 * k], a[2 * k + 1], b[2 * k], b[2 * k + 1]),
                    ),
            decreases 16 - j,
        {
            let sum = pair_dot_exec(a[2 * j], a[2 * j + 1], b[2 * j], b[2 * j + 1]);
            out[j] = vnni_acc_wrapping(src[j], sum);
            j += 1;
        }
        out
    }

    /// Saturating [`Avx512Vnni::dpwssd_i32x16`] (`vpdpwssds`, 512-bit).
    pub fn dpwssds_i32x16(self, src: [i32; 16], a: [i16; 32], b: [i16; 32]) -> (r: [i32; 16])
        ensures
            forall|j: int|
                0 <= j < 16 ==> r[j] == sat_i32(
                    src[j] + pair_dot(a[2 * j], a[2 * j + 1], b[2 * j], b[2 * j + 1]),
                ),
    {
        let mut out = [0i32; 16];
        let mut j: usize = 0;
        while j < 16
            invariant
                j <= 16,
                forall|k: int|
                    0 <= k < j ==> out[k] == sat_i32(
                        src[k] + pair_dot(a[2 * k], a[2 * k + 1], b[2 * k], b[2 * k + 1]),
                    ),
            decreases 16 - j,
        {
            let sum = pair_dot_exec(a[2 * j], a[2 * j + 1], b[2 * j], b[2 * j + 1]);
            out[j] = vnni_acc_saturating(src[j], sum);
            j += 1;
        }
        out
    }
}

impl Avx512Vnni {
    /// `VP4DPWSSD`: 4-way `i16`x`i16` dot-product-accumulate, folded in sequence.
    /// `b[2n]`/`b[2n+1]` are the weight pair broadcast against `a[n]` on iteration `n`;
    /// wrapping accumulate, bit-exact with a single wrapping sum of all 4 steps.
    pub fn p4dpwssd_i32x16(self, src: [i32; 16], a: [[i16; 32]; 4], b: [i16; 8]) -> (r: [i32; 16])
        ensures
            forall|j: int| 0 <= j < 16 ==> r[j] == wrap_i32(src[j] + p4_sum(rows_of(a), b, j, 4)),
    {
        let mut acc = src;
        let mut n: usize = 0;
        while n < 4
            invariant
                n <= 4,
                forall|j: int|
                    0 <= j < 16 ==> acc[j] == wrap_i32(src[j] + p4_sum(rows_of(a), b, j, n as int)),
            decreases 4 - n,
        {
            let bvec = broadcast_pair(b, n);
            let next = self.dpwssd_i32x16(acc, a[n], bvec);
            assert forall|j: int| 0 <= j < 16 implies next[j] == wrap_i32(
                src[j] + p4_sum(rows_of(a), b, j, n + 1),
            ) by {
                assert(rows_of(a)[n as int] == a[n as int]@);
                assert((2 * j) % 2 == 0 && (2 * j + 1) % 2 == 1);
                let d = pair_dot(a[n as int][2 * j], a[n as int][2 * j + 1], b[2 * n], b[2 * n + 1]);
                lemma_p4_sum_bound(rows_of(a), b, j, n as int);
                lemma_product_bound(a[n as int][2 * j], b[2 * n]);
                lemma_product_bound(a[n as int][2 * j + 1], b[2 * n + 1]);
                lemma_wrap_step(src[j] + p4_sum(rows_of(a), b, j, n as int), d);
            }
            acc = next;
            n += 1;
        }
        acc
    }

    /// Saturating [`Avx512Vnni::p4dpwssd_i32x16`] (`VP4DPWSSDS`): each of the 4 folded steps
    /// saturates independently.
    pub fn p4dpwssds_i32x16(self, src: [i32; 16], a: [[i16; 32]; 4], b: [i16; 8]) -> (r: [i32; 16])
        ensures
            forall|j: int| 0 <= j < 16 ==> r[j] == p4_sat_fold(src[j], rows_of(a), b, j, 4),
    {
        let mut acc = src;
        let mut n: usize = 0;
        while n < 4
            invariant
                n <= 4,
                forall|j: int| 0 <= j < 16 ==> acc[j] == p4_sat_fold(src[j], rows_of(a), b, j, n as int),
            decreases 4 - n,
        {
            let bvec = broadcast_pair(b, n);
            let next = self.dpwssds_i32x16(acc, a[n], bvec);
            assert forall|j: int| 0 <= j < 16 implies next[j] == p4_sat_fold(
                src[j],
                rows_of(a),
                b,
                j,
                n + 1,
            ) by {
                assert(rows_of(a)[n as int] == a[n as int]@);
                assert((2 * j) % 2 == 0 && (2 * j + 1) % 2 == 1);
            }
            acc = next;
            n += 1;
        }
        acc
    }

    /// [`Avx512Vnni::p4dpwssd_i32x16`] over slices: `out[j] = src[j] + sum_n(a[n][2j]*b[2n] +
    /// a[n][2j+1]*b[2n+1])`, wrapping. 16-wide chunks, scalar remainder.
    ///
    /// # Panics
    /// `out.len() != src.len()`, or any `a[n].len() != src.len() * 2`.
    pub fn p4dpwssd_i32_slice(self, src: &[i32], a: [&[i16]; 4], b: [i16; 8], out: &mut [i32])
        requires
            old(out)@.len() == src@.len(),
            forall|n: int| 0 <= n < 4 ==> a[n]@.len() == 2 * src@.len(),
        ensures
            final(out)@.len() == src@.len(),
            forall|j: int|
                0 <= j < src@.len() ==> final(out)@[j] == wrap_i32(
                    src@[j] + p4_sum(rows_of_slices(a), b, j, 4),
                ),
    {
        p4dpwssd_slice_impl(self, src, a, b, out, false);
    }

    /// Saturating [`Avx512Vnni::p4dpwssd_i32_slice`].
    ///
    /// # Panics
    /// `out.len() != src.len()`, or any `a[n].len() != src.len() * 2`.
    pub fn p4dpwssds_i32_slice(self, src: &[i32], a: [&[i16]; 4], b: [i16; 8], out: &mut [i32])
        requires
            old(out)@.len() == src@.len(),
            forall|n: int| 0 <= n < 4 ==> a[n]@.len() == 2 * src@.len(),
        ensures
            final(out)@.len() == src@.len(),
            forall|j: int|
                0 <= j < src@.len() ==> final(out)@[j] == p4_sat_fold(
                    src@[j],
                    rows_of_slices(a),
                    b,
                    j,
                    4,
                ),
    {
        p4dpwssd_slice_impl(self, src, a, b, out, true);
    }
}

/// Slice driver shared by the wrapping and saturating `VP4DPWSSD` forms: 16 output lanes at
/// a time through the fixed-width op, then a scalar remainder.
fn p4dpwssd_slice_impl(
    t: Avx512Vnni,
    src: &[i32],
    a: [&[i16]; 4],
    b: [i16; 8],
    out: &mut [i32],
    saturating: bool,
)
    requires
        old(out)@.len() == src@.len(),
        forall|n: int| 0 <= n < 4 ==> a[n]@.len() == 2 * src@.len(),
    ensures
        final(out)@.len() == src@.len(),
        forall|j: int|
            0 <= j < src@.len() ==> final(out)@[j] == if saturating {
                p4_sat_fold(src@[j], rows_of_slices(a), b, j, 4)
            } else {
                wrap_i32(src@[j] + p4_sum(rows_of_slices(a), b, j, 4))
            },
{
    let len = src.len();
    let row_len = a[0].len();
    let ghost rows = rows_of_slices(a);
    let mut i: usize = 0;
    while len - i >= 16
        invariant
            i <= len,
            len == src@.len(),
            out@.len() == len,
            rows == rows_of_slices(a),
            row_len == 2 * len,
            forall|n: int| 0 <= n < 4 ==> a[n]@.len() == 2 * len,
            forall|j: int|
                0 <= j < i ==> out@[j] == if saturating {
                    p4_sat_fold(src@[j], rows, b, j, 4)
                } else {
                    wrap_i32(src@[j] + p4_sum(rows, b, j, 4))
                },
        decreases len - i,
    {
        let sv = loadu_i32x16(src, i);
        let av: [[i16; 32]; 4] = [
            loadu_i16x32(a[0], 2 * i),
            loadu_i16x32(a[1], 2 * i),
            loadu_i16x32(a[2], 2 * i),
            loadu_i16x32(a[3], 2 * i),
        ];
        let rv = if saturating {
            t.p4dpwssds_i32x16(sv, av, b)
        } else {
            t.p4dpwssd_i32x16(sv, av, b)
        };
        assert forall|k: int| 0 <= k < 16 implies rv[k] == if saturating {
            p4_sat_fold(src@[i + k], rows, b, i + k, 4)
        } else {
            wrap_i32(src@[i + k] + p4_sum(rows, b, i + k, 4))
        } by {
            assert forall|m: int| 0 <= m < 4 implies rows_of(av)[m][2 * k] == rows[m][2 * (i + k)]
                && rows_of(av)[m][2 * k + 1] == rows[m][2 * (i + k) + 1] by {
                assert(rows_of(av)[m] == av[m]@);
                assert(rows[m] == a[m]@);
                assert(2 * (i + k) == 2 * i + 2 * k);
            }
            lemma_p4_rows_agree(rows_of(av), rows, b, sv[k], k, i as int, 4);
        }
        storeu_i32x16(out, i, rv);
        i += 16;
    }
    while i < len
        invariant
            i <= len,
            len == src@.len(),
            out@.len() == len,
            rows == rows_of_slices(a),
            row_len == 2 * len,
            forall|n: int| 0 <= n < 4 ==> a[n]@.len() == 2 * len,
            forall|j: int|
                0 <= j < i ==> out@[j] == if saturating {
                    p4_sat_fold(src@[j], rows, b, j, 4)
                } else {
                    wrap_i32(src@[j] + p4_sum(rows, b, j, 4))
                },
        decreases len - i,
    {
        let mut acc = src[i];
        let mut n: usize = 0;
        while n < 4
            invariant
                i < len,
                len == src@.len(),
                n <= 4,
                rows == rows_of_slices(a),
                row_len == 2 * len,
                forall|m: int| 0 <= m < 4 ==> a[m]@.len() == 2 * len,
                acc == if saturating {
                    p4_sat_fold(src@[i as int], rows, b, i as int, n as int)
                } else {
                    wrap_i32(src@[i as int] + p4_sum(rows, b, i as int, n as int))
                },
            decreases 4 - n,
        {
            assert(rows[n as int] == a[n as int]@);
            let sum = pair_dot_exec(a[n][2 * i], a[n][2 * i + 1], b[2 * n], b[2 * n + 1]);
            proof {
                lemma_p4_sum_bound(rows, b, i as int, n as int);
                if !saturating {
                    lemma_wrap_step(src@[i as int] + p4_sum(rows, b, i as int, n as int), sum as int);
                }
            }
            acc = if saturating {
                vnni_acc_saturating(acc, sum)
            } else {
                vnni_acc_wrapping(acc, sum)
            };
            n += 1;
        }
        out[i] = acc;
        i += 1;
    }
}

impl Avx512Vnni {
    /// `dst[j] = src[j] + sum_k(a[4j+k] * b[4j+k])`, wrapping (`vpdpbusd`, 512-bit, `u8`x`i8`).
    pub fn dpbusd_i32x16(self, src: [i32; 16], a: [u8; 64], b: [i8; 64]) -> (r: [i32; 16])
        ensures
            forall|j: int| 0 <= j < 16 ==> r[j] == wrap_i32(src[j] + quad_dot(a@, b@, j)),
    {
        let a_s = a.as_slice();
        let b_s = b.as_slice();
        let mut out = [0i32; 16];
        let mut j: usize = 0;
        while j < 16
            invariant
                j <= 16,
                a_s@ == a@,
                b_s@ == b@,
                forall|k: int| 0 <= k < j ==> out[k] == wrap_i32(src[k] + quad_dot(a@, b@, k)),
            decreases 16 - j,
        {
            let sum = quad_dot_exec(a_s, b_s, j);
            out[j] = vnni_acc_wrapping(src[j], sum);
            j += 1;
        }
        out
    }

    /// `out[j] = src[j] + sum_k(a[4j+k] * b[4j+k])`, wrapping (`vpdpbusd`).
    /// `a` and `b` hold 4 elements per `src` lane.
    pub fn dpbusd_i32_slice(self, src: &[i32], a: &[u8], b: &[i8], out: &mut [i32])
        requires
            a@.len() == 4 * src@.len(),
            b@.len() == a@.len(),
            old(out)@.len() == src@.len(),
        ensures
            final(out)@.len() == src@.len(),
            forall|j: int| 0 <= j < src@.len() ==> final(out)@[j] == wrap_i32(src@[j] + quad_dot(a@, b@, j)),
    {
        let len = src.len();
        let alen = a.len();
        let mut j: usize = 0;
        while j < len
            invariant
                j <= len,
                len == src@.len(),
                alen == a@.len(),
                a@.len() == 4 * len,
                b@.len() == a@.len(),
                out@.len() == len,
                forall|k: int| 0 <= k < j ==> out@[k] == wrap_i32(src@[k] + quad_dot(a@, b@, k)),
            decreases len - j,
        {
            let sum = quad_dot_exec(a, b, j);
            out[j] = vnni_acc_wrapping(src[j], sum);
            j += 1;
        }
    }

    /// [`Avx512Vnni::dpbusd_i32x16`] where `mask` bit is set, else copied from `src`
    /// (`vpdpbusd`, merge-masked).
    pub fn dpbusd_i32x16_merge_masked(self, src: [i32; 16], mask: u16, a: [u8; 64], b: [i8; 64]) -> (r: [i32; 16])
        ensures
            forall|j: int|
                0 <= j < 16 ==> r[j] == if (mask >> j as u16) % 2 == 1 {
                    wrap_i32(src[j] + quad_dot(a@, b@, j))
                } else {
                    src[j]
                },
    {
        let full = self.dpbusd_i32x16(src, a, b);
        let mut out = src;
        let mut j: usize = 0;
        while j < 16
            invariant
                j <= 16,
                forall|k: int| 0 <= k < 16 ==> full[k] == wrap_i32(src[k] + quad_dot(a@, b@, k)),
                forall|k: int|
                    0 <= k < j ==> out[k] == if (mask >> k as u16) % 2 == 1 {
                        wrap_i32(src[k] + quad_dot(a@, b@, k))
                    } else {
                        src[k]
                    },
                forall|k: int| j <= k < 16 ==> out[k] == src[k],
            decreases 16 - j,
        {
            if (mask >> j as u16) % 2 == 1 {
                out[j] = full[j];
            }
            j += 1;
        }
        out
    }

    /// [`Avx512Vnni::dpbusd_i32x16`] where `mask` bit is set, else zero (`vpdpbusd`,
    /// zero-masked). `src` still feeds every lane's accumulate.
    pub fn dpbusd_i32x16_zero_masked(self, mask: u16, src: [i32; 16], a: [u8; 64], b: [i8; 64]) -> (r: [i32; 16])
        ensures
            forall|j: int|
                0 <= j < 16 ==> r[j] == if (mask >> j as u16) % 2 == 1 {
                    wrap_i32(src[j] + quad_dot(a@, b@, j))
                } else {
                    0
                },
    {
        let full = self.dpbusd_i32x16(src, a, b);
        let mut out = [0i32; 16];
        let mut j: usize = 0;
        while j < 16
            invariant
                j <= 16,
                forall|k: int| 0 <= k < 16 ==> full[k] == wrap_i32(src[k] + quad_dot(a@, b@, k)),
                forall|k: int|
                    0 <= k < j ==> out[k] == if (mask >> k as u16) % 2 == 1 {
                        wrap_i32(src[k] + quad_dot(a@, b@, k))
                    } else {
                        0
                    },
                forall|k: int| j <= k < 16 ==> out[k] == 0,
            decreases 16 - j,
        {
            if (mask >> j as u16) % 2 == 1 {
                out[j] = full[j];
            }
            j += 1;
        }
        out
    }

    /// `dst[j] = src[j] + sum_k(a[4j+k] * b[4j+k])`, saturating (`vpdpbusds`, 512-bit, `u8`x`i8`).
    pub fn dpbusds_i32x16(self, src: [i32; 16], a: [u8; 64], b: [i8; 64]) -> (r: [i32; 16])
        ensures
            forall|j: int| 0 <= j < 16 ==> r[j] == sat_i32(src[j] + quad_dot(a@, b@, j)),
    {
        let a_s = a.as_slice();
        let b_s = b.as_slice();
        let mut out = [0i32; 16];
        let mut j: usize = 0;
        while j < 16
            invariant
                j <= 16,
                a_s@ == a@,
                b_s@ == b@,
                forall|k: int| 0 <= k < j ==> out[k] == sat_i32(src[k] + quad_dot(a@, b@, k)),
            decreases 16 - j,
        {
            let sum = quad_dot_exec(a_s, b_s, j);
            out[j] = vnni_acc_saturating(src[j], sum);
            j += 1;
        }
        out
    }

    /// `out[j] = src[j] + sum_k(a[4j+k] * b[4j+k])`, saturating (`vpdpbusds`).
    /// `a` and `b` hold 4 elements per `src` lane.
    pub fn dpbusds_i32_slice(self, src: &[i32], a: &[u8], b: &[i8], out: &mut [i32])
        requires
            a@.len() == 4 * src@.len(),
            b@.len() == a@.len(),
            old(out)@.len() == src@.len(),
        ensures
            final(out)@.len() == src@.len(),
            forall|j: int| 0 <= j < src@.len() ==> final(out)@[j] == sat_i32(src@[j] + quad_dot(a@, b@, j)),
    {
        let len = src.len();
        let alen = a.len();
        let mut j: usize = 0;
        while j < len
            invariant
                j <= len,
                len == src@.len(),
                alen == a@.len(),
                a@.len() == 4 * len,
                b@.len() == a@.len(),
                out@.len() == len,
                forall|k: int| 0 <= k < j ==> out@[k] == sat_i32(src@[k] + quad_dot(a@, b@, k)),
            decreases len - j,
        {
            let sum = quad_dot_exec(a, b, j);
            out[j] = vnni_acc_saturating(src[j], sum);
            j += 1;
        }
    }

    /// [`Avx512Vnni::dpbusds_i32x16`] where `mask` bit is set, else copied from `src`
    /// (`vpdpbusds`, merge-masked).
    pub fn dpbusds_i32x16_merge_masked(self, src: [i32; 16], mask: u16, a: [u8; 64], b: [i8; 64]) -> (r: [i32; 16])
        ensures
            forall|j: int|
                0 <= j < 16 ==> r[j] == if (mask >> j as u16) % 2 == 1 {
                    sat_i32(src[j] + quad_dot(a@, b@, j))
                } else {
                    src[j]
                },
    {
        let full = self.dpbusds_i32x16(src, a, b);
        let mut out = src;
        let mut j: usize = 0;
        while j < 16
            invariant
                j <= 16,
                forall|k: int| 0 <= k < 16 ==> full[k] == sat_i32(src[k] + quad_dot(a@, b@, k)),
                forall|k: int|
                    0 <= k < j ==> out[k] == if (mask >> k as u16) % 2 == 1 {
                        sat_i32(src[k] + quad_dot(a@, b@, k))
                    } else {
                        src[k]
                    },
                forall|k: int| j <= k < 16 ==> out[k] == src[k],
            decreases 16 - j,
        {
            if (mask >> j as u16) % 2 == 1 {
                out[j] = full[j];
            }
            j += 1;
        }
        out
    }

    /// [`Avx512Vnni::dpbusds_i32x16`] where `mask` bit is set, else zero (`vpdpbusds`,
    /// zero-masked). `src` still feeds every lane's accumulate.
    pub fn dpbusds_i32x16_zero_masked(self, mask: u16, src: [i32; 16], a: [u8; 64], b: [i8; 64]) -> (r: [i32; 16])
        ensures
            forall|j: int|
                0 <= j < 16 ==> r[j] == if (mask >> j as u16) % 2 == 1 {
                    sat_i32(src[j] + quad_dot(a@, b@, j))
                } else {
                    0
                },
    {
        let full = self.dpbusds_i32x16(src, a, b);
        let mut out = [0i32; 16];
        let mut j: usize = 0;
        while j < 16
            invariant
                j <= 16,
                forall|k: int| 0 <= k < 16 ==> full[k] == sat_i32(src[k] + quad_dot(a@, b@, k)),
                forall|k: int|
                    0 <= k < j ==> out[k] == if (mask >> k as u16) % 2 == 1 {
                        sat_i32(src[k] + quad_dot(a@, b@, k))
                    } else {
                        0
                    },
                forall|k: int| j <= k < 16 ==> out[k] == 0,
            decreases 16 - j,
        {
            if (mask >> j as u16) % 2 == 1 {
                out[j] = full[j];
            }
            j += 1;
        }
        out
    }

    /// `out[j] = src[j] + sum_k(a[2j+k] * b[2j+k])`, wrapping (`vpdpwssd`).
    /// `a` and `b` hold 2 elements per `src` lane.
    pub fn dpwssd_i32_slice(self, src: &[i32], a: &[i16], b: &[i16], out: &mut [i32])
        requires
            a@.len() == 2 * src@.len(),
            b@.len() == a@.len(),
            old(out)@.len() == src@.len(),
        ensures
            final(out)@.len() == src@.len(),
            forall|j: int| 0 <= j < src@.len() ==> final(out)@[j] == wrap_i32(src@[j] + pair_dot(a@[2 * j], a@[2 * j + 1], b@[2 * j], b@[2 * j + 1])),
    {
        let len = src.len();
        let alen = a.len();
        let mut j: usize = 0;
        while j < len
            invariant
                j <= len,
                len == src@.len(),
                alen == a@.len(),
                a@.len() == 2 * len,
                b@.len() == a@.len(),
                out@.len() == len,
                forall|k: int| 0 <= k < j ==> out@[k] == wrap_i32(src@[k] + pair_dot(a@[2 * k], a@[2 * k + 1], b@[2 * k], b@[2 * k + 1])),
            decreases len - j,
        {
            let sum = pair_dot_exec(a[2 * j], a[2 * j + 1], b[2 * j], b[2 * j + 1]);
            out[j] = vnni_acc_wrapping(src[j], sum);
            j += 1;
        }
    }

    /// [`Avx512Vnni::dpwssd_i32x16`] where `mask` bit is set, else copied from `src`
    /// (`vpdpwssd`, merge-masked).
    pub fn dpwssd_i32x16_merge_masked(self, src: [i32; 16], mask: u16, a: [i16; 32], b: [i16; 32]) -> (r: [i32; 16])
        ensures
            forall|j: int|
                0 <= j < 16 ==> r[j] == if (mask >> j as u16) % 2 == 1 {
                    wrap_i32(src[j] + pair_dot(a[2 * j], a[2 * j + 1], b[2 * j], b[2 * j + 1]))
                } else {
                    src[j]
                },
    {
        let full = self.dpwssd_i32x16(src, a, b);
        let mut out = src;
        let mut j: usize = 0;
        while j < 16
            invariant
                j <= 16,
                forall|k: int| 0 <= k < 16 ==> full[k] == wrap_i32(src[k] + pair_dot(a[2 * k], a[2 * k + 1], b[2 * k], b[2 * k + 1])),
                forall|k: int|
                    0 <= k < j ==> out[k] == if (mask >> k as u16) % 2 == 1 {
                        wrap_i32(src[k] + pair_dot(a[2 * k], a[2 * k + 1], b[2 * k], b[2 * k + 1]))
                    } else {
                        src[k]
                    },
                forall|k: int| j <= k < 16 ==> out[k] == src[k],
            decreases 16 - j,
        {
            if (mask >> j as u16) % 2 == 1 {
                out[j] = full[j];
            }
            j += 1;
        }
        out
    }

    /// [`Avx512Vnni::dpwssd_i32x16`] where `mask` bit is set, else zero (`vpdpwssd`,
    /// zero-masked). `src` still feeds every lane's accumulate.
    pub fn dpwssd_i32x16_zero_masked(self, mask: u16, src: [i32; 16], a: [i16; 32], b: [i16; 32]) -> (r: [i32; 16])
        ensures
            forall|j: int|
                0 <= j < 16 ==> r[j] == if (mask >> j as u16) % 2 == 1 {
                    wrap_i32(src[j] + pair_dot(a[2 * j], a[2 * j + 1], b[2 * j], b[2 * j + 1]))
                } else {
                    0
                },
    {
        let full = self.dpwssd_i32x16(src, a, b);
        let mut out = [0i32; 16];
        let mut j: usize = 0;
        while j < 16
            invariant
                j <= 16,
                forall|k: int| 0 <= k < 16 ==> full[k] == wrap_i32(src[k] + pair_dot(a[2 * k], a[2 * k + 1], b[2 * k], b[2 * k + 1])),
                forall|k: int|
                    0 <= k < j ==> out[k] == if (mask >> k as u16) % 2 == 1 {
                        wrap_i32(src[k] + pair_dot(a[2 * k], a[2 * k + 1], b[2 * k], b[2 * k + 1]))
                    } else {
                        0
                    },
                forall|k: int| j <= k < 16 ==> out[k] == 0,
            decreases 16 - j,
        {
            if (mask >> j as u16) % 2 == 1 {
                out[j] = full[j];
            }
            j += 1;
        }
        out
    }

    /// `out[j] = src[j] + sum_k(a[2j+k] * b[2j+k])`, saturating (`vpdpwssds`).
    /// `a` and `b` hold 2 elements per `src` lane.
    pub fn dpwssds_i32_slice(self, src: &[i32], a: &[i16], b: &[i16], out: &mut [i32])
        requires
            a@.len() == 2 * src@.len(),
            b@.len() == a@.len(),
            old(out)@.len() == src@.len(),
        ensures
            final(out)@.len() == src@.len(),
            forall|j: int| 0 <= j < src@.len() ==> final(out)@[j] == sat_i32(src@[j] + pair_dot(a@[2 * j], a@[2 * j + 1], b@[2 * j], b@[2 * j + 1])),
    {
        let len = src.len();
        let alen = a.len();
        let mut j: usize = 0;
        while j < len
            invariant
                j <= len,
                len == src@.len(),
                alen == a@.len(),
                a@.len() == 2 * len,
                b@.len() == a@.len(),
                out@.len() == len,
                forall|k: int| 0 <= k < j ==> out@[k] == sat_i32(src@[k] + pair_dot(a@[2 * k], a@[2 * k + 1], b@[2 * k], b@[2 * k + 1])),
            decreases len - j,
        {
            let sum = pair_dot_exec(a[2 * j], a[2 * j + 1], b[2 * j], b[2 * j + 1]);
            out[j] = vnni_acc_saturating(src[j], sum);
            j += 1;
        }
    }

    /// [`Avx512Vnni::dpwssds_i32x16`] where `mask` bit is set, else copied from `src`
    /// (`vpdpwssds`, merge-masked).
    pub fn dpwssds_i32x16_merge_masked(self, src: [i32; 16], mask: u16, a: [i16; 32], b: [i16; 32]) -> (r: [i32; 16])
        ensures
            forall|j: int|
                0 <= j < 16 ==> r[j] == if (mask >> j as u16) % 2 == 1 {
                    sat_i32(src[j] + pair_dot(a[2 * j], a[2 * j + 1], b[2 * j], b[2 * j + 1]))
                } else {
                    src[j]
                },
    {
        let full = self.dpwssds_i32x16(src, a, b);
        let mut out = src;
        let mut j: usize = 0;
        while j < 16
            invariant
                j <= 16,
                forall|k: int| 0 <= k < 16 ==> full[k] == sat_i32(src[k] + pair_dot(a[2 * k], a[2 * k + 1], b[2 * k], b[2 * k + 1])),
                forall|k: int|
                    0 <= k < j ==> out[k] == if (mask >> k as u16) % 2 == 1 {
                        sat_i32(src[k] + pair_dot(a[2 * k], a[2 * k + 1], b[2 * k], b[2 * k + 1]))
                    } else {
                        src[k]
                    },
                forall|k: int| j <= k < 16 ==> out[k] == src[k],
            decreases 16 - j,
        {
            if (mask >> j as u16) % 2 == 1 {
                out[j] = full[j];
            }
            j += 1;
        }
        out
    }

    /// [`Avx512Vnni::dpwssds_i32x16`] where `mask` bit is set, else zero (`vpdpwssds`,
    /// zero-masked). `src` still feeds every lane's accumulate.
    pub fn dpwssds_i32x16_zero_masked(self, mask: u16, src: [i32; 16], a: [i16; 32], b: [i16; 32]) -> (r: [i32; 16])
        ensures
            forall|j: int|
                0 <= j < 16 ==> r[j] == if (mask >> j as u16) % 2 == 1 {
                    sat_i32(src[j] + pair_dot(a[2 * j], a[2 * j + 1], b[2 * j], b[2 * j + 1]))
                } else {
                    0
                },
    {
        let full = self.dpwssds_i32x16(src, a, b);
        let mut out = [0i32; 16];
        let mut j: usize = 0;
        while j < 16
            invariant
                j <= 16,
                forall|k: int| 0 <= k < 16 ==> full[k] == sat_i32(src[k] + pair_dot(a[2 * k], a[2 * k + 1], b[2 * k], b[2 * k + 1])),
                forall|k: int|
                    0 <= k < j ==> out[k] == if (mask >> k as u16) % 2 == 1 {
                        sat_i32(src[k] + pair_dot(a[2 * k], a[2 * k + 1], b[2 * k], b[2 * k + 1]))
                    } else {
                        0
                    },
                forall|k: int| j <= k < 16 ==> out[k] == 0,
            decreases 16 - j,
        {
            if (mask >> j as u16) % 2 == 1 {
                out[j] = full[j];
            }
            j += 1;
        }
        out
    }

}
} // verus!
