//! SHA-1/SHA-256-NI (`"sha"`): message schedule and round compress. Token: [`Sha`].
//!
//! Lane 0 of every `[u32; 4]` is bits `[31:0]` of the register. The specs follow the
//! instruction definitions: SHA-1 registers hold the earliest word in lane 3, SHA-256
//! message registers the earliest word in lane 0.

use vstd::prelude::*;

use super::super::super::{Feature, FeatureSet};

verus! {

/// `x` rotated left by `n` bits (`0 < n < 32`).
pub open spec fn rotl(x: u32, n: u32) -> u32 {
    (x << n) | (x >> (32 - n) as u32)
}

/// `x` rotated right by `n` bits (`0 < n < 32`).
pub open spec fn rotr(x: u32, n: u32) -> u32 {
    (x >> n) | (x << (32 - n) as u32)
}

/// The SHA-1 round function for rounds `0..20` (`func == 0`), `20..40` and `60..80`
/// (`func` 1 and 3, parity) and `40..60` (`func == 2`, majority).
pub open spec fn sha1_f(func: u32, b: u32, c: u32, d: u32) -> u32 {
    if func & 3 == 0 {
        (b & c) ^ (!b & d)
    } else if func & 3 == 2 {
        (b & c) ^ (b & d) ^ (c & d)
    } else {
        b ^ c ^ d
    }
}

/// The SHA-1 round constant for the group selected by `func`.
pub open spec fn sha1_k(func: u32) -> u32 {
    if func & 3 == 0 {
        0x5a82_7999
    } else if func & 3 == 1 {
        0x6ed9_eba1
    } else if func & 3 == 2 {
        0x8f1b_bcdc
    } else {
        0xca62_c1d6
    }
}

/// The SHA-1 working variables `(A, B, C, D, E)`.
pub type Sha1State = (u32, u32, u32, u32, u32);

/// One SHA-1 round with message word `w`.
pub open spec fn sha1_round(func: u32, s: Sha1State, w: u32) -> Sha1State {
    (
        sha1_f(func, s.1, s.2, s.3).wrapping_add(rotl(s.0, 5)).wrapping_add(w).wrapping_add(
            s.4,
        ).wrapping_add(sha1_k(func)),
        s.0,
        rotl(s.1, 30),
        s.2,
        s.3,
    )
}

/// Four SHA-1 rounds as `sha1rnds4` runs them: `A..D` from lanes 3..0 of `a`, `E = 0` (it is
/// folded into the first word beforehand), words from lanes 3..0 of `b`.
pub open spec fn sha1_rounds4(func: u32, a: Seq<u32>, b: Seq<u32>) -> Sha1State {
    let s0: Sha1State = (a[3], a[2], a[1], a[0], 0);
    let s1 = sha1_round(func, s0, b[3]);
    let s2 = sha1_round(func, s1, b[2]);
    let s3 = sha1_round(func, s2, b[1]);
    sha1_round(func, s3, b[0])
}

/// SHA-256 `Sigma0` (on `A`).
pub open spec fn big_sigma0(x: u32) -> u32 {
    rotr(x, 2) ^ rotr(x, 13) ^ rotr(x, 22)
}

/// SHA-256 `Sigma1` (on `E`).
pub open spec fn big_sigma1(x: u32) -> u32 {
    rotr(x, 6) ^ rotr(x, 11) ^ rotr(x, 25)
}

/// SHA-256 message-schedule `sigma0`.
pub open spec fn small_sigma0(x: u32) -> u32 {
    rotr(x, 7) ^ rotr(x, 18) ^ (x >> 3u32)
}

/// SHA-256 message-schedule `sigma1`.
pub open spec fn small_sigma1(x: u32) -> u32 {
    rotr(x, 17) ^ rotr(x, 19) ^ (x >> 10u32)
}

/// SHA-256 `Ch`.
pub open spec fn ch(e: u32, f: u32, g: u32) -> u32 {
    (e & f) ^ (!e & g)
}

/// SHA-256 `Maj`.
pub open spec fn maj(a: u32, b: u32, c: u32) -> u32 {
    (a & b) ^ (a & c) ^ (b & c)
}

/// The SHA-256 working variables `(A, B, C, D, E, F, G, H)`.
pub type Sha256State = (u32, u32, u32, u32, u32, u32, u32, u32);

/// One SHA-256 round with `wk = W[t] + K[t]`.
pub open spec fn sha256_round(s: Sha256State, wk: u32) -> Sha256State {
    let t1 = ch(s.4, s.5, s.6).wrapping_add(big_sigma1(s.4)).wrapping_add(wk).wrapping_add(s.7);
    (
        t1.wrapping_add(maj(s.0, s.1, s.2)).wrapping_add(big_sigma0(s.0)),
        s.0,
        s.1,
        s.2,
        t1.wrapping_add(s.3),
        s.4,
        s.5,
        s.6,
    )
}

/// Two SHA-256 rounds as `sha256rnds2` runs them: `a = [H, G, D, C]`, `b = [F, E, B, A]`,
/// and `W[t] + K[t]` for the two rounds in lanes 0 and 1 of `k`.
pub open spec fn sha256_rounds2(a: Seq<u32>, b: Seq<u32>, k: Seq<u32>) -> Sha256State {
    let s0: Sha256State = (b[3], b[2], a[3], a[2], b[1], b[0], a[1], a[0]);
    sha256_round(sha256_round(s0, k[0]), k[1])
}

/// `sha1msg1`: lane `i` of `[W3, W2, W1, W0]` XOR lane `i` of `[W5, W4, W3, W2]`, i.e.
/// `W[t-16] ^ W[t-14]` for the next four words `t`.
pub open spec fn sha1msg1_spec(a: Seq<u32>, b: Seq<u32>) -> Seq<u32> {
    seq![a[0] ^ b[2], a[1] ^ b[3], a[2] ^ a[0], a[3] ^ a[1]]
}

/// `sha1msg2`: XOR in `W[t-3]` (for the last word, the first new word) and rotate left by 1.
pub open spec fn sha1msg2_spec(a: Seq<u32>, b: Seq<u32>) -> Seq<u32> {
    let w16 = rotl(a[3] ^ b[2], 1);
    let w17 = rotl(a[2] ^ b[1], 1);
    let w18 = rotl(a[1] ^ b[0], 1);
    let w19 = rotl(a[0] ^ w16, 1);
    seq![w19, w18, w17, w16]
}

/// `sha256msg1`: `a[i] + sigma0(w[i+1])` over the five words `a[0..4], b[0]`.
pub open spec fn sha256msg1_spec(a: Seq<u32>, b: Seq<u32>) -> Seq<u32> {
    seq![
        a[0].wrapping_add(small_sigma0(a[1])),
        a[1].wrapping_add(small_sigma0(a[2])),
        a[2].wrapping_add(small_sigma0(a[3])),
        a[3].wrapping_add(small_sigma0(b[0])),
    ]
}

/// `sha256msg2`: add `sigma1` of the word two back, chaining through the new words.
pub open spec fn sha256msg2_spec(a: Seq<u32>, b: Seq<u32>) -> Seq<u32> {
    let w16 = a[0].wrapping_add(small_sigma1(b[2]));
    let w17 = a[1].wrapping_add(small_sigma1(b[3]));
    seq![w16, w17, a[2].wrapping_add(small_sigma1(w16)), a[3].wrapping_add(small_sigma1(w17))]
}

/// The next SHA-1 schedule word after `w`: `ROTL1(W[t-3] ^ W[t-8] ^ W[t-14] ^ W[t-16])`.
pub open spec fn sha1_schedule_next(w: Seq<u32>) -> u32 {
    let t = w.len() as int;
    rotl(w[t - 3] ^ w[t - 8] ^ w[t - 14] ^ w[t - 16], 1)
}

/// `w` extended by `n` words of the SHA-1 message expansion.
pub open spec fn sha1_schedule(w: Seq<u32>, n: nat) -> Seq<u32>
    decreases n,
{
    if n == 0 {
        w
    } else {
        let v = sha1_schedule(w, (n - 1) as nat);
        v.push(sha1_schedule_next(v))
    }
}

/// The next SHA-256 schedule word after `w`:
/// `sigma1(W[t-2]) + W[t-7] + sigma0(W[t-15]) + W[t-16]`.
pub open spec fn sha256_schedule_next(w: Seq<u32>) -> u32 {
    let t = w.len() as int;
    small_sigma1(w[t - 2]).wrapping_add(w[t - 7]).wrapping_add(small_sigma0(w[t - 15])).wrapping_add(
        w[t - 16],
    )
}

/// `w` extended by `n` words of the SHA-256 message expansion.
pub open spec fn sha256_schedule(w: Seq<u32>, n: nat) -> Seq<u32>
    decreases n,
{
    if n == 0 {
        w
    } else {
        let v = sha256_schedule(w, (n - 1) as nat);
        v.push(sha256_schedule_next(v))
    }
}

/// Schedule words `t..t+4` as a SHA-1 register (word `t` in lane 3).
pub open spec fn sha1_words(w: Seq<u32>, t: int) -> Seq<u32> {
    seq![w[t + 3], w[t + 2], w[t + 1], w[t]]
}

/// Schedule words `t..t+4` as a SHA-256 register (word `t` in lane 0).
pub open spec fn sha256_words(w: Seq<u32>, t: int) -> Seq<u32> {
    seq![w[t], w[t + 1], w[t + 2], w[t + 3]]
}

/// Lane-wise XOR of two registers (`pxor`).
pub open spec fn xor_lanes(a: Seq<u32>, b: Seq<u32>) -> Seq<u32> {
    seq![a[0] ^ b[0], a[1] ^ b[1], a[2] ^ b[2], a[3] ^ b[3]]
}

/// Lane-wise wrapping add of two registers (`paddd`).
pub open spec fn add_lanes(a: Seq<u32>, b: Seq<u32>) -> Seq<u32> {
    seq![
        a[0].wrapping_add(b[0]),
        a[1].wrapping_add(b[1]),
        a[2].wrapping_add(b[2]),
        a[3].wrapping_add(b[3]),
    ]
}

/// XOR of four words in either order.
proof fn lemma_xor4_reverse(a: u32, b: u32, c: u32, d: u32)
    by (bit_vector)
    ensures
        a ^ b ^ c ^ d == d ^ c ^ b ^ a,
{
}

/// Wrapping sum of four words in either order.
proof fn lemma_add4_reverse(a: u32, b: u32, c: u32, d: u32)
    ensures
        a.wrapping_add(b).wrapping_add(c).wrapping_add(d) == d.wrapping_add(c).wrapping_add(
            b,
        ).wrapping_add(a),
{
}

/// The SHA-1 message expansion with the schedule instructions: from the last sixteen words,
/// `sha1msg2(sha1msg1(W[t..t+4], W[t+4..t+8]) ^ W[t+8..t+12], W[t+12..t+16])` is the next
/// four words `ROTL1(W[i-3] ^ W[i-8] ^ W[i-14] ^ W[i-16])`.
pub proof fn lemma_sha1_schedule(w: Seq<u32>)
    requires
        w.len() >= 16,
    ensures
        ({
            let t = w.len() - 16;
            sha1msg2_spec(
                xor_lanes(sha1msg1_spec(sha1_words(w, t), sha1_words(w, t + 4)), sha1_words(w, t + 8)),
                sha1_words(w, t + 12),
            ) == sha1_words(sha1_schedule(w, 4), t + 16)
        }),
{
    let t = w.len() - 16;
    assert(sha1_schedule(w, 0) == w);
    let v1 = sha1_schedule(w, 1);
    let v2 = sha1_schedule(w, 2);
    let v3 = sha1_schedule(w, 3);
    let v4 = sha1_schedule(w, 4);
    assert(v1 == w.push(sha1_schedule_next(w)));
    assert(v2 == v1.push(sha1_schedule_next(v1)));
    assert(v3 == v2.push(sha1_schedule_next(v2)));
    assert(v4 == v3.push(sha1_schedule_next(v3)));
    lemma_xor4_reverse(w[t], w[t + 2], w[t + 8], w[t + 13]);
    lemma_xor4_reverse(w[t + 1], w[t + 3], w[t + 9], w[t + 14]);
    lemma_xor4_reverse(w[t + 2], w[t + 4], w[t + 10], w[t + 15]);
    lemma_xor4_reverse(w[t + 3], w[t + 5], w[t + 11], v1[t + 16]);
    let lhs = sha1msg2_spec(
        xor_lanes(sha1msg1_spec(sha1_words(w, t), sha1_words(w, t + 4)), sha1_words(w, t + 8)),
        sha1_words(w, t + 12),
    );
    assert(lhs =~= sha1_words(v4, t + 16));
}

/// The SHA-256 message expansion with the schedule instructions: from the last sixteen
/// words, `sha256msg2(sha256msg1(W[t..t+4], W[t+4..t+8]) + W[t+9..t+13], W[t+12..t+16])` is
/// the next four words `sigma1(W[i-2]) + W[i-7] + sigma0(W[i-15]) + W[i-16]`.
pub proof fn lemma_sha256_schedule(w: Seq<u32>)
    requires
        w.len() >= 16,
    ensures
        ({
            let t = w.len() - 16;
            sha256msg2_spec(
                add_lanes(
                    sha256msg1_spec(sha256_words(w, t), sha256_words(w, t + 4)),
                    sha256_words(w, t + 9),
                ),
                sha256_words(w, t + 12),
            ) == sha256_words(sha256_schedule(w, 4), t + 16)
        }),
{
    let t = w.len() - 16;
    assert(sha256_schedule(w, 0) == w);
    let v1 = sha256_schedule(w, 1);
    let v2 = sha256_schedule(w, 2);
    let v3 = sha256_schedule(w, 3);
    let v4 = sha256_schedule(w, 4);
    assert(v1 == w.push(sha256_schedule_next(w)));
    assert(v2 == v1.push(sha256_schedule_next(v1)));
    assert(v3 == v2.push(sha256_schedule_next(v2)));
    assert(v4 == v3.push(sha256_schedule_next(v3)));
    lemma_add4_reverse(w[t], small_sigma0(w[t + 1]), w[t + 9], small_sigma1(w[t + 14]));
    lemma_add4_reverse(w[t + 1], small_sigma0(w[t + 2]), w[t + 10], small_sigma1(w[t + 15]));
    lemma_add4_reverse(w[t + 2], small_sigma0(w[t + 3]), w[t + 11], small_sigma1(v1[t + 16]));
    lemma_add4_reverse(w[t + 3], small_sigma0(w[t + 4]), w[t + 12], small_sigma1(v2[t + 17]));
    let lhs = sha256msg2_spec(
        add_lanes(
            sha256msg1_spec(sha256_words(w, t), sha256_words(w, t + 4)),
            sha256_words(w, t + 9),
        ),
        sha256_words(w, t + 12),
    );
    assert(lhs =~= sha256_words(v4, t + 16));
}

fn rotl_exec(x: u32, n: u32) -> (r: u32)
    requires
        0 < n < 32,
    ensures
        r == rotl(x, n),
{
    (x << n) | (x >> (32 - n))
}

fn rotr_exec(x: u32, n: u32) -> (r: u32)
    requires
        0 < n < 32,
    ensures
        r == rotr(x, n),
{
    (x >> n) | (x << (32 - n))
}

fn sha1_round_exec(func: u32, s: (u32, u32, u32, u32, u32), w: u32) -> (r: (
    u32,
    u32,
    u32,
    u32,
    u32,
))
    ensures
        r == sha1_round(func, s, w),
{
    let (a, b, c, d, e) = s;
    let f = if func & 3 == 0 {
        (b & c) ^ (!b & d)
    } else if func & 3 == 2 {
        (b & c) ^ (b & d) ^ (c & d)
    } else {
        b ^ c ^ d
    };
    let k: u32 = if func & 3 == 0 {
        0x5a82_7999
    } else if func & 3 == 1 {
        0x6ed9_eba1
    } else if func & 3 == 2 {
        0x8f1b_bcdc
    } else {
        0xca62_c1d6
    };
    let t = f.wrapping_add(rotl_exec(a, 5)).wrapping_add(w).wrapping_add(e).wrapping_add(k);
    (t, a, rotl_exec(b, 30), c, d)
}

fn sha256_round_exec(s: (u32, u32, u32, u32, u32, u32, u32, u32), wk: u32) -> (r: (
    u32,
    u32,
    u32,
    u32,
    u32,
    u32,
    u32,
    u32,
))
    ensures
        r == sha256_round(s, wk),
{
    let (a, b, c, d, e, f, g, h) = s;
    let ch = (e & f) ^ (!e & g);
    let s1 = rotr_exec(e, 6) ^ rotr_exec(e, 11) ^ rotr_exec(e, 25);
    let t1 = ch.wrapping_add(s1).wrapping_add(wk).wrapping_add(h);
    let maj = (a & b) ^ (a & c) ^ (b & c);
    let s0 = rotr_exec(a, 2) ^ rotr_exec(a, 13) ^ rotr_exec(a, 22);
    (t1.wrapping_add(maj).wrapping_add(s0), a, b, c, t1.wrapping_add(d), e, f, g)
}

fn small_sigma0_exec(x: u32) -> (r: u32)
    ensures
        r == small_sigma0(x),
{
    rotr_exec(x, 7) ^ rotr_exec(x, 18) ^ (x >> 3)
}

fn small_sigma1_exec(x: u32) -> (r: u32)
    ensures
        r == small_sigma1(x),
{
    rotr_exec(x, 17) ^ rotr_exec(x, 19) ^ (x >> 10)
}

/// Proof token: SHA-1/SHA-256-NI available. Zero-sized, `Copy`.
#[derive(Debug, Clone, Copy)]
pub struct Sha(());

impl Sha {
    /// From a raw feature bitset (e.g. `x86::detect_features()`).
    pub fn from_features(set: FeatureSet) -> (r: Option<Self>)
        ensures
            r is Some <==> set@.contains(Feature::Sha),
    {
        if set.contains(Feature::Sha) {
            Some(Sha(()))
        } else {
            None
        }
    }

    /// SHA-1 message schedule step 1: four words of `W[i-16..i-13] XOR W[i-14..i-11]`
    /// (no rotate yet; see [`Sha::sha1msg2`]) (`sha1msg1`).
    pub fn sha1msg1(self, a: [u32; 4], b: [u32; 4]) -> (r: [u32; 4])
        ensures
            r@ == sha1msg1_spec(a@, b@),
    {
        let r = [a[0] ^ b[2], a[1] ^ b[3], a[2] ^ a[0], a[3] ^ a[1]];
        assert(r@ =~= sha1msg1_spec(a@, b@));
        r
    }

    /// SHA-1 message schedule step 2: XORs in `W[i-3..i]` and rotates left by 1, completing
    /// `W[i] = ROTL1(W[i-3]^W[i-8]^W[i-14]^W[i-16])` for 4 words (`sha1msg2`).
    pub fn sha1msg2(self, a: [u32; 4], b: [u32; 4]) -> (r: [u32; 4])
        ensures
            r@ == sha1msg2_spec(a@, b@),
    {
        let w16 = rotl_exec(a[3] ^ b[2], 1);
        let w17 = rotl_exec(a[2] ^ b[1], 1);
        let w18 = rotl_exec(a[1] ^ b[0], 1);
        let w19 = rotl_exec(a[0] ^ w16, 1);
        let r = [w19, w18, w17, w16];
        assert(r@ =~= sha1msg2_spec(a@, b@));
        r
    }

    /// Folds `E = ROTL30(A)` of the state four rounds back (lane 3 of `a`) into the first
    /// word of the next group (lane 3 of `b`), the value [`Sha::sha1rnds4`] needs but has no
    /// `E` input for (`sha1nexte`).
    pub fn sha1nexte(self, a: [u32; 4], b: [u32; 4]) -> (r: [u32; 4])
        ensures
            r[3] == b[3].wrapping_add(rotl(a[3], 30)),
            r[2] == b[2],
            r[1] == b[1],
            r[0] == b[0],
    {
        [b[0], b[1], b[2], b[3].wrapping_add(rotl_exec(a[3], 30))]
    }

    /// Four SHA-1 rounds. `FUNC & 3` selects the round function and constant: `0` = `Ch`
    /// (rounds 0-19), `1` = parity (20-39), `2` = `Maj` (40-59), `3` = parity (60-79)
    /// (`sha1rnds4`). `a` holds `[D, C, B, A]`, `b` the four words (first in lane 3, with `E`
    /// already added); the result is the new `[D, C, B, A]`.
    pub fn sha1rnds4<const FUNC: u32>(self, a: [u32; 4], b: [u32; 4]) -> (r: [u32; 4])
        ensures
            r[3] == sha1_rounds4(FUNC, a@, b@).0,
            r[2] == sha1_rounds4(FUNC, a@, b@).1,
            r[1] == sha1_rounds4(FUNC, a@, b@).2,
            r[0] == sha1_rounds4(FUNC, a@, b@).3,
    {
        let s0 = (a[3], a[2], a[1], a[0], 0u32);
        let s1 = sha1_round_exec(FUNC, s0, b[3]);
        let s2 = sha1_round_exec(FUNC, s1, b[2]);
        let s3 = sha1_round_exec(FUNC, s2, b[1]);
        let s4 = sha1_round_exec(FUNC, s3, b[0]);
        [s4.3, s4.2, s4.1, s4.0]
    }

    /// SHA-256 message schedule step 1: `r[i] = a[i] + sigma0(w[i+1])` over the five words
    /// `a[0..4], b[0]` (`sha256msg1`).
    pub fn sha256msg1(self, a: [u32; 4], b: [u32; 4]) -> (r: [u32; 4])
        ensures
            r@ == sha256msg1_spec(a@, b@),
    {
        let r = [
            a[0].wrapping_add(small_sigma0_exec(a[1])),
            a[1].wrapping_add(small_sigma0_exec(a[2])),
            a[2].wrapping_add(small_sigma0_exec(a[3])),
            a[3].wrapping_add(small_sigma0_exec(b[0])),
        ];
        assert(r@ =~= sha256msg1_spec(a@, b@));
        r
    }

    /// SHA-256 message schedule step 2: adds `sigma1` of the word two back into each lane,
    /// chaining through the two new words (`sha256msg2`).
    pub fn sha256msg2(self, a: [u32; 4], b: [u32; 4]) -> (r: [u32; 4])
        ensures
            r@ == sha256msg2_spec(a@, b@),
    {
        let w16 = a[0].wrapping_add(small_sigma1_exec(b[2]));
        let w17 = a[1].wrapping_add(small_sigma1_exec(b[3]));
        let w18 = a[2].wrapping_add(small_sigma1_exec(w16));
        let w19 = a[3].wrapping_add(small_sigma1_exec(w17));
        let r = [w16, w17, w18, w19];
        assert(r@ =~= sha256msg2_spec(a@, b@));
        r
    }

    /// Two SHA-256 rounds. `a`/`b` = `[H, G, D, C]`/`[F, E, B, A]`; `k`'s low 2 lanes hold
    /// `W[0]+K[0]`, `W[1]+K[1]` (top 2 unused). Returns the new `[F, E, B, A]` (the next
    /// call's `[H, G, D, C]` is the old `[F, E, B, A]`) (`sha256rnds2`).
    pub fn sha256rnds2(self, a: [u32; 4], b: [u32; 4], k: [u32; 4]) -> (r: [u32; 4])
        ensures
            r[3] == sha256_rounds2(a@, b@, k@).0,
            r[2] == sha256_rounds2(a@, b@, k@).1,
            r[1] == sha256_rounds2(a@, b@, k@).4,
            r[0] == sha256_rounds2(a@, b@, k@).5,
    {
        let s0 = (b[3], b[2], a[3], a[2], b[1], b[0], a[1], a[0]);
        let s2 = sha256_round_exec(sha256_round_exec(s0, k[0]), k[1]);
        [s2.5, s2.4, s2.1, s2.0]
    }
}

} // verus!
