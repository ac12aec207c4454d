//! AES-NI (Westmere, 2010): whole-block AES round ops. Token: [`Aes`].
//!
//! The 16-byte state is column-major as in FIPS-197: byte `4c + r` is row `r`, column `c`.
//! Every op is specified by the FIPS-197 transformations it composes.

use vstd::prelude::*;

use super::super::super::{Feature, FeatureSet};
use super::gfni::{
    gf2p8mul_byte, gf_inv, gf_inverse_search, gf_mul, lemma_gf_inv_involution,
    lemma_gf_mul_distributes,
};

verus! {

/// `b` rotated left by `k` bits (`0 < k < 8`).
pub open spec fn rotl8(b: u8, k: u8) -> u8 {
    (b << k) | (b >> (8 - k) as u8)
}

/// The affine map of the S-box (FIPS-197 5.1.1): each bit `i` becomes
/// `b[i] ^ b[i+4] ^ b[i+5] ^ b[i+6] ^ b[i+7] ^ c[i]` with `c = 0x63`.
pub open spec fn sbox_affine(b: u8) -> u8 {
    b ^ rotl8(b, 1) ^ rotl8(b, 2) ^ rotl8(b, 3) ^ rotl8(b, 4) ^ 0x63u8
}

/// The inverse of [`sbox_affine`] (FIPS-197 5.3.2).
pub open spec fn inv_sbox_affine(b: u8) -> u8 {
    rotl8(b, 1) ^ rotl8(b, 3) ^ rotl8(b, 6) ^ 0x05u8
}

/// The S-box: multiplicative inverse in GF(2^8) (`0 -> 0`), then the affine map.
pub open spec fn sbox(x: u8) -> u8 {
    sbox_affine(gf_inv(x))
}

/// The inverse S-box: inverse affine map, then multiplicative inverse.
pub open spec fn inv_sbox(x: u8) -> u8 {
    gf_inv(inv_sbox_affine(x))
}

/// `ShiftRows`: row `r` rotates left by `r` columns.
pub open spec fn shift_rows(s: Seq<u8>) -> Seq<u8> {
    Seq::new(16, |i: int| s[4 * ((i / 4 + i % 4) % 4) + i % 4])
}

/// `InvShiftRows`: row `r` rotates right by `r` columns.
pub open spec fn inv_shift_rows(s: Seq<u8>) -> Seq<u8> {
    Seq::new(16, |i: int| s[4 * ((i / 4 + 4 - i % 4) % 4) + i % 4])
}

/// `SubBytes`: the S-box on every byte.
pub open spec fn sub_bytes(s: Seq<u8>) -> Seq<u8> {
    Seq::new(16, |i: int| sbox(s[i]))
}

/// `InvSubBytes`: the inverse S-box on every byte.
pub open spec fn inv_sub_bytes(s: Seq<u8>) -> Seq<u8> {
    Seq::new(16, |i: int| inv_sbox(s[i]))
}

/// Row `r` of one column `c` after multiplying by the circulant with first row
/// `(m0, m1, m2, m3)`.
pub open spec fn column_mul(s: Seq<u8>, c: int, r: int, m0: u8, m1: u8, m2: u8, m3: u8) -> u8 {
    gf_mul(m0, s[4 * c + r]) ^ gf_mul(m1, s[4 * c + (r + 1) % 4]) ^ gf_mul(
        m2,
        s[4 * c + (r + 2) % 4],
    ) ^ gf_mul(m3, s[4 * c + (r + 3) % 4])
}

/// `MixColumns`: each column times the circulant `(02, 03, 01, 01)`.
pub open spec fn mix_columns(s: Seq<u8>) -> Seq<u8> {
    Seq::new(16, |i: int| column_mul(s, i / 4, i % 4, 2, 3, 1, 1))
}

/// `InvMixColumns`: each column times the circulant `(0e, 0b, 0d, 09)`.
pub open spec fn inv_mix_columns(s: Seq<u8>) -> Seq<u8> {
    Seq::new(16, |i: int| column_mul(s, i / 4, i % 4, 0x0e, 0x0b, 0x0d, 0x09))
}

/// `AddRoundKey`: bytewise XOR.
pub open spec fn add_round_key(s: Seq<u8>, k: Seq<u8>) -> Seq<u8> {
    Seq::new(16, |i: int| s[i] ^ k[i])
}

/// One `aeskeygenassist` output byte `i`: dwords 0 and 1 come from key dword 1, dwords 2 and
/// 3 from key dword 3; the even dword is `SubWord`, the odd one `RotWord(SubWord)` with the
/// round constant XORed into its low byte.
pub open spec fn keygen_byte(key: Seq<u8>, rcon: u8, i: int) -> u8 {
    let w: int = if i < 8 {
        4
    } else {
        12
    };
    let j: int = i % 4;
    if (i / 4) % 2 == 0 {
        sbox(key[w + j])
    } else {
        sbox(key[w + (j + 1) % 4]) ^ (if j == 0 {
            rcon
        } else {
            0u8
        })
    }
}

/// One full encryption round (`aesenc`): `ShiftRows`, `SubBytes`, `MixColumns`, then the
/// round key.
pub open spec fn enc_round(s: Seq<u8>, k: Seq<u8>) -> Seq<u8> {
    add_round_key(mix_columns(sub_bytes(shift_rows(s))), k)
}

/// The last encryption round (`aesenclast`): no `MixColumns`.
pub open spec fn enc_last_round(s: Seq<u8>, k: Seq<u8>) -> Seq<u8> {
    add_round_key(sub_bytes(shift_rows(s)), k)
}

/// One full decryption round (`aesdec`): `InvShiftRows`, `InvSubBytes`, `InvMixColumns`,
/// then the round key.
pub open spec fn dec_round(s: Seq<u8>, k: Seq<u8>) -> Seq<u8> {
    add_round_key(inv_mix_columns(inv_sub_bytes(inv_shift_rows(s))), k)
}

/// The last decryption round (`aesdeclast`): no `InvMixColumns`.
pub open spec fn dec_last_round(s: Seq<u8>, k: Seq<u8>) -> Seq<u8> {
    add_round_key(inv_sub_bytes(inv_shift_rows(s)), k)
}

/// The state after the initial key XOR and `i` full rounds with round keys `ks[1..=i]`.
pub open spec fn encrypt_rounds(p: Seq<u8>, ks: Seq<Seq<u8>>, i: nat) -> Seq<u8>
    decreases i,
{
    if i == 0 {
        add_round_key(p, ks[0])
    } else {
        enc_round(encrypt_rounds(p, ks, (i - 1) as nat), ks[i as int])
    }
}

/// An `nr`-round cipher on round keys `ks[0..=nr]`: initial key XOR, `nr - 1` full rounds,
/// the last round.
pub open spec fn encrypt(p: Seq<u8>, ks: Seq<Seq<u8>>, nr: nat) -> Seq<u8> {
    enc_last_round(encrypt_rounds(p, ks, (nr - 1) as nat), ks[nr as int])
}

/// The equivalent inverse cipher after `j` full rounds: key `ks[nr]` first, then full
/// decryption rounds with the `InvMixColumns` of `ks[nr - 1]`, `ks[nr - 2]`, ...
pub open spec fn decrypt_rounds(c: Seq<u8>, ks: Seq<Seq<u8>>, nr: nat, j: nat) -> Seq<u8>
    decreases j,
{
    if j == 0 {
        add_round_key(c, ks[nr as int])
    } else {
        dec_round(decrypt_rounds(c, ks, nr, (j - 1) as nat), inv_mix_columns(ks[nr - j]))
    }
}

/// The equivalent inverse cipher: `nr - 1` full decryption rounds, then the last with
/// `ks[0]`.
pub open spec fn decrypt(c: Seq<u8>, ks: Seq<Seq<u8>>, nr: nat) -> Seq<u8> {
    dec_last_round(decrypt_rounds(c, ks, nr, (nr - 1) as nat), ks[0])
}

/// The S-box affine map and its inverse undo each other.
proof fn lemma_affine_inverse(b: u8)
    by (bit_vector)
    ensures
        inv_sbox_affine(sbox_affine(b)) == b,
        sbox_affine(inv_sbox_affine(b)) == b,
{
}

/// The S-box and the inverse S-box undo each other on every byte.
pub proof fn lemma_sbox_inverse(x: u8)
    ensures
        inv_sbox(sbox(x)) == x,
        sbox(inv_sbox(x)) == x,
{
    lemma_affine_inverse(gf_inv(x));
    lemma_gf_inv_involution(x);
    lemma_affine_inverse(x);
    lemma_gf_inv_involution(inv_sbox_affine(x));
}

/// `InvShiftRows` and `ShiftRows` undo each other.
pub proof fn lemma_shift_rows_inverse(s: Seq<u8>)
    requires
        s.len() == 16,
    ensures
        inv_shift_rows(shift_rows(s)) == s,
        shift_rows(inv_shift_rows(s)) == s,
{
    assert forall|i: int| 0 <= i < 16 implies #[trigger] inv_shift_rows(shift_rows(s))[i] == s[i]
        && shift_rows(inv_shift_rows(s))[i] == s[i] by {
        lemma_small_index(i);
    }
    assert(inv_shift_rows(shift_rows(s)) =~= s);
    assert(shift_rows(inv_shift_rows(s)) =~= s);
}

/// A state index is one of the sixteen byte positions.
proof fn lemma_small_index(i: int)
    requires
        0 <= i < 16,
    ensures
        i == 0 || i == 1 || i == 2 || i == 3 || i == 4 || i == 5 || i == 6 || i == 7 || i == 8
            || i == 9 || i == 10 || i == 11 || i == 12 || i == 13 || i == 14 || i == 15,
{
}

/// `InvSubBytes` and `SubBytes` undo each other.
pub proof fn lemma_sub_bytes_inverse(s: Seq<u8>)
    requires
        s.len() == 16,
    ensures
        inv_sub_bytes(sub_bytes(s)) == s,
        sub_bytes(inv_sub_bytes(s)) == s,
{
    assert forall|i: int| 0 <= i < 16 implies #[trigger] inv_sub_bytes(sub_bytes(s))[i] == s[i]
        && sub_bytes(inv_sub_bytes(s))[i] == s[i] by {
        lemma_sbox_inverse(s[i]);
    }
    assert(inv_sub_bytes(sub_bytes(s)) =~= s);
    assert(sub_bytes(inv_sub_bytes(s)) =~= s);
}

/// The byte substitution commutes with the row rotation.
pub proof fn lemma_sub_bytes_commutes(s: Seq<u8>)
    requires
        s.len() == 16,
    ensures
        inv_shift_rows(sub_bytes(s)) == sub_bytes(inv_shift_rows(s)),
        shift_rows(sub_bytes(s)) == sub_bytes(shift_rows(s)),
{
    assert(inv_shift_rows(sub_bytes(s)) =~= sub_bytes(inv_shift_rows(s)));
    assert(shift_rows(sub_bytes(s)) =~= sub_bytes(shift_rows(s)));
}

/// The last decryption round inverts the last encryption round: `InvSubBytes` after
/// `InvShiftRows` recovers the state given to `SubBytes` after `ShiftRows`.
pub proof fn lemma_last_round_inverse(s: Seq<u8>)
    requires
        s.len() == 16,
    ensures
        inv_sub_bytes(inv_shift_rows(sub_bytes(shift_rows(s)))) == s,
{
    let t = shift_rows(s);
    lemma_sub_bytes_commutes(t);
    lemma_sub_bytes_inverse(inv_shift_rows(t));
    lemma_shift_rows_inverse(s);
}

/// The coefficient identities behind `InvMixColumns * MixColumns` and `MixColumns *
/// InvMixColumns`, on one byte `v`: the four products landing on the diagonal give `v`,
/// those landing off it cancel.
proof fn lemma_circulant_coefficients(v: u8)
    by (bit_vector)
    ensures
        gf_mul(0x0e, gf_mul(2, v)) ^ gf_mul(0x0b, gf_mul(1, v)) ^ gf_mul(0x0d, gf_mul(1, v))
            ^ gf_mul(0x09, gf_mul(3, v)) == v,
        gf_mul(0x0e, gf_mul(3, v)) ^ gf_mul(0x0b, gf_mul(2, v)) ^ gf_mul(0x0d, gf_mul(1, v))
            ^ gf_mul(0x09, gf_mul(1, v)) == 0u8,
        gf_mul(0x0e, gf_mul(1, v)) ^ gf_mul(0x0b, gf_mul(3, v)) ^ gf_mul(0x0d, gf_mul(2, v))
            ^ gf_mul(0x09, gf_mul(1, v)) == 0u8,
        gf_mul(0x0e, gf_mul(1, v)) ^ gf_mul(0x0b, gf_mul(1, v)) ^ gf_mul(0x0d, gf_mul(3, v))
            ^ gf_mul(0x09, gf_mul(2, v)) == 0u8,
        gf_mul(2, gf_mul(0x0e, v)) ^ gf_mul(3, gf_mul(0x09, v)) ^ gf_mul(1, gf_mul(0x0d, v))
            ^ gf_mul(1, gf_mul(0x0b, v)) == v,
        gf_mul(2, gf_mul(0x0b, v)) ^ gf_mul(3, gf_mul(0x0e, v)) ^ gf_mul(1, gf_mul(0x09, v))
            ^ gf_mul(1, gf_mul(0x0d, v)) == 0u8,
        gf_mul(2, gf_mul(0x0d, v)) ^ gf_mul(3, gf_mul(0x0b, v)) ^ gf_mul(1, gf_mul(0x0e, v))
            ^ gf_mul(1, gf_mul(0x09, v)) == 0u8,
        gf_mul(2, gf_mul(0x09, v)) ^ gf_mul(3, gf_mul(0x0d, v)) ^ gf_mul(1, gf_mul(0x0b, v))
            ^ gf_mul(1, gf_mul(0x0e, v)) == 0u8,
{
}

/// Regrouping a 4x4 XOR sum by anti-diagonals (`k + l` modulo 4).
proof fn lemma_xor_regroup(
    p00: u8,
    p01: u8,
    p02: u8,
    p03: u8,
    p10: u8,
    p11: u8,
    p12: u8,
    p13: u8,
    p20: u8,
    p21: u8,
    p22: u8,
    p23: u8,
    p30: u8,
    p31: u8,
    p32: u8,
    p33: u8,
    x: u8,
)
    by (bit_vector)
    ensures
        (p00 ^ p01 ^ p02 ^ p03) ^ (p10 ^ p11 ^ p12 ^ p13) ^ (p20 ^ p21 ^ p22 ^ p23) ^ (p30 ^ p31
            ^ p32 ^ p33) == (p00 ^ p13 ^ p22 ^ p31) ^ (p01 ^ p10 ^ p23 ^ p32) ^ (p02 ^ p11 ^ p20
            ^ p33) ^ (p03 ^ p12 ^ p21 ^ p30),
        x ^ 0u8 ^ 0u8 ^ 0u8 == x,
        (p00 ^ p10) ^ (p01 ^ p11) ^ (p02 ^ p12) ^ (p03 ^ p13) == (p00 ^ p01 ^ p02 ^ p03) ^ (p10
            ^ p11 ^ p12 ^ p13),
        x ^ p00 ^ p00 == x,
{
}

/// `gf_mul(k, _)` distributes over a four-term XOR.
proof fn lemma_distribute4(k: u8, a: u8, b: u8, c: u8, d: u8)
    ensures
        gf_mul(k, a ^ b ^ c ^ d) == gf_mul(k, a) ^ gf_mul(k, b) ^ gf_mul(k, c) ^ gf_mul(k, d),
{
    lemma_gf_mul_distributes(k, a ^ b ^ c, d);
    lemma_gf_mul_distributes(k, a ^ b, c);
    lemma_gf_mul_distributes(k, a, b);
}

/// A row index is one of the four rows.
proof fn lemma_small_row(r: int)
    requires
        0 <= r < 4,
    ensures
        r == 0 || r == 1 || r == 2 || r == 3,
{
}

/// One byte of `InvMixColumns(MixColumns(s))` and of `MixColumns(InvMixColumns(s))`.
#[verifier::rlimit(50)]
proof fn lemma_column_inverse(s: Seq<u8>, c: int, r: int)
    requires
        s.len() == 16,
        0 <= c < 4,
        0 <= r < 4,
    ensures
        inv_mix_columns(mix_columns(s))[4 * c + r] == s[4 * c + r],
        mix_columns(inv_mix_columns(s))[4 * c + r] == s[4 * c + r],
{
    lemma_small_row(r);
    let s0 = s[4 * c + r];
    let s1 = s[4 * c + (r + 1) % 4];
    let s2 = s[4 * c + (r + 2) % 4];
    let s3 = s[4 * c + (r + 3) % 4];
    let m = mix_columns(s);
    let n = inv_mix_columns(s);
    assert(m[4 * c + r] == gf_mul(2, s0) ^ gf_mul(3, s1) ^ gf_mul(1, s2) ^ gf_mul(1, s3));
    assert(m[4 * c + (r + 1) % 4] == gf_mul(2, s1) ^ gf_mul(3, s2) ^ gf_mul(1, s3) ^ gf_mul(
        1,
        s0,
    ));
    assert(m[4 * c + (r + 2) % 4] == gf_mul(2, s2) ^ gf_mul(3, s3) ^ gf_mul(1, s0) ^ gf_mul(
        1,
        s1,
    ));
    assert(m[4 * c + (r + 3) % 4] == gf_mul(2, s3) ^ gf_mul(3, s0) ^ gf_mul(1, s1) ^ gf_mul(
        1,
        s2,
    ));
    assert(n[4 * c + r] == gf_mul(0x0e, s0) ^ gf_mul(0x0b, s1) ^ gf_mul(0x0d, s2) ^ gf_mul(
        0x09,
        s3,
    ));
    assert(n[4 * c + (r + 1) % 4] == gf_mul(0x0e, s1) ^ gf_mul(0x0b, s2) ^ gf_mul(0x0d, s3)
        ^ gf_mul(0x09, s0));
    assert(n[4 * c + (r + 2) % 4] == gf_mul(0x0e, s2) ^ gf_mul(0x0b, s3) ^ gf_mul(0x0d, s0)
        ^ gf_mul(0x09, s1));
    assert(n[4 * c + (r + 3) % 4] == gf_mul(0x0e, s3) ^ gf_mul(0x0b, s0) ^ gf_mul(0x0d, s1)
        ^ gf_mul(0x09, s2));
    lemma_distribute4(0x0e, gf_mul(2, s0), gf_mul(3, s1), gf_mul(1, s2), gf_mul(1, s3));
    lemma_distribute4(0x0b, gf_mul(2, s1), gf_mul(3, s2), gf_mul(1, s3), gf_mul(1, s0));
    lemma_distribute4(0x0d, gf_mul(2, s2), gf_mul(3, s3), gf_mul(1, s0), gf_mul(1, s1));
    lemma_distribute4(0x09, gf_mul(2, s3), gf_mul(3, s0), gf_mul(1, s1), gf_mul(1, s2));
    lemma_distribute4(2, gf_mul(0x0e, s0), gf_mul(0x0b, s1), gf_mul(0x0d, s2), gf_mul(0x09, s3));
    lemma_distribute4(3, gf_mul(0x0e, s1), gf_mul(0x0b, s2), gf_mul(0x0d, s3), gf_mul(0x09, s0));
    lemma_distribute4(1, gf_mul(0x0e, s2), gf_mul(0x0b, s3), gf_mul(0x0d, s0), gf_mul(0x09, s1));
    lemma_distribute4(1, gf_mul(0x0e, s3), gf_mul(0x0b, s0), gf_mul(0x0d, s1), gf_mul(0x09, s2));
    lemma_circulant_coefficients(s0);
    lemma_circulant_coefficients(s1);
    lemma_circulant_coefficients(s2);
    lemma_circulant_coefficients(s3);
    lemma_xor_regroup(
        gf_mul(0x0e, gf_mul(2, s0)),
        gf_mul(0x0e, gf_mul(3, s1)),
        gf_mul(0x0e, gf_mul(1, s2)),
        gf_mul(0x0e, gf_mul(1, s3)),
        gf_mul(0x0b, gf_mul(2, s1)),
        gf_mul(0x0b, gf_mul(3, s2)),
        gf_mul(0x0b, gf_mul(1, s3)),
        gf_mul(0x0b, gf_mul(1, s0)),
        gf_mul(0x0d, gf_mul(2, s2)),
        gf_mul(0x0d, gf_mul(3, s3)),
        gf_mul(0x0d, gf_mul(1, s0)),
        gf_mul(0x0d, gf_mul(1, s1)),
        gf_mul(0x09, gf_mul(2, s3)),
        gf_mul(0x09, gf_mul(3, s0)),
        gf_mul(0x09, gf_mul(1, s1)),
        gf_mul(0x09, gf_mul(1, s2)),
        s0,
    );
    lemma_xor_regroup(
        gf_mul(2, gf_mul(0x0e, s0)),
        gf_mul(2, gf_mul(0x0b, s1)),
        gf_mul(2, gf_mul(0x0d, s2)),
        gf_mul(2, gf_mul(0x09, s3)),
        gf_mul(3, gf_mul(0x0e, s1)),
        gf_mul(3, gf_mul(0x0b, s2)),
        gf_mul(3, gf_mul(0x0d, s3)),
        gf_mul(3, gf_mul(0x09, s0)),
        gf_mul(1, gf_mul(0x0e, s2)),
        gf_mul(1, gf_mul(0x0b, s3)),
        gf_mul(1, gf_mul(0x0d, s0)),
        gf_mul(1, gf_mul(0x09, s1)),
        gf_mul(1, gf_mul(0x0e, s3)),
        gf_mul(1, gf_mul(0x0b, s0)),
        gf_mul(1, gf_mul(0x0d, s1)),
        gf_mul(1, gf_mul(0x09, s2)),
        s0,
    );
}

/// `InvMixColumns` and `MixColumns` undo each other.
pub proof fn lemma_mix_columns_inverse(s: Seq<u8>)
    requires
        s.len() == 16,
    ensures
        inv_mix_columns(mix_columns(s)) == s,
        mix_columns(inv_mix_columns(s)) == s,
{
    assert forall|i: int| 0 <= i < 16 implies #[trigger] inv_mix_columns(mix_columns(s))[i]
        == s[i] && mix_columns(inv_mix_columns(s))[i] == s[i] by {
        lemma_small_index(i);
        lemma_column_inverse(s, i / 4, i % 4);
    }
    assert(inv_mix_columns(mix_columns(s)) =~= s);
    assert(mix_columns(inv_mix_columns(s)) =~= s);
}

/// XORing the same round key twice gives back the state.
pub proof fn lemma_add_round_key_twice(s: Seq<u8>, k: Seq<u8>)
    requires
        s.len() == 16,
    ensures
        add_round_key(add_round_key(s, k), k) == s,
{
    assert forall|i: int| 0 <= i < 16 implies #[trigger] add_round_key(add_round_key(s, k), k)[i]
        == s[i] by {
        lemma_xor_regroup(k[i], 0, 0, 0, 0, 0, 0, 0, 0, 0, 0, 0, 0, 0, 0, 0, s[i]);
    }
    assert(add_round_key(add_round_key(s, k), k) =~= s);
}

/// `InvMixColumns` is linear: it commutes with XORing a round key, which then goes through
/// `InvMixColumns` itself. This is what lets `aesdec` take `aesimc` round keys.
pub proof fn lemma_inv_mix_columns_xor(s: Seq<u8>, k: Seq<u8>)
    requires
        s.len() == 16,
        k.len() == 16,
    ensures
        inv_mix_columns(add_round_key(s, k)) == add_round_key(inv_mix_columns(s), inv_mix_columns(k)),
{
    let x = add_round_key(s, k);
    assert forall|i: int| 0 <= i < 16 implies #[trigger] inv_mix_columns(x)[i] == add_round_key(
        inv_mix_columns(s),
        inv_mix_columns(k),
    )[i] by {
        lemma_small_index(i);
        let c = i / 4;
        let r = i % 4;
        lemma_small_row(r);
        let a0 = 4 * c + r;
        let a1 = 4 * c + (r + 1) % 4;
        let a2 = 4 * c + (r + 2) % 4;
        let a3 = 4 * c + (r + 3) % 4;
        lemma_gf_mul_distributes(0x0e, s[a0], k[a0]);
        lemma_gf_mul_distributes(0x0b, s[a1], k[a1]);
        lemma_gf_mul_distributes(0x0d, s[a2], k[a2]);
        lemma_gf_mul_distributes(0x09, s[a3], k[a3]);
        lemma_xor_regroup(
            gf_mul(0x0e, s[a0]),
            gf_mul(0x0b, s[a1]),
            gf_mul(0x0d, s[a2]),
            gf_mul(0x09, s[a3]),
            gf_mul(0x0e, k[a0]),
            gf_mul(0x0b, k[a1]),
            gf_mul(0x0d, k[a2]),
            gf_mul(0x09, k[a3]),
            0,
            0,
            0,
            0,
            0,
            0,
            0,
            0,
            0,
        );
    }
    assert(inv_mix_columns(x) =~= add_round_key(inv_mix_columns(s), inv_mix_columns(k)));
}

/// The decryption states mirror the encryption states: after `j` full decryption rounds
/// the state is `SubBytes(ShiftRows(_))` of the encryption state `nr - 1 - j` rounds in.
proof fn lemma_decrypt_rounds(p: Seq<u8>, ks: Seq<Seq<u8>>, nr: nat, j: nat)
    requires
        p.len() == 16,
        nr >= 1,
        j <= nr - 1,
        ks.len() == nr + 1,
        forall|i: int| 0 <= i < ks.len() ==> (#[trigger] ks[i]).len() == 16,
    ensures
        decrypt_rounds(encrypt(p, ks, nr), ks, nr, j) == sub_bytes(
            shift_rows(encrypt_rounds(p, ks, (nr - 1 - j) as nat)),
        ),
    decreases j,
{
    let c = encrypt(p, ks, nr);
    if j == 0 {
        lemma_add_round_key_twice(
            sub_bytes(shift_rows(encrypt_rounds(p, ks, (nr - 1) as nat))),
            ks[nr as int],
        );
    } else {
        lemma_decrypt_rounds(p, ks, nr, (j - 1) as nat);
        let e = encrypt_rounds(p, ks, (nr - j) as nat);
        let e_prev = encrypt_rounds(p, ks, (nr - 1 - j) as nat);
        let k = ks[nr - j];
        assert(decrypt_rounds(c, ks, nr, (j - 1) as nat) == sub_bytes(shift_rows(e)));
        lemma_last_round_inverse(e);
        lemma_inv_mix_columns_xor(e, k);
        assert(e == enc_round(e_prev, k));
        lemma_add_round_key_twice(mix_columns(sub_bytes(shift_rows(e_prev))), k);
        lemma_mix_columns_inverse(sub_bytes(shift_rows(e_prev)));
    }
}

/// Decrypting with the equivalent inverse cipher (`aesdec` with `aesimc` round keys, then
/// `aesdeclast`) gives back what `aesenc` rounds and `aesenclast` encrypted, for any
/// number of rounds and any round keys.
pub proof fn lemma_decrypt_encrypt(p: Seq<u8>, ks: Seq<Seq<u8>>, nr: nat)
    requires
        p.len() == 16,
        nr >= 1,
        ks.len() == nr + 1,
        forall|i: int| 0 <= i < ks.len() ==> (#[trigger] ks[i]).len() == 16,
    ensures
        decrypt(encrypt(p, ks, nr), ks, nr) == p,
{
    lemma_decrypt_rounds(p, ks, nr, (nr - 1) as nat);
    let e0 = encrypt_rounds(p, ks, 0);
    lemma_last_round_inverse(e0);
    lemma_add_round_key_twice(p, ks[0]);
}

/// `b` rotated left by `k` bits.
fn rotl8_exec(b: u8, k: u8) -> (r: u8)
    requires
        0 < k < 8,
    ensures
        r == rotl8(b, k),
{
    (b << k) | (b >> (8 - k))
}

/// The S-box of one byte.
fn sbox_byte(x: u8) -> (r: u8)
    ensures
        r == sbox(x),
{
    let v = gf_inverse_search(x);
    v ^ rotl8_exec(v, 1) ^ rotl8_exec(v, 2) ^ rotl8_exec(v, 3) ^ rotl8_exec(v, 4) ^ 0x63
}

/// The inverse S-box of one byte.
fn inv_sbox_byte(x: u8) -> (r: u8)
    ensures
        r == inv_sbox(x),
{
    let v = rotl8_exec(x, 1) ^ rotl8_exec(x, 3) ^ rotl8_exec(x, 6) ^ 0x05;
    gf_inverse_search(v)
}

fn shift_rows_exec(s: [u8; 16]) -> (r: [u8; 16])
    ensures
        r@ == shift_rows(s@),
{
    let mut r = [0u8; 16];
    let mut i: usize = 0;
    while i < 16
        invariant
            i <= 16,
            forall|j: int| 0 <= j < i ==> r[j] == s[4 * ((j / 4 + j % 4) % 4) + j % 4],
        decreases 16 - i,
    {
        r[i] = s[4 * ((i / 4 + i % 4) % 4) + i % 4];
        i += 1;
    }
    assert(r@ =~= shift_rows(s@));
    r
}

fn inv_shift_rows_exec(s: [u8; 16]) -> (r: [u8; 16])
    ensures
        r@ == inv_shift_rows(s@),
{
    let mut r = [0u8; 16];
    let mut i: usize = 0;
    while i < 16
        invariant
            i <= 16,
            forall|j: int| 0 <= j < i ==> r[j] == s[4 * ((j / 4 + 4 - j % 4) % 4) + j % 4],
        decreases 16 - i,
    {
        r[i] = s[4 * ((i / 4 + 4 - i % 4) % 4) + i % 4];
        i += 1;
    }
    assert(r@ =~= inv_shift_rows(s@));
    r
}

fn sub_bytes_exec(s: [u8; 16]) -> (r: [u8; 16])
    ensures
        r@ == sub_bytes(s@),
{
    let mut r = [0u8; 16];
    let mut i: usize = 0;
    while i < 16
        invariant
            i <= 16,
            forall|j: int| 0 <= j < i ==> r[j] == sbox(s[j]),
        decreases 16 - i,
    {
        r[i] = sbox_byte(s[i]);
        i += 1;
    }
    assert(r@ =~= sub_bytes(s@));
    r
}

fn inv_sub_bytes_exec(s: [u8; 16]) -> (r: [u8; 16])
    ensures
        r@ == inv_sub_bytes(s@),
{
    let mut r = [0u8; 16];
    let mut i: usize = 0;
    while i < 16
        invariant
            i <= 16,
            forall|j: int| 0 <= j < i ==> r[j] == inv_sbox(s[j]),
        decreases 16 - i,
    {
        r[i] = inv_sbox_byte(s[i]);
        i += 1;
    }
    assert(r@ =~= inv_sub_bytes(s@));
    r
}

/// Every column times the circulant with first row `(m0, m1, m2, m3)`.
fn columns_mul_exec(s: [u8; 16], m0: u8, m1: u8, m2: u8, m3: u8) -> (r: [u8; 16])
    ensures
        forall|i: int| 0 <= i < 16 ==> r[i] == column_mul(s@, i / 4, i % 4, m0, m1, m2, m3),
{
    let mut r = [0u8; 16];
    let mut i: usize = 0;
    while i < 16
        invariant
            i <= 16,
            forall|j: int| 0 <= j < i ==> r[j] == column_mul(s@, j / 4, j % 4, m0, m1, m2, m3),
        decreases 16 - i,
    {
        let c = i / 4;
        let row = i % 4;
        let v = gf2p8mul_byte(m0, s[4 * c + row]) ^ gf2p8mul_byte(m1, s[4 * c + (row + 1) % 4])
            ^ gf2p8mul_byte(m2, s[4 * c + (row + 2) % 4]) ^ gf2p8mul_byte(
            m3,
            s[4 * c + (row + 3) % 4],
        );
        r[i] = v;
        i += 1;
    }
    r
}

fn mix_columns_exec(s: [u8; 16]) -> (r: [u8; 16])
    ensures
        r@ == mix_columns(s@),
{
    let r = columns_mul_exec(s, 2, 3, 1, 1);
    assert(r@ =~= mix_columns(s@));
    r
}

fn inv_mix_columns_exec(s: [u8; 16]) -> (r: [u8; 16])
    ensures
        r@ == inv_mix_columns(s@),
{
    let r = columns_mul_exec(s, 0x0e, 0x0b, 0x0d, 0x09);
    assert(r@ =~= inv_mix_columns(s@));
    r
}

fn add_round_key_exec(s: [u8; 16], k: [u8; 16]) -> (r: [u8; 16])
    ensures
        r@ == add_round_key(s@, k@),
{
    let mut r = [0u8; 16];
    let mut i: usize = 0;
    while i < 16
        invariant
            i <= 16,
            forall|j: int| 0 <= j < i ==> r[j] == s[j] ^ k[j],
        decreases 16 - i,
    {
        r[i] = s[i] ^ k[i];
        i += 1;
    }
    assert(r@ =~= add_round_key(s@, k@));
    r
}

/// One full encryption round on a 16-byte block.
pub(crate) fn aesenc_block(state: [u8; 16], round_key: [u8; 16]) -> (r: [u8; 16])
    ensures
        r@ == enc_round(state@, round_key@),
{
    let t = mix_columns_exec(sub_bytes_exec(shift_rows_exec(state)));
    add_round_key_exec(t, round_key)
}

/// The last encryption round on a 16-byte block.
pub(crate) fn aesenclast_block(state: [u8; 16], round_key: [u8; 16]) -> (r: [u8; 16])
    ensures
        r@ == enc_last_round(state@, round_key@),
{
    let t = sub_bytes_exec(shift_rows_exec(state));
    add_round_key_exec(t, round_key)
}

/// One full decryption round on a 16-byte block.
pub(crate) fn aesdec_block(state: [u8; 16], round_key: [u8; 16]) -> (r: [u8; 16])
    ensures
        r@ == dec_round(state@, round_key@),
{
    let t = inv_mix_columns_exec(inv_sub_bytes_exec(inv_shift_rows_exec(state)));
    add_round_key_exec(t, round_key)
}

/// The last decryption round on a 16-byte block.
pub(crate) fn aesdeclast_block(state: [u8; 16], round_key: [u8; 16]) -> (r: [u8; 16])
    ensures
        r@ == dec_last_round(state@, round_key@),
{
    let t = inv_sub_bytes_exec(inv_shift_rows_exec(state));
    add_round_key_exec(t, round_key)
}

/// Proof token: AES-NI available. Zero-sized, `Copy`.
#[derive(Debug, Clone, Copy)]
pub struct Aes(());

impl Aes {
    /// From a raw feature bitset (e.g. `x86::detect_features()`).
    pub fn from_features(set: FeatureSet) -> (r: Option<Self>)
        ensures
            r is Some <==> set@.contains(Feature::Aes),
    {
        if set.contains(Feature::Aes) {
            Some(Aes(()))
        } else {
            None
        }
    }

    /// One AES encrypt round: `ShiftRows -> SubBytes -> MixColumns -> XOR round_key`
    /// (`aesenc`).
    pub fn aesenc(self, state: [u8; 16], round_key: [u8; 16]) -> (r: [u8; 16])
        ensures
            r@ == enc_round(state@, round_key@),
    {
        aesenc_block(state, round_key)
    }

    /// Final AES encrypt round: `ShiftRows -> SubBytes -> XOR round_key` (no `MixColumns`)
    /// (`aesenclast`).
    pub fn aesenclast(self, state: [u8; 16], round_key: [u8; 16]) -> (r: [u8; 16])
        ensures
            r@ == enc_last_round(state@, round_key@),
    {
        aesenclast_block(state, round_key)
    }

    /// One AES decrypt round: `InvShiftRows -> InvSubBytes -> InvMixColumns -> XOR
    /// round_key` (`aesdec`).
    pub fn aesdec(self, state: [u8; 16], round_key: [u8; 16]) -> (r: [u8; 16])
        ensures
            r@ == dec_round(state@, round_key@),
    {
        aesdec_block(state, round_key)
    }

    /// Final AES decrypt round: `InvShiftRows -> InvSubBytes -> XOR round_key` (no
    /// `InvMixColumns`) (`aesdeclast`).
    pub fn aesdeclast(self, state: [u8; 16], round_key: [u8; 16]) -> (r: [u8; 16])
        ensures
            r@ == dec_last_round(state@, round_key@),
    {
        aesdeclast_block(state, round_key)
    }

    /// `InvMixColumns(round_key)` (`aesimc`): turns an encrypt-direction round key into the
    /// form [`Aes::aesdec`] expects (the equivalent inverse cipher).
    pub fn aesimc(self, round_key: [u8; 16]) -> (r: [u8; 16])
        ensures
            r@ == inv_mix_columns(round_key@),
    {
        inv_mix_columns_exec(round_key)
    }

    /// Key-schedule helper (`aeskeygenassist`): dword 0 is `SubWord` of key dword 1, dword 1
    /// is `RotWord(SubWord(key dword 1)) ^ RCON`, dwords 2 and 3 the same from key dword 3.
    pub fn aeskeygenassist<const RCON: u8>(self, key: [u8; 16]) -> (r: [u8; 16])
        ensures
            forall|i: int| 0 <= i < 16 ==> r[i] == keygen_byte(key@, RCON, i),
    {
        let mut r = [0u8; 16];
        let mut i: usize = 0;
        while i < 16
            invariant
                i <= 16,
                forall|j: int| 0 <= j < i ==> r[j] == keygen_byte(key@, RCON, j),
            decreases 16 - i,
        {
            let w: usize = if i < 8 {
                4
            } else {
                12
            };
            let j = i % 4;
            let v = if (i / 4) % 2 == 0 {
                sbox_byte(key[w + j])
            } else {
                let x = sbox_byte(key[w + (j + 1) % 4]);
                if j == 0 {
                    x ^ RCON
                } else {
                    x ^ 0
                }
            };
            r[i] = v;
            i += 1;
        }
        r
    }
}

} // verus!
