use miraculix::x86::ops::other::sha::Sha;
use miraculix::x86::{Feature, FeatureSet};

fn sha() -> Sha {
    Sha::from_features(FeatureSet::empty().with(Feature::Sha)).unwrap()
}

/// The single padded block of the message "abc", as big-endian words.
fn abc_block() -> [u32; 16] {
    let mut w = [0u32; 16];
    w[0] = 0x6162_6380;
    w[15] = 24;
    w
}

fn sha1_schedule(block: &[u32; 16]) -> [u32; 80] {
    let mut w = [0u32; 80];
    w[..16].copy_from_slice(block);
    for t in 16..80 {
        w[t] = (w[t - 3] ^ w[t - 8] ^ w[t - 14] ^ w[t - 16]).rotate_left(1);
    }
    w
}

fn sha256_schedule(block: &[u32; 16]) -> [u32; 64] {
    let mut w = [0u32; 64];
    w[..16].copy_from_slice(block);
    for t in 16..64 {
        let s0 = w[t - 15].rotate_right(7) ^ w[t - 15].rotate_right(18) ^ (w[t - 15] >> 3);
        let s1 = w[t - 2].rotate_right(17) ^ w[t - 2].rotate_right(19) ^ (w[t - 2] >> 10);
        w[t] = s1.wrapping_add(w[t - 7]).wrapping_add(s0).wrapping_add(w[t - 16]);
    }
    w
}

fn sha1_reg(w: &[u32], t: usize) -> [u32; 4] {
    [w[t + 3], w[t + 2], w[t + 1], w[t]]
}

fn sha1_rounds(t: Sha, g: usize, abcd: [u32; 4], msg: [u32; 4]) -> [u32; 4] {
    match g / 5 {
        0 => t.sha1rnds4::<0>(abcd, msg),
        1 => t.sha1rnds4::<1>(abcd, msg),
        2 => t.sha1rnds4::<2>(abcd, msg),
        _ => t.sha1rnds4::<3>(abcd, msg),
    }
}

#[test]
fn sha1_of_abc() {
    let t = sha();
    let h = [0x6745_2301u32, 0xefcd_ab89, 0x98ba_dcfe, 0x1032_5476, 0xc3d2_e1f0];
    let w = sha1_schedule(&abc_block());
    let start = [h[3], h[2], h[1], h[0]];
    let mut abcd = start;
    let mut prev = start;
    for g in 0..20 {
        let msg = if g == 0 {
            let mut m = sha1_reg(&w, 0);
            m[3] = m[3].wrapping_add(h[4]);
            m
        } else {
            t.sha1nexte(prev, sha1_reg(&w, 4 * g))
        };
        prev = abcd;
        abcd = sha1_rounds(t, g, abcd, msg);
    }
    let e = t.sha1nexte(prev, [0; 4])[3];
    let out = [
        h[0].wrapping_add(abcd[3]),
        h[1].wrapping_add(abcd[2]),
        h[2].wrapping_add(abcd[1]),
        h[3].wrapping_add(abcd[0]),
        h[4].wrapping_add(e),
    ];
    assert_eq!(out, [0xa999_3e36, 0x4706_816a, 0xba3e_2571, 0x7850_c26c, 0x9cd0_d89d]);
}

#[test]
fn sha1_schedule_instructions() {
    let t = sha();
    let mut block = [0u32; 16];
    for (i, x) in block.iter_mut().enumerate() {
        *x = (i as u32 + 1).wrapping_mul(0x9e37_79b9);
    }
    let w = sha1_schedule(&block);
    let m1 = t.sha1msg1(sha1_reg(&w, 0), sha1_reg(&w, 4));
    let r8 = sha1_reg(&w, 8);
    let x = [m1[0] ^ r8[0], m1[1] ^ r8[1], m1[2] ^ r8[2], m1[3] ^ r8[3]];
    assert_eq!(t.sha1msg2(x, sha1_reg(&w, 12)), sha1_reg(&w, 16));
}

const K256: [u32; 64] = [
    0x428a2f98, 0x71374491, 0xb5c0fbcf, 0xe9b5dba5, 0x3956c25b, 0x59f111f1, 0x923f82a4, 0xab1c5ed5,
    0xd807aa98, 0x12835b01, 0x243185be, 0x550c7dc3, 0x72be5d74, 0x80deb1fe, 0x9bdc06a7, 0xc19bf174,
    0xe49b69c1, 0xefbe4786, 0x0fc19dc6, 0x240ca1cc, 0x2de92c6f, 0x4a7484aa, 0x5cb0a9dc, 0x76f988da,
    0x983e5152, 0xa831c66d, 0xb00327c8, 0xbf597fc7, 0xc6e00bf3, 0xd5a79147, 0x06ca6351, 0x14292967,
    0x27b70a85, 0x2e1b2138, 0x4d2c6dfc, 0x53380d13, 0x650a7354, 0x766a0abb, 0x81c2c92e, 0x92722c85,
    0xa2bfe8a1, 0xa81a664b, 0xc24b8b70, 0xc76c51a3, 0xd192e819, 0xd6990624, 0xf40e3585, 0x106aa070,
    0x19a4c116, 0x1e376c08, 0x2748774c, 0x34b0bcb5, 0x391c0cb3, 0x4ed8aa4a, 0x5b9cca4f, 0x682e6ff3,
    0x748f82ee, 0x78a5636f, 0x84c87814, 0x8cc70208, 0x90befffa, 0xa4506ceb, 0xbef9a3f7, 0xc67178f2,
];

#[test]
fn sha256_of_abc() {
    let t = sha();
    let h = [
        0x6a09e667u32, 0xbb67ae85, 0x3c6ef372, 0xa54ff53a, 0x510e527f, 0x9b05688c, 0x1f83d9ab,
        0x5be0cd19,
    ];
    let w = sha256_schedule(&abc_block());
    // a = [H, G, D, C], b = [F, E, B, A]
    let mut hgdc = [h[7], h[6], h[3], h[2]];
    let mut feba = [h[5], h[4], h[1], h[0]];
    for r in (0..64).step_by(2) {
        let k = [w[r].wrapping_add(K256[r]), w[r + 1].wrapping_add(K256[r + 1]), 0, 0];
        let next = t.sha256rnds2(hgdc, feba, k);
        hgdc = feba;
        feba = next;
    }
    let a = feba[3];
    let b = feba[2];
    let e = feba[1];
    let f = feba[0];
    let c = hgdc[3];
    let d = hgdc[2];
    let g = hgdc[1];
    let hh = hgdc[0];
    let out = [
        h[0].wrapping_add(a),
        h[1].wrapping_add(b),
        h[2].wrapping_add(c),
        h[3].wrapping_add(d),
        h[4].wrapping_add(e),
        h[5].wrapping_add(f),
        h[6].wrapping_add(g),
        h[7].wrapping_add(hh),
    ];
    assert_eq!(
        out,
        [0xba7816bf, 0x8f01cfea, 0x414140de, 0x5dae2223, 0xb00361a3, 0x96177a9c, 0xb410ff61, 0xf20015ad]
    );
}

#[test]
fn sha256_schedule_instructions() {
    let t = sha();
    let w = sha256_schedule(&abc_block());
    let reg = |i: usize| [w[i], w[i + 1], w[i + 2], w[i + 3]];
    let m1 = t.sha256msg1(reg(0), reg(4));
    let r9 = reg(9);
    let x = [
        m1[0].wrapping_add(r9[0]),
        m1[1].wrapping_add(r9[1]),
        m1[2].wrapping_add(r9[2]),
        m1[3].wrapping_add(r9[3]),
    ];
    assert_eq!(t.sha256msg2(x, reg(12)), reg(16));
}
