use miraculix::x86::ops::other::aes::Aes;
use miraculix::x86::ops::other::vaes::{Vaes, Vaes512};
use miraculix::x86::{Feature, FeatureSet};

fn aes() -> Aes {
    Aes::from_features(FeatureSet::empty().with(Feature::Aes)).unwrap()
}

fn assist(t: Aes, round: usize, key: [u8; 16]) -> [u8; 16] {
    match round {
        1 => t.aeskeygenassist::<0x01>(key),
        2 => t.aeskeygenassist::<0x02>(key),
        3 => t.aeskeygenassist::<0x04>(key),
        4 => t.aeskeygenassist::<0x08>(key),
        5 => t.aeskeygenassist::<0x10>(key),
        6 => t.aeskeygenassist::<0x20>(key),
        7 => t.aeskeygenassist::<0x40>(key),
        8 => t.aeskeygenassist::<0x80>(key),
        9 => t.aeskeygenassist::<0x1b>(key),
        _ => t.aeskeygenassist::<0x36>(key),
    }
}

/// AES-128 key expansion the AES-NI way: dword 3 of `aeskeygenassist` feeds the next key.
fn expand(t: Aes, key: [u8; 16]) -> [[u8; 16]; 11] {
    let mut ks = [[0u8; 16]; 11];
    ks[0] = key;
    for i in 1..11 {
        let a = assist(t, i, ks[i - 1]);
        let mut next = [0u8; 16];
        for b in 0..4 {
            next[b] = ks[i - 1][b] ^ a[12 + b];
        }
        for w in 1..4 {
            for b in 0..4 {
                next[4 * w + b] = ks[i - 1][4 * w + b] ^ next[4 * (w - 1) + b];
            }
        }
        ks[i] = next;
    }
    ks
}

fn encrypt(t: Aes, ks: &[[u8; 16]; 11], p: [u8; 16]) -> [u8; 16] {
    let mut s = [0u8; 16];
    for i in 0..16 {
        s[i] = p[i] ^ ks[0][i];
    }
    for k in ks.iter().take(10).skip(1) {
        s = t.aesenc(s, *k);
    }
    t.aesenclast(s, ks[10])
}

fn decrypt(t: Aes, ks: &[[u8; 16]; 11], c: [u8; 16]) -> [u8; 16] {
    let mut s = [0u8; 16];
    for i in 0..16 {
        s[i] = c[i] ^ ks[10][i];
    }
    for r in (1..10).rev() {
        s = t.aesdec(s, t.aesimc(ks[r]));
    }
    t.aesdeclast(s, ks[0])
}

const KEY: [u8; 16] = [
    0x2b, 0x7e, 0x15, 0x16, 0x28, 0xae, 0xd2, 0xa6, 0xab, 0xf7, 0x15, 0x88, 0x09, 0xcf, 0x4f, 0x3c,
];
const PLAIN: [u8; 16] = [
    0x32, 0x43, 0xf6, 0xa8, 0x88, 0x5a, 0x30, 0x8d, 0x31, 0x31, 0x98, 0xa2, 0xe0, 0x37, 0x07, 0x34,
];
const CIPHER: [u8; 16] = [
    0x39, 0x25, 0x84, 0x1d, 0x02, 0xdc, 0x09, 0xfb, 0xdc, 0x11, 0x85, 0x97, 0x19, 0x6a, 0x0b, 0x32,
];

#[test]
fn key_expansion_matches_fips197_appendix_a() {
    let ks = expand(aes(), KEY);
    assert_eq!(
        ks[1],
        [0xa0, 0xfa, 0xfe, 0x17, 0x88, 0x54, 0x2c, 0xb1, 0x23, 0xa3, 0x39, 0x39, 0x2a, 0x6c, 0x76, 0x05]
    );
    assert_eq!(
        ks[10],
        [0xd0, 0x14, 0xf9, 0xa8, 0xc9, 0xee, 0x25, 0x89, 0xe1, 0x3f, 0x0c, 0xc8, 0xb6, 0x63, 0x0c, 0xa6]
    );
}

#[test]
fn encrypt_matches_fips197_appendix_b() {
    let t = aes();
    let ks = expand(t, KEY);
    assert_eq!(encrypt(t, &ks, PLAIN), CIPHER);
}

#[test]
fn decrypt_inverts_encrypt() {
    let t = aes();
    let ks = expand(t, KEY);
    assert_eq!(decrypt(t, &ks, CIPHER), PLAIN);
    let other = [0x5au8; 16];
    assert_eq!(decrypt(t, &ks, encrypt(t, &ks, other)), other);
}

#[test]
fn first_round_matches_fips197_appendix_b() {
    // state after the initial AddRoundKey, and after round 1
    let t = aes();
    let ks = expand(t, KEY);
    let start = [
        0x19, 0x3d, 0xe3, 0xbe, 0xa0, 0xf4, 0xe2, 0x2b, 0x9a, 0xc6, 0x8d, 0x2a, 0xe9, 0xf8, 0x48, 0x08,
    ];
    let after = t.aesenc(start, ks[1]);
    assert_eq!(
        after,
        [0xa4, 0x9c, 0x7f, 0xf2, 0x68, 0x9f, 0x35, 0x2b, 0x6b, 0x5b, 0xea, 0x43, 0x02, 0x6a, 0x50, 0x49]
    );
}

#[test]
fn last_round_with_zero_key_is_the_sbox() {
    let t = aes();
    assert_eq!(t.aesenclast([0u8; 16], [0u8; 16]), [0x63u8; 16]);
    assert_eq!(t.aesdeclast([0x63u8; 16], [0u8; 16]), [0u8; 16]);
    let mut s = [0u8; 16];
    s[0] = 0x53; // row 0 does not move
    let r = t.aesenclast(s, [0u8; 16]);
    assert_eq!(r[0], 0xed);
    assert_eq!(r[1], 0x63);
}

#[test]
fn mix_columns_example() {
    // FIPS-197 / Wikipedia test column: db 13 53 45 <-> 8e 4d a1 bc
    let t = aes();
    let mixed = [
        0x8e, 0x4d, 0xa1, 0xbc, 0x8e, 0x4d, 0xa1, 0xbc, 0x8e, 0x4d, 0xa1, 0xbc, 0x8e, 0x4d, 0xa1, 0xbc,
    ];
    let col = [
        0xdb, 0x13, 0x53, 0x45, 0xdb, 0x13, 0x53, 0x45, 0xdb, 0x13, 0x53, 0x45, 0xdb, 0x13, 0x53, 0x45,
    ];
    assert_eq!(t.aesimc(mixed), col);
}

#[test]
fn keygenassist_layout() {
    let t = aes();
    let mut key = [0u8; 16];
    key[4] = 0x00;
    key[5] = 0x01;
    key[6] = 0x53;
    key[7] = 0x10;
    let r = t.aeskeygenassist::<0x01>(key);
    // dword 0: SubWord(key dword 1)
    assert_eq!(&r[0..4], &[0x63, 0x7c, 0xed, 0xca]);
    // dword 1: RotWord(SubWord(key dword 1)) ^ 0x01
    assert_eq!(&r[4..8], &[0x7c ^ 0x01, 0xed, 0xca, 0x63]);
    // dwords 2 and 3 from key dword 3 (all zero): SubWord(0) = 63636363
    assert_eq!(&r[8..12], &[0x63, 0x63, 0x63, 0x63]);
    assert_eq!(&r[12..16], &[0x63 ^ 0x01, 0x63, 0x63, 0x63]);
}

#[test]
fn vaes_lanes_are_independent_aes_rounds() {
    let t = aes();
    let v = Vaes::from_features(FeatureSet::empty().with(Feature::Vaes)).unwrap();
    let ks = expand(t, KEY);
    let mut a = [0u8; 32];
    let mut k = [0u8; 32];
    a[..16].copy_from_slice(&PLAIN);
    a[16..].copy_from_slice(&CIPHER);
    k[..16].copy_from_slice(&ks[1]);
    k[16..].copy_from_slice(&ks[2]);
    let r = v.aesenc_u8x32(a, k);
    assert_eq!(r[..16], t.aesenc(PLAIN, ks[1]));
    assert_eq!(r[16..], t.aesenc(CIPHER, ks[2]));
    let d = v.aesdeclast_u8x32(a, k);
    assert_eq!(d[16..], t.aesdeclast(CIPHER, ks[2]));
    assert!(Vaes512::from_features(FeatureSet::empty().with(Feature::Vaes)).is_none());
    let w = Vaes512::from_features(FeatureSet::empty().with(Feature::Vaes).with(Feature::Avx512f)).unwrap();
    let mut a4 = [0u8; 64];
    let mut k4 = [0u8; 64];
    for l in 0..4 {
        a4[16 * l..16 * l + 16].copy_from_slice(&PLAIN);
        k4[16 * l..16 * l + 16].copy_from_slice(&ks[l]);
    }
    let e = w.aesenclast_u8x64(a4, k4);
    for l in 0..4 {
        assert_eq!(e[16 * l..16 * l + 16], t.aesenclast(PLAIN, ks[l]));
    }
    let f = w.aesdec_u8x64(a4, k4);
    assert_eq!(f[48..], t.aesdec(PLAIN, ks[3]));
}
