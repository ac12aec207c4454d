use miraculix::x86::ops::avx512::avx512vl::{Avx512BitalgVl, Avx512VbmiVl};
use miraculix::x86::ops::avx512::avx512vnni::Avx512Vnni;
use miraculix::x86::ops::other::gfni::{gf2p8mul_byte, Gfni, Gfni512};
use miraculix::x86::ops::other::pclmulqdq::Pclmulqdq;
use miraculix::x86::ops::other::popcnt::Popcnt;
use miraculix::x86::ops::other::sse4a::Sse4a;
use miraculix::x86::ops::other::vpclmulqdq::Vpclmulqdq;
use miraculix::x86::ops::other::xop::Xop;
use miraculix::x86::{Feature, FeatureSet};

fn set(fs: &[Feature]) -> FeatureSet {
    let mut s = FeatureSet::empty();
    for f in fs {
        s = s.with(*f);
    }
    s
}

fn gfni() -> Gfni {
    Gfni::from_features(set(&[Feature::Gfni])).unwrap()
}

/// The identity bit matrix as eight little-endian matrix bytes.
const IDENTITY: [u8; 8] = [0x80, 0x40, 0x20, 0x10, 0x08, 0x04, 0x02, 0x01];
/// The AES S-box affine matrix (qword `0xF1E3C78F1F3E7CF8`) as little-endian bytes.
const AES_MATRIX: [u8; 8] = [0xf8, 0x7c, 0x3e, 0x1f, 0x8f, 0xc7, 0xe3, 0xf1];

fn two(m: [u8; 8]) -> [u8; 16] {
    let mut r = [0u8; 16];
    r[..8].copy_from_slice(&m);
    r[8..].copy_from_slice(&m);
    r
}

#[test]
fn gf_multiply_known_products() {
    // FIPS-197 section 4.2: {57} * {83} = {c1}, {57} * {13} = {fe}
    assert_eq!(gf2p8mul_byte(0x57, 0x83), 0xc1);
    assert_eq!(gf2p8mul_byte(0x57, 0x13), 0xfe);
    assert_eq!(gf2p8mul_byte(0x02, 0x87), 0x15);
    assert_eq!(gf2p8mul_byte(0x00, 0x87), 0x00);
    assert_eq!(gf2p8mul_byte(0x01, 0x87), 0x87);
    // commutative
    assert_eq!(gf2p8mul_byte(0x83, 0x57), 0xc1);
    let t = gfni();
    let mut a = [0u8; 16];
    let mut b = [0u8; 16];
    a[0] = 0x57;
    b[0] = 0x83;
    a[1] = 0x53;
    b[1] = 0xca; // {53} and {ca} are inverses
    let r = t.gf2p8mul_epi8_u8x16(a, b);
    assert_eq!(r[0], 0xc1);
    assert_eq!(r[1], 0x01);
    assert_eq!(&r[2..], &[0u8; 14]);
}

#[test]
fn gf_multiply_slices() {
    let t = gfni();
    let a: Vec<u8> = (0u8..40).collect();
    let b = vec![0x02u8; 40];
    let mut out = vec![0u8; 40];
    t.gf2p8mul_epi8_slice_u8x16(&a, &b, &mut out);
    for i in 0..40 {
        assert_eq!(out[i], gf2p8mul_byte(a[i], 0x02));
    }
    let mut out32 = vec![0u8; 40];
    t.gf2p8mul_epi8_slice_u8x32(&a, &b, &mut out32);
    assert_eq!(out, out32);
}

#[test]
fn affine_with_identity_is_xor_constant() {
    let t = gfni();
    let mut x = [0u8; 16];
    for (i, v) in x.iter_mut().enumerate() {
        *v = (i as u8).wrapping_mul(37);
    }
    assert_eq!(t.gf2p8affine_epi64_epi8_u8x16::<0>(x, two(IDENTITY)), x);
    let r = t.gf2p8affine_epi64_epi8_u8x16::<0x5a>(x, two(IDENTITY));
    for i in 0..16 {
        assert_eq!(r[i], x[i] ^ 0x5a);
    }
}

#[test]
fn affine_inverse_gives_the_aes_sbox() {
    let t = gfni();
    let mut x = [0u8; 16];
    x[0] = 0x00;
    x[1] = 0x01;
    x[2] = 0x53;
    x[3] = 0xff;
    x[4] = 0x10;
    let r = t.gf2p8affineinv_epi64_epi8_u8x16::<0x63>(x, two(AES_MATRIX));
    assert_eq!(&r[..5], &[0x63, 0x7c, 0xed, 0x16, 0xca]);
    let wide = Gfni512::from_features(set(&[Feature::Gfni, Feature::Avx512f])).unwrap();
    let mut x64 = [0u8; 64];
    x64[63] = 0x53;
    let mut m64 = [0u8; 64];
    for k in 0..8 {
        m64[8 * k..8 * k + 8].copy_from_slice(&AES_MATRIX);
    }
    let r64 = wide.gf2p8affineinv_epi64_epi8_u8x64::<0x63>(x64, m64);
    assert_eq!(r64[63], 0xed);
    assert_eq!(r64[0], 0x63);
}

#[test]
fn carry_less_multiply_selects_halves() {
    let t = Pclmulqdq::from_features(set(&[Feature::Pclmulqdq])).unwrap();
    assert_eq!(t.clmul::<0x00>([3, 0], [3, 0]), [5, 0]);
    assert_eq!(t.clmul::<0x01>([7, 2], [3, 9]), [6, 0]);
    assert_eq!(t.clmul::<0x10>([7, 2], [3, 9]), [63, 0]);
    assert_eq!(t.clmul::<0x11>([0, 1 << 63], [0, 1 << 63]), [0, 1 << 62]);
    assert_eq!(
        t.clmul::<0x00>([u64::MAX, 0], [u64::MAX, 0]),
        [0x5555_5555_5555_5555, 0x5555_5555_5555_5555]
    );
    let v = Vpclmulqdq::from_features(set(&[Feature::Vpclmulqdq])).unwrap();
    assert_eq!(
        v.clmul_u64x4::<0x11>([0, 3, 0, 7], [0, 3, 0, 9]),
        [5, 0, 63, 0]
    );
}

#[test]
fn population_count() {
    let t = Popcnt::from_features(set(&[Feature::Popcnt])).unwrap();
    assert_eq!(t.popcnt_u32(0), 0);
    assert_eq!(t.popcnt_u32(u32::MAX), 32);
    assert_eq!(t.popcnt_u32(0xf0f0), 8);
    assert_eq!(t.popcnt_u64(u64::MAX), 64);
    assert_eq!(t.popcnt_u64(0x8000_0000_0000_0001), 2);
    let a = [1u64, 3, 7, 0];
    let mut out = [9u64; 4];
    t.popcnt_u64_slice(&a, &mut out);
    assert_eq!(out, [1, 2, 3, 0]);
}

#[test]
fn bit_field_extract_and_insert() {
    let t = Sse4a::from_features(set(&[Feature::Sse4a])).unwrap();
    assert_eq!(t.extract_bits::<8, 4>(0x1234), 0x23);
    assert_eq!(t.extract_bits::<0, 0>(0xdead_beef_0000_0001), 0xdead_beef_0000_0001);
    assert_eq!(t.extract_bits::<4, 60>(0xf000_0000_0000_0000), 0xf);
    assert_eq!(t.insert_bits::<8, 4>(0xffff, 0xab), 0xfabf);
    assert_eq!(t.insert_bits::<0, 0>(0x1234, 0x5678), 0x5678);
    assert_eq!(t.insert_bits::<1, 63>(0, 1), 0x8000_0000_0000_0000);
}

#[test]
fn rotate_by_lane_count() {
    let t = Xop::from_features(set(&[Feature::Xop])).unwrap();
    assert_eq!(
        t.rotl_u32x4([0x8000_0001, 1, 0x1234_5678, 5], [1, 31, 8, 0xffff_ffff]),
        [3, 0x8000_0000, 0x3456_7812, 0x8000_0002]
    );
    assert_eq!(t.rotl_u32x4([9, 9, 9, 9], [0, 32, 64, 96]), [9, 9, 9, 9]);
}

#[test]
fn dot_products_wrap_or_saturate() {
    let t = Avx512Vnni::from_features(set(&[Feature::Avx512vnni])).unwrap();
    let src = [i32::MAX; 16];
    let ones = [1i16; 32];
    assert_eq!(t.dpwssd_i32x16(src, ones, ones), [i32::MIN + 1; 16]);
    assert_eq!(t.dpwssds_i32x16(src, ones, ones), [i32::MAX; 16]);
    let mut a = [0i16; 32];
    let mut b = [0i16; 32];
    a[0] = 3;
    a[1] = -4;
    b[0] = 5;
    b[1] = 6;
    let r = t.dpwssd_i32x16([10; 16], a, b);
    assert_eq!(r[0], 10 + 15 - 24);
    assert_eq!(r[1], 10);
    let low = [i32::MIN; 16];
    let neg = [-1i16; 32];
    assert_eq!(t.dpwssds_i32x16(low, ones, neg), [i32::MIN; 16]);
}

#[test]
fn four_step_dot_product() {
    let t = Avx512Vnni::from_features(set(&[Feature::Avx512vnni])).unwrap();
    let rows = [[1i16; 32], [2i16; 32], [3i16; 32], [4i16; 32]];
    let b = [1i16, 2, 3, 4, 5, 6, 7, 8];
    // 1*(1+2) + 2*(3+4) + 3*(5+6) + 4*(7+8) = 110
    assert_eq!(t.p4dpwssd_i32x16([0; 16], rows, b), [110; 16]);
    assert_eq!(t.p4dpwssds_i32x16([i32::MAX - 100; 16], rows, b), [i32::MAX; 16]);
    assert_eq!(t.p4dpwssd_i32x16([i32::MAX - 100; 16], rows, b), [i32::MIN + 9; 16]);
    let src = vec![1i32; 20];
    let r0 = vec![1i16; 40];
    let r1 = vec![0i16; 40];
    let mut out = vec![0i32; 20];
    t.p4dpwssd_i32_slice(&src, [&r0, &r1, &r1, &r1], b, &mut out);
    assert_eq!(out, vec![4i32; 20]);
}

#[test]
fn bit_shuffle_gathers_selected_bits() {
    let t = Avx512BitalgVl::from_features(set(&[Feature::Avx512bitalg, Feature::Avx512vl])).unwrap();
    let r = t.bitshuffle_mask_u64x2([0b1010, u64::MAX], [0x0706_0504_0302_0100, 0x3f3f_3f3f_3f3f_3f3f]);
    assert_eq!(r, 0xff0a);
    let r4 = t.bitshuffle_mask_u64x4([1, 0, 1 << 63, 2], [0, 0, 0x3f, 0x0101_0101_0101_0101]);
    assert_eq!(r4, 0xff01_00ff);
}

#[test]
fn byte_permutes() {
    let t = Avx512VbmiVl::from_features(set(&[Feature::Avx512vbmi, Feature::Avx512vl])).unwrap();
    let mut a = [0u8; 16];
    let mut b = [0u8; 16];
    let mut idx = [0u8; 16];
    for i in 0..16 {
        a[i] = i as u8;
        b[i] = 100 + i as u8;
        idx[i] = 15 - i as u8;
    }
    let mut rev = a;
    rev.reverse();
    assert_eq!(t.permutexvar_u8x16(idx, a), rev);
    idx[0] = 0x10 | 2; // from b
    idx[1] = 0xe0 | 3; // high bits beyond 0x10 ignored: from a
    let r = t.permutex2var_u8x16(a, idx, b);
    assert_eq!(r[0], 102);
    assert_eq!(r[1], 3);
    assert_eq!(r[2], 13);
}

#[test]
fn multishift_rotates_each_quadword() {
    let t = Avx512VbmiVl::from_features(set(&[Feature::Avx512vbmi, Feature::Avx512vl])).unwrap();
    let mut b = [0u8; 16];
    for i in 0..16 {
        b[i] = i as u8 + 1;
    }
    let mut a = [0u8; 16];
    a[0] = 0;
    a[1] = 8;
    a[2] = 60;
    a[3] = 72;
    a[8] = 8;
    let r = t.multishift_u8x16(a, b);
    assert_eq!(&r[..4], &[0x01, 0x02, 0x10, 0x02]);
    assert_eq!(r[8], 0x0a);
}

#[test]
fn gf_mul_is_associative_on_samples() {
    let xs: [u8; 6] = [0x00, 0x01, 0x02, 0x57, 0x83, 0xff];
    for &a in &xs {
        for &b in &xs {
            for &c in &xs {
                assert_eq!(gf2p8mul_byte(gf2p8mul_byte(a, b), c), gf2p8mul_byte(a, gf2p8mul_byte(b, c)));
            }
        }
    }
}
