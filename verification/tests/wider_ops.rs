use miraculix::x86::ops::avx512::avx512vnni::Avx512Vnni;
use miraculix::x86::ops::avx512::avx512vpopcntdq::Avx512Vpopcntdq;
use miraculix::x86::ops::sse::sse41::Sse41;
use miraculix::x86::ops::sse::ssse3::Ssse3;
use miraculix::x86::{Feature, FeatureSet};

fn sse41() -> Sse41 {
    Sse41::from_features(FeatureSet::empty().with(Feature::Sse41)).unwrap()
}

#[test]
fn select_by_lane_masks() {
    let t = sse41();
    let a = [1i32, 2, 3, 4];
    let b = [10i32, 20, 30, 40];
    assert_eq!(t.select_i32x4(a, b, [-1, 0, 0, -1]), [10, 2, 3, 40]);
    assert_eq!(t.select_u64x2([1, 2], [3, 4], [0, u64::MAX]), [1, 4]);
    let mut out = [0u8; 18];
    let mut mask = [0u8; 18];
    mask[17] = 255;
    mask[3] = 255;
    t.select_u8_slice(&[1u8; 18], &[2u8; 18], &mask, &mut out);
    assert_eq!(out[3], 2);
    assert_eq!(out[17], 2);
    assert_eq!(out[4], 1);
    // 0b1010_0101 picks b in lanes 0, 2, 5, 7
    assert_eq!(
        t.blend_i16x8::<0xa5>([0, 1, 2, 3, 4, 5, 6, 7], [10, 11, 12, 13, 14, 15, 16, 17]),
        [10, 1, 12, 3, 4, 15, 6, 17]
    );
}

#[test]
fn sse41_min_max_and_multiply() {
    let t = sse41();
    assert_eq!(t.min_i32x4([i32::MIN, 5, -1, 0], [0, 4, 1, 0]), [i32::MIN, 4, -1, 0]);
    assert_eq!(t.max_u32x4([u32::MAX, 5, 1, 0], [0, 4, 2, 0]), [u32::MAX, 5, 2, 0]);
    let mut a = [0i8; 16];
    a[0] = -128;
    a[1] = 127;
    let mut b = [0i8; 16];
    b[0] = 0;
    b[1] = 0;
    assert_eq!(&t.min_i8x16(a, b)[..2], &[-128, 0]);
    assert_eq!(&t.max_i8x16(a, b)[..2], &[0, 127]);
    assert_eq!(t.max_u16x8([60000; 8], [1; 8]), [60000; 8]);
    assert_eq!(t.mul_i32x4([0x10000, -3, 7, 0], [0x10000, 5, -7, 9]), [0, -15, -49, 0]);
    let mut out = [0u32; 5];
    t.mul_u32_slice(&[1, 2, 3, 4, u32::MAX], &[5, 6, 7, 8, 2], &mut out);
    assert_eq!(out, [5, 12, 21, 32, u32::MAX - 1]);
}

#[test]
fn absolute_values() {
    let t = Ssse3::from_features(FeatureSet::empty().with(Feature::Ssse3)).unwrap();
    let mut a = [0i8; 16];
    a[0] = -5;
    a[1] = i8::MIN;
    a[2] = 7;
    let r = t.abs_i8x16(a);
    assert_eq!(&r[..3], &[5, i8::MIN, 7]);
    assert_eq!(t.abs_i32x4([-1, i32::MIN, i32::MAX, 0]), [1, i32::MIN, i32::MAX, 0]);
    let mut out = [0i16; 9];
    t.abs_i16_slice(&[-1, -2, -3, -4, -5, -6, -7, -8, i16::MIN], &mut out);
    assert_eq!(out, [1, 2, 3, 4, 5, 6, 7, 8, i16::MIN]);
}

#[test]
fn packed_population_count() {
    let t = Avx512Vpopcntdq::from_features(FeatureSet::empty().with(Feature::Avx512vpopcntdq)).unwrap();
    let mut a = [0u32; 16];
    a[0] = u32::MAX;
    a[1] = 0b1011;
    let r = t.popcnt_u32x16(a);
    assert_eq!(&r[..3], &[32, 3, 0]);
    let m = t.popcnt_u32x16_merge_masked([7; 16], 0b10, a);
    assert_eq!(&m[..3], &[7, 3, 7]);
    let z = t.popcnt_u64x8_zero_masked(0b1, [u64::MAX; 8]);
    assert_eq!(z, [64, 0, 0, 0, 0, 0, 0, 0]);
    let mut out = [0u64; 10];
    t.popcnt_u64_slice(&[3u64; 10], &mut out);
    assert_eq!(out, [2u64; 10]);
}

#[test]
fn byte_dot_products() {
    let t = Avx512Vnni::from_features(FeatureSet::empty().with(Feature::Avx512vnni)).unwrap();
    let mut a = [0u8; 64];
    let mut b = [0i8; 64];
    a[0] = 255;
    a[1] = 255;
    a[2] = 1;
    a[3] = 2;
    b[0] = -128;
    b[1] = 127;
    b[2] = 3;
    b[3] = 4;
    let r = t.dpbusd_i32x16([100; 16], a, b);
    // 255*-128 + 255*127 + 3 + 8 = -244
    assert_eq!(r[0], 100 - 244);
    assert_eq!(r[1], 100);
    let s = t.dpbusds_i32x16([i32::MIN; 16], [255u8; 64], [-128i8; 64]);
    assert_eq!(s, [i32::MIN; 16]);
    let m = t.dpbusd_i32x16_merge_masked([5; 16], 0b1, a, b);
    assert_eq!(m[0], 5 - 244);
    assert_eq!(m[1], 5);
    let z = t.dpwssd_i32x16_zero_masked(0b10, [1; 16], [1i16; 32], [2i16; 32]);
    assert_eq!(&z[..3], &[0, 5, 0]);
    let src = [1i32, 2, 3];
    let aw = [1i16, 2, 3, 4, 5, 6];
    let bw = [1i16, 1, 1, 1, 1, 1];
    let mut out = [0i32; 3];
    t.dpwssd_i32_slice(&src, &aw, &bw, &mut out);
    assert_eq!(out, [4, 9, 14]);
    let ab = [1u8; 8];
    let bb = [2i8; 8];
    let mut ob = [0i32; 2];
    t.dpbusds_i32_slice(&[i32::MAX, 0], &ab, &bb, &mut ob);
    assert_eq!(ob, [i32::MAX, 8]);
}
