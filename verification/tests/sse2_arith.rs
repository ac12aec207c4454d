use miraculix::x86::ops::sse::sse2::Sse2;
use miraculix::x86::{Feature, FeatureSet};

fn t() -> Sse2 {
    Sse2::from_features(FeatureSet::empty().with(Feature::Sse2)).unwrap()
}

#[test]
fn element_wise_add_and_multiply() {
    let t = t();
    let a = [1i32, 2, 3, 4, 5, 6, 7, 8];
    let b = [10, 20, 30, 40, 50, 60, 70, 80];
    let mut sum = [0i32; 8];
    t.add_i32_slice(&a, &b, &mut sum);
    assert_eq!(sum, [11, 22, 33, 44, 55, 66, 77, 88]);
    let a16 = [1i16, 2, 3, 4, 5, 6, 7, 8];
    let b16 = [10i16, 20, 30, 40, 50, 60, 70, 80];
    assert_eq!(t.mul_i16x8(a16, b16), [10, 40, 90, 160, 250, 360, 490, 640]);
}

#[test]
fn wrapping_and_saturating() {
    let t = t();
    assert_eq!(t.add_i32x4([i32::MAX, 1, -1, 0], [1, 1, 1, 0]), [i32::MIN, 2, 0, 0]);
    assert_eq!(t.sub_u64x2([0, 5], [1, 3]), [u64::MAX, 2]);
    let mut a = [0i8; 16];
    let mut b = [0i8; 16];
    a[0] = 100;
    b[0] = 100;
    a[1] = -100;
    b[1] = -100;
    a[2] = 5;
    b[2] = -7;
    let s = t.adds_i8x16(a, b);
    assert_eq!(&s[..3], &[127, -128, -2]);
    let w = t.add_i8x16(a, b);
    assert_eq!(&w[..3], &[-56, 56, -2]);
    let d = t.subs_i16x8([i16::MIN, i16::MAX, 0, 0, 0, 0, 0, 0], [1, -1, 0, 0, 0, 0, 0, 0]);
    assert_eq!(&d[..2], &[i16::MIN, i16::MAX]);
    let us = t.subs_u8x16([3u8; 16], [5u8; 16]);
    assert_eq!(us, [0u8; 16]);
    let ua = t.adds_u16x8([65000u16; 8], [1000u16; 8]);
    assert_eq!(ua, [u16::MAX; 8]);
    let mut out = [0u8; 20];
    t.adds_u8_slice(&[250u8; 20], &[10u8; 20], &mut out);
    assert_eq!(out, [255u8; 20]);
}

#[test]
fn bitwise_lanes() {
    let t = t();
    assert_eq!(t.xor_u32x4([0xff, 0, 1, 2], [0x0f, 0, 1, 3]), [0xf0, 0, 0, 1]);
    assert_eq!(t.andnot_i8x16([0x0f; 16], [0x3c; 16]), [0x30; 16]);
    assert_eq!(t.or_u64x2([1, 2], [4, 8]), [5, 10]);
    assert_eq!(t.and_i16x8([-1; 8], [0x1234; 8]), [0x1234; 8]);
    let mut out = [0i64; 3];
    t.xor_i64_slice(&[1, 2, 3], &[3, 2, 1], &mut out);
    assert_eq!(out, [2, 0, 2]);
}

#[test]
fn equality_masks() {
    let t = t();
    assert_eq!(t.cmpeq_i32x4([1, 2, 3, 4], [1, 0, 3, 0]), [-1, 0, -1, 0]);
    assert_eq!(t.cmpeq_u16x8([7; 8], [7, 0, 7, 0, 7, 0, 7, 0]), [0xffff, 0, 0xffff, 0, 0xffff, 0, 0xffff, 0]);
    let mut out = [9u8; 5];
    t.cmpeq_u8_slice(&[1, 2, 3, 4, 5], &[1, 0, 3, 0, 5], &mut out);
    assert_eq!(out, [255, 0, 255, 0, 255]);
}

#[test]
fn byte_and_word_min_max_avg() {
    let t = t();
    let mut a = [0u8; 16];
    let mut b = [0u8; 16];
    a[0] = 200;
    b[0] = 100;
    a[1] = 255;
    b[1] = 255;
    a[2] = 0;
    b[2] = 1;
    assert_eq!(&t.min_u8x16(a, b)[..3], &[100, 255, 0]);
    assert_eq!(&t.max_u8x16(a, b)[..3], &[200, 255, 1]);
    assert_eq!(&t.avg_u8x16(a, b)[..3], &[150, 255, 1]);
    assert_eq!(t.avg_u16x8([u16::MAX; 8], [u16::MAX - 1; 8]), [u16::MAX; 8]);
    assert_eq!(t.min_i16x8([-5, 5, 0, 0, 0, 0, 0, 0], [5, -5, 0, 0, 0, 0, 0, 0])[..2], [-5, -5]);
    assert_eq!(t.max_i16x8([-5, 5, 0, 0, 0, 0, 0, 0], [5, -5, 0, 0, 0, 0, 0, 0])[..2], [5, 5]);
}

#[test]
fn byte_multiply_wraps() {
    let t = t();
    let r = t.mul_u8x16([16u8; 16], [17u8; 16]);
    assert_eq!(r, [16u8.wrapping_mul(17); 16]);
    let s = t.mul_i8x16([-128i8; 16], [-1i8; 16]);
    assert_eq!(s, [-128i8; 16]);
}

#[test]
fn uniform_shifts() {
    let t = t();
    let a = [1u16, 0x8000, 0xffff, 2, 0, 0, 0, 0];
    assert_eq!(t.shl_u16x8::<1>(a)[..4], [2, 0, 0xfffe, 4]);
    assert_eq!(t.shr_u16x8::<15>(a)[..4], [0, 1, 1, 0]);
    assert_eq!(t.shl_u16x8::<16>(a), [0; 8]);
    let s = [-16i16, 16, i16::MIN, -1, 0, 0, 0, 0];
    assert_eq!(t.sra_i16x8::<2>(s)[..4], [-4, 4, -8192, -1]);
    assert_eq!(t.sra_i16x8::<40>(s)[..4], [-1, 0, -1, -1]);
    assert_eq!(t.shr_i16x8::<12>(s)[..4], [0x000f, 0, 0x0008, 0x000f]);
    assert_eq!(t.shl_i32x4::<31>([1, 2, 3, 0]), [i32::MIN, 0, i32::MIN, 0]);
    assert_eq!(t.shr_u32x4::<32>([u32::MAX; 4]), [0; 4]);
    let mut out = [0i32; 6];
    t.sra_i32_slice::<1>(&[-3, -2, -1, 0, 1, 2], &mut out);
    assert_eq!(out, [-2, -1, -1, 0, 0, 1]);
}

#[test]
fn divide_rounds_toward_zero() {
    let t = t();
    assert_eq!(t.div_i32x4([7, -7, 7, -7], [2, 2, -2, -2]), [3, -3, -3, 3]);
    assert_eq!(t.div_i32x4([i32::MIN, i32::MAX, 0, 1], [1, -1, 5, 2]), [i32::MIN, -i32::MAX, 0, 0]);
    assert_eq!(t.div_u32x4([7, u32::MAX, 0, 9], [2, 1, 5, 10]), [3, u32::MAX, 0, 0]);
    let mut out = [0i32; 3];
    t.div_i32_slice(&[100, -100, 9], &[7, 7, -3], &mut out);
    assert_eq!(out, [14, -14, -3]);
    let mut uo = [0u32; 2];
    t.div_u32_slice(&[100, 5], &[7, 6], &mut uo);
    assert_eq!(uo, [14, 0]);
}

#[test]
fn interleave_and_shuffle() {
    let t = t();
    let a = [0i16, 1, 2, 3, 4, 5, 6, 7];
    let b = [10i16, 11, 12, 13, 14, 15, 16, 17];
    assert_eq!(t.unpacklo_i16x8(a, b), [0, 10, 1, 11, 2, 12, 3, 13]);
    assert_eq!(t.unpackhi_i16x8(a, b), [4, 14, 5, 15, 6, 16, 7, 17]);
    assert_eq!(t.unpacklo_i32x4([0, 1, 2, 3], [4, 5, 6, 7]), [0, 4, 1, 5]);
    assert_eq!(t.unpackhi_i32x4([0, 1, 2, 3], [4, 5, 6, 7]), [2, 6, 3, 7]);
    assert_eq!(t.unpacklo_i64x2([1, 2], [3, 4]), [1, 3]);
    assert_eq!(t.unpackhi_i64x2([1, 2], [3, 4]), [2, 4]);
    // 0x1b = 0b00_01_10_11 reverses four lanes
    assert_eq!(t.shuffle_i32x4::<0x1b>([0, 1, 2, 3]), [3, 2, 1, 0]);
    assert_eq!(t.shufflelo_i16x8::<0x1b>(a), [3, 2, 1, 0, 4, 5, 6, 7]);
    assert_eq!(t.shufflehi_i16x8::<0x1b>(a), [0, 1, 2, 3, 7, 6, 5, 4]);
    assert_eq!(t.shuffle_i32x4::<0x00>([9, 1, 2, 3]), [9, 9, 9, 9]);
}

#[test]
fn sign_bit_mask() {
    let t = t();
    let mut a = [0i8; 16];
    assert_eq!(t.movemask_i8x16(a), 0);
    a[0] = -1;
    a[3] = -128;
    a[15] = -5;
    a[7] = 127;
    assert_eq!(t.movemask_i8x16(a), 0x8009);
    assert_eq!(t.movemask_i8x16([-1i8; 16]), 0xffff);
}
