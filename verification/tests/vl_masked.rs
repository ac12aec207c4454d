use miraculix::x86::ops::avx512::avx512vl::{Avx512BwVl, Avx512FVl};
use miraculix::x86::{Feature, FeatureSet};

fn bw() -> Avx512BwVl {
    Avx512BwVl::from_features(FeatureSet::empty().with(Feature::Avx512bw).with(Feature::Avx512vl)).unwrap()
}

fn fvl() -> Avx512FVl {
    Avx512FVl::from_features(FeatureSet::empty().with(Feature::Avx512f).with(Feature::Avx512vl)).unwrap()
}

#[test]
fn masked_byte_ops_merge_and_zero() {
    let t = bw();
    let a: [i8; 16] = [127, -128, 1, 2, 3, 4, 5, 6, 7, 8, 9, 10, 11, 12, 13, 14];
    let b: [i8; 16] = [1, -1, 1, 1, 1, 1, 1, 1, 1, 1, 1, 1, 1, 1, 1, 1];
    let src = [100i8; 16];
    let r = t.add_i8x16_merge_masked(src, 0b0000_0000_0000_0101, a, b);
    assert_eq!(&r[..4], &[-128, 100, 2, 100]);
    assert!(r[4..].iter().all(|&x| x == 100));
    let z = t.adds_i8x16_zero_masked(0b11, a, b);
    assert_eq!(&z[..3], &[127, -128, 0]);
    let u: [u8; 32] = [250; 32];
    let v: [u8; 32] = [10; 32];
    let s = t.adds_u8x32_merge_masked([1; 32], 0x8000_0001, u, v);
    assert_eq!(s[0], 255);
    assert_eq!(s[31], 255);
    assert_eq!(s[1], 1);
    let avg = t.avg_u8x16_zero_masked(0xffff, [1; 16], [2; 16]);
    assert_eq!(avg, [2; 16]);
    let mn = t.min_i8x32_merge_masked([0; 32], u32::MAX, [-5; 32], [3; 32]);
    assert_eq!(mn, [-5; 32]);
    let mx = t.max_u8x16_zero_masked(0x00ff, [200; 16], [100; 16]);
    assert_eq!(&mx[..8], &[200; 8]);
    assert_eq!(&mx[8..], &[0; 8]);
}

#[test]
fn masked_word_ops() {
    let t = bw();
    let a: [i16; 8] = [32767, -32768, 300, -300, 5, 6, 7, 8];
    let b: [i16; 8] = [1, -1, 300, 300, 5, 6, 7, 8];
    assert_eq!(t.subs_i16x8_merge_masked([9; 8], 0b0000_0011, a, [-1, 1, 0, 0, 0, 0, 0, 0]), [32767, -32768, 9, 9, 9, 9, 9, 9]);
    assert_eq!(t.mul_i16x8_zero_masked(0b0000_1100, a, b), [0, 0, 24464, -24464, 0, 0, 0, 0]);
    let u = t.avg_u16x16_merge_masked([7; 16], 0x0001, [1; 16], [4; 16]);
    assert_eq!(u[0], 3);
    assert_eq!(u[1], 7);
    let w = t.sub_u16x8_zero_masked(0xff, [0; 8], [1; 8]);
    assert_eq!(w, [65535; 8]);
}

#[test]
fn masked_dword_qword_ops() {
    let t = fvl();
    assert_eq!(t.add_i32x4_merge_masked([5; 4], 0b1010, [i32::MAX; 4], [1; 4]), [5, i32::MIN, 5, i32::MIN]);
    assert_eq!(t.mul_u32x8_zero_masked(0b1000_0001, [0x10000; 8], [0x10001; 8]), [0x10000, 0, 0, 0, 0, 0, 0, 0x10000]);
    assert_eq!(t.min_i64x4_merge_masked([0; 4], 0b0110, [-1, -2, 3, 4], [1, 2, -3, -4]), [0, -2, -3, 0]);
    assert_eq!(t.max_u64x2_zero_masked(0b01, [1, 9], [u64::MAX, 0]), [u64::MAX, 0]);
    assert_eq!(t.sub_i64x2_merge_masked([7, 7], 0b11, [i64::MIN, 0], [1, 1]), [i64::MAX, -1]);
    // Only the low lane-count bits of the mask are read.
    assert_eq!(t.add_u32x4_zero_masked(0xf0, [1; 4], [1; 4]), [0; 4]);
}
