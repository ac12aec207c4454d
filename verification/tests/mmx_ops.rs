use miraculix::x86::ops::mmx::Mmx;
use miraculix::x86::{Feature, FeatureSet};

fn mmx() -> Mmx {
    Mmx::from_features(FeatureSet::empty().with(Feature::Mmx)).unwrap()
}

#[test]
fn mmx_needs_its_feature() {
    assert!(Mmx::from_features(FeatureSet::empty()).is_none());
    assert!(Mmx::from_features(FeatureSet::empty().with(Feature::Sse2)).is_none());
}

#[test]
fn mmx_wrapping_byte_arithmetic() {
    let t = mmx();
    let a: [i8; 8] = [127, -128, 1, -1, 0, 50, -50, 100];
    let b: [i8; 8] = [1, -1, -1, 1, 0, 100, -100, 100];
    assert_eq!(t.add_i8x8(a, b), [-128, 127, 0, 0, 0, -106, 106, -56]);
    assert_eq!(t.sub_i8x8(a, b), [126, -127, 2, -2, 0, -50, 50, 0]);
    let c: [u8; 8] = [255, 0, 10, 200, 1, 2, 3, 4];
    let d: [u8; 8] = [1, 1, 250, 100, 1, 2, 3, 4];
    assert_eq!(t.add_u8x8(c, d), [0, 1, 4, 44, 2, 4, 6, 8]);
    assert_eq!(t.sub_u8x8(c, d), [254, 255, 16, 100, 0, 0, 0, 0]);
}

#[test]
fn mmx_saturating_byte_arithmetic() {
    let t = mmx();
    let a: [i8; 8] = [127, -128, 100, -100, 0, 1, -1, 5];
    let b: [i8; 8] = [1, -1, 100, -100, 0, -1, 1, -10];
    assert_eq!(t.adds_i8x8(a, b), [127, -128, 127, -128, 0, 0, 0, -5]);
    assert_eq!(t.subs_i8x8(a, b), [126, -127, 0, 0, 0, 2, -2, 15]);
    let c: [u8; 8] = [250, 0, 128, 1, 255, 10, 20, 30];
    let d: [u8; 8] = [10, 1, 128, 2, 255, 5, 30, 30];
    assert_eq!(t.adds_u8x8(c, d), [255, 1, 255, 3, 255, 15, 50, 60]);
    assert_eq!(t.subs_u8x8(c, d), [240, 0, 0, 0, 0, 5, 0, 0]);
}

#[test]
fn mmx_masks_and_bitwise() {
    let t = mmx();
    let a: [u8; 8] = [1, 2, 3, 4, 0xf0, 0x0f, 0xff, 0];
    let b: [u8; 8] = [1, 0, 3, 5, 0x3c, 0x3c, 0x00, 0];
    assert_eq!(t.cmpeq_u8x8(a, b), [255, 0, 255, 0, 0, 0, 0, 255]);
    assert_eq!(t.cmpeq_i8x8([1, -1, 0, 5, 6, 7, 8, 9], [1, 1, 0, 5, 0, 7, 0, 9]), [-1, 0, -1, -1, 0, -1, 0, -1]);
    assert_eq!(t.and_u8x8(a, b), [1, 0, 3, 4, 0x30, 0x0c, 0, 0]);
    assert_eq!(t.or_u8x8(a, b), [1, 2, 3, 5, 0xfc, 0x3f, 0xff, 0]);
    assert_eq!(t.xor_u8x8(a, b), [0, 2, 0, 1, 0xcc, 0x33, 0xff, 0]);
    assert_eq!(t.andnot_u8x8(a, b), [0, 0, 0, 1, 0x0c, 0x30, 0, 0]);
    assert_eq!(t.cmpeq_i16x4([1, 2, 3, 4], [1, 0, 3, 0]), [-1, 0, -1, 0]);
    assert_eq!(t.cmpeq_u16x4([1, 2, 3, 4], [0, 2, 0, 4]), [0, 0xffff, 0, 0xffff]);
    assert_eq!(t.cmpeq_i32x2([7, -7], [7, 7]), [-1, 0]);
    assert_eq!(t.cmpeq_u32x2([7, 8], [9, 8]), [0, u32::MAX]);
}

#[test]
fn mmx_word_arithmetic() {
    let t = mmx();
    assert_eq!(t.add_i16x4([32767, -32768, 1, 2], [1, -1, 2, 3]), [-32768, 32767, 3, 5]);
    assert_eq!(t.sub_u16x4([0, 5, 65535, 9], [1, 5, 65535, 10]), [65535, 0, 0, 65535]);
    assert_eq!(t.adds_i16x4([32767, -32768, 100, -5], [10, -10, -50, 5]), [32767, -32768, 50, 0]);
    assert_eq!(t.subs_i16x4([-32768, 32767, 0, 0], [1, -1, 32767, -32768]), [-32768, 32767, -32767, 32767]);
    assert_eq!(t.adds_u16x4([65535, 1, 60000, 0], [1, 1, 10000, 0]), [65535, 2, 65535, 0]);
    assert_eq!(t.subs_u16x4([0, 10, 5, 60000], [1, 3, 5, 10000]), [0, 7, 0, 50000]);
    assert_eq!(t.mullo_i16x4([300, -300, 2, 256], [300, 300, -3, 256]), [24464, -24464, -6, 0]);
    assert_eq!(t.mullo_u16x4([300, 65535, 2, 256], [300, 2, 3, 256]), [24464, 65534, 6, 0]);
    assert_eq!(t.mulhi_i16x4([300, -300, -1, -32768], [300, 300, 1, -32768]), [1, -2, -1, 16384]);
}

#[test]
fn mmx_dword_arithmetic() {
    let t = mmx();
    assert_eq!(t.add_i32x2([i32::MAX, -1], [1, 1]), [i32::MIN, 0]);
    assert_eq!(t.sub_i32x2([i32::MIN, 10], [1, 20]), [i32::MAX, -10]);
    assert_eq!(t.add_u32x2([u32::MAX, 3], [2, 4]), [1, 7]);
    assert_eq!(t.sub_u32x2([0, 9], [1, 4]), [u32::MAX, 5]);
}

#[test]
fn mmx_immediate_shifts() {
    let t = mmx();
    assert_eq!(t.shl_i16x4::<4>([1, -1, 0x1000, 3]), [16, -16, 0, 48]);
    assert_eq!(t.shr_i16x4::<4>([16, -16, 0x1000, 3]), [1, 0x0fff, 0x100, 0]);
    assert_eq!(t.sra_i16x4::<4>([16, -16, 0x1000, -1]), [1, -1, 0x100, -1]);
    assert_eq!(t.sra_i16x4::<20>([16, -16, 0, -1]), [0, -1, 0, -1]);
    assert_eq!(t.shl_u16x4::<16>([1, 2, 3, 4]), [0, 0, 0, 0]);
    assert_eq!(t.shr_u16x4::<15>([0x8000, 0x7fff, 0xffff, 0]), [1, 0, 1, 0]);
    assert_eq!(t.shl_i32x2::<31>([1, 2]), [i32::MIN, 0]);
    assert_eq!(t.shr_i32x2::<28>([-1, 0x1000_0000]), [15, 1]);
    assert_eq!(t.sra_i32x2::<31>([-5, 5]), [-1, 0]);
    assert_eq!(t.sra_i32x2::<40>([-5, 5]), [-1, 0]);
    assert_eq!(t.shl_u32x2::<8>([0x0100_0001, 1]), [0x0000_0100, 256]);
    assert_eq!(t.shr_u32x2::<32>([u32::MAX, 1]), [0, 0]);
}
