use miraculix::x86::ops::mmx::Mmx;
use miraculix::x86::ops::sse::sse2::Sse2;
use miraculix::x86::ops::sse::sse41::Sse41;
use miraculix::x86::ops::sse::sse42::Sse42;
use miraculix::x86::ops::sse::ssse3::Ssse3;
use miraculix::x86::{Feature, FeatureSet};

fn sse2() -> Sse2 {
    Sse2::from_features(FeatureSet::empty().with(Feature::Sse2)).unwrap()
}

fn sse41() -> Sse41 {
    Sse41::from_features(FeatureSet::empty().with(Feature::Sse41)).unwrap()
}

fn sse42() -> Sse42 {
    Sse42::from_features(FeatureSet::empty().with(Feature::Sse42)).unwrap()
}

fn ssse3() -> Ssse3 {
    Ssse3::from_features(FeatureSet::empty().with(Feature::Ssse3)).unwrap()
}

#[test]
fn cmplt_then_select_picks_the_smaller() {
    // compare, then blend by the mask: out = mask ? x : y
    let t = sse2();
    let x = [0i32, 5, 10, 15];
    let y = [4i32, 4, 9, 20];
    let mask = t.cmplt_i32x4(x, y);
    assert_eq!(mask, [!0, 0, 0, !0]);
    let picked_x = t.and_i32x4(mask, x);
    let picked_y = t.andnot_i32x4(mask, y);
    let out = t.or_i32x4(picked_x, picked_y);
    assert_eq!(out, [0, 4, 9, 15]);
}

#[test]
fn compare_masks_i32() {
    let t = sse2();
    let a = [1i32, -2, 3, i32::MIN];
    let b = [1i32, 2, -3, i32::MAX];
    assert_eq!(t.cmpgt_i32x4(a, b), [0, 0, -1, 0]);
    assert_eq!(t.cmplt_i32x4(a, b), [0, -1, 0, -1]);
    assert_eq!(t.cmple_i32x4(a, b), [-1, -1, 0, -1]);
    assert_eq!(t.cmpge_i32x4(a, b), [-1, 0, -1, 0]);
}

#[test]
fn unsigned_compares_use_unsigned_order() {
    let t = sse2();
    // 0x8000_0000 is large unsigned although it is negative as i32
    let a = [0x8000_0000u32, 1, u32::MAX, 7];
    let b = [1u32, 0x8000_0000, 0, 7];
    assert_eq!(t.cmpgt_u32x4(a, b), [u32::MAX, 0, u32::MAX, 0]);
    assert_eq!(t.cmplt_u32x4(a, b), [0, u32::MAX, 0, 0]);
    assert_eq!(t.cmple_u32x4(a, b), [0, u32::MAX, 0, u32::MAX]);
    assert_eq!(t.cmpge_u32x4(a, b), [u32::MAX, 0, u32::MAX, u32::MAX]);
    let a8 = [200u8, 1, 128, 127, 0, 255, 5, 5, 9, 9, 9, 9, 9, 9, 9, 9];
    let b8 = [100u8, 2, 127, 128, 255, 0, 5, 6, 9, 9, 9, 9, 9, 9, 9, 9];
    let gt = t.cmpgt_u8x16(a8, b8);
    assert_eq!(&gt[..8], &[255, 0, 255, 0, 0, 255, 0, 0]);
    let i8a = [100i8, -1, 0, 127, -128, 5, 5, 5, 0, 0, 0, 0, 0, 0, 0, 0];
    let i8b = [-100i8, 1, 0, -128, 127, 5, 6, 4, 0, 0, 0, 0, 0, 0, 0, 0];
    let gts = t.cmpgt_i8x16(i8a, i8b);
    assert_eq!(&gts[..8], &[-1, 0, 0, -1, 0, 0, 0, -1]);
    let u16a = [40000u16, 1, 2, 3, 0, 0, 0, 0];
    let u16b = [1u16, 40000, 2, 1, 0, 0, 0, 0];
    assert_eq!(t.cmplt_u16x8(u16a, u16b), [0, 0xffff, 0, 0, 0, 0, 0, 0]);
    let i16a = [-5i16, 5, 0, 0, 0, 0, 0, 0];
    let i16b = [5i16, -5, 0, 0, 0, 0, 0, 0];
    assert_eq!(t.cmpge_i16x8(i16a, i16b), [0, -1, -1, -1, -1, -1, -1, -1]);
}

#[test]
fn min_and_max() {
    let t = sse2();
    assert_eq!(t.min_i32x4([1, -5, 3, 0], [2, -6, 3, -1]), [1, -6, 3, -1]);
    assert_eq!(t.max_i32x4([1, -5, 3, 0], [2, -6, 3, -1]), [2, -5, 3, 0]);
    assert_eq!(
        t.min_u32x4([u32::MAX, 0, 5, 9], [1, 1, 5, 10]),
        [1, 0, 5, 9]
    );
    assert_eq!(
        t.max_u32x4([u32::MAX, 0, 5, 9], [1, 1, 5, 10]),
        [u32::MAX, 1, 5, 10]
    );
    let t42 = sse42();
    assert_eq!(t42.min_i64x2([i64::MIN, 7], [0, -7]), [i64::MIN, -7]);
    assert_eq!(t42.max_i64x2([i64::MIN, 7], [0, -7]), [0, 7]);
    assert_eq!(t42.min_u64x2([u64::MAX, 3], [1, 4]), [1, 3]);
    assert_eq!(t42.max_u64x2([u64::MAX, 3], [1, 4]), [u64::MAX, 4]);
}

#[test]
fn i64_and_u64_compares() {
    let t41 = sse41();
    assert_eq!(t41.cmpeq_i64x2([5, -1], [5, 1]), [-1, 0]);
    assert_eq!(t41.cmpeq_u64x2([u64::MAX, 0], [u64::MAX, 1]), [u64::MAX, 0]);
    let t42 = sse42();
    assert_eq!(t42.cmpgt_i64x2([1, -1], [-1, 1]), [-1, 0]);
    assert_eq!(t42.cmplt_i64x2([1, -1], [-1, 1]), [0, -1]);
    assert_eq!(t42.cmple_i64x2([1, 2], [1, 1]), [-1, 0]);
    assert_eq!(t42.cmpge_i64x2([1, 2], [1, 3]), [-1, 0]);
    let big = 0x8000_0000_0000_0000u64;
    assert_eq!(t42.cmpgt_u64x2([big, 1], [1, big]), [u64::MAX, 0]);
    assert_eq!(t42.cmplt_u64x2([big, 1], [1, big]), [0, u64::MAX]);
    assert_eq!(t42.cmple_u64x2([big, 1], [big, 0]), [u64::MAX, 0]);
    assert_eq!(t42.cmpge_u64x2([big, 1], [big, 2]), [u64::MAX, 0]);
}

#[test]
fn slice_forms_match_lane_forms() {
    let t = sse2();
    let a = [1i32, 2, 3, 4, 5, 6, 7];
    let b = [7i32, 6, 5, 4, 3, 2, 1];
    let mut out = [0i32; 7];
    t.cmplt_i32_slice(&a, &b, &mut out);
    assert_eq!(out, [-1, -1, -1, 0, 0, 0, 0]);
    t.cmple_i32_slice(&a, &b, &mut out);
    assert_eq!(out, [-1, -1, -1, -1, 0, 0, 0]);
    t.min_i32_slice(&a, &b, &mut out);
    assert_eq!(out, [1, 2, 3, 4, 3, 2, 1]);
    t.max_i32_slice(&a, &b, &mut out);
    assert_eq!(out, [7, 6, 5, 4, 5, 6, 7]);
    let mut empty: [i32; 0] = [];
    t.cmpgt_i32_slice(&[], &[], &mut empty);
    let ua = [1u64, u64::MAX, 3];
    let ub = [2u64, 0, 3];
    let mut uo = [0u64; 3];
    sse42().cmpgt_u64_slice(&ua, &ub, &mut uo);
    assert_eq!(uo, [0, u64::MAX, 0]);
    sse41().cmpeq_u64_slice(&ua, &ub, &mut uo);
    assert_eq!(uo, [0, 0, u64::MAX]);
    let mut mo = [0u64; 3];
    sse42().min_u64_slice(&ua, &ub, &mut mo);
    assert_eq!(mo, [1, 0, 3]);
}

#[test]
fn mullo_keeps_the_low_64_bits() {
    let t = sse2();
    assert_eq!(t.mullo_u64x2([3, u64::MAX], [5, 2]), [15, u64::MAX - 1]);
    assert_eq!(
        t.mullo_u64x2([0x1_0000_0001, 0xdead_beef_cafe_babe], [0x1_0000_0001, 0x1234_5678_9abc_def0]),
        [0x1_0000_0001u64.wrapping_mul(0x1_0000_0001), 0xdead_beef_cafe_babeu64.wrapping_mul(0x1234_5678_9abc_def0)]
    );
    assert_eq!(t.mullo_i64x2([-3, i64::MIN], [5, -1]), [-15, i64::MIN]);
    let a = [1u64, 2, 3];
    let b = [4u64, 5, u64::MAX];
    let mut out = [0u64; 3];
    t.mullo_u64_slice(&a, &b, &mut out);
    assert_eq!(out, [4, 10, u64::MAX - 2]);
}

#[test]
fn abs_wraps_at_min() {
    let t = sse2();
    assert_eq!(t.abs_i64x2([-5, 7]), [5, 7]);
    assert_eq!(t.abs_i64x2([i64::MIN, 0]), [i64::MIN, 0]);
    let a = [-1i64, i64::MAX, i64::MIN + 1];
    let mut out = [0i64; 3];
    t.abs_i64_slice(&a, &mut out);
    assert_eq!(out, [1, i64::MAX, i64::MAX]);
}

#[test]
fn byte_shifts() {
    let t = sse2();
    let a = [0x81u8; 16];
    assert_eq!(t.shl_u8x16::<1>(a), [0x02u8; 16]);
    assert_eq!(t.shr_u8x16::<1>(a), [0x40u8; 16]);
    let s = [-128i8, 64, -1, 1, 0, 0, 0, 0, 0, 0, 0, 0, 0, 0, 0, 0];
    let r = t.sra_i8x16::<2>(s);
    assert_eq!(&r[..4], &[-32, 16, -1, 0]);
    let l = t.shl_i8x16::<1>(s);
    assert_eq!(&l[..4], &[0, -128, -2, 2]);
    let lr = t.shr_i8x16::<1>(s);
    assert_eq!(&lr[..4], &[64, 32, 127, 0]);
}

#[test]
fn whole_register_byte_shifts() {
    let t = sse2();
    let mut a = [0u8; 16];
    for (i, x) in a.iter_mut().enumerate() {
        *x = i as u8 + 1;
    }
    let l = t.slli_u8x16::<3>(a);
    assert_eq!(&l[..5], &[0, 0, 0, 1, 2]);
    assert_eq!(l[15], 13);
    let r = t.srli_u8x16::<3>(a);
    assert_eq!(&r[..2], &[4, 5]);
    assert_eq!(r[12], 16);
    assert_eq!(&r[13..], &[0, 0, 0]);
    assert_eq!(t.slli_u8x16::<16>(a), [0u8; 16]);
    assert_eq!(t.srli_u8x16::<200>(a), [0u8; 16]);
}

#[test]
fn pack_saturates() {
    let t = sse2();
    let r = t.pack_i32x4_to_i16x8([1, -1, 40000, -40000], [32767, -32768, 32768, -32769]);
    assert_eq!(r, [1, -1, 32767, -32768, 32767, -32768, 32767, -32768]);
}

#[test]
fn shuffle_bytes() {
    let t = ssse3();
    let mut a = [0i8; 16];
    for (i, x) in a.iter_mut().enumerate() {
        *x = 3 * i as i8 - 20;
    }
    let mut idx = [0i8; 16];
    for (i, x) in idx.iter_mut().enumerate() {
        *x = 15 - i as i8;
    }
    idx[0] = -1; // high bit set: zero
    idx[1] = 0x13; // only the low four bits count: 3
    let r = t.shuffle_i8x16(a, idx);
    assert_eq!(r[0], 0);
    assert_eq!(r[1], a[3]);
    assert_eq!(r[2], a[13]);
    assert_eq!(r[15], a[0]);
}

#[test]
fn alignr_concatenates_and_shifts() {
    let t = ssse3();
    let a = [0xa0u8, 0xa1, 0xa2, 0xa3, 0xa4, 0xa5, 0xa6, 0xa7, 0xa8, 0xa9, 0xaa, 0xab, 0xac, 0xad, 0xae, 0xaf];
    let b = [0xb0u8, 0xb1, 0xb2, 0xb3, 0xb4, 0xb5, 0xb6, 0xb7, 0xb8, 0xb9, 0xba, 0xbb, 0xbc, 0xbd, 0xbe, 0xbf];
    assert_eq!(t.alignr_u8x16::<0>(a, b), b);
    assert_eq!(t.alignr_u8x16::<16>(a, b), a);
    let r = t.alignr_u8x16::<4>(a, b);
    assert_eq!(&r[..3], &[0xb4, 0xb5, 0xb6]);
    assert_eq!(&r[11..], &[0xbf, 0xa0, 0xa1, 0xa2, 0xa3]);
    let s = t.alignr_u8x16::<20>(a, b);
    assert_eq!(&s[..2], &[0xa4, 0xa5]);
    assert_eq!(&s[12..], &[0, 0, 0, 0]);
    assert_eq!(t.alignr_u8x16::<32>(a, b), [0u8; 16]);
}

#[test]
fn multiply_add_pairs() {
    let t = Mmx::from_features(FeatureSet::empty().with(Feature::Mmx)).unwrap();
    assert_eq!(t.maddwd_i16x4([1, 2, 3, 4], [5, 6, 7, 8]), [17, 53]);
    // both products -32768 * -32768 overflow i32 together and wrap
    assert_eq!(
        t.maddwd_i16x4([i16::MIN, i16::MIN, 0, 0], [i16::MIN, i16::MIN, 0, 0]),
        [i32::MIN, 0]
    );
}

#[test]
fn crc32c_check_value() {
    // CRC-32C of "123456789" with the usual inversion around the accumulator.
    let t = sse42();
    let mut c = 0xffff_ffffu32;
    for b in b"123456789" {
        c = t.crc32_u8(c, *b);
    }
    assert_eq!(!c, 0xe306_9283);
}

#[test]
fn crc32c_wide_forms_take_little_endian_bytes() {
    let t = sse42();
    let data = *b"miraculi";
    let mut by_bytes = 0xffff_ffffu32;
    for b in data {
        by_bytes = t.crc32_u8(by_bytes, b);
    }
    let q = u64::from_le_bytes(data);
    assert_eq!(t.crc32_u64(0xffff_ffff, q), by_bytes as u64);
    // the upper half of the 64-bit accumulator is ignored
    assert_eq!(t.crc32_u64(0xdead_beef_ffff_ffff, q), by_bytes as u64);
    let lo = u32::from_le_bytes([data[0], data[1], data[2], data[3]]);
    let hi = u32::from_le_bytes([data[4], data[5], data[6], data[7]]);
    assert_eq!(t.crc32_u32(t.crc32_u32(0xffff_ffff, lo), hi), by_bytes);
    let w0 = u16::from_le_bytes([data[0], data[1]]);
    let w1 = u16::from_le_bytes([data[2], data[3]]);
    assert_eq!(t.crc32_u16(t.crc32_u16(0xffff_ffff, w0), w1), t.crc32_u32(0xffff_ffff, lo));
    assert_eq!(t.crc32_u8(0, 0), 0);
}
