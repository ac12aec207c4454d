use miraculix::x86::ops::avx512::avx512vl::{
    Avx512BitalgVl, Avx512DqVl, Avx512FVl, Avx512IfmaVl, Avx512Vbmi2Vl, Avx512VbmiVl, Avx512VnniVl,
    Avx512VpopcntdqVl,
};
use miraculix::x86::ops::other::xop::Xop;
use miraculix::x86::{Feature, FeatureSet};

fn with_vl(f: Feature) -> FeatureSet {
    FeatureSet::empty().with(f).with(Feature::Avx512vl)
}

#[test]
fn vl_popcounts() {
    let t = Avx512BitalgVl::from_features(with_vl(Feature::Avx512bitalg)).unwrap();
    let mut a = [0u8; 16];
    a[0] = 0xff;
    a[1] = 0x81;
    a[15] = 0x10;
    let r = t.popcnt_u8x16(a);
    assert_eq!((r[0], r[1], r[2], r[15]), (8, 2, 0, 1));
    assert_eq!(t.popcnt_u16x8([0xffff, 0x8001, 0, 7, 1, 2, 3, 0x00f0]), [16, 2, 0, 3, 1, 1, 2, 4]);
    let v: Vec<u16> = (0..20u16).collect();
    let mut out = vec![0u16; 20];
    t.popcnt_u16_slice_wide(&v, &mut out);
    for i in 0..20 {
        assert_eq!(out[i], v[i].count_ones() as u16);
    }
    let d = Avx512VpopcntdqVl::from_features(with_vl(Feature::Avx512vpopcntdq)).unwrap();
    assert_eq!(d.popcnt_u32x4([u32::MAX, 0, 5, 1 << 31]), [32, 0, 2, 1]);
    assert_eq!(d.popcnt_u64x2([u64::MAX, 3]), [64, 2]);
    let w: Vec<u64> = vec![1, 3, 7, 15, 31];
    let mut o = vec![0u64; 5];
    d.popcnt_u64_slice_wide(&w, &mut o);
    assert_eq!(o, vec![1, 2, 3, 4, 5]);
}

#[test]
fn vl_mullo_and_moves() {
    let t = Avx512DqVl::from_features(with_vl(Feature::Avx512dq)).unwrap();
    assert_eq!(t.mullo_u64x2([u64::MAX, 1 << 32], [2, 1 << 32]), [u64::MAX - 1, 0]);
    assert_eq!(t.mullo_i64x4([-3, 4, i64::MIN, 7], [5, -6, -1, 0]), [-15, -24, i64::MIN, 0]);
    assert_eq!(t.mullo_i64x2_merge_masked([9, 9], 0b10, [2, 3], [4, 5]), [9, 15]);
    assert_eq!(t.mullo_u64x4_zero_masked(0b0101, [2; 4], [3; 4]), [6, 0, 6, 0]);
    let a: Vec<i64> = vec![1, -2, 3, -4, 5];
    let mut out = vec![0i64; 5];
    t.mullo_i64_slice_wide(&a, &a, &mut out);
    assert_eq!(out, vec![1, 4, 9, 16, 25]);
    assert_eq!(t.broadcast_i32x2_to_x8([1, 2, 3, 4]), [1, 2, 1, 2, 1, 2, 1, 2]);
    assert_eq!(t.broadcast_i64x2_to_x4_zero_masked(0b1001, [7, 8]), [7, 0, 0, 8]);
    assert_eq!(t.extract_i64x2_from_x4::<1>([1, 2, 3, 4]), [3, 4]);
    assert_eq!(t.extract_i64x2_from_x4::<2>([1, 2, 3, 4]), [1, 2]);
    assert_eq!(t.extract_i64x2_from_x4_merge_masked::<0>([9, 9], 0b10, [1, 2, 3, 4]), [9, 2]);
    assert_eq!(t.insert_i64x2_into_x4::<0>([1, 2, 3, 4], [9, 8]), [9, 8, 3, 4]);
    assert_eq!(t.insert_i64x2_into_x4::<1>([1, 2, 3, 4], [9, 8]), [1, 2, 9, 8]);
    assert_eq!(t.insert_i64x2_into_x4_zero_masked::<1>(0b1100, [1, 2, 3, 4], [9, 8]), [0, 0, 9, 8]);
}

#[test]
fn vl_ifma() {
    let t = Avx512IfmaVl::from_features(with_vl(Feature::Avx512ifma)).unwrap();
    let f = 1u64 << 52;
    assert_eq!(t.madd52lo_u64x2([1, 0], [f + 3, f - 1], [5, f - 1]), [16, 1]);
    assert_eq!(t.madd52hi_u64x2([0, 10], [1 << 51, f - 1], [4, f - 1]), [2, 10 + f - 2]);
    assert_eq!(t.madd52lo_u64x4([u64::MAX, 0, 0, 0], [1, 0, 0, 0], [1, 0, 0, 0]), [0, 0, 0, 0]);
    assert_eq!(t.madd52hi_u64x2_merge_masked([5, 5], 0b01, [1 << 51, 0], [4, 0]), [7, 5]);
    let a = vec![1u64, 2, 3];
    let mut out = vec![0u64; 3];
    t.madd52lo_u64_slice(&a, &a, &a, &mut out);
    assert_eq!(out, vec![2, 6, 12]);
}

#[test]
fn vl_vnni() {
    let t = Avx512VnniVl::from_features(with_vl(Feature::Avx512vnni)).unwrap();
    let mut a = [0u8; 16];
    for i in 0..16 {
        a[i] = (i + 1) as u8;
    }
    assert_eq!(t.dpbusd_i32x4([0; 4], a, [1; 16]), [10, 26, 42, 58]);
    assert_eq!(t.dpbusd_i32x4([0; 4], [255; 16], [-128; 16]), [-130560; 4]);
    assert_eq!(t.dpbusds_i32x4([i32::MAX; 4], [255; 16], [127; 16]), [i32::MAX; 4]);
    assert_eq!(t.dpwssd_i32x8([1; 8], [2; 16], [3; 16]), [13; 8]);
    assert_eq!(t.dpwssds_i32x4([i32::MIN; 4], [i16::MIN; 8], [i16::MAX; 8]), [i32::MIN; 4]);
    assert_eq!(t.dpwssd_i32x4_zero_masked(0b0001, [1; 4], [2; 8], [3; 8]), [13, 0, 0, 0]);
    assert_eq!(t.dpbusd_i32x8_merge_masked([4; 8], 0, [1; 32], [1; 32]), [4; 8]);
    let src = vec![0i32, 100];
    let x = vec![1u8, 2, 3, 4, 5, 6, 7, 8];
    let y = vec![1i8, 1, 1, 1, -1, -1, -1, -1];
    let mut out = vec![0i32; 2];
    t.dpbusd_i32_slice_wide(&src, &x, &y, &mut out);
    assert_eq!(out, vec![10, 74]);
}

#[test]
fn vl_funnel_shifts() {
    let t = Avx512Vbmi2Vl::from_features(with_vl(Feature::Avx512vbmi2)).unwrap();
    assert_eq!(t.shldi_u16x8::<4>([0x1234; 8], [0xabcd; 8]), [0x234a; 8]);
    assert_eq!(t.shrdi_u16x8::<4>([0x1234; 8], [0xabcd; 8]), [0xd123; 8]);
    assert_eq!(t.shldi_u16x8::<20>([0x1234; 8], [0xabcd; 8]), [0x234a; 8]);
    assert_eq!(t.shldi_i16x16::<4>([-1; 16], [0; 16]), [-16; 16]);
    assert_eq!(t.shldv_u32x4([0x8000_0001; 4], [0xf000_0000; 4], [4, 0, 32, 36]), [0x1f, 0x8000_0001, 0x8000_0001, 0x1f]);
    assert_eq!(t.shrdv_u64x2([1, 1], [1, 1], [1, 65]), [1 << 63 | 0, 1 << 63]);
    assert_eq!(t.shrdv_i32x8_zero_masked(0b1, [2; 8], [0; 8], [1; 8]), [1, 0, 0, 0, 0, 0, 0, 0]);
    assert_eq!(t.shldv_i64x2_merge_masked([5, 6], 0b10, [1, 1], [4, 4]), [5, 96]);
    let a: Vec<u32> = vec![1, 2, 3, 4, 5];
    let b: Vec<u32> = vec![0x8000_0000; 5];
    let mut out = vec![0u32; 5];
    t.shldi_u32_slice::<1>(&a, &b, &mut out);
    assert_eq!(out, vec![3, 5, 7, 9, 11]);
    let c: Vec<i16> = vec![1; 9];
    let mut o = vec![0i16; 9];
    t.shrdv_i16_slice(&c, &c, &c, &mut o);
    assert_eq!(o, vec![i16::MIN; 9]);
}

#[test]
fn vl_ternary_logic() {
    let t = Avx512FVl::from_features(with_vl(Feature::Avx512f)).unwrap();
    let a = [0xf0f0_f0f0u32, 0, u32::MAX, 0x1234_5678];
    let b = [0xff00_ff00u32, 0, 0, 0x0f0f_0f0f];
    let c = [0xaaaa_aaaau32, u32::MAX, 0, 0xffff_0000];
    let xor3 = t.ternarylogic_u32x4::<0x96>(a, b, c);
    let maj = t.ternarylogic_u32x4::<0xE8>(a, b, c);
    let sel = t.ternarylogic_u32x4::<0xCA>(a, b, c);
    for i in 0..4 {
        assert_eq!(xor3[i], a[i] ^ b[i] ^ c[i]);
        assert_eq!(maj[i], (a[i] & b[i]) | (a[i] & c[i]) | (b[i] & c[i]));
        assert_eq!(sel[i], (a[i] & b[i]) | (!a[i] & c[i]));
    }
    assert_eq!(t.ternarylogic_i64x2::<0xff>([1, 2], [3, 4], [5, 6]), [-1, -1]);
    assert_eq!(t.ternarylogic_u64x4::<0x00>([1; 4], [2; 4], [3; 4]), [0; 4]);
    // Merge form reads (src, a, b): 0xF0 copies its first operand.
    assert_eq!(t.ternarylogic_i32x8_merge_masked::<0xAA>([1; 8], 0b11, [2; 8], [3; 8]), [3, 3, 1, 1, 1, 1, 1, 1]);
    assert_eq!(t.ternarylogic_u32x8_zero_masked::<0xF0>(0b1, [7; 8], [8; 8], [9; 8]), [7, 0, 0, 0, 0, 0, 0, 0]);
}

#[test]
fn vl_masked_byte_permutes() {
    let t = Avx512VbmiVl::from_features(with_vl(Feature::Avx512vbmi)).unwrap();
    let mut a = [0u8; 16];
    for i in 0..16 {
        a[i] = 100 + i as u8;
    }
    let idx = [15u8; 16];
    let r = t.permutexvar_u8x16_merge_masked([1; 16], 0x0003, idx, a);
    assert_eq!((r[0], r[1], r[2]), (115, 115, 1));
    let z = t.permutex2var_u8x16_zero_masked(0x0001, a, [0x10 | 2; 16], [7; 16]);
    assert_eq!((z[0], z[1]), (7, 0));
    let m = t.multishift_u8x16_merge_masked([0; 16], 0xffff, [8; 16], [1, 2, 3, 4, 5, 6, 7, 8, 9, 10, 11, 12, 13, 14, 15, 16]);
    assert_eq!(m[0], 2);
    assert_eq!(m[8], 10);
}

#[test]
fn vl_funnel_shift_of_a_lane_with_itself_rotates() {
    let t = Avx512Vbmi2Vl::from_features(with_vl(Feature::Avx512vbmi2)).unwrap();
    let x = Xop::from_features(FeatureSet::empty().with(Feature::Xop)).unwrap();
    let a = [0x8000_0001u32, 0x1234_5678, u32::MAX, 0];
    let c = [1u32, 12, 31, 33];
    assert_eq!(t.shldv_u32x4(a, a, c), x.rotl_u32x4(a, c));
    assert_eq!(t.shldv_u32x4(a, a, c), [0x0000_0003, 0x4567_8123, u32::MAX, 0]);
}
