use miraculix::x86::ops::avx512::avx512bw::Avx512Bw;
use miraculix::x86::ops::avx512::avx512dq::Avx512Dq;
use miraculix::x86::ops::avx512::avx512f::Avx512f;
use miraculix::x86::ops::avx512::avx512vl::{Avx512BwVl, Avx512DqVl};
use miraculix::x86::{Feature, FeatureSet};

fn set(fs: &[Feature]) -> FeatureSet {
    let mut s = FeatureSet::empty();
    for f in fs {
        s = s.with(*f);
    }
    s
}

fn f() -> Avx512f {
    Avx512f::from_features(set(&[Feature::Avx512f])).unwrap()
}

fn dq() -> Avx512Dq {
    Avx512Dq::from_features(set(&[Feature::Avx512dq])).unwrap()
}

fn bw() -> Avx512Bw {
    Avx512Bw::from_features(set(&[Feature::Avx512bw])).unwrap()
}

#[test]
fn kmask_tokens_need_their_feature() {
    assert!(Avx512f::from_features(FeatureSet::empty()).is_none());
    assert!(Avx512Dq::from_features(set(&[Feature::Avx512f])).is_none());
    assert!(Avx512Bw::from_features(set(&[Feature::Avx512f, Feature::Avx512dq])).is_none());
}

#[test]
fn kmask_logic_mask16() {
    let t = f();
    let a: u16 = 0b1100_1010_0101_0011;
    let b: u16 = 0b1010_0110_1111_0000;
    assert_eq!(t.kand_mask16(a, b), a & b);
    assert_eq!(t.kor_mask16(a, b), a | b);
    assert_eq!(t.kxor_mask16(a, b), a ^ b);
    assert_eq!(t.kxnor_mask16(a, b), !(a ^ b));
    assert_eq!(t.kandn_mask16(a, b), !a & b);
    assert_eq!(t.knot_mask16(a), !a);
    assert_eq!(t.kand_mask16(0xff00, 0x0ff0), 0x0f00);
    assert_eq!(t.kandn_mask16(0xff00, 0x0ff0), 0x00f0);
    assert_eq!(t.kxnor_mask16(0xffff, 0x0000), 0x0000);
}

#[test]
fn kmask_logic_mask8_and_add() {
    let t = dq();
    assert_eq!(t.kand_mask8(0b1100, 0b1010), 0b1000);
    assert_eq!(t.kor_mask8(0b1100, 0b1010), 0b1110);
    assert_eq!(t.kxor_mask8(0b1100, 0b1010), 0b0110);
    assert_eq!(t.kxnor_mask8(0b1100, 0b1010), 0b1111_1001);
    assert_eq!(t.kandn_mask8(0b1100, 0b1010), 0b0010);
    assert_eq!(t.knot_mask8(0b1100), 0b1111_0011);
    assert_eq!(t.kadd_mask8(200, 100), 44);
    assert_eq!(t.kadd_mask16(0xffff, 2), 1);
}

#[test]
fn kmask_logic_mask32_mask64() {
    let t = bw();
    assert_eq!(t.kand_mask32(0xf0f0_f0f0, 0xff00_ff00), 0xf000_f000);
    assert_eq!(t.kor_mask32(0xf0f0_f0f0, 0x0f00_0000), 0xfff0_f0f0);
    assert_eq!(t.kxor_mask32(u32::MAX, 1), u32::MAX - 1);
    assert_eq!(t.kxnor_mask32(5, 5), u32::MAX);
    assert_eq!(t.kandn_mask32(1, 3), 2);
    assert_eq!(t.kadd_mask32(u32::MAX, u32::MAX), u32::MAX - 1);
    assert_eq!(t.knot_mask32(0), u32::MAX);
    assert_eq!(t.kand_mask64(u64::MAX, 0x8000_0000_0000_0001), 0x8000_0000_0000_0001);
    assert_eq!(t.kor_mask64(1 << 63, 1), 0x8000_0000_0000_0001);
    assert_eq!(t.kxor_mask64(0xff, 0x0f), 0xf0);
    assert_eq!(t.kxnor_mask64(0, 0), u64::MAX);
    assert_eq!(t.kandn_mask64(0xf0, 0xff), 0x0f);
    assert_eq!(t.kadd_mask64(u64::MAX, 1), 0);
    assert_eq!(t.knot_mask64(u64::MAX), 0);
}

#[test]
fn kmask_shifts_clear_past_the_width() {
    let t16 = f();
    assert_eq!(t16.kshiftli_mask16::<4>(0x0ff1), 0xff10);
    assert_eq!(t16.kshiftri_mask16::<4>(0x0ff1), 0x00ff);
    assert_eq!(t16.kshiftli_mask16::<16>(0xffff), 0);
    assert_eq!(t16.kshiftri_mask16::<200>(0xffff), 0);
    let t8 = dq();
    assert_eq!(t8.kshiftli_mask8::<7>(3), 0x80);
    assert_eq!(t8.kshiftri_mask8::<7>(0x80), 1);
    assert_eq!(t8.kshiftli_mask8::<8>(1), 0);
    let t = bw();
    assert_eq!(t.kshiftli_mask32::<31>(3), 1 << 31);
    assert_eq!(t.kshiftri_mask32::<32>(u32::MAX), 0);
    assert_eq!(t.kshiftli_mask64::<63>(1), 1 << 63);
    assert_eq!(t.kshiftri_mask64::<60>(u64::MAX), 0xf);
    assert_eq!(t.kshiftri_mask64::<64>(u64::MAX), 0);
}

#[test]
fn kmask_flag_tests() {
    let t16 = f();
    assert!(t16.kortestc_mask16(0xff00, 0x00ff));
    assert!(!t16.kortestc_mask16(0xff00, 0x00fe));
    assert!(t16.kortestz_mask16(0, 0));
    assert!(!t16.kortestz_mask16(0, 8));
    let t = dq();
    assert!(t.kortestc_mask8(0xf0, 0x0f));
    assert!(t.kortestz_mask8(0, 0));
    assert!(t.ktestc_mask8(0xff, 0x12));
    assert!(!t.ktestc_mask8(0x0f, 0x12));
    assert!(t.ktestz_mask8(0xf0, 0x0f));
    assert!(!t.ktestz_mask8(0xf0, 0x1f));
    assert!(t.ktestc_mask16(0xff00, 0x0100));
    assert!(!t.ktestz_mask16(0xff00, 0x0100));
    let b = bw();
    assert!(b.kortestc_mask32(0xffff_0000, 0x0000_ffff));
    assert!(!b.kortestz_mask32(1, 0));
    assert!(b.ktestc_mask32(u32::MAX, 7));
    assert!(b.ktestz_mask32(0xaaaa_aaaa, 0x5555_5555));
    assert!(b.kortestc_mask64(u64::MAX, 0));
    assert!(b.kortestz_mask64(0, 0));
    assert!(!b.ktestc_mask64(0, 1));
    assert!(b.ktestz_mask64(1 << 63, 1));
}

#[test]
fn kmask_mask_between() {
    assert_eq!(dq().mask_between_mask8(0), 0);
    assert_eq!(dq().mask_between_mask8(3), 0b111);
    assert_eq!(dq().mask_between_mask8(8), 0xff);
    assert_eq!(dq().mask_between_mask8(100), 0xff);
    assert_eq!(f().mask_between_mask16(15), 0x7fff);
    assert_eq!(f().mask_between_mask16(16), 0xffff);
    assert_eq!(bw().mask_between_mask32(31), 0x7fff_ffff);
    assert_eq!(bw().mask_between_mask32(u32::MAX), u32::MAX);
    assert_eq!(bw().mask_between_mask64(63), u64::MAX >> 1);
    assert_eq!(bw().mask_between_mask64(1), 1);
    assert_eq!(bw().mask_between_mask64(64), u64::MAX);
}

#[test]
fn kmask_bridges_512() {
    let b = bw();
    let mut v = [0i8; 64];
    v[0] = -1;
    v[5] = -128;
    v[63] = -7;
    v[10] = 127;
    let m = b.movepi8_mask(v);
    assert_eq!(m, (1 << 0) | (1 << 5) | (1 << 63));
    let back = b.movm_epi8(m);
    for i in 0..64 {
        assert_eq!(back[i], if v[i] < 0 { -1 } else { 0 });
    }
    assert_eq!(b.movepi8_mask(b.movm_epi8(0x0123_4567_89ab_cdef)), 0x0123_4567_89ab_cdef);
    let w = b.movm_epi16(0x8000_0001);
    assert_eq!(w[0], -1);
    assert_eq!(w[31], -1);
    assert_eq!(w[1], 0);
    assert_eq!(b.movepi16_mask(w), 0x8000_0001);
    let d = dq();
    let mut x = [5i32; 16];
    x[3] = i32::MIN;
    x[15] = -1;
    assert_eq!(d.movepi32_mask(x), (1 << 3) | (1 << 15));
    assert_eq!(d.movepi32_mask(d.movm_epi32(0xbeef)), 0xbeef);
    let q = d.movm_epi64(0b1010_0101);
    assert_eq!(q, [-1, 0, -1, 0, 0, -1, 0, -1]);
    assert_eq!(d.movepi64_mask(q), 0b1010_0101);
}

#[test]
fn kmask_bridges_narrow() {
    let b = Avx512BwVl::from_features(set(&[Feature::Avx512bw, Feature::Avx512vl])).unwrap();
    let mut v = [1i8; 16];
    v[15] = -1;
    v[2] = -3;
    assert_eq!(b.movepi8_mask_x16(v), 0x8004);
    assert_eq!(b.movm_epi8_x16(0x8004)[2], -1);
    assert_eq!(b.movepi8_mask_x32(b.movm_epi8_x32(0xdead_beef)), 0xdead_beef);
    assert_eq!(b.movepi16_mask_x8([-1, 0, 0, 0, 0, 0, 0, -2]), 0x81);
    assert_eq!(b.movm_epi16_x8(0x81), [-1, 0, 0, 0, 0, 0, 0, -1]);
    assert_eq!(b.movepi16_mask_x16(b.movm_epi16_x16(0x1234)), 0x1234);
    let d = Avx512DqVl::from_features(set(&[Feature::Avx512dq, Feature::Avx512vl])).unwrap();
    assert_eq!(d.movepi32_mask_x4([-1, 2, -3, 4]), 0b0101);
    assert_eq!(d.movm_epi32_x4(0xff), [-1, -1, -1, -1]);
    assert_eq!(d.movepi32_mask_x4(d.movm_epi32_x4(0xff)), 0x0f);
    assert_eq!(d.movepi32_mask_x8(d.movm_epi32_x8(0xa5)), 0xa5);
    assert_eq!(d.movepi64_mask_x2([i64::MIN, 0]), 1);
    assert_eq!(d.movm_epi64_x2(0b10), [0, -1]);
    assert_eq!(d.movepi64_mask_x4([0, -1, 0, -1]), 0b1010);
    assert_eq!(d.movm_epi64_x4(0xf3), [-1, -1, 0, 0]);
}
