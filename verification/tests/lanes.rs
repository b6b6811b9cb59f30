use simd::i16x8;
use simd::i32x4;
use simd::i8x16;
use simd::u16x8;
use simd::u32x4;
use simd::u64x2;
use simd::u8x16;
use simd::i64x2;

#[test]
fn new_extract_u32x4() {
    let v = u32x4::new(1, 2, 3, 4);
    assert_eq!(v.extract(0), 1);
    assert_eq!(v.extract(1), 2);
    assert_eq!(v.extract(2), 3);
    assert_eq!(v.extract(3), 4);
}

#[test]
fn new_extract_i8x16() {
    let v = i8x16::new(0, -1, 2, -3, 4, -5, 6, -7, 8, -9, 10, -11, 12, -13, 14, -128);
    assert_eq!(v.extract(0), 0);
    assert_eq!(v.extract(1), -1);
    assert_eq!(v.extract(14), 14);
    assert_eq!(v.extract(15), -128);
}

#[test]
fn new_extract_u64x2() {
    let v = u64x2::new(u64::MAX, 7);
    assert_eq!(v.extract(0), u64::MAX);
    assert_eq!(v.extract(1), 7);
}

#[test]
fn splat_fills_every_lane() {
    let v = u16x8::splat(0xabcd);
    for i in 0..8 {
        assert_eq!(v.extract(i), 0xabcd);
    }
}

#[test]
fn replace_changes_one_lane() {
    let v = u32x4::new(1, 2, 3, 4).replace(2, 30);
    assert_eq!(v.extract(0), 1);
    assert_eq!(v.extract(1), 2);
    assert_eq!(v.extract(2), 30);
    assert_eq!(v.extract(3), 4);
}

#[test]
fn add_wraps() {
    let v = u8x16::splat(250).add(u8x16::splat(10));
    for i in 0..16 {
        assert_eq!(v.extract(i), 4);
    }
}

#[test]
fn sub_wraps() {
    let v = u32x4::new(0, 5, 10, 1).sub(u32x4::splat(3));
    assert_eq!(v.extract(0), u32::MAX - 2);
    assert_eq!(v.extract(1), 2);
    assert_eq!(v.extract(2), 7);
    assert_eq!(v.extract(3), u32::MAX - 1);
}

#[test]
fn mul_wraps() {
    let v = i16x8::splat(1000).mul(i16x8::splat(1000));
    // 1_000_000 mod 65536 = 16960, reinterpreted as a signed 16-bit value.
    for i in 0..8 {
        assert_eq!(v.extract(i), 16960);
    }
}

#[test]
fn neg_of_negative_min_wraps() {
    // The minimum-representable lane negates to itself under wraparound.
    let v = i8x16::splat(-128);
    let n = v.neg();
    for i in 0..16 {
        assert_eq!(n.extract(i), -128);
    }
}

#[test]
fn neg_neg_is_identity() {
    let v = i32x4::new(i32::MIN, -7, 0, 42);
    let back = v.neg().neg();
    assert_eq!(back, v);
}

#[test]
fn neg_neg_is_identity_at_signed_minimum() {
    let v = i8x16::splat(-128);
    assert_eq!(v.neg().neg(), v);
}

#[test]
fn bitwise_ops() {
    let a = u32x4::splat(0b1100);
    let b = u32x4::splat(0b1010);
    assert_eq!(a.and(b).extract(0), 0b1000);
    assert_eq!(a.or(b).extract(0), 0b1110);
    assert_eq!(a.xor(b).extract(0), 0b0110);
    assert_eq!(a.not().extract(0), !0b1100u32);
}

#[test]
fn shifts_apply_one_amount_to_every_lane() {
    let v = u16x8::new(1, 2, 4, 8, 16, 32, 64, 128).shl(3);
    assert_eq!(v.extract(0), 8);
    assert_eq!(v.extract(7), 1024);
    let w = v.shr(3);
    assert_eq!(w.extract(0), 1);
    assert_eq!(w.extract(7), 128);
}

#[test]
fn arithmetic_shift_right_keeps_sign() {
    let v = i32x4::new(-8, 8, -1, 0).shr(2);
    assert_eq!(v.extract(0), -2);
    assert_eq!(v.extract(1), 2);
    assert_eq!(v.extract(2), -1);
    assert_eq!(v.extract(3), 0);
}

#[test]
fn load_store_roundtrip() {
    let v = u32x4::new(9, 8, 7, 6);
    let mut buf = [0u32; 10];
    v.store(&mut buf, 3);
    assert_eq!(&buf[..3], &[0, 0, 0]);
    assert_eq!(&buf[3..7], &[9, 8, 7, 6]);
    assert_eq!(&buf[7..], &[0, 0, 0]);
    let w = u32x4::load(&buf, 3);
    assert_eq!(w, v);
}

#[test]
fn load_reads_consecutive_elements() {
    let buf: Vec<i64> = vec![10, 20, 30, 40];
    let v = i64x2::load(&buf, 1);
    assert_eq!(v.extract(0), 20);
    assert_eq!(v.extract(1), 30);
}

#[test]
fn store_at_offset_zero() {
    let mut buf = [1i8; 16];
    i8x16::splat(-5).store(&mut buf, 0);
    assert_eq!(buf, [-5i8; 16]);
}

#[test]
fn comparisons_produce_expected_masks() {
    let a = u32x4::new(1, 5, 5, 9);
    let b = u32x4::new(2, 5, 4, 9);
    let lt = a.lt(b);
    assert!(lt.extract(0) && !lt.extract(1) && !lt.extract(2) && !lt.extract(3));
    let le = a.le(b);
    assert!(le.extract(0) && le.extract(1) && !le.extract(2) && le.extract(3));
    let gt = a.gt(b);
    assert!(!gt.extract(0) && !gt.extract(1) && gt.extract(2) && !gt.extract(3));
    let ge = a.ge(b);
    assert!(!ge.extract(0) && ge.extract(1) && ge.extract(2) && ge.extract(3));
    let eq = a.eq(b);
    assert!(!eq.extract(0) && eq.extract(1) && !eq.extract(2) && eq.extract(3));
    let ne = a.ne(b);
    assert!(ne.extract(0) && !ne.extract(1) && ne.extract(2) && !ne.extract(3));
}

#[test]
fn signed_comparison_orders_by_value() {
    let a = i16x8::splat(-3);
    let b = i16x8::splat(2);
    assert!(a.lt(b).all());
}

#[test]
fn reinterpret_conversions_keep_bits() {
    let v = u32x4::new(0, 1, 0x8000_0000, u32::MAX);
    let s = v.to_i32();
    assert_eq!(s.extract(0), 0);
    assert_eq!(s.extract(1), 1);
    assert_eq!(s.extract(2), i32::MIN);
    assert_eq!(s.extract(3), -1);
    assert_eq!(s.to_u32(), v);
}

#[test]
fn reinterpret_u8_i8() {
    let v = u8x16::splat(0xff);
    assert_eq!(v.to_i8(), i8x16::splat(-1));
    assert_eq!(i8x16::splat(-1).to_u8(), v);
}

#[test]
fn reinterpret_u16_i16() {
    let v = u16x8::splat(0x8000);
    assert_eq!(v.to_i16(), i16x8::splat(i16::MIN));
    assert_eq!(i16x8::splat(i16::MIN).to_u16(), v);
}

#[test]
fn reinterpret_u64_i64() {
    let v = u64x2::new(u64::MAX, 0);
    let s = v.to_i64();
    assert_eq!(s.extract(0), -1);
    assert_eq!(s.extract(1), 0);
    assert_eq!(s.to_u64(), v);
}
