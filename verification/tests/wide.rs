use simd::LowHigh128;
use simd::bool32ix8;
use simd::bool8ix32;
use simd::bool64ix4;
use simd::i16x16;
use simd::i64x4;
use simd::u16x16;
use simd::u32x8;
use simd::u64x4;
use simd::u8x32;

#[test]
fn wide_new_extract() {
    let v = u32x8::new(1, 2, 3, 4, 5, 6, 7, 8);
    for i in 0..8 {
        assert_eq!(v.extract(i), (i + 1) as u32);
    }
}

#[test]
fn wide_new_extract_32_lanes() {
    let v = u8x32::new(
        0, 1, 2, 3, 4, 5, 6, 7, 8, 9, 10, 11, 12, 13, 14, 15, 16, 17, 18, 19, 20, 21, 22, 23,
        24, 25, 26, 27, 28, 29, 30, 31,
    );
    for i in 0..32 {
        assert_eq!(v.extract(i), i as u8);
    }
}

#[test]
fn low_high_split_u32x8() {
    let v = u32x8::new(1, 2, 3, 4, 5, 6, 7, 8);
    let lo = v.low();
    let hi = v.high();
    assert_eq!(lo.extract(0), 1);
    assert_eq!(lo.extract(3), 4);
    assert_eq!(hi.extract(0), 5);
    assert_eq!(hi.extract(3), 8);
}

#[test]
fn low_high_roundtrip_u64x4() {
    let v = u64x4::new(11, 22, 33, 44);
    let lo = v.low();
    let hi = v.high();
    let back = u64x4::new(lo.extract(0), lo.extract(1), hi.extract(0), hi.extract(1));
    assert_eq!(back, v);
}

#[test]
fn low_high_roundtrip_i16x16() {
    let v = i16x16::new(
        -1, 2, -3, 4, -5, 6, -7, 8, -9, 10, -11, 12, -13, 14, -15, 16,
    );
    let lo = v.low();
    let hi = v.high();
    let back = i16x16::new(
        lo.extract(0),
        lo.extract(1),
        lo.extract(2),
        lo.extract(3),
        lo.extract(4),
        lo.extract(5),
        lo.extract(6),
        lo.extract(7),
        hi.extract(0),
        hi.extract(1),
        hi.extract(2),
        hi.extract(3),
        hi.extract(4),
        hi.extract(5),
        hi.extract(6),
        hi.extract(7),
    );
    assert_eq!(back, v);
}

#[test]
fn mask_low_high_keeps_truths() {
    let m = bool32ix8::new(true, false, true, false, false, true, false, true);
    let lo = m.low();
    let hi = m.high();
    assert!(lo.extract(0));
    assert!(!lo.extract(1));
    assert!(lo.extract(2));
    assert!(!lo.extract(3));
    assert!(!hi.extract(0));
    assert!(hi.extract(1));
    assert!(!hi.extract(2));
    assert!(hi.extract(3));
}

#[test]
fn wide_all_any_via_halves() {
    let m = bool64ix4::new(true, true, true, true);
    assert!(m.low().all() && m.high().all());
    assert!(m.all());
    let m2 = bool64ix4::new(false, false, true, false);
    assert!(m2.low().any() || m2.high().any());
    assert!(m2.any());
    assert!(!m2.all());
}

#[test]
fn wide_mask_32_lanes() {
    let m = bool8ix32::new(
        true, false, false, false, false, false, false, false, false, false, false, false,
        false, false, false, false, false, false, false, false, false, false, false, false,
        false, false, false, false, false, false, false, true,
    );
    assert!(m.extract(0));
    assert!(m.extract(31));
    assert!(!m.extract(15));
    assert!(m.any());
    assert!(!m.all());
    assert!(m.low().extract(0));
    assert!(m.high().extract(15));
}

#[test]
fn wide_arithmetic_matches_narrow() {
    let a = u16x16::splat(0xffff);
    let b = u16x16::splat(2);
    let s = a.add(b);
    for i in 0..16 {
        assert_eq!(s.extract(i), 1);
    }
    assert_eq!(s.low(), a.low().add(b.low()));
    assert_eq!(s.high(), a.high().add(b.high()));
}

#[test]
fn wide_reinterpret() {
    let v = u64x4::new(u64::MAX, 0, 1, u64::MAX);
    let s = v.to_i64();
    assert_eq!(s.extract(0), -1);
    assert_eq!(s.extract(1), 0);
    assert_eq!(s.extract(2), 1);
    assert_eq!(s.extract(3), -1);
    assert_eq!(s.to_u64(), v);
    assert_eq!(i64x4::splat(-1).to_u64(), u64x4::splat(u64::MAX));
}

#[test]
fn wide_select() {
    let m = bool32ix8::new(true, true, false, false, true, false, true, false);
    let r: u32x8 = m.select(u32x8::splat(1), u32x8::splat(0));
    for i in 0..8 {
        assert_eq!(r.extract(i) == 1, m.extract(i));
    }
}
