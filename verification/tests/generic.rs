use simd::Lanes;
use simd::Mask;
use simd::i16x8;
use simd::u16x8;
use simd::bool16ix8;

#[test]
fn from_lanes_takes_an_array() {
    let v: u16x8 = Lanes::from_lanes([1, 2, 3, 4, 5, 6, 7, 8]);
    assert_eq!(v, u16x8::new(1, 2, 3, 4, 5, 6, 7, 8));
}

#[test]
fn from_bools_takes_an_array() {
    let m: bool16ix8 = Mask::from_bools([true, false, true, false, true, false, true, false]);
    assert_eq!(
        m,
        bool16ix8::new(true, false, true, false, true, false, true, false)
    );
}

#[test]
fn bitcast_preserves_bit_patterns() {
    let v = u16x8::splat(0xffff);
    let s: i16x8 = simd::bitcast(v);
    assert_eq!(s, i16x8::splat(-1));
    let back: u16x8 = simd::bitcast(s);
    assert_eq!(back, v);
}
