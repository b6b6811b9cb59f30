use simd::bool16ix8;
use simd::bool32fx4;
use simd::bool32ix4;
use simd::bool64fx2;
use simd::bool64ix2;
use simd::bool8ix16;
use simd::bool8i;
use simd::bool32i;
use simd::i32x4;
use simd::u32x4;

#[test]
fn mask_new_extract() {
    let m = bool32ix4::new(true, false, true, false);
    assert!(m.extract(0));
    assert!(!m.extract(1));
    assert!(m.extract(2));
    assert!(!m.extract(3));
}

#[test]
fn mask_splat() {
    let t = bool16ix8::splat(true);
    let f = bool16ix8::splat(false);
    for i in 0..8 {
        assert!(t.extract(i));
        assert!(!f.extract(i));
    }
}

#[test]
fn mask_replace() {
    let m = bool32ix4::splat(false).replace(1, true);
    assert!(!m.extract(0));
    assert!(m.extract(1));
    assert!(!m.extract(2));
    assert!(!m.extract(3));
}

#[test]
fn repr_lanes_are_saturated() {
    // Each mask lane reads back as exactly 0 or -1, before and after logic.
    let m = bool32ix4::new(true, false, true, false);
    let r = m.to_repr();
    assert_eq!(r.extract(0), -1);
    assert_eq!(r.extract(1), 0);
    assert_eq!(r.extract(2), -1);
    assert_eq!(r.extract(3), 0);
    let n = m.not().xor(m.and(m)).or(m);
    let nr = n.to_repr();
    for i in 0..4 {
        let lane = nr.extract(i);
        assert!(lane == 0 || lane == -1);
    }
}

#[test]
fn from_repr_to_repr_roundtrip() {
    let m = bool8ix16::new(
        true, false, false, true, true, true, false, false, true, false, true, false, true,
        false, true, true,
    );
    assert_eq!(bool8ix16::from_repr(m.to_repr()), m);
}

#[test]
fn mask_logic_is_boolean_logic() {
    let a = bool32ix4::new(true, true, false, false);
    let b = bool32ix4::new(true, false, true, false);
    let and = a.and(b);
    let or = a.or(b);
    let xor = a.xor(b);
    let not = a.not();
    for i in 0..4 {
        let (x, y) = (a.extract(i), b.extract(i));
        assert_eq!(and.extract(i), x && y);
        assert_eq!(or.extract(i), x || y);
        assert_eq!(xor.extract(i), x != y);
        assert_eq!(not.extract(i), !x);
    }
}

#[test]
fn select_picks_lane_by_mask() {
    let m = bool32ix4::new(true, false, true, false);
    let then = u32x4::new(1, 2, 3, 4);
    let else_ = u32x4::new(10, 20, 30, 40);
    let r: u32x4 = m.select(then, else_);
    assert_eq!(r, u32x4::new(1, 20, 3, 40));
}

#[test]
fn select_works_on_signed_vectors() {
    let m = bool32ix4::new(false, true, false, true);
    let r: i32x4 = m.select(i32x4::splat(-1), i32x4::splat(7));
    assert_eq!(r, i32x4::new(7, -1, 7, -1));
}

#[test]
fn select_works_on_masks_themselves() {
    let m = bool32ix4::new(true, true, false, false);
    let a = bool32ix4::new(true, false, true, false);
    let b = bool32ix4::new(false, true, false, true);
    let r: bool32ix4 = m.select(a, b);
    assert!(r.extract(0));
    assert!(!r.extract(1));
    assert!(!r.extract(2));
    assert!(r.extract(3));
}

#[test]
fn all_any_all_true() {
    let m = bool32ix4::splat(true);
    assert!(m.all());
    assert!(m.any());
}

#[test]
fn all_any_all_false() {
    let m = bool32ix4::splat(false);
    assert!(!m.all());
    assert!(!m.any());
}

#[test]
fn all_any_mixed() {
    let m = bool32ix4::new(true, false, false, false);
    assert!(!m.all());
    assert!(m.any());
}

#[test]
fn all_any_two_lanes() {
    assert!(bool64ix2::new(true, true).all());
    assert!(!bool64ix2::new(true, false).all());
    assert!(bool64ix2::new(false, true).any());
    assert!(!bool64ix2::new(false, false).any());
}

#[test]
fn flavor_conversion_keeps_lanes() {
    let m = bool32ix4::new(true, false, false, true);
    let f = m.to_f();
    assert!(f.extract(0));
    assert!(!f.extract(1));
    assert!(!f.extract(2));
    assert!(f.extract(3));
    assert_eq!(f.to_i(), m);
}

#[test]
fn flavor_conversion_64() {
    let m = bool64fx2::new(false, true);
    let i = m.to_i();
    assert!(!i.extract(0));
    assert!(i.extract(1));
    assert_eq!(i.to_f(), m);
}

#[test]
fn move_mask_collects_one_bit_per_lane() {
    let m = bool32ix4::new(true, false, true, true);
    assert_eq!(m.move_mask(), 0b1101);
    assert_eq!(bool32ix4::splat(false).move_mask(), 0);
    assert_eq!(bool32ix4::splat(true).move_mask(), 0b1111);
}

#[test]
fn move_mask_sixteen_lanes() {
    let m = bool8ix16::new(
        true, false, false, false, false, false, false, false, false, false, false, false,
        false, false, false, true,
    );
    assert_eq!(m.move_mask(), 0x8001);
}

#[test]
fn scalar_bool_roundtrip() {
    assert!(bool8i::from_bool(true).to_bool());
    assert!(!bool8i::from_bool(false).to_bool());
    assert!(bool32i::from_bool(true).to_bool());
    assert!(!bool32i::from_bool(false).to_bool());
}

#[test]
fn float_flavored_mask_matches_integer_flavor() {
    let f = bool32fx4::new(true, true, false, true);
    assert!(f.any());
    assert!(!f.all());
    assert_eq!(f.move_mask(), 0b1011);
}
