use simd::bool32fx4;
use simd::bool64fx2;
use simd::bool8ix16;
use simd::i16x8;
use simd::i32x4;
use simd::i8x16;
use simd::u16x8;
use simd::u32x4;
use simd::u8x16;
use simd::x86::sse2::Sse2Bool32fx4;
use simd::x86::sse2::Sse2Bool64fx2;
use simd::x86::sse2::Sse2Bool8ix16;
use simd::x86::sse2::Sse2I16x8;
use simd::x86::sse2::Sse2I32x4;
use simd::x86::sse2::Sse2I8x16;
use simd::x86::sse2::Sse2U16x8;
use simd::x86::sse2::Sse2U32x4;
use simd::x86::sse2::Sse2U8x16;

#[test]
fn saturating_add_u8() {
    let v = u8x16::splat(200).adds(u8x16::splat(100));
    assert_eq!(v, u8x16::splat(255));
    let w = u8x16::splat(3).adds(u8x16::splat(4));
    assert_eq!(w, u8x16::splat(7));
}

#[test]
fn saturating_sub_u8() {
    assert_eq!(u8x16::splat(3).subs(u8x16::splat(10)), u8x16::splat(0));
    assert_eq!(u8x16::splat(10).subs(u8x16::splat(3)), u8x16::splat(7));
}

#[test]
fn saturating_add_i8() {
    assert_eq!(i8x16::splat(100).adds(i8x16::splat(100)), i8x16::splat(127));
    assert_eq!(i8x16::splat(-100).adds(i8x16::splat(-100)), i8x16::splat(-128));
    assert_eq!(i8x16::splat(-3).adds(i8x16::splat(5)), i8x16::splat(2));
}

#[test]
fn saturating_sub_i8() {
    assert_eq!(i8x16::splat(-100).subs(i8x16::splat(100)), i8x16::splat(-128));
    assert_eq!(i8x16::splat(100).subs(i8x16::splat(-100)), i8x16::splat(127));
}

#[test]
fn saturating_add_sub_u16() {
    assert_eq!(
        u16x8::splat(0xfff0).adds(u16x8::splat(0x20)),
        u16x8::splat(0xffff)
    );
    assert_eq!(u16x8::splat(5).subs(u16x8::splat(9)), u16x8::splat(0));
}

#[test]
fn saturating_add_sub_i16() {
    assert_eq!(
        i16x8::splat(30000).adds(i16x8::splat(10000)),
        i16x8::splat(32767)
    );
    assert_eq!(
        i16x8::splat(-30000).subs(i16x8::splat(10000)),
        i16x8::splat(-32768)
    );
}

#[test]
fn average_rounds_up() {
    assert_eq!(u8x16::splat(1).avg(u8x16::splat(2)), u8x16::splat(2));
    assert_eq!(u8x16::splat(255).avg(u8x16::splat(255)), u8x16::splat(255));
    assert_eq!(u16x8::splat(7).avg(u16x8::splat(8)), u16x8::splat(8));
}

#[test]
fn mulhi_takes_high_half() {
    // 0x4000 * 0x4000 = 0x1000_0000; the high 16 bits are 0x1000.
    assert_eq!(
        u16x8::splat(0x4000).mulhi(u16x8::splat(0x4000)),
        u16x8::splat(0x1000)
    );
    // (-2) * 0x4000 = -0x8000, whose arithmetic shift by 16 is -1.
    assert_eq!(i16x8::splat(-2).mulhi(i16x8::splat(0x4000)), i16x8::splat(-1));
    assert_eq!(
        i16x8::splat(0x4000).mulhi(i16x8::splat(0x4000)),
        i16x8::splat(0x1000)
    );
}

#[test]
fn madd_sums_neighbouring_products() {
    let a = i16x8::new(1, 2, 3, 4, 5, 6, 7, 8);
    let b = i16x8::new(10, 20, 30, 40, 50, 60, 70, 80);
    let r = a.madd(b);
    assert_eq!(r.extract(0), 1 * 10 + 2 * 20);
    assert_eq!(r.extract(1), 3 * 30 + 4 * 40);
    assert_eq!(r.extract(2), 5 * 50 + 6 * 60);
    assert_eq!(r.extract(3), 7 * 70 + 8 * 80);
}

#[test]
fn madd_wraps_at_extreme() {
    // (-32768)^2 + (-32768)^2 overflows a 32-bit lane and wraps to the
    // minimum value.
    let a = i16x8::splat(-32768);
    let r = a.madd(a);
    for i in 0..4 {
        assert_eq!(r.extract(i), i32::MIN);
    }
}

#[test]
fn max_min_lanes() {
    let a = i16x8::new(-5, 3, 0, 9, -1, -1, 7, 2);
    let b = i16x8::new(4, -3, 0, 1, -2, 5, 7, 3);
    let mx = a.max(b);
    let mn = a.min(b);
    assert_eq!(mx, i16x8::new(4, 3, 0, 9, -1, 5, 7, 3));
    assert_eq!(mn, i16x8::new(-5, -3, 0, 1, -2, -1, 7, 2));
    let umx = u8x16::splat(9).max(u8x16::splat(200));
    assert_eq!(umx, u8x16::splat(200));
    let umn = u8x16::splat(9).min(u8x16::splat(200));
    assert_eq!(umn, u8x16::splat(9));
}

#[test]
fn packs_clamps_i16_to_i8() {
    let a = i16x8::new(300, -300, 127, -128, 0, 1, -1, 99);
    let b = i16x8::splat(1000);
    let r = a.packs(b);
    assert_eq!(r.extract(0), 127);
    assert_eq!(r.extract(1), -128);
    assert_eq!(r.extract(2), 127);
    assert_eq!(r.extract(3), -128);
    assert_eq!(r.extract(4), 0);
    assert_eq!(r.extract(5), 1);
    assert_eq!(r.extract(6), -1);
    assert_eq!(r.extract(7), 99);
    for i in 8..16 {
        assert_eq!(r.extract(i), 127);
    }
}

#[test]
fn packus_clamps_i16_to_u8() {
    let a = i16x8::new(-5, 0, 255, 256, 300, 1, 128, 7);
    let r = a.packus(i16x8::splat(-1));
    assert_eq!(r.extract(0), 0);
    assert_eq!(r.extract(1), 0);
    assert_eq!(r.extract(2), 255);
    assert_eq!(r.extract(3), 255);
    assert_eq!(r.extract(4), 255);
    assert_eq!(r.extract(5), 1);
    assert_eq!(r.extract(6), 128);
    assert_eq!(r.extract(7), 7);
    for i in 8..16 {
        assert_eq!(r.extract(i), 0);
    }
}

#[test]
fn packs_clamps_i32_to_i16() {
    let a = i32x4::new(100000, -100000, 32767, -32768);
    let b = i32x4::new(0, -1, 1, 65536);
    let r = a.packs(b);
    assert_eq!(r.extract(0), 32767);
    assert_eq!(r.extract(1), -32768);
    assert_eq!(r.extract(2), 32767);
    assert_eq!(r.extract(3), -32768);
    assert_eq!(r.extract(4), 0);
    assert_eq!(r.extract(5), -1);
    assert_eq!(r.extract(6), 1);
    assert_eq!(r.extract(7), 32767);
}

#[test]
fn low_mul_takes_even_lanes() {
    let a = u32x4::new(0xffff_ffff, 7, 2, 9);
    let b = u32x4::new(0xffff_ffff, 8, 3, 10);
    let r = a.low_mul(b);
    assert_eq!(r.extract(0), 0xffff_ffff_u64 * 0xffff_ffff_u64);
    assert_eq!(r.extract(1), 6);
}

#[test]
fn sad_sums_absolute_differences() {
    let a = u8x16::new(10, 0, 5, 5, 1, 2, 3, 4, 255, 0, 0, 0, 0, 0, 0, 0);
    let b = u8x16::new(0, 10, 5, 6, 2, 1, 4, 3, 0, 255, 0, 0, 0, 0, 0, 0);
    let r = a.sad(b);
    assert_eq!(r.extract(0), 10 + 10 + 0 + 1 + 1 + 1 + 1 + 1);
    assert_eq!(r.extract(1), 255 + 255);
}

#[test]
fn value_move_mask_reads_sign_bits() {
    let v = i8x16::new(-1, 1, -2, 2, -3, 3, 0, 0, 0, 0, 0, 0, 0, 0, 0, -128);
    assert_eq!(v.move_mask(), 0b1000_0000_0001_0101);
    let u = u8x16::new(0x80, 0x7f, 0xff, 1, 0, 0, 0, 0, 0, 0, 0, 0, 0, 0, 0, 0x90);
    assert_eq!(u.move_mask(), 0b1000_0000_0000_0101);
}

#[test]
fn mask_move_mask_through_platform_trait() {
    let m = bool32fx4::new(true, false, false, true);
    assert_eq!(Sse2Bool32fx4::move_mask(m), 0b1001);
    let m2 = bool64fx2::new(false, true);
    assert_eq!(Sse2Bool64fx2::move_mask(m2), 0b10);
    let m3 = bool8ix16::splat(true);
    assert_eq!(Sse2Bool8ix16::move_mask(m3), 0xffff);
}
