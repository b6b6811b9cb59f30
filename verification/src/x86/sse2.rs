//! The 128-bit platform capability interface: saturating arithmetic,
//! averages, high multiplies, pack/widen, sum-of-absolute-differences and
//! move-mask extraction.
//!
//! Each operation is specified by its exact scalar-per-lane reference
//! semantics; a hardware backend must be bit-identical to these contracts,
//! so correctness never depends on which backend is chosen.

use vstd::prelude::*;

use crate::common::u32x4;
use crate::common::i32x4;
use crate::common::bool32fx4;
use crate::common::u16x8;
use crate::common::i16x8;
use crate::common::bool16ix8;
use crate::common::u8x16;
use crate::common::i8x16;
use crate::common::bool32ix4;
use crate::common::bool8ix16;
use crate::mask::spec_move_mask;
use crate::sixty_four::u64x2;
use crate::sixty_four::i64x2;
use crate::sixty_four::bool64ix2;
use crate::sixty_four::bool64fx2;
use crate::vector::Lanes;
use crate::mask::Mask;

verus! {

broadcast use crate::vector::lemma_lanes_len;

/// Saturating addition of two unsigned 8-bit lanes.
pub open spec fn sat_add_u8(a: u8, b: u8) -> u8 {
    if a + b > 0xff {
        0xffu8
    } else {
        (a + b) as u8
    }
}

/// Saturating subtraction of two unsigned 8-bit lanes.
pub open spec fn sat_sub_u8(a: u8, b: u8) -> u8 {
    if a < b {
        0u8
    } else {
        (a - b) as u8
    }
}

/// Saturating addition of two unsigned 16-bit lanes.
pub open spec fn sat_add_u16(a: u16, b: u16) -> u16 {
    if a + b > 0xffff {
        0xffffu16
    } else {
        (a + b) as u16
    }
}

/// Saturating subtraction of two unsigned 16-bit lanes.
pub open spec fn sat_sub_u16(a: u16, b: u16) -> u16 {
    if a < b {
        0u16
    } else {
        (a - b) as u16
    }
}

/// Saturating addition of two signed 8-bit lanes.
pub open spec fn sat_add_i8(a: i8, b: i8) -> i8 {
    if a + b > 0x7f {
        0x7fi8
    } else if a + b < -0x80 {
        -0x80i8
    } else {
        (a + b) as i8
    }
}

/// Saturating subtraction of two signed 8-bit lanes.
pub open spec fn sat_sub_i8(a: i8, b: i8) -> i8 {
    if a - b > 0x7f {
        0x7fi8
    } else if a - b < -0x80 {
        -0x80i8
    } else {
        (a - b) as i8
    }
}

/// Saturating addition of two signed 16-bit lanes.
pub open spec fn sat_add_i16(a: i16, b: i16) -> i16 {
    if a + b > 0x7fff {
        0x7fffi16
    } else if a + b < -0x8000 {
        -0x8000i16
    } else {
        (a + b) as i16
    }
}

/// Saturating subtraction of two signed 16-bit lanes.
pub open spec fn sat_sub_i16(a: i16, b: i16) -> i16 {
    if a - b > 0x7fff {
        0x7fffi16
    } else if a - b < -0x8000 {
        -0x8000i16
    } else {
        (a - b) as i16
    }
}

/// A signed 16-bit value clamped into the signed 8-bit range.
pub open spec fn sat_i16_to_i8(v: i16) -> i8 {
    if v > 0x7f {
        0x7fi8
    } else if v < -0x80 {
        -0x80i8
    } else {
        v as i8
    }
}

/// A signed 16-bit value clamped into the unsigned 8-bit range.
pub open spec fn sat_i16_to_u8(v: i16) -> u8 {
    if v > 0xff {
        0xffu8
    } else if v < 0 {
        0u8
    } else {
        v as u8
    }
}

/// A signed 32-bit value clamped into the signed 16-bit range.
pub open spec fn sat_i32_to_i16(v: i32) -> i16 {
    if v > 0x7fff {
        0x7fffi16
    } else if v < -0x8000 {
        -0x8000i16
    } else {
        v as i16
    }
}

/// The rounded-up average of two unsigned 8-bit lanes.
pub open spec fn avg_u8(a: u8, b: u8) -> u8 {
    (((a + b + 1) as u16) >> 1u16) as u8
}

/// The rounded-up average of two unsigned 16-bit lanes.
pub open spec fn avg_u16(a: u16, b: u16) -> u16 {
    (((a + b + 1) as u32) >> 1u32) as u16
}

/// The high 16 bits of the full 32-bit product of two unsigned lanes.
pub open spec fn mulhi_u16(a: u16, b: u16) -> u16 {
    (((a * b) as u32) >> 16u32) as u16
}

/// The high 16 bits of the full 32-bit product of two signed lanes: the
/// product shifted right arithmetically by 16.
pub open spec fn mulhi_i16(a: i16, b: i16) -> i16 {
    (((a * b) as i32) >> 16u32) as i16
}

/// One lane of the multiply-and-add-pairs operation: the sum of the two
/// neighbouring full products, wrapping on 32-bit overflow (which happens
/// only when all four inputs are the minimum value).
pub open spec fn madd_i16(a0: i16, b0: i16, a1: i16, b1: i16) -> i32 {
    vstd::wrapping::i32_specs::wrapping_add((a0 * b0) as i32, (a1 * b1) as i32)
}

/// The larger of two lanes.
pub open spec fn lane_max<E: crate::elem::LaneElem>(a: E, b: E) -> E {
    if E::spec_lt(a, b) {
        b
    } else {
        a
    }
}

/// The smaller of two lanes.
pub open spec fn lane_min<E: crate::elem::LaneElem>(a: E, b: E) -> E {
    if E::spec_lt(b, a) {
        b
    } else {
        a
    }
}

/// The absolute difference of two unsigned 8-bit lanes.
pub open spec fn abs_diff_u8(a: u8, b: u8) -> int {
    if a >= b {
        a - b
    } else {
        b - a
    }
}

/// The sum of the absolute differences of eight neighbouring byte lanes
/// starting at `base`.
pub open spec fn sad_half(s: Seq<u8>, t: Seq<u8>, base: int) -> int {
    abs_diff_u8(s[base], t[base]) + abs_diff_u8(s[base + 1], t[base + 1]) + abs_diff_u8(
        s[base + 2],
        t[base + 2],
    ) + abs_diff_u8(s[base + 3], t[base + 3]) + abs_diff_u8(s[base + 4], t[base + 4]) + abs_diff_u8(
        s[base + 5],
        t[base + 5],
    ) + abs_diff_u8(s[base + 6], t[base + 6]) + abs_diff_u8(s[base + 7], t[base + 7])
}

/// A signed 16-bit value clamped into the signed 8-bit range.
fn clamp_i16_to_i8(v: i16) -> (r: i8)
    ensures
        r == sat_i16_to_i8(v),
{
    if v > 0x7f {
        0x7fi8
    } else if v < -0x80 {
        -0x80i8
    } else {
        v as i8
    }
}

/// A signed 16-bit value clamped into the unsigned 8-bit range.
fn clamp_i16_to_u8(v: i16) -> (r: u8)
    ensures
        r == sat_i16_to_u8(v),
{
    if v > 0xff {
        0xffu8
    } else if v < 0 {
        0u8
    } else {
        v as u8
    }
}

/// A signed 32-bit value clamped into the signed 16-bit range.
fn clamp_i32_to_i16(v: i32) -> (r: i16)
    ensures
        r == sat_i32_to_i16(v),
{
    if v > 0x7fff {
        0x7fffi16
    } else if v < -0x8000 {
        -0x8000i16
    } else {
        v as i16
    }
}

/// The absolute difference of two bytes.
fn absdiff(a: u8, b: u8) -> (r: u8)
    ensures
        r == abs_diff_u8(a, b),
{
    if a >= b {
        a - b
    } else {
        b - a
    }
}

/// Move-mask extraction for the float-flavored 4-lane boolean vector.
pub trait Sse2Bool32fx4: View<V = Seq<bool>> + Sized {
    /// Collapse the mask to a scalar bitmask, one bit per lane.
    fn move_mask(self) -> (r: u32)
        requires
            self@.len() == 4,
        ensures
            r == spec_move_mask(self@),
    ;
}

impl Sse2Bool32fx4 for bool32fx4 {
    fn move_mask(self) -> (r: u32) {
        Mask::move_mask(self)
    }
}

/// Move-mask extraction for the float-flavored 2-lane boolean vector.
pub trait Sse2Bool64fx2: View<V = Seq<bool>> + Sized {
    /// Collapse the mask to a scalar bitmask, one bit per lane.
    fn move_mask(self) -> (r: u32)
        requires
            self@.len() == 2,
        ensures
            r == spec_move_mask(self@),
    ;
}

impl Sse2Bool64fx2 for bool64fx2 {
    fn move_mask(self) -> (r: u32) {
        Mask::move_mask(self)
    }
}

/// Marker for the 2-lane unsigned 64-bit vector's platform operations.
pub trait Sse2U64x2 {
}

impl Sse2U64x2 for u64x2 {
}

/// Marker for the 2-lane signed 64-bit vector's platform operations.
pub trait Sse2I64x2 {
}

impl Sse2I64x2 for i64x2 {
}

/// Marker for the 2-lane 64-bit boolean vector's platform operations.
pub trait Sse2Bool64ix2 {
}

impl Sse2Bool64ix2 for bool64ix2 {
}

/// Marker for the 4-lane 32-bit boolean vector's platform operations.
pub trait Sse2Bool32ix4 {
}

impl Sse2Bool32ix4 for bool32ix4 {
}

/// Marker for the 8-lane 16-bit boolean vector's platform operations.
pub trait Sse2Bool16ix8 {
}

impl Sse2Bool16ix8 for bool16ix8 {
}

/// The widening even-lane multiply for 4-lane unsigned 32-bit vectors.
pub trait Sse2U32x4: View<V = Seq<u32>> + Sized {
    /// Multiply lanes 0 and 2 with the matching lanes of `other`, producing
    /// the two full 64-bit products.
    fn low_mul(self, other: Self) -> (r: u64x2)
        requires
            self@.len() == 4,
            other@.len() == 4,
        ensures
            r@.len() == 2,
            r@[0] == (self@[0] * other@[0]) as u64,
            r@[1] == (self@[2] * other@[2]) as u64,
    ;
}

impl Sse2U32x4 for u32x4 {
    fn low_mul(self, other: Self) -> (r: u64x2) {
        let a0 = self.extract(0);
        let b0 = other.extract(0);
        let a2 = self.extract(2);
        let b2 = other.extract(2);
        proof {
            assert((a0 as int) * (b0 as int) <= 0xffff_ffff_ffff_ffff
                && (a2 as int) * (b2 as int) <= 0xffff_ffff_ffff_ffff) by (nonlinear_arith)
                requires a0 <= 0xffff_ffff, b0 <= 0xffff_ffff, a2 <= 0xffff_ffff, b2 <= 0xffff_ffff;
        }
        Lanes::from_lanes([(a0 as u64) * (b0 as u64), (a2 as u64) * (b2 as u64)])
    }
}

/// The narrowing pack for 4-lane signed 32-bit vectors.
pub trait Sse2I32x4: View<V = Seq<i32>> + Sized {
    /// Clamp each lane of `self` then `other` into the signed 16-bit range
    /// and concatenate the results.
    fn packs(self, other: Self) -> (r: i16x8)
        requires
            self@.len() == 4,
            other@.len() == 4,
        ensures
            r@.len() == 8,
            forall|i: int| 0 <= i < 4 ==> r@[i] == sat_i32_to_i16(self@[i]),
            forall|i: int| 4 <= i < 8 ==> r@[i] == sat_i32_to_i16(other@[i - 4]),
    ;
}

impl Sse2I32x4 for i32x4 {
    fn packs(self, other: Self) -> (r: i16x8) {
        let mut out: [i16; 8] = [0i16; 8];
        let mut i: usize = 0;
        while i < 8
            invariant
                i <= 8,
                out@.len() == 8,
                forall|j: int| 0 <= j < i && j < 4 ==> out@[j] == sat_i32_to_i16(self@[j]),
                forall|j: int| 4 <= j < i ==> out@[j] == sat_i32_to_i16(other@[j - 4]),
            decreases 8 - i,
        {
            let v = if i < 4 {
                self.extract(i as u32)
            } else {
                other.extract((i - 4) as u32)
            };
            out[i] = clamp_i32_to_i16(v);
            i = i + 1;
        }
        Lanes::from_lanes(out)
    }
}

/// Platform operations of the 8-lane unsigned 16-bit vector.
pub trait Sse2U16x8: View<V = Seq<u16>> + Sized {
    /// Lane-wise saturating addition.
    fn adds(self, other: Self) -> (r: Self)
        requires
            self@.len() == 8,
            other@.len() == 8,
        ensures
            r@.len() == 8,
            forall|i: int| 0 <= i < 8 ==> r@[i] == sat_add_u16(self@[i], other@[i]),
    ;

    /// Lane-wise saturating subtraction.
    fn subs(self, other: Self) -> (r: Self)
        requires
            self@.len() == 8,
            other@.len() == 8,
        ensures
            r@.len() == 8,
            forall|i: int| 0 <= i < 8 ==> r@[i] == sat_sub_u16(self@[i], other@[i]),
    ;

    /// Lane-wise rounded-up average.
    fn avg(self, other: Self) -> (r: Self)
        requires
            self@.len() == 8,
            other@.len() == 8,
        ensures
            r@.len() == 8,
            forall|i: int| 0 <= i < 8 ==> r@[i] == avg_u16(self@[i], other@[i]),
    ;

    /// Lane-wise high half of the full product.
    fn mulhi(self, other: Self) -> (r: Self)
        requires
            self@.len() == 8,
            other@.len() == 8,
        ensures
            r@.len() == 8,
            forall|i: int| 0 <= i < 8 ==> r@[i] == mulhi_u16(self@[i], other@[i]),
    ;
}

impl Sse2U16x8 for u16x8 {
    fn adds(self, other: Self) -> (r: Self) {
        let mut out: [u16; 8] = [0u16; 8];
        let mut i: usize = 0;
        while i < 8
            invariant
                i <= 8,
                out@.len() == 8,
                forall|j: int| 0 <= j < i ==> out@[j] == sat_add_u16(self@[j], other@[j]),
            decreases 8 - i,
        {
            let a = self.extract(i as u32);
            let b = other.extract(i as u32);
            out[i] = a.saturating_add(b);
            i = i + 1;
        }
        Lanes::from_lanes(out)
    }

    fn subs(self, other: Self) -> (r: Self) {
        let mut out: [u16; 8] = [0u16; 8];
        let mut i: usize = 0;
        while i < 8
            invariant
                i <= 8,
                out@.len() == 8,
                forall|j: int| 0 <= j < i ==> out@[j] == sat_sub_u16(self@[j], other@[j]),
            decreases 8 - i,
        {
            let a = self.extract(i as u32);
            let b = other.extract(i as u32);
            out[i] = a.saturating_sub(b);
            i = i + 1;
        }
        Lanes::from_lanes(out)
    }

    fn avg(self, other: Self) -> (r: Self) {
        let mut out: [u16; 8] = [0u16; 8];
        let mut i: usize = 0;
        while i < 8
            invariant
                i <= 8,
                out@.len() == 8,
                forall|j: int| 0 <= j < i ==> out@[j] == avg_u16(self@[j], other@[j]),
            decreases 8 - i,
        {
            let a = self.extract(i as u32);
            let b = other.extract(i as u32);
            out[i] = #[verifier::truncate] ((((a as u32) + (b as u32) + 1) >> 1u32) as u16);
            i = i + 1;
        }
        Lanes::from_lanes(out)
    }

    fn mulhi(self, other: Self) -> (r: Self) {
        let mut out: [u16; 8] = [0u16; 8];
        let mut i: usize = 0;
        while i < 8
            invariant
                i <= 8,
                out@.len() == 8,
                forall|j: int| 0 <= j < i ==> out@[j] == mulhi_u16(self@[j], other@[j]),
            decreases 8 - i,
        {
            let a = self.extract(i as u32);
            let b = other.extract(i as u32);
            proof {
                assert((a as int) * (b as int) <= 0xffff_ffff) by (nonlinear_arith)
                    requires a <= 0xffff, b <= 0xffff;
            }
            let p: u32 = (a as u32) * (b as u32);
            out[i] = #[verifier::truncate] ((p >> 16u32) as u16);
            i = i + 1;
        }
        Lanes::from_lanes(out)
    }
}

/// Platform operations of the 8-lane signed 16-bit vector.
pub trait Sse2I16x8: View<V = Seq<i16>> + Sized {
    /// Lane-wise saturating addition.
    fn adds(self, other: Self) -> (r: Self)
        requires
            self@.len() == 8,
            other@.len() == 8,
        ensures
            r@.len() == 8,
            forall|i: int| 0 <= i < 8 ==> r@[i] == sat_add_i16(self@[i], other@[i]),
    ;

    /// Lane-wise saturating subtraction.
    fn subs(self, other: Self) -> (r: Self)
        requires
            self@.len() == 8,
            other@.len() == 8,
        ensures
            r@.len() == 8,
            forall|i: int| 0 <= i < 8 ==> r@[i] == sat_sub_i16(self@[i], other@[i]),
    ;

    /// Multiply neighbouring lane pairs and add each pair's two full
    /// products, wrapping on 32-bit overflow.
    fn madd(self, other: Self) -> (r: i32x4)
        requires
            self@.len() == 8,
            other@.len() == 8,
        ensures
            r@.len() == 4,
            forall|i: int|
                0 <= i < 4 ==> r@[i] == madd_i16(
                    self@[2 * i],
                    other@[2 * i],
                    self@[2 * i + 1],
                    other@[2 * i + 1],
                ),
    ;

    /// Lane-wise maximum.
    fn max(self, other: Self) -> (r: Self)
        requires
            self@.len() == 8,
            other@.len() == 8,
        ensures
            r@.len() == 8,
            forall|i: int| 0 <= i < 8 ==> r@[i] == lane_max(self@[i], other@[i]),
    ;

    /// Lane-wise minimum.
    fn min(self, other: Self) -> (r: Self)
        requires
            self@.len() == 8,
            other@.len() == 8,
        ensures
            r@.len() == 8,
            forall|i: int| 0 <= i < 8 ==> r@[i] == lane_min(self@[i], other@[i]),
    ;

    /// Lane-wise high half of the full product, as the product shifted right arithmetically.
    fn mulhi(self, other: Self) -> (r: Self)
        requires
            self@.len() == 8,
            other@.len() == 8,
        ensures
            r@.len() == 8,
            forall|i: int| 0 <= i < 8 ==> r@[i] == mulhi_i16(self@[i], other@[i]),
    ;

    /// Clamp each lane of `self` then `other` into the signed 8-bit range
    /// and concatenate the results.
    fn packs(self, other: Self) -> (r: i8x16)
        requires
            self@.len() == 8,
            other@.len() == 8,
        ensures
            r@.len() == 16,
            forall|i: int| 0 <= i < 8 ==> r@[i] == sat_i16_to_i8(self@[i]),
            forall|i: int| 8 <= i < 16 ==> r@[i] == sat_i16_to_i8(other@[i - 8]),
    ;

    /// Clamp each lane of `self` then `other` into the unsigned 8-bit range
    /// and concatenate the results.
    fn packus(self, other: Self) -> (r: u8x16)
        requires
            self@.len() == 8,
            other@.len() == 8,
        ensures
            r@.len() == 16,
            forall|i: int| 0 <= i < 8 ==> r@[i] == sat_i16_to_u8(self@[i]),
            forall|i: int| 8 <= i < 16 ==> r@[i] == sat_i16_to_u8(other@[i - 8]),
    ;
}

impl Sse2I16x8 for i16x8 {
    fn adds(self, other: Self) -> (r: Self) {
        let mut out: [i16; 8] = [0i16; 8];
        let mut i: usize = 0;
        while i < 8
            invariant
                i <= 8,
                out@.len() == 8,
                forall|j: int| 0 <= j < i ==> out@[j] == sat_add_i16(self@[j], other@[j]),
            decreases 8 - i,
        {
            let a = self.extract(i as u32);
            let b = other.extract(i as u32);
            out[i] = match a.checked_add(b) {
                Some(v) => v,
                None => if a > 0 { i16::MAX } else { i16::MIN },
            };
            i = i + 1;
        }
        Lanes::from_lanes(out)
    }

    fn subs(self, other: Self) -> (r: Self) {
        let mut out: [i16; 8] = [0i16; 8];
        let mut i: usize = 0;
        while i < 8
            invariant
                i <= 8,
                out@.len() == 8,
                forall|j: int| 0 <= j < i ==> out@[j] == sat_sub_i16(self@[j], other@[j]),
            decreases 8 - i,
        {
            let a = self.extract(i as u32);
            let b = other.extract(i as u32);
            out[i] = match a.checked_sub(b) {
                Some(v) => v,
                None => if b < 0 { i16::MAX } else { i16::MIN },
            };
            i = i + 1;
        }
        Lanes::from_lanes(out)
    }

    fn madd(self, other: Self) -> (r: i32x4) {
        let mut out: [i32; 4] = [0i32; 4];
        let mut i: usize = 0;
        while i < 4
            invariant
                i <= 4,
                out@.len() == 4,
                forall|j: int|
                    0 <= j < i ==> out@[j] == madd_i16(
                        self@[2 * j],
                        other@[2 * j],
                        self@[2 * j + 1],
                        other@[2 * j + 1],
                    ),
            decreases 4 - i,
        {
            let a0 = self.extract((2 * i) as u32);
            let b0 = other.extract((2 * i) as u32);
            let a1 = self.extract((2 * i + 1) as u32);
            let b1 = other.extract((2 * i + 1) as u32);
            proof {
                assert(-0x4000_0000 <= (a0 as int) * (b0 as int)
                    && (a0 as int) * (b0 as int) <= 0x4000_0000
                    && -0x4000_0000 <= (a1 as int) * (b1 as int)
                    && (a1 as int) * (b1 as int) <= 0x4000_0000) by (nonlinear_arith)
                    requires
                        -0x8000 <= a0 <= 0x7fff,
                        -0x8000 <= b0 <= 0x7fff,
                        -0x8000 <= a1 <= 0x7fff,
                        -0x8000 <= b1 <= 0x7fff;
            }
            let p0: i32 = (a0 as i32) * (b0 as i32);
            let p1: i32 = (a1 as i32) * (b1 as i32);
            out[i] = p0.wrapping_add(p1);
            i = i + 1;
        }
        Lanes::from_lanes(out)
    }

    fn max(self, other: Self) -> (r: Self) {
        let mut out: [i16; 8] = [0i16; 8];
        let mut i: usize = 0;
        while i < 8
            invariant
                i <= 8,
                out@.len() == 8,
                forall|j: int| 0 <= j < i ==> out@[j] == lane_max(self@[j], other@[j]),
            decreases 8 - i,
        {
            let a = self.extract(i as u32);
            let b = other.extract(i as u32);
            out[i] = if a < b { b } else { a };
            i = i + 1;
        }
        Lanes::from_lanes(out)
    }

    fn min(self, other: Self) -> (r: Self) {
        let mut out: [i16; 8] = [0i16; 8];
        let mut i: usize = 0;
        while i < 8
            invariant
                i <= 8,
                out@.len() == 8,
                forall|j: int| 0 <= j < i ==> out@[j] == lane_min(self@[j], other@[j]),
            decreases 8 - i,
        {
            let a = self.extract(i as u32);
            let b = other.extract(i as u32);
            out[i] = if b < a { b } else { a };
            i = i + 1;
        }
        Lanes::from_lanes(out)
    }

    fn mulhi(self, other: Self) -> (r: Self) {
        let mut out: [i16; 8] = [0i16; 8];
        let mut i: usize = 0;
        while i < 8
            invariant
                i <= 8,
                out@.len() == 8,
                forall|j: int| 0 <= j < i ==> out@[j] == mulhi_i16(self@[j], other@[j]),
            decreases 8 - i,
        {
            let a = self.extract(i as u32);
            let b = other.extract(i as u32);
            proof {
                assert(-0x8000_0000 <= (a as int) * (b as int) && (a as int) * (b as int) <= 0x7fff_ffff) by (nonlinear_arith)
                    requires -0x8000 <= a <= 0x7fff, -0x8000 <= b <= 0x7fff;
            }
            let p: i32 = (a as i32) * (b as i32);
            out[i] = #[verifier::truncate] ((p >> 16u32) as i16);
            i = i + 1;
        }
        Lanes::from_lanes(out)
    }

    fn packs(self, other: Self) -> (r: i8x16) {
        let mut out: [i8; 16] = [0i8; 16];
        let mut i: usize = 0;
        while i < 16
            invariant
                i <= 16,
                out@.len() == 16,
                forall|j: int| 0 <= j < i && j < 8 ==> out@[j] == sat_i16_to_i8(self@[j]),
                forall|j: int| 8 <= j < i ==> out@[j] == sat_i16_to_i8(other@[j - 8]),
            decreases 16 - i,
        {
            let v = if i < 8 {
                self.extract(i as u32)
            } else {
                other.extract((i - 8) as u32)
            };
            out[i] = clamp_i16_to_i8(v);
            i = i + 1;
        }
        Lanes::from_lanes(out)
    }

    fn packus(self, other: Self) -> (r: u8x16) {
        let mut out: [u8; 16] = [0u8; 16];
        let mut i: usize = 0;
        while i < 16
            invariant
                i <= 16,
                out@.len() == 16,
                forall|j: int| 0 <= j < i && j < 8 ==> out@[j] == sat_i16_to_u8(self@[j]),
                forall|j: int| 8 <= j < i ==> out@[j] == sat_i16_to_u8(other@[j - 8]),
            decreases 16 - i,
        {
            let v = if i < 8 {
                self.extract(i as u32)
            } else {
                other.extract((i - 8) as u32)
            };
            out[i] = clamp_i16_to_u8(v);
            i = i + 1;
        }
        Lanes::from_lanes(out)
    }
}

/// Platform operations of the 16-lane unsigned 8-bit vector.
pub trait Sse2U8x16: View<V = Seq<u8>> + Sized {
    /// Collapse the vector to a scalar bitmask: bit `i` is lane `i`'s top
    /// (sign) bit.
    fn move_mask(self) -> (r: u32)
        requires
            self@.len() == 16,
        ensures
            r == spec_move_mask(Seq::new(16, |i: int| self@[i] >= 0x80)),
    ;

    /// Lane-wise saturating addition.
    fn adds(self, other: Self) -> (r: Self)
        requires
            self@.len() == 16,
            other@.len() == 16,
        ensures
            r@.len() == 16,
            forall|i: int| 0 <= i < 16 ==> r@[i] == sat_add_u8(self@[i], other@[i]),
    ;

    /// Lane-wise saturating subtraction.
    fn subs(self, other: Self) -> (r: Self)
        requires
            self@.len() == 16,
            other@.len() == 16,
        ensures
            r@.len() == 16,
            forall|i: int| 0 <= i < 16 ==> r@[i] == sat_sub_u8(self@[i], other@[i]),
    ;

    /// Lane-wise rounded-up average.
    fn avg(self, other: Self) -> (r: Self)
        requires
            self@.len() == 16,
            other@.len() == 16,
        ensures
            r@.len() == 16,
            forall|i: int| 0 <= i < 16 ==> r@[i] == avg_u8(self@[i], other@[i]),
    ;

    /// Lane-wise maximum.
    fn max(self, other: Self) -> (r: Self)
        requires
            self@.len() == 16,
            other@.len() == 16,
        ensures
            r@.len() == 16,
            forall|i: int| 0 <= i < 16 ==> r@[i] == lane_max(self@[i], other@[i]),
    ;

    /// Lane-wise minimum.
    fn min(self, other: Self) -> (r: Self)
        requires
            self@.len() == 16,
            other@.len() == 16,
        ensures
            r@.len() == 16,
            forall|i: int| 0 <= i < 16 ==> r@[i] == lane_min(self@[i], other@[i]),
    ;

    /// Sum the absolute differences of the two vectors' lanes, one 64-bit
    /// total per 8-byte half.
    fn sad(self, other: Self) -> (r: u64x2)
        requires
            self@.len() == 16,
            other@.len() == 16,
        ensures
            r@.len() == 2,
            r@[0] == sad_half(self@, other@, 0) as u64,
            r@[1] == sad_half(self@, other@, 8) as u64,
    ;
}

impl Sse2U8x16 for u8x16 {
    fn move_mask(self) -> (r: u32) {
        let m = self.ge(Lanes::splat(0x80u8));
        proof {
            assert(m@ =~= Seq::new(16, |i: int| self@[i] >= 0x80));
        }
        Mask::move_mask(m)
    }

    fn adds(self, other: Self) -> (r: Self) {
        let mut out: [u8; 16] = [0u8; 16];
        let mut i: usize = 0;
        while i < 16
            invariant
                i <= 16,
                out@.len() == 16,
                forall|j: int| 0 <= j < i ==> out@[j] == sat_add_u8(self@[j], other@[j]),
            decreases 16 - i,
        {
            let a = self.extract(i as u32);
            let b = other.extract(i as u32);
            out[i] = a.saturating_add(b);
            i = i + 1;
        }
        Lanes::from_lanes(out)
    }

    fn subs(self, other: Self) -> (r: Self) {
        let mut out: [u8; 16] = [0u8; 16];
        let mut i: usize = 0;
        while i < 16
            invariant
                i <= 16,
                out@.len() == 16,
                forall|j: int| 0 <= j < i ==> out@[j] == sat_sub_u8(self@[j], other@[j]),
            decreases 16 - i,
        {
            let a = self.extract(i as u32);
            let b = other.extract(i as u32);
            out[i] = a.saturating_sub(b);
            i = i + 1;
        }
        Lanes::from_lanes(out)
    }

    fn avg(self, other: Self) -> (r: Self) {
        let mut out: [u8; 16] = [0u8; 16];
        let mut i: usize = 0;
        while i < 16
            invariant
                i <= 16,
                out@.len() == 16,
                forall|j: int| 0 <= j < i ==> out@[j] == avg_u8(self@[j], other@[j]),
            decreases 16 - i,
        {
            let a = self.extract(i as u32);
            let b = other.extract(i as u32);
            out[i] = #[verifier::truncate] ((((a as u16) + (b as u16) + 1) >> 1u16) as u8);
            i = i + 1;
        }
        Lanes::from_lanes(out)
    }

    fn max(self, other: Self) -> (r: Self) {
        let mut out: [u8; 16] = [0u8; 16];
        let mut i: usize = 0;
        while i < 16
            invariant
                i <= 16,
                out@.len() == 16,
                forall|j: int| 0 <= j < i ==> out@[j] == lane_max(self@[j], other@[j]),
            decreases 16 - i,
        {
            let a = self.extract(i as u32);
            let b = other.extract(i as u32);
            out[i] = if a < b { b } else { a };
            i = i + 1;
        }
        Lanes::from_lanes(out)
    }

    fn min(self, other: Self) -> (r: Self) {
        let mut out: [u8; 16] = [0u8; 16];
        let mut i: usize = 0;
        while i < 16
            invariant
                i <= 16,
                out@.len() == 16,
                forall|j: int| 0 <= j < i ==> out@[j] == lane_min(self@[j], other@[j]),
            decreases 16 - i,
        {
            let a = self.extract(i as u32);
            let b = other.extract(i as u32);
            out[i] = if b < a { b } else { a };
            i = i + 1;
        }
        Lanes::from_lanes(out)
    }

    fn sad(self, other: Self) -> (r: u64x2) {
        let mut lo: u64 = 0;
        let mut hi: u64 = 0;
        let mut k: usize = 0;
        while k < 8
            invariant
                k <= 8,
                lo == sad_half_part(self@, other@, 0, k as int),
                hi == sad_half_part(self@, other@, 8, k as int),
                lo <= 255 * k,
                hi <= 255 * k,
            decreases 8 - k,
        {
            let a = self.extract(k as u32);
            let b = other.extract(k as u32);
            let c = self.extract((8 + k) as u32);
            let d = other.extract((8 + k) as u32);
            lo = lo + absdiff(a, b) as u64;
            hi = hi + absdiff(c, d) as u64;
            k = k + 1;
        }
        proof {
            lemma_sad_half_part(self@, other@, 0);
            lemma_sad_half_part(self@, other@, 8);
        }
        Lanes::from_lanes([lo, hi])
    }
}

/// Platform operations of the 16-lane signed 8-bit vector.
pub trait Sse2I8x16: View<V = Seq<i8>> + Sized {
    /// Collapse the vector to a scalar bitmask: bit `i` is lane `i`'s sign
    /// bit.
    fn move_mask(self) -> (r: u32)
        requires
            self@.len() == 16,
        ensures
            r == spec_move_mask(Seq::new(16, |i: int| self@[i] < 0)),
    ;

    /// Lane-wise saturating addition.
    fn adds(self, other: Self) -> (r: Self)
        requires
            self@.len() == 16,
            other@.len() == 16,
        ensures
            r@.len() == 16,
            forall|i: int| 0 <= i < 16 ==> r@[i] == sat_add_i8(self@[i], other@[i]),
    ;

    /// Lane-wise saturating subtraction.
    fn subs(self, other: Self) -> (r: Self)
        requires
            self@.len() == 16,
            other@.len() == 16,
        ensures
            r@.len() == 16,
            forall|i: int| 0 <= i < 16 ==> r@[i] == sat_sub_i8(self@[i], other@[i]),
    ;
}

impl Sse2I8x16 for i8x16 {
    fn move_mask(self) -> (r: u32) {
        let m = self.lt(Lanes::splat(0i8));
        proof {
            assert(m@ =~= Seq::new(16, |i: int| self@[i] < 0));
        }
        Mask::move_mask(m)
    }

    fn adds(self, other: Self) -> (r: Self) {
        let mut out: [i8; 16] = [0i8; 16];
        let mut i: usize = 0;
        while i < 16
            invariant
                i <= 16,
                out@.len() == 16,
                forall|j: int| 0 <= j < i ==> out@[j] == sat_add_i8(self@[j], other@[j]),
            decreases 16 - i,
        {
            let a = self.extract(i as u32);
            let b = other.extract(i as u32);
            out[i] = match a.checked_add(b) {
                Some(v) => v,
                None => if a > 0 { i8::MAX } else { i8::MIN },
            };
            i = i + 1;
        }
        Lanes::from_lanes(out)
    }

    fn subs(self, other: Self) -> (r: Self) {
        let mut out: [i8; 16] = [0i8; 16];
        let mut i: usize = 0;
        while i < 16
            invariant
                i <= 16,
                out@.len() == 16,
                forall|j: int| 0 <= j < i ==> out@[j] == sat_sub_i8(self@[j], other@[j]),
            decreases 16 - i,
        {
            let a = self.extract(i as u32);
            let b = other.extract(i as u32);
            out[i] = match a.checked_sub(b) {
                Some(v) => v,
                None => if b < 0 { i8::MAX } else { i8::MIN },
            };
            i = i + 1;
        }
        Lanes::from_lanes(out)
    }
}

/// Move-mask extraction for the 16-lane boolean vector.
pub trait Sse2Bool8ix16: View<V = Seq<bool>> + Sized {
    /// Collapse the mask to a scalar bitmask, one bit per lane.
    fn move_mask(self) -> (r: u32)
        requires
            self@.len() == 16,
        ensures
            r == spec_move_mask(self@),
    ;
}

impl Sse2Bool8ix16 for bool8ix16 {
    fn move_mask(self) -> (r: u32) {
        Mask::move_mask(self)
    }
}

/// The running sum of the first `k` absolute differences of the half that
/// starts at `base`.
pub open spec fn sad_half_part(s: Seq<u8>, t: Seq<u8>, base: int, k: int) -> int
    decreases k,
{
    if k <= 0 {
        0
    } else {
        sad_half_part(s, t, base, k - 1) + abs_diff_u8(s[base + k - 1], t[base + k - 1])
    }
}

/// After all eight steps, the running sum is the half's full sum.
proof fn lemma_sad_half_part(s: Seq<u8>, t: Seq<u8>, base: int)
    ensures
        sad_half_part(s, t, base, 8) == sad_half(s, t, base),
{
    reveal_with_fuel(sad_half_part, 9);
}

} // verus!
