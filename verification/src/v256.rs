//! The 256-bit tier: wide vector types assembled from the same generic core,
//! with the low/high splitting that relates each wide vector to two 128-bit
//! halves.

use vstd::prelude::*;

use crate::mask::Mask;
use crate::vector::Lanes;
use crate::sixty_four::u64x2;
use crate::sixty_four::i64x2;
use crate::sixty_four::bool64ix2;
use crate::sixty_four::bool64fx2;
use crate::common::u32x4;
use crate::common::i32x4;
use crate::common::bool32ix4;
use crate::common::bool32fx4;
use crate::common::u16x8;
use crate::common::i16x8;
use crate::common::bool16ix8;
use crate::common::u8x16;
use crate::common::i8x16;
use crate::common::bool8ix16;

verus! {

broadcast use crate::vector::lemma_lanes_len;

/// A SIMD vector of 4 `u64`s.
pub type u64x4 = Lanes<u64, 4>;

/// A SIMD vector of 4 `i64`s.
pub type i64x4 = Lanes<i64, 4>;

/// A SIMD boolean vector for length-4 vectors of 64-bit integers.
pub type bool64ix4 = Mask<i64, 4, false>;

/// A SIMD boolean vector for length-4 vectors of 64-bit floats.
pub type bool64fx4 = Mask<i64, 4, true>;

/// A SIMD vector of 8 `u32`s.
pub type u32x8 = Lanes<u32, 8>;

/// A SIMD vector of 8 `i32`s.
pub type i32x8 = Lanes<i32, 8>;

/// A SIMD boolean vector for length-8 vectors of 32-bit integers.
pub type bool32ix8 = Mask<i32, 8, false>;

/// A SIMD boolean vector for length-8 vectors of 32-bit floats.
pub type bool32fx8 = Mask<i32, 8, true>;

/// A SIMD vector of 16 `u16`s.
pub type u16x16 = Lanes<u16, 16>;

/// A SIMD vector of 16 `i16`s.
pub type i16x16 = Lanes<i16, 16>;

/// A SIMD boolean vector for length-16 vectors of 16-bit integers.
pub type bool16ix16 = Mask<i16, 16, false>;

/// A SIMD vector of 32 `u8`s.
pub type u8x32 = Lanes<u8, 32>;

/// A SIMD vector of 32 `i8`s.
pub type i8x32 = Lanes<i8, 32>;

/// A SIMD boolean vector for length-32 vectors of 8-bit integers.
pub type bool8ix32 = Mask<i8, 32, false>;

/// 256-bit vectors decompose into two narrower vectors covering their first
/// and second halves of lanes; this is how wide operations are composed when
/// only 128-bit hardware registers exist.
pub trait LowHigh128: View<V = Seq<Self::LaneV>> + Sized {
    /// What one lane reads as in the view: a scalar for plain vectors, a
    /// truth value for boolean vectors.
    type LaneV;

    /// The narrower vector type holding one half of the lanes.
    type Half: View<V = Seq<Self::LaneV>>;

    /// What must hold of `self` before it is split: for boolean vectors the
    /// saturation invariant, for plain vectors nothing.
    spec fn split_inv(self) -> bool;

    /// What the split guarantees of each half: for boolean vectors the
    /// saturation invariant again.
    spec fn half_wf(h: Self::Half) -> bool;

    /// Extract the low 128 bit part: the first half of the lanes.
    fn low(self) -> (r: Self::Half)
        requires
            self.split_inv(),
        ensures
            r@ == self@.take((self@.len() / 2) as int),
            Self::half_wf(r),
    ;

    /// Extract the high 128 bit part: the second half of the lanes.
    fn high(self) -> (r: Self::Half)
        requires
            self.split_inv(),
        ensures
            r@ == self@.skip((self@.len() / 2) as int),
            Self::half_wf(r),
    ;
}

impl u64x4 {
    /// Create a new instance from its lane values, in lane order.
    pub fn new(x0: u64, x1: u64, x2: u64, x3: u64) -> (r: u64x4)
        ensures
            r@.len() == 4,
            r@[0] == x0,
            r@[1] == x1,
            r@[2] == x2,
            r@[3] == x3,
    {
        Lanes::from_lanes([x0, x1, x2, x3])
    }
}

impl i64x4 {
    /// Create a new instance from its lane values, in lane order.
    pub fn new(x0: i64, x1: i64, x2: i64, x3: i64) -> (r: i64x4)
        ensures
            r@.len() == 4,
            r@[0] == x0,
            r@[1] == x1,
            r@[2] == x2,
            r@[3] == x3,
    {
        Lanes::from_lanes([x0, x1, x2, x3])
    }
}

impl u32x8 {
    /// Create a new instance from its lane values, in lane order.
    pub fn new(x0: u32, x1: u32, x2: u32, x3: u32, x4: u32, x5: u32, x6: u32, x7: u32) -> (r: u32x8)
        ensures
            r@.len() == 8,
            r@[0] == x0,
            r@[1] == x1,
            r@[2] == x2,
            r@[3] == x3,
            r@[4] == x4,
            r@[5] == x5,
            r@[6] == x6,
            r@[7] == x7,
    {
        Lanes::from_lanes([x0, x1, x2, x3, x4, x5, x6, x7])
    }
}

impl i32x8 {
    /// Create a new instance from its lane values, in lane order.
    pub fn new(x0: i32, x1: i32, x2: i32, x3: i32, x4: i32, x5: i32, x6: i32, x7: i32) -> (r: i32x8)
        ensures
            r@.len() == 8,
            r@[0] == x0,
            r@[1] == x1,
            r@[2] == x2,
            r@[3] == x3,
            r@[4] == x4,
            r@[5] == x5,
            r@[6] == x6,
            r@[7] == x7,
    {
        Lanes::from_lanes([x0, x1, x2, x3, x4, x5, x6, x7])
    }
}

impl u16x16 {
    /// Create a new instance from its lane values, in lane order.
    #[verifier::rlimit(50)]
    pub fn new(x0: u16, x1: u16, x2: u16, x3: u16, x4: u16, x5: u16, x6: u16, x7: u16, x8: u16, x9: u16, x10: u16, x11: u16, x12: u16, x13: u16, x14: u16, x15: u16) -> (r: u16x16)
        ensures
            r@.len() == 16,
            r@[0] == x0,
            r@[1] == x1,
            r@[2] == x2,
            r@[3] == x3,
            r@[4] == x4,
            r@[5] == x5,
            r@[6] == x6,
            r@[7] == x7,
            r@[8] == x8,
            r@[9] == x9,
            r@[10] == x10,
            r@[11] == x11,
            r@[12] == x12,
            r@[13] == x13,
            r@[14] == x14,
            r@[15] == x15,
    {
        Lanes::from_lanes([x0, x1, x2, x3, x4, x5, x6, x7, x8, x9, x10, x11, x12, x13, x14, x15])
    }
}

impl i16x16 {
    /// Create a new instance from its lane values, in lane order.
    #[verifier::rlimit(50)]
    pub fn new(x0: i16, x1: i16, x2: i16, x3: i16, x4: i16, x5: i16, x6: i16, x7: i16, x8: i16, x9: i16, x10: i16, x11: i16, x12: i16, x13: i16, x14: i16, x15: i16) -> (r: i16x16)
        ensures
            r@.len() == 16,
            r@[0] == x0,
            r@[1] == x1,
            r@[2] == x2,
            r@[3] == x3,
            r@[4] == x4,
            r@[5] == x5,
            r@[6] == x6,
            r@[7] == x7,
            r@[8] == x8,
            r@[9] == x9,
            r@[10] == x10,
            r@[11] == x11,
            r@[12] == x12,
            r@[13] == x13,
            r@[14] == x14,
            r@[15] == x15,
    {
        Lanes::from_lanes([x0, x1, x2, x3, x4, x5, x6, x7, x8, x9, x10, x11, x12, x13, x14, x15])
    }
}

impl u8x32 {
    /// Create a new instance from its lane values, in lane order.
    #[verifier::rlimit(50)]
    pub fn new(x0: u8, x1: u8, x2: u8, x3: u8, x4: u8, x5: u8, x6: u8, x7: u8, x8: u8, x9: u8, x10: u8, x11: u8, x12: u8, x13: u8, x14: u8, x15: u8, x16: u8, x17: u8, x18: u8, x19: u8, x20: u8, x21: u8, x22: u8, x23: u8, x24: u8, x25: u8, x26: u8, x27: u8, x28: u8, x29: u8, x30: u8, x31: u8) -> (r: u8x32)
        ensures
            r@.len() == 32,
            r@[0] == x0,
            r@[1] == x1,
            r@[2] == x2,
            r@[3] == x3,
            r@[4] == x4,
            r@[5] == x5,
            r@[6] == x6,
            r@[7] == x7,
            r@[8] == x8,
            r@[9] == x9,
            r@[10] == x10,
            r@[11] == x11,
            r@[12] == x12,
            r@[13] == x13,
            r@[14] == x14,
            r@[15] == x15,
            r@[16] == x16,
            r@[17] == x17,
            r@[18] == x18,
            r@[19] == x19,
            r@[20] == x20,
            r@[21] == x21,
            r@[22] == x22,
            r@[23] == x23,
            r@[24] == x24,
            r@[25] == x25,
            r@[26] == x26,
            r@[27] == x27,
            r@[28] == x28,
            r@[29] == x29,
            r@[30] == x30,
            r@[31] == x31,
    {
        Lanes::from_lanes([x0, x1, x2, x3, x4, x5, x6, x7, x8, x9, x10, x11, x12, x13, x14, x15, x16, x17, x18, x19, x20, x21, x22, x23, x24, x25, x26, x27, x28, x29, x30, x31])
    }
}

impl i8x32 {
    /// Create a new instance from its lane values, in lane order.
    #[verifier::rlimit(50)]
    pub fn new(x0: i8, x1: i8, x2: i8, x3: i8, x4: i8, x5: i8, x6: i8, x7: i8, x8: i8, x9: i8, x10: i8, x11: i8, x12: i8, x13: i8, x14: i8, x15: i8, x16: i8, x17: i8, x18: i8, x19: i8, x20: i8, x21: i8, x22: i8, x23: i8, x24: i8, x25: i8, x26: i8, x27: i8, x28: i8, x29: i8, x30: i8, x31: i8) -> (r: i8x32)
        ensures
            r@.len() == 32,
            r@[0] == x0,
            r@[1] == x1,
            r@[2] == x2,
            r@[3] == x3,
            r@[4] == x4,
            r@[5] == x5,
            r@[6] == x6,
            r@[7] == x7,
            r@[8] == x8,
            r@[9] == x9,
            r@[10] == x10,
            r@[11] == x11,
            r@[12] == x12,
            r@[13] == x13,
            r@[14] == x14,
            r@[15] == x15,
            r@[16] == x16,
            r@[17] == x17,
            r@[18] == x18,
            r@[19] == x19,
            r@[20] == x20,
            r@[21] == x21,
            r@[22] == x22,
            r@[23] == x23,
            r@[24] == x24,
            r@[25] == x25,
            r@[26] == x26,
            r@[27] == x27,
            r@[28] == x28,
            r@[29] == x29,
            r@[30] == x30,
            r@[31] == x31,
    {
        Lanes::from_lanes([x0, x1, x2, x3, x4, x5, x6, x7, x8, x9, x10, x11, x12, x13, x14, x15, x16, x17, x18, x19, x20, x21, x22, x23, x24, x25, x26, x27, x28, x29, x30, x31])
    }
}

impl bool64ix4 {
    /// Create a new instance from its lane truth values, in lane order.
    pub fn new(x0: bool, x1: bool, x2: bool, x3: bool) -> (r: bool64ix4)
        ensures
            r.well_formed(),
            r@.len() == 4,
            r@[0] == x0,
            r@[1] == x1,
            r@[2] == x2,
            r@[3] == x3,
    {
        Mask::from_bools([x0, x1, x2, x3])
    }
}

impl bool64fx4 {
    /// Create a new instance from its lane truth values, in lane order.
    pub fn new(x0: bool, x1: bool, x2: bool, x3: bool) -> (r: bool64fx4)
        ensures
            r.well_formed(),
            r@.len() == 4,
            r@[0] == x0,
            r@[1] == x1,
            r@[2] == x2,
            r@[3] == x3,
    {
        Mask::from_bools([x0, x1, x2, x3])
    }
}

impl bool32ix8 {
    /// Create a new instance from its lane truth values, in lane order.
    pub fn new(x0: bool, x1: bool, x2: bool, x3: bool, x4: bool, x5: bool, x6: bool, x7: bool) -> (r: bool32ix8)
        ensures
            r.well_formed(),
            r@.len() == 8,
            r@[0] == x0,
            r@[1] == x1,
            r@[2] == x2,
            r@[3] == x3,
            r@[4] == x4,
            r@[5] == x5,
            r@[6] == x6,
            r@[7] == x7,
    {
        Mask::from_bools([x0, x1, x2, x3, x4, x5, x6, x7])
    }
}

impl bool32fx8 {
    /// Create a new instance from its lane truth values, in lane order.
    pub fn new(x0: bool, x1: bool, x2: bool, x3: bool, x4: bool, x5: bool, x6: bool, x7: bool) -> (r: bool32fx8)
        ensures
            r.well_formed(),
            r@.len() == 8,
            r@[0] == x0,
            r@[1] == x1,
            r@[2] == x2,
            r@[3] == x3,
            r@[4] == x4,
            r@[5] == x5,
            r@[6] == x6,
            r@[7] == x7,
    {
        Mask::from_bools([x0, x1, x2, x3, x4, x5, x6, x7])
    }
}

impl bool16ix16 {
    /// Create a new instance from its lane truth values, in lane order.
    #[verifier::rlimit(50)]
    pub fn new(x0: bool, x1: bool, x2: bool, x3: bool, x4: bool, x5: bool, x6: bool, x7: bool, x8: bool, x9: bool, x10: bool, x11: bool, x12: bool, x13: bool, x14: bool, x15: bool) -> (r: bool16ix16)
        ensures
            r.well_formed(),
            r@.len() == 16,
            r@[0] == x0,
            r@[1] == x1,
            r@[2] == x2,
            r@[3] == x3,
            r@[4] == x4,
            r@[5] == x5,
            r@[6] == x6,
            r@[7] == x7,
            r@[8] == x8,
            r@[9] == x9,
            r@[10] == x10,
            r@[11] == x11,
            r@[12] == x12,
            r@[13] == x13,
            r@[14] == x14,
            r@[15] == x15,
    {
        Mask::from_bools([x0, x1, x2, x3, x4, x5, x6, x7, x8, x9, x10, x11, x12, x13, x14, x15])
    }
}

impl bool8ix32 {
    /// Create a new instance from its lane truth values, in lane order.
    #[verifier::rlimit(100)]
    pub fn new(x0: bool, x1: bool, x2: bool, x3: bool, x4: bool, x5: bool, x6: bool, x7: bool, x8: bool, x9: bool, x10: bool, x11: bool, x12: bool, x13: bool, x14: bool, x15: bool, x16: bool, x17: bool, x18: bool, x19: bool, x20: bool, x21: bool, x22: bool, x23: bool, x24: bool, x25: bool, x26: bool, x27: bool, x28: bool, x29: bool, x30: bool, x31: bool) -> (r: bool8ix32)
        ensures
            r.well_formed(),
            r@.len() == 32,
            r@[0] == x0,
            r@[1] == x1,
            r@[2] == x2,
            r@[3] == x3,
            r@[4] == x4,
            r@[5] == x5,
            r@[6] == x6,
            r@[7] == x7,
            r@[8] == x8,
            r@[9] == x9,
            r@[10] == x10,
            r@[11] == x11,
            r@[12] == x12,
            r@[13] == x13,
            r@[14] == x14,
            r@[15] == x15,
            r@[16] == x16,
            r@[17] == x17,
            r@[18] == x18,
            r@[19] == x19,
            r@[20] == x20,
            r@[21] == x21,
            r@[22] == x22,
            r@[23] == x23,
            r@[24] == x24,
            r@[25] == x25,
            r@[26] == x26,
            r@[27] == x27,
            r@[28] == x28,
            r@[29] == x29,
            r@[30] == x30,
            r@[31] == x31,
    {
        let lo = bool8ix16::new(x0, x1, x2, x3, x4, x5, x6, x7, x8, x9, x10, x11, x12, x13, x14, x15);
        let hi = bool8ix16::new(x16, x17, x18, x19, x20, x21, x22, x23, x24, x25, x26, x27, x28, x29, x30, x31);
        crate::mask::mask_concat(lo, hi)
    }
}

impl u64x4 {
    /// Reinterpret each lane as a signed integer, keeping the bit pattern.
    pub fn to_i64(self) -> (r: i64x4)
        ensures
            r@.len() == 4,
            forall|i: int| 0 <= i < 4 ==> r@[i] == self@[i] as i64,
    {
        crate::vector::reinterpret(self)
    }
}

impl i64x4 {
    /// Reinterpret each lane as an unsigned integer, keeping the bit pattern.
    pub fn to_u64(self) -> (r: u64x4)
        ensures
            r@.len() == 4,
            forall|i: int| 0 <= i < 4 ==> r@[i] == self@[i] as u64,
    {
        crate::vector::reinterpret(self)
    }
}

impl u32x8 {
    /// Reinterpret each lane as a signed integer, keeping the bit pattern.
    pub fn to_i32(self) -> (r: i32x8)
        ensures
            r@.len() == 8,
            forall|i: int| 0 <= i < 8 ==> r@[i] == self@[i] as i32,
    {
        crate::vector::reinterpret(self)
    }
}

impl i32x8 {
    /// Reinterpret each lane as an unsigned integer, keeping the bit pattern.
    pub fn to_u32(self) -> (r: u32x8)
        ensures
            r@.len() == 8,
            forall|i: int| 0 <= i < 8 ==> r@[i] == self@[i] as u32,
    {
        crate::vector::reinterpret(self)
    }
}

impl i16x16 {
    /// Reinterpret each lane as an unsigned integer, keeping the bit pattern.
    pub fn to_u16(self) -> (r: u16x16)
        ensures
            r@.len() == 16,
            forall|i: int| 0 <= i < 16 ==> r@[i] == self@[i] as u16,
    {
        crate::vector::reinterpret(self)
    }
}

impl u16x16 {
    /// Reinterpret each lane as a signed integer, keeping the bit pattern.
    pub fn to_i16(self) -> (r: i16x16)
        ensures
            r@.len() == 16,
            forall|i: int| 0 <= i < 16 ==> r@[i] == self@[i] as i16,
    {
        crate::vector::reinterpret(self)
    }
}

impl i8x32 {
    /// Reinterpret each lane as an unsigned integer, keeping the bit pattern.
    pub fn to_u8(self) -> (r: u8x32)
        ensures
            r@.len() == 32,
            forall|i: int| 0 <= i < 32 ==> r@[i] == self@[i] as u8,
    {
        crate::vector::reinterpret(self)
    }
}

impl u8x32 {
    /// Reinterpret each lane as a signed integer, keeping the bit pattern.
    pub fn to_i8(self) -> (r: i8x32)
        ensures
            r@.len() == 32,
            forall|i: int| 0 <= i < 32 ==> r@[i] == self@[i] as i8,
    {
        crate::vector::reinterpret(self)
    }
}

impl LowHigh128 for u64x4 {
    type LaneV = u64;

    type Half = u64x2;

    open spec fn split_inv(self) -> bool {
        true
    }

    open spec fn half_wf(h: u64x2) -> bool {
        true
    }

    fn low(self) -> (r: u64x2) {
        crate::vector::low_half(self)
    }

    fn high(self) -> (r: u64x2) {
        crate::vector::high_half(self)
    }
}

impl LowHigh128 for i64x4 {
    type LaneV = i64;

    type Half = i64x2;

    open spec fn split_inv(self) -> bool {
        true
    }

    open spec fn half_wf(h: i64x2) -> bool {
        true
    }

    fn low(self) -> (r: i64x2) {
        crate::vector::low_half(self)
    }

    fn high(self) -> (r: i64x2) {
        crate::vector::high_half(self)
    }
}

impl LowHigh128 for u32x8 {
    type LaneV = u32;

    type Half = u32x4;

    open spec fn split_inv(self) -> bool {
        true
    }

    open spec fn half_wf(h: u32x4) -> bool {
        true
    }

    fn low(self) -> (r: u32x4) {
        crate::vector::low_half(self)
    }

    fn high(self) -> (r: u32x4) {
        crate::vector::high_half(self)
    }
}

impl LowHigh128 for i32x8 {
    type LaneV = i32;

    type Half = i32x4;

    open spec fn split_inv(self) -> bool {
        true
    }

    open spec fn half_wf(h: i32x4) -> bool {
        true
    }

    fn low(self) -> (r: i32x4) {
        crate::vector::low_half(self)
    }

    fn high(self) -> (r: i32x4) {
        crate::vector::high_half(self)
    }
}

impl LowHigh128 for u16x16 {
    type LaneV = u16;

    type Half = u16x8;

    open spec fn split_inv(self) -> bool {
        true
    }

    open spec fn half_wf(h: u16x8) -> bool {
        true
    }

    fn low(self) -> (r: u16x8) {
        crate::vector::low_half(self)
    }

    fn high(self) -> (r: u16x8) {
        crate::vector::high_half(self)
    }
}

impl LowHigh128 for i16x16 {
    type LaneV = i16;

    type Half = i16x8;

    open spec fn split_inv(self) -> bool {
        true
    }

    open spec fn half_wf(h: i16x8) -> bool {
        true
    }

    fn low(self) -> (r: i16x8) {
        crate::vector::low_half(self)
    }

    fn high(self) -> (r: i16x8) {
        crate::vector::high_half(self)
    }
}

impl LowHigh128 for u8x32 {
    type LaneV = u8;

    type Half = u8x16;

    open spec fn split_inv(self) -> bool {
        true
    }

    open spec fn half_wf(h: u8x16) -> bool {
        true
    }

    fn low(self) -> (r: u8x16) {
        crate::vector::low_half(self)
    }

    fn high(self) -> (r: u8x16) {
        crate::vector::high_half(self)
    }
}

impl LowHigh128 for i8x32 {
    type LaneV = i8;

    type Half = i8x16;

    open spec fn split_inv(self) -> bool {
        true
    }

    open spec fn half_wf(h: i8x16) -> bool {
        true
    }

    fn low(self) -> (r: i8x16) {
        crate::vector::low_half(self)
    }

    fn high(self) -> (r: i8x16) {
        crate::vector::high_half(self)
    }
}

impl LowHigh128 for bool64ix4 {
    type LaneV = bool;

    type Half = bool64ix2;

    open spec fn split_inv(self) -> bool {
        self.well_formed()
    }

    open spec fn half_wf(h: bool64ix2) -> bool {
        h.well_formed()
    }

    fn low(self) -> (r: bool64ix2) {
        proof {
            self.lemma_view();
        }
        crate::mask::mask_low_half(self)
    }

    fn high(self) -> (r: bool64ix2) {
        proof {
            self.lemma_view();
        }
        crate::mask::mask_high_half(self)
    }
}

impl LowHigh128 for bool64fx4 {
    type LaneV = bool;

    type Half = bool64fx2;

    open spec fn split_inv(self) -> bool {
        self.well_formed()
    }

    open spec fn half_wf(h: bool64fx2) -> bool {
        h.well_formed()
    }

    fn low(self) -> (r: bool64fx2) {
        proof {
            self.lemma_view();
        }
        crate::mask::mask_low_half(self)
    }

    fn high(self) -> (r: bool64fx2) {
        proof {
            self.lemma_view();
        }
        crate::mask::mask_high_half(self)
    }
}

impl LowHigh128 for bool32ix8 {
    type LaneV = bool;

    type Half = bool32ix4;

    open spec fn split_inv(self) -> bool {
        self.well_formed()
    }

    open spec fn half_wf(h: bool32ix4) -> bool {
        h.well_formed()
    }

    fn low(self) -> (r: bool32ix4) {
        proof {
            self.lemma_view();
        }
        crate::mask::mask_low_half(self)
    }

    fn high(self) -> (r: bool32ix4) {
        proof {
            self.lemma_view();
        }
        crate::mask::mask_high_half(self)
    }
}

impl LowHigh128 for bool32fx8 {
    type LaneV = bool;

    type Half = bool32fx4;

    open spec fn split_inv(self) -> bool {
        self.well_formed()
    }

    open spec fn half_wf(h: bool32fx4) -> bool {
        h.well_formed()
    }

    fn low(self) -> (r: bool32fx4) {
        proof {
            self.lemma_view();
        }
        crate::mask::mask_low_half(self)
    }

    fn high(self) -> (r: bool32fx4) {
        proof {
            self.lemma_view();
        }
        crate::mask::mask_high_half(self)
    }
}

impl LowHigh128 for bool16ix16 {
    type LaneV = bool;

    type Half = bool16ix8;

    open spec fn split_inv(self) -> bool {
        self.well_formed()
    }

    open spec fn half_wf(h: bool16ix8) -> bool {
        h.well_formed()
    }

    fn low(self) -> (r: bool16ix8) {
        proof {
            self.lemma_view();
        }
        crate::mask::mask_low_half(self)
    }

    fn high(self) -> (r: bool16ix8) {
        proof {
            self.lemma_view();
        }
        crate::mask::mask_high_half(self)
    }
}

impl LowHigh128 for bool8ix32 {
    type LaneV = bool;

    type Half = bool8ix16;

    open spec fn split_inv(self) -> bool {
        self.well_formed()
    }

    open spec fn half_wf(h: bool8ix16) -> bool {
        h.well_formed()
    }

    fn low(self) -> (r: bool8ix16) {
        proof {
            self.lemma_view();
        }
        crate::mask::mask_low_half(self)
    }

    fn high(self) -> (r: bool8ix16) {
        proof {
            self.lemma_view();
        }
        crate::mask::mask_high_half(self)
    }
}

} // verus!
