//! The 128-bit tier: concrete vector types of sixteen 8-bit, eight 16-bit
//! or four 32-bit lanes, with their boolean-mask companions.

use vstd::prelude::*;

use crate::mask::Mask;
use crate::vector::Lanes;

verus! {

broadcast use crate::vector::lemma_lanes_len;

/// A SIMD vector of 4 `u32`s.
pub type u32x4 = Lanes<u32, 4>;

/// A SIMD vector of 4 `i32`s.
pub type i32x4 = Lanes<i32, 4>;

/// A SIMD boolean vector for length-4 vectors of 32-bit integers.
pub type bool32ix4 = Mask<i32, 4, false>;

/// A SIMD boolean vector for length-4 vectors of 32-bit floats.
pub type bool32fx4 = Mask<i32, 4, true>;

/// A SIMD vector of 8 `u16`s.
pub type u16x8 = Lanes<u16, 8>;

/// A SIMD vector of 8 `i16`s.
pub type i16x8 = Lanes<i16, 8>;

/// A SIMD boolean vector for length-8 vectors of 16-bit integers.
pub type bool16ix8 = Mask<i16, 8, false>;

/// A SIMD vector of 16 `u8`s.
pub type u8x16 = Lanes<u8, 16>;

/// A SIMD vector of 16 `i8`s.
pub type i8x16 = Lanes<i8, 16>;

/// A SIMD boolean vector for length-16 vectors of 8-bit integers.
pub type bool8ix16 = Mask<i8, 16, false>;

impl u32x4 {
    /// Create a new instance from its lane values, in lane order.
    pub fn new(x0: u32, x1: u32, x2: u32, x3: u32) -> (r: u32x4)
        ensures
            r@.len() == 4,
            r@[0] == x0,
            r@[1] == x1,
            r@[2] == x2,
            r@[3] == x3,
    {
        Lanes::from_lanes([x0, x1, x2, x3])
    }
}

impl i32x4 {
    /// Create a new instance from its lane values, in lane order.
    pub fn new(x0: i32, x1: i32, x2: i32, x3: i32) -> (r: i32x4)
        ensures
            r@.len() == 4,
            r@[0] == x0,
            r@[1] == x1,
            r@[2] == x2,
            r@[3] == x3,
    {
        Lanes::from_lanes([x0, x1, x2, x3])
    }
}

impl u16x8 {
    /// Create a new instance from its lane values, in lane order.
    pub fn new(x0: u16, x1: u16, x2: u16, x3: u16, x4: u16, x5: u16, x6: u16, x7: u16) -> (r: u16x8)
        ensures
            r@.len() == 8,
            r@[0] == x0,
            r@[1] == x1,
            r@[2] == x2,
            r@[3] == x3,
            r@[4] == x4,
            r@[5] == x5,
            r@[6] == x6,
            r@[7] == x7,
    {
        Lanes::from_lanes([x0, x1, x2, x3, x4, x5, x6, x7])
    }
}

impl i16x8 {
    /// Create a new instance from its lane values, in lane order.
    pub fn new(x0: i16, x1: i16, x2: i16, x3: i16, x4: i16, x5: i16, x6: i16, x7: i16) -> (r: i16x8)
        ensures
            r@.len() == 8,
            r@[0] == x0,
            r@[1] == x1,
            r@[2] == x2,
            r@[3] == x3,
            r@[4] == x4,
            r@[5] == x5,
            r@[6] == x6,
            r@[7] == x7,
    {
        Lanes::from_lanes([x0, x1, x2, x3, x4, x5, x6, x7])
    }
}

impl u8x16 {
    /// Create a new instance from its lane values, in lane order.
    #[verifier::rlimit(50)]
    pub fn new(x0: u8, x1: u8, x2: u8, x3: u8, x4: u8, x5: u8, x6: u8, x7: u8, x8: u8, x9: u8, x10: u8, x11: u8, x12: u8, x13: u8, x14: u8, x15: u8) -> (r: u8x16)
        ensures
            r@.len() == 16,
            r@[0] == x0,
            r@[1] == x1,
            r@[2] == x2,
            r@[3] == x3,
            r@[4] == x4,
            r@[5] == x5,
            r@[6] == x6,
            r@[7] == x7,
            r@[8] == x8,
            r@[9] == x9,
            r@[10] == x10,
            r@[11] == x11,
            r@[12] == x12,
            r@[13] == x13,
            r@[14] == x14,
            r@[15] == x15,
    {
        Lanes::from_lanes([x0, x1, x2, x3, x4, x5, x6, x7, x8, x9, x10, x11, x12, x13, x14, x15])
    }
}

impl i8x16 {
    /// Create a new instance from its lane values, in lane order.
    #[verifier::rlimit(50)]
    pub fn new(x0: i8, x1: i8, x2: i8, x3: i8, x4: i8, x5: i8, x6: i8, x7: i8, x8: i8, x9: i8, x10: i8, x11: i8, x12: i8, x13: i8, x14: i8, x15: i8) -> (r: i8x16)
        ensures
            r@.len() == 16,
            r@[0] == x0,
            r@[1] == x1,
            r@[2] == x2,
            r@[3] == x3,
            r@[4] == x4,
            r@[5] == x5,
            r@[6] == x6,
            r@[7] == x7,
            r@[8] == x8,
            r@[9] == x9,
            r@[10] == x10,
            r@[11] == x11,
            r@[12] == x12,
            r@[13] == x13,
            r@[14] == x14,
            r@[15] == x15,
    {
        Lanes::from_lanes([x0, x1, x2, x3, x4, x5, x6, x7, x8, x9, x10, x11, x12, x13, x14, x15])
    }
}

impl bool32ix4 {
    /// Create a new instance from its lane truth values, in lane order.
    pub fn new(x0: bool, x1: bool, x2: bool, x3: bool) -> (r: bool32ix4)
        ensures
            r.well_formed(),
            r@.len() == 4,
            r@[0] == x0,
            r@[1] == x1,
            r@[2] == x2,
            r@[3] == x3,
    {
        Mask::from_bools([x0, x1, x2, x3])
    }
}

impl bool32fx4 {
    /// Create a new instance from its lane truth values, in lane order.
    pub fn new(x0: bool, x1: bool, x2: bool, x3: bool) -> (r: bool32fx4)
        ensures
            r.well_formed(),
            r@.len() == 4,
            r@[0] == x0,
            r@[1] == x1,
            r@[2] == x2,
            r@[3] == x3,
    {
        Mask::from_bools([x0, x1, x2, x3])
    }
}

impl bool16ix8 {
    /// Create a new instance from its lane truth values, in lane order.
    pub fn new(x0: bool, x1: bool, x2: bool, x3: bool, x4: bool, x5: bool, x6: bool, x7: bool) -> (r: bool16ix8)
        ensures
            r.well_formed(),
            r@.len() == 8,
            r@[0] == x0,
            r@[1] == x1,
            r@[2] == x2,
            r@[3] == x3,
            r@[4] == x4,
            r@[5] == x5,
            r@[6] == x6,
            r@[7] == x7,
    {
        Mask::from_bools([x0, x1, x2, x3, x4, x5, x6, x7])
    }
}

impl bool8ix16 {
    /// Create a new instance from its lane truth values, in lane order.
    #[verifier::rlimit(50)]
    pub fn new(x0: bool, x1: bool, x2: bool, x3: bool, x4: bool, x5: bool, x6: bool, x7: bool, x8: bool, x9: bool, x10: bool, x11: bool, x12: bool, x13: bool, x14: bool, x15: bool) -> (r: bool8ix16)
        ensures
            r.well_formed(),
            r@.len() == 16,
            r@[0] == x0,
            r@[1] == x1,
            r@[2] == x2,
            r@[3] == x3,
            r@[4] == x4,
            r@[5] == x5,
            r@[6] == x6,
            r@[7] == x7,
            r@[8] == x8,
            r@[9] == x9,
            r@[10] == x10,
            r@[11] == x11,
            r@[12] == x12,
            r@[13] == x13,
            r@[14] == x14,
            r@[15] == x15,
    {
        Mask::from_bools([x0, x1, x2, x3, x4, x5, x6, x7, x8, x9, x10, x11, x12, x13, x14, x15])
    }
}

impl u32x4 {
    /// Reinterpret each lane as a signed integer, keeping the bit pattern.
    pub fn to_i32(self) -> (r: i32x4)
        ensures
            r@.len() == 4,
            forall|i: int| 0 <= i < 4 ==> r@[i] == self@[i] as i32,
    {
        crate::vector::reinterpret(self)
    }
}

impl i32x4 {
    /// Reinterpret each lane as an unsigned integer, keeping the bit pattern.
    pub fn to_u32(self) -> (r: u32x4)
        ensures
            r@.len() == 4,
            forall|i: int| 0 <= i < 4 ==> r@[i] == self@[i] as u32,
    {
        crate::vector::reinterpret(self)
    }
}

impl i16x8 {
    /// Reinterpret each lane as an unsigned integer, keeping the bit pattern.
    pub fn to_u16(self) -> (r: u16x8)
        ensures
            r@.len() == 8,
            forall|i: int| 0 <= i < 8 ==> r@[i] == self@[i] as u16,
    {
        crate::vector::reinterpret(self)
    }
}

impl u16x8 {
    /// Reinterpret each lane as a signed integer, keeping the bit pattern.
    pub fn to_i16(self) -> (r: i16x8)
        ensures
            r@.len() == 8,
            forall|i: int| 0 <= i < 8 ==> r@[i] == self@[i] as i16,
    {
        crate::vector::reinterpret(self)
    }
}

impl i8x16 {
    /// Reinterpret each lane as an unsigned integer, keeping the bit pattern.
    pub fn to_u8(self) -> (r: u8x16)
        ensures
            r@.len() == 16,
            forall|i: int| 0 <= i < 16 ==> r@[i] == self@[i] as u8,
    {
        crate::vector::reinterpret(self)
    }
}

impl u8x16 {
    /// Reinterpret each lane as a signed integer, keeping the bit pattern.
    pub fn to_i8(self) -> (r: i8x16)
        ensures
            r@.len() == 16,
            forall|i: int| 0 <= i < 16 ==> r@[i] == self@[i] as i8,
    {
        crate::vector::reinterpret(self)
    }
}

} // verus!
