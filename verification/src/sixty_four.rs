//! The two-lane 64-bit tier: vectors of two 64-bit lanes and their masks.

use vstd::prelude::*;

use crate::mask::Mask;
use crate::vector::Lanes;

verus! {

broadcast use crate::vector::lemma_lanes_len;

/// Boolean type for 64-bit integers.
#[derive(Debug, Copy, Clone, PartialEq, Eq, Structural)]
pub struct bool64i(i64);

/// Boolean type for 64-bit floats.
#[derive(Debug, Copy, Clone, PartialEq, Eq, Structural)]
pub struct bool64f(i64);

impl bool64i {
    /// The bit pattern backing this boolean.
    pub closed spec fn spec_repr(self) -> i64 {
        self.0
    }

    /// The boolean value: any nonzero pattern counts as true.
    pub open spec fn spec_truth(self) -> bool {
        self.spec_repr() != 0i64
    }

    /// Saturation: the pattern is all-zeros or all-ones.
    pub open spec fn well_formed(self) -> bool {
        self.spec_repr() == 0i64 || self.spec_repr() == -1i64
    }

    /// Build from a plain bool; true becomes the all-ones pattern.
    pub fn from_bool(b: bool) -> (r: bool64i)
        ensures
            r.well_formed(),
            r.spec_truth() == b,
    {
        bool64i(if b { -1i64 } else { 0i64 })
    }

    /// Read the boolean value back.
    pub fn to_bool(self) -> (r: bool)
        ensures
            r == self.spec_truth(),
    {
        self.0 != 0i64
    }
}

impl bool64f {
    /// The bit pattern backing this boolean.
    pub closed spec fn spec_repr(self) -> i64 {
        self.0
    }

    /// The boolean value: any nonzero pattern counts as true.
    pub open spec fn spec_truth(self) -> bool {
        self.spec_repr() != 0i64
    }

    /// Saturation: the pattern is all-zeros or all-ones.
    pub open spec fn well_formed(self) -> bool {
        self.spec_repr() == 0i64 || self.spec_repr() == -1i64
    }

    /// Build from a plain bool; true becomes the all-ones pattern.
    pub fn from_bool(b: bool) -> (r: bool64f)
        ensures
            r.well_formed(),
            r.spec_truth() == b,
    {
        bool64f(if b { -1i64 } else { 0i64 })
    }

    /// Read the boolean value back.
    pub fn to_bool(self) -> (r: bool)
        ensures
            r == self.spec_truth(),
    {
        self.0 != 0i64
    }
}

/// A SIMD vector of 2 `u64`s.
pub type u64x2 = Lanes<u64, 2>;

/// A SIMD vector of 2 `i64`s.
pub type i64x2 = Lanes<i64, 2>;

/// A SIMD boolean vector for length-2 vectors of 64-bit integers.
pub type bool64ix2 = Mask<i64, 2, false>;

/// A SIMD boolean vector for length-2 vectors of 64-bit floats.
pub type bool64fx2 = Mask<i64, 2, true>;

impl u64x2 {
    /// Create a new instance from its lane values, in lane order.
    pub fn new(x0: u64, x1: u64) -> (r: u64x2)
        ensures
            r@.len() == 2,
            r@[0] == x0,
            r@[1] == x1,
    {
        Lanes::from_lanes([x0, x1])
    }
}

impl i64x2 {
    /// Create a new instance from its lane values, in lane order.
    pub fn new(x0: i64, x1: i64) -> (r: i64x2)
        ensures
            r@.len() == 2,
            r@[0] == x0,
            r@[1] == x1,
    {
        Lanes::from_lanes([x0, x1])
    }
}

impl bool64ix2 {
    /// Create a new instance from its lane truth values, in lane order.
    pub fn new(x0: bool, x1: bool) -> (r: bool64ix2)
        ensures
            r.well_formed(),
            r@.len() == 2,
            r@[0] == x0,
            r@[1] == x1,
    {
        Mask::from_bools([x0, x1])
    }
}

impl bool64fx2 {
    /// Create a new instance from its lane truth values, in lane order.
    pub fn new(x0: bool, x1: bool) -> (r: bool64fx2)
        ensures
            r.well_formed(),
            r@.len() == 2,
            r@[0] == x0,
            r@[1] == x1,
    {
        Mask::from_bools([x0, x1])
    }
}

impl u64x2 {
    /// Reinterpret each lane as a signed integer, keeping the bit pattern.
    pub fn to_i64(self) -> (r: i64x2)
        ensures
            r@.len() == 2,
            forall|i: int| 0 <= i < 2 ==> r@[i] == self@[i] as i64,
    {
        crate::vector::reinterpret(self)
    }
}

impl i64x2 {
    /// Reinterpret each lane as an unsigned integer, keeping the bit pattern.
    pub fn to_u64(self) -> (r: u64x2)
        ensures
            r@.len() == 2,
            forall|i: int| 0 <= i < 2 ==> r@[i] == self@[i] as u64,
    {
        crate::vector::reinterpret(self)
    }
}

} // verus!
