//! Lane-parallel fixed-width vector types with verified lane-wise semantics.
//!
//! A value of a vector type is a fixed sequence of `N` scalar lanes, and
//! every operation acts lane by lane: arithmetic wraps as the element type's
//! native arithmetic does, comparisons produce boolean-mask vectors, and the
//! mask engine keeps the invariant that each mask lane is all-ones or
//! all-zeros — the property that makes the bitwise select/blend correct.
//!
//! The same generic core serves three width tiers: the 128-bit family
//! (sixteen 8-bit, eight 16-bit or four 32-bit lanes), the two-lane 64-bit
//! family, and the 256-bit family that splits into two 128-bit halves.

#![allow(non_camel_case_types)]

use vstd::prelude::*;

pub mod elem;
pub mod mask;
pub mod vector;

pub mod common;
pub mod sixty_four;
pub mod v256;
pub mod x86;

pub use common::u32x4;
pub use common::i32x4;
pub use common::bool32ix4;
pub use common::bool32fx4;
pub use common::u16x8;
pub use common::i16x8;
pub use common::bool16ix8;
pub use common::u8x16;
pub use common::i8x16;
pub use common::bool8ix16;
pub use elem::LaneElem;
pub use elem::MaskLane;
pub use mask::Mask;
pub use sixty_four::bool64i;
pub use sixty_four::bool64f;
pub use sixty_four::u64x2;
pub use sixty_four::i64x2;
pub use sixty_four::bool64ix2;
pub use sixty_four::bool64fx2;
pub use v256::LowHigh128;
pub use v256::u64x4;
pub use v256::i64x4;
pub use v256::bool64ix4;
pub use v256::bool64fx4;
pub use v256::u32x8;
pub use v256::i32x8;
pub use v256::bool32ix8;
pub use v256::bool32fx8;
pub use v256::u16x16;
pub use v256::i16x16;
pub use v256::bool16ix16;
pub use v256::u8x32;
pub use v256::i8x32;
pub use v256::bool8ix32;
pub use vector::Lanes;

verus! {

/// Boolean type for 8-bit integers.
#[derive(Debug, Copy, Clone, PartialEq, Eq, Structural, PartialOrd, Ord)]
pub struct bool8i(i8);

/// Boolean type for 16-bit integers.
#[derive(Debug, Copy, Clone, PartialEq, Eq, Structural, PartialOrd, Ord)]
pub struct bool16i(i16);

/// Boolean type for 32-bit integers.
#[derive(Debug, Copy, Clone, PartialEq, Eq, Structural, PartialOrd, Ord)]
pub struct bool32i(i32);

/// Boolean type for 32-bit floats.
#[derive(Debug, Copy, Clone, PartialEq, Eq, Structural, PartialOrd, Ord)]
pub struct bool32f(i32);

impl bool8i {
    /// The bit pattern backing this boolean.
    pub closed spec fn spec_repr(self) -> i8 {
        self.0
    }

    /// The boolean value: any nonzero pattern counts as true.
    pub open spec fn spec_truth(self) -> bool {
        self.spec_repr() != 0i8
    }

    /// Saturation: the pattern is all-zeros or all-ones.
    pub open spec fn well_formed(self) -> bool {
        self.spec_repr() == 0i8 || self.spec_repr() == -1i8
    }

    /// Build from a plain bool; true becomes the all-ones pattern.
    pub fn from_bool(b: bool) -> (r: bool8i)
        ensures
            r.well_formed(),
            r.spec_truth() == b,
    {
        bool8i(if b { -1i8 } else { 0i8 })
    }

    /// Read the boolean value back.
    pub fn to_bool(self) -> (r: bool)
        ensures
            r == self.spec_truth(),
    {
        self.0 != 0i8
    }
}

impl bool16i {
    /// The bit pattern backing this boolean.
    pub closed spec fn spec_repr(self) -> i16 {
        self.0
    }

    /// The boolean value: any nonzero pattern counts as true.
    pub open spec fn spec_truth(self) -> bool {
        self.spec_repr() != 0i16
    }

    /// Saturation: the pattern is all-zeros or all-ones.
    pub open spec fn well_formed(self) -> bool {
        self.spec_repr() == 0i16 || self.spec_repr() == -1i16
    }

    /// Build from a plain bool; true becomes the all-ones pattern.
    pub fn from_bool(b: bool) -> (r: bool16i)
        ensures
            r.well_formed(),
            r.spec_truth() == b,
    {
        bool16i(if b { -1i16 } else { 0i16 })
    }

    /// Read the boolean value back.
    pub fn to_bool(self) -> (r: bool)
        ensures
            r == self.spec_truth(),
    {
        self.0 != 0i16
    }
}

impl bool32i {
    /// The bit pattern backing this boolean.
    pub closed spec fn spec_repr(self) -> i32 {
        self.0
    }

    /// The boolean value: any nonzero pattern counts as true.
    pub open spec fn spec_truth(self) -> bool {
        self.spec_repr() != 0i32
    }

    /// Saturation: the pattern is all-zeros or all-ones.
    pub open spec fn well_formed(self) -> bool {
        self.spec_repr() == 0i32 || self.spec_repr() == -1i32
    }

    /// Build from a plain bool; true becomes the all-ones pattern.
    pub fn from_bool(b: bool) -> (r: bool32i)
        ensures
            r.well_formed(),
            r.spec_truth() == b,
    {
        bool32i(if b { -1i32 } else { 0i32 })
    }

    /// Read the boolean value back.
    pub fn to_bool(self) -> (r: bool)
        ensures
            r == self.spec_truth(),
    {
        self.0 != 0i32
    }
}

impl bool32f {
    /// The bit pattern backing this boolean.
    pub closed spec fn spec_repr(self) -> i32 {
        self.0
    }

    /// The boolean value: any nonzero pattern counts as true.
    pub open spec fn spec_truth(self) -> bool {
        self.spec_repr() != 0i32
    }

    /// Saturation: the pattern is all-zeros or all-ones.
    pub open spec fn well_formed(self) -> bool {
        self.spec_repr() == 0i32 || self.spec_repr() == -1i32
    }

    /// Build from a plain bool; true becomes the all-ones pattern.
    pub fn from_bool(b: bool) -> (r: bool32f)
        ensures
            r.well_formed(),
            r.spec_truth() == b,
    {
        bool32f(if b { -1i32 } else { 0i32 })
    }

    /// Read the boolean value back.
    pub fn to_bool(self) -> (r: bool)
        ensures
            r == self.spec_truth(),
    {
        self.0 != 0i32
    }
}

/// Types that are SIMD vectors.
///
/// Beyond pairing a vector type with its boolean-mask companion and its
/// element type, the trait gives every vector a view of its lanes' bit
/// patterns as the signed integer vector of the same shape (`Repr`). That
/// reinterpretation is total, bit-preserving and injective, which is what
/// lets `bitcast` and the mask engine's select move values between types of
/// identical size without looking inside them.
pub trait Simd: Sized {
    /// The corresponding boolean vector type. A boolean vector is its own
    /// `Bool`, so the bound cannot ask `Bool` to be `Simd` in turn.
    type Bool;

    /// The element that this vector stores.
    type Elem;

    /// The lane type of the backing integer vector.
    type ReprLane;

    /// The signed integer vector with this type's lane count and width.
    type Repr: View<V = Seq<Self::ReprLane>>;

    /// The bit pattern of each lane, read as the signed repr lane type.
    spec fn bit_lanes(self) -> Seq<Self::ReprLane>;

    fn to_bits(self) -> (b: Self::Repr)
        ensures
            b@ == self.bit_lanes();

    fn of_bits(b: Self::Repr) -> (r: Self)
        ensures
            r.bit_lanes() == b@;

    /// Two values with the same bit pattern are the same value.
    proof fn lemma_bit_lanes_injective(x: Self, y: Self)
        requires
            x.bit_lanes() == y.bit_lanes(),
        ensures
            x == y;
}

/// Reinterpret a vector as another vector type of the same size.
///
/// The two types must share their backing integer vector, so the equality of
/// sizes is a static fact carried by the types rather than a runtime check,
/// and the lane bit patterns carry over unchanged.
pub fn bitcast<T: Simd, U: Simd<ReprLane = T::ReprLane, Repr = T::Repr>>(x: T) -> (r: U)
    ensures
        r.bit_lanes() == x.bit_lanes(),
{
    U::of_bits(x.to_bits())
}

} // verus!
