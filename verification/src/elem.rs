//! Scalar lane types: the per-lane operations every vector is built from.
//!
//! A vector operation is specified lane by lane, so the whole meaning of the
//! library bottoms out in the specs here: wrapping arithmetic, bitwise logic,
//! shifts, comparisons, and the bit-preserving reinterpretation between a lane
//! type and the signed type of the same width that backs boolean masks.

use vstd::prelude::*;

verus! {

/// A mask lane is logically true when any of its bits is set; on a
/// well-formed mask every lane is saturated, so true means all-ones.
pub open spec fn lane_truth<R: LaneElem>(a: R) -> bool {
    a != R::spec_zero()
}

/// A mask lane is saturated when it is all-zeros or all-ones.
pub open spec fn lane_saturated<R: LaneElem>(a: R) -> bool {
    a == R::spec_zero() || a == R::spec_ones()
}

/// A scalar integer type that can serve as one lane of a vector.
///
/// Arithmetic is the wrapping kind, matching what a vector lane inherits from
/// the hardware. `spec_bits`/`spec_of_bits` reinterpret the lane's bit
/// pattern as the signed type of the same width (`Repr`), which is how the
/// boolean-mask machinery sees every vector.
pub trait LaneElem: Copy + Sized {
    /// The signed integer type of the same width; mask vectors paired with
    /// this lane type store their lanes in it. Every lane type's `Repr` is a
    /// `MaskLane`; the bound lives on the vector operations that need it.
    type Repr;

    /// The additive identity of the lane type.
    spec fn spec_zero() -> Self;

    fn zero() -> (r: Self)
        ensures
            r == Self::spec_zero();

    /// The all-ones lane: logical true.
    spec fn spec_ones() -> Self;

    fn ones() -> (r: Self)
        ensures
            r == Self::spec_ones();

    /// The number of bits in one lane.
    spec fn spec_width() -> u32;

    /// Wrapping addition on a single lane.
    spec fn spec_wadd(a: Self, b: Self) -> Self;

    fn wadd(a: Self, b: Self) -> (r: Self)
        ensures
            r == Self::spec_wadd(a, b);

    /// Wrapping subtraction on a single lane.
    spec fn spec_wsub(a: Self, b: Self) -> Self;

    fn wsub(a: Self, b: Self) -> (r: Self)
        ensures
            r == Self::spec_wsub(a, b);

    /// Wrapping multiplication on a single lane.
    spec fn spec_wmul(a: Self, b: Self) -> Self;

    fn wmul(a: Self, b: Self) -> (r: Self)
        ensures
            r == Self::spec_wmul(a, b);

    /// Bitwise conjunction.
    spec fn spec_and(a: Self, b: Self) -> Self;

    fn band(a: Self, b: Self) -> (r: Self)
        ensures
            r == Self::spec_and(a, b);

    /// Bitwise disjunction.
    spec fn spec_or(a: Self, b: Self) -> Self;

    fn bor(a: Self, b: Self) -> (r: Self)
        ensures
            r == Self::spec_or(a, b);

    /// Bitwise exclusive or.
    spec fn spec_xor(a: Self, b: Self) -> Self;

    fn bxor(a: Self, b: Self) -> (r: Self)
        ensures
            r == Self::spec_xor(a, b);

    /// Bitwise complement.
    spec fn spec_not(a: Self) -> Self;

    fn bnot(a: Self) -> (r: Self)
        ensures
            r == Self::spec_not(a);

    /// Left shift by `n` bits; the shift amount must be below the lane width.
    spec fn spec_shl(a: Self, n: u32) -> Self;

    fn shl(a: Self, n: u32) -> (r: Self)
        requires
            n < Self::spec_width(),
        ensures
            r == Self::spec_shl(a, n);

    /// Right shift by `n` bits: logical for unsigned lanes, arithmetic for
    /// signed ones, as the scalar type's own shift works.
    spec fn spec_shr(a: Self, n: u32) -> Self;

    fn shr(a: Self, n: u32) -> (r: Self)
        requires
            n < Self::spec_width(),
        ensures
            r == Self::spec_shr(a, n);

    /// The scalar order on lanes.
    spec fn spec_lt(a: Self, b: Self) -> bool;

    fn lt(a: Self, b: Self) -> (r: bool)
        ensures
            r == Self::spec_lt(a, b);

    spec fn spec_le(a: Self, b: Self) -> bool;

    fn le(a: Self, b: Self) -> (r: bool)
        ensures
            r == Self::spec_le(a, b);

    fn eq_lane(a: Self, b: Self) -> (r: bool)
        ensures
            r == (a == b);

    /// The lane's bit pattern read as the signed repr type.
    spec fn spec_bits(a: Self) -> Self::Repr;

    fn bits(a: Self) -> (r: Self::Repr)
        ensures
            r == Self::spec_bits(a);

    /// The lane whose bit pattern is the given repr value.
    spec fn spec_of_bits(r: Self::Repr) -> Self;

    fn of_bits(r: Self::Repr) -> (a: Self)
        ensures
            a == Self::spec_of_bits(r);

    /// Reading a lane's bits and writing them back is the identity.
    proof fn lemma_bits_roundtrip(a: Self)
        ensures
            Self::spec_of_bits(Self::spec_bits(a)) == a;

    /// Writing repr bits into a lane and reading them out is the identity.
    proof fn lemma_of_bits_roundtrip(r: Self::Repr)
        ensures
            Self::spec_bits(Self::spec_of_bits(r)) == r;

    /// Wrapping negation is an involution, minimum value included.
    proof fn lemma_neg_involution(a: Self)
        ensures
            Self::spec_wsub(Self::spec_zero(), Self::spec_wsub(Self::spec_zero(), a)) == a;
}

/// A signed lane type that can back a boolean-mask vector: its all-ones
/// value stands for logical true and all-zeros for logical false.
pub trait MaskLane: LaneElem<Repr = Self> {
    /// The scalar boolean type paired with integer vectors of this width.
    type ScalarI;

    fn is_truthy(a: Self) -> (r: bool)
        ensures
            r == lane_truth(a);

    proof fn lemma_truth_constants()
        ensures
            !lane_truth(Self::spec_zero()),
            lane_truth(Self::spec_ones()),
            lane_saturated(Self::spec_zero()),
            lane_saturated(Self::spec_ones()),
    ;

    /// On a saturated mask lane, the bitwise blend picks one input whole.
    proof fn lemma_select(m: Self, t: Self, e: Self)
        requires
            lane_saturated(m),
        ensures
            Self::spec_or(
                Self::spec_and(t, m),
                Self::spec_and(e, Self::spec_xor(Self::spec_ones(), m)),
            ) == (if lane_truth(m) { t } else { e }),
    ;

    /// Bitwise logic on saturated lanes is boolean logic on their truths.
    proof fn lemma_logic(a: Self, b: Self)
        requires
            lane_saturated(a),
            lane_saturated(b),
        ensures
            lane_saturated(Self::spec_and(a, b)),
            lane_truth(Self::spec_and(a, b)) == (lane_truth(a) && lane_truth(b)),
            lane_saturated(Self::spec_or(a, b)),
            lane_truth(Self::spec_or(a, b)) == (lane_truth(a) || lane_truth(b)),
            lane_saturated(Self::spec_xor(a, b)),
            lane_truth(Self::spec_xor(a, b)) == (lane_truth(a) != lane_truth(b)),
            lane_saturated(Self::spec_xor(Self::spec_ones(), a)),
            lane_truth(Self::spec_xor(Self::spec_ones(), a)) == !lane_truth(a),
    ;
}

/// A mask lane width that also has a float-flavored boolean pairing.
pub trait FloatMaskLane: MaskLane {
    /// The scalar boolean type paired with float vectors of this width.
    type ScalarF;
}

impl LaneElem for u8 {
    type Repr = i8;

    open spec fn spec_zero() -> u8 {
        0u8
    }

    fn zero() -> (r: u8) {
        0u8
    }

    open spec fn spec_ones() -> u8 {
        0xffu8
    }

    fn ones() -> (r: u8) {
        0xffu8
    }

    open spec fn spec_width() -> u32 {
        8u32
    }

    open spec fn spec_wadd(a: u8, b: u8) -> u8 {
        vstd::wrapping::u8_specs::wrapping_add(a, b)
    }

    fn wadd(a: u8, b: u8) -> (r: u8) {
        a.wrapping_add(b)
    }

    open spec fn spec_wsub(a: u8, b: u8) -> u8 {
        vstd::wrapping::u8_specs::wrapping_sub(a, b)
    }

    fn wsub(a: u8, b: u8) -> (r: u8) {
        a.wrapping_sub(b)
    }

    open spec fn spec_wmul(a: u8, b: u8) -> u8 {
        vstd::wrapping::u8_specs::wrapping_mul(a, b)
    }

    fn wmul(a: u8, b: u8) -> (r: u8) {
        a.wrapping_mul(b)
    }

    open spec fn spec_and(a: u8, b: u8) -> u8 {
        a & b
    }

    fn band(a: u8, b: u8) -> (r: u8) {
        a & b
    }

    open spec fn spec_or(a: u8, b: u8) -> u8 {
        a | b
    }

    fn bor(a: u8, b: u8) -> (r: u8) {
        a | b
    }

    open spec fn spec_xor(a: u8, b: u8) -> u8 {
        a ^ b
    }

    fn bxor(a: u8, b: u8) -> (r: u8) {
        a ^ b
    }

    open spec fn spec_not(a: u8) -> u8 {
        !a
    }

    fn bnot(a: u8) -> (r: u8) {
        !a
    }

    open spec fn spec_shl(a: u8, n: u32) -> u8 {
        a << n
    }

    fn shl(a: u8, n: u32) -> (r: u8) {
        a << n
    }

    open spec fn spec_shr(a: u8, n: u32) -> u8 {
        a >> n
    }

    fn shr(a: u8, n: u32) -> (r: u8) {
        a >> n
    }

    open spec fn spec_lt(a: u8, b: u8) -> bool {
        a < b
    }

    fn lt(a: u8, b: u8) -> (r: bool) {
        a < b
    }

    open spec fn spec_le(a: u8, b: u8) -> bool {
        a <= b
    }

    fn le(a: u8, b: u8) -> (r: bool) {
        a <= b
    }

    fn eq_lane(a: u8, b: u8) -> (r: bool) {
        a == b
    }

    open spec fn spec_bits(a: u8) -> i8 {
        a as i8
    }

    fn bits(a: u8) -> (r: i8) {
        #[verifier::truncate] (a as i8)
    }

    open spec fn spec_of_bits(r: i8) -> u8 {
        r as u8
    }

    fn of_bits(r: i8) -> (a: u8) {
        #[verifier::truncate] (r as u8)
    }

    proof fn lemma_bits_roundtrip(a: u8) {
        assert((a as i8) as u8 == a) by (bit_vector);
    }

    proof fn lemma_of_bits_roundtrip(r: i8) {
        assert((r as u8) as i8 == r) by (bit_vector);
    }

    proof fn lemma_neg_involution(a: u8) {
    }
}

impl LaneElem for i8 {
    type Repr = i8;

    open spec fn spec_zero() -> i8 {
        0i8
    }

    fn zero() -> (r: i8) {
        0i8
    }

    open spec fn spec_ones() -> i8 {
        -1i8
    }

    fn ones() -> (r: i8) {
        -1i8
    }

    open spec fn spec_width() -> u32 {
        8u32
    }

    open spec fn spec_wadd(a: i8, b: i8) -> i8 {
        vstd::wrapping::i8_specs::wrapping_add(a, b)
    }

    fn wadd(a: i8, b: i8) -> (r: i8) {
        a.wrapping_add(b)
    }

    open spec fn spec_wsub(a: i8, b: i8) -> i8 {
        vstd::wrapping::i8_specs::wrapping_sub(a, b)
    }

    fn wsub(a: i8, b: i8) -> (r: i8) {
        a.wrapping_sub(b)
    }

    open spec fn spec_wmul(a: i8, b: i8) -> i8 {
        vstd::wrapping::i8_specs::wrapping_mul(a, b)
    }

    fn wmul(a: i8, b: i8) -> (r: i8) {
        a.wrapping_mul(b)
    }

    open spec fn spec_and(a: i8, b: i8) -> i8 {
        a & b
    }

    fn band(a: i8, b: i8) -> (r: i8) {
        a & b
    }

    open spec fn spec_or(a: i8, b: i8) -> i8 {
        a | b
    }

    fn bor(a: i8, b: i8) -> (r: i8) {
        a | b
    }

    open spec fn spec_xor(a: i8, b: i8) -> i8 {
        a ^ b
    }

    fn bxor(a: i8, b: i8) -> (r: i8) {
        a ^ b
    }

    open spec fn spec_not(a: i8) -> i8 {
        !a
    }

    fn bnot(a: i8) -> (r: i8) {
        !a
    }

    open spec fn spec_shl(a: i8, n: u32) -> i8 {
        a << n
    }

    fn shl(a: i8, n: u32) -> (r: i8) {
        a << n
    }

    open spec fn spec_shr(a: i8, n: u32) -> i8 {
        a >> n
    }

    fn shr(a: i8, n: u32) -> (r: i8) {
        a >> n
    }

    open spec fn spec_lt(a: i8, b: i8) -> bool {
        a < b
    }

    fn lt(a: i8, b: i8) -> (r: bool) {
        a < b
    }

    open spec fn spec_le(a: i8, b: i8) -> bool {
        a <= b
    }

    fn le(a: i8, b: i8) -> (r: bool) {
        a <= b
    }

    fn eq_lane(a: i8, b: i8) -> (r: bool) {
        a == b
    }

    open spec fn spec_bits(a: i8) -> i8 {
        a
    }

    fn bits(a: i8) -> (r: i8) {
        a
    }

    open spec fn spec_of_bits(r: i8) -> i8 {
        r
    }

    fn of_bits(r: i8) -> (a: i8) {
        r
    }

    proof fn lemma_bits_roundtrip(a: i8) {
    }

    proof fn lemma_of_bits_roundtrip(r: i8) {
    }

    proof fn lemma_neg_involution(a: i8) {
    }
}

impl LaneElem for u16 {
    type Repr = i16;

    open spec fn spec_zero() -> u16 {
        0u16
    }

    fn zero() -> (r: u16) {
        0u16
    }

    open spec fn spec_ones() -> u16 {
        0xffffu16
    }

    fn ones() -> (r: u16) {
        0xffffu16
    }

    open spec fn spec_width() -> u32 {
        16u32
    }

    open spec fn spec_wadd(a: u16, b: u16) -> u16 {
        vstd::wrapping::u16_specs::wrapping_add(a, b)
    }

    fn wadd(a: u16, b: u16) -> (r: u16) {
        a.wrapping_add(b)
    }

    open spec fn spec_wsub(a: u16, b: u16) -> u16 {
        vstd::wrapping::u16_specs::wrapping_sub(a, b)
    }

    fn wsub(a: u16, b: u16) -> (r: u16) {
        a.wrapping_sub(b)
    }

    open spec fn spec_wmul(a: u16, b: u16) -> u16 {
        vstd::wrapping::u16_specs::wrapping_mul(a, b)
    }

    fn wmul(a: u16, b: u16) -> (r: u16) {
        a.wrapping_mul(b)
    }

    open spec fn spec_and(a: u16, b: u16) -> u16 {
        a & b
    }

    fn band(a: u16, b: u16) -> (r: u16) {
        a & b
    }

    open spec fn spec_or(a: u16, b: u16) -> u16 {
        a | b
    }

    fn bor(a: u16, b: u16) -> (r: u16) {
        a | b
    }

    open spec fn spec_xor(a: u16, b: u16) -> u16 {
        a ^ b
    }

    fn bxor(a: u16, b: u16) -> (r: u16) {
        a ^ b
    }

    open spec fn spec_not(a: u16) -> u16 {
        !a
    }

    fn bnot(a: u16) -> (r: u16) {
        !a
    }

    open spec fn spec_shl(a: u16, n: u32) -> u16 {
        a << n
    }

    fn shl(a: u16, n: u32) -> (r: u16) {
        a << n
    }

    open spec fn spec_shr(a: u16, n: u32) -> u16 {
        a >> n
    }

    fn shr(a: u16, n: u32) -> (r: u16) {
        a >> n
    }

    open spec fn spec_lt(a: u16, b: u16) -> bool {
        a < b
    }

    fn lt(a: u16, b: u16) -> (r: bool) {
        a < b
    }

    open spec fn spec_le(a: u16, b: u16) -> bool {
        a <= b
    }

    fn le(a: u16, b: u16) -> (r: bool) {
        a <= b
    }

    fn eq_lane(a: u16, b: u16) -> (r: bool) {
        a == b
    }

    open spec fn spec_bits(a: u16) -> i16 {
        a as i16
    }

    fn bits(a: u16) -> (r: i16) {
        #[verifier::truncate] (a as i16)
    }

    open spec fn spec_of_bits(r: i16) -> u16 {
        r as u16
    }

    fn of_bits(r: i16) -> (a: u16) {
        #[verifier::truncate] (r as u16)
    }

    proof fn lemma_bits_roundtrip(a: u16) {
        assert((a as i16) as u16 == a) by (bit_vector);
    }

    proof fn lemma_of_bits_roundtrip(r: i16) {
        assert((r as u16) as i16 == r) by (bit_vector);
    }

    proof fn lemma_neg_involution(a: u16) {
    }
}

impl LaneElem for i16 {
    type Repr = i16;

    open spec fn spec_zero() -> i16 {
        0i16
    }

    fn zero() -> (r: i16) {
        0i16
    }

    open spec fn spec_ones() -> i16 {
        -1i16
    }

    fn ones() -> (r: i16) {
        -1i16
    }

    open spec fn spec_width() -> u32 {
        16u32
    }

    open spec fn spec_wadd(a: i16, b: i16) -> i16 {
        vstd::wrapping::i16_specs::wrapping_add(a, b)
    }

    fn wadd(a: i16, b: i16) -> (r: i16) {
        a.wrapping_add(b)
    }

    open spec fn spec_wsub(a: i16, b: i16) -> i16 {
        vstd::wrapping::i16_specs::wrapping_sub(a, b)
    }

    fn wsub(a: i16, b: i16) -> (r: i16) {
        a.wrapping_sub(b)
    }

    open spec fn spec_wmul(a: i16, b: i16) -> i16 {
        vstd::wrapping::i16_specs::wrapping_mul(a, b)
    }

    fn wmul(a: i16, b: i16) -> (r: i16) {
        a.wrapping_mul(b)
    }

    open spec fn spec_and(a: i16, b: i16) -> i16 {
        a & b
    }

    fn band(a: i16, b: i16) -> (r: i16) {
        a & b
    }

    open spec fn spec_or(a: i16, b: i16) -> i16 {
        a | b
    }

    fn bor(a: i16, b: i16) -> (r: i16) {
        a | b
    }

    open spec fn spec_xor(a: i16, b: i16) -> i16 {
        a ^ b
    }

    fn bxor(a: i16, b: i16) -> (r: i16) {
        a ^ b
    }

    open spec fn spec_not(a: i16) -> i16 {
        !a
    }

    fn bnot(a: i16) -> (r: i16) {
        !a
    }

    open spec fn spec_shl(a: i16, n: u32) -> i16 {
        a << n
    }

    fn shl(a: i16, n: u32) -> (r: i16) {
        a << n
    }

    open spec fn spec_shr(a: i16, n: u32) -> i16 {
        a >> n
    }

    fn shr(a: i16, n: u32) -> (r: i16) {
        a >> n
    }

    open spec fn spec_lt(a: i16, b: i16) -> bool {
        a < b
    }

    fn lt(a: i16, b: i16) -> (r: bool) {
        a < b
    }

    open spec fn spec_le(a: i16, b: i16) -> bool {
        a <= b
    }

    fn le(a: i16, b: i16) -> (r: bool) {
        a <= b
    }

    fn eq_lane(a: i16, b: i16) -> (r: bool) {
        a == b
    }

    open spec fn spec_bits(a: i16) -> i16 {
        a
    }

    fn bits(a: i16) -> (r: i16) {
        a
    }

    open spec fn spec_of_bits(r: i16) -> i16 {
        r
    }

    fn of_bits(r: i16) -> (a: i16) {
        r
    }

    proof fn lemma_bits_roundtrip(a: i16) {
    }

    proof fn lemma_of_bits_roundtrip(r: i16) {
    }

    proof fn lemma_neg_involution(a: i16) {
    }
}

impl LaneElem for u32 {
    type Repr = i32;

    open spec fn spec_zero() -> u32 {
        0u32
    }

    fn zero() -> (r: u32) {
        0u32
    }

    open spec fn spec_ones() -> u32 {
        0xffff_ffffu32
    }

    fn ones() -> (r: u32) {
        0xffff_ffffu32
    }

    open spec fn spec_width() -> u32 {
        32u32
    }

    open spec fn spec_wadd(a: u32, b: u32) -> u32 {
        vstd::wrapping::u32_specs::wrapping_add(a, b)
    }

    fn wadd(a: u32, b: u32) -> (r: u32) {
        a.wrapping_add(b)
    }

    open spec fn spec_wsub(a: u32, b: u32) -> u32 {
        vstd::wrapping::u32_specs::wrapping_sub(a, b)
    }

    fn wsub(a: u32, b: u32) -> (r: u32) {
        a.wrapping_sub(b)
    }

    open spec fn spec_wmul(a: u32, b: u32) -> u32 {
        vstd::wrapping::u32_specs::wrapping_mul(a, b)
    }

    fn wmul(a: u32, b: u32) -> (r: u32) {
        a.wrapping_mul(b)
    }

    open spec fn spec_and(a: u32, b: u32) -> u32 {
        a & b
    }

    fn band(a: u32, b: u32) -> (r: u32) {
        a & b
    }

    open spec fn spec_or(a: u32, b: u32) -> u32 {
        a | b
    }

    fn bor(a: u32, b: u32) -> (r: u32) {
        a | b
    }

    open spec fn spec_xor(a: u32, b: u32) -> u32 {
        a ^ b
    }

    fn bxor(a: u32, b: u32) -> (r: u32) {
        a ^ b
    }

    open spec fn spec_not(a: u32) -> u32 {
        !a
    }

    fn bnot(a: u32) -> (r: u32) {
        !a
    }

    open spec fn spec_shl(a: u32, n: u32) -> u32 {
        a << n
    }

    fn shl(a: u32, n: u32) -> (r: u32) {
        a << n
    }

    open spec fn spec_shr(a: u32, n: u32) -> u32 {
        a >> n
    }

    fn shr(a: u32, n: u32) -> (r: u32) {
        a >> n
    }

    open spec fn spec_lt(a: u32, b: u32) -> bool {
        a < b
    }

    fn lt(a: u32, b: u32) -> (r: bool) {
        a < b
    }

    open spec fn spec_le(a: u32, b: u32) -> bool {
        a <= b
    }

    fn le(a: u32, b: u32) -> (r: bool) {
        a <= b
    }

    fn eq_lane(a: u32, b: u32) -> (r: bool) {
        a == b
    }

    open spec fn spec_bits(a: u32) -> i32 {
        a as i32
    }

    fn bits(a: u32) -> (r: i32) {
        #[verifier::truncate] (a as i32)
    }

    open spec fn spec_of_bits(r: i32) -> u32 {
        r as u32
    }

    fn of_bits(r: i32) -> (a: u32) {
        #[verifier::truncate] (r as u32)
    }

    proof fn lemma_bits_roundtrip(a: u32) {
        assert((a as i32) as u32 == a) by (bit_vector);
    }

    proof fn lemma_of_bits_roundtrip(r: i32) {
        assert((r as u32) as i32 == r) by (bit_vector);
    }

    proof fn lemma_neg_involution(a: u32) {
    }
}

impl LaneElem for i32 {
    type Repr = i32;

    open spec fn spec_zero() -> i32 {
        0i32
    }

    fn zero() -> (r: i32) {
        0i32
    }

    open spec fn spec_ones() -> i32 {
        -1i32
    }

    fn ones() -> (r: i32) {
        -1i32
    }

    open spec fn spec_width() -> u32 {
        32u32
    }

    open spec fn spec_wadd(a: i32, b: i32) -> i32 {
        vstd::wrapping::i32_specs::wrapping_add(a, b)
    }

    fn wadd(a: i32, b: i32) -> (r: i32) {
        a.wrapping_add(b)
    }

    open spec fn spec_wsub(a: i32, b: i32) -> i32 {
        vstd::wrapping::i32_specs::wrapping_sub(a, b)
    }

    fn wsub(a: i32, b: i32) -> (r: i32) {
        a.wrapping_sub(b)
    }

    open spec fn spec_wmul(a: i32, b: i32) -> i32 {
        vstd::wrapping::i32_specs::wrapping_mul(a, b)
    }

    fn wmul(a: i32, b: i32) -> (r: i32) {
        a.wrapping_mul(b)
    }

    open spec fn spec_and(a: i32, b: i32) -> i32 {
        a & b
    }

    fn band(a: i32, b: i32) -> (r: i32) {
        a & b
    }

    open spec fn spec_or(a: i32, b: i32) -> i32 {
        a | b
    }

    fn bor(a: i32, b: i32) -> (r: i32) {
        a | b
    }

    open spec fn spec_xor(a: i32, b: i32) -> i32 {
        a ^ b
    }

    fn bxor(a: i32, b: i32) -> (r: i32) {
        a ^ b
    }

    open spec fn spec_not(a: i32) -> i32 {
        !a
    }

    fn bnot(a: i32) -> (r: i32) {
        !a
    }

    open spec fn spec_shl(a: i32, n: u32) -> i32 {
        a << n
    }

    fn shl(a: i32, n: u32) -> (r: i32) {
        a << n
    }

    open spec fn spec_shr(a: i32, n: u32) -> i32 {
        a >> n
    }

    fn shr(a: i32, n: u32) -> (r: i32) {
        a >> n
    }

    open spec fn spec_lt(a: i32, b: i32) -> bool {
        a < b
    }

    fn lt(a: i32, b: i32) -> (r: bool) {
        a < b
    }

    open spec fn spec_le(a: i32, b: i32) -> bool {
        a <= b
    }

    fn le(a: i32, b: i32) -> (r: bool) {
        a <= b
    }

    fn eq_lane(a: i32, b: i32) -> (r: bool) {
        a == b
    }

    open spec fn spec_bits(a: i32) -> i32 {
        a
    }

    fn bits(a: i32) -> (r: i32) {
        a
    }

    open spec fn spec_of_bits(r: i32) -> i32 {
        r
    }

    fn of_bits(r: i32) -> (a: i32) {
        r
    }

    proof fn lemma_bits_roundtrip(a: i32) {
    }

    proof fn lemma_of_bits_roundtrip(r: i32) {
    }

    proof fn lemma_neg_involution(a: i32) {
    }
}

impl LaneElem for u64 {
    type Repr = i64;

    open spec fn spec_zero() -> u64 {
        0u64
    }

    fn zero() -> (r: u64) {
        0u64
    }

    open spec fn spec_ones() -> u64 {
        0xffff_ffff_ffff_ffffu64
    }

    fn ones() -> (r: u64) {
        0xffff_ffff_ffff_ffffu64
    }

    open spec fn spec_width() -> u32 {
        64u32
    }

    open spec fn spec_wadd(a: u64, b: u64) -> u64 {
        vstd::wrapping::u64_specs::wrapping_add(a, b)
    }

    fn wadd(a: u64, b: u64) -> (r: u64) {
        a.wrapping_add(b)
    }

    open spec fn spec_wsub(a: u64, b: u64) -> u64 {
        vstd::wrapping::u64_specs::wrapping_sub(a, b)
    }

    fn wsub(a: u64, b: u64) -> (r: u64) {
        a.wrapping_sub(b)
    }

    open spec fn spec_wmul(a: u64, b: u64) -> u64 {
        vstd::wrapping::u64_specs::wrapping_mul(a, b)
    }

    fn wmul(a: u64, b: u64) -> (r: u64) {
        a.wrapping_mul(b)
    }

    open spec fn spec_and(a: u64, b: u64) -> u64 {
        a & b
    }

    fn band(a: u64, b: u64) -> (r: u64) {
        a & b
    }

    open spec fn spec_or(a: u64, b: u64) -> u64 {
        a | b
    }

    fn bor(a: u64, b: u64) -> (r: u64) {
        a | b
    }

    open spec fn spec_xor(a: u64, b: u64) -> u64 {
        a ^ b
    }

    fn bxor(a: u64, b: u64) -> (r: u64) {
        a ^ b
    }

    open spec fn spec_not(a: u64) -> u64 {
        !a
    }

    fn bnot(a: u64) -> (r: u64) {
        !a
    }

    open spec fn spec_shl(a: u64, n: u32) -> u64 {
        a << n
    }

    fn shl(a: u64, n: u32) -> (r: u64) {
        a << n
    }

    open spec fn spec_shr(a: u64, n: u32) -> u64 {
        a >> n
    }

    fn shr(a: u64, n: u32) -> (r: u64) {
        a >> n
    }

    open spec fn spec_lt(a: u64, b: u64) -> bool {
        a < b
    }

    fn lt(a: u64, b: u64) -> (r: bool) {
        a < b
    }

    open spec fn spec_le(a: u64, b: u64) -> bool {
        a <= b
    }

    fn le(a: u64, b: u64) -> (r: bool) {
        a <= b
    }

    fn eq_lane(a: u64, b: u64) -> (r: bool) {
        a == b
    }

    open spec fn spec_bits(a: u64) -> i64 {
        a as i64
    }

    fn bits(a: u64) -> (r: i64) {
        #[verifier::truncate] (a as i64)
    }

    open spec fn spec_of_bits(r: i64) -> u64 {
        r as u64
    }

    fn of_bits(r: i64) -> (a: u64) {
        #[verifier::truncate] (r as u64)
    }

    proof fn lemma_bits_roundtrip(a: u64) {
        assert((a as i64) as u64 == a) by (bit_vector);
    }

    proof fn lemma_of_bits_roundtrip(r: i64) {
        assert((r as u64) as i64 == r) by (bit_vector);
    }

    proof fn lemma_neg_involution(a: u64) {
    }
}

impl LaneElem for i64 {
    type Repr = i64;

    open spec fn spec_zero() -> i64 {
        0i64
    }

    fn zero() -> (r: i64) {
        0i64
    }

    open spec fn spec_ones() -> i64 {
        -1i64
    }

    fn ones() -> (r: i64) {
        -1i64
    }

    open spec fn spec_width() -> u32 {
        64u32
    }

    open spec fn spec_wadd(a: i64, b: i64) -> i64 {
        vstd::wrapping::i64_specs::wrapping_add(a, b)
    }

    fn wadd(a: i64, b: i64) -> (r: i64) {
        a.wrapping_add(b)
    }

    open spec fn spec_wsub(a: i64, b: i64) -> i64 {
        vstd::wrapping::i64_specs::wrapping_sub(a, b)
    }

    fn wsub(a: i64, b: i64) -> (r: i64) {
        a.wrapping_sub(b)
    }

    open spec fn spec_wmul(a: i64, b: i64) -> i64 {
        vstd::wrapping::i64_specs::wrapping_mul(a, b)
    }

    fn wmul(a: i64, b: i64) -> (r: i64) {
        a.wrapping_mul(b)
    }

    open spec fn spec_and(a: i64, b: i64) -> i64 {
        a & b
    }

    fn band(a: i64, b: i64) -> (r: i64) {
        a & b
    }

    open spec fn spec_or(a: i64, b: i64) -> i64 {
        a | b
    }

    fn bor(a: i64, b: i64) -> (r: i64) {
        a | b
    }

    open spec fn spec_xor(a: i64, b: i64) -> i64 {
        a ^ b
    }

    fn bxor(a: i64, b: i64) -> (r: i64) {
        a ^ b
    }

    open spec fn spec_not(a: i64) -> i64 {
        !a
    }

    fn bnot(a: i64) -> (r: i64) {
        !a
    }

    open spec fn spec_shl(a: i64, n: u32) -> i64 {
        a << n
    }

    fn shl(a: i64, n: u32) -> (r: i64) {
        a << n
    }

    open spec fn spec_shr(a: i64, n: u32) -> i64 {
        a >> n
    }

    fn shr(a: i64, n: u32) -> (r: i64) {
        a >> n
    }

    open spec fn spec_lt(a: i64, b: i64) -> bool {
        a < b
    }

    fn lt(a: i64, b: i64) -> (r: bool) {
        a < b
    }

    open spec fn spec_le(a: i64, b: i64) -> bool {
        a <= b
    }

    fn le(a: i64, b: i64) -> (r: bool) {
        a <= b
    }

    fn eq_lane(a: i64, b: i64) -> (r: bool) {
        a == b
    }

    open spec fn spec_bits(a: i64) -> i64 {
        a
    }

    fn bits(a: i64) -> (r: i64) {
        a
    }

    open spec fn spec_of_bits(r: i64) -> i64 {
        r
    }

    fn of_bits(r: i64) -> (a: i64) {
        r
    }

    proof fn lemma_bits_roundtrip(a: i64) {
    }

    proof fn lemma_of_bits_roundtrip(r: i64) {
    }

    proof fn lemma_neg_involution(a: i64) {
    }
}

impl MaskLane for i8 {
    type ScalarI = crate::bool8i;

    fn is_truthy(a: i8) -> (r: bool) {
        a != 0i8
    }

    proof fn lemma_truth_constants() {
    }

    proof fn lemma_select(m: i8, t: i8, e: i8) {
        assert((t & m) | (e & ((-1i8) ^ m)) == (if m == -1i8 { t } else { e })) by (bit_vector)
            requires m == 0i8 || m == -1i8;
    }

    proof fn lemma_logic(a: i8, b: i8) {
        assert(((a & b == 0i8) || (a & b == -1i8))
            && (((a & b) != 0i8) == ((a != 0i8) && (b != 0i8)))
            && ((a | b == 0i8) || (a | b == -1i8))
            && (((a | b) != 0i8) == ((a != 0i8) || (b != 0i8)))
            && ((a ^ b == 0i8) || (a ^ b == -1i8))
            && (((a ^ b) != 0i8) == ((a != 0i8) != (b != 0i8)))
            && ((((-1i8) ^ a) == 0i8) || (((-1i8) ^ a) == -1i8))
            && ((((-1i8) ^ a) != 0i8) == !(a != 0i8))) by (bit_vector)
            requires (a == 0i8 || a == -1i8), (b == 0i8 || b == -1i8);
    }
}

impl MaskLane for i16 {
    type ScalarI = crate::bool16i;

    fn is_truthy(a: i16) -> (r: bool) {
        a != 0i16
    }

    proof fn lemma_truth_constants() {
    }

    proof fn lemma_select(m: i16, t: i16, e: i16) {
        assert((t & m) | (e & ((-1i16) ^ m)) == (if m == -1i16 { t } else { e })) by (bit_vector)
            requires m == 0i16 || m == -1i16;
    }

    proof fn lemma_logic(a: i16, b: i16) {
        assert(((a & b == 0i16) || (a & b == -1i16))
            && (((a & b) != 0i16) == ((a != 0i16) && (b != 0i16)))
            && ((a | b == 0i16) || (a | b == -1i16))
            && (((a | b) != 0i16) == ((a != 0i16) || (b != 0i16)))
            && ((a ^ b == 0i16) || (a ^ b == -1i16))
            && (((a ^ b) != 0i16) == ((a != 0i16) != (b != 0i16)))
            && ((((-1i16) ^ a) == 0i16) || (((-1i16) ^ a) == -1i16))
            && ((((-1i16) ^ a) != 0i16) == !(a != 0i16))) by (bit_vector)
            requires (a == 0i16 || a == -1i16), (b == 0i16 || b == -1i16);
    }
}

impl MaskLane for i32 {
    type ScalarI = crate::bool32i;

    fn is_truthy(a: i32) -> (r: bool) {
        a != 0i32
    }

    proof fn lemma_truth_constants() {
    }

    proof fn lemma_select(m: i32, t: i32, e: i32) {
        assert((t & m) | (e & ((-1i32) ^ m)) == (if m == -1i32 { t } else { e })) by (bit_vector)
            requires m == 0i32 || m == -1i32;
    }

    proof fn lemma_logic(a: i32, b: i32) {
        assert(((a & b == 0i32) || (a & b == -1i32))
            && (((a & b) != 0i32) == ((a != 0i32) && (b != 0i32)))
            && ((a | b == 0i32) || (a | b == -1i32))
            && (((a | b) != 0i32) == ((a != 0i32) || (b != 0i32)))
            && ((a ^ b == 0i32) || (a ^ b == -1i32))
            && (((a ^ b) != 0i32) == ((a != 0i32) != (b != 0i32)))
            && ((((-1i32) ^ a) == 0i32) || (((-1i32) ^ a) == -1i32))
            && ((((-1i32) ^ a) != 0i32) == !(a != 0i32))) by (bit_vector)
            requires (a == 0i32 || a == -1i32), (b == 0i32 || b == -1i32);
    }
}

impl FloatMaskLane for i32 {
    type ScalarF = crate::bool32f;
}

impl MaskLane for i64 {
    type ScalarI = crate::bool64i;

    fn is_truthy(a: i64) -> (r: bool) {
        a != 0i64
    }

    proof fn lemma_truth_constants() {
    }

    proof fn lemma_select(m: i64, t: i64, e: i64) {
        assert((t & m) | (e & ((-1i64) ^ m)) == (if m == -1i64 { t } else { e })) by (bit_vector)
            requires m == 0i64 || m == -1i64;
    }

    proof fn lemma_logic(a: i64, b: i64) {
        assert(((a & b == 0i64) || (a & b == -1i64))
            && (((a & b) != 0i64) == ((a != 0i64) && (b != 0i64)))
            && ((a | b == 0i64) || (a | b == -1i64))
            && (((a | b) != 0i64) == ((a != 0i64) || (b != 0i64)))
            && ((a ^ b == 0i64) || (a ^ b == -1i64))
            && (((a ^ b) != 0i64) == ((a != 0i64) != (b != 0i64)))
            && ((((-1i64) ^ a) == 0i64) || (((-1i64) ^ a) == -1i64))
            && ((((-1i64) ^ a) != 0i64) == !(a != 0i64))) by (bit_vector)
            requires (a == 0i64 || a == -1i64), (b == 0i64 || b == -1i64);
    }
}

impl FloatMaskLane for i64 {
    type ScalarF = crate::bool64f;
}

} // verus!
