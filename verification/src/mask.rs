//! Boolean-mask vectors: the representation invariant and the operations
//! built on it.
//!
//! A mask lane holds a full-width bit pattern that is all-ones (logical true)
//! or all-zeros (logical false) — never anything in between. `well_formed`
//! states that saturation invariant; every constructor establishes it and
//! every operation preserves it, which is exactly what makes the bitwise
//! select/blend pick whole lanes.
//!
//! Two mask flavors exist per width, one paired with integer vectors and one
//! with float vectors; they share the bit layout and differ only nominally,
//! so conversion between them is free. The flavor is the `F` parameter.

use vstd::prelude::*;
use vstd::arithmetic::power2::pow2;
use vstd::arithmetic::power2::lemma_pow2_unfold;
use vstd::arithmetic::power2::lemma_pow2_pos;
use vstd::arithmetic::power2::lemma_pow2_strictly_increases;

use crate::Simd;
use crate::elem::LaneElem;
use crate::elem::MaskLane;
use crate::elem::FloatMaskLane;
use crate::elem::lane_truth;
use crate::elem::lane_saturated;
use crate::vector::Lanes;

verus! {

broadcast use crate::vector::lemma_lanes_len;

/// A boolean vector of `N` lanes, stored as the signed lane type `R` with
/// all-ones for true. `F` tells the integer flavor from the float flavor.
///
/// The view of a mask is the sequence of its lanes' truth values.
#[verifier::ext_equal]
#[derive(Debug, Clone, Copy, PartialEq, Eq)]
pub struct Mask<R, const N: usize, const F: bool> {
    repr: Lanes<R, N>,
}

impl<R: MaskLane, const N: usize, const F: bool> View for Mask<R, N, F> {
    type V = Seq<bool>;

    closed spec fn view(&self) -> Seq<bool> {
        Seq::new(N as nat, |i: int| lane_truth(self.repr@[i]))
    }
}

/// The scalar bitmask a mask vector collapses to: bit `i` is lane `i`.
pub open spec fn spec_move_mask(s: Seq<bool>) -> nat
    decreases s.len(),
{
    if s.len() == 0 {
        0
    } else {
        spec_move_mask(s.drop_last()) + if s.last() {
            pow2((s.len() - 1) as nat)
        } else {
            0
        }
    }
}

impl<R: MaskLane, const N: usize, const F: bool> Mask<R, N, F> {
    /// The integer lanes backing this mask.
    pub closed spec fn repr_lanes(self) -> Seq<R> {
        self.repr@
    }

    /// The saturation invariant: every lane all-ones or all-zeros.
    pub open spec fn well_formed(self) -> bool {
        forall|i: int| 0 <= i < N ==> lane_saturated(#[trigger] self.repr_lanes()[i])
    }

    /// How the two spec views of a mask line up: the boolean view is the
    /// lane-wise truth of the backing integer lanes.
    pub proof fn lemma_view(self)
        ensures
            self@.len() == N,
            self.repr_lanes().len() == N,
            forall|i: int| 0 <= i < N ==> self@[i] == lane_truth(#[trigger] self.repr_lanes()[i]),
    {
    }

    /// Two masks with the same backing lanes are the same mask.
    pub proof fn lemma_repr_identity(a: Self, b: Self)
        requires
            a.repr_lanes() == b.repr_lanes(),
        ensures
            a == b,
    {
        crate::vector::lemma_lanes_ext(a.repr, b.repr);
        assert(a =~= b);
    }

    /// Convert to integer representation.
    pub fn to_repr(self) -> (r: Lanes<R, N>)
        ensures
            r@ == self.repr_lanes(),
    {
        self.repr
    }

    /// Convert from integer representation. Only a saturated vector — every
    /// lane all-ones or all-zeros — is a valid mask representation.
    pub fn from_repr(x: Lanes<R, N>) -> (r: Self)
        requires
            forall|i: int| 0 <= i < N ==> lane_saturated(#[trigger] x@[i]),
        ensures
            r.repr_lanes() == x@,
            r.well_formed(),
            r@.len() == N,
            forall|i: int| 0 <= i < N ==> r@[i] == lane_truth(#[trigger] x@[i]),
    {
        Mask { repr: x }
    }

    /// Build a mask from an array of lane truth values, in lane order.
    pub fn from_bools(a: [bool; N]) -> (r: Self)
        ensures
            r.well_formed(),
            r@ == a@,
    {
        let mut out: [R; N] = [R::zero(); N];
        let mut i: usize = 0;
        while i < N
            invariant
                i <= N,
                out@.len() == N,
                forall|j: int|
                    0 <= j < i ==> out@[j] == (if a@[j] {
                        R::spec_ones()
                    } else {
                        R::spec_zero()
                    }),
            decreases N - i,
        {
            out[i] = if a[i] {
                R::ones()
            } else {
                R::zero()
            };
            i = i + 1;
        }
        proof {
            R::lemma_truth_constants();
        }
        let x = Lanes::from_lanes(out);
        proof {
            assert forall|i: int| 0 <= i < N implies lane_saturated(#[trigger] x@[i]) by {}
        }
        let r = Mask::from_repr(x);
        proof {
            assert(r@ =~= a@);
        }
        r
    }

    /// Create a new instance where every lane has value `x`.
    pub fn splat(x: bool) -> (r: Self)
        ensures
            r.well_formed(),
            r@.len() == N,
            forall|i: int| 0 <= i < N ==> r@[i] == x,
    {
        proof {
            R::lemma_truth_constants();
        }
        Mask { repr: Lanes::splat(if x { R::ones() } else { R::zero() }) }
    }

    /// Extract the value of the `idx`th lane of `self`.
    ///
    /// An index at or past the lane count is a caller error, excluded here.
    pub fn extract(self, idx: u32) -> (r: bool)
        requires
            idx < N,
        ensures
            r == self@[idx as int],
    {
        R::is_truthy(self.repr.extract(idx))
    }

    /// Return a new vector where the `idx`th lane is replaced by `x`.
    ///
    /// An index at or past the lane count is a caller error, excluded here.
    pub fn replace(self, idx: u32, x: bool) -> (r: Self)
        requires
            idx < N,
            self.well_formed(),
        ensures
            r.well_formed(),
            r@.len() == N,
            r@ == self@.update(idx as int, x),
    {
        proof {
            R::lemma_truth_constants();
        }
        let r = Mask { repr: self.repr.replace(idx, if x { R::ones() } else { R::zero() }) };
        proof {
            assert forall|i: int| 0 <= i < N implies lane_saturated(#[trigger] r.repr_lanes()[i]) by {
                assert(lane_saturated(self.repr_lanes()[i]));
            }
            assert forall|i: int| 0 <= i < N implies r@[i] == self@.update(idx as int, x)[i] by {
                assert(lane_saturated(self.repr_lanes()[i]));
            }
            assert(r@ =~= self@.update(idx as int, x));
        }
        r
    }

    /// Lane-wise logical negation: all-ones lanes become all-zeros and the
    /// other way round, so the saturation invariant is kept.
    pub fn not(self) -> (r: Self)
        requires
            self.well_formed(),
        ensures
            r.well_formed(),
            r@.len() == N,
            forall|i: int| 0 <= i < N ==> r@[i] == !self@[i],
    {
        let r = Mask { repr: Lanes::splat(R::ones()).xor(self.repr) };
        proof {
            assert forall|i: int| 0 <= i < N implies lane_saturated(#[trigger] r.repr_lanes()[i]) by {
                assert(lane_saturated(self.repr_lanes()[i]));
                R::lemma_logic(self.repr@[i], self.repr@[i]);
            }
            assert forall|i: int| 0 <= i < N implies #[trigger] r@[i] == !self@[i] by {
                assert(lane_saturated(self.repr_lanes()[i]));
                R::lemma_logic(self.repr@[i], self.repr@[i]);
            }
        }
        r
    }

    /// Lane-wise conjunction of two masks.
    pub fn and(self, other: Self) -> (r: Self)
        requires
            self.well_formed(),
            other.well_formed(),
        ensures
            r.well_formed(),
            r@.len() == N,
            forall|i: int| 0 <= i < N ==> r@[i] == (self@[i] && other@[i]),
    {
        let r = Mask { repr: self.repr.and(other.repr) };
        proof {
            assert forall|i: int| 0 <= i < N implies lane_saturated(#[trigger] r.repr_lanes()[i]) by {
                assert(lane_saturated(self.repr_lanes()[i]));
                assert(lane_saturated(other.repr_lanes()[i]));
                R::lemma_logic(self.repr@[i], other.repr@[i]);
            }
            assert forall|i: int| 0 <= i < N implies #[trigger] r@[i] == (self@[i] && other@[i]) by {
                assert(lane_saturated(self.repr_lanes()[i]));
                assert(lane_saturated(other.repr_lanes()[i]));
                R::lemma_logic(self.repr@[i], other.repr@[i]);
            }
        }
        r
    }

    /// Lane-wise disjunction of two masks.
    pub fn or(self, other: Self) -> (r: Self)
        requires
            self.well_formed(),
            other.well_formed(),
        ensures
            r.well_formed(),
            r@.len() == N,
            forall|i: int| 0 <= i < N ==> r@[i] == (self@[i] || other@[i]),
    {
        let r = Mask { repr: self.repr.or(other.repr) };
        proof {
            assert forall|i: int| 0 <= i < N implies lane_saturated(#[trigger] r.repr_lanes()[i]) by {
                assert(lane_saturated(self.repr_lanes()[i]));
                assert(lane_saturated(other.repr_lanes()[i]));
                R::lemma_logic(self.repr@[i], other.repr@[i]);
            }
            assert forall|i: int| 0 <= i < N implies #[trigger] r@[i] == (self@[i] || other@[i]) by {
                assert(lane_saturated(self.repr_lanes()[i]));
                assert(lane_saturated(other.repr_lanes()[i]));
                R::lemma_logic(self.repr@[i], other.repr@[i]);
            }
        }
        r
    }

    /// Lane-wise exclusive or of two masks.
    pub fn xor(self, other: Self) -> (r: Self)
        requires
            self.well_formed(),
            other.well_formed(),
        ensures
            r.well_formed(),
            r@.len() == N,
            forall|i: int| 0 <= i < N ==> r@[i] == (self@[i] != other@[i]),
    {
        let r = Mask { repr: self.repr.xor(other.repr) };
        proof {
            assert forall|i: int| 0 <= i < N implies lane_saturated(#[trigger] r.repr_lanes()[i]) by {
                assert(lane_saturated(self.repr_lanes()[i]));
                assert(lane_saturated(other.repr_lanes()[i]));
                R::lemma_logic(self.repr@[i], other.repr@[i]);
            }
            assert forall|i: int| 0 <= i < N implies #[trigger] r@[i] == (self@[i] != other@[i]) by {
                assert(lane_saturated(self.repr_lanes()[i]));
                assert(lane_saturated(other.repr_lanes()[i]));
                R::lemma_logic(self.repr@[i], other.repr@[i]);
            }
        }
        r
    }

    /// Check if every lane of `self` is true.
    pub fn all(self) -> (r: bool)
        requires
            N <= u32::MAX,
        ensures
            r == (forall|i: int| 0 <= i < N ==> self@[i]),
    {
        let mut i: usize = 0;
        let mut acc = true;
        while i < N
            invariant
                i <= N,
                N <= u32::MAX,
                acc == (forall|j: int| 0 <= j < i ==> self@[j]),
            decreases N - i,
        {
            let b = R::is_truthy(self.repr.extract(i as u32));
            proof {
                assert(b == self@[i as int]);
            }
            acc = acc && b;
            proof {
                assert(acc == (forall|j: int| 0 <= j < i + 1 ==> self@[j]));
            }
            i = i + 1;
        }
        acc
    }

    /// Check if any lane of `self` is true.
    pub fn any(self) -> (r: bool)
        requires
            N <= u32::MAX,
        ensures
            r == (exists|i: int| 0 <= i < N && self@[i]),
    {
        let mut i: usize = 0;
        let mut acc = false;
        while i < N
            invariant
                i <= N,
                N <= u32::MAX,
                acc == (exists|j: int| 0 <= j < i && self@[j]),
            decreases N - i,
        {
            let b = R::is_truthy(self.repr.extract(i as u32));
            proof {
                assert(b == self@[i as int]);
            }
            acc = acc || b;
            proof {
                assert(acc == (exists|j: int| 0 <= j < i + 1 && self@[j]));
            }
            i = i + 1;
        }
        acc
    }

    /// Collapse the mask to a scalar bitmask: bit `i` of the result is lane
    /// `i` of the mask.
    pub fn move_mask(self) -> (r: u32)
        requires
            N <= 32,
        ensures
            r == spec_move_mask(self@),
    {
        let mut r: u32 = 0;
        let mut p: u32 = 1;
        let mut i: usize = 0;
        proof {
            vstd::arithmetic::power2::lemma2_to64();
        }
        while i < N
            invariant
                i <= N,
                N <= 32,
                i < N ==> p == pow2(i as nat),
                r == spec_move_mask(self@.take(i as int)),
                r < pow2(i as nat),
            decreases N - i,
        {
            proof {
                vstd::arithmetic::power2::lemma2_to64();
                lemma_pow2_pos(i as nat);
                lemma_pow2_unfold((i + 1) as nat);
                if i + 1 < 32 {
                    lemma_pow2_strictly_increases((i + 1) as nat, 32);
                }
                assert(self@.take(i as int + 1).drop_last() =~= self@.take(i as int));
            }
            if R::is_truthy(self.repr.extract(i as u32)) {
                r = r + p;
            }
            i = i + 1;
            if i < N {
                p = p * 2;
            }
        }
        proof {
            assert(self@.take(N as int) =~= self@);
        }
        r
    }

    /// Select between lanes of `then` and `else_`, based on the
    /// corresponding lane of `self`.
    ///
    /// The body is the bitwise blend `(then AND mask) OR (else_ AND NOT
    /// mask)` on the shared integer representation; it picks whole lanes
    /// exactly because the mask is saturated.
    pub fn select<T: Simd<Bool = Self, ReprLane = R, Repr = Lanes<R, N>>>(
        self,
        then: T,
        else_: T,
    ) -> (r: T)
        requires
            self.well_formed(),
        ensures
            r.bit_lanes() == Seq::new(
                N as nat,
                |i: int|
                    if self@[i] {
                        then.bit_lanes()[i]
                    } else {
                        else_.bit_lanes()[i]
                    },
            ),
    {
        let t = then.to_bits();
        let e = else_.to_bits();
        let m = self.repr;
        let masked_then = t.and(m);
        let masked_else = e.and(Lanes::splat(R::ones()).xor(m));
        let res = masked_then.or(masked_else);
        proof {
            assert forall|i: int| 0 <= i < N implies res@[i] == (if self@[i] {
                t@[i]
            } else {
                e@[i]
            }) by {
                assert(lane_saturated(self.repr_lanes()[i]));
                R::lemma_select(m@[i], t@[i], e@[i]);
            }
            assert(res@ =~= Seq::new(
                N as nat,
                |i: int|
                    if self@[i] {
                        then.bit_lanes()[i]
                    } else {
                        else_.bit_lanes()[i]
                    },
            ));
        }
        T::of_bits(res)
    }
}

impl<R: FloatMaskLane, const N: usize> Mask<R, N, false> {
    /// Convert `self` to a boolean vector for interacting with floating
    /// point vectors. The bit pattern is unchanged; only the flavor moves.
    pub fn to_f(self) -> (r: Mask<R, N, true>)
        ensures
            r.repr_lanes() == self.repr_lanes(),
            r@ == self@,
            self.well_formed() ==> r.well_formed(),
    {
        let r = Mask { repr: self.repr };
        proof {
            assert(r@ =~= self@);
        }
        r
    }
}

impl<R: FloatMaskLane, const N: usize> Mask<R, N, true> {
    /// Convert `self` to a boolean vector for interacting with integer
    /// vectors. The bit pattern is unchanged; only the flavor moves.
    pub fn to_i(self) -> (r: Mask<R, N, false>)
        ensures
            r.repr_lanes() == self.repr_lanes(),
            r@ == self@,
            self.well_formed() ==> r.well_formed(),
    {
        let r = Mask { repr: self.repr };
        proof {
            assert(r@ =~= self@);
        }
        r
    }
}

impl<R: MaskLane, const N: usize> Simd for Mask<R, N, false> {
    type Bool = Self;

    type Elem = R::ScalarI;

    type ReprLane = R;

    type Repr = Lanes<R, N>;

    open spec fn bit_lanes(self) -> Seq<R> {
        self.repr_lanes()
    }

    fn to_bits(self) -> (b: Lanes<R, N>) {
        self.repr
    }

    fn of_bits(b: Lanes<R, N>) -> (r: Self) {
        Mask { repr: b }
    }

    proof fn lemma_bit_lanes_injective(x: Self, y: Self) {
        Self::lemma_repr_identity(x, y);
    }
}

impl<R: FloatMaskLane, const N: usize> Simd for Mask<R, N, true> {
    type Bool = Self;

    type Elem = R::ScalarF;

    type ReprLane = R;

    type Repr = Lanes<R, N>;

    open spec fn bit_lanes(self) -> Seq<R> {
        self.repr_lanes()
    }

    fn to_bits(self) -> (b: Lanes<R, N>) {
        self.repr
    }

    fn of_bits(b: Lanes<R, N>) -> (r: Self) {
        Mask { repr: b }
    }

    proof fn lemma_bit_lanes_injective(x: Self, y: Self) {
        Self::lemma_repr_identity(x, y);
    }
}

/// A mask rebuilt from its own integer representation is the original mask:
/// `r` is what `to_repr` returns for `m`, and `m2` is what `from_repr`
/// returns for `r`; then `m2` and `m` are the same mask.
pub proof fn lemma_repr_roundtrip<R: MaskLane, const N: usize, const F: bool>(
    m: Mask<R, N, F>,
    r: Lanes<R, N>,
    m2: Mask<R, N, F>,
)
    requires
        r@ == m.repr_lanes(),
        m2.repr_lanes() == r@,
    ensures
        m2 == m,
{
    Mask::lemma_repr_identity(m2, m);
}

/// What the bitwise select means lane by lane on a vector of elements:
/// each result lane is the chosen input's lane, whole.
pub proof fn lemma_select_lanes<E: LaneElem, const N: usize>(
    m: Mask<E::Repr, N, false>,
    then: Lanes<E, N>,
    else_: Lanes<E, N>,
    r: Lanes<E, N>,
    i: int,
) where E::Repr: MaskLane
    requires
        0 <= i < N,
        then@.len() == N,
        else_@.len() == N,
        r@.len() == N,
        r.bit_lanes() == Seq::new(
            N as nat,
            |j: int|
                if m@[j] {
                    then.bit_lanes()[j]
                } else {
                    else_.bit_lanes()[j]
                },
        ),
    ensures
        r@[i] == (if m@[i] {
            then@[i]
        } else {
            else_@[i]
        }),
{
    assert(r.bit_lanes()[i] == (if m@[i] {
        then.bit_lanes()[i]
    } else {
        else_.bit_lanes()[i]
    }));
    E::lemma_bits_roundtrip(r@[i]);
    E::lemma_bits_roundtrip(then@[i]);
    E::lemma_bits_roundtrip(else_@[i]);
}

/// The first half of a mask's lanes, as the half-width mask type.
pub fn mask_low_half<R: MaskLane, const N: usize, const M: usize, const F: bool>(
    m: Mask<R, N, F>,
) -> (r: Mask<R, M, F>)
    requires
        N == 2 * M,
        m.well_formed(),
    ensures
        r.well_formed(),
        r@ == m@.take(M as int),
        r.repr_lanes() == m.repr_lanes().take(M as int),
{
    let x = crate::vector::low_half(m.to_repr());
    proof {
        assert forall|i: int| 0 <= i < M implies lane_saturated(#[trigger] x@[i]) by {
            assert(lane_saturated(m.repr_lanes()[i]));
        }
    }
    let r = Mask::from_repr(x);
    proof {
        assert(r@ =~= m@.take(M as int));
        assert(r.repr_lanes() =~= m.repr_lanes().take(M as int));
    }
    r
}

/// The second half of a mask's lanes, as the half-width mask type.
pub fn mask_high_half<R: MaskLane, const N: usize, const M: usize, const F: bool>(
    m: Mask<R, N, F>,
) -> (r: Mask<R, M, F>)
    requires
        N == 2 * M,
        m.well_formed(),
    ensures
        r.well_formed(),
        r@ == m@.skip(M as int),
        r.repr_lanes() == m.repr_lanes().skip(M as int),
{
    let x = crate::vector::high_half(m.to_repr());
    proof {
        assert forall|i: int| 0 <= i < M implies lane_saturated(#[trigger] x@[i]) by {
            assert(lane_saturated(m.repr_lanes()[M + i]));
        }
    }
    let r = Mask::from_repr(x);
    proof {
        assert(r@ =~= m@.skip(M as int));
        assert(r.repr_lanes() =~= m.repr_lanes().skip(M as int));
    }
    r
}

/// Concatenate two masks: the lanes of `a` followed by the lanes of `b`.
/// This is the recomposition that undoes the low/high split.
pub fn mask_concat<R: MaskLane, const M: usize, const K: usize, const N: usize, const F: bool>(
    a: Mask<R, M, F>,
    b: Mask<R, K, F>,
) -> (r: Mask<R, N, F>)
    requires
        N == M + K,
        a.well_formed(),
        b.well_formed(),
    ensures
        r.well_formed(),
        r@ == a@ + b@,
        r.repr_lanes() == a.repr_lanes() + b.repr_lanes(),
{
    let x = crate::vector::concat(a.to_repr(), b.to_repr());
    proof {
        assert forall|i: int| 0 <= i < N implies lane_saturated(#[trigger] x@[i]) by {
            if i < M {
                assert(lane_saturated(a.repr_lanes()[i]));
            } else {
                assert(lane_saturated(b.repr_lanes()[i - M]));
            }
        }
    }
    let r = Mask::from_repr(x);
    proof {
        assert(r@ =~= a@ + b@);
    }
    r
}

/// The saturation invariant read back through the integer representation: on
/// a well-formed mask, every lane of `to_repr`'s result is exactly all-zeros
/// or all-ones, whatever sequence of operations built the mask.
pub proof fn lemma_saturation<R: MaskLane, const N: usize, const F: bool>(
    m: Mask<R, N, F>,
    r: Lanes<R, N>,
)
    requires
        m.well_formed(),
        r@ == m.repr_lanes(),
    ensures
        forall|i: int|
            0 <= i < N ==> r@[i] == R::spec_zero() || #[trigger] r@[i] == R::spec_ones(),
{
    assert forall|i: int|
        0 <= i < N implies r@[i] == R::spec_zero() || #[trigger] r@[i] == R::spec_ones() by {
        assert(lane_saturated(m.repr_lanes()[i]));
    }
}

} // verus!
