//! The generic vector type: `N` lanes of a scalar element type.
//!
//! Every operation is lane-wise; the contracts state the resulting lane
//! values through the element type's spec functions, so a concrete vector
//! type such as four lanes of `u32` gets exact wrapping semantics for free.

use vstd::prelude::*;

use crate::Simd;
use crate::elem::LaneElem;
use crate::elem::lane_saturated;
use crate::elem::lane_truth;
use crate::mask::Mask;

verus! {

broadcast use vstd::array::group_array_axioms;

/// A fixed-width vector value: an immutable sequence of `N` lanes of `E`.
///
/// The view of a vector is the sequence of its lane values, lane 0 first.
#[verifier::ext_equal]
#[derive(Debug, Clone, Copy, PartialEq, Eq)]
pub struct Lanes<E, const N: usize> {
    lanes: [E; N],
}

impl<E, const N: usize> View for Lanes<E, N> {
    type V = Seq<E>;

    closed spec fn view(&self) -> Seq<E> {
        self.lanes@
    }
}

/// The lane-wise comparisons, named so one loop can implement all six.
enum CmpKind {
    Eq,
    Ne,
    Lt,
    Le,
    Gt,
    Ge,
}

/// What one lane of a comparison mask means.
spec fn spec_cmp<E: LaneElem>(k: CmpKind, a: E, b: E) -> bool {
    match k {
        CmpKind::Eq => a == b,
        CmpKind::Ne => a != b,
        CmpKind::Lt => E::spec_lt(a, b),
        CmpKind::Le => E::spec_le(a, b),
        CmpKind::Gt => E::spec_lt(b, a),
        CmpKind::Ge => E::spec_le(b, a),
    }
}

impl<E: LaneElem, const N: usize> Lanes<E, N> where E::Repr: crate::elem::MaskLane {
    /// Build a vector from an array of lane values, in lane order.
    pub fn from_lanes(a: [E; N]) -> (r: Self)
        ensures
            r@ == a@,
    {
        Lanes { lanes: a }
    }

    /// Create a new instance where every lane has value `x`.
    pub fn splat(x: E) -> (r: Self)
        ensures
            r@.len() == N,
            forall|i: int| 0 <= i < N ==> r@[i] == x,
    {
        Lanes { lanes: [x; N] }
    }

    /// Extract the value of the `idx`th lane of `self`.
    ///
    /// An index at or past the lane count is a caller error, excluded here.
    pub fn extract(self, idx: u32) -> (r: E)
        requires
            idx < N,
        ensures
            r == self@[idx as int],
    {
        self.lanes[idx as usize]
    }

    /// Return a new vector where the `idx`th lane is replaced by `x`.
    ///
    /// An index at or past the lane count is a caller error, excluded here.
    pub fn replace(self, idx: u32, x: E) -> (r: Self)
        requires
            idx < N,
        ensures
            r@ == self@.update(idx as int, x),
    {
        let mut a = self.lanes;
        a[idx as usize] = x;
        Lanes { lanes: a }
    }

    /// Read `N` consecutive lanes starting at `array[idx]`.
    ///
    /// A slice too short for the read is a caller error, excluded here.
    pub fn load(array: &[E], idx: usize) -> (r: Self)
        requires
            idx + N <= array@.len(),
        ensures
            r@.len() == N,
            forall|i: int| 0 <= i < N ==> r@[i] == array@[idx + i],
    {
        let n = array.len();
        let mut out: [E; N] = [E::zero(); N];
        let mut i: usize = 0;
        while i < N
            invariant
                i <= N,
                n == array@.len(),
                idx + N <= array@.len(),
                out@.len() == N,
                forall|j: int| 0 <= j < i ==> out@[j] == array@[idx + j],
            decreases N - i,
        {
            out[i] = *vstd::slice::slice_index_get(array, idx + i);
            i = i + 1;
        }
        Lanes { lanes: out }
    }

    /// Write the lanes of `self` to `array`, starting at the `idx`th position.
    ///
    /// A slice too short for the write is a caller error, excluded here.
    pub fn store(self, array: &mut [E], idx: usize)
        requires
            idx + N <= old(array)@.len(),
        ensures
            final(array)@.len() == old(array)@.len(),
            forall|i: int| 0 <= i < N ==> final(array)@[idx + i] == self@[i],
            forall|j: int|
                0 <= j < final(array)@.len() && !(idx <= j < idx + N) ==> final(array)@[j] == old(
                    array,
                )@[j],
    {
        let n = array.len();
        let mut i: usize = 0;
        while i < N
            invariant
                i <= N,
                n == array@.len(),
                idx + N <= array@.len(),
                array@.len() == old(array)@.len(),
                forall|j: int| 0 <= j < i ==> array@[idx + j] == self@[j],
                forall|j: int|
                    0 <= j < array@.len() && !(idx <= j < idx + i) ==> array@[j] == old(
                        array,
                    )@[j],
            decreases N - i,
        {
            array[idx + i] = self.lanes[i];
            i = i + 1;
        }
    }

    /// Lane-wise wrapping addition.
    pub fn add(self, other: Self) -> (r: Self)
        ensures
            r@.len() == N,
            forall|i: int| 0 <= i < N ==> r@[i] == E::spec_wadd(self@[i], other@[i]),
    {
        let mut out = self.lanes;
        let mut i: usize = 0;
        while i < N
            invariant
                i <= N,
                out@.len() == N,
                forall|j: int| 0 <= j < i ==> out@[j] == E::spec_wadd(self@[j], other@[j]),
            decreases N - i,
        {
            out[i] = E::wadd(self.lanes[i], other.lanes[i]);
            i = i + 1;
        }
        Lanes { lanes: out }
    }

    /// Lane-wise wrapping subtraction.
    pub fn sub(self, other: Self) -> (r: Self)
        ensures
            r@.len() == N,
            forall|i: int| 0 <= i < N ==> r@[i] == E::spec_wsub(self@[i], other@[i]),
    {
        let mut out = self.lanes;
        let mut i: usize = 0;
        while i < N
            invariant
                i <= N,
                out@.len() == N,
                forall|j: int| 0 <= j < i ==> out@[j] == E::spec_wsub(self@[j], other@[j]),
            decreases N - i,
        {
            out[i] = E::wsub(self.lanes[i], other.lanes[i]);
            i = i + 1;
        }
        Lanes { lanes: out }
    }

    /// Lane-wise wrapping multiplication.
    pub fn mul(self, other: Self) -> (r: Self)
        ensures
            r@.len() == N,
            forall|i: int| 0 <= i < N ==> r@[i] == E::spec_wmul(self@[i], other@[i]),
    {
        let mut out = self.lanes;
        let mut i: usize = 0;
        while i < N
            invariant
                i <= N,
                out@.len() == N,
                forall|j: int| 0 <= j < i ==> out@[j] == E::spec_wmul(self@[j], other@[j]),
            decreases N - i,
        {
            out[i] = E::wmul(self.lanes[i], other.lanes[i]);
            i = i + 1;
        }
        Lanes { lanes: out }
    }

    /// Lane-wise bitwise conjunction.
    pub fn and(self, other: Self) -> (r: Self)
        ensures
            r@.len() == N,
            forall|i: int| 0 <= i < N ==> r@[i] == E::spec_and(self@[i], other@[i]),
    {
        let mut out = self.lanes;
        let mut i: usize = 0;
        while i < N
            invariant
                i <= N,
                out@.len() == N,
                forall|j: int| 0 <= j < i ==> out@[j] == E::spec_and(self@[j], other@[j]),
            decreases N - i,
        {
            out[i] = E::band(self.lanes[i], other.lanes[i]);
            i = i + 1;
        }
        Lanes { lanes: out }
    }

    /// Lane-wise bitwise disjunction.
    pub fn or(self, other: Self) -> (r: Self)
        ensures
            r@.len() == N,
            forall|i: int| 0 <= i < N ==> r@[i] == E::spec_or(self@[i], other@[i]),
    {
        let mut out = self.lanes;
        let mut i: usize = 0;
        while i < N
            invariant
                i <= N,
                out@.len() == N,
                forall|j: int| 0 <= j < i ==> out@[j] == E::spec_or(self@[j], other@[j]),
            decreases N - i,
        {
            out[i] = E::bor(self.lanes[i], other.lanes[i]);
            i = i + 1;
        }
        Lanes { lanes: out }
    }

    /// Lane-wise bitwise exclusive or.
    pub fn xor(self, other: Self) -> (r: Self)
        ensures
            r@.len() == N,
            forall|i: int| 0 <= i < N ==> r@[i] == E::spec_xor(self@[i], other@[i]),
    {
        let mut out = self.lanes;
        let mut i: usize = 0;
        while i < N
            invariant
                i <= N,
                out@.len() == N,
                forall|j: int| 0 <= j < i ==> out@[j] == E::spec_xor(self@[j], other@[j]),
            decreases N - i,
        {
            out[i] = E::bxor(self.lanes[i], other.lanes[i]);
            i = i + 1;
        }
        Lanes { lanes: out }
    }

    /// Lane-wise bitwise complement.
    pub fn not(self) -> (r: Self)
        ensures
            r@.len() == N,
            forall|i: int| 0 <= i < N ==> r@[i] == E::spec_not(self@[i]),
    {
        let mut out = self.lanes;
        let mut i: usize = 0;
        while i < N
            invariant
                i <= N,
                out@.len() == N,
                forall|j: int| 0 <= j < i ==> out@[j] == E::spec_not(self@[j]),
            decreases N - i,
        {
            out[i] = E::bnot(self.lanes[i]);
            i = i + 1;
        }
        Lanes { lanes: out }
    }

    /// Lane-wise wrapping negation, defined as zero minus `self` so that it
    /// agrees with `sub`'s wrapping semantics.
    pub fn neg(self) -> (r: Self)
        ensures
            r@.len() == N,
            forall|i: int| 0 <= i < N ==> r@[i] == E::spec_wsub(E::spec_zero(), self@[i]),
    {
        Self::splat(E::zero()).sub(self)
    }

    /// Shift every lane left by the same scalar amount.
    pub fn shl(self, n: u32) -> (r: Self)
        requires
            n < E::spec_width(),
        ensures
            r@.len() == N,
            forall|i: int| 0 <= i < N ==> r@[i] == E::spec_shl(self@[i], n),
    {
        let mut out = self.lanes;
        let mut i: usize = 0;
        while i < N
            invariant
                i <= N,
                n < E::spec_width(),
                out@.len() == N,
                forall|j: int| 0 <= j < i ==> out@[j] == E::spec_shl(self@[j], n),
            decreases N - i,
        {
            out[i] = E::shl(self.lanes[i], n);
            i = i + 1;
        }
        Lanes { lanes: out }
    }

    /// Shift every lane right by the same scalar amount: logical for
    /// unsigned lanes, arithmetic for signed ones.
    pub fn shr(self, n: u32) -> (r: Self)
        requires
            n < E::spec_width(),
        ensures
            r@.len() == N,
            forall|i: int| 0 <= i < N ==> r@[i] == E::spec_shr(self@[i], n),
    {
        let mut out = self.lanes;
        let mut i: usize = 0;
        while i < N
            invariant
                i <= N,
                n < E::spec_width(),
                out@.len() == N,
                forall|j: int| 0 <= j < i ==> out@[j] == E::spec_shr(self@[j], n),
            decreases N - i,
        {
            out[i] = E::shr(self.lanes[i], n);
            i = i + 1;
        }
        Lanes { lanes: out }
    }

    /// One loop implements all six lane-wise comparisons.
    fn cmp_mask(self, other: Self, k: CmpKind) -> (r: Mask<E::Repr, N, false>)
        ensures
            r.well_formed(),
            r@.len() == N,
            forall|i: int| 0 <= i < N ==> r@[i] == spec_cmp(k, self@[i], other@[i]),
    {
        let mut out: [E::Repr; N] = [<E::Repr as LaneElem>::zero(); N];
        let mut i: usize = 0;
        while i < N
            invariant
                i <= N,
                out@.len() == N,
                forall|j: int|
                    0 <= j < i ==> out@[j] == (if spec_cmp(k, self@[j], other@[j]) {
                        <E::Repr as LaneElem>::spec_ones()
                    } else {
                        <E::Repr as LaneElem>::spec_zero()
                    }),
            decreases N - i,
        {
            let hit = match k {
                CmpKind::Eq => E::eq_lane(self.lanes[i], other.lanes[i]),
                CmpKind::Ne => !E::eq_lane(self.lanes[i], other.lanes[i]),
                CmpKind::Lt => E::lt(self.lanes[i], other.lanes[i]),
                CmpKind::Le => E::le(self.lanes[i], other.lanes[i]),
                CmpKind::Gt => E::lt(other.lanes[i], self.lanes[i]),
                CmpKind::Ge => E::le(other.lanes[i], self.lanes[i]),
            };
            out[i] = if hit {
                <E::Repr as LaneElem>::ones()
            } else {
                <E::Repr as LaneElem>::zero()
            };
            i = i + 1;
        }
        proof {
            <E::Repr as crate::elem::MaskLane>::lemma_truth_constants();
        }
        let x = Lanes { lanes: out };
        proof {
            assert forall|i: int| 0 <= i < N implies lane_saturated(#[trigger] x@[i]) by {
                assert(x@[i] == out@[i]);
            }
        }
        let r = Mask::from_repr(x);
        proof {
            assert forall|i: int| 0 <= i < N implies r@[i] == spec_cmp(k, self@[i], other@[i]) by {
                assert(r@[i] == lane_truth(x@[i]));
                assert(x@[i] == out@[i]);
            }
        }
        r
    }

    /// Lane-wise equality; each true lane of the result is all-ones.
    pub fn eq(self, other: Self) -> (r: Mask<E::Repr, N, false>)
        ensures
            r.well_formed(),
            r@.len() == N,
            forall|i: int| 0 <= i < N ==> r@[i] == (self@[i] == other@[i]),
    {
        self.cmp_mask(other, CmpKind::Eq)
    }

    /// Lane-wise inequality.
    pub fn ne(self, other: Self) -> (r: Mask<E::Repr, N, false>)
        ensures
            r.well_formed(),
            r@.len() == N,
            forall|i: int| 0 <= i < N ==> r@[i] == (self@[i] != other@[i]),
    {
        self.cmp_mask(other, CmpKind::Ne)
    }

    /// Lane-wise strict order.
    pub fn lt(self, other: Self) -> (r: Mask<E::Repr, N, false>)
        ensures
            r.well_formed(),
            r@.len() == N,
            forall|i: int| 0 <= i < N ==> r@[i] == E::spec_lt(self@[i], other@[i]),
    {
        self.cmp_mask(other, CmpKind::Lt)
    }

    /// Lane-wise order or equality.
    pub fn le(self, other: Self) -> (r: Mask<E::Repr, N, false>)
        ensures
            r.well_formed(),
            r@.len() == N,
            forall|i: int| 0 <= i < N ==> r@[i] == E::spec_le(self@[i], other@[i]),
    {
        self.cmp_mask(other, CmpKind::Le)
    }

    /// Lane-wise strict reverse order.
    pub fn gt(self, other: Self) -> (r: Mask<E::Repr, N, false>)
        ensures
            r.well_formed(),
            r@.len() == N,
            forall|i: int| 0 <= i < N ==> r@[i] == E::spec_lt(other@[i], self@[i]),
    {
        self.cmp_mask(other, CmpKind::Gt)
    }

    /// Lane-wise reverse order or equality.
    pub fn ge(self, other: Self) -> (r: Mask<E::Repr, N, false>)
        ensures
            r.well_formed(),
            r@.len() == N,
            forall|i: int| 0 <= i < N ==> r@[i] == E::spec_le(other@[i], self@[i]),
    {
        self.cmp_mask(other, CmpKind::Ge)
    }
}

impl<E: LaneElem, const N: usize> Simd for Lanes<E, N> where E::Repr: crate::elem::MaskLane {
    type Bool = Mask<E::Repr, N, false>;

    type Elem = E;

    type ReprLane = E::Repr;

    type Repr = Lanes<E::Repr, N>;

    open spec fn bit_lanes(self) -> Seq<E::Repr> {
        Seq::new(N as nat, |i: int| E::spec_bits(self@[i]))
    }

    fn to_bits(self) -> (b: Lanes<E::Repr, N>) {
        let mut out: [E::Repr; N] = [<E::Repr as LaneElem>::zero(); N];
        let mut i: usize = 0;
        while i < N
            invariant
                i <= N,
                out@.len() == N,
                forall|j: int| 0 <= j < i ==> out@[j] == E::spec_bits(self@[j]),
            decreases N - i,
        {
            out[i] = E::bits(self.lanes[i]);
            i = i + 1;
        }
        proof {
            assert(out@ =~= self.bit_lanes());
        }
        Lanes { lanes: out }
    }

    fn of_bits(b: Lanes<E::Repr, N>) -> (r: Self) {
        let mut out: [E; N] = [E::zero(); N];
        let mut i: usize = 0;
        while i < N
            invariant
                i <= N,
                out@.len() == N,
                forall|j: int| 0 <= j < i ==> out@[j] == E::spec_of_bits(b@[j]),
            decreases N - i,
        {
            out[i] = E::of_bits(b.lanes[i]);
            i = i + 1;
        }
        let r = Lanes { lanes: out };
        proof {
            assert forall|i: int| 0 <= i < N implies r.bit_lanes()[i] == b@[i] by {
                E::lemma_of_bits_roundtrip(b@[i]);
            }
            assert(r.bit_lanes() =~= b@);
        }
        r
    }

    proof fn lemma_bit_lanes_injective(x: Self, y: Self) {
        assert forall|i: int| 0 <= i < N implies x.lanes[i] == y.lanes[i] by {
            assert(x.bit_lanes()[i] == E::spec_bits(x@[i]));
            assert(y.bit_lanes()[i] == E::spec_bits(y@[i]));
            assert(x.bit_lanes()[i] == y.bit_lanes()[i]);
            E::lemma_bits_roundtrip(x@[i]);
            E::lemma_bits_roundtrip(y@[i]);
            assert(x@[i] == y@[i]);
        }
        assert(x.lanes =~= y.lanes);
        assert(x =~= y);
    }
}

/// Every vector has exactly `N` lanes.
pub broadcast proof fn lemma_lanes_len<E, const N: usize>(v: Lanes<E, N>)
    ensures
        (#[trigger] v@).len() == N,
{
}

/// Two vectors with the same lane values are the same value.
pub proof fn lemma_lanes_ext<E, const N: usize>(a: Lanes<E, N>, b: Lanes<E, N>)
    requires
        a@ == b@,
    ensures
        a == b,
{
    assert forall|i: int| 0 <= i < N implies a.lanes[i] == b.lanes[i] by {
        assert(a@[i] == b@[i]);
    }
    assert(a.lanes =~= b.lanes);
    assert(a =~= b);
}

/// Negating a vector twice under wrapping arithmetic gives the vector back,
/// minimum lane values included.
pub proof fn lemma_neg_neg<E: LaneElem, const N: usize>(
    v: Lanes<E, N>,
    n1: Lanes<E, N>,
    n2: Lanes<E, N>,
)
    requires
        v@.len() == N,
        n1@.len() == N,
        n2@.len() == N,
        forall|i: int| 0 <= i < N ==> n1@[i] == E::spec_wsub(E::spec_zero(), v@[i]),
        forall|i: int| 0 <= i < N ==> n2@[i] == E::spec_wsub(E::spec_zero(), n1@[i]),
    ensures
        n2 == v,
{
    assert forall|i: int| 0 <= i < N implies n2@[i] == v@[i] by {
        E::lemma_neg_involution(v@[i]);
    }
    assert(n2@ =~= v@);
    lemma_lanes_ext(n2, v);
}

/// Storing a vector into a buffer and loading from the same offset
/// reproduces the vector, for any buffer large enough.
pub proof fn lemma_store_load_roundtrip<E: LaneElem, const N: usize>(
    v: Lanes<E, N>,
    buf: Seq<E>,
    idx: int,
    w: Lanes<E, N>,
)
    requires
        v@.len() == N,
        0 <= idx,
        idx + N <= buf.len(),
        forall|i: int| 0 <= i < N ==> buf[idx + i] == v@[i],
        w@.len() == N,
        forall|i: int| 0 <= i < N ==> w@[i] == buf[idx + i],
    ensures
        w == v,
{
    assert(w@ =~= v@);
    lemma_lanes_ext(w, v);
}

/// A wide vector is exactly its two halves: rebuilding a vector whose low
/// lanes are `v`'s first half and whose high lanes are `v`'s second half
/// gives `v` back.
pub proof fn lemma_low_high_roundtrip<E: LaneElem, const N: usize, const M: usize>(
    v: Lanes<E, N>,
    lo: Lanes<E, M>,
    hi: Lanes<E, M>,
    w: Lanes<E, N>,
)
    requires
        N == 2 * M,
        v@.len() == N,
        w@.len() == N,
        lo@ == v@.take(M as int),
        hi@ == v@.skip(M as int),
        w@ == lo@ + hi@,
    ensures
        w == v,
{
    assert(w@ =~= v@);
    lemma_lanes_ext(w, v);
}

/// The first half of a vector's lanes, as the half-width vector type.
pub fn low_half<E: LaneElem, const N: usize, const M: usize>(v: Lanes<E, N>) -> (r: Lanes<E, M>) where
    E::Repr: crate::elem::MaskLane

    requires
        N == 2 * M,
    ensures
        r@ == v@.take(M as int),
{
    let mut out: [E; M] = [E::zero(); M];
    let mut i: usize = 0;
    while i < M
        invariant
            i <= M,
            N == 2 * M,
            out@.len() == M,
            forall|j: int| 0 <= j < i ==> out@[j] == v@[j],
        decreases M - i,
    {
        out[i] = v.lanes[i];
        i = i + 1;
    }
    proof {
        assert(out@ =~= v@.take(M as int));
    }
    Lanes { lanes: out }
}

/// The second half of a vector's lanes, as the half-width vector type.
pub fn high_half<E: LaneElem, const N: usize, const M: usize>(v: Lanes<E, N>) -> (r: Lanes<E, M>) where
    E::Repr: crate::elem::MaskLane

    requires
        N == 2 * M,
    ensures
        r@ == v@.skip(M as int),
{
    let mut out: [E; M] = [E::zero(); M];
    let mut i: usize = 0;
    while i < M
        invariant
            i <= M,
            N == 2 * M,
            out@.len() == M,
            forall|j: int| 0 <= j < i ==> out@[j] == v@[M + j],
        decreases M - i,
    {
        out[i] = v.lanes[M + i];
        i = i + 1;
    }
    proof {
        assert(out@ =~= v@.skip(M as int));
    }
    Lanes { lanes: out }
}

/// Reinterpret each lane as another element type of the same width,
/// keeping the bit pattern.
pub fn reinterpret<E: LaneElem, F: LaneElem<Repr = E::Repr>, const N: usize>(v: Lanes<E, N>) -> (r:
    Lanes<F, N>) where E::Repr: crate::elem::MaskLane
    ensures
        r@.len() == N,
        forall|i: int| 0 <= i < N ==> r@[i] == F::spec_of_bits(E::spec_bits(v@[i])),
{
    let r = crate::bitcast::<Lanes<E, N>, Lanes<F, N>>(v);
    proof {
        assert forall|i: int| 0 <= i < N implies r@[i] == F::spec_of_bits(E::spec_bits(v@[i])) by {
            assert(r.bit_lanes()[i] == v.bit_lanes()[i]);
            F::lemma_bits_roundtrip(r@[i]);
        }
    }
    r
}

/// Concatenate two vectors: the lanes of `a` followed by the lanes of `b`.
/// This is the recomposition that undoes the low/high split.
pub fn concat<E: LaneElem, const M: usize, const K: usize, const N: usize>(
    a: Lanes<E, M>,
    b: Lanes<E, K>,
) -> (r: Lanes<E, N>) where E::Repr: crate::elem::MaskLane

    requires
        N == M + K,
    ensures
        r@ == a@ + b@,
{
    let mut out: [E; N] = [E::zero(); N];
    let mut i: usize = 0;
    while i < M
        invariant
            i <= M,
            N == M + K,
            out@.len() == N,
            forall|j: int| 0 <= j < i ==> out@[j] == a@[j],
        decreases M - i,
    {
        out[i] = a.lanes[i];
        i = i + 1;
    }
    let mut k: usize = 0;
    while k < K
        invariant
            k <= K,
            N == M + K,
            out@.len() == N,
            forall|j: int| 0 <= j < M ==> out@[j] == a@[j],
            forall|j: int| 0 <= j < k ==> out@[M + j] == b@[j],
        decreases K - k,
    {
        out[M + k] = b.lanes[k];
        k = k + 1;
    }
    proof {
        assert(out@ =~= a@ + b@);
    }
    Lanes { lanes: out }
}

} // verus!
