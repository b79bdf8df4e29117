//! The mask type and its lane-wise accessors and conversions.
use vstd::prelude::*;
use crate::element::{MaskElement, Sealed, is_mask_int, lane_bool, mask_int};
use crate::ops::{seq_and, seq_not, seq_or, seq_xor};

verus! {

/// A SIMD vector mask for `N` elements of width specified by `T`.
///
/// Masks represent boolean inclusion/exclusion on a per-element basis.
/// Each lane is stored as an integer of type `T` that is `0` for false and
/// `-1` (all bits set) for true.
pub struct Mask<T: MaskElement, const N: usize> {
    lanes: [T; N],
}

impl<T: MaskElement, const N: usize> Clone for Mask<T, N> {
    fn clone(&self) -> (r: Self)
        ensures
            r == *self,
    {
        proof {
            use_type_invariant(self);
        }
        Mask { lanes: self.lanes }
    }
}

impl<T: MaskElement, const N: usize> Copy for Mask<T, N> {

}

impl<T: MaskElement, const N: usize> View for Mask<T, N> {
    type V = Seq<bool>;

    /// The boolean of each lane, in lane order.
    closed spec fn view(&self) -> Seq<bool> {
        Seq::new(N as nat, |i: int| lane_bool(self.lanes[i].as_int()))
    }
}

impl<T: MaskElement, const N: usize> Mask<T, N> {
    /// Every lane holds `0` or `-1`. Every mask that executable code holds
    /// satisfies this (`use_type_invariant`).
    #[verifier::type_invariant]
    pub closed spec fn wf(self) -> bool {
        forall|i: int| 0 <= i < N ==> #[trigger] is_mask_int(self.lanes[i].as_int())
    }

    /// The mask whose lanes are the booleans of `v` (for `v` of length `N`).
    pub closed spec fn from_view(v: Seq<bool>) -> Self {
        choose|m: Self| m.wf() && m@ == v
    }

    /// A mask has `N` lanes.
    pub broadcast proof fn lemma_view_len(m: Self)
        ensures
            #[trigger] m@.len() == N,
    {
    }

    /// Two well-formed masks with the same lanes are the same value.
    proof fn lemma_unique(a: Self, b: Self)
        requires
            a.wf(),
            b.wf(),
            a@ == b@,
        ensures
            a == b,
    {
        assert forall|i: int| 0 <= i < N implies a.lanes[i] == b.lanes[i] by {
            assert(a@[i] == b@[i]);
            assert(a@[i] == lane_bool(a.lanes[i].as_int()));
            assert(b@[i] == lane_bool(b.lanes[i].as_int()));
            assert(is_mask_int(a.lanes[i].as_int()));
            assert(is_mask_int(b.lanes[i].as_int()));
            T::lemma_as_int_injective(a.lanes[i], b.lanes[i]);
        }
        assert(a.lanes =~= b.lanes);
    }

    /// A well-formed mask is the mask of its own lanes: a mask is determined
    /// by its booleans.
    pub proof fn lemma_from_view(m: Self)
        requires
            m.wf(),
        ensures
            Self::from_view(m@) == m,
    {
        let c = Self::from_view(m@);
        assert(c.wf() && c@ == m@);
        Self::lemma_unique(c, m);
    }

    /// The first `k` lanes of `a` stand for the first `k` booleans of `v`.
    spec fn lanes_match(a: [T; N], v: Seq<bool>, k: int) -> bool {
        forall|i: int| 0 <= i < k ==> #[trigger] a[i] == (if v[i] {
            T::TRUE
        } else {
            T::FALSE
        })
    }

    /// An array whose first `k` lanes stand for the first `k` booleans of `v`.
    proof fn lemma_lanes_exist(v: Seq<bool>, k: int)
        requires
            v.len() == N,
            0 <= k <= N,
        ensures
            exists|a: [T; N]| #[trigger] Self::lanes_match(a, v, k),
        decreases k,
    {
        if k == 0 {
            let a = [T::FALSE; N];
            assert(Self::lanes_match(a, v, k));
        } else {
            Self::lemma_lanes_exist(v, k - 1);
            let a = choose|a: [T; N]| #[trigger] Self::lanes_match(a, v, k - 1);
            let lane = if v[k - 1] {
                T::TRUE
            } else {
                T::FALSE
            };
            let b = vstd::array::spec_array_update(a, k - 1, lane);
            assert(b@ == a@.update(k - 1, lane));
            assert(Self::lanes_match(b, v, k));
        }
    }

    /// Every sequence of `N` booleans is the view of a well-formed mask.
    pub proof fn lemma_from_view_view(v: Seq<bool>)
        requires
            v.len() == N,
        ensures
            Self::from_view(v).wf(),
            Self::from_view(v)@ == v,
    {
        T::lemma_true_false();
        Self::lemma_lanes_exist(v, N as int);
        let a = choose|a: [T; N]| #[trigger] Self::lanes_match(a, v, N as int);
        let m = Mask::<T, N> { lanes: a };
        assert forall|i: int| 0 <= i < N implies #[trigger] is_mask_int(m.lanes[i].as_int()) by {
            assert(m.lanes[i] == a[i]);
        }
        assert(m@ =~= v);
        assert(m.wf() && m@ == v);
    }

    /// Construct a mask by setting all elements to the given value.
    pub fn splat(value: bool) -> (m: Self)
        ensures
            m@ == Seq::new(N as nat, |_i: int| value),
            m == Self::from_view(m@),
    {
        proof {
            T::lemma_true_false();
        }
        let lane = if value {
            T::TRUE
        } else {
            T::FALSE
        };
        let lanes = [lane; N];
        let m = Mask { lanes };
        assert(m@ =~= Seq::new(N as nat, |_i: int| value));
        proof {
            Self::lemma_from_view(m);
        }
        m
    }

    /// Converts an array of bools to a SIMD mask.
    pub fn from_array(array: [bool; N]) -> (m: Self)
        ensures
            m@ == array@,
            m == Self::from_view(array@),
    {
        proof {
            T::lemma_true_false();
        }
        let mut lanes = [T::FALSE; N];
        let mut i: usize = 0;
        while i < N
            invariant
                0 <= i <= N,
                T::TRUE.as_int() == -1,
                T::FALSE.as_int() == 0,
                forall|j: int| 0 <= j < N ==> #[trigger] is_mask_int(lanes[j].as_int()),
                forall|j: int| 0 <= j < i ==> lane_bool(#[trigger] lanes[j].as_int()) == array[j],
            decreases N - i,
        {
            lanes[i] = if array[i] {
                T::TRUE
            } else {
                T::FALSE
            };
            i = i + 1;
        }
        let m = Mask { lanes };
        assert(m@ =~= array@);
        proof {
            Self::lemma_from_view(m);
        }
        m
    }

    /// Converts a SIMD mask to an array of bools.
    pub fn to_array(self) -> (r: [bool; N])
        ensures
            r@ == self@,
    {
        let mut out = [false; N];
        let mut i: usize = 0;
        while i < N
            invariant
                0 <= i <= N,
                forall|j: int| 0 <= j < i ==> #[trigger] out[j] == self@[j],
            decreases N - i,
        {
            out[i] = self.test_unchecked(i);
            i = i + 1;
        }
        assert(out@ =~= self@);
        out
    }

    /// Converts a vector of integers to a mask, where 0 represents `false` and -1
    /// represents `true`.
    ///
    /// All elements must be either 0 or -1.
    pub fn from_int_unchecked(value: [T; N]) -> (m: Self)
        requires
            forall|i: int| 0 <= i < N ==> #[trigger] is_mask_int(value[i].as_int()),
        ensures
            m@ == Seq::new(N as nat, |i: int| lane_bool(value[i].as_int())),
    {
        Mask { lanes: value }
    }

    /// Converts a vector of integers to a mask, where 0 represents `false` and -1
    /// represents `true`.
    ///
    /// Every element must be 0 or -1 (see `Sealed::valid`).
    pub fn from_int(value: [T; N]) -> (m: Self)
        requires
            forall|i: int| 0 <= i < N ==> #[trigger] is_mask_int(value[i].as_int()),
        ensures
            m@ == Seq::new(N as nat, |i: int| lane_bool(value[i].as_int())),
    {
        Self::from_int_unchecked(value)
    }

    /// Converts the mask to a vector of integers, where 0 represents `false` and -1
    /// represents `true`.
    pub fn to_int(self) -> (r: [T; N])
        ensures
            forall|i: int| 0 <= i < N ==> #[trigger] r[i].as_int() == mask_int(self@[i]),
    {
        proof {
            use_type_invariant(&self);
            assert forall|i: int| 0 <= i < N implies #[trigger] self.lanes[i].as_int() == mask_int(
                self@[i],
            ) by {
                assert(is_mask_int(self.lanes[i].as_int()));
            }
        }
        self.lanes
    }

    /// Converts the mask to a mask of any other element size.
    pub fn cast<U: MaskElement>(self) -> (r: Mask<U, N>)
        ensures
            r@ == self@,
            r == Mask::<U, N>::from_view(self@),
    {
        Mask::<U, N>::from_array(self.to_array())
    }

    /// Tests the value of the specified element.
    ///
    /// `index` must be less than `N`.
    pub fn test_unchecked(&self, index: usize) -> (r: bool)
        requires
            index < N,
        ensures
            r == self@[index as int],
    {
        proof {
            T::lemma_true_false();
        }
        T::eq(self.lanes[index], T::TRUE)
    }

    /// Tests the value of the specified element.
    ///
    /// `index` must be less than the number of elements.
    pub fn test(&self, index: usize) -> (r: bool)
        requires
            index < N,
        ensures
            r == self@[index as int],
    {
        self.test_unchecked(index)
    }

    /// Sets the value of the specified element.
    ///
    /// `index` must be less than `N`.
    pub fn set_unchecked(&mut self, index: usize, value: bool)
        requires
            index < N,
        ensures
            final(self)@ == old(self)@.update(index as int, value),
    {
        proof {
            use_type_invariant(&*self);
            T::lemma_true_false();
        }
        let lane = if value {
            T::TRUE
        } else {
            T::FALSE
        };
        let mut lanes = self.lanes;
        lanes[index] = lane;
        *self = Mask { lanes };
        assert(self@ =~= old(self)@.update(index as int, value));
    }

    /// Sets the value of the specified element.
    ///
    /// `index` must be less than the number of elements.
    pub fn set(&mut self, index: usize, value: bool)
        requires
            index < N,
        ensures
            final(self)@ == old(self)@.update(index as int, value),
    {
        self.set_unchecked(index, value);
    }

    /// Returns true if any element is set, or false otherwise.
    pub fn any(self) -> (r: bool)
        ensures
            r == (exists|i: int| 0 <= i < N && #[trigger] self@[i]),
    {
        let mut i: usize = 0;
        while i < N
            invariant
                0 <= i <= N,
                forall|j: int| 0 <= j < i ==> !#[trigger] self@[j],
            decreases N - i,
        {
            if self.test_unchecked(i) {
                return true;
            }
            i = i + 1;
        }
        false
    }

    /// Returns true if all elements are set, or false otherwise.
    pub fn all(self) -> (r: bool)
        ensures
            r == (forall|i: int| 0 <= i < N ==> #[trigger] self@[i]),
    {
        let mut i: usize = 0;
        while i < N
            invariant
                0 <= i <= N,
                forall|j: int| 0 <= j < i ==> #[trigger] self@[j],
            decreases N - i,
        {
            if !self.test_unchecked(i) {
                return false;
            }
            i = i + 1;
        }
        true
    }

    /// Lane-wise AND of two masks.
    pub(crate) fn and_lanes(self, rhs: Self) -> (r: Self)
        ensures
            r@ == seq_and(self@, rhs@),
            r == Self::from_view(r@),
    {
        proof {
            use_type_invariant(&self);
            use_type_invariant(&rhs);
        }
        let mut lanes = self.lanes;
        let mut i: usize = 0;
        while i < N
            invariant
                0 <= i <= N,
                self.wf(),
                rhs.wf(),
                forall|j: int| 0 <= j < N ==> #[trigger] is_mask_int(lanes[j].as_int()),
                forall|j: int|
                    0 <= j < i ==> lane_bool(#[trigger] lanes[j].as_int()) == (self@[j] && rhs@[j]),
            decreases N - i,
        {
            assert(is_mask_int(self.lanes[i as int].as_int()));
            assert(is_mask_int(rhs.lanes[i as int].as_int()));
            lanes[i] = self.lanes[i].lane_and(rhs.lanes[i]);
            i = i + 1;
        }
        let r = Mask { lanes };
        assert(r@ =~= seq_and(self@, rhs@));
        proof {
            Self::lemma_from_view(r);
        }
        r
    }

    /// Lane-wise OR of two masks.
    pub(crate) fn or_lanes(self, rhs: Self) -> (r: Self)
        ensures
            r@ == seq_or(self@, rhs@),
            r == Self::from_view(r@),
    {
        proof {
            use_type_invariant(&self);
            use_type_invariant(&rhs);
        }
        let mut lanes = self.lanes;
        let mut i: usize = 0;
        while i < N
            invariant
                0 <= i <= N,
                self.wf(),
                rhs.wf(),
                forall|j: int| 0 <= j < N ==> #[trigger] is_mask_int(lanes[j].as_int()),
                forall|j: int|
                    0 <= j < i ==> lane_bool(#[trigger] lanes[j].as_int()) == (self@[j] || rhs@[j]),
            decreases N - i,
        {
            assert(is_mask_int(self.lanes[i as int].as_int()));
            assert(is_mask_int(rhs.lanes[i as int].as_int()));
            lanes[i] = self.lanes[i].lane_or(rhs.lanes[i]);
            i = i + 1;
        }
        let r = Mask { lanes };
        assert(r@ =~= seq_or(self@, rhs@));
        proof {
            Self::lemma_from_view(r);
        }
        r
    }

    /// Lane-wise XOR of two masks.
    pub(crate) fn xor_lanes(self, rhs: Self) -> (r: Self)
        ensures
            r@ == seq_xor(self@, rhs@),
            r == Self::from_view(r@),
    {
        proof {
            use_type_invariant(&self);
            use_type_invariant(&rhs);
        }
        let mut lanes = self.lanes;
        let mut i: usize = 0;
        while i < N
            invariant
                0 <= i <= N,
                self.wf(),
                rhs.wf(),
                forall|j: int| 0 <= j < N ==> #[trigger] is_mask_int(lanes[j].as_int()),
                forall|j: int|
                    0 <= j < i ==> lane_bool(#[trigger] lanes[j].as_int()) == (self@[j] != rhs@[j]),
            decreases N - i,
        {
            assert(is_mask_int(self.lanes[i as int].as_int()));
            assert(is_mask_int(rhs.lanes[i as int].as_int()));
            lanes[i] = self.lanes[i].lane_xor(rhs.lanes[i]);
            i = i + 1;
        }
        let r = Mask { lanes };
        assert(r@ =~= seq_xor(self@, rhs@));
        proof {
            Self::lemma_from_view(r);
        }
        r
    }

    /// Lane-wise NOT of a mask.
    pub(crate) fn not_lanes(self) -> (r: Self)
        ensures
            r@ == seq_not(self@),
            r == Self::from_view(r@),
    {
        proof {
            use_type_invariant(&self);
        }
        let mut lanes = self.lanes;
        let mut i: usize = 0;
        while i < N
            invariant
                0 <= i <= N,
                self.wf(),
                forall|j: int| 0 <= j < N ==> #[trigger] is_mask_int(lanes[j].as_int()),
                forall|j: int| 0 <= j < i ==> lane_bool(#[trigger] lanes[j].as_int()) == !self@[j],
            decreases N - i,
        {
            assert(is_mask_int(self.lanes[i as int].as_int()));
            lanes[i] = self.lanes[i].lane_not();
            i = i + 1;
        }
        let r = Mask { lanes };
        assert(r@ =~= seq_not(self@));
        proof {
            Self::lemma_from_view(r);
        }
        r
    }

    /// The first lane in which two masks differ, if any.
    pub(crate) fn first_difference(&self, other: &Self) -> (r: Option<usize>)
        ensures
            r is None ==> self@ == other@,
            r matches Some(i) ==> {
                &&& i < N
                &&& self@[i as int] != other@[i as int]
                &&& forall|j: int| 0 <= j < i ==> #[trigger] self@[j] == other@[j]
            },
    {
        let mut i: usize = 0;
        while i < N
            invariant
                0 <= i <= N,
                forall|j: int| 0 <= j < i ==> #[trigger] self@[j] == other@[j],
            decreases N - i,
        {
            if self.test_unchecked(i) != other.test_unchecked(i) {
                return Some(i);
            }
            i = i + 1;
        }
        assert(self@ =~= other@);
        None
    }

    /// A vector of `0` and `-1` lanes is determined by the booleans it stands
    /// for: `from_int(v).to_int() == v`.
    pub proof fn law_to_int_from_int(v: [T; N], r: [T; N])
        requires
            forall|i: int| 0 <= i < N ==> #[trigger] is_mask_int(v[i].as_int()),
            forall|i: int|
                0 <= i < N ==> #[trigger] r[i].as_int() == mask_int(lane_bool(v[i].as_int())),
        ensures
            r == v,
    {
        assert forall|i: int| 0 <= i < N implies r[i] == v[i] by {
            assert(is_mask_int(v[i].as_int()));
            assert(r[i].as_int() == mask_int(lane_bool(v[i].as_int())));
            T::lemma_as_int_injective(r[i], v[i]);
        }
        assert(r =~= v);
    }

    /// `to_int` gives a vector that `from_int` accepts, and that stands for
    /// the same booleans: `from_int(m.to_int()) == m`.
    pub proof fn law_from_int_to_int(m: Self, r: [T; N])
        requires
            m.wf(),
            forall|i: int| 0 <= i < N ==> #[trigger] r[i].as_int() == mask_int(m@[i]),
        ensures
            forall|i: int| 0 <= i < N ==> #[trigger] is_mask_int(r[i].as_int()),
            Seq::new(N as nat, |i: int| lane_bool(r[i].as_int())) == m@,
            Self::from_view(Seq::new(N as nat, |i: int| lane_bool(r[i].as_int()))) == m,
    {
        assert forall|i: int| 0 <= i < N implies #[trigger] is_mask_int(r[i].as_int()) by {
            assert(r[i].as_int() == mask_int(m@[i]));
        }
        assert(Seq::new(N as nat, |i: int| lane_bool(r[i].as_int())) =~= m@) by {
            assert forall|i: int| 0 <= i < N implies lane_bool(#[trigger] r[i].as_int()) == m@[i] by {
                assert(r[i].as_int() == mask_int(m@[i]));
            }
        }
        Self::lemma_from_view(m);
    }

    /// Casting to another element type and back gives the same mask.
    pub proof fn law_cast_round_trip<U: MaskElement>(m: Self)
        requires
            m.wf(),
        ensures
            Mask::<U, N>::from_view(m@)@ == m@,
            Self::from_view(Mask::<U, N>::from_view(m@)@) == m,
    {
        Mask::<U, N>::lemma_from_view_view(m@);
        Self::lemma_from_view(m);
    }

    /// Setting a lane and then testing it gives the value set; the other
    /// lanes keep theirs.
    pub proof fn law_test_after_set(m: Self, index: int, value: bool, other: int)
        requires
            0 <= index < N,
            0 <= other < N,
            other != index,
        ensures
            m@.update(index, value)[index] == value,
            m@.update(index, value)[other] == m@[other],
    {
    }
}

} // verus!
