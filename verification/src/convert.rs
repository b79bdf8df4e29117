//! Conversions between masks, boolean arrays and masks of other element
//! types; the default mask; equality of masks.
use vstd::prelude::*;
use crate::element::MaskElement;
use crate::mask::Mask;
use vstd::std_specs::cmp::PartialEqSpec;

verus! {

impl<T: MaskElement, const N: usize> From<[bool; N]> for Mask<T, N> {
    /// Converts an array of bools to a SIMD mask.
    fn from(array: [bool; N]) -> (r: Self)
        ensures
            r@ == array@,
    {
        Self::from_array(array)
    }
}

impl<T: MaskElement, const N: usize> vstd::std_specs::convert::FromSpecImpl<[bool; N]> for Mask<T, N> {
    open spec fn obeys_from_spec() -> bool {
        true
    }

    open spec fn from_spec(array: [bool; N]) -> Self {
        Mask::from_view(array@)
    }
}

impl<T: MaskElement, const N: usize> From<Mask<T, N>> for [bool; N] {
    /// Converts a SIMD mask to an array of bools.
    fn from(vector: Mask<T, N>) -> (r: Self)
        ensures
            r@ == vector@,
    {
        let r = vector.to_array();
        proof {
            let c = choose|a: [bool; N]| a@ == vector@;
            assert(c@ == vector@);
            assert(c =~= r);
        }
        r
    }
}

impl<T: MaskElement, const N: usize> vstd::std_specs::convert::FromSpecImpl<Mask<T, N>> for [bool; N] {
    open spec fn obeys_from_spec() -> bool {
        true
    }

    open spec fn from_spec(vector: Mask<T, N>) -> Self {
        choose|a: [bool; N]| a@ == vector@
    }
}

impl<T: MaskElement, const N: usize> Default for Mask<T, N> {
    /// The mask with every element false.
    fn default() -> (r: Self)
        ensures
            r@ == Seq::new(N as nat, |_i: int| false),
    {
        Self::splat(false)
    }
}

impl<T: MaskElement, const N: usize> PartialEq for Mask<T, N> {
    /// Whether the two masks agree in every lane.
    fn eq(&self, other: &Self) -> (r: bool) {
        let mut i: usize = 0;
        while i < N
            invariant
                0 <= i <= N,
                forall|j: int| 0 <= j < i ==> #[trigger] self@[j] == other@[j],
            decreases N - i,
        {
            if self.test_unchecked(i) != other.test_unchecked(i) {
                return false;
            }
            i = i + 1;
        }
        proof {
            Mask::<T, N>::lemma_view_len(*self);
            Mask::<T, N>::lemma_view_len(*other);
        }
        assert(self@ =~= other@);
        true
    }
}

impl<T: MaskElement, const N: usize> vstd::std_specs::cmp::PartialEqSpecImpl for Mask<T, N> {
    open spec fn obeys_eq_spec() -> bool {
        true
    }

    open spec fn eq_spec(&self, other: &Self) -> bool {
        self@ == other@
    }
}

/// Two masks are `==` exactly when every lane of one equals the same lane of
/// the other.
pub proof fn law_eq_lanes<T: MaskElement, const N: usize>(a: Mask<T, N>, b: Mask<T, N>)
    ensures
        a.eq_spec(&b) == (forall|i: int| 0 <= i < N ==> #[trigger] a@[i] == b@[i]),
        a.eq_spec(&b) == b.eq_spec(&a),
        a.eq_spec(&a),
{
    Mask::<T, N>::lemma_view_len(a);
    Mask::<T, N>::lemma_view_len(b);
    if forall|i: int| 0 <= i < N ==> #[trigger] a@[i] == b@[i] {
        assert(a@ =~= b@);
    }
}

impl<const N: usize> From<Mask<i8, N>> for Mask<i16, N> {
    /// The mask with the same lanes, stored as `i16`.
    fn from(value: Mask<i8, N>) -> (r: Self)
        ensures
            r@ == value@,
    {
        value.cast()
    }
}

impl<const N: usize> vstd::std_specs::convert::FromSpecImpl<Mask<i8, N>> for Mask<i16, N> {
    open spec fn obeys_from_spec() -> bool {
        true
    }

    open spec fn from_spec(value: Mask<i8, N>) -> Self {
        Mask::from_view(value@)
    }
}

impl<const N: usize> From<Mask<i8, N>> for Mask<i32, N> {
    /// The mask with the same lanes, stored as `i32`.
    fn from(value: Mask<i8, N>) -> (r: Self)
        ensures
            r@ == value@,
    {
        value.cast()
    }
}

impl<const N: usize> vstd::std_specs::convert::FromSpecImpl<Mask<i8, N>> for Mask<i32, N> {
    open spec fn obeys_from_spec() -> bool {
        true
    }

    open spec fn from_spec(value: Mask<i8, N>) -> Self {
        Mask::from_view(value@)
    }
}

impl<const N: usize> From<Mask<i8, N>> for Mask<i64, N> {
    /// The mask with the same lanes, stored as `i64`.
    fn from(value: Mask<i8, N>) -> (r: Self)
        ensures
            r@ == value@,
    {
        value.cast()
    }
}

impl<const N: usize> vstd::std_specs::convert::FromSpecImpl<Mask<i8, N>> for Mask<i64, N> {
    open spec fn obeys_from_spec() -> bool {
        true
    }

    open spec fn from_spec(value: Mask<i8, N>) -> Self {
        Mask::from_view(value@)
    }
}

impl<const N: usize> From<Mask<i8, N>> for Mask<isize, N> {
    /// The mask with the same lanes, stored as `isize`.
    fn from(value: Mask<i8, N>) -> (r: Self)
        ensures
            r@ == value@,
    {
        value.cast()
    }
}

impl<const N: usize> vstd::std_specs::convert::FromSpecImpl<Mask<i8, N>> for Mask<isize, N> {
    open spec fn obeys_from_spec() -> bool {
        true
    }

    open spec fn from_spec(value: Mask<i8, N>) -> Self {
        Mask::from_view(value@)
    }
}

impl<const N: usize> From<Mask<i16, N>> for Mask<i8, N> {
    /// The mask with the same lanes, stored as `i8`.
    fn from(value: Mask<i16, N>) -> (r: Self)
        ensures
            r@ == value@,
    {
        value.cast()
    }
}

impl<const N: usize> vstd::std_specs::convert::FromSpecImpl<Mask<i16, N>> for Mask<i8, N> {
    open spec fn obeys_from_spec() -> bool {
        true
    }

    open spec fn from_spec(value: Mask<i16, N>) -> Self {
        Mask::from_view(value@)
    }
}

impl<const N: usize> From<Mask<i16, N>> for Mask<i32, N> {
    /// The mask with the same lanes, stored as `i32`.
    fn from(value: Mask<i16, N>) -> (r: Self)
        ensures
            r@ == value@,
    {
        value.cast()
    }
}

impl<const N: usize> vstd::std_specs::convert::FromSpecImpl<Mask<i16, N>> for Mask<i32, N> {
    open spec fn obeys_from_spec() -> bool {
        true
    }

    open spec fn from_spec(value: Mask<i16, N>) -> Self {
        Mask::from_view(value@)
    }
}

impl<const N: usize> From<Mask<i16, N>> for Mask<i64, N> {
    /// The mask with the same lanes, stored as `i64`.
    fn from(value: Mask<i16, N>) -> (r: Self)
        ensures
            r@ == value@,
    {
        value.cast()
    }
}

impl<const N: usize> vstd::std_specs::convert::FromSpecImpl<Mask<i16, N>> for Mask<i64, N> {
    open spec fn obeys_from_spec() -> bool {
        true
    }

    open spec fn from_spec(value: Mask<i16, N>) -> Self {
        Mask::from_view(value@)
    }
}

impl<const N: usize> From<Mask<i16, N>> for Mask<isize, N> {
    /// The mask with the same lanes, stored as `isize`.
    fn from(value: Mask<i16, N>) -> (r: Self)
        ensures
            r@ == value@,
    {
        value.cast()
    }
}

impl<const N: usize> vstd::std_specs::convert::FromSpecImpl<Mask<i16, N>> for Mask<isize, N> {
    open spec fn obeys_from_spec() -> bool {
        true
    }

    open spec fn from_spec(value: Mask<i16, N>) -> Self {
        Mask::from_view(value@)
    }
}

impl<const N: usize> From<Mask<i32, N>> for Mask<i8, N> {
    /// The mask with the same lanes, stored as `i8`.
    fn from(value: Mask<i32, N>) -> (r: Self)
        ensures
            r@ == value@,
    {
        value.cast()
    }
}

impl<const N: usize> vstd::std_specs::convert::FromSpecImpl<Mask<i32, N>> for Mask<i8, N> {
    open spec fn obeys_from_spec() -> bool {
        true
    }

    open spec fn from_spec(value: Mask<i32, N>) -> Self {
        Mask::from_view(value@)
    }
}

impl<const N: usize> From<Mask<i32, N>> for Mask<i16, N> {
    /// The mask with the same lanes, stored as `i16`.
    fn from(value: Mask<i32, N>) -> (r: Self)
        ensures
            r@ == value@,
    {
        value.cast()
    }
}

impl<const N: usize> vstd::std_specs::convert::FromSpecImpl<Mask<i32, N>> for Mask<i16, N> {
    open spec fn obeys_from_spec() -> bool {
        true
    }

    open spec fn from_spec(value: Mask<i32, N>) -> Self {
        Mask::from_view(value@)
    }
}

impl<const N: usize> From<Mask<i32, N>> for Mask<i64, N> {
    /// The mask with the same lanes, stored as `i64`.
    fn from(value: Mask<i32, N>) -> (r: Self)
        ensures
            r@ == value@,
    {
        value.cast()
    }
}

impl<const N: usize> vstd::std_specs::convert::FromSpecImpl<Mask<i32, N>> for Mask<i64, N> {
    open spec fn obeys_from_spec() -> bool {
        true
    }

    open spec fn from_spec(value: Mask<i32, N>) -> Self {
        Mask::from_view(value@)
    }
}

impl<const N: usize> From<Mask<i32, N>> for Mask<isize, N> {
    /// The mask with the same lanes, stored as `isize`.
    fn from(value: Mask<i32, N>) -> (r: Self)
        ensures
            r@ == value@,
    {
        value.cast()
    }
}

impl<const N: usize> vstd::std_specs::convert::FromSpecImpl<Mask<i32, N>> for Mask<isize, N> {
    open spec fn obeys_from_spec() -> bool {
        true
    }

    open spec fn from_spec(value: Mask<i32, N>) -> Self {
        Mask::from_view(value@)
    }
}

impl<const N: usize> From<Mask<i64, N>> for Mask<i8, N> {
    /// The mask with the same lanes, stored as `i8`.
    fn from(value: Mask<i64, N>) -> (r: Self)
        ensures
            r@ == value@,
    {
        value.cast()
    }
}

impl<const N: usize> vstd::std_specs::convert::FromSpecImpl<Mask<i64, N>> for Mask<i8, N> {
    open spec fn obeys_from_spec() -> bool {
        true
    }

    open spec fn from_spec(value: Mask<i64, N>) -> Self {
        Mask::from_view(value@)
    }
}

impl<const N: usize> From<Mask<i64, N>> for Mask<i16, N> {
    /// The mask with the same lanes, stored as `i16`.
    fn from(value: Mask<i64, N>) -> (r: Self)
        ensures
            r@ == value@,
    {
        value.cast()
    }
}

impl<const N: usize> vstd::std_specs::convert::FromSpecImpl<Mask<i64, N>> for Mask<i16, N> {
    open spec fn obeys_from_spec() -> bool {
        true
    }

    open spec fn from_spec(value: Mask<i64, N>) -> Self {
        Mask::from_view(value@)
    }
}

impl<const N: usize> From<Mask<i64, N>> for Mask<i32, N> {
    /// The mask with the same lanes, stored as `i32`.
    fn from(value: Mask<i64, N>) -> (r: Self)
        ensures
            r@ == value@,
    {
        value.cast()
    }
}

impl<const N: usize> vstd::std_specs::convert::FromSpecImpl<Mask<i64, N>> for Mask<i32, N> {
    open spec fn obeys_from_spec() -> bool {
        true
    }

    open spec fn from_spec(value: Mask<i64, N>) -> Self {
        Mask::from_view(value@)
    }
}

impl<const N: usize> From<Mask<i64, N>> for Mask<isize, N> {
    /// The mask with the same lanes, stored as `isize`.
    fn from(value: Mask<i64, N>) -> (r: Self)
        ensures
            r@ == value@,
    {
        value.cast()
    }
}

impl<const N: usize> vstd::std_specs::convert::FromSpecImpl<Mask<i64, N>> for Mask<isize, N> {
    open spec fn obeys_from_spec() -> bool {
        true
    }

    open spec fn from_spec(value: Mask<i64, N>) -> Self {
        Mask::from_view(value@)
    }
}

impl<const N: usize> From<Mask<isize, N>> for Mask<i8, N> {
    /// The mask with the same lanes, stored as `i8`.
    fn from(value: Mask<isize, N>) -> (r: Self)
        ensures
            r@ == value@,
    {
        value.cast()
    }
}

impl<const N: usize> vstd::std_specs::convert::FromSpecImpl<Mask<isize, N>> for Mask<i8, N> {
    open spec fn obeys_from_spec() -> bool {
        true
    }

    open spec fn from_spec(value: Mask<isize, N>) -> Self {
        Mask::from_view(value@)
    }
}

impl<const N: usize> From<Mask<isize, N>> for Mask<i16, N> {
    /// The mask with the same lanes, stored as `i16`.
    fn from(value: Mask<isize, N>) -> (r: Self)
        ensures
            r@ == value@,
    {
        value.cast()
    }
}

impl<const N: usize> vstd::std_specs::convert::FromSpecImpl<Mask<isize, N>> for Mask<i16, N> {
    open spec fn obeys_from_spec() -> bool {
        true
    }

    open spec fn from_spec(value: Mask<isize, N>) -> Self {
        Mask::from_view(value@)
    }
}

impl<const N: usize> From<Mask<isize, N>> for Mask<i32, N> {
    /// The mask with the same lanes, stored as `i32`.
    fn from(value: Mask<isize, N>) -> (r: Self)
        ensures
            r@ == value@,
    {
        value.cast()
    }
}

impl<const N: usize> vstd::std_specs::convert::FromSpecImpl<Mask<isize, N>> for Mask<i32, N> {
    open spec fn obeys_from_spec() -> bool {
        true
    }

    open spec fn from_spec(value: Mask<isize, N>) -> Self {
        Mask::from_view(value@)
    }
}

impl<const N: usize> From<Mask<isize, N>> for Mask<i64, N> {
    /// The mask with the same lanes, stored as `i64`.
    fn from(value: Mask<isize, N>) -> (r: Self)
        ensures
            r@ == value@,
    {
        value.cast()
    }
}

impl<const N: usize> vstd::std_specs::convert::FromSpecImpl<Mask<isize, N>> for Mask<i64, N> {
    open spec fn obeys_from_spec() -> bool {
        true
    }

    open spec fn from_spec(value: Mask<isize, N>) -> Self {
        Mask::from_view(value@)
    }
}

} // verus!
