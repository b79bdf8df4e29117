//! The order of masks: lane by lane from the first lane, where a true lane
//! (stored as `-1`) comes before a false lane (stored as `0`).
use vstd::prelude::*;
use core::cmp::Ordering;
use crate::element::{MaskElement, mask_int};
use crate::mask::Mask;
use crate::lex::{
    law_lex_asymmetric, law_lex_total, law_lex_transitive, lemma_first_difference_decides,
    lemma_first_difference_decides_at, lex_less,
};
use vstd::std_specs::cmp::PartialOrdSpec;

verus! {

impl<T: MaskElement, const N: usize> PartialOrd for Mask<T, N> {
    /// Compares the masks as their integer lanes compare, from the first lane.
    fn partial_cmp(&self, other: &Self) -> (r: Option<Ordering>) {
        match self.first_difference(other) {
            None => Some(Ordering::Equal),
            Some(i) => {
                proof {
                    Mask::<T, N>::lemma_view_len(*self);
                    Mask::<T, N>::lemma_view_len(*other);
                    lemma_first_difference_decides(self@, other@, i);
                }
                if self.test_unchecked(i) {
                    Some(Ordering::Less)
                } else {
                    Some(Ordering::Greater)
                }
            },
        }
    }
}

impl<T: MaskElement, const N: usize> vstd::std_specs::cmp::PartialOrdSpecImpl for Mask<T, N> {
    open spec fn obeys_partial_cmp_spec() -> bool {
        true
    }

    open spec fn partial_cmp_spec(&self, other: &Self) -> Option<Ordering> {
        if self@ == other@ {
            Some(Ordering::Equal)
        } else if lex_less(self@, other@) {
            Some(Ordering::Less)
        } else {
            Some(Ordering::Greater)
        }
    }
}

/// Any two masks compare: the order of masks is total, `Equal` exactly when
/// every lane agrees, and swapping the operands reverses the answer.
pub proof fn law_partial_cmp_total<T: MaskElement, const N: usize>(a: Mask<T, N>, b: Mask<T, N>)
    ensures
        a.partial_cmp_spec(&b) is Some,
        (a.partial_cmp_spec(&b) == Some(Ordering::Equal)) == (a@ == b@),
        (a.partial_cmp_spec(&b) == Some(Ordering::Less)) == (b.partial_cmp_spec(&a) == Some(
            Ordering::Greater,
        )),
{
    Mask::<T, N>::lemma_view_len(a);
    Mask::<T, N>::lemma_view_len(b);
    law_lex_asymmetric(a@, b@);
    if a@ != b@ {
        law_lex_total(a@, b@);
    }
}

/// If `a < b` and `b < c` then `a < c`.
pub proof fn law_partial_cmp_transitive<T: MaskElement, const N: usize>(
    a: Mask<T, N>,
    b: Mask<T, N>,
    c: Mask<T, N>,
)
    requires
        a.partial_cmp_spec(&b) == Some(Ordering::Less),
        b.partial_cmp_spec(&c) == Some(Ordering::Less),
    ensures
        a.partial_cmp_spec(&c) == Some(Ordering::Less),
{
    law_lex_transitive(a@, b@, c@);
    law_lex_asymmetric(a@, c@);
    if a@ == c@ {
        law_lex_asymmetric(a@, b@);
    }
}

/// Masks compare as their integer lanes (`-1` for true, `0` for false) do,
/// from lane 0: at the first lane `i` where `a` and `b` differ, `a < b`
/// exactly when the integer lane of `a` is less than that of `b`, and `a > b`
/// exactly when it is greater.
pub proof fn law_partial_cmp_first_difference<T: MaskElement, const N: usize>(
    a: Mask<T, N>,
    b: Mask<T, N>,
    i: int,
)
    requires
        0 <= i < N,
        forall|j: int| 0 <= j < i ==> a@[j] == b@[j],
        a@[i] != b@[i],
    ensures
        (a.partial_cmp_spec(&b) == Some(Ordering::Less)) == (mask_int(a@[i]) < mask_int(b@[i])),
        (a.partial_cmp_spec(&b) == Some(Ordering::Greater)) == (mask_int(a@[i]) > mask_int(
            b@[i],
        )),
        (b.partial_cmp_spec(&a) == Some(Ordering::Less)) == (mask_int(b@[i]) < mask_int(a@[i])),
{
    Mask::<T, N>::lemma_view_len(a);
    Mask::<T, N>::lemma_view_len(b);
    assert forall|j: int| 0 <= j < i implies #[trigger] a@[j] == b@[j] by {
    }
    lemma_first_difference_decides_at(a@, b@, i);
    assert(a@ != b@) by {
        if a@ == b@ {
            assert(a@[i] == b@[i]);
        }
    }
}

/// Two masks compare `Equal` exactly when every lane of one equals the same
/// lane of the other.
pub proof fn law_partial_cmp_equal<T: MaskElement, const N: usize>(a: Mask<T, N>, b: Mask<T, N>)
    ensures
        (a.partial_cmp_spec(&b) == Some(Ordering::Equal)) == (forall|j: int|
            0 <= j < N ==> #[trigger] a@[j] == b@[j]),
{
    Mask::<T, N>::lemma_view_len(a);
    Mask::<T, N>::lemma_view_len(b);
    if forall|j: int| 0 <= j < N ==> #[trigger] a@[j] == b@[j] {
        assert(a@ =~= b@);
    }
    law_lex_asymmetric(a@, b@);
}

} // verus!
