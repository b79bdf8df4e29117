//! Lane-wise logical operators on masks.
use vstd::prelude::*;
use crate::element::MaskElement;
use crate::mask::Mask;

verus! {

/// Lane-wise AND of two boolean sequences.
pub open spec fn seq_and(a: Seq<bool>, b: Seq<bool>) -> Seq<bool> {
    Seq::new(a.len(), |i: int| a[i] && b[i])
}

/// Lane-wise OR of two boolean sequences.
pub open spec fn seq_or(a: Seq<bool>, b: Seq<bool>) -> Seq<bool> {
    Seq::new(a.len(), |i: int| a[i] || b[i])
}

/// Lane-wise XOR of two boolean sequences.
pub open spec fn seq_xor(a: Seq<bool>, b: Seq<bool>) -> Seq<bool> {
    Seq::new(a.len(), |i: int| a[i] != b[i])
}

/// Lane-wise NOT of a boolean sequence.
pub open spec fn seq_not(a: Seq<bool>) -> Seq<bool> {
    Seq::new(a.len(), |i: int| !a[i])
}

/// The operators act on each lane alone: lane `i` of `a & b`, `a | b`,
/// `a ^ b` and `!a` is the AND, OR, XOR and NOT of lane `i` of the operands,
/// and the result has as many lanes as the operands.
pub proof fn law_lanewise(a: Seq<bool>, b: Seq<bool>, i: int)
    requires
        a.len() == b.len(),
        0 <= i < a.len(),
    ensures
        seq_and(a, b).len() == a.len() && seq_and(a, b)[i] == (a[i] && b[i]),
        seq_or(a, b).len() == a.len() && seq_or(a, b)[i] == (a[i] || b[i]),
        seq_xor(a, b).len() == a.len() && seq_xor(a, b)[i] == (a[i] != b[i]),
        seq_not(a).len() == a.len() && seq_not(a)[i] == !a[i],
{
}

/// NOT undoes itself: `!!m == m`.
pub proof fn law_not_involutive(a: Seq<bool>)
    ensures
        seq_not(seq_not(a)) == a,
{
    assert(seq_not(seq_not(a)) =~= a);
}

/// AND, OR and XOR of masks do not depend on the order of the operands.
pub proof fn law_commutative(a: Seq<bool>, b: Seq<bool>)
    requires
        a.len() == b.len(),
    ensures
        seq_and(a, b) == seq_and(b, a),
        seq_or(a, b) == seq_or(b, a),
        seq_xor(a, b) == seq_xor(b, a),
{
    assert(seq_and(a, b) =~= seq_and(b, a));
    assert(seq_or(a, b) =~= seq_or(b, a));
    assert(seq_xor(a, b) =~= seq_xor(b, a));
}

/// AND, OR and XOR of masks may be grouped either way.
pub proof fn law_associative(a: Seq<bool>, b: Seq<bool>, c: Seq<bool>)
    requires
        a.len() == b.len(),
        b.len() == c.len(),
    ensures
        seq_and(seq_and(a, b), c) == seq_and(a, seq_and(b, c)),
        seq_or(seq_or(a, b), c) == seq_or(a, seq_or(b, c)),
        seq_xor(seq_xor(a, b), c) == seq_xor(a, seq_xor(b, c)),
{
    assert(seq_and(seq_and(a, b), c) =~= seq_and(a, seq_and(b, c)));
    assert(seq_or(seq_or(a, b), c) =~= seq_or(a, seq_or(b, c)));
    assert(seq_xor(seq_xor(a, b), c) =~= seq_xor(a, seq_xor(b, c)));
}

/// De Morgan: `!(a & b) == !a | !b` and `!(a | b) == !a & !b`.
pub proof fn law_de_morgan(a: Seq<bool>, b: Seq<bool>)
    requires
        a.len() == b.len(),
    ensures
        seq_not(seq_and(a, b)) == seq_or(seq_not(a), seq_not(b)),
        seq_not(seq_or(a, b)) == seq_and(seq_not(a), seq_not(b)),
{
    assert(seq_not(seq_and(a, b)) =~= seq_or(seq_not(a), seq_not(b)));
    assert(seq_not(seq_or(a, b)) =~= seq_and(seq_not(a), seq_not(b)));
}

/// A mask combined with itself: `a & a == a`, `a | a == a`, `a ^ a` is all
/// false, `a & !a` is all false and `a | !a` is all true.
pub proof fn law_self(a: Seq<bool>)
    ensures
        seq_and(a, a) == a,
        seq_or(a, a) == a,
        seq_xor(a, a) == Seq::new(a.len(), |_i: int| false),
        seq_and(a, seq_not(a)) == Seq::new(a.len(), |_i: int| false),
        seq_or(a, seq_not(a)) == Seq::new(a.len(), |_i: int| true),
{
    assert(seq_and(a, a) =~= a);
    assert(seq_or(a, a) =~= a);
    assert(seq_xor(a, a) =~= Seq::new(a.len(), |_i: int| false));
    assert(seq_and(a, seq_not(a)) =~= Seq::new(a.len(), |_i: int| false));
    assert(seq_or(a, seq_not(a)) =~= Seq::new(a.len(), |_i: int| true));
}

/// A mask combined with a boolean: `a & true == a`, `a & false` is all
/// false, `a | false == a`, `a | true` is all true, `a ^ false == a` and
/// `a ^ true == !a`.
pub proof fn law_with_bool(a: Seq<bool>)
    ensures
        seq_and(a, Seq::new(a.len(), |_i: int| true)) == a,
        seq_and(a, Seq::new(a.len(), |_i: int| false)) == Seq::new(a.len(), |_i: int| false),
        seq_or(a, Seq::new(a.len(), |_i: int| false)) == a,
        seq_or(a, Seq::new(a.len(), |_i: int| true)) == Seq::new(a.len(), |_i: int| true),
        seq_xor(a, Seq::new(a.len(), |_i: int| false)) == a,
        seq_xor(a, Seq::new(a.len(), |_i: int| true)) == seq_not(a),
{
    assert(seq_and(a, Seq::new(a.len(), |_i: int| true)) =~= a);
    assert(seq_and(a, Seq::new(a.len(), |_i: int| false)) =~= Seq::new(a.len(), |_i: int| false));
    assert(seq_or(a, Seq::new(a.len(), |_i: int| false)) =~= a);
    assert(seq_or(a, Seq::new(a.len(), |_i: int| true)) =~= Seq::new(a.len(), |_i: int| true));
    assert(seq_xor(a, Seq::new(a.len(), |_i: int| false)) =~= a);
    assert(seq_xor(a, Seq::new(a.len(), |_i: int| true)) =~= seq_not(a));
}

/// XOR undoes itself: `(a ^ b) ^ b == a`.
pub proof fn law_xor_cancels(a: Seq<bool>, b: Seq<bool>)
    requires
        a.len() == b.len(),
    ensures
        seq_xor(seq_xor(a, b), b) == a,
{
    assert(seq_xor(seq_xor(a, b), b) =~= a);
}

/// Every lane of `!m` is set exactly when no lane of `m` is set: `(!m).all()`
/// is `!m.any()`, and `(!m).any()` is `!m.all()`.
pub proof fn law_all_any_dual(a: Seq<bool>)
    ensures
        (forall|i: int| 0 <= i < a.len() ==> #[trigger] seq_not(a)[i]) == !(exists|i: int|
            0 <= i < a.len() && #[trigger] a[i]),
        (exists|i: int| 0 <= i < a.len() && #[trigger] seq_not(a)[i]) == !(forall|i: int|
            0 <= i < a.len() ==> #[trigger] a[i]),
{
    if forall|i: int| 0 <= i < a.len() ==> #[trigger] seq_not(a)[i] {
        assert forall|i: int| 0 <= i < a.len() implies !a[i] by {
            assert(seq_not(a)[i]);
        }
    }
    if exists|i: int| 0 <= i < a.len() && #[trigger] seq_not(a)[i] {
        let i = choose|i: int| 0 <= i < a.len() && #[trigger] seq_not(a)[i];
        assert(!a[i]);
    }
    if !(forall|i: int| 0 <= i < a.len() ==> #[trigger] a[i]) {
        let i = choose|i: int| !(0 <= i < a.len() ==> #[trigger] a[i]);
        assert(seq_not(a)[i]);
    }
}

impl<T: MaskElement, const N: usize> core::ops::BitAnd for Mask<T, N> {
    type Output = Self;

    /// Lane-wise AND of two masks.
    fn bitand(self, rhs: Self) -> (r: Self)
        ensures
            r@ == seq_and(self@, rhs@),
    {
        self.and_lanes(rhs)
    }
}

impl<T: MaskElement, const N: usize> vstd::std_specs::ops::BitAndSpecImpl for Mask<T, N> {
    open spec fn obeys_bitand_spec() -> bool {
        true
    }

    open spec fn bitand_req(self, rhs: Self) -> bool {
        true
    }

    open spec fn bitand_spec(self, rhs: Self) -> Self {
        Mask::from_view(seq_and(self@, rhs@))
    }
}

impl<T: MaskElement, const N: usize> core::ops::BitAnd<bool> for Mask<T, N> {
    type Output = Self;

    /// Lane-wise AND of a mask with the same boolean in every lane.
    fn bitand(self, rhs: bool) -> (r: Self)
        ensures
            r@ == seq_and(self@, Seq::new(N as nat, |_i: int| rhs)),
    {
        self & Self::splat(rhs)
    }
}

impl<T: MaskElement, const N: usize> vstd::std_specs::ops::BitAndSpecImpl<bool> for Mask<T, N> {
    open spec fn obeys_bitand_spec() -> bool {
        true
    }

    open spec fn bitand_req(self, rhs: bool) -> bool {
        true
    }

    open spec fn bitand_spec(self, rhs: bool) -> Self {
        Mask::from_view(seq_and(self@, Seq::new(N as nat, |_i: int| rhs)))
    }
}

impl<T: MaskElement, const N: usize> core::ops::BitAnd<Mask<T, N>> for bool {
    type Output = Mask<T, N>;

    /// Lane-wise AND of the same boolean in every lane with a mask.
    fn bitand(self, rhs: Mask<T, N>) -> (r: Mask<T, N>)
        ensures
            r@ == seq_and(Seq::new(N as nat, |_i: int| self), rhs@),
    {
        Mask::splat(self) & rhs
    }
}

impl<T: MaskElement, const N: usize> vstd::std_specs::ops::BitAndSpecImpl<Mask<T, N>> for bool {
    open spec fn obeys_bitand_spec() -> bool {
        true
    }

    open spec fn bitand_req(self, rhs: Mask<T, N>) -> bool {
        true
    }

    open spec fn bitand_spec(self, rhs: Mask<T, N>) -> Mask<T, N> {
        Mask::from_view(seq_and(Seq::new(N as nat, |_i: int| self), rhs@))
    }
}

impl<T: MaskElement, const N: usize> core::ops::BitAndAssign for Mask<T, N> {
    /// Replaces the mask by its lane-wise AND with `rhs`.
    fn bitand_assign(&mut self, rhs: Self)
        ensures
            final(self)@ == seq_and(old(self)@, rhs@),
    {
        *self = *self & rhs;
    }
}

impl<T: MaskElement, const N: usize> core::ops::BitAndAssign<bool> for Mask<T, N> {
    /// Replaces the mask by its lane-wise AND with `rhs` in every lane.
    fn bitand_assign(&mut self, rhs: bool)
        ensures
            final(self)@ == seq_and(old(self)@, Seq::new(N as nat, |_i: int| rhs)),
    {
        *self = *self & Self::splat(rhs);
    }
}

impl<T: MaskElement, const N: usize> core::ops::BitOr for Mask<T, N> {
    type Output = Self;

    /// Lane-wise OR of two masks.
    fn bitor(self, rhs: Self) -> (r: Self)
        ensures
            r@ == seq_or(self@, rhs@),
    {
        self.or_lanes(rhs)
    }
}

impl<T: MaskElement, const N: usize> vstd::std_specs::ops::BitOrSpecImpl for Mask<T, N> {
    open spec fn obeys_bitor_spec() -> bool {
        true
    }

    open spec fn bitor_req(self, rhs: Self) -> bool {
        true
    }

    open spec fn bitor_spec(self, rhs: Self) -> Self {
        Mask::from_view(seq_or(self@, rhs@))
    }
}

impl<T: MaskElement, const N: usize> core::ops::BitOr<bool> for Mask<T, N> {
    type Output = Self;

    /// Lane-wise OR of a mask with the same boolean in every lane.
    fn bitor(self, rhs: bool) -> (r: Self)
        ensures
            r@ == seq_or(self@, Seq::new(N as nat, |_i: int| rhs)),
    {
        self | Self::splat(rhs)
    }
}

impl<T: MaskElement, const N: usize> vstd::std_specs::ops::BitOrSpecImpl<bool> for Mask<T, N> {
    open spec fn obeys_bitor_spec() -> bool {
        true
    }

    open spec fn bitor_req(self, rhs: bool) -> bool {
        true
    }

    open spec fn bitor_spec(self, rhs: bool) -> Self {
        Mask::from_view(seq_or(self@, Seq::new(N as nat, |_i: int| rhs)))
    }
}

impl<T: MaskElement, const N: usize> core::ops::BitOr<Mask<T, N>> for bool {
    type Output = Mask<T, N>;

    /// Lane-wise OR of the same boolean in every lane with a mask.
    fn bitor(self, rhs: Mask<T, N>) -> (r: Mask<T, N>)
        ensures
            r@ == seq_or(Seq::new(N as nat, |_i: int| self), rhs@),
    {
        Mask::splat(self) | rhs
    }
}

impl<T: MaskElement, const N: usize> vstd::std_specs::ops::BitOrSpecImpl<Mask<T, N>> for bool {
    open spec fn obeys_bitor_spec() -> bool {
        true
    }

    open spec fn bitor_req(self, rhs: Mask<T, N>) -> bool {
        true
    }

    open spec fn bitor_spec(self, rhs: Mask<T, N>) -> Mask<T, N> {
        Mask::from_view(seq_or(Seq::new(N as nat, |_i: int| self), rhs@))
    }
}

impl<T: MaskElement, const N: usize> core::ops::BitOrAssign for Mask<T, N> {
    /// Replaces the mask by its lane-wise OR with `rhs`.
    fn bitor_assign(&mut self, rhs: Self)
        ensures
            final(self)@ == seq_or(old(self)@, rhs@),
    {
        *self = *self | rhs;
    }
}

impl<T: MaskElement, const N: usize> core::ops::BitOrAssign<bool> for Mask<T, N> {
    /// Replaces the mask by its lane-wise OR with `rhs` in every lane.
    fn bitor_assign(&mut self, rhs: bool)
        ensures
            final(self)@ == seq_or(old(self)@, Seq::new(N as nat, |_i: int| rhs)),
    {
        *self = *self | Self::splat(rhs);
    }
}

impl<T: MaskElement, const N: usize> core::ops::BitXor for Mask<T, N> {
    type Output = Self;

    /// Lane-wise XOR of two masks.
    fn bitxor(self, rhs: Self) -> (r: Self)
        ensures
            r@ == seq_xor(self@, rhs@),
    {
        self.xor_lanes(rhs)
    }
}

impl<T: MaskElement, const N: usize> vstd::std_specs::ops::BitXorSpecImpl for Mask<T, N> {
    open spec fn obeys_bitxor_spec() -> bool {
        true
    }

    open spec fn bitxor_req(self, rhs: Self) -> bool {
        true
    }

    open spec fn bitxor_spec(self, rhs: Self) -> Self {
        Mask::from_view(seq_xor(self@, rhs@))
    }
}

impl<T: MaskElement, const N: usize> core::ops::BitXor<bool> for Mask<T, N> {
    type Output = Self;

    /// Lane-wise XOR of a mask with the same boolean in every lane.
    fn bitxor(self, rhs: bool) -> (r: Self)
        ensures
            r@ == seq_xor(self@, Seq::new(N as nat, |_i: int| rhs)),
    {
        self ^ Self::splat(rhs)
    }
}

impl<T: MaskElement, const N: usize> vstd::std_specs::ops::BitXorSpecImpl<bool> for Mask<T, N> {
    open spec fn obeys_bitxor_spec() -> bool {
        true
    }

    open spec fn bitxor_req(self, rhs: bool) -> bool {
        true
    }

    open spec fn bitxor_spec(self, rhs: bool) -> Self {
        Mask::from_view(seq_xor(self@, Seq::new(N as nat, |_i: int| rhs)))
    }
}

impl<T: MaskElement, const N: usize> core::ops::BitXor<Mask<T, N>> for bool {
    type Output = Mask<T, N>;

    /// Lane-wise XOR of the same boolean in every lane with a mask.
    fn bitxor(self, rhs: Mask<T, N>) -> (r: Mask<T, N>)
        ensures
            r@ == seq_xor(Seq::new(N as nat, |_i: int| self), rhs@),
    {
        Mask::splat(self) ^ rhs
    }
}

impl<T: MaskElement, const N: usize> vstd::std_specs::ops::BitXorSpecImpl<Mask<T, N>> for bool {
    open spec fn obeys_bitxor_spec() -> bool {
        true
    }

    open spec fn bitxor_req(self, rhs: Mask<T, N>) -> bool {
        true
    }

    open spec fn bitxor_spec(self, rhs: Mask<T, N>) -> Mask<T, N> {
        Mask::from_view(seq_xor(Seq::new(N as nat, |_i: int| self), rhs@))
    }
}

impl<T: MaskElement, const N: usize> core::ops::BitXorAssign for Mask<T, N> {
    /// Replaces the mask by its lane-wise XOR with `rhs`.
    fn bitxor_assign(&mut self, rhs: Self)
        ensures
            final(self)@ == seq_xor(old(self)@, rhs@),
    {
        *self = *self ^ rhs;
    }
}

impl<T: MaskElement, const N: usize> core::ops::BitXorAssign<bool> for Mask<T, N> {
    /// Replaces the mask by its lane-wise XOR with `rhs` in every lane.
    fn bitxor_assign(&mut self, rhs: bool)
        ensures
            final(self)@ == seq_xor(old(self)@, Seq::new(N as nat, |_i: int| rhs)),
    {
        *self = *self ^ Self::splat(rhs);
    }
}

impl<T: MaskElement, const N: usize> core::ops::Not for Mask<T, N> {
    type Output = Self;

    /// Lane-wise NOT of a mask.
    fn not(self) -> (r: Self)
        ensures
            r@ == seq_not(self@),
    {
        self.not_lanes()
    }
}

impl<T: MaskElement, const N: usize> vstd::std_specs::ops::NotSpecImpl for Mask<T, N> {
    open spec fn obeys_not_spec() -> bool {
        true
    }

    open spec fn not_req(self) -> bool {
        true
    }

    open spec fn not_spec(self) -> Self {
        Mask::from_view(seq_not(self@))
    }
}

} // verus!
