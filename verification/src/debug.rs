//! The text of a mask in debug form: its lanes as a list of booleans.
use vstd::prelude::*;
use vstd::string::StringExecFns;
use crate::element::MaskElement;
use crate::mask::Mask;

verus! {

/// The text of one boolean.
pub open spec fn bool_text(b: bool) -> Seq<char> {
    if b {
        seq!['t', 'r', 'u', 'e']
    } else {
        seq!['f', 'a', 'l', 's', 'e']
    }
}

/// The texts of the booleans of `v`, separated by `", "`.
pub open spec fn list_text(v: Seq<bool>) -> Seq<char>
    decreases v.len(),
{
    if v.len() == 0 {
        seq![]
    } else if v.len() == 1 {
        bool_text(v[0])
    } else {
        list_text(v.drop_last()) + seq![',', ' '] + bool_text(v.last())
    }
}

/// The list of booleans `v` in square brackets, as `[true, false]`.
pub open spec fn debug_text(v: Seq<bool>) -> Seq<char> {
    seq!['['] + list_text(v) + seq![']']
}

/// The text of a boolean is `true` or `false`.
pub proof fn law_bool_text(b: bool)
    ensures
        bool_text(true) == "true"@,
        bool_text(false) == "false"@,
{
    reveal_strlit("true");
    reveal_strlit("false");
    assert(bool_text(true) =~= "true"@);
    assert(bool_text(false) =~= "false"@);
}

/// The debug text lists the lanes in lane order: no lanes give `[]`, one lane
/// gives `[` its text `]`, and a lane added after the last one adds `, ` and
/// its text just before the closing `]`.
pub proof fn law_debug_text_lane_order(v: Seq<bool>, b: bool)
    ensures
        debug_text(Seq::<bool>::empty()) == "[]"@,
        debug_text(seq![b]) == "["@ + bool_text(b) + "]"@,
        v.len() > 0 ==> debug_text(v.push(b)) == debug_text(v).drop_last() + ", "@ + bool_text(b)
            + "]"@,
        v.len() > 0 ==> list_text(v.push(b)) == list_text(v) + ", "@ + bool_text(b),
{
    reveal_strlit("[]");
    reveal_strlit("[");
    reveal_strlit("]");
    reveal_strlit(", ");
    assert(debug_text(Seq::<bool>::empty()) =~= "[]"@);
    assert(seq![b].len() == 1);
    assert(debug_text(seq![b]) =~= "["@ + bool_text(b) + "]"@);
    if v.len() > 0 {
        let w = v.push(b);
        assert(w.drop_last() =~= v);
        assert(w.last() == b);
        assert(list_text(w) == list_text(v) + seq![',', ' '] + bool_text(b));
        assert(list_text(w) =~= list_text(v) + ", "@ + bool_text(b));
        assert(debug_text(v).drop_last() =~= seq!['['] + list_text(v));
        assert(debug_text(w) =~= debug_text(v).drop_last() + ", "@ + bool_text(b) + "]"@);
    }
}

impl<T: MaskElement, const N: usize> Mask<T, N> {
    /// The mask as a list of its elements, such as `[true, false]`.
    pub fn debug_string(&self) -> (s: String)
        ensures
            s@ == debug_text(self@),
    {
        proof {
            Self::lemma_view_len(*self);
            reveal_strlit("[");
            reveal_strlit("]");
        }
        let mut s = String::new();
        s.append("[");
        assert("["@ =~= seq!['[']);
        assert(self@.take(0) =~= Seq::<bool>::empty());
        let mut i: usize = 0;
        while i < N
            invariant
                0 <= i <= N,
                self@.len() == N,
                s@ == seq!['['] + list_text(self@.take(i as int)),
            decreases N - i,
        {
            if i > 0 {
                s.append(", ");
            }
            if self.test_unchecked(i) {
                s.append("true");
            } else {
                s.append("false");
            }
            proof {
                reveal_strlit(", ");
                reveal_strlit("true");
                reveal_strlit("false");
                let t = self@.take(i + 1);
                assert(t.drop_last() =~= self@.take(i as int));
                assert(t.last() == self@[i as int]);
                assert("true"@ =~= seq!['t', 'r', 'u', 'e']);
                assert("false"@ =~= seq!['f', 'a', 'l', 's', 'e']);
                assert(", "@ =~= seq![',', ' ']);
                if i == 0 {
                    assert(self@.take(0) =~= Seq::<bool>::empty());
                    assert(list_text(t) == bool_text(t[0]));
                    assert(s@ =~= seq!['['] + list_text(t));
                } else {
                    assert(list_text(t) == list_text(t.drop_last()) + seq![',', ' '] + bool_text(
                        t.last(),
                    ));
                    assert(s@ =~= seq!['['] + list_text(t));
                }
            }
            i = i + 1;
        }
        assert(self@.take(N as int) =~= self@);
        s.append("]");
        assert("]"@ =~= seq![']']);
        assert(s@ =~= debug_text(self@));
        s
    }
}

} // verus!
