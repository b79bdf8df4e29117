//! The lexicographic order on lane sequences that orders masks.
use vstd::prelude::*;

verus! {

/// `a` comes before `b`: at the first lane where they differ, `a` is true and
/// `b` is false (a true lane is stored as `-1`, which is less than `0`).
pub open spec fn lex_less(a: Seq<bool>, b: Seq<bool>) -> bool {
    exists|i: int|
        #![trigger a[i], b[i]]
        {
            &&& 0 <= i < a.len()
            &&& i < b.len()
            &&& a[i]
            &&& !b[i]
            &&& forall|j: int| 0 <= j < i ==> a[j] == b[j]
        }
}

/// The first lane where two sequences differ decides which comes first.
pub proof fn lemma_first_difference_decides_at(a: Seq<bool>, b: Seq<bool>, k: int)
    requires
        a.len() == b.len(),
        0 <= k < a.len(),
        a[k] != b[k],
        forall|j: int| 0 <= j < k ==> #[trigger] a[j] == b[j],
    ensures
        lex_less(a, b) == a[k],
        lex_less(b, a) == b[k],
{
    if a[k] {
        assert(lex_less(a, b));
    } else {
        assert(lex_less(b, a));
    }
    assert(!a[k] ==> !lex_less(a, b)) by {
        if !a[k] && lex_less(a, b) {
            let w = choose|w: int|
                #![trigger a[w], b[w]]
                {
                    &&& 0 <= w < a.len()
                    &&& w < b.len()
                    &&& a[w]
                    &&& !b[w]
                    &&& forall|j: int| 0 <= j < w ==> a[j] == b[j]
                };
            if w < k {
                assert(a[w] == b[w]);
            } else if k < w {
                assert(a[k] == b[k]);
            }
        }
    }
    assert(!b[k] ==> !lex_less(b, a)) by {
        if !b[k] && lex_less(b, a) {
            let w = choose|w: int|
                #![trigger b[w], a[w]]
                {
                    &&& 0 <= w < b.len()
                    &&& w < a.len()
                    &&& b[w]
                    &&& !a[w]
                    &&& forall|j: int| 0 <= j < w ==> b[j] == a[j]
                };
            if w < k {
                assert(a[w] == b[w]);
            } else if k < w {
                assert(a[k] == b[k]);
            }
        }
    }
}

/// The first lane where two sequences differ decides which comes first.
pub proof fn lemma_first_difference_decides(a: Seq<bool>, b: Seq<bool>, i: usize)
    requires
        a.len() == b.len(),
        i < a.len(),
        a[i as int] != b[i as int],
        forall|j: int| 0 <= j < i ==> #[trigger] a[j] == b[j],
    ensures
        lex_less(a, b) == a[i as int],
        lex_less(b, a) == b[i as int],
{
    lemma_first_difference_decides_at(a, b, i as int);
}

/// The first lanes of `a` and `b`, below `k`, agree, or a first lane below `k`
/// where they differ exists.
proof fn lemma_first_difference_exists(a: Seq<bool>, b: Seq<bool>, k: int)
    requires
        a.len() == b.len(),
        0 <= k <= a.len(),
    ensures
        (forall|j: int| 0 <= j < k ==> a[j] == b[j]) || exists|i: int|
            #![trigger a[i], b[i]]
            0 <= i < k && a[i] != b[i] && forall|j: int| 0 <= j < i ==> a[j] == b[j],
    decreases k,
{
    if k > 0 {
        lemma_first_difference_exists(a, b, k - 1);
        if forall|j: int| 0 <= j < k - 1 ==> a[j] == b[j] {
            if a[k - 1] != b[k - 1] {
                assert(0 <= k - 1 < k && a[k - 1] != b[k - 1]);
            }
        }
    }
}

/// No sequence comes before itself, and of two sequences at most one comes
/// before the other.
pub proof fn law_lex_asymmetric(a: Seq<bool>, b: Seq<bool>)
    ensures
        !lex_less(a, a),
        !(lex_less(a, b) && lex_less(b, a)),
{
    if lex_less(a, b) && lex_less(b, a) {
        let w = choose|w: int|
            #![trigger a[w], b[w]]
            {
                &&& 0 <= w < a.len()
                &&& w < b.len()
                &&& a[w]
                &&& !b[w]
                &&& forall|j: int| 0 <= j < w ==> a[j] == b[j]
            };
        let v = choose|v: int|
            #![trigger b[v], a[v]]
            {
                &&& 0 <= v < b.len()
                &&& v < a.len()
                &&& b[v]
                &&& !a[v]
                &&& forall|j: int| 0 <= j < v ==> b[j] == a[j]
            };
        if w < v {
            assert(b[w] == a[w]);
        } else if v < w {
            assert(a[v] == b[v]);
        }
    }
}

/// If `a` comes before `b` and `b` before `c`, then `a` comes before `c`.
pub proof fn law_lex_transitive(a: Seq<bool>, b: Seq<bool>, c: Seq<bool>)
    requires
        lex_less(a, b),
        lex_less(b, c),
    ensures
        lex_less(a, c),
{
    let w = choose|w: int|
        #![trigger a[w], b[w]]
        {
            &&& 0 <= w < a.len()
            &&& w < b.len()
            &&& a[w]
            &&& !b[w]
            &&& forall|j: int| 0 <= j < w ==> a[j] == b[j]
        };
    let v = choose|v: int|
        #![trigger b[v], c[v]]
        {
            &&& 0 <= v < b.len()
            &&& v < c.len()
            &&& b[v]
            &&& !c[v]
            &&& forall|j: int| 0 <= j < v ==> b[j] == c[j]
        };
    if w < v {
        assert(b[w] == c[w]);
        assert(a[w] && !c[w]);
    } else {
        assert(v != w);
        assert(a[v] == b[v]);
        assert(a[v] && !c[v]);
    }
}

/// Of two different sequences of the same length, one comes before the other.
pub proof fn law_lex_total(a: Seq<bool>, b: Seq<bool>)
    requires
        a.len() == b.len(),
        a != b,
    ensures
        lex_less(a, b) || lex_less(b, a),
{
    lemma_first_difference_exists(a, b, a.len() as int);
    if forall|j: int| 0 <= j < a.len() ==> a[j] == b[j] {
        assert(a =~= b);
    }
    let i = choose|i: int|
        #![trigger a[i], b[i]]
        0 <= i < a.len() && a[i] != b[i] && forall|j: int| 0 <= j < i ==> a[j] == b[j];
    if a[i] {
        assert(lex_less(a, b));
    } else {
        assert(lex_less(b, a));
    }
}

} // verus!
