//! A stable insertion sort over any type with a strict weak order.

use vstd::prelude::*;

verus! {

broadcast use vstd::seq_lib::group_to_multiset_ensures;

/// A strict weak order: `precedes` is asymmetric (so irreflexive) and
/// transitive, and whatever precedes one value precedes or follows any other.
pub trait StrictOrder: Sized {
    spec fn precedes(self, other: Self) -> bool;

    fn precedes_exec(&self, other: &Self) -> (r: bool)
        ensures
            r == self.precedes(*other),
    ;

    proof fn lemma_asymmetric(a: Self, b: Self)
        ensures
            a.precedes(b) ==> !b.precedes(a),
    ;

    proof fn lemma_transitive(a: Self, b: Self, c: Self)
        requires
            a.precedes(b),
            b.precedes(c),
        ensures
            a.precedes(c),
    ;

    proof fn lemma_weak(a: Self, b: Self, c: Self)
        requires
            a.precedes(c),
        ensures
            a.precedes(b) || b.precedes(c),
    ;
}

/// No element is preceded by one that stands after it.
pub open spec fn is_sorted<T: StrictOrder>(s: Seq<T>) -> bool {
    forall|i: int, j: int| 0 <= i < j < s.len() ==> !#[trigger] s[j].precedes(#[trigger] s[i])
}

/// `r` is `v` rearranged: `perm[k]` is the place in `v` of the `k`-th element
/// of `r`, no place is taken twice, and elements that are not in order by
/// `precedes` keep the order they had in `v`.
pub open spec fn is_stable_arrangement<T: StrictOrder>(v: Seq<T>, r: Seq<T>, perm: Seq<int>) -> bool {
    &&& perm.len() == r.len()
    &&& r.len() == v.len()
    &&& forall|k: int| 0 <= k < perm.len() ==> 0 <= #[trigger] perm[k] < v.len() && r[k] == v[perm[k]]
    &&& forall|k: int, l: int| 0 <= k < l < perm.len() ==> #[trigger] perm[k] != #[trigger] perm[l]
    &&& forall|k: int, l: int|
        0 <= k < l < r.len() && !(#[trigger] r[k]).precedes(#[trigger] r[l]) ==> perm[k] < perm[l]
}

/// Sorts `v`: the result holds the same elements and is sorted, and elements
/// that neither precedes keep their order.
pub fn sort_stable<T: StrictOrder>(v: Vec<T>) -> (r: Vec<T>)
    ensures
        r@.to_multiset() == v@.to_multiset(),
        is_sorted(r@),
        exists|perm: Seq<int>| #[trigger] is_stable_arrangement(v@, r@, perm),
{
    let ghost input = v@;
    let n = v.len();
    let mut rest = v;
    let mut r: Vec<T> = Vec::new();
    let ghost all = rest@.to_multiset();
    let ghost mut perm: Seq<int> = Seq::empty();
    let mut i: usize = 0;
    while rest.len() > 0
        invariant
            n == input.len(),
            i <= n,
            rest@ == input.subrange(i as int, n as int),
            all == input.to_multiset(),
            r@.to_multiset().add(rest@.to_multiset()) == all,
            is_sorted(r@),
            r@.len() == i,
            perm.len() == i,
            forall|k: int| 0 <= k < i ==> 0 <= #[trigger] perm[k] < i && r@[k] == input[perm[k]],
            forall|k: int, l: int| 0 <= k < l < i ==> #[trigger] perm[k] != #[trigger] perm[l],
            forall|k: int, l: int|
                0 <= k < l < i && !(#[trigger] r@[k]).precedes(#[trigger] r@[l]) ==> perm[k] < perm[l],
        decreases rest@.len(),
    {
        let ghost before_rest = rest@;
        let x = rest.remove(0);
        assert(rest@ == before_rest.remove(0));
        assert(x == input[i as int]);
        assert(rest@ =~= input.subrange(i + 1, n as int));
        proof {
            vstd::seq_lib::to_multiset_remove(before_rest, 0);
        }
        let m = r.len();
        let mut p: usize = 0;
        while p < m && !x.precedes_exec(&r[p])
            invariant
                m == r@.len(),
                p <= m,
                forall|k: int| 0 <= k < p ==> !x.precedes(#[trigger] r@[k]),
            decreases m - p,
        {
            p = p + 1;
        }
        let ghost before = r@;
        let ghost old_perm = perm;
        r.insert(p, x);
        proof {
            perm = old_perm.insert(p as int, i as int);
            vstd::seq_lib::to_multiset_insert(before, p as int, x);
            assert forall|i: int, j: int| 0 <= i < j < r@.len() implies !#[trigger] r@[j].precedes(
                #[trigger] r@[i],
            ) by {
                if i < p && j < p {
                    assert(r@[i] == before[i] && r@[j] == before[j]);
                } else if i < p && j == p {
                } else if i < p && j > p {
                    assert(r@[i] == before[i] && r@[j] == before[j - 1]);
                } else if i == p {
                    assert(r@[j] == before[j - 1]);
                    if before[j - 1].precedes(x) {
                        T::lemma_transitive(before[j - 1], x, before[p as int]);
                        if p < j - 1 {
                        } else {
                            T::lemma_asymmetric(before[p as int], before[p as int]);
                        }
                    }
                } else {
                    assert(r@[i] == before[i - 1] && r@[j] == before[j - 1]);
                }
            }
            assert forall|k: int| 0 <= k < i + 1 implies 0 <= #[trigger] perm[k] < i + 1 && r@[k]
                == input[perm[k]] by {
                if k < p {
                    assert(perm[k] == old_perm[k]);
                } else if k > p {
                    assert(perm[k] == old_perm[k - 1]);
                }
            }
            assert forall|k: int, l: int| 0 <= k < l < i + 1 implies #[trigger] perm[k]
                != #[trigger] perm[l] by {
                if k < p && l < p {
                } else if k < p && l == p {
                    assert(perm[k] == old_perm[k]);
                } else if k < p {
                    assert(perm[k] == old_perm[k] && perm[l] == old_perm[l - 1]);
                } else if k == p {
                    assert(perm[l] == old_perm[l - 1]);
                } else {
                    assert(perm[k] == old_perm[k - 1] && perm[l] == old_perm[l - 1]);
                }
            }
            assert forall|k: int, l: int|
                0 <= k < l < i + 1 && !(#[trigger] r@[k]).precedes(#[trigger] r@[l]) implies perm[k]
                < perm[l] by {
                if k < p && l < p {
                    assert(r@[k] == before[k] && r@[l] == before[l]);
                } else if k < p && l == p {
                    assert(perm[k] == old_perm[k]);
                } else if k < p {
                    assert(r@[k] == before[k] && r@[l] == before[l - 1]);
                    assert(perm[k] == old_perm[k] && perm[l] == old_perm[l - 1]);
                } else if k == p {
                    // `x` precedes every element from `p` on.
                    assert(r@[l] == before[l - 1]);
                    assert(x.precedes(before[p as int]));
                    if l - 1 > p {
                        T::lemma_weak(x, before[l - 1], before[p as int]);
                    }
                } else {
                    assert(r@[k] == before[k - 1] && r@[l] == before[l - 1]);
                    assert(perm[k] == old_perm[k - 1] && perm[l] == old_perm[l - 1]);
                }
            }
        }
        i = i + 1;
    }
    assert(is_stable_arrangement(input, r@, perm));
    r
}

/// Sequences with the same elements, counted, have the same length and
/// contain the same values.
pub proof fn lemma_same_elements<T>(a: Seq<T>, b: Seq<T>)
    requires
        a.to_multiset() == b.to_multiset(),
    ensures
        a.len() == b.len(),
        forall|x: T| a.contains(x) <==> b.contains(x),
{
    vstd::seq_lib::to_multiset_len(a);
    vstd::seq_lib::to_multiset_len(b);
    assert forall|x: T| a.contains(x) <==> b.contains(x) by {
        vstd::seq_lib::to_multiset_contains(a, x);
        vstd::seq_lib::to_multiset_contains(b, x);
    }
}

} // verus!
