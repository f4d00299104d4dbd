//! Ordering machinery shared by every collection of the document: a binary
//! "sorts no later than" relation, an insertion sort pinned to a spec-level
//! twin, and the laws that make the sort a stable fixed point.

use vstd::prelude::*;

verus! {

/// A type whose collections the crate brings into a canonical order.
///
/// `le_spec` is the pairwise "sorts no later than" relation. For name-keyed
/// collections it is a total order; for the form collections it is the
/// local dependency comparator, which need not be total.
pub trait Sortable: Sized {
    /// The relation the sort establishes between neighbouring elements.
    spec fn le_spec(self, other: Self) -> bool;

    /// Decides `le_spec`.
    fn le(&self, other: &Self) -> (r: bool)
        ensures
            r == self.le_spec(*other),
    ;
}

/// `x` inserted into `s` after every trailing element that refuses to sort
/// before it: the single step of the insertion sort.
pub open spec fn insert_le<T: Sortable>(s: Seq<T>, x: T) -> Seq<T>
    decreases s.len(),
{
    if s.len() == 0 {
        seq![x]
    } else if s.last().le_spec(x) {
        s.push(x)
    } else {
        insert_le(s.drop_last(), x).push(s.last())
    }
}

/// The canonical order of `s`: an insertion sort, processed left to right.
pub open spec fn sort_le<T: Sortable>(s: Seq<T>) -> Seq<T>
    decreases s.len(),
{
    if s.len() == 0 {
        s
    } else {
        insert_le(sort_le(s.drop_last()), s.last())
    }
}

/// Every neighbouring pair is ordered.
pub open spec fn adjacent_le<T: Sortable>(s: Seq<T>) -> bool {
    forall|i: int| 0 <= i < s.len() - 1 ==> #[trigger] s[i].le_spec(s[i + 1])
}

/// Any two elements of `s` are ordered one way or the other. Name keys give
/// this for free; the dependency comparator gives it exactly when no two
/// elements require each other mutually.
pub open spec fn connected_in<T: Sortable>(s: Seq<T>) -> bool {
    forall|i: int, j: int|
        0 <= i < s.len() && 0 <= j < s.len() ==> (#[trigger] s[i].le_spec(s[j])
            || s[j].le_spec(s[i]))
}

proof fn lemma_insert_le_props<T: Sortable>(s: Seq<T>, x: T)
    ensures
        insert_le(s, x).len() == s.len() + 1,
        forall|y: T| #[trigger] insert_le(s, x).contains(y) <==> (s.contains(y) || y == x),
    decreases s.len(),
{
    if s.len() == 0 {
        assert forall|y: T| insert_le(s, x).contains(y) implies (s.contains(y) || y == x) by {
            assert(insert_le(s, x) == seq![x]);
        }
        assert(insert_le(s, x)[0] == x);
        assert(insert_le(s, x).contains(x));
    } else if s.last().le_spec(x) {
        assert forall|y: T| #[trigger] insert_le(s, x).contains(y) implies (s.contains(y) || y
            == x) by {
            let i = choose|i: int| 0 <= i < insert_le(s, x).len() && insert_le(s, x)[i] == y;
            if i < s.len() {
                assert(s[i] == y);
            }
        }
        assert forall|y: T| (s.contains(y) || y == x) implies insert_le(s, x).contains(y) by {
            if s.contains(y) {
                let i = choose|i: int| 0 <= i < s.len() && s[i] == y;
                assert(insert_le(s, x)[i] == y);
            } else {
                assert(insert_le(s, x).last() == x);
            }
        }
    } else {
        lemma_insert_le_props(s.drop_last(), x);
        let inner = insert_le(s.drop_last(), x);
        assert forall|y: T| #[trigger] insert_le(s, x).contains(y) implies (s.contains(y) || y
            == x) by {
            let i = choose|i: int| 0 <= i < insert_le(s, x).len() && insert_le(s, x)[i] == y;
            if i < inner.len() {
                assert(inner[i] == y);
                assert(inner.contains(y));
                if s.drop_last().contains(y) {
                    let j = choose|j: int| 0 <= j < s.drop_last().len() && s.drop_last()[j] == y;
                    assert(s[j] == y);
                }
            } else {
                assert(insert_le(s, x)[i] == s.last());
                assert(s[s.len() - 1] == y);
            }
        }
        assert forall|y: T| (s.contains(y) || y == x) implies insert_le(s, x).contains(y) by {
            if y == x || s.drop_last().contains(y) {
                assert(inner.contains(y));
                let i = choose|i: int| 0 <= i < inner.len() && inner[i] == y;
                assert(insert_le(s, x)[i] == y);
            } else {
                let i = choose|i: int| 0 <= i < s.len() && s[i] == y;
                if i < s.len() - 1 {
                    assert(s.drop_last()[i] == y);
                } else {
                    assert(insert_le(s, x).last() == y);
                }
            }
        }
    }
}

proof fn lemma_sort_le_props<T: Sortable>(s: Seq<T>)
    ensures
        sort_le(s).len() == s.len(),
        forall|y: T| #[trigger] sort_le(s).contains(y) <==> s.contains(y),
    decreases s.len(),
{
    if s.len() == 0 {
    } else {
        lemma_sort_le_props(s.drop_last());
        lemma_insert_le_props(sort_le(s.drop_last()), s.last());
        assert forall|y: T| #[trigger] sort_le(s).contains(y) implies s.contains(y) by {
            if s.drop_last().contains(y) {
                let j = choose|j: int| 0 <= j < s.drop_last().len() && s.drop_last()[j] == y;
                assert(s[j] == y);
            } else {
                assert(y == s.last());
                assert(s[s.len() - 1] == y);
            }
        }
        assert forall|y: T| s.contains(y) implies #[trigger] sort_le(s).contains(y) by {
            let i = choose|i: int| 0 <= i < s.len() && s[i] == y;
            if i < s.len() - 1 {
                assert(s.drop_last()[i] == y);
            }
        }
    }
}

proof fn lemma_insert_le_adjacent<T: Sortable>(s: Seq<T>, x: T)
    requires
        adjacent_le(s),
        forall|i: int| 0 <= i < s.len() ==> (#[trigger] s[i].le_spec(x) || x.le_spec(s[i])),
    ensures
        adjacent_le(insert_le(s, x)),
    decreases s.len(),
{
    if s.len() == 0 {
    } else if s.last().le_spec(x) {
        let r = insert_le(s, x);
        assert forall|i: int| 0 <= i < r.len() - 1 implies #[trigger] r[i].le_spec(r[i + 1]) by {
            if i < s.len() - 1 {
                assert(s[i].le_spec(s[i + 1]));
            } else {
                assert(r[i] == s.last());
                assert(r[i + 1] == x);
            }
        }
    } else {
        assert(adjacent_le(s.drop_last())) by {
            assert forall|i: int| 0 <= i < s.drop_last().len() - 1 implies #[trigger] s.drop_last(
            )[i].le_spec(s.drop_last()[i + 1]) by {
                assert(s[i].le_spec(s[i + 1]));
            }
        }
        lemma_insert_le_adjacent(s.drop_last(), x);
        lemma_insert_le_props(s.drop_last(), x);
        let inner = insert_le(s.drop_last(), x);
        let r = insert_le(s, x);
        // the element sitting last in the inserted prefix still sorts before
        // the displaced last element of s
        assert(x.le_spec(s.last()));
        assert forall|i: int| 0 <= i < r.len() - 1 implies #[trigger] r[i].le_spec(r[i + 1]) by {
            if i < inner.len() - 1 {
                assert(r[i] == inner[i]);
                assert(r[i + 1] == inner[i + 1]);
                assert(inner[i].le_spec(inner[i + 1]));
            } else {
                assert(r[i] == inner.last());
                assert(r[i + 1] == s.last());
                assert(inner.contains(inner.last()));
                if inner.last() == x {
                } else {
                    assert(s.drop_last().contains(inner.last()));
                    let j = choose|j: int|
                        0 <= j < s.drop_last().len() && s.drop_last()[j] == inner.last();
                    if inner.len() >= 2 {
                        // inner's last is either x or the old last of the
                        // shortened sequence; in the latter case adjacency of
                        // s carries the pair over
                        assert(s[j] == inner.last());
                        lemma_insert_le_last(s.drop_last(), x);
                        assert(inner.last() == x || inner.last() == s.drop_last().last());
                        let k = s.len() - 2;
                        assert(0 <= k < s.len() - 1);
                        assert(s[k].le_spec(s[k + 1]));
                        assert(s.drop_last().last() == s[k]);
                        assert(s.last() == s[k + 1]);
                    } else {
                        assert(inner.last() == x);
                    }
                }
            }
        }
    }
}

proof fn lemma_insert_le_last<T: Sortable>(s: Seq<T>, x: T)
    ensures
        insert_le(s, x).last() == x || (s.len() > 0 && insert_le(s, x).last() == s.last()),
    decreases s.len(),
{
}

/// A sorted collection has every neighbouring pair ordered, provided its
/// elements are pairwise comparable.
pub proof fn lemma_sort_le_adjacent<T: Sortable>(s: Seq<T>)
    requires
        connected_in(s),
    ensures
        adjacent_le(sort_le(s)),
    decreases s.len(),
{
    if s.len() == 0 {
    } else {
        assert(connected_in(s.drop_last())) by {
            assert forall|i: int, j: int|
                0 <= i < s.drop_last().len() && 0 <= j < s.drop_last().len() implies (
            #[trigger] s.drop_last()[i].le_spec(s.drop_last()[j]) || s.drop_last()[j].le_spec(
                s.drop_last()[i])) by {
                assert(s[i].le_spec(s[j]) || s[j].le_spec(s[i]));
            }
        }
        lemma_sort_le_adjacent(s.drop_last());
        lemma_sort_le_props(s.drop_last());
        let inner = sort_le(s.drop_last());
        assert forall|i: int| 0 <= i < inner.len() implies (#[trigger] inner[i].le_spec(s.last())
            || s.last().le_spec(inner[i])) by {
            assert(inner.contains(inner[i]));
            assert(s.drop_last().contains(inner[i]));
            let j = choose|j: int| 0 <= j < s.drop_last().len() && s.drop_last()[j] == inner[i];
            assert(s[j].le_spec(s[s.len() - 1]) || s[s.len() - 1].le_spec(s[j]));
        }
        lemma_insert_le_adjacent(inner, s.last());
    }
}

/// Sorting a collection whose neighbouring pairs are already ordered
/// changes nothing.
pub proof fn lemma_sort_le_fixed<T: Sortable>(s: Seq<T>)
    requires
        adjacent_le(s),
    ensures
        sort_le(s) == s,
    decreases s.len(),
{
    if s.len() == 0 {
    } else {
        assert(adjacent_le(s.drop_last())) by {
            assert forall|i: int| 0 <= i < s.drop_last().len() - 1 implies #[trigger] s.drop_last(
            )[i].le_spec(s.drop_last()[i + 1]) by {
                assert(s[i].le_spec(s[i + 1]));
            }
        }
        lemma_sort_le_fixed(s.drop_last());
        if s.len() == 1 {
            assert(s.drop_last().len() == 0);
            assert(sort_le(s) == insert_le(s.drop_last(), s.last()));
            assert(insert_le(s.drop_last(), s.last()) =~= seq![s.last()]);
            assert(seq![s.last()] =~= s);
        } else {
            let i = s.len() - 2;
            assert(0 <= i < s.len() - 1);
            assert(s[i].le_spec(s[i + 1]));
            assert(s.drop_last().last() == s[i]);
            assert(s.last() == s[i + 1]);
            assert(s.drop_last().last().le_spec(s.last()));
            assert(sort_le(s) == s.drop_last().push(s.last()));
            assert(s.drop_last().push(s.last()) =~= s);
        }
    }
}

/// Sorting is idempotent on any collection whose elements are pairwise
/// comparable: the canonical order is a stable fixed point.
pub proof fn lemma_sort_le_idempotent<T: Sortable>(s: Seq<T>)
    requires
        connected_in(s),
    ensures
        sort_le(sort_le(s)) == sort_le(s),
{
    lemma_sort_le_adjacent(s);
    lemma_sort_le_fixed(sort_le(s));
}

proof fn lemma_insert_le_at<T: Sortable>(s: Seq<T>, x: T, j: int)
    requires
        0 <= j <= s.len(),
        forall|k: int| j <= k < s.len() ==> !(#[trigger] s[k].le_spec(x)),
        j > 0 ==> s[j - 1].le_spec(x),
    ensures
        insert_le(s, x) == s.take(j) + seq![x] + s.skip(j),
    decreases s.len(),
{
    if s.len() == 0 {
        assert(insert_le(s, x) =~= s.take(j) + seq![x] + s.skip(j));
    } else if j == s.len() {
        assert(s.last().le_spec(x));
        assert(s.take(j) =~= s);
        assert(s.skip(j) =~= Seq::<T>::empty());
        assert(insert_le(s, x) =~= s.take(j) + seq![x] + s.skip(j));
    } else {
        assert(!s.last().le_spec(x));
        lemma_insert_le_at(s.drop_last(), x, j);
        assert(s.drop_last().take(j) =~= s.take(j));
        assert(s.drop_last().skip(j) =~= s.skip(j).drop_last());
        assert(insert_le(s, x) =~= (s.take(j) + seq![x] + s.skip(j).drop_last()).push(s.last()));
        assert((s.take(j) + seq![x] + s.skip(j).drop_last()).push(s.last()) =~= s.take(j)
            + seq![x] + s.skip(j));
    }
}

/// Brings `v` into the canonical order of its element type.
pub fn sort<T: Sortable>(v: &mut Vec<T>)
    ensures
        final(v)@ == sort_le(old(v)@),
{
    let ghost orig = v@;
    let n = v.len();
    if n == 0 {
        assert(sort_le(orig) == orig);
        return ;
    }
    let mut i: usize = 1;
    assert(orig.take(1) =~= sort_le(orig.take(1))) by {
        let t = orig.take(1);
        assert(t.len() == 1);
        assert(t.drop_last().len() == 0);
        assert(sort_le(t.drop_last()) == t.drop_last());
        assert(sort_le(t) == insert_le(t.drop_last(), t.last()));
        assert(insert_le(t.drop_last(), t.last()) =~= seq![t.last()]);
        assert(seq![t.last()] =~= t);
    }
    assert(v@ =~= orig.take(1) + orig.skip(1));
    while i < n
        invariant
            1 <= i <= n,
            n == orig.len(),
            v@.len() == n,
            v@ =~= sort_le(orig.take(i as int)) + orig.skip(i as int),
        decreases n - i,
    {
        let ghost pre = v@;
        let ghost sorted_part = sort_le(orig.take(i as int));
        proof {
            lemma_sort_le_props(orig.take(i as int));
            assert(sorted_part.len() == i);
        }
        let mut j: usize = i;
        while j > 0 && !(v[j - 1].le(&v[i]))
            invariant
                0 <= j <= i < n,
                v@ == pre,
                v@.len() == n,
                sorted_part.len() == i,
                v@ =~= sorted_part + orig.skip(i as int),
                forall|k: int| j <= k < i ==> !(#[trigger] v@[k].le_spec(v@[i as int])),
            decreases j,
        {
            j = j - 1;
        }
        let ghost x = v@[i as int];
        proof {
            assert(x == orig.skip(i as int)[0]);
            assert(x == orig[i as int]);
            assert forall|k: int| j <= k < i implies !(#[trigger] sorted_part[k].le_spec(x)) by {
                assert(v@[k] == sorted_part[k]);
            }
            if j > 0 {
                assert(v@[j - 1].le_spec(x));
                assert(sorted_part[j - 1].le_spec(x));
            }
            lemma_insert_le_at(sorted_part, x, j as int);
        }
        let x_val = v.remove(i);
        v.insert(j, x_val);
        proof {
            assert(orig.take(i + 1).drop_last() =~= orig.take(i as int));
            assert(orig.take(i + 1).last() == orig[i as int]);
            assert(sort_le(orig.take(i + 1)) == insert_le(sorted_part, x));
            assert(pre.remove(i as int) =~= sorted_part.take(j as int) + sorted_part.skip(
                j as int) + orig.skip(i + 1));
            assert(v@ =~= sorted_part.take(j as int) + seq![x] + sorted_part.skip(j as int)
                + orig.skip(i + 1));
            assert(insert_le(sorted_part, x) == sorted_part.take(j as int) + seq![x]
                + sorted_part.skip(j as int));
            assert(v@ =~= sort_le(orig.take(i + 1)) + orig.skip(i + 1));
        }
        i = i + 1;
    }
    assert(orig.take(n as int) =~= orig);
    assert(orig.skip(n as int) =~= Seq::<T>::empty());
    assert(v@ =~= sort_le(orig));
}

} // verus!
