//! A stable sort of a vector under an order that is chosen at run time.

use vstd::prelude::*;
use vstd::seq_lib::{to_multiset_insert, to_multiset_remove};
use crate::seq_facts::{lemma_filter_after_move, lemma_filter_all, lemma_filter_push};

verus! {

/// An order on the values of `T`: total and transitive, and decidable by
/// `in_order`. Two values of which each may stand before the other tie.
pub trait SortOrder<T> {
    /// `a` may stand before `b`.
    spec fn le(&self, a: &T, b: &T) -> bool;

    /// Decides whether `a` may stand before `b`.
    fn in_order(&self, a: &T, b: &T) -> (r: bool)
        ensures
            r == self.le(a, b),
    ;

    /// Of any two values one may stand before the other.
    proof fn lemma_total(&self, a: &T, b: &T)
        ensures
            self.le(a, b) || self.le(b, a),
    ;

    /// The order is transitive.
    proof fn lemma_transitive(&self, a: &T, b: &T, c: &T)
        requires
            self.le(a, b),
            self.le(b, c),
        ensures
            self.le(a, c),
    ;
}

/// Each of two values may stand before the other.
pub open spec fn ties<T, O: SortOrder<T>>(order: O, a: T, b: T) -> bool {
    order.le(&a, &b) && order.le(&b, &a)
}

/// Every value may stand before every value that follows it.
pub open spec fn sorted_by<T, O: SortOrder<T>>(s: Seq<T>, order: O) -> bool {
    forall|i: int, j: int| #![trigger s[i], s[j]] 0 <= i < j < s.len() ==> order.le(&s[i], &s[j])
}

/// The values of `s` that tie with `x`, in the order in which they stand.
pub open spec fn group_of<T, O: SortOrder<T>>(s: Seq<T>, order: O, x: T) -> Seq<T> {
    s.filter(|y: T| ties(order, x, y))
}

/// Two sequences hold, for every value, the same values that tie with it,
/// and in the same order: neither has gained, lost or exchanged tied values.
pub open spec fn same_groups<T, O: SortOrder<T>>(a: Seq<T>, b: Seq<T>, order: O) -> bool {
    forall|x: T| #[trigger] group_of(a, order, x) == group_of(b, order, x)
}

/// `sorted` is `s` in stable order: sorted, with the same values, and tied
/// values in the order they had in `s`.
pub open spec fn is_stable_sort_of<T, O: SortOrder<T>>(sorted: Seq<T>, s: Seq<T>, order: O) -> bool {
    &&& sorted_by(sorted, order)
    &&& same_groups(s, sorted, order)
    &&& sorted.to_multiset() == s.to_multiset()
}

/// Sorts a vector in place. Values that tie keep the order in which they
/// stood.
pub fn stable_sort<T, O: SortOrder<T> + Copy>(v: &mut Vec<T>, order: O)
    ensures
        is_stable_sort_of(final(v)@, old(v)@, order),
{
    let n: usize = v.len();
    let mut i: usize = 0;
    while i < n
        invariant
            v@.len() == n,
            0 <= i <= n,
            sorted_by(v@.take(i as int), order),
            same_groups(old(v)@, v@, order),
            v@.to_multiset() == old(v)@.to_multiset(),
        decreases n - i,
    {
        let mut j: usize = i;
        while j > 0 && !order.in_order(&v[j - 1], &v[i])
            invariant
                v@.len() == n,
                0 <= j <= i < n,
                forall|k: int| j <= k < i ==> !order.le(#[trigger] &v@[k], &v@[i as int]),
            decreases j,
        {
            j = j - 1;
        }
        let ghost before = v@;
        let ghost x = v@[i as int];
        if j < i {
            let moved = v.remove(i);
            v.insert(j, moved);
        }
        proof {
            let after = v@;
            let pre = after.take(i + 1);
            if j < i {
                assert(after == before.remove(i as int).insert(j as int, x));
                to_multiset_remove(before, i as int);
                to_multiset_insert(before.remove(i as int), j as int, x);
                before.to_multiset_ensures();
                assert(before.contains(x));
                assert(before.to_multiset().count(x) > 0);
                assert(after.to_multiset() =~= before.to_multiset());
                assert forall|y: T| #[trigger]
                    group_of(after, order, y) == group_of(before, order, y) by {
                    let pred = |z: T| ties(order, y, z);
                    if pred(x) {
                        assert forall|k: int| j <= k < i implies !pred(#[trigger] before[k]) by {
                            if pred(before[k]) {
                                order.lemma_transitive(&before[k], &y, &x);
                            }
                        }
                    }
                    lemma_filter_after_move(before, i as int, j as int, pred);
                }
                assert forall|a: int, b: int| #![trigger pre[a], pre[b]] 0 <= a < b < i + 1 implies order.le(
                    &pre[a],
                    &pre[b],
                ) by {
                    let old_at = |k: int|
                        if k < j {
                            k
                        } else {
                            k - 1
                        };
                    if a == j {
                        assert(after[a] == x);
                        assert(after[b] == before[b - 1]);
                        order.lemma_total(&before[b - 1], &x);
                    } else if b == j {
                        assert(after[b] == x);
                        assert(after[a] == before[a]);
                        assert(before.take(i as int)[a] == before[a]);
                        assert(before.take(i as int)[j - 1] == before[j - 1]);
                        if a < j - 1 {
                            order.lemma_transitive(&before[a], &before[j - 1], &x);
                        }
                    } else {
                        assert(after[a] == before[old_at(a)]);
                        assert(after[b] == before[old_at(b)]);
                        assert(before.take(i as int)[old_at(a)] == before[old_at(a)]);
                        assert(before.take(i as int)[old_at(b)] == before[old_at(b)]);
                    }
                }
            } else {
                assert forall|a: int, b: int| #![trigger pre[a], pre[b]] 0 <= a < b < i + 1 implies order.le(
                    &pre[a],
                    &pre[b],
                ) by {
                    if b == i {
                        assert(before.take(i as int)[a] == before[a]);
                        if i > 0 {
                            assert(before.take(i as int)[i - 1] == before[i - 1]);
                            if a < i - 1 {
                                order.lemma_transitive(&before[a], &before[i - 1], &x);
                            }
                        }
                    } else {
                        assert(before.take(i as int)[a] == before[a]);
                        assert(before.take(i as int)[b] == before[b]);
                    }
                }
            }
        }
        i = i + 1;
    }
    assert(v@.take(n as int) =~= v@);
}

/// The values that pass a test which, in this sequence, every value before
/// a passing value passes too, are the front of the sequence.
proof fn lemma_filter_is_front<T>(a: Seq<T>, pred: spec_fn(T) -> bool)
    requires
        forall|j: int, k: int| 0 <= j < k < a.len() && pred(#[trigger] a[k]) ==> pred(#[trigger] a[j]),
    ensures
        a.filter(pred) == a.take(a.filter(pred).len() as int),
        forall|k: int| a.filter(pred).len() <= k < a.len() ==> !pred(#[trigger] a[k]),
    decreases a.len(),
{
    if a.len() == 0 {
        assert(a.filter(pred) =~= Seq::<T>::empty()) by {
            reveal(Seq::filter);
        }
        assert(a.take(0) =~= Seq::<T>::empty());
    } else {
        let front = a.drop_last();
        let last = a.last();
        assert(front.push(last) =~= a);
        lemma_filter_push(front, last, pred);
        if pred(last) {
            assert forall|k: int| 0 <= k < a.len() implies pred(#[trigger] a[k]) by {
                if k < a.len() - 1 {
                    assert(pred(a[a.len() - 1]));
                }
            }
            lemma_filter_all(a, pred);
            assert(a.take(a.len() as int) =~= a);
        } else {
            assert forall|j: int, k: int|
                0 <= j < k < front.len() && pred(#[trigger] front[k]) implies pred(
                #[trigger] front[j],
            ) by {
                assert(front[k] == a[k]);
                assert(front[j] == a[j]);
            }
            lemma_filter_is_front(front, pred);
            let n = front.filter(pred).len() as int;
            front.lemma_filter_len(pred);
            assert(front.take(n) =~= a.take(n));
            assert forall|k: int| n <= k < a.len() implies !pred(#[trigger] a[k]) by {
                if k < front.len() {
                    assert(front[k] == a[k]);
                }
            }
        }
    }
}

/// The first value of a sorted sequence may stand before every value of a
/// sequence that holds the same tied values.
proof fn lemma_first_is_least<T, O: SortOrder<T>>(a: Seq<T>, b: Seq<T>, order: O, j: int)
    requires
        sorted_by(a, order),
        a.len() > 0,
        0 <= j < b.len(),
        group_of(a, order, b[j]) == group_of(b, order, b[j]),
    ensures
        order.le(&a[0], &b[j]),
{
    let x = a[0];
    let y = b[j];
    let tied = |z: T| ties(order, y, z);
    order.lemma_total(&y, &y);
    assert(tied(b[j]));
    b.lemma_filter_contains(tied, j);
    assert(b.filter(tied).len() > 0);
    assert(a.filter(tied).len() > 0);
    let w = a.filter(tied)[0];
    a.lemma_filter_pred(tied, 0);
    assert(tied(w));
    lemma_filter_member(a, tied, 0);
    let p = choose|p: int| 0 <= p < a.len() && a[p] == w;
    if p > 0 {
        assert(order.le(&a[0], &a[p]));
        order.lemma_transitive(&x, &w, &y);
    }
}

/// The values of a sorted sequence behind its first `g` are sorted.
proof fn lemma_rest_is_sorted<T, O: SortOrder<T>>(a: Seq<T>, order: O, g: int)
    requires
        sorted_by(a, order),
        0 <= g <= a.len(),
    ensures
        sorted_by(a.skip(g), order),
{
    let rest = a.skip(g);
    assert forall|i: int, j: int| #![trigger rest[i], rest[j]] 0 <= i < j < rest.len() implies order.le(
        &rest[i],
        &rest[j],
    ) by {
        assert(rest[i] == a[i + g] && rest[j] == a[j + g]);
    }
}

/// Two sequences with one front that hold the same values tied with `y`
/// hold the same behind the front.
proof fn lemma_rest_group<T, O: SortOrder<T>>(a: Seq<T>, b: Seq<T>, order: O, g: int, y: T)
    requires
        0 <= g <= a.len(),
        g <= b.len(),
        a.take(g) == b.take(g),
        group_of(a, order, y) == group_of(b, order, y),
    ensures
        group_of(a.skip(g), order, y) == group_of(b.skip(g), order, y),
{
    let tied = |z: T| ties(order, y, z);
    assert(a =~= a.take(g) + a.skip(g));
    assert(b =~= b.take(g) + b.skip(g));
    Seq::filter_distributes_over_add(a.take(g), a.skip(g), tied);
    Seq::filter_distributes_over_add(b.take(g), b.skip(g), tied);
    lemma_same_front(a.take(g).filter(tied), a.skip(g).filter(tied), b.skip(g).filter(tied));
}

/// Two sorted sequences with a first value in common, of which every value
/// of either may stand behind it, begin with the same values where they hold
/// the same values tied with it; and the fronts are not empty.
proof fn lemma_same_first_group<T, O: SortOrder<T>>(a: Seq<T>, b: Seq<T>, order: O) -> (g: int)
    requires
        sorted_by(a, order),
        sorted_by(b, order),
        a.len() > 0,
        group_of(a, order, a[0]) == group_of(b, order, a[0]),
        forall|j: int| 0 <= j < b.len() ==> order.le(&a[0], #[trigger] &b[j]),
    ensures
        1 <= g <= a.len(),
        g <= b.len(),
        a.take(g) == b.take(g),
{
    let x = a[0];
    let pred = |y: T| ties(order, x, y);
    order.lemma_total(&x, &x);
    assert forall|j: int, k: int| 0 <= j < k < a.len() && pred(#[trigger] a[k]) implies pred(
        #[trigger] a[j],
    ) by {
        if j > 0 {
            assert(order.le(&a[0], &a[j]));
            assert(order.le(&a[j], &a[k]));
            order.lemma_transitive(&a[j], &a[k], &x);
        }
    }
    lemma_filter_is_front(a, pred);
    assert(pred(a[0]));
    a.lemma_filter_contains(pred, 0);
    a.lemma_filter_len(pred);
    b.lemma_filter_len(pred);
    assert forall|j: int, k: int| 0 <= j < k < b.len() && pred(#[trigger] b[k]) implies pred(
        #[trigger] b[j],
    ) by {
        assert(order.le(&b[j], &b[k]));
        order.lemma_transitive(&b[j], &b[k], &x);
    }
    lemma_filter_is_front(b, pred);
    a.filter(pred).len() as int
}

/// Two sorted sequences of one length that hold, for every value, the same
/// tied values in the same order are the same sequence.
proof fn lemma_sorted_with_same_groups<T, O: SortOrder<T>>(a: Seq<T>, b: Seq<T>, order: O)
    requires
        sorted_by(a, order),
        sorted_by(b, order),
        same_groups(a, b, order),
        a.len() == b.len(),
    ensures
        a == b,
    decreases a.len(),
{
    if a.len() == 0 {
        assert(a =~= b);
    } else {
        assert forall|j: int| 0 <= j < b.len() implies order.le(&a[0], #[trigger] &b[j]) by {
            assert(group_of(a, order, b[j]) == group_of(b, order, b[j]));
            lemma_first_is_least(a, b, order, j);
        }
        assert(group_of(a, order, a[0]) == group_of(b, order, a[0]));
        let g = lemma_same_first_group(a, b, order);
        let rest_a = a.skip(g);
        let rest_b = b.skip(g);
        lemma_rest_is_sorted(a, order, g);
        lemma_rest_is_sorted(b, order, g);
        assert forall|y: T| #[trigger] group_of(rest_a, order, y) == group_of(rest_b, order, y) by {
            assert(group_of(a, order, y) == group_of(b, order, y));
            lemma_rest_group(a, b, order, g, y);
        }
        lemma_sorted_with_same_groups(rest_a, rest_b, order);
        assert(a =~= a.take(g) + rest_a);
        assert(b =~= b.take(g) + rest_b);
    }
}

/// Each value of a filtered sequence is a value of the sequence.
proof fn lemma_filter_member<T>(a: Seq<T>, pred: spec_fn(T) -> bool, i: int)
    requires
        0 <= i < a.filter(pred).len(),
    ensures
        a.contains(a.filter(pred)[i]),
    decreases a.len(),
{
    reveal(Seq::filter);
    if a.len() > 0 {
        let front = a.drop_last();
        if pred(a.last()) && i == front.filter(pred).len() {
            assert(a[a.len() - 1] == a.filter(pred)[i]);
        } else {
            lemma_filter_member(front, pred, i);
            let w = front.filter(pred)[i];
            let p = choose|p: int| 0 <= p < front.len() && front[p] == w;
            assert(a[p] == w);
        }
    }
}

/// Two sequences that continue one front to the same whole are the same.
proof fn lemma_same_front<T>(front: Seq<T>, x: Seq<T>, y: Seq<T>)
    requires
        front + x == front + y,
    ensures
        x == y,
{
    assert((front + x).len() == front.len() + x.len());
    assert((front + y).len() == front.len() + y.len());
    assert forall|i: int| 0 <= i < x.len() implies x[i] == y[i] by {
        assert((front + x)[front.len() + i] == x[i]);
        assert((front + y)[front.len() + i] == y[i]);
    }
    assert(x =~= y);
}

/// The stable order of a sequence is unique: two sequences that are both
/// `s` in stable order are the same.
pub proof fn lemma_stable_sort_is_unique<T, O: SortOrder<T>>(
    a: Seq<T>,
    b: Seq<T>,
    s: Seq<T>,
    order: O,
)
    requires
        is_stable_sort_of(a, s, order),
        is_stable_sort_of(b, s, order),
    ensures
        a == b,
        a.len() == s.len(),
{
    a.to_multiset_ensures();
    b.to_multiset_ensures();
    s.to_multiset_ensures();
    assert forall|x: T| #[trigger] group_of(a, order, x) == group_of(b, order, x) by {
        assert(group_of(s, order, x) == group_of(a, order, x));
        assert(group_of(s, order, x) == group_of(b, order, x));
    }
    lemma_sorted_with_same_groups(a, b, order);
}

} // verus!
