//! Facts about filtered sequences that the modules share.

use vstd::prelude::*;

verus! {

/// Filtering a sequence of which no value passes leaves nothing.
pub proof fn lemma_filter_none<T>(s: Seq<T>, pred: spec_fn(T) -> bool)
    requires
        forall|k: int| 0 <= k < s.len() ==> !pred(#[trigger] s[k]),
    ensures
        s.filter(pred) == Seq::<T>::empty(),
    decreases s.len(),
{
    reveal(Seq::filter);
    if s.len() > 0 {
        let front = s.drop_last();
        assert forall|k: int| 0 <= k < front.len() implies !pred(#[trigger] front[k]) by {
            assert(front[k] == s[k]);
        }
        lemma_filter_none(front, pred);
    }
}

/// Filtering a sequence of which every value passes leaves it whole.
pub proof fn lemma_filter_all<T>(s: Seq<T>, pred: spec_fn(T) -> bool)
    requires
        forall|k: int| 0 <= k < s.len() ==> pred(#[trigger] s[k]),
    ensures
        s.filter(pred) == s,
    decreases s.len(),
{
    reveal(Seq::filter);
    if s.len() > 0 {
        let front = s.drop_last();
        assert forall|k: int| 0 <= k < front.len() implies pred(#[trigger] front[k]) by {
            assert(front[k] == s[k]);
        }
        lemma_filter_all(front, pred);
        assert(front.push(s.last()) =~= s);
    } else {
        assert(s =~= Seq::<T>::empty());
    }
}

/// Filtering a sequence of one value leaves the value if it passes.
pub proof fn lemma_filter_one<T>(x: T, pred: spec_fn(T) -> bool)
    ensures
        seq![x].filter(pred) == if pred(x) {
            seq![x]
        } else {
            Seq::<T>::empty()
        },
{
    reveal(Seq::filter);
    let s = seq![x];
    assert(s.drop_last() =~= Seq::<T>::empty());
    assert(s.drop_last().filter(pred) =~= Seq::<T>::empty());
    if pred(x) {
        assert(s.filter(pred) =~= seq![x]);
    }
}

/// Filtering a sequence with one more value at its end: the value is
/// appended to the filtered sequence if it passes.
pub proof fn lemma_filter_push<T>(s: Seq<T>, x: T, pred: spec_fn(T) -> bool)
    ensures
        s.push(x).filter(pred) == if pred(x) {
            s.filter(pred).push(x)
        } else {
            s.filter(pred)
        },
{
    reveal(Seq::filter);
    assert(s.push(x).drop_last() =~= s);
}

/// The first `i + 1` values are the first `i` and the one at `i`.
pub proof fn lemma_take_next<T>(s: Seq<T>, i: int)
    requires
        0 <= i < s.len(),
    ensures
        s.take(i + 1) == s.take(i).push(s[i]),
{
    assert(s.take(i + 1) =~= s.take(i).push(s[i]));
}

/// Moving the value at `i` down to `j` changes none of the filtered
/// sequences to which the value does not belong, and none of those to which
/// no value that it passes belongs.
pub proof fn lemma_filter_after_move<T>(s: Seq<T>, i: int, j: int, pred: spec_fn(T) -> bool)
    requires
        0 <= j <= i < s.len(),
        pred(s[i]) ==> forall|k: int| j <= k < i ==> !pred(#[trigger] s[k]),
    ensures
        s.remove(i).insert(j, s[i]).filter(pred) == s.filter(pred),
{
    let x = s[i];
    let a = s.subrange(0, j);
    let b = s.subrange(j, i);
    let c = s.subrange(i + 1, s.len() as int);
    let moved = s.remove(i).insert(j, x);
    assert(s =~= a + b + seq![x] + c);
    assert(moved =~= a + seq![x] + b + c);
    Seq::filter_distributes_over_add(a + b + seq![x], c, pred);
    Seq::filter_distributes_over_add(a + b, seq![x], pred);
    Seq::filter_distributes_over_add(a, b, pred);
    Seq::filter_distributes_over_add(a + seq![x] + b, c, pred);
    Seq::filter_distributes_over_add(a + seq![x], b, pred);
    Seq::filter_distributes_over_add(a, seq![x], pred);
    lemma_filter_one(x, pred);
    if pred(x) {
        assert forall|k: int| 0 <= k < b.len() implies !pred(#[trigger] b[k]) by {
            assert(b[k] == s[j + k]);
        }
        lemma_filter_none(b, pred);
        assert(a.filter(pred) + b.filter(pred) + seq![x] + c.filter(pred) =~= a.filter(pred)
            + seq![x] + b.filter(pred) + c.filter(pred));
    } else {
        assert(a.filter(pred) + b.filter(pred) + Seq::<T>::empty() + c.filter(pred) =~= a.filter(
            pred,
        ) + Seq::<T>::empty() + b.filter(pred) + c.filter(pred));
    }
}

} // verus!
