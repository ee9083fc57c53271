//! Priority ordering of the task list.
//!
//! The display order is a stable sort by ascending priority rank. [`sort_spec`]
//! states that order exactly: the tasks of rank 0, in their original relative
//! order, followed by those of rank 1, followed by those of rank 2.

use vstd::prelude::*;
use crate::task::{rank, TaskView};

verus! {

/// The predicate holding of exactly the tasks whose priority has rank `r`.
pub open spec fn rank_pred(r: int) -> spec_fn(TaskView) -> bool {
    |t: TaskView| rank(t.priority) == r
}

/// The stable sort of `s` by ascending priority rank: each rank's tasks keep
/// their relative order, and lower ranks come first.
pub open spec fn sort_spec(s: Seq<TaskView>) -> Seq<TaskView> {
    s.filter(rank_pred(0)) + s.filter(rank_pred(1)) + s.filter(rank_pred(2))
}

/// Whether `s` is ordered by non-decreasing priority rank.
pub open spec fn sorted_by_rank(s: Seq<TaskView>) -> bool {
    forall|i: int, j: int|
        0 <= i < j < s.len() ==> rank(s[i].priority) <= rank(s[j].priority)
}

/// Filtering a sequence extended by one element keeps the old result and
/// appends the element exactly when it satisfies the predicate.
pub(crate) proof fn lemma_filter_push<A>(s: Seq<A>, x: A, pred: spec_fn(A) -> bool)
    ensures
        s.push(x).filter(pred) == (if pred(x) {
            s.filter(pred).push(x)
        } else {
            s.filter(pred)
        }),
{
    reveal_with_fuel(Seq::filter, 2);
    assert(s.push(x).drop_last() =~= s);
    assert(s.push(x).last() == x);
}

/// Filtering by a predicate that holds of every element returns the sequence
/// unchanged.
pub(crate) proof fn lemma_filter_all<A>(s: Seq<A>, pred: spec_fn(A) -> bool)
    requires
        forall|i: int| 0 <= i < s.len() ==> pred(#[trigger] s[i]),
    ensures
        s.filter(pred) == s,
    decreases s.len(),
{
    if s.len() == 0 {
        assert(s.filter(pred) =~= s);
    } else {
        let pre = s.drop_last();
        lemma_filter_all(pre, pred);
        lemma_filter_push(pre, s.last(), pred);
        assert(pre.push(s.last()) =~= s);
    }
}

/// Sorting never changes how many tasks there are.
pub proof fn lemma_sort_spec_len(s: Seq<TaskView>)
    ensures
        sort_spec(s).len() == s.len(),
    decreases s.len(),
{
    if s.len() == 0 {
        assert(s.filter(rank_pred(0)) =~= Seq::<TaskView>::empty());
        assert(s.filter(rank_pred(1)) =~= Seq::<TaskView>::empty());
        assert(s.filter(rank_pred(2)) =~= Seq::<TaskView>::empty());
    } else {
        let pre = s.drop_last();
        let x = s.last();
        lemma_sort_spec_len(pre);
        assert(pre.push(x) =~= s);
        lemma_filter_push(pre, x, rank_pred(0));
        lemma_filter_push(pre, x, rank_pred(1));
        lemma_filter_push(pre, x, rank_pred(2));
        assert(rank(x.priority) == 0 || rank(x.priority) == 1 || rank(x.priority) == 2);
    }
}

/// The sorted order is ordered by non-decreasing priority rank.
pub proof fn lemma_sort_spec_sorted(s: Seq<TaskView>)
    ensures
        sorted_by_rank(sort_spec(s)),
{
    broadcast use vstd::seq_lib::group_filter_ensures;

    let f0 = s.filter(rank_pred(0));
    let f1 = s.filter(rank_pred(1));
    let f2 = s.filter(rank_pred(2));
    let out = sort_spec(s);
    assert forall|k: int| 0 <= k < out.len() implies rank(out[k].priority) == (if k < f0.len() {
        0int
    } else if k < f0.len() + f1.len() {
        1int
    } else {
        2int
    }) by {
        if k < f0.len() {
            assert(out[k] == f0[k]);
        } else if k < f0.len() + f1.len() {
            assert(out[k] == f1[k - f0.len()]);
        } else {
            assert(out[k] == f2[k - f0.len() - f1.len()]);
        }
    }
}

/// The sort is stable: restricted to any one priority rank, the sorted order
/// holds exactly the tasks of that rank, in their original relative order.
pub proof fn lemma_sort_spec_stable(s: Seq<TaskView>, r: int)
    requires
        0 <= r <= 2,
    ensures
        sort_spec(s).filter(rank_pred(r)) == s.filter(rank_pred(r)),
{
    broadcast use vstd::seq_lib::group_filter_ensures;

    let p = rank_pred(r);
    let f0 = s.filter(rank_pred(0));
    let f1 = s.filter(rank_pred(1));
    let f2 = s.filter(rank_pred(2));
    Seq::filter_distributes_over_add(f0, f1, p);
    Seq::filter_distributes_over_add(f0 + f1, f2, p);
    if r == 0 {
        lemma_filter_all(f0, p);
        f1.lemma_all_neg_filter_empty(p);
        f2.lemma_all_neg_filter_empty(p);
        assert(sort_spec(s).filter(p) =~= f0);
    } else if r == 1 {
        lemma_filter_all(f1, p);
        f0.lemma_all_neg_filter_empty(p);
        f2.lemma_all_neg_filter_empty(p);
        assert(sort_spec(s).filter(p) =~= f1);
    } else {
        lemma_filter_all(f2, p);
        f0.lemma_all_neg_filter_empty(p);
        f1.lemma_all_neg_filter_empty(p);
        assert(sort_spec(s).filter(p) =~= f2);
    }
}

} // verus!
