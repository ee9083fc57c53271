//! The search filter: case-insensitive substring matching of titles.

use vstd::prelude::*;
use vstd::string::StrSliceExecFns;
use crate::order::lemma_filter_all;
use crate::task::TaskView;
use crate::text::{contains_substring, has_substring, lower_of, to_lowercase_string};

verus! {

/// Whether a title matches a search query: every title matches the empty
/// query, and otherwise the lowercased query must occur in the lowercased
/// title.
pub open spec fn matches_query(title: Seq<char>, q: Seq<char>) -> bool {
    q.len() == 0 || has_substring(lower_of(title), lower_of(q))
}

/// The predicate holding of exactly the tasks whose title matches `q`.
pub open spec fn query_pred(q: Seq<char>) -> spec_fn(TaskView) -> bool {
    |t: TaskView| matches_query(t.title, q)
}

/// Decides whether `title` matches the query `q`.
pub fn title_matches(title: &str, q: &str) -> (r: bool)
    ensures
        r == matches_query(title@, q@),
{
    if q.unicode_len() == 0 {
        true
    } else {
        let lt = to_lowercase_string(title);
        let lq = to_lowercase_string(q);
        contains_substring(lt.as_str(), lq.as_str())
    }
}

/// Filtering with the empty query keeps every task, in order.
pub proof fn lemma_empty_query_keeps_all(s: Seq<TaskView>)
    ensures
        s.filter(query_pred(Seq::<char>::empty())) == s,
{
    lemma_filter_all(s, query_pred(Seq::<char>::empty()));
}

/// Filtering with a query that no title matches keeps nothing.
pub proof fn lemma_no_match_keeps_none(s: Seq<TaskView>, q: Seq<char>)
    requires
        forall|i: int| 0 <= i < s.len() ==> !matches_query(#[trigger] s[i].title, q),
    ensures
        s.filter(query_pred(q)).len() == 0,
{
    s.lemma_all_neg_filter_empty(query_pred(q));
}

} // verus!
