use vstd::prelude::*;

use crate::lines::lines_of;
use crate::query::Query;
use crate::search::{search_result, selector, selects, SearchMode};
use crate::text::{has_infix, lower_of};

verus! {

/// Filtering by two predicates that agree everywhere gives the same sequence.
proof fn lemma_filter_agree(s: Seq<Seq<char>>, p: spec_fn(Seq<char>) -> bool, q: spec_fn(Seq<char>) -> bool)
    requires
        forall|l: Seq<char>| #[trigger] p(l) == q(l),
    ensures
        s.filter(p) == s.filter(q),
{
    assert(p =~= q);
}

/// Filtering by a predicate that holds of every element keeps the sequence.
proof fn lemma_filter_keeps_all(s: Seq<Seq<char>>, p: spec_fn(Seq<char>) -> bool)
    requires
        forall|l: Seq<char>| #[trigger] p(l),
    ensures
        s.filter(p) == s,
    decreases s.len(),
{
    reveal(Seq::filter);
    if s.len() > 0 {
        lemma_filter_keeps_all(s.drop_last(), p);
        assert(s.drop_last().push(s.last()) =~= s);
    }
}

/// With no queries, every line of the text comes back, unchanged and in order,
/// whatever the mode.
pub proof fn lemma_no_queries_keeps_all_lines(mode: SearchMode, text: Seq<char>)
    ensures
        search_result(Seq::empty(), mode, text) == lines_of(text),
{
    lemma_filter_keeps_all(lines_of(text), selector(Seq::empty(), mode));
}

/// A single query under case-sensitive search keeps exactly the lines that
/// contain its text as a substring.
pub proof fn lemma_one_query_case_sensitive(q: Query, text: Seq<char>)
    ensures
        search_result(seq![q], SearchMode::CaseSensitive, text) == lines_of(text).filter(
            |l: Seq<char>| has_infix(l, q.text()),
        ),
{
    let p = selector(seq![q], SearchMode::CaseSensitive);
    let r = |l: Seq<char>| has_infix(l, q.text());
    assert forall|l: Seq<char>| #[trigger] p(l) == r(l) by {
        assert(seq![q][0] == q);
    }
    lemma_filter_agree(lines_of(text), p, r);
}

/// Under case-insensitive search a single query decides on lowercased text,
/// and the lines that come back are the text's own lines, with their casing.
pub proof fn lemma_one_query_case_insensitive(q: Query, text: Seq<char>)
    ensures
        search_result(seq![q], SearchMode::CaseInsensitive, text) == lines_of(text).filter(
            |l: Seq<char>| has_infix(lower_of(l), lower_of(q.text())),
        ),
        forall|k: int|
            0 <= k < search_result(seq![q], SearchMode::CaseInsensitive, text).len()
                ==> lines_of(text).contains(
                #[trigger] search_result(seq![q], SearchMode::CaseInsensitive, text)[k],
            ),
{
    let p = selector(seq![q], SearchMode::CaseInsensitive);
    let r = |l: Seq<char>| has_infix(lower_of(l), lower_of(q.text()));
    assert forall|l: Seq<char>| #[trigger] p(l) == r(l) by {
        assert(seq![q][0] == q);
    }
    lemma_filter_agree(lines_of(text), p, r);
    let found = search_result(seq![q], SearchMode::CaseInsensitive, text);
    assert forall|k: int| 0 <= k < found.len() implies lines_of(text).contains(
        #[trigger] found[k],
    ) by {
        assert(found.contains(found[k]));
        lines_of(text).lemma_filter_contains_rev(p, found[k]);
    }
}

/// Two queries conjoin: a line comes back exactly when it meets both.
pub proof fn lemma_two_queries_conjoin(q1: Query, q2: Query, mode: SearchMode, text: Seq<char>)
    ensures
        search_result(seq![q1, q2], mode, text) == lines_of(text).filter(
            |l: Seq<char>| selects(seq![q1], mode, l) && selects(seq![q2], mode, l),
        ),
{
    let both = seq![q1, q2];
    let p = selector(both, mode);
    let r = |l: Seq<char>| selects(seq![q1], mode, l) && selects(seq![q2], mode, l);
    assert forall|l: Seq<char>| #[trigger] p(l) == r(l) by {
        assert(both[0] == q1);
        assert(both[1] == q2);
        assert(seq![q1][0] == q1);
        assert(seq![q2][0] == q2);
        if r(l) {
            assert forall|j: int| 0 <= j < 2 implies has_infix(
                crate::search::normalize(mode, l),
                crate::search::normalize(mode, (#[trigger] both[j]).text()),
            ) by {
                if j == 0 {
                    assert(selects(seq![q1], mode, l));
                } else {
                    assert(selects(seq![q2], mode, l));
                }
            }
        }
    }
    lemma_filter_agree(lines_of(text), p, r);
}

/// Searching twice with the same queries, mode and text gives the same lines:
/// any two results that `search` may return for them are equal.
pub proof fn lemma_search_repeatable(
    queries: Seq<Query>,
    mode: SearchMode,
    text: Seq<char>,
    first: Seq<Seq<char>>,
    second: Seq<Seq<char>>,
)
    requires
        first == search_result(queries, mode, text),
        second == search_result(queries, mode, text),
    ensures
        first == second,
{
}

} // verus!
