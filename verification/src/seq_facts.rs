//! Facts about sequences used by the collection-keeping parts of the library.

use vstd::prelude::*;

verus! {

/// Filtering a prefix one element longer adds that element exactly when it
/// satisfies the predicate.
pub proof fn lemma_filter_take_step<A>(s: Seq<A>, pred: spec_fn(A) -> bool, i: int)
    requires
        0 <= i < s.len(),
    ensures
        s.take(i + 1).filter(pred) == (if pred(s[i]) {
            s.take(i).filter(pred).push(s[i])
        } else {
            s.take(i).filter(pred)
        }),
{
    reveal(Seq::filter);
    assert(s.take(i + 1).drop_last() =~= s.take(i));
    assert(s.take(i + 1).last() == s[i]);
}

/// Filtering keeps exactly the elements that satisfy the predicate: its length
/// counts them.
pub proof fn lemma_filter_len_bound<A>(s: Seq<A>, pred: spec_fn(A) -> bool)
    ensures
        s.filter(pred).len() <= s.len(),
    decreases s.len(),
{
    reveal(Seq::filter);
    if s.len() > 0 {
        lemma_filter_len_bound(s.drop_last(), pred);
    }
}

/// Filtering by a predicate that holds where exactly one of two others holds
/// keeps as many elements as the two filters together.
pub proof fn lemma_filter_len_split<A>(s: Seq<A>, p: spec_fn(A) -> bool, q: spec_fn(A) -> bool, r: spec_fn(A) -> bool)
    requires
        forall|x: A| #[trigger] r(x) == (p(x) || q(x)),
        forall|x: A| !(#[trigger] p(x) && q(x)),
    ensures
        s.filter(r).len() == s.filter(p).len() + s.filter(q).len(),
    decreases s.len(),
{
    reveal(Seq::filter);
    if s.len() > 0 {
        lemma_filter_len_split(s.drop_last(), p, q, r);
        let x = s.last();
        assert(r(x) == (p(x) || q(x)));
    }
}

/// Filtering by a predicate that every element satisfies keeps them all.
pub proof fn lemma_filter_len_all<A>(s: Seq<A>, p: spec_fn(A) -> bool)
    requires
        forall|i: int| 0 <= i < s.len() ==> p(#[trigger] s[i]),
    ensures
        s.filter(p).len() == s.len(),
    decreases s.len(),
{
    reveal(Seq::filter);
    if s.len() > 0 {
        assert forall|i: int| 0 <= i < s.drop_last().len() implies p(#[trigger] s.drop_last()[i]) by {
            assert(s.drop_last()[i] == s[i]);
        }
        lemma_filter_len_all(s.drop_last(), p);
        assert(p(s[s.len() - 1]));
    }
}

/// Filtering by a predicate that no element satisfies keeps none.
pub proof fn lemma_filter_len_none<A>(s: Seq<A>, p: spec_fn(A) -> bool)
    requires
        forall|x: A| !#[trigger] p(x),
    ensures
        s.filter(p).len() == 0,
    decreases s.len(),
{
    reveal(Seq::filter);
    if s.len() > 0 {
        lemma_filter_len_none(s.drop_last(), p);
        assert(!p(s.last()));
    }
}

} // verus!
