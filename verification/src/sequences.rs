//! Facts about filtered sequences that the bounded scans rely on.

use vstd::prelude::*;

verus! {

/// The first `cap` elements of `s`, or all of `s` when it has fewer.
pub open spec fn capped<A>(s: Seq<A>, cap: nat) -> Seq<A> {
    if s.len() > cap {
        s.take(cap as int)
    } else {
        s
    }
}

/// Nothing is kept of nothing.
pub proof fn lemma_filter_none<A>(s: Seq<A>, keep: spec_fn(A) -> bool)
    ensures
        s.take(0).filter(keep) == Seq::<A>::empty(),
{
    reveal(Seq::filter);
}

/// One more element is kept exactly when it passes the test.
pub proof fn lemma_filter_next<A>(s: Seq<A>, keep: spec_fn(A) -> bool, i: int)
    requires
        0 <= i < s.len(),
    ensures
        s.take(i + 1).filter(keep) == if keep(s[i]) {
            s.take(i).filter(keep).push(s[i])
        } else {
            s.take(i).filter(keep)
        },
{
    reveal(Seq::filter);
    assert(s.take(i + 1).drop_last() =~= s.take(i));
}

/// Once a prefix has yielded `cap` kept elements, the capped selection is
/// settled.
pub proof fn lemma_capped_filter_settled<A>(s: Seq<A>, keep: spec_fn(A) -> bool, i: int, cap: nat)
    requires
        0 <= i <= s.len(),
        s.take(i).filter(keep).len() >= cap,
    ensures
        capped(s.filter(keep), cap) == capped(s.take(i).filter(keep), cap),
{
    let head = s.take(i);
    let tail = s.skip(i);
    assert(s =~= head + tail);
    Seq::filter_distributes_over_add(head, tail, keep);
}

/// A sequence none of whose elements passes the test keeps nothing.
pub proof fn lemma_filter_all_rejected<A>(s: Seq<A>, keep: spec_fn(A) -> bool)
    requires
        forall|i: int| 0 <= i < s.len() ==> !keep(#[trigger] s[i]),
    ensures
        s.filter(keep) == Seq::<A>::empty(),
{
    let kept = s.filter(keep);
    if kept.len() > 0 {
        s.lemma_filter_pred(keep, 0);
        s.lemma_filter_contains_rev(keep, kept[0]);
    }
}

} // verus!
