//! Facts about sequences that the proofs of this crate share.

use vstd::prelude::*;

verus! {

/// Filtering a sequence that ends in `last` filters what is before it and
/// keeps `last` where the predicate holds of it.
pub proof fn lemma_filter_push<A>(s: Seq<A>, last: A, pred: spec_fn(A) -> bool)
    ensures
        s.push(last).filter(pred) == if pred(last) {
            s.filter(pred).push(last)
        } else {
            s.filter(pred)
        },
{
    reveal(Seq::filter);
    assert(s.push(last).drop_last() =~= s);
}

} // verus!
