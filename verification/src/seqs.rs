//! Facts about sequences that the loops of this crate rely on.

use vstd::prelude::*;

verus! {

/// Filtering the first `i + 1` elements keeps what filtering the first `i`
/// kept, plus element `i` when it passes.
pub proof fn lemma_filter_take_step<A>(s: Seq<A>, pred: spec_fn(A) -> bool, i: int)
    requires
        0 <= i < s.len(),
    ensures
        s.take(i + 1).filter(pred) == (if pred(s[i]) {
            s.take(i).filter(pred).push(s[i])
        } else {
            s.take(i).filter(pred)
        }),
{
    reveal(Seq::filter);
    assert(s.take(i + 1).drop_last() =~= s.take(i));
    assert(s.take(i + 1).last() == s[i]);
}

/// Filtering all of `s` is filtering its first `s.len()` elements.
pub proof fn lemma_take_full<A>(s: Seq<A>)
    ensures
        s.take(s.len() as int) == s,
{
    assert(s.take(s.len() as int) =~= s);
}

} // verus!
