//! Stable sorting by a text key, as listings order their entries.

use vstd::prelude::*;
use crate::text::{lex_lt, str_lt};

verus! {

/// Something a listing sorts by a text key.
pub trait Keyed: Sized {
    /// The key.
    spec fn sort_key(&self) -> Seq<char>;

    /// The key (executable).
    fn key_str(&self) -> (k: &str)
        ensures
            k@ == self.sort_key(),
    ;
}

/// The index of the first element at or after `k` whose key sorts after
/// `key`, or the length of `s`.
pub open spec fn first_key_after<T: Keyed>(s: Seq<T>, key: Seq<char>, k: int) -> int
    decreases s.len() - k,
{
    if k < 0 || k >= s.len() {
        s.len() as int
    } else if lex_lt(key, s[k].sort_key()) {
        k
    } else {
        first_key_after(s, key, k + 1)
    }
}

/// `s` sorted by key, stably: elements with equal keys keep their order
/// (what a stable sort by the key gives).
pub open spec fn sorted_by_key<T: Keyed>(s: Seq<T>) -> Seq<T>
    decreases s.len(),
{
    if s.len() == 0 {
        s
    } else {
        let sorted = sorted_by_key(s.drop_last());
        sorted.insert(first_key_after(sorted, s.last().sort_key(), 0), s.last())
    }
}

proof fn lemma_first_key_after<T: Keyed>(s: Seq<T>, key: Seq<char>, k: int)
    requires
        0 <= k <= s.len(),
    ensures
        k <= first_key_after(s, key, k) <= s.len(),
    decreases s.len() - k,
{
    if k < s.len() && !lex_lt(key, s[k].sort_key()) {
        lemma_first_key_after(s, key, k + 1);
    }
}

/// Sorting keeps the number of elements.
pub proof fn lemma_sorted_len<T: Keyed>(s: Seq<T>)
    ensures
        sorted_by_key(s).len() == s.len(),
    decreases s.len(),
{
    if s.len() > 0 {
        lemma_sorted_len(s.drop_last());
        lemma_first_key_after(sorted_by_key(s.drop_last()), s.last().sort_key(), 0);
    }
}

/// The elements of `v` at the indices of `order`, in that order.
pub open spec fn pick<T>(v: Seq<T>, order: Seq<usize>) -> Seq<T> {
    order.map_values(|k: usize| v[k as int])
}

/// The order that sorts `v` by key, stably: the indices of its elements,
/// sorted.
pub fn stable_sort_order<T: Keyed>(v: &Vec<T>) -> (order: Vec<usize>)
    ensures
        forall|j: int| 0 <= j < order@.len() ==> order@[j] < v@.len(),
        pick(v@, order@) == sorted_by_key(v@),
{
    let mut order: Vec<usize> = Vec::new();
    let mut i: usize = 0;
    assert(pick(v@, order@) =~= sorted_by_key(v@.take(0)));
    while i < v.len()
        invariant
            i <= v@.len(),
            forall|j: int| 0 <= j < order@.len() ==> order@[j] < i,
            pick(v@, order@) == sorted_by_key(v@.take(i as int)),
        decreases v@.len() - i,
    {
        let ghost sorted = pick(v@, order@);
        proof {
            lemma_sorted_len(v@.take(i as int));
        }
        let key = v[i].key_str();
        let mut k: usize = 0;
        while k < order.len() && !str_lt(key, v[order[k]].key_str())
            invariant
                i < v@.len(),
                key@ == v@[i as int].sort_key(),
                forall|j: int| 0 <= j < order@.len() ==> order@[j] < i,
                sorted == pick(v@, order@),
                k <= order@.len(),
                first_key_after(sorted, key@, k as int) == first_key_after(sorted, key@, 0),
            decreases order@.len() - k,
        {
            k = k + 1;
        }
        let ghost before = order@;
        order.insert(k, i);
        proof {
            let t = v@.take(i + 1);
            assert(t.drop_last() =~= v@.take(i as int));
            assert(t.last() == v@[i as int]);
            assert(pick(v@, order@) =~= sorted.insert(k as int, v@[i as int]));
        }
        i = i + 1;
    }
    assert(v@.take(v@.len() as int) =~= v@);
    order
}

} // verus!
