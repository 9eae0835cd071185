//! "The first element that satisfies a predicate", as a specification,
//! with the two facts that let a left-to-right scan establish it.

use vstd::prelude::*;

verus! {

/// Position `i` holds the first element of `s` that satisfies `pred`.
pub open spec fn is_first<T>(s: Seq<T>, pred: spec_fn(T) -> bool, i: int) -> bool {
    &&& 0 <= i < s.len()
    &&& pred(s[i])
    &&& forall|j: int| 0 <= j < i ==> !pred(#[trigger] s[j])
}

/// Some element of `s` satisfies `pred`.
pub open spec fn any_satisfies<T>(s: Seq<T>, pred: spec_fn(T) -> bool) -> bool {
    exists|i: int| 0 <= i < s.len() && pred(#[trigger] s[i])
}

/// The index of the first element of `s` that satisfies `pred`, if any.
pub open spec fn first_index<T>(s: Seq<T>, pred: spec_fn(T) -> bool) -> Option<int> {
    if exists|i: int| #[trigger] is_first(s, pred, i) {
        Some(choose|i: int| #[trigger] is_first(s, pred, i))
    } else {
        None
    }
}

/// The first satisfying position is unique, so `first_index` names it.
pub proof fn lemma_first_index_at<T>(s: Seq<T>, pred: spec_fn(T) -> bool, i: int)
    requires
        is_first(s, pred, i),
    ensures
        first_index(s, pred) == Some(i),
{
    let k = choose|k: int| #[trigger] is_first(s, pred, k);
    assert(is_first(s, pred, k));
    if k < i {
        assert(!pred(s[k]));
    }
    if i < k {
        assert(!pred(s[i]));
    }
}

/// When nothing satisfies `pred`, there is no first index.
pub proof fn lemma_first_index_none<T>(s: Seq<T>, pred: spec_fn(T) -> bool)
    requires
        forall|j: int| 0 <= j < s.len() ==> !pred(#[trigger] s[j]),
    ensures
        first_index(s, pred) == None::<int>,
{
    if exists|i: int| #[trigger] is_first(s, pred, i) {
        let k = choose|k: int| #[trigger] is_first(s, pred, k);
        assert(pred(s[k]));
    }
}

/// `first_index` finds something exactly when something satisfies `pred`,
/// and what it finds satisfies `pred`.
pub proof fn lemma_first_index_found<T>(s: Seq<T>, pred: spec_fn(T) -> bool)
    ensures
        first_index(s, pred) is Some <==> any_satisfies(s, pred),
        first_index(s, pred) matches Some(i) ==> is_first(s, pred, i),
{
    if any_satisfies(s, pred) {
        let w = choose|i: int| 0 <= i < s.len() && pred(#[trigger] s[i]);
        lemma_least_witness(s, pred, w);
    }
    if first_index(s, pred) is Some {
        let k = choose|k: int| #[trigger] is_first(s, pred, k);
        assert(is_first(s, pred, k));
    }
}

proof fn lemma_least_witness<T>(s: Seq<T>, pred: spec_fn(T) -> bool, w: int)
    requires
        0 <= w < s.len(),
        pred(s[w]),
    ensures
        exists|i: int| #[trigger] is_first(s, pred, i),
    decreases w,
{
    if forall|j: int| 0 <= j < w ==> !pred(#[trigger] s[j]) {
        assert(is_first(s, pred, w));
    } else {
        let v = choose|j: int| 0 <= j < w && pred(#[trigger] s[j]);
        lemma_least_witness(s, pred, v);
    }
}

} // verus!
