//! Ranking by score: the positions whose score is positive, highest score
//! first, equal scores in list order (what a stable sort by
//! descending score gives).

use vstd::prelude::*;

verus! {

/// Position `a` comes before position `b`: a higher score, or an equal
/// score and an earlier position.
pub open spec fn precedes(scores: Seq<u32>, a: int, b: int) -> bool {
    scores[a] > scores[b] || (scores[a] == scores[b] && a < b)
}

/// `r` lists exactly the positions of `scores` that hold a positive score,
/// each once, in `precedes` order.
pub open spec fn is_ranking(scores: Seq<u32>, r: Seq<usize>) -> bool {
    &&& forall|j: int| 0 <= j < r.len() ==> (#[trigger] r[j]) < scores.len() && scores[r[j] as int] > 0
    &&& forall|i: int| 0 <= i < scores.len() && #[trigger] scores[i] > 0 ==> r.contains(i as usize)
    &&& forall|j: int, k: int|
        0 <= j < k < r.len() ==> precedes(scores, #[trigger] r[j] as int, #[trigger] r[k] as int)
}

/// The positions of the positive scores, highest first, ties in order.
pub fn rank_by_score(scores: &Vec<u32>) -> (r: Vec<usize>)
    ensures
        is_ranking(scores@, r@),
{
    let mut r: Vec<usize> = Vec::new();
    let mut i: usize = 0;
    while i < scores.len()
        invariant
            i <= scores@.len(),
            forall|j: int| 0 <= j < r@.len() ==> (#[trigger] r@[j]) < i && scores@[r@[j] as int] > 0,
            forall|k: int| 0 <= k < i && #[trigger] scores@[k] > 0 ==> r@.contains(k as usize),
            forall|j: int, k: int|
                0 <= j < k < r@.len() ==> precedes(scores@, #[trigger] r@[j] as int, #[trigger] r@[k] as int),
        decreases scores@.len() - i,
    {
        let s = scores[i];
        if s > 0 {
            let mut p: usize = 0;
            while p < r.len() && scores[r[p]] >= s
                invariant
                    p <= r@.len(),
                    s == scores@[i as int],
                    i < scores@.len(),
                    forall|j: int| 0 <= j < r@.len() ==> (#[trigger] r@[j]) < i,
                    forall|q: int| 0 <= q < p ==> scores@[(#[trigger] r@[q]) as int] >= s,
                decreases r@.len() - p,
            {
                p = p + 1;
            }
            let ghost old_r = r@;
            r.insert(p, i);
            proof {
                assert(r@ == old_r.insert(p as int, i));
                assert forall|j: int, k: int| 0 <= j < k < r@.len() implies precedes(
                    scores@,
                    #[trigger] r@[j] as int,
                    #[trigger] r@[k] as int,
                ) by {
                    if k < p {
                        assert(r@[j] == old_r[j] && r@[k] == old_r[k]);
                    } else if k == p {
                        assert(r@[j] == old_r[j]);
                    } else if j == p {
                        assert(r@[k] == old_r[k - 1]);
                        assert(scores@[old_r[p as int] as int] < s);
                        if k - 1 > p {
                            assert(precedes(scores@, old_r[p as int] as int, old_r[k - 1] as int));
                        }
                    } else if j < p {
                        assert(r@[j] == old_r[j] && r@[k] == old_r[k - 1]);
                    } else {
                        assert(r@[j] == old_r[j - 1] && r@[k] == old_r[k - 1]);
                    }
                }
                assert forall|k: int| 0 <= k < i + 1 && #[trigger] scores@[k] > 0 implies r@.contains(
                    k as usize,
                ) by {
                    if k == i {
                        assert(r@[p as int] == i);
                    } else {
                        let w = choose|w: int| 0 <= w < old_r.len() && old_r[w] == k as usize;
                        if w < p {
                            assert(r@[w] == old_r[w]);
                        } else {
                            assert(r@[w + 1] == old_r[w]);
                        }
                    }
                }
                assert forall|j: int| 0 <= j < r@.len() implies (#[trigger] r@[j]) < i + 1 && scores@[r@[j] as int] > 0 by {
                    if j < p {
                        assert(r@[j] == old_r[j]);
                    } else if j > p {
                        assert(r@[j] == old_r[j - 1]);
                    }
                }
            }
        }
        i = i + 1;
    }
    r
}

} // verus!
