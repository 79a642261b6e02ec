//! The collision system: which pairs of collidable entities are tested
//! against each other in one pass.

use vstd::prelude::*;

verus! {

/// `p` comes before `q` in row-major order.
pub open spec fn pair_before(p: (usize, usize), q: (usize, usize)) -> bool {
    p.0 < q.0 || (p.0 == q.0 && p.1 < q.1)
}

/// `pairs` lists, in row-major order and once each, the index pairs `(i, j)`
/// of entities of `ids` whose ids differ.
pub open spec fn candidate_pairs_of(ids: Seq<u32>, pairs: Seq<(usize, usize)>) -> bool {
    &&& forall|k: int|
        0 <= k < pairs.len() ==> {
            &&& (#[trigger] pairs[k]).0 < ids.len()
            &&& pairs[k].1 < ids.len()
            &&& ids[pairs[k].0 as int] != ids[pairs[k].1 as int]
        }
    &&& forall|k1: int, k2: int|
        0 <= k1 < k2 < pairs.len() ==> pair_before(#[trigger] pairs[k1], #[trigger] pairs[k2])
    &&& forall|i: usize, j: usize|
        i < ids.len() && j < ids.len() && #[trigger] ids[i as int] != #[trigger] ids[j as int]
            ==> pairs.contains((i, j))
}

/// The system that looks for collisions between entities.
#[derive(Clone, Copy, Debug)]
pub struct CollisionSystem;

impl CollisionSystem {
    /// For entities joined in the order of `ids`, the pairs `(entity, other)`
    /// that a pass tests: every ordered pair of positions whose entity ids
    /// differ, the outer entity first.
    pub fn candidate_pairs(&self, ids: &Vec<u32>) -> (pairs: Vec<(usize, usize)>)
        ensures
            candidate_pairs_of(ids@, pairs@),
    {
        let n = ids.len();
        let mut pairs: Vec<(usize, usize)> = Vec::new();
        let mut i: usize = 0;
        while i < n
            invariant
                n == ids.len(),
                i <= n,
                forall|k: int|
                    0 <= k < pairs.len() ==> {
                        &&& (#[trigger] pairs[k]).0 < i
                        &&& pairs[k].1 < n
                        &&& ids[pairs[k].0 as int] != ids[pairs[k].1 as int]
                    },
                forall|k1: int, k2: int|
                    0 <= k1 < k2 < pairs.len() ==> pair_before(#[trigger] pairs[k1], #[trigger] pairs[k2]),
                forall|a: usize, b: usize|
                    a < i && b < n && #[trigger] ids[a as int] != #[trigger] ids[b as int]
                        ==> pairs@.contains((a, b)),
            decreases n - i,
        {
            let mut j: usize = 0;
            while j < n
                invariant
                    n == ids.len(),
                    i < n,
                    j <= n,
                    forall|k: int|
                        0 <= k < pairs.len() ==> {
                            &&& pair_before(#[trigger] pairs[k], (i, j))
                            &&& pairs[k].0 <= i
                            &&& pairs[k].1 < n
                            &&& ids[pairs[k].0 as int] != ids[pairs[k].1 as int]
                        },
                    forall|k1: int, k2: int|
                        0 <= k1 < k2 < pairs.len() ==> pair_before(#[trigger] pairs[k1], #[trigger] pairs[k2]),
                    forall|a: usize, b: usize|
                        (a < i || (a == i && b < j)) && b < n
                            && #[trigger] ids[a as int] != #[trigger] ids[b as int]
                            ==> pairs@.contains((a, b)),
                decreases n - j,
            {
                if ids[i] != ids[j] {
                    let ghost before = pairs@;
                    pairs.push((i, j));
                    proof {
                        assert forall|a: usize, b: usize|
                            (a < i || (a == i && b < j + 1)) && b < n
                                && #[trigger] ids[a as int] != #[trigger] ids[b as int]
                                implies pairs@.contains((a, b)) by {
                            if a == i && b == j {
                                assert(pairs@[pairs@.len() - 1] == (a, b));
                            } else {
                                let k = choose|k: int| 0 <= k < before.len() && before[k] == (a, b);
                                assert(pairs@[k] == (a, b));
                            }
                        }
                    }
                }
                j = j + 1;
            }
            i = i + 1;
        }
        pairs
    }
}

/// A pair is tested in both orders, and never for two entities of one id.
pub proof fn lemma_candidate_pairs_symmetric(ids: Seq<u32>, pairs: Seq<(usize, usize)>, i: usize, j: usize)
    requires
        candidate_pairs_of(ids, pairs),
        i < ids.len(),
        j < ids.len(),
    ensures
        pairs.contains((i, j)) <==> pairs.contains((j, i)),
        pairs.contains((i, j)) <==> ids[i as int] != ids[j as int],
{
    if pairs.contains((i, j)) {
        let k = choose|k: int| 0 <= k < pairs.len() && pairs[k] == (i, j);
        assert(pairs[k].0 == i);
    }
    if pairs.contains((j, i)) {
        let k = choose|k: int| 0 <= k < pairs.len() && pairs[k] == (j, i);
        assert(pairs[k].0 == j);
    }
    if ids[i as int] != ids[j as int] {
        assert(pairs.contains((i, j)));
        assert(ids[j as int] != ids[i as int]);
        assert(pairs.contains((j, i)));
    }
}

} // verus!
