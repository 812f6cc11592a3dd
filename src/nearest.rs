use vstd::prelude::*;

use crate::color::Rgb;
use crate::seed::{seed_dist, Seed};

verus! {

/// Seed `i` is the one that owns the pixel `(px, py)`: no seed is closer,
/// and every later seed is strictly farther. On a tie in distance the
/// later seed therefore wins.
pub open spec fn is_nearest(seeds: Seq<Seed>, px: int, py: int, i: int) -> bool {
    &&& 0 <= i < seeds.len()
    &&& forall|k: int|
        0 <= k < seeds.len() ==> seed_dist(seeds[i], px, py) <= #[trigger] seed_dist(
            seeds[k],
            px,
            py,
        )
    &&& forall|k: int|
        i < k < seeds.len() ==> seed_dist(seeds[i], px, py) < #[trigger] seed_dist(
            seeds[k],
            px,
            py,
        )
}

/// The index of the seed that owns the pixel `(px, py)`.
pub open spec fn nearest_index(seeds: Seq<Seed>, px: int, py: int) -> int {
    choose|i: int| is_nearest(seeds, px, py, i)
}

/// The color that the pixel `(px, py)` takes.
pub open spec fn nearest_color(seeds: Seq<Seed>, px: int, py: int) -> Rgb {
    seeds[nearest_index(seeds, px, py)].color
}

/// At most one seed owns a pixel.
pub proof fn lemma_nearest_unique(seeds: Seq<Seed>, px: int, py: int, i: int, j: int)
    requires
        is_nearest(seeds, px, py, i),
        is_nearest(seeds, px, py, j),
    ensures
        i == j,
{
    if i < j {
        assert(seed_dist(seeds[j], px, py) <= seed_dist(seeds[i], px, py));
    } else if j < i {
        assert(seed_dist(seeds[i], px, py) <= seed_dist(seeds[j], px, py));
    }
}

/// Among the first `n` seeds, the last one at the least distance.
spec fn last_closest(seeds: Seq<Seed>, px: int, py: int, n: int) -> int
    decreases n,
{
    if n <= 1 {
        0
    } else {
        let j = last_closest(seeds, px, py, n - 1);
        if seed_dist(seeds[n - 1], px, py) <= seed_dist(seeds[j], px, py) {
            n - 1
        } else {
            j
        }
    }
}

proof fn lemma_last_closest(seeds: Seq<Seed>, px: int, py: int, n: int)
    requires
        1 <= n <= seeds.len(),
    ensures
        is_nearest(seeds.subrange(0, n), px, py, last_closest(seeds, px, py, n)),
    decreases n,
{
    let pre = seeds.subrange(0, n);
    if n > 1 {
        lemma_last_closest(seeds, px, py, n - 1);
        let prev = seeds.subrange(0, n - 1);
        assert forall|k: int| 0 <= k < n - 1 implies pre[k] == #[trigger] prev[k] by {}
        assert(pre[n - 1] == seeds[n - 1]);
    }
}

/// Every pixel is owned by some seed of a non-empty seed set.
pub proof fn lemma_nearest_exists(seeds: Seq<Seed>, px: int, py: int)
    requires
        seeds.len() > 0,
    ensures
        is_nearest(seeds, px, py, nearest_index(seeds, px, py)),
{
    lemma_last_closest(seeds, px, py, seeds.len() as int);
    assert(seeds.subrange(0, seeds.len() as int) =~= seeds);
}

/// The seed that owns `(px, py)`, found by a scan in order in which a seed
/// at a distance no greater than the best so far takes over.
pub fn nearest_seed(seeds: &Vec<Seed>, px: u32, py: u32) -> (i: usize)
    requires
        seeds@.len() > 0,
    ensures
        is_nearest(seeds@, px as int, py as int, i as int),
        i as int == nearest_index(seeds@, px as int, py as int),
{
    let mut best: usize = 0;
    let mut best_dist: u128 = seeds[0].get_distance_from(px, py);
    let mut k: usize = 1;
    while k < seeds.len()
        invariant
            1 <= k <= seeds@.len(),
            is_nearest(seeds@.subrange(0, k as int), px as int, py as int, best as int),
            best_dist as int == seed_dist(seeds@[best as int], px as int, py as int),
        decreases seeds@.len() - k,
    {
        let d = seeds[k].get_distance_from(px, py);
        let ghost pre = seeds@.subrange(0, k as int);
        let ghost next = seeds@.subrange(0, k + 1);
        assert forall|j: int| 0 <= j < k implies next[j] == #[trigger] pre[j] by {}
        if d <= best_dist {
            best = k;
            best_dist = d;
        }
        k = k + 1;
    }
    proof {
        assert(seeds@.subrange(0, seeds@.len() as int) =~= seeds@);
        lemma_nearest_exists(seeds@, px as int, py as int);
        lemma_nearest_unique(
            seeds@,
            px as int,
            py as int,
            best as int,
            nearest_index(seeds@, px as int, py as int),
        );
    }
    best
}

} // verus!
