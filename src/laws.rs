use vstd::prelude::*;

use crate::canvas::{voronoi_grid, Canvas};
use crate::nearest::{
    is_nearest, lemma_nearest_exists, lemma_nearest_unique, nearest_color, nearest_index,
};
use crate::seed::{seed_dist, Seed};

verus! {

/// Every pixel of the image of a non-empty seed set has the color of one of
/// its seeds: no color is invented.
pub proof fn lemma_coverage(seeds: Seq<Seed>, width: nat, height: nat, x: int, y: int)
    requires
        seeds.len() > 0,
        0 <= x < width,
        0 <= y < height,
    ensures
        exists|i: int|
            0 <= i < seeds.len() && voronoi_grid(seeds, width, height)[y][x] == (
            #[trigger] seeds[i]).color,
{
    lemma_nearest_exists(seeds, x, y);
    let i = nearest_index(seeds, x, y);
    assert(voronoi_grid(seeds, width, height)[y][x] == seeds[i].color);
}

/// Two canvases rasterized from the same seeds and dimensions are identical.
pub proof fn lemma_deterministic(
    seeds: Seq<Seed>,
    width: nat,
    height: nat,
    first: Canvas,
    second: Canvas,
)
    requires
        first@ == voronoi_grid(seeds, width, height),
        second@ == voronoi_grid(seeds, width, height),
    ensures
        first@ == second@,
{
}

/// When two seeds are both at the least distance from a pixel, the earlier
/// one does not own it: the later one does, unless a seed after it is just as
/// close.
pub proof fn lemma_tie_goes_to_later(seeds: Seq<Seed>, px: int, py: int, i: int, j: int)
    requires
        0 <= i < j < seeds.len(),
        seed_dist(seeds[i], px, py) == seed_dist(seeds[j], px, py),
        forall|k: int|
            0 <= k < seeds.len() ==> seed_dist(seeds[i], px, py) <= #[trigger] seed_dist(
                seeds[k],
                px,
                py,
            ),
    ensures
        nearest_index(seeds, px, py) >= j,
        (forall|k: int|
            j < k < seeds.len() ==> seed_dist(seeds[j], px, py) < #[trigger] seed_dist(
                seeds[k],
                px,
                py,
            )) ==> nearest_index(seeds, px, py) == j && nearest_color(seeds, px, py)
            == seeds[j].color,
{
    lemma_nearest_exists(seeds, px, py);
    let n = nearest_index(seeds, px, py);
    if n < j {
        assert(seed_dist(seeds[n], px, py) < seed_dist(seeds[j], px, py));
        assert(seed_dist(seeds[n], px, py) <= seed_dist(seeds[i], px, py));
    }
    if is_nearest(seeds, px, py, j) {
        lemma_nearest_unique(seeds, px, py, j, n);
    }
}

/// With a single seed, every pixel takes that seed's color.
pub proof fn lemma_single_seed(seeds: Seq<Seed>, width: nat, height: nat, x: int, y: int)
    requires
        seeds.len() == 1,
        0 <= x < width,
        0 <= y < height,
    ensures
        voronoi_grid(seeds, width, height)[y][x] == seeds[0].color,
{
    lemma_nearest_exists(seeds, x, y);
}

} // verus!
