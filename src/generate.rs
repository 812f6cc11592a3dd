use vstd::prelude::*;

use rand::rngs::StdRng;
use rand::Rng;

use crate::color::Rgb;
use crate::error::VoronoiError;
use crate::seed::Seed;

verus! {

#[verifier::external_type_specification]
#[verifier::external_body]
pub struct ExStdRng(rand::rngs::StdRng);

/// Exclusive upper bound of a generated seed's gray intensity.
pub const SHADE_BOUND: u32 = 254;

/// Relies on rand's `Rng::gen_range` over the half-open range `0..bound` of
/// `u32`: it panics when the range is empty and otherwise returns a value
/// of the range.
#[verifier::external_body]
fn draw_below(rng: &mut StdRng, bound: u32) -> (r: u32)
    requires
        bound > 0,
    ensures
        r < bound,
{
    rng.gen_range(0..bound)
}

/// What holds of every seed that the generator can produce on a canvas of
/// `width` × `height`: it lies in `[0, width - 1) × [0, height - 1)` and is
/// gray, with an intensity below `SHADE_BOUND`.
pub open spec fn generated_seed(s: Seed, width: int, height: int) -> bool {
    &&& s.x < width - 1
    &&& s.y < height - 1
    &&& s.color.is_gray()
    &&& s.color.r < SHADE_BOUND
}

/// Whether a canvas of `width` × `height` leaves room for generated seeds.
pub open spec fn generator_accepts(count: int, width: int, height: int) -> bool {
    count > 0 && width >= 2 && height >= 2
}

impl Seed {
    /// Draws a seed: first its gray intensity, then its column, then its row,
    /// each uniformly from the generator's range.
    pub fn random(rng: &mut StdRng, width: u32, height: u32) -> (s: Seed)
        requires
            width >= 2,
            height >= 2,
        ensures
            generated_seed(s, width as int, height as int),
    {
        let shade = draw_below(rng, SHADE_BOUND) as u8;
        let x = draw_below(rng, width - 1);
        let y = draw_below(rng, height - 1);
        Seed::new(x, y, Rgb::gray(shade))
    }
}

/// Draws `count` independent seeds for a canvas of `width` × `height`.
/// A zero count, or a dimension below 2 (which leaves no column or row to
/// draw from), is refused; so is a count for which memory cannot be had.
pub fn generate_seeds(count: usize, width: u32, height: u32, rng: &mut StdRng) -> (r: Result<
    Vec<Seed>,
    VoronoiError,
>)
    ensures
        !generator_accepts(count as int, width as int, height as int) <==> r == Err::<
            Vec<Seed>,
            VoronoiError,
        >(VoronoiError::InvalidParameters),
        r is Err ==> r == Err::<Vec<Seed>, VoronoiError>(VoronoiError::InvalidParameters) || r
            == Err::<Vec<Seed>, VoronoiError>(VoronoiError::OutOfResources),
        r matches Ok(v) ==> v@.len() == count && forall|i: int|
            0 <= i < v@.len() ==> generated_seed(#[trigger] v@[i], width as int, height as int),
{
    if count == 0 || width < 2 || height < 2 {
        return Err(VoronoiError::InvalidParameters);
    }
    let mut seeds: Vec<Seed> = Vec::new();
    if let Err(_) = seeds.try_reserve(count) {
        return Err(VoronoiError::OutOfResources);
    }
    let mut n: usize = 0;
    while n < count
        invariant
            width >= 2,
            height >= 2,
            n <= count,
            seeds@.len() == n,
            forall|i: int|
                0 <= i < n ==> generated_seed(#[trigger] seeds@[i], width as int, height as int),
        decreases count - n,
    {
        let s = Seed::random(rng, width, height);
        seeds.push(s);
        n = n + 1;
    }
    Ok(seeds)
}

} // verus!
