use vstd::prelude::*;

use crate::color::Rgb;
use crate::error::VoronoiError;
use crate::nearest::{nearest_color, nearest_seed};
use crate::seed::Seed;

verus! {

/// One row of the Voronoi image: the colors of pixels `(0, y) .. (width - 1, y)`.
pub open spec fn voronoi_row(seeds: Seq<Seed>, width: nat, y: int) -> Seq<Rgb> {
    Seq::new(width, |x: int| nearest_color(seeds, x, y))
}

/// The Voronoi image of `seeds`, as `height` rows of `width` pixels each.
pub open spec fn voronoi_grid(seeds: Seq<Seed>, width: nat, height: nat) -> Seq<Seq<Rgb>> {
    Seq::new(height, |y: int| voronoi_row(seeds, width, y))
}

/// A non-empty grid of pixels, stored row by row.
#[derive(Debug, PartialEq, Eq)]
pub struct Canvas {
    width: u32,
    height: u32,
    rows: Vec<Vec<Rgb>>,
}

impl View for Canvas {
    /// The rows of the canvas, top to bottom; `self@[y][x]` is pixel `(x, y)`.
    type V = Seq<Seq<Rgb>>;

    closed spec fn view(&self) -> Seq<Seq<Rgb>> {
        self.rows@.map_values(|r: Vec<Rgb>| r@)
    }
}

impl Canvas {
    #[verifier::type_invariant]
    spec fn well_formed(self) -> bool {
        &&& self.width > 0
        &&& self.height > 0
        &&& self.rows@.len() == self.height
        &&& forall|y: int| 0 <= y < self.rows@.len() ==> (#[trigger] self.rows@[y])@.len() == self.width
    }

    /// Number of pixels in each row.
    pub fn width(&self) -> (w: u32)
        ensures
            self@.len() > 0,
            w > 0,
            forall|y: int| 0 <= y < self@.len() ==> (#[trigger] self@[y]).len() == w,
    {
        proof {
            use_type_invariant(self);
        }
        self.width
    }

    /// Number of rows.
    pub fn height(&self) -> (h: u32)
        ensures
            h as int == self@.len(),
            h > 0,
    {
        proof {
            use_type_invariant(self);
        }
        self.height
    }

    /// The color of pixel `(x, y)`.
    pub fn get_pixel(&self, x: u32, y: u32) -> (c: Rgb)
        requires
            y < self@.len(),
            x < self@[y as int].len(),
        ensures
            c == self@[y as int][x as int],
    {
        self.rows[y as usize][x as usize]
    }
}

/// Builds the canvas of `width` × `height` pixels in which each pixel has the
/// color of its nearest seed (the last of several at equal distance).
/// An empty seed set or a zero dimension is refused; so is a canvas for
/// which memory cannot be had.
pub fn rasterize(seeds: &Vec<Seed>, width: u32, height: u32) -> (r: Result<Canvas, VoronoiError>)
    ensures
        (seeds@.len() == 0 || width == 0 || height == 0) <==> r == Err::<Canvas, VoronoiError>(
            VoronoiError::InvalidParameters,
        ),
        r is Err ==> r == Err::<Canvas, VoronoiError>(VoronoiError::InvalidParameters) || r
            == Err::<Canvas, VoronoiError>(VoronoiError::OutOfResources),
        r matches Ok(c) ==> c@ == voronoi_grid(seeds@, width as nat, height as nat),
{
    if seeds.len() == 0 || width == 0 || height == 0 {
        return Err(VoronoiError::InvalidParameters);
    }
    let mut rows: Vec<Vec<Rgb>> = Vec::new();
    if let Err(_) = rows.try_reserve(height as usize) {
        return Err(VoronoiError::OutOfResources);
    }
    let mut y: u32 = 0;
    while y < height
        invariant
            seeds@.len() > 0,
            width > 0,
            y <= height,
            rows@.len() == y,
            forall|j: int|
                0 <= j < y ==> (#[trigger] rows@[j])@ == voronoi_row(seeds@, width as nat, j),
        decreases height - y,
    {
        let mut row: Vec<Rgb> = Vec::new();
        if let Err(_) = row.try_reserve(width as usize) {
            return Err(VoronoiError::OutOfResources);
        }
        let mut x: u32 = 0;
        while x < width
            invariant
                seeds@.len() > 0,
                x <= width,
                row@ =~= Seq::new(x as nat, |i: int| nearest_color(seeds@, i, y as int)),
            decreases width - x,
        {
            let i = nearest_seed(seeds, x, y);
            row.push(seeds[i].color);
            x = x + 1;
        }
        assert(row@ =~= voronoi_row(seeds@, width as nat, y as int));
        rows.push(row);
        y = y + 1;
    }
    let canvas = Canvas { width, height, rows };
    assert(canvas@ =~= voronoi_grid(seeds@, width as nat, height as nat));
    Ok(canvas)
}

} // verus!
