use vstd::prelude::*;

use crate::color::Rgb;

verus! {

/// A colored point on the canvas.
#[derive(Clone, Copy, Debug, PartialEq, Eq, Structural)]
pub struct Seed {
    pub x: u32,
    pub y: u32,
    pub color: Rgb,
}

/// Squared Euclidean distance between the points `(ax, ay)` and `(bx, by)`.
pub open spec fn sq_dist(ax: int, ay: int, bx: int, by: int) -> int {
    (ax - bx) * (ax - bx) + (ay - by) * (ay - by)
}

/// Squared distance from `s` to the pixel `(px, py)`.
pub open spec fn seed_dist(s: Seed, px: int, py: int) -> int {
    sq_dist(px, py, s.x as int, s.y as int)
}

/// `|a - b|` for two `u32` values, computed without leaving `u32`.
fn abs_diff(a: u32, b: u32) -> (d: u32)
    ensures
        d as int == if a >= b { a - b } else { b - a },
{
    if a >= b {
        a - b
    } else {
        b - a
    }
}

impl Seed {
    pub fn new(x: u32, y: u32, color: Rgb) -> (s: Seed)
        ensures
            s == (Seed { x, y, color }),
    {
        Seed { x, y, color }
    }

    pub fn get_x(&self) -> (r: u32)
        ensures
            r == self.x,
    {
        self.x
    }

    pub fn get_y(&self) -> (r: u32)
        ensures
            r == self.y,
    {
        self.y
    }

    pub fn get_color(&self) -> (r: Rgb)
        ensures
            r == self.color,
    {
        self.color
    }

    /// Squared Euclidean distance from this seed to the pixel `(x, y)`.
    pub fn get_distance_from(&self, x: u32, y: u32) -> (d: u128)
        ensures
            d as int == seed_dist(*self, x as int, y as int),
    {
        let dx = abs_diff(x, self.x) as u128;
        let dy = abs_diff(y, self.y) as u128;
        assert(dx * dx <= 0xffff_ffff_ffff_ffff_u128 && dy * dy <= 0xffff_ffff_ffff_ffff_u128)
            by (nonlinear_arith)
            requires
                dx <= 0xffff_ffff_u128,
                dy <= 0xffff_ffff_u128,
        ;
        assert(dx * dx == (x - self.x) * (x - self.x)) by (nonlinear_arith)
            requires
                dx == (if x >= self.x { x - self.x } else { self.x - x }),
        ;
        assert(dy * dy == (y - self.y) * (y - self.y)) by (nonlinear_arith)
            requires
                dy == (if y >= self.y { y - self.y } else { self.y - y }),
        ;
        dx * dx + dy * dy
    }
}

} // verus!
