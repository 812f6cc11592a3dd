//! Voronoi-style rasterization: random colored seed points, and a canvas in
//! which every pixel takes the color of its nearest seed.

pub mod canvas;
pub mod color;
pub mod error;
pub mod generate;
pub mod laws;
pub mod nearest;
pub mod seed;
