use rand::rngs::StdRng;
use rand::SeedableRng;

use voronoi::canvas::{rasterize, Canvas};
use voronoi::color::Rgb;
use voronoi::error::VoronoiError;
use voronoi::generate::{generate_seeds, SHADE_BOUND};
use voronoi::nearest::nearest_seed;
use voronoi::seed::Seed;

fn seed(x: u32, y: u32, shade: u8) -> Seed {
    Seed::new(x, y, Rgb::gray(shade))
}

fn brute_force_color(seeds: &[Seed], x: u32, y: u32) -> Rgb {
    let mut best = u128::MAX;
    let mut color = Rgb::gray(0);
    for s in seeds {
        let d = s.get_distance_from(x, y);
        if d <= best {
            best = d;
            color = s.get_color();
        }
    }
    color
}

fn all_pixels(c: &Canvas) -> Vec<(u32, u32, Rgb)> {
    let mut out = Vec::new();
    for y in 0..c.height() {
        for x in 0..c.width() {
            out.push((x, y, c.get_pixel(x, y)));
        }
    }
    out
}

#[test]
fn every_pixel_has_a_seed_color() {
    let mut rng = StdRng::seed_from_u64(11);
    let seeds = generate_seeds(25, 60, 40, &mut rng).unwrap();
    let canvas = rasterize(&seeds, 60, 40).unwrap();
    assert_eq!(canvas.width(), 60);
    assert_eq!(canvas.height(), 40);
    for (x, y, c) in all_pixels(&canvas) {
        assert!(seeds.iter().any(|s| s.get_color() == c), "pixel ({x}, {y})");
    }
}

#[test]
fn pixels_match_a_direct_nearest_search() {
    let mut rng = StdRng::seed_from_u64(3);
    let seeds = generate_seeds(30, 50, 30, &mut rng).unwrap();
    let canvas = rasterize(&seeds, 50, 30).unwrap();
    for (x, y, c) in all_pixels(&canvas) {
        assert_eq!(c, brute_force_color(&seeds, x, y));
        assert_eq!(c, seeds[nearest_seed(&seeds, x, y)].get_color());
    }
}

#[test]
fn rasterizing_twice_gives_the_same_canvas() {
    let mut rng = StdRng::seed_from_u64(5);
    let seeds = generate_seeds(20, 40, 30, &mut rng).unwrap();
    let first = rasterize(&seeds, 40, 30).unwrap();
    let second = rasterize(&seeds, 40, 30).unwrap();
    assert_eq!(first, second);
}

#[test]
fn equidistant_tie_goes_to_the_later_seed() {
    let white = Rgb::gray(255);
    let black = Rgb::gray(0);
    let seeds = vec![Seed::new(10, 10, white), Seed::new(14, 10, black)];
    let canvas = rasterize(&seeds, 20, 20).unwrap();
    assert_eq!(canvas.get_pixel(12, 10), black);
    assert_eq!(nearest_seed(&seeds, 12, 10), 1);

    let swapped = vec![Seed::new(14, 10, black), Seed::new(10, 10, white)];
    let canvas = rasterize(&swapped, 20, 20).unwrap();
    assert_eq!(canvas.get_pixel(12, 10), white);
}

#[test]
fn coincident_seeds_leave_the_earlier_unreachable() {
    let seeds = vec![seed(3, 3, 10), seed(3, 3, 20)];
    let canvas = rasterize(&seeds, 8, 8).unwrap();
    for (_, _, c) in all_pixels(&canvas) {
        assert_eq!(c, Rgb::gray(20));
    }
}

#[test]
fn single_seed_colors_every_pixel() {
    let color = Rgb { r: 200, g: 200, b: 200 };
    let seeds = vec![Seed::new(5, 5, color)];
    let canvas = rasterize(&seeds, 10, 10).unwrap();
    let pixels = all_pixels(&canvas);
    assert_eq!(pixels.len(), 100);
    for (_, _, c) in pixels {
        assert_eq!(c, color);
    }
}

#[test]
fn two_by_two_canvas_reaches_its_corners() {
    let seeds = vec![seed(0, 0, 40), seed(1, 1, 90)];
    let canvas = rasterize(&seeds, 2, 2).unwrap();
    assert_eq!(canvas.width(), 2);
    assert_eq!(canvas.height(), 2);
    assert_eq!(canvas.get_pixel(0, 0), Rgb::gray(40));
    assert_eq!(canvas.get_pixel(1, 1), Rgb::gray(90));
    // (1, 0) and (0, 1) are equidistant from both seeds: the later one wins.
    assert_eq!(canvas.get_pixel(1, 0), Rgb::gray(90));
    assert_eq!(canvas.get_pixel(0, 1), Rgb::gray(90));
}

#[test]
fn empty_seed_set_is_rejected() {
    let seeds: Vec<Seed> = Vec::new();
    assert_eq!(rasterize(&seeds, 10, 10), Err(VoronoiError::InvalidParameters));
}

#[test]
fn zero_dimension_is_rejected() {
    let seeds = vec![seed(0, 0, 1)];
    assert_eq!(rasterize(&seeds, 0, 10), Err(VoronoiError::InvalidParameters));
    assert_eq!(rasterize(&seeds, 10, 0), Err(VoronoiError::InvalidParameters));
}

#[test]
fn seeds_outside_the_canvas_still_assign_pixels() {
    let seeds = vec![seed(100, 100, 7), seed(0, 0, 9)];
    let canvas = rasterize(&seeds, 3, 3).unwrap();
    assert_eq!(canvas.get_pixel(2, 2), Rgb::gray(9));
}

#[test]
fn generated_seeds_stay_in_range() {
    let mut rng = StdRng::seed_from_u64(42);
    let seeds = generate_seeds(100, 800, 600, &mut rng).unwrap();
    assert_eq!(seeds.len(), 100);
    for s in &seeds {
        assert!(s.get_x() < 799);
        assert!(s.get_y() < 599);
        let c = s.get_color();
        assert_eq!(c.r, c.g);
        assert_eq!(c.g, c.b);
        assert!((c.r as u32) < SHADE_BOUND);
    }
}

#[test]
fn smallest_canvas_puts_every_seed_at_the_origin() {
    let mut rng = StdRng::seed_from_u64(1);
    let seeds = generate_seeds(10, 2, 2, &mut rng).unwrap();
    for s in &seeds {
        assert_eq!((s.get_x(), s.get_y()), (0, 0));
    }
}

#[test]
fn generator_is_reproducible_with_a_fixed_seed() {
    let a = generate_seeds(50, 800, 600, &mut StdRng::seed_from_u64(9)).unwrap();
    let b = generate_seeds(50, 800, 600, &mut StdRng::seed_from_u64(9)).unwrap();
    assert_eq!(a, b);
}

#[test]
fn generator_rejects_degenerate_requests() {
    let mut rng = StdRng::seed_from_u64(0);
    assert_eq!(generate_seeds(0, 800, 600, &mut rng), Err(VoronoiError::InvalidParameters));
    assert_eq!(generate_seeds(5, 1, 600, &mut rng), Err(VoronoiError::InvalidParameters));
    assert_eq!(generate_seeds(5, 800, 1, &mut rng), Err(VoronoiError::InvalidParameters));
    assert_eq!(generate_seeds(5, 0, 0, &mut rng), Err(VoronoiError::InvalidParameters));
}

#[test]
fn generator_reports_an_impossible_allocation() {
    let mut rng = StdRng::seed_from_u64(0);
    assert_eq!(generate_seeds(usize::MAX, 800, 600, &mut rng), Err(VoronoiError::OutOfResources));
}

#[test]
fn squared_distance_values() {
    assert_eq!(seed(3, 4, 0).get_distance_from(0, 0), 25);
    assert_eq!(seed(0, 0, 0).get_distance_from(3, 4), 25);
    assert_eq!(seed(7, 7, 0).get_distance_from(7, 7), 0);
    let far = seed(u32::MAX, u32::MAX, 0).get_distance_from(0, 0);
    assert_eq!(far, 2 * (u32::MAX as u128) * (u32::MAX as u128));
}

#[test]
fn gray_sets_all_channels() {
    assert_eq!(Rgb::gray(77), Rgb { r: 77, g: 77, b: 77 });
}
