use worldgen::biome::SEA_LEVEL;
use worldgen::grid::Grid;
use worldgen::grid::GridError;
use worldgen::grid::distance;
use worldgen::noise::NoiseGenerator;
use worldgen::UNIT;

#[test]
fn test_grid_creation() {
    let grid = Grid::new(10, 10).unwrap();
    assert_eq!(grid.width(), 10);
    assert_eq!(grid.height(), 10);
    assert_eq!(grid.height_map().len(), 100);
    assert_eq!(grid.temperature_map().len(), 100);
}

#[test]
fn test_invalid_grid_creation() {
    let result = Grid::new(0, 10);
    assert!(result.is_err());
}

#[test]
fn test_height_and_temperature_generation() {
    let mut grid = Grid::new(10, 10).unwrap();
    grid.generate();
    for y in 0..10 {
        for x in 0..10 {
            let height = grid.get_height_at(x, y);
            let temperature = grid.get_temperature_at(x, y);
            assert!(height <= UNIT);
            assert!(temperature <= UNIT);
        }
    }
}

#[test]
fn test_get_seed() {
    let grid = Grid::new(10, 10).unwrap();
    let seed = grid.get_seed();
    assert!(seed == grid.get_seed());
}

#[test]
fn seeded_grid_keeps_its_seed() {
    let grid = Grid::with_seed(10, 10, 7777).unwrap();
    assert_eq!(grid.get_seed(), 7777);
}

#[test]
fn zero_height_is_invalid_too() {
    assert!(matches!(Grid::new(10, 0), Err(GridError::InvalidDimensions)));
    assert!(matches!(
        Grid::with_seed(0, 0, 5),
        Err(GridError::InvalidDimensions)
    ));
}

#[test]
fn raster_maps_cover_grid_in_unit_range() {
    let mut grid = Grid::with_seed(8, 5, 123).unwrap();
    grid.generate();
    assert_eq!(grid.height_map().len(), 40);
    assert_eq!(grid.temperature_map().len(), 40);
    for y in 0..5 {
        for x in 0..8 {
            assert!(grid.get_height_at(x, y) <= UNIT);
            assert!(grid.get_temperature_at(x, y) <= UNIT);
        }
    }
}

#[test]
fn raster_generation_is_deterministic() {
    let mut a = Grid::with_seed(20, 15, 99).unwrap();
    let mut b = Grid::with_seed(20, 15, 99).unwrap();
    a.generate();
    b.generate();
    assert_eq!(a.height_map(), b.height_map());
    assert_eq!(a.temperature_map(), b.temperature_map());
}

#[test]
fn different_seeds_change_the_field() {
    let mut a = Grid::with_seed(16, 16, 1).unwrap();
    let mut b = Grid::with_seed(16, 16, 2).unwrap();
    a.generate();
    b.generate();
    assert_ne!(a.height_map(), b.height_map());
}

#[test]
fn neighbors_is_sea_false_below_sea_level() {
    let mut grid = Grid::with_seed(12, 12, 4242).unwrap();
    grid.generate();
    for y in 0..12 {
        for x in 0..12 {
            if grid.get_height_at(x, y) < SEA_LEVEL {
                assert!(!grid.neighbors_is_sea(x, y));
            }
        }
    }
}

#[test]
fn neighbors_is_sea_matches_neighborhood_scan() {
    let mut grid = Grid::with_seed(9, 7, 2024).unwrap();
    grid.generate();
    let w: usize = 9;
    let h: usize = 7;
    for y in 0..h {
        for x in 0..w {
            let mut expected = false;
            if grid.get_height_at(x, y) >= SEA_LEVEL {
                for ny in y.saturating_sub(1)..=(y + 1).min(h - 1) {
                    for nx in x.saturating_sub(1)..=(x + 1).min(w - 1) {
                        if (nx, ny) != (x, y) && grid.get_height_at(nx, ny) < SEA_LEVEL {
                            expected = true;
                        }
                    }
                }
            }
            assert_eq!(grid.neighbors_is_sea(x, y), expected);
        }
    }
}

#[test]
fn distance_peaks_at_corners_and_vanishes_at_center() {
    // A symmetric 11 x 11 grid: the center pixel sits exactly on the domain
    // midpoint, so its falloff distance is zero.
    assert_eq!(distance(5, 5, 11, 11), 0);
    // Corner pixels are the farthest; the cap keeps the value at UNIT.
    assert_eq!(distance(0, 0, 11, 11), UNIT);
    // On the vertical midline the horizontal term vanishes: the top edge is
    // exactly one vertical half-extent away, scaled by the margin of one.
    assert_eq!(distance(5, 0, 11, 11), UNIT);
    // Halfway toward the top edge along the midline.
    assert_eq!(distance(5, 2, 11, 11), 6000);
}

#[test]
fn temperature_formula_matches_components() {
    let seed = 31337;
    let mut grid = Grid::with_seed(10, 10, seed).unwrap();
    grid.generate();
    let noise = NoiseGenerator::new(seed);
    for y in 0..10u64 {
        for x in 0..10u64 {
            let altitude = grid.get_height_at(x as usize, y as usize) as u64;
            let u = 2 * y * (UNIT as u64) / 10;
            let lat = if u >= UNIT as u64 {
                2 * (UNIT as u64) - u
            } else {
                u
            };
            let alt = (UNIT as u64) - altitude.pow(4) / 1_000_000_000_000;
            let nt = noise.temperature_noise(x, y) as u64;
            let expected = ((6 * lat + 2 * alt + 2 * nt) / 10) as u32;
            assert_eq!(grid.get_temperature_at(x as usize, y as usize), expected);
        }
    }
}
