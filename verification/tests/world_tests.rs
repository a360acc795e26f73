use voronator::delaunator::Point as VPoint;
use voronator::VoronoiDiagram;

use worldgen::biome::determine_biome;
use worldgen::biome::Biome;
use worldgen::biome::MOUNTAIN_LEVEL;
use worldgen::biome::SEA_LEVEL;
use worldgen::grid::GridError;
use worldgen::raster::World as RasterWorld;
use worldgen::raster::WorldError as RasterWorldError;
use worldgen::geometry::calculate_polygon_centroid;
use worldgen::geometry::isqrt;
use worldgen::geometry::polygon_area2;
use worldgen::geometry::Point;
use worldgen::world::generate_points;
use worldgen::world::lloyd_relaxation;
use worldgen::world::World;
use worldgen::world::WorldError;

/// Builds the clipped Voronoi diagram of the sites over `[0, w] x [0, h]`
/// and rounds every cell polygon back into fixed-point vertices.
fn voronoi_polygons(points: &[Point], w: i64, h: i64) -> Vec<Vec<Point>> {
    let coords: Vec<(f64, f64)> = points.iter().map(|p| (p.x as f64, p.y as f64)).collect();
    let diagram =
        VoronoiDiagram::<VPoint>::from_tuple(&(0.0, 0.0), &(w as f64, h as f64), &coords)
            .expect("voronoi construction");
    diagram
        .cells()
        .iter()
        .map(|cell| {
            cell.points()
                .iter()
                .map(|q| Point {
                    x: (q.x.round() as i64).clamp(0, w),
                    y: (q.y.round() as i64).clamp(0, h),
                })
                .collect()
        })
        .collect()
}

fn build_world(width: i64, height: i64, num_cells: usize, seed: u32) -> World {
    let mut points = generate_points(width, height, num_cells, seed);
    for _ in 0..2 {
        let polygons = voronoi_polygons(&points, width, height);
        points = lloyd_relaxation(&points, &polygons, width, height);
    }
    let polygons = voronoi_polygons(&points, width, height);
    World::new(width, height, seed, points, polygons).unwrap()
}

#[test]
fn biome_ladder_interior_values() {
    assert_eq!(determine_biome(1000), Biome::Ocean);
    assert_eq!(determine_biome(4500), Biome::Forest);
    assert_eq!(determine_biome(8000), Biome::Mountain);
}

#[test]
fn biome_ladder_boundaries_are_forest() {
    // Both thresholds resolve to the Forest side: the ladder uses strict
    // comparisons on each boundary.
    assert_eq!(determine_biome(3000), Biome::Forest);
    assert_eq!(determine_biome(6000), Biome::Forest);
    assert_eq!(determine_biome(2999), Biome::Ocean);
    assert_eq!(determine_biome(6001), Biome::Mountain);
}

#[test]
fn isqrt_exact_values() {
    assert_eq!(isqrt(0), 0);
    assert_eq!(isqrt(1), 1);
    assert_eq!(isqrt(15), 3);
    assert_eq!(isqrt(16), 4);
    assert_eq!(isqrt(1_000_000_000_000_000_000), 1_000_000_000);
}

#[test]
fn centroid_of_a_square() {
    let square = vec![
        Point { x: 0, y: 0 },
        Point { x: 10, y: 0 },
        Point { x: 10, y: 10 },
        Point { x: 0, y: 10 },
    ];
    assert_eq!(polygon_area2(&square), 200);
    let c = calculate_polygon_centroid(&square);
    assert_eq!(c, Point { x: 5, y: 5 });
}

#[test]
fn centroid_clockwise_square_agrees() {
    let square = vec![
        Point { x: 0, y: 10 },
        Point { x: 10, y: 10 },
        Point { x: 10, y: 0 },
        Point { x: 0, y: 0 },
    ];
    assert_eq!(polygon_area2(&square), -200);
    let c = calculate_polygon_centroid(&square);
    assert_eq!(c, Point { x: 5, y: 5 });
}

#[test]
fn centroid_degenerate_polygon_averages_vertices() {
    let segment = vec![Point { x: 0, y: 0 }, Point { x: 4, y: 0 }];
    assert_eq!(polygon_area2(&segment), 0);
    let c = calculate_polygon_centroid(&segment);
    assert_eq!(c, Point { x: 2, y: 0 });
}

#[test]
fn generate_points_deterministic_and_in_range() {
    let a = generate_points(1000, 800, 64, 5);
    let b = generate_points(1000, 800, 64, 5);
    assert_eq!(a.len(), 64);
    assert_eq!(a, b);
    for p in &a {
        assert!(0 <= p.x && p.x < 1000);
        assert!(0 <= p.y && p.y < 800);
    }
    let c = generate_points(1000, 800, 64, 6);
    assert_ne!(a, c);
}

#[test]
fn lloyd_keeps_site_with_empty_polygon() {
    let points = vec![Point { x: 3, y: 4 }];
    let polygons: Vec<Vec<Point>> = vec![vec![]];
    let relaxed = lloyd_relaxation(&points, &polygons, 10, 10);
    assert_eq!(relaxed, points);
}

#[test]
fn lloyd_clamps_centroid_into_domain() {
    let points = vec![Point { x: 1, y: 1 }];
    let polygons = vec![vec![
        Point { x: 0, y: 0 },
        Point { x: 30, y: 0 },
        Point { x: 30, y: 30 },
        Point { x: 0, y: 30 },
    ]];
    let relaxed = lloyd_relaxation(&points, &polygons, 10, 10);
    assert_eq!(relaxed, vec![Point { x: 10, y: 10 }]);
}

#[test]
fn world_rejects_zero_dimensions() {
    assert!(matches!(
        World::new(0, 100, 7, vec![], vec![]),
        Err(WorldError::InvalidDimensions)
    ));
    assert!(matches!(
        World::new(100, 0, 7, vec![], vec![]),
        Err(WorldError::InvalidDimensions)
    ));
}

#[test]
fn raster_world_rejects_zero_dimensions() {
    assert!(matches!(
        RasterWorld::new(0, 10),
        Err(RasterWorldError::GridError(GridError::InvalidDimensions))
    ));
    assert!(matches!(
        RasterWorld::new(10, 0),
        Err(RasterWorldError::GridError(GridError::InvalidDimensions))
    ));
    assert!(RasterWorld::with_seed(10, 10, 3).is_ok());
}

#[test]
fn voronoi_areas_sum_to_the_domain() {
    let width: i64 = 1000;
    let height: i64 = 1000;
    let points = generate_points(width, height, 120, 11);
    let polygons = voronoi_polygons(&points, width, height);
    assert_eq!(polygons.len(), points.len());
    let mut total: i128 = 0;
    for poly in &polygons {
        total += polygon_area2(poly).abs();
    }
    let expected: i128 = 2 * (width as i128) * (height as i128);
    // Vertices are rounded to integer coordinates, so allow one percent.
    let tolerance = expected / 100;
    assert!((total - expected).abs() <= tolerance);
}

fn squared_centroid_distance_sum(points: &[Point], width: i64, height: i64) -> i128 {
    let polygons = voronoi_polygons(points, width, height);
    let mut sum: i128 = 0;
    for (p, poly) in points.iter().zip(polygons.iter()) {
        if poly.is_empty() {
            continue;
        }
        let c = calculate_polygon_centroid(poly);
        let dx = (p.x - c.x) as i128;
        let dy = (p.y - c.y) as i128;
        sum += dx * dx + dy * dy;
    }
    sum
}

#[test]
fn lloyd_does_not_increase_centroid_energy() {
    let width: i64 = 1000;
    let height: i64 = 1000;
    let mut points = generate_points(width, height, 40, 2718);
    assert!(points.len() >= 4);
    let mut energy = squared_centroid_distance_sum(&points, width, height);
    for _ in 0..3 {
        let polygons = voronoi_polygons(&points, width, height);
        points = lloyd_relaxation(&points, &polygons, width, height);
        let next = squared_centroid_distance_sum(&points, width, height);
        assert!(next <= energy);
        energy = next;
    }
}

#[test]
fn end_to_end_world_seed_42() {
    let world = build_world(1000, 1000, 500, 42);
    assert_eq!(world.num_cells, 500);
    assert_eq!(world.cells.len(), 500);
    for cell in &world.cells {
        assert!(cell.polygon.len() >= 3);
        assert!(cell.elevation <= worldgen::UNIT);
        assert!(cell.temperature <= worldgen::UNIT);
        assert_eq!(cell.humidity, 0);
    }
    let oceans: usize = world
        .cells
        .iter()
        .filter(|c| matches!(c.biome, Biome::Ocean))
        .count();
    let again = build_world(1000, 1000, 500, 42);
    let oceans_again: usize = again
        .cells
        .iter()
        .filter(|c| matches!(c.biome, Biome::Ocean))
        .count();
    assert_eq!(oceans, oceans_again);
    for (a, b) in world.cells.iter().zip(again.cells.iter()) {
        assert_eq!(a.elevation, b.elevation);
        assert_eq!(a.temperature, b.temperature);
        assert!(a.biome == b.biome);
        assert_eq!(a.position, b.position);
    }
}

#[test]
fn get_cell_reports_no_containment() {
    let world = build_world(1000, 1000, 32, 9);
    // Containment semantics are deliberately undecided, so the lookup never
    // claims a hit.
    assert!(world.get_cell(Point { x: 500, y: 500 }).is_none());
}

#[test]
fn world_cells_carry_sites_and_ladder() {
    let width: i64 = 1000;
    let height: i64 = 1000;
    let seed: u32 = 77;
    let points = generate_points(width, height, 50, seed);
    let polygons = voronoi_polygons(&points, width, height);
    let world = World::new(width, height, seed, points.clone(), polygons).unwrap();
    for (i, cell) in world.cells.iter().enumerate() {
        assert_eq!(cell.id, i);
        assert_eq!(cell.position, points[i]);
        let expected = if cell.elevation < SEA_LEVEL {
            Biome::Ocean
        } else if cell.elevation > MOUNTAIN_LEVEL {
            Biome::Mountain
        } else {
            Biome::Forest
        };
        assert!(cell.get_biome() == expected);
    }
}
