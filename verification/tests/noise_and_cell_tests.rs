use worldgen::biome::Biome;
use worldgen::cell::Cell;
use worldgen::geometry::isqrt;
use worldgen::geometry::Point;
use worldgen::noise::NoiseGenerator;
use worldgen::rng::Lcg;
use worldgen::world::classify_elevation;
use worldgen::UNIT;

#[test]
fn noise_channels_stay_in_unit_range() {
    let noise = NoiseGenerator::new(31415);
    for y in (0..2000u64).step_by(97) {
        for x in (0..2000u64).step_by(89) {
            assert!(noise.continent_map(x, y) <= UNIT);
            assert!(noise.detail_map(x, y) <= UNIT);
            assert!(noise.temperature_noise(x, y) <= UNIT);
        }
    }
}

#[test]
fn noise_is_a_pure_function_of_seed_and_point() {
    let a = NoiseGenerator::new(7);
    let b = NoiseGenerator::new(7);
    let c = NoiseGenerator::new(8);
    assert_eq!(a.continent_map(123, 456), b.continent_map(123, 456));
    assert_eq!(a.detail_map(123, 456), b.detail_map(123, 456));
    assert_eq!(a.temperature_noise(123, 456), b.temperature_noise(123, 456));
    // Channels are decorrelated by seed offsets, so a different seed moves
    // at least one channel at this sample point.
    assert!(
        a.continent_map(123, 456) != c.continent_map(123, 456)
            || a.detail_map(123, 456) != c.detail_map(123, 456)
            || a.temperature_noise(123, 456) != c.temperature_noise(123, 456)
    );
}

#[test]
fn noise_varies_across_the_plane() {
    let noise = NoiseGenerator::new(99);
    let mut values = Vec::new();
    for x in (0..4096u64).step_by(512) {
        values.push(noise.continent_map(x, x / 2));
    }
    let first = values[0];
    assert!(values.iter().any(|v| *v != first));
}

#[test]
fn lcg_streams_are_reproducible() {
    let mut a = Lcg::new(1234);
    let mut b = Lcg::new(1234);
    for _ in 0..100 {
        assert_eq!(a.next(), b.next());
    }
    let mut c = Lcg::new(1235);
    let mut differs = false;
    let mut a2 = Lcg::new(1234);
    for _ in 0..10 {
        if a2.next() != c.next() {
            differs = true;
        }
    }
    assert!(differs);
    let mut d = Lcg::new(42);
    for _ in 0..50 {
        assert!(d.next_below(17) < 17);
    }
}

#[test]
fn cell_new_carries_every_field() {
    let polygon = vec![
        Point { x: 0, y: 0 },
        Point { x: 4, y: 0 },
        Point { x: 0, y: 4 },
    ];
    let cell = Cell::new(
        3,
        polygon,
        Point { x: 1, y: 1 },
        Biome::Forest,
        4500,
        2500,
        0,
    );
    assert_eq!(cell.id, 3);
    assert_eq!(cell.polygon.len(), 3);
    assert_eq!(cell.position, Point { x: 1, y: 1 });
    assert!(cell.get_biome() == Biome::Forest);
    assert_eq!(cell.elevation, 4500);
    assert_eq!(cell.temperature, 2500);
    assert_eq!(cell.humidity, 0);
    // Containment is deliberately undecided and reports no hit.
    assert!(!cell.is_inside(Point { x: 1, y: 1 }));
}

#[test]
fn classify_elevation_matches_components() {
    let seed = 2026;
    let noise = NoiseGenerator::new(seed);
    let width: i64 = 1000;
    let height: i64 = 1000;
    for &(x, y) in &[(0i64, 0i64), (500, 500), (999, 1), (250, 750)] {
        let p = Point { x, y };
        let dxq = (2 * x - width).unsigned_abs();
        let dyq = (2 * y - height).unsigned_abs();
        let s = isqrt(dxq * dxq / 4 + dyq * dyq);
        let fall = s * (UNIT as u64) / (2 * width as u64) * 3 / 2;
        let expected = (noise.continent_map(x as u64, y as u64) as i64 - fall as i64)
            .clamp(0, UNIT as i64) as u32;
        assert_eq!(classify_elevation(p, width, height, &noise), expected);
    }
}
