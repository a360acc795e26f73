//! The polygonal world backend: a relaxed random point set, one clipped
//! convex Voronoi polygon per site, and a classified [`Cell`] for each.
//!
//! The planar subdivision itself is computed by the caller (it is pure
//! geometry over the sites, and every consumer feeds it back in as plain
//! polygons); everything around it — drawing the sites, relocating them
//! toward their cell centroids, classifying each site into a cell and
//! assembling the world — lives here, pinned to pure functions of the seed,
//! the sites and the domain, so a replayed seed reproduces the same world.

use vstd::prelude::*;

use crate::biome::determine_biome;
use crate::biome::determine_biome_spec;
use crate::cell::Cell;
use crate::cell::spec_cell_contains;
use crate::clamp_unit;
use crate::clamp_unit_int;
use crate::geometry::COORD_LIMIT;
use crate::geometry::MAX_POLYGON_LEN;
use crate::geometry::Point;
use crate::geometry::calculate_polygon_centroid;
use crate::geometry::clamp_i64;
use crate::geometry::clamp_i64_spec;
use crate::geometry::isqrt;
use crate::geometry::point_in_domain;
use crate::geometry::polygon_bounded;
use crate::geometry::polygon_centroid_spec;
use crate::geometry::sqrt_floor;
use crate::grid::temperature;
use crate::grid::temperature_spec;
use crate::noise::NoiseGenerator;
use crate::noise::continent_spec;
use crate::rng::Lcg;
use crate::rng::lcg_draw_spec;
use crate::rng::lcg_state_spec;
use crate::UNIT;

verus! {

/// Failures of polygonal world construction.
#[derive(Debug, Clone, Copy, PartialEq, Eq, Structural)]
pub enum WorldError {
    InvalidDimensions,
}

/// Radial falloff distance of a site from the domain center, in fixed
/// point: the Euclidean distance of `(x, y)` to `(w/2, h/2)` — with the
/// horizontal offset halved — normalized by half the domain width.
pub open spec fn site_distance_spec(x: int, y: int, w: int, h: int) -> int {
    let dxq = if 2 * x >= w {
        2 * x - w
    } else {
        w - 2 * x
    };
    let dyq = if 2 * y >= h {
        2 * y - h
    } else {
        h - 2 * y
    };
    let s = sqrt_floor((dxq * dxq / 4 + dyq * dyq) as nat);
    s * (UNIT as int) / (2 * w)
}

/// Site elevation: one continental noise sample minus `1.5` times the
/// radial falloff, clamped to `[0, UNIT]`.  No detail layer in this variant.
pub open spec fn cell_elevation_spec(seed: u32, p: Point, w: i64, h: i64) -> u32 {
    let continent = continent_spec(seed, p.x as u64, p.y as u64) as int;
    let d = site_distance_spec(p.x as int, p.y as int, w as int, h as int);
    clamp_unit_int(continent - d * 3 / 2)
}

/// Site temperature: the shared latitude/altitude/noise mix, fed with the
/// site's own elevation.
pub open spec fn cell_temperature_spec(seed: u32, p: Point, w: i64, h: i64) -> u32 {
    temperature_spec(seed, p.x as u64, p.y as u64, h as u64, cell_elevation_spec(seed, p, w, h))
}

/// Site elevation, as [`cell_elevation_spec`] says.
pub fn classify_elevation(p: Point, width: i64, height: i64, noise: &NoiseGenerator) -> (r: u32)
    requires
        0 < width <= COORD_LIMIT,
        0 < height <= COORD_LIMIT,
        point_in_domain(p, width, height),
    ensures
        r == cell_elevation_spec(noise.seed, p, width, height),
        r <= UNIT,
{
    let continent = noise.continent_map(p.x as u64, p.y as u64);
    let dxq: u64 = if 2 * p.x >= width {
        (2 * p.x - width) as u64
    } else {
        (width - 2 * p.x) as u64
    };
    let dyq: u64 = if 2 * p.y >= height {
        (2 * p.y - height) as u64
    } else {
        (height - 2 * p.y) as u64
    };
    assert(dxq * dxq <= 1_000_000_000_000_000_000 && dyq * dyq <= 1_000_000_000_000_000_000)
        by (nonlinear_arith)
        requires
            dxq <= 1_000_000_000,
            dyq <= 1_000_000_000,
    ;
    let q = dxq * dxq / 4 + dyq * dyq;
    let s = isqrt(q);
    assert(s <= 1_200_000_000) by (nonlinear_arith)
        requires
            s * s <= 1_250_000_000_000_000_000,
    ;
    let d = s * (UNIT as u64) / (2 * (width as u64));
    assert(s * 10000 / (2 * (width as int)) <= 6_000_000_000_000) by (nonlinear_arith)
        requires
            s <= 1_200_000_000,
            0 < width as int,
    ;
    let fall = d * 3 / 2;
    let e: i64 = continent as i64 - fall as i64;
    clamp_unit(e)
}

/// Everything [`create_cells`] promises of one produced cell: identity,
/// geometry carried through, and classification pinned to the site.
pub open spec fn spec_cell_ok(
    c: Cell,
    i: int,
    site: Point,
    poly: Seq<Point>,
    w: i64,
    h: i64,
    seed: u32,
) -> bool {
    &&& c.id == i
    &&& c.polygon@ == poly
    &&& c.position == site
    &&& c.elevation == cell_elevation_spec(seed, site, w, h)
    &&& c.temperature == cell_temperature_spec(seed, site, w, h)
    &&& c.biome == determine_biome_spec(cell_elevation_spec(seed, site, w, h))
    &&& c.humidity == 0
}

fn copy_polygon(src: &Vec<Point>) -> (r: Vec<Point>)
    ensures
        r@ == src@,
{
    let mut r: Vec<Point> = Vec::new();
    let mut i: usize = 0;
    while i < src.len()
        invariant
            i <= src.len(),
            r@.len() == i,
            forall|j: int| 0 <= j < i ==> r@[j] == src@[j],
        decreases src.len() - i,
    {
        r.push(src[i]);
        i = i + 1;
    }
    assert(r@ =~= src@);
    r
}

/// Builds one classified cell per site: the site's polygon and position are
/// carried through, and elevation, temperature and biome are derived from
/// the seed and the site alone.  Humidity has no derivation and is zero.
pub fn create_cells(
    points: &Vec<Point>,
    polygons: &Vec<Vec<Point>>,
    width: i64,
    height: i64,
    seed: u32,
) -> (r: Vec<Cell>)
    requires
        polygons.len() == points.len(),
        0 < width <= COORD_LIMIT,
        0 < height <= COORD_LIMIT,
        forall|i: int|
            0 <= i < points.len() ==> point_in_domain(#[trigger] points@[i], width, height),
    ensures
        r.len() == points.len(),
        forall|i: int|
            0 <= i < r.len() ==> spec_cell_ok(
                #[trigger] r@[i],
                i,
                points@[i],
                polygons@[i]@,
                width,
                height,
                seed,
            ),
{
    let noise = NoiseGenerator::new(seed);
    let n = points.len();
    let mut cells: Vec<Cell> = Vec::new();
    let mut i: usize = 0;
    while i < n
        invariant
            i <= n,
            n == points.len(),
            polygons.len() == n,
            0 < width <= COORD_LIMIT,
            0 < height <= COORD_LIMIT,
            noise.seed == seed,
            forall|k: int|
                0 <= k < n ==> point_in_domain(#[trigger] points@[k], width, height),
            cells@.len() == i,
            forall|k: int|
                0 <= k < i ==> spec_cell_ok(
                    #[trigger] cells@[k],
                    k,
                    points@[k],
                    polygons@[k]@,
                    width,
                    height,
                    seed,
                ),
        decreases n - i,
    {
        let site = points[i];
        let polygon = copy_polygon(&polygons[i]);
        let elevation = classify_elevation(site, width, height, &noise);
        let temp = temperature(site.x as u64, site.y as u64, height as u64, elevation, &noise);
        let biome = determine_biome(elevation);
        let cell = Cell::new(i, polygon, site, biome, elevation, temp, 0);
        cells.push(cell);
        i = i + 1;
    }
    cells
}

/// The site drawn `i`-th from a generator seeded with `seed`: two
/// consecutive draws reduced into `[0, width)` and `[0, height)`.
pub open spec fn point_at_spec(seed: u32, width: i64, height: i64, i: int) -> Point {
    Point {
        x: (lcg_draw_spec(seed, (2 * i) as nat) % (width as u64)) as i64,
        y: (lcg_draw_spec(seed, (2 * i + 1) as nat) % (height as u64)) as i64,
    }
}

/// Draws `count` independent uniform sites over `[0, width) x [0, height)`
/// from the explicitly seeded generator; the whole sequence is a pure
/// function of the seed.
pub fn generate_points(width: i64, height: i64, count: usize, seed: u32) -> (r: Vec<Point>)
    requires
        0 < width <= COORD_LIMIT,
        0 < height <= COORD_LIMIT,
    ensures
        r.len() == count,
        forall|i: int| 0 <= i < count ==> #[trigger] r@[i] == point_at_spec(seed, width, height, i),
        forall|i: int|
            0 <= i < count ==> point_in_domain(#[trigger] r@[i], width, height) && r@[i].x < width
                && r@[i].y < height,
{
    let mut rng = Lcg::new(seed);
    let mut points: Vec<Point> = Vec::new();
    let mut i: usize = 0;
    while i < count
        invariant
            i <= count,
            0 < width <= COORD_LIMIT,
            0 < height <= COORD_LIMIT,
            rng.state == lcg_state_spec(seed, (2 * i) as nat),
            points@.len() == i,
            forall|k: int|
                0 <= k < i ==> #[trigger] points@[k] == point_at_spec(seed, width, height, k),
            forall|k: int|
                0 <= k < i ==> point_in_domain(#[trigger] points@[k], width, height)
                    && points@[k].x < width && points@[k].y < height,
        decreases count - i,
    {
        let xv = rng.next_below(width as u64);
        assert(lcg_state_spec(seed, (2 * i + 1) as nat) == crate::rng::lcg_next_spec(
            lcg_state_spec(seed, (2 * i) as nat),
        ));
        let yv = rng.next_below(height as u64);
        assert(lcg_state_spec(seed, (2 * i + 2) as nat) == crate::rng::lcg_next_spec(
            lcg_state_spec(seed, (2 * i + 1) as nat),
        ));
        let p = Point { x: xv as i64, y: yv as i64 };
        points.push(p);
        i = i + 1;
    }
    points
}

/// Where one relaxation pass puts a site: the clamped centroid of its cell
/// polygon, or the site unchanged if the polygon is empty.
pub open spec fn lloyd_point_spec(p: Point, poly: Seq<Point>, w: i64, h: i64) -> Point {
    if poly.len() == 0 {
        p
    } else {
        let c = polygon_centroid_spec(poly);
        Point { x: clamp_i64_spec(c.x, 0, w), y: clamp_i64_spec(c.y, 0, h) }
    }
}

/// One Lloyd relaxation pass: every site moves to the centroid of its
/// current cell polygon, clamped into the domain rectangle; a site with an
/// empty polygon stays where it was.  Index-to-site correspondence is
/// preserved, and the pass is a pure function of its inputs.
pub fn lloyd_relaxation(
    points: &Vec<Point>,
    polygons: &Vec<Vec<Point>>,
    width: i64,
    height: i64,
) -> (r: Vec<Point>)
    requires
        polygons.len() == points.len(),
        0 < width <= COORD_LIMIT,
        0 < height <= COORD_LIMIT,
        forall|i: int|
            0 <= i < points.len() ==> point_in_domain(#[trigger] points@[i], width, height),
        forall|i: int| 0 <= i < polygons.len() ==> polygon_bounded((#[trigger] polygons@[i])@),
        forall|i: int| 0 <= i < polygons.len() ==> (#[trigger] polygons@[i])@.len()
            <= MAX_POLYGON_LEN,
    ensures
        r.len() == points.len(),
        forall|i: int|
            0 <= i < r.len() ==> #[trigger] r@[i] == lloyd_point_spec(
                points@[i],
                polygons@[i]@,
                width,
                height,
            ),
        forall|i: int| 0 <= i < r.len() ==> point_in_domain(#[trigger] r@[i], width, height),
{
    let n = points.len();
    let mut out: Vec<Point> = Vec::new();
    let mut i: usize = 0;
    while i < n
        invariant
            i <= n,
            n == points.len(),
            polygons.len() == n,
            0 < width <= COORD_LIMIT,
            0 < height <= COORD_LIMIT,
            forall|k: int|
                0 <= k < n ==> point_in_domain(#[trigger] points@[k], width, height),
            forall|k: int| 0 <= k < n ==> polygon_bounded((#[trigger] polygons@[k])@),
            forall|k: int| 0 <= k < n ==> (#[trigger] polygons@[k])@.len() <= MAX_POLYGON_LEN,
            out@.len() == i,
            forall|k: int|
                0 <= k < i ==> #[trigger] out@[k] == lloyd_point_spec(
                    points@[k],
                    polygons@[k]@,
                    width,
                    height,
                ),
            forall|k: int| 0 <= k < i ==> point_in_domain(#[trigger] out@[k], width, height),
        decreases n - i,
    {
        let poly = &polygons[i];
        if poly.len() == 0 {
            out.push(points[i]);
        } else {
            let c = calculate_polygon_centroid(poly);
            let nx = clamp_i64(c.x, 0, width);
            let ny = clamp_i64(c.y, 0, height);
            out.push(Point { x: nx, y: ny });
        }
        i = i + 1;
    }
    out
}

/// The polygonal world: its seed, its classified cells in site order, and
/// the domain rectangle.  Immutable after construction.
#[derive(Debug)]
pub struct World {
    pub seed: u32,
    pub num_cells: usize,
    pub cells: Vec<Cell>,
    pub width: i64,
    pub height: i64,
}

impl World {
    /// Assembles a world from its sites and their cell polygons: one
    /// classified cell per site, in site order.  Zero-sized domains are
    /// rejected as invalid dimensions.
    pub fn new(
        width: i64,
        height: i64,
        seed: u32,
        points: Vec<Point>,
        polygons: Vec<Vec<Point>>,
    ) -> (r: Result<World, WorldError>)
        requires
            width <= COORD_LIMIT,
            height <= COORD_LIMIT,
            polygons.len() == points.len(),
            (0 < width && 0 < height) ==> forall|i: int|
                0 <= i < points.len() ==> point_in_domain(#[trigger] points@[i], width, height),
        ensures
            match r {
                Ok(w) => {
                    &&& 0 < width && 0 < height
                    &&& w.seed == seed
                    &&& w.width == width
                    &&& w.height == height
                    &&& w.num_cells == points.len()
                    &&& w.cells.len() == points.len()
                    &&& forall|i: int|
                        0 <= i < w.cells.len() ==> spec_cell_ok(
                            #[trigger] w.cells@[i],
                            i,
                            points@[i],
                            polygons@[i]@,
                            width,
                            height,
                            seed,
                        )
                },
                Err(e) => (width <= 0 || height <= 0) && e == WorldError::InvalidDimensions,
            },
    {
        if width <= 0 || height <= 0 {
            return Err(WorldError::InvalidDimensions);
        }
        let num_cells = points.len();
        let cells = create_cells(&points, &polygons, width, height, seed);
        Ok(World { seed, num_cells, cells, width, height })
    }

    /// Linear scan for the cell containing `position`, by each cell's
    /// containment test.
    pub fn get_cell(&self, position: Point) -> (r: Option<&Cell>)
        ensures
            match r {
                Some(c) => exists|i: int|
                    0 <= i < self.cells.len() && *c == self.cells@[i] && spec_cell_contains(
                        #[trigger] self.cells@[i],
                        position,
                    ),
                None => forall|i: int|
                    0 <= i < self.cells.len() ==> !spec_cell_contains(
                        #[trigger] self.cells@[i],
                        position,
                    ),
            },
    {
        let n = self.cells.len();
        let mut i: usize = 0;
        while i < n
            invariant
                i <= n,
                n == self.cells.len(),
                forall|j: int|
                    0 <= j < i ==> !spec_cell_contains(#[trigger] self.cells@[j], position),
            decreases n - i,
        {
            if self.cells[i].is_inside(position) {
                return Some(&self.cells[i]);
            }
            i = i + 1;
        }
        None
    }
}

/// Determinism of the polygonal path: classification is a pure function of
/// the seed, the site and the domain, so two worlds assembled from the same
/// seed, dimensions, sites and polygons agree on every cell's elevation,
/// temperature and biome.
pub proof fn lemma_world_deterministic(
    a: World,
    b: World,
    points: Seq<Point>,
    polygons: Seq<Seq<Point>>,
    width: i64,
    height: i64,
    seed: u32,
)
    requires
        a.cells.len() == points.len(),
        b.cells.len() == points.len(),
        forall|i: int|
            0 <= i < points.len() ==> spec_cell_ok(
                #[trigger] a.cells@[i],
                i,
                points[i],
                polygons[i],
                width,
                height,
                seed,
            ),
        forall|i: int|
            0 <= i < points.len() ==> spec_cell_ok(
                #[trigger] b.cells@[i],
                i,
                points[i],
                polygons[i],
                width,
                height,
                seed,
            ),
    ensures
        forall|i: int|
            0 <= i < points.len() ==> #[trigger] a.cells@[i].elevation == b.cells@[i].elevation
                && a.cells@[i].temperature == b.cells@[i].temperature && a.cells@[i].biome
                == b.cells@[i].biome,
{
}

} // verus!
