//! The dense raster backend: a per-pixel elevation and temperature field.
//!
//! Every output index depends only on the immutable noise parameters and, for
//! temperature, on the already-final elevation at the same index, so each
//! entry is pinned to a pure function of `(seed, x, y, width, height)`; the
//! generated maps are therefore bit-identical across runs with one seed.

use vstd::prelude::*;

use crate::biome::SEA_LEVEL;
use crate::clamp_unit;
use crate::clamp_unit_int;
use crate::geometry::sqrt_floor;
use crate::geometry::isqrt;
use crate::noise::NoiseGenerator;
use crate::noise::continent_spec;
use crate::noise::detail_spec;
use crate::noise::temperature_noise_spec;
use crate::UNIT;

verus! {

/// Largest raster side length accepted.
pub const MAX_DIM: usize = 1_000_000_000;

/// `UNIT` cubed, the divisor of the fourth-power altitude term.
pub const UNIT_CUBED: u64 = 1_000_000_000_000;

/// Failures of raster construction.
#[derive(Debug, Clone, Copy, PartialEq, Eq, Structural)]
pub enum GridError {
    InvalidDimensions,
}

/// Twice the distance from `v` to the midpoint `(extent - 1) / 2`.
pub open spec fn abs2_center_spec(v: int, extent: int) -> int {
    if 2 * v >= extent - 1 {
        2 * v - (extent - 1)
    } else {
        (extent - 1) - 2 * v
    }
}

/// Normalized horizontal offset from the domain center, in fixed point;
/// the `4 / 5` factor is the `0.8` horizontal margin.
pub open spec fn raster_nx_spec(x: int, w: int) -> int {
    if w <= 1 {
        0
    } else {
        abs2_center_spec(x, w) * 4 * (UNIT as int) / (5 * (w - 1))
    }
}

/// Normalized vertical offset from the domain center, in fixed point
/// (vertical margin one).
pub open spec fn raster_ny_spec(y: int, h: int) -> int {
    if h <= 1 {
        0
    } else {
        abs2_center_spec(y, h) * (UNIT as int) / (h - 1)
    }
}

/// Elliptical radial falloff distance of a raster point from the domain
/// center, normalized and capped at `UNIT`.
pub open spec fn raster_distance_spec(x: int, y: int, w: int, h: int) -> u32 {
    let nx = raster_nx_spec(x, w);
    let ny = raster_ny_spec(y, h);
    let s = sqrt_floor((nx * nx + ny * ny) as nat);
    if s > UNIT as nat {
        UNIT
    } else {
        s as u32
    }
}

/// Raster elevation: continent noise minus the scaled radial falloff, plus a
/// scaled detail perturbation for points above sea level, clamped to
/// `[0, UNIT]`.  The `45 / 100` factor is the falloff coefficient `0.45`,
/// the `425 / 1000` factor the detail coefficient `0.425`.
pub open spec fn elevation_spec(seed: u32, x: u64, y: u64, w: u64, h: u64) -> u32 {
    let continent = continent_spec(seed, x, y) as int;
    let d = raster_distance_spec(x as int, y as int, w as int, h as int) as int;
    let base = continent - d * 45 / 100;
    let e = if base > SEA_LEVEL as int {
        base + (detail_spec(seed, x, y) as int) * 425 / 1000
    } else {
        base
    };
    clamp_unit_int(e)
}

/// The latitude term: `UNIT` at the vertical midline, zero at the edges.
pub open spec fn lat_term_spec(y: int, h: int) -> int {
    let u = 2 * y * (UNIT as int) / h;
    if u >= UNIT as int {
        2 * (UNIT as int) - u
    } else {
        u
    }
}

/// The altitude term: `UNIT` minus the fourth power of the elevation,
/// collapsing temperature at high altitude.
pub open spec fn alt_term_spec(altitude: int) -> int {
    (UNIT as int) - altitude * altitude * altitude * altitude / (UNIT_CUBED as int)
}

/// Temperature: `0.6` latitude + `0.2` altitude + `0.2` noise, in `[0, UNIT]`.
pub open spec fn temperature_spec(seed: u32, x: u64, y: u64, h: u64, altitude: u32) -> u32 {
    let lat = lat_term_spec(y as int, h as int);
    let alt = alt_term_spec(altitude as int);
    let noise = temperature_noise_spec(seed, x, y) as int;
    ((6 * lat + 2 * alt + 2 * noise) / 10) as u32
}

/// The elliptical falloff distance, as [`raster_distance_spec`] says.
pub fn distance(x: u64, y: u64, w: u64, h: u64) -> (r: u32)
    requires
        x < w,
        y < h,
        w <= MAX_DIM,
        h <= MAX_DIM,
    ensures
        r == raster_distance_spec(x as int, y as int, w as int, h as int),
        r <= UNIT,
{
    let nx: u64 = if w <= 1 {
        0
    } else {
        let d2 = if 2 * x >= w - 1 {
            2 * x - (w - 1)
        } else {
            (w - 1) - 2 * x
        };
        let v = d2 * 4 * (UNIT as u64) / (5 * (w - 1));
        assert(d2 * 4 * 10000 / (5 * ((w as int) - 1)) <= 8000) by (nonlinear_arith)
            requires
                d2 <= (w as int) - 1,
                2 <= w as int,
        ;
        v
    };
    let ny: u64 = if h <= 1 {
        0
    } else {
        let d2 = if 2 * y >= h - 1 {
            2 * y - (h - 1)
        } else {
            (h - 1) - 2 * y
        };
        let v = d2 * (UNIT as u64) / (h - 1);
        assert(d2 * 10000 / ((h as int) - 1) <= 10000) by (nonlinear_arith)
            requires
                d2 <= (h as int) - 1,
                2 <= h as int,
        ;
        v
    };
    assert(nx * nx <= 8000 * 8000 && ny * ny <= 10000 * 10000) by (nonlinear_arith)
        requires
            nx <= 8000,
            ny <= 10000,
    ;
    let s = isqrt(nx * nx + ny * ny);
    if s > UNIT as u64 {
        UNIT
    } else {
        s as u32
    }
}

/// Raster elevation at one pixel, as [`elevation_spec`] says.
pub fn elevation(x: u64, y: u64, w: u64, h: u64, noise: &NoiseGenerator) -> (r: u32)
    requires
        x < w,
        y < h,
        w <= MAX_DIM,
        h <= MAX_DIM,
    ensures
        r == elevation_spec(noise.seed, x, y, w, h),
        r <= UNIT,
{
    let continent = noise.continent_map(x, y);
    let d = distance(x, y, w, h);
    let fall = (d as u64) * 45 / 100;
    let base: i64 = continent as i64 - fall as i64;
    let e: i64 = if base > SEA_LEVEL as i64 {
        let detail = noise.detail_map(x, y);
        base + ((detail as u64) * 425 / 1000) as i64
    } else {
        base
    };
    clamp_unit(e)
}

/// Temperature at one point, as [`temperature_spec`] says; `altitude` is the
/// already-computed elevation of the same point.
pub fn temperature(x: u64, y: u64, h: u64, altitude: u32, noise: &NoiseGenerator) -> (r: u32)
    requires
        x <= MAX_DIM,
        y <= h,
        0 < h <= MAX_DIM,
        altitude <= UNIT,
    ensures
        r == temperature_spec(noise.seed, x, y, h, altitude),
        r <= UNIT,
{
    let u = 2 * y * (UNIT as u64) / h;
    assert(2 * y * 10000 / (h as int) <= 20000) by (nonlinear_arith)
        requires
            y <= h as int,
            0 < h as int,
    ;
    let lat: u64 = if u >= UNIT as u64 {
        2 * (UNIT as u64) - u
    } else {
        u
    };
    let a = altitude as u64;
    assert(a * a <= 100_000_000) by (nonlinear_arith)
        requires
            a <= 10000,
    ;
    let a2 = a * a;
    assert(a2 * a2 <= 10_000_000_000_000_000 && a2 * a2 == a * a * a * a) by (nonlinear_arith)
        requires
            a2 <= 100_000_000,
            a2 == a * a,
    ;
    let a4 = a2 * a2;
    let alt: u64 = (UNIT as u64) - a4 / UNIT_CUBED;
    let nt = noise.temperature_noise(x, y);
    ((6 * lat + 2 * alt + 2 * (nt as u64)) / 10) as u32
}

/// A dense raster of fixed-point elevation and temperature values over a
/// `width x height` pixel grid, indexed by `y * width + x`.
#[derive(Debug)]
pub struct Grid {
    seed: u32,
    width: usize,
    height: usize,
    noise: NoiseGenerator,
    height_map: Vec<u32>,
    temperature_map: Vec<u32>,
}

impl Grid {
    pub closed spec fn spec_seed(&self) -> u32 {
        self.seed
    }

    pub closed spec fn spec_width(&self) -> usize {
        self.width
    }

    pub closed spec fn spec_height(&self) -> usize {
        self.height
    }

    pub closed spec fn spec_height_map(&self) -> Seq<u32> {
        self.height_map@
    }

    pub closed spec fn spec_temperature_map(&self) -> Seq<u32> {
        self.temperature_map@
    }

    /// The structural invariant: both maps cover the grid exactly, all
    /// values are fixed-point unit values, and the noise source carries the
    /// grid's seed.
    pub closed spec fn wf(&self) -> bool {
        &&& 0 < self.width <= MAX_DIM
        &&& 0 < self.height <= MAX_DIM
        &&& self.width * self.height <= usize::MAX
        &&& self.height_map@.len() == self.width * self.height
        &&& self.temperature_map@.len() == self.width * self.height
        &&& self.noise.seed == self.seed
        &&& forall|i: int|
            0 <= i < self.height_map@.len() ==> #[trigger] self.height_map@[i] <= UNIT
        &&& forall|i: int|
            0 <= i < self.temperature_map@.len() ==> #[trigger] self.temperature_map@[i] <= UNIT
    }

    /// Builds a grid over `width x height` pixels with a freshly drawn seed;
    /// both maps start all-zero.  Zero width or height is rejected.
    pub fn new(width: usize, height: usize) -> (r: Result<Grid, GridError>)
        requires
            width <= MAX_DIM,
            height <= MAX_DIM,
            width * height <= usize::MAX,
        ensures
            match r {
                Ok(g) => {
                    &&& width != 0 && height != 0
                    &&& g.wf()
                    &&& g.spec_width() == width
                    &&& g.spec_height() == height
                    &&& forall|i: int| 0 <= i < width * height ==> g.spec_height_map()[i] == 0u32
                    &&& forall|i: int|
                        0 <= i < width * height ==> g.spec_temperature_map()[i] == 0u32
                },
                Err(e) => (width == 0 || height == 0) && e == GridError::InvalidDimensions,
            },
    {
        let seed = random_seed();
        Grid::with_seed(width, height, seed)
    }

    /// Builds a grid with an explicit seed, for reproducible generations.
    pub fn with_seed(width: usize, height: usize, seed: u32) -> (r: Result<Grid, GridError>)
        requires
            width <= MAX_DIM,
            height <= MAX_DIM,
            width * height <= usize::MAX,
        ensures
            match r {
                Ok(g) => {
                    &&& width != 0 && height != 0
                    &&& g.wf()
                    &&& g.spec_seed() == seed
                    &&& g.spec_width() == width
                    &&& g.spec_height() == height
                    &&& forall|i: int| 0 <= i < width * height ==> g.spec_height_map()[i] == 0u32
                    &&& forall|i: int|
                        0 <= i < width * height ==> g.spec_temperature_map()[i] == 0u32
                },
                Err(e) => (width == 0 || height == 0) && e == GridError::InvalidDimensions,
            },
    {
        if width == 0 || height == 0 {
            return Err(GridError::InvalidDimensions);
        }
        let size = width * height;
        let height_map = zero_vec(size);
        let temperature_map = zero_vec(size);
        let noise = NoiseGenerator::new(seed);
        Ok(Grid { seed, width, height, noise, height_map, temperature_map })
    }

    /// Fills both maps: elevation first, then temperature, which reads the
    /// elevation already computed for the same index.  Every entry is pinned
    /// to a pure function of the seed and the coordinates, so generation is
    /// deterministic.
    pub fn generate(&mut self)
        requires
            old(self).wf(),
        ensures
            final(self).wf(),
            final(self).spec_seed() == old(self).spec_seed(),
            final(self).spec_width() == old(self).spec_width(),
            final(self).spec_height() == old(self).spec_height(),
            spec_generated(*final(self)),
    {
        let w = self.width;
        let h = self.height;
        let size = w * h;
        let ghost seed = self.seed;

        let mut hm: Vec<u32> = Vec::new();
        let mut idx: usize = 0;
        while idx < size
            invariant
                idx <= size,
                size == w * h,
                0 < w <= MAX_DIM,
                0 < h <= MAX_DIM,
                self.noise.seed == seed,
                hm@.len() == idx,
                forall|i: int|
                    0 <= i < idx ==> #[trigger] hm@[i] == elevation_spec(
                        seed,
                        (i % (w as int)) as u64,
                        (i / (w as int)) as u64,
                        w as u64,
                        h as u64,
                    ),
                forall|i: int| 0 <= i < idx ==> #[trigger] hm@[i] <= UNIT,
            decreases size - idx,
        {
            let x = idx % w;
            let y = idx / w;
            assert((idx as int) % (w as int) < w as int && (idx as int) / (w as int) < h as int)
                by (nonlinear_arith)
                requires
                    0 < w as int,
                    0 <= idx as int,
                    (idx as int) < (w as int) * (h as int),
            ;
            let v = elevation(x as u64, y as u64, w as u64, h as u64, &self.noise);
            hm.push(v);
            idx = idx + 1;
        }

        let mut tm: Vec<u32> = Vec::new();
        idx = 0;
        while idx < size
            invariant
                idx <= size,
                size == w * h,
                0 < w <= MAX_DIM,
                0 < h <= MAX_DIM,
                self.noise.seed == seed,
                hm@.len() == size,
                forall|i: int| 0 <= i < size ==> #[trigger] hm@[i] <= UNIT,
                tm@.len() == idx,
                forall|i: int|
                    0 <= i < idx ==> #[trigger] tm@[i] == temperature_spec(
                        seed,
                        (i % (w as int)) as u64,
                        (i / (w as int)) as u64,
                        h as u64,
                        hm@[i],
                    ),
                forall|i: int| 0 <= i < idx ==> #[trigger] tm@[i] <= UNIT,
            decreases size - idx,
        {
            let x = idx % w;
            let y = idx / w;
            assert((idx as int) % (w as int) < w as int && (idx as int) / (w as int) < h as int)
                by (nonlinear_arith)
                requires
                    0 < w as int,
                    0 <= idx as int,
                    (idx as int) < (w as int) * (h as int),
            ;
            let altitude = hm[idx];
            let v = temperature(x as u64, y as u64, h as u64, altitude, &self.noise);
            tm.push(v);
            idx = idx + 1;
        }

        self.height_map = hm;
        self.temperature_map = tm;
    }

    /// The elevation stored at pixel `(x, y)`.
    pub fn get_height_at(&self, x: usize, y: usize) -> (r: u32)
        requires
            self.wf(),
            x < self.spec_width(),
            y < self.spec_height(),
        ensures
            r == self.spec_height_map()[y * self.spec_width() + x],
            r <= UNIT,
    {
        proof {
            lemma_index_in_range(x as int, y as int, self.width as int, self.height as int);
        }
        self.height_map[y * self.width + x]
    }

    /// The temperature stored at pixel `(x, y)`.
    pub fn get_temperature_at(&self, x: usize, y: usize) -> (r: u32)
        requires
            self.wf(),
            x < self.spec_width(),
            y < self.spec_height(),
        ensures
            r == self.spec_temperature_map()[y * self.spec_width() + x],
            r <= UNIT,
    {
        proof {
            lemma_index_in_range(x as int, y as int, self.width as int, self.height as int);
        }
        self.temperature_map[y * self.width + x]
    }

    pub fn get_seed(&self) -> (r: u32)
        ensures
            r == self.spec_seed(),
    {
        self.seed
    }

    pub fn width(&self) -> (r: usize)
        ensures
            r == self.spec_width(),
    {
        self.width
    }

    pub fn height(&self) -> (r: usize)
        ensures
            r == self.spec_height(),
    {
        self.height
    }

    /// The full elevation map, indexed by `y * width + x`.
    pub fn height_map(&self) -> (r: &Vec<u32>)
        ensures
            r@ == self.spec_height_map(),
    {
        &self.height_map
    }

    /// The full temperature map, indexed by `y * width + x`.
    pub fn temperature_map(&self) -> (r: &Vec<u32>)
        ensures
            r@ == self.spec_temperature_map(),
    {
        &self.temperature_map
    }

    /// Whether the pixel sits on land and touches the sea: false when the
    /// pixel itself is below sea level, otherwise true exactly when one of
    /// its up-to-8 in-bounds neighbors is below sea level.
    pub fn neighbors_is_sea(&self, x: usize, y: usize) -> (r: bool)
        requires
            self.wf(),
            x < self.spec_width(),
            y < self.spec_height(),
        ensures
            r == spec_neighbors_is_sea(
                self.spec_height_map(),
                self.spec_width() as int,
                self.spec_height() as int,
                x as int,
                y as int,
            ),
            self.spec_height_map()[y * self.spec_width() + x] < SEA_LEVEL ==> !r,
    {
        let w = self.width;
        let h = self.height;
        if self.get_height_at(x, y) < SEA_LEVEL {
            return false;
        }
        if x > 0 && y > 0 && self.get_height_at(x - 1, y - 1) < SEA_LEVEL {
            return true;
        }
        if y > 0 && self.get_height_at(x, y - 1) < SEA_LEVEL {
            return true;
        }
        if x + 1 < w && y > 0 && self.get_height_at(x + 1, y - 1) < SEA_LEVEL {
            return true;
        }
        if x > 0 && self.get_height_at(x - 1, y) < SEA_LEVEL {
            return true;
        }
        if x + 1 < w && self.get_height_at(x + 1, y) < SEA_LEVEL {
            return true;
        }
        if x > 0 && y + 1 < h && self.get_height_at(x - 1, y + 1) < SEA_LEVEL {
            return true;
        }
        if y + 1 < h && self.get_height_at(x, y + 1) < SEA_LEVEL {
            return true;
        }
        if x + 1 < w && y + 1 < h && self.get_height_at(x + 1, y + 1) < SEA_LEVEL {
            return true;
        }
        false
    }
}

/// There is an in-bounds neighbor of `(x, y)` (self excluded) whose stored
/// elevation lies below sea level.
pub open spec fn has_neighbor_below_sea(map: Seq<u32>, w: int, h: int, x: int, y: int) -> bool {
    exists|nx: int, ny: int|
        0 <= nx < w && 0 <= ny < h && x - 1 <= nx <= x + 1 && y - 1 <= ny <= y + 1 && !(nx == x
            && ny == y) && #[trigger] map[ny * w + nx] < SEA_LEVEL
}

/// What [`Grid::neighbors_is_sea`] decides.
pub open spec fn spec_neighbors_is_sea(map: Seq<u32>, w: int, h: int, x: int, y: int) -> bool {
    map[y * w + x] >= SEA_LEVEL && has_neighbor_below_sea(map, w, h, x, y)
}

/// The grid's maps hold exactly the generated field of its seed and size:
/// every entry is the pure elevation or temperature function of
/// `(seed, x, y, width, height)` at its index.
pub open spec fn spec_generated(g: Grid) -> bool {
    &&& forall|i: int|
        0 <= i < g.spec_width() * g.spec_height() ==> #[trigger] g.spec_height_map()[i]
            == elevation_spec(
            g.spec_seed(),
            (i % (g.spec_width() as int)) as u64,
            (i / (g.spec_width() as int)) as u64,
            g.spec_width() as u64,
            g.spec_height() as u64,
        )
    &&& forall|i: int|
        0 <= i < g.spec_width() * g.spec_height() ==> #[trigger] g.spec_temperature_map()[i]
            == temperature_spec(
            g.spec_seed(),
            (i % (g.spec_width() as int)) as u64,
            (i / (g.spec_width() as int)) as u64,
            g.spec_height() as u64,
            g.spec_height_map()[i],
        )
}

/// A well-formed grid's maps cover exactly `width * height` entries and
/// every stored value lies in the fixed-point unit interval.
pub proof fn lemma_raster_range(g: Grid)
    requires
        g.wf(),
    ensures
        g.spec_height_map().len() == g.spec_width() * g.spec_height(),
        g.spec_temperature_map().len() == g.spec_width() * g.spec_height(),
        forall|i: int|
            0 <= i < g.spec_height_map().len() ==> #[trigger] g.spec_height_map()[i] <= UNIT,
        forall|i: int|
            0 <= i < g.spec_temperature_map().len() ==> #[trigger] g.spec_temperature_map()[i]
                <= UNIT,
{
}

/// Determinism of raster generation: two generated grids that share a seed
/// and dimensions hold bit-identical elevation and temperature maps.
pub proof fn lemma_generate_deterministic(a: Grid, b: Grid)
    requires
        a.wf(),
        b.wf(),
        spec_generated(a),
        spec_generated(b),
        a.spec_seed() == b.spec_seed(),
        a.spec_width() == b.spec_width(),
        a.spec_height() == b.spec_height(),
    ensures
        a.spec_height_map() == b.spec_height_map(),
        a.spec_temperature_map() == b.spec_temperature_map(),
{
    assert(a.spec_height_map() =~= b.spec_height_map());
    assert(a.spec_temperature_map() =~= b.spec_temperature_map());
}

/// Row-major indexing: `(x, y)` maps to `y * w + x`, which lies inside the
/// map and decomposes back into `x` and `y`.
pub proof fn lemma_index_in_range(x: int, y: int, w: int, h: int)
    requires
        0 <= x < w,
        0 <= y < h,
    ensures
        0 <= y * w + x < w * h,
        (y * w + x) % w == x,
        (y * w + x) / w == y,
{
    assert(0 <= y * w + x < w * h && (y * w + x) % w == x && (y * w + x) / w == y)
        by (nonlinear_arith)
        requires
            0 <= x < w,
            0 <= y < h,
    ;
}

/// Relies on rand::random: draws one fresh seed word from the thread-local
/// generator; nothing is assumed about its value.
#[verifier::external_body]
fn random_seed() -> u32 {
    rand::random::<u32>()
}

fn zero_vec(n: usize) -> (r: Vec<u32>)
    ensures
        r@.len() == n,
        forall|i: int| 0 <= i < n ==> r@[i] == 0u32,
{
    let mut v: Vec<u32> = Vec::new();
    let mut i: usize = 0;
    while i < n
        invariant
            i <= n,
            v@.len() == i,
            forall|j: int| 0 <= j < i ==> v@[j] == 0u32,
        decreases n - i,
    {
        v.push(0);
        i = i + 1;
    }
    v
}

} // verus!
