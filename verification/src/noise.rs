//! Seeded multi-octave coherent noise over the integer plane.
//!
//! Each channel is a fractal sum of value-noise octaves: octave `o` samples a
//! lattice of spacing `cell / 2^o` and contributes with amplitude `2^-o`
//! (persistence one half, lacunarity two).  Lattice values come from an
//! integer hash of `(channel seed, lattice point)`, so every sample is a pure
//! function of the generator's seed and the queried coordinates.  All results
//! are fixed-point values in `[0, UNIT]`.

use vstd::prelude::*;

use crate::UNIT;

verus! {

/// Lattice coordinates are bounded so that octave arithmetic cannot overflow.
pub const MAX_NOISE_COORD: u64 = 0x4000_0000_0000;

pub const HASH_X: u64 = 0x9E37_79B9_7F4A_7C15;
pub const HASH_Y: u64 = 0xC2B2_AE3D_27D4_EB4F;
pub const HASH_SEED: u64 = 0xD6E8_FEB8_6659_FD93;
pub const HASH_MIX: u64 = 0xFF51_AFD7_ED55_8CCD;
pub const HALF_WORD: u64 = 0x1_0000_0000;

/// Seed offsets keeping the three channels (and their octaves) decorrelated.
pub const CONTINENT_CH0: u32 = 0x100;
pub const CONTINENT_CH1: u32 = 0x101;
pub const CONTINENT_CH2: u32 = 0x102;
pub const CONTINENT_CH3: u32 = 0x103;
pub const DETAIL_CH0: u32 = 0x200;
pub const DETAIL_CH1: u32 = 0x201;
pub const DETAIL_CH2: u32 = 0x202;
pub const TEMPERATURE_CH: u32 = 0x300;

/// Lattice spacings: each finer octave halves the previous one.
pub const CONTINENT_CELL0: u64 = 256;
pub const CONTINENT_CELL1: u64 = 128;
pub const CONTINENT_CELL2: u64 = 64;
pub const CONTINENT_CELL3: u64 = 32;
pub const DETAIL_CELL0: u64 = 64;
pub const DETAIL_CELL1: u64 = 32;
pub const DETAIL_CELL2: u64 = 16;
pub const TEMPERATURE_CELL: u64 = 256;

/// The integer hash behind every lattice value.
pub open spec fn hash_spec(seed: u32, xi: u64, yi: u64) -> u64 {
    let h = xi.wrapping_mul(HASH_X).wrapping_add(yi.wrapping_mul(HASH_Y)).wrapping_add(
        (seed as u64).wrapping_mul(HASH_SEED),
    );
    let m = (h ^ (h / HALF_WORD)).wrapping_mul(HASH_MIX);
    m ^ (m / HALF_WORD)
}

/// The pseudo-random fixed-point value attached to a lattice point.
pub open spec fn lattice_spec(seed: u32, xi: u64, yi: u64) -> u32 {
    (hash_spec(seed, xi, yi) % (UNIT + 1) as u64) as u32
}

fn lattice(seed: u32, xi: u64, yi: u64) -> (r: u32)
    ensures
        r == lattice_spec(seed, xi, yi),
        r <= UNIT,
{
    let h = xi.wrapping_mul(HASH_X).wrapping_add(yi.wrapping_mul(HASH_Y)).wrapping_add(
        (seed as u64).wrapping_mul(HASH_SEED),
    );
    let m = (h ^ (h / HALF_WORD)).wrapping_mul(HASH_MIX);
    let f = m ^ (m / HALF_WORD);
    (f % (UNIT as u64 + 1)) as u32
}

/// Linear interpolation between `a` and `b` at fraction `f / cell`.
pub open spec fn lerp_spec(a: u32, b: u32, f: u64, cell: u64) -> u32 {
    if b >= a {
        (a + (b - a) * f / (cell as int)) as u32
    } else {
        (a - (a - b) * f / (cell as int)) as u32
    }
}

fn lerp(a: u32, b: u32, f: u64, cell: u64) -> (r: u32)
    requires
        a <= UNIT,
        b <= UNIT,
        0 < cell <= 0x1_0000,
        f < cell,
    ensures
        r == lerp_spec(a, b, f, cell),
        r <= UNIT,
{
    if b >= a {
        let d = (b - a) as u64;
        assert((d as int) * (f as int) <= 10000 * 0x1_0000) by (nonlinear_arith)
            requires
                d <= 10000,
                f <= 0x1_0000,
        ;
        let t = d * f / cell;
        assert((d as int) * (f as int) / (cell as int) <= d as int) by (nonlinear_arith)
            requires
                f < cell,
                0 < cell,
        ;
        a + (t as u32)
    } else {
        let d = (a - b) as u64;
        assert((d as int) * (f as int) <= 10000 * 0x1_0000) by (nonlinear_arith)
            requires
                d <= 10000,
                f <= 0x1_0000,
        ;
        let t = d * f / cell;
        assert((d as int) * (f as int) / (cell as int) <= d as int) by (nonlinear_arith)
            requires
                f < cell,
                0 < cell,
        ;
        a - (t as u32)
    }
}

/// One octave of bilinear value noise with lattice spacing `cell`.
pub open spec fn value_noise_spec(seed: u32, x: u64, y: u64, cell: u64) -> u32 {
    let xi = x / cell;
    let fx = x % cell;
    let yi = y / cell;
    let fy = y % cell;
    let v0 = lerp_spec(
        lattice_spec(seed, xi, yi),
        lattice_spec(seed, (xi + 1) as u64, yi),
        fx,
        cell,
    );
    let v1 = lerp_spec(
        lattice_spec(seed, xi, (yi + 1) as u64),
        lattice_spec(seed, (xi + 1) as u64, (yi + 1) as u64),
        fx,
        cell,
    );
    lerp_spec(v0, v1, fy, cell)
}

fn value_noise(seed: u32, x: u64, y: u64, cell: u64) -> (r: u32)
    requires
        0 < cell <= 0x1_0000,
        x <= MAX_NOISE_COORD,
        y <= MAX_NOISE_COORD,
    ensures
        r == value_noise_spec(seed, x, y, cell),
        r <= UNIT,
{
    let xi = x / cell;
    let fx = x % cell;
    let yi = y / cell;
    let fy = y % cell;
    assert((x as int) / (cell as int) <= x as int && (y as int) / (cell as int) <= y as int)
        by (nonlinear_arith)
        requires
            0 < cell,
    ;
    let v00 = lattice(seed, xi, yi);
    let v10 = lattice(seed, xi + 1, yi);
    let v01 = lattice(seed, xi, yi + 1);
    let v11 = lattice(seed, xi + 1, yi + 1);
    let v0 = lerp(v00, v10, fx, cell);
    let v1 = lerp(v01, v11, fx, cell);
    lerp(v0, v1, fy, cell)
}

/// Continent-scale elevation noise: four octaves.
pub open spec fn continent_spec(seed: u32, x: u64, y: u64) -> u32 {
    let v0 = value_noise_spec(seed.wrapping_add(CONTINENT_CH0), x, y, CONTINENT_CELL0);
    let v1 = value_noise_spec(seed.wrapping_add(CONTINENT_CH1), x, y, CONTINENT_CELL1);
    let v2 = value_noise_spec(seed.wrapping_add(CONTINENT_CH2), x, y, CONTINENT_CELL2);
    let v3 = value_noise_spec(seed.wrapping_add(CONTINENT_CH3), x, y, CONTINENT_CELL3);
    ((8 * v0 + 4 * v1 + 2 * v2 + v3) / 15) as u32
}

/// Fine-detail noise: three octaves on a finer lattice.
pub open spec fn detail_spec(seed: u32, x: u64, y: u64) -> u32 {
    let v0 = value_noise_spec(seed.wrapping_add(DETAIL_CH0), x, y, DETAIL_CELL0);
    let v1 = value_noise_spec(seed.wrapping_add(DETAIL_CH1), x, y, DETAIL_CELL1);
    let v2 = value_noise_spec(seed.wrapping_add(DETAIL_CH2), x, y, DETAIL_CELL2);
    ((4 * v0 + 2 * v1 + v2) / 7) as u32
}

/// Temperature noise: a single smooth octave.
pub open spec fn temperature_noise_spec(seed: u32, x: u64, y: u64) -> u32 {
    value_noise_spec(seed.wrapping_add(TEMPERATURE_CH), x, y, TEMPERATURE_CELL)
}

/// A seeded noise source with independent elevation, detail and temperature
/// channels.  Immutable after construction: every sampler is a pure function
/// of `(seed, x, y)`.
#[derive(Debug, Clone, Copy)]
pub struct NoiseGenerator {
    pub seed: u32,
}

impl NoiseGenerator {
    pub fn new(seed: u32) -> (r: Self)
        ensures
            r.seed == seed,
    {
        NoiseGenerator { seed }
    }

    /// Continent-scale elevation channel, in `[0, UNIT]`.
    pub fn continent_map(&self, x: u64, y: u64) -> (r: u32)
        requires
            x <= MAX_NOISE_COORD,
            y <= MAX_NOISE_COORD,
        ensures
            r == continent_spec(self.seed, x, y),
            r <= UNIT,
    {
        let v0 = value_noise(self.seed.wrapping_add(CONTINENT_CH0), x, y, CONTINENT_CELL0);
        let v1 = value_noise(self.seed.wrapping_add(CONTINENT_CH1), x, y, CONTINENT_CELL1);
        let v2 = value_noise(self.seed.wrapping_add(CONTINENT_CH2), x, y, CONTINENT_CELL2);
        let v3 = value_noise(self.seed.wrapping_add(CONTINENT_CH3), x, y, CONTINENT_CELL3);
        ((8 * (v0 as u64) + 4 * (v1 as u64) + 2 * (v2 as u64) + (v3 as u64)) / 15) as u32
    }

    /// Fine-detail elevation channel, in `[0, UNIT]`.
    pub fn detail_map(&self, x: u64, y: u64) -> (r: u32)
        requires
            x <= MAX_NOISE_COORD,
            y <= MAX_NOISE_COORD,
        ensures
            r == detail_spec(self.seed, x, y),
            r <= UNIT,
    {
        let v0 = value_noise(self.seed.wrapping_add(DETAIL_CH0), x, y, DETAIL_CELL0);
        let v1 = value_noise(self.seed.wrapping_add(DETAIL_CH1), x, y, DETAIL_CELL1);
        let v2 = value_noise(self.seed.wrapping_add(DETAIL_CH2), x, y, DETAIL_CELL2);
        ((4 * (v0 as u64) + 2 * (v1 as u64) + (v2 as u64)) / 7) as u32
    }

    /// Temperature channel, in `[0, UNIT]`.
    pub fn temperature_noise(&self, x: u64, y: u64) -> (r: u32)
        requires
            x <= MAX_NOISE_COORD,
            y <= MAX_NOISE_COORD,
        ensures
            r == temperature_noise_spec(self.seed, x, y),
            r <= UNIT,
    {
        value_noise(self.seed.wrapping_add(TEMPERATURE_CH), x, y, TEMPERATURE_CELL)
    }
}

} // verus!
