//! Procedural generation of a 2D terrain field.
//!
//! The domain is a bounded rectangle, populated either as a dense raster of
//! per-point elevation/temperature values or as an irregular mesh of convex
//! polygonal cells derived from a relaxed random point set, each tagged with
//! an elevation, a temperature and a biome classification.
//!
//! All quantities are held in fixed-point integer form: values that live in
//! the unit interval are scaled by [`UNIT`], and planar coordinates are plain
//! integers in whatever unit the caller picks.

use vstd::prelude::*;

pub mod biome;
pub mod cell;
pub mod geometry;
pub mod grid;
pub mod noise;
pub mod raster;
pub mod rng;
pub mod world;

verus! {

/// Fixed-point scale: the value `1.0` of the unit interval.
pub const UNIT: u32 = 10000;

/// Clamping into `[0, UNIT]`, as a mathematical function.
pub open spec fn clamp_unit_int(v: int) -> u32 {
    if v < 0 {
        0
    } else if v > UNIT as int {
        UNIT
    } else {
        v as u32
    }
}

/// Clamps `v` into `[0, UNIT]`, the fixed-point unit interval.
pub fn clamp_unit(v: i64) -> (r: u32)
    ensures
        r == clamp_unit_int(v as int),
        r <= UNIT,
{
    if v < 0 {
        0
    } else if v > UNIT as i64 {
        UNIT
    } else {
        v as u32
    }
}

} // verus!
