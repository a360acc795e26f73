//! Biome classification.
//!
//! A biome is a categorical terrain label derived from elevation alone, by a
//! closed threshold ladder: below sea level lies `Ocean`, above the mountain
//! line lies `Mountain`, everything between is `Forest`.  Both boundary
//! values themselves classify as `Forest`.

use vstd::prelude::*;

verus! {

/// Elevation strictly below this is sea (`0.30` in fixed point).
pub const SEA_LEVEL: u32 = 3000;

/// Elevation strictly above this is mountain (`0.60` in fixed point).
pub const MOUNTAIN_LEVEL: u32 = 6000;

/// Categorical terrain label of a cell.
#[derive(Debug, Clone, Copy, PartialEq, Eq, Structural)]
pub enum Biome {
    Ocean,
    Forest,
    Mountain,
}

/// The classification ladder, as a function of elevation.
pub open spec fn determine_biome_spec(elevation: u32) -> Biome {
    if elevation < SEA_LEVEL {
        Biome::Ocean
    } else if elevation > MOUNTAIN_LEVEL {
        Biome::Mountain
    } else {
        Biome::Forest
    }
}

/// Classifies a fixed-point elevation in `[0, UNIT]` into its biome.
pub fn determine_biome(elevation: u32) -> (r: Biome)
    ensures
        r == determine_biome_spec(elevation),
        r == Biome::Ocean <==> elevation < SEA_LEVEL,
        r == Biome::Mountain <==> elevation > MOUNTAIN_LEVEL,
        r == Biome::Forest <==> SEA_LEVEL <= elevation <= MOUNTAIN_LEVEL,
{
    if elevation < SEA_LEVEL {
        Biome::Ocean
    } else if elevation > MOUNTAIN_LEVEL {
        Biome::Mountain
    } else {
        Biome::Forest
    }
}

} // verus!
