//! The raster world: a generated [`Grid`] together with its dimensions.

use vstd::prelude::*;

use crate::grid::Grid;
use crate::grid::GridError;
use crate::grid::MAX_DIM;
use crate::grid::spec_generated;

verus! {

/// Failures of raster world construction.
#[derive(Debug, Clone, Copy, PartialEq, Eq, Structural)]
pub enum WorldError {
    GridError(GridError),
}

/// A world backed by the dense raster: the generated grid and the domain
/// size.  Immutable after construction; a regeneration builds a new value.
#[derive(Debug)]
pub struct World {
    pub grid: Grid,
    pub width: usize,
    pub height: usize,
}

impl World {
    /// Builds and fully generates a raster world with a freshly drawn seed.
    /// Zero width or height is rejected as invalid dimensions.
    pub fn new(width: usize, height: usize) -> (r: Result<World, WorldError>)
        requires
            width <= MAX_DIM,
            height <= MAX_DIM,
            width * height <= usize::MAX,
        ensures
            match r {
                Ok(w) => {
                    &&& width != 0 && height != 0
                    &&& w.width == width
                    &&& w.height == height
                    &&& w.grid.wf()
                    &&& w.grid.spec_width() == width
                    &&& w.grid.spec_height() == height
                    &&& spec_generated(w.grid)
                },
                Err(e) => (width == 0 || height == 0) && e == WorldError::GridError(
                    GridError::InvalidDimensions,
                ),
            },
    {
        let grid = match Grid::new(width, height) {
            Ok(g) => g,
            Err(e) => {
                return Err(WorldError::GridError(e));
            },
        };
        let mut grid = grid;
        grid.generate();
        Ok(World { grid, width, height })
    }

    /// As [`World::new`], with an explicit seed for reproducible worlds.
    pub fn with_seed(width: usize, height: usize, seed: u32) -> (r: Result<World, WorldError>)
        requires
            width <= MAX_DIM,
            height <= MAX_DIM,
            width * height <= usize::MAX,
        ensures
            match r {
                Ok(w) => {
                    &&& width != 0 && height != 0
                    &&& w.width == width
                    &&& w.height == height
                    &&& w.grid.wf()
                    &&& w.grid.spec_seed() == seed
                    &&& w.grid.spec_width() == width
                    &&& w.grid.spec_height() == height
                    &&& spec_generated(w.grid)
                },
                Err(e) => (width == 0 || height == 0) && e == WorldError::GridError(
                    GridError::InvalidDimensions,
                ),
            },
    {
        let grid = match Grid::with_seed(width, height, seed) {
            Ok(g) => g,
            Err(e) => {
                return Err(WorldError::GridError(e));
            },
        };
        let mut grid = grid;
        grid.generate();
        Ok(World { grid, width, height })
    }
}

} // verus!
