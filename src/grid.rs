//! Grid bounds derived from the viewport, and the grid-to-pixel transform.

use vstd::prelude::*;

verus! {

/// Default width and height of a tile, in pixels.
pub const TILE_SIZE: u64 = 50;

/// Viewport size and tile geometry, all in whole pixels.
#[derive(Clone, Copy, Debug, PartialEq, Eq, Structural)]
pub struct GridDimensions {
    pub window_height: u64,
    pub window_width: u64,
    pub tile_width: u64,
    pub tile_height: u64,
    /// Offset of the grid origin from the viewport origin.
    pub tile_center: u64,
}

impl GridDimensions {
    /// Tiles must have a size for the grid to have bounds.
    pub open spec fn wf(&self) -> bool {
        self.tile_width > 0 && self.tile_height > 0
    }

    /// Number of columns: `floor(width / tile_width)`.
    pub open spec fn columns(&self) -> u64 {
        (self.window_width / self.tile_width) as u64
    }

    /// Number of rows: `floor((height - tile_height) / tile_height)`, zero when the
    /// viewport is lower than one tile.
    pub open spec fn rows(&self) -> u64 {
        if self.window_height < self.tile_height {
            0
        } else {
            ((self.window_height - self.tile_height) / self.tile_height as int) as u64
        }
    }

    pub open spec fn pixel_x(&self, x: u64) -> u128 {
        (self.tile_center + x * self.tile_width) as u128
    }

    pub open spec fn pixel_y(&self, y: u64) -> u128 {
        (self.tile_center + y * self.tile_height) as u128
    }

    pub fn new(window_height: u64, window_width: u64) -> (r: Self)
        ensures
            r == (GridDimensions {
                window_height,
                window_width,
                tile_width: TILE_SIZE,
                tile_height: TILE_SIZE,
                tile_center: 0,
            }),
            r.wf(),
    {
        GridDimensions {
            window_height,
            window_width,
            tile_width: TILE_SIZE,
            tile_height: TILE_SIZE,
            tile_center: 0,
        }
    }

    /// Pixel position of column `x`.
    pub fn find_position_for_gridx(&self, x: u64) -> (r: u128)
        ensures
            r == self.pixel_x(x),
    {
        proof {
            assert(x * self.tile_width <= u64::MAX * u64::MAX) by (nonlinear_arith);
            assert(u64::MAX * u64::MAX + u64::MAX <= u128::MAX);
        }
        self.tile_center as u128 + x as u128 * self.tile_width as u128
    }

    /// Pixel position of row `y`.
    pub fn find_position_for_gridy(&self, y: u64) -> (r: u128)
        ensures
            r == self.pixel_y(y),
    {
        proof {
            assert(y * self.tile_height <= u64::MAX * u64::MAX) by (nonlinear_arith);
            assert(u64::MAX * u64::MAX + u64::MAX <= u128::MAX);
        }
        self.tile_center as u128 + y as u128 * self.tile_height as u128
    }

    pub fn tile_size(&self) -> (r: (u64, u64))
        ensures
            r == (self.tile_width, self.tile_height),
    {
        (self.tile_width, self.tile_height)
    }

    pub fn tile_center(&self) -> (r: u64)
        ensures
            r == self.tile_center,
    {
        self.tile_center
    }

    pub fn grid_columns(&self) -> (r: u64)
        requires
            self.wf(),
        ensures
            r == self.columns(),
    {
        self.window_width / self.tile_width
    }

    pub fn grid_rows(&self) -> (r: u64)
        requires
            self.wf(),
        ensures
            r == self.rows(),
    {
        if self.window_height < self.tile_height {
            0
        } else {
            (self.window_height - self.tile_height) / self.tile_height
        }
    }
}

} // verus!
