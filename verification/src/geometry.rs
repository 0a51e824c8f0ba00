//! Pixel, cell and grid geometry.
//!
//! The grid is always `(floor(pixel width / cell width), floor(pixel height /
//! cell height))`, however a recomputation was triggered.

use vstd::prelude::*;

verus! {

/// The size of the window's drawable area, in physical pixels.
#[derive(Debug, Clone, Copy, PartialEq, Eq, Structural)]
pub struct PixelSize {
    pub width: u32,
    pub height: u32,
}

/// The fixed pixel size of one character cell, derived from font metrics.
#[derive(Debug, Clone, Copy, PartialEq, Eq, Structural)]
pub struct CellSize {
    pub width: u32,
    pub height: u32,
}

/// The grid dimensions presented to the application: columns and rows.
#[derive(Debug, Clone, Copy, PartialEq, Eq, Structural)]
pub struct GridSize {
    pub columns: usize,
    pub rows: usize,
}

/// The largest cell dimension the atlas accepts; a texture-size limit.
pub const MAX_CELL_DIM: u32 = 4096;

impl PixelSize {
    /// A surface can only be configured when both dimensions are non-zero.
    pub open spec fn is_renderable(self) -> bool {
        self.width > 0 && self.height > 0
    }

    /// Executable twin of [`Self::is_renderable`].
    pub fn renderable(&self) -> (r: bool)
        ensures
            r == self.is_renderable(),
    {
        self.width > 0 && self.height > 0
    }
}

impl CellSize {
    /// Cell dimensions are non-zero (the grid division is defined) and small
    /// enough that atlas coordinates cannot overflow.
    pub open spec fn wf(self) -> bool {
        &&& 0 < self.width <= MAX_CELL_DIM
        &&& 0 < self.height <= MAX_CELL_DIM
    }

    /// Executable twin of [`Self::wf`].
    pub fn check_wf(&self) -> (r: bool)
        ensures
            r == self.wf(),
    {
        0 < self.width && self.width <= MAX_CELL_DIM && 0 < self.height && self.height
            <= MAX_CELL_DIM
    }
}

/// The grid that fits a window of `pixel` size with cells of `cell` size.
pub open spec fn spec_grid_size(pixel: PixelSize, cell: CellSize) -> GridSize
    recommends
        cell.wf(),
{
    GridSize {
        columns: (pixel.width as int / cell.width as int) as usize,
        rows: (pixel.height as int / cell.height as int) as usize,
    }
}

/// Computes the grid dimensions: `(⌊pixel.width / cell.width⌋,
/// ⌊pixel.height / cell.height⌋)`. Every caller — window resize, display
/// scale change or font-size change — obtains the grid through this one
/// function.
pub fn grid_size_for(pixel: PixelSize, cell: CellSize) -> (g: GridSize)
    requires
        cell.wf(),
    ensures
        g == spec_grid_size(pixel, cell),
        g.columns == pixel.width as int / cell.width as int,
        g.rows == pixel.height as int / cell.height as int,
{
    GridSize {
        columns: (pixel.width / cell.width) as usize,
        rows: (pixel.height / cell.height) as usize,
    }
}

} // verus!
