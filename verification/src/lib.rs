//! Core logic for a character-grid rendering backend: grid geometry,
//! font-size handling, input mapping, a generation-scoped glyph atlas
//! cache, and the redraw-scheduling state machine.

use vstd::prelude::*;

pub mod cache;
pub mod font;
pub mod geometry;
pub mod input;
pub mod scheduler;
pub mod surface;

pub use geometry::CellSize;
pub use geometry::GridSize;
pub use geometry::PixelSize;

verus! {

/// A runtime error reported by the backend core.
#[derive(Debug, Clone, Copy, PartialEq, Eq, Structural)]
pub enum Error {
    /// The application signalled that it is exiting.
    Exiting,
    /// The font could not be loaded at the requested size.
    Rasterization,
    /// No compatible device or surface could be acquired at startup.
    Initialization,
    /// The atlas has reached its maximum size and cannot hold more glyphs.
    AtlasExhausted,
}

} // verus!
