//! Font size in whole points, with the accelerator step and clamp rules.
//!
//! The accelerators change the size by one point at a time, and the size is
//! always kept inside `[MIN_FONT_SIZE, MAX_FONT_SIZE]`.

use vstd::prelude::*;

verus! {

/// The smallest font size the accelerators can reach, in points.
pub const MIN_FONT_SIZE: u16 = 1;

/// The largest font size the accelerators can reach, in points.
pub const MAX_FONT_SIZE: u16 = 192;

/// The font size the backend starts with, in points.
pub const DEFAULT_FONT_SIZE: u16 = 16;

/// A font size is valid when it lies in `[MIN_FONT_SIZE, MAX_FONT_SIZE]`.
pub open spec fn font_size_in_range(size: u16) -> bool {
    MIN_FONT_SIZE <= size <= MAX_FONT_SIZE
}

/// The size one increase-accelerator press aims at: one point larger,
/// capped at `MAX_FONT_SIZE`.
pub open spec fn spec_increased(size: u16) -> u16 {
    if size + 1 > MAX_FONT_SIZE {
        MAX_FONT_SIZE
    } else {
        (size + 1) as u16
    }
}

/// The size one decrease-accelerator press aims at: one point smaller,
/// floored at `MIN_FONT_SIZE`.
pub open spec fn spec_decreased(size: u16) -> u16 {
    if size - 1 < MIN_FONT_SIZE {
        MIN_FONT_SIZE
    } else {
        (size - 1) as u16
    }
}

/// Applies one increase-accelerator press to a valid font size.
pub fn increased(size: u16) -> (r: u16)
    requires
        font_size_in_range(size),
    ensures
        r == spec_increased(size),
        font_size_in_range(r),
{
    if size >= MAX_FONT_SIZE {
        MAX_FONT_SIZE
    } else {
        size + 1
    }
}

/// Applies one decrease-accelerator press to a valid font size.
pub fn decreased(size: u16) -> (r: u16)
    requires
        font_size_in_range(size),
    ensures
        r == spec_decreased(size),
        font_size_in_range(r),
{
    if size <= MIN_FONT_SIZE {
        MIN_FONT_SIZE
    } else {
        size - 1
    }
}

} // verus!
