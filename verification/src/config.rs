//! Grid dimensions and rendering scale shared by the simulation and its hosts.

use vstd::prelude::*;

verus! {

/// Number of grid columns; valid x coordinates are `0 .. GRID_X_SIZE`.
pub const GRID_X_SIZE: i32 = 40;

/// Number of grid rows; valid y coordinates are `0 .. GRID_Y_SIZE`.
pub const GRID_Y_SIZE: i32 = 30;

/// Side length, in pixels, of one grid cell when drawn.
pub const DOT_SIZE_IN_PXS: u32 = 20;

} // verus!
