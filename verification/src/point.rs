//! Grid cells: integer coordinate pairs on the fixed-size playing field.

use vstd::prelude::*;

use crate::config;

verus! {

/// A cell of the grid, as an `(x, y)` coordinate pair.
#[derive(Clone, Copy, Debug, PartialEq, Eq, Structural)]
pub struct Point(pub i32, pub i32);

/// Whether a cell lies on the playing field, i.e. in `[0, W) x [0, H)`.
pub open spec fn in_grid(p: Point) -> bool {
    &&& 0 <= p.0 < config::GRID_X_SIZE
    &&& 0 <= p.1 < config::GRID_Y_SIZE
}

/// Whether no two cells of the sequence coincide.
pub open spec fn distinct_cells(s: Seq<Point>) -> bool {
    forall|i: int, j: int| 0 <= i < j < s.len() ==> s[i] != s[j]
}

} // verus!
