//! What one terminal grid cell holds.
use vstd::prelude::*;

verus! {

/// The occupancy of one grid cell.  A wide character occupies its own cell
/// and marks the following cell as a continuation.
#[derive(Debug, Clone, Copy, PartialEq, Eq, Structural)]
pub enum CellState {
    Empty,
    Occupied(char),
    Continuation,
}

} // verus!
