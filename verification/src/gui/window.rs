//! A rectangular window on the terminal grid with a text cursor.
use vstd::prelude::*;

use crate::gui::{Pos, Size};

verus! {

/// A window: its origin, its size, and the cursor where the next character
/// goes, relative to the origin.
#[derive(Debug, Clone, Copy, PartialEq, Eq, Structural)]
pub struct Window {
    pub pos: Pos,
    pub size: Size,
    pub cursor: Pos,
}

impl Window {
    /// A window at `pos` of the given size, with the cursor at its origin.
    pub fn new(pos: Pos, size: Size) -> (r: Window)
        ensures
            r.pos == pos,
            r.size == size,
            r.cursor.x == 0,
            r.cursor.y == 0,
    {
        Window { pos, size, cursor: Pos::zero() }
    }
}

} // verus!
