//! The terminal user interface's shared vocabulary: geometry, cell states,
//! key-event actions, and the windowing types.  The rendering itself (the
//! terminal back end, the draw loop) lives outside the library.
pub mod buffer;
pub mod chat_widget;
pub mod error;
pub mod event_handler;
pub mod window;

use vstd::prelude::*;

verus! {

/// Width and height of a rectangular region of the terminal grid, in cells.
#[derive(Debug, Copy, Clone, PartialEq, Eq, Structural)]
pub struct Size {
    pub width: u16,
    pub height: u16,
}

impl Size {
    pub fn new(width: u16, height: u16) -> (r: Size)
        ensures
            r.width == width,
            r.height == height,
    {
        Size { width, height }
    }

    pub fn width(&self) -> (r: u16)
        ensures
            r == self.width,
    {
        self.width
    }

    pub fn height(&self) -> (r: u16)
        ensures
            r == self.height,
    {
        self.height
    }
}

impl From<(u16, u16)> for Size {
    fn from(parts: (u16, u16)) -> (r: Size) {
        Size { width: parts.0, height: parts.1 }
    }
}

impl vstd::std_specs::convert::FromSpecImpl<(u16, u16)> for Size {
    open spec fn obeys_from_spec() -> bool {
        true
    }

    open spec fn from_spec(parts: (u16, u16)) -> Size {
        Size { width: parts.0, height: parts.1 }
    }
}

/// A position on the terminal grid: column `x`, row `y`.
#[derive(Debug, Copy, Clone, PartialEq, Eq, Structural)]
pub struct Pos {
    pub x: u16,
    pub y: u16,
}

impl Pos {
    pub fn new(x: u16, y: u16) -> (r: Pos)
        ensures
            r.x == x,
            r.y == y,
    {
        Pos { x, y }
    }

    pub fn zero() -> (r: Pos)
        ensures
            r.x == 0,
            r.y == 0,
    {
        Pos { x: 0, y: 0 }
    }
}

impl core::ops::Add<Pos> for Pos {
    type Output = Pos;

    fn add(self, rhs: Pos) -> (r: Pos) {
        Pos { x: self.x + rhs.x, y: self.y + rhs.y }
    }
}

impl vstd::std_specs::ops::AddSpecImpl<Pos> for Pos {
    open spec fn obeys_add_spec() -> bool {
        true
    }

    open spec fn add_req(self, rhs: Pos) -> bool {
        self.x + rhs.x <= u16::MAX && self.y + rhs.y <= u16::MAX
    }

    open spec fn add_spec(self, rhs: Pos) -> Pos {
        Pos { x: (self.x + rhs.x) as u16, y: (self.y + rhs.y) as u16 }
    }
}

impl core::ops::Sub<Pos> for Pos {
    type Output = Pos;

    fn sub(self, rhs: Pos) -> (r: Pos) {
        Pos { x: self.x - rhs.x, y: self.y - rhs.y }
    }
}

impl vstd::std_specs::ops::SubSpecImpl<Pos> for Pos {
    open spec fn obeys_sub_spec() -> bool {
        true
    }

    open spec fn sub_req(self, rhs: Pos) -> bool {
        rhs.x <= self.x && rhs.y <= self.y
    }

    open spec fn sub_spec(self, rhs: Pos) -> Pos {
        Pos { x: (self.x - rhs.x) as u16, y: (self.y - rhs.y) as u16 }
    }
}

impl core::ops::AddAssign<Pos> for Pos {
    fn add_assign(&mut self, rhs: Pos)
        requires
            old(self).x + rhs.x <= u16::MAX,
            old(self).y + rhs.y <= u16::MAX,
        ensures
            final(self).x == old(self).x + rhs.x,
            final(self).y == old(self).y + rhs.y,
    {
        self.x = self.x + rhs.x;
        self.y = self.y + rhs.y;
    }
}

impl core::ops::SubAssign<Pos> for Pos {
    fn sub_assign(&mut self, rhs: Pos)
        requires
            rhs.x <= old(self).x,
            rhs.y <= old(self).y,
        ensures
            final(self).x == old(self).x - rhs.x,
            final(self).y == old(self).y - rhs.y,
    {
        self.x = self.x - rhs.x;
        self.y = self.y - rhs.y;
    }
}

} // verus!
