//! Rectangles of terminal cells.

use vstd::prelude::*;

verus! {

/// A cell.
#[derive(Debug, Clone, Copy, PartialEq, Eq, Structural)]
pub struct Position {
    pub x: u16,
    pub y: u16,
}

/// A block of cells.
#[derive(Debug, Clone, Copy, PartialEq, Eq, Structural)]
pub struct Rect {
    pub x: u16,
    pub y: u16,
    pub width: u16,
    pub height: u16,
}

impl Default for Rect {
    /// No cells at all.
    fn default() -> (out: Rect)
        ensures
            out == (Rect { x: 0, y: 0, width: 0, height: 0 }),
    {
        Rect { x: 0, y: 0, width: 0, height: 0 }
    }
}

/// The sum of two coordinates, held to the largest there is.
pub open spec fn plus(a: u16, b: u16) -> u16 {
    if a + b > 0xFFFF {
        0xFFFF
    } else {
        (a + b) as u16
    }
}

/// The sum of two coordinates, held to the largest there is.
pub fn add_cells(a: u16, b: u16) -> (out: u16)
    ensures
        out == plus(a, b),
{
    if b > 0xFFFF - a {
        0xFFFF
    } else {
        a + b
    }
}

/// The difference of two coordinates, held to zero.
pub open spec fn minus(a: u16, b: u16) -> u16 {
    if b > a {
        0
    } else {
        (a - b) as u16
    }
}

/// The difference of two coordinates, held to zero.
pub fn sub_cells(a: u16, b: u16) -> (out: u16)
    ensures
        out == minus(a, b),
{
    if b > a {
        0
    } else {
        a - b
    }
}

/// The smaller of two coordinates.
pub open spec fn least(a: u16, b: u16) -> u16 {
    if a <= b {
        a
    } else {
        b
    }
}

/// The smaller of two coordinates.
pub fn min_cells(a: u16, b: u16) -> (out: u16)
    ensures
        out == least(a, b),
{
    if a <= b {
        a
    } else {
        b
    }
}

/// A number of cells, held to the largest there is.
pub open spec fn cells_of(n: nat) -> u16 {
    if n > 0xFFFF {
        0xFFFF
    } else {
        n as u16
    }
}

/// A number of cells, held to the largest there is.
pub fn to_cells(n: u128) -> (out: u16)
    ensures
        out == cells_of(n as nat),
{
    if n > 0xFFFF {
        0xFFFF
    } else {
        n as u16
    }
}

impl Rect {
    /// Whether the edges can be told by their coordinates.
    pub open spec fn on_screen(self) -> bool {
        self.x + self.width <= 0xFFFF && self.y + self.height <= 0xFFFF
    }

    /// The first column past the right edge.
    pub open spec fn right_edge(self) -> u16 {
        plus(self.x, self.width)
    }

    /// The first row past the bottom edge.
    pub open spec fn bottom_edge(self) -> u16 {
        plus(self.y, self.height)
    }

    /// Whether a cell lies inside.
    pub open spec fn holds(self, at: Position) -> bool {
        self.x <= at.x < self.right_edge() && self.y <= at.y < self.bottom_edge()
    }

    /// The first column past the right edge.
    pub fn right(&self) -> (out: u16)
        ensures
            out == self.right_edge(),
    {
        add_cells(self.x, self.width)
    }

    /// The first row past the bottom edge.
    pub fn bottom(&self) -> (out: u16)
        ensures
            out == self.bottom_edge(),
    {
        add_cells(self.y, self.height)
    }

    /// Whether a cell lies inside.
    pub fn contains(&self, at: Position) -> (out: bool)
        ensures
            out == self.holds(at),
    {
        self.x <= at.x && at.x < self.right() && self.y <= at.y && at.y < self.bottom()
    }

    /// What is left inside a one-cell border.
    pub open spec fn inside(self) -> Rect {
        Rect {
            x: least(plus(self.x, 1), self.right_edge()),
            y: least(plus(self.y, 1), self.bottom_edge()),
            width: minus(self.width, 2),
            height: minus(self.height, 2),
        }
    }

    /// What is left inside a one-cell border.
    pub fn inner(&self) -> (out: Rect)
        ensures
            out == self.inside(),
    {
        Rect {
            x: min_cells(add_cells(self.x, 1), self.right()),
            y: min_cells(add_cells(self.y, 1), self.bottom()),
            width: sub_cells(self.width, 2),
            height: sub_cells(self.height, 2),
        }
    }
}

/// What lies inside a border is everything but the outermost cells.
pub proof fn borders_are_one_cell_wide(r: Rect, at: Position)
    requires
        r.on_screen(),
        r.width >= 2,
        r.height >= 2,
    ensures
        r.inside().holds(at) <==> r.holds(at) && at.x != r.x && at.y != r.y && at.x + 1 != r.x
            + r.width && at.y + 1 != r.y + r.height,
        r.holds(at) <==> r.x <= at.x < r.x + r.width && r.y <= at.y < r.y + r.height,
{
}

} // verus!
