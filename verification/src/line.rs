//! Line primitives: the rules that separate the rows and columns of the grid.

use vstd::prelude::*;

verus! {

/// One grid rule, as an axis-aligned rectangle in grid pixels.
#[derive(Clone, Copy, Debug, PartialEq, Eq, Structural)]
pub struct LineInstance {
    /// Left edge.
    pub x: i64,
    /// Top edge.
    pub y: i64,
    pub width: i64,
    pub height: i64,
}

impl LineInstance {
    /// A rule with its top-left corner at `offset` and the size `extent`.
    pub fn new(offset: (i64, i64), extent: (i64, i64)) -> (line: LineInstance)
        ensures
            line == (LineInstance { x: offset.0, y: offset.1, width: extent.0, height: extent.1 }),
    {
        LineInstance { x: offset.0, y: offset.1, width: extent.0, height: extent.1 }
    }

    /// Top-left corner `(x, y)`.
    pub fn offset(&self) -> (o: (i64, i64))
        ensures
            o == (self.x, self.y),
    {
        (self.x, self.y)
    }

    /// Size `(width, height)`.
    pub fn extent(&self) -> (e: (i64, i64))
        ensures
            e == (self.width, self.height),
    {
        (self.width, self.height)
    }
}

} // verus!
