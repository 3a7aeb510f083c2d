//! The mapping between logical grid indices and pixels.

use vstd::prelude::*;
use crate::pixel::{span, span_of};

verus! {

/// Pixel metrics of the grid, fixed for the lifetime of a session.
#[derive(Clone, Copy, Debug, PartialEq, Eq, Structural)]
pub struct GridMetrics {
    /// Height of one row.
    pub row_height: u32,
    /// Distance from the left edge of one column to that of the next.
    pub col_width: u32,
    /// Thickness of a rule.
    pub line_width: u32,
    /// Number of columns.
    pub ncols: usize,
}

impl GridMetrics {
    /// Rows and columns have a positive size.
    pub open spec fn wf(&self) -> bool {
        self.row_height > 0 && self.col_width > 0
    }

    /// Left edge of column `col`, in grid pixels.
    pub open spec fn spec_pixel_x(&self, col: int) -> int {
        col * self.col_width
    }

    /// Top edge of row `row`, in grid pixels.
    pub open spec fn spec_pixel_y(&self, row: int) -> int {
        row * self.row_height
    }

    /// Left edge of column `col`, held inside the pixel range.
    pub fn pixel_x(&self, col: usize) -> (x: i64)
        ensures
            x == span(col as int, self.col_width as int, 0),
            0 <= self.spec_pixel_x(col as int) <= i64::MAX ==> x == self.spec_pixel_x(col as int),
    {
        span_of(col as u64, self.col_width, 0)
    }

    /// Top edge of row `row`, held inside the pixel range.
    pub fn pixel_y(&self, row: u64) -> (y: i64)
        ensures
            y == span(row as int, self.row_height as int, 0),
            0 <= self.spec_pixel_y(row as int) <= i64::MAX ==> y == self.spec_pixel_y(row as int),
    {
        span_of(row, self.row_height, 0)
    }
}

} // verus!
