//! Grid geometry: the rules that frame `nrows` rows and `ncols` columns.
//!
//! A grid of `nrows` by `ncols` cells has `nrows + 1` horizontal and `ncols + 1`
//! vertical rules. Rule `i` of either kind starts `i` cell sizes from the origin
//! and spans the whole grid in the other direction.

use vstd::prelude::*;
use crate::line::LineInstance;
use crate::pixel::{span, span_of};

verus! {

/// Row and column counts with the pixel metrics of one cell and of a rule.
#[derive(Clone, Copy, Debug, PartialEq, Eq, Structural)]
pub struct Grid {
    pub nrows: usize,
    pub ncols: usize,
    pub row_height: u32,
    pub col_width: u32,
    pub line_width: u32,
}

impl Grid {
    /// Cell sizes are positive and the rules can be counted in a `usize`.
    pub open spec fn wf(&self) -> bool {
        &&& self.row_height > 0
        &&& self.col_width > 0
        &&& self.nrows + self.ncols + 2 <= usize::MAX
    }

    /// Width of the grid, the closing vertical rule included.
    pub open spec fn total_width(&self) -> int {
        span(self.ncols as int, self.col_width as int, self.line_width as int)
    }

    /// Height of the grid, the closing horizontal rule included.
    pub open spec fn total_height(&self) -> int {
        span(self.nrows as int, self.row_height as int, self.line_width as int)
    }

    /// Horizontal rule `i`, for `0 <= i <= nrows`.
    pub open spec fn horizontal(&self, i: int) -> LineInstance {
        LineInstance {
            x: 0,
            y: span(i, self.row_height as int, 0) as i64,
            width: self.total_width() as i64,
            height: self.line_width as i64,
        }
    }

    /// Vertical rule `j`, for `0 <= j <= ncols`.
    pub open spec fn vertical(&self, j: int) -> LineInstance {
        LineInstance {
            x: span(j, self.col_width as int, 0) as i64,
            y: 0,
            width: self.line_width as i64,
            height: self.total_height() as i64,
        }
    }

    /// All rules: the horizontal ones from the top down, then the vertical ones
    /// from the left.
    pub open spec fn lines(&self) -> Seq<LineInstance> {
        Seq::new((self.nrows + 1) as nat, |i: int| self.horizontal(i)) + Seq::new(
            (self.ncols + 1) as nat,
            |j: int| self.vertical(j),
        )
    }

    pub fn new(nrows: usize, ncols: usize, row_height: u32, col_width: u32, line_width: u32) -> (grid:
        Grid)
        requires
            row_height > 0,
            col_width > 0,
            nrows + ncols + 2 <= usize::MAX,
        ensures
            grid == (Grid { nrows, ncols, row_height, col_width, line_width }),
            grid.wf(),
    {
        Grid { nrows, ncols, row_height, col_width, line_width }
    }

    /// Number of rules.
    pub fn nlines(&self) -> (n: usize)
        requires
            self.wf(),
        ensures
            n == self.nrows + self.ncols + 2,
            n == self.lines().len(),
    {
        self.nrows + self.ncols + 2
    }

    /// Pixel extents `(width, height)` of the whole grid.
    pub fn size(&self) -> (s: (i64, i64))
        ensures
            s.0 == self.total_width(),
            s.1 == self.total_height(),
    {
        (
            span_of(self.ncols as u64, self.col_width, self.line_width),
            span_of(self.nrows as u64, self.row_height, self.line_width),
        )
    }

    /// The rules of the grid, in the order of [`Grid::lines`].
    pub fn line_instances(&self) -> (v: Vec<LineInstance>)
        requires
            self.wf(),
        ensures
            v@ == self.lines(),
            v.len() == self.nrows + self.ncols + 2,
            forall|i: int| 0 <= i <= self.nrows ==> v[i] == self.horizontal(i),
            forall|j: int| 0 <= j <= self.ncols ==> v[self.nrows + 1 + j] == self.vertical(j),
    {
        let (xlim, ylim) = self.size();
        let mut v: Vec<LineInstance> = Vec::new();
        let mut i: usize = 0;
        while i <= self.nrows
            invariant
                self.wf(),
                xlim == self.total_width(),
                ylim == self.total_height(),
                0 <= i <= self.nrows + 1,
                v@ == Seq::new(i as nat, |k: int| self.horizontal(k)),
            decreases self.nrows + 1 - i,
        {
            v.push(LineInstance::new((0, span_of(i as u64, self.row_height, 0)), (xlim, self.line_width as i64)));
            i = i + 1;
        }
        let mut j: usize = 0;
        while j <= self.ncols
            invariant
                self.wf(),
                xlim == self.total_width(),
                ylim == self.total_height(),
                0 <= j <= self.ncols + 1,
                v@ == Seq::new((self.nrows + 1) as nat, |k: int| self.horizontal(k)) + Seq::new(
                    j as nat,
                    |k: int| self.vertical(k),
                ),
            decreases self.ncols + 1 - j,
        {
            v.push(LineInstance::new((span_of(j as u64, self.col_width, 0), 0), (self.line_width as i64, ylim)));
            j = j + 1;
        }
        v
    }
}

/// The rules of a grid of `rows` by `cols` cells, horizontal ones first.
pub fn generate(rows: usize, cols: usize, row_height: u32, col_width: u32, line_width: u32) -> (v: Vec<
    LineInstance,
>)
    requires
        row_height > 0,
        col_width > 0,
        rows + cols + 2 <= usize::MAX,
    ensures
        v@ == (Grid { nrows: rows, ncols: cols, row_height, col_width, line_width }).lines(),
        v.len() == rows + cols + 2,
{
    Grid::new(rows, cols, row_height, col_width, line_width).line_instances()
}

} // verus!
