//! Where each cell is drawn in the window.
//!
//! A cell sits at the pixel position of its column and row, moved by the scroll
//! offset. The header row scrolls sideways with the data but stays at the top of
//! the window; data cells are clipped at the lower edge of the header row.

use vstd::prelude::*;
use crate::grid::Grid;
use crate::metrics::GridMetrics;
use crate::pixel::{saturate, saturate_i128};
use crate::projector::Cell;
use crate::viewport::ViewportOffset;

verus! {

/// Window position of one cell, with the top of the region it may draw in.
#[derive(Clone, Copy, Debug, PartialEq, Eq, Structural)]
pub struct CellArea {
    pub left: i64,
    pub top: i64,
    pub clip_top: i64,
}

/// Where a header cell is drawn.
pub open spec fn header_area(column: usize, offset: ViewportOffset, metrics: GridMetrics) -> CellArea {
    CellArea {
        left: saturate(offset.x + metrics.spec_pixel_x(column as int)) as i64,
        top: 0,
        clip_top: 0,
    }
}

/// Where a data cell is drawn.
pub open spec fn data_area(
    column: usize,
    row: u64,
    offset: ViewportOffset,
    metrics: GridMetrics,
) -> CellArea {
    CellArea {
        left: saturate(offset.x + metrics.spec_pixel_x(column as int)) as i64,
        top: saturate(offset.y + metrics.spec_pixel_y(row as int)) as i64,
        clip_top: metrics.row_height as i64,
    }
}

/// Cells and rules share one coordinate system: before any scrolling, a data
/// cell of row `row` and column `column` has its top on horizontal rule `row`
/// and its left edge on vertical rule `column` of a grid with the same cell size.
pub proof fn lemma_cells_sit_on_rules(grid: Grid, metrics: GridMetrics, column: usize, row: u64)
    requires
        grid.row_height == metrics.row_height,
        grid.col_width == metrics.col_width,
    ensures
        data_area(column, row, ViewportOffset { x: 0, y: 0 }, metrics).top == grid.horizontal(
            row as int,
        ).y,
        data_area(column, row, ViewportOffset { x: 0, y: 0 }, metrics).left == grid.vertical(
            column as int,
        ).x,
        header_area(column, ViewportOffset { x: 0, y: 0 }, metrics).left == grid.vertical(
            column as int,
        ).x,
{
}

fn shifted_of(start: i64, index: u64, size: u32) -> (r: i64)
    ensures
        r == saturate(start + index * size),
{
    let n: i128 = index as i128;
    let s: i128 = size as i128;
    assert(0 <= n * s <= 0x1_0000_0000_0000_0000_0000_0000) by (nonlinear_arith)
        requires
            0 <= n <= 0x1_0000_0000_0000_0000,
            0 <= s <= 0x1_0000_0000,
    ;
    saturate_i128(start as i128 + n * s)
}

/// Computes [`header_area`].
pub fn place_header(column: usize, offset: ViewportOffset, metrics: &GridMetrics) -> (area: CellArea)
    ensures
        area == header_area(column, offset, *metrics),
{
    CellArea { left: shifted_of(offset.x, column as u64, metrics.col_width), top: 0, clip_top: 0 }
}

/// Computes [`data_area`].
pub fn place_cell(column: usize, row: u64, offset: ViewportOffset, metrics: &GridMetrics) -> (area:
    CellArea)
    ensures
        area == data_area(column, row, offset, *metrics),
{
    CellArea {
        left: shifted_of(offset.x, column as u64, metrics.col_width),
        top: shifted_of(offset.y, row, metrics.row_height),
        clip_top: metrics.row_height as i64,
    }
}

/// The areas of the header cells, in the order of `cells`.
pub fn header_areas<G>(cells: &Vec<Cell<G>>, offset: ViewportOffset, metrics: &GridMetrics) -> (areas: Vec<
    CellArea,
>)
    ensures
        areas@ == Seq::new(cells.len() as nat, |i: int| header_area(cells[i].column, offset, *metrics)),
{
    let mut areas: Vec<CellArea> = Vec::new();
    let mut i: usize = 0;
    while i < cells.len()
        invariant
            0 <= i <= cells.len(),
            areas@ == Seq::new(i as nat, |k: int| header_area(cells[k].column, offset, *metrics)),
        decreases cells.len() - i,
    {
        areas.push(place_header(cells[i].column, offset, metrics));
        i = i + 1;
    }
    areas
}

/// The areas of the data cells, in the order of `cells`.
pub fn cell_areas<G>(cells: &Vec<Cell<G>>, offset: ViewportOffset, metrics: &GridMetrics) -> (areas: Vec<
    CellArea,
>)
    ensures
        areas@ == Seq::new(cells.len() as nat, |i: int| data_area(cells[i].column, cells[i].row, offset, *metrics)),
{
    let mut areas: Vec<CellArea> = Vec::new();
    let mut i: usize = 0;
    while i < cells.len()
        invariant
            0 <= i <= cells.len(),
            areas@ == Seq::new(i as nat, |k: int| data_area(cells[k].column, cells[k].row, offset, *metrics)),
        decreases cells.len() - i,
    {
        areas.push(place_cell(cells[i].column, cells[i].row, offset, metrics));
        i = i + 1;
    }
    areas
}

} // verus!
