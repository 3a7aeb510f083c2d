//! Which page of rows to ask the backend for, and when.
//!
//! The row at the top of the viewport is the scroll distance divided by the row
//! height. A new page is due once that row has moved more than a threshold away
//! from the row of the last request.

use vstd::prelude::*;
use crate::metrics::GridMetrics;
use crate::viewport::ViewportOffset;

verus! {

/// Rows per page: one screen and slack for scrolling.
pub const PAGE_SIZE: u64 = 100;

/// One page of backend rows: `limit` rows after the first `skip`.
#[derive(Clone, Copy, Debug, PartialEq, Eq, Structural)]
pub struct FetchWindow {
    pub skip: u64,
    pub limit: u64,
}

/// The row at which the latest request was issued.
#[derive(Clone, Copy, Debug, PartialEq, Eq, Structural)]
pub struct PendingFetchState {
    pub last_requested_line: u64,
}

/// Distance between two integers.
pub open spec fn distance(a: int, b: int) -> int {
    if a >= b {
        a - b
    } else {
        b - a
    }
}

/// The row at the top of a viewport scrolled to `offset_y`, for rows of
/// `row_height` pixels.
pub open spec fn line_at(offset_y: int, row_height: int) -> int {
    distance(offset_y, 0) / row_height
}

/// A request is due when the viewport is more than `refresh_threshold` rows away
/// from the row of the last request.
pub open spec fn fetch_due(current_line: int, last_requested_line: int, refresh_threshold: int) -> bool {
    distance(current_line, last_requested_line) > refresh_threshold
}

/// The page that starts at `line`.
pub open spec fn window_at(line: int) -> FetchWindow {
    FetchWindow { skip: line as u64, limit: PAGE_SIZE }
}

/// A request is due exactly when the viewport is more than the threshold away
/// from the row of the last request, in either direction; right after a request
/// for the current row none is due.
pub proof fn lemma_fetch_threshold(current_line: int, last_requested_line: int, refresh_threshold: int)
    requires
        refresh_threshold >= 0,
    ensures
        fetch_due(current_line, last_requested_line, refresh_threshold) <==> (current_line
            > last_requested_line + refresh_threshold || current_line < last_requested_line
            - refresh_threshold),
        !fetch_due(current_line, current_line, refresh_threshold),
{
}

impl PendingFetchState {
    /// The state of a session whose first request asked for the rows from 0.
    pub fn new() -> (state: PendingFetchState)
        ensures
            state.last_requested_line == 0,
    {
        PendingFetchState { last_requested_line: 0 }
    }
}

impl FetchWindow {
    /// The page that starts at row `line`.
    pub fn at(line: u64) -> (window: FetchWindow)
        ensures
            window == window_at(line as int),
    {
        FetchWindow { skip: line, limit: PAGE_SIZE }
    }
}

/// The row at the top of the viewport.
pub fn current_line(offset: ViewportOffset, metrics: &GridMetrics) -> (line: u64)
    requires
        metrics.row_height > 0,
    ensures
        line == line_at(offset.y as int, metrics.row_height as int),
{
    let y: i64 = offset.y;
    let magnitude: u64 = if y >= 0 {
        y as u64
    } else if y == i64::MIN {
        0x8000_0000_0000_0000
    } else {
        (-y) as u64
    };
    magnitude / (metrics.row_height as u64)
}

/// Whether a request is due at `current_line`.
pub fn is_due(current_line: u64, pending: &PendingFetchState, refresh_threshold: u64) -> (due: bool)
    ensures
        due == fetch_due(
            current_line as int,
            pending.last_requested_line as int,
            refresh_threshold as int,
        ),
{
    let last: u64 = pending.last_requested_line;
    let moved: u64 = if current_line >= last {
        current_line - last
    } else {
        last - current_line
    };
    moved > refresh_threshold
}

/// Decides whether the viewport has moved far enough for a new page. If so,
/// returns the page that starts at the current row and records that row as the
/// last one requested; if not, returns nothing and leaves `pending` as it was.
pub fn maybe_schedule(
    offset: ViewportOffset,
    metrics: &GridMetrics,
    pending: &mut PendingFetchState,
    refresh_threshold: u64,
) -> (window: Option<FetchWindow>)
    requires
        metrics.row_height > 0,
    ensures
        window.is_some() == fetch_due(
            line_at(offset.y as int, metrics.row_height as int),
            old(pending).last_requested_line as int,
            refresh_threshold as int,
        ),
        window.is_some() ==> window == Some(
            window_at(line_at(offset.y as int, metrics.row_height as int)),
        ) && final(pending).last_requested_line == line_at(
            offset.y as int,
            metrics.row_height as int,
        ),
        window.is_none() ==> *final(pending) == *old(pending),
        // Nothing more is due while the viewport rests.
        !fetch_due(
            line_at(offset.y as int, metrics.row_height as int),
            final(pending).last_requested_line as int,
            refresh_threshold as int,
        ),
{
    let line: u64 = current_line(offset, metrics);
    if is_due(line, pending, refresh_threshold) {
        pending.last_requested_line = line;
        Some(FetchWindow::at(line))
    } else {
        None
    }
}

} // verus!
