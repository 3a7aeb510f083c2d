//! What happens once per frame.
//!
//! A frame first takes a result if one has arrived and shows it in place of the
//! page shown before, then asks for a new page if the viewport has moved far
//! enough, and last lays the cells out for the renderer. No step waits.

use vstd::prelude::*;
use crate::batch::{batches_text, update_buffers, Batch};
use crate::fetch::{fetch_due, line_at, window_at, FetchWindow};
use crate::layout::{cell_areas, data_area, header_area, header_areas, CellArea};
use crate::line::LineInstance;
use crate::metrics::GridMetrics;
use crate::projector::{header_cells, header_row, shape_cells, shaping_of, table_cells, Cell, TextCell};
use crate::scheduler::FetchScheduler;
use crate::viewport::{ViewportOffset, ViewportState};

verus! {

/// Everything the frame loop owns. `G` is the glyph geometry that the text
/// shaper returns for one cell.
pub struct FrameComposer<G> {
    pub viewport: ViewportState,
    pub metrics: GridMetrics,
    /// Pixels per squared wheel line.
    pub scroll_speed: i32,
    /// Rows the viewport may move away from the latest request before a new
    /// page is asked for.
    pub refresh_threshold: u64,
    pub scheduler: FetchScheduler,
    /// The rules of the grid.
    pub lines: Vec<LineInstance>,
    /// The cells of the field names; set once.
    pub header: Vec<Cell<G>>,
    /// The cells of the page on display.
    pub cells: Vec<Cell<G>>,
}

/// What one frame hands to the renderer, and what it did.
pub struct Frame {
    pub offset: ViewportOffset,
    /// Where to draw each header cell, in the order of the header.
    pub header_areas: Vec<CellArea>,
    /// Where to draw each cell of the page, in the order of the page.
    pub cell_areas: Vec<CellArea>,
    /// A result arrived and took the place of the page on display.
    pub replaced: bool,
    /// The request that this frame sent.
    pub requested: Option<FetchWindow>,
}

impl<G> FrameComposer<G> {
    pub open spec fn wf(&self) -> bool {
        self.metrics.wf()
    }

    /// The state before the first frame: the viewport at the origin, the header
    /// shaped from the field names, and no page on display.
    pub fn new<F: Fn(&String) -> Option<G>>(
        field_names: &Vec<String>,
        metrics: GridMetrics,
        scroll_speed: i32,
        refresh_threshold: u64,
        lines: Vec<LineInstance>,
        scheduler: FetchScheduler,
        shape: &F,
    ) -> (composer: FrameComposer<G>)
        requires
            metrics.wf(),
            forall|text: &String| call_requires(*shape, (text,)),
        ensures
            composer.wf(),
            composer.viewport@ == (ViewportOffset { x: 0, y: 0 }),
            composer.metrics == metrics,
            composer.scroll_speed == scroll_speed,
            composer.refresh_threshold == refresh_threshold,
            composer.scheduler == scheduler,
            composer.lines == lines,
            shaping_of(*shape, header_row(field_names.deep_view()), composer.header@),
            composer.cells@.len() == 0,
    {
        let names: Vec<TextCell> = header_cells(field_names);
        FrameComposer {
            viewport: ViewportState::new(),
            metrics,
            scroll_speed,
            refresh_threshold,
            scheduler,
            lines,
            header: shape_cells(&names, shape),
            cells: Vec::new(),
        }
    }

    /// Applies a scroll gesture of `(delta_x, delta_y)` wheel lines.
    pub fn process_scroll(&mut self, delta_x: i32, delta_y: i32) -> (offset: ViewportOffset)
        ensures
            final(self).viewport@ == old(self).viewport@.scrolled(
                delta_x as int,
                delta_y as int,
                old(self).scroll_speed as int,
            ),
            offset == final(self).viewport@,
            offset.wf(),
            final(self).metrics == old(self).metrics,
            final(self).scroll_speed == old(self).scroll_speed,
            final(self).refresh_threshold == old(self).refresh_threshold,
            final(self).scheduler == old(self).scheduler,
            final(self).lines == old(self).lines,
            final(self).header == old(self).header,
            final(self).cells == old(self).cells,
    {
        self.viewport.apply_scroll(delta_x, delta_y, self.scroll_speed)
    }

    /// Shows `result`, if there is one, in place of the page on display. Its
    /// rows are numbered on from the row of the latest request, whichever
    /// request the result answers.
    pub fn apply_result<F: Fn(&String) -> Option<G>>(&mut self, result: Option<Vec<Batch>>, shape: &F) -> (replaced:
        bool)
        requires
            forall|text: &String| call_requires(*shape, (text,)),
        ensures
            replaced == result.is_some(),
            match result {
                Some(batches) => shaping_of(
                    *shape,
                    table_cells(batches_text(batches@), old(self).scheduler@.last_requested_line),
                    final(self).cells@,
                ),
                None => final(self).cells == old(self).cells,
            },
            final(self).viewport == old(self).viewport,
            final(self).metrics == old(self).metrics,
            final(self).scroll_speed == old(self).scroll_speed,
            final(self).refresh_threshold == old(self).refresh_threshold,
            final(self).scheduler == old(self).scheduler,
            final(self).lines == old(self).lines,
            final(self).header == old(self).header,
    {
        match result {
            Some(batches) => {
                let page: Vec<TextCell> = update_buffers(
                    &batches,
                    self.scheduler.pending().last_requested_line,
                );
                self.cells = shape_cells(&page, shape);
                true
            },
            None => false,
        }
    }

    /// Runs one frame.
    pub fn prepare<F: Fn(&String) -> Option<G>>(&mut self, shape: &F) -> (frame: Frame)
        requires
            old(self).wf(),
            forall|text: &String| call_requires(*shape, (text,)),
        ensures
            final(self).wf(),
            final(self).viewport == old(self).viewport,
            final(self).metrics == old(self).metrics,
            final(self).scroll_speed == old(self).scroll_speed,
            final(self).refresh_threshold == old(self).refresh_threshold,
            final(self).lines == old(self).lines,
            final(self).header == old(self).header,
            frame.offset == old(self).viewport@,
            // The page on display changes only for a result.
            !frame.replaced ==> final(self).cells == old(self).cells,
            frame.replaced ==> exists|batches: Seq<Batch>|
                shaping_of(
                    *shape,
                    table_cells(
                        #[trigger] batches_text(batches),
                        old(self).scheduler@.last_requested_line,
                    ),
                    final(self).cells@,
                ),
            // A request goes out only when one is due, and is recorded only when it went out.
            !fetch_due(
                line_at(frame.offset.y as int, old(self).metrics.row_height as int),
                old(self).scheduler@.last_requested_line as int,
                old(self).refresh_threshold as int,
            ) ==> frame.requested.is_none(),
            frame.requested.is_some() ==> frame.requested == Some(
                window_at(line_at(frame.offset.y as int, old(self).metrics.row_height as int)),
            ) && final(self).scheduler@.last_requested_line == line_at(
                frame.offset.y as int,
                old(self).metrics.row_height as int,
            ),
            frame.requested.is_none() ==> final(self).scheduler@ == old(self).scheduler@,
            // The layout is that of the cells now on display.
            frame.header_areas@ == Seq::new(
                final(self).header.len() as nat,
                |i: int| header_area(final(self).header[i].column, frame.offset, final(self).metrics),
            ),
            frame.cell_areas@ == Seq::new(
                final(self).cells.len() as nat,
                |i: int|
                    data_area(
                        final(self).cells[i].column,
                        final(self).cells[i].row,
                        frame.offset,
                        final(self).metrics,
                    ),
            ),
    {
        let result: Option<Vec<Batch>> = self.scheduler.poll_result();
        let ghost arrived: Seq<Batch> = match result {
            Some(ref batches) => batches@,
            None => Seq::empty(),
        };
        let replaced: bool = self.apply_result(result, shape);
        proof {
            if replaced {
                assert(shaping_of(
                    *shape,
                    table_cells(batches_text(arrived), old(self).scheduler@.last_requested_line),
                    self.cells@,
                ));
            }
        }
        let offset: ViewportOffset = self.viewport.offset();
        let requested: Option<FetchWindow> = self.scheduler.schedule(
            offset,
            &self.metrics,
            self.refresh_threshold,
        );
        Frame {
            offset,
            header_areas: header_areas(&self.header, offset, &self.metrics),
            cell_areas: cell_areas(&self.cells, offset, &self.metrics),
            replaced,
            requested,
        }
    }
}

} // verus!
