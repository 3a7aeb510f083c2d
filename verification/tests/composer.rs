use std::cell::RefCell;
use std::sync::Arc;

use datafusion::arrow::array::{ArrayRef, Int64Array, StringArray};
use datafusion::arrow::record_batch::RecordBatch;
use raam::batch::Batch;
use raam::composer::FrameComposer;
use raam::fetch::{FetchWindow, PendingFetchState};
use raam::grid::generate;
use raam::layout::CellArea;
use raam::metrics::GridMetrics;
use raam::scheduler::{record_attempt, FetchScheduler, WorkerLink, REQUEST_CAPACITY, RESULT_CAPACITY};
use raam::viewport::ViewportOffset;

const METRICS: GridMetrics = GridMetrics { row_height: 20, col_width: 110, line_width: 1, ncols: 2 };

fn shape(text: &String) -> Option<String> {
    if text == "unshapeable" {
        None
    } else {
        Some(format!("<{text}>"))
    }
}

fn page(first: i64, labels: Vec<&str>) -> Vec<Batch> {
    let numbers: Vec<i64> = (0..labels.len() as i64).map(|i| first + i).collect();
    let columns: Vec<(&str, ArrayRef)> =
        vec![("n", Arc::new(Int64Array::from(numbers))), ("s", Arc::new(StringArray::from(labels)))];
    vec![Batch { inner: RecordBatch::try_from_iter(columns).unwrap() }]
}

fn session() -> (FrameComposer<String>, WorkerLink) {
    let (scheduler, link, primed) = FetchScheduler::connect();
    assert!(primed);
    let names = vec!["n".to_string(), "s".to_string()];
    let composer = FrameComposer::new(&names, METRICS, 10, 50, generate(3, 2, 20, 110, 1), scheduler, &shape);
    (composer, link)
}

fn shown(composer: &FrameComposer<String>) -> Vec<(usize, u64, &str)> {
    composer.cells.iter().map(|c| (c.column, c.row, c.quad_geometry.as_str())).collect()
}

#[test]
fn first_request_is_queued_on_connect() {
    let (scheduler, mut link, primed) = FetchScheduler::connect();
    assert!(primed);
    assert_eq!(scheduler.pending(), PendingFetchState { last_requested_line: 0 });
    assert_eq!(link.requests.try_recv().ok(), Some(FetchWindow { skip: 0, limit: 100 }));
    assert!(link.requests.try_recv().is_err());
    assert_eq!(link.requests.max_capacity(), REQUEST_CAPACITY);
    assert_eq!(link.results.max_capacity(), RESULT_CAPACITY);
}

#[test]
fn new_session_shows_the_header_only() {
    let (composer, _link) = session();
    let header: Vec<_> =
        composer.header.iter().map(|c| (c.column, c.row, c.quad_geometry.as_str())).collect();
    assert_eq!(header, vec![(0, 0, "<n>"), (1, 0, "<s>")]);
    assert!(composer.cells.is_empty());
    assert_eq!(composer.viewport.offset(), ViewportOffset { x: 0, y: 0 });
    assert_eq!(composer.lines.len(), 7);
}

#[test]
fn frame_without_news_changes_nothing() {
    let (mut composer, mut link) = session();
    link.requests.try_recv().unwrap();
    let frame = composer.prepare(&shape);
    assert!(!frame.replaced);
    assert_eq!(frame.requested, None);
    assert_eq!(frame.offset, ViewportOffset { x: 0, y: 0 });
    assert!(frame.cell_areas.is_empty());
    assert_eq!(
        frame.header_areas,
        vec![CellArea { left: 0, top: 0, clip_top: 0 }, CellArea { left: 110, top: 0, clip_top: 0 }]
    );
    assert!(link.requests.try_recv().is_err());
}

#[test]
fn result_replaces_the_page() {
    let (mut composer, link) = session();
    link.results.try_send(page(1, vec!["a", "b"])).unwrap();
    let frame = composer.prepare(&shape);
    assert!(frame.replaced);
    assert_eq!(shown(&composer), vec![(0, 1, "<1>"), (1, 1, "<a>"), (0, 2, "<2>"), (1, 2, "<b>")]);
    assert_eq!(
        frame.cell_areas,
        vec![
            CellArea { left: 0, top: 20, clip_top: 20 },
            CellArea { left: 110, top: 20, clip_top: 20 },
            CellArea { left: 0, top: 40, clip_top: 20 },
            CellArea { left: 110, top: 40, clip_top: 20 },
        ]
    );
    link.results.try_send(page(9, vec!["z"])).unwrap();
    assert!(composer.prepare(&shape).replaced);
    assert_eq!(shown(&composer), vec![(0, 1, "<9>"), (1, 1, "<z>")]);
    // No further result: the page stays.
    assert!(!composer.prepare(&shape).replaced);
    assert_eq!(shown(&composer), vec![(0, 1, "<9>"), (1, 1, "<z>")]);
}

#[test]
fn scroll_past_threshold_requests_a_page() {
    let (mut composer, mut link) = session();
    assert_eq!(link.requests.try_recv().ok(), Some(FetchWindow { skip: 0, limit: 100 }));
    // 10 * 10^2 = 1000 pixels = row 50: not more than the threshold of 50 rows.
    assert_eq!(composer.process_scroll(0, -10), ViewportOffset { x: 0, y: -1000 });
    let frame = composer.prepare(&shape);
    assert_eq!(frame.requested, None);
    assert!(link.requests.try_recv().is_err());
    // 10 * 5^2 = 250 pixels more: row 62.
    composer.process_scroll(0, -5);
    let frame = composer.prepare(&shape);
    assert_eq!(frame.offset, ViewportOffset { x: 0, y: -1250 });
    assert_eq!(frame.requested, Some(FetchWindow { skip: 62, limit: 100 }));
    assert_eq!(composer.scheduler.pending().last_requested_line, 62);
    assert_eq!(link.requests.try_recv().ok(), Some(FetchWindow { skip: 62, limit: 100 }));
    // Nothing more is asked for while the viewport rests.
    assert_eq!(composer.prepare(&shape).requested, None);
}

#[test]
fn stale_result_is_still_applied() {
    // Rows of 10 pixels at speed 10: a gesture of d lines moves d * d rows.
    let metrics = GridMetrics { row_height: 10, col_width: 110, line_width: 1, ncols: 2 };
    let (scheduler, mut link, _) = FetchScheduler::connect();
    let names = vec!["n".to_string(), "s".to_string()];
    let mut composer = FrameComposer::new(&names, metrics, 10, 5, Vec::new(), scheduler, &shape);
    assert_eq!(link.requests.try_recv().ok(), Some(FetchWindow { skip: 0, limit: 100 }));
    // The viewport reaches row 10 and the page there is asked for.
    composer.process_scroll(0, -1);
    composer.process_scroll(0, -3);
    assert_eq!(composer.prepare(&shape).requested, Some(FetchWindow { skip: 10, limit: 100 }));
    let in_flight = link.requests.try_recv().unwrap();
    assert_eq!(in_flight.skip, 10);
    // While the worker is busy with it, the viewport moves on to row 60.
    composer.process_scroll(0, -7);
    composer.process_scroll(0, -1);
    assert_eq!(composer.prepare(&shape).requested, Some(FetchWindow { skip: 60, limit: 100 }));
    assert_eq!(composer.scheduler.pending().last_requested_line, 60);
    // Only now do the rows for row 10 arrive. They are shown all the same.
    link.results.try_send(page(11, vec!["late", "later"])).unwrap();
    let frame = composer.prepare(&shape);
    assert!(frame.replaced);
    assert_eq!(frame.requested, None);
    assert_eq!(
        shown(&composer),
        vec![(0, 61, "<11>"), (1, 61, "<late>"), (0, 62, "<12>"), (1, 62, "<later>")]
    );
    assert_eq!(composer.scheduler.pending().last_requested_line, 60);
    // The rows for row 60 follow and take their place.
    link.results.try_send(page(61, vec!["fresh"])).unwrap();
    assert!(composer.prepare(&shape).replaced);
    assert_eq!(shown(&composer), vec![(0, 61, "<61>"), (1, 61, "<fresh>")]);
}

#[test]
fn full_queue_defers_the_request() {
    let (mut composer, mut link) = session();
    // The first request still waits in the queue.
    composer.process_scroll(0, -11);
    let frame = composer.prepare(&shape);
    assert_eq!(frame.requested, Some(FetchWindow { skip: 60, limit: 100 }));
    // Both places are taken now.
    composer.process_scroll(0, -11);
    let frame = composer.prepare(&shape);
    assert_eq!(frame.offset.y, -2420);
    assert_eq!(frame.requested, None);
    assert_eq!(composer.scheduler.pending().last_requested_line, 60);
    // Once the worker takes one, the next frame asks again.
    assert_eq!(link.requests.try_recv().ok(), Some(FetchWindow { skip: 0, limit: 100 }));
    let frame = composer.prepare(&shape);
    assert_eq!(frame.requested, Some(FetchWindow { skip: 121, limit: 100 }));
    assert_eq!(composer.scheduler.pending().last_requested_line, 121);
    assert_eq!(link.requests.try_recv().ok(), Some(FetchWindow { skip: 60, limit: 100 }));
    assert_eq!(link.requests.try_recv().ok(), Some(FetchWindow { skip: 121, limit: 100 }));
}

#[test]
fn closed_queue_sends_nothing() {
    let (mut composer, link) = session();
    drop(link);
    composer.process_scroll(0, -11);
    let frame = composer.prepare(&shape);
    assert_eq!(frame.requested, None);
    assert!(!frame.replaced);
    assert_eq!(composer.scheduler.pending().last_requested_line, 0);
}

#[test]
fn unshapeable_cell_is_skipped() {
    let (mut composer, link) = session();
    link.results.try_send(page(1, vec!["a", "unshapeable", "c"])).unwrap();
    let frame = composer.prepare(&shape);
    assert!(frame.replaced);
    assert_eq!(
        shown(&composer),
        vec![(0, 1, "<1>"), (1, 1, "<a>"), (0, 2, "<2>"), (0, 3, "<3>"), (1, 3, "<c>")]
    );
    assert_eq!(frame.cell_areas.len(), 5);
}

#[test]
fn apply_result_without_a_result() {
    let (mut composer, _link) = session();
    assert!(composer.apply_result(Some(page(5, vec!["x"])), &shape));
    assert!(!composer.apply_result(None, &shape));
    assert_eq!(shown(&composer), vec![(0, 1, "<5>"), (1, 1, "<x>")]);
}

#[test]
fn attempt_is_recorded_only_when_sent() {
    let mut pending = PendingFetchState { last_requested_line: 10 };
    let window = FetchWindow { skip: 61, limit: 100 };
    assert_eq!(record_attempt(&mut pending, window, false), None);
    assert_eq!(pending.last_requested_line, 10);
    assert_eq!(record_attempt(&mut pending, window, true), Some(window));
    assert_eq!(pending.last_requested_line, 61);
}

#[test]
fn scheduler_polls_results_in_order() {
    let (mut scheduler, link, _) = FetchScheduler::connect();
    assert!(scheduler.poll_result().is_none());
    link.results.try_send(page(1, vec!["a"])).unwrap();
    link.results.try_send(page(2, vec!["b", "c"])).unwrap();
    assert!(link.results.try_send(page(3, vec!["d"])).is_err());
    assert_eq!(scheduler.poll_result().unwrap()[0].inner.num_rows(), 1);
    assert_eq!(scheduler.poll_result().unwrap()[0].inner.num_rows(), 2);
    assert!(scheduler.poll_result().is_none());
}

#[test]
fn shaper_is_called_once_per_cell_in_order() {
    let seen: RefCell<Vec<String>> = RefCell::new(Vec::new());
    let recording = |text: &String| {
        seen.borrow_mut().push(text.clone());
        Some(text.len())
    };
    let (scheduler, link, _) = FetchScheduler::connect();
    let names = vec!["n".to_string(), "s".to_string()];
    let mut composer = FrameComposer::new(&names, METRICS, 10, 50, Vec::new(), scheduler, &recording);
    assert_eq!(*seen.borrow(), vec!["n", "s"]);
    seen.borrow_mut().clear();
    link.results.try_send(page(7, vec!["x", "yz"])).unwrap();
    composer.prepare(&recording);
    assert_eq!(*seen.borrow(), vec!["7", "x", "8", "yz"]);
    let lengths: Vec<usize> = composer.cells.iter().map(|c| c.quad_geometry).collect();
    assert_eq!(lengths, vec![1, 1, 1, 2]);
    // A frame without a result shapes nothing.
    seen.borrow_mut().clear();
    composer.prepare(&recording);
    assert!(seen.borrow().is_empty());
}
