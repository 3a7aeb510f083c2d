//! The frame loop's end of the fetch protocol.
//!
//! Requests travel to a background worker over a queue of capacity
//! [`REQUEST_CAPACITY`]; results come back over one of capacity
//! [`RESULT_CAPACITY`]. The worker serves requests one at a time, in the order
//! sent, so one request is in flight at most and the queue bounds how many wait
//! behind it. The frame loop never waits at either queue: a request that finds
//! the queue full is not sent and not recorded, so the next frame decides afresh.
//!
//! Results carry no mark of the request that they answer. Whatever result is
//! there is taken and shown from the row of the latest request on.

use vstd::prelude::*;
use tokio::sync::mpsc::{Receiver, Sender};
use crate::batch::Batch;
use crate::channel::{offer, open_queues, poll, request_limit, result_limit};
use crate::fetch::{current_line, fetch_due, is_due, line_at, window_at, FetchWindow, PendingFetchState};
use crate::metrics::GridMetrics;
use crate::viewport::ViewportOffset;

verus! {

/// Requests that the queue to the worker holds.
pub const REQUEST_CAPACITY: usize = 2;

/// Results that the queue from the worker holds.
pub const RESULT_CAPACITY: usize = 2;

/// The frame loop's ends of the two queues, with the row of the latest request.
pub struct FetchScheduler {
    pending: PendingFetchState,
    requests: Sender<FetchWindow>,
    results: Receiver<Vec<Batch>>,
}

/// The worker's ends of the two queues.
pub struct WorkerLink {
    pub requests: Receiver<FetchWindow>,
    pub results: Sender<Vec<Batch>>,
}

/// Records the outcome of trying to send `window`: a request that was sent
/// becomes the latest request, one that was not leaves no trace.
pub fn record_attempt(pending: &mut PendingFetchState, window: FetchWindow, sent: bool) -> (issued:
    Option<FetchWindow>)
    ensures
        sent ==> issued == Some(window) && final(pending).last_requested_line == window.skip,
        !sent ==> issued.is_none() && *final(pending) == *old(pending),
{
    if sent {
        pending.last_requested_line = window.skip;
        Some(window)
    } else {
        None
    }
}

impl View for FetchScheduler {
    type V = PendingFetchState;

    closed spec fn view(&self) -> PendingFetchState {
        self.pending
    }
}

impl FetchScheduler {
    /// How many requests the queue to the worker was made to hold.
    pub closed spec fn request_capacity(&self) -> nat {
        request_limit(self.requests)
    }

    /// How many results the queue from the worker was made to hold.
    pub closed spec fn result_capacity(&self) -> nat {
        result_limit(self.results)
    }

    /// The row of the latest request.
    pub fn pending(&self) -> (pending: PendingFetchState)
        ensures
            pending == self@,
    {
        self.pending
    }

    /// Opens a queue of [`REQUEST_CAPACITY`] requests and one of
    /// [`RESULT_CAPACITY`] results, and queues the request for the first page,
    /// so that the worker has work as soon as it starts. The flag says whether
    /// that request was placed.
    pub fn connect() -> (ends: (FetchScheduler, WorkerLink, bool))
        ensures
            ends.0@.last_requested_line == 0,
            ends.0.request_capacity() == REQUEST_CAPACITY,
            ends.0.result_capacity() == RESULT_CAPACITY,
    {
        let (request_tx, request_rx, result_tx, result_rx) = open_queues(
            REQUEST_CAPACITY,
            RESULT_CAPACITY,
        );
        let primed: bool = offer(&request_tx, FetchWindow::at(0));
        (
            FetchScheduler {
                pending: PendingFetchState::new(),
                requests: request_tx,
                results: result_rx,
            },
            WorkerLink { requests: request_rx, results: result_tx },
            primed,
        )
    }

    /// Requests the page at the top of the viewport if one is due and the
    /// queue takes it. Returns the request that was sent, if any; only then does
    /// the row of the latest request change.
    pub fn schedule(&mut self, offset: ViewportOffset, metrics: &GridMetrics, refresh_threshold: u64) -> (issued:
        Option<FetchWindow>)
        requires
            metrics.row_height > 0,
        ensures
            !fetch_due(
                line_at(offset.y as int, metrics.row_height as int),
                old(self)@.last_requested_line as int,
                refresh_threshold as int,
            ) ==> issued.is_none(),
            issued.is_some() ==> issued == Some(
                window_at(line_at(offset.y as int, metrics.row_height as int)),
            ) && final(self)@.last_requested_line == line_at(
                offset.y as int,
                metrics.row_height as int,
            ),
            issued.is_none() ==> final(self)@ == old(self)@,
    {
        let line: u64 = current_line(offset, metrics);
        if is_due(line, &self.pending, refresh_threshold) {
            let window: FetchWindow = FetchWindow::at(line);
            let sent: bool = offer(&self.requests, window);
            record_attempt(&mut self.pending, window, sent)
        } else {
            None
        }
    }

    /// Takes the oldest result that has arrived, if any, without waiting.
    pub fn poll_result(&mut self) -> (result: Option<Vec<Batch>>)
        ensures
            final(self)@ == old(self)@,
    {
        poll(&mut self.results)
    }
}

} // verus!
