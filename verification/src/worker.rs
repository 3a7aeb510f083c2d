//! The background worker's side of the fetch protocol.
//!
//! The worker takes one request at a time, runs one query for it, and hands the
//! rows back. A query that fails is not tried again and yields no result: the
//! grid keeps showing what it has until a later request succeeds.

use vstd::prelude::*;
use crate::fetch::FetchWindow;

verus! {

/// What the worker may meet: a request off the queue, or the end of the query
/// that it ran for one.
pub enum WorkerEvent<R, E> {
    Request(FetchWindow),
    QueryDone(Result<R, E>),
}

/// What the worker does next.
pub enum WorkerAction<R, E> {
    /// Ask the query engine for `limit` rows after the first `skip`.
    Query { skip: u64, limit: u64 },
    /// Put the rows on the result queue.
    Push(R),
    /// Report the failure and push nothing.
    Report(E),
}

/// The worker's rule: a request is answered by exactly one query for its
/// window; rows are passed on; a failure is reported and dropped.
pub fn step<R, E>(event: WorkerEvent<R, E>) -> (action: WorkerAction<R, E>)
    ensures
        action == match event {
            WorkerEvent::Request(window) => WorkerAction::<R, E>::Query {
                skip: window.skip,
                limit: window.limit,
            },
            WorkerEvent::QueryDone(Ok(rows)) => WorkerAction::Push(rows),
            WorkerEvent::QueryDone(Err(error)) => WorkerAction::Report(error),
        },
{
    match event {
        WorkerEvent::Request(window) => WorkerAction::Query { skip: window.skip, limit: window.limit },
        WorkerEvent::QueryDone(Ok(rows)) => WorkerAction::Push(rows),
        WorkerEvent::QueryDone(Err(error)) => WorkerAction::Report(error),
    }
}

} // verus!
