//! The two bounded queues between the frame loop and the background worker.

use vstd::prelude::*;
use tokio::sync::mpsc::{channel, Receiver, Sender};
use crate::batch::Batch;
use crate::fetch::FetchWindow;

verus! {

/// The sending end of a `tokio::sync::mpsc` queue, carried through unread.
#[verifier::external_type_specification]
#[verifier::external_body]
#[verifier::reject_recursive_types(T)]
pub struct ExSender<T>(Sender<T>);

/// The receiving end of a `tokio::sync::mpsc` queue, carried through unread.
#[verifier::external_type_specification]
#[verifier::external_body]
#[verifier::reject_recursive_types(T)]
pub struct ExReceiver<T>(Receiver<T>);

/// The number of requests that the queue behind `sender` was made to hold: what
/// `Sender::max_capacity` returns for as long as the queue lives.
pub uninterp spec fn request_limit(sender: Sender<FetchWindow>) -> nat;

/// The number of results that the queue behind `receiver` was made to hold: what
/// `Receiver::max_capacity` returns for as long as the queue lives.
pub uninterp spec fn result_limit(receiver: Receiver<Vec<Batch>>) -> nat;

/// `tokio::sync::mpsc::channel`, once for each direction: a queue that holds up
/// to `requests` requests and one that holds up to `results` results, each with
/// its sending and its receiving end. The call panics on a capacity of zero or
/// above the largest number of permits of tokio's semaphore, which `requires`
/// leaves out.
#[verifier::external_body]
pub(crate) fn open_queues(requests: usize, results: usize) -> (ends: (
    Sender<FetchWindow>,
    Receiver<FetchWindow>,
    Sender<Vec<Batch>>,
    Receiver<Vec<Batch>>,
))
    requires
        0 < requests <= usize::MAX / 8,
        0 < results <= usize::MAX / 8,
    ensures
        request_limit(ends.0) == requests,
        result_limit(ends.3) == results,
{
    let (request_tx, request_rx) = channel(requests);
    let (result_tx, result_rx) = channel(results);
    (request_tx, request_rx, result_tx, result_rx)
}

/// `Sender::try_send`: puts `value` in the queue if there is room and the
/// receiving end is open, without waiting. Says whether it did.
#[verifier::external_body]
pub(crate) fn offer<T>(sender: &Sender<T>, value: T) -> (sent: bool)
{
    sender.try_send(value).is_ok()
}

/// `Receiver::try_recv`: takes the oldest value out of the queue, if there is
/// one, without waiting.
#[verifier::external_body]
pub(crate) fn poll<T>(receiver: &mut Receiver<T>) -> (value: Option<T>)
{
    receiver.try_recv().ok()
}

} // verus!
