//! Connection-state hub: one producer, many independent observers, no replay
//! of past events to late subscribers. A slow observer may miss events under
//! bounded lag and must resynchronize via `Client::is_connected`.

use vstd::prelude::*;

use crate::types::ConnectionState;

verus! {

#[verifier::external_type_specification]
#[verifier::external_body]
#[verifier::reject_recursive_types(T)]
pub struct ExBroadcastSender<T>(tokio::sync::broadcast::Sender<T>);

#[verifier::external_type_specification]
#[verifier::external_body]
#[verifier::reject_recursive_types(T)]
pub struct ExBroadcastStream<T>(tokio_stream::wrappers::BroadcastStream<T>);

/// The identity of the topic a hub handle produces into.
pub uninterp spec fn hub_topic(tx: tokio::sync::broadcast::Sender<ConnectionState>) -> int;

/// The identity of the topic an observer stream consumes from.
pub uninterp spec fn stream_topic(
    s: tokio_stream::wrappers::BroadcastStream<ConnectionState>,
) -> int;

/// Relies on tokio::sync::broadcast::channel, which panics only on a zero
/// capacity or one above half of usize's range, and on tokio_stream's
/// BroadcastStream::new, which wraps the returned receiver: the producing
/// half and the stream are two ends of one fresh topic.
#[verifier::external_body]
pub(crate) fn new_hub(capacity: usize) -> (r: (
    tokio::sync::broadcast::Sender<ConnectionState>,
    tokio_stream::wrappers::BroadcastStream<ConnectionState>,
))
    requires
        1 <= capacity <= usize::MAX / 2,
    ensures
        stream_topic(r.1) == hub_topic(r.0),
{
    let (tx, rx) = tokio::sync::broadcast::channel(capacity);
    let stream = tokio_stream::wrappers::BroadcastStream::new(rx);
    (tx, stream)
}

/// Relies on tokio::sync::broadcast::Sender::subscribe, which attaches a new
/// receiver to the sender's own channel and replays nothing sent before, and
/// on BroadcastStream::new, which wraps that receiver.
#[verifier::external_body]
pub(crate) fn hub_subscribe(tx: &tokio::sync::broadcast::Sender<ConnectionState>) -> (r:
    tokio_stream::wrappers::BroadcastStream<ConnectionState>)
    ensures
        stream_topic(r) == hub_topic(*tx),
{
    tokio_stream::wrappers::BroadcastStream::new(tx.subscribe())
}

/// Relies on tokio::sync::broadcast::Sender::send: it queues the event for
/// every observer subscribed at that moment and reports whether there was any;
/// with no observer the event is dropped, which publishing treats as fine.
#[verifier::external_body]
pub(crate) fn hub_publish(
    tx: &tokio::sync::broadcast::Sender<ConnectionState>,
    state: ConnectionState,
) -> bool {
    tx.send(state).is_ok()
}

} // verus!
