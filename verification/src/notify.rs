//! Change notification: an in-process publish/subscribe broadcaster.
//!
//! `publish` is fire-and-forget: with no subscriber it is a no-op, and a
//! subscriber whose bounded buffer is full loses the event rather than
//! blocking the publisher.  A subscriber sees every event published after
//! it subscribed, up to that loss.  The channel itself belongs to the
//! runtime crate; this module holds it behind trusted shims and adds
//! nothing of its own on top of what that crate promises.

use vstd::prelude::*;

verus! {

#[verifier::external_type_specification]
#[verifier::external_body]
#[verifier::reject_recursive_types(T)]
pub struct ExBroadcastSender<T>(tokio::sync::broadcast::Sender<T>);

#[verifier::external_type_specification]
#[verifier::external_body]
#[verifier::reject_recursive_types(T)]
pub struct ExBroadcastReceiver<T>(tokio::sync::broadcast::Receiver<T>);

/// What a non-blocking read of a subscription yields.
#[derive(Clone, Copy, Debug, PartialEq, Eq, Structural)]
pub enum RecvStatus {
    /// One buffered event was taken.
    Received,
    /// No event is buffered.
    Empty,
    /// The subscriber fell behind and events were dropped for it; it stays
    /// subscribed from the oldest event still buffered.
    Lagged,
    /// The notifier is gone and nothing more will arrive.
    Closed,
}

/// Relies on `tokio::sync::broadcast::channel`: creates the sending half of
/// a broadcast channel with the given buffer capacity.  The crate panics on
/// a zero capacity and on one above half of `usize`, so those are excluded.
#[verifier::external_body]
fn broadcast_channel_unit(capacity: usize) -> tokio::sync::broadcast::Sender<()>
    requires
        1 <= capacity <= 0x10000,
{
    let (tx, _rx) = tokio::sync::broadcast::channel(capacity);
    tx
}

/// Relies on `tokio::sync::broadcast::Sender::send`: copies one event into
/// the buffer of every current receiver without blocking, and returns how
/// many receivers the channel had; with none it returns an error, which is
/// discarded here as the count zero.
#[verifier::external_body]
fn broadcast_send_unit(tx: &tokio::sync::broadcast::Sender<()>) -> usize {
    match tx.send(()) {
        Ok(n) => n,
        Err(_) => 0,
    }
}

/// Relies on `tokio::sync::broadcast::Sender::subscribe`: a new receiver
/// that sees every event sent after this call.
#[verifier::external_body]
fn broadcast_subscribe_unit(
    tx: &tokio::sync::broadcast::Sender<()>,
) -> tokio::sync::broadcast::Receiver<()> {
    tx.subscribe()
}

/// Relies on `tokio::sync::broadcast::Receiver::try_recv`: takes the next
/// buffered event without waiting, telling an empty buffer, a lagged
/// subscriber and a closed channel apart.
#[verifier::external_body]
fn broadcast_try_recv_unit(rx: &mut tokio::sync::broadcast::Receiver<()>) -> RecvStatus {
    match rx.try_recv() {
        Ok(()) => RecvStatus::Received,
        Err(tokio::sync::broadcast::error::TryRecvError::Empty) => RecvStatus::Empty,
        Err(tokio::sync::broadcast::error::TryRecvError::Lagged(_)) => RecvStatus::Lagged,
        Err(tokio::sync::broadcast::error::TryRecvError::Closed) => RecvStatus::Closed,
    }
}

/// How many events a slow subscriber may buffer before losing older ones.
pub const NOTIFY_BUFFER: usize = 100;

/// The change notifier: one shared broadcast channel, published to after
/// every successful mutating operation.
pub struct Notifier {
    sender: tokio::sync::broadcast::Sender<()>,
}

impl Notifier {
    pub fn new() -> Notifier {
        Notifier { sender: broadcast_channel_unit(NOTIFY_BUFFER) }
    }

    /// Publishes one zero-payload change event to every live subscriber,
    /// without blocking; with no subscriber the call is a no-op.  Returns
    /// how many subscribers the channel had.
    pub fn publish(&self) -> usize {
        broadcast_send_unit(&self.sender)
    }

    /// Opens a subscription that yields one event per publish occurring
    /// after this call, until the notifier is dropped.
    pub fn subscribe(&self) -> tokio::sync::broadcast::Receiver<()> {
        broadcast_subscribe_unit(&self.sender)
    }

    /// Takes the next buffered event of a subscription, without waiting.
    pub fn try_next(rx: &mut tokio::sync::broadcast::Receiver<()>) -> RecvStatus {
        broadcast_try_recv_unit(rx)
    }
}

} // verus!
