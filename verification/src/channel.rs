//! What the relay takes from `tokio`: the broadcast channel behind a room.
//! Nothing in this file is proved. A channel is shared with every task that
//! holds a handle to it, so no contract here says what it holds; the
//! contracts say which channel a handle belongs to.

use vstd::prelude::*;
use std::sync::Arc;
use tokio::sync::broadcast::{Receiver, Sender};
use crate::message::BroadcastMsg;

verus! {

/// `tokio::sync::broadcast::Sender`, the sending half of a channel.
#[verifier::external_type_specification]
#[verifier::external_body]
#[verifier::reject_recursive_types(T)]
pub struct ExSender<T>(Sender<T>);

/// `tokio::sync::broadcast::Receiver`, one subscription to a channel.
#[verifier::external_type_specification]
#[verifier::external_body]
#[verifier::reject_recursive_types(T)]
pub struct ExReceiver<T>(Receiver<T>);

/// Calls `tokio::sync::broadcast::channel` and keeps the sender; the receiver
/// that comes with it is dropped at once. The call panics on a capacity of
/// zero or above `usize::MAX / 2`, which `requires` leaves out.
#[verifier::external_body]
pub(crate) fn open_channel(capacity: usize) -> (tx: Sender<Arc<BroadcastMsg>>)
    requires
        0 < capacity <= usize::MAX / 2,
{
    tokio::sync::broadcast::channel(capacity).0
}

/// Calls `clone` on a sender. Believed: the copy is a handle to the same
/// channel, which the contract writes as equality.
#[verifier::external_body]
pub(crate) fn clone_sender(tx: &Sender<Arc<BroadcastMsg>>) -> (copy: Sender<Arc<BroadcastMsg>>)
    ensures
        copy == *tx,
{
    tx.clone()
}

/// Calls `tokio::sync::broadcast::Sender::send` with `msg` behind an `Arc`.
/// The call fails where the channel has no receiver; the message is then
/// lost, and the failure is not reported.
#[verifier::external_body]
pub(crate) fn send_to_channel(tx: &Sender<Arc<BroadcastMsg>>, msg: BroadcastMsg) {
    let _ = tx.send(Arc::new(msg));
}

/// The channel that the receiver `rx` reads from, written as the sender that
/// feeds it. A receiver is bound to one channel when
/// `tokio::sync::broadcast::Sender::subscribe` makes it, and stays with it.
pub uninterp spec fn feeding_sender(rx: Receiver<Arc<BroadcastMsg>>) -> Sender<Arc<BroadcastMsg>>;

/// Calls `tokio::sync::broadcast::Sender::subscribe`. Believed: the receiver
/// reads from the channel of `tx`, for `subscribe` builds it on the shared
/// state of that sender. It sees the messages that are sent after the call.
#[verifier::external_body]
pub(crate) fn subscribe_to_channel(tx: &Sender<Arc<BroadcastMsg>>) -> (rx: Receiver<
    Arc<BroadcastMsg>,
>)
    ensures
        feeding_sender(rx) == *tx,
{
    tx.subscribe()
}

} // verus!
