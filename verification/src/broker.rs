//! The fan-out of raw PTY output: a bounded broadcast that never blocks
//! the publisher. A subscriber that falls behind loses the oldest chunks
//! and is told how many.

use vstd::prelude::*;

verus! {

/// How many chunks the broadcast keeps for its slowest subscriber.
pub const BROADCAST_CAPACITY: usize = 64;

/// The sending half of the broadcast channel.
#[verifier::external_type_specification]
#[verifier::external_body]
#[verifier::reject_recursive_types(T)]
pub struct ExSender<T>(tokio::sync::broadcast::Sender<T>);

/// The receiving half of the broadcast channel.
#[verifier::external_type_specification]
#[verifier::external_body]
#[verifier::reject_recursive_types(T)]
pub struct ExReceiver<T>(tokio::sync::broadcast::Receiver<T>);

/// A chunk of bytes that is cheap to clone.
#[verifier::external_type_specification]
#[verifier::external_body]
pub struct ExBytes(bytes::Bytes);

/// The capacity that a channel was made with: how many chunks it keeps
/// for its slowest subscriber at least. What the channel holds is given no
/// name: every holder of a sender may send.
pub uninterp spec fn made_for(tx: tokio::sync::broadcast::Sender<bytes::Bytes>) -> usize;

/// `tokio::sync::broadcast::channel` with the given capacity, of which the
/// sender is kept. It panics on a capacity of zero or above half of
/// `usize::MAX`, which are left out.
#[verifier::external_body]
fn open_channel(capacity: usize) -> (tx: tokio::sync::broadcast::Sender<bytes::Bytes>)
    requires
        0 < capacity <= usize::MAX / 2,
    ensures
        made_for(tx) == capacity,
{
    tokio::sync::broadcast::channel(capacity).0
}

/// `tokio::sync::broadcast::Sender::send`: the number of subscribers that
/// the chunk was queued for, or nothing if there is none. Nothing is
/// claimed of which it is.
#[verifier::external_body]
fn send(tx: &tokio::sync::broadcast::Sender<bytes::Bytes>, data: bytes::Bytes) -> (queued: Option<
    usize,
>) {
    tx.send(data).ok()
}

/// `tokio::sync::broadcast::Sender::subscribe`: a receiver for what is sent
/// from now on.
pub assume_specification<T>[ tokio::sync::broadcast::Sender::<T>::subscribe ](
    tx: &tokio::sync::broadcast::Sender<T>,
) -> (rx: tokio::sync::broadcast::Receiver<T>)
;

/// `Clone` of `tokio::sync::broadcast::Sender`: another handle to the same
/// channel.
pub assume_specification<T>[ <tokio::sync::broadcast::Sender<T> as Clone>::clone ](
    tx: &tokio::sync::broadcast::Sender<T>,
) -> (other: tokio::sync::broadcast::Sender<T>)
;

/// The broadcast of raw PTY output. Those who hold a clone publish to the
/// same subscribers.
#[derive(Clone)]
pub struct Broker {
    tx: tokio::sync::broadcast::Sender<bytes::Bytes>,
}

impl Broker {
    /// How many chunks the broker keeps for its slowest subscriber.
    pub closed spec fn capacity(&self) -> usize {
        made_for(self.tx)
    }

    /// A broker without subscribers, of the broadcast capacity.
    pub fn new() -> (broker: Broker)
        ensures
            broker.capacity() == BROADCAST_CAPACITY,
    {
        Broker { tx: open_channel(BROADCAST_CAPACITY) }
    }

    /// Publishes a chunk to the subscribers there are. Without subscribers
    /// the chunk is discarded, which is no error.
    pub fn publish(&self, data: bytes::Bytes) {
        let _queued = send(&self.tx, data);
    }

    /// A subscriber to what is published from now on.
    pub fn subscribe(&self) -> (rx: tokio::sync::broadcast::Receiver<bytes::Bytes>) {
        self.tx.subscribe()
    }
}

impl Default for Broker {
    fn default() -> (broker: Broker)
        ensures
            broker.capacity() == BROADCAST_CAPACITY,
    {
        Broker::new()
    }
}

} // verus!
