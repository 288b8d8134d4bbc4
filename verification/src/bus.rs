//! The in-process event bus: a `tokio` broadcast channel of application
//! events. What is published through it is recorded; what reaches a
//! subscriber depends on timing, so nothing is stated of it.

use vstd::prelude::*;
use crate::ports::EventPublisher;
use crate::preview::AppEvent;

verus! {

#[verifier::external_type_specification]
#[verifier::external_body]
#[verifier::reject_recursive_types(T)]
pub struct ExBroadcastSender<T>(tokio::sync::broadcast::Sender<T>);

#[verifier::external_type_specification]
#[verifier::external_body]
#[verifier::reject_recursive_types(T)]
pub struct ExBroadcastReceiver<T>(tokio::sync::broadcast::Receiver<T>);

/// `tokio::sync::broadcast::channel(capacity)`, keeping its sender; the
/// function panics when the capacity is 0 or above `usize::MAX / 2`.
#[verifier::external_body]
fn broadcast_channel(capacity: usize) -> tokio::sync::broadcast::Sender<AppEvent>
    requires
        0 < capacity <= usize::MAX / 2,
{
    tokio::sync::broadcast::channel(capacity).0
}

/// `Sender::send`; an event with no receiver is dropped.
#[verifier::external_body]
fn broadcast_send(sender: &tokio::sync::broadcast::Sender<AppEvent>, event: AppEvent) {
    let _ = sender.send(event);
}

/// `Sender::subscribe`.
#[verifier::external_body]
fn broadcast_subscribe(sender: &tokio::sync::broadcast::Sender<AppEvent>) -> tokio::sync::broadcast::Receiver<AppEvent> {
    sender.subscribe()
}

/// `Sender::clone`: another handle on the same channel.
#[verifier::external_body]
fn broadcast_clone(sender: &tokio::sync::broadcast::Sender<AppEvent>) -> tokio::sync::broadcast::Sender<AppEvent> {
    sender.clone()
}

/// The event bus: every subscriber receives the events published after it
/// subscribed, up to `capacity` not yet received. Besides the channel, the bus
/// keeps a ghost record of what was handed to it through this handle.
pub struct EventBus {
    sender: tokio::sync::broadcast::Sender<AppEvent>,
    log: Ghost<Seq<AppEvent>>,
}

impl EventBus {
    /// A bus on a new channel of `capacity` slots, with nothing published yet.
    pub fn new(capacity: usize) -> (bus: Self)
        requires
            0 < capacity <= usize::MAX / 2,
        ensures
            bus.published() == Seq::<AppEvent>::empty(),
    {
        EventBus { sender: broadcast_channel(capacity), log: Ghost(Seq::empty()) }
    }

    /// A receiver of the events published from now on; nothing is stated of
    /// what it receives, which depends on timing and on the channel's capacity.
    pub fn subscribe(&self) -> tokio::sync::broadcast::Receiver<AppEvent> {
        broadcast_subscribe(&self.sender)
    }
}

impl Clone for EventBus {
    /// Another handle on the same channel, with the same record.
    fn clone(&self) -> (r: Self)
        ensures
            r.published() == self.published(),
    {
        EventBus { sender: broadcast_clone(&self.sender), log: Ghost(self.log@) }
    }
}

impl EventPublisher for EventBus {
    closed spec fn published(&self) -> Seq<AppEvent> {
        self.log@
    }

    fn publish(&mut self, event: AppEvent) {
        proof {
            self.log@ = self.log@.push(event);
        }
        broadcast_send(&self.sender, event);
    }
}

} // verus!
