use crate::message::ChatMessage;
use tokio::sync::broadcast::{Receiver, Sender};
use vstd::prelude::*;

verus! {

/// tokio's broadcast publish handle, carried opaquely.
#[verifier::external_type_specification]
#[verifier::external_body]
#[verifier::reject_recursive_types(T)]
pub struct ExSender<T>(Sender<T>);

/// tokio's broadcast receiving handle, carried opaquely.
#[verifier::external_type_specification]
#[verifier::external_body]
#[verifier::reject_recursive_types(T)]
pub struct ExReceiver<T>(Receiver<T>);

/// Relies on tokio's `Clone` for a broadcast sender: another handle to the
/// same channel.
pub assume_specification<T>[ <Sender<T> as Clone>::clone ](s: &Sender<T>) -> Sender<T>;

/// The number of messages a hub keeps for subscribers that fall behind.
pub const HUB_CAPACITY: usize = 500;

/// What happened to a published message.
#[derive(Clone, Copy, Debug, PartialEq, Eq)]
pub enum PublishOutcome {
    /// Queued for this many live subscriptions.
    Delivered(usize),
    /// No subscription was live: the message went nowhere.
    NoSubscribers,
}

/// What a subscription observes next.
#[derive(Clone, Debug, PartialEq, Eq)]
pub enum HubEvent {
    /// The next message, in publish order.
    Message(ChatMessage),
    /// This many messages were overwritten before they were read; the
    /// subscription now stands at the oldest message still held.
    Lagged(u64),
    /// Every publish handle is gone: nothing will arrive any more.
    Closed,
}

/// The shared publish handle of a bounded fan-out channel of chat messages.
/// Cloning it gives another handle to the same channel.
#[derive(Clone)]
pub struct Hub {
    sender: Sender<ChatMessage>,
}

/// One subscriber's cursor into a hub.
pub struct Subscription {
    pub receiver: Receiver<ChatMessage>,
}

/// Relies on tokio::sync::broadcast::channel, which panics on a capacity of
/// zero or above `usize::MAX / 2`; the receiver it also returns is dropped.
#[verifier::external_body]
fn open_channel(capacity: usize) -> (r: Sender<ChatMessage>)
    requires
        0 < capacity <= usize::MAX / 2,
{
    tokio::sync::broadcast::channel(capacity).0
}

/// Relies on tokio::sync::broadcast::Sender::send: it fails only when no
/// receiver is live, and otherwise reports the (nonzero) receiver count.
#[verifier::external_body]
fn send_message(sender: &Sender<ChatMessage>, msg: ChatMessage) -> (r: Option<usize>)
    ensures
        r matches Some(n) ==> n > 0,
{
    sender.send(msg).ok()
}

/// Relies on tokio::sync::broadcast::Sender::subscribe: a receiver that sees
/// only what is sent after this call. (tokio also panics once `usize::MAX >> 2`
/// receivers are live at once, a count that memory rules out.)
#[verifier::external_body]
fn new_receiver(sender: &Sender<ChatMessage>) -> (r: Receiver<ChatMessage>) {
    sender.subscribe()
}

/// Relies on tokio::sync::broadcast::Receiver::try_recv; `None` stands for an
/// empty channel, and a lag count is nonzero.
#[verifier::external_body]
fn poll_receiver(receiver: &mut Receiver<ChatMessage>) -> (r: Option<HubEvent>)
    ensures
        r matches Some(HubEvent::Lagged(n)) ==> n > 0,
{
    match receiver.try_recv() {
        Ok(m) => Some(HubEvent::Message(m)),
        Err(tokio::sync::broadcast::error::TryRecvError::Empty) => None,
        Err(tokio::sync::broadcast::error::TryRecvError::Lagged(n)) => Some(HubEvent::Lagged(n)),
        Err(tokio::sync::broadcast::error::TryRecvError::Closed) => Some(HubEvent::Closed),
    }
}

impl Hub {
    /// A hub that keeps at least `capacity` messages for slow subscribers.
    pub fn new(capacity: usize) -> (r: Hub)
        requires
            0 < capacity <= usize::MAX / 2,
    {
        Hub { sender: open_channel(capacity) }
    }

    /// A subscription that observes only messages published after this call.
    pub fn subscribe(&self) -> (r: Subscription) {
        Subscription { receiver: new_receiver(&self.sender) }
    }

    /// Queues `msg` for every live subscription without waiting on any of
    /// them; where the buffer is full the oldest message is overwritten.
    pub fn publish(&self, msg: ChatMessage) -> (r: PublishOutcome)
        ensures
            r matches PublishOutcome::Delivered(n) ==> n > 0,
    {
        match send_message(&self.sender, msg) {
            Some(n) => PublishOutcome::Delivered(n),
            None => PublishOutcome::NoSubscribers,
        }
    }
}

impl Subscription {
    /// The next event of this subscription, or `None` where no message is
    /// waiting for it.
    pub fn try_receive(&mut self) -> (r: Option<HubEvent>)
        ensures
            r matches Some(HubEvent::Lagged(n)) ==> n > 0,
    {
        poll_receiver(&mut self.receiver)
    }
}

} // verus!
