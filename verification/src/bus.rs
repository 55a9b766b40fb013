//! The broadcast bus: one sending side that many producers may share, and
//! any number of receivers, each of which sees what is published after it
//! subscribed.

use crate::errors::Error;
use crate::events::{Event, EventView};
use tokio::sync::broadcast::{Receiver, Sender};
use vstd::prelude::*;

verus! {

/// `tokio::sync::broadcast::Sender`: the sending half of a broadcast
/// channel. Its state is shared with every clone and every receiver, so
/// nothing is claimed of what a value of it holds.
#[verifier::external_type_specification]
#[verifier::external_body]
#[verifier::reject_recursive_types(T)]
pub struct ExSender<T>(Sender<T>);

/// `tokio::sync::broadcast::Receiver`: one receiving half of a broadcast
/// channel.
#[verifier::external_type_specification]
#[verifier::external_body]
#[verifier::reject_recursive_types(T)]
pub struct ExReceiver<T>(Receiver<T>);

/// The backlog depth that the channel of this sender was made with.
pub uninterp spec fn sender_depth(sender: Sender<Event>) -> usize;

/// The backlog depth that the channel of this receiver was made with.
pub uninterp spec fn receiver_depth(receiver: Receiver<Event>) -> usize;

/// `tokio::sync::broadcast::channel`, keeping the sending half and dropping
/// the receiver it comes with: a channel made with this backlog depth. The
/// call panics on a capacity of zero or above `usize::MAX / 2`, which the
/// precondition leaves out.
#[verifier::external_body]
fn channel_open(capacity: usize) -> (sender: Sender<Event>)
    requires
        0 < capacity <= usize::MAX / 2,
    ensures
        sender_depth(sender) == capacity,
{
    let (sender, _) = tokio::sync::broadcast::channel::<Event>(capacity);
    sender
}

/// `tokio::sync::broadcast::Sender::send`. The channel accepts the value
/// exactly when it has a live receiver, and then reports how many there
/// are; otherwise it hands the value back untouched. Which of the two
/// happens depends on the receivers alive at that moment.
#[verifier::external_body]
fn channel_send(sender: &Sender<Event>, event: Event) -> (r: core::result::Result<usize, Event>)
    ensures
        r matches Ok(receivers) ==> receivers >= 1,
        r matches Err(back) ==> back == event,
{
    match sender.send(event) {
        Ok(receivers) => Ok(receivers),
        Err(e) => Err(e.0),
    }
}

/// `tokio::sync::broadcast::Sender::subscribe`: a new receiver on the
/// sender's channel, which sees the values sent after this call. Of the
/// receiver only the channel's backlog depth is stated.
#[verifier::external_body]
fn channel_subscribe(sender: &Sender<Event>) -> (receiver: Receiver<Event>)
    ensures
        receiver_depth(receiver) == sender_depth(*sender),
{
    sender.subscribe()
}

/// `Clone` of `tokio::sync::broadcast::Sender`: another handle on the same
/// channel. Of the handle only the channel's backlog depth is stated.
#[verifier::external_body]
fn channel_handle(sender: &Sender<Event>) -> (handle: Sender<Event>)
    ensures
        sender_depth(handle) == sender_depth(*sender),
{
    sender.clone()
}

/// What publishing came to, given what the channel answered: on success
/// the number of receivers, else the event inside a
/// [`Error::ChannelError`].
pub open spec fn publish_outcome(answer: core::result::Result<usize, Event>) -> core::result::Result<
    usize,
    Error,
> {
    match answer {
        Ok(receivers) => Ok(receivers),
        Err(event) => Err(Error::ChannelError(event)),
    }
}

/// Turns the channel's answer to a send into the library's result.
pub fn outcome_of_send(answer: core::result::Result<usize, Event>) -> (r: core::result::Result<
    usize,
    Error,
>)
    ensures
        r == publish_outcome(answer),
{
    match answer {
        Ok(receivers) => Ok(receivers),
        Err(event) => Err(Error::ChannelError(event)),
    }
}

/// The sending side of the bus, together with the record of what this
/// handle has published.
pub struct EventBus {
    sender: Sender<Event>,
    accepted: Ghost<Seq<EventView>>,
}

impl EventBus {
    /// The events that the channel has accepted from this handle, oldest
    /// first.
    pub closed spec fn accepted(&self) -> Seq<EventView> {
        self.accepted@
    }

    /// How many events the bus was made to keep for a receiver that falls
    /// behind.
    pub closed spec fn depth(&self) -> usize {
        sender_depth(self.sender)
    }

    /// A bus that keeps up to `capacity` events for a slow receiver. It
    /// starts without receivers.
    pub fn new(capacity: usize) -> (bus: EventBus)
        requires
            0 < capacity <= usize::MAX / 2,
        ensures
            bus.accepted() == Seq::<EventView>::empty(),
            bus.depth() == capacity,
    {
        EventBus { sender: channel_open(capacity), accepted: Ghost(Seq::empty()) }
    }

    /// Publishes `event` to every live receiver. Fails, handing the event
    /// back, when there is none; never blocks.
    pub fn publish(&mut self, event: Event) -> (r: core::result::Result<usize, Error>)
        ensures
            final(self).depth() == old(self).depth(),
            r matches Ok(receivers) ==> receivers >= 1 && final(self).accepted() == old(
                self,
            ).accepted().push(event@),
            r matches Err(e) ==> e == Error::ChannelError(event) && final(self).accepted() == old(
                self,
            ).accepted(),
    {
        let ghost view = event@;
        let answer = channel_send(&self.sender, event);
        if answer.is_ok() {
            proof {
                self.accepted@ = self.accepted@.push(view);
            }
        }
        outcome_of_send(answer)
    }

    /// A new receiver, which sees every event published after this call.
    /// It is told what it missed once it falls behind by more than the
    /// bus's backlog depth.
    pub fn subscribe(&self) -> (receiver: Receiver<Event>)
        ensures
            receiver_depth(receiver) == self.depth(),
    {
        channel_subscribe(&self.sender)
    }

    /// Another sending handle on the same bus, for a producer of its own.
    pub fn sender(&self) -> (handle: Sender<Event>)
        ensures
            sender_depth(handle) == self.depth(),
    {
        channel_handle(&self.sender)
    }
}

} // verus!
