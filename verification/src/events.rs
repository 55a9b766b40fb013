//! The events that travel over the bus, and the messages they carry.

use vstd::prelude::*;

verus! {

/// A change of the connection's status.
#[derive(Debug, Clone, Copy, PartialEq, Eq, Structural)]
pub enum StatusEvent {
    /// The client has connected to the broker.
    Connected,
    /// The client has disconnected from the broker, or lost the connection.
    Disconnected,
}

/// One MQTT message: where it goes or came from, what it carries, and how
/// its delivery is assured.
#[derive(Debug, PartialEq, Eq)]
pub struct Message {
    pub topic: String,
    pub payload: Vec<u8>,
    pub qos: i32,
    pub retained: bool,
}

/// What a [`Message`] holds, as mathematical values.
pub struct MessageView {
    pub topic: Seq<char>,
    pub payload: Seq<u8>,
    pub qos: i32,
    pub retained: bool,
}

impl View for Message {
    type V = MessageView;

    open spec fn view(&self) -> MessageView {
        MessageView {
            topic: self.topic@,
            payload: self.payload@,
            qos: self.qos,
            retained: self.retained,
        }
    }
}

impl Message {
    /// A message that the broker does not retain.
    pub fn new(topic: String, payload: Vec<u8>, qos: i32) -> (m: Message)
        ensures
            m@ == (MessageView { topic: topic@, payload: payload@, qos, retained: false }),
    {
        Message { topic, payload, qos, retained: false }
    }

    /// A message that the broker keeps for later subscribers.
    pub fn new_retained(topic: String, payload: Vec<u8>, qos: i32) -> (m: Message)
        ensures
            m@ == (MessageView { topic: topic@, payload: payload@, qos, retained: true }),
    {
        Message { topic, payload, qos, retained: true }
    }
}

impl Clone for Message {
    fn clone(&self) -> (m: Message)
        ensures
            m@ == self@,
    {
        let payload = self.payload.clone();
        assert(payload@ =~= self.payload@);
        Message { topic: self.topic.clone(), payload, qos: self.qos, retained: self.retained }
    }
}

/// Everything that can travel over the bus.
#[derive(Debug, PartialEq, Eq)]
pub enum Event {
    /// The connection's status has changed.
    Status(StatusEvent),
    /// A request to send a message to the broker.
    Tx(Message),
    /// A message that arrived from the broker.
    Rx(Message),
    /// A request to end the dispatch loop.
    Stop,
}

/// What an [`Event`] holds, as mathematical values.
pub enum EventView {
    Status(StatusEvent),
    Tx(MessageView),
    Rx(MessageView),
    Stop,
}

impl View for Event {
    type V = EventView;

    open spec fn view(&self) -> EventView {
        match *self {
            Event::Status(s) => EventView::Status(s),
            Event::Tx(m) => EventView::Tx(m@),
            Event::Rx(m) => EventView::Rx(m@),
            Event::Stop => EventView::Stop,
        }
    }
}

impl Clone for Event {
    fn clone(&self) -> (e: Event)
        ensures
            e@ == self@,
    {
        match self {
            Event::Status(s) => Event::Status(*s),
            Event::Tx(m) => Event::Tx(m.clone()),
            Event::Rx(m) => Event::Rx(m.clone()),
            Event::Stop => Event::Stop,
        }
    }
}

} // verus!
