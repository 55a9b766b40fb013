//! The client: the subscriptions it keeps, the bus it publishes on, its
//! lifecycle and its counters.
//!
//! The connection to the broker lives outside. Whoever owns it tells the
//! client what the connection reports, and does what the client answers:
//! it issues the subscriptions to replay, runs the dispatch loop on the
//! receiver that a start hands out, and waits for that loop when the
//! client stops.

use crate::bus::{receiver_depth, sender_depth, EventBus};
use crate::cache::{views_of, SubscriptionCache};
use crate::config::{ClientConfig, ClientConfigView};
use crate::counters::{counted, no_counts, registry_metrics, registry_prefix, LabelSetView};
use crate::errors::Error;
use crate::events::{Event, EventView, Message, StatusEvent};
use crate::lifecycle::{step, LifecycleAction, LifecycleEvent, LifecycleState};
use crate::metrics::{
    with_families, ConnectionEvent, ConnectionEventLabels, MessageDirection, MessageLabelsBuilder,
    MessageLabelsView, MessageResult, MetricCollection,
};
use crate::subscription::{Subscription, SubscriptionView};
use prometheus_client::registry::Registry;
use tokio::sync::broadcast::{Receiver, Sender};
use tokio::task::JoinError;
use vstd::prelude::*;

verus! {

/// What a [`Client`] holds, as mathematical values.
pub struct ClientView {
    /// The settings it was made with.
    pub config: ClientConfigView,
    /// The subscriptions asked for so far, oldest first.
    pub subscriptions: Seq<SubscriptionView>,
    /// How many events the bus was made to keep for a receiver that falls
    /// behind.
    pub backlog: usize,
    /// The events that the bus accepted from this client, oldest first.
    pub published: Seq<EventView>,
    /// Where it stands between not running and running.
    pub state: LifecycleState,
    /// The count of messages under each label set.
    pub message_counts: Map<LabelSetView, u64>,
    /// The count of connection events under each label set.
    pub connection_counts: Map<LabelSetView, u64>,
}

/// The record of published events after `event` was handed to the bus.
pub open spec fn published_after(log: Seq<EventView>, event: EventView, delivered: bool) -> Seq<
    EventView,
> {
    if delivered {
        log.push(event)
    } else {
        log
    }
}

/// The label set under which a connection event of this kind is counted.
pub open spec fn connection_labels(kind: ConnectionEvent) -> LabelSetView {
    (ConnectionEventLabels { kind }).label_set_spec()
}

/// The label set under which a message on `topic` is counted.
pub open spec fn message_labels(
    direction: MessageDirection,
    topic: Seq<char>,
    result: MessageResult,
) -> LabelSetView {
    (MessageLabelsView { direction, topic, result }).label_set()
}

/// The status that the bus carries for each kind of connection event: a
/// lost connection is reported like one that was closed.
pub open spec fn status_of(kind: ConnectionEvent) -> StatusEvent {
    match kind {
        ConnectionEvent::Connected => StatusEvent::Connected,
        ConnectionEvent::Disconnected => StatusEvent::Disconnected,
        ConnectionEvent::Lost => StatusEvent::Disconnected,
    }
}

/// The result label of a message that was handed to the connection.
pub open spec fn result_of(delivered: bool) -> MessageResult {
    if delivered {
        MessageResult::Success
    } else {
        MessageResult::Failure
    }
}

/// What the client answers when the connection was made.
#[derive(Debug)]
pub struct Replay {
    /// Whether the bus accepted the status event.
    pub delivered: bool,
    /// The subscriptions to issue on the new connection, in this order.
    pub subscriptions: Vec<Subscription>,
}

/// The core of a channel based MQTT client.
pub struct Client {
    config: ClientConfig,
    subscriptions: SubscriptionCache,
    bus: EventBus,
    state: LifecycleState,
    metrics: MetricCollection,
}

impl View for Client {
    type V = ClientView;

    closed spec fn view(&self) -> ClientView {
        ClientView {
            config: self.config@,
            subscriptions: self.subscriptions@,
            backlog: self.bus.depth(),
            published: self.bus.accepted(),
            state: self.state,
            message_counts: self.metrics.message_counts(),
            connection_counts: self.metrics.connection_counts(),
        }
    }
}

impl Client {
    /// A client that is idle, holds no subscription, has published
    /// nothing and has counted nothing.
    pub fn new(config: ClientConfig) -> (client: Client)
        ensures
            client@ == (ClientView {
                config: config@,
                subscriptions: Seq::empty(),
                backlog: config@.channel_size,
                published: Seq::empty(),
                state: LifecycleState::Idle,
                message_counts: no_counts(),
                connection_counts: no_counts(),
            }),
    {
        let bus = EventBus::new(config.channel_size());
        Client {
            config,
            subscriptions: SubscriptionCache::new(),
            bus,
            state: LifecycleState::Idle,
            metrics: MetricCollection::new(),
        }
    }

    /// The settings of this client.
    pub fn config(&self) -> (config: &ClientConfig)
        ensures
            config@ == self@.config,
    {
        &self.config
    }

    /// Where the client stands between not running and running.
    pub fn state(&self) -> (state: LifecycleState)
        ensures
            state == self@.state,
    {
        self.state
    }

    /// The counters of this client.
    pub fn metrics(&self) -> (metrics: &MetricCollection)
        ensures
            metrics.message_counts() == self@.message_counts,
            metrics.connection_counts() == self@.connection_counts,
    {
        &self.metrics
    }

    /// A copy of the subscriptions asked for so far, oldest first.
    pub fn subscriptions(&self) -> (copy: Vec<Subscription>)
        ensures
            views_of(copy@) == self@.subscriptions,
    {
        self.subscriptions.snapshot()
    }

    /// A sending handle on the bus, for a producer of its own.
    pub fn tx_channel(&self) -> (handle: Sender<Event>)
        ensures
            sender_depth(handle) == self@.backlog,
    {
        self.bus.sender()
    }

    /// A receiver on the bus, which sees every event published after this
    /// call. It is told what it missed once it falls behind by more than
    /// the bus's backlog depth.
    pub fn rx_channel(&self) -> (receiver: Receiver<Event>)
        ensures
            receiver_depth(receiver) == self@.backlog,
    {
        self.bus.subscribe()
    }

    /// Publishes a request to send `message`. Fails when the bus has no
    /// receiver, and then hands the request back inside the error.
    pub fn send(&mut self, message: Message) -> (r: Result<(), Error>)
        ensures
            match r {
                Ok(()) => final(self)@ == (ClientView {
                    published: old(self)@.published.push(EventView::Tx(message@)),
                    ..old(self)@
                }),
                Err(e) => e == Error::ChannelError(Event::Tx(message)) && final(self)@ == old(
                    self,
                )@,
            },
    {
        match self.bus.publish(Event::Tx(message)) {
            Ok(_) => Ok(()),
            Err(e) => Err(e),
        }
    }

    /// Adds a subscription. It is kept for every later connection in any
    /// case; where the connection is live now, it is also handed back to be
    /// issued at once.
    pub fn subscribe(&mut self, subscription: Subscription, connected: bool) -> (now: Option<
        Subscription,
    >)
        ensures
            final(self)@ == (ClientView {
                subscriptions: old(self)@.subscriptions.push(subscription@),
                ..old(self)@
            }),
            connected ==> (now matches Some(s) && s@ == subscription@),
            !connected ==> now is None,
    {
        let now = if connected {
            Some(subscription.clone())
        } else {
            None
        };
        self.subscriptions.add(subscription);
        now
    }

    /// Attaches the counters to `registry`, under the configured prefix:
    /// the messages as `messages`, the connection events as
    /// `connection_events`, both in a registry of their own below it.
    pub fn register_metrics(&self, registry: &mut Registry)
        ensures
            registry_prefix(*final(registry)) == registry_prefix(*old(registry)),
            registry_metrics(*final(registry)) == with_families(
                registry_metrics(*old(registry)),
                registry_prefix(*old(registry)),
                self@.config.metrics_prefix,
            ),
    {
        self.metrics.register(registry, self.config.metrics_prefix().as_str());
    }

    /// Asks the client to start. Accepted only when idle: the caller then
    /// connects and reports the outcome to [`Client::finish_start`]. In
    /// every other state the client is already started and nothing
    /// changes.
    pub fn start(&mut self) -> (r: Result<(), Error>)
        ensures
            final(self)@ == (ClientView {
                state: step(old(self)@.state, LifecycleEvent::StartRequested).next,
                ..old(self)@
            }),
            old(self)@.state == LifecycleState::Idle ==> r == Ok::<(), Error>(())
                && final(self)@.state == LifecycleState::Starting,
            old(self)@.state != LifecycleState::Idle ==> r == Err::<(), Error>(
                Error::ClientAlreadyStarted,
            ) && final(self)@ == old(self)@,
    {
        let t = self.state.step(LifecycleEvent::StartRequested);
        self.state = t.next;
        match t.action {
            LifecycleAction::Connect => Ok(()),
            _ => Err(Error::ClientAlreadyStarted),
        }
    }

    /// Completes a start with what connecting came to. Where the
    /// connection was made, the client runs, and the receiver handed out is
    /// the one that the dispatch loop reads. Where it failed, the client is
    /// idle again and the failure is returned.
    pub fn finish_start(&mut self, connection: Result<(), String>) -> (r: Result<
        Receiver<Event>,
        Error,
    >)
        requires
            old(self)@.state == LifecycleState::Starting,
        ensures
            match connection {
                Ok(()) => (r matches Ok(receiver) && receiver_depth(receiver) == old(
                    self,
                )@.backlog) && final(self)@ == (ClientView {
                    state: LifecycleState::Running,
                    ..old(self)@
                }),
                Err(reason) => r == Err::<Receiver<Event>, Error>(Error::MqttError(reason))
                    && final(self)@ == (ClientView {
                    state: LifecycleState::Idle,
                    ..old(self)@
                }),
            },
    {
        match connection {
            Ok(()) => {
                let receiver = self.bus.subscribe();
                self.state = self.state.step(LifecycleEvent::ConnectSucceeded).next;
                Ok(receiver)
            },
            Err(reason) => {
                self.state = self.state.step(LifecycleEvent::ConnectFailed).next;
                Err(Error::MqttError(reason))
            },
        }
    }

    /// Asks the client to stop. Accepted only when running: the stop
    /// request is published, and the caller then waits for the dispatch
    /// task and reports to [`Client::finish_stop`]. Where the bus does not
    /// accept the request, the client keeps running. In every other state
    /// the client is already stopped and nothing changes.
    pub fn stop(&mut self) -> (r: Result<(), Error>)
        ensures
            old(self)@.state != LifecycleState::Running ==> r == Err::<(), Error>(
                Error::ClientAlreadyStopped,
            ) && final(self)@ == old(self)@,
            old(self)@.state == LifecycleState::Running ==> match r {
                Ok(()) => final(self)@ == (ClientView {
                    state: LifecycleState::Stopping,
                    published: old(self)@.published.push(EventView::Stop),
                    ..old(self)@
                }),
                Err(e) => e == Error::ChannelError(Event::Stop) && final(self)@ == old(self)@,
            },
    {
        let t = self.state.step(LifecycleEvent::StopRequested);
        match t.action {
            LifecycleAction::PublishStop => {
                match self.bus.publish(Event::Stop) {
                    Ok(_) => {
                        self.state = self.state.step(LifecycleEvent::StopPublished).next;
                        Ok(())
                    },
                    Err(e) => {
                        self.state = self.state.step(LifecycleEvent::StopUndelivered).next;
                        Err(e)
                    },
                }
            },
            _ => Err(Error::ClientAlreadyStopped),
        }
    }

    /// Completes a stop with what waiting for the dispatch task came to.
    /// The client is idle again; a task that ended abnormally is reported.
    pub fn finish_stop(&mut self, joined: Result<(), JoinError>) -> (r: Result<(), Error>)
        requires
            old(self)@.state == LifecycleState::Stopping,
        ensures
            final(self)@ == (ClientView { state: LifecycleState::Idle, ..old(self)@ }),
            r == (match joined {
                Ok(()) => Ok::<(), Error>(()),
                Err(e) => Err::<(), Error>(Error::JoinError(e)),
            }),
    {
        self.state = self.state.step(LifecycleEvent::TaskJoined).next;
        match joined {
            Ok(()) => Ok(()),
            Err(e) => Err(Error::JoinError(e)),
        }
    }

    /// Counts a connection event of this kind and publishes the status
    /// that stands for it. Returns whether the bus accepted the event.
    fn connection_changed(&mut self, kind: ConnectionEvent) -> (delivered: bool)
        ensures
            final(self)@ == (ClientView {
                connection_counts: counted(old(self)@.connection_counts, connection_labels(kind)),
                published: published_after(
                    old(self)@.published,
                    EventView::Status(status_of(kind)),
                    delivered,
                ),
                ..old(self)@
            }),
    {
        let labels = ConnectionEventLabels { kind };
        self.metrics.count_connection_event(&labels);
        let status = match kind {
            ConnectionEvent::Connected => StatusEvent::Connected,
            ConnectionEvent::Disconnected => StatusEvent::Disconnected,
            ConnectionEvent::Lost => StatusEvent::Disconnected,
        };
        self.bus.publish(Event::Status(status)).is_ok()
    }

    /// The connection was made, for the first time or again: counts it,
    /// publishes the status, and hands out every subscription asked for so
    /// far, to be issued on the new connection in the order of asking.
    pub fn on_connected(&mut self) -> (replay: Replay)
        ensures
            views_of(replay.subscriptions@) == old(self)@.subscriptions,
            final(self)@ == (ClientView {
                connection_counts: counted(
                    old(self)@.connection_counts,
                    connection_labels(ConnectionEvent::Connected),
                ),
                published: published_after(
                    old(self)@.published,
                    EventView::Status(StatusEvent::Connected),
                    replay.delivered,
                ),
                ..old(self)@
            }),
    {
        let delivered = self.connection_changed(ConnectionEvent::Connected);
        Replay { delivered, subscriptions: self.subscriptions.snapshot() }
    }

    /// The connection was closed in an orderly way: counts it and
    /// publishes the status. Returns whether the bus accepted the event.
    pub fn on_disconnected(&mut self) -> (delivered: bool)
        ensures
            final(self)@ == (ClientView {
                connection_counts: counted(
                    old(self)@.connection_counts,
                    connection_labels(ConnectionEvent::Disconnected),
                ),
                published: published_after(
                    old(self)@.published,
                    EventView::Status(StatusEvent::Disconnected),
                    delivered,
                ),
                ..old(self)@
            }),
    {
        self.connection_changed(ConnectionEvent::Disconnected)
    }

    /// The connection broke: counts it under a label of its own and
    /// publishes the same status as for an orderly close. Returns whether
    /// the bus accepted the event.
    pub fn on_connection_lost(&mut self) -> (delivered: bool)
        ensures
            final(self)@ == (ClientView {
                connection_counts: counted(
                    old(self)@.connection_counts,
                    connection_labels(ConnectionEvent::Lost),
                ),
                published: published_after(
                    old(self)@.published,
                    EventView::Status(StatusEvent::Disconnected),
                    delivered,
                ),
                ..old(self)@
            }),
    {
        self.connection_changed(ConnectionEvent::Lost)
    }

    /// The connection delivered a message, or reported that none came:
    /// a message is counted as received on its topic and published as it
    /// is. Returns whether the bus accepted the event.
    pub fn on_message(&mut self, message: Option<Message>) -> (delivered: bool)
        ensures
            match message {
                None => !delivered && final(self)@ == old(self)@,
                Some(m) => final(self)@ == (ClientView {
                    message_counts: counted(
                        old(self)@.message_counts,
                        message_labels(
                            MessageDirection::Received,
                            m@.topic,
                            MessageResult::Success,
                        ),
                    ),
                    published: published_after(
                        old(self)@.published,
                        EventView::Rx(m@),
                        delivered,
                    ),
                    ..old(self)@
                }),
            },
    {
        match message {
            None => false,
            Some(m) => {
                let mut builder = MessageLabelsBuilder::default();
                builder.received().topic(m.topic.clone());
                let labels = builder.build().unwrap();
                self.metrics.count_message(&labels);
                self.bus.publish(Event::Rx(m)).is_ok()
            },
        }
    }

    /// The dispatch loop handed a message on `topic` to the connection:
    /// counts it as sent, as a success where the connection took and
    /// delivered it, else as a failure.
    pub fn on_published(&mut self, topic: String, delivered: bool)
        ensures
            final(self)@ == (ClientView {
                message_counts: counted(
                    old(self)@.message_counts,
                    message_labels(MessageDirection::Sent, topic@, result_of(delivered)),
                ),
                ..old(self)@
            }),
    {
        let mut builder = MessageLabelsBuilder::default();
        builder.sent().topic(topic);
        if !delivered {
            builder.failure();
        }
        let labels = builder.build().unwrap();
        self.metrics.count_message(&labels);
    }
}

} // verus!
