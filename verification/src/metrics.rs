//! Counters of messages and of connection events, by label set.

use crate::counters::{
    count_in, counted, family_count, family_counts, family_increment, family_new, family_register,
    no_counts, registry_metrics, registry_prefix, registry_with_prefix, scoped_prefix, entry_of,
    CounterFamily, LabelSetView, RegistryEntry,
};
use prometheus_client::registry::Registry;
use vstd::multiset::Multiset;
use vstd::prelude::*;

verus! {

/// Which way a counted message went.
#[derive(Debug, Clone, Copy, Hash, PartialEq, Eq, Structural)]
pub enum MessageDirection {
    Sent,
    Received,
}

/// How handling a counted message ended.
#[derive(Debug, Clone, Copy, Hash, PartialEq, Eq, Structural)]
pub enum MessageResult {
    Success,
    Failure,
}

/// What happened to the connection.
#[derive(Debug, Clone, Copy, Hash, PartialEq, Eq, Structural)]
pub enum ConnectionEvent {
    Connected,
    Disconnected,
    Lost,
}

impl MessageDirection {
    /// The label value that stands for this direction.
    pub open spec fn name_spec(self) -> Seq<char> {
        match self {
            MessageDirection::Sent => "Sent"@,
            MessageDirection::Received => "Received"@,
        }
    }

    /// The label value that stands for this direction.
    pub fn name(&self) -> (s: &'static str)
        ensures
            s@ == self.name_spec(),
    {
        match self {
            MessageDirection::Sent => "Sent",
            MessageDirection::Received => "Received",
        }
    }
}

impl MessageResult {
    /// The label value that stands for this result.
    pub open spec fn name_spec(self) -> Seq<char> {
        match self {
            MessageResult::Success => "Success"@,
            MessageResult::Failure => "Failure"@,
        }
    }

    /// The label value that stands for this result.
    pub fn name(&self) -> (s: &'static str)
        ensures
            s@ == self.name_spec(),
    {
        match self {
            MessageResult::Success => "Success",
            MessageResult::Failure => "Failure",
        }
    }
}

impl ConnectionEvent {
    /// The label value that stands for this kind of event.
    pub open spec fn name_spec(self) -> Seq<char> {
        match self {
            ConnectionEvent::Connected => "Connected"@,
            ConnectionEvent::Disconnected => "Disconnected"@,
            ConnectionEvent::Lost => "Lost"@,
        }
    }

    /// The label value that stands for this kind of event.
    pub fn name(&self) -> (s: &'static str)
        ensures
            s@ == self.name_spec(),
    {
        match self {
            ConnectionEvent::Connected => "Connected",
            ConnectionEvent::Disconnected => "Disconnected",
            ConnectionEvent::Lost => "Lost",
        }
    }
}

/// The labels under which a message is counted.
#[derive(Debug, Hash, PartialEq, Eq)]
pub struct MessageLabels {
    direction: MessageDirection,
    topic: String,
    result: MessageResult,
}

/// What a [`MessageLabels`] holds, as mathematical values.
pub struct MessageLabelsView {
    pub direction: MessageDirection,
    pub topic: Seq<char>,
    pub result: MessageResult,
}

impl MessageLabelsView {
    /// The label set of these labels: direction, topic and result, in this
    /// order.
    pub open spec fn label_set(self) -> LabelSetView {
        seq![
            ("direction"@, self.direction.name_spec()),
            ("topic"@, self.topic),
            ("result"@, self.result.name_spec()),
        ]
    }
}

impl View for MessageLabels {
    type V = MessageLabelsView;

    closed spec fn view(&self) -> MessageLabelsView {
        MessageLabelsView { direction: self.direction, topic: self.topic@, result: self.result }
    }
}

impl MessageLabels {
    /// The pairs by which a counter of these labels is found.
    pub fn label_set(&self) -> (set: Vec<(String, String)>)
        ensures
            set.deep_view() == self@.label_set(),
    {
        let mut set: Vec<(String, String)> = Vec::new();
        set.push(("direction".to_owned(), self.direction.name().to_owned()));
        set.push(("topic".to_owned(), self.topic.clone()));
        set.push(("result".to_owned(), self.result.name().to_owned()));
        assert(set.deep_view() =~= self@.label_set());
        set
    }
}

impl Clone for MessageLabels {
    fn clone(&self) -> (labels: MessageLabels)
        ensures
            labels@ == self@,
    {
        MessageLabels {
            direction: self.direction,
            topic: self.topic.clone(),
            result: self.result,
        }
    }
}

/// Why a [`MessageLabelsBuilder`] could not produce its value.
#[derive(Debug, PartialEq, Eq)]
pub enum MessageLabelsBuilderError {
    /// A field without a default was never set; the name is the field's.
    UninitializedField(&'static str),
    /// The fields do not make a valid value; the text says why.
    ValidationError(String),
}

/// What a [`MessageLabelsBuilderError`] holds, as mathematical values.
pub enum MessageLabelsBuilderErrorView {
    UninitializedField(Seq<char>),
    ValidationError(Seq<char>),
}

impl View for MessageLabelsBuilderError {
    type V = MessageLabelsBuilderErrorView;

    open spec fn view(&self) -> MessageLabelsBuilderErrorView {
        match *self {
            MessageLabelsBuilderError::UninitializedField(field) => {
                MessageLabelsBuilderErrorView::UninitializedField(field@)
            },
            MessageLabelsBuilderError::ValidationError(reason) => {
                MessageLabelsBuilderErrorView::ValidationError(reason@)
            },
        }
    }
}

/// Collects the labels of a message one by one.
#[derive(Debug)]
pub struct MessageLabelsBuilder {
    direction: Option<MessageDirection>,
    topic: Option<String>,
    result: Option<MessageResult>,
}

/// What a [`MessageLabelsBuilder`] holds, as mathematical values.
pub struct MessageLabelsBuilderView {
    pub direction: Option<MessageDirection>,
    pub topic: Option<Seq<char>>,
    pub result: Option<MessageResult>,
}

impl View for MessageLabelsBuilder {
    type V = MessageLabelsBuilderView;

    closed spec fn view(&self) -> MessageLabelsBuilderView {
        MessageLabelsBuilderView {
            direction: self.direction,
            topic: match self.topic {
                Some(t) => Some(t@),
                None => None,
            },
            result: self.result,
        }
    }
}

impl Default for MessageLabelsBuilder {
    fn default() -> (b: MessageLabelsBuilder)
        ensures
            b@ == (MessageLabelsBuilderView { direction: None, topic: None, result: None }),
    {
        MessageLabelsBuilder { direction: None, topic: None, result: None }
    }
}

impl MessageLabelsBuilder {
    /// Sets the direction.
    pub fn direction(&mut self, value: MessageDirection) -> (r: &mut Self)
        ensures
            r@ == (MessageLabelsBuilderView { direction: Some(value), ..old(self)@ }),
            *final(self) == *final(r),
    {
        self.direction = Some(value);
        self
    }

    /// Sets the topic.
    pub fn topic(&mut self, value: String) -> (r: &mut Self)
        ensures
            r@ == (MessageLabelsBuilderView { topic: Some(value@), ..old(self)@ }),
            *final(self) == *final(r),
    {
        self.topic = Some(value);
        self
    }

    /// Sets the result.
    pub fn result(&mut self, value: MessageResult) -> (r: &mut Self)
        ensures
            r@ == (MessageLabelsBuilderView { result: Some(value), ..old(self)@ }),
            *final(self) == *final(r),
    {
        self.result = Some(value);
        self
    }

    /// Marks the message as one that the client sent.
    pub fn sent(&mut self) -> (r: &mut Self)
        ensures
            r@ == (MessageLabelsBuilderView {
                direction: Some(MessageDirection::Sent),
                ..old(self)@
            }),
            *final(self) == *final(r),
    {
        self.direction(MessageDirection::Sent)
    }

    /// Marks the message as one that the client received.
    pub fn received(&mut self) -> (r: &mut Self)
        ensures
            r@ == (MessageLabelsBuilderView {
                direction: Some(MessageDirection::Received),
                ..old(self)@
            }),
            *final(self) == *final(r),
    {
        self.direction(MessageDirection::Received)
    }

    /// Marks the handling of the message as failed.
    pub fn failure(&mut self) -> (r: &mut Self)
        ensures
            r@ == (MessageLabelsBuilderView {
                result: Some(MessageResult::Failure),
                ..old(self)@
            }),
            *final(self) == *final(r),
    {
        self.result(MessageResult::Failure)
    }

    /// What `build` returns for a builder that holds `view`. Direction and
    /// topic have no default; the result defaults to success.
    pub open spec fn build_spec(view: MessageLabelsBuilderView) -> Result<
        MessageLabelsView,
        MessageLabelsBuilderErrorView,
    > {
        match (view.direction, view.topic) {
            (None, _) => Err(MessageLabelsBuilderErrorView::UninitializedField("direction"@)),
            (Some(_), None) => Err(MessageLabelsBuilderErrorView::UninitializedField("topic"@)),
            (Some(direction), Some(topic)) => Ok(
                MessageLabelsView {
                    direction,
                    topic,
                    result: match view.result {
                        Some(result) => result,
                        None => MessageResult::Success,
                    },
                },
            ),
        }
    }

    /// Builds the labels from the fields set so far.
    pub fn build(&self) -> (r: Result<MessageLabels, MessageLabelsBuilderError>)
        ensures
            match Self::build_spec(self@) {
                Ok(view) => r matches Ok(labels) && labels@ == view,
                Err(view) => r matches Err(e) && e@ == view,
            },
    {
        let direction = match self.direction {
            Some(direction) => direction,
            None => {
                return Err(MessageLabelsBuilderError::UninitializedField("direction"));
            },
        };
        let topic = match &self.topic {
            Some(topic) => topic.clone(),
            None => {
                return Err(MessageLabelsBuilderError::UninitializedField("topic"));
            },
        };
        let result = match self.result {
            Some(result) => result,
            None => MessageResult::Success,
        };
        Ok(MessageLabels { direction, topic, result })
    }
}

/// The label under which a connection event is counted.
#[derive(Debug, Clone, Copy, Hash, PartialEq, Eq, Structural)]
pub struct ConnectionEventLabels {
    pub kind: ConnectionEvent,
}

impl ConnectionEventLabels {
    /// The label of a connection that was made.
    pub fn connected() -> (labels: Self)
        ensures
            labels.kind == ConnectionEvent::Connected,
    {
        Self { kind: ConnectionEvent::Connected }
    }

    /// The label of a connection that was closed in an orderly way.
    pub fn disconnected() -> (labels: Self)
        ensures
            labels.kind == ConnectionEvent::Disconnected,
    {
        Self { kind: ConnectionEvent::Disconnected }
    }

    /// The label of a connection that broke.
    pub fn lost() -> (labels: Self)
        ensures
            labels.kind == ConnectionEvent::Lost,
    {
        Self { kind: ConnectionEvent::Lost }
    }

    /// The label set of this label: the kind alone.
    pub open spec fn label_set_spec(self) -> LabelSetView {
        seq![("kind"@, self.kind.name_spec())]
    }

    /// The pairs by which the counter of this label is found.
    pub fn label_set(&self) -> (set: Vec<(String, String)>)
        ensures
            set.deep_view() == self.label_set_spec(),
    {
        let mut set: Vec<(String, String)> = Vec::new();
        set.push(("kind".to_owned(), self.kind.name().to_owned()));
        assert(set.deep_view() =~= self.label_set_spec());
        set
    }
}

/// Connection events of different kinds are counted under different label
/// sets, so counting one kind never changes the count of another.
pub proof fn lemma_connection_labels_distinct(a: ConnectionEvent, b: ConnectionEvent)
    requires
        a != b,
    ensures
        (ConnectionEventLabels { kind: a }).label_set_spec() != (ConnectionEventLabels {
            kind: b,
        }).label_set_spec(),
{
    reveal_strlit("Connected");
    reveal_strlit("Disconnected");
    reveal_strlit("Lost");
    let x = (ConnectionEventLabels { kind: a }).label_set_spec();
    let y = (ConnectionEventLabels { kind: b }).label_set_spec();
    assert(x[0].1 == a.name_spec());
    assert(y[0].1 == b.name_spec());
    assert(a.name_spec().len() != b.name_spec().len());
}

/// Messages that differ in direction, topic or result are counted under
/// different label sets.
pub proof fn lemma_message_labels_distinct(a: MessageLabelsView, b: MessageLabelsView)
    requires
        a != b,
    ensures
        a.label_set() != b.label_set(),
{
    reveal_strlit("Sent");
    reveal_strlit("Received");
    reveal_strlit("Success");
    reveal_strlit("Failure");
    let x = a.label_set();
    let y = b.label_set();
    assert(x[0].1 == a.direction.name_spec());
    assert(y[0].1 == b.direction.name_spec());
    assert(x[1].1 == a.topic);
    assert(y[1].1 == b.topic);
    assert(x[2].1 == a.result.name_spec());
    assert(y[2].1 == b.result.name_spec());
    if a.direction != b.direction {
        assert(a.direction.name_spec().len() != b.direction.name_spec().len());
    } else if a.result != b.result {
        assert(a.result.name_spec()[0] != b.result.name_spec()[0]);
    } else {
        assert(a.topic != b.topic);
    }
}

/// The metrics of a registry that held `before`, after both families were
/// attached to it under `prefix`: the two are kept in a registry below it,
/// whose prefix is `prefix` behind that of the registry, `parent`.
pub open spec fn with_families(
    before: Multiset<RegistryEntry>,
    parent: Option<Seq<char>>,
    prefix: Seq<char>,
) -> Multiset<RegistryEntry> {
    let scope = Some(scoped_prefix(parent, prefix));
    before.insert(entry_of(scope, "messages"@, "MQTT messages processed"@)).insert(
        entry_of(scope, "connection_events"@, "MQTT broker connection change events"@),
    )
}

/// The two families of counters that the client keeps: messages by
/// direction, topic and result, and connection events by kind.
pub struct MetricCollection {
    messages: CounterFamily,
    connection_events: CounterFamily,
}

impl MetricCollection {
    /// The count of each label set of messages that was ever counted.
    pub closed spec fn message_counts(&self) -> Map<LabelSetView, u64> {
        family_counts(self.messages)
    }

    /// The count of each label set of connection events that was ever
    /// counted.
    pub closed spec fn connection_counts(&self) -> Map<LabelSetView, u64> {
        family_counts(self.connection_events)
    }

    /// How many messages were counted under `labels`.
    pub open spec fn message_count(&self, labels: MessageLabelsView) -> u64 {
        count_in(self.message_counts(), labels.label_set())
    }

    /// How many connection events of this kind were counted.
    pub open spec fn connection_count(&self, kind: ConnectionEvent) -> u64 {
        count_in(self.connection_counts(), (ConnectionEventLabels { kind }).label_set_spec())
    }

    /// A collection in which nothing was counted yet.
    pub fn new() -> (metrics: MetricCollection)
        ensures
            metrics.message_counts() == no_counts(),
            metrics.connection_counts() == no_counts(),
    {
        MetricCollection { messages: family_new(), connection_events: family_new() }
    }

    /// Counts one message under `labels`.
    pub fn count_message(&mut self, labels: &MessageLabels)
        ensures
            final(self).message_counts() == counted(
                old(self).message_counts(),
                labels@.label_set(),
            ),
            final(self).connection_counts() == old(self).connection_counts(),
    {
        let set = labels.label_set();
        family_increment(&mut self.messages, &set);
    }

    /// Counts one connection event under `labels`.
    pub fn count_connection_event(&mut self, labels: &ConnectionEventLabels)
        ensures
            final(self).connection_counts() == counted(
                old(self).connection_counts(),
                labels.label_set_spec(),
            ),
            final(self).message_counts() == old(self).message_counts(),
    {
        let set = labels.label_set();
        family_increment(&mut self.connection_events, &set);
    }

    /// How many messages were counted under `labels`.
    pub fn messages(&self, labels: &MessageLabels) -> (count: u64)
        ensures
            count == self.message_count(labels@),
    {
        let set = labels.label_set();
        match family_count(&self.messages, &set) {
            Some(count) => count,
            None => 0,
        }
    }

    /// How many connection events were counted under `labels`.
    pub fn connection_events(&self, labels: &ConnectionEventLabels) -> (count: u64)
        ensures
            count == self.connection_count(labels.kind),
    {
        let set = labels.label_set();
        match family_count(&self.connection_events, &set) {
            Some(count) => count,
            None => 0,
        }
    }

    /// Attaches both families to `registry`, under `prefix`: the messages
    /// as `messages`, the connection events as `connection_events`.
    pub fn register(&self, registry: &mut Registry, prefix: &str)
        ensures
            registry_prefix(*final(registry)) == registry_prefix(*old(registry)),
            registry_metrics(*final(registry)) == with_families(
                registry_metrics(*old(registry)),
                registry_prefix(*old(registry)),
                prefix@,
            ),
    {
        let ghost before = registry_metrics(*registry);
        let ghost scope = Some(scoped_prefix(registry_prefix(*registry), prefix@));
        let scoped = registry_with_prefix(registry, prefix);
        family_register(scoped, "messages", "MQTT messages processed", &self.messages);
        family_register(
            scoped,
            "connection_events",
            "MQTT broker connection change events",
            &self.connection_events,
        );
        let ghost first = entry_of(scope, "messages"@, "MQTT messages processed"@);
        let ghost second = entry_of(
            scope,
            "connection_events"@,
            "MQTT broker connection change events"@,
        );
        assert(before.add(Multiset::empty().insert(first).insert(second)) =~= before.insert(
            first,
        ).insert(second));
    }
}

} // verus!
