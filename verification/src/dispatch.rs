//! What the dispatch loop does with each thing it receives from the bus.
//!
//! The loop itself waits on the bus and on the connection, so it runs
//! outside; what it decides at each turn is decided here.

use crate::events::{Event, EventView, Message, MessageView};
use vstd::prelude::*;

verus! {

/// What one receive on the bus yields.
#[derive(Debug, PartialEq, Eq)]
pub enum Received {
    /// The next event.
    Event(Event),
    /// The receiver fell behind and this many events were overwritten
    /// before it could read them; it goes on with the oldest that is left.
    Lagged(u64),
    /// Every sender is gone and nothing is left to read.
    Closed,
}

/// What a [`Received`] holds, as mathematical values.
pub enum ReceivedView {
    Event(EventView),
    Lagged(u64),
    Closed,
}

impl View for Received {
    type V = ReceivedView;

    open spec fn view(&self) -> ReceivedView {
        match *self {
            Received::Event(e) => ReceivedView::Event(e@),
            Received::Lagged(n) => ReceivedView::Lagged(n),
            Received::Closed => ReceivedView::Closed,
        }
    }
}

/// What the loop does next.
#[derive(Debug, PartialEq, Eq)]
pub enum DispatchAction {
    /// Hand the message to the connection, then receive again.
    Publish(Message),
    /// Receive again.
    Continue,
    /// Leave the loop.
    Exit,
}

/// What a [`DispatchAction`] holds, as mathematical values.
pub enum DispatchActionView {
    Publish(MessageView),
    Continue,
    Exit,
}

impl View for DispatchAction {
    type V = DispatchActionView;

    open spec fn view(&self) -> DispatchActionView {
        match *self {
            DispatchAction::Publish(m) => DispatchActionView::Publish(m@),
            DispatchAction::Continue => DispatchActionView::Continue,
            DispatchAction::Exit => DispatchActionView::Exit,
        }
    }
}

/// The action for each thing received: an outbound message is published,
/// a stop request or a closed bus ends the loop, and everything else,
/// missed events included, is passed over.
pub open spec fn action_for(received: ReceivedView) -> DispatchActionView {
    match received {
        ReceivedView::Event(EventView::Tx(m)) => DispatchActionView::Publish(m),
        ReceivedView::Event(EventView::Stop) => DispatchActionView::Exit,
        ReceivedView::Closed => DispatchActionView::Exit,
        _ => DispatchActionView::Continue,
    }
}

/// Decides what the loop does with `received`.
pub fn dispatch(received: Received) -> (action: DispatchAction)
    ensures
        action@ == action_for(received@),
{
    match received {
        Received::Event(Event::Tx(m)) => DispatchAction::Publish(m),
        Received::Event(Event::Stop) => DispatchAction::Exit,
        Received::Closed => DispatchAction::Exit,
        _ => DispatchAction::Continue,
    }
}

/// Whether the loop ends on `received`.
pub open spec fn ends_loop(received: ReceivedView) -> bool {
    action_for(received) == DispatchActionView::Exit
}

/// The messages that the loop publishes, in order, when it receives
/// `trace` from the start: those of the outbound events up to the first
/// thing that ends the loop.
pub open spec fn forwarded(trace: Seq<ReceivedView>) -> Seq<MessageView>
    decreases trace.len(),
{
    if trace.len() == 0 {
        Seq::empty()
    } else {
        match action_for(trace.first()) {
            DispatchActionView::Exit => Seq::empty(),
            DispatchActionView::Publish(m) => seq![m] + forwarded(trace.drop_first()),
            DispatchActionView::Continue => forwarded(trace.drop_first()),
        }
    }
}

/// Whether the loop has ended once it has received all of `trace`.
pub open spec fn terminated(trace: Seq<ReceivedView>) -> bool {
    exists|i: int| 0 <= i < trace.len() && ends_loop(#[trigger] trace[i])
}

/// The messages of the outbound events of `trace`, in order.
pub open spec fn outbound(trace: Seq<ReceivedView>) -> Seq<MessageView>
    decreases trace.len(),
{
    if trace.len() == 0 {
        Seq::empty()
    } else {
        match trace.first() {
            ReceivedView::Event(EventView::Tx(m)) => seq![m] + outbound(trace.drop_first()),
            _ => outbound(trace.drop_first()),
        }
    }
}

/// The loop ends only on a stop request or on a closed bus.
pub proof fn lemma_loop_ends_on_stop_or_close(received: ReceivedView)
    ensures
        ends_loop(received) <==> (received == ReceivedView::Event(EventView::Stop) || received
            == ReceivedView::Closed),
{
}

/// Where the first `stop` things received do not end the loop and the next
/// one does, the loop publishes exactly the outbound messages that came
/// before it, in the order in which they came, and nothing that came
/// after.
pub proof fn lemma_drains_before_stop(trace: Seq<ReceivedView>, stop: int)
    requires
        0 <= stop < trace.len(),
        ends_loop(trace[stop]),
        forall|i: int| 0 <= i < stop ==> !ends_loop(#[trigger] trace[i]),
    ensures
        terminated(trace),
        forwarded(trace) == outbound(trace.take(stop)),
    decreases stop,
{
    if stop == 0 {
        assert(trace.take(0).len() == 0);
    } else {
        let rest = trace.drop_first();
        assert(!ends_loop(trace[0]));
        assert(forall|i: int| 0 <= i < stop - 1 ==> rest[i] == trace[i + 1]);
        lemma_drains_before_stop(rest, stop - 1);
        assert(trace.take(stop).drop_first() =~= rest.take(stop - 1));
        assert(trace.take(stop).first() == trace.first());
    }
}

/// As long as nothing received has ended the loop, the loop has published
/// every outbound message received so far, in the order of receiving.
pub proof fn lemma_forwards_all_while_running(trace: Seq<ReceivedView>)
    requires
        !terminated(trace),
    ensures
        forwarded(trace) == outbound(trace),
    decreases trace.len(),
{
    if trace.len() > 0 {
        let rest = trace.drop_first();
        assert(!ends_loop(trace[0]));
        assert forall|i: int| 0 <= i < rest.len() implies !ends_loop(#[trigger] rest[i]) by {
            assert(rest[i] == trace[i + 1]);
        }
        lemma_forwards_all_while_running(rest);
    }
}

/// Every outbound message that was received before the loop ended was
/// published: the message at `at` is among the published ones.
pub proof fn lemma_tx_before_stop_is_forwarded(
    trace: Seq<ReceivedView>,
    at: int,
    stop: int,
    message: MessageView,
)
    requires
        0 <= at < stop < trace.len(),
        trace[at] == ReceivedView::Event(EventView::Tx(message)),
        ends_loop(trace[stop]),
        forall|i: int| 0 <= i < stop ==> !ends_loop(#[trigger] trace[i]),
    ensures
        forwarded(trace).contains(message),
{
    lemma_drains_before_stop(trace, stop);
    lemma_outbound_holds(trace.take(stop), at);
}

/// The message of the outbound event at `at` is among the outbound
/// messages of `trace`.
pub proof fn lemma_outbound_holds(trace: Seq<ReceivedView>, at: int)
    requires
        0 <= at < trace.len(),
        trace[at] is Event,
        trace[at]->Event_0 is Tx,
    ensures
        outbound(trace).contains(trace[at]->Event_0->Tx_0),
    decreases trace.len(),
{
    let message = trace[at]->Event_0->Tx_0;
    if at == 0 {
        let all = seq![message] + outbound(trace.drop_first());
        assert(all[0] == message);
    } else {
        let rest = trace.drop_first();
        lemma_outbound_holds(rest, at - 1);
        let tail = outbound(rest);
        let k = choose|k: int| 0 <= k < tail.len() && tail[k] == message;
        match trace.first() {
            ReceivedView::Event(EventView::Tx(m)) => {
                let all = seq![m] + tail;
                assert(all[k + 1] == message);
            },
            _ => {},
        }
    }
}

} // verus!
