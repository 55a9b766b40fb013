//! The start/stop state machine of a client.
//!
//! A client owns at most one dispatch task. Starting and stopping each
//! take two steps, with outside work in between: connect, then spawn the
//! task; publish the stop request, then wait for the task to end. The
//! machine says, for each state and each thing that happens, what the
//! next state is and what is to be done.

use vstd::prelude::*;

verus! {

/// Where a client stands between not running and running.
#[derive(Debug, Clone, Copy, PartialEq, Eq, Structural)]
pub enum LifecycleState {
    /// No dispatch task, and no start under way.
    Idle,
    /// A start was accepted; the connection is being made.
    Starting,
    /// The dispatch task runs.
    Running,
    /// The stop request is on the bus; the task has not ended yet.
    Stopping,
}

/// What can happen to a client's lifecycle.
#[derive(Debug, Clone, Copy, PartialEq, Eq, Structural)]
pub enum LifecycleEvent {
    /// A caller asks the client to start.
    StartRequested,
    /// The connection was made.
    ConnectSucceeded,
    /// The connection could not be made.
    ConnectFailed,
    /// A caller asks the client to stop.
    StopRequested,
    /// The bus accepted the stop request.
    StopPublished,
    /// The bus had no receiver for the stop request.
    StopUndelivered,
    /// The dispatch task has ended.
    TaskJoined,
}

/// What is to be done after a step of the machine.
#[derive(Debug, Clone, Copy, PartialEq, Eq, Structural)]
pub enum LifecycleAction {
    /// Register the callbacks and connect.
    Connect,
    /// Spawn the dispatch task.
    SpawnTask,
    /// Publish the stop request on the bus.
    PublishStop,
    /// Wait for the dispatch task to end.
    AwaitTask,
    /// Refuse the start: the client is already started.
    RejectStart,
    /// Refuse the stop: the client is already stopped.
    RejectStop,
    /// Nothing.
    Nothing,
}

/// The outcome of one step: the next state and what is to be done.
#[derive(Debug, Clone, Copy, PartialEq, Eq, Structural)]
pub struct Transition {
    pub next: LifecycleState,
    pub action: LifecycleAction,
}

/// The machine. A start is accepted only when idle, a stop only when
/// running; what does not fit the state changes nothing.
pub open spec fn step(state: LifecycleState, event: LifecycleEvent) -> Transition {
    match (state, event) {
        (LifecycleState::Idle, LifecycleEvent::StartRequested) => Transition {
            next: LifecycleState::Starting,
            action: LifecycleAction::Connect,
        },
        (_, LifecycleEvent::StartRequested) => Transition {
            next: state,
            action: LifecycleAction::RejectStart,
        },
        (LifecycleState::Starting, LifecycleEvent::ConnectSucceeded) => Transition {
            next: LifecycleState::Running,
            action: LifecycleAction::SpawnTask,
        },
        (LifecycleState::Starting, LifecycleEvent::ConnectFailed) => Transition {
            next: LifecycleState::Idle,
            action: LifecycleAction::Nothing,
        },
        (LifecycleState::Running, LifecycleEvent::StopRequested) => Transition {
            next: LifecycleState::Running,
            action: LifecycleAction::PublishStop,
        },
        (_, LifecycleEvent::StopRequested) => Transition {
            next: state,
            action: LifecycleAction::RejectStop,
        },
        (LifecycleState::Running, LifecycleEvent::StopPublished) => Transition {
            next: LifecycleState::Stopping,
            action: LifecycleAction::AwaitTask,
        },
        (LifecycleState::Stopping, LifecycleEvent::TaskJoined) => Transition {
            next: LifecycleState::Idle,
            action: LifecycleAction::Nothing,
        },
        _ => Transition { next: state, action: LifecycleAction::Nothing },
    }
}

/// Whether a client in this state owns a dispatch task.
pub open spec fn has_task(state: LifecycleState) -> bool {
    state == LifecycleState::Running || state == LifecycleState::Stopping
}

/// The state after `events` have happened to a client in `state`, first to
/// last.
pub open spec fn run(state: LifecycleState, events: Seq<LifecycleEvent>) -> LifecycleState
    decreases events.len(),
{
    if events.len() == 0 {
        state
    } else {
        run(step(state, events.first()).next, events.drop_first())
    }
}

/// How many dispatch tasks are spawned while `events` happen to a client
/// in `state`.
pub open spec fn spawned(state: LifecycleState, events: Seq<LifecycleEvent>) -> nat
    decreases events.len(),
{
    if events.len() == 0 {
        0
    } else {
        let t = step(state, events.first());
        let here: nat = if t.action == LifecycleAction::SpawnTask {
            1
        } else {
            0
        };
        here + spawned(t.next, events.drop_first())
    }
}

/// How many dispatch tasks end and are let go while `events` happen to a
/// client in `state`.
pub open spec fn joined(state: LifecycleState, events: Seq<LifecycleEvent>) -> nat
    decreases events.len(),
{
    if events.len() == 0 {
        0
    } else {
        let t = step(state, events.first());
        let here: nat = if has_task(state) && !has_task(t.next) {
            1
        } else {
            0
        };
        here + joined(t.next, events.drop_first())
    }
}

/// One for a state that owns a task, else zero.
pub open spec fn tasks_of(state: LifecycleState) -> nat {
    if has_task(state) {
        1
    } else {
        0
    }
}

/// Whatever happens, the tasks spawned and not yet let go are those that
/// the state accounts for: never more than one.
pub proof fn lemma_at_most_one_task(state: LifecycleState, events: Seq<LifecycleEvent>)
    ensures
        tasks_of(state) + spawned(state, events) == joined(state, events) + tasks_of(
            run(state, events),
        ),
        tasks_of(run(state, events)) <= 1,
    decreases events.len(),
{
    if events.len() > 0 {
        lemma_at_most_one_task(step(state, events.first()).next, events.drop_first());
    }
}

/// A start is accepted in the idle state and in no other.
pub proof fn lemma_start_only_when_idle(state: LifecycleState)
    ensures
        step(state, LifecycleEvent::StartRequested).action == (if state == LifecycleState::Idle {
            LifecycleAction::Connect
        } else {
            LifecycleAction::RejectStart
        }),
{
}

/// Once a client owns a task, it owns it until the task has ended:
/// whatever else happens in between, every further start is refused.
pub proof fn lemma_second_start_rejected(state: LifecycleState, between: Seq<LifecycleEvent>)
    requires
        has_task(state),
        forall|i: int| 0 <= i < between.len() ==> #[trigger] between[i] != LifecycleEvent::TaskJoined,
    ensures
        has_task(run(state, between)),
        step(run(state, between), LifecycleEvent::StartRequested) == (Transition {
            next: run(state, between),
            action: LifecycleAction::RejectStart,
        }),
    decreases between.len(),
{
    if between.len() > 0 {
        let rest = between.drop_first();
        assert(between[0] != LifecycleEvent::TaskJoined);
        assert(forall|i: int| 0 <= i < rest.len() ==> rest[i] == between[i + 1]);
        lemma_second_start_rejected(step(state, between.first()).next, rest);
    }
}

/// A stop is accepted in the running state and in no other.
pub proof fn lemma_stop_only_when_running(state: LifecycleState)
    ensures
        step(state, LifecycleEvent::StopRequested).action == (if state == LifecycleState::Running {
            LifecycleAction::PublishStop
        } else {
            LifecycleAction::RejectStop
        }),
        step(state, LifecycleEvent::StopRequested).next == state,
{
}

/// A client lets go of its task only when the task has ended after the
/// stop request was published: the task is given up on no other step, and
/// the stopping state is entered only when the bus accepted the request.
pub proof fn lemma_stop_waits_for_task(state: LifecycleState, event: LifecycleEvent)
    ensures
        has_task(state) && !has_task(step(state, event).next) ==> state == LifecycleState::Stopping
            && event == LifecycleEvent::TaskJoined,
        state != LifecycleState::Stopping && step(state, event).next == LifecycleState::Stopping
            ==> state == LifecycleState::Running && event == LifecycleEvent::StopPublished,
{
}

impl LifecycleState {
    /// Takes one step of the machine.
    pub fn step(self, event: LifecycleEvent) -> (t: Transition)
        ensures
            t == step(self, event),
    {
        match (self, event) {
            (LifecycleState::Idle, LifecycleEvent::StartRequested) => Transition {
                next: LifecycleState::Starting,
                action: LifecycleAction::Connect,
            },
            (_, LifecycleEvent::StartRequested) => Transition {
                next: self,
                action: LifecycleAction::RejectStart,
            },
            (LifecycleState::Starting, LifecycleEvent::ConnectSucceeded) => Transition {
                next: LifecycleState::Running,
                action: LifecycleAction::SpawnTask,
            },
            (LifecycleState::Starting, LifecycleEvent::ConnectFailed) => Transition {
                next: LifecycleState::Idle,
                action: LifecycleAction::Nothing,
            },
            (LifecycleState::Running, LifecycleEvent::StopRequested) => Transition {
                next: LifecycleState::Running,
                action: LifecycleAction::PublishStop,
            },
            (_, LifecycleEvent::StopRequested) => Transition {
                next: self,
                action: LifecycleAction::RejectStop,
            },
            (LifecycleState::Running, LifecycleEvent::StopPublished) => Transition {
                next: LifecycleState::Stopping,
                action: LifecycleAction::AwaitTask,
            },
            (LifecycleState::Stopping, LifecycleEvent::TaskJoined) => Transition {
                next: LifecycleState::Idle,
                action: LifecycleAction::Nothing,
            },
            _ => Transition { next: self, action: LifecycleAction::Nothing },
        }
    }

    /// Whether a client in this state owns a dispatch task.
    pub fn has_task(self) -> (r: bool)
        ensures
            r == has_task(self),
    {
        match self {
            LifecycleState::Running => true,
            LifecycleState::Stopping => true,
            _ => false,
        }
    }
}

} // verus!
