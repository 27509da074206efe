use vstd::prelude::*;

verus! {

/// How many requests may wait for the worker before senders have to wait.
pub const QUEUE_CAPACITY: usize = 5;

/// Pause after each request the worker has answered, in milliseconds.
pub const REQUEST_DELAY_MS: u64 = 200;

/// Where the scheduler's worker stands.
#[derive(Debug, Clone, Copy, PartialEq, Eq)]
pub enum WorkerState {
    /// Waiting for the next request from the queue
    Waiting,
    /// Running the search of one request
    Searching,
    /// Pausing after an answered request
    Pausing,
    /// The queue is closed and the worker has ended
    Exited,
}

/// What happened to the worker.
#[derive(Debug, Clone, Copy, PartialEq, Eq)]
pub enum WorkerEvent {
    /// A request was taken from the queue
    Received,
    /// The queue is closed and empty: no sender is left
    QueueClosed,
    /// The search of the current request has its result
    SearchDone,
    /// The pause is over
    PauseOver,
}

/// What the worker does next.
#[derive(Debug, Clone, Copy, PartialEq, Eq)]
pub enum WorkerAction {
    /// Wait for the next request
    Receive,
    /// Run the search of the request just received
    StartSearch,
    /// Send the result to the request's reply channel (a closed one is ignored), then
    /// pause this many milliseconds
    DeliverThenPause(u64),
    /// End the worker
    Exit,
    /// The event does not belong to this state: nothing to do
    Ignore,
}

/// The worker's decision on `event` in `state`: its next state and action.
pub open spec fn transition(state: WorkerState, event: WorkerEvent) -> (WorkerState, WorkerAction) {
    match (state, event) {
        (WorkerState::Waiting, WorkerEvent::Received) => (
            WorkerState::Searching,
            WorkerAction::StartSearch,
        ),
        (WorkerState::Waiting, WorkerEvent::QueueClosed) => (
            WorkerState::Exited,
            WorkerAction::Exit,
        ),
        (WorkerState::Searching, WorkerEvent::SearchDone) => (
            WorkerState::Pausing,
            WorkerAction::DeliverThenPause(REQUEST_DELAY_MS),
        ),
        (WorkerState::Pausing, WorkerEvent::PauseOver) => (
            WorkerState::Waiting,
            WorkerAction::Receive,
        ),
        _ => (state, WorkerAction::Ignore),
    }
}

/// The actions the worker takes, from `state`, on a sequence of events.
pub open spec fn run(state: WorkerState, events: Seq<WorkerEvent>) -> Seq<WorkerAction>
    decreases events.len(),
{
    if events.len() == 0 {
        Seq::empty()
    } else {
        let (next, action) = transition(state, events[0]);
        seq![action] + run(next, events.drop_first())
    }
}

pub open spec fn is_delivery(a: WorkerAction) -> bool {
    a == WorkerAction::DeliverThenPause(REQUEST_DELAY_MS)
}

/// Between any two searches started, the first one's result is delivered and the pause
/// is taken.
pub open spec fn searches_separated(acts: Seq<WorkerAction>) -> bool {
    forall|i: int, j: int|
        0 <= i < j < acts.len() && #[trigger] acts[i] == WorkerAction::StartSearch && #[trigger] acts[j]
            == WorkerAction::StartSearch ==> exists|k: int| i < k < j && is_delivery(#[trigger] acts[k])
}

/// No search starts before a delivery has taken place.
pub open spec fn delivery_before_search(acts: Seq<WorkerAction>) -> bool {
    forall|j: int|
        0 <= j < acts.len() && #[trigger] acts[j] == WorkerAction::StartSearch ==> exists|k: int|
            0 <= k < j && is_delivery(#[trigger] acts[k])
}

pub open spec fn no_search(acts: Seq<WorkerAction>) -> bool {
    forall|j: int| 0 <= j < acts.len() ==> #[trigger] acts[j] != WorkerAction::StartSearch
}

proof fn run_sequential(state: WorkerState, events: Seq<WorkerEvent>)
    ensures
        searches_separated(run(state, events)),
        state == WorkerState::Searching ==> delivery_before_search(run(state, events)),
        state == WorkerState::Exited ==> no_search(run(state, events)),
    decreases events.len(),
{
    if events.len() > 0 {
        let (next, action) = transition(state, events[0]);
        let rest = run(next, events.drop_first());
        let acts = run(state, events);
        run_sequential(next, events.drop_first());
        assert(acts =~= seq![action] + rest);
        assert forall|i: int, j: int|
            0 <= i < j < acts.len() && #[trigger] acts[i] == WorkerAction::StartSearch
                && #[trigger] acts[j] == WorkerAction::StartSearch implies exists|k: int|
            i < k < j && is_delivery(#[trigger] acts[k]) by {
            assert(acts[j] == rest[j - 1]);
            if i == 0 {
                assert(next == WorkerState::Searching);
                let k0 = choose|k: int| 0 <= k < j - 1 && is_delivery(#[trigger] rest[k]);
                assert(acts[k0 + 1] == rest[k0]);
            } else {
                assert(acts[i] == rest[i - 1]);
                let k0 = choose|k: int| i - 1 < k < j - 1 && is_delivery(#[trigger] rest[k]);
                assert(acts[k0 + 1] == rest[k0]);
            }
        }
        if state == WorkerState::Searching {
            assert forall|j: int|
                0 <= j < acts.len() && #[trigger] acts[j]
                    == WorkerAction::StartSearch implies exists|k: int|
                0 <= k < j && is_delivery(#[trigger] acts[k]) by {
                assert(acts[j] == rest[j - 1]);
                if is_delivery(action) {
                    assert(is_delivery(acts[0]));
                } else {
                    assert(next == WorkerState::Searching);
                    let k0 = choose|k: int| 0 <= k < j - 1 && is_delivery(#[trigger] rest[k]);
                    assert(acts[k0 + 1] == rest[k0]);
                }
            }
        }
        if state == WorkerState::Exited {
            assert forall|j: int| 0 <= j < acts.len() implies #[trigger] acts[j]
                != WorkerAction::StartSearch by {
                if j > 0 {
                    assert(acts[j] == rest[j - 1]);
                }
            }
        }
    }
}

/// Single flight: whatever happens to a waiting worker, between any two searches it
/// starts lies the delivery of the first one's result and the fixed pause, so no two
/// searches are ever in flight together.
pub proof fn one_search_at_a_time(events: Seq<WorkerEvent>)
    ensures
        searches_separated(run(WorkerState::Waiting, events)),
{
    run_sequential(WorkerState::Waiting, events);
}

/// The worker of a scheduler, as a state machine driven by the events of its loop.
pub struct Worker {
    state: WorkerState,
}

impl Worker {
    pub closed spec fn state(&self) -> WorkerState {
        self.state
    }

    /// A worker waiting for its first request.
    pub fn new() -> (r: Worker)
        ensures
            r.state() == WorkerState::Waiting,
    {
        Worker { state: WorkerState::Waiting }
    }

    /// Takes in one event and says what to do next.
    pub fn on_event(&mut self, event: WorkerEvent) -> (action: WorkerAction)
        ensures
            (final(self).state(), action) == transition(old(self).state(), event),
    {
        let (next, action) = match (self.state, event) {
            (WorkerState::Waiting, WorkerEvent::Received) => (
                WorkerState::Searching,
                WorkerAction::StartSearch,
            ),
            (WorkerState::Waiting, WorkerEvent::QueueClosed) => (
                WorkerState::Exited,
                WorkerAction::Exit,
            ),
            (WorkerState::Searching, WorkerEvent::SearchDone) => (
                WorkerState::Pausing,
                WorkerAction::DeliverThenPause(REQUEST_DELAY_MS),
            ),
            (WorkerState::Pausing, WorkerEvent::PauseOver) => (
                WorkerState::Waiting,
                WorkerAction::Receive,
            ),
            _ => (self.state, WorkerAction::Ignore),
        };
        self.state = next;
        action
    }
}

} // verus!
