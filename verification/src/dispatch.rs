//! The rules of the event loop.
//!
//! The loop takes events one at a time. Each event is applied to the shared
//! cache first and handed to a handler of its own second, and the next event is
//! taken only then. Handlers run side by side and end on their own: the loop
//! learns of it, reports a failure, and is otherwise unmoved.
//!
//! Nothing here waits or spawns. `step` says what to do next; the program
//! around the library does it and comes back with what happened.

use vstd::prelude::*;

verus! {

/// Where one event stands on its way through the loop.
#[derive(Clone, Copy, Debug, PartialEq, Eq, Structural)]
pub enum EventState {
    /// The event has arrived.
    Received,
    /// The shared cache reflects the event.
    CacheApplied,
    /// The event's handler is running.
    HandlerSpawned,
    /// The handler ended well.
    Completed,
    /// The handler ended in a failure.
    Failed,
}

/// What can happen to one event.
#[derive(Clone, Copy, Debug, PartialEq, Eq, Structural)]
pub enum Signal {
    /// The cache was updated with the event.
    CacheUpdated,
    /// The handler was started.
    Spawned,
    /// The handler returned without error.
    Finished,
    /// The handler returned an error or panicked.
    Errored,
}

/// The state that follows `state` on `signal`, where the signal is in order.
pub open spec fn next_state(state: EventState, signal: Signal) -> Option<EventState> {
    match (state, signal) {
        (EventState::Received, Signal::CacheUpdated) => Some(EventState::CacheApplied),
        (EventState::CacheApplied, Signal::Spawned) => Some(EventState::HandlerSpawned),
        (EventState::HandlerSpawned, Signal::Finished) => Some(EventState::Completed),
        (EventState::HandlerSpawned, Signal::Errored) => Some(EventState::Failed),
        _ => None,
    }
}

/// True of the two states in which an event stays for good.
pub open spec fn is_terminal(state: EventState) -> bool {
    state == EventState::Completed || state == EventState::Failed
}

/// The state that a run of signals leads to from `state`, where every signal
/// of the run is in order.
pub open spec fn state_after(state: EventState, signals: Seq<Signal>) -> Option<EventState>
    decreases signals.len(),
{
    if signals.len() == 0 {
        Some(state)
    } else {
        match state_after(state, signals.drop_last()) {
            Some(reached) => next_state(reached, signals.last()),
            None => None,
        }
    }
}

impl EventState {
    /// The state that follows on a signal, or `None` for a signal out of order.
    pub fn advance(self, signal: Signal) -> (r: Option<EventState>)
        ensures
            r == next_state(self, signal),
    {
        match (self, signal) {
            (EventState::Received, Signal::CacheUpdated) => Some(EventState::CacheApplied),
            (EventState::CacheApplied, Signal::Spawned) => Some(EventState::HandlerSpawned),
            (EventState::HandlerSpawned, Signal::Finished) => Some(EventState::Completed),
            (EventState::HandlerSpawned, Signal::Errored) => Some(EventState::Failed),
            _ => None,
        }
    }

    /// Whether the event has reached its last state.
    pub fn is_final(self) -> (r: bool)
        ensures
            r == is_terminal(self),
    {
        match self {
            EventState::Completed => true,
            EventState::Failed => true,
            _ => false,
        }
    }
}

/// Nothing follows a terminal state: a handler that has ended is neither
/// cancelled nor run again.
pub proof fn lemma_terminal_is_final(state: EventState, signal: Signal)
    requires
        is_terminal(state),
    ensures
        next_state(state, signal).is_none(),
{
}

/// An event whose handler has been spawned had the cache updated with it
/// first: the run that led there begins with the cache update, and the spawn is
/// its second signal.
pub proof fn lemma_cache_before_handler(signals: Seq<Signal>)
    requires
        state_after(EventState::Received, signals) == Some(EventState::HandlerSpawned),
    ensures
        signals == seq![Signal::CacheUpdated, Signal::Spawned],
{
    lemma_runs(signals);
}

/// The runs in order from `Received`, by length.
proof fn lemma_runs(signals: Seq<Signal>)
    ensures
        match state_after(EventState::Received, signals) {
            None => true,
            Some(EventState::Received) => signals.len() == 0,
            Some(EventState::CacheApplied) => signals == seq![Signal::CacheUpdated],
            Some(EventState::HandlerSpawned) => signals == seq![Signal::CacheUpdated, Signal::Spawned],
            Some(_) => signals.len() == 3 && signals.drop_last() == seq![
                Signal::CacheUpdated,
                Signal::Spawned,
            ],
        },
    decreases signals.len(),
{
    if signals.len() > 0 {
        let before = signals.drop_last();
        lemma_runs(before);
        assert(signals == before.push(signals.last()));
    }
}

/// What the loop is waiting for.
#[derive(Clone, Copy, Debug, PartialEq, Eq, Structural)]
pub enum Phase {
    /// The next event.
    Idle,
    /// The cache update for the event just taken.
    Applying,
    /// The start of the handler for the event just applied.
    Spawning,
}

/// What the program around the loop reports to it.
#[derive(Clone, Copy, Debug, PartialEq, Eq, Structural)]
pub enum LoopEvent {
    /// An event arrived.
    Arrived,
    /// The cache was updated with the event in hand.
    CacheUpdated,
    /// The handler for the event in hand was started.
    HandlerStarted,
    /// A handler ended, in a failure or not.
    HandlerEnded { failed: bool },
}

/// What the loop asks the program around it to do next.
#[derive(Clone, Copy, Debug, PartialEq, Eq, Structural)]
pub enum Action {
    /// Update the cache with the event of this number.
    ApplyToCache { event: u64 },
    /// Start a handler for the event of this number. The cache then reflects
    /// `cache_version` events, the handler's own among them.
    SpawnHandler { event: u64, cache_version: u64 },
    /// Wait for the next event.
    TakeNext,
    /// Report the failure of a handler to the error sink.
    ReportFailure,
    /// Nothing is to be done.
    Nothing,
    /// The report was out of order and has changed nothing.
    Rejected,
    /// The loop has numbered as many events as it can and takes no more.
    Halt,
}

/// The loop's books: how many events it has taken, applied to the cache and
/// handed to handlers, and how many handlers have ended.
#[derive(Clone, Copy, Debug, PartialEq, Eq, Structural)]
pub struct DispatchLoop {
    pub phase: Phase,
    pub received: u64,
    pub applied: u64,
    pub spawned: u64,
    pub ended: u64,
    pub failed: u64,
}

/// True of the books of a loop that was run by `step` from `DispatchLoop::new`:
/// events are applied in the order of their arrival, one at a time, and a
/// handler exists only for an event that has been applied.
pub open spec fn in_order(state: DispatchLoop) -> bool {
    &&& match state.phase {
        Phase::Idle => state.received == state.applied && state.spawned == state.applied,
        Phase::Applying => state.received == state.applied + 1 && state.spawned == state.applied,
        Phase::Spawning => state.received == state.applied && state.spawned + 1 == state.applied,
    }
    &&& state.failed <= state.ended <= state.spawned
}

/// The books after a report, and what to do next.
pub open spec fn step_spec(state: DispatchLoop, event: LoopEvent) -> (DispatchLoop, Action) {
    match (state.phase, event) {
        (_, LoopEvent::HandlerEnded { failed }) => if state.ended < state.spawned && state.failed < u64::MAX {
            (
                DispatchLoop {
                    ended: (state.ended + 1) as u64,
                    failed: if failed {
                        (state.failed + 1) as u64
                    } else {
                        state.failed
                    },
                    ..state
                },
                if failed {
                    Action::ReportFailure
                } else {
                    Action::Nothing
                },
            )
        } else {
            (state, Action::Rejected)
        },
        (Phase::Idle, LoopEvent::Arrived) => if state.received < u64::MAX {
            (
                DispatchLoop { phase: Phase::Applying, received: (state.received + 1) as u64, ..state },
                Action::ApplyToCache { event: state.received },
            )
        } else {
            (state, Action::Halt)
        },
        (Phase::Applying, LoopEvent::CacheUpdated) => if state.applied < u64::MAX {
            (
                DispatchLoop { phase: Phase::Spawning, applied: (state.applied + 1) as u64, ..state },
                Action::SpawnHandler { event: state.applied, cache_version: (state.applied + 1) as u64 },
            )
        } else {
            (state, Action::Rejected)
        },
        (Phase::Spawning, LoopEvent::HandlerStarted) => if state.spawned < u64::MAX {
            (DispatchLoop { phase: Phase::Idle, spawned: (state.spawned + 1) as u64, ..state }, Action::TakeNext)
        } else {
            (state, Action::Rejected)
        },
        _ => (state, Action::Rejected),
    }
}

impl DispatchLoop {
    /// The books of a loop that has taken no event yet.
    pub fn new() -> (state: DispatchLoop)
        ensures
            in_order(state),
            state == (DispatchLoop { phase: Phase::Idle, received: 0, applied: 0, spawned: 0, ended: 0, failed: 0 }),
    {
        DispatchLoop { phase: Phase::Idle, received: 0, applied: 0, spawned: 0, ended: 0, failed: 0 }
    }

    /// Takes a report and says what to do next.
    pub fn step(self, event: LoopEvent) -> (r: (DispatchLoop, Action))
        ensures
            r == step_spec(self, event),
    {
        match (self.phase, event) {
            (_, LoopEvent::HandlerEnded { failed }) => {
                if self.ended < self.spawned && self.failed < u64::MAX {
                    let count = if failed {
                        self.failed + 1
                    } else {
                        self.failed
                    };
                    let action = if failed {
                        Action::ReportFailure
                    } else {
                        Action::Nothing
                    };
                    (DispatchLoop { ended: self.ended + 1, failed: count, ..self }, action)
                } else {
                    (self, Action::Rejected)
                }
            },
            (Phase::Idle, LoopEvent::Arrived) => {
                if self.received < u64::MAX {
                    (
                        DispatchLoop { phase: Phase::Applying, received: self.received + 1, ..self },
                        Action::ApplyToCache { event: self.received },
                    )
                } else {
                    (self, Action::Halt)
                }
            },
            (Phase::Applying, LoopEvent::CacheUpdated) => {
                if self.applied < u64::MAX {
                    (
                        DispatchLoop { phase: Phase::Spawning, applied: self.applied + 1, ..self },
                        Action::SpawnHandler { event: self.applied, cache_version: self.applied + 1 },
                    )
                } else {
                    (self, Action::Rejected)
                }
            },
            (Phase::Spawning, LoopEvent::HandlerStarted) => {
                if self.spawned < u64::MAX {
                    (DispatchLoop { phase: Phase::Idle, spawned: self.spawned + 1, ..self }, Action::TakeNext)
                } else {
                    (self, Action::Rejected)
                }
            },
            _ => (self, Action::Rejected),
        }
    }
}

/// A step keeps the books in order.
pub proof fn lemma_step_keeps_order(state: DispatchLoop, event: LoopEvent)
    requires
        in_order(state),
    ensures
        in_order(step_spec(state, event).0),
{
}

/// Cache before handler: a handler is asked for only when the cache already
/// reflects its event. The event is the last one applied, every event that
/// arrived before it has been applied too, and none that arrived after it.
pub proof fn lemma_handler_sees_its_event(state: DispatchLoop, event: LoopEvent)
    requires
        in_order(state),
    ensures
        step_spec(state, event).1 matches Action::SpawnHandler { event: number, cache_version } ==> {
            &&& state.phase == Phase::Applying
            &&& event == LoopEvent::CacheUpdated
            &&& cache_version == number + 1
            &&& step_spec(state, event).0.applied == cache_version
            &&& step_spec(state, event).0.received == cache_version
        },
{
}

/// An event is applied to the cache in the order of its arrival: the one asked
/// for is the next after those already applied, and all of those have their
/// handlers.
pub proof fn lemma_cache_in_arrival_order(state: DispatchLoop, event: LoopEvent)
    requires
        in_order(state),
    ensures
        step_spec(state, event).1 matches Action::ApplyToCache { event: number } ==> {
            &&& number == state.applied
            &&& number == state.spawned
            &&& number == state.received
        },
{
}

/// The end of a handler, good or bad, moves nothing but the count of ended
/// handlers: the loop goes on where it was.
pub proof fn lemma_handler_end_is_contained(state: DispatchLoop, failed: bool)
    ensures
        ({
            let after = step_spec(state, LoopEvent::HandlerEnded { failed }).0;
            &&& after.phase == state.phase
            &&& after.received == state.received
            &&& after.applied == state.applied
            &&& after.spawned == state.spawned
        }),
{
}

/// The state of the event that the loop has in hand, if it has one.
pub open spec fn event_in_hand(phase: Phase) -> Option<EventState> {
    match phase {
        Phase::Idle => None,
        Phase::Applying => Some(EventState::Received),
        Phase::Spawning => Some(EventState::CacheApplied),
    }
}

/// What a report to the loop means for the event in hand, if anything.
pub open spec fn signal_of(event: LoopEvent) -> Option<Signal> {
    match event {
        LoopEvent::CacheUpdated => Some(Signal::CacheUpdated),
        LoopEvent::HandlerStarted => Some(Signal::Spawned),
        _ => None,
    }
}

/// The loop takes the event in hand through its states: a report that the loop
/// accepts for it is a signal in order for the event, and the loop lets the
/// event go exactly when its handler has been spawned.
pub proof fn lemma_loop_follows_the_event(state: DispatchLoop, event: LoopEvent)
    requires
        in_order(state),
        event_in_hand(state.phase) is Some,
        signal_of(event) is Some,
        step_spec(state, event).1 != Action::Rejected,
    ensures
        next_state(event_in_hand(state.phase)->0, signal_of(event)->0) is Some,
        ({
            let reached = next_state(event_in_hand(state.phase)->0, signal_of(event)->0)->0;
            let after = step_spec(state, event).0;
            if reached == EventState::HandlerSpawned {
                after.phase == Phase::Idle
            } else {
                event_in_hand(after.phase) == Some(reached)
            }
        }),
{
}

} // verus!
