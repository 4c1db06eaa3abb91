use timezoner::dispatch::{Action, DispatchLoop, EventState, LoopEvent, Phase, Signal};

#[test]
fn an_event_goes_through_its_states_in_order() {
    let state = EventState::Received;
    let state = state.advance(Signal::CacheUpdated).unwrap();
    assert_eq!(state, EventState::CacheApplied);
    let state = state.advance(Signal::Spawned).unwrap();
    assert_eq!(state, EventState::HandlerSpawned);
    assert_eq!(state.advance(Signal::Finished), Some(EventState::Completed));
    assert_eq!(state.advance(Signal::Errored), Some(EventState::Failed));
}

#[test]
fn a_handler_cannot_start_before_the_cache_update() {
    assert_eq!(EventState::Received.advance(Signal::Spawned), None);
    assert_eq!(EventState::Received.advance(Signal::Finished), None);
    assert_eq!(EventState::CacheApplied.advance(Signal::CacheUpdated), None);
    assert_eq!(EventState::CacheApplied.advance(Signal::Finished), None);
}

#[test]
fn the_last_states_are_final() {
    for state in [EventState::Completed, EventState::Failed] {
        assert!(state.is_final());
        for signal in [Signal::CacheUpdated, Signal::Spawned, Signal::Finished, Signal::Errored] {
            assert_eq!(state.advance(signal), None);
        }
    }
    assert!(!EventState::Received.is_final());
    assert!(!EventState::CacheApplied.is_final());
    assert!(!EventState::HandlerSpawned.is_final());
}

#[test]
fn the_loop_applies_then_spawns_then_takes_the_next() {
    let state = DispatchLoop::new();
    assert_eq!(state.phase, Phase::Idle);
    let (state, action) = state.step(LoopEvent::Arrived);
    assert_eq!(action, Action::ApplyToCache { event: 0 });
    let (state, action) = state.step(LoopEvent::CacheUpdated);
    assert_eq!(action, Action::SpawnHandler { event: 0, cache_version: 1 });
    let (state, action) = state.step(LoopEvent::HandlerStarted);
    assert_eq!(action, Action::TakeNext);
    let (state, action) = state.step(LoopEvent::Arrived);
    assert_eq!(action, Action::ApplyToCache { event: 1 });
    let (state, action) = state.step(LoopEvent::CacheUpdated);
    assert_eq!(action, Action::SpawnHandler { event: 1, cache_version: 2 });
    let (state, _) = state.step(LoopEvent::HandlerStarted);
    assert_eq!(
        state,
        DispatchLoop { phase: Phase::Idle, received: 2, applied: 2, spawned: 2, ended: 0, failed: 0 }
    );
}

#[test]
fn the_loop_rejects_reports_out_of_order() {
    let idle = DispatchLoop::new();
    assert_eq!(idle.step(LoopEvent::CacheUpdated), (idle, Action::Rejected));
    assert_eq!(idle.step(LoopEvent::HandlerStarted), (idle, Action::Rejected));
    assert_eq!(idle.step(LoopEvent::HandlerEnded { failed: true }), (idle, Action::Rejected));
    let (applying, _) = idle.step(LoopEvent::Arrived);
    assert_eq!(applying.step(LoopEvent::Arrived), (applying, Action::Rejected));
    assert_eq!(applying.step(LoopEvent::HandlerStarted), (applying, Action::Rejected));
    let (spawning, _) = applying.step(LoopEvent::CacheUpdated);
    assert_eq!(spawning.step(LoopEvent::Arrived), (spawning, Action::Rejected));
    assert_eq!(spawning.step(LoopEvent::CacheUpdated), (spawning, Action::Rejected));
}

#[test]
fn a_failing_handler_is_reported_and_the_loop_goes_on() {
    let (state, _) = DispatchLoop::new().step(LoopEvent::Arrived);
    let (state, _) = state.step(LoopEvent::CacheUpdated);
    let (state, _) = state.step(LoopEvent::HandlerStarted);
    let (state, _) = state.step(LoopEvent::Arrived);
    let (after, action) = state.step(LoopEvent::HandlerEnded { failed: true });
    assert_eq!(action, Action::ReportFailure);
    assert_eq!(after, DispatchLoop { ended: 1, failed: 1, ..state });
    let (after, action) = after.step(LoopEvent::CacheUpdated);
    assert_eq!(action, Action::SpawnHandler { event: 1, cache_version: 2 });
    assert_eq!(after.phase, Phase::Spawning);
}

#[test]
fn a_handler_that_ends_well_needs_nothing() {
    let (state, _) = DispatchLoop::new().step(LoopEvent::Arrived);
    let (state, _) = state.step(LoopEvent::CacheUpdated);
    let (state, _) = state.step(LoopEvent::HandlerStarted);
    let (after, action) = state.step(LoopEvent::HandlerEnded { failed: false });
    assert_eq!(action, Action::Nothing);
    assert_eq!(after, DispatchLoop { ended: 1, ..state });
    assert_eq!(after.step(LoopEvent::HandlerEnded { failed: false }), (after, Action::Rejected));
}

#[test]
fn the_loop_halts_when_it_runs_out_of_numbers() {
    let full = DispatchLoop {
        phase: Phase::Idle,
        received: u64::MAX,
        applied: u64::MAX,
        spawned: u64::MAX,
        ended: 0,
        failed: 0,
    };
    assert_eq!(full.step(LoopEvent::Arrived), (full, Action::Halt));
}

#[test]
fn many_handlers_run_side_by_side() {
    let mut state = DispatchLoop::new();
    for n in 0..5u64 {
        let (next, action) = state.step(LoopEvent::Arrived);
        assert_eq!(action, Action::ApplyToCache { event: n });
        let (next, action) = next.step(LoopEvent::CacheUpdated);
        assert_eq!(action, Action::SpawnHandler { event: n, cache_version: n + 1 });
        let (next, _) = next.step(LoopEvent::HandlerStarted);
        state = next;
    }
    assert_eq!(state.spawned - state.ended, 5);
}
