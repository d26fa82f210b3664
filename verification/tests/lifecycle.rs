use port_reconciler::negotiator::GatewayEvent;
use port_reconciler::negotiator::MappingResult;
use port_reconciler::negotiator::NegotiationError;
use port_reconciler::negotiator::NegotiationPhase;
use port_reconciler::negotiator::run_events;
use port_reconciler::protocol::MappingResponse;
use port_reconciler::reconciler::reconcile_decision;
use port_reconciler::scheduler::CycleOutcome;
use port_reconciler::scheduler::LoopAction;
use port_reconciler::scheduler::LoopEvent;
use port_reconciler::scheduler::RetryPolicy;
use port_reconciler::scheduler::SchedulerState;
use port_reconciler::scheduler::after_downstream_push;

#[test]
fn reconcile_new_port_issues_exactly_one_update() {
    // Gateway assigned 51413 for both transports; downstream still at 6881:
    // one update to 51413.
    let decision = reconcile_decision(6881, 51413);
    assert_eq!(decision, Some(51413));
}

#[test]
fn reconcile_unchanged_port_issues_no_update() {
    // Downstream already configured at 51413: no write at all.
    let decision = reconcile_decision(51413, 51413);
    assert_eq!(decision, None);
}

#[test]
fn reconcile_twice_with_same_port_writes_at_most_once() {
    let first = reconcile_decision(6881, 51413);
    assert_eq!(first, Some(51413));
    // The first write took effect; the downstream port is now 51413.
    let current_after_write = first.unwrap();
    let second = reconcile_decision(current_after_write, 51413);
    assert_eq!(second, None);
}

#[test]
fn tick_starts_a_negotiation() {
    let (next, action) = SchedulerState::Idle.on_event(LoopEvent::TimerTick);
    assert_eq!(next, SchedulerState::NegotiationInFlight);
    assert_eq!(action, LoopAction::RunNegotiation);
}

#[test]
fn shutdown_while_idle_exits_without_negotiating() {
    let (next, action) = SchedulerState::Idle.on_event(LoopEvent::ShutdownRequested);
    assert_eq!(next, SchedulerState::Stopped);
    assert_eq!(action, LoopAction::Exit);
}

#[test]
fn stopped_state_stays_stopped() {
    let (next, action) = SchedulerState::Stopped.on_event(LoopEvent::TimerTick);
    assert_eq!(next, SchedulerState::Stopped);
    assert_eq!(action, LoopAction::Exit);
}

#[test]
fn success_with_downstream_pushes_only_the_tcp_port() {
    let outcome = CycleOutcome::Negotiated {
        result: MappingResult { udp_public_port: 40001, tcp_public_port: 40002 },
    };
    let exit = SchedulerState::NegotiationInFlight.on_cycle_outcome(&outcome, true);
    assert_eq!(exit.next, SchedulerState::Idle);
    assert_eq!(exit.downstream_push, Some(40002));
}

#[test]
fn success_without_downstream_stops_the_loop_with_no_push() {
    let outcome = CycleOutcome::Negotiated {
        result: MappingResult { udp_public_port: 51413, tcp_public_port: 51413 },
    };
    let exit = SchedulerState::NegotiationInFlight.on_cycle_outcome(&outcome, false);
    assert_eq!(exit.next, SchedulerState::Stopped);
    assert_eq!(exit.downstream_push, None);
}

#[test]
fn failed_cycle_returns_to_idle_with_no_push() {
    let outcome = CycleOutcome::CycleFailed { error: NegotiationError::NegotiationTimeout };
    let exit = SchedulerState::NegotiationInFlight.on_cycle_outcome(&outcome, true);
    assert_eq!(exit.next, SchedulerState::Idle);
    assert_eq!(exit.downstream_push, None);
}

#[test]
fn downstream_push_failure_never_fails_the_cycle() {
    assert_eq!(after_downstream_push(false), SchedulerState::Idle);
    assert_eq!(after_downstream_push(true), SchedulerState::Idle);
}

#[test]
fn full_cycle_negotiation_to_single_downstream_update() {
    // One whole cycle: the gateway assigns 51413 for both transports, the
    // downstream service still sits at 6881 — exactly one update to 51413.
    let events = vec![
        GatewayEvent::RequestSent,
        GatewayEvent::Response { response: MappingResponse::Udp { public_port: 51413 } },
        GatewayEvent::RequestSent,
        GatewayEvent::Response { response: MappingResponse::Tcp { public_port: 51413 } },
    ];
    let phase = run_events(&events);
    let result = match phase {
        NegotiationPhase::Complete { result } => result,
        _ => panic!("negotiation did not complete"),
    };

    let (state, action) = SchedulerState::Idle.on_event(LoopEvent::TimerTick);
    assert_eq!(action, LoopAction::RunNegotiation);
    let exit = state.on_cycle_outcome(&CycleOutcome::Negotiated { result }, true);
    assert_eq!(exit.next, SchedulerState::Idle);
    assert_eq!(exit.downstream_push, Some(51413));

    assert_eq!(reconcile_decision(6881, exit.downstream_push.unwrap()), Some(51413));
}

#[test]
fn retry_policy_counts_attempts() {
    let policy = RetryPolicy { max_attempts: 3 };
    assert!(policy.allows_another_attempt(0));
    assert!(policy.allows_another_attempt(2));
    assert!(!policy.allows_another_attempt(3));
    assert!(!policy.allows_another_attempt(4));
}
