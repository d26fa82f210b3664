use port_reconciler::negotiator::GatewayAction;
use port_reconciler::negotiator::GatewayEvent;
use port_reconciler::negotiator::MappingResult;
use port_reconciler::negotiator::NegotiationError;
use port_reconciler::negotiator::NegotiationPhase;
use port_reconciler::negotiator::run_events;
use port_reconciler::protocol::ExchangeError;
use port_reconciler::protocol::MappingRequest;
use port_reconciler::protocol::MappingResponse;
use port_reconciler::protocol::Transport;
use port_reconciler::protocol::validate_response;

fn udp_response(port: u16) -> GatewayEvent {
    GatewayEvent::Response { response: MappingResponse::Udp { public_port: port } }
}

fn tcp_response(port: u16) -> GatewayEvent {
    GatewayEvent::Response { response: MappingResponse::Tcp { public_port: port } }
}

#[test]
fn negotiation_happy_path_yields_both_ports() {
    let events = vec![
        GatewayEvent::RequestSent,
        udp_response(51413),
        GatewayEvent::RequestSent,
        tcp_response(51413),
    ];
    let phase = run_events(&events);
    assert_eq!(
        phase,
        NegotiationPhase::Complete {
            result: MappingResult { udp_public_port: 51413, tcp_public_port: 51413 }
        }
    );
    assert_eq!(
        phase.outcome(),
        Some(Ok(MappingResult { udp_public_port: 51413, tcp_public_port: 51413 }))
    );
}

#[test]
fn negotiation_distinct_ports_are_kept_apart() {
    let events = vec![
        GatewayEvent::RequestSent,
        udp_response(40001),
        GatewayEvent::RequestSent,
        tcp_response(40002),
    ];
    let phase = run_events(&events);
    assert_eq!(
        phase.outcome(),
        Some(Ok(MappingResult { udp_public_port: 40001, tcp_public_port: 40002 }))
    );
}

#[test]
fn tcp_request_only_after_udp_response() {
    // Until the UDP response is processed, the machine never asks for a TCP
    // send; right after it, it does.
    let mut phase = NegotiationPhase::SendUdp;
    assert_eq!(
        phase.requested_action(),
        Some(GatewayAction::Send { request: MappingRequest::renewal(Transport::Udp) })
    );
    phase = phase.step(GatewayEvent::RequestSent);
    assert_eq!(phase.requested_action(), Some(GatewayAction::Await));
    phase = phase.step(udp_response(51413));
    assert_eq!(
        phase.requested_action(),
        Some(GatewayAction::Send { request: MappingRequest::renewal(Transport::Tcp) })
    );
}

#[test]
fn renewal_request_shape() {
    let req = MappingRequest::renewal(Transport::Udp);
    assert_eq!(req.transport, Transport::Udp);
    assert_eq!(req.private_port, 0);
    assert_eq!(req.lifetime_secs, 60);
}

#[test]
fn wrong_tag_while_awaiting_udp_is_protocol_mismatch() {
    let events = vec![GatewayEvent::RequestSent, tcp_response(51413)];
    let phase = run_events(&events);
    assert_eq!(
        phase,
        NegotiationPhase::Failed { error: NegotiationError::ProtocolMismatch }
    );
}

#[test]
fn wrong_tag_while_awaiting_tcp_is_protocol_mismatch() {
    let events = vec![
        GatewayEvent::RequestSent,
        udp_response(51413),
        GatewayEvent::RequestSent,
        udp_response(51413),
    ];
    let phase = run_events(&events);
    assert_eq!(
        phase,
        NegotiationPhase::Failed { error: NegotiationError::ProtocolMismatch }
    );
}

#[test]
fn exhausted_retries_are_no_response() {
    let events = vec![GatewayEvent::RequestSent, GatewayEvent::ReceiveFailed];
    let phase = run_events(&events);
    assert_eq!(phase, NegotiationPhase::Failed { error: NegotiationError::NoResponse });
}

#[test]
fn socket_failure_is_unreachable() {
    let events = vec![GatewayEvent::SendFailed];
    let phase = run_events(&events);
    assert_eq!(phase, NegotiationPhase::Failed { error: NegotiationError::Unreachable });
}

#[test]
fn deadline_fails_every_live_phase_with_timeout() {
    let live_phases = vec![
        NegotiationPhase::SendUdp,
        NegotiationPhase::AwaitUdp,
        NegotiationPhase::SendTcp { udp_public_port: 51413 },
        NegotiationPhase::AwaitTcp { udp_public_port: 51413 },
    ];
    for phase in live_phases {
        assert_eq!(
            phase.step(GatewayEvent::DeadlineElapsed),
            NegotiationPhase::Failed { error: NegotiationError::NegotiationTimeout }
        );
    }
}

#[test]
fn deadline_mid_negotiation_keeps_no_partial_result() {
    // The UDP exchange succeeded, then the deadline hit: the whole cycle
    // fails as a unit and the UDP port is not surfaced.
    let events = vec![
        GatewayEvent::RequestSent,
        udp_response(51413),
        GatewayEvent::DeadlineElapsed,
    ];
    let phase = run_events(&events);
    assert_eq!(
        phase.outcome(),
        Some(Err(NegotiationError::NegotiationTimeout))
    );
}

#[test]
fn terminal_phase_absorbs_later_events() {
    let events = vec![
        GatewayEvent::RequestSent,
        udp_response(51413),
        GatewayEvent::RequestSent,
        tcp_response(51413),
        GatewayEvent::DeadlineElapsed,
        GatewayEvent::SendFailed,
    ];
    let phase = run_events(&events);
    assert_eq!(
        phase,
        NegotiationPhase::Complete {
            result: MappingResult { udp_public_port: 51413, tcp_public_port: 51413 }
        }
    );
}

#[test]
fn unsolicited_events_leave_the_phase_unchanged() {
    let phase = NegotiationPhase::SendUdp.step(udp_response(51413));
    assert_eq!(phase, NegotiationPhase::SendUdp);
    let awaiting = NegotiationPhase::AwaitUdp.step(GatewayEvent::RequestSent);
    assert_eq!(awaiting, NegotiationPhase::AwaitUdp);
}

#[test]
fn validate_response_accepts_matching_tag() {
    let response = MappingResponse::Udp { public_port: 51413 };
    assert_eq!(validate_response(Transport::Udp, &response), Ok(51413));
}

#[test]
fn validate_response_rejects_mismatched_tag() {
    let response = MappingResponse::Udp { public_port: 51413 };
    assert_eq!(
        validate_response(Transport::Tcp, &response),
        Err(ExchangeError::ProtocolMismatch)
    );
}

#[test]
fn live_phases_have_no_outcome() {
    assert_eq!(NegotiationPhase::SendUdp.outcome(), None);
    assert_eq!(NegotiationPhase::AwaitTcp { udp_public_port: 1 }.outcome(), None);
}
