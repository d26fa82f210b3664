//! Mapping negotiation: one full cycle of two gateway exchanges.
//!
//! A negotiation maps the UDP transport first, then the TCP transport, and
//! succeeds only when both exchanges have produced a public port. The
//! gateway correlates solely by transport tag, so the two exchanges must
//! never overlap: the TCP request is issued only after the UDP response has
//! been processed. The whole cycle runs under one absolute deadline.
//!
//! The negotiation is a state machine driven from outside: the surrounding
//! process performs the action the current phase calls for (send a request,
//! await a response) and feeds the outcome back as a [`GatewayEvent`].

use vstd::prelude::*;

use crate::protocol::MappingRequest;
use crate::protocol::MappingResponse;
use crate::protocol::Transport;
use crate::protocol::response_public_port;
use crate::protocol::response_transport;
use crate::protocol::validate_response;

verus! {

/// Overall deadline for one full negotiation (both exchanges), in seconds.
pub const NEGOTIATION_DEADLINE_SECS: u64 = 10;

/// Fixed spacing inserted between protocol messages, in milliseconds: after
/// sending a request before reading, and between the UDP response and the
/// TCP request.
pub const INTER_MESSAGE_DELAY_MS: u64 = 500;

/// Why a negotiation cycle failed as a whole.
#[derive(Clone, Copy, Debug, PartialEq, Eq, Structural)]
pub enum NegotiationError {
    /// Socket or transport-level failure reaching the gateway.
    Unreachable,
    /// A response arrived with the wrong transport tag.
    ProtocolMismatch,
    /// The transport's retry ladder was exhausted with no datagram.
    NoResponse,
    /// The overall deadline elapsed before both exchanges completed.
    NegotiationTimeout,
}

/// The outcome of one full negotiation cycle: both externally visible
/// ports, populated together — a negotiation never yields one without the
/// other.
#[derive(Clone, Copy, Debug, PartialEq, Eq, Structural)]
pub struct MappingResult {
    pub udp_public_port: u16,
    pub tcp_public_port: u16,
}

/// Where a negotiation stands. The UDP exchange runs to completion before
/// any TCP phase is reachable.
#[derive(Clone, Copy, Debug, PartialEq, Eq, Structural)]
pub enum NegotiationPhase {
    /// The UDP mapping request is due to be sent.
    SendUdp,
    /// The UDP request is in flight; its response is awaited.
    AwaitUdp,
    /// The UDP exchange finished; the TCP mapping request is due.
    SendTcp { udp_public_port: u16 },
    /// The TCP request is in flight; its response is awaited.
    AwaitTcp { udp_public_port: u16 },
    /// Both exchanges succeeded.
    Complete { result: MappingResult },
    /// The negotiation failed as a unit; no partial result survives.
    Failed { error: NegotiationError },
}

/// What the outside world reports back to the negotiation.
#[derive(Clone, Copy, Debug, PartialEq, Eq, Structural)]
pub enum GatewayEvent {
    /// The pending request datagram was handed to the transport.
    RequestSent,
    /// A response datagram arrived.
    Response { response: MappingResponse },
    /// Sending the request failed at the socket.
    SendFailed,
    /// The transport's own retry ladder ran out with no response.
    ReceiveFailed,
    /// The negotiation's overall deadline elapsed.
    DeadlineElapsed,
}

/// What the surrounding process must do next for a given phase.
#[derive(Clone, Copy, Debug, PartialEq, Eq, Structural)]
pub enum GatewayAction {
    /// Send this mapping request, wait the inter-message delay, then await
    /// the response.
    Send { request: MappingRequest },
    /// Await the response to the request already in flight.
    Await,
}

/// A phase from which no further event changes anything.
pub open spec fn is_terminal(p: NegotiationPhase) -> bool {
    p is Complete || p is Failed
}

/// A phase at or past the TCP exchange.
pub open spec fn tcp_stage(p: NegotiationPhase) -> bool {
    p is SendTcp || p is AwaitTcp || p is Complete
}

/// An event carrying a UDP-tagged response with this public port.
pub open spec fn is_udp_response(e: GatewayEvent, port: u16) -> bool {
    e == GatewayEvent::Response { response: MappingResponse::Udp { public_port: port } }
}

/// An event carrying a TCP-tagged response with this public port.
pub open spec fn is_tcp_response(e: GatewayEvent, port: u16) -> bool {
    e == GatewayEvent::Response { response: MappingResponse::Tcp { public_port: port } }
}

/// The negotiation's transition function.
///
/// A terminal phase absorbs every event. In any live phase an elapsed
/// deadline fails the cycle with `NegotiationTimeout`, abandoning whatever
/// was in flight. An event a phase did not solicit (a response while a send
/// is pending, a send report while a response is awaited) leaves the phase
/// unchanged.
pub open spec fn spec_step(p: NegotiationPhase, e: GatewayEvent) -> NegotiationPhase {
    if is_terminal(p) {
        p
    } else if e is DeadlineElapsed {
        NegotiationPhase::Failed { error: NegotiationError::NegotiationTimeout }
    } else {
        match p {
            NegotiationPhase::SendUdp => match e {
                GatewayEvent::RequestSent => NegotiationPhase::AwaitUdp,
                GatewayEvent::SendFailed => NegotiationPhase::Failed {
                    error: NegotiationError::Unreachable,
                },
                _ => p,
            },
            NegotiationPhase::AwaitUdp => match e {
                GatewayEvent::Response { response } => {
                    if response_transport(response) == Transport::Udp {
                        NegotiationPhase::SendTcp { udp_public_port: response_public_port(response) }
                    } else {
                        NegotiationPhase::Failed { error: NegotiationError::ProtocolMismatch }
                    }
                },
                GatewayEvent::ReceiveFailed => NegotiationPhase::Failed {
                    error: NegotiationError::NoResponse,
                },
                _ => p,
            },
            NegotiationPhase::SendTcp { udp_public_port } => match e {
                GatewayEvent::RequestSent => NegotiationPhase::AwaitTcp { udp_public_port },
                GatewayEvent::SendFailed => NegotiationPhase::Failed {
                    error: NegotiationError::Unreachable,
                },
                _ => p,
            },
            NegotiationPhase::AwaitTcp { udp_public_port } => match e {
                GatewayEvent::Response { response } => {
                    if response_transport(response) == Transport::Tcp {
                        NegotiationPhase::Complete {
                            result: MappingResult {
                                udp_public_port,
                                tcp_public_port: response_public_port(response),
                            },
                        }
                    } else {
                        NegotiationPhase::Failed { error: NegotiationError::ProtocolMismatch }
                    }
                },
                GatewayEvent::ReceiveFailed => NegotiationPhase::Failed {
                    error: NegotiationError::NoResponse,
                },
                _ => p,
            },
            _ => p,
        }
    }
}

impl NegotiationPhase {
    /// Advance the negotiation by one observed event.
    pub fn step(self, event: GatewayEvent) -> (r: NegotiationPhase)
        ensures
            r == spec_step(self, event),
    {
        match self {
            NegotiationPhase::Complete { .. } => self,
            NegotiationPhase::Failed { .. } => self,
            _ => match event {
                GatewayEvent::DeadlineElapsed => NegotiationPhase::Failed {
                    error: NegotiationError::NegotiationTimeout,
                },
                _ => match self {
                    NegotiationPhase::SendUdp => match event {
                        GatewayEvent::RequestSent => NegotiationPhase::AwaitUdp,
                        GatewayEvent::SendFailed => NegotiationPhase::Failed {
                            error: NegotiationError::Unreachable,
                        },
                        _ => self,
                    },
                    NegotiationPhase::AwaitUdp => match event {
                        GatewayEvent::Response { response } => match validate_response(
                            Transport::Udp,
                            &response,
                        ) {
                            Ok(public_port) => NegotiationPhase::SendTcp {
                                udp_public_port: public_port,
                            },
                            Err(_) => NegotiationPhase::Failed {
                                error: NegotiationError::ProtocolMismatch,
                            },
                        },
                        GatewayEvent::ReceiveFailed => NegotiationPhase::Failed {
                            error: NegotiationError::NoResponse,
                        },
                        _ => self,
                    },
                    NegotiationPhase::SendTcp { udp_public_port } => match event {
                        GatewayEvent::RequestSent => NegotiationPhase::AwaitTcp { udp_public_port },
                        GatewayEvent::SendFailed => NegotiationPhase::Failed {
                            error: NegotiationError::Unreachable,
                        },
                        _ => self,
                    },
                    NegotiationPhase::AwaitTcp { udp_public_port } => match event {
                        GatewayEvent::Response { response } => match validate_response(
                            Transport::Tcp,
                            &response,
                        ) {
                            Ok(public_port) => NegotiationPhase::Complete {
                                result: MappingResult {
                                    udp_public_port,
                                    tcp_public_port: public_port,
                                },
                            },
                            Err(_) => NegotiationPhase::Failed {
                                error: NegotiationError::ProtocolMismatch,
                            },
                        },
                        GatewayEvent::ReceiveFailed => NegotiationPhase::Failed {
                            error: NegotiationError::NoResponse,
                        },
                        _ => self,
                    },
                    _ => self,
                },
            },
        }
    }

    /// The action the surrounding process must perform next, or `None` once
    /// the negotiation is over. A TCP request is called for only in the
    /// `SendTcp` phase, which is reachable only through a processed UDP
    /// response.
    pub fn requested_action(&self) -> (r: Option<GatewayAction>)
        ensures
            r == spec_requested_action(*self),
    {
        match self {
            NegotiationPhase::SendUdp => Some(
                GatewayAction::Send { request: MappingRequest::renewal(Transport::Udp) },
            ),
            NegotiationPhase::AwaitUdp => Some(GatewayAction::Await),
            NegotiationPhase::SendTcp { .. } => Some(
                GatewayAction::Send { request: MappingRequest::renewal(Transport::Tcp) },
            ),
            NegotiationPhase::AwaitTcp { .. } => Some(GatewayAction::Await),
            NegotiationPhase::Complete { .. } => None,
            NegotiationPhase::Failed { .. } => None,
        }
    }

    /// The negotiation's outcome once it is terminal: the full pair of
    /// ports, or the error — never a partial pair.
    pub fn outcome(&self) -> (r: Option<Result<MappingResult, NegotiationError>>)
        ensures
            r == spec_outcome(*self),
            r is Some <==> is_terminal(*self),
    {
        match self {
            NegotiationPhase::Complete { result } => Some(Ok(*result)),
            NegotiationPhase::Failed { error } => Some(Err(*error)),
            _ => None,
        }
    }
}

/// The action each phase solicits; terminal phases solicit nothing.
pub open spec fn spec_requested_action(p: NegotiationPhase) -> Option<GatewayAction> {
    match p {
        NegotiationPhase::SendUdp => Some(
            GatewayAction::Send {
                request: MappingRequest {
                    transport: Transport::Udp,
                    private_port: crate::protocol::RENEWAL_PRIVATE_PORT,
                    lifetime_secs: crate::protocol::RENEWAL_LIFETIME_SECS,
                },
            },
        ),
        NegotiationPhase::AwaitUdp => Some(GatewayAction::Await),
        NegotiationPhase::SendTcp { .. } => Some(
            GatewayAction::Send {
                request: MappingRequest {
                    transport: Transport::Tcp,
                    private_port: crate::protocol::RENEWAL_PRIVATE_PORT,
                    lifetime_secs: crate::protocol::RENEWAL_LIFETIME_SECS,
                },
            },
        ),
        NegotiationPhase::AwaitTcp { .. } => Some(GatewayAction::Await),
        NegotiationPhase::Complete { .. } => None,
        NegotiationPhase::Failed { .. } => None,
    }
}

/// The terminal verdict of a phase, if it has one.
pub open spec fn spec_outcome(p: NegotiationPhase) -> Option<
    Result<MappingResult, NegotiationError>,
> {
    match p {
        NegotiationPhase::Complete { result } => Some(Ok(result)),
        NegotiationPhase::Failed { error } => Some(Err(error)),
        _ => None,
    }
}

/// The phase reached by feeding a sequence of events, in order, into a
/// starting phase.
pub open spec fn run_from(p: NegotiationPhase, events: Seq<GatewayEvent>) -> NegotiationPhase
    decreases events.len(),
{
    if events.len() == 0 {
        p
    } else {
        run_from(spec_step(p, events[0]), events.skip(1))
    }
}

/// The phase reached by one whole negotiation over a sequence of events.
pub open spec fn run(events: Seq<GatewayEvent>) -> NegotiationPhase {
    run_from(NegotiationPhase::SendUdp, events)
}

/// Feed a whole sequence of observed events, in order, through one
/// negotiation, starting from the initial phase.
pub fn run_events(events: &Vec<GatewayEvent>) -> (r: NegotiationPhase)
    ensures
        r == run(events@),
{
    let mut phase = NegotiationPhase::SendUdp;
    proof {
        assert(events@.skip(0) =~= events@);
    }
    let mut i: usize = 0;
    while i < events.len()
        invariant
            0 <= i <= events@.len(),
            run_from(phase, events@.skip(i as int)) == run(events@),
        decreases events@.len() - i,
    {
        proof {
            assert(events@.skip(i as int)[0] == events@[i as int]);
            assert(events@.skip(i as int).skip(1) =~= events@.skip(i as int + 1));
        }
        phase = phase.step(events[i]);
        i = i + 1;
    }
    proof {
        assert(events@.skip(events@.len() as int) =~= Seq::<GatewayEvent>::empty());
    }
    phase
}

/// A terminal phase absorbs every remaining event: once a negotiation has
/// completed or failed, nothing observed later changes its verdict.
pub proof fn lemma_terminal_absorbs(p: NegotiationPhase, events: Seq<GatewayEvent>)
    requires
        is_terminal(p),
    ensures
        run_from(p, events) == p,
    decreases events.len(),
{
    if events.len() > 0 {
        lemma_terminal_absorbs(p, events.skip(1));
    }
}

/// Deadline enforcement: in every live phase, an elapsed deadline ends the
/// negotiation at once with `NegotiationTimeout` — the machine never keeps
/// waiting past its deadline.
pub proof fn lemma_deadline_enforced(p: NegotiationPhase)
    requires
        !is_terminal(p),
    ensures
        spec_step(p, GatewayEvent::DeadlineElapsed) == (NegotiationPhase::Failed {
            error: NegotiationError::NegotiationTimeout,
        }),
{
}

/// The UDP public port a mid-TCP-exchange phase carries forward.
pub open spec fn carried_udp_port(p: NegotiationPhase) -> u16
    recommends
        p is SendTcp || p is AwaitTcp,
{
    match p {
        NegotiationPhase::SendTcp { udp_public_port } => udp_public_port,
        NegotiationPhase::AwaitTcp { udp_public_port } => udp_public_port,
        _ => 0,
    }
}

/// Deadline enforcement over a whole run: once the deadline event has been
/// observed, the negotiation is terminal — it never keeps waiting past its
/// deadline, whatever else the event sequence holds.
pub proof fn lemma_deadline_terminates(events: Seq<GatewayEvent>, i: int)
    requires
        0 <= i < events.len(),
        events[i] is DeadlineElapsed,
    ensures
        is_terminal(run(events)),
{
    lemma_run_from_deadline(NegotiationPhase::SendUdp, events, i);
}

/// Generalisation of [`lemma_deadline_terminates`] over the starting phase.
pub proof fn lemma_run_from_deadline(p: NegotiationPhase, events: Seq<GatewayEvent>, i: int)
    requires
        0 <= i < events.len(),
        events[i] is DeadlineElapsed,
    ensures
        is_terminal(run_from(p, events)),
    decreases events.len(),
{
    if is_terminal(p) {
        lemma_terminal_absorbs(p, events);
    } else {
        let p2 = spec_step(p, events[0]);
        if i == 0 {
            // A live phase fails on the deadline; the rest is absorbed.
            lemma_terminal_absorbs(p2, events.skip(1));
        } else {
            assert(events.skip(1)[i - 1] == events[i]);
            lemma_run_from_deadline(p2, events.skip(1), i - 1);
        }
    }
}

/// Ordering: the TCP exchange is reachable only after a UDP-tagged response
/// has been processed. Whenever a run stands at a TCP-stage phase after its
/// first `n` events — and a TCP request is solicited only there — a UDP
/// response already stands among those `n` events.
pub proof fn lemma_tcp_after_udp(events: Seq<GatewayEvent>, n: int)
    requires
        0 <= n <= events.len(),
        tcp_stage(run(events.take(n))),
    ensures
        exists|i: int, port: u16| 0 <= i < n && #[trigger] is_udp_response(events[i], port),
{
    lemma_run_from_tcp_stage(NegotiationPhase::SendUdp, events.take(n));
    let (i, port) = choose|i: int, port: u16|
        0 <= i < events.take(n).len() && #[trigger] is_udp_response(events.take(n)[i], port);
    assert(events.take(n)[i] == events[i]);
    assert(is_udp_response(events[i], port));
}

/// Generalisation of [`lemma_tcp_after_udp`] over an arbitrary non-TCP
/// starting phase.
pub proof fn lemma_run_from_tcp_stage(p: NegotiationPhase, events: Seq<GatewayEvent>)
    requires
        !tcp_stage(p),
        tcp_stage(run_from(p, events)),
    ensures
        exists|i: int, port: u16| 0 <= i < events.len() && #[trigger] is_udp_response(events[i], port),
    decreases events.len(),
{
    if events.len() == 0 {
    } else {
        let p2 = spec_step(p, events[0]);
        if tcp_stage(p2) {
            let port = carried_udp_port(p2);
            assert(is_udp_response(events[0], port));
        } else {
            lemma_run_from_tcp_stage(p2, events.skip(1));
            let (i, port) = choose|i: int, port: u16|
                0 <= i < events.skip(1).len() && #[trigger] is_udp_response(events.skip(1)[i], port);
            assert(events.skip(1)[i] == events[i + 1]);
            assert(is_udp_response(events[i + 1], port));
        }
    }
}

/// Atomicity and provenance: a run that completes carries both ports, and
/// each port is exactly the one carried by a response event of its
/// transport, the UDP response strictly before the TCP response.
pub proof fn lemma_complete_both_ports(events: Seq<GatewayEvent>)
    requires
        run(events) is Complete,
    ensures
        exists|i: int, j: int|
            0 <= i < j < events.len() && is_udp_response(
                events[i],
                run(events)->Complete_result.udp_public_port,
            ) && is_tcp_response(events[j], run(events)->Complete_result.tcp_public_port),
{
    lemma_run_from_complete(NegotiationPhase::SendUdp, events);
}

/// Invariant behind [`lemma_complete_both_ports`], generalised over the
/// starting phase: what a completed run's result owes to the event
/// sequence, for each possible start.
pub proof fn lemma_run_from_complete(p: NegotiationPhase, events: Seq<GatewayEvent>)
    requires
        run_from(p, events) is Complete,
    ensures
        p is SendUdp || p is AwaitUdp ==> exists|i: int, j: int|
            0 <= i < j < events.len() && is_udp_response(
                events[i],
                run_from(p, events)->Complete_result.udp_public_port,
            ) && is_tcp_response(events[j], run_from(p, events)->Complete_result.tcp_public_port),
        p is SendTcp || p is AwaitTcp ==> run_from(
            p,
            events,
        )->Complete_result.udp_public_port == carried_udp_port(p) && exists|j: int|
            0 <= j < events.len() && is_tcp_response(
                #[trigger] events[j],
                run_from(p, events)->Complete_result.tcp_public_port,
            ),
        p is Complete ==> run_from(p, events) == p,
        !(p is Failed),
    decreases events.len(),
{
    if p is Complete || p is Failed {
        lemma_terminal_absorbs(p, events);
    } else if events.len() == 0 {
        // run_from(p, events) == p, a live phase: the premise cannot hold.
    } else {
        let p2 = spec_step(p, events[0]);
        assert(run_from(p, events) == run_from(p2, events.skip(1)));
        lemma_run_from_complete(p2, events.skip(1));
        let q = run_from(p, events);
        if p is SendUdp || p is AwaitUdp {
            if p2 is SendTcp {
                // events[0] is the UDP response that produced p2's port.
                let u = carried_udp_port(p2);
                assert(is_udp_response(events[0], u));
                let j2 = choose|j: int|
                    0 <= j < events.skip(1).len() && is_tcp_response(
                        #[trigger] events.skip(1)[j],
                        q->Complete_result.tcp_public_port,
                    );
                assert(events.skip(1)[j2] == events[j2 + 1]);
                assert(is_udp_response(events[0], q->Complete_result.udp_public_port));
                assert(is_tcp_response(events[j2 + 1], q->Complete_result.tcp_public_port));
                assert(0 < j2 + 1 < events.len());
            } else {
                // p2 is still a UDP-side phase; lift the witnesses by one.
                let (i2, j2) = choose|i: int, j: int|
                    0 <= i < j < events.skip(1).len() && is_udp_response(
                        events.skip(1)[i],
                        q->Complete_result.udp_public_port,
                    ) && is_tcp_response(events.skip(1)[j], q->Complete_result.tcp_public_port);
                assert(events.skip(1)[i2] == events[i2 + 1]);
                assert(events.skip(1)[j2] == events[j2 + 1]);
                assert(0 <= i2 + 1 < j2 + 1 < events.len() && is_udp_response(
                    events[i2 + 1],
                    q->Complete_result.udp_public_port,
                ) && is_tcp_response(events[j2 + 1], q->Complete_result.tcp_public_port));
            }
        } else if p is SendTcp || p is AwaitTcp {
            if p2 is Complete {
                assert(is_tcp_response(events[0], q->Complete_result.tcp_public_port));
            } else {
                let j2 = choose|j: int|
                    0 <= j < events.skip(1).len() && is_tcp_response(
                        #[trigger] events.skip(1)[j],
                        q->Complete_result.tcp_public_port,
                    );
                assert(events.skip(1)[j2] == events[j2 + 1]);
                assert(is_tcp_response(events[j2 + 1], q->Complete_result.tcp_public_port));
            }
        }
    }
}

} // verus!
