//! Gateway mapping protocol: request shape, response shape, and the
//! tag-based correlation check between the two.
//!
//! The gateway protocol carries no request identifier; a response is matched
//! to the request that provoked it purely by its transport tag. A response
//! whose tag differs from the outstanding request's tag is a protocol error,
//! never a silent fallback.

use vstd::prelude::*;

verus! {

/// The transport protocol a mapping applies to.
#[derive(Clone, Copy, Debug, PartialEq, Eq, Structural)]
pub enum Transport {
    Udp,
    Tcp,
}

/// Requested private port: the gateway chooses ("any").
pub const RENEWAL_PRIVATE_PORT: u16 = 0;

/// Requested mapping lifetime in seconds; short, so the mapping must be
/// renewed by the periodic loop well within one lease.
pub const RENEWAL_LIFETIME_SECS: u32 = 60;

/// A port-mapping request datagram, as handed to the gateway transport.
#[derive(Clone, Copy, Debug, PartialEq, Eq, Structural)]
pub struct MappingRequest {
    pub transport: Transport,
    pub private_port: u16,
    pub lifetime_secs: u32,
}

impl MappingRequest {
    /// The one request this system ever sends for a given transport:
    /// private port "any" and the short fixed lifetime.
    pub fn renewal(transport: Transport) -> (r: MappingRequest)
        ensures
            r.transport == transport,
            r.private_port == RENEWAL_PRIVATE_PORT,
            r.lifetime_secs == RENEWAL_LIFETIME_SECS,
    {
        MappingRequest { transport, private_port: RENEWAL_PRIVATE_PORT, lifetime_secs: RENEWAL_LIFETIME_SECS }
    }
}

/// A successful mapping response, tagged by the transport it answers for,
/// carrying the externally visible port the gateway assigned.
#[derive(Clone, Copy, Debug, PartialEq, Eq, Structural)]
pub enum MappingResponse {
    Udp { public_port: u16 },
    Tcp { public_port: u16 },
}

/// The transport tag a response carries.
pub open spec fn response_transport(r: MappingResponse) -> Transport {
    match r {
        MappingResponse::Udp { .. } => Transport::Udp,
        MappingResponse::Tcp { .. } => Transport::Tcp,
    }
}

/// The public port a response carries.
pub open spec fn response_public_port(r: MappingResponse) -> u16 {
    match r {
        MappingResponse::Udp { public_port } => public_port,
        MappingResponse::Tcp { public_port } => public_port,
    }
}

/// Why a single exchange with the gateway failed. The tag check below
/// yields `ProtocolMismatch`; the other two are observed at the transport
/// by whoever drives the exchange, and reach the negotiation as events.
#[derive(Clone, Copy, Debug, PartialEq, Eq, Structural)]
pub enum ExchangeError {
    /// Socket or transport-level failure reaching the gateway.
    Unreachable,
    /// A response arrived whose transport tag does not match the request.
    ProtocolMismatch,
    /// The transport's own retry ladder was exhausted with no datagram.
    NoResponse,
}

/// Correlate a response with the outstanding request by transport tag:
/// the matching tag yields the assigned public port, any other tag is a
/// protocol mismatch.
pub fn validate_response(expected: Transport, response: &MappingResponse) -> (r: Result<
    u16,
    ExchangeError,
>)
    ensures
        response_transport(*response) == expected ==> r == Ok::<u16, ExchangeError>(
            response_public_port(*response),
        ),
        response_transport(*response) != expected ==> r == Err::<u16, ExchangeError>(
            ExchangeError::ProtocolMismatch,
        ),
{
    match (expected, response) {
        (Transport::Udp, MappingResponse::Udp { public_port }) => Ok(*public_port),
        (Transport::Tcp, MappingResponse::Tcp { public_port }) => Ok(*public_port),
        _ => Err(ExchangeError::ProtocolMismatch),
    }
}

} // verus!
