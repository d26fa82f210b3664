//! Port-mapping reconciliation library.
//!
//! Keeps a NAT gateway port mapping alive and propagates the externally
//! visible port to a downstream service. The decision logic — the gateway
//! exchange state machine, the negotiation ordering and deadline rules, the
//! downstream reconcile decision, and the scheduler lifecycle — is verified
//! here; the surrounding process (sockets, timers, RPC transport) drives
//! these functions from outside.

pub mod address;
pub mod config;
pub mod negotiator;
pub mod protocol;
pub mod reconciler;
pub mod scheduler;
