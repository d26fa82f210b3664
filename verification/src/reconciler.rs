//! Port reconciliation against the downstream service.
//!
//! The downstream service is the source of truth for what it has configured
//! right now, so its current port is fetched fresh on every cycle and never
//! cached. The reconcile decision compares the newly learned public port
//! against that current port and calls for a write only on change: repeated
//! reconciliation with an unchanged mapping issues no write at all.

use vstd::prelude::*;

verus! {

/// Why a reconciliation attempt against the downstream service failed.
/// These are reported to the caller but never fail the negotiation cycle:
/// the gateway mapping is already renewed, and a lost downstream push is
/// recovered on the next cycle.
#[derive(Clone, Copy, Debug, PartialEq, Eq, Structural)]
pub enum DownstreamError {
    /// The downstream endpoint could not be reached.
    Unreachable,
    /// The downstream service rejected the credentials.
    AuthFailed,
    /// The downstream service answered with something unreadable.
    MalformedResponse,
}

/// The write the reconciler decides on: `None` when the downstream service
/// already has `new_port` configured, otherwise exactly one update setting
/// the port to `new_port`.
pub open spec fn spec_reconcile_decision(current_port: u16, new_port: u16) -> Option<u16> {
    if new_port == current_port {
        None
    } else {
        Some(new_port)
    }
}

/// Decide whether the downstream port needs a write. `current_port` is what
/// the downstream service reports as configured right now; `new_port` is the
/// public port the gateway just assigned. The result is the single update to
/// issue, or `None` for a no-op.
pub fn reconcile_decision(current_port: u16, new_port: u16) -> (r: Option<u16>)
    ensures
        r == spec_reconcile_decision(current_port, new_port),
        r is Some <==> new_port != current_port,
        r matches Some(p) ==> p == new_port,
{
    if new_port == current_port {
        None
    } else {
        Some(new_port)
    }
}

/// The downstream port after a decision is applied: unchanged on a no-op,
/// the written port otherwise.
pub open spec fn apply_decision(current_port: u16, decision: Option<u16>) -> u16 {
    match decision {
        None => current_port,
        Some(p) => p,
    }
}

/// How many writes a decision issues.
pub open spec fn writes_issued(decision: Option<u16>) -> nat {
    match decision {
        None => 0,
        Some(_) => 1,
    }
}

/// Idempotence: reconciling twice in a row with the same `new_port` issues
/// at most one write in total — once the first decision has taken effect,
/// the second decision is always a no-op.
pub proof fn lemma_reconcile_idempotent(current_port: u16, new_port: u16)
    ensures
        ({
            let first = spec_reconcile_decision(current_port, new_port);
            let second = spec_reconcile_decision(apply_decision(current_port, first), new_port);
            second is None && writes_issued(first) + writes_issued(second) <= 1
        }),
{
}

} // verus!
