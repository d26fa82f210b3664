//! Scheduler and lifecycle of the reconciliation loop.
//!
//! One cooperative loop handles exactly one event per iteration, won by a
//! fair race between the periodic timer and the shutdown signal. A timer
//! tick runs one negotiation cycle under an outer retry policy; a shutdown
//! request stops the loop before any negotiation is attempted. After a
//! successful negotiation the TCP public port is pushed downstream — unless
//! no downstream target is configured, which is a fatal misconfiguration
//! that stops the loop rather than keep renewing a mapping no one consumes.

use vstd::prelude::*;

use crate::negotiator::MappingResult;
use crate::negotiator::NegotiationError;

verus! {

/// Period of the renewal timer, in seconds: comfortably within the ~60 s
/// mapping lifetime, so a mapping is renewed before its lease expires.
pub const RENEWAL_PERIOD_SECS: u64 = 50;

/// Where the loop stands between events.
#[derive(Clone, Copy, Debug, PartialEq, Eq, Structural)]
pub enum SchedulerState {
    /// Waiting for the next timer tick or a shutdown signal.
    Idle,
    /// A negotiation cycle is running; entered on a tick, left on its
    /// outcome.
    NegotiationInFlight,
    /// The loop has exited; terminal.
    Stopped,
}

/// The two event sources the loop races between iterations.
#[derive(Clone, Copy, Debug, PartialEq, Eq, Structural)]
pub enum LoopEvent {
    /// The fixed-period renewal timer fired.
    TimerTick,
    /// The external shutdown signal arrived.
    ShutdownRequested,
}

/// What the loop body must do after handling an event.
#[derive(Clone, Copy, Debug, PartialEq, Eq, Structural)]
pub enum LoopAction {
    /// Run one full negotiation cycle (under the outer retry policy).
    RunNegotiation,
    /// Exit the loop cleanly.
    Exit,
}

/// The verdict of one negotiation cycle, after the outer retry policy has
/// run its course.
#[derive(Clone, Copy, Debug, PartialEq, Eq, Structural)]
pub enum CycleOutcome {
    Negotiated { result: MappingResult },
    CycleFailed { error: NegotiationError },
}

/// How the loop leaves a negotiation cycle: which state it returns to, and
/// the one downstream write to issue, if any.
#[derive(Clone, Copy, Debug, PartialEq, Eq, Structural)]
pub struct CycleExit {
    pub next: SchedulerState,
    pub downstream_push: Option<u16>,
}

/// The loop's reaction to a raced event. The race is only run between
/// cycles, so no event ever reaches a loop that is mid-negotiation or
/// stopped; if one did, the loop exits rather than start anything.
pub open spec fn spec_on_event(state: SchedulerState, event: LoopEvent) -> (
    SchedulerState,
    LoopAction,
) {
    match state {
        SchedulerState::Idle => match event {
            LoopEvent::TimerTick => (SchedulerState::NegotiationInFlight, LoopAction::RunNegotiation),
            LoopEvent::ShutdownRequested => (SchedulerState::Stopped, LoopAction::Exit),
        },
        _ => (SchedulerState::Stopped, LoopAction::Exit),
    }
}

impl SchedulerState {
    /// Handle the event that won this iteration's race. A shutdown request
    /// observed while idle stops the loop at once: no negotiation is
    /// attempted. Only a timer tick starts a negotiation.
    pub fn on_event(self, event: LoopEvent) -> (r: (SchedulerState, LoopAction))
        ensures
            r == spec_on_event(self, event),
            r.1 is RunNegotiation <==> self is Idle && event is TimerTick,
            event is ShutdownRequested ==> r.0 is Stopped && r.1 is Exit,
    {
        match self {
            SchedulerState::Idle => match event {
                LoopEvent::TimerTick => (
                    SchedulerState::NegotiationInFlight,
                    LoopAction::RunNegotiation,
                ),
                LoopEvent::ShutdownRequested => (SchedulerState::Stopped, LoopAction::Exit),
            },
            _ => (SchedulerState::Stopped, LoopAction::Exit),
        }
    }

    /// Leave a negotiation cycle.
    ///
    /// On success the TCP public port — and only the TCP port; the UDP port
    /// is observed but not pushed — is written downstream, provided a
    /// downstream target is configured. A success with no downstream target
    /// stops the loop without any downstream call. A failed cycle is not
    /// fatal: the loop returns to idle and waits for the next tick.
    pub fn on_cycle_outcome(self, outcome: &CycleOutcome, has_downstream: bool) -> (r: CycleExit)
        requires
            self is NegotiationInFlight,
        ensures
            r == spec_on_cycle_outcome(*outcome, has_downstream),
            *outcome matches CycleOutcome::Negotiated { result } ==> (has_downstream ==> r.next
                is Idle && r.downstream_push == Some(result.tcp_public_port)),
            outcome is Negotiated && !has_downstream ==> r.next is Stopped && r.downstream_push
                is None,
            outcome is CycleFailed ==> r.next is Idle && r.downstream_push is None,
    {
        match outcome {
            CycleOutcome::Negotiated { result } => {
                if has_downstream {
                    CycleExit {
                        next: SchedulerState::Idle,
                        downstream_push: Some(result.tcp_public_port),
                    }
                } else {
                    CycleExit { next: SchedulerState::Stopped, downstream_push: None }
                }
            },
            CycleOutcome::CycleFailed { .. } => CycleExit {
                next: SchedulerState::Idle,
                downstream_push: None,
            },
        }
    }
}

/// How the loop leaves one negotiation cycle, as a function of the cycle's
/// outcome and whether a downstream target is configured.
pub open spec fn spec_on_cycle_outcome(outcome: CycleOutcome, has_downstream: bool) -> CycleExit {
    match outcome {
        CycleOutcome::Negotiated { result } => {
            if has_downstream {
                CycleExit {
                    next: SchedulerState::Idle,
                    downstream_push: Some(result.tcp_public_port),
                }
            } else {
                CycleExit { next: SchedulerState::Stopped, downstream_push: None }
            }
        },
        CycleOutcome::CycleFailed { .. } => CycleExit {
            next: SchedulerState::Idle,
            downstream_push: None,
        },
    }
}

/// A failed or skipped downstream push never fails the cycle: whatever the
/// push's verdict, the loop returns to idle and waits for the next tick.
/// Losing the push is recoverable next cycle; the gateway mapping is
/// already renewed.
pub fn after_downstream_push(push_succeeded: bool) -> (r: SchedulerState)
    ensures
        r is Idle,
{
    let _ = push_succeeded;
    SchedulerState::Idle
}

/// The outer retry policy around one negotiation call: a small fixed number
/// of immediate attempts, no backoff. Distinct from the gateway transport's
/// own internal retry ladder.
#[derive(Clone, Copy, Debug, PartialEq, Eq, Structural)]
pub struct RetryPolicy {
    /// Total attempts allowed per cycle, the first one included.
    pub max_attempts: u8,
}

impl RetryPolicy {
    /// Whether a further attempt is allowed after `attempts_made` attempts
    /// have all failed.
    pub fn allows_another_attempt(&self, attempts_made: u8) -> (r: bool)
        ensures
            r == (attempts_made < self.max_attempts),
    {
        attempts_made < self.max_attempts
    }
}

/// Degraded-configuration termination: with no downstream target, one
/// successful negotiation stops the loop, and no downstream write is ever
/// issued for it.
pub proof fn lemma_degraded_config_stops(result: MappingResult)
    ensures
        spec_on_cycle_outcome(CycleOutcome::Negotiated { result }, false) == (CycleExit {
            next: SchedulerState::Stopped,
            downstream_push: None,
        }),
{
}

/// Shutdown preemption: a shutdown request observed while the loop is idle
/// exits the loop at that iteration, with no negotiation attempted.
pub proof fn lemma_shutdown_preempts_tick()
    ensures
        spec_on_event(SchedulerState::Idle, LoopEvent::ShutdownRequested) == (
            SchedulerState::Stopped,
            LoopAction::Exit,
        ),
{
}

} // verus!
