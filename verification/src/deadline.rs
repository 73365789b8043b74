use vstd::prelude::*;
use crate::outcome::PipelineOutcome;

verus! {

/// What the server observed of one handler invocation, as plain values: how
/// long the work ran (by the injected clock, in milliseconds) and what it
/// produced. The clock is injected rather than read here, so the boundary
/// case is deterministic and testable.
pub enum HandlerEvent {
    /// The handler ran for `work_ms` and returned its own status and body.
    Completed { work_ms: u64, status: u16, body: String },
    /// The handler ran for `work_ms` and then failed unclassified.
    Failed { work_ms: u64 },
}

/// How long the observed work ran, whatever it produced.
pub open spec fn work_ms_spec(e: HandlerEvent) -> int {
    match e {
        HandlerEvent::Completed { work_ms, .. } => work_ms as int,
        HandlerEvent::Failed { work_ms } => work_ms as int,
    }
}

/// Bounds a unit of work with a fixed wall-clock budget. Cancellation is
/// cooperative: work that overruns is not killed, only its result is
/// discarded and the outcome becomes a timeout — so the work itself may
/// still run to completion in the background and must release its own
/// resources when it does.
pub struct DeadlineEnforcer {
    /// The wall-clock budget, in milliseconds.
    pub budget_ms: u64,
}

impl DeadlineEnforcer {
    /// The outcome the enforcer produces for an observed handler event:
    /// work that overran the budget is a timeout whatever it returned (the
    /// deadline timer won the race); work within the budget keeps its own
    /// result. Work that finishes exactly at the boundary counts as within
    /// the budget — deterministically, given the injected clock.
    pub open spec fn enforce_spec(&self, e: HandlerEvent) -> PipelineOutcome {
        if work_ms_spec(e) > self.budget_ms {
            PipelineOutcome::TimedOut
        } else {
            match e {
                HandlerEvent::Completed { status, body, .. } => PipelineOutcome::Success {
                    status,
                    body,
                },
                HandlerEvent::Failed { .. } => PipelineOutcome::Failed,
            }
        }
    }

    /// An enforcer with the given wall-clock budget.
    pub fn new(budget_ms: u64) -> (d: DeadlineEnforcer)
        ensures
            d.budget_ms == budget_ms,
    {
        DeadlineEnforcer { budget_ms }
    }

    /// Decide what one observed handler invocation amounts to under this
    /// deadline.
    pub fn enforce(&self, event: HandlerEvent) -> (o: PipelineOutcome)
        ensures
            o == self.enforce_spec(event),
    {
        let over = match &event {
            HandlerEvent::Completed { work_ms, .. } => *work_ms > self.budget_ms,
            HandlerEvent::Failed { work_ms } => *work_ms > self.budget_ms,
        };
        if over {
            PipelineOutcome::TimedOut
        } else {
            match event {
                HandlerEvent::Completed { status, body, .. } => PipelineOutcome::Success {
                    status,
                    body,
                },
                HandlerEvent::Failed { .. } => PipelineOutcome::Failed,
            }
        }
    }
}

/// Law: work that overruns the budget times out — its own result, success
/// or failure alike, is discarded and the classified status is 408.
pub proof fn lemma_overrun_times_out(d: DeadlineEnforcer, e: HandlerEvent)
    requires
        work_ms_spec(e) > d.budget_ms,
    ensures
        d.enforce_spec(e) is TimedOut,
        crate::outcome::classify_spec(d.enforce_spec(e)) == 408,
{
}

/// Law: work that completes within the budget (the exact boundary included)
/// passes its own status and body through untouched.
pub proof fn lemma_within_budget_passes_through(d: DeadlineEnforcer, e: HandlerEvent)
    requires
        work_ms_spec(e) <= d.budget_ms,
        e is Completed,
    ensures
        d.enforce_spec(e) matches PipelineOutcome::Success { status, body } && e
            matches HandlerEvent::Completed { status: hs, body: hb, .. } && status == hs && body
            == hb,
{
}

} // verus!
