use vstd::prelude::*;
use crate::context::RequestContext;
use crate::outcome::{classify_spec, PipelineOutcome};

verus! {

/// A recorded interval describing one request's execution: opened when the
/// request's identifier is finalized, closed exactly once with the
/// request's outcome, and immutable after close.
pub struct TraceSpan {
    /// The request's identifier, for correlation across logs.
    pub request_id: String,
    /// The route the request was dispatched to.
    pub route: String,
    /// When the span was opened, in milliseconds.
    pub start_ms: u64,
    /// When the span was closed, in milliseconds; meaningful only once
    /// `closed` holds.
    pub end_ms: u64,
    /// Whether the span has been closed. A closed span is never reopened.
    pub closed: bool,
    /// The classified status of the request's outcome; meaningful only once
    /// `closed` holds.
    pub outcome_status: u16,
}

impl TraceSpan {
    /// How long the recorded interval lasted. Meaningful only on a closed
    /// span.
    pub fn elapsed_ms(&self) -> (d: u64)
        requires
            self.closed,
            self.start_ms <= self.end_ms,
        ensures
            d == self.end_ms - self.start_ms,
    {
        self.end_ms - self.start_ms
    }
}

/// Opens exactly one span per request and closes it exactly once, on every
/// exit path; the emission of the closed span to an external sink is the
/// surrounding server's business.
pub struct TraceRecorder;

impl TraceRecorder {
    /// Open the span for a request whose identifier has just been
    /// finalized.
    pub fn open(ctx: &RequestContext) -> (span: TraceSpan)
        ensures
            span.request_id@ == ctx.id@,
            span.route@ == ctx.route@,
            span.start_ms == ctx.start_ms,
            !span.closed,
    {
        TraceSpan {
            request_id: ctx.id.clone(),
            route: ctx.route.clone(),
            start_ms: ctx.start_ms,
            end_ms: ctx.start_ms,
            closed: false,
            outcome_status: 0,
        }
    }

    /// Close an open span with the request's outcome. Consuming the open
    /// span and requiring it open makes the close unrepeatable; everything
    /// recorded while it was open is kept.
    pub fn close(span: TraceSpan, outcome: &PipelineOutcome, end_ms: u64) -> (closed: TraceSpan)
        requires
            !span.closed,
            span.start_ms <= end_ms,
        ensures
            closed.closed,
            closed.request_id@ == span.request_id@,
            closed.route@ == span.route@,
            closed.start_ms == span.start_ms,
            closed.end_ms == end_ms,
            closed.outcome_status == classify_spec(*outcome),
    {
        let status = crate::outcome::classify(outcome);
        TraceSpan {
            request_id: span.request_id,
            route: span.route,
            start_ms: span.start_ms,
            end_ms,
            closed: true,
            outcome_status: status,
        }
    }
}

} // verus!
