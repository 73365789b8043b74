use vstd::prelude::*;
use crate::admission::{AdmissionController, AdmissionToken};
use crate::context::RequestContext;
use crate::deadline::{DeadlineEnforcer, HandlerEvent};
use crate::outcome::{body_spec, classify_spec, PipelineOutcome};
use crate::request_id::chosen_id_spec;
use crate::trace::{TraceRecorder, TraceSpan};

verus! {

/// What the caller sees of one request: the classified status, the
/// correlating identifier (propagated even on rejection or timeout), and
/// the body.
pub struct Response {
    /// The classified status.
    pub status: u16,
    /// The request's identifier, echoed back so the caller can correlate
    /// request and response even on hard failures.
    pub request_id: String,
    /// The handler's body on success; empty on every failure, so no
    /// internal error text reaches the caller.
    pub body: String,
}

/// What entering the pipeline came to: either the request was admitted —
/// with its context, its open trace span and its admission token — or it
/// was rejected before the handler ran, with the finished response and the
/// already-closed span.
pub enum BeginOutcome {
    /// The request holds a budget slot; the handler may run.
    Admitted { ctx: RequestContext, span: TraceSpan, token: AdmissionToken },
    /// The budget was exhausted; the handler never runs.
    Rejected { response: Response, span: TraceSpan },
}

/// The composition root: the stages in their fixed order — identification,
/// admission, deadline, handler, classification, trace close — around a
/// handler the surrounding server runs. The server calls [`Pipeline::begin`]
/// when a request arrives, runs the handler only if it was admitted, and
/// hands what it observed to [`Pipeline::finish`].
pub struct Pipeline {
    /// The concurrency budget shared by all requests.
    pub admission: AdmissionController,
    /// The per-request wall-clock budget.
    pub deadline: DeadlineEnforcer,
}

impl Pipeline {
    /// The pipeline's invariant: the admission budget is intact.
    pub open spec fn inv(&self) -> bool {
        self.admission.inv()
    }

    /// A pipeline with the whole budget free.
    pub fn new(limit: usize, budget_ms: u64) -> (p: Pipeline)
        ensures
            p.inv(),
            p.admission.limit == limit,
            p.admission.active == 0,
            p.deadline.budget_ms == budget_ms,
    {
        Pipeline { admission: AdmissionController::new(limit), deadline: DeadlineEnforcer::new(budget_ms) }
    }

    /// A request enters: settle its identifier (reusing an inbound one
    /// unchanged), open its trace span, and ask for admission. A rejected
    /// request gets its finished 429 response here, identifier included,
    /// with its span already closed; an admitted one occupies a budget slot
    /// until [`Pipeline::finish`].
    pub fn begin(
        &mut self,
        incoming_id: Option<String>,
        generated_id: String,
        route: String,
        now_ms: u64,
    ) -> (r: BeginOutcome)
        requires
            old(self).inv(),
        ensures
            final(self).inv(),
            final(self).deadline == old(self).deadline,
            r is Admitted <==> old(self).admission.active < old(self).admission.limit,
            r matches BeginOutcome::Admitted { ctx, span, .. } ==> {
                &&& *final(self) == (Pipeline {
                    admission: old(self).admission.admitted_spec(),
                    ..*old(self)
                })
                &&& ctx.id@ == chosen_id_spec(
                    match incoming_id {
                        Some(s) => Some(s@),
                        None => None,
                    },
                    generated_id@,
                )
                &&& ctx.route@ == route@
                &&& ctx.start_ms == now_ms
                &&& span.request_id@ == ctx.id@
                &&& span.route@ == route@
                &&& span.start_ms == now_ms
                &&& !span.closed
            },
            r matches BeginOutcome::Rejected { response, span } ==> {
                &&& *final(self) == *old(self)
                &&& response.status == 429
                &&& response.request_id@ == chosen_id_spec(
                    match incoming_id {
                        Some(s) => Some(s@),
                        None => None,
                    },
                    generated_id@,
                )
                &&& response.body@ == Seq::<char>::empty()
                &&& span.closed
                &&& span.outcome_status == 429
                &&& span.request_id@ == response.request_id@
                &&& span.route@ == route@
                &&& span.start_ms == now_ms
                &&& span.end_ms == now_ms
            },
    {
        let id = crate::request_id::choose_request_id(incoming_id, generated_id);
        let ctx = RequestContext::new(id, route, now_ms);
        let span = TraceRecorder::open(&ctx);
        match self.admission.acquire() {
            Some(token) => BeginOutcome::Admitted { ctx, span, token },
            None => {
                let outcome = PipelineOutcome::Rejected;
                let status = crate::outcome::classify(&outcome);
                let span = TraceRecorder::close(span, &outcome, now_ms);
                let response = Response { status, request_id: ctx.id, body: String::new() };
                BeginOutcome::Rejected { response, span }
            },
        }
    }

    /// An admitted request's handler was run (or overran); settle the
    /// request: enforce the deadline on what was observed, classify the
    /// outcome, close the span, release the token — on this and every other
    /// exit path — and build the response, identifier included.
    pub fn finish(
        &mut self,
        ctx: RequestContext,
        span: TraceSpan,
        token: AdmissionToken,
        event: HandlerEvent,
        now_ms: u64,
    ) -> (r: (Response, TraceSpan))
        requires
            old(self).inv(),
            old(self).admission.active > 0,
            !span.closed,
            span.start_ms <= now_ms,
        ensures
            final(self).inv(),
            final(self).deadline == old(self).deadline,
            *final(self) == (Pipeline {
                admission: old(self).admission.released_spec(),
                ..*old(self)
            }),
            r.0.request_id@ == ctx.id@,
            r.0.status == classify_spec(old(self).deadline.enforce_spec(event)),
            r.0.body@ == body_spec(old(self).deadline.enforce_spec(event)),
            r.1.closed,
            r.1.outcome_status == r.0.status,
            r.1.request_id@ == span.request_id@,
            r.1.route@ == span.route@,
            r.1.start_ms == span.start_ms,
            r.1.end_ms == now_ms,
    {
        let outcome = self.deadline.enforce(event);
        let status = crate::outcome::classify(&outcome);
        let span = TraceRecorder::close(span, &outcome, now_ms);
        self.admission.release(token);
        let body = match outcome {
            PipelineOutcome::Success { body, .. } => body,
            _ => String::new(),
        };
        let response = Response { status, request_id: ctx.id, body };
        (response, span)
    }

    /// One request's whole passage, begin and finish composed, for the case
    /// where the handler's event is already at hand. Whatever the outcome —
    /// success, failure, timeout or rejection — the budget ends where it
    /// began, exactly one span is closed, and the response carries the
    /// request's identifier.
    pub fn process(
        &mut self,
        incoming_id: Option<String>,
        generated_id: String,
        route: String,
        start_ms: u64,
        event: HandlerEvent,
        end_ms: u64,
    ) -> (r: (Response, TraceSpan))
        requires
            old(self).inv(),
            start_ms <= end_ms,
        ensures
            final(self).inv(),
            final(self).deadline == old(self).deadline,
            final(self).admission.limit == old(self).admission.limit,
            final(self).admission.active == old(self).admission.active,
            r.0.request_id@ == chosen_id_spec(
                match incoming_id {
                    Some(s) => Some(s@),
                    None => None,
                },
                generated_id@,
            ),
            old(self).admission.active < old(self).admission.limit ==> {
                &&& r.0.status == classify_spec(old(self).deadline.enforce_spec(event))
                &&& r.0.body@ == body_spec(old(self).deadline.enforce_spec(event))
            },
            old(self).admission.active >= old(self).admission.limit ==> {
                &&& r.0.status == 429
                &&& r.0.body@ == Seq::<char>::empty()
            },
            r.1.closed,
            r.1.outcome_status == r.0.status,
            r.1.request_id@ == r.0.request_id@,
    {
        let entered = self.begin(incoming_id, generated_id, route, start_ms);
        match entered {
            BeginOutcome::Admitted { ctx, span, token } => self.finish(
                ctx,
                span,
                token,
                event,
                end_ms,
            ),
            BeginOutcome::Rejected { response, span } => (response, span),
        }
    }
}

/// Law: a liveness probe never fails — a handler that completes instantly
/// with 200 and an empty body can never overrun any deadline, so under the
/// concurrency limit (where [`Pipeline::begin`] always admits) its request
/// classifies as 200 with an empty body.
pub proof fn lemma_instant_success_never_times_out(d: DeadlineEnforcer, e: HandlerEvent)
    requires
        e matches HandlerEvent::Completed { work_ms, status, body }
            && work_ms == 0 && status == 200 && body@ == Seq::<char>::empty(),
    ensures
        classify_spec(d.enforce_spec(e)) == 200,
        body_spec(d.enforce_spec(e)) == Seq::<char>::empty(),
{
}

} // verus!
