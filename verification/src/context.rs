use vstd::prelude::*;

verus! {

/// Per-request value created at pipeline entry and destroyed once the
/// response is fully sent. It is owned by the single request's execution and
/// never shared across requests.
pub struct RequestContext {
    /// The request's unique, time-sortable identifier.
    pub id: String,
    /// The route the request was dispatched to, recorded for tracing.
    pub route: String,
    /// When the pipeline first saw the request, by the injected clock, in
    /// milliseconds.
    pub start_ms: u64,
}

impl RequestContext {
    /// A context for a request entering the pipeline now.
    pub fn new(id: String, route: String, start_ms: u64) -> (ctx: RequestContext)
        ensures
            ctx.id@ == id@,
            ctx.route@ == route@,
            ctx.start_ms == start_ms,
    {
        RequestContext { id, route, start_ms }
    }
}

} // verus!
