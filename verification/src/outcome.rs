use vstd::prelude::*;

verus! {

/// The result of one request's passage through the pipeline, produced once
/// per request and consumed exactly once by the classifier and the trace
/// recorder.
pub enum PipelineOutcome {
    /// The handler finished within its deadline; its own status and body
    /// pass through unchanged.
    Success { status: u16, body: String },
    /// The admission controller turned the request away before the handler
    /// ran at all.
    Rejected,
    /// The handler overran its deadline; its result was abandoned.
    TimedOut,
    /// The handler failed for a reason the pipeline does not classify
    /// further.
    Failed,
}

/// The status a classified outcome maps to: a total, deterministic table.
/// Anything unclassified falls into the 500 bucket; no raw internal error
/// ever reaches the caller.
pub open spec fn classify_spec(o: PipelineOutcome) -> u16 {
    match o {
        PipelineOutcome::Success { status, .. } => status,
        PipelineOutcome::TimedOut => 408,
        PipelineOutcome::Rejected => 429,
        PipelineOutcome::Failed => 500,
    }
}

/// The body the caller sees for an outcome: the handler's own body on
/// success, empty otherwise — no internal error text leaks into the body.
pub open spec fn body_spec(o: PipelineOutcome) -> Seq<char> {
    match o {
        PipelineOutcome::Success { body, .. } => body@,
        _ => Seq::<char>::empty(),
    }
}

/// Maps a pipeline outcome to the status the caller sees.
pub fn classify(outcome: &PipelineOutcome) -> (status: u16)
    ensures
        status == classify_spec(*outcome),
{
    match outcome {
        PipelineOutcome::Success { status, .. } => *status,
        PipelineOutcome::TimedOut => 408,
        PipelineOutcome::Rejected => 429,
        PipelineOutcome::Failed => 500,
    }
}

/// Law: the classification is total and deterministic — a timeout maps to
/// 408, an admission rejection to 429, an unclassified failure to 500, and a
/// success passes the handler's own status through.
pub proof fn lemma_classifier_total(o: PipelineOutcome)
    ensures
        o matches PipelineOutcome::Success { status, .. } ==> classify_spec(o) == status,
        o is TimedOut ==> classify_spec(o) == 408,
        o is Rejected ==> classify_spec(o) == 429,
        o is Failed ==> classify_spec(o) == 500,
{
}

} // verus!
