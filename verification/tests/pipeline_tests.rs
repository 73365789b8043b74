use http_pipeline::deadline::HandlerEvent;
use http_pipeline::pipeline::{BeginOutcome, Pipeline};

const LIMIT: usize = 2;
const BUDGET_MS: u64 = 10_000;

fn ok_event(work_ms: u64) -> HandlerEvent {
    HandlerEvent::Completed { work_ms, status: 200, body: String::new() }
}

#[test]
fn healthcheck_returns_200_empty() {
    let mut p = Pipeline::new(LIMIT, BUDGET_MS);
    let (resp, span) = p.process(
        None,
        String::from("01HEALTHCHECKAAAAAAAAAAAAA"),
        String::from("/healthcheck"),
        1_000,
        ok_event(0),
        1_000,
    );
    assert_eq!(resp.status, 200);
    assert_eq!(resp.body, "");
    assert!(span.closed);
    assert_eq!(span.outcome_status, 200);
    assert_eq!(p.admission.active_count(), 0);
}

#[test]
fn timeout_route_returns_408() {
    let mut p = Pipeline::new(LIMIT, BUDGET_MS);
    let (resp, _span) = p.process(
        None,
        String::from("01TIMEOUTAAAAAAAAAAAAAAAAA"),
        String::from("/timeout"),
        0,
        ok_event(20_000),
        20_000,
    );
    assert_eq!(resp.status, 408);
    assert_eq!(resp.body, "");
}

#[test]
fn handler_failure_returns_500() {
    let mut p = Pipeline::new(LIMIT, BUDGET_MS);
    let (resp, _span) = p.process(
        None,
        String::from("01FAILUREAAAAAAAAAAAAAAAAA"),
        String::from("/upload"),
        0,
        HandlerEvent::Failed { work_ms: 1_000 },
        1_000,
    );
    assert_eq!(resp.status, 500);
    assert_eq!(resp.body, "");
}

#[test]
fn saturation_yields_429() {
    let mut p = Pipeline::new(LIMIT, BUDGET_MS);
    let mut admitted = Vec::new();
    let mut rejected = 0;
    for i in 0..3 {
        let entered = p.begin(
            None,
            format!("01DELAYAAAAAAAAAAAAAAAAA{:02}", i),
            String::from("/delay"),
            0,
        );
        match entered {
            BeginOutcome::Admitted { ctx, span, token } => admitted.push((ctx, span, token)),
            BeginOutcome::Rejected { response, span } => {
                assert_eq!(response.status, 429);
                assert_eq!(response.body, "");
                assert!(span.closed);
                assert_eq!(span.outcome_status, 429);
                rejected += 1;
            }
        }
    }
    assert_eq!(admitted.len(), 2);
    assert_eq!(rejected, 1);
    assert_eq!(p.admission.active_count(), 2);
    for (ctx, span, token) in admitted {
        let (resp, _span) = p.finish(ctx, span, token, ok_event(5_000), 5_000);
        assert_eq!(resp.status, 200);
    }
    assert_eq!(p.admission.active_count(), 0);
}

#[test]
fn inbound_id_is_propagated() {
    let mut p = Pipeline::new(LIMIT, BUDGET_MS);
    let (resp, span) = p.process(
        Some(String::from("abc")),
        String::from("01GENERATEDAAAAAAAAAAAAAAA"),
        String::from("/healthcheck"),
        0,
        ok_event(0),
        0,
    );
    assert_eq!(resp.request_id, "abc");
    assert_eq!(span.request_id, "abc");
}

#[test]
fn inbound_id_is_propagated_on_rejection() {
    let mut p = Pipeline::new(0, BUDGET_MS);
    let (resp, span) = p.process(
        Some(String::from("abc")),
        String::from("01GENERATEDAAAAAAAAAAAAAAA"),
        String::from("/delay"),
        0,
        ok_event(0),
        0,
    );
    assert_eq!(resp.status, 429);
    assert_eq!(resp.request_id, "abc");
    assert_eq!(span.request_id, "abc");
}

#[test]
fn generated_id_used_when_absent() {
    let mut p = Pipeline::new(LIMIT, BUDGET_MS);
    let (resp, _span) = p.process(
        None,
        String::from("01GENERATEDAAAAAAAAAAAAAAA"),
        String::from("/healthcheck"),
        0,
        ok_event(0),
        0,
    );
    assert_eq!(resp.request_id, "01GENERATEDAAAAAAAAAAAAAAA");
}

#[test]
fn budget_recovers_after_timeouts() {
    let mut p = Pipeline::new(LIMIT, BUDGET_MS);
    for i in 0..5 {
        let (resp, _span) = p.process(
            None,
            format!("01TIMEOUTAAAAAAAAAAAAAAA{:02}", i),
            String::from("/timeout"),
            0,
            ok_event(20_000),
            20_000,
        );
        assert_eq!(resp.status, 408);
        assert_eq!(p.admission.active_count(), 0);
    }
}

#[test]
fn token_released_on_failure() {
    let mut p = Pipeline::new(LIMIT, BUDGET_MS);
    let (resp, _span) = p.process(
        None,
        String::from("01FAILUREAAAAAAAAAAAAAAAAA"),
        String::from("/upload"),
        0,
        HandlerEvent::Failed { work_ms: 100 },
        100,
    );
    assert_eq!(resp.status, 500);
    assert_eq!(p.admission.active_count(), 0);
}

#[test]
fn deadline_boundary_counts_as_success() {
    let mut p = Pipeline::new(LIMIT, BUDGET_MS);
    let (resp, _span) = p.process(
        None,
        String::from("01BOUNDARYAAAAAAAAAAAAAAAA"),
        String::from("/delay"),
        0,
        ok_event(BUDGET_MS),
        BUDGET_MS,
    );
    assert_eq!(resp.status, 200);
}
