use llama_sidecar::client::{complete_outcome, embed_outcome, parse_string_list, HttpReply};
use llama_sidecar::errors::SidecarError;
use llama_sidecar::queue::InferenceQueue;
use llama_sidecar::request::InferenceRequest;

fn response(status: u16, body: &str) -> HttpReply {
    HttpReply::Response {
        status,
        body: body.to_string(),
    }
}

#[test]
fn successful_completion_carries_content_and_estimate() {
    let body = "{\"content\":\"An answer.\",\"timings\":{\"totalpredicted_per_token_ms\":34.56}}";
    let r = complete_outcome(response(200, body), 250).expect("success");
    assert_eq!(r.text, "An answer.");
    assert_eq!(r.tokens_generated, 34560, "the timing figure scaled by 1000");
    assert_eq!(r.inference_time_ms, 250);
}

#[test]
fn completion_without_timings_counts_zero_tokens() {
    let body = "{\"content\":\"bare\"}";
    let r = complete_outcome(response(200, body), 1).expect("success");
    assert_eq!(r.text, "bare");
    assert_eq!(r.tokens_generated, 0);
}

#[test]
fn integral_timing_scales_exactly() {
    let body = "{\"content\":\"x\",\"timings\":{\"totalpredicted_per_token_ms\":7}}";
    let r = complete_outcome(response(200, body), 0).expect("success");
    assert_eq!(r.tokens_generated, 7000);
}

#[test]
fn http_500_yields_inference_error_and_queue_recovers() {
    let mut q = InferenceQueue::new(2);
    q.enqueue(InferenceRequest {
        prompt: "p".to_string(),
        max_tokens: 8,
        temperature: 7,
        stop_tokens: Vec::new(),
        stream: false,
    });
    let before = q.active_count();
    let task = q.start_next().expect("task starts");
    assert_eq!(task.request.prompt, "p");

    let r = complete_outcome(response(500, "upstream broke"), 10);
    match r {
        Err(SidecarError::Inference { status, body }) => {
            assert_eq!(status, 500);
            assert_eq!(body, "upstream broke");
        }
        other => panic!("expected an inference error, got {:?}", other),
    }
    // the failure is scoped to its request: the slot is freed ...
    q.finish_task();
    assert_eq!(q.active_count(), before);
    // ... and an independent request afterwards still succeeds
    q.enqueue(InferenceRequest {
        prompt: "q".to_string(),
        max_tokens: 8,
        temperature: 7,
        stop_tokens: Vec::new(),
        stream: false,
    });
    q.start_next().expect("fresh task starts");
    let ok = complete_outcome(response(200, "{\"content\":\"fine\"}"), 5).expect("success");
    assert_eq!(ok.text, "fine");
    q.finish_task();
    assert_eq!(q.active_count(), before);
}

#[test]
fn unreachable_sidecar_is_transport_error() {
    assert!(matches!(
        complete_outcome(HttpReply::Unreachable, 0),
        Err(SidecarError::Transport)
    ));
    assert!(matches!(
        embed_outcome(HttpReply::Unreachable),
        Err(SidecarError::Transport)
    ));
}

#[test]
fn malformed_completion_body_is_protocol_error() {
    assert!(matches!(
        complete_outcome(response(200, "not json"), 0),
        Err(SidecarError::Protocol)
    ));
    assert!(matches!(
        complete_outcome(response(200, "{\"no_content\":1}"), 0),
        Err(SidecarError::Protocol)
    ));
}

#[test]
fn embedding_reports_vector_length() {
    let body = "{\"embedding\":[0.25,0.5,0.75]}";
    assert_eq!(embed_outcome(response(200, body)).expect("success"), 3);
}

#[test]
fn embedding_without_array_is_protocol_error() {
    assert!(matches!(
        embed_outcome(response(200, "{\"embedding\":\"oops\"}")),
        Err(SidecarError::Protocol)
    ));
    assert!(matches!(
        embed_outcome(response(200, "{}")),
        Err(SidecarError::Protocol)
    ));
    match embed_outcome(response(503, "busy")) {
        Err(SidecarError::Inference { status, .. }) => assert_eq!(status, 503),
        other => panic!("expected an inference error, got {:?}", other),
    }
}

#[test]
fn string_list_parses_or_fails_as_protocol() {
    let ok = parse_string_list("[\"math\",\"calculus\",\"derivatives\"]").expect("parses");
    assert_eq!(ok, vec!["math", "calculus", "derivatives"]);
    assert!(matches!(
        parse_string_list("{\"not\":\"an array\"}"),
        Err(SidecarError::Protocol)
    ));
    assert!(matches!(
        parse_string_list("[1,2,3]"),
        Err(SidecarError::Protocol)
    ));
}
