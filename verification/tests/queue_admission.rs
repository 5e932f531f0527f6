use llama_sidecar::queue::InferenceQueue;
use llama_sidecar::request::InferenceRequest;

fn request(prompt: &str) -> InferenceRequest {
    InferenceRequest {
        prompt: prompt.to_string(),
        max_tokens: 16,
        temperature: 7,
        stop_tokens: Vec::new(),
        stream: false,
    }
}

#[test]
fn three_submissions_never_exceed_cap_of_two() {
    let mut q = InferenceQueue::new(2);
    let id1 = q.enqueue(request("one"));
    let id2 = q.enqueue(request("two"));
    let id3 = q.enqueue(request("three"));
    assert!(id1 < id2 && id2 < id3);
    assert_eq!(q.active_count(), 0);
    assert!(q.can_accept());

    let t1 = q.start_next().expect("first task starts at once");
    assert_eq!(t1.id, id1);
    assert_eq!(q.active_count(), 1);
    assert!(q.can_accept());

    let t2 = q.start_next().expect("second task starts at once");
    assert_eq!(t2.id, id2);
    assert_eq!(q.active_count(), 2);
    assert!(!q.can_accept());

    // the cap is reached: the third task must wait, however long it queued
    assert!(q.start_next().is_none());
    assert_eq!(q.active_count(), 2);

    // only once one of the first two completes does the third begin
    q.finish_task();
    assert_eq!(q.active_count(), 1);
    let t3 = q.start_next().expect("third task starts after a slot freed");
    assert_eq!(t3.id, id3);
    assert_eq!(t3.request.prompt, "three");
    assert_eq!(q.active_count(), 2);

    q.finish_task();
    q.finish_task();
    assert_eq!(q.active_count(), 0);
}

#[test]
fn fifo_admission_order() {
    let mut q = InferenceQueue::new(1);
    let a = q.enqueue(request("a"));
    let b = q.enqueue(request("b"));
    let c = q.enqueue(request("c"));
    let mut seen = Vec::new();
    while let Some(t) = q.start_next() {
        seen.push(t.id);
        q.finish_task();
    }
    assert_eq!(seen, vec![a, b, c]);
}

#[test]
fn cancel_before_dispatch_drops_task() {
    let mut q = InferenceQueue::new(1);
    let a = q.enqueue(request("a"));
    let b = q.enqueue(request("b"));
    assert!(q.cancel_pending(a));
    assert_eq!(q.active_count(), 0, "cancellation has no side effects");
    let t = q.start_next().expect("the other task still runs");
    assert_eq!(t.id, b);
    assert!(!q.cancel_pending(a), "a ticket cancels at most once");
    assert!(!q.cancel_pending(b), "a started task cannot be cancelled");
}

#[test]
fn zero_cap_admits_nothing() {
    let mut q = InferenceQueue::new(0);
    q.enqueue(request("stuck"));
    assert!(!q.can_accept());
    assert!(q.start_next().is_none());
    assert_eq!(q.active_count(), 0);
}

#[test]
fn failed_execution_still_frees_slot() {
    let mut q = InferenceQueue::new(2);
    q.enqueue(request("will fail"));
    let before = q.active_count();
    q.start_next().expect("task starts");
    assert_eq!(q.active_count(), before + 1);
    // the execution failed; the slot is freed all the same
    q.finish_task();
    assert_eq!(q.active_count(), before);
    // and a fresh request is unaffected
    q.enqueue(request("fresh"));
    assert!(q.start_next().is_some());
}
