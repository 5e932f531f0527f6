use llama_sidecar::config::{LlamaConfig, ModelSize};
use llama_sidecar::errors::SidecarError;
use llama_sidecar::manager::{check_and_switch_model, LlamaSidecar, SidecarPhase, StartStep};
use llama_sidecar::probe::{health_verdict, HealthProbe, ProbeVerdict};

fn test_config(port: u16) -> LlamaConfig {
    LlamaConfig {
        model_path: String::from("/models/test.gguf"),
        context_size: 4096,
        batch_size: 512,
        gpu_layers: -1,
        use_flash_attn: true,
        threads: 8,
        port,
        temp: 7,
        repeat_penalty: 11,
    }
}

/// Drives one start flow with a well-behaved fake process: the binary
/// exists, the spawn succeeds, and the health probe answers in time.
/// `currently_healthy` is what the liveness endpoint would answer now.
fn start_happy(m: &mut LlamaSidecar, pid: u64, currently_healthy: bool) {
    let running = m.is_running(false, currently_healthy);
    assert!(!running || m.process.is_some());
    if running {
        assert!(matches!(
            m.start_decision(running, true),
            StartStep::AlreadyRunning
        ));
        return;
    }
    match m.start_decision(running, true) {
        StartStep::Spawn(args) => assert!(args.len() >= 19),
        _ => panic!("expected a spawn decision"),
    }
    m.on_spawned(pid);
    assert!(matches!(m.phase, SidecarPhase::Starting));
    let mut probe = HealthProbe::new(60_000, 500);
    let mut ready = false;
    loop {
        match probe.poll(Some(200)) {
            ProbeVerdict::Ready => {
                ready = true;
                break;
            }
            ProbeVerdict::RetryAfterInterval => continue,
            ProbeVerdict::TimedOut => break,
        }
    }
    assert!(m.on_health_result(ready).is_ok());
}

#[test]
fn fresh_manager_start_reaches_healthy() {
    let mut m = LlamaSidecar::new(test_config(8080));
    assert!(matches!(m.phase, SidecarPhase::Stopped));
    assert!(m.process.is_none());
    start_happy(&mut m, 4242, false);
    assert!(matches!(m.phase, SidecarPhase::Healthy));
    assert_eq!(m.process, Some(4242));
}

#[test]
fn external_kill_makes_is_running_false() {
    let mut m = LlamaSidecar::new(test_config(8080));
    start_happy(&mut m, 77, false);
    assert!(matches!(m.phase, SidecarPhase::Healthy));
    // the process dies outside the manager; no stop() ever cleared the handle
    let running = m.is_running(true, false);
    assert!(!running);
    assert!(matches!(m.phase, SidecarPhase::Crashed));
    assert_eq!(m.process, Some(77), "the stale handle outlives the process");
}

#[test]
fn double_start_keeps_process_identity() {
    let mut m = LlamaSidecar::new(test_config(8080));
    start_happy(&mut m, 1001, false);
    let first_pid = m.process;
    // a second start while healthy: liveness holds, so the flow is a no-op
    let running = m.is_running(false, true);
    assert!(running);
    assert!(matches!(
        m.start_decision(running, true),
        StartStep::AlreadyRunning
    ));
    start_happy(&mut m, 2002, true);
    assert_eq!(m.process, first_pid, "no second process was spawned");
}

#[test]
fn missing_binary_fails_start() {
    let m = LlamaSidecar::new(test_config(8080));
    assert!(matches!(
        m.start_decision(false, false),
        StartStep::MissingBinary
    ));
}

#[test]
fn health_timeout_leaves_process_running() {
    let mut m = LlamaSidecar::new(test_config(8080));
    m.on_spawned(55);
    let r = m.on_health_result(false);
    assert!(matches!(r, Err(SidecarError::HealthTimeout)));
    assert!(matches!(m.phase, SidecarPhase::Starting));
    assert_eq!(m.process, Some(55), "the process is left running");
    // a subsequent stop can clean the wedged process up
    assert_eq!(m.stop_begin(), Some(55));
    assert!(m.on_stop_result(true).is_ok());
    assert!(matches!(m.phase, SidecarPhase::Stopped));
    assert!(m.process.is_none());
}

#[test]
fn stop_without_process_is_noop() {
    let m = LlamaSidecar::new(test_config(8080));
    assert_eq!(m.stop_begin(), None);
}

#[test]
fn failed_signal_is_surfaced() {
    let mut m = LlamaSidecar::new(test_config(8080));
    m.on_spawned(9);
    let r = m.on_stop_result(false);
    assert!(matches!(r, Err(SidecarError::Process(_))));
    // the handle is cleared even so
    assert!(m.process.is_none());
    assert!(matches!(m.phase, SidecarPhase::Stopped));
}

#[test]
fn reconfigure_switches_endpoint() {
    let mut m = LlamaSidecar::new(test_config(8080));
    assert_eq!(m.get_server_url(), "http://127.0.0.1:8080");
    m.reconfigure(test_config(9090));
    assert_eq!(m.get_server_url(), "http://127.0.0.1:9090");
    assert_eq!(m.get_config().port, 9090);
}

#[test]
fn probe_times_out_after_bounded_wait() {
    let mut probe = HealthProbe::new(1000, 500);
    assert!(matches!(probe.poll(None), ProbeVerdict::RetryAfterInterval));
    assert!(matches!(
        probe.poll(Some(503)),
        ProbeVerdict::RetryAfterInterval
    ));
    // the bounded wait has elapsed; even a healthy reply comes too late
    assert!(matches!(probe.poll(Some(200)), ProbeVerdict::TimedOut));
}

#[test]
fn probe_ready_on_200_only() {
    assert!(health_verdict(Some(200)));
    assert!(!health_verdict(Some(500)));
    assert!(!health_verdict(Some(404)));
    assert!(!health_verdict(None));
    let mut probe = HealthProbe::new(60_000, 500);
    assert!(matches!(probe.poll(Some(200)), ProbeVerdict::Ready));
}

#[test]
fn model_switch_follows_battery() {
    assert_eq!(check_and_switch_model(10, true), ModelSize::Small);
    assert_eq!(check_and_switch_model(10, false), ModelSize::Large);
    assert_eq!(check_and_switch_model(80, true), ModelSize::Large);
    assert_eq!(check_and_switch_model(20, true), ModelSize::Large);
}

#[test]
fn status_reports_configuration() {
    let mut m = LlamaSidecar::new(test_config(8080));
    start_happy(&mut m, 5, false);
    let running = m.is_running(false, true);
    let status = m.status(running, ModelSize::Medium);
    assert!(status.is_running);
    assert_eq!(status.server_url, "http://127.0.0.1:8080");
    assert_eq!(status.model_path, "/models/test.gguf");
    assert_eq!(status.port, 8080);
    assert_eq!(status.model_size, ModelSize::Medium);
    assert_eq!(status.gpu_layers, -1);
    assert_eq!(status.memory_usage, None);
    let dto = status.to_dto(Some(ModelSize::Medium));
    assert_eq!(dto.model_size, "medium");
    assert!(dto.is_running);
}

#[test]
fn probe_recovers_after_startup_window() {
    // the child has forked but not bound its port yet: transport failures
    // and error statuses are "not yet ready", never fatal
    let mut probe = HealthProbe::new(60_000, 500);
    assert!(matches!(probe.poll(None), ProbeVerdict::RetryAfterInterval));
    assert!(matches!(probe.poll(None), ProbeVerdict::RetryAfterInterval));
    assert!(matches!(
        probe.poll(Some(500)),
        ProbeVerdict::RetryAfterInterval
    ));
    assert!(matches!(probe.poll(Some(200)), ProbeVerdict::Ready));
}
