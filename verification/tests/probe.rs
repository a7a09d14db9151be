use sidecar_supervisor::probe::{
    is_ready_status, parse_status_line, probe_step, run_probe, ProbeConfig, ProbeResult,
    ProbeState, StepVerdict,
};

fn cfg_300() -> ProbeConfig {
    ProbeConfig { max_attempts: 300, interval_ms: 300, per_attempt_timeout_ms: 3000 }
}

#[test]
fn ready_status_boundaries() {
    assert!(!is_ready_status(199));
    assert!(is_ready_status(200));
    assert!(is_ready_status(204));
    assert!(is_ready_status(301));
    assert!(is_ready_status(399));
    assert!(!is_ready_status(400));
    assert!(!is_ready_status(404));
    assert!(!is_ready_status(500));
}

#[test]
fn ready_on_fifth_attempt_after_four_intervals() {
    // The service starts answering 200 OK on attempt 5: the probe returns
    // Ready after exactly 5 attempts, having waited 4 intervals.
    let cfg = cfg_300();
    let mut responses: Vec<Option<u16>> = vec![None; 300];
    responses[4] = Some(200);
    match run_probe(&cfg, 8556, &responses) {
        ProbeResult::Ready { attempts, elapsed_ms } => {
            assert_eq!(attempts, 5);
            assert_eq!(elapsed_ms, 4 * 300);
        }
        other => panic!("expected Ready, got {:?}", other),
    }
}

#[test]
fn ready_immediately_ignores_later_attempts() {
    // Success on attempt 1 returns at once; the rest of the budget is unused.
    let cfg = cfg_300();
    let mut responses: Vec<Option<u16>> = vec![None; 300];
    responses[0] = Some(302);
    match run_probe(&cfg, 8556, &responses) {
        ProbeResult::Ready { attempts, elapsed_ms } => {
            assert_eq!(attempts, 1);
            assert_eq!(elapsed_ms, 0);
        }
        other => panic!("expected Ready, got {:?}", other),
    }
}

#[test]
fn never_ready_times_out_after_budget() {
    // The service never starts: 300 attempts at 300 ms come to roughly 90
    // seconds, and the message names the port and the attempt count.
    let cfg = cfg_300();
    let responses: Vec<Option<u16>> = vec![None; 300];
    match run_probe(&cfg, 8556, &responses) {
        ProbeResult::Timeout(t) => {
            assert_eq!(t.attempts, 300);
            assert_eq!(t.elapsed_ms, 90_000);
            assert_eq!(t.port, 8556);
            let msg = t.message();
            assert_eq!(msg, "Server not ready after 300 attempts (90s) on port 8556");
            assert!(msg.contains("8556"));
            assert!(msg.contains("300"));
        }
        other => panic!("expected Timeout, got {:?}", other),
    }
}

#[test]
fn error_statuses_do_not_count_as_ready() {
    let cfg = ProbeConfig { max_attempts: 3, interval_ms: 100, per_attempt_timeout_ms: 50 };
    let responses: Vec<Option<u16>> = vec![Some(500), Some(404), Some(199)];
    match run_probe(&cfg, 8080, &responses) {
        ProbeResult::Timeout(t) => {
            assert_eq!(t.attempts, 3);
            assert_eq!(t.elapsed_ms, 300);
            assert_eq!(t.port, 8080);
        }
        other => panic!("expected Timeout, got {:?}", other),
    }
}

#[test]
fn step_machine_accounts_attempt_costs_and_waits() {
    // Drive the step machine directly, as the runtime does, with nonzero
    // attempt costs: failures add cost plus interval, success only its cost.
    let cfg = ProbeConfig { max_attempts: 3, interval_ms: 300, per_attempt_timeout_ms: 3000 };
    let mut st = ProbeState::start();

    let v1 = probe_step(&cfg, &mut st, None, 1000);
    assert_eq!(v1, StepVerdict::Continue);
    assert_eq!(st.attempts_made, 1);
    assert_eq!(st.elapsed_ms, 1000 + 300);

    let v2 = probe_step(&cfg, &mut st, Some(503), 2000);
    assert_eq!(v2, StepVerdict::Continue);
    assert_eq!(st.attempts_made, 2);
    assert_eq!(st.elapsed_ms, 1300 + 2000 + 300);

    let v3 = probe_step(&cfg, &mut st, Some(200), 50);
    assert_eq!(v3, StepVerdict::Ready);
    assert_eq!(st.attempts_made, 3);
    assert_eq!(st.elapsed_ms, 3600 + 50);
}

#[test]
fn step_machine_never_exceeds_total_budget() {
    // Worst case: every attempt costs the full per-attempt timeout and
    // fails. The elapsed time stays within
    // max_attempts * (interval + per_attempt_timeout).
    let cfg = ProbeConfig { max_attempts: 10, interval_ms: 300, per_attempt_timeout_ms: 3000 };
    let mut st = ProbeState::start();
    let mut last = StepVerdict::Continue;
    for _ in 0..10 {
        last = probe_step(&cfg, &mut st, None, 3000);
        assert!(st.elapsed_ms <= 10 * (300 + 3000));
    }
    assert_eq!(last, StepVerdict::TimedOut);
    assert_eq!(st.attempts_made, 10);
    assert_eq!(st.elapsed_ms, 10 * (300 + 3000));
}

#[test]
fn status_line_parsing() {
    assert_eq!(parse_status_line(b"HTTP/1.1 200 OK"), Some(200));
    assert_eq!(parse_status_line(b"HTTP/1.1 301 Moved Permanently"), Some(301));
    assert_eq!(parse_status_line(b"HTTP/1.0 404"), Some(404));
    assert_eq!(parse_status_line(b"HTTP/1.1 5000"), None);
    assert_eq!(parse_status_line(b"HTTP/1.1 20"), None);
    assert_eq!(parse_status_line(b"HTTP/1.1 2x0 OK"), None);
    assert_eq!(parse_status_line(b"garbage"), None);
    assert_eq!(parse_status_line(b""), None);
}

#[test]
fn config_validity() {
    assert!(cfg_300().check_valid());
    let no_attempts = ProbeConfig { max_attempts: 0, interval_ms: 1, per_attempt_timeout_ms: 1 };
    assert!(!no_attempts.check_valid());
    let too_long = ProbeConfig {
        max_attempts: u32::MAX,
        interval_ms: u64::MAX,
        per_attempt_timeout_ms: 0,
    };
    assert!(!too_long.check_valid());
}

#[test]
fn timeout_message_exact_rendering() {
    let t = sidecar_supervisor::probe::ProbeTimeout { port: 65535, attempts: 1, elapsed_ms: 999 };
    assert_eq!(t.message(), "Server not ready after 1 attempts (0s) on port 65535");
}
