use sidecar_supervisor::digits::u64_to_dec;
use sidecar_supervisor::health::health_report;
use sidecar_supervisor::relay::{relay_action, trim_trailing_ws, OutputEvent, RelayAction};

#[test]
fn trim_removes_trailing_whitespace() {
    assert_eq!(trim_trailing_ws(b"hello \r\n"), b"hello");
    assert_eq!(trim_trailing_ws(b"hello\t"), b"hello");
    assert_eq!(trim_trailing_ws(b"hello"), b"hello");
}

#[test]
fn trim_keeps_interior_whitespace() {
    assert_eq!(trim_trailing_ws(b"a b\tc \n"), b"a b\tc");
}

#[test]
fn trim_of_blank_lines_is_empty() {
    assert_eq!(trim_trailing_ws(b""), b"");
    assert_eq!(trim_trailing_ws(b" \t\r\n"), b"");
}

#[test]
fn stdout_lines_are_trimmed_to_the_info_sink() {
    let action = relay_action(&OutputEvent::StdoutLine(b"listening on 8556\n".to_vec()));
    assert_eq!(action, RelayAction::LogInfo(b"listening on 8556".to_vec()));
}

#[test]
fn stderr_lines_go_to_the_warning_sink_as_emitted() {
    let action = relay_action(&OutputEvent::StderrLine(b"deprecation warning\n".to_vec()));
    assert_eq!(action, RelayAction::LogWarn(b"deprecation warning\n".to_vec()));
}

#[test]
fn termination_is_reported_with_the_exit_code() {
    let action = relay_action(&OutputEvent::Terminated(Some(1)));
    assert_eq!(action, RelayAction::ReportTermination(Some(1)));
    let killed = relay_action(&OutputEvent::Terminated(None));
    assert_eq!(killed, RelayAction::ReportTermination(None));
}

#[test]
fn other_events_are_ignored() {
    assert_eq!(relay_action(&OutputEvent::Other), RelayAction::Ignore);
}

#[test]
fn decimal_rendering() {
    assert_eq!(u64_to_dec(0), "0");
    assert_eq!(u64_to_dec(7), "7");
    assert_eq!(u64_to_dec(10), "10");
    assert_eq!(u64_to_dec(8556), "8556");
    assert_eq!(u64_to_dec(u64::MAX), "18446744073709551615");
}

#[test]
fn health_report_exact_record() {
    assert_eq!(health_report(8556, 200), "{\"status\":\"ok\",\"port\":8556,\"statusCode\":200}");
    assert_eq!(health_report(80, 503), "{\"status\":\"ok\",\"port\":80,\"statusCode\":503}");
}
