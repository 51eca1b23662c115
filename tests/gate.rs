use sidecar_supervisor::checks::{CheckResult, Severity};
use sidecar_supervisor::readiness::{route_call, BackendCall, ReadinessState};
use sidecar_supervisor::report::{build_report, Status};

fn report(passed: bool) -> sidecar_supervisor::report::DiagnosticsReport {
    let c = CheckResult {
        name: "ram".to_string(),
        passed,
        message: String::new(),
        severity: if passed { Severity::Info } else { Severity::Error },
    };
    build_report(vec![c], 0).ok().unwrap()
}

#[test]
fn fresh_state_is_closed() {
    let s = ReadinessState::new();
    assert!(!s.is_ready());
    let (gate, rep) = s.get();
    assert!(!gate);
    assert!(rep.is_none());
}

#[test]
fn gate_follows_latest_report() {
    let mut s = ReadinessState::new();
    s.set(report(true));
    assert!(s.is_ready());
    s.set(report(false));
    let (gate, rep) = s.get();
    assert!(!gate);
    assert_eq!(rep.as_ref().unwrap().status, Status::Error);
}

#[test]
fn gated_call_refused_while_closed() {
    let s = ReadinessState::new();
    assert_eq!(
        route_call(&s, BackendCall::Evaluate, "http://127.0.0.1:8000"),
        Err("Preflight checks failed - run diagnostics first".to_string())
    );
    assert_eq!(
        route_call(&s, BackendCall::Mutate, "http://127.0.0.1:8000"),
        Err("Preflight checks failed".to_string())
    );
}

#[test]
fn gated_call_routed_while_open() {
    let mut s = ReadinessState::new();
    s.set(report(true));
    assert_eq!(
        route_call(&s, BackendCall::Evaluate, "http://127.0.0.1:8000"),
        Ok("http://127.0.0.1:8000/evaluate".to_string())
    );
}

#[test]
fn ungated_call_routed_while_closed() {
    let s = ReadinessState::new();
    assert_eq!(
        route_call(&s, BackendCall::TelemetryMetrics, "http://h"),
        Ok("http://h/telemetry/metrics".to_string())
    );
    assert_eq!(route_call(&s, BackendCall::WorkflowDag, "http://h"), Ok("http://h/workflow/dag".to_string()));
}

#[test]
fn failure_messages_of_calls() {
    assert_eq!(BackendCall::Evaluate.failure_text(), None);
    assert_eq!(BackendCall::Mutate.failure_text(), Some("Mutation request failed"));
    assert_eq!(BackendCall::WorkflowDag.failure_text(), Some("Failed to get workflow DAG"));
    assert!(BackendCall::Evaluate.long_running());
    assert!(!BackendCall::TelemetryMetrics.long_running());
}
