use sidecar_supervisor::text::decimal;
use sidecar_supervisor::checks::{
    backend_check, disk_check, gib, missing_models, models_check, ollama_check, ram_check,
    CheckResult, ModelListing, Severity, GIB,
};
use sidecar_supervisor::diagnostics::{default_config, run_diagnostics, Observations};
use sidecar_supervisor::inventory::listing_from_response;
use sidecar_supervisor::readiness::ReadinessState;
use sidecar_supervisor::report::{aggregate_status, build_report, Status};

fn check(name: &str, passed: bool, severity: Severity) -> CheckResult {
    CheckResult { name: name.to_string(), passed, message: String::new(), severity }
}

fn strings(items: &[&str]) -> Vec<String> {
    items.iter().map(|s| s.to_string()).collect()
}

#[test]
fn all_passed_is_okay() {
    let checks = vec![check("a", true, Severity::Info), check("b", true, Severity::Warning)];
    assert_eq!(aggregate_status(&checks), Status::Okay);
}

#[test]
fn empty_check_set_is_okay() {
    assert_eq!(aggregate_status(&Vec::new()), Status::Okay);
}

#[test]
fn one_warning_none_failed_is_warning() {
    let checks = vec![
        check("ram", true, Severity::Info),
        check("disk", true, Severity::Info),
        check("ollama", true, Severity::Info),
        check("models", true, Severity::Info),
        check("backend", false, Severity::Warning),
    ];
    assert_eq!(aggregate_status(&checks), Status::Warning);
}

#[test]
fn failed_error_gives_error() {
    let checks = vec![
        check("a", false, Severity::Warning),
        check("b", false, Severity::Error),
        check("c", true, Severity::Info),
    ];
    assert_eq!(aggregate_status(&checks), Status::Error);
}

#[test]
fn passed_error_severity_alone_is_not_error() {
    let checks = vec![check("a", true, Severity::Error), check("b", false, Severity::Warning)];
    assert_eq!(aggregate_status(&checks), Status::Warning);
}

#[test]
fn duplicate_names_are_refused() {
    let checks = vec![check("ram", true, Severity::Info), check("x", true, Severity::Info), check("ram", false, Severity::Error)];
    match build_report(checks, 7) {
        Err(name) => assert_eq!(name, "ram"),
        Ok(_) => panic!("duplicate names accepted"),
    }
}

#[test]
fn report_keeps_checks_and_time() {
    let checks = vec![check("a", true, Severity::Info), check("b", false, Severity::Error)];
    let rep = build_report(checks, 1700000000).ok().unwrap();
    assert_eq!(rep.status, Status::Error);
    assert_eq!(rep.timestamp, 1700000000);
    assert_eq!(rep.checks.len(), 2);
    assert_eq!(rep.checks[1].name, "b");
}

#[test]
fn gib_formats_two_decimals() {
    assert_eq!(gib(0), "0.00");
    assert_eq!(gib(GIB * 3 / 2), "1.50");
    assert_eq!(gib(10 * GIB), "10.00");
    assert_eq!(gib(GIB / 3), "0.33");
}

#[test]
fn ram_check_below_minimum_fails_with_error() {
    let r = ram_check(GIB, 2 * GIB);
    assert_eq!(r.name, "ram");
    assert!(!r.passed);
    assert_eq!(r.severity, Severity::Error);
    assert_eq!(r.message, "Available RAM: 1.00 GB (required: 2.00 GB)");
}

#[test]
fn ram_check_at_minimum_passes() {
    let r = ram_check(2 * GIB, 2 * GIB);
    assert!(r.passed);
    assert_eq!(r.severity, Severity::Info);
    assert_eq!(r.message, "Available RAM: 2.00 GB (required: 2.00 GB)");
}

#[test]
fn disk_check_always_passes() {
    let r = disk_check(5 * GIB);
    assert!(r.passed);
    assert_eq!(r.severity, Severity::Info);
    assert_eq!(r.message, "Disk space check passed (>= 5.00 GB)");
}

#[test]
fn ollama_check_needs_success_status() {
    let base = "http://127.0.0.1:11434";
    let ok = ollama_check(base, Some(200));
    assert!(ok.passed);
    assert_eq!(ok.message, "Ollama service is running");
    let redirect = ollama_check(base, Some(302));
    assert!(!redirect.passed);
    assert_eq!(redirect.severity, Severity::Error);
    let down = ollama_check(base, None);
    assert_eq!(down.message, "Ollama service not reachable at http://127.0.0.1:11434");
}

#[test]
fn backend_check_failure_is_error() {
    let r = backend_check("http://127.0.0.1:8000", Some(503));
    assert_eq!(r.name, "backend");
    assert!(!r.passed);
    assert_eq!(r.severity, Severity::Error);
    assert_eq!(backend_check("http://127.0.0.1:8000", None).severity, Severity::Error);
    assert_eq!(r.message, "Backend services not reachable at http://127.0.0.1:8000");
    assert!(backend_check("http://127.0.0.1:8000", Some(204)).passed);
}

#[test]
fn missing_models_matches_by_substring() {
    let names = strings(&["deepseek-r1:14b-q4", "llama3:8b"]);
    let required = strings(&["deepseek-r1:14b", "qwen2.5-coder:7b"]);
    assert_eq!(missing_models(&names, &required), strings(&["qwen2.5-coder:7b"]));
    assert_eq!(missing_models(&names, &Vec::new()), Vec::<String>::new());
}

#[test]
fn models_check_reports_missing_entries() {
    let required = strings(&["deepseek-r1:14b", "qwen2.5-coder:7b"]);
    let listing = ModelListing::Names(strings(&["deepseek-r1:14b"]));
    let r = models_check(&listing, &required);
    assert!(!r.passed);
    assert_eq!(r.severity, Severity::Error);
    assert_eq!(r.message, "Missing models: [\"qwen2.5-coder:7b\"]");
    let all = ModelListing::Names(strings(&["deepseek-r1:14b", "qwen2.5-coder:7b"]));
    let ok = models_check(&all, &required);
    assert!(ok.passed);
    assert_eq!(ok.message, "All required models present: [\"deepseek-r1:14b\", \"qwen2.5-coder:7b\"]");
}

#[test]
fn models_check_without_listing_fails() {
    let required = strings(&["a"]);
    let down = models_check(&ModelListing::Unreachable, &required);
    assert_eq!(down.message, "Cannot check models - Ollama not running");
    let bad = models_check(&ModelListing::Unreadable, &required);
    assert!(!bad.passed);
    assert_eq!(bad.message, "Failed to parse Ollama models list");
}

#[test]
fn inventory_names_are_read() {
    let body = r#"{"models":[{"name":"deepseek-r1:14b"},{"size":3},{"name":"qwen2.5-coder:7b"}]}"#;
    match listing_from_response(Some(200), body) {
        ModelListing::Names(n) => assert_eq!(n, strings(&["deepseek-r1:14b", "qwen2.5-coder:7b"])),
        other => panic!("unexpected {:?}", other),
    }
}

#[test]
fn inventory_without_models_is_empty() {
    match listing_from_response(Some(200), "{\"other\": 1}") {
        ModelListing::Names(n) => assert!(n.is_empty()),
        other => panic!("unexpected {:?}", other),
    }
}

#[test]
fn inventory_not_json_is_unreadable() {
    assert!(matches!(listing_from_response(Some(200), "not json"), ModelListing::Unreadable));
    assert!(matches!(listing_from_response(Some(404), "{}"), ModelListing::Unreachable));
    assert!(matches!(listing_from_response(None, ""), ModelListing::Unreachable));
}

#[test]
fn run_diagnostics_stores_report_and_gate() {
    let config = default_config();
    let mut state = ReadinessState::new();
    let obs = Observations {
        available_memory_bytes: 8 * GIB,
        inference_status: Some(200),
        inventory: ModelListing::Names(strings(&["deepseek-r1:14b", "qwen2.5-coder:7b"])),
        backend_status: Some(200),
    };
    assert_eq!(run_diagnostics(&mut state, &config, obs, 42), Status::Okay);
    assert!(state.is_ready());
    let (gate, rep) = state.get();
    assert!(gate);
    let rep = rep.as_ref().unwrap();
    assert_eq!(rep.timestamp, 42);
    let names: Vec<&str> = rep.checks.iter().map(|c| c.name.as_str()).collect();
    assert_eq!(names, vec!["ram", "disk", "ollama", "models", "backend"]);
}

#[test]
fn run_diagnostics_backend_down_is_error() {
    let config = default_config();
    let mut state = ReadinessState::new();
    let obs = Observations {
        available_memory_bytes: 8 * GIB,
        inference_status: Some(200),
        inventory: ModelListing::Names(strings(&["deepseek-r1:14b", "qwen2.5-coder:7b"])),
        backend_status: None,
    };
    assert_eq!(run_diagnostics(&mut state, &config, obs, 1), Status::Error);
    assert!(!state.is_ready());
}

#[test]
fn run_diagnostics_low_memory_is_error() {
    let config = default_config();
    let mut state = ReadinessState::new();
    let obs = Observations {
        available_memory_bytes: GIB,
        inference_status: Some(200),
        inventory: ModelListing::Names(strings(&["deepseek-r1:14b", "qwen2.5-coder:7b"])),
        backend_status: Some(200),
    };
    assert_eq!(run_diagnostics(&mut state, &config, obs, 1), Status::Error);
    assert!(!state.get().0);
}

#[test]
fn models_check_from_body_names_missing_model() {
    let required = strings(&["deepseek-r1:14b", "qwen2.5-coder:7b"]);
    let body = r#"{"models":[{"name":"deepseek-r1:14b"},{"name":"llama3:8b"}]}"#;
    let r = models_check(&listing_from_response(Some(200), body), &required);
    assert!(!r.passed);
    assert_eq!(r.severity, Severity::Error);
    assert_eq!(r.message, "Missing models: [\"qwen2.5-coder:7b\"]");
}

#[test]
fn models_check_from_body_matches_by_substring() {
    let required = strings(&["deepseek-r1:14b"]);
    let body = r#"{"models":[{"name":"deepseek-r1:14b-q4_K_M","size":9}]}"#;
    let r = models_check(&listing_from_response(Some(200), body), &required);
    assert!(r.passed);
    assert_eq!(r.severity, Severity::Info);
}

#[test]
fn inventory_skips_entries_without_string_name() {
    let body = r#"{"models":[1,"x",{"name":5},{"name":null},{"tag":"a","name":"b"}],"name":"top"}"#;
    match listing_from_response(Some(201), body) {
        ModelListing::Names(n) => assert_eq!(n, strings(&["b"])),
        other => panic!("unexpected {:?}", other),
    }
}

#[test]
fn inventory_models_not_an_array_is_empty() {
    for body in [r#"{"models":{"name":"a"}}"#, "[1, 2]", "\"text\"", "null"] {
        match listing_from_response(Some(200), body) {
            ModelListing::Names(n) => assert!(n.is_empty()),
            other => panic!("unexpected {:?}", other),
        }
    }
}

#[test]
fn decimal_writes_digits() {
    assert_eq!(decimal(0), "0");
    assert_eq!(decimal(7), "7");
    assert_eq!(decimal(1070), "1070");
    assert_eq!(decimal(u64::MAX), "18446744073709551615");
}
