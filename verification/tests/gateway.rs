use unity_offices::diagnostics::{record_checks, AppState, CheckResult, Severity};
use unity_offices::error::OfficeError;
use unity_offices::gateway::{
    backend_answer, backend_request, decode_failure, BackendEndpoint, BackendOutcome,
    BackendRequest, HttpMethod, BACKEND_TIMEOUT_SECS,
};

fn pass() -> CheckResult {
    CheckResult { passed: true, message: String::new(), severity: Severity::Info }
}

fn passed_state() -> AppState {
    let mut state = AppState::new("http://127.0.0.1:8000".to_string());
    record_checks(&mut state, pass(), pass(), pass(), pass(), pass(), 0, 0);
    state
}

fn all_endpoints() -> Vec<BackendEndpoint> {
    vec![
        BackendEndpoint::Evaluate,
        BackendEndpoint::Mutate,
        BackendEndpoint::BanditStatus,
        BackendEndpoint::MemorySnapshot,
        BackendEndpoint::WorkflowDag,
        BackendEndpoint::TelemetryMetrics,
    ]
}

#[test]
fn no_request_before_preflight_has_passed() {
    let state = AppState::new("http://127.0.0.1:8000".to_string());
    for endpoint in all_endpoints() {
        assert_eq!(backend_request(&state, endpoint), Err(OfficeError::PreflightNotSatisfied));
    }
    let mut failed = AppState::new("http://127.0.0.1:8000".to_string());
    let bad = CheckResult { passed: false, message: String::new(), severity: Severity::Warning };
    record_checks(&mut failed, pass(), pass(), pass(), pass(), bad, 0, 0);
    assert_eq!(
        backend_request(&failed, BackendEndpoint::Evaluate),
        Err(OfficeError::PreflightNotSatisfied)
    );
    assert_eq!(
        OfficeError::PreflightNotSatisfied.message(),
        "Preflight checks failed - run diagnostics first"
    );
}

#[test]
fn requests_name_method_address_and_deadline() {
    let state = passed_state();
    let expected = vec![
        (HttpMethod::Post, "http://127.0.0.1:8000/evaluate"),
        (HttpMethod::Post, "http://127.0.0.1:8000/mutate"),
        (HttpMethod::Get, "http://127.0.0.1:8000/bandit/status"),
        (HttpMethod::Post, "http://127.0.0.1:8000/memory/snapshot"),
        (HttpMethod::Get, "http://127.0.0.1:8000/workflow/dag"),
        (HttpMethod::Get, "http://127.0.0.1:8000/telemetry/metrics"),
    ];
    for (endpoint, (method, url)) in all_endpoints().into_iter().zip(expected) {
        assert_eq!(
            backend_request(&state, endpoint),
            Ok(BackendRequest { method, url: url.to_string(), timeout_secs: 60 })
        );
        assert_eq!(endpoint.get_method(), method);
    }
    assert_eq!(BACKEND_TIMEOUT_SECS, 60);
    assert_eq!(BackendEndpoint::WorkflowDag.get_path(), "/workflow/dag");
}

#[test]
fn successful_answer_hands_the_body_on() {
    for endpoint in all_endpoints() {
        let outcome = BackendOutcome::Answered {
            success: true,
            status: "200 OK".to_string(),
            body: vec![1, 2, 3],
        };
        assert_eq!(backend_answer(endpoint, outcome), Ok(vec![1, 2, 3]));
    }
}

#[test]
fn evaluation_says_how_it_failed() {
    let refused = BackendOutcome::Answered {
        success: false,
        status: "500 Internal Server Error".to_string(),
        body: vec![9],
    };
    assert_eq!(
        backend_answer(BackendEndpoint::Evaluate, refused),
        Err("Backend error: 500 Internal Server Error".to_string())
    );
    assert_eq!(
        backend_answer(BackendEndpoint::Evaluate, BackendOutcome::Failed("timed out".to_string())),
        Err("Request failed: timed out".to_string())
    );
    assert_eq!(decode_failure("eof"), "Failed to parse response: eof");
}

#[test]
fn other_operations_report_a_fixed_failure() {
    let texts = vec![
        (BackendEndpoint::Mutate, "Mutation request failed"),
        (BackendEndpoint::BanditStatus, "Failed to get bandit status"),
        (BackendEndpoint::MemorySnapshot, "Failed to create memory snapshot"),
        (BackendEndpoint::WorkflowDag, "Failed to get workflow DAG"),
        (BackendEndpoint::TelemetryMetrics, "Failed to get telemetry metrics"),
    ];
    for (endpoint, text) in texts {
        let refused = BackendOutcome::Answered {
            success: false,
            status: "404 Not Found".to_string(),
            body: vec![],
        };
        assert_eq!(backend_answer(endpoint, refused), Err(text.to_string()));
        assert_eq!(
            backend_answer(endpoint, BackendOutcome::Failed("reset".to_string())),
            Err(text.to_string())
        );
        assert_eq!(endpoint.get_failure_text(), text);
    }
}
