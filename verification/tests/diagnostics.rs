use unity_offices::diagnostics::{
    is_preflight_passed, overall_status, record_checks, AppState, CheckResult,
    DiagnosticsResult, NamedCheck, Severity, Status,
};
use unity_offices::error::OfficeError;
use unity_offices::preflight::{
    required_models, run_diagnostics, run_diagnostics_with, MIN_FREE_DISK_GB, MIN_FREE_RAM_GB,
};
use unity_offices::probes::ProbeOutcome;

fn pass() -> CheckResult {
    CheckResult { passed: true, message: "fine".to_string(), severity: Severity::Info }
}

fn fail(severity: Severity) -> CheckResult {
    CheckResult { passed: false, message: "bad".to_string(), severity }
}

fn named(name: &str, check: CheckResult) -> NamedCheck {
    NamedCheck { name: name.to_string(), check }
}

#[test]
fn status_is_error_when_a_failed_check_is_an_error() {
    let checks = vec![
        named("ram", pass()),
        named("disk", pass()),
        named("ollama", fail(Severity::Error)),
        named("models", pass()),
        named("backend", fail(Severity::Warning)),
    ];
    assert_eq!(overall_status(&checks), Status::Error);
}

#[test]
fn status_is_ok_exactly_when_every_check_passed() {
    assert_eq!(overall_status(&vec![]), Status::Okay);
    assert_eq!(overall_status(&vec![named("a", pass()), named("b", pass())]), Status::Okay);
    assert_eq!(
        overall_status(&vec![named("a", pass()), named("b", fail(Severity::Info))]),
        Status::Warning
    );
}

#[test]
fn status_is_warning_when_only_warnings_failed() {
    let checks = vec![
        named("ram", pass()),
        named("backend", fail(Severity::Warning)),
        named("disk", pass()),
    ];
    assert_eq!(overall_status(&checks), Status::Warning);
}

#[test]
fn status_goes_by_the_severities_of_all_checks() {
    let odd = CheckResult { passed: true, message: "odd".to_string(), severity: Severity::Error };
    assert_eq!(overall_status(&vec![named("a", odd.clone())]), Status::Okay);
    assert_eq!(
        overall_status(&vec![named("a", odd), named("b", fail(Severity::Warning))]),
        Status::Error
    );
}

#[test]
fn status_does_not_depend_on_the_order_of_the_checks() {
    let one = vec![
        named("a", fail(Severity::Warning)),
        named("b", pass()),
        named("c", fail(Severity::Error)),
    ];
    let other = vec![
        named("c", fail(Severity::Error)),
        named("a", fail(Severity::Warning)),
        named("b", pass()),
    ];
    assert_eq!(overall_status(&one), overall_status(&other));
    assert_eq!(overall_status(&other), Status::Error);
}

#[test]
fn words_of_status_and_severity() {
    assert_eq!(Status::Okay.as_str(), "OK");
    assert_eq!(Status::Warning.as_str(), "WARNING");
    assert_eq!(Status::Error.as_str(), "ERROR");
    assert_eq!(Severity::Info.as_str(), "info");
    assert_eq!(Severity::Warning.as_str(), "warning");
    assert_eq!(Severity::Error.as_str(), "error");
}

#[test]
fn preflight_has_not_passed_before_any_run() {
    let state = AppState::new("http://127.0.0.1:8000".to_string());
    assert!(!is_preflight_passed(&state));
    assert!(state.last_diagnostics().is_none());
    assert_eq!(state.require_preflight(), Err(OfficeError::PreflightNotSatisfied));
    assert_eq!(state.backend_base_url(), "http://127.0.0.1:8000");
}

#[test]
fn preflight_follows_the_last_report() {
    let mut state = AppState::new("http://127.0.0.1:8000".to_string());

    let report =
        record_checks(&mut state, pass(), pass(), pass(), pass(), fail(Severity::Warning), 10, 5);
    assert_eq!(report.status, Status::Warning);
    assert!(!is_preflight_passed(&state));
    assert_eq!(state.require_preflight(), Err(OfficeError::PreflightNotSatisfied));

    let report = record_checks(&mut state, pass(), pass(), pass(), pass(), pass(), 11, 6);
    assert_eq!(report.status, Status::Okay);
    assert!(is_preflight_passed(&state));
    assert_eq!(state.require_preflight(), Ok(()));
    assert_eq!(state.last_diagnostics(), Some(&report));

    let report =
        record_checks(&mut state, pass(), pass(), fail(Severity::Error), pass(), pass(), 12, 7);
    assert_eq!(report.status, Status::Error);
    assert!(!is_preflight_passed(&state));
    assert_eq!(state.last_diagnostics().unwrap().timestamp_secs, 12);
}

#[test]
fn report_holds_the_five_checks_under_their_names() {
    let mut state = AppState::new("b".to_string());
    let ram = CheckResult { passed: true, message: "r".to_string(), severity: Severity::Info };
    let report = record_checks(
        &mut state,
        ram.clone(),
        pass(),
        fail(Severity::Error),
        fail(Severity::Error),
        fail(Severity::Warning),
        1700000000,
        250,
    );
    let names: Vec<&str> = report.checks.iter().map(|c| c.name.as_str()).collect();
    assert_eq!(names, vec!["ram", "disk", "ollama", "models", "backend"]);
    assert_eq!(report.check("ram"), Some(&ram));
    assert_eq!(report.check("backend"), Some(&fail(Severity::Warning)));
    assert_eq!(report.check("cpu"), None);
    assert_eq!(report.timestamp_secs, 1700000000);
    assert_eq!(report.timestamp_nanos, 250);
    assert_eq!(report.status, Status::Error);
    assert_eq!(report.clone(), report);
}

#[test]
fn recording_a_report_overwrites_the_one_before() {
    let mut state = AppState::new("b".to_string());
    let good = DiagnosticsResult::new(vec![named("only", pass())], 1, 0);
    let bad = DiagnosticsResult::new(vec![named("only", fail(Severity::Error))], 2, 0);
    assert_eq!(good.status, Status::Okay);
    assert_eq!(bad.status, Status::Error);
    state.record_run(good.clone());
    assert!(is_preflight_passed(&state));
    state.record_run(bad.clone());
    assert!(!is_preflight_passed(&state));
    assert_eq!(state.last_diagnostics(), Some(&bad));
    state.record_run(good.clone());
    assert!(is_preflight_passed(&state));
    assert_eq!(state.backend_base_url(), "b");
}

#[test]
fn diagnostics_run_reduces_what_the_probes_found() {
    assert_eq!(MIN_FREE_RAM_GB, 2);
    assert_eq!(MIN_FREE_DISK_GB, 5);
    assert_eq!(
        required_models(),
        vec!["deepseek-r1:14b".to_string(), "qwen2.5-coder:7b".to_string()]
    );

    let good = ProbeOutcome::Answered { success: true, body: b"{}".to_vec() };
    let tags = ProbeOutcome::Answered {
        success: true,
        body: br#"{"models":[{"name":"deepseek-r1:14b"},{"name":"qwen2.5-coder:7b"}]}"#.to_vec(),
    };
    let mut state = AppState::new("http://127.0.0.1:8000".to_string());

    let report = run_diagnostics_with(&mut state, 4 << 30, 6 << 30, &good, &tags, &good, 7, 9);
    assert_eq!(report.status, Status::Okay);
    assert!(is_preflight_passed(&state));
    assert_eq!(report.timestamp_secs, 7);
    assert_eq!(report.timestamp_nanos, 9);
    assert_eq!(
        report.check("ram").unwrap().message,
        "Available RAM: 4.00 GB (required: 2.00 GB)"
    );
    assert_eq!(
        report.check("disk").unwrap().message,
        "Free disk space: 6.00 GB (required: 5.00 GB)"
    );
    assert_eq!(
        report.check("models").unwrap().message,
        "All required models present: [\"deepseek-r1:14b\", \"qwen2.5-coder:7b\"]"
    );

    let report = run_diagnostics_with(
        &mut state,
        4 << 30,
        6 << 30,
        &good,
        &tags,
        &ProbeOutcome::TimedOut,
        8,
        0,
    );
    assert_eq!(report.status, Status::Warning);
    assert!(!is_preflight_passed(&state));
    assert_eq!(
        report.check("backend").unwrap().message,
        "Backend services not reachable at http://127.0.0.1:8000"
    );

    let report = run_diagnostics_with(
        &mut state,
        4 << 30,
        6 << 30,
        &ProbeOutcome::Unreachable,
        &tags,
        &ProbeOutcome::TimedOut,
        8,
        0,
    );
    assert_eq!(report.status, Status::Error);

    let report = run_diagnostics_with(&mut state, 1 << 30, 6 << 30, &good, &tags, &good, 8, 0);
    assert_eq!(report.status, Status::Error);
    assert!(!report.check("ram").unwrap().passed);

    let report = run_diagnostics_with(&mut state, 4 << 30, 4 << 30, &good, &tags, &good, 8, 0);
    assert_eq!(report.status, Status::Error);
    assert!(report.check("ram").unwrap().passed);
    assert_eq!(
        report.check("disk").unwrap(),
        &CheckResult {
            passed: false,
            message: "Free disk space: 4.00 GB (required: 5.00 GB)".to_string(),
            severity: Severity::Error,
        }
    );
    assert!(!is_preflight_passed(&state));

    let report = run_diagnostics(&mut state, &good, &good, &good, 1_700_000_000, 12);
    assert_eq!(report.checks.len(), 5);
    assert_eq!(report.timestamp_secs, 1_700_000_000);
    assert_eq!(report.timestamp_nanos, 12);
    assert!(report.check("ram").unwrap().message.starts_with("Available RAM: "));
    assert!(report.check("disk").unwrap().message.starts_with("Free disk space: "));
    assert_eq!(report.check("models").unwrap().severity, Severity::Error);
    assert_eq!(report.status, Status::Error);
    assert_eq!(state.last_diagnostics(), Some(&report));
}
