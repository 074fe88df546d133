use unity_offices::diagnostics::{CheckResult, Severity};
use unity_offices::error::OfficeError;
use unity_offices::probes::{
    backend_health_url, check_backend_services, check_disk, check_disk_with, check_models,
    check_models_with, check_ollama, check_ram, check_ram_with, installed_models, list_models,
    model_runtime_url, models_result, ProbeOutcome, GIGABYTE, PROBE_TIMEOUT_SECS,
};
use unity_offices::system::{greatest, read_available_memory, read_free_disk_space};

fn answered(body: &str) -> ProbeOutcome {
    ProbeOutcome::Answered { success: true, body: body.as_bytes().to_vec() }
}

fn required() -> Vec<String> {
    vec!["deepseek-r1:14b".to_string(), "qwen2.5-coder:7b".to_string()]
}

fn check(passed: bool, message: &str, severity: Severity) -> CheckResult {
    CheckResult { passed, message: message.to_string(), severity }
}

#[test]
fn probe_constants() {
    assert_eq!(GIGABYTE, 1 << 30);
    assert_eq!(PROBE_TIMEOUT_SECS, 5);
    assert_eq!(model_runtime_url(), "http://127.0.0.1:11434/api/tags");
    assert_eq!(backend_health_url("http://127.0.0.1:8000"), "http://127.0.0.1:8000/health");
}

#[test]
fn ram_check_passes_at_the_threshold() {
    assert_eq!(
        check_ram_with(2 * GIGABYTE, 2),
        check(true, "Available RAM: 2.00 GB (required: 2.00 GB)", Severity::Info)
    );
    assert_eq!(
        check_ram_with(2 * GIGABYTE - 1, 2),
        check(false, "Available RAM: 2.00 GB (required: 2.00 GB)", Severity::Error)
    );
}

#[test]
fn ram_check_writes_two_decimals() {
    assert_eq!(
        check_ram_with(3 * GIGABYTE + GIGABYTE / 2, 2),
        check(true, "Available RAM: 3.50 GB (required: 2.00 GB)", Severity::Info)
    );
    assert_eq!(
        check_ram_with(0, 1),
        check(false, "Available RAM: 0.00 GB (required: 1.00 GB)", Severity::Error)
    );
    assert_eq!(
        check_ram_with(1_234_567_890, 0),
        check(true, "Available RAM: 1.15 GB (required: 0.00 GB)", Severity::Info)
    );
    assert_eq!(
        check_ram_with(u64::MAX, u64::MAX),
        check(
            false,
            "Available RAM: 17179869184.00 GB (required: 18446744073709551615.00 GB)",
            Severity::Error
        )
    );
}

#[test]
fn ram_check_reads_the_machine() {
    let result = check_ram(0);
    assert!(result.passed);
    assert_eq!(result.severity, Severity::Info);
    assert!(result.message.starts_with("Available RAM: "));
    assert!(result.message.ends_with(" GB (required: 0.00 GB)"));
    let result = check_ram(u64::MAX);
    assert!(!result.passed);
    assert_eq!(result.severity, Severity::Error);
}

#[test]
fn ram_check_rounds_a_tie_to_the_even_hundredth() {
    assert_eq!(
        check_ram_with(134_217_728, 0),
        check(true, "Available RAM: 0.12 GB (required: 0.00 GB)", Severity::Info)
    );
    assert_eq!(
        check_ram_with(134_217_729, 0),
        check(true, "Available RAM: 0.13 GB (required: 0.00 GB)", Severity::Info)
    );
    assert_eq!(
        check_ram_with(3 * 134_217_728, 0),
        check(true, "Available RAM: 0.38 GB (required: 0.00 GB)", Severity::Info)
    );
    assert_eq!(
        check_ram_with(GIGABYTE + 134_217_728, 1),
        check(true, "Available RAM: 1.12 GB (required: 1.00 GB)", Severity::Info)
    );
}

#[test]
fn disk_check_passes_at_the_threshold() {
    assert_eq!(
        check_disk_with(5 * GIGABYTE, 5),
        check(true, "Free disk space: 5.00 GB (required: 5.00 GB)", Severity::Info)
    );
    assert_eq!(
        check_disk_with(80 * GIGABYTE + GIGABYTE / 4, 5),
        check(true, "Free disk space: 80.25 GB (required: 5.00 GB)", Severity::Info)
    );
}

#[test]
fn disk_check_fails_below_the_minimum() {
    assert_eq!(
        check_disk_with(5 * GIGABYTE - 1, 5),
        check(false, "Free disk space: 5.00 GB (required: 5.00 GB)", Severity::Error)
    );
    assert_eq!(
        check_disk_with(0, 5),
        check(false, "Free disk space: 0.00 GB (required: 5.00 GB)", Severity::Error)
    );
    assert_eq!(
        check_disk_with(GIGABYTE + GIGABYTE / 2, 2),
        check(false, "Free disk space: 1.50 GB (required: 2.00 GB)", Severity::Error)
    );
}

#[test]
fn disk_check_reads_the_machine() {
    let result = check_disk(0);
    assert!(result.passed);
    assert_eq!(result.severity, Severity::Info);
    assert!(result.message.starts_with("Free disk space: "));
    assert!(result.message.ends_with(" GB (required: 0.00 GB)"));
    let result = check_disk(u64::MAX);
    assert!(!result.passed);
    assert_eq!(result.severity, Severity::Error);
    let free = read_free_disk_space();
    assert_eq!(check_disk_with(free, 0).passed, true);
    let _ = read_available_memory();
}

#[test]
fn greatest_of_some_figures() {
    assert_eq!(greatest(&vec![]), 0);
    assert_eq!(greatest(&vec![0]), 0);
    assert_eq!(greatest(&vec![3, 9, 2]), 9);
    assert_eq!(greatest(&vec![7, 7]), 7);
    assert_eq!(greatest(&vec![1, 2, u64::MAX]), u64::MAX);
}

#[test]
fn models_result_on_a_given_list() {
    assert_eq!(
        models_result(false, "[\"a\", \"b\"]"),
        check(true, "All required models present: [\"a\", \"b\"]", Severity::Info)
    );
    assert_eq!(
        models_result(true, "[\"a\"]"),
        check(false, "Missing models: [\"a\"]", Severity::Error)
    );
    assert_eq!(models_result(true, ""), check(false, "Missing models: ", Severity::Error));
}

#[test]
fn runtime_check_goes_by_the_answer() {
    assert_eq!(
        check_ollama(&answered("{}")),
        check(true, "Ollama service is running", Severity::Info)
    );
    let down = check(
        false,
        "Ollama service not reachable at http://127.0.0.1:11434",
        Severity::Error,
    );
    assert_eq!(check_ollama(&ProbeOutcome::Answered { success: false, body: vec![] }), down);
    assert_eq!(check_ollama(&ProbeOutcome::Unreachable), down);
    assert_eq!(check_ollama(&ProbeOutcome::TimedOut), down);
}

#[test]
fn backend_check_fails_with_a_warning_only() {
    assert_eq!(
        check_backend_services(&answered(""), "http://127.0.0.1:8000"),
        check(true, "Backend services are running", Severity::Info)
    );
    let down = check(
        false,
        "Backend services not reachable at http://127.0.0.1:8000",
        Severity::Warning,
    );
    assert_eq!(check_backend_services(&ProbeOutcome::TimedOut, "http://127.0.0.1:8000"), down);
    assert_eq!(check_backend_services(&ProbeOutcome::Unreachable, "http://127.0.0.1:8000"), down);
    assert_eq!(
        check_backend_services(
            &ProbeOutcome::Answered { success: false, body: vec![] },
            "http://127.0.0.1:8000"
        ),
        down
    );
}

#[test]
fn models_check_passes_when_each_required_model_is_part_of_a_name() {
    let body = r#"{"models":[{"name":"deepseek-r1:14b-q4"},{"name":"x/qwen2.5-coder:7b"}]}"#;
    assert_eq!(
        check_models(&answered(body), &required()),
        check(
            true,
            "All required models present: [\"deepseek-r1:14b\", \"qwen2.5-coder:7b\"]",
            Severity::Info
        )
    );
}

#[test]
fn models_check_names_the_missing_models() {
    let body = r#"{"models":[{"name":"qwen2.5-coder:7b"},{"name":"llama3"}]}"#;
    assert_eq!(
        check_models(&answered(body), &required()),
        check(false, "Missing models: [\"deepseek-r1:14b\"]", Severity::Error)
    );
    let none = r#"{"models":[]}"#;
    assert_eq!(
        check_models(&answered(none), &required()),
        check(
            false,
            "Missing models: [\"deepseek-r1:14b\", \"qwen2.5-coder:7b\"]",
            Severity::Error
        )
    );
}

#[test]
fn models_check_passes_over_entries_without_a_name() {
    let body = r#"{"models":[{"id":1},7,{"name":null},{"name":"deepseek-r1:14b"},{"name":"qwen2.5-coder:7b"}],"x":1}"#;
    let document: serde_json::Value = serde_json::from_str(body).unwrap();
    assert_eq!(
        installed_models(&document),
        vec!["deepseek-r1:14b".to_string(), "qwen2.5-coder:7b".to_string()]
    );
    assert!(check_models(&answered(body), &required()).passed);
}

#[test]
fn models_list_of_another_shape_counts_as_empty() {
    for body in [r#"{}"#, r#"{"models":{"name":"deepseek-r1:14b"}}"#, r#"[1,2]"#, r#""models""#] {
        let document: serde_json::Value = serde_json::from_str(body).unwrap();
        assert!(installed_models(&document).is_empty());
        assert_eq!(
            check_models(&answered(body), &vec!["m".to_string()]),
            check(false, "Missing models: [\"m\"]", Severity::Error)
        );
    }
    assert_eq!(
        check_models(&answered("{}"), &vec![]),
        check(true, "All required models present: []", Severity::Info)
    );
}

#[test]
fn unparsable_models_list_is_its_own_failure() {
    let parse = check(false, "Failed to parse Ollama models list", Severity::Error);
    assert_eq!(check_models(&answered("not json"), &required()), parse);
    assert_eq!(check_models(&answered(""), &required()), parse);
    assert_eq!(check_models(&answered("{\"models\":[]} trailing"), &required()), parse);
    let down = check(false, "Cannot check models - Ollama not running", Severity::Error);
    assert_eq!(check_models(&ProbeOutcome::Unreachable, &required()), down);
    assert_eq!(check_models(&ProbeOutcome::TimedOut, &required()), down);
    assert_eq!(
        check_models(
            &ProbeOutcome::Answered { success: false, body: b"{\"models\":[]}".to_vec() },
            &required()
        ),
        down
    );
}

#[test]
fn models_check_on_given_names() {
    let installed = vec!["alpha:1".to_string(), "beta".to_string()];
    assert_eq!(
        check_models_with(&installed, &vec!["alpha".to_string(), "eta".to_string()]),
        check(true, "All required models present: [\"alpha\", \"eta\"]", Severity::Info)
    );
    assert_eq!(
        check_models_with(&installed, &vec!["gamma".to_string(), "beta".to_string(), "Alpha".to_string()]),
        check(false, "Missing models: [\"gamma\", \"Alpha\"]", Severity::Error)
    );
    assert_eq!(
        check_models_with(&vec![], &vec!["".to_string()]),
        check(false, "Missing models: [\"\"]", Severity::Error)
    );
    assert_eq!(
        check_models_with(&vec!["x".to_string()], &vec!["".to_string()]),
        check(true, "All required models present: [\"\"]", Severity::Info)
    );
    assert_eq!(
        check_models_with(&vec![], &vec!["a\"b".to_string()]),
        check(false, "Missing models: [\"a\\\"b\"]", Severity::Error)
    );
}

#[test]
fn probe_failures_are_told_apart() {
    assert_eq!(answered("abc").answer(), Ok(&b"abc".to_vec()));
    assert_eq!(
        ProbeOutcome::Answered { success: false, body: b"abc".to_vec() }.answer(),
        Err(OfficeError::ProbeUnreachable)
    );
    assert_eq!(ProbeOutcome::Unreachable.answer(), Err(OfficeError::ProbeUnreachable));
    assert_eq!(ProbeOutcome::TimedOut.answer(), Err(OfficeError::ProbeTimeout));

    assert_eq!(list_models(&ProbeOutcome::TimedOut), Err(OfficeError::ProbeTimeout));
    assert_eq!(list_models(&ProbeOutcome::Unreachable), Err(OfficeError::ProbeUnreachable));
    assert_eq!(list_models(&answered("{")), Err(OfficeError::ProbeParseFailure));
    assert_eq!(
        list_models(&answered(r#"{"models":[{"name":"a"},{"name":"b"}]}"#)),
        Ok(vec!["a".to_string(), "b".to_string()])
    );
    assert_eq!(list_models(&answered("null")), Ok(vec![]));
}
