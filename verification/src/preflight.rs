//! The preflight diagnostics run: which probes it is made of, what each is
//! held to, and how their results become the report that opens the way to
//! the backend.

use vstd::prelude::*;
use vstd::string::*;

use crate::diagnostics::{
    named_checks, record_checks, report_of, state_after, AppState, DiagnosticsResult,
    DiagnosticsResultView,
};
use crate::probes::{
    backend_check, check_backend_services, check_disk_with, check_models, check_ollama,
    check_ram_with, disk_check, models_probe_check, ollama_check, ram_check, ProbeOutcome,
    ProbeOutcomeView,
};
use crate::system::{read_available_memory, read_free_disk_space};
use crate::text::string_views;

verus! {

/// Gigabytes of memory that must be available.
pub const MIN_FREE_RAM_GB: u64 = 2;

/// Gigabytes of disk that must be free.
pub const MIN_FREE_DISK_GB: u64 = 5;

/// The models that the model runtime must have.
pub open spec fn required_model_names() -> Seq<Seq<char>> {
    seq!["deepseek-r1:14b"@, "qwen2.5-coder:7b"@]
}

/// The models that the model runtime must have.
pub fn required_models() -> (models: Vec<String>)
    ensures
        string_views(models@) == required_model_names(),
{
    let mut models: Vec<String> = Vec::new();
    models.push("deepseek-r1:14b".to_string());
    models.push("qwen2.5-coder:7b".to_string());
    assert(string_views(models@) =~= required_model_names());
    models
}

/// The report of a run: the five checks, each on what its probe found, and
/// the status that follows from them.
pub open spec fn diagnosis(
    backend_base_url: Seq<char>,
    available_bytes: u64,
    free_disk_bytes: u64,
    runtime: ProbeOutcomeView,
    models: ProbeOutcomeView,
    backend: ProbeOutcomeView,
    secs: u64,
    nanos: u32,
) -> DiagnosticsResultView {
    report_of(
        named_checks(
            ram_check(available_bytes, MIN_FREE_RAM_GB),
            disk_check(free_disk_bytes, MIN_FREE_DISK_GB),
            ollama_check(runtime),
            models_probe_check(models, required_model_names()),
            backend_check(backend, backend_base_url),
        ),
        secs,
        nanos,
    )
}

/// A diagnostics run on what the probes found: `available_bytes` of
/// memory, `free_disk_bytes` of disk, and the answers of the model runtime,
/// of its list of models and of the backend's health address. The report is
/// made at the given time, recorded in `state`, and returned.
pub fn run_diagnostics_with(
    state: &mut AppState,
    available_bytes: u64,
    free_disk_bytes: u64,
    runtime: &ProbeOutcome,
    models: &ProbeOutcome,
    backend: &ProbeOutcome,
    timestamp_secs: u64,
    timestamp_nanos: u32,
) -> (report: DiagnosticsResult)
    ensures
        report@ == diagnosis(
            old(state)@.backend_base_url,
            available_bytes,
            free_disk_bytes,
            runtime@,
            models@,
            backend@,
            timestamp_secs,
            timestamp_nanos,
        ),
        final(state)@ == state_after(old(state)@, report@),
{
    let ram = check_ram_with(available_bytes, MIN_FREE_RAM_GB);
    let disk = check_disk_with(free_disk_bytes, MIN_FREE_DISK_GB);
    let ollama = check_ollama(runtime);
    let listed = check_models(models, &required_models());
    let reachable = check_backend_services(backend, state.backend_base_url().as_str());
    record_checks(state, ram, disk, ollama, listed, reachable, timestamp_secs, timestamp_nanos)
}

/// A diagnostics run on the answers of the model runtime, of its list of
/// models and of the backend's health address, which the caller has
/// requested, all at once. The memory that is available and the disk space
/// that is free are read here. The report is made at the given time,
/// recorded in `state`, and returned.
pub fn run_diagnostics(
    state: &mut AppState,
    runtime: &ProbeOutcome,
    models: &ProbeOutcome,
    backend: &ProbeOutcome,
    timestamp_secs: u64,
    timestamp_nanos: u32,
) -> (report: DiagnosticsResult)
    ensures
        exists|available_bytes: u64, free_disk_bytes: u64|
            report@ == #[trigger] diagnosis(
                old(state)@.backend_base_url,
                available_bytes,
                free_disk_bytes,
                runtime@,
                models@,
                backend@,
                timestamp_secs,
                timestamp_nanos,
            ),
        final(state)@ == state_after(old(state)@, report@),
{
    let available_bytes = read_available_memory();
    let free_disk_bytes = read_free_disk_space();
    let report = run_diagnostics_with(
        state,
        available_bytes,
        free_disk_bytes,
        runtime,
        models,
        backend,
        timestamp_secs,
        timestamp_nanos,
    );
    assert(report@ == diagnosis(
        old(state)@.backend_base_url,
        available_bytes,
        free_disk_bytes,
        runtime@,
        models@,
        backend@,
        timestamp_secs,
        timestamp_nanos,
    ));
    report
}

} // verus!
