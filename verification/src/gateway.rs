//! The way to the remote backend: which request an operation makes, once
//! the preflight diagnostics have passed, and what its answer means. The requests
//! themselves are made by the caller.

use vstd::prelude::*;
use vstd::string::*;

use crate::diagnostics::{
    all_passed, initial_state, report_of, state_after, AppState, AppStateView, NamedCheckView,
};
use crate::error::{is_outcome, OfficeError, OfficeErrorView};

verus! {

/// Seconds after which a request to the backend is given up.
pub const BACKEND_TIMEOUT_SECS: u64 = 60;

/// Where the backend is.
pub fn default_backend_url() -> (url: &'static str)
    ensures
        url@ == "http://127.0.0.1:8000"@,
{
    "http://127.0.0.1:8000"
}

/// How a request is made.
#[derive(Debug, Clone, Copy, PartialEq, Eq, Hash, Structural)]
pub enum HttpMethod {
    Get,
    Post,
}

/// The operations that the backend offers.
#[derive(Debug, Clone, Copy, PartialEq, Eq, Hash, Structural)]
pub enum BackendEndpoint {
    Evaluate,
    Mutate,
    BanditStatus,
    MemorySnapshot,
    WorkflowDag,
    TelemetryMetrics,
}

impl BackendEndpoint {
    /// The path of the operation below the backend's address.
    pub open spec fn path(self) -> Seq<char> {
        match self {
            Self::Evaluate => "/evaluate"@,
            Self::Mutate => "/mutate"@,
            Self::BanditStatus => "/bandit/status"@,
            Self::MemorySnapshot => "/memory/snapshot"@,
            Self::WorkflowDag => "/workflow/dag"@,
            Self::TelemetryMetrics => "/telemetry/metrics"@,
        }
    }

    /// How the operation is requested: those that send a body are posted.
    pub open spec fn method(self) -> HttpMethod {
        match self {
            Self::Evaluate | Self::Mutate | Self::MemorySnapshot => HttpMethod::Post,
            Self::BanditStatus | Self::WorkflowDag | Self::TelemetryMetrics => HttpMethod::Get,
        }
    }

    /// What is reported where the operation's request did not succeed and
    /// the operation gives no further account.
    pub open spec fn failure_text(self) -> Seq<char> {
        match self {
            Self::Evaluate => "Request failed"@,
            Self::Mutate => "Mutation request failed"@,
            Self::BanditStatus => "Failed to get bandit status"@,
            Self::MemorySnapshot => "Failed to create memory snapshot"@,
            Self::WorkflowDag => "Failed to get workflow DAG"@,
            Self::TelemetryMetrics => "Failed to get telemetry metrics"@,
        }
    }

    /// The path of the operation below the backend's address.
    pub fn get_path(&self) -> (path: &'static str)
        ensures
            path@ == self.path(),
    {
        match self {
            Self::Evaluate => "/evaluate",
            Self::Mutate => "/mutate",
            Self::BanditStatus => "/bandit/status",
            Self::MemorySnapshot => "/memory/snapshot",
            Self::WorkflowDag => "/workflow/dag",
            Self::TelemetryMetrics => "/telemetry/metrics",
        }
    }

    /// How the operation is requested.
    pub fn get_method(&self) -> (method: HttpMethod)
        ensures
            method == self.method(),
    {
        match self {
            Self::Evaluate | Self::Mutate | Self::MemorySnapshot => HttpMethod::Post,
            Self::BanditStatus | Self::WorkflowDag | Self::TelemetryMetrics => HttpMethod::Get,
        }
    }

    /// What is reported where the operation's request did not succeed and
    /// the operation gives no further account.
    pub fn get_failure_text(&self) -> (text: &'static str)
        ensures
            text@ == self.failure_text(),
    {
        match self {
            Self::Evaluate => "Request failed",
            Self::Mutate => "Mutation request failed",
            Self::BanditStatus => "Failed to get bandit status",
            Self::MemorySnapshot => "Failed to create memory snapshot",
            Self::WorkflowDag => "Failed to get workflow DAG",
            Self::TelemetryMetrics => "Failed to get telemetry metrics",
        }
    }
}

/// A request for the caller to make.
#[derive(Debug, PartialEq, Eq)]
pub struct BackendRequest {
    pub method: HttpMethod,
    pub url: String,
    /// Seconds after which the request is given up and counts as failed.
    pub timeout_secs: u64,
}

/// The mathematical content of a `BackendRequest`.
pub struct BackendRequestView {
    pub method: HttpMethod,
    pub url: Seq<char>,
    pub timeout_secs: u64,
}

impl View for BackendRequest {
    type V = BackendRequestView;

    open spec fn view(&self) -> BackendRequestView {
        BackendRequestView { method: self.method, url: self.url@, timeout_secs: self.timeout_secs }
    }
}

/// The request for `endpoint` of the backend at `base_url`.
pub open spec fn request_for(base_url: Seq<char>, endpoint: BackendEndpoint) -> BackendRequestView {
    BackendRequestView {
        method: endpoint.method(),
        url: base_url + endpoint.path(),
        timeout_secs: BACKEND_TIMEOUT_SECS,
    }
}

/// The request that an operation makes: none, and an error, while the
/// preflight diagnostics have not passed.
pub open spec fn cleared_request(state: AppStateView, endpoint: BackendEndpoint) -> Result<
    BackendRequestView,
    OfficeErrorView,
> {
    if state.preflight_passed {
        Ok(request_for(state.backend_base_url, endpoint))
    } else {
        Err(OfficeErrorView::PreflightNotSatisfied)
    }
}

/// The request for `endpoint`, for the caller to make; or, while the
/// preflight diagnostics have not passed, the error, in which case no
/// request is to be made.
pub fn backend_request(state: &AppState, endpoint: BackendEndpoint) -> (planned: Result<
    BackendRequest,
    OfficeError,
>)
    ensures
        is_outcome(planned, cleared_request(state@, endpoint)),
{
    match state.require_preflight() {
        Ok(_) => {
            let mut url = state.backend_base_url().clone();
            url.append(endpoint.get_path());
            Ok(
                BackendRequest {
                    method: endpoint.get_method(),
                    url,
                    timeout_secs: BACKEND_TIMEOUT_SECS,
                },
            )
        },
        Err(error) => Err(error),
    }
}

/// No operation makes a request before a diagnostics run has passed: not
/// in the state before any run, and after a run exactly where every check
/// of that run passed, whatever the runs before it reported.
pub proof fn lemma_requests_wait_for_a_passing_run(
    base_url: Seq<char>,
    state: AppStateView,
    checks: Seq<NamedCheckView>,
    secs: u64,
    nanos: u32,
    endpoint: BackendEndpoint,
)
    ensures
        !initial_state(base_url).preflight_passed,
        initial_state(base_url).consistent(),
        cleared_request(initial_state(base_url), endpoint) == Err::<
            BackendRequestView,
            OfficeErrorView,
        >(OfficeErrorView::PreflightNotSatisfied),
        state_after(state, report_of(checks, secs, nanos)).consistent(),
        state_after(state, report_of(checks, secs, nanos)).preflight_passed == all_passed(checks),
        cleared_request(state_after(state, report_of(checks, secs, nanos)), endpoint) is Ok
            <==> all_passed(checks),
{
}

/// What came back from a request to the backend.
#[derive(Debug, PartialEq, Eq)]
pub enum BackendOutcome {
    /// The backend answered: whether with a status of success, the status
    /// in words, and the bytes of the answer's body.
    Answered { success: bool, status: String, body: Vec<u8> },
    /// The request failed on the way; the text says how.
    Failed(String),
}

/// The mathematical content of a `BackendOutcome`.
pub enum BackendOutcomeView {
    Answered { success: bool, status: Seq<char>, body: Seq<u8> },
    Failed(Seq<char>),
}

impl View for BackendOutcome {
    type V = BackendOutcomeView;

    open spec fn view(&self) -> BackendOutcomeView {
        match *self {
            BackendOutcome::Answered { success, status, body } => BackendOutcomeView::Answered {
                success,
                status: status@,
                body: body@,
            },
            BackendOutcome::Failed(detail) => BackendOutcomeView::Failed(detail@),
        }
    }
}

/// What the answer to a request for `endpoint` means: the body where the
/// backend answered with a status of success, else the failure in words.
/// Only an evaluation says how it failed.
pub open spec fn answer_of(endpoint: BackendEndpoint, outcome: BackendOutcomeView) -> Result<
    Seq<u8>,
    Seq<char>,
> {
    match outcome {
        BackendOutcomeView::Answered { success: true, body, .. } => Ok(body),
        BackendOutcomeView::Answered { success: false, status, .. } => match endpoint {
            BackendEndpoint::Evaluate => Err("Backend error: "@ + status),
            _ => Err(endpoint.failure_text()),
        },
        BackendOutcomeView::Failed(detail) => match endpoint {
            BackendEndpoint::Evaluate => Err("Request failed: "@ + detail),
            _ => Err(endpoint.failure_text()),
        },
    }
}

/// What the answer to a request for `endpoint` means: the body, for the
/// caller to decode, or the failure in words.
pub fn backend_answer(endpoint: BackendEndpoint, outcome: BackendOutcome) -> (answer: Result<
    Vec<u8>,
    String,
>)
    ensures
        match (answer, answer_of(endpoint, outcome@)) {
            (Ok(body), Ok(wanted)) => body@ == wanted,
            (Err(text), Err(wanted)) => text@ == wanted,
            _ => false,
        },
{
    match outcome {
        BackendOutcome::Answered { success, status, body } => {
            if success {
                Ok(body)
            } else {
                match endpoint {
                    BackendEndpoint::Evaluate => {
                        let mut text = "Backend error: ".to_string();
                        text.append(status.as_str());
                        Err(text)
                    },
                    _ => Err(endpoint.get_failure_text().to_string()),
                }
            }
        },
        BackendOutcome::Failed(detail) => {
            match endpoint {
                BackendEndpoint::Evaluate => {
                    let mut text = "Request failed: ".to_string();
                    text.append(detail.as_str());
                    Err(text)
                },
                _ => Err(endpoint.get_failure_text().to_string()),
            }
        },
    }
}

/// What is reported of an answer whose body could not be decoded.
pub fn decode_failure(detail: &str) -> (text: String)
    ensures
        text@ == "Failed to parse response: "@ + detail@,
{
    let mut text = "Failed to parse response: ".to_string();
    text.append(detail);
    text
}

} // verus!
