//! The errors that window, messaging and workflow operations report.

use vstd::prelude::*;
use vstd::string::*;

use crate::host::{HostEvent, HostOp};
use crate::text::{decimal, decimal_text};

verus! {

/// One delivery that the host failed to make.
#[derive(Debug, PartialEq, Eq)]
pub struct FailedDelivery {
    /// The window that the delivery was for.
    pub window_id: String,
    /// The host's account of the failure.
    pub detail: String,
}

/// The mathematical content of a `FailedDelivery`.
pub struct FailedDeliveryView {
    pub window_id: Seq<char>,
    pub detail: Seq<char>,
}

impl View for FailedDelivery {
    type V = FailedDeliveryView;

    open spec fn view(&self) -> FailedDeliveryView {
        FailedDeliveryView { window_id: self.window_id@, detail: self.detail@ }
    }
}

impl Clone for FailedDelivery {
    fn clone(&self) -> (copy: Self)
        ensures
            copy@ == self@,
    {
        FailedDelivery { window_id: self.window_id.clone(), detail: self.detail.clone() }
    }
}

/// The views of `failures`, in order.
pub open spec fn failure_views(failures: Seq<FailedDelivery>) -> Seq<FailedDeliveryView> {
    failures.map_values(|failure: FailedDelivery| failure@)
}

/// Why an operation did not succeed.
#[derive(Debug, PartialEq, Eq)]
pub enum OfficeError {
    /// A probed service could not be reached, or did not answer with a
    /// status of success.
    ProbeUnreachable,
    /// A probed service did not answer in time.
    ProbeTimeout,
    /// A probed service answered with something that could not be read.
    ProbeParseFailure,
    /// No role has the given identifier.
    InvalidOfficeType(String),
    /// The preflight diagnostics have not passed.
    PreflightNotSatisfied,
    /// No live window has the given identifier.
    WindowNotFound,
    /// The host failed at a call; the text is its own account.
    ToolkitFailure { op: HostOp, detail: String },
    /// At least one delivery of the event failed; the others were made.
    DeliveryFailure { event: HostEvent, failures: Vec<FailedDelivery> },
    /// The workflow step at `index` (counted from 0) failed, and the steps
    /// after it were not run.
    WorkflowStepFailed { index: usize, cause: Box<OfficeError> },
}

/// The mathematical content of an `OfficeError`.
pub enum OfficeErrorView {
    ProbeUnreachable,
    ProbeTimeout,
    ProbeParseFailure,
    InvalidOfficeType(Seq<char>),
    PreflightNotSatisfied,
    WindowNotFound,
    ToolkitFailure { op: HostOp, detail: Seq<char> },
    DeliveryFailure { event: HostEvent, failures: Seq<FailedDeliveryView> },
    WorkflowStepFailed { index: usize, cause: Box<OfficeErrorView> },
}

impl OfficeError {
    /// The mathematical content of the error.
    pub open spec fn model(self) -> OfficeErrorView
        decreases self,
    {
        match self {
            OfficeError::ProbeUnreachable => OfficeErrorView::ProbeUnreachable,
            OfficeError::ProbeTimeout => OfficeErrorView::ProbeTimeout,
            OfficeError::ProbeParseFailure => OfficeErrorView::ProbeParseFailure,
            OfficeError::InvalidOfficeType(name) => OfficeErrorView::InvalidOfficeType(name@),
            OfficeError::PreflightNotSatisfied => OfficeErrorView::PreflightNotSatisfied,
            OfficeError::WindowNotFound => OfficeErrorView::WindowNotFound,
            OfficeError::ToolkitFailure { op, detail } => OfficeErrorView::ToolkitFailure {
                op,
                detail: detail@,
            },
            OfficeError::DeliveryFailure { event, failures } => OfficeErrorView::DeliveryFailure {
                event,
                failures: failure_views(failures@),
            },
            OfficeError::WorkflowStepFailed { index, cause } => {
                OfficeErrorView::WorkflowStepFailed { index, cause: Box::new((*cause).model()) }
            },
        }
    }
}

impl View for OfficeError {
    type V = OfficeErrorView;

    open spec fn view(&self) -> OfficeErrorView {
        self.model()
    }
}

/// Whether `got` is the outcome `expected`: the same success, or the same
/// error.
pub open spec fn is_outcome<T: View>(
    got: Result<T, OfficeError>,
    expected: Result<T::V, OfficeErrorView>,
) -> bool {
    match (got, expected) {
        (Ok(value), Ok(wanted)) => value@ == wanted,
        (Err(error), Err(wanted)) => error@ == wanted,
        _ => false,
    }
}

/// The words that open the account of a failed host call of kind `op`.
pub open spec fn toolkit_prefix(op: HostOp) -> Seq<char> {
    match op {
        HostOp::CreateWindow => "Failed to create window: "@,
        HostOp::CloseWindow => "Failed to close window: "@,
        HostOp::Emit => "Failed to update consent: "@,
    }
}

/// The words that open the account of failed deliveries of `event`.
pub open spec fn delivery_prefix(event: HostEvent) -> Seq<char> {
    match event {
        HostEvent::OfficeMessage => "Failed to send message: "@,
        HostEvent::SystemBroadcast => "Failed to broadcast: "@,
        HostEvent::MemoryConsentUpdated => "Failed to update consent: "@,
    }
}

/// The failed deliveries, each as the window's identifier, a colon and the
/// host's account, joined by semicolons.
pub open spec fn failures_text(failures: Seq<FailedDeliveryView>) -> Seq<char>
    decreases failures.len(),
{
    if failures.len() == 0 {
        Seq::empty()
    } else {
        let last = failures.last();
        let entry = last.window_id + ": "@ + last.detail;
        if failures.len() == 1 {
            entry
        } else {
            failures_text(failures.drop_last()) + "; "@ + entry
        }
    }
}

impl OfficeErrorView {
    /// The error in words, for display.
    pub open spec fn text(self) -> Seq<char>
        decreases self,
    {
        match self {
            Self::ProbeUnreachable => "Service not reachable"@,
            Self::ProbeTimeout => "Service did not answer in time"@,
            Self::ProbeParseFailure => "Answer could not be read"@,
            Self::InvalidOfficeType(name) => "Invalid office type: "@ + name,
            Self::PreflightNotSatisfied => "Preflight checks failed - run diagnostics first"@,
            Self::WindowNotFound => "Window not found"@,
            Self::ToolkitFailure { op, detail } => toolkit_prefix(op) + detail,
            Self::DeliveryFailure { event, failures } => delivery_prefix(event) + failures_text(
                failures,
            ),
            Self::WorkflowStepFailed { index, cause } => "Workflow step "@ + decimal(index as nat)
                + " failed: "@ + cause.text(),
        }
    }
}

/// The failed deliveries in words.
pub fn describe_failures(failures: &Vec<FailedDelivery>) -> (text: String)
    ensures
        text@ == failures_text(failure_views(failures@)),
{
    let mut text = String::new();
    let mut i: usize = 0;
    while i < failures.len()
        invariant
            i <= failures.len(),
            text@ == failures_text(failure_views(failures@).subrange(0, i as int)),
        decreases failures.len() - i,
    {
        proof {
            let views = failure_views(failures@);
            let upto = views.subrange(0, i + 1);
            assert(upto.drop_last() =~= views.subrange(0, i as int));
            assert(upto.last() == failures@[i as int]@);
        }
        if i > 0 {
            text.append("; ");
        }
        text.append(failures[i].window_id.as_str());
        text.append(": ");
        text.append(failures[i].detail.as_str());
        proof {
            let last = failures@[i as int]@;
            let entry = last.window_id + ": "@ + last.detail;
            if i > 0 {
                assert(text@ =~= failures_text(
                    failure_views(failures@).subrange(0, i as int),
                ) + "; "@ + entry);
            } else {
                assert(text@ =~= entry);
            }
        }
        i += 1;
    }
    assert(failure_views(failures@).subrange(0, failures@.len() as int) =~= failure_views(
        failures@,
    ));
    text
}

impl OfficeError {
    /// The error in words, for display.
    pub fn message(&self) -> (text: String)
        ensures
            text@ == self@.text(),
        decreases self,
    {
        match self {
            OfficeError::ProbeUnreachable => "Service not reachable".to_string(),
            OfficeError::ProbeTimeout => "Service did not answer in time".to_string(),
            OfficeError::ProbeParseFailure => "Answer could not be read".to_string(),
            OfficeError::InvalidOfficeType(name) => {
                let mut text = "Invalid office type: ".to_string();
                text.append(name.as_str());
                text
            },
            OfficeError::PreflightNotSatisfied => {
                "Preflight checks failed - run diagnostics first".to_string()
            },
            OfficeError::WindowNotFound => "Window not found".to_string(),
            OfficeError::ToolkitFailure { op, detail } => {
                let mut text = match op {
                    HostOp::CreateWindow => "Failed to create window: ".to_string(),
                    HostOp::CloseWindow => "Failed to close window: ".to_string(),
                    HostOp::Emit => "Failed to update consent: ".to_string(),
                };
                text.append(detail.as_str());
                text
            },
            OfficeError::DeliveryFailure { event, failures } => {
                let mut text = match event {
                    HostEvent::OfficeMessage => "Failed to send message: ".to_string(),
                    HostEvent::SystemBroadcast => "Failed to broadcast: ".to_string(),
                    HostEvent::MemoryConsentUpdated => "Failed to update consent: ".to_string(),
                };
                let listed = describe_failures(failures);
                text.append(listed.as_str());
                text
            },
            OfficeError::WorkflowStepFailed { index, cause } => {
                let mut text = "Workflow step ".to_string();
                let number = decimal_text(*index as u64);
                text.append(number.as_str());
                text.append(" failed: ");
                let inner = cause.message();
                text.append(inner.as_str());
                text
            },
        }
    }
}

} // verus!
