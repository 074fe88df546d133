use unity_offices::error::{describe_failures, FailedDelivery, OfficeError};
use unity_offices::host::{HostEvent, HostOp};
use unity_offices::text::{
    chars_of, contains_text, decimal_text, to_lowercase, two_decimals_text,
};

#[test]
fn decimal_text_of_numbers() {
    assert_eq!(decimal_text(0), "0");
    assert_eq!(decimal_text(7), "7");
    assert_eq!(decimal_text(10), "10");
    assert_eq!(decimal_text(1234567890), "1234567890");
    assert_eq!(decimal_text(u64::MAX), "18446744073709551615");
}

#[test]
fn two_decimals_text_of_hundredths() {
    assert_eq!(two_decimals_text(0), "0.00");
    assert_eq!(two_decimals_text(5), "0.05");
    assert_eq!(two_decimals_text(50), "0.50");
    assert_eq!(two_decimals_text(199), "1.99");
    assert_eq!(two_decimals_text(123456), "1234.56");
}

#[test]
fn lowercase_changes_ascii_capitals_only() {
    assert_eq!(to_lowercase("TradingOffice"), "tradingoffice");
    assert_eq!(to_lowercase("AZ az 09 @[`{"), "az az 09 @[`{");
    assert_eq!(to_lowercase("É — Ünity"), "É — Ünity");
    assert_eq!(to_lowercase(""), "");
}

#[test]
fn substring_search() {
    assert!(contains_text("deepseek-r1:14b-q4", "deepseek-r1:14b"));
    assert!(contains_text("abc", "abc"));
    assert!(contains_text("abc", "c"));
    assert!(contains_text("abc", ""));
    assert!(contains_text("", ""));
    assert!(!contains_text("", "a"));
    assert!(!contains_text("abc", "abcd"));
    assert!(!contains_text("abc", "ac"));
    assert!(!contains_text("aab", "aba"));
    assert!(contains_text("aaab", "aab"));
    assert!(contains_text("grüße — ok", "ße —"));
    assert!(!contains_text("Model", "model"));
}

#[test]
fn characters_of_a_text() {
    assert_eq!(chars_of("a—b"), vec!['a', '—', 'b']);
    assert!(chars_of("").is_empty());
}

#[test]
fn error_messages() {
    assert_eq!(OfficeError::WindowNotFound.message(), "Window not found");
    assert_eq!(OfficeError::ProbeUnreachable.message(), "Service not reachable");
    assert_eq!(OfficeError::ProbeTimeout.message(), "Service did not answer in time");
    assert_eq!(OfficeError::ProbeParseFailure.message(), "Answer could not be read");
    assert_eq!(
        OfficeError::InvalidOfficeType("Nope".to_string()).message(),
        "Invalid office type: Nope"
    );
    assert_eq!(
        OfficeError::ToolkitFailure { op: HostOp::CreateWindow, detail: "x".to_string() }.message(),
        "Failed to create window: x"
    );
    assert_eq!(
        OfficeError::ToolkitFailure { op: HostOp::CloseWindow, detail: "y".to_string() }.message(),
        "Failed to close window: y"
    );
    assert_eq!(
        OfficeError::ToolkitFailure { op: HostOp::Emit, detail: "z".to_string() }.message(),
        "Failed to update consent: z"
    );
    let one = FailedDelivery { window_id: "office_a".to_string(), detail: "d".to_string() };
    assert_eq!(one.clone(), one);
    assert_eq!(
        OfficeError::DeliveryFailure { event: HostEvent::SystemBroadcast, failures: vec![one] }
            .message(),
        "Failed to broadcast: office_a: d"
    );
    assert_eq!(
        OfficeError::DeliveryFailure { event: HostEvent::MemoryConsentUpdated, failures: vec![] }
            .message(),
        "Failed to update consent: "
    );
    assert_eq!(describe_failures(&vec![]), "");
    let nested = OfficeError::WorkflowStepFailed {
        index: 12,
        cause: Box::new(OfficeError::ToolkitFailure {
            op: HostOp::CloseWindow,
            detail: "busy".to_string(),
        }),
    };
    assert_eq!(nested.message(), "Workflow step 12 failed: Failed to close window: busy");
}
