use unity_offices::error::OfficeError;
use unity_offices::host::{HostCall, HostEvent, HostOp, HostReply};
use unity_offices::office::OfficeType;
use unity_offices::window::{OfficeWindow, WindowManager, DEFAULT_SHARED_MEMORY_TTL};

fn open(manager: &mut WindowManager, office_type: OfficeType, uuid: &str) -> String {
    let pending = manager
        .create_office_window_with(office_type, true, None, uuid)
        .unwrap();
    manager.window_created(pending, &HostReply::Done).unwrap()
}

#[test]
fn new_registry_is_empty() {
    let manager = WindowManager::new();
    assert_eq!(manager.len(), 0);
    assert!(manager.get_active_offices().is_empty());
    assert!(!manager.contains("office_a"));
}

#[test]
fn created_window_is_listed_with_requested_role_and_defaults() {
    let mut manager = WindowManager::new();
    let pending = manager
        .create_office_window_with(OfficeType::TradingOffice, false, None, "u-1")
        .unwrap();
    assert_eq!(
        pending.host_call(),
        HostCall::CreateWindow {
            id: "office_u-1".to_string(),
            title: "Unity — Trading Office".to_string(),
            url: "http://localhost:1420/office/tradingoffice".to_string(),
            width: 1600,
            height: 900,
            resizable: true,
            centered: true,
        }
    );
    assert_eq!(manager.len(), 0);
    let id = manager.window_created(pending, &HostReply::Done).unwrap();
    assert_eq!(id, "office_u-1");
    let listed = manager.get_active_offices();
    assert_eq!(
        listed,
        vec![OfficeWindow {
            id: "office_u-1".to_string(),
            office_type: OfficeType::TradingOffice,
            title: "Unity — Trading Office".to_string(),
            position: None,
            size: (1600, 900),
            memory_consent: false,
            shared_memory_ttl: 3600,
        }]
    );
    assert_eq!(DEFAULT_SHARED_MEMORY_TTL, 3600);
}

#[test]
fn created_window_takes_the_lifetime_asked_for() {
    let mut manager = WindowManager::new();
    let pending = manager
        .create_office_window_with(OfficeType::Memory, true, Some(45), "u-2")
        .unwrap();
    manager.window_created(pending, &HostReply::Done).unwrap();
    let listed = manager.get_active_offices();
    assert_eq!(listed.len(), 1);
    assert_eq!(listed[0].shared_memory_ttl, 45);
    assert!(listed[0].memory_consent);
    assert_eq!(listed[0].size, (1200, 800));
}

#[test]
fn random_identifiers_have_the_documented_shape() {
    let manager = WindowManager::new();
    let pending = manager
        .create_office_window(OfficeType::Orchestrator, true, None)
        .unwrap();
    let id = pending.window().id.clone();
    assert!(id.starts_with("office_"));
    assert_eq!(id.len(), 7 + 36);
    let uuid = &id[7..];
    for (i, c) in uuid.chars().enumerate() {
        if i == 8 || i == 13 || i == 18 || i == 23 {
            assert_eq!(c, '-');
        } else {
            assert!(c.is_ascii_hexdigit() && !c.is_ascii_uppercase());
        }
    }
    let other = manager
        .create_office_window(OfficeType::Orchestrator, true, None)
        .unwrap();
    assert_ne!(other.window().id, id);
}

#[test]
fn identifiers_are_never_reused_over_many_cycles() {
    let mut manager = WindowManager::new();
    let mut seen = std::collections::HashSet::new();
    for _ in 0..1000 {
        let pending = manager
            .create_office_window(OfficeType::LifeCoach, true, None)
            .unwrap();
        let id = manager.window_created(pending, &HostReply::Done).unwrap();
        assert!(seen.insert(id.clone()));
        let listed = manager.get_active_offices();
        assert_eq!(listed.len(), 1);
        assert_eq!(listed[0].id, id);
        assert_eq!(listed[0].office_type, OfficeType::LifeCoach);
        assert!(listed[0].memory_consent);
        assert_eq!(listed[0].shared_memory_ttl, 3600);
        let call = manager.close_office_window(&id).unwrap();
        assert_eq!(call, HostCall::CloseWindow { id: id.clone() });
        manager.window_closed(&id, &HostReply::Done).unwrap();
        assert_eq!(manager.len(), 0);
    }
    assert_eq!(seen.len(), 1000);
}

#[test]
fn failed_creation_leaves_no_trace() {
    let mut manager = WindowManager::new();
    let pending = manager
        .create_office_window_with(OfficeType::Security, true, None, "u-3")
        .unwrap();
    let result = manager.window_created(pending, &HostReply::Failed("no display".to_string()));
    assert_eq!(
        result,
        Err(OfficeError::ToolkitFailure {
            op: HostOp::CreateWindow,
            detail: "no display".to_string(),
        })
    );
    assert_eq!(manager.len(), 0);

    let pending = manager
        .create_office_window_with(OfficeType::Security, true, None, "u-3")
        .unwrap();
    let result = manager.window_created(pending, &HostReply::Missing);
    assert_eq!(
        result,
        Err(OfficeError::ToolkitFailure {
            op: HostOp::CreateWindow,
            detail: "the host did not create the window".to_string(),
        })
    );
    assert_eq!(manager.len(), 0);
}

#[test]
fn taken_identifier_is_refused() {
    let mut manager = WindowManager::new();
    open(&mut manager, OfficeType::Memory, "same");
    let again = manager.create_office_window_with(OfficeType::Security, true, None, "same");
    assert_eq!(
        again.err(),
        Some(OfficeError::ToolkitFailure {
            op: HostOp::CreateWindow,
            detail: "window identifier already in use".to_string(),
        })
    );

    let mut other = WindowManager::new();
    let pending = other
        .create_office_window_with(OfficeType::Security, true, None, "same")
        .unwrap();
    let result = manager.window_created(pending, &HostReply::Done);
    assert_eq!(
        result,
        Err(OfficeError::ToolkitFailure {
            op: HostOp::CreateWindow,
            detail: "window identifier already in use".to_string(),
        })
    );
    assert_eq!(manager.len(), 1);
    assert_eq!(manager.get_active_offices()[0].office_type, OfficeType::Memory);
    assert_eq!(other.len(), 0);
    let _ = &mut other;
}

#[test]
fn closing_an_unknown_window_is_not_found_and_changes_nothing() {
    let mut manager = WindowManager::new();
    open(&mut manager, OfficeType::Memory, "a");
    open(&mut manager, OfficeType::Security, "b");
    let before = manager.get_active_offices();
    assert_eq!(
        manager.close_office_window("office_zzz"),
        Err(OfficeError::WindowNotFound)
    );
    assert_eq!(
        manager.window_closed("office_zzz", &HostReply::Done),
        Err(OfficeError::WindowNotFound)
    );
    assert_eq!(
        manager.window_closed("office_zzz", &HostReply::Failed("x".to_string())),
        Err(OfficeError::WindowNotFound)
    );
    assert_eq!(manager.get_active_offices(), before);
}

#[test]
fn closing_removes_exactly_that_window() {
    let mut manager = WindowManager::new();
    open(&mut manager, OfficeType::Memory, "a");
    open(&mut manager, OfficeType::Security, "b");
    open(&mut manager, OfficeType::Orchestrator, "c");
    assert_eq!(
        manager.close_office_window("office_b"),
        Ok(HostCall::CloseWindow { id: "office_b".to_string() })
    );
    assert_eq!(manager.len(), 3);
    assert_eq!(manager.window_closed("office_b", &HostReply::Done), Ok(()));
    let ids: Vec<String> = manager.get_active_offices().into_iter().map(|w| w.id).collect();
    assert_eq!(ids, vec!["office_a".to_string(), "office_c".to_string()]);
    assert!(!manager.contains("office_b"));
    assert!(manager.contains("office_c"));
}

#[test]
fn window_that_the_host_no_longer_knows_is_dropped_on_close() {
    let mut manager = WindowManager::new();
    open(&mut manager, OfficeType::Memory, "a");
    assert_eq!(manager.window_closed("office_a", &HostReply::Missing), Ok(()));
    assert_eq!(manager.len(), 0);
}

#[test]
fn failed_destruction_keeps_the_record() {
    let mut manager = WindowManager::new();
    open(&mut manager, OfficeType::Memory, "a");
    let result = manager.window_closed("office_a", &HostReply::Failed("busy".to_string()));
    assert_eq!(
        result,
        Err(OfficeError::ToolkitFailure { op: HostOp::CloseWindow, detail: "busy".to_string() })
    );
    assert_eq!(manager.len(), 1);
    assert!(manager.contains("office_a"));
}

#[test]
fn consent_is_stored_and_the_window_is_told() {
    let mut manager = WindowManager::new();
    open(&mut manager, OfficeType::Memory, "a");
    open(&mut manager, OfficeType::Security, "b");
    let call = manager.update_memory_consent("office_b", false).unwrap();
    assert_eq!(
        call,
        HostCall::Emit {
            id: "office_b".to_string(),
            event: HostEvent::MemoryConsentUpdated,
            payload: serde_json::Value::Bool(false),
        }
    );
    let listed = manager.get_active_offices();
    assert!(listed[0].memory_consent);
    assert!(!listed[1].memory_consent);
    assert_eq!(listed[1].office_type, OfficeType::Security);

    let call = manager.update_memory_consent("office_b", true).unwrap();
    assert_eq!(
        call,
        HostCall::Emit {
            id: "office_b".to_string(),
            event: HostEvent::MemoryConsentUpdated,
            payload: serde_json::Value::Bool(true),
        }
    );
    assert!(manager.get_active_offices()[1].memory_consent);
}

#[test]
fn failed_consent_notice_is_reported_and_not_rolled_back() {
    let mut manager = WindowManager::new();
    open(&mut manager, OfficeType::Memory, "a");
    manager.update_memory_consent("office_a", false).unwrap();
    let result = WindowManager::consent_notified(&HostReply::Failed("gone".to_string()));
    assert_eq!(
        result,
        Err(OfficeError::ToolkitFailure { op: HostOp::Emit, detail: "gone".to_string() })
    );
    assert!(!manager.get_active_offices()[0].memory_consent);
    assert_eq!(WindowManager::consent_notified(&HostReply::Done), Ok(()));
    assert_eq!(WindowManager::consent_notified(&HostReply::Missing), Ok(()));
}

#[test]
fn consent_and_lifetime_of_an_unknown_window_are_not_found() {
    let mut manager = WindowManager::new();
    open(&mut manager, OfficeType::Memory, "a");
    let before = manager.get_active_offices();
    assert_eq!(
        manager.update_memory_consent("office_x", false),
        Err(OfficeError::WindowNotFound)
    );
    assert_eq!(manager.update_memory_ttl("office_x", 5), Err(OfficeError::WindowNotFound));
    assert_eq!(manager.get_active_offices(), before);
}

#[test]
fn lifetime_is_updated_in_place() {
    let mut manager = WindowManager::new();
    open(&mut manager, OfficeType::Memory, "a");
    open(&mut manager, OfficeType::Security, "b");
    assert_eq!(manager.update_memory_ttl("office_a", 0), Ok(()));
    assert_eq!(manager.update_memory_ttl("office_b", u64::MAX), Ok(()));
    let listed = manager.get_active_offices();
    assert_eq!(listed[0].shared_memory_ttl, 0);
    assert_eq!(listed[1].shared_memory_ttl, u64::MAX);
    assert_eq!(listed[0].id, "office_a");
    assert_eq!(listed[0].office_type, OfficeType::Memory);
}

#[test]
fn closed_identifier_is_never_handed_out_again() {
    let mut manager = WindowManager::new();
    assert!(!manager.was_closed("office_a"));
    open(&mut manager, OfficeType::Memory, "a");
    assert!(!manager.was_closed("office_a"));
    manager.window_closed("office_a", &HostReply::Done).unwrap();
    assert!(manager.was_closed("office_a"));
    assert!(!manager.was_closed("office_b"));
    assert!(!manager.contains("office_a"));

    let again = manager.create_office_window_with(OfficeType::Memory, true, None, "a");
    assert_eq!(
        again.err(),
        Some(OfficeError::ToolkitFailure {
            op: HostOp::CreateWindow,
            detail: "window identifier already in use".to_string(),
        })
    );

    let elsewhere = WindowManager::new();
    let pending = elsewhere
        .create_office_window_with(OfficeType::Security, true, None, "a")
        .unwrap();
    assert_eq!(
        manager.window_created(pending, &HostReply::Done),
        Err(OfficeError::ToolkitFailure {
            op: HostOp::CreateWindow,
            detail: "window identifier already in use".to_string(),
        })
    );
    assert_eq!(manager.len(), 0);

    open(&mut manager, OfficeType::Memory, "b");
    assert_eq!(manager.len(), 1);
}

#[test]
fn identifier_of_a_window_that_stays_open_is_not_retired() {
    let mut manager = WindowManager::new();
    open(&mut manager, OfficeType::Memory, "a");
    let _ = manager.window_closed("office_a", &HostReply::Failed("busy".to_string()));
    assert!(!manager.was_closed("office_a"));
    assert!(manager.contains("office_a"));
    let _ = manager.window_closed("office_x", &HostReply::Done);
    assert!(!manager.was_closed("office_x"));
    manager.window_closed("office_a", &HostReply::Missing).unwrap();
    assert!(manager.was_closed("office_a"));
}
