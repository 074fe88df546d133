use unity_offices::commands::{
    broadcast_message, close_office, create_office, get_offices, parse_office_type,
    send_office_message,
};
use unity_offices::error::{FailedDelivery, OfficeError};
use unity_offices::host::{reply_to, HostCall, HostEvent, HostReply, WindowEvent};
use unity_offices::office::OfficeType;
use unity_offices::router::delivery_outcome;
use unity_offices::window::WindowManager;

fn open_window(manager: &mut WindowManager, office_type: OfficeType, uuid: &str) {
    let pending = manager
        .create_office_window_with(office_type, true, None, uuid)
        .unwrap();
    manager.window_created(pending, &HostReply::Done).unwrap();
}

fn text(s: &str) -> serde_json::Value {
    serde_json::Value::String(s.to_string())
}

fn emit(id: &str, event: HostEvent, payload: serde_json::Value) -> HostCall {
    HostCall::Emit { id: id.to_string(), event, payload }
}

#[test]
fn message_to_a_role_without_windows_succeeds_with_no_delivery() {
    let mut manager = WindowManager::new();
    open_window(&mut manager, OfficeType::Memory, "a");
    let calls = manager.send_to_office(&OfficeType::Security, text("m"));
    assert!(calls.is_empty());
    assert_eq!(delivery_outcome(HostEvent::OfficeMessage, &calls, &vec![]), Ok(()));

    let empty = WindowManager::new();
    assert!(empty.send_to_office(&OfficeType::Security, text("m")).is_empty());
}

#[test]
fn message_reaches_exactly_the_windows_of_the_role() {
    let mut manager = WindowManager::new();
    open_window(&mut manager, OfficeType::Memory, "a");
    open_window(&mut manager, OfficeType::Security, "b");
    open_window(&mut manager, OfficeType::Memory, "c");
    open_window(&mut manager, OfficeType::Memory, "d");
    let calls = manager.send_to_office(&OfficeType::Memory, text("hello"));
    assert_eq!(
        calls,
        vec![
            emit("office_a", HostEvent::OfficeMessage, text("hello")),
            emit("office_c", HostEvent::OfficeMessage, text("hello")),
            emit("office_d", HostEvent::OfficeMessage, text("hello")),
        ]
    );
    let replies = vec![HostReply::Done, HostReply::Done, HostReply::Done];
    assert_eq!(delivery_outcome(HostEvent::OfficeMessage, &calls, &replies), Ok(()));
}

#[test]
fn payload_is_delivered_as_sent() {
    let mut manager = WindowManager::new();
    open_window(&mut manager, OfficeType::Memory, "a");
    let mut object = serde_json::Map::new();
    object.insert("n".to_string(), serde_json::Value::from(7));
    object.insert(
        "list".to_string(),
        serde_json::Value::Array(vec![serde_json::Value::Null, serde_json::Value::Bool(true)]),
    );
    let payload = serde_json::Value::Object(object);
    let calls = manager.send_to_office(&OfficeType::Memory, payload.clone());
    assert_eq!(calls, vec![emit("office_a", HostEvent::OfficeMessage, payload)]);
}

#[test]
fn broadcast_reaches_every_window() {
    let mut manager = WindowManager::new();
    assert!(manager.broadcast_to_all(text("x")).is_empty());
    open_window(&mut manager, OfficeType::Memory, "a");
    open_window(&mut manager, OfficeType::Security, "b");
    let calls = manager.broadcast_to_all(text("x"));
    assert_eq!(
        calls,
        vec![
            emit("office_a", HostEvent::SystemBroadcast, text("x")),
            emit("office_b", HostEvent::SystemBroadcast, text("x")),
        ]
    );
}

#[test]
fn failed_deliveries_are_collected_and_named() {
    let calls = vec![
        emit("office_a", HostEvent::OfficeMessage, text("m")),
        emit("office_b", HostEvent::OfficeMessage, text("m")),
        emit("office_c", HostEvent::OfficeMessage, text("m")),
        emit("office_d", HostEvent::OfficeMessage, text("m")),
    ];
    let replies = vec![
        HostReply::Failed("first".to_string()),
        HostReply::Done,
        HostReply::Missing,
        HostReply::Failed("last".to_string()),
    ];
    let outcome = delivery_outcome(HostEvent::OfficeMessage, &calls, &replies);
    let expected = OfficeError::DeliveryFailure {
        event: HostEvent::OfficeMessage,
        failures: vec![
            FailedDelivery { window_id: "office_a".to_string(), detail: "first".to_string() },
            FailedDelivery { window_id: "office_d".to_string(), detail: "last".to_string() },
        ],
    };
    assert_eq!(outcome, Err(expected));
    assert_eq!(
        outcome.unwrap_err().message(),
        "Failed to send message: office_a: first; office_d: last"
    );
}

#[test]
fn window_gone_at_delivery_time_is_no_error() {
    let calls = vec![emit("office_a", HostEvent::SystemBroadcast, text("m"))];
    let outcome = delivery_outcome(HostEvent::SystemBroadcast, &calls, &vec![HostReply::Missing]);
    assert_eq!(outcome, Ok(()));
}

#[test]
fn call_without_reply_counts_as_failed() {
    let calls = vec![
        emit("office_a", HostEvent::SystemBroadcast, text("m")),
        emit("office_b", HostEvent::SystemBroadcast, text("m")),
    ];
    let outcome = delivery_outcome(HostEvent::SystemBroadcast, &calls, &vec![HostReply::Done]);
    assert_eq!(
        outcome,
        Err(OfficeError::DeliveryFailure {
            event: HostEvent::SystemBroadcast,
            failures: vec![FailedDelivery {
                window_id: "office_b".to_string(),
                detail: "no reply from the host".to_string(),
            }],
        })
    );
    assert_eq!(reply_to(&vec![HostReply::Missing], 0), HostReply::Missing);
    assert_eq!(
        reply_to(&vec![HostReply::Missing], 1),
        HostReply::Failed("no reply from the host".to_string())
    );
}

#[test]
fn host_call_knows_its_target() {
    let call = emit("office_a", HostEvent::SystemBroadcast, text("m"));
    assert_eq!(call.target(), "office_a");
    assert_eq!(call.clone(), call);
    let sleep = HostCall::Sleep { secs: 3 };
    assert_eq!(sleep.target(), "");
    assert_eq!(sleep.clone(), sleep);
    assert_eq!(HostCall::CloseWindow { id: "w".to_string() }.target(), "w");
    assert_eq!(HostEvent::OfficeMessage.name(), "office_message");
    assert_eq!(HostEvent::SystemBroadcast.name(), "system_broadcast");
    assert_eq!(HostEvent::MemoryConsentUpdated.name(), "memory_consent_updated");
    let listened: Vec<&str> = WindowEvent::listened().iter().map(|event| event.name()).collect();
    assert_eq!(listened, vec!["request_memory_access", "inter_office_message"]);
}

#[test]
fn commands_take_the_role_by_name() {
    let mut manager = WindowManager::new();
    let pending = create_office(&manager, "CryptoOffice", false).unwrap();
    assert_eq!(pending.window().office_type, OfficeType::CryptoOffice);
    assert!(!pending.window().memory_consent);
    assert_eq!(pending.window().shared_memory_ttl, 3600);
    let id = manager.window_created(pending, &HostReply::Done).unwrap();
    assert_eq!(get_offices(&manager).len(), 1);

    let calls = send_office_message(&manager, "CryptoOffice", text("m")).unwrap();
    assert_eq!(calls, vec![emit(&id, HostEvent::OfficeMessage, text("m"))]);
    let calls = broadcast_message(&manager, text("b"));
    assert_eq!(calls, vec![emit(&id, HostEvent::SystemBroadcast, text("b"))]);
    assert_eq!(close_office(&manager, &id), Ok(HostCall::CloseWindow { id: id.clone() }));
    assert_eq!(close_office(&manager, "office_none"), Err(OfficeError::WindowNotFound));
}

#[test]
fn unknown_role_name_is_refused() {
    let manager = WindowManager::new();
    assert_eq!(
        create_office(&manager, "Crypto Office", true).err(),
        Some(OfficeError::InvalidOfficeType("Crypto Office".to_string()))
    );
    assert_eq!(
        send_office_message(&manager, "cryptooffice", text("m")),
        Err(OfficeError::InvalidOfficeType("cryptooffice".to_string()))
    );
    assert_eq!(
        parse_office_type("Memory\" \"Security"),
        Err(OfficeError::InvalidOfficeType("Memory\" \"Security".to_string()))
    );
    assert_eq!(parse_office_type(""), Err(OfficeError::InvalidOfficeType(String::new())));
}

#[test]
fn role_name_is_read_as_a_json_string() {
    assert_eq!(parse_office_type("Memory"), Ok(OfficeType::Memory));
    assert_eq!(parse_office_type("M\\u0065mory"), Ok(OfficeType::Memory));
    assert_eq!(
        parse_office_type("Mem\nory"),
        Err(OfficeError::InvalidOfficeType("Mem\nory".to_string()))
    );
}
