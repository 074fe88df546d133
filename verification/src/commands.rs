//! The operations on offices as the presentation layer asks for them: by
//! the role's name rather than by the role.

use vstd::prelude::*;
use vstd::string::*;

use crate::error::{is_outcome, OfficeError, OfficeErrorView};
use crate::host::{call_views, HostCall, HostEvent};
use crate::ident::UUID_LENGTH;
use crate::json::{json_document, json_model, parse_document, JsonModel};
use crate::office::{office_type_named, OfficeType};
use crate::router::emits;
use crate::window::{
    plan_close, plan_create, window_views, OfficeWindow, PendingWindow, WindowManager,
};

verus! {

/// The role that a caller means by `name`. The name is read as the inside
/// of a JSON string, so an escape stands for its character; what is read
/// must be a role's identifier.
pub open spec fn requested_office_type(name: Seq<char>) -> Option<OfficeType> {
    match json_document(vstd::utf8::encode_utf8(seq!['"'] + name + seq!['"'])) {
        Some(JsonModel::Text(identifier)) => office_type_named(identifier),
        _ => None,
    }
}

/// The role that a caller means by `name`, or the error where it means none.
pub fn parse_office_type(name: &str) -> (parsed: Result<OfficeType, OfficeError>)
    ensures
        match requested_office_type(name@) {
            Some(office_type) => parsed == Ok::<OfficeType, OfficeError>(office_type),
            None => parsed matches Err(error) && error@ == OfficeErrorView::InvalidOfficeType(
                name@,
            ),
        },
{
    let mut quoted = String::new();
    quoted.push('"');
    quoted.append(name);
    quoted.push('"');
    assert(quoted@ =~= seq!['"'] + name@ + seq!['"']);
    let found = match parse_document(quoted.as_str().as_bytes()) {
        Ok(document) => match document.as_str() {
            Some(identifier) => OfficeType::from_name(identifier),
            None => None,
        },
        Err(_) => None,
    };
    match found {
        Some(office_type) => Ok(office_type),
        None => Err(OfficeError::InvalidOfficeType(name.to_owned())),
    }
}

/// Begins opening a window of the role that `office_type` names, with the
/// default shared-memory lifetime.
pub fn create_office(manager: &WindowManager, office_type: &str, memory_consent: bool) -> (planned:
    Result<PendingWindow, OfficeError>)
    ensures
        match requested_office_type(office_type@) {
            Some(role) => exists|uuid: Seq<char>|
                uuid.len() == UUID_LENGTH && is_outcome(
                    planned,
                    #[trigger] plan_create(
                        manager@,
                        manager.retired(),
                        role,
                        memory_consent,
                        None,
                        uuid,
                    ),
                ),
            None => is_outcome(planned, Err(OfficeErrorView::InvalidOfficeType(office_type@))),
        },
{
    match parse_office_type(office_type) {
        Ok(role) => manager.create_office_window(role, memory_consent, None),
        Err(error) => Err(error),
    }
}

/// Begins closing the window `window_id`.
pub fn close_office(manager: &WindowManager, window_id: &str) -> (planned: Result<
    HostCall,
    OfficeError,
>)
    ensures
        is_outcome(planned, plan_close(manager@, window_id@)),
{
    manager.close_office_window(window_id)
}

/// A snapshot of every live window.
pub fn get_offices(manager: &WindowManager) -> (windows: Vec<OfficeWindow>)
    ensures
        window_views(windows@) == manager@,
{
    manager.get_active_offices()
}

/// The calls that deliver `message` to every live window of the role that
/// `office_type` names.
pub fn send_office_message(
    manager: &WindowManager,
    office_type: &str,
    message: serde_json::Value,
) -> (planned: Result<Vec<HostCall>, OfficeError>)
    ensures
        match (planned, requested_office_type(office_type@)) {
            (Ok(calls), Some(role)) => call_views(calls@) == emits(
                manager@,
                Some(role),
                HostEvent::OfficeMessage,
                json_model(message),
            ),
            (Err(error), None) => error@ == OfficeErrorView::InvalidOfficeType(office_type@),
            _ => false,
        },
{
    match parse_office_type(office_type) {
        Ok(role) => Ok(manager.send_to_office(&role, message)),
        Err(error) => Err(error),
    }
}

/// The calls that deliver `message` to every live window.
pub fn broadcast_message(manager: &WindowManager, message: serde_json::Value) -> (calls: Vec<
    HostCall,
>)
    ensures
        call_views(calls@) == emits(
            manager@,
            None,
            HostEvent::SystemBroadcast,
            json_model(message),
        ),
{
    manager.broadcast_to_all(message)
}

} // verus!
