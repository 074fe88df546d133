//! The vocabulary spoken with the host: the calls that the library asks the
//! windowing toolkit and the runtime to perform, and what they answer.

use vstd::prelude::*;
use vstd::string::*;

use crate::json::{json_model, JsonModel};

verus! {

/// An event that the library has the host emit to a window.
#[derive(Debug, Clone, Copy, PartialEq, Eq, Hash, Structural)]
pub enum HostEvent {
    /// A message addressed to the windows of one role.
    OfficeMessage,
    /// A message addressed to every window.
    SystemBroadcast,
    /// A window's memory-sharing consent was changed.
    MemoryConsentUpdated,
}

impl HostEvent {
    /// The name under which the event travels.
    pub open spec fn wire_name(self) -> Seq<char> {
        match self {
            Self::OfficeMessage => "office_message"@,
            Self::SystemBroadcast => "system_broadcast"@,
            Self::MemoryConsentUpdated => "memory_consent_updated"@,
        }
    }

    /// The name under which the event travels.
    pub fn name(&self) -> (name: &'static str)
        ensures
            name@ == self.wire_name(),
    {
        match self {
            Self::OfficeMessage => "office_message",
            Self::SystemBroadcast => "system_broadcast",
            Self::MemoryConsentUpdated => "memory_consent_updated",
        }
    }
}

/// An event that the host listens for on every office window.
#[derive(Debug, Clone, Copy, PartialEq, Eq, Hash, Structural)]
pub enum WindowEvent {
    /// The window asks for access to shared memory.
    RequestMemoryAccess,
    /// The window sends a message to another office.
    InterOfficeMessage,
}

impl WindowEvent {
    /// The name under which the event travels.
    pub open spec fn wire_name(self) -> Seq<char> {
        match self {
            Self::RequestMemoryAccess => "request_memory_access"@,
            Self::InterOfficeMessage => "inter_office_message"@,
        }
    }

    /// The name under which the event travels.
    pub fn name(&self) -> (name: &'static str)
        ensures
            name@ == self.wire_name(),
    {
        match self {
            Self::RequestMemoryAccess => "request_memory_access",
            Self::InterOfficeMessage => "inter_office_message",
        }
    }

    /// The events that the host listens for on a window from its creation
    /// on.
    pub fn listened() -> (events: Vec<WindowEvent>)
        ensures
            events@ == seq![WindowEvent::RequestMemoryAccess, WindowEvent::InterOfficeMessage],
    {
        let events = vec![WindowEvent::RequestMemoryAccess, WindowEvent::InterOfficeMessage];
        assert(events@ =~= seq![
            WindowEvent::RequestMemoryAccess,
            WindowEvent::InterOfficeMessage,
        ]);
        events
    }
}

/// The kinds of call on the windowing toolkit, each of which can fail.
#[derive(Debug, Clone, Copy, PartialEq, Eq, Hash, Structural)]
pub enum HostOp {
    CreateWindow,
    CloseWindow,
    Emit,
}

/// One call for the host to perform.
#[derive(Debug, PartialEq, Eq)]
pub enum HostCall {
    /// Materialise a window, and listen on it for each event of
    /// `WindowEvent::listened()`.
    CreateWindow {
        id: String,
        title: String,
        url: String,
        width: u32,
        height: u32,
        resizable: bool,
        centered: bool,
    },
    /// Destroy a window.
    CloseWindow { id: String },
    /// Emit an event, with its payload, to one window.
    Emit { id: String, event: HostEvent, payload: serde_json::Value },
    /// Suspend the caller for a number of seconds.
    Sleep { secs: u64 },
}

/// The mathematical content of a `HostCall`.
pub enum HostCallView {
    CreateWindow {
        id: Seq<char>,
        title: Seq<char>,
        url: Seq<char>,
        width: u32,
        height: u32,
        resizable: bool,
        centered: bool,
    },
    CloseWindow { id: Seq<char> },
    Emit { id: Seq<char>, event: HostEvent, payload: JsonModel },
    Sleep { secs: u64 },
}

impl HostCallView {
    /// The window that the call is about; empty for a call about none.
    pub open spec fn target(self) -> Seq<char> {
        match self {
            Self::CreateWindow { id, .. } => id,
            Self::CloseWindow { id } => id,
            Self::Emit { id, .. } => id,
            Self::Sleep { .. } => Seq::empty(),
        }
    }
}

impl View for HostCall {
    type V = HostCallView;

    open spec fn view(&self) -> HostCallView {
        match *self {
            HostCall::CreateWindow { id, title, url, width, height, resizable, centered } => {
                HostCallView::CreateWindow {
                    id: id@,
                    title: title@,
                    url: url@,
                    width,
                    height,
                    resizable,
                    centered,
                }
            },
            HostCall::CloseWindow { id } => HostCallView::CloseWindow { id: id@ },
            HostCall::Emit { id, event, payload } => HostCallView::Emit {
                id: id@,
                event,
                payload: json_model(payload),
            },
            HostCall::Sleep { secs } => HostCallView::Sleep { secs },
        }
    }
}

impl Clone for HostCall {
    fn clone(&self) -> (copy: Self)
        ensures
            copy@ == self@,
    {
        match self {
            HostCall::CreateWindow { id, title, url, width, height, resizable, centered } => {
                HostCall::CreateWindow {
                    id: id.clone(),
                    title: title.clone(),
                    url: url.clone(),
                    width: *width,
                    height: *height,
                    resizable: *resizable,
                    centered: *centered,
                }
            },
            HostCall::CloseWindow { id } => HostCall::CloseWindow { id: id.clone() },
            HostCall::Emit { id, event, payload } => HostCall::Emit {
                id: id.clone(),
                event: *event,
                payload: payload.clone(),
            },
            HostCall::Sleep { secs } => HostCall::Sleep { secs: *secs },
        }
    }
}

impl HostCall {
    /// The window that the call is about; empty for a call about none.
    pub fn target(&self) -> (id: String)
        ensures
            id@ == self@.target(),
    {
        match self {
            HostCall::CreateWindow { id, .. } => id.clone(),
            HostCall::CloseWindow { id } => id.clone(),
            HostCall::Emit { id, .. } => id.clone(),
            HostCall::Sleep { .. } => String::new(),
        }
    }
}

/// What the host answers to one call.
#[derive(Debug, PartialEq, Eq)]
pub enum HostReply {
    /// The call was performed.
    Done,
    /// The host knows no window of that identifier, so nothing was done.
    Missing,
    /// The host tried and failed; the text is its own account.
    Failed(String),
}

/// The mathematical content of a `HostReply`.
pub enum HostReplyView {
    Done,
    Missing,
    Failed(Seq<char>),
}

impl View for HostReply {
    type V = HostReplyView;

    open spec fn view(&self) -> HostReplyView {
        match *self {
            HostReply::Done => HostReplyView::Done,
            HostReply::Missing => HostReplyView::Missing,
            HostReply::Failed(detail) => HostReplyView::Failed(detail@),
        }
    }
}

impl Clone for HostReply {
    fn clone(&self) -> (copy: Self)
        ensures
            copy@ == self@,
    {
        match self {
            HostReply::Done => HostReply::Done,
            HostReply::Missing => HostReply::Missing,
            HostReply::Failed(detail) => HostReply::Failed(detail.clone()),
        }
    }
}

/// The views of `calls`, in order.
pub open spec fn call_views(calls: Seq<HostCall>) -> Seq<HostCallView> {
    calls.map_values(|call: HostCall| call@)
}

/// The views of `replies`, in order.
pub open spec fn reply_views(replies: Seq<HostReply>) -> Seq<HostReplyView> {
    replies.map_values(|reply: HostReply| reply@)
}

/// What stands for the answer to a call that the host did not answer.
pub open spec fn no_reply() -> HostReplyView {
    HostReplyView::Failed("no reply from the host"@)
}

/// The answer to the call at `index`: the reply at that place, or
/// `no_reply()` where the host gave fewer replies than that.
pub open spec fn reply_at(replies: Seq<HostReplyView>, index: int) -> HostReplyView {
    if 0 <= index < replies.len() {
        replies[index]
    } else {
        no_reply()
    }
}

/// The answer to the call at `index`.
pub fn reply_to(replies: &Vec<HostReply>, index: usize) -> (reply: HostReply)
    ensures
        reply@ == reply_at(reply_views(replies@), index as int),
{
    if index < replies.len() {
        replies[index].clone()
    } else {
        HostReply::Failed("no reply from the host".to_string())
    }
}

} // verus!
