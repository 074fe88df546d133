//! The registry of live office windows.
//!
//! The registry never touches the screen itself. An operation that needs the
//! host comes in two halves: the first checks the request against the
//! registry and says which call the host is to perform; the second takes the
//! host's reply and brings the registry up to date.

use vstd::prelude::*;
use vstd::string::*;

use crate::error::{is_outcome, OfficeError, OfficeErrorView};
use crate::host::{HostCall, HostCallView, HostEvent, HostOp, HostReply, HostReplyView};
use crate::ident::{random_uuid, UUID_LENGTH};
use crate::json::{json_bool, JsonModel};
use crate::office::OfficeType;

verus! {

/// Seconds that a window's shared memory lives where the caller names none.
pub const DEFAULT_SHARED_MEMORY_TTL: u64 = 3600;

/// One live office window.
#[derive(Debug, PartialEq, Eq)]
pub struct OfficeWindow {
    pub id: String,
    pub office_type: OfficeType,
    pub title: String,
    pub position: Option<(i32, i32)>,
    pub size: (u32, u32),
    pub memory_consent: bool,
    /// In seconds.
    pub shared_memory_ttl: u64,
}

/// The mathematical content of an `OfficeWindow`.
pub struct OfficeWindowView {
    pub id: Seq<char>,
    pub office_type: OfficeType,
    pub title: Seq<char>,
    pub position: Option<(i32, i32)>,
    pub size: (u32, u32),
    pub memory_consent: bool,
    pub shared_memory_ttl: u64,
}

impl View for OfficeWindow {
    type V = OfficeWindowView;

    open spec fn view(&self) -> OfficeWindowView {
        OfficeWindowView {
            id: self.id@,
            office_type: self.office_type,
            title: self.title@,
            position: self.position,
            size: self.size,
            memory_consent: self.memory_consent,
            shared_memory_ttl: self.shared_memory_ttl,
        }
    }
}

impl Clone for OfficeWindow {
    fn clone(&self) -> (copy: Self)
        ensures
            copy@ == self@,
    {
        OfficeWindow {
            id: self.id.clone(),
            office_type: self.office_type,
            title: self.title.clone(),
            position: self.position,
            size: self.size,
            memory_consent: self.memory_consent,
            shared_memory_ttl: self.shared_memory_ttl,
        }
    }
}

/// The views of `windows`, in order.
pub open spec fn window_views(windows: Seq<OfficeWindow>) -> Seq<OfficeWindowView> {
    windows.map_values(|window: OfficeWindow| window@)
}

/// The title of a window of role `office_type`.
pub open spec fn window_title(office_type: OfficeType) -> Seq<char> {
    "Unity — "@ + office_type.display_name()
}

/// The window identifier made from a UUID.
pub open spec fn window_id(uuid: Seq<char>) -> Seq<char> {
    "office_"@ + uuid
}

/// The record of a window of role `office_type` as it is when it opens.
pub open spec fn new_window(
    office_type: OfficeType,
    memory_consent: bool,
    shared_memory_ttl: Option<u64>,
    id: Seq<char>,
) -> OfficeWindowView {
    OfficeWindowView {
        id,
        office_type,
        title: window_title(office_type),
        position: None,
        size: office_type.default_size(),
        memory_consent,
        shared_memory_ttl: match shared_memory_ttl {
            Some(ttl) => ttl,
            None => DEFAULT_SHARED_MEMORY_TTL,
        },
    }
}

/// The call that has the host materialise `window`: at its size, loaded from
/// its role's address, resizable and centered.
pub open spec fn create_call(window: OfficeWindowView) -> HostCallView {
    HostCallView::CreateWindow {
        id: window.id,
        title: window.title,
        url: window.office_type.locator(),
        width: window.size.0,
        height: window.size.1,
        resizable: true,
        centered: true,
    }
}

/// Whether `registry` holds a window with identifier `id`.
pub open spec fn has_window(registry: Seq<OfficeWindowView>, id: Seq<char>) -> bool {
    exists|i: int| 0 <= i < registry.len() && #[trigger] registry[i].id == id
}

/// The place of the window with identifier `id`, where `registry` holds one.
pub open spec fn index_of(registry: Seq<OfficeWindowView>, id: Seq<char>) -> int {
    choose|i: int| 0 <= i < registry.len() && #[trigger] registry[i].id == id
}

/// No two windows of `registry` share an identifier.
pub open spec fn ids_distinct(registry: Seq<OfficeWindowView>) -> bool {
    forall|i: int, j: int|
        0 <= i < registry.len() && 0 <= j < registry.len() && i != j ==> #[trigger] registry[i].id
            != #[trigger] registry[j].id
}

/// The texts of `identifiers`, as a set.
pub open spec fn identifier_set(identifiers: Seq<String>) -> Set<Seq<char>> {
    Set::new(
        |id: Seq<char>| exists|i: int| 0 <= i < identifiers.len() && (#[trigger] identifiers[i])@ == id,
    )
}

/// Whether `id` is or has been in use: a live window has it, or a window
/// that was closed had it.
pub open spec fn is_used(registry: Seq<OfficeWindowView>, retired: Set<Seq<char>>, id: Seq<char>)
    -> bool {
    has_window(registry, id) || retired.contains(id)
}

/// No live window has the identifier of a window that was closed.
pub open spec fn retired_apart(registry: Seq<OfficeWindowView>, retired: Set<Seq<char>>) -> bool {
    forall|i: int| 0 <= i < registry.len() ==> !retired.contains(#[trigger] registry[i].id)
}

/// What is said of a window identifier that is or has been in use.
pub open spec fn id_in_use() -> Seq<char> {
    "window identifier already in use"@
}

/// What stands for the host's account where it reports a window missing
/// that it was asked to create.
pub open spec fn not_created() -> Seq<char> {
    "the host did not create the window"@
}

/// A request to open a window: the record that would be made for it, or the
/// error where its identifier is or has been in use.
pub open spec fn plan_create(
    registry: Seq<OfficeWindowView>,
    retired: Set<Seq<char>>,
    office_type: OfficeType,
    memory_consent: bool,
    shared_memory_ttl: Option<u64>,
    uuid: Seq<char>,
) -> Result<OfficeWindowView, OfficeErrorView> {
    let window = new_window(office_type, memory_consent, shared_memory_ttl, window_id(uuid));
    if is_used(registry, retired, window.id) {
        Err(OfficeErrorView::ToolkitFailure { op: HostOp::CreateWindow, detail: id_in_use() })
    } else {
        Ok(window)
    }
}

/// The registry and the result after the host answered a request to create
/// `window`: the record is added only where the host created the window.
pub open spec fn after_created(
    registry: Seq<OfficeWindowView>,
    retired: Set<Seq<char>>,
    window: OfficeWindowView,
    reply: HostReplyView,
) -> (Seq<OfficeWindowView>, Result<Seq<char>, OfficeErrorView>) {
    match reply {
        HostReplyView::Done => {
            if is_used(registry, retired, window.id) {
                (
                    registry,
                    Err(
                        OfficeErrorView::ToolkitFailure {
                            op: HostOp::CreateWindow,
                            detail: id_in_use(),
                        },
                    ),
                )
            } else {
                (registry.push(window), Ok(window.id))
            }
        },
        HostReplyView::Missing => (
            registry,
            Err(OfficeErrorView::ToolkitFailure { op: HostOp::CreateWindow, detail: not_created() }),
        ),
        HostReplyView::Failed(detail) => (
            registry,
            Err(OfficeErrorView::ToolkitFailure { op: HostOp::CreateWindow, detail }),
        ),
    }
}

/// A request to close the window `id`: the call for the host, or the error
/// where no such window is live.
pub open spec fn plan_close(registry: Seq<OfficeWindowView>, id: Seq<char>) -> Result<
    HostCallView,
    OfficeErrorView,
> {
    if has_window(registry, id) {
        Ok(HostCallView::CloseWindow { id })
    } else {
        Err(OfficeErrorView::WindowNotFound)
    }
}

/// The registry and the result after the host answered a request to close
/// the window `id`: the record leaves only where the window is gone, and
/// stays where the host failed to destroy it.
pub open spec fn after_closed(
    registry: Seq<OfficeWindowView>,
    id: Seq<char>,
    reply: HostReplyView,
) -> (Seq<OfficeWindowView>, Result<(), OfficeErrorView>) {
    if !has_window(registry, id) {
        (registry, Err(OfficeErrorView::WindowNotFound))
    } else {
        match reply {
            HostReplyView::Done | HostReplyView::Missing => (
                registry.remove(index_of(registry, id)),
                Ok(()),
            ),
            HostReplyView::Failed(detail) => (
                registry,
                Err(OfficeErrorView::ToolkitFailure { op: HostOp::CloseWindow, detail }),
            ),
        }
    }
}

/// The identifiers of closed windows after the host answered a request to
/// close the window `id`: where the record leaves the registry, its
/// identifier joins them.
pub open spec fn retired_after_closed(
    registry: Seq<OfficeWindowView>,
    retired: Set<Seq<char>>,
    id: Seq<char>,
    reply: HostReplyView,
) -> Set<Seq<char>> {
    if has_window(registry, id) && !(reply is Failed) {
        retired.insert(id)
    } else {
        retired
    }
}

/// `registry` with the consent flag of the window `id` set to `consent`.
pub open spec fn with_consent(
    registry: Seq<OfficeWindowView>,
    id: Seq<char>,
    consent: bool,
) -> Seq<OfficeWindowView> {
    let at = index_of(registry, id);
    registry.update(at, OfficeWindowView { memory_consent: consent, ..registry[at] })
}

/// `registry` with the shared-memory lifetime of the window `id` set to `ttl`.
pub open spec fn with_ttl(registry: Seq<OfficeWindowView>, id: Seq<char>, ttl: u64) -> Seq<
    OfficeWindowView,
> {
    let at = index_of(registry, id);
    registry.update(at, OfficeWindowView { shared_memory_ttl: ttl, ..registry[at] })
}

/// The call that tells the window `id` of its new consent value.
pub open spec fn consent_notice(id: Seq<char>, consent: bool) -> HostCallView {
    HostCallView::Emit {
        id,
        event: HostEvent::MemoryConsentUpdated,
        payload: JsonModel::Bool(consent),
    }
}

/// The result of a consent change once the host answered the notice: the
/// change stands either way, and a failed notice is reported.
pub open spec fn after_notified(reply: HostReplyView) -> Result<(), OfficeErrorView> {
    match reply {
        HostReplyView::Failed(detail) => Err(
            OfficeErrorView::ToolkitFailure { op: HostOp::Emit, detail },
        ),
        _ => Ok(()),
    }
}

/// A window whose creation has been asked of the host and not yet answered.
#[derive(Debug)]
pub struct PendingWindow {
    window: OfficeWindow,
}

impl View for PendingWindow {
    type V = OfficeWindowView;

    closed spec fn view(&self) -> OfficeWindowView {
        self.window@
    }
}

impl PendingWindow {
    /// The record that will be made for the window.
    pub fn window(&self) -> (window: &OfficeWindow)
        ensures
            window@ == self@,
    {
        &self.window
    }

    /// The call that has the host materialise the window.
    pub fn host_call(&self) -> (call: HostCall)
        ensures
            call@ == create_call(self@),
    {
        HostCall::CreateWindow {
            id: self.window.id.clone(),
            title: self.window.title.clone(),
            url: self.window.office_type.get_url(),
            width: self.window.size.0,
            height: self.window.size.1,
            resizable: true,
            centered: true,
        }
    }
}

/// The registry of live office windows, in the order in which they opened.
/// It remembers the identifier of every window that was closed, so that no
/// identifier is handed out twice.
#[derive(Debug)]
pub struct WindowManager {
    windows: Vec<OfficeWindow>,
    retired: Vec<String>,
}

impl View for WindowManager {
    type V = Seq<OfficeWindowView>;

    closed spec fn view(&self) -> Seq<OfficeWindowView> {
        window_views(self.windows@)
    }
}

impl WindowManager {
    /// The identifiers of the windows that were closed.
    pub closed spec fn retired(&self) -> Set<Seq<char>> {
        identifier_set(self.retired@)
    }

    #[verifier::type_invariant]
    spec fn identifiers_are_unique(self) -> bool {
        ids_distinct(self@) && retired_apart(self@, self.retired())
    }

    /// A registry without windows, and with no window closed yet.
    pub fn new() -> (manager: Self)
        ensures
            manager@ == Seq::<OfficeWindowView>::empty(),
            manager.retired() == Set::<Seq<char>>::empty(),
            ids_distinct(manager@),
    {
        let manager = WindowManager { windows: Vec::new(), retired: Vec::new() };
        assert(manager@ =~= Seq::<OfficeWindowView>::empty());
        assert(manager.retired() =~= Set::<Seq<char>>::empty());
        manager
    }

    /// Whether a window that was closed had the identifier `window_id`.
    pub fn was_closed(&self, window_id: &str) -> (closed: bool)
        ensures
            closed == self.retired().contains(window_id@),
    {
        let wanted = window_id.to_owned();
        let mut at: usize = 0;
        while at < self.retired.len()
            invariant
                at <= self.retired.len(),
                wanted@ == window_id@,
                forall|j: int| 0 <= j < at ==> (#[trigger] self.retired@[j])@ != window_id@,
            decreases self.retired.len() - at,
        {
            if self.retired[at] == wanted {
                assert(self.retired@[at as int]@ == window_id@);
                return true;
            }
            at += 1;
        }
        false
    }

    /// The place of the window `window_id`, if it is live.
    fn find(&self, window_id: &str) -> (found: Option<usize>)
        ensures
            match found {
                Some(at) => has_window(self@, window_id@) && at == index_of(self@, window_id@)
                    && at < self@.len() && self@[at as int].id == window_id@,
                None => !has_window(self@, window_id@),
            },
    {
        proof {
            use_type_invariant(self);
        }
        let wanted = window_id.to_owned();
        let mut at: usize = 0;
        while at < self.windows.len()
            invariant
                at <= self.windows.len(),
                wanted@ == window_id@,
                ids_distinct(self@),
                forall|j: int| 0 <= j < at ==> (#[trigger] self@[j]).id != window_id@,
            decreases self.windows.len() - at,
        {
            if self.windows[at].id == wanted {
                assert(self@[at as int].id == window_id@);
                return Some(at);
            }
            at += 1;
        }
        None
    }

    /// Whether a window `window_id` is live.
    pub fn contains(&self, window_id: &str) -> (live: bool)
        ensures
            live == has_window(self@, window_id@),
    {
        self.find(window_id).is_some()
    }

    /// The number of live windows.
    pub fn len(&self) -> (count: usize)
        ensures
            count == self@.len(),
    {
        self.windows.len()
    }

    /// Begins opening a window of role `office_type` under a fresh random
    /// identifier, which is refused where a window has or ever had it. On
    /// success the caller has the host perform `host_call()` of the pending
    /// window and hands the reply to `window_created`. The registry itself
    /// is not changed yet.
    pub fn create_office_window(
        &self,
        office_type: OfficeType,
        memory_consent: bool,
        shared_memory_ttl: Option<u64>,
    ) -> (planned: Result<PendingWindow, OfficeError>)
        ensures
            exists|uuid: Seq<char>|
                uuid.len() == UUID_LENGTH && is_outcome(
                    planned,
                    #[trigger] plan_create(
                        self@,
                        self.retired(),
                        office_type,
                        memory_consent,
                        shared_memory_ttl,
                        uuid,
                    ),
                ),
    {
        let uuid = random_uuid();
        let planned = self.create_office_window_with(
            office_type,
            memory_consent,
            shared_memory_ttl,
            uuid.as_str(),
        );
        assert(uuid@.len() == UUID_LENGTH && is_outcome(
            planned,
            plan_create(
                self@,
                self.retired(),
                office_type,
                memory_consent,
                shared_memory_ttl,
                uuid@,
            ),
        ));
        planned
    }

    /// Begins opening a window of role `office_type` whose identifier is made
    /// from `uuid`.
    pub fn create_office_window_with(
        &self,
        office_type: OfficeType,
        memory_consent: bool,
        shared_memory_ttl: Option<u64>,
        uuid: &str,
    ) -> (planned: Result<PendingWindow, OfficeError>)
        ensures
            is_outcome(
                planned,
                plan_create(
                    self@,
                    self.retired(),
                    office_type,
                    memory_consent,
                    shared_memory_ttl,
                    uuid@,
                ),
            ),
    {
        let mut id = "office_".to_string();
        id.append(uuid);
        if self.find(id.as_str()).is_some() || self.was_closed(id.as_str()) {
            return Err(
                OfficeError::ToolkitFailure {
                    op: HostOp::CreateWindow,
                    detail: "window identifier already in use".to_string(),
                },
            );
        }
        let mut title = "Unity — ".to_string();
        title.append(office_type.to_string().as_str());
        let window = OfficeWindow {
            id,
            office_type,
            title,
            position: None,
            size: office_type.get_default_size(),
            memory_consent,
            shared_memory_ttl: match shared_memory_ttl {
                Some(ttl) => ttl,
                None => DEFAULT_SHARED_MEMORY_TTL,
            },
        };
        Ok(PendingWindow { window })
    }

    /// Ends the opening of a window with the host's reply to its creation:
    /// the record enters the registry only where the host created the
    /// window, and its identifier is returned. A record whose identifier
    /// came into use in the meantime does not enter.
    pub fn window_created(&mut self, pending: PendingWindow, reply: &HostReply) -> (created: Result<
        String,
        OfficeError,
    >)
        ensures
            final(self)@ == after_created(old(self)@, old(self).retired(), pending@, reply@).0,
            is_outcome(
                created,
                after_created(old(self)@, old(self).retired(), pending@, reply@).1,
            ),
            final(self).retired() == old(self).retired(),
            ids_distinct(final(self)@),
            retired_apart(final(self)@, final(self).retired()),
    {
        proof {
            use_type_invariant(&*self);
        }
        match reply {
            HostReply::Done => {
                if self.find(pending.window.id.as_str()).is_some() || self.was_closed(
                    pending.window.id.as_str(),
                ) {
                    return Err(
                        OfficeError::ToolkitFailure {
                            op: HostOp::CreateWindow,
                            detail: "window identifier already in use".to_string(),
                        },
                    );
                }
                proof {
                    use_type_invariant(&*self);
                }
                let id = pending.window.id.clone();
                let mut windows: Vec<OfficeWindow> = Vec::new();
                std::mem::swap(&mut windows, &mut self.windows);
                windows.push(pending.window);
                proof {
                    let before = old(self)@;
                    assert(window_views(windows@) =~= before.push(pending@));
                    assert(ids_distinct(before.push(pending@)));
                    assert(retired_apart(before.push(pending@), old(self).retired()));
                }
                self.windows = windows;
                Ok(id)
            },
            HostReply::Missing => Err(
                OfficeError::ToolkitFailure {
                    op: HostOp::CreateWindow,
                    detail: "the host did not create the window".to_string(),
                },
            ),
            HostReply::Failed(detail) => Err(
                OfficeError::ToolkitFailure { op: HostOp::CreateWindow, detail: detail.clone() },
            ),
        }
    }

    /// Begins closing the window `window_id`: the call for the host, which
    /// the caller performs and whose reply it hands to `window_closed`.
    pub fn close_office_window(&self, window_id: &str) -> (planned: Result<HostCall, OfficeError>)
        ensures
            is_outcome(planned, plan_close(self@, window_id@)),
    {
        match self.find(window_id) {
            Some(_) => Ok(HostCall::CloseWindow { id: window_id.to_owned() }),
            None => Err(OfficeError::WindowNotFound),
        }
    }

    /// Ends the closing of the window `window_id` with the host's reply: the
    /// record leaves the registry where the window is gone, and stays where
    /// the host failed to destroy it. The identifier of a record that left
    /// is remembered, and never handed out again.
    pub fn window_closed(&mut self, window_id: &str, reply: &HostReply) -> (closed: Result<
        (),
        OfficeError,
    >)
        ensures
            final(self)@ == after_closed(old(self)@, window_id@, reply@).0,
            is_outcome(closed, after_closed(old(self)@, window_id@, reply@).1),
            final(self).retired() == retired_after_closed(
                old(self)@,
                old(self).retired(),
                window_id@,
                reply@,
            ),
            ids_distinct(final(self)@),
            retired_apart(final(self)@, final(self).retired()),
    {
        proof {
            use_type_invariant(&*self);
        }
        let at = match self.find(window_id) {
            Some(at) => at,
            None => {
                return Err(OfficeError::WindowNotFound);
            },
        };
        match reply {
            HostReply::Failed(detail) => Err(
                OfficeError::ToolkitFailure { op: HostOp::CloseWindow, detail: detail.clone() },
            ),
            _ => {
                proof {
                    use_type_invariant(&*self);
                }
                let mut windows: Vec<OfficeWindow> = Vec::new();
                std::mem::swap(&mut windows, &mut self.windows);
                windows.remove(at);
                proof {
                    let before = old(self)@;
                    lemma_closed_window_is_gone(before, window_id@);
                    assert(window_views(windows@) =~= before.remove(at as int));
                    lemma_removal_keeps_apart(before, old(self).retired(), at as int);
                }
                self.windows = windows;
                let mut retired: Vec<String> = Vec::new();
                std::mem::swap(&mut retired, &mut self.retired);
                let ghost closed_before = retired@;
                let gone = window_id.to_owned();
                retired.push(gone);
                proof {
                    lemma_identifier_set_push(closed_before, gone);
                    assert(!has_window(self@, window_id@));
                }
                self.retired = retired;
                Ok(())
            },
        }
    }

    /// Every live window, in the order in which they opened.
    pub fn windows(&self) -> (windows: &Vec<OfficeWindow>)
        ensures
            window_views(windows@) == self@,
            ids_distinct(self@),
            retired_apart(self@, self.retired()),
    {
        proof {
            use_type_invariant(self);
        }
        &self.windows
    }

    /// A snapshot of every live window, in the order in which they opened.
    pub fn get_active_offices(&self) -> (windows: Vec<OfficeWindow>)
        ensures
            window_views(windows@) == self@,
            ids_distinct(self@),
    {
        proof {
            use_type_invariant(self);
        }
        let mut windows: Vec<OfficeWindow> = Vec::new();
        let mut i: usize = 0;
        while i < self.windows.len()
            invariant
                i <= self.windows.len(),
                window_views(windows@) == self@.subrange(0, i as int),
            decreases self.windows.len() - i,
        {
            let ghost before = windows@;
            let copy = self.windows[i].clone();
            windows.push(copy);
            proof {
                assert(window_views(before.push(copy)) =~= window_views(before).push(copy@));
                assert(self@.subrange(0, i + 1) =~= self@.subrange(0, i as int).push(
                    self@[i as int],
                ));
            }
            i += 1;
        }
        assert(self@.subrange(0, self@.len() as int) =~= self@);
        windows
    }

    /// Sets the memory-sharing consent of the window `window_id` and returns
    /// the call that tells the window of it. The caller performs the call
    /// and hands the reply to `consent_notified`.
    pub fn update_memory_consent(&mut self, window_id: &str, consent: bool) -> (planned: Result<
        HostCall,
        OfficeError,
    >)
        ensures
            has_window(old(self)@, window_id@) ==> final(self)@ == with_consent(
                old(self)@,
                window_id@,
                consent,
            ) && is_outcome(planned, Ok(consent_notice(window_id@, consent))),
            !has_window(old(self)@, window_id@) ==> final(self)@ == old(self)@ && is_outcome(
                planned,
                Err(OfficeErrorView::WindowNotFound),
            ),
            final(self).retired() == old(self).retired(),
            ids_distinct(final(self)@),
            retired_apart(final(self)@, final(self).retired()),
    {
        proof {
            use_type_invariant(&*self);
        }
        let at = match self.find(window_id) {
            Some(at) => at,
            None => {
                return Err(OfficeError::WindowNotFound);
            },
        };
        proof {
            use_type_invariant(&*self);
        }
        let mut windows: Vec<OfficeWindow> = Vec::new();
        std::mem::swap(&mut windows, &mut self.windows);
        let mut window = windows[at].clone();
        window.memory_consent = consent;
        windows.set(at, window);
        proof {
            let after = with_consent(old(self)@, window_id@, consent);
            assert(window_views(windows@) =~= after);
            assert(ids_distinct(after));
            assert(retired_apart(after, old(self).retired()));
        }
        self.windows = windows;
        Ok(
            HostCall::Emit {
                id: window_id.to_owned(),
                event: HostEvent::MemoryConsentUpdated,
                payload: json_bool(consent),
            },
        )
    }

    /// The result of a consent change once the host answered the notice. The
    /// stored value stands whatever the reply; a failed notice is reported.
    pub fn consent_notified(reply: &HostReply) -> (notified: Result<(), OfficeError>)
        ensures
            is_outcome(notified, after_notified(reply@)),
    {
        match reply {
            HostReply::Failed(detail) => Err(
                OfficeError::ToolkitFailure { op: HostOp::Emit, detail: detail.clone() },
            ),
            _ => Ok(()),
        }
    }

    /// Sets the shared-memory lifetime, in seconds, of the window `window_id`.
    pub fn update_memory_ttl(&mut self, window_id: &str, ttl: u64) -> (updated: Result<
        (),
        OfficeError,
    >)
        ensures
            has_window(old(self)@, window_id@) ==> final(self)@ == with_ttl(
                old(self)@,
                window_id@,
                ttl,
            ) && updated is Ok,
            !has_window(old(self)@, window_id@) ==> final(self)@ == old(self)@ && is_outcome(
                updated,
                Err(OfficeErrorView::WindowNotFound),
            ),
            final(self).retired() == old(self).retired(),
            ids_distinct(final(self)@),
            retired_apart(final(self)@, final(self).retired()),
    {
        proof {
            use_type_invariant(&*self);
        }
        let at = match self.find(window_id) {
            Some(at) => at,
            None => {
                return Err(OfficeError::WindowNotFound);
            },
        };
        proof {
            use_type_invariant(&*self);
        }
        let mut windows: Vec<OfficeWindow> = Vec::new();
        std::mem::swap(&mut windows, &mut self.windows);
        let mut window = windows[at].clone();
        window.shared_memory_ttl = ttl;
        windows.set(at, window);
        proof {
            let after = with_ttl(old(self)@, window_id@, ttl);
            assert(window_views(windows@) =~= after);
            assert(ids_distinct(after));
            assert(retired_apart(after, old(self).retired()));
        }
        self.windows = windows;
        Ok(())
    }
}

/// Closing a window that is not live is refused as `WindowNotFound`, before
/// the host is asked and whatever the host says, and leaves the registry as
/// it is.
pub proof fn lemma_close_unknown_changes_nothing(
    registry: Seq<OfficeWindowView>,
    id: Seq<char>,
    reply: HostReplyView,
)
    requires
        !has_window(registry, id),
    ensures
        plan_close(registry, id) == Err::<HostCallView, OfficeErrorView>(
            OfficeErrorView::WindowNotFound,
        ),
        after_closed(registry, id, reply) == (
            registry,
            Err::<(), OfficeErrorView>(OfficeErrorView::WindowNotFound),
        ),
{
}

/// A window that the host created is listed right after, once, last, with
/// the role and consent asked for and the lifetime asked for or the default
/// one; the windows before it are listed as they were; and its identifier
/// is that of no window that was live before, nor of one that was closed.
pub proof fn lemma_created_window_is_listed(
    registry: Seq<OfficeWindowView>,
    retired: Set<Seq<char>>,
    office_type: OfficeType,
    memory_consent: bool,
    shared_memory_ttl: Option<u64>,
    uuid: Seq<char>,
)
    requires
        ids_distinct(registry),
        plan_create(registry, retired, office_type, memory_consent, shared_memory_ttl, uuid) is Ok,
    ensures
        ({
            let window = plan_create(
                registry,
                retired,
                office_type,
                memory_consent,
                shared_memory_ttl,
                uuid,
            )->Ok_0;
            let (listed, created) = after_created(registry, retired, window, HostReplyView::Done);
            &&& created == Ok::<Seq<char>, OfficeErrorView>(window_id(uuid))
            &&& listed == registry.push(window)
            &&& ids_distinct(listed)
            &&& has_window(listed, window.id)
            &&& index_of(listed, window.id) == registry.len()
            &&& window.id == window_id(uuid)
            &&& window.office_type == office_type
            &&& window.memory_consent == memory_consent
            &&& window.shared_memory_ttl == match shared_memory_ttl {
                Some(ttl) => ttl,
                None => DEFAULT_SHARED_MEMORY_TTL,
            }
            &&& forall|i: int| 0 <= i < registry.len() ==> (#[trigger] registry[i]).id != window.id
            &&& !retired.contains(window.id)
        }),
{
    let window = new_window(office_type, memory_consent, shared_memory_ttl, window_id(uuid));
    let listed = registry.push(window);
    assert(listed[registry.len() as int].id == window.id);
    assert forall|i: int, j: int|
        0 <= i < listed.len() && 0 <= j < listed.len() && i != j implies (#[trigger] listed[i].id)
        != (#[trigger] listed[j].id) by {
        if i < registry.len() {
            assert(registry[i].id == listed[i].id);
        }
        if j < registry.len() {
            assert(registry[j].id == listed[j].id);
        }
    }
}

/// A window that the host failed to create leaves no trace: the registry is
/// as it was, and the failure is reported.
pub proof fn lemma_failed_creation_leaves_no_trace(
    registry: Seq<OfficeWindowView>,
    retired: Set<Seq<char>>,
    window: OfficeWindowView,
    reply: HostReplyView,
)
    requires
        reply != HostReplyView::Done,
    ensures
        after_created(registry, retired, window, reply).0 == registry,
        after_created(registry, retired, window, reply).1 is Err,
{
}

/// Closing a live window whose destruction the host confirmed removes that
/// window and no other: the rest stay listed in their order.
pub proof fn lemma_closed_window_is_gone(registry: Seq<OfficeWindowView>, id: Seq<char>)
    requires
        ids_distinct(registry),
        has_window(registry, id),
    ensures
        ({
            let (listed, closed) = after_closed(registry, id, HostReplyView::Done);
            &&& closed == Ok::<(), OfficeErrorView>(())
            &&& listed.len() == registry.len() - 1
            &&& !has_window(listed, id)
            &&& ids_distinct(listed)
            &&& forall|other: Seq<char>|
                other != id ==> has_window(listed, other) == has_window(registry, other)
        }),
{
    let at = index_of(registry, id);
    let listed = registry.remove(at);
    assert forall|i: int| 0 <= i < listed.len() implies (#[trigger] listed[i]).id != id by {
        if i < at {
            assert(listed[i] == registry[i]);
        } else {
            assert(listed[i] == registry[i + 1]);
        }
    }
    assert forall|i: int, j: int|
        0 <= i < listed.len() && 0 <= j < listed.len() && i != j implies (#[trigger] listed[i].id)
        != (#[trigger] listed[j].id) by {
        let from_i = if i < at {
            i
        } else {
            i + 1
        };
        let from_j = if j < at {
            j
        } else {
            j + 1
        };
        assert(listed[i] == registry[from_i]);
        assert(listed[j] == registry[from_j]);
    }
    assert forall|other: Seq<char>| other != id implies has_window(listed, other) == has_window(
        registry,
        other,
    ) by {
        if has_window(listed, other) {
            let i = choose|i: int| 0 <= i < listed.len() && #[trigger] listed[i].id == other;
            let from = if i < at {
                i
            } else {
                i + 1
            };
            assert(registry[from].id == other);
        }
        if has_window(registry, other) {
            let i = choose|i: int| 0 <= i < registry.len() && #[trigger] registry[i].id == other;
            let to = if i < at {
                i
            } else {
                i - 1
            };
            assert(listed[to].id == other);
        }
    }
}

/// A window that the host failed to destroy stays listed, and the failure
/// is reported.
pub proof fn lemma_failed_close_keeps_window(
    registry: Seq<OfficeWindowView>,
    id: Seq<char>,
    detail: Seq<char>,
)
    requires
        has_window(registry, id),
    ensures
        after_closed(registry, id, HostReplyView::Failed(detail)) == (
            registry,
            Err::<(), OfficeErrorView>(
                OfficeErrorView::ToolkitFailure { op: HostOp::CloseWindow, detail },
            ),
        ),
{
}

/// Opening a window and closing it again leaves the windows as they were,
/// and the identifier among those of closed windows.
pub proof fn lemma_open_then_close_restores(
    registry: Seq<OfficeWindowView>,
    retired: Set<Seq<char>>,
    window: OfficeWindowView,
)
    requires
        ids_distinct(registry),
        !is_used(registry, retired, window.id),
    ensures
        after_closed(
            after_created(registry, retired, window, HostReplyView::Done).0,
            window.id,
            HostReplyView::Done,
        ) == (registry, Ok::<(), OfficeErrorView>(())),
        retired_after_closed(
            after_created(registry, retired, window, HostReplyView::Done).0,
            retired,
            window.id,
            HostReplyView::Done,
        ) == retired.insert(window.id),
{
    let listed = registry.push(window);
    assert(listed[registry.len() as int].id == window.id);
    let at = index_of(listed, window.id);
    if at < registry.len() {
        assert(registry[at].id == window.id);
    }
    assert(listed.remove(at) =~= registry);
}

/// Changing a window's consent or lifetime changes that record alone, and
/// never its role or identifier.
pub proof fn lemma_updates_touch_one_record(
    registry: Seq<OfficeWindowView>,
    id: Seq<char>,
    consent: bool,
    ttl: u64,
)
    requires
        ids_distinct(registry),
        has_window(registry, id),
    ensures
        with_consent(registry, id, consent).len() == registry.len(),
        with_ttl(registry, id, ttl).len() == registry.len(),
        forall|i: int|
            0 <= i < registry.len() ==> {
                let before = #[trigger] registry[i];
                let consented = with_consent(registry, id, consent)[i];
                let timed = with_ttl(registry, id, ttl)[i];
                &&& consented.id == before.id && consented.office_type == before.office_type
                &&& timed.id == before.id && timed.office_type == before.office_type
                &&& before.id != id ==> consented == before && timed == before
                &&& before.id == id ==> consented.memory_consent == consent
                    && timed.shared_memory_ttl == ttl
            },
{
    let at = index_of(registry, id);
    assert(registry[at].id == id);
}

/// An identifier is handed out once in the life of a registry: a window is
/// opened only under an identifier that was never in use, and an
/// identifier that is or has been in use stays so through every operation.
pub proof fn lemma_identifier_is_never_handed_out_again(
    registry: Seq<OfficeWindowView>,
    retired: Set<Seq<char>>,
    window: OfficeWindowView,
    reply: HostReplyView,
    id: Seq<char>,
    used: Seq<char>,
    consent: bool,
    ttl: u64,
)
    requires
        ids_distinct(registry),
        is_used(registry, retired, used),
    ensures
        after_created(registry, retired, window, reply).1 is Ok ==> window.id != used,
        is_used(after_created(registry, retired, window, reply).0, retired, used),
        is_used(
            after_closed(registry, id, reply).0,
            retired_after_closed(registry, retired, id, reply),
            used,
        ),
        has_window(registry, id) ==> is_used(with_consent(registry, id, consent), retired, used)
            && is_used(with_ttl(registry, id, ttl), retired, used),
{
    if has_window(registry, used) {
        let at = choose|i: int| 0 <= i < registry.len() && #[trigger] registry[i].id == used;
        let opened = after_created(registry, retired, window, reply).0;
        assert(opened[at].id == used);
        if has_window(registry, id) {
            lemma_updates_touch_one_record(registry, id, consent, ttl);
            assert(with_consent(registry, id, consent)[at].id == used);
            assert(with_ttl(registry, id, ttl)[at].id == used);
            if used != id {
                lemma_closed_window_is_gone(registry, id);
                assert(has_window(registry.remove(index_of(registry, id)), used));
            }
        }
    }
}

/// Removing a window leaves no live window with the identifier of a closed
/// one.
proof fn lemma_removal_keeps_apart(
    registry: Seq<OfficeWindowView>,
    retired: Set<Seq<char>>,
    at: int,
)
    requires
        retired_apart(registry, retired),
        0 <= at < registry.len(),
    ensures
        retired_apart(registry.remove(at), retired),
{
    let listed = registry.remove(at);
    assert forall|i: int| 0 <= i < listed.len() implies !retired.contains(
        #[trigger] listed[i].id,
    ) by {
        if i < at {
            assert(listed[i] == registry[i]);
        } else {
            assert(listed[i] == registry[i + 1]);
        }
    }
}

/// The identifiers of a list with one more are those of the list, and the
/// one more.
proof fn lemma_identifier_set_push(identifiers: Seq<String>, added: String)
    ensures
        identifier_set(identifiers.push(added)) == identifier_set(identifiers).insert(added@),
{
    let longer = identifiers.push(added);
    assert forall|id: Seq<char>| identifier_set(longer).contains(id) implies identifier_set(
        identifiers,
    ).insert(added@).contains(id) by {
        let i = choose|i: int| 0 <= i < longer.len() && (#[trigger] longer[i])@ == id;
        if i < identifiers.len() {
            assert(identifiers[i]@ == id);
        }
    }
    assert forall|id: Seq<char>| identifier_set(identifiers).insert(added@).contains(
        id,
    ) implies identifier_set(longer).contains(id) by {
        if id == added@ {
            assert(longer[identifiers.len() as int]@ == id);
        } else {
            let i = choose|i: int| 0 <= i < identifiers.len() && (#[trigger] identifiers[i])@ == id;
            assert(longer[i]@ == id);
        }
    }
    assert(identifier_set(longer) =~= identifier_set(identifiers).insert(added@));
}

} // verus!
