//! Scripted workflows: an ordered list of steps that open offices, message
//! them, wait, and close them.
//!
//! A workflow is run one step at a time. Each call of the executor takes the
//! host's replies to the calls of the step in progress, brings the registry
//! up to date, and either names the calls of the next step, or ends the run.
//! The first step that fails ends the run; what earlier steps did stays done.

use vstd::prelude::*;
use vstd::string::*;

use crate::error::{is_outcome, FailedDeliveryView, OfficeError, OfficeErrorView};
use crate::host::{
    call_views, reply_at, reply_to, reply_views, HostCall, HostCallView, HostEvent, HostReply,
    HostReplyView,
};
use crate::ident::{random_uuid, UUID_LENGTH};
use crate::json::{json_model, JsonModel};
use crate::office::OfficeType;
use crate::router::{
    addressed, delivery_outcome, delivery_result, emit_to, emits, failed_deliveries,
};
use crate::window::{
    after_closed, after_created, create_call, has_window, ids_distinct, index_of, is_used,
    lemma_closed_window_is_gone, lemma_identifier_is_never_handed_out_again, new_window,
    plan_close, plan_create, retired_after_closed, window_id, OfficeWindowView, PendingWindow,
    WindowManager,
};

verus! {

/// What one step of a workflow does.
#[derive(Debug, PartialEq, Eq)]
pub enum WorkflowAction {
    /// Open a window of the role, with memory-sharing consent granted and
    /// the default shared-memory lifetime.
    OpenOffice(OfficeType),
    /// Send the message to every live window of the role.
    SendMessage(OfficeType, serde_json::Value),
    /// Wait for the number of seconds.
    WaitForResponse(u64),
    /// Close the window of the identifier.
    CloseOffice(String),
}

/// The mathematical content of a `WorkflowAction`.
pub enum WorkflowActionView {
    OpenOffice(OfficeType),
    SendMessage(OfficeType, JsonModel),
    WaitForResponse(u64),
    CloseOffice(Seq<char>),
}

impl View for WorkflowAction {
    type V = WorkflowActionView;

    open spec fn view(&self) -> WorkflowActionView {
        match *self {
            WorkflowAction::OpenOffice(office_type) => WorkflowActionView::OpenOffice(office_type),
            WorkflowAction::SendMessage(office_type, message) => WorkflowActionView::SendMessage(
                office_type,
                json_model(message),
            ),
            WorkflowAction::WaitForResponse(secs) => WorkflowActionView::WaitForResponse(secs),
            WorkflowAction::CloseOffice(id) => WorkflowActionView::CloseOffice(id@),
        }
    }
}

impl Clone for WorkflowAction {
    fn clone(&self) -> (copy: Self)
        ensures
            copy@ == self@,
    {
        match self {
            WorkflowAction::OpenOffice(office_type) => WorkflowAction::OpenOffice(*office_type),
            WorkflowAction::SendMessage(office_type, message) => WorkflowAction::SendMessage(
                *office_type,
                message.clone(),
            ),
            WorkflowAction::WaitForResponse(secs) => WorkflowAction::WaitForResponse(*secs),
            WorkflowAction::CloseOffice(id) => WorkflowAction::CloseOffice(id.clone()),
        }
    }
}

/// One step of a workflow: what it does, and a description for the reader.
#[derive(Debug, PartialEq, Eq)]
pub struct WorkflowStep {
    pub action: WorkflowAction,
    pub description: String,
}

/// The mathematical content of a `WorkflowStep`.
pub struct WorkflowStepView {
    pub action: WorkflowActionView,
    pub description: Seq<char>,
}

impl View for WorkflowStep {
    type V = WorkflowStepView;

    open spec fn view(&self) -> WorkflowStepView {
        WorkflowStepView { action: self.action@, description: self.description@ }
    }
}

impl Clone for WorkflowStep {
    fn clone(&self) -> (copy: Self)
        ensures
            copy@ == self@,
    {
        WorkflowStep { action: self.action.clone(), description: self.description.clone() }
    }
}

/// The views of `steps`, in order.
pub open spec fn step_views(steps: Seq<WorkflowStep>) -> Seq<WorkflowStepView> {
    steps.map_values(|step: WorkflowStep| step@)
}

/// The actions of `steps`, in order.
pub open spec fn action_views(steps: Seq<WorkflowStep>) -> Seq<WorkflowActionView> {
    steps.map_values(|step: WorkflowStep| step.action@)
}

/// A named, ordered list of steps.
#[derive(Debug, PartialEq, Eq)]
pub struct WorkflowDefinition {
    pub name: String,
    pub steps: Vec<WorkflowStep>,
}

/// The mathematical content of a `WorkflowDefinition`.
pub struct WorkflowDefinitionView {
    pub name: Seq<char>,
    pub steps: Seq<WorkflowStepView>,
}

impl View for WorkflowDefinition {
    type V = WorkflowDefinitionView;

    open spec fn view(&self) -> WorkflowDefinitionView {
        WorkflowDefinitionView { name: self.name@, steps: step_views(self.steps@) }
    }
}

impl Clone for WorkflowDefinition {
    fn clone(&self) -> (copy: Self)
        ensures
            copy@ == self@,
    {
        let mut steps: Vec<WorkflowStep> = Vec::new();
        let mut i: usize = 0;
        while i < self.steps.len()
            invariant
                i <= self.steps.len(),
                step_views(steps@) == step_views(self.steps@).subrange(0, i as int),
            decreases self.steps.len() - i,
        {
            let ghost before = steps@;
            let step = self.steps[i].clone();
            steps.push(step);
            proof {
                assert(step_views(before.push(step)) =~= step_views(before).push(step@));
                assert(step_views(self.steps@).subrange(0, i + 1) =~= step_views(
                    self.steps@,
                ).subrange(0, i as int).push(step_views(self.steps@)[i as int]));
            }
            i += 1;
        }
        assert(step_views(self.steps@).subrange(0, self.steps@.len() as int) =~= step_views(
            self.steps@,
        ));
        WorkflowDefinition { name: self.name.clone(), steps }
    }
}

/// What the executor remembers of the step whose calls the host is
/// performing.
#[derive(Debug)]
enum PendingStep {
    Open(PendingWindow),
    Deliver(Vec<HostCall>),
    Wait,
    Close(String),
}

/// The mathematical content of the executor's memory of the step in
/// progress.
pub enum PendingStepView {
    /// A window is being opened; this is the record that it will get.
    Open(OfficeWindowView),
    /// These deliveries are being made.
    Deliver(Seq<HostCallView>),
    /// The run is waiting.
    Wait,
    /// The window of this identifier is being closed.
    Close(Seq<char>),
}

impl View for PendingStep {
    type V = PendingStepView;

    closed spec fn view(&self) -> PendingStepView {
        match *self {
            PendingStep::Open(window) => PendingStepView::Open(window@),
            PendingStep::Deliver(calls) => PendingStepView::Deliver(call_views(calls@)),
            PendingStep::Wait => PendingStepView::Wait,
            PendingStep::Close(id) => PendingStepView::Close(id@),
        }
    }
}

/// A workflow that is being run.
#[derive(Debug)]
pub struct WorkflowRun {
    workflow: WorkflowDefinition,
    position: usize,
    pending: Option<PendingStep>,
    finished: bool,
}

/// The mathematical content of a `WorkflowRun`.
pub struct WorkflowRunView {
    /// The actions of the workflow's steps, in order.
    pub actions: Seq<WorkflowActionView>,
    /// The index of the step in progress or, where none is, of the step
    /// that comes next.
    pub position: usize,
    /// The step whose calls the host is performing, if any.
    pub pending: Option<PendingStepView>,
    /// Whether the run is over.
    pub finished: bool,
}

impl WorkflowRunView {
    /// What holds of every run: the steps can be counted, the position lies
    /// within them, and a step is in progress only at a position that has a
    /// step and while the run is not over.
    pub open spec fn well_formed(self) -> bool {
        &&& self.actions.len() <= usize::MAX
        &&& self.position <= self.actions.len()
        &&& self.pending is Some ==> self.position < self.actions.len() && !self.finished
    }
}

/// What the executor tells its caller to do next.
#[derive(Debug, PartialEq, Eq)]
pub enum Directive {
    /// Have the host perform these calls in order, whatever each answers,
    /// then call the executor again with the replies, place by place.
    Perform(Vec<HostCall>),
    /// Every step succeeded; this is the identifier of the run.
    Finished(String),
    /// A step failed, and the run is over.
    Failed(OfficeError),
    /// The run was over before this call; nothing was done.
    Ended,
}

/// The mathematical content of a `Directive`.
pub enum DirectiveView {
    Perform(Seq<HostCallView>),
    Finished(Seq<char>),
    Failed(OfficeErrorView),
    Ended,
}

impl View for Directive {
    type V = DirectiveView;

    open spec fn view(&self) -> DirectiveView {
        match *self {
            Directive::Perform(calls) => DirectiveView::Perform(call_views(calls@)),
            Directive::Finished(id) => DirectiveView::Finished(id@),
            Directive::Failed(error) => DirectiveView::Failed(error@),
            Directive::Ended => DirectiveView::Ended,
        }
    }
}

/// A run of a workflow with the given actions, before its first step.
pub open spec fn fresh_run(actions: Seq<WorkflowActionView>) -> WorkflowRunView {
    WorkflowRunView { actions, position: 0, pending: None, finished: false }
}

/// The registry and the result once the host has answered the calls of the
/// step in progress.
pub open spec fn settle(
    registry: Seq<OfficeWindowView>,
    retired: Set<Seq<char>>,
    pending: PendingStepView,
    replies: Seq<HostReplyView>,
) -> (Seq<OfficeWindowView>, Result<(), OfficeErrorView>) {
    match pending {
        PendingStepView::Open(window) => {
            let (after, created) = after_created(registry, retired, window, reply_at(replies, 0));
            (
                after,
                match created {
                    Ok(_) => Ok(()),
                    Err(error) => Err(error),
                },
            )
        },
        PendingStepView::Deliver(calls) => (
            registry,
            delivery_result(HostEvent::OfficeMessage, calls, replies),
        ),
        PendingStepView::Wait => (registry, Ok(())),
        PendingStepView::Close(id) => after_closed(registry, id, reply_at(replies, 0)),
    }
}

/// The identifiers of closed windows once the host has answered the calls
/// of the step in progress: a step that closed a window adds its
/// identifier.
pub open spec fn retired_after_settle(
    registry: Seq<OfficeWindowView>,
    retired: Set<Seq<char>>,
    pending: PendingStepView,
    replies: Seq<HostReplyView>,
) -> Set<Seq<char>> {
    match pending {
        PendingStepView::Close(id) => retired_after_closed(
            registry,
            retired,
            id,
            reply_at(replies, 0),
        ),
        _ => retired,
    }
}

/// What has to be remembered of a step that does `action`, and the calls
/// that the host is to perform for it; or the error where the step fails
/// before any call is made.
pub open spec fn begin(
    registry: Seq<OfficeWindowView>,
    retired: Set<Seq<char>>,
    action: WorkflowActionView,
    uuid: Seq<char>,
) -> Result<(PendingStepView, Seq<HostCallView>), OfficeErrorView> {
    match action {
        WorkflowActionView::OpenOffice(office_type) => {
            match plan_create(registry, retired, office_type, true, None, uuid) {
                Ok(window) => Ok((PendingStepView::Open(window), seq![create_call(window)])),
                Err(error) => Err(error),
            }
        },
        WorkflowActionView::SendMessage(office_type, payload) => {
            let calls = emits(registry, Some(office_type), HostEvent::OfficeMessage, payload);
            Ok((PendingStepView::Deliver(calls), calls))
        },
        WorkflowActionView::WaitForResponse(secs) => Ok(
            (PendingStepView::Wait, seq![HostCallView::Sleep { secs }]),
        ),
        WorkflowActionView::CloseOffice(id) => {
            match plan_close(registry, id) {
                Ok(call) => Ok((PendingStepView::Close(id), seq![call])),
                Err(error) => Err(error),
            }
        },
    }
}

/// The identifiers of closed windows after one turn of the executor.
pub open spec fn retired_after_turn(
    registry: Seq<OfficeWindowView>,
    retired: Set<Seq<char>>,
    run: WorkflowRunView,
    replies: Seq<HostReplyView>,
) -> Set<Seq<char>> {
    if run.finished {
        retired
    } else {
        match run.pending {
            Some(pending) => retired_after_settle(registry, retired, pending, replies),
            None => retired,
        }
    }
}

/// The run once it is over at `position`.
pub open spec fn ended_at(run: WorkflowRunView, position: usize) -> WorkflowRunView {
    WorkflowRunView { position, pending: None, finished: true, ..run }
}

/// One turn of the executor: the registry, the run and the directive that
/// follow from the host's `replies` to the step in progress. `uuid` is the
/// fresh identifier at the turn's disposal: it names the window where the
/// next step opens one, and the run where the run ends in success.
pub open spec fn advance(
    registry: Seq<OfficeWindowView>,
    retired: Set<Seq<char>>,
    run: WorkflowRunView,
    replies: Seq<HostReplyView>,
    uuid: Seq<char>,
) -> (Seq<OfficeWindowView>, WorkflowRunView, DirectiveView) {
    if run.finished {
        (registry, run, DirectiveView::Ended)
    } else {
        let (settled, result) = match run.pending {
            Some(pending) => settle(registry, retired, pending, replies),
            None => (registry, Ok(())),
        };
        let closed = retired_after_turn(registry, retired, run, replies);
        match result {
            Err(cause) => (
                settled,
                ended_at(run, run.position),
                DirectiveView::Failed(
                    OfficeErrorView::WorkflowStepFailed {
                        index: run.position,
                        cause: Box::new(cause),
                    },
                ),
            ),
            Ok(_) => {
                let position = if run.pending is Some {
                    (run.position + 1) as usize
                } else {
                    run.position
                };
                if position >= run.actions.len() {
                    (settled, ended_at(run, position), DirectiveView::Finished(uuid))
                } else {
                    match begin(settled, closed, run.actions[position as int], uuid) {
                        Err(cause) => (
                            settled,
                            ended_at(run, position),
                            DirectiveView::Failed(
                                OfficeErrorView::WorkflowStepFailed {
                                    index: position,
                                    cause: Box::new(cause),
                                },
                            ),
                        ),
                        Ok((pending, calls)) => (
                            settled,
                            WorkflowRunView {
                                position,
                                pending: Some(pending),
                                finished: false,
                                ..run
                            },
                            DirectiveView::Perform(calls),
                        ),
                    }
                }
            },
        }
    }
}

/// A copy of `calls`.
fn copy_calls(calls: &Vec<HostCall>) -> (copy: Vec<HostCall>)
    ensures
        call_views(copy@) == call_views(calls@),
{
    let mut copy: Vec<HostCall> = Vec::new();
    let mut i: usize = 0;
    while i < calls.len()
        invariant
            i <= calls.len(),
            call_views(copy@) == call_views(calls@).subrange(0, i as int),
        decreases calls.len() - i,
    {
        let ghost before = copy@;
        let call = calls[i].clone();
        copy.push(call);
        proof {
            assert(call_views(before.push(call)) =~= call_views(before).push(call@));
            assert(call_views(calls@).subrange(0, i + 1) =~= call_views(calls@).subrange(
                0,
                i as int,
            ).push(call_views(calls@)[i as int]));
        }
        i += 1;
    }
    assert(call_views(calls@).subrange(0, calls@.len() as int) =~= call_views(calls@));
    copy
}

impl View for WorkflowRun {
    type V = WorkflowRunView;

    closed spec fn view(&self) -> WorkflowRunView {
        WorkflowRunView {
            actions: action_views(self.workflow.steps@),
            position: self.position,
            pending: match self.pending {
                Some(pending) => Some(pending@),
                None => None,
            },
            finished: self.finished,
        }
    }
}

impl WorkflowRun {
    #[verifier::type_invariant]
    spec fn valid(self) -> bool {
        self@.well_formed()
    }

    /// A run of `workflow`, before its first step.
    pub fn new(workflow: WorkflowDefinition) -> (run: Self)
        ensures
            run@ == fresh_run(action_views(workflow.steps@)),
    {
        let total = workflow.steps.len();
        assert(action_views(workflow.steps@).len() == total);
        WorkflowRun { workflow, position: 0, pending: None, finished: false }
    }

    /// Whether the run is over.
    pub fn is_finished(&self) -> (finished: bool)
        ensures
            finished == self@.finished,
    {
        self.finished
    }

    /// The index of the step in progress or, where none is, of the step that
    /// comes next.
    pub fn position(&self) -> (position: usize)
        ensures
            position == self@.position,
            self@.well_formed(),
    {
        proof {
            use_type_invariant(self);
        }
        self.position
    }

}

impl WindowManager {
    /// Brings the registry up to date with the host's replies to the step
    /// in progress.
    fn settle_step(&mut self, pending: PendingStep, replies: &Vec<HostReply>) -> (settled: Result<
        (),
        OfficeError,
    >)
        ensures
            final(self)@ == settle(
                old(self)@,
                old(self).retired(),
                pending@,
                reply_views(replies@),
            ).0,
            is_outcome(
                settled,
                settle(old(self)@, old(self).retired(), pending@, reply_views(replies@)).1,
            ),
            final(self).retired() == retired_after_settle(
                old(self)@,
                old(self).retired(),
                pending@,
                reply_views(replies@),
            ),
    {
        match pending {
            PendingStep::Open(window) => {
                let reply = reply_to(replies, 0);
                match self.window_created(window, &reply) {
                    Ok(_) => Ok(()),
                    Err(error) => Err(error),
                }
            },
            PendingStep::Deliver(calls) => delivery_outcome(
                HostEvent::OfficeMessage,
                &calls,
                replies,
            ),
            PendingStep::Wait => Ok(()),
            PendingStep::Close(id) => {
                let reply = reply_to(replies, 0);
                self.window_closed(id.as_str(), &reply)
            },
        }
    }

    /// Checks a step that does `action` against the registry and names the
    /// calls that the host is to perform for it.
    fn begin_step(&self, action: &WorkflowAction, uuid: &str) -> (begun: Result<
        (PendingStep, Vec<HostCall>),
        OfficeError,
    >)
        ensures
            match (begun, begin(self@, self.retired(), action@, uuid@)) {
                (Ok((pending, calls)), Ok((wanted, wanted_calls))) => pending@ == wanted
                    && call_views(calls@) == wanted_calls,
                (Err(error), Err(wanted)) => error@ == wanted,
                _ => false,
            },
    {
        match action {
            WorkflowAction::OpenOffice(office_type) => {
                match self.create_office_window_with(*office_type, true, None, uuid) {
                    Ok(window) => {
                        let call = window.host_call();
                        let mut calls: Vec<HostCall> = Vec::new();
                        calls.push(call);
                        assert(call_views(calls@) =~= seq![create_call(window@)]);
                        Ok((PendingStep::Open(window), calls))
                    },
                    Err(error) => Err(error),
                }
            },
            WorkflowAction::SendMessage(office_type, message) => {
                let calls = self.send_to_office(office_type, message.clone());
                let remembered = copy_calls(&calls);
                Ok((PendingStep::Deliver(remembered), calls))
            },
            WorkflowAction::WaitForResponse(secs) => {
                let mut calls: Vec<HostCall> = Vec::new();
                calls.push(HostCall::Sleep { secs: *secs });
                assert(call_views(calls@) =~= seq![HostCallView::Sleep { secs: *secs }]);
                Ok((PendingStep::Wait, calls))
            },
            WorkflowAction::CloseOffice(id) => {
                match self.close_office_window(id.as_str()) {
                    Ok(call) => {
                        let mut calls: Vec<HostCall> = Vec::new();
                        calls.push(call);
                        assert(call_views(calls@) =~= seq![call@]);
                        Ok((PendingStep::Close(id.clone()), calls))
                    },
                    Err(error) => Err(error),
                }
            },
        }
    }

    /// One turn of the executor of `run`, with a fresh random identifier at
    /// its disposal. The first call of a run takes no replies; each later
    /// call takes the host's replies to the calls that the call before it
    /// named, place by place.
    pub fn orchestrate_workflow(&mut self, run: &mut WorkflowRun, replies: &Vec<HostReply>) -> (directive:
        Directive)
        ensures
            exists|uuid: Seq<char>|
                uuid.len() == UUID_LENGTH && (final(self)@, final(run)@, directive@)
                    == #[trigger] advance(
                    old(self)@,
                    old(self).retired(),
                    old(run)@,
                    reply_views(replies@),
                    uuid,
                ),
            final(self).retired() == retired_after_turn(
                old(self)@,
                old(self).retired(),
                old(run)@,
                reply_views(replies@),
            ),
    {
        let uuid = random_uuid();
        let ghost chosen = uuid@;
        let directive = self.orchestrate_workflow_with(run, replies, uuid);
        assert((self@, run@, directive@) == advance(
            old(self)@,
            old(self).retired(),
            old(run)@,
            reply_views(replies@),
            chosen,
        ));
        directive
    }

    /// One turn of the executor of `run`, with `uuid` as the fresh
    /// identifier at its disposal.
    pub fn orchestrate_workflow_with(
        &mut self,
        run: &mut WorkflowRun,
        replies: &Vec<HostReply>,
        uuid: String,
    ) -> (directive: Directive)
        ensures
            (final(self)@, final(run)@, directive@) == advance(
                old(self)@,
                old(self).retired(),
                old(run)@,
                reply_views(replies@),
                uuid@,
            ),
            final(self).retired() == retired_after_turn(
                old(self)@,
                old(self).retired(),
                old(run)@,
                reply_views(replies@),
            ),
    {
        proof {
            use_type_invariant(&*run);
        }
        if run.finished {
            return Directive::Ended;
        }
        let total = run.workflow.steps.len();
        assert(run@.actions.len() == total);
        let mut pending: Option<PendingStep> = None;
        std::mem::swap(&mut pending, &mut run.pending);
        let position = run.position;
        let next = match pending {
            Some(step) => {
                match self.settle_step(step, replies) {
                    Ok(_) => position + 1,
                    Err(cause) => {
                        run.finished = true;
                        return Directive::Failed(
                            OfficeError::WorkflowStepFailed { index: position, cause: Box::new(cause) },
                        );
                    },
                }
            },
            None => position,
        };
        if next >= total {
            run.position = next;
            run.finished = true;
            return Directive::Finished(uuid);
        }
        match self.begin_step(&run.workflow.steps[next].action, uuid.as_str()) {
            Ok((step, calls)) => {
                run.position = next;
                run.pending = Some(step);
                Directive::Perform(calls)
            },
            Err(cause) => {
                run.position = next;
                run.finished = true;
                Directive::Failed(
                    OfficeError::WorkflowStepFailed { index: next, cause: Box::new(cause) },
                )
            },
        }
    }
}

/// A turn keeps a run well-formed, and never changes its steps.
pub proof fn lemma_advance_keeps_run_well_formed(
    registry: Seq<OfficeWindowView>,
    retired: Set<Seq<char>>,
    run: WorkflowRunView,
    replies: Seq<HostReplyView>,
    uuid: Seq<char>,
)
    requires
        run.well_formed(),
    ensures
        advance(registry, retired, run, replies, uuid).1.well_formed(),
        advance(registry, retired, run, replies, uuid).1.actions == run.actions,
{
}

/// A turn keeps the identifiers of the live windows distinct.
pub proof fn lemma_advance_keeps_ids_distinct(
    registry: Seq<OfficeWindowView>,
    retired: Set<Seq<char>>,
    run: WorkflowRunView,
    replies: Seq<HostReplyView>,
    uuid: Seq<char>,
)
    requires
        ids_distinct(registry),
    ensures
        ids_distinct(advance(registry, retired, run, replies, uuid).0),
{
    if !run.finished {
        match run.pending {
            Some(PendingStepView::Open(window)) => {
                if reply_at(replies, 0) == HostReplyView::Done && !is_used(
                    registry,
                    retired,
                    window.id,
                ) {
                    let listed = registry.push(window);
                    assert forall|i: int, j: int|
                        0 <= i < listed.len() && 0 <= j < listed.len() && i != j implies (
                    #[trigger] listed[i].id) != (#[trigger] listed[j].id) by {
                        if i < registry.len() {
                            assert(registry[i].id == listed[i].id);
                        }
                        if j < registry.len() {
                            assert(registry[j].id == listed[j].id);
                        }
                    }
                }
            },
            Some(PendingStepView::Close(id)) => {
                if has_window(registry, id) {
                    lemma_closed_window_is_gone(registry, id);
                }
            },
            _ => {},
        }
    }
}

/// The steps run strictly in order: a turn names the calls of one step
/// only, the step after the one that the replies were for, and only once
/// that one has succeeded.
pub proof fn lemma_steps_run_in_order(
    registry: Seq<OfficeWindowView>,
    retired: Set<Seq<char>>,
    run: WorkflowRunView,
    replies: Seq<HostReplyView>,
    uuid: Seq<char>,
)
    requires
        run.well_formed(),
        advance(registry, retired, run, replies, uuid).2 is Perform,
    ensures
        ({
            let (_, next, _) = advance(registry, retired, run, replies, uuid);
            &&& !run.finished && next.pending is Some && !next.finished
            &&& run.pending is Some ==> next.position == run.position + 1 && settle(
                registry,
                retired,
                run.pending->Some_0,
                replies,
            ).1 is Ok
            &&& run.pending is None ==> next.position == run.position
        }),
{
}

/// A run identifier is handed out only on full success: when the run ends
/// with one, every step has been run, the last one has succeeded, and the
/// identifier is the fresh one of this turn.
pub proof fn lemma_run_identifier_only_on_success(
    registry: Seq<OfficeWindowView>,
    retired: Set<Seq<char>>,
    run: WorkflowRunView,
    replies: Seq<HostReplyView>,
    uuid: Seq<char>,
)
    requires
        run.well_formed(),
        advance(registry, retired, run, replies, uuid).2 is Finished,
    ensures
        ({
            let (_, next, directive) = advance(registry, retired, run, replies, uuid);
            &&& directive == DirectiveView::Finished(uuid)
            &&& next.finished && next.pending is None
            &&& next.position == run.actions.len()
            &&& run.pending is Some ==> settle(registry, retired, run.pending->Some_0, replies).1 is Ok
        }),
{
}

/// The first failure ends the run, names the step that failed, and undoes
/// nothing: the turn leaves every window live that was live before it,
/// but for the one whose closing the host has just confirmed.
pub proof fn lemma_failure_ends_run_without_rollback(
    registry: Seq<OfficeWindowView>,
    retired: Set<Seq<char>>,
    run: WorkflowRunView,
    replies: Seq<HostReplyView>,
    uuid: Seq<char>,
)
    requires
        ids_distinct(registry),
        run.well_formed(),
        advance(registry, retired, run, replies, uuid).2 is Failed,
    ensures
        ({
            let (after, next, directive) = advance(registry, retired, run, replies, uuid);
            &&& next.finished && next.pending is None
            &&& directive->Failed_0 is WorkflowStepFailed
            &&& directive->Failed_0->index == next.position
            &&& next.position < run.actions.len()
            &&& forall|id: Seq<char>|
                has_window(registry, id) && run.pending != Some(PendingStepView::Close(id))
                    ==> has_window(after, id)
            &&& run.pending is Some && settle(registry, retired, run.pending->Some_0, replies).1 is Err
                ==> after == registry
        }),
{
    let (after, next, directive) = advance(registry, retired, run, replies, uuid);
    assert forall|id: Seq<char>|
        has_window(registry, id) && run.pending != Some(
            PendingStepView::Close(id),
        ) implies has_window(after, id) by {
        lemma_settle_keeps_other_windows(registry, retired, run.pending, replies, id);
    }
}

/// Settling a step removes no window but the one that the step closes.
pub proof fn lemma_settle_keeps_other_windows(
    registry: Seq<OfficeWindowView>,
    retired: Set<Seq<char>>,
    pending: Option<PendingStepView>,
    replies: Seq<HostReplyView>,
    id: Seq<char>,
)
    requires
        ids_distinct(registry),
        has_window(registry, id),
        pending != Some(PendingStepView::Close(id)),
    ensures
        pending matches Some(step) ==> has_window(settle(registry, retired, step, replies).0, id),
{
    match pending {
        Some(PendingStepView::Open(window)) => {
            let after = settle(registry, retired, PendingStepView::Open(window), replies).0;
            let i = choose|i: int| 0 <= i < registry.len() && #[trigger] registry[i].id == id;
            if after != registry {
                assert(after == registry.push(window));
                assert(after[i].id == id);
            }
        },
        Some(PendingStepView::Close(closed)) => {
            if has_window(registry, closed) {
                lemma_closed_window_is_gone(registry, closed);
                assert(has_window(registry.remove(index_of(registry, closed)), id));
            }
        },
        _ => {},
    }
}

/// No turn takes an identifier out of use: one that a live window has, or
/// that a closed window had, is still one of the two after the turn. With
/// the refusal to open a window under such an identifier, no identifier is
/// handed out twice in the life of a registry.
pub proof fn lemma_turn_keeps_identifiers_in_use(
    registry: Seq<OfficeWindowView>,
    retired: Set<Seq<char>>,
    run: WorkflowRunView,
    replies: Seq<HostReplyView>,
    uuid: Seq<char>,
    used: Seq<char>,
)
    requires
        ids_distinct(registry),
        is_used(registry, retired, used),
    ensures
        is_used(
            advance(registry, retired, run, replies, uuid).0,
            retired_after_turn(registry, retired, run, replies),
            used,
        ),
{
    if !run.finished {
        match run.pending {
            Some(PendingStepView::Open(window)) => {
                lemma_identifier_is_never_handed_out_again(
                    registry,
                    retired,
                    window,
                    reply_at(replies, 0),
                    used,
                    used,
                    true,
                    0,
                );
            },
            Some(PendingStepView::Close(id)) => {
                lemma_identifier_is_never_handed_out_again(
                    registry,
                    retired,
                    new_window(OfficeType::Orchestrator, true, None, id),
                    reply_at(replies, 0),
                    id,
                    used,
                    true,
                    0,
                );
            },
            _ => {},
        }
    }
}

/// A run that is over stays over: a further turn changes nothing and asks
/// for nothing.
pub proof fn lemma_ended_run_stays_ended(
    registry: Seq<OfficeWindowView>,
    retired: Set<Seq<char>>,
    run: WorkflowRunView,
    replies: Seq<HostReplyView>,
    uuid: Seq<char>,
)
    requires
        run.finished,
    ensures
        advance(registry, retired, run, replies, uuid) == (registry, run, DirectiveView::Ended),
{
}

/// The run of a workflow that opens an office, sends it a message and
/// closes it again, from a registry without windows, under an identifier
/// that was never in use, and with a host that performs every call: the message is emitted once, to the window that was
/// opened, while it is open; the run ends in success with its identifier;
/// the registry is without windows again, and the identifier is among
/// those of closed windows. Where the host fails the
/// delivery instead, the run ends at that step with the failure, and the
/// window stays open.
pub proof fn lemma_open_send_close(
    retired: Set<Seq<char>>,
    office_type: OfficeType,
    message: JsonModel,
    uuids: Seq<Seq<char>>,
    detail: Seq<char>,
)
    requires
        uuids.len() == 4,
        !retired.contains(window_id(uuids[0])),
    ensures
        ({
            let id = window_id(uuids[0]);
            let window = new_window(office_type, true, None, id);
            let actions = seq![
                WorkflowActionView::OpenOffice(office_type),
                WorkflowActionView::SendMessage(office_type, message),
                WorkflowActionView::CloseOffice(id),
            ];
            let nothing = Seq::<OfficeWindowView>::empty();
            let done = seq![HostReplyView::Done];
            let emit = emit_to(window, HostEvent::OfficeMessage, message);
            let (first, opening, open) = advance(
                nothing,
                retired,
                fresh_run(actions),
                Seq::empty(),
                uuids[0],
            );
            let (second, sending, send) = advance(first, retired, opening, done, uuids[1]);
            let (third, closing, close) = advance(second, retired, sending, done, uuids[2]);
            let (last, over, end) = advance(third, retired, closing, done, uuids[3]);
            let (kept, aborted, abort) = advance(
                second,
                retired,
                sending,
                seq![HostReplyView::Failed(detail)],
                uuids[2],
            );
            &&& open == DirectiveView::Perform(seq![create_call(window)])
            &&& first == nothing
            &&& send == DirectiveView::Perform(seq![emit])
            &&& second == seq![window]
            &&& close == DirectiveView::Perform(seq![HostCallView::CloseWindow { id }])
            &&& third == seq![window]
            &&& end == DirectiveView::Finished(uuids[3])
            &&& last == nothing
            &&& retired_after_turn(third, retired, closing, done) == retired.insert(id)
            &&& over.finished
            &&& abort == DirectiveView::Failed(
                OfficeErrorView::WorkflowStepFailed {
                    index: 1,
                    cause: Box::new(
                        OfficeErrorView::DeliveryFailure {
                            event: HostEvent::OfficeMessage,
                            failures: seq![FailedDeliveryView { window_id: id, detail }],
                        },
                    ),
                },
            )
            &&& kept == seq![window]
            &&& aborted.finished
        }),
{
    let id = window_id(uuids[0]);
    let window = new_window(office_type, true, None, id);
    let actions = seq![
        WorkflowActionView::OpenOffice(office_type),
        WorkflowActionView::SendMessage(office_type, message),
        WorkflowActionView::CloseOffice(id),
    ];
    let nothing = Seq::<OfficeWindowView>::empty();
    let done = seq![HostReplyView::Done];
    let emit = emit_to(window, HostEvent::OfficeMessage, message);
    let one = seq![window];

    // Opening: the identifier was never in use.
    assert(!is_used(nothing, retired, id));
    let (first, opening, open) = advance(
        nothing,
        retired,
        fresh_run(actions),
        Seq::empty(),
        uuids[0],
    );
    assert(first == nothing);
    assert(opening.pending == Some(PendingStepView::Open(window)));

    // The window is created, and the message goes to it alone.
    assert(nothing.push(window) =~= one);
    assert(emits(one, Some(office_type), HostEvent::OfficeMessage, message) =~= seq![emit]) by {
        let meant = |window: OfficeWindowView| addressed(window, Some(office_type));
        reveal_with_fuel(Seq::filter, 2);
        assert(one.drop_last() =~= nothing);
        assert(one.filter(meant) =~= one);
    }
    let (second, sending, send) = advance(first, retired, opening, done, uuids[1]);
    assert(second == one);
    assert(sending.pending == Some(PendingStepView::Deliver(seq![emit])));
    assert(sending.position == 1);

    // The delivery succeeded: the window is found and asked to close.
    assert(failed_deliveries(seq![emit], done) =~= Seq::empty()) by {
        reveal_with_fuel(failed_deliveries, 2);
        assert(seq![emit].drop_last() =~= Seq::<HostCallView>::empty());
    }
    assert(one[0].id == id);
    assert(has_window(one, id));
    let (third, closing, close) = advance(second, retired, sending, done, uuids[2]);
    assert(third == one);
    assert(closing.pending == Some(PendingStepView::Close(id)));
    assert(closing.position == 2);

    // The window is closed, and no step is left.
    assert(index_of(one, id) == 0);
    assert(one.remove(0) =~= nothing);
    let (last, over, end) = advance(third, retired, closing, done, uuids[3]);
    assert(last == nothing);

    // The delivery failed instead.
    let refused = seq![HostReplyView::Failed(detail)];
    assert(failed_deliveries(seq![emit], refused) =~= seq![
        FailedDeliveryView { window_id: id, detail },
    ]) by {
        reveal_with_fuel(failed_deliveries, 2);
        assert(seq![emit].drop_last() =~= Seq::<HostCallView>::empty());
    }
}

} // verus!
