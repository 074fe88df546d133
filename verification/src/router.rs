//! Delivery of messages to live windows: to those of one role, or to all.
//!
//! Sending is fire-and-forget. The router says which events the host is to
//! emit; once the host has tried them all, the replies are reduced to one
//! result that names every delivery that failed.

use vstd::prelude::*;
use vstd::string::*;

use crate::error::{
    failure_views, is_outcome, FailedDelivery, FailedDeliveryView, OfficeError, OfficeErrorView,
};
use crate::host::{
    call_views, reply_at, reply_to, reply_views, HostCall, HostCallView, HostEvent, HostReply,
    HostReplyView,
};
use crate::json::{json_model, JsonModel};
use crate::office::OfficeType;
use crate::window::{window_views, OfficeWindow, OfficeWindowView, WindowManager};

verus! {

/// Whether a message for `role` is meant for `window`; a message for no
/// role in particular is meant for every window.
pub open spec fn addressed(window: OfficeWindowView, role: Option<OfficeType>) -> bool {
    match role {
        Some(office_type) => window.office_type == office_type,
        None => true,
    }
}

/// The windows of `registry` that a message for `role` is meant for, in
/// registry order.
pub open spec fn recipients(registry: Seq<OfficeWindowView>, role: Option<OfficeType>) -> Seq<
    OfficeWindowView,
> {
    registry.filter(|window: OfficeWindowView| addressed(window, role))
}

/// The call that emits `event` with `payload` to `window`.
pub open spec fn emit_to(window: OfficeWindowView, event: HostEvent, payload: JsonModel)
    -> HostCallView {
    HostCallView::Emit { id: window.id, event, payload }
}

/// The calls that deliver `event` with `payload` to the windows that a
/// message for `role` is meant for: one per window, in registry order.
pub open spec fn emits(
    registry: Seq<OfficeWindowView>,
    role: Option<OfficeType>,
    event: HostEvent,
    payload: JsonModel,
) -> Seq<HostCallView> {
    recipients(registry, role).map_values(
        |window: OfficeWindowView| emit_to(window, event, payload),
    )
}

/// The deliveries among `calls` that failed, going by `replies`, which
/// answer the calls place by place. A call without a reply counts as failed;
/// a window that the host no longer knows is passed over in silence.
pub open spec fn failed_deliveries(calls: Seq<HostCallView>, replies: Seq<HostReplyView>) -> Seq<
    FailedDeliveryView,
>
    decreases calls.len(),
{
    if calls.len() == 0 {
        Seq::empty()
    } else {
        let before = failed_deliveries(calls.drop_last(), replies);
        match reply_at(replies, calls.len() - 1) {
            HostReplyView::Failed(detail) => before.push(
                FailedDeliveryView { window_id: calls.last().target(), detail },
            ),
            _ => before,
        }
    }
}

/// The result of delivering `event` by `calls`, going by `replies`: success
/// where no delivery failed, else an error that names each one that did.
pub open spec fn delivery_result(
    event: HostEvent,
    calls: Seq<HostCallView>,
    replies: Seq<HostReplyView>,
) -> Result<(), OfficeErrorView> {
    let failures = failed_deliveries(calls, replies);
    if failures.len() == 0 {
        Ok(())
    } else {
        Err(OfficeErrorView::DeliveryFailure { event, failures })
    }
}

/// The calls that deliver `event` with `payload` to those of `windows` that
/// a message for `role` is meant for.
fn emit_calls(
    windows: &Vec<OfficeWindow>,
    role: Option<OfficeType>,
    event: HostEvent,
    payload: &serde_json::Value,
) -> (calls: Vec<HostCall>)
    ensures
        call_views(calls@) == emits(window_views(windows@), role, event, json_model(*payload)),
{
    let mut calls: Vec<HostCall> = Vec::new();
    let ghost registry = window_views(windows@);
    let ghost content = json_model(*payload);
    let mut i: usize = 0;
    proof {
        reveal(Seq::filter);
        assert(registry.subrange(0, 0) =~= Seq::empty());
        assert(call_views(calls@) =~= emits(registry.subrange(0, 0), role, event, content));
    }
    while i < windows.len()
        invariant
            i <= windows.len(),
            registry == window_views(windows@),
            content == json_model(*payload),
            call_views(calls@) == emits(registry.subrange(0, i as int), role, event, content),
        decreases windows.len() - i,
    {
        let window = &windows[i];
        let meant = match role {
            Some(office_type) => window.office_type == office_type,
            None => true,
        };
        proof {
            let seen = registry.subrange(0, i as int);
            assert(registry.subrange(0, i + 1) =~= seen.push(registry[i as int]));
            seen.lemma_filter_push(
                registry[i as int],
                |window: OfficeWindowView| addressed(window, role),
            );
        }
        if meant {
            let ghost before = calls@;
            let call = HostCall::Emit { id: window.id.clone(), event, payload: payload.clone() };
            calls.push(call);
            proof {
                assert(call_views(before.push(call)) =~= call_views(before).push(call@));
                let seen = registry.subrange(0, i as int);
                assert(emits(seen.push(registry[i as int]), role, event, content) =~= emits(
                    seen,
                    role,
                    event,
                    content,
                ).push(emit_to(registry[i as int], event, content)));
            }
        }
        i += 1;
    }
    assert(registry.subrange(0, registry.len() as int) =~= registry);
    calls
}

impl WindowManager {
    /// The calls that deliver `message` to every live window of role
    /// `office_type`: none, one or many. The caller has the host perform
    /// them all, whatever each one answers, and reduces the replies with
    /// `delivery_outcome`.
    pub fn send_to_office(&self, office_type: &OfficeType, message: serde_json::Value) -> (calls:
        Vec<HostCall>)
        ensures
            call_views(calls@) == emits(
                self@,
                Some(*office_type),
                HostEvent::OfficeMessage,
                json_model(message),
            ),
    {
        emit_calls(self.windows(), Some(*office_type), HostEvent::OfficeMessage, &message)
    }

    /// The calls that deliver `message` to every live window.
    pub fn broadcast_to_all(&self, message: serde_json::Value) -> (calls: Vec<HostCall>)
        ensures
            call_views(calls@) == emits(
                self@,
                None,
                HostEvent::SystemBroadcast,
                json_model(message),
            ),
    {
        emit_calls(self.windows(), None, HostEvent::SystemBroadcast, &message)
    }
}

/// Reduces the host's replies to the deliveries of `event` to one result:
/// success where no delivery failed, else an error that names each one that
/// did. `replies` answer `calls` place by place.
pub fn delivery_outcome(event: HostEvent, calls: &Vec<HostCall>, replies: &Vec<HostReply>) -> (outcome:
    Result<(), OfficeError>)
    ensures
        is_outcome(outcome, delivery_result(event, call_views(calls@), reply_views(replies@))),
{
    let mut failures: Vec<FailedDelivery> = Vec::new();
    let ghost all = call_views(calls@);
    let ghost answers = reply_views(replies@);
    let mut i: usize = 0;
    assert(all.subrange(0, 0) =~= Seq::empty());
    while i < calls.len()
        invariant
            i <= calls.len(),
            all == call_views(calls@),
            answers == reply_views(replies@),
            failure_views(failures@) == failed_deliveries(all.subrange(0, i as int), answers),
        decreases calls.len() - i,
    {
        proof {
            let upto = all.subrange(0, i + 1);
            assert(upto.drop_last() =~= all.subrange(0, i as int));
            assert(upto.last() == all[i as int]);
        }
        match reply_to(replies, i) {
            HostReply::Failed(detail) => {
                let ghost before = failures@;
                let failure = FailedDelivery { window_id: calls[i].target(), detail };
                failures.push(failure);
                proof {
                    assert(failure_views(before.push(failure)) =~= failure_views(before).push(
                        failure@,
                    ));
                }
            },
            _ => {},
        }
        i += 1;
    }
    assert(all.subrange(0, all.len() as int) =~= all);
    if failures.len() == 0 {
        Ok(())
    } else {
        Err(OfficeError::DeliveryFailure { event, failures })
    }
}

/// A delivery succeeds exactly where the host reported no call as failed.
/// Where it fails, each failure that the error names is the failure of one
/// of the calls: it names that call's window and gives the host's account.
pub proof fn lemma_delivery_fails_exactly_on_a_failed_reply(
    event: HostEvent,
    calls: Seq<HostCallView>,
    replies: Seq<HostReplyView>,
)
    ensures
        delivery_result(event, calls, replies) is Ok <==> forall|i: int|
            0 <= i < calls.len() ==> !(#[trigger] reply_at(replies, i) is Failed),
        forall|k: int|
            0 <= k < failed_deliveries(calls, replies).len() ==> exists|i: int|
                0 <= i < calls.len() && #[trigger] reply_at(replies, i) == HostReplyView::Failed(
                    (#[trigger] failed_deliveries(calls, replies)[k]).detail,
                ) && calls[i].target() == failed_deliveries(calls, replies)[k].window_id,
    decreases calls.len(),
{
    let failures = failed_deliveries(calls, replies);
    if calls.len() > 0 {
        let shorter = calls.drop_last();
        let before = failed_deliveries(shorter, replies);
        let last = calls.len() - 1;
        lemma_delivery_fails_exactly_on_a_failed_reply(event, shorter, replies);
        assert forall|k: int| 0 <= k < failures.len() implies exists|i: int|
            0 <= i < calls.len() && #[trigger] reply_at(replies, i) == HostReplyView::Failed(
                (#[trigger] failures[k]).detail,
            ) && calls[i].target() == failures[k].window_id by {
            if k < before.len() {
                assert(failures[k] == before[k]);
                let i = choose|i: int|
                    0 <= i < shorter.len() && #[trigger] reply_at(replies, i)
                        == HostReplyView::Failed(before[k].detail) && shorter[i].target()
                        == before[k].window_id;
                assert(calls[i] == shorter[i]);
            } else {
                assert(reply_at(replies, last) == HostReplyView::Failed(failures[k].detail));
                assert(calls[last].target() == failures[k].window_id);
            }
        }
        if failures.len() == 0 {
            assert forall|i: int| 0 <= i < calls.len() implies !(#[trigger] reply_at(
                replies,
                i,
            ) is Failed) by {
                if i < last {
                    assert(before.len() == 0);
                }
            }
        } else if before.len() == 0 {
            assert(reply_at(replies, last) is Failed);
        } else {
            let i = choose|i: int|
                0 <= i < shorter.len() && (#[trigger] reply_at(replies, i) is Failed);
            assert(reply_at(replies, i) is Failed);
        }
    }
}

/// A message for a role goes to the live windows of that role and to no
/// others: each call is an emit to a live window of the role, and each live
/// window of the role has a call addressed to it.
pub proof fn lemma_emits_reach_exactly_the_role(
    registry: Seq<OfficeWindowView>,
    office_type: OfficeType,
    event: HostEvent,
    payload: JsonModel,
)
    ensures
        forall|k: int|
            0 <= k < emits(registry, Some(office_type), event, payload).len() ==> exists|i: int|
                0 <= i < registry.len() && registry[i].office_type == office_type && (
                #[trigger] emits(registry, Some(office_type), event, payload)[k]) == emit_to(
                    #[trigger] registry[i],
                    event,
                    payload,
                ),
        forall|i: int|
            0 <= i < registry.len() && (#[trigger] registry[i]).office_type == office_type
                ==> exists|k: int|
                0 <= k < emits(registry, Some(office_type), event, payload).len() && (
                #[trigger] emits(registry, Some(office_type), event, payload)[k]) == emit_to(
                    registry[i],
                    event,
                    payload,
                ),
{
    let pred = |window: OfficeWindowView| addressed(window, Some(office_type));
    let chosen = recipients(registry, Some(office_type));
    let calls = emits(registry, Some(office_type), event, payload);
    assert forall|k: int| 0 <= k < calls.len() implies exists|i: int|
        0 <= i < registry.len() && registry[i].office_type == office_type && (
        #[trigger] calls[k]) == emit_to(#[trigger] registry[i], event, payload) by {
        registry.lemma_filter_pred(pred, k);
        assert(chosen.contains(chosen[k]));
        registry.lemma_filter_contains_rev(pred, chosen[k]);
        let i = choose|i: int| 0 <= i < registry.len() && registry[i] == chosen[k];
        assert(calls[k] == emit_to(registry[i], event, payload));
    }
    assert forall|i: int|
        0 <= i < registry.len() && (#[trigger] registry[i]).office_type
            == office_type implies exists|k: int|
        0 <= k < calls.len() && (#[trigger] calls[k]) == emit_to(registry[i], event, payload) by {
        registry.lemma_filter_contains(pred, i);
        let k = choose|k: int| 0 <= k < chosen.len() && chosen[k] == registry[i];
        assert(calls[k] == emit_to(registry[i], event, payload));
    }
}

/// Where no live window has the role, a message for it is delivered to
/// nobody, which is a success.
pub proof fn lemma_no_window_of_role_no_delivery(
    registry: Seq<OfficeWindowView>,
    office_type: OfficeType,
    event: HostEvent,
    payload: JsonModel,
    replies: Seq<HostReplyView>,
)
    requires
        forall|i: int| 0 <= i < registry.len() ==> (#[trigger] registry[i]).office_type != office_type,
    ensures
        emits(registry, Some(office_type), event, payload).len() == 0,
        delivery_result(event, emits(registry, Some(office_type), event, payload), replies) == Ok::<
            (),
            OfficeErrorView,
        >(()),
{
    let pred = |window: OfficeWindowView| addressed(window, Some(office_type));
    let chosen = recipients(registry, Some(office_type));
    if chosen.len() > 0 {
        registry.lemma_filter_pred(pred, 0);
        assert(chosen.contains(chosen[0]));
        registry.lemma_filter_contains_rev(pred, chosen[0]);
    }
}

/// A broadcast goes to every live window, one call each, in registry order.
pub proof fn lemma_broadcast_reaches_all(
    registry: Seq<OfficeWindowView>,
    event: HostEvent,
    payload: JsonModel,
)
    ensures
        emits(registry, None, event, payload).len() == registry.len(),
        forall|i: int|
            0 <= i < registry.len() ==> (#[trigger] emits(registry, None, event, payload)[i])
                == emit_to(registry[i], event, payload),
{
    lemma_everyone_is_addressed(registry);
}

/// A message for no role in particular is meant for every window.
proof fn lemma_everyone_is_addressed(registry: Seq<OfficeWindowView>)
    ensures
        recipients(registry, None) == registry,
    decreases registry.len(),
{
    reveal(Seq::filter);
    if registry.len() > 0 {
        lemma_everyone_is_addressed(registry.drop_last());
    }
    assert(recipients(registry, None) =~= registry);
}

} // verus!
