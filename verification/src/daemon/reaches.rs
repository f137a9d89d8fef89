//! Whom a request reaches: whom a message is recorded for, and with what a request begins.

use vstd::prelude::*;

use super::answers::{law_ask_is_told, law_reply_is_told, law_socket_tell_is_told, law_tell_is_told};
use super::clear::{cleared_view, ClearState, ClearStep};
use super::dispatch::{ordered, Direct, Order};
use super::errors::{class_of, SliceError};
use super::message::{self, MessageEvent, MessageStep};
use super::params::{selects, Selector, WhoParams};
use super::prompt::{prompt_refusal, PromptParams};
use super::reads::{follows_look, ReadKind, ReadStep};
use super::rename::renamed_view;
use super::results::{id_view, ClearResult, LaunchResult, ReadyIdentity};
use super::retire::retired_view;
use super::route::Served;
use super::serving::{self, Call, ServeEvent, ServeStep};
use super::start::launched_view;
use super::told::{
    law_clear_result_is_told, law_identity_result_is_told, law_launch_result_is_told,
    law_retire_result_is_told,
};
use crate::domain::{DeliveryOutcome, OperationId};
use crate::herdr_exec::HerdrJobResult;
use crate::json::{int_view, text_view, JsonView};

verus! {

/// A tell to an alias goes to the one who holds it: to the pane of a ready incarnation, or to the
/// socket of a waiter. Where both hold it there is a conflict.
#[verifier::spinoff_prover]
#[verifier::rlimit(60)]
pub proof fn law_tell_goes_to_who_holds_the_alias(
    params: PromptParams,
    step: MessageStep,
    event: MessageEvent,
    after: MessageStep,
)
    requires
        message::follows(params, step, event, after),
    ensures
        event matches MessageEvent::Held { ready: Ok(Some((recipient, incarnation))), waiter: Ok(None) }
            ==> after == (MessageStep::RecordTell { recipient, incarnation }),
        event matches MessageEvent::Held { ready: Ok(None), waiter: Ok(Some(recipient)) } ==> after
            == (MessageStep::RecordSocketTell { recipient }),
        event matches MessageEvent::Held { ready: Ok(Some(_)), waiter: Ok(Some(_)) } ==> (
        after matches MessageStep::End(Err(error)) && class_of(error) == "conflict"@),
        event matches MessageEvent::Held { ready: Ok(None), waiter: Ok(None) } ==> (
        step matches MessageStep::LookUpTell { alias, key } ==> after == (MessageStep::ResolveTell {
            alias,
            key,
        })),
        event matches MessageEvent::Resolved(Ok((recipient, incarnation))) ==> match step {
            MessageStep::ResolveAsk { interval, .. } => after == (MessageStep::RecordAsk {
                recipient,
                incarnation,
                interval,
            }),
            _ => after == (MessageStep::RecordTell { recipient, incarnation }),
        },
        event matches MessageEvent::Resolved(Err(error)) ==> after == MessageStep::End(Err(error)),
        event matches MessageEvent::Recorded(Err(error)) ==> after == MessageStep::End(Err(error)),
        event matches MessageEvent::RecordedReply(Err(error)) ==> after == MessageStep::End(
            Err(error),
        ),
        event matches MessageEvent::RecordedForSocket(Err(error)) ==> after == MessageStep::End(
            Err(error),
        ),
{
}

/// What is told of a recorded ask names the message, whom it is for and who waits for the reply,
/// and it is delivered by the prompt that was prepared.
#[verifier::spinoff_prover]
#[verifier::rlimit(60)]
pub proof fn law_recorded_ask_is_told(
    params: PromptParams,
    step: MessageStep,
    event: MessageEvent,
    after: MessageStep,
)
    requires
        message::follows(params, step, event, after),
        step is RecordAsk,
        event matches MessageEvent::Recorded(Ok((_, Some(_)))),
    ensures
        ({
            let created = event->Recorded_0->Ok_0.0;
            let prepared = event->Recorded_0->Ok_0.1;
            &&& after matches MessageStep::End(Ok(outcome)) && outcome.prepared == prepared
                && outcome.result@.get("message_id"@) == Some(id_view(created.message_id.value))
                && outcome.result@.get("operation_id"@) == Some(
                id_view(created.operation_id.value),
            ) && outcome.result@.get("recipient"@) == Some(
                id_view(step->RecordAsk_recipient.value),
            ) && outcome.result@.get("recipient_incarnation"@) == Some(
                id_view(step->RecordAsk_incarnation.value),
            )
            &&& params matches PromptParams::Ask(asked) && (after matches MessageStep::End(
                Ok(outcome),
            ) && outcome.result@.get("waiting_agent_id"@) == Some(id_view(asked.sender.value)))
        }),
{
    let created = event->Recorded_0->Ok_0.0;
    if let PromptParams::Ask(asked) = params {
        if let MessageStep::RecordAsk { recipient, incarnation, interval } = step {
            law_ask_is_told(created, recipient, incarnation, asked.sender, interval, None);
        }
    }
}

/// What is told of a recorded tell names the message, whom it is for and when it comes due, and it
/// is delivered by the prompt that was prepared.
#[verifier::spinoff_prover]
#[verifier::rlimit(60)]
pub proof fn law_recorded_tell_is_told(
    params: PromptParams,
    step: MessageStep,
    event: MessageEvent,
    after: MessageStep,
)
    requires
        message::follows(params, step, event, after),
        step is RecordTell,
        event matches MessageEvent::Recorded(Ok((_, Some(_)))),
    ensures
        ({
            let created = event->Recorded_0->Ok_0.0;
            let prepared = event->Recorded_0->Ok_0.1;
            &&& after matches MessageStep::End(Ok(outcome)) && outcome.prepared == prepared
                && outcome.result@.get("message_id"@) == Some(id_view(created.message_id.value))
                && outcome.result@.get("recipient"@) == Some(
                id_view(step->RecordTell_recipient.value),
            ) && outcome.result@.get("recipient_incarnation"@) == Some(
                id_view(step->RecordTell_incarnation.value),
            )
            &&& params matches PromptParams::Tell(told) && (told.due_at_ms matches Some(due) ==> (
            after matches MessageStep::End(Ok(outcome)) && outcome.result@.get("due_at_ms"@)
                == Some(int_view(due as int))))
        }),
{
    let created = event->Recorded_0->Ok_0.0;
    if let PromptParams::Tell(told) = params {
        if let MessageStep::RecordTell { recipient, incarnation } = step {
            law_tell_is_told(created, recipient, incarnation, told.due_at_ms, None);
        }
    }
}

/// What is told of a message that needs no prompt holds the outcome that was recorded of it.
#[verifier::spinoff_prover]
#[verifier::rlimit(60)]
pub proof fn law_outcome_is_told(
    params: PromptParams,
    step: MessageStep,
    after: MessageStep,
    outcome: DeliveryOutcome,
)
    requires
        message::follows(params, step, MessageEvent::Outcome(Ok(outcome)), after),
    ensures
        after matches MessageStep::End(Ok(ended)) && ended.prepared is None
            && ended.result@.get("delivery_outcome"@) == Some(text_view(outcome.name())),
{
    match (params, step) {
        (
            PromptParams::Ask(asked),
            MessageStep::AskOutcome { created, recipient, incarnation, interval },
        ) => {
            law_ask_is_told(created, recipient, incarnation, asked.sender, interval, Some(outcome));
        },
        (PromptParams::Tell(told), MessageStep::TellOutcome { created, recipient, incarnation }) => {
            law_tell_is_told(created, recipient, incarnation, told.due_at_ms, Some(outcome));
        },
        (PromptParams::Tell(told), MessageStep::SocketOutcome { message_id, recipient }) => {
            law_socket_tell_is_told(message_id, recipient, told.due_at_ms, outcome);
        },
        _ => {},
    }
}

/// A recorded reply answers the ask that it names, with the disposition that was recorded.
#[verifier::spinoff_prover]
#[verifier::rlimit(60)]
pub proof fn law_recorded_reply_answers_its_ask(
    params: PromptParams,
    step: MessageStep,
    event: MessageEvent,
    after: MessageStep,
)
    requires
        message::follows(params, step, event, after),
        event matches MessageEvent::RecordedReply(Ok((_, Some(_)))),
    ensures
        ({
            let created = event->RecordedReply_0->Ok_0.0;
            let prepared = event->RecordedReply_0->Ok_0.1;
            &&& params matches PromptParams::Reply(replied) && (after matches MessageStep::End(
                Ok(outcome),
            ) && outcome.reply_to == Some(replied.reply_to) && outcome.prepared == prepared
                && outcome.result@.get("disposition"@) == Some(
                text_view(created.disposition.name()),
            ) && outcome.result@.get("message_id"@) == Some(id_view(created.message_id.value)))
        }),
{
    law_reply_is_told(event->RecordedReply_0->Ok_0.0, None);
}

/// A recipient is named by its agent and incarnation together, or by an alias, and in no other
/// way. An ask is never postponed.
#[verifier::spinoff_prover]
#[verifier::rlimit(60)]
pub proof fn law_recipient_is_named_in_one_way(params: PromptParams)
    ensures
        params matches PromptParams::Ask(asked) ==> (prompt_refusal(params) is None ==> {
            &&& asked.due_at_ms is None
            &&& !(asked.no_remind && asked.remind_after_ms is Some)
            &&& asked.recipient_alias is None <==> asked.recipient is Some
            &&& asked.recipient is Some <==> asked.recipient_incarnation is Some
        }),
        params matches PromptParams::Tell(told) ==> (prompt_refusal(params) is None <==> {
            &&& told.recipient_alias is None <==> told.recipient is Some
            &&& told.recipient is Some <==> told.recipient_incarnation is Some
        }),
        params is Reply ==> prompt_refusal(params) is None,
{
}

/// A request begins with what its params name: a rename and a waiter's retirement with the agent
/// or the alias, a retirement with its pane where it closes it.
#[verifier::spinoff_prover]
#[verifier::rlimit(60)]
pub proof fn law_request_begins_with_what_it_names(call: Call, id: Seq<char>, step: ServeStep)
    requires
        serving::begins(call, id, step),
    ensures
        call matches Call::Retire(params) ==> (params.close_pane ==> step is PrepareRetire) && (
        !params.close_pane ==> step is AtOnce),
        call matches Call::Rename(params) ==> (params.alias is None ==> (
        params.agent_id matches Some(agent) ==> step == (ServeStep::PrepareRename { agent }))),
        call matches Call::Rename(params) ==> (params.agent_id is None ==> (
        params.alias matches Some(alias) ==> (step matches ServeStep::FindRenamed { alias: name }
            && name@ == alias@))),
        call matches Call::WaiterRetire(params) ==> (params.alias is None ==> (
        params.logical_agent_id matches Some(waiter) ==> step == (ServeStep::PrepareWaiterRetire {
            waiter,
        }))),
        call matches Call::WaiterRetire(params) ==> (params.logical_agent_id is None ==> (
        params.alias matches Some(alias) ==> (step matches ServeStep::FindWaiter { alias: name }
            && name@ == alias@))),
        call matches Call::InboxClaim(waiter) ==> step == ServeStep::Claim(waiter),
        call is Start ==> step is Check,
        call is Cancel ==> step is RecordCancel,
        call is Adopt ==> step is Adopt,
        call is Who || call is Whoami || call is Attribution || call is Report ==> step is Look,
        call matches Call::Clear(params) ==> (params.recipient_alias is None ==> (
        params.recipient matches Some(recipient) ==> (
        params.recipient_incarnation matches Some(incarnation) ==> step == (
        ServeStep::ReadSpacing { recipient, incarnation })))),
{
}

/// A clear that is served is of the incarnation that it was asked for, under its own key, and waits
/// as long as was said.
#[verifier::spinoff_prover]
#[verifier::rlimit(60)]
pub proof fn law_served_clear_is_of_its_recipient(
    call: Call,
    id: Seq<char>,
    now: u64,
    step: ServeStep,
    event: ServeEvent,
    after: ServeStep,
)
    requires
        serving::follows(call, id, now, step, event, after),
    ensures
        event matches ServeEvent::Resolved(Ok((recipient, incarnation))) ==> after == (
        ServeStep::ReadSpacing { recipient, incarnation }),
        event matches ServeEvent::Spacing(Ok(not_before)) ==> (step matches ServeStep::ReadSpacing {
            recipient,
            incarnation,
        } ==> (after matches ServeStep::Done(Served::Clear(parked)) && parked.request_id@ == id && (
        parked.work matches ClearStep::Rest { state: ClearState::Settling { clear, not_before_ms } }
            && clear.recipient == recipient && clear.recipient_incarnation == incarnation
            && not_before_ms == not_before && (call matches Call::Clear(params)
            && clear.idempotency_key@ == params.idempotency_key@)))),
        event matches ServeEvent::Found(Ok((agent, _))) ==> after == (ServeStep::PrepareRename {
            agent,
        }),
        event matches ServeEvent::WaiterHeld { ready: Ok(None), waiter: Ok(Some(waiter)) } ==> after
            == (ServeStep::PrepareWaiterRetire { waiter }),
{
}

/// A look that Herdr answered goes on with what was asked for: a report of those it was asked of,
/// an adoption of the pane, a refresh of the incarnation.
#[verifier::spinoff_prover]
#[verifier::rlimit(60)]
pub proof fn law_look_goes_on_with_what_was_asked_for(
    kind: ReadKind,
    result: HerdrJobResult,
    step: ReadStep,
)
    requires
        follows_look(kind, Ok(result), step),
    ensures
        result matches HerdrJobResult::Snapshot(snapshot) ==> (kind is Recover ==> step
            == ReadStep::Recover(snapshot)),
        result matches HerdrJobResult::Lifecycle(observed) ==> (kind matches ReadKind::Report {
            active,
        } ==> step == (ReadStep::Report { active, observed })),
        result is Snapshot ==> (kind matches ReadKind::Whoami { pane_id, .. } ==> (
        step matches ReadStep::AdoptPane { pane_id: pane, .. } && pane == pane_id)),
        result is Snapshot ==> (kind matches ReadKind::WhoPane { pane_id, .. } ==> (
        step matches ReadStep::AdoptPane { pane_id: pane, .. } && pane == pane_id)),
        result is Snapshot ==> (kind matches ReadKind::Alias { alias, .. } ==> (
        step matches ReadStep::BindAlias { alias: name, .. } && name == alias)),
        result is Snapshot ==> (kind matches ReadKind::Attribution { incarnation_id } ==> (
        step matches ReadStep::Refresh { incarnation_id: id, .. } && id == incarnation_id)),
        result is Snapshot ==> (kind matches ReadKind::WhoAttribution { incarnation_id } ==> (
        step matches ReadStep::Refresh { incarnation_id: id, .. } && id == incarnation_id)),
{
}

/// What the coordinator is asked for is what the request named.
#[verifier::spinoff_prover]
#[verifier::rlimit(60)]
pub proof fn law_order_is_of_its_request(direct: Direct, request_id: Seq<char>, order: Order)
    requires
        ordered(direct, request_id, order),
    ensures
        direct matches Direct::Pending(agent) ==> (order matches Order::ListPending(asked) && asked
            == agent),
        direct matches Direct::NameInfo(name) ==> (order matches Order::FindName(asked) && asked@
            == name@),
        direct matches Direct::AskInfo(id) ==> (order matches Order::FindAsk(asked) && asked == id),
        direct matches Direct::NoticeCreate(body) ==> (order matches Order::CreateNotice(asked)
            && asked@ == body@),
        direct is NoticeList ==> order is ListNotices,
        direct matches Direct::WaiterRegister(params) ==> (order matches Order::RegisterWaiter(asked)
            && asked == params),
        direct matches Direct::RenewCancel(params) ==> (order matches Order::CancelRenew(asked)
            && asked == params),
        direct matches Direct::ReminderSnooze(params) ==> (order matches Order::Snooze(asked)
            && asked == params),
        direct matches Direct::ReminderDisable(params) ==> (order matches Order::Disable(asked)
            && asked == params),
        direct matches Direct::Retire(params) ==> (order matches Order::Retire(asked) && asked
            == params),
        direct matches Direct::Renew(params) ==> (order matches Order::ArmRenew {
            recipient,
            incarnation,
            ..
        } && params.recipient == Some(recipient) && params.recipient_incarnation == Some(
            incarnation,
        )),
        direct matches Direct::Whoami(params) ==> match order {
            Order::IdentifyPane { pane, lazy_key } => params.pane_id matches Some(named) && named@
                == pane@ && match params.lazy_adopt_key {
                Some(key) => lazy_key@ == key@,
                None => lazy_key@ == request_id,
            },
            Order::IdentifyAlias(alias) => params.alias matches Some(named) && named@ == alias@,
            _ => false,
        },
        direct matches Direct::Who(params) ==> match order {
            Order::FindName(name) => params.history && (params.alias matches Some(named) && named@
                == name@),
            Order::Identify { refresh, .. } => !params.history && refresh == params.refresh,
            _ => false,
        },
        direct matches Direct::Attribution(params) ==> (order matches Order::Attribute {
            refresh,
            ..
        } && refresh == params.refresh),
{
}

/// A selector is what was named of an identity.
#[verifier::spinoff_prover]
pub proof fn law_selector_is_what_was_named(selector: Selector, params: WhoParams)
    requires
        selects(selector, params),
    ensures
        selector matches Selector::Incarnation(id) ==> params.incarnation_id == Some(id),
        selector matches Selector::Agent(id) ==> params.agent_id == Some(id),
        selector matches Selector::Alias(alias) ==> params.alias == Some(*alias),
        selector matches Selector::Pane(pane) ==> params.pane_id == Some(*pane),
{
}

/// A flow that ended well is answered with what came of it, and one that did not with its error.
#[verifier::spinoff_prover]
#[verifier::rlimit(60)]
pub proof fn law_ended_flow_is_answered(
    error: SliceError,
    identity: ReadyIdentity,
    operation_id: OperationId,
    released: bool,
    cleared: ClearResult,
    launched: LaunchResult,
)
    ensures
        renamed_view(Err(error)) == Err::<JsonView, SliceError>(error),
        retired_view(Err(error)) == Err::<JsonView, SliceError>(error),
        cleared_view(Err(error)) == Err::<JsonView, SliceError>(error),
        launched_view(Err(error)) == Err::<JsonView, SliceError>(error),
        renamed_view(Ok(identity)) matches Ok(told) && told.get("incarnation_id"@) == Some(
            id_view(identity.incarnation_id.value),
        ),
        retired_view(Ok((operation_id, released))) matches Ok(told) && told.get("operation_id"@)
            == Some(id_view(operation_id.value)) && told.get("pane_released"@) == Some(
            JsonView::Bool(released),
        ),
        cleared_view(Ok(cleared)) matches Ok(told) && told.get("operation_id"@) == Some(
            id_view(cleared.operation_id.value),
        ),
        launched_view(Ok(launched)) matches Ok(told) && told.get("incarnation_id"@) == Some(
            id_view(launched.incarnation_id.value),
        ),
{
    law_identity_result_is_told(identity);
    law_retire_result_is_told(operation_id, released);
    law_clear_result_is_told(cleared);
    law_launch_result_is_told(launched);
}

} // verus!
