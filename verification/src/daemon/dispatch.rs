//! Requests that are answered without waiting: what the coordinator is asked for, and
//! what its reply is answered as.

use vstd::prelude::*;

use super::errors::{
    answer_view, is_invalid, optional_text, respond, ClientResponse, SliceError, StoreError,
};
use super::params::{
    check_refresh, check_renew, history_alias, history_refusal, renew_of, selector,
    selector_refusal, selectors_of, selects, whoami_form, ReminderDisableParams,
    ReminderSnoozeParams, RenewCancelParams, RenewParams, RetireParams, Selector,
    WaiterRegisterParams, WhoIdentity, WhoParams, WhoamiForm, WhoamiParams,
};
use super::reads::{history_is_refused, lazy_key, lazy_key_of};
use super::results::{
    ask_info, ask_info_view, attribution_response, attribution_response_view, disabled,
    identity_result, identity_result_view, name_info, name_info_view, notice_created,
    notice_created_view, operator_notices, operator_notices_view, pending,
    pending_view, renew_cancelled, renew_cancelled_view, renewed, renewed_view, retire_result,
    retire_result_view, snoozed, snoozed_view, waiter_registered, waiter_registered_view,
    who_incarnation, who_incarnation_view, who_waiter, who_waiter_view, AskInfo,
    AttributionEvidence, CancelledAway, NameInfo, OperatorNotice, PendingObligation, ReadyIdentity,
};
use crate::domain::{
    IncarnationId, LogicalAgentId, MessageId, OperationId, OperatorNoticeId, RenewId,
};
use crate::json::{empty_object, text_view, Json, JsonView};

verus! {

/// A request that is answered without waiting, with its parameters.
#[derive(Debug, PartialEq, Eq)]
pub enum Direct<'a> {
    WaiterRegister(&'a WaiterRegisterParams),
    Renew(&'a RenewParams),
    RenewCancel(&'a RenewCancelParams),
    Pending(LogicalAgentId),
    NameInfo(&'a String),
    AskInfo(MessageId),
    ReminderSnooze(&'a ReminderSnoozeParams),
    ReminderDisable(&'a ReminderDisableParams),
    NoticeCreate(&'a String),
    NoticeList,
    Retire(&'a RetireParams),
    Whoami(&'a WhoamiParams),
    Who(&'a WhoParams),
    Attribution(&'a WhoParams),
}

/// What the coordinator is asked for.
#[derive(Debug, PartialEq, Eq)]
pub enum Order<'a> {
    RegisterWaiter(&'a WaiterRegisterParams),
    /// Arm the renew for exactly that incarnation, its first cycle at that time.
    ArmRenew {
        params: &'a RenewParams,
        recipient: LogicalAgentId,
        incarnation: IncarnationId,
        scheduled_at_ms: i64,
    },
    CancelRenew(&'a RenewCancelParams),
    /// What the agent owes, and what was cancelled while it was away.
    ListPending(LogicalAgentId),
    FindName(&'a String),
    FindAsk(MessageId),
    Snooze(&'a ReminderSnoozeParams),
    Disable(&'a ReminderDisableParams),
    CreateNotice(&'a String),
    ListNotices,
    Retire(&'a RetireParams),
    /// Who is in the pane, adopted under the key where it is not known yet.
    IdentifyPane { pane: &'a String, lazy_key: String },
    /// Who is Ready under the alias.
    IdentifyAlias(&'a String),
    /// Whom the selector names: [`who_need`] follows.
    Identify { selector: Selector<'a>, refresh: bool },
    /// The incarnation that the selector names, refreshed first where asked.
    Attribute { selector: Selector<'a>, refresh: bool },
}

/// What the coordinator gave.
#[derive(Debug, PartialEq, Eq)]
pub enum Reply {
    Registered(LogicalAgentId),
    Armed(RenewId),
    RenewCancelled(OperatorNoticeId),
    Pending { owed: Vec<PendingObligation>, waiting: Vec<CancelledAway>, owing: Vec<CancelledAway> },
    Name(NameInfo),
    Ask(AskInfo),
    Snoozed,
    Disabled,
    NoticeCreated(OperatorNoticeId),
    Notices(Vec<OperatorNotice>),
    Retired { operation_id: OperationId, released: bool },
    Identity(ReadyIdentity),
    /// What is recorded of an incarnation, and why a refresh determined nothing.
    Evidence { evidence: AttributionEvidence, reason: Option<String> },
    Waiter { agent: LogicalAgentId, public_name: String, addressable: bool },
}

/// Whether an order is what a request asks the coordinator for.
pub open spec fn ordered(direct: Direct, request_id: Seq<char>, order: Order) -> bool {
    match (direct, order) {
        (Direct::WaiterRegister(params), Order::RegisterWaiter(p)) => p == params,
        (
            Direct::Renew(params),
            Order::ArmRenew { params: p, recipient, incarnation, scheduled_at_ms: _ },
        ) => p == params && params.recipient == Some(recipient) && params.recipient_incarnation
            == Some(incarnation),
        (Direct::RenewCancel(params), Order::CancelRenew(p)) => p == params,
        (Direct::Pending(agent), Order::ListPending(a)) => a == agent,
        (Direct::NameInfo(name), Order::FindName(n)) => n == name,
        (Direct::AskInfo(id), Order::FindAsk(i)) => i == id,
        (Direct::ReminderSnooze(params), Order::Snooze(p)) => p == params,
        (Direct::ReminderDisable(params), Order::Disable(p)) => p == params,
        (Direct::NoticeCreate(body), Order::CreateNotice(b)) => b == body,
        (Direct::NoticeList, Order::ListNotices) => true,
        (Direct::Retire(params), Order::Retire(p)) => p == params,
        (Direct::Whoami(params), Order::IdentifyPane { pane, lazy_key }) => params.pane_id == Some(
            *pane,
        ) && params.alias is None && lazy_key@ == lazy_key_of(params.lazy_adopt_key, request_id),
        (Direct::Whoami(params), Order::IdentifyAlias(alias)) => params.alias == Some(*alias)
            && params.pane_id is None,
        (Direct::Who(params), Order::FindName(name)) => params.history && params.alias == Some(*name)
            && !history_is_refused(*params),
        (Direct::Who(params), Order::Identify { selector, refresh }) => !params.history
            && selectors_of(*params) == 1 && selects(selector, *params) && refresh
            == params.refresh,
        (Direct::Attribution(params), Order::Attribute { selector, refresh }) => selectors_of(
            *params,
        ) == 1 && selects(selector, *params) && refresh == params.refresh,
        _ => false,
    }
}

/// Whether a request is refused with an error before the coordinator is asked.
pub open spec fn refused(direct: Direct, now_ms: Result<i64, StoreError>, error: SliceError) -> bool {
    match direct {
        Direct::Renew(params) => match (renew_of(*params, 0), now_ms) {
            (Err(text), _) => is_invalid(error, text),
            (Ok(_), Err(clock)) => error == SliceError::Store(clock),
            (Ok(_), Ok(_)) => false,
        },
        Direct::Whoami(params) => (params.pane_id is Some <==> params.alias is Some) && is_invalid(
            error,
            "provide either pane_id or alias"@,
        ),
        Direct::Who(params) => if params.history {
            history_is_refused(*params) && is_invalid(error, history_refusal())
        } else {
            selectors_of(*params) != 1 && is_invalid(error, selector_refusal())
        },
        Direct::Attribution(params) => selectors_of(*params) != 1 && is_invalid(
            error,
            selector_refusal(),
        ),
        _ => false,
    }
}

/// What a request that is answered without waiting asks the coordinator for, or why it
/// is refused first. `now_ms` is the clock of the store, read for a renew alone.
pub fn dispatch<'a>(direct: Direct<'a>, request_id: &str, now_ms: Result<i64, StoreError>) -> (r:
    Result<Order<'a>, SliceError>)
    ensures
        match r {
            Ok(order) => ordered(direct, request_id@, order) && (order matches Order::ArmRenew {
                params,
                scheduled_at_ms,
                ..
            } ==> now_ms matches Ok(now) && renew_of(*params, now) matches Ok((_, _, at)) && at
                == scheduled_at_ms),
            Err(error) => refused(direct, now_ms, error),
        },
{
    match direct {
        Direct::WaiterRegister(params) => Ok(Order::RegisterWaiter(params)),
        Direct::Renew(params) => {
            if let Err(error) = check_renew(params, 0) {
                return Err(error);
            }
            let now: i64 = match now_ms {
                Ok(now) => now,
                Err(error) => return Err(SliceError::Store(error)),
            };
            match check_renew(params, now) {
                Ok((recipient, incarnation, scheduled_at_ms)) => Ok(
                    Order::ArmRenew { params, recipient, incarnation, scheduled_at_ms },
                ),
                Err(error) => Err(error),
            }
        },
        Direct::RenewCancel(params) => Ok(Order::CancelRenew(params)),
        Direct::Pending(agent) => Ok(Order::ListPending(agent)),
        Direct::NameInfo(name) => Ok(Order::FindName(name)),
        Direct::AskInfo(id) => Ok(Order::FindAsk(id)),
        Direct::ReminderSnooze(params) => Ok(Order::Snooze(params)),
        Direct::ReminderDisable(params) => Ok(Order::Disable(params)),
        Direct::NoticeCreate(body) => Ok(Order::CreateNotice(body)),
        Direct::NoticeList => Ok(Order::ListNotices),
        Direct::Retire(params) => Ok(Order::Retire(params)),
        Direct::Whoami(params) => match whoami_form(params) {
            Ok(WhoamiForm::Pane(pane)) => Ok(
                Order::IdentifyPane { pane, lazy_key: lazy_key(&params.lazy_adopt_key, request_id) },
            ),
            Ok(WhoamiForm::Alias(alias)) => Ok(Order::IdentifyAlias(alias)),
            Err(error) => Err(error),
        },
        Direct::Who(params) => {
            if params.history {
                return match history_alias(params) {
                    Ok(name) => Ok(Order::FindName(name)),
                    Err(error) => Err(error),
                };
            }
            match selector(params) {
                Ok(selector) => Ok(Order::Identify { selector, refresh: params.refresh }),
                Err(error) => Err(error),
            }
        },
        Direct::Attribution(params) => match selector(params) {
            Ok(selector) => Ok(Order::Attribute { selector, refresh: params.refresh }),
            Err(error) => Err(error),
        },
    }
}

/// What is left to ask once it is known whom a who is about.
#[derive(Debug, Clone, Copy, PartialEq, Eq, Structural)]
pub enum WhoNeed {
    /// Refresh the attribution of the incarnation, then read what is recorded of it.
    Refresh(IncarnationId),
    /// Read what is recorded of the incarnation.
    Evidence(IncarnationId),
    /// Read the name of the socket waiter, and whether it can be addressed.
    Waiter(LogicalAgentId),
}

/// What is left to ask once it is known whom a who is about.
pub fn who_need(identity: WhoIdentity, refresh: bool) -> (r: Result<WhoNeed, SliceError>)
    ensures
        match identity {
            WhoIdentity::Incarnation(id) => r == Ok::<WhoNeed, SliceError>(
                if refresh {
                    WhoNeed::Refresh(id)
                } else {
                    WhoNeed::Evidence(id)
                },
            ),
            WhoIdentity::SocketWaiter(agent) => if refresh {
                r matches Err(error) && is_invalid(
                    error,
                    "who --refresh requires an incarnation; socket waiters have no attribution"@,
                )
            } else {
                r == Ok::<WhoNeed, SliceError>(WhoNeed::Waiter(agent))
            },
        },
{
    if let Err(error) = check_refresh(identity, refresh) {
        return Err(error);
    }
    match identity {
        WhoIdentity::Incarnation(id) => if refresh {
            Ok(WhoNeed::Refresh(id))
        } else {
            Ok(WhoNeed::Evidence(id))
        },
        WhoIdentity::SocketWaiter(agent) => Ok(WhoNeed::Waiter(agent)),
    }
}

/// Whether a reply is one that an order can get.
pub open spec fn fits(order: Order, reply: Reply) -> bool {
    match order {
        Order::RegisterWaiter(_) => reply is Registered,
        Order::ArmRenew { .. } => reply is Armed,
        Order::CancelRenew(_) => reply is RenewCancelled,
        Order::ListPending(_) => reply is Pending,
        Order::FindName(_) => reply is Name,
        Order::FindAsk(_) => reply is Ask,
        Order::Snooze(_) => reply is Snoozed,
        Order::Disable(_) => reply is Disabled,
        Order::CreateNotice(_) => reply is NoticeCreated,
        Order::ListNotices => reply is Notices,
        Order::Retire(_) => reply is Retired,
        Order::IdentifyPane { .. } => reply is Identity,
        Order::IdentifyAlias(_) => reply is Identity,
        Order::Identify { .. } => reply is Evidence || reply is Waiter,
        Order::Attribute { .. } => reply is Evidence,
    }
}

/// What an order is answered as, given its reply.
pub open spec fn result_view(order: Order, reply: Reply) -> JsonView {
    match (order, reply) {
        (Order::RegisterWaiter(params), Reply::Registered(agent)) => waiter_registered_view(
            agent,
            params.public_name,
        ),
        (
            Order::ArmRenew { params, recipient, incarnation, scheduled_at_ms },
            Reply::Armed(renew_id),
        ) => renewed_view(
            renew_id,
            recipient,
            incarnation,
            scheduled_at_ms,
            params.on_timeout,
            params.every_ms,
        ),
        (Order::CancelRenew(params), Reply::RenewCancelled(notice_id)) => renew_cancelled_view(
            params.renew_id,
            notice_id,
        ),
        (_, Reply::Pending { owed, waiting, owing }) => pending_view(owed@, waiting@, owing@),
        (_, Reply::Name(info)) => name_info_view(info),
        (_, Reply::Ask(info)) => ask_info_view(info),
        (Order::Snooze(params), _) => snoozed_view(params.until_ms),
        (Order::Disable(_), _) => empty_object().with("state"@, text_view("disabled"@)),
        (_, Reply::NoticeCreated(id)) => notice_created_view(id),
        (_, Reply::Notices(notices)) => operator_notices_view(notices@),
        (_, Reply::Retired { operation_id, released }) => retire_result_view(operation_id, released),
        (_, Reply::Identity(identity)) => identity_result_view(identity),
        (Order::Attribute { .. }, Reply::Evidence { evidence, reason }) => attribution_response_view(
            evidence,
            optional_text(reason),
        ),
        (_, Reply::Evidence { evidence, reason }) => who_incarnation_view(
            evidence,
            optional_text(reason),
        ),
        (_, Reply::Waiter { agent, public_name, addressable }) => who_waiter_view(
            agent,
            public_name,
            addressable,
        ),
        _ => JsonView::Null,
    }
}

fn result(order: &Order, reply: &Reply) -> (result: Json)
    requires
        fits(*order, *reply),
    ensures
        result@ == result_view(*order, *reply),
{
    match (order, reply) {
        (Order::RegisterWaiter(params), Reply::Registered(agent)) => waiter_registered(
            *agent,
            &params.public_name,
        ),
        (
            Order::ArmRenew { params, recipient, incarnation, scheduled_at_ms },
            Reply::Armed(renew_id),
        ) => renewed(
            *renew_id,
            *recipient,
            *incarnation,
            *scheduled_at_ms,
            params.on_timeout,
            params.every_ms,
        ),
        (Order::CancelRenew(params), Reply::RenewCancelled(notice_id)) => renew_cancelled(
            params.renew_id,
            *notice_id,
        ),
        (_, Reply::Pending { owed, waiting, owing }) => pending(owed, waiting, owing),
        (_, Reply::Name(info)) => name_info(info),
        (_, Reply::Ask(info)) => ask_info(info),
        (Order::Snooze(params), _) => snoozed(params.until_ms),
        (Order::Disable(_), _) => disabled(),
        (_, Reply::NoticeCreated(id)) => notice_created(*id),
        (_, Reply::Notices(notices)) => operator_notices(notices),
        (_, Reply::Retired { operation_id, released }) => retire_result(*operation_id, *released),
        (_, Reply::Identity(identity)) => identity_result(identity),
        (Order::Attribute { .. }, Reply::Evidence { evidence, reason }) => attribution_response(
            evidence,
            reason,
        ),
        (_, Reply::Evidence { evidence, reason }) => who_incarnation(evidence, reason),
        (_, Reply::Waiter { agent, public_name, addressable }) => who_waiter(
            *agent,
            public_name,
            *addressable,
        ),
        _ => vstd::pervasive::unreached(),
    }
}

/// What an order is answered as.
pub open spec fn answered_view(order: Order, reply: Result<Reply, SliceError>) -> Result<
    JsonView,
    SliceError,
> {
    match reply {
        Ok(reply) => Ok(result_view(order, reply)),
        Err(error) => Err(error),
    }
}

/// Answer a request with what the coordinator gave for its order.
pub fn answer_direct(request_id: &str, order: &Order, reply: Result<Reply, SliceError>) -> (response:
    ClientResponse)
    requires
        reply matches Ok(reply) ==> fits(*order, reply),
    ensures
        response@ == answer_view(request_id@, answered_view(*order, reply)),
{
    match reply {
        Ok(reply) => respond(request_id, Ok(result(order, &reply))),
        Err(error) => respond(request_id, Err(error)),
    }
}

/// A renew that is armed is answered with the very incarnation it was asked for, never
/// with another that holds the same name.
pub proof fn law_renew_answers_for_whom_it_was_asked(
    direct: Direct,
    request_id: Seq<char>,
    order: Order,
    reply: Reply,
)
    requires
        direct is Renew,
        ordered(direct, request_id, order),
        fits(order, reply),
    ensures
        direct->Renew_0.recipient is Some,
        direct->Renew_0.recipient_incarnation is Some,
        result_view(order, reply) == renewed_view(
            reply->Armed_0,
            direct->Renew_0.recipient->0,
            direct->Renew_0.recipient_incarnation->0,
            order->scheduled_at_ms,
            direct->Renew_0.on_timeout,
            direct->Renew_0.every_ms,
        ),
{
}

} // verus!
