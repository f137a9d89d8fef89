//! The serving of a request: what the coordinator is asked for it, step by step, until it
//! is answered or waits.

use vstd::prelude::*;

use super::clear::{begin_clear, ClearDispatch, ClearState, ClearStep};
use super::errors::{answer_view, invalid, is_conflict, is_invalid, respond, SliceError, StoreError};
use super::message::{
    follows as message_follows, is_first, message_first, message_next, waits_for as message_waits,
    MessageEvent, MessageStep,
};
use super::params::{
    addressed_alias, adopt_key, alias_of, doubly_held, pending_alias_bind, recipient_adopt_key,
    recipient_form, recipient_refusal, rename_target, waiter_for_alias, waiter_target,
    waits_for_alias, Addressed, AgentForm, CancelParams, ClearParams, Held, RecipientForm,
    ReminderDisableParams, ReminderSnoozeParams, RenameParams, RenewCancelParams, RenewParams,
    ReportParams, RetireParams, WaiterRegisterParams, WaiterRetireParams, WhoParams, WhoamiParams,
};
use super::prompt::PromptParams;
use super::rename::RenamePreflight;
use super::retire::RetirePreflight;
use super::route::{
    answers_error, is_cancel, is_claim, is_message, is_rename, is_retire, is_start,
    is_waiter_retire, refuses, retire_route, serve_cancel, serve_clear, serve_inbox_claim,
    serve_message, serve_recover, serve_rename, serve_retire, serve_start, serve_waiter_retire,
    PendingCancel, PreparedWaiterRetire, RetireRoute, Served,
};
use super::reads::ReadKind;
use crate::domain::{AdoptIntent, IncarnationId, LogicalAgentId, MessageId, StartIntent};

verus! {

/// One request of a client, with its parameters.
#[derive(Debug, PartialEq, Eq)]
pub enum Call {
    /// A start or a handoff.
    Start(StartIntent),
    InboxClaim(LogicalAgentId),
    /// An ask, a tell or a reply.
    Message(PromptParams),
    Clear(ClearParams),
    Recover,
    Attribution(WhoParams),
    Who(WhoParams),
    Report(ReportParams),
    Whoami(WhoamiParams),
    Adopt(AdoptIntent),
    Rename(RenameParams),
    Retire(RetireParams),
    WaiterRegister(WaiterRegisterParams),
    WaiterRetire(WaiterRetireParams),
    Cancel(CancelParams),
    Renew(RenewParams),
    RenewCancel(RenewCancelParams),
    Pending(LogicalAgentId),
    NameInfo(String),
    AskInfo(MessageId),
    ReminderSnooze(ReminderSnoozeParams),
    ReminderDisable(ReminderDisableParams),
    NoticeCreate(String),
    NoticeList,
}

/// What the serving of a request does next.
#[derive(Debug, PartialEq, Eq)]
pub enum ServeStep {
    /// Have the coordinator check the start.
    Check,
    /// Have the store rule on the claim of the inbox.
    Claim(LogicalAgentId),
    /// Look whether somebody holds the alias already.
    FindHolders { alias: String },
    /// The request waits for a look at who holds the alias, under that key.
    Bind { alias: String, lazy_key: String },
    /// Go on with the recording of the message.
    Record(MessageStep),
    /// Resolve the alias of a clear, adopting its holder under that key.
    ResolveClear { alias: String, key: String },
    /// Read from when on the pane of a clear may be written to.
    ReadSpacing { recipient: LogicalAgentId, incarnation: IncarnationId },
    /// Find who is Ready under the alias of a rename.
    FindRenamed { alias: String },
    /// Prepare the rename of that agent.
    PrepareRename { agent: LogicalAgentId },
    /// Prepare the retirement that closes its pane.
    PrepareRetire,
    /// Look up who holds the alias of a socket waiter.
    FindWaiter { alias: String },
    /// Prepare the retirement of that socket waiter.
    PrepareWaiterRetire { waiter: LogicalAgentId },
    /// Record the cancellation.
    RecordCancel,
    /// The adoption waits for its snapshot.
    Adopt,
    /// A read, which may need a look at Herdr.
    Look,
    /// The coordinator answers at once.
    AtOnce,
    /// It is answered, or waits.
    Done(Served),
}

/// What the serving of a request is told.
#[derive(Debug, PartialEq, Eq)]
pub enum ServeEvent {
    /// The start was checked.
    Checked(Result<(), SliceError>),
    /// The store ruled on the claim.
    Claimed(Result<(), StoreError>),
    /// Whether a socket waiter holds the alias, and whether somebody is Ready under it.
    Holders { waiter: Held, ready: Held },
    /// What the recording of the message is told.
    Message(MessageEvent),
    /// Who holds the alias of a clear.
    Resolved(Result<(LogicalAgentId, IncarnationId), SliceError>),
    /// From when on the pane may be written to.
    Spacing(Result<i64, SliceError>),
    /// Who is Ready under the alias of a rename.
    Found(Result<(LogicalAgentId, IncarnationId), StoreError>),
    /// The rename is prepared.
    Renaming(Result<RenamePreflight, SliceError>),
    /// The retirement is prepared.
    Retiring(Result<RetirePreflight, SliceError>),
    /// Who holds the alias of a socket waiter: somebody Ready, and a socket waiter.
    WaiterHeld {
        ready: Result<Option<(LogicalAgentId, IncarnationId)>, StoreError>,
        waiter: Result<Option<LogicalAgentId>, StoreError>,
    },
    /// The retirement of the socket waiter is prepared.
    WaiterRetiring(Result<PreparedWaiterRetire, SliceError>),
    /// The cancellation is recorded.
    Cancelled(Result<PendingCancel, SliceError>),
}

/// Whether a request ends with that failure.
pub open spec fn fails(step: ServeStep, id: Seq<char>, error: SliceError) -> bool {
    step matches ServeStep::Done(served) && served.request_id() == id && answers_error(
        served,
        id,
        error,
    )
}

fn failed(request_id: &str, error: SliceError) -> (step: ServeStep)
    ensures
        fails(step, request_id@, error),
{
    ServeStep::Done(Served::Answered(respond(request_id, Err(error))))
}

/// Whether a request is refused with that text.
pub open spec fn is_refused(step: ServeStep, id: Seq<char>, text: Seq<char>) -> bool {
    step matches ServeStep::Done(Served::Answered(response)) && response.id@ == id && refuses(
        response,
        id,
        text,
    )
}

/// Whether a request ends with a conflict that says that.
pub open spec fn conflicts(step: ServeStep, id: Seq<char>, text: Seq<char>) -> bool {
    exists|error: SliceError| is_conflict(error, text) && #[trigger] fails(step, id, error)
}

/// The message as something addressed to an alias, where it can be.
pub open spec fn message_addressed<'a>(params: &'a PromptParams) -> Option<Addressed<'a>> {
    match params {
        PromptParams::Ask(params) => Some(Addressed::Ask(params)),
        PromptParams::Tell(params) => Some(Addressed::Tell(params)),
        PromptParams::Reply(_) => None,
    }
}

fn as_addressed<'a>(params: &'a PromptParams) -> (addressed: Option<Addressed<'a>>)
    ensures
        addressed == message_addressed(params),
{
    match params {
        PromptParams::Ask(params) => Some(Addressed::Ask(params)),
        PromptParams::Tell(params) => Some(Addressed::Tell(params)),
        PromptParams::Reply(_) => None,
    }
}

/// Whether a step follows a step of the recording of a message.
pub open spec fn settles(id: Seq<char>, recording: MessageStep, step: ServeStep) -> bool {
    match recording {
        MessageStep::End(outcome) => step matches ServeStep::Done(served) && is_message(
            served,
            id,
            outcome,
        ),
        _ => step == ServeStep::Record(recording),
    }
}

fn settle(request_id: &str, recording: MessageStep) -> (step: ServeStep)
    ensures
        settles(request_id@, recording, step),
{
    match recording {
        MessageStep::End(outcome) => ServeStep::Done(serve_message(request_id, outcome)),
        recording => ServeStep::Record(recording),
    }
}

/// Whether a step begins the recording of a message.
pub open spec fn records(params: PromptParams, id: Seq<char>, step: ServeStep) -> bool {
    exists|first: MessageStep| #[trigger] is_first(params, first) && settles(id, first, step)
}

fn recording(params: &PromptParams, request_id: &str) -> (step: ServeStep)
    ensures
        records(*params, request_id@, step),
{
    let first = message_first(params);
    let ghost begun = first;
    let step = settle(request_id, first);
    assert(is_first(*params, begun) && settles(request_id@, begun, step));
    step
}

/// Whether a step begins a clear, whose recipient is exact or an alias.
pub open spec fn clears(params: ClearParams, id: Seq<char>, step: ServeStep) -> bool {
    match (params.recipient, params.recipient_incarnation, params.recipient_alias) {
        (Some(recipient), Some(incarnation), None) => step == (ServeStep::ReadSpacing {
            recipient,
            incarnation,
        }),
        (None, None, Some(alias)) => step matches ServeStep::ResolveClear { alias: name, key }
            && name@ == alias@ && key@ == recipient_adopt_key(params.idempotency_key@),
        _ => is_refused(step, id, recipient_refusal()),
    }
}

fn refused(request_id: &str, error: SliceError, Ghost(text): Ghost<Seq<char>>) -> (step: ServeStep)
    requires
        is_invalid(error, text),
    ensures
        is_refused(step, request_id@, text),
{
    let ghost told = error;
    let response = respond(request_id, Err(error));
    assert(response@ == answer_view(request_id@, Err(told)));
    ServeStep::Done(Served::Answered(response))
}

fn clearing(params: &ClearParams, request_id: &str) -> (step: ServeStep)
    ensures
        clears(*params, request_id@, step),
{
    match recipient_form(
        params.recipient,
        params.recipient_incarnation,
        &params.recipient_alias,
    ) {
        Ok(RecipientForm::Exact(recipient, incarnation)) => ServeStep::ReadSpacing {
            recipient,
            incarnation,
        },
        Ok(RecipientForm::Alias(alias)) => ServeStep::ResolveClear {
            alias: alias.clone(),
            key: adopt_key(params.idempotency_key.as_str()),
        },
        Err(error) => refused(request_id, error, Ghost(recipient_refusal())),
    }
}

/// Whether a step is the first one of a request. What is addressed to an alias first
/// looks whether somebody holds it already.
pub open spec fn begins(call: Call, id: Seq<char>, step: ServeStep) -> bool {
    match call {
        Call::Start(_) => step == ServeStep::Check,
        Call::InboxClaim(waiter) => step == ServeStep::Claim(waiter),
        Call::Message(params) => match message_addressed(&params) {
            Some(addressed) => match alias_of(addressed) {
                Some((alias, _)) => step matches ServeStep::FindHolders { alias: name } && name@
                    == alias@,
                None => records(params, id, step),
            },
            None => records(params, id, step),
        },
        Call::Clear(params) => match alias_of(Addressed::Clear(&params)) {
            Some((alias, _)) => step matches ServeStep::FindHolders { alias: name } && name@
                == alias@,
            None => clears(params, id, step),
        },
        Call::Recover => step matches ServeStep::Done(Served::Read(parked)) && parked.request_id@
            == id && parked.work == ReadKind::Recover,
        Call::Attribution(_) => step == ServeStep::Look,
        Call::Who(_) => step == ServeStep::Look,
        Call::Report(_) => step == ServeStep::Look,
        Call::Whoami(_) => step == ServeStep::Look,
        Call::Adopt(_) => step == ServeStep::Adopt,
        Call::Rename(params) => match (params.agent_id, params.alias) {
            (Some(agent), None) => step == (ServeStep::PrepareRename { agent }),
            (None, Some(alias)) => step matches ServeStep::FindRenamed { alias: name } && name@
                == alias@,
            _ => is_refused(step, id, "provide exactly one of agent_id or alias"@),
        },
        Call::Retire(params) => step == if params.close_pane {
            ServeStep::PrepareRetire
        } else {
            ServeStep::AtOnce
        },
        Call::WaiterRetire(params) => match (params.logical_agent_id, params.alias) {
            (Some(waiter), None) => step == (ServeStep::PrepareWaiterRetire { waiter }),
            (None, Some(alias)) => step matches ServeStep::FindWaiter { alias: name } && name@
                == alias@,
            _ => is_refused(step, id, "provide exactly one of logical_agent_id or alias"@),
        },
        Call::Cancel(_) => step == ServeStep::RecordCancel,
        _ => step == ServeStep::AtOnce,
    }
}

/// How the serving of a request begins.
pub fn serve_first(request_id: &str, call: &Call) -> (step: ServeStep)
    ensures
        begins(*call, request_id@, step),
{
    match call {
        Call::Start(_) => ServeStep::Check,
        Call::InboxClaim(waiter) => ServeStep::Claim(*waiter),
        Call::Message(params) => match as_addressed(params) {
            Some(addressed) => match addressed_alias(&addressed) {
                Some((alias, _)) => ServeStep::FindHolders { alias: alias.clone() },
                None => recording(params, request_id),
            },
            None => recording(params, request_id),
        },
        Call::Clear(params) => match addressed_alias(&Addressed::Clear(params)) {
            Some((alias, _)) => ServeStep::FindHolders { alias: alias.clone() },
            None => clearing(params, request_id),
        },
        Call::Recover => ServeStep::Done(serve_recover(request_id)),
        Call::Attribution(_) | Call::Who(_) | Call::Report(_) | Call::Whoami(_) => ServeStep::Look,
        Call::Adopt(_) => ServeStep::Adopt,
        Call::Rename(params) => match rename_target(params) {
            Ok(AgentForm::Id(agent)) => ServeStep::PrepareRename { agent },
            Ok(AgentForm::Alias(alias)) => ServeStep::FindRenamed { alias: alias.clone() },
            Err(error) => refused(
                request_id,
                error,
                Ghost("provide exactly one of agent_id or alias"@),
            ),
        },
        Call::Retire(params) => match retire_route(params) {
            RetireRoute::Close => ServeStep::PrepareRetire,
            RetireRoute::AtOnce => ServeStep::AtOnce,
        },
        Call::WaiterRetire(params) => match waiter_target(params) {
            Ok(AgentForm::Id(waiter)) => ServeStep::PrepareWaiterRetire { waiter },
            Ok(AgentForm::Alias(alias)) => ServeStep::FindWaiter { alias: alias.clone() },
            Err(error) => refused(
                request_id,
                error,
                Ghost("provide exactly one of logical_agent_id or alias"@),
            ),
        },
        Call::Cancel(_) => ServeStep::RecordCancel,
        _ => ServeStep::AtOnce,
    }
}

/// How the serving of a request goes on once its alias is bound.
pub fn serve_bound(request_id: &str, call: &Call) -> (step: ServeStep)
    ensures
        match *call {
            Call::Message(params) => records(params, request_id@, step),
            Call::Clear(params) => clears(params, request_id@, step),
            _ => is_refused(step, request_id@, "cannot resume this method after alias bind"@),
        },
{
    match call {
        Call::Message(params) => recording(params, request_id),
        Call::Clear(params) => clearing(params, request_id),
        _ => refused(
            request_id,
            invalid("cannot resume this method after alias bind"),
            Ghost("cannot resume this method after alias bind"@),
        ),
    }
}

/// Whether a request waits for a look at who holds its alias.
pub open spec fn binds(addressed: Addressed, step: ServeStep) -> bool {
    step matches ServeStep::Bind { alias, lazy_key } && (alias_of(addressed) matches Some(
        (name, own_key),
    ) && alias@ == name@ && lazy_key@ == recipient_adopt_key(own_key@))
}

/// Whether a step follows another one and an event.
pub open spec fn follows(
    call: Call,
    id: Seq<char>,
    now: u64,
    step: ServeStep,
    event: ServeEvent,
    after: ServeStep,
) -> bool {
    match (call, step, event) {
        (Call::Start(intent), ServeStep::Check, ServeEvent::Checked(checked)) => {
            after matches ServeStep::Done(served) && is_start(
                served,
                id,
                checked,
                now,
                intent.readiness_timeout_ms,
            )
        },
        (_, ServeStep::Claim(waiter), ServeEvent::Claimed(claimed)) => {
            after matches ServeStep::Done(served) && is_claim(served, id, waiter, claimed)
        },
        (
            Call::Message(params),
            ServeStep::FindHolders { .. },
            ServeEvent::Holders { waiter, ready },
        ) => match message_addressed(&params) {
            Some(addressed) => if waits_for_alias(addressed, waiter, ready) {
                binds(addressed, after)
            } else {
                records(params, id, after)
            },
            None => records(params, id, after),
        },
        (
            Call::Clear(params),
            ServeStep::FindHolders { .. },
            ServeEvent::Holders { waiter, ready },
        ) => if waits_for_alias(Addressed::Clear(&params), waiter, ready) {
            binds(Addressed::Clear(&params), after)
        } else {
            clears(params, id, after)
        },
        (Call::Message(params), ServeStep::Record(recording), ServeEvent::Message(event)) => {
            exists|next: MessageStep| #[trigger]
                message_follows(params, recording, event, next) && settles(id, next, after)
        },
        (_, ServeStep::ResolveClear { .. }, ServeEvent::Resolved(resolved)) => match resolved {
            Ok((recipient, incarnation)) => after == (ServeStep::ReadSpacing {
                recipient,
                incarnation,
            }),
            Err(error) => fails(after, id, error),
        },
        (
            Call::Clear(params),
            ServeStep::ReadSpacing { recipient, incarnation },
            ServeEvent::Spacing(spacing),
        ) => match spacing {
            Ok(not_before) => after matches ServeStep::Done(Served::Clear(parked))
                && parked.request_id@ == id && (parked.work matches ClearStep::Rest {
                state: ClearState::Settling { clear, not_before_ms },
            } && clear.recipient == recipient && clear.recipient_incarnation == incarnation
                && clear.idempotency_key@ == params.idempotency_key@ && not_before_ms
                == not_before),
            Err(error) => fails(after, id, error),
        },
        (_, ServeStep::FindRenamed { .. }, ServeEvent::Found(found)) => match found {
            Ok((agent, _)) => after == (ServeStep::PrepareRename { agent }),
            Err(error) => fails(after, id, SliceError::Store(error)),
        },
        (_, ServeStep::PrepareRename { .. }, ServeEvent::Renaming(prepared)) => {
            after matches ServeStep::Done(served) && is_rename(served, id, prepared)
        },
        (_, ServeStep::PrepareRetire, ServeEvent::Retiring(prepared)) => {
            after matches ServeStep::Done(served) && is_retire(served, id, prepared)
        },
        (_, ServeStep::FindWaiter { alias }, ServeEvent::WaiterHeld { ready, waiter }) => match (
            ready,
            waiter,
        ) {
            (Err(error), _) => fails(after, id, SliceError::Store(error)),
            (Ok(_), Err(error)) => fails(after, id, SliceError::Store(error)),
            (Ok(None), Ok(Some(waiter))) => after == (ServeStep::PrepareWaiterRetire { waiter }),
            (Ok(Some(_)), Ok(Some(_))) => conflicts(after, id, doubly_held(alias@)),
            (Ok(_), Ok(None)) => conflicts(
                after,
                id,
                "no unique active socket waiter for alias "@ + alias@,
            ),
        },
        (
            _,
            ServeStep::PrepareWaiterRetire { waiter },
            ServeEvent::WaiterRetiring(prepared),
        ) => after matches ServeStep::Done(served) && is_waiter_retire(
            served,
            id,
            waiter,
            prepared,
        ),
        (_, ServeStep::RecordCancel, ServeEvent::Cancelled(prepared)) => {
            after matches ServeStep::Done(served) && is_cancel(served, id, prepared)
        },
        _ => false,
    }
}

/// Whether the serving of a request waits for an event.
pub open spec fn waits_for(call: Call, step: ServeStep, event: ServeEvent) -> bool {
    match event {
        ServeEvent::Checked(_) => call is Start && step is Check,
        ServeEvent::Claimed(_) => step is Claim,
        ServeEvent::Holders { .. } => (call is Message || call is Clear) && step is FindHolders,
        ServeEvent::Message(event) => match (call, step) {
            (Call::Message(params), ServeStep::Record(recording)) => message_waits(
                params,
                recording,
                event,
            ),
            _ => false,
        },
        ServeEvent::Resolved(_) => step is ResolveClear,
        ServeEvent::Spacing(_) => call is Clear && step is ReadSpacing,
        ServeEvent::Found(_) => step is FindRenamed,
        ServeEvent::Renaming(_) => step is PrepareRename,
        ServeEvent::Retiring(_) => step is PrepareRetire,
        ServeEvent::WaiterHeld { .. } => step is FindWaiter,
        ServeEvent::WaiterRetiring(_) => step is PrepareWaiterRetire,
        ServeEvent::Cancelled(_) => step is RecordCancel,
    }
}

fn find_waiter(
    request_id: &str,
    alias: &str,
    ready: Option<(LogicalAgentId, IncarnationId)>,
    waiter: Option<LogicalAgentId>,
) -> (after: ServeStep)
    ensures
        match (ready, waiter) {
            (None, Some(waiter)) => after == (ServeStep::PrepareWaiterRetire { waiter }),
            (Some(_), Some(_)) => conflicts(after, request_id@, doubly_held(alias@)),
            (_, None) => conflicts(
                after,
                request_id@,
                "no unique active socket waiter for alias "@ + alias@,
            ),
        },
{
    match waiter_for_alias(alias, ready, waiter) {
        Ok(waiter) => ServeStep::PrepareWaiterRetire { waiter },
        Err(error) => {
            let ghost told = error;
            let step = failed(request_id, error);
            assert(fails(step, request_id@, told));
            step
        },
    }
}

/// What the serving of a request does once something was told. An event that it does not
/// wait for is given back as a failure, with the step unchanged. `now` is the daemon's own
/// clock.
pub fn serve_next(request_id: &str, call: &Call, now: u64, step: ServeStep, event: ServeEvent) -> (r:
    Result<ServeStep, ServeStep>)
    ensures
        match r {
            Ok(after) => waits_for(*call, step, event) && follows(
                *call,
                request_id@,
                now,
                step,
                event,
                after,
            ),
            Err(same) => !waits_for(*call, step, event) && same == step,
        },
{
    match (call, step, event) {
        (Call::Start(intent), ServeStep::Check, ServeEvent::Checked(checked)) => Ok(
            ServeStep::Done(serve_start(request_id, checked, now, intent.readiness_timeout_ms)),
        ),
        (_, ServeStep::Claim(waiter), ServeEvent::Claimed(claimed)) => Ok(
            ServeStep::Done(serve_inbox_claim(request_id, waiter, claimed)),
        ),
        (
            Call::Message(params),
            ServeStep::FindHolders { .. },
            ServeEvent::Holders { waiter, ready },
        ) => Ok(
            match as_addressed(params) {
                Some(addressed) => match pending_alias_bind(&addressed, waiter, ready) {
                    Some((alias, lazy_key)) => ServeStep::Bind { alias, lazy_key },
                    None => recording(params, request_id),
                },
                None => recording(params, request_id),
            },
        ),
        (
            Call::Clear(params),
            ServeStep::FindHolders { .. },
            ServeEvent::Holders { waiter, ready },
        ) => Ok(
            match pending_alias_bind(&Addressed::Clear(params), waiter, ready) {
                Some((alias, lazy_key)) => ServeStep::Bind { alias, lazy_key },
                None => clearing(params, request_id),
            },
        ),
        (Call::Message(params), ServeStep::Record(recording), ServeEvent::Message(event)) => {
            let ghost was = recording;
            let ghost told = event;
            match message_next(params, recording, event) {
                Ok(next) => {
                    let ghost reached = next;
                    let after = settle(request_id, next);
                    assert(message_follows(*params, was, told, reached) && settles(
                        request_id@,
                        reached,
                        after,
                    ));
                    Ok(after)
                },
                Err(same) => Err(ServeStep::Record(same)),
            }
        },
        (_, ServeStep::ResolveClear { .. }, ServeEvent::Resolved(resolved)) => Ok(
            match resolved {
                Ok((recipient, incarnation)) => ServeStep::ReadSpacing { recipient, incarnation },
                Err(error) => failed(request_id, error),
            },
        ),
        (
            Call::Clear(params),
            ServeStep::ReadSpacing { recipient, incarnation },
            ServeEvent::Spacing(spacing),
        ) => Ok(
            match spacing {
                Ok(not_before_ms) => ServeStep::Done(
                    serve_clear(
                        request_id,
                        Ok(
                            ClearDispatch::Awaiting(
                                begin_clear(
                                    recipient,
                                    incarnation,
                                    params.idempotency_key.clone(),
                                    not_before_ms,
                                ),
                            ),
                        ),
                    ),
                ),
                Err(error) => failed(request_id, error),
            },
        ),
        (_, ServeStep::FindRenamed { .. }, ServeEvent::Found(found)) => Ok(
            match found {
                Ok((agent, _)) => ServeStep::PrepareRename { agent },
                Err(error) => failed(request_id, SliceError::Store(error)),
            },
        ),
        (_, ServeStep::PrepareRename { .. }, ServeEvent::Renaming(prepared)) => Ok(
            ServeStep::Done(serve_rename(request_id, prepared)),
        ),
        (_, ServeStep::PrepareRetire, ServeEvent::Retiring(prepared)) => Ok(
            ServeStep::Done(serve_retire(request_id, prepared)),
        ),
        (_, ServeStep::FindWaiter { alias }, ServeEvent::WaiterHeld { ready, waiter }) => Ok(
            match (ready, waiter) {
                (Err(error), _) => failed(request_id, SliceError::Store(error)),
                (Ok(_), Err(error)) => failed(request_id, SliceError::Store(error)),
                (Ok(ready), Ok(waiter)) => find_waiter(request_id, alias.as_str(), ready, waiter),
            },
        ),
        (
            _,
            ServeStep::PrepareWaiterRetire { waiter },
            ServeEvent::WaiterRetiring(prepared),
        ) => Ok(ServeStep::Done(serve_waiter_retire(request_id, waiter, prepared))),
        (_, ServeStep::RecordCancel, ServeEvent::Cancelled(prepared)) => Ok(
            ServeStep::Done(serve_cancel(request_id, prepared)),
        ),
        (_, step, _) => Err(step),
    }
}

/// Whatever the coordinator said, a client is answered under the identifier of its own
/// request, now or once what waits is done.
pub proof fn law_request_keeps_its_identifier(
    call: Call,
    id: Seq<char>,
    now: u64,
    step: ServeStep,
    event: ServeEvent,
    first: ServeStep,
    after: ServeStep,
)
    requires
        begins(call, id, first),
        follows(call, id, now, step, event, after),
    ensures
        first matches ServeStep::Done(served) ==> served.request_id() == id,
        after matches ServeStep::Done(served) ==> served.request_id() == id,
{
}

/// A message or a clear waits for a look only where it is addressed to an alias under which
/// nobody is Ready.
pub proof fn law_only_an_unheld_alias_waits(
    call: Call,
    id: Seq<char>,
    now: u64,
    step: ServeStep,
    event: ServeEvent,
    after: ServeStep,
)
    requires
        follows(call, id, now, step, event, after),
        after is Bind,
    ensures
        call is Message || call is Clear,
        event matches ServeEvent::Holders { ready, .. } && ready == Held::No,
{
}

} // verus!
