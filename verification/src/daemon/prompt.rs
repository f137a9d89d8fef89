//! A prompt to a pane: what is asked before it is recorded, how it goes out, how it
//! is settled, and who is told.

use vstd::prelude::*;

use super::errors::{answer_view, is_invalid, ClientResponse, SliceError};
use super::params::{
    adopt_key, check_ask, postponed_ask_refusal, recipient_adopt_key, recipient_form,
    recipient_refusal, reminder_of, AskParams, RecipientForm, ReplyParams, TellParams,
};
use super::parked::{Next, Parked};
use super::results::{
    cancel_result, cancel_result_view, id_json, id_view, optional_id, optional_id_view,
    waiter_retire_result, waiter_retire_result_view, CancelOutcome, WaiterRetireOutcome,
    WaiterRetireOwingNotice,
};
use super::send::{prompt_sent, send_prompt, sends};
use crate::domain::{
    DeliveryOutcome, IncarnationId, LogicalAgentId, MessageId, ObligationState, OperationId,
    ReplyDisposition,
};
use crate::herdr::{AgentObservation, HerdrError};
use crate::herdr_exec::{HerdrJobResult, LeaseCmd};
use crate::json::{empty_object, int_view, text_view, Json, JsonView};

verus! {

/// A request of a client that becomes a prompt.
#[derive(Debug, PartialEq, Eq)]
pub enum PromptParams {
    Ask(AskParams),
    Tell(TellParams),
    Reply(ReplyParams),
}

/// What has to be done before a prompt can be prepared.
#[derive(Debug, PartialEq, Eq)]
pub enum PromptNeed<'a> {
    /// Record the ask for that recipient, with reminders after that interval.
    RecordAsk {
        recipient: LogicalAgentId,
        incarnation: IncarnationId,
        interval: Option<i64>,
    },
    /// Resolve the alias, adopting its holder under that key, then record the ask.
    ResolveAsk { alias: &'a String, key: String, interval: Option<i64> },
    /// Record the tell for that recipient.
    RecordTell { recipient: LogicalAgentId, incarnation: IncarnationId },
    /// Look up who holds the alias, adopting its holder under that key.
    LookUpTell { alias: &'a String, key: String },
    /// Record the reply.
    RecordReply,
}

/// Why a prompt is refused before anybody is looked up for it.
pub open spec fn prompt_refusal(params: PromptParams) -> Option<Seq<char>> {
    match params {
        PromptParams::Ask(params) => if params.due_at_ms is Some {
            Some(postponed_ask_refusal())
        } else {
            match reminder_of(params) {
                Err(text) => Some(text),
                Ok(_) => if names_recipient(
                    params.recipient,
                    params.recipient_incarnation,
                    params.recipient_alias,
                ) {
                    None
                } else {
                    Some(recipient_refusal())
                },
            }
        },
        PromptParams::Tell(params) => if names_recipient(
            params.recipient,
            params.recipient_incarnation,
            params.recipient_alias,
        ) {
            None
        } else {
            Some(recipient_refusal())
        },
        PromptParams::Reply(_) => None,
    }
}

/// Whether a recipient is named in exactly one of the two ways.
pub open spec fn names_recipient(
    recipient: Option<LogicalAgentId>,
    incarnation: Option<IncarnationId>,
    alias: Option<String>,
) -> bool {
    (recipient is Some && incarnation is Some && alias is None) || (recipient is None
        && incarnation is None && alias is Some)
}

/// Whether something has to be done for a prompt.
pub open spec fn is_need(need: PromptNeed, params: PromptParams) -> bool {
    match (params, need) {
        (PromptParams::Ask(params), PromptNeed::RecordAsk { recipient, incarnation, interval }) => {
            params.recipient == Some(recipient) && params.recipient_incarnation == Some(incarnation)
                && params.recipient_alias is None && reminder_of(params) == Ok::<
                Option<i64>,
                Seq<char>,
            >(interval)
        },
        (PromptParams::Ask(params), PromptNeed::ResolveAsk { alias, key, interval }) => {
            params.recipient is None && params.recipient_incarnation is None
                && params.recipient_alias == Some(*alias) && key@ == recipient_adopt_key(
                params.idempotency_key@,
            ) && reminder_of(params) == Ok::<Option<i64>, Seq<char>>(interval)
        },
        (PromptParams::Tell(params), PromptNeed::RecordTell { recipient, incarnation }) => {
            params.recipient == Some(recipient) && params.recipient_incarnation == Some(incarnation)
                && params.recipient_alias is None
        },
        (PromptParams::Tell(params), PromptNeed::LookUpTell { alias, key }) => {
            params.recipient is None && params.recipient_incarnation is None
                && params.recipient_alias == Some(*alias) && key@ == recipient_adopt_key(
                params.idempotency_key@,
            )
        },
        (PromptParams::Reply(_), PromptNeed::RecordReply) => true,
        _ => false,
    }
}

/// Decide what has to be done before a client's prompt can be prepared, or refuse
/// it.
pub fn prepare_client_prompt(params: &PromptParams) -> (r: Result<PromptNeed<'_>, SliceError>)
    ensures
        match (r, prompt_refusal(*params)) {
            (Ok(need), None) => is_need(need, *params),
            (Err(error), Some(text)) => is_invalid(error, text),
            _ => false,
        },
{
    match params {
        PromptParams::Ask(params) => {
            let interval = match check_ask(params) {
                Ok(interval) => interval,
                Err(error) => {
                    return Err(error);
                },
            };
            match recipient_form(
                params.recipient,
                params.recipient_incarnation,
                &params.recipient_alias,
            ) {
                Ok(RecipientForm::Exact(recipient, incarnation)) => Ok(
                    PromptNeed::RecordAsk { recipient, incarnation, interval },
                ),
                Ok(RecipientForm::Alias(alias)) => Ok(
                    PromptNeed::ResolveAsk {
                        alias,
                        key: adopt_key(params.idempotency_key.as_str()),
                        interval,
                    },
                ),
                Err(error) => Err(error),
            }
        },
        PromptParams::Tell(params) => match recipient_form(
            params.recipient,
            params.recipient_incarnation,
            &params.recipient_alias,
        ) {
            Ok(RecipientForm::Exact(recipient, incarnation)) => Ok(
                PromptNeed::RecordTell { recipient, incarnation },
            ),
            Ok(RecipientForm::Alias(alias)) => Ok(
                PromptNeed::LookUpTell { alias, key: adopt_key(params.idempotency_key.as_str()) },
            ),
            Err(error) => Err(error),
        },
        PromptParams::Reply(_) => Ok(PromptNeed::RecordReply),
    }
}

/// What recording a message gave.
#[derive(Debug, Clone, Copy, PartialEq, Eq, Structural)]
pub struct CreatedMessage {
    pub message_id: MessageId,
    pub operation_id: OperationId,
}

/// What is told of an ask: how often its recipient is reminded, and how its
/// delivery went where that is known already.
pub open spec fn ask_view(
    created: CreatedMessage,
    recipient: LogicalAgentId,
    incarnation: IncarnationId,
    waiting: LogicalAgentId,
    interval: Option<i64>,
    outcome: Option<DeliveryOutcome>,
) -> JsonView {
    let base = empty_object()
        .with("message_id"@, id_view(created.message_id.value))
        .with("operation_id"@, id_view(created.operation_id.value))
        .with("recipient"@, id_view(recipient.value))
        .with("recipient_incarnation"@, id_view(incarnation.value))
        .with("waiting_agent_id"@, id_view(waiting.value));
    let reminded = match interval {
        Some(interval) => base.with("remind_after_ms"@, int_view(interval as int)),
        None => base.with("reminders"@, text_view("disabled"@)),
    };
    match outcome {
        Some(outcome) => reminded.with("delivery_outcome"@, text_view(outcome.name())),
        None => reminded,
    }
}

/// What is told of an ask.
pub fn ask_result(
    created: CreatedMessage,
    recipient: LogicalAgentId,
    incarnation: IncarnationId,
    waiting: LogicalAgentId,
    interval: Option<i64>,
    outcome: Option<DeliveryOutcome>,
) -> (result: Json)
    ensures
        result@ == ask_view(created, recipient, incarnation, waiting, interval, outcome),
{
    let mut result = Json::object()
        .with("message_id", id_json(created.message_id.value))
        .with("operation_id", id_json(created.operation_id.value))
        .with("recipient", id_json(recipient.value))
        .with("recipient_incarnation", id_json(incarnation.value))
        .with("waiting_agent_id", id_json(waiting.value));
    match interval {
        Some(interval) => {
            result.put("remind_after_ms", Json::integer(interval));
        },
        None => {
            result.put("reminders", Json::text("disabled"));
        },
    }
    if let Some(outcome) = outcome {
        result.put("delivery_outcome", Json::text(outcome.label()));
    }
    result
}

/// What is told of a tell to a pane.
pub open spec fn tell_view(
    created: CreatedMessage,
    recipient: LogicalAgentId,
    incarnation: IncarnationId,
    due_at_ms: Option<i64>,
    outcome: Option<DeliveryOutcome>,
) -> JsonView {
    let base = empty_object()
        .with("message_id"@, id_view(created.message_id.value))
        .with("operation_id"@, id_view(created.operation_id.value))
        .with("recipient"@, id_view(recipient.value))
        .with("recipient_incarnation"@, id_view(incarnation.value))
        .with("delivery_transport"@, text_view("herdr_prompt"@));
    let delivered = match outcome {
        Some(outcome) => base.with("delivery_outcome"@, text_view(outcome.name())),
        None => base,
    };
    match due_at_ms {
        Some(due_at_ms) => delivered.with("due_at_ms"@, int_view(due_at_ms as int)),
        None => delivered,
    }
}

/// What is told of a tell to a pane.
pub fn tell_result(
    created: CreatedMessage,
    recipient: LogicalAgentId,
    incarnation: IncarnationId,
    due_at_ms: Option<i64>,
    outcome: Option<DeliveryOutcome>,
) -> (result: Json)
    ensures
        result@ == tell_view(created, recipient, incarnation, due_at_ms, outcome),
{
    let mut result = Json::object()
        .with("message_id", id_json(created.message_id.value))
        .with("operation_id", id_json(created.operation_id.value))
        .with("recipient", id_json(recipient.value))
        .with("recipient_incarnation", id_json(incarnation.value))
        .with("delivery_transport", Json::text("herdr_prompt"));
    if let Some(outcome) = outcome {
        result.put("delivery_outcome", Json::text(outcome.label()));
    }
    if let Some(due_at_ms) = due_at_ms {
        result.put("due_at_ms", Json::integer(due_at_ms));
    }
    result
}

/// What is told of a tell to a socket: it has no operation and no incarnation.
pub open spec fn socket_tell_view(
    message_id: MessageId,
    recipient: LogicalAgentId,
    due_at_ms: Option<i64>,
    outcome: DeliveryOutcome,
) -> JsonView {
    let base = empty_object()
        .with("message_id"@, id_view(message_id.value))
        .with("operation_id"@, JsonView::Null)
        .with("recipient"@, id_view(recipient.value))
        .with("recipient_incarnation"@, JsonView::Null)
        .with("delivery_transport"@, text_view("socket_inbox"@))
        .with("delivery_outcome"@, text_view(outcome.name()));
    match due_at_ms {
        Some(due_at_ms) => base.with("due_at_ms"@, int_view(due_at_ms as int)),
        None => base,
    }
}

/// What is told of a tell to a socket.
pub fn socket_tell_result(
    message_id: MessageId,
    recipient: LogicalAgentId,
    due_at_ms: Option<i64>,
    outcome: DeliveryOutcome,
) -> (result: Json)
    ensures
        result@ == socket_tell_view(message_id, recipient, due_at_ms, outcome),
{
    let mut result = Json::object()
        .with("message_id", id_json(message_id.value))
        .with("operation_id", Json::Null)
        .with("recipient", id_json(recipient.value))
        .with("recipient_incarnation", Json::Null)
        .with("delivery_transport", Json::text("socket_inbox"))
        .with("delivery_outcome", Json::text(outcome.label()));
    if let Some(due_at_ms) = due_at_ms {
        result.put("due_at_ms", Json::integer(due_at_ms));
    }
    result
}

/// What recording a reply gave. A reply to a socket has no operation and no
/// incarnation.
#[derive(Debug, Clone, Copy, PartialEq, Eq, Structural)]
pub struct CreatedReply {
    pub message_id: MessageId,
    pub operation_id: Option<OperationId>,
    pub recipient_incarnation: Option<IncarnationId>,
    pub disposition: ReplyDisposition,
}

/// What is told of a reply: how its delivery went and what became of the
/// obligation, where that is known already.
pub open spec fn reply_view(
    created: CreatedReply,
    settled: Option<(DeliveryOutcome, ObligationState)>,
) -> JsonView {
    let base = empty_object()
        .with("message_id"@, id_view(created.message_id.value))
        .with("operation_id"@, optional_id_view(match created.operation_id {
            Some(id) => Some(id.value),
            None => None,
        }))
        .with("recipient_incarnation"@, optional_id_view(match created.recipient_incarnation {
            Some(id) => Some(id.value),
            None => None,
        }))
        .with("disposition"@, text_view(created.disposition.name()));
    match settled {
        Some((outcome, state)) => base
            .with("delivery_outcome"@, text_view(outcome.name()))
            .with("obligation_state"@, text_view(state.name())),
        None => base,
    }
}

/// What is told of a reply.
pub fn reply_result(
    created: CreatedReply,
    settled: Option<(DeliveryOutcome, ObligationState)>,
) -> (result: Json)
    ensures
        result@ == reply_view(created, settled),
{
    let operation = match created.operation_id {
        Some(id) => Some(id.value),
        None => None,
    };
    let incarnation = match created.recipient_incarnation {
        Some(id) => Some(id.value),
        None => None,
    };
    let mut result = Json::object()
        .with("message_id", id_json(created.message_id.value))
        .with("operation_id", optional_id(operation))
        .with("recipient_incarnation", optional_id(incarnation))
        .with("disposition", Json::text(created.disposition.label()));
    if let Some((outcome, state)) = settled {
        result.put("delivery_outcome", Json::text(outcome.label()));
        result.put("obligation_state", Json::text(state.label()));
    }
    result
}

/// What a result becomes once its delivery is over: the outcome, and for a reply
/// the obligation's state, as far as they can be read. A failed delivery adds
/// nothing.
pub open spec fn filled_view(
    result: JsonView,
    delivered: bool,
    outcome: Option<DeliveryOutcome>,
    obligation: Option<ObligationState>,
) -> JsonView {
    if !delivered {
        result
    } else {
        let told = match outcome {
            Some(outcome) => result.with("delivery_outcome"@, text_view(outcome.name())),
            None => result,
        };
        match obligation {
            Some(state) => told.with("obligation_state"@, text_view(state.name())),
            None => told,
        }
    }
}

/// Fill in what is known once a delivery is over.
pub fn fill_prompt_result(
    result: Json,
    delivered: bool,
    outcome: Option<DeliveryOutcome>,
    obligation: Option<ObligationState>,
) -> (filled: Json)
    ensures
        filled@ == filled_view(result@, delivered, outcome, obligation),
{
    let mut filled = result;
    if delivered {
        if let Some(outcome) = outcome {
            filled.put("delivery_outcome", Json::text(outcome.label()));
        }
        if let Some(state) = obligation {
            filled.put("obligation_state", Json::text(state.label()));
        }
    }
    filled
}

/// A prompt that is ready to go out.
#[derive(Debug, PartialEq, Eq)]
pub struct PreparedPrompt {
    pub operation_id: OperationId,
    pub recipient_incarnation: IncarnationId,
    pub pane_id: String,
    pub envelope: String,
    pub request_id: String,
    pub queued: bool,
    pub pause_before_write: &'static str,
    pub after_write_pause: &'static str,
    pub pause_before_commit: &'static str,
}

/// A message that waits for its write: what its client is told once it went out.
#[derive(Debug, PartialEq, Eq)]
pub struct PromptWork {
    pub result: Json,
    pub prepared: PreparedPrompt,
    pub reply_to: Option<MessageId>,
}

/// The view of how a message ended.
pub open spec fn delivered_view(
    result: JsonView,
    delivery: Result<(), SliceError>,
    outcome: Option<DeliveryOutcome>,
    obligation: Option<ObligationState>,
) -> Result<JsonView, SliceError> {
    match delivery {
        Ok(()) => Ok(filled_view(result, true, outcome, obligation)),
        Err(error) => Err(error),
    }
}

/// The response to a message, once its delivery is over: what was parked of it is the
/// result that its client is told.
pub fn answer_prompt(
    parked: Parked<Json>,
    delivery: Result<(), SliceError>,
    outcome: Option<DeliveryOutcome>,
    obligation: Option<ObligationState>,
) -> (response: ClientResponse)
    ensures
        response.id@ == parked.request_id@,
        response@ == answer_view(
            parked.request_id@,
            delivered_view(parked.work@, delivery, outcome, obligation),
        ),
{
    let client = Parked { request_id: parked.request_id, work: () };
    match delivery {
        Ok(()) => client.answer(
            Ok(fill_prompt_result(parked.work, true, outcome, obligation)),
        ),
        Err(error) => client.answer(Err(error)),
    }
}

/// Who waits for a prompt.
#[derive(Debug, Clone, Copy, PartialEq, Eq, Structural)]
pub enum PromptOwner {
    /// The client that sent it.
    Client,
    /// Nobody: it came due by itself.
    Internal,
    /// A cancellation, for the waiting or the owing audience.
    Cancel { session: u64, waiting: bool },
    /// The retirement of a socket waiter.
    WaiterRetire { session: u64, ask: MessageId },
}

/// What is parked of a prompt.
#[derive(Debug, Clone, Copy, PartialEq, Eq, Structural)]
pub struct ParkedPrompt {
    pub owner: PromptOwner,
    /// Whether it is a reminder of an unanswered ask.
    pub reminder: bool,
    /// Whether its intent is recorded: from then on it may have been written.
    pub intent_committed: bool,
}

/// What follows the recording of a prompt's intent on an open lane.
#[derive(Debug, PartialEq, Eq)]
pub enum PromptStep {
    /// Send that on the lease, and keep the lease.
    Send(LeaseCmd),
    /// Give the lease back and settle the prompt as failed, unsent.
    Fail(HerdrError),
    /// Give the lease back and answer the client.
    Answer(SliceError),
}

/// What follows the recording of a prompt's intent: it goes out, or the lease is
/// given back. A reminder that is refused is no longer due.
pub fn prompt_committed(
    prepared: &PreparedPrompt,
    reminder: bool,
    committed: Result<(), SliceError>,
) -> (step: PromptStep)
    ensures
        match (committed, reminder) {
            (Ok(()), reminder) => step matches PromptStep::Send(cmd) && sends(
                cmd,
                prompt_sent(
                    prepared.request_id@,
                    prepared.pane_id@,
                    prepared.envelope@,
                    if reminder {
                        ""@
                    } else {
                        prepared.after_write_pause@
                    },
                ),
            ),
            (Err(_), true) => step matches PromptStep::Fail(HerdrError::Unexpected(text)) && text@
                == "reminder is no longer due"@,
            (Err(error), false) => step == PromptStep::Answer(error),
        },
{
    match committed {
        Ok(()) => PromptStep::Send(
            send_prompt(
                prepared.request_id.as_str(),
                prepared.pane_id.as_str(),
                prepared.envelope.as_str(),
                if reminder {
                    ""
                } else {
                    prepared.after_write_pause
                },
            ),
        ),
        Err(error) => if reminder {
            PromptStep::Fail(HerdrError::Unexpected("reminder is no longer due".to_owned()))
        } else {
            PromptStep::Answer(error)
        },
    }
}

/// Why a recorded prompt failed that could not be handed to the worker.
pub fn prompt_unsent() -> (source: HerdrError)
    ensures
        source matches HerdrError::Unexpected(text) && text@ == "herdr lease closed before send"@,
{
    HerdrError::Unexpected("herdr lease closed before send".to_owned())
}

/// Whether that is what the answer to a prompt's job says of the prompt.
pub open spec fn is_prompt_answer(
    result: Result<HerdrJobResult, HerdrError>,
    prompt: Result<AgentObservation, HerdrError>,
) -> bool {
    match result {
        Ok(HerdrJobResult::Prompt(agent)) => prompt == Ok::<AgentObservation, HerdrError>(agent),
        Ok(_) => prompt matches Err(HerdrError::Unexpected(text)) && text@
            == "prompt job returned a non-prompt result"@,
        Err(error) => prompt == Err::<AgentObservation, HerdrError>(error),
    }
}

/// What the answer to a prompt's job says of the prompt.
pub fn prompt_done(result: Result<HerdrJobResult, HerdrError>) -> (prompt: Result<
    AgentObservation,
    HerdrError,
>)
    ensures
        is_prompt_answer(result, prompt),
{
    match result {
        Ok(HerdrJobResult::Prompt(agent)) => Ok(agent),
        Ok(_) => Err(HerdrError::Unexpected("prompt job returned a non-prompt result".to_owned())),
        Err(error) => Err(error),
    }
}

/// What the coordinator is told of a prompt that is over.
#[derive(Debug, Clone, Copy, PartialEq, Eq, Structural)]
pub enum Settle {
    /// Its delivery ended with the result of the prompt.
    Complete,
    /// The reminder ended with the result of the prompt.
    CompleteReminder,
    /// It was never sent, and is rejected.
    RejectUnsent,
    /// Nothing.
    Nothing,
}

/// What the coordinator is told of a prompt that is over. `finished` tells whether
/// its answer came; else its job failed.
pub open spec fn settle_of(prompt: ParkedPrompt, finished: bool) -> Settle {
    let attempted = finished || prompt.intent_committed;
    if prompt.reminder {
        if attempted {
            Settle::CompleteReminder
        } else {
            Settle::Nothing
        }
    } else if attempted {
        Settle::Complete
    } else {
        match prompt.owner {
            PromptOwner::Cancel { .. } => Settle::RejectUnsent,
            PromptOwner::WaiterRetire { .. } => Settle::RejectUnsent,
            _ => Settle::Nothing,
        }
    }
}

/// Decide what the coordinator is told of a prompt that is over.
pub fn settle(prompt: ParkedPrompt, finished: bool) -> (settle: Settle)
    ensures
        settle == settle_of(prompt, finished),
{
    let attempted = finished || prompt.intent_committed;
    if prompt.reminder {
        if attempted {
            Settle::CompleteReminder
        } else {
            Settle::Nothing
        }
    } else if attempted {
        Settle::Complete
    } else {
        match prompt.owner {
            PromptOwner::Cancel { .. } | PromptOwner::WaiterRetire { .. } => Settle::RejectUnsent,
            _ => Settle::Nothing,
        }
    }
}

/// Whether a prompt that came due by itself may come due again.
pub fn releases_due(prompt: ParkedPrompt) -> (r: bool)
    ensures
        r == (prompt.owner == PromptOwner::Internal && !prompt.reminder),
{
    match prompt.owner {
        PromptOwner::Internal => !prompt.reminder,
        _ => false,
    }
}

/// Who is told of a prompt that is settled.
#[derive(Debug, PartialEq, Eq)]
pub enum PromptEnd {
    /// The ask may be reminded of again.
    ForgetReminder,
    /// A cancellation learns whether its notice went out.
    NoteCancel { session: u64, waiting: bool, delivered: bool },
    /// A retirement learns whether its notice went out.
    NoteWaiterRetire { session: u64, ask: MessageId, delivered: bool },
    /// The client, if there is one, is answered.
    Answer(Result<(), SliceError>),
}

/// Who is told of a prompt that is settled. `delivery` is what the coordinator made
/// of its delivery, or the failure of its job where the coordinator was not told.
pub fn prompt_end(prompt: ParkedPrompt, delivery: Result<(), SliceError>) -> (end: PromptEnd)
    ensures
        end == end_of(prompt, delivery),
{
    if prompt.reminder {
        return PromptEnd::ForgetReminder;
    }
    match prompt.owner {
        PromptOwner::Cancel { session, waiting } => PromptEnd::NoteCancel {
            session,
            waiting,
            delivered: delivery.is_ok(),
        },
        PromptOwner::WaiterRetire { session, ask } => PromptEnd::NoteWaiterRetire {
            session,
            ask,
            delivered: delivery.is_ok(),
        },
        _ => PromptEnd::Answer(delivery),
    }
}

/// A prompt that may have been written is always settled with the coordinator, and
/// one that was not is never told as delivered.
pub proof fn law_written_prompt_is_settled(prompt: ParkedPrompt, finished: bool)
    requires
        finished || prompt.intent_committed,
    ensures
        settle_of(prompt, finished) == Settle::Complete || settle_of(prompt, finished)
            == Settle::CompleteReminder,
        settle_of(ParkedPrompt { intent_committed: false, ..prompt }, false) != Settle::Complete,
        settle_of(ParkedPrompt { intent_committed: false, ..prompt }, false)
            != Settle::CompleteReminder,
{
}

/// What a prompt on its way does next. After a result or a failure any lease it holds is
/// given back first.
#[derive(Debug, PartialEq, Eq)]
pub enum PromptAct {
    /// Open its pane.
    Open,
    /// Ask the coordinator to record its intent.
    Commit,
    /// Send that on the lease, and keep the lease.
    Send(LeaseCmd),
    /// Tell the coordinator that, with the result of the prompt.
    Settle { settle: Settle, prompt: Result<AgentObservation, HerdrError> },
    /// It is over: tell those who wait for it.
    End(PromptEnd),
}

/// A prompt on its way.
#[derive(Debug, PartialEq, Eq)]
pub struct PromptFlow {
    pub prepared: PreparedPrompt,
    pub prompt: ParkedPrompt,
    pub act: PromptAct,
}

/// A prompt that waits for its pane.
pub fn park_prompt(prepared: PreparedPrompt, owner: PromptOwner, reminder: bool) -> (flow: PromptFlow)
    ensures
        flow == (PromptFlow {
            prepared,
            prompt: ParkedPrompt { owner, reminder, intent_committed: false },
            act: PromptAct::Open,
        }),
{
    PromptFlow {
        prepared,
        prompt: ParkedPrompt { owner, reminder, intent_committed: false },
        act: PromptAct::Open,
    }
}

/// What a prompt on its way is told.
#[derive(Debug, PartialEq, Eq)]
pub enum PromptEvent {
    /// Its lane is open.
    Opened,
    /// The coordinator recorded its intent.
    Committed(Result<(), SliceError>),
    /// It could not be handed to the worker.
    Unsent,
    /// Its job is over.
    Done(Result<HerdrJobResult, HerdrError>),
    /// Its job failed.
    Failed(HerdrError),
    /// The coordinator was told of its end, and makes that of it.
    Settled(Result<(), SliceError>),
}

/// Whether a prompt waits for a worker.
pub open spec fn waits_for_job(act: PromptAct) -> bool {
    act is Open || act is Send
}

/// Whether a prompt waits for an event.
pub open spec fn waits_for(act: PromptAct, event: PromptEvent) -> bool {
    match event {
        PromptEvent::Opened => act is Open,
        PromptEvent::Committed(_) => act is Commit,
        PromptEvent::Unsent => act is Send,
        PromptEvent::Done(_) => waits_for_job(act),
        PromptEvent::Failed(_) => waits_for_job(act),
        PromptEvent::Settled(_) => act is Settle,
    }
}

/// What the coordinator made of a delivery, or the failure of the job where the
/// coordinator was not told.
pub open spec fn delivery_of(
    settle: Settle,
    prompt: Result<AgentObservation, HerdrError>,
    settled: Result<(), SliceError>,
) -> Result<(), SliceError> {
    match (settle, prompt) {
        (Settle::RejectUnsent, Err(source)) => Err(SliceError::Herdr(source)),
        (Settle::Nothing, Err(source)) => Err(SliceError::Herdr(source)),
        _ => settled,
    }
}

/// Whether an act settles a prompt that failed with an unexpected answer.
pub open spec fn settles_unexpected(prompt: ParkedPrompt, text: Seq<char>, act: PromptAct) -> bool {
    act matches PromptAct::Settle { settle, prompt: Err(HerdrError::Unexpected(message)) } && settle
        == settle_of(prompt, false) && message@ == text
}

/// Who is told of a prompt that is settled.
pub open spec fn end_of(prompt: ParkedPrompt, delivery: Result<(), SliceError>) -> PromptEnd {
    if prompt.reminder {
        PromptEnd::ForgetReminder
    } else {
        match prompt.owner {
            PromptOwner::Cancel { session, waiting } => PromptEnd::NoteCancel {
                session,
                waiting,
                delivered: delivery is Ok,
            },
            PromptOwner::WaiterRetire { session, ask } => PromptEnd::NoteWaiterRetire {
                session,
                ask,
                delivered: delivery is Ok,
            },
            _ => PromptEnd::Answer(delivery),
        }
    }
}

/// Whether a prompt follows another one and an event.
pub open spec fn follows(flow: PromptFlow, event: PromptEvent, after: PromptFlow) -> bool {
    &&& after.prepared == flow.prepared
    &&& match (flow.act, event) {
        (PromptAct::Open, PromptEvent::Opened) => after.prompt == flow.prompt && after.act
            == PromptAct::Commit,
        (PromptAct::Commit, PromptEvent::Committed(Ok(()))) => after.prompt == (ParkedPrompt {
            intent_committed: true,
            ..flow.prompt
        }) && (after.act matches PromptAct::Send(cmd) && sends(
            cmd,
            prompt_sent(
                flow.prepared.request_id@,
                flow.prepared.pane_id@,
                flow.prepared.envelope@,
                if flow.prompt.reminder {
                    ""@
                } else {
                    flow.prepared.after_write_pause@
                },
            ),
        )),
        (PromptAct::Commit, PromptEvent::Committed(Err(error))) => after.prompt == flow.prompt
            && if flow.prompt.reminder {
            settles_unexpected(flow.prompt, "reminder is no longer due"@, after.act)
        } else {
            after.act == PromptAct::End(PromptEnd::Answer(Err(error)))
        },
        (PromptAct::Send(_), PromptEvent::Unsent) => after.prompt == flow.prompt
            && settles_unexpected(flow.prompt, "herdr lease closed before send"@, after.act),
        (act, PromptEvent::Done(result)) => waits_for_job(act) && after.prompt == flow.prompt && (
        after.act matches PromptAct::Settle { settle, prompt } && settle == settle_of(
            flow.prompt,
            true,
        ) && is_prompt_answer(result, prompt)),
        (act, PromptEvent::Failed(error)) => waits_for_job(act) && after.prompt == flow.prompt
            && after.act == (PromptAct::Settle {
            settle: settle_of(flow.prompt, false),
            prompt: Err(error),
        }),
        (PromptAct::Settle { settle, prompt }, PromptEvent::Settled(settled)) => after.prompt
            == flow.prompt && after.act == PromptAct::End(
            end_of(flow.prompt, delivery_of(settle, prompt, settled)),
        ),
        _ => false,
    }
}

/// What a prompt on its way does once something happened to it. An event that it does not
/// wait for is given back as a failure, with the prompt unchanged.
pub fn prompt_next(flow: PromptFlow, event: PromptEvent) -> (r: Result<PromptFlow, PromptFlow>)
    ensures
        match r {
            Ok(after) => waits_for(flow.act, event) && follows(flow, event, after),
            Err(same) => !waits_for(flow.act, event) && same == flow,
        },
{
    let prepared = flow.prepared;
    let mut prompt = flow.prompt;
    let act = match (flow.act, event) {
        (PromptAct::Open, PromptEvent::Opened) => PromptAct::Commit,
        (PromptAct::Commit, PromptEvent::Committed(committed)) => {
            match prompt_committed(&prepared, prompt.reminder, committed) {
                PromptStep::Send(cmd) => {
                    prompt = ParkedPrompt {
                        owner: prompt.owner,
                        reminder: prompt.reminder,
                        intent_committed: true,
                    };
                    PromptAct::Send(cmd)
                },
                PromptStep::Fail(source) => PromptAct::Settle {
                    settle: settle(prompt, false),
                    prompt: Err(source),
                },
                PromptStep::Answer(error) => PromptAct::End(PromptEnd::Answer(Err(error))),
            }
        },
        (PromptAct::Send(_), PromptEvent::Unsent) => PromptAct::Settle {
            settle: settle(prompt, false),
            prompt: Err(prompt_unsent()),
        },
        (PromptAct::Open, PromptEvent::Done(result))
        | (PromptAct::Send(_), PromptEvent::Done(result)) => PromptAct::Settle {
            settle: settle(prompt, true),
            prompt: prompt_done(result),
        },
        (PromptAct::Open, PromptEvent::Failed(error))
        | (PromptAct::Send(_), PromptEvent::Failed(error)) => PromptAct::Settle {
            settle: settle(prompt, false),
            prompt: Err(error),
        },
        (PromptAct::Settle { settle, prompt: ended }, PromptEvent::Settled(settled)) => {
            let delivery = match (settle, ended) {
                (Settle::RejectUnsent, Err(source)) | (Settle::Nothing, Err(source)) => Err(
                    SliceError::Herdr(source),
                ),
                _ => settled,
            };
            PromptAct::End(prompt_end(prompt, delivery))
        },
        (act, _) => {
            return Err(PromptFlow { prepared, prompt, act });
        },
    };
    Ok(PromptFlow { prepared, prompt, act })
}

/// A prompt goes in one order: open, record, write, settle, end. Nothing is written before
/// its intent is recorded, and one that may have been written ends only after it was
/// settled.
pub proof fn law_prompt_goes_in_order(flow: PromptFlow, event: PromptEvent, after: PromptFlow)
    requires
        follows(flow, event, after),
    ensures
        after.act is Commit ==> flow.act is Open,
        after.act is Send ==> flow.act is Commit && after.prompt.intent_committed,
        after.act is End ==> flow.act is Settle || (flow.act is Commit && !after.prompt.reminder),
        flow.act is Send ==> after.act is Settle,
        flow.prompt.intent_committed ==> after.prompt.intent_committed,
{
}

/// A cancellation that waits for its notices.
#[derive(Debug, Clone, Copy, PartialEq, Eq, Structural)]
pub struct AwaitingCancel {
    pub outcome: CancelOutcome,
    pub remaining: u32,
}

/// How many notices are waited for.
pub open spec fn remaining_of(notices: nat) -> u32 {
    if notices > u32::MAX {
        u32::MAX
    } else {
        notices as u32
    }
}

/// A cancellation waits for all of its notices.
pub fn park_cancel(outcome: CancelOutcome, notices: usize) -> (cancel: AwaitingCancel)
    ensures
        cancel == (AwaitingCancel { outcome, remaining: remaining_of(notices as nat) }),
{
    let remaining: u32 = if notices > 0xffff_ffff {
        0xffff_ffff
    } else {
        notices as u32
    };
    AwaitingCancel { outcome, remaining }
}

/// A cancellation after one notice to one audience.
pub open spec fn noted(cancel: AwaitingCancel, waiting: bool, delivered: bool) -> AwaitingCancel {
    AwaitingCancel {
        outcome: if waiting {
            CancelOutcome { delivered, ..cancel.outcome }
        } else {
            CancelOutcome { owing_delivered: delivered, ..cancel.outcome }
        },
        remaining: if cancel.remaining == 0 {
            0
        } else {
            (cancel.remaining - 1) as u32
        },
    }
}

/// Note how one notice of a cancellation went. With the last one the cancellation
/// is answered.
pub fn note_cancel_notice(cancel: &mut AwaitingCancel, waiting: bool, delivered: bool) -> (answer: Option<
    CancelOutcome,
>)
    ensures
        *final(cancel) == noted(*old(cancel), waiting, delivered),
        answer == if final(cancel).remaining == 0 {
            Some(final(cancel).outcome)
        } else {
            None
        },
{
    let outcome = cancel.outcome;
    let outcome = if waiting {
        CancelOutcome {
            delivered,
            message_id: outcome.message_id,
            owing_delivered: outcome.owing_delivered,
            owing_message_id: outcome.owing_message_id,
        }
    } else {
        CancelOutcome {
            delivered: outcome.delivered,
            message_id: outcome.message_id,
            owing_delivered: delivered,
            owing_message_id: outcome.owing_message_id,
        }
    };
    let remaining: u32 = if cancel.remaining == 0 {
        0
    } else {
        cancel.remaining - 1
    };
    *cancel = AwaitingCancel { outcome, remaining };
    if remaining == 0 {
        Some(outcome)
    } else {
        None
    }
}

/// The response to a cancellation.
pub fn answer_cancel<W>(parked: &Parked<W>, outcome: CancelOutcome) -> (response: ClientResponse)
    ensures
        response.id@ == parked.request_id@,
        response@ == answer_view(parked.request_id@, Ok(cancel_result_view(outcome))),
{
    parked.answer(Ok(cancel_result(outcome)))
}

/// What a parked cancellation does once one of its notices is settled: it waits on, and
/// answers with the last one.
pub fn cancel_noted(parked: Parked<AwaitingCancel>, waiting: bool, delivered: bool) -> (next: Next<
    AwaitingCancel,
>)
    ensures
        ({
            let after = noted(parked.work, waiting, delivered);
            if after.remaining == 0 {
                next matches Next::Answer(response) && response.id@ == parked.request_id@
                    && response@ == answer_view(
                    parked.request_id@,
                    Ok(cancel_result_view(after.outcome)),
                )
            } else {
                next matches Next::Go(same) && same.request_id@ == parked.request_id@ && same.work
                    == after
            }
        }),
{
    let request_id = parked.request_id;
    let mut work = parked.work;
    match note_cancel_notice(&mut work, waiting, delivered) {
        Some(outcome) => Next::Answer(answer_cancel(&Parked { request_id, work: () }, outcome)),
        None => Next::Go(Parked { request_id, work }),
    }
}

/// A cancellation after a run of notices.
pub open spec fn all_noted(cancel: AwaitingCancel, notices: Seq<(bool, bool)>) -> AwaitingCancel
    decreases notices.len(),
{
    if notices.len() == 0 {
        cancel
    } else {
        let (waiting, delivered) = notices.last();
        noted(all_noted(cancel, notices.drop_last()), waiting, delivered)
    }
}

/// A cancellation is answered with the last of its notices and not before: as long
/// as fewer came, it waits, and once all came, nothing remains.
pub proof fn law_cancel_is_answered_with_its_last_notice(
    cancel: AwaitingCancel,
    notices: Seq<(bool, bool)>,
)
    requires
        notices.len() <= cancel.remaining,
    ensures
        all_noted(cancel, notices).remaining == cancel.remaining - notices.len(),
        all_noted(cancel, notices).remaining == 0 <==> notices.len() == cancel.remaining,
        all_noted(cancel, notices).outcome.message_id == cancel.outcome.message_id,
        all_noted(cancel, notices).outcome.owing_message_id == cancel.outcome.owing_message_id,
    decreases notices.len(),
{
    if notices.len() > 0 {
        law_cancel_is_answered_with_its_last_notice(cancel, notices.drop_last());
    }
}

/// One notice that the retirement of a socket waiter owes. Where nobody can be
/// told, it is only recorded.
#[derive(Debug, Clone, Copy, PartialEq, Eq, Structural)]
pub struct OwingNotice {
    pub ask_message_id: MessageId,
    pub message_id: MessageId,
    /// Whether a prompt is prepared for it.
    pub prepared: bool,
}

/// The retirement of a socket waiter that waits for its notices.
#[derive(Debug, PartialEq, Eq)]
pub struct AwaitingWaiterRetire {
    pub outcome: WaiterRetireOutcome,
    pub remaining: u32,
}

/// How many of some notices have a prompt.
pub open spec fn prepared_count(notices: Seq<OwingNotice>) -> nat
    decreases notices.len(),
{
    if notices.len() == 0 {
        0
    } else {
        prepared_count(notices.drop_last()) + if notices.last().prepared {
            1nat
        } else {
            0
        }
    }
}

/// A notice before it went out.
pub open spec fn undelivered(notice: OwingNotice) -> WaiterRetireOwingNotice {
    WaiterRetireOwingNotice {
        ask_message_id: notice.ask_message_id,
        message_id: notice.message_id,
        delivered: false,
    }
}

/// The retirement of a socket waiter waits for all of its prompts. Without any it
/// is answered at once.
pub fn park_waiter_retire(cancelled_ask_ids: Vec<MessageId>, notices: &Vec<OwingNotice>) -> (retire: AwaitingWaiterRetire)
    ensures
        retire.outcome.cancelled_ask_ids@ == cancelled_ask_ids@,
        retire.outcome.owing_notices@ == notices@.map_values(
            |notice: OwingNotice| undelivered(notice),
        ),
        retire.remaining == remaining_of(prepared_count(notices@)),
{
    let mut owing: Vec<WaiterRetireOwingNotice> = Vec::new();
    let mut count: usize = 0;
    let mut i: usize = 0;
    while i < notices.len()
        invariant
            i <= notices@.len(),
            owing@.len() == i,
            forall|j: int| 0 <= j < i ==> (#[trigger] owing@[j]) == undelivered(notices@[j]),
            count <= i,
            count == prepared_count(notices@.take(i as int)),
        decreases notices@.len() - i,
    {
        let ghost next = notices@.take(i as int + 1);
        proof {
            assert(next.drop_last() =~= notices@.take(i as int));
            assert(next.last() == notices@[i as int]);
        }
        let notice = notices[i];
        owing.push(
            WaiterRetireOwingNotice {
                ask_message_id: notice.ask_message_id,
                message_id: notice.message_id,
                delivered: false,
            },
        );
        if notice.prepared {
            count = count + 1;
        }
        i = i + 1;
    }
    assert(notices@.take(notices@.len() as int) =~= notices@);
    assert(owing@ =~= notices@.map_values(|notice: OwingNotice| undelivered(notice)));
    let remaining: u32 = if count > 0xffff_ffff {
        0xffff_ffff
    } else {
        count as u32
    };
    AwaitingWaiterRetire {
        outcome: WaiterRetireOutcome { cancelled_ask_ids, owing_notices: owing },
        remaining,
    }
}

/// Notices after the first one of an ask is marked.
pub open spec fn marked(
    notices: Seq<WaiterRetireOwingNotice>,
    ask: MessageId,
    delivered: bool,
) -> Seq<WaiterRetireOwingNotice>
    decreases notices.len(),
{
    if notices.len() == 0 {
        notices
    } else if notices[0].ask_message_id == ask {
        seq![WaiterRetireOwingNotice { delivered, ..notices[0] }] + notices.skip(1)
    } else {
        seq![notices[0]] + marked(notices.skip(1), ask, delivered)
    }
}

proof fn lemma_marked(
    notices: Seq<WaiterRetireOwingNotice>,
    ask: MessageId,
    delivered: bool,
    at: int,
)
    requires
        0 <= at <= notices.len(),
        forall|j: int| 0 <= j < at ==> (#[trigger] notices[j]).ask_message_id != ask,
        at < notices.len() ==> notices[at].ask_message_id == ask,
    ensures
        marked(notices, ask, delivered) == if at < notices.len() {
            notices.update(at, WaiterRetireOwingNotice { delivered, ..notices[at] })
        } else {
            notices
        },
    decreases notices.len(),
{
    if notices.len() > 0 {
        let rest = notices.skip(1);
        if at > 0 {
            assert forall|j: int| 0 <= j < at - 1 implies (#[trigger] rest[j]).ask_message_id
                != ask by {
                assert(notices[j + 1].ask_message_id != ask);
            }
            lemma_marked(rest, ask, delivered, at - 1);
        }
        if at < notices.len() {
            assert(marked(notices, ask, delivered) =~= notices.update(
                at,
                WaiterRetireOwingNotice { delivered, ..notices[at] },
            ));
        } else {
            assert(marked(notices, ask, delivered) =~= notices);
        }
    }
}

/// Note how one notice of a waiter's retirement went. With the last one the
/// retirement is answered.
pub fn note_waiter_retire_notice(
    retire: &mut AwaitingWaiterRetire,
    ask: MessageId,
    delivered: bool,
) -> (answered: bool)
    ensures
        final(retire).outcome.cancelled_ask_ids == old(retire).outcome.cancelled_ask_ids,
        final(retire).outcome.owing_notices@ == marked(
            old(retire).outcome.owing_notices@,
            ask,
            delivered,
        ),
        final(retire).remaining == if old(retire).remaining == 0 {
            0
        } else {
            old(retire).remaining - 1
        },
        answered == (final(retire).remaining == 0),
{
    let ghost before = retire.outcome.owing_notices@;
    let mut i: usize = 0;
    while i < retire.outcome.owing_notices.len() && retire.outcome.owing_notices[i].ask_message_id.value
        != ask.value
        invariant
            *retire == *old(retire),
            before == retire.outcome.owing_notices@,
            i <= before.len(),
            forall|j: int| 0 <= j < i ==> (#[trigger] before[j]).ask_message_id != ask,
        decreases before.len() - i,
    {
        i = i + 1;
    }
    proof {
        if i < before.len() {
            assert(before[i as int].ask_message_id == ask);
        }
        lemma_marked(before, ask, delivered, i as int);
    }
    if i < retire.outcome.owing_notices.len() {
        let notice = retire.outcome.owing_notices[i];
        retire.outcome.owing_notices.set(
            i,
            WaiterRetireOwingNotice {
                ask_message_id: notice.ask_message_id,
                message_id: notice.message_id,
                delivered,
            },
        );
    }
    if retire.remaining > 0 {
        retire.remaining = retire.remaining - 1;
    }
    retire.remaining == 0
}

/// The retirement of a socket waiter, for that waiter.
#[derive(Debug, PartialEq, Eq)]
pub struct WaiterRetireWork {
    pub agent: LogicalAgentId,
    pub awaiting: AwaitingWaiterRetire,
}

/// The response to the retirement of a socket waiter.
pub fn answer_waiter_retire<W>(
    parked: &Parked<W>,
    agent: LogicalAgentId,
    outcome: &WaiterRetireOutcome,
) -> (response: ClientResponse)
    ensures
        response.id@ == parked.request_id@,
        response@ == answer_view(
            parked.request_id@,
            Ok(waiter_retire_result_view(agent, *outcome)),
        ),
{
    parked.answer(Ok(waiter_retire_result(agent, outcome)))
}

/// Whether a retirement of a socket waiter goes on under an identifier: it answers once
/// nothing remains.
pub open spec fn goes_on(id: Seq<char>, work: WaiterRetireWork, next: Next<WaiterRetireWork>) -> bool {
    if work.awaiting.remaining == 0 {
        next matches Next::Answer(response) && response.id@ == id && response@ == answer_view(
            id,
            Ok(waiter_retire_result_view(work.agent, work.awaiting.outcome)),
        )
    } else {
        next matches Next::Go(same) && same.request_id@ == id && same.work == work
    }
}

/// What a retirement of a socket waiter does next: it waits for what remains, or answers.
pub fn waiter_retire_waits(parked: Parked<WaiterRetireWork>) -> (next: Next<WaiterRetireWork>)
    ensures
        goes_on(parked.request_id@, parked.work, next),
{
    if parked.work.awaiting.remaining == 0 {
        Next::Answer(
            answer_waiter_retire(&parked, parked.work.agent, &parked.work.awaiting.outcome),
        )
    } else {
        Next::Go(parked)
    }
}

/// What a parked retirement of a socket waiter does once one of its notices is settled.
pub fn waiter_retire_noted(parked: Parked<WaiterRetireWork>, ask: MessageId, delivered: bool) -> (
    next: Next<WaiterRetireWork>)
    ensures
        exists|after: WaiterRetireWork| #[trigger]
            goes_on(parked.request_id@, after, next) && after.agent == parked.work.agent
                && after.awaiting.outcome.cancelled_ask_ids
                == parked.work.awaiting.outcome.cancelled_ask_ids
                && after.awaiting.outcome.owing_notices@ == marked(
                parked.work.awaiting.outcome.owing_notices@,
                ask,
                delivered,
            ) && after.awaiting.remaining == if parked.work.awaiting.remaining == 0 {
                0
            } else {
                parked.work.awaiting.remaining - 1
            },
{
    let request_id = parked.request_id;
    let agent = parked.work.agent;
    let mut awaiting = parked.work.awaiting;
    let _ = note_waiter_retire_notice(&mut awaiting, ask, delivered);
    waiter_retire_waits(Parked { request_id, work: WaiterRetireWork { agent, awaiting } })
}

} // verus!
