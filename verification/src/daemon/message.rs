//! The recording of a message: whom it is for, what the coordinator records of it, and
//! what its client is told.

use vstd::prelude::*;

use super::errors::{is_conflict, is_invalid, SliceError, StoreError};
use super::params::{doubly_held, tell_recipient, TellRecipient};
use super::prompt::{
    ask_result, ask_view, is_need, prepare_client_prompt, prompt_refusal, reply_result, reply_view,
    socket_tell_result, socket_tell_view, tell_result, tell_view, CreatedMessage, CreatedReply,
    PreparedPrompt, PromptNeed, PromptParams,
};
use crate::domain::{
    DeliveryOutcome, IncarnationId, LogicalAgentId, MessageId, ObligationState,
};
use crate::json::{Json, JsonView};

verus! {

/// What the coordinator made of a message: its result, and the prompt that delivers
/// it where one has to.
#[derive(Debug, PartialEq, Eq)]
pub struct MessageOutcome {
    pub result: Json,
    pub prepared: Option<PreparedPrompt>,
    pub reply_to: Option<MessageId>,
}

/// What the recording of a message does next.
#[derive(Debug, PartialEq, Eq)]
pub enum MessageStep {
    /// Resolve the alias of an ask, adopting its holder under that key.
    ResolveAsk { alias: String, key: String, interval: Option<i64> },
    /// Look up who holds the alias of a tell: a pane, and a socket.
    LookUpTell { alias: String, key: String },
    /// Resolve the alias of a tell, adopting its holder under that key.
    ResolveTell { alias: String, key: String },
    /// Record the ask for that recipient, with reminders after that interval.
    RecordAsk { recipient: LogicalAgentId, incarnation: IncarnationId, interval: Option<i64> },
    /// Record the tell for that recipient.
    RecordTell { recipient: LogicalAgentId, incarnation: IncarnationId },
    /// Record the tell for that socket.
    RecordSocketTell { recipient: LogicalAgentId },
    /// Record the reply.
    RecordReply,
    /// Read how the delivery of an ask went that has no prompt.
    AskOutcome {
        created: CreatedMessage,
        recipient: LogicalAgentId,
        incarnation: IncarnationId,
        interval: Option<i64>,
    },
    /// Read how the delivery of a tell went that has no prompt.
    TellOutcome { created: CreatedMessage, recipient: LogicalAgentId, incarnation: IncarnationId },
    /// Read how the delivery to a socket went.
    SocketOutcome { message_id: MessageId, recipient: LogicalAgentId },
    /// Read how the delivery of a reply went that has no prompt, and what became of the
    /// obligation.
    ReplyOutcome { created: CreatedReply },
    /// It is recorded, or refused.
    End(Result<MessageOutcome, SliceError>),
}

/// What the recording of a message is told.
#[derive(Debug, PartialEq, Eq)]
pub enum MessageEvent {
    /// Who holds the alias.
    Resolved(Result<(LogicalAgentId, IncarnationId), SliceError>),
    /// Who is Ready under the alias, and which socket waiter holds it.
    Held {
        ready: Result<Option<(LogicalAgentId, IncarnationId)>, StoreError>,
        waiter: Result<Option<LogicalAgentId>, StoreError>,
    },
    /// The ask or the tell is recorded, with the prompt that delivers it where one has to.
    Recorded(Result<(CreatedMessage, Option<PreparedPrompt>), SliceError>),
    /// The tell to a socket is recorded.
    RecordedForSocket(Result<MessageId, SliceError>),
    /// The reply is recorded.
    RecordedReply(Result<(CreatedReply, Option<PreparedPrompt>), SliceError>),
    /// How the delivery went.
    Outcome(Result<DeliveryOutcome, StoreError>),
    /// How the delivery of the reply went, and what became of the obligation.
    Settled {
        outcome: Result<DeliveryOutcome, StoreError>,
        state: Result<ObligationState, StoreError>,
    },
}

/// Whether a step is the first one that something asks for.
pub open spec fn begins(need: PromptNeed, step: MessageStep) -> bool {
    match need {
        PromptNeed::RecordAsk { recipient, incarnation, interval } => step == (
        MessageStep::RecordAsk { recipient, incarnation, interval }),
        PromptNeed::ResolveAsk { alias, key, interval } => step matches MessageStep::ResolveAsk {
            alias: a,
            key: k,
            interval: i,
        } && a@ == alias@ && k@ == key@ && i == interval,
        PromptNeed::RecordTell { recipient, incarnation } => step == (MessageStep::RecordTell {
            recipient,
            incarnation,
        }),
        PromptNeed::LookUpTell { alias, key } => step matches MessageStep::LookUpTell {
            alias: a,
            key: k,
        } && a@ == alias@ && k@ == key@,
        PromptNeed::RecordReply => step == MessageStep::RecordReply,
    }
}

/// Whether a step is the first one of a message: it is refused, or what it needs first is
/// done.
pub open spec fn is_first(params: PromptParams, step: MessageStep) -> bool {
    match prompt_refusal(params) {
        Some(text) => step matches MessageStep::End(Err(error)) && is_invalid(error, text),
        None => exists|need: PromptNeed| #[trigger] is_need(need, params) && begins(need, step),
    }
}

/// How the recording of a message begins.
pub fn message_first(params: &PromptParams) -> (step: MessageStep)
    ensures
        is_first(*params, step),
{
    match prepare_client_prompt(params) {
        Err(error) => MessageStep::End(Err(error)),
        Ok(need) => {
            let ghost wanted = need;
            let step = match need {
                PromptNeed::RecordAsk { recipient, incarnation, interval } => {
                    MessageStep::RecordAsk { recipient, incarnation, interval }
                },
                PromptNeed::ResolveAsk { alias, key, interval } => MessageStep::ResolveAsk {
                    alias: alias.clone(),
                    key,
                    interval,
                },
                PromptNeed::RecordTell { recipient, incarnation } => MessageStep::RecordTell {
                    recipient,
                    incarnation,
                },
                PromptNeed::LookUpTell { alias, key } => MessageStep::LookUpTell {
                    alias: alias.clone(),
                    key,
                },
                PromptNeed::RecordReply => MessageStep::RecordReply,
            };
            assert(is_need(wanted, *params) && begins(wanted, step));
            step
        },
    }
}

/// Whether a step ends the recording well.
pub open spec fn ends_well(
    step: MessageStep,
    result: JsonView,
    prepared: Option<PreparedPrompt>,
    reply_to: Option<MessageId>,
) -> bool {
    step matches MessageStep::End(Ok(outcome)) && outcome.result@ == result && outcome.prepared
        == prepared && outcome.reply_to == reply_to
}

/// Whether a step ends the recording with that failure.
pub open spec fn ends_badly(step: MessageStep, error: SliceError) -> bool {
    step == MessageStep::End(Err(error))
}

fn end(result: Json, prepared: Option<PreparedPrompt>, reply_to: Option<MessageId>) -> (step:
    MessageStep)
    ensures
        ends_well(step, result@, prepared, reply_to),
{
    MessageStep::End(Ok(MessageOutcome { result, prepared, reply_to }))
}

/// Whether a step follows the look at who holds the alias of a tell.
pub open spec fn follows_lookup(
    alias: String,
    key: String,
    ready: Result<Option<(LogicalAgentId, IncarnationId)>, StoreError>,
    waiter: Result<Option<LogicalAgentId>, StoreError>,
    step: MessageStep,
) -> bool {
    match (ready, waiter) {
        (Err(error), _) => ends_badly(step, SliceError::Store(error)),
        (Ok(_), Err(error)) => ends_badly(step, SliceError::Store(error)),
        (Ok(Some(_)), Ok(Some(_))) => step matches MessageStep::End(Err(error)) && is_conflict(
            error,
            doubly_held(alias@),
        ),
        (Ok(Some((recipient, incarnation))), Ok(None)) => step == (MessageStep::RecordTell {
            recipient,
            incarnation,
        }),
        (Ok(None), Ok(Some(recipient))) => step == (MessageStep::RecordSocketTell { recipient }),
        (Ok(None), Ok(None)) => step == (MessageStep::ResolveTell { alias, key }),
    }
}

/// Whether a step follows another one and an event.
pub open spec fn follows(
    params: PromptParams,
    step: MessageStep,
    event: MessageEvent,
    after: MessageStep,
) -> bool {
    match (params, step, event) {
        (_, MessageStep::ResolveAsk { interval, .. }, MessageEvent::Resolved(resolved)) => {
            match resolved {
                Ok((recipient, incarnation)) => after == (MessageStep::RecordAsk {
                    recipient,
                    incarnation,
                    interval,
                }),
                Err(error) => ends_badly(after, error),
            }
        },
        (_, MessageStep::ResolveTell { .. }, MessageEvent::Resolved(resolved)) => match resolved {
            Ok((recipient, incarnation)) => after == (MessageStep::RecordTell {
                recipient,
                incarnation,
            }),
            Err(error) => ends_badly(after, error),
        },
        (_, MessageStep::LookUpTell { alias, key }, MessageEvent::Held { ready, waiter }) => {
            follows_lookup(alias, key, ready, waiter, after)
        },
        (
            PromptParams::Ask(params),
            MessageStep::RecordAsk { recipient, incarnation, interval },
            MessageEvent::Recorded(recorded),
        ) => match recorded {
            Ok((created, Some(prepared))) => ends_well(
                after,
                ask_view(created, recipient, incarnation, params.sender, interval, None),
                Some(prepared),
                None,
            ),
            Ok((created, None)) => after == (MessageStep::AskOutcome {
                created,
                recipient,
                incarnation,
                interval,
            }),
            Err(error) => ends_badly(after, error),
        },
        (
            PromptParams::Tell(params),
            MessageStep::RecordTell { recipient, incarnation },
            MessageEvent::Recorded(recorded),
        ) => match recorded {
            Ok((created, Some(prepared))) => ends_well(
                after,
                tell_view(created, recipient, incarnation, params.due_at_ms, None),
                Some(prepared),
                None,
            ),
            Ok((created, None)) => after == (MessageStep::TellOutcome {
                created,
                recipient,
                incarnation,
            }),
            Err(error) => ends_badly(after, error),
        },
        (
            PromptParams::Tell(_),
            MessageStep::RecordSocketTell { recipient },
            MessageEvent::RecordedForSocket(recorded),
        ) => match recorded {
            Ok(message_id) => after == (MessageStep::SocketOutcome { message_id, recipient }),
            Err(error) => ends_badly(after, error),
        },
        (
            PromptParams::Reply(params),
            MessageStep::RecordReply,
            MessageEvent::RecordedReply(recorded),
        ) => match recorded {
            Ok((created, Some(prepared))) => ends_well(
                after,
                reply_view(created, None),
                Some(prepared),
                Some(params.reply_to),
            ),
            Ok((created, None)) => after == (MessageStep::ReplyOutcome { created }),
            Err(error) => ends_badly(after, error),
        },
        (
            PromptParams::Ask(params),
            MessageStep::AskOutcome { created, recipient, incarnation, interval },
            MessageEvent::Outcome(outcome),
        ) => match outcome {
            Ok(outcome) => ends_well(
                after,
                ask_view(created, recipient, incarnation, params.sender, interval, Some(outcome)),
                None,
                None,
            ),
            Err(error) => ends_badly(after, SliceError::Store(error)),
        },
        (
            PromptParams::Tell(params),
            MessageStep::TellOutcome { created, recipient, incarnation },
            MessageEvent::Outcome(outcome),
        ) => match outcome {
            Ok(outcome) => ends_well(
                after,
                tell_view(created, recipient, incarnation, params.due_at_ms, Some(outcome)),
                None,
                None,
            ),
            Err(error) => ends_badly(after, SliceError::Store(error)),
        },
        (
            PromptParams::Tell(params),
            MessageStep::SocketOutcome { message_id, recipient },
            MessageEvent::Outcome(outcome),
        ) => match outcome {
            Ok(outcome) => ends_well(
                after,
                socket_tell_view(message_id, recipient, params.due_at_ms, outcome),
                None,
                None,
            ),
            Err(error) => ends_badly(after, SliceError::Store(error)),
        },
        (
            PromptParams::Reply(params),
            MessageStep::ReplyOutcome { created },
            MessageEvent::Settled { outcome, state },
        ) => match (outcome, state) {
            (Ok(outcome), Ok(state)) => ends_well(
                after,
                reply_view(created, Some((outcome, state))),
                None,
                Some(params.reply_to),
            ),
            (Err(error), _) => ends_badly(after, SliceError::Store(error)),
            (Ok(_), Err(error)) => ends_badly(after, SliceError::Store(error)),
        },
        _ => false,
    }
}

/// Whether the recording of a message waits for an event.
pub open spec fn waits_for(params: PromptParams, step: MessageStep, event: MessageEvent) -> bool {
    match event {
        MessageEvent::Resolved(_) => step is ResolveAsk || step is ResolveTell,
        MessageEvent::Held { .. } => step is LookUpTell,
        MessageEvent::Recorded(_) => (params is Ask && step is RecordAsk) || (params is Tell && step
            is RecordTell),
        MessageEvent::RecordedForSocket(_) => params is Tell && step is RecordSocketTell,
        MessageEvent::RecordedReply(_) => params is Reply && step is RecordReply,
        MessageEvent::Outcome(_) => (params is Ask && step is AskOutcome) || (params is Tell && (step
            is TellOutcome || step is SocketOutcome)),
        MessageEvent::Settled { .. } => params is Reply && step is ReplyOutcome,
    }
}

/// What the recording of a message does once something was told. An event that it does not
/// wait for is given back as a failure, with the step unchanged.
pub fn message_next(params: &PromptParams, step: MessageStep, event: MessageEvent) -> (r: Result<
    MessageStep,
    MessageStep,
>)
    ensures
        match r {
            Ok(after) => waits_for(*params, step, event) && follows(*params, step, event, after),
            Err(same) => !waits_for(*params, step, event) && same == step,
        },
{
    match (params, step, event) {
        (_, MessageStep::ResolveAsk { interval, .. }, MessageEvent::Resolved(resolved)) => Ok(
            match resolved {
                Ok((recipient, incarnation)) => MessageStep::RecordAsk {
                    recipient,
                    incarnation,
                    interval,
                },
                Err(error) => MessageStep::End(Err(error)),
            },
        ),
        (_, MessageStep::ResolveTell { .. }, MessageEvent::Resolved(resolved)) => Ok(
            match resolved {
                Ok((recipient, incarnation)) => MessageStep::RecordTell { recipient, incarnation },
                Err(error) => MessageStep::End(Err(error)),
            },
        ),
        (_, MessageStep::LookUpTell { alias, key }, MessageEvent::Held { ready, waiter }) => Ok(
            match (ready, waiter) {
                (Err(error), _) => MessageStep::End(Err(SliceError::Store(error))),
                (Ok(_), Err(error)) => MessageStep::End(Err(SliceError::Store(error))),
                (Ok(ready), Ok(waiter)) => match tell_recipient(alias.as_str(), ready, waiter) {
                    Ok(TellRecipient::Herdr(recipient, incarnation)) => MessageStep::RecordTell {
                        recipient,
                        incarnation,
                    },
                    Ok(TellRecipient::SocketInbox(recipient)) => MessageStep::RecordSocketTell {
                        recipient,
                    },
                    Ok(TellRecipient::Unbound) => MessageStep::ResolveTell { alias, key },
                    Err(error) => MessageStep::End(Err(error)),
                },
            },
        ),
        (
            PromptParams::Ask(params),
            MessageStep::RecordAsk { recipient, incarnation, interval },
            MessageEvent::Recorded(recorded),
        ) => Ok(
            match recorded {
                Ok((created, Some(prepared))) => end(
                    ask_result(created, recipient, incarnation, params.sender, interval, None),
                    Some(prepared),
                    None,
                ),
                Ok((created, None)) => MessageStep::AskOutcome {
                    created,
                    recipient,
                    incarnation,
                    interval,
                },
                Err(error) => MessageStep::End(Err(error)),
            },
        ),
        (
            PromptParams::Tell(params),
            MessageStep::RecordTell { recipient, incarnation },
            MessageEvent::Recorded(recorded),
        ) => Ok(
            match recorded {
                Ok((created, Some(prepared))) => end(
                    tell_result(created, recipient, incarnation, params.due_at_ms, None),
                    Some(prepared),
                    None,
                ),
                Ok((created, None)) => MessageStep::TellOutcome { created, recipient, incarnation },
                Err(error) => MessageStep::End(Err(error)),
            },
        ),
        (
            PromptParams::Tell(_),
            MessageStep::RecordSocketTell { recipient },
            MessageEvent::RecordedForSocket(recorded),
        ) => Ok(
            match recorded {
                Ok(message_id) => MessageStep::SocketOutcome { message_id, recipient },
                Err(error) => MessageStep::End(Err(error)),
            },
        ),
        (
            PromptParams::Reply(params),
            MessageStep::RecordReply,
            MessageEvent::RecordedReply(recorded),
        ) => Ok(
            match recorded {
                Ok((created, Some(prepared))) => end(
                    reply_result(created, None),
                    Some(prepared),
                    Some(params.reply_to),
                ),
                Ok((created, None)) => MessageStep::ReplyOutcome { created },
                Err(error) => MessageStep::End(Err(error)),
            },
        ),
        (
            PromptParams::Ask(params),
            MessageStep::AskOutcome { created, recipient, incarnation, interval },
            MessageEvent::Outcome(outcome),
        ) => Ok(
            match outcome {
                Ok(outcome) => end(
                    ask_result(
                        created,
                        recipient,
                        incarnation,
                        params.sender,
                        interval,
                        Some(outcome),
                    ),
                    None,
                    None,
                ),
                Err(error) => MessageStep::End(Err(SliceError::Store(error))),
            },
        ),
        (
            PromptParams::Tell(params),
            MessageStep::TellOutcome { created, recipient, incarnation },
            MessageEvent::Outcome(outcome),
        ) => Ok(
            match outcome {
                Ok(outcome) => end(
                    tell_result(created, recipient, incarnation, params.due_at_ms, Some(outcome)),
                    None,
                    None,
                ),
                Err(error) => MessageStep::End(Err(SliceError::Store(error))),
            },
        ),
        (
            PromptParams::Tell(params),
            MessageStep::SocketOutcome { message_id, recipient },
            MessageEvent::Outcome(outcome),
        ) => Ok(
            match outcome {
                Ok(outcome) => end(
                    socket_tell_result(message_id, recipient, params.due_at_ms, outcome),
                    None,
                    None,
                ),
                Err(error) => MessageStep::End(Err(SliceError::Store(error))),
            },
        ),
        (
            PromptParams::Reply(params),
            MessageStep::ReplyOutcome { created },
            MessageEvent::Settled { outcome, state },
        ) => Ok(
            match (outcome, state) {
                (Ok(outcome), Ok(state)) => end(
                    reply_result(created, Some((outcome, state))),
                    None,
                    Some(params.reply_to),
                ),
                (Err(error), _) => MessageStep::End(Err(SliceError::Store(error))),
                (Ok(_), Err(error)) => MessageStep::End(Err(SliceError::Store(error))),
            },
        ),
        (_, step, _) => Err(step),
    }
}

/// A message ends well only once it is recorded, and is told how its delivery went exactly
/// where no prompt is left to deliver it.
pub proof fn law_message_is_recorded_before_it_is_told(
    params: PromptParams,
    step: MessageStep,
    event: MessageEvent,
    after: MessageStep,
)
    requires
        follows(params, step, event, after),
    ensures
        (after matches MessageStep::End(Ok(outcome)) && outcome.prepared is Some) ==> (event
            is Recorded || event is RecordedReply),
        (after matches MessageStep::End(Ok(outcome)) && outcome.prepared is None) ==> (event
            is Outcome || event is Settled),
        after is AskOutcome ==> step is RecordAsk,
        after is TellOutcome ==> step is RecordTell,
        after is SocketOutcome ==> step is RecordSocketTell,
        after is ReplyOutcome ==> step is RecordReply,
{
}

} // verus!
