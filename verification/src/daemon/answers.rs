//! What answers a request: the documents of messages, the requests to Herdr, and the classes
//! of errors.

use vstd::prelude::*;

use super::errors::{answer_view, class_of, code_of, error_view, SliceError, StoreError};
use super::prompt::{
    ask_view, delivered_view, filled_view, reply_view, socket_tell_view, tell_view, CreatedMessage,
    CreatedReply,
};
use super::results::id_view;
use super::retire::{close_sent, RetireCloseWork};
use super::send::{prompt_sent, rename_sent};
use crate::domain::{DeliveryOutcome, IncarnationId, LogicalAgentId, MessageId, ObligationState};
use crate::herdr::{document_view, HerdrError};
use crate::json::{
    int_view, lemma_empty_get, lemma_ending_with_get, lemma_ending_with_is_object, lemma_with_get,
    lemma_with_is_object, text_view, JsonView,
};
use crate::text::occurs;

verus! {

/// What is told of an ask: each part under its own name, the interval of its reminders or that
/// there are none, and how it was delivered where that is known.
#[verifier::spinoff_prover]
#[verifier::rlimit(60)]
pub proof fn law_ask_is_told(
    created: CreatedMessage,
    recipient: LogicalAgentId,
    incarnation: IncarnationId,
    waiting: LogicalAgentId,
    interval: Option<i64>,
    outcome: Option<DeliveryOutcome>,
)
    ensures
        ({
            let told = ask_view(created, recipient, incarnation, waiting, interval, outcome);
            &&& told.get("message_id"@) == Some(id_view(created.message_id.value))
            &&& told.get("operation_id"@) == Some(id_view(created.operation_id.value))
            &&& told.get("recipient"@) == Some(id_view(recipient.value))
            &&& told.get("recipient_incarnation"@) == Some(id_view(incarnation.value))
            &&& told.get("waiting_agent_id"@) == Some(id_view(waiting.value))
            &&& interval matches Some(interval) ==> told.get("remind_after_ms"@) == Some(
                int_view(interval as int),
            ) && told.get("reminders"@) is None
            &&& interval is None ==> told.get("remind_after_ms"@) is None && told.get("reminders"@)
                == Some(text_view("disabled"@))
            &&& outcome matches Some(outcome) ==> told.get("delivery_outcome"@) == Some(
                text_view(outcome.name()),
            )
            &&& outcome is None ==> told.get("delivery_outcome"@) is None
        }),
{
    broadcast use {lemma_with_get, lemma_with_is_object, lemma_empty_get};

    reveal_strlit("message_id");
    reveal_strlit("operation_id");
    reveal_strlit("recipient");
    reveal_strlit("recipient_incarnation");
    reveal_strlit("waiting_agent_id");
    reveal_strlit("remind_after_ms");
    reveal_strlit("reminders");
    reveal_strlit("delivery_outcome");
    assert("message_id"@.len() == 10);
    assert("operation_id"@.len() == 12);
    assert("recipient"@.len() == 9);
    assert("recipient_incarnation"@.len() == 21);
    assert("waiting_agent_id"@.len() == 16);
    assert("remind_after_ms"@.len() == 15);
    assert("reminders"@.len() == 9);
    assert("delivery_outcome"@.len() == 16);
    assert("recipient"@[2] == 'c');
    assert("reminders"@[2] == 'm');
    assert("waiting_agent_id"@[0] == 'w');
    assert("delivery_outcome"@[0] == 'd');
}

/// What is told of a tell to a pane: each part under its own name, how it was delivered where
/// that is known, and when it comes due where it waits.
#[verifier::spinoff_prover]
#[verifier::rlimit(60)]
pub proof fn law_tell_is_told(
    created: CreatedMessage,
    recipient: LogicalAgentId,
    incarnation: IncarnationId,
    due_at_ms: Option<i64>,
    outcome: Option<DeliveryOutcome>,
)
    ensures
        ({
            let told = tell_view(created, recipient, incarnation, due_at_ms, outcome);
            &&& told.get("message_id"@) == Some(id_view(created.message_id.value))
            &&& told.get("operation_id"@) == Some(id_view(created.operation_id.value))
            &&& told.get("recipient"@) == Some(id_view(recipient.value))
            &&& told.get("recipient_incarnation"@) == Some(id_view(incarnation.value))
            &&& told.get("delivery_transport"@) == Some(text_view("herdr_prompt"@))
            &&& outcome matches Some(outcome) ==> told.get("delivery_outcome"@) == Some(
                text_view(outcome.name()),
            )
            &&& outcome is None ==> told.get("delivery_outcome"@) is None
            &&& due_at_ms matches Some(due) ==> told.get("due_at_ms"@) == Some(int_view(due as int))
            &&& due_at_ms is None ==> told.get("due_at_ms"@) is None
        }),
{
    broadcast use {lemma_with_get, lemma_with_is_object, lemma_empty_get};

    reveal_strlit("message_id");
    reveal_strlit("operation_id");
    reveal_strlit("recipient");
    reveal_strlit("recipient_incarnation");
    reveal_strlit("delivery_transport");
    reveal_strlit("delivery_outcome");
    reveal_strlit("due_at_ms");
    assert("message_id"@.len() == 10);
    assert("operation_id"@.len() == 12);
    assert("recipient"@.len() == 9);
    assert("recipient_incarnation"@.len() == 21);
    assert("delivery_transport"@.len() == 18);
    assert("delivery_outcome"@.len() == 16);
    assert("due_at_ms"@.len() == 9);
    assert("recipient"@[0] == 'r');
    assert("due_at_ms"@[0] == 'd');
}

/// What is told of a tell to a socket: it has neither an operation nor an incarnation.
#[verifier::spinoff_prover]
#[verifier::rlimit(60)]
pub proof fn law_socket_tell_is_told(
    message_id: MessageId,
    recipient: LogicalAgentId,
    due_at_ms: Option<i64>,
    outcome: DeliveryOutcome,
)
    ensures
        ({
            let told = socket_tell_view(message_id, recipient, due_at_ms, outcome);
            &&& told.get("message_id"@) == Some(id_view(message_id.value))
            &&& told.get("operation_id"@) == Some(JsonView::Null)
            &&& told.get("recipient"@) == Some(id_view(recipient.value))
            &&& told.get("recipient_incarnation"@) == Some(JsonView::Null)
            &&& told.get("delivery_transport"@) == Some(text_view("socket_inbox"@))
            &&& told.get("delivery_outcome"@) == Some(text_view(outcome.name()))
            &&& due_at_ms matches Some(due) ==> told.get("due_at_ms"@) == Some(int_view(due as int))
            &&& due_at_ms is None ==> told.get("due_at_ms"@) is None
        }),
{
    broadcast use {lemma_with_get, lemma_with_is_object, lemma_empty_get};

    reveal_strlit("message_id");
    reveal_strlit("operation_id");
    reveal_strlit("recipient");
    reveal_strlit("recipient_incarnation");
    reveal_strlit("delivery_transport");
    reveal_strlit("delivery_outcome");
    reveal_strlit("due_at_ms");
    assert("message_id"@.len() == 10);
    assert("operation_id"@.len() == 12);
    assert("recipient"@.len() == 9);
    assert("recipient_incarnation"@.len() == 21);
    assert("delivery_transport"@.len() == 18);
    assert("delivery_outcome"@.len() == 16);
    assert("due_at_ms"@.len() == 9);
    assert("recipient"@[0] == 'r');
    assert("due_at_ms"@[0] == 'd');
}

/// What is told of a reply: each part under its own name, and once it is settled how it was
/// delivered and what became of the obligation.
#[verifier::spinoff_prover]
#[verifier::rlimit(60)]
pub proof fn law_reply_is_told(
    created: CreatedReply,
    settled: Option<(DeliveryOutcome, ObligationState)>,
)
    ensures
        ({
            let told = reply_view(created, settled);
            &&& told.get("message_id"@) == Some(id_view(created.message_id.value))
            &&& created.operation_id matches Some(id) ==> told.get("operation_id"@) == Some(
                id_view(id.value),
            )
            &&& created.operation_id is None ==> told.get("operation_id"@) == Some(JsonView::Null)
            &&& created.recipient_incarnation matches Some(id) ==> told.get("recipient_incarnation"@)
                == Some(id_view(id.value))
            &&& created.recipient_incarnation is None ==> told.get("recipient_incarnation"@) == Some(
                JsonView::Null,
            )
            &&& told.get("disposition"@) == Some(text_view(created.disposition.name()))
            &&& settled matches Some((outcome, state)) ==> told.get("delivery_outcome"@) == Some(
                text_view(outcome.name()),
            ) && told.get("obligation_state"@) == Some(text_view(state.name()))
            &&& settled is None ==> told.get("delivery_outcome"@) is None && told.get(
                "obligation_state"@,
            ) is None
        }),
{
    broadcast use {lemma_with_get, lemma_with_is_object, lemma_empty_get};

    reveal_strlit("message_id");
    reveal_strlit("operation_id");
    reveal_strlit("recipient_incarnation");
    reveal_strlit("disposition");
    reveal_strlit("delivery_outcome");
    reveal_strlit("obligation_state");
    assert("message_id"@.len() == 10);
    assert("operation_id"@.len() == 12);
    assert("recipient_incarnation"@.len() == 21);
    assert("disposition"@.len() == 11);
    assert("delivery_outcome"@.len() == 16);
    assert("obligation_state"@.len() == 16);
    assert("delivery_outcome"@[0] == 'd');
    assert("obligation_state"@[0] == 'o');
}

/// Once a delivery is over its outcome and the state of the obligation are told where they are
/// known; what was told before stays.
#[verifier::spinoff_prover]
#[verifier::rlimit(60)]
pub proof fn law_delivery_is_filled_in(
    result: JsonView,
    outcome: DeliveryOutcome,
    state: ObligationState,
    other: Seq<char>,
)
    requires
        result is Object,
    ensures
        ({
            let told = filled_view(result, true, Some(outcome), Some(state));
            &&& told.get("delivery_outcome"@) == Some(text_view(outcome.name()))
            &&& told.get("obligation_state"@) == Some(text_view(state.name()))
            &&& other != "delivery_outcome"@ && other != "obligation_state"@ ==> told.get(other)
                == result.get(other)
            &&& filled_view(result, true, Some(outcome), None).get("obligation_state"@) == result.get(
                "obligation_state"@,
            )
            &&& filled_view(result, true, None, Some(state)).get("delivery_outcome"@) == result.get(
                "delivery_outcome"@,
            )
            &&& filled_view(result, false, Some(outcome), Some(state)) == result
        }),
{
    broadcast use {lemma_with_get, lemma_with_is_object, lemma_empty_get};

    reveal_strlit("delivery_outcome");
    reveal_strlit("obligation_state");
    assert("delivery_outcome"@.len() == 16);
    assert("obligation_state"@.len() == 16);
    assert("delivery_outcome"@[0] == 'd');
    assert("obligation_state"@[0] == 'o');
}

/// A delivery that failed is answered with its failure, and one that did not with the result,
/// whatever is known of it.
pub proof fn law_failed_delivery_is_an_error(
    result: JsonView,
    delivery: Result<(), SliceError>,
    outcome: Option<DeliveryOutcome>,
    obligation: Option<ObligationState>,
)
    ensures
        delivery matches Err(error) ==> delivered_view(result, delivery, outcome, obligation)
            == Err::<JsonView, SliceError>(error),
        delivery is Ok ==> delivered_view(result, delivery, outcome, obligation) is Ok,
{
}

/// A prompt names its pane and what is written there.
#[verifier::spinoff_prover]
pub proof fn law_prompt_is_sent_to_its_pane(
    request_id: Seq<char>,
    pane: Seq<char>,
    text: Seq<char>,
    pause: Seq<char>,
)
    ensures
        ({
            let sent = prompt_sent(request_id, pane, text, pause);
            &&& sent.request_id == request_id
            &&& sent.method == "agent.prompt"@
            &&& sent.params.get("target"@) == Some(text_view(pane))
            &&& sent.params.get("text"@) == Some(text_view(text))
            &&& sent.pause == pause
        }),
{
    broadcast use {lemma_with_get, lemma_with_is_object, lemma_empty_get};

    reveal_strlit("target");
    reveal_strlit("text");
    assert("target"@.len() == 6);
    assert("text"@.len() == 4);
}

/// A rename names its pane and the new name.
#[verifier::spinoff_prover]
pub proof fn law_rename_is_sent_to_its_pane(
    request_id: Seq<char>,
    pane: Seq<char>,
    name: Seq<char>,
    pause: Seq<char>,
)
    ensures
        ({
            let sent = rename_sent(request_id, pane, name, pause);
            &&& sent.request_id == request_id
            &&& sent.method == "agent.rename"@
            &&& sent.params.get("target"@) == Some(text_view(pane))
            &&& sent.params.get("name"@) == Some(text_view(name))
            &&& sent.pause == pause
        }),
{
    broadcast use {lemma_with_get, lemma_with_is_object, lemma_empty_get};

    reveal_strlit("target");
    reveal_strlit("name");
    assert("target"@.len() == 6);
    assert("name"@.len() == 4);
}

/// A close names the pane of the retirement, under the request of the retirement.
#[verifier::spinoff_prover]
pub proof fn law_close_is_sent_to_its_pane(work: RetireCloseWork)
    ensures
        close_sent(work).request_id == work.request@,
        close_sent(work).method == "pane.close"@,
        close_sent(work).params.get("pane_id"@) == Some(text_view(work.pane@)),
{
    broadcast use {lemma_with_get, lemma_with_is_object, lemma_empty_get};

}

/// A request to Herdr holds its identifier, its method and its params.
#[verifier::spinoff_prover]
pub proof fn law_herdr_request_is_told_whole(id: Seq<char>, method: Seq<char>, params: JsonView)
    ensures
        document_view(id, method, params).get("id"@) == Some(text_view(id)),
        document_view(id, method, params).get("method"@) == Some(text_view(method)),
        document_view(id, method, params).get("params"@) == Some(params),
{
    broadcast use {lemma_with_get, lemma_with_is_object, lemma_empty_get};

    reveal_strlit("id");
    reveal_strlit("method");
    reveal_strlit("params");
    assert("id"@.len() == 2);
    assert("method"@.len() == 6);
    assert("params"@.len() == 6);
    assert("method"@[0] == 'm');
    assert("params"@[0] == 'p');
}

/// A conflict is what another holds or has not proved; no other error is one.
#[verifier::spinoff_prover]
#[verifier::rlimit(60)]
pub proof fn law_classes_tell_errors_apart(error: SliceError)
    ensures
        class_of(error) == "conflict"@ <==> (error is PaneOccupied || error is LiveConflict
            || error is ClearUnproven || error matches SliceError::Store(StoreError::Conflict(_))),
        class_of(error) == "invalid_request"@ <==> error matches SliceError::Store(
            StoreError::InvalidRecord(_),
        ),
        class_of(error) == "incompatible_runtime"@ <==> (error is UnsupportedBackend
            || error matches SliceError::Herdr(HerdrError::Incompatible { .. })),
        class_of(error) == "unavailable"@ <==> error matches SliceError::Herdr(
            HerdrError::Unavailable(_),
        ),
        class_of(error) == "timeout"@ <==> (error is ClearRotationTimeout
            || error matches SliceError::Herdr(HerdrError::ReadinessTimeout(_))),
        class_of(error) == "unknown_outcome"@ <==> error is UnknownOutcome,
        class_of(error) == "target_unavailable"@ <==> (error matches SliceError::Herdr(
            HerdrError::Rejected { code, .. },
        ) && occurs(code@, "not_found"@)),
        class_of(error) == "rejected"@ <==> (error matches SliceError::Herdr(
            HerdrError::Rejected { code, .. },
        ) && !occurs(code@, "not_found"@)),
        class_of(error) == "internal"@ <==> (error matches SliceError::Store(
            StoreError::UnsafeLocation(_),
        ) || error matches SliceError::Store(StoreError::Sql(_)) || error matches SliceError::Herdr(
            HerdrError::Malformed(_),
        ) || error matches SliceError::Herdr(HerdrError::Unexpected(_))),
{
    reveal_strlit("conflict");
    reveal_strlit("invalid_request");
    reveal_strlit("incompatible_runtime");
    reveal_strlit("unavailable");
    reveal_strlit("timeout");
    reveal_strlit("unknown_outcome");
    reveal_strlit("target_unavailable");
    reveal_strlit("rejected");
    reveal_strlit("internal");
    assert("conflict"@.len() == 8);
    assert("invalid_request"@.len() == 15);
    assert("incompatible_runtime"@.len() == 20);
    assert("unavailable"@.len() == 11);
    assert("timeout"@.len() == 7);
    assert("unknown_outcome"@.len() == 15);
    assert("target_unavailable"@.len() == 18);
    assert("rejected"@.len() == 8);
    assert("internal"@.len() == 8);
    assert("conflict"@[0] == 'c');
    assert("rejected"@[0] == 'r');
    assert("internal"@[0] == 'i');
    assert("invalid_request"@[0] == 'i');
    assert("unknown_outcome"@[0] == 'u');
}

/// The code of a rejection is the one that Herdr gave, also where the outcome is unknown; what
/// only Kelpie decides has a code of its own; nothing else has one.
#[verifier::spinoff_prover]
pub proof fn law_codes_are_evidence(error: SliceError)
    ensures
        error matches SliceError::Herdr(HerdrError::Rejected { code, .. }) ==> code_of(error)
            == Some(code@),
        error matches SliceError::UnknownOutcome { source, .. } ==> code_of(error) == code_of(
            SliceError::Herdr(source),
        ),
        error is PaneOccupied ==> code_of(error) == Some("pane_occupied"@),
        error is UnsupportedBackend ==> code_of(error) == Some("renew_unsupported_backend"@),
        error is ClearRotationTimeout ==> code_of(error) == Some("clear_rotation_timeout"@),
        error is ClearUnproven ==> code_of(error) == Some("clear_unproven"@),
        error is Store || error is LiveConflict ==> code_of(error) is None,
        error matches SliceError::Herdr(source) ==> source !is Rejected ==> code_of(error) is None,
{
}

/// What is told of an error: its class, what explains it, and a code only where there is one.
#[verifier::spinoff_prover]
#[verifier::rlimit(60)]
pub proof fn law_error_is_told(
    class: Seq<char>,
    message: Seq<char>,
    code: Option<Seq<char>>,
)
    ensures
        ({
            let told = error_view(class, message, code);
            &&& told.get("class"@) == Some(text_view(class))
            &&& told.get("message"@) == Some(text_view(message))
            &&& code matches Some(code) ==> told.get("code"@) == Some(text_view(code))
            &&& code is None ==> told.get("code"@) is None
        }),
{
    broadcast use {
        lemma_ending_with_get, lemma_ending_with_is_object, lemma_empty_get,
    };

    reveal_strlit("class");
    reveal_strlit("message");
    reveal_strlit("code");
    assert("class"@.len() == 5);
    assert("message"@.len() == 7);
    assert("code"@.len() == 4);
}

/// An answer holds the result itself, or the class, the explanation and the code of the error.
#[verifier::spinoff_prover]
#[verifier::rlimit(60)]
pub proof fn law_answer_holds_its_result(
    id: Seq<char>,
    result: Result<JsonView, SliceError>,
)
    ensures
        ({
            let told = answer_view(id, result);
            &&& told.get("id"@) == Some(text_view(id))
            &&& result matches Ok(value) ==> told.get("result"@) == Some(value)
            &&& result matches Err(error) ==> told.get("error"@) == Some(
                error_view(class_of(error), error.text(), code_of(error)),
            )
        }),
{
    broadcast use {
        lemma_ending_with_get, lemma_ending_with_is_object, lemma_empty_get,
    };

    reveal_strlit("id");
    reveal_strlit("result");
    reveal_strlit("error");
    assert("id"@.len() == 2);
    assert("result"@.len() == 6);
    assert("error"@.len() == 5);
}

/// What explains an error is the text that it carries.
#[verifier::spinoff_prover]
pub proof fn law_error_is_explained_by_its_text(error: SliceError, store: StoreError)
    ensures
        error matches SliceError::PaneOccupied { message } ==> error.text() == message@,
        error matches SliceError::LiveConflict(message) ==> error.text() == message@,
        error matches SliceError::UnsupportedBackend { message } ==> error.text() == message@,
        error matches SliceError::ClearRotationTimeout { message } ==> error.text() == message@,
        error matches SliceError::ClearUnproven { message } ==> error.text() == message@,
        error matches SliceError::UnknownOutcome { message, .. } ==> error.text() == message@,
        error matches SliceError::Store(source) ==> error.text() == source.text(),
        error matches SliceError::Herdr(source) ==> error.text() == source.text(),
        store matches StoreError::Conflict(message) ==> store.text() == message@,
        store matches StoreError::InvalidRecord(message) ==> store.text() == message@,
        store matches StoreError::UnsafeLocation(message) ==> store.text() == message@,
        store matches StoreError::Sql(message) ==> store.text() == message@,
{
}

} // verus!
