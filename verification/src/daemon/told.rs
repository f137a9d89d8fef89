//! What an answer tells: each part of a record under its own name.

use vstd::prelude::*;

use super::errors::optional_text;
use super::results::{
    adopt_result_view, alias_identity_view, ask_info_view, attribution_response_view,
    attribution_result_view, cancel_result_view, cancelled_away_view, claimant_info_view,
    claimants_view, clear_result_view, delivery_params_view, delivery_view, empty_list, id_view,
    identity_result_view, inbox_acked_view, inbox_claimed_view, inbox_event_view,
    initial_message_view, latest_view, launch_result_view, live_party_view, message_id_view,
    message_ids_view, name_info_view, notice_created_view, obligation_view, observation_view,
    observations_view, operator_notice_view, operator_notices_view, optional_id_view,
    optional_int_view, owing_notice_view, owing_notices_view, party_view, pending_view,
    recover_result_view, renew_cancelled_view, renewed_view, replies_view, reply_info_view,
    requested_view, response_name, retire_result_view, runtime_start_view, snoozed_view,
    string_view, strings_view, unnamed_identity_view, unresolved_ask_view, unresolved_asks_view,
    waiter_registered_view, waiter_retire_result_view, who_incarnation_view, who_waiter_view,
    AskInfo, AttributionEvidence, CancelOutcome, CancelledAway, Claimant, ClearResult,
    DeclaredStart, DeliveryInfo, InboxDelivery, LaunchResult, NameInfo, OperatorNotice,
    PendingObligation, ReadyIdentity, RecordedObservation, RecoveryReport, ReplyInfo, UnresolvedAsk,
    WaiterRetireOutcome, WaiterRetireOwingNotice,
};
use crate::domain::{
    law_uuid_text_is_injective, uuid_text, DeliveryOutcome, IncarnationId, IncarnationState,
    LogicalAgentId, MessageId, OperationId, OperatorNoticeId, RenewId, RenewTimeout,
};
use crate::json::{
    int_view, lemma_empty_get, lemma_with_get, lemma_with_is_object, optional_text_view, text_view,
    JsonView,
};

verus! {

/// Who an agent is: each part is told under its own name.
#[verifier::spinoff_prover]
#[verifier::rlimit(30)]
pub proof fn law_identity_result_is_told(identity: ReadyIdentity)
    ensures
        ({
            let told = identity_result_view(identity);
            &&& told.get("logical_agent_id"@) == Some(
                id_view(identity.logical_agent_id.value),
            )
            &&& told.get("incarnation_id"@) == Some(
                id_view(identity.incarnation_id.value),
            )
            &&& told.get("public_name"@) == Some(
                text_view(identity.public_name@),
            )
        }),
{
    broadcast use {lemma_with_get, lemma_with_is_object, lemma_empty_get};

    reveal_strlit("logical_agent_id");
    reveal_strlit("incarnation_id");
    reveal_strlit("public_name");
    assert("logical_agent_id"@.len() == 16);
    assert("incarnation_id"@.len() == 14);
    assert("public_name"@.len() == 11);
}

/// Who a freshly adopted agent is, where its name cannot be read back: each part is told
/// under its own name.
#[verifier::spinoff_prover]
#[verifier::rlimit(30)]
pub proof fn law_unnamed_identity_is_told(created: DeclaredStart)
    ensures
        ({
            let told = unnamed_identity_view(created);
            &&& told.get("logical_agent_id"@) == Some(
                id_view(created.logical_agent_id.value),
            )
            &&& told.get("incarnation_id"@) == Some(
                id_view(created.incarnation_id.value),
            )
        }),
{
    broadcast use {lemma_with_get, lemma_with_is_object, lemma_empty_get};

    reveal_strlit("logical_agent_id");
    reveal_strlit("incarnation_id");
    assert("logical_agent_id"@.len() == 16);
    assert("incarnation_id"@.len() == 14);
}

/// Who holds an alias: each part is told under its own name.
#[verifier::spinoff_prover]
#[verifier::rlimit(30)]
pub proof fn law_alias_identity_is_told(agent: LogicalAgentId, incarnation: IncarnationId, alias: String)
    ensures
        ({
            let told = alias_identity_view(agent, incarnation, alias);
            &&& told.get("logical_agent_id"@) == Some(
                id_view(agent.value),
            )
            &&& told.get("incarnation_id"@) == Some(
                id_view(incarnation.value),
            )
            &&& told.get("public_name"@) == Some(
                text_view(alias@),
            )
        }),
{
    broadcast use {lemma_with_get, lemma_with_is_object, lemma_empty_get};

    reveal_strlit("logical_agent_id");
    reveal_strlit("incarnation_id");
    reveal_strlit("public_name");
    assert("logical_agent_id"@.len() == 16);
    assert("incarnation_id"@.len() == 14);
    assert("public_name"@.len() == 11);
}

/// How an adoption ended: each part is told under its own name.
#[verifier::spinoff_prover]
#[verifier::rlimit(30)]
pub proof fn law_adopt_result_is_told(created: DeclaredStart)
    ensures
        ({
            let told = adopt_result_view(created);
            &&& told.get("logical_agent_id"@) == Some(
                id_view(created.logical_agent_id.value),
            )
            &&& told.get("incarnation_id"@) == Some(
                id_view(created.incarnation_id.value),
            )
            &&& told.get("operation_id"@) == Some(
                id_view(created.operation_id.value),
            )
            &&& told.get("outcome"@) == Some(
                text_view("succeeded"@),
            )
        }),
{
    broadcast use {lemma_with_get, lemma_with_is_object, lemma_empty_get};

    reveal_strlit("logical_agent_id");
    reveal_strlit("incarnation_id");
    reveal_strlit("operation_id");
    reveal_strlit("outcome");
    assert("logical_agent_id"@.len() == 16);
    assert("incarnation_id"@.len() == 14);
    assert("operation_id"@.len() == 12);
    assert("outcome"@.len() == 7);
}

/// How the runtime of a launch ended: each part is told under its own name.
#[verifier::spinoff_prover]
#[verifier::rlimit(30)]
pub proof fn law_runtime_start_is_told(created: LaunchResult)
    ensures
        ({
            let told = runtime_start_view(created);
            &&& told.get("operation_id"@) == Some(
                id_view(created.start_operation_id.value),
            )
            &&& told.get("outcome"@) == Some(
                text_view(created.start_outcome.name()),
            )
        }),
{
    broadcast use {lemma_with_get, lemma_with_is_object, lemma_empty_get};

    reveal_strlit("operation_id");
    reveal_strlit("outcome");
    assert("operation_id"@.len() == 12);
    assert("outcome"@.len() == 7);
}

/// How the initial message of a launch ended: each part is told under its own name.
#[verifier::spinoff_prover]
#[verifier::rlimit(30)]
pub proof fn law_initial_message_is_told(created: LaunchResult)
    ensures
        ({
            let told = initial_message_view(created);
            &&& told.get("message_id"@) == Some(
                id_view(created.initial_message_id.value),
            )
            &&& told.get("operation_id"@) == Some(
                id_view(created.initial_message_operation_id.value),
            )
            &&& told.get("outcome"@) == Some(
                text_view(created.initial_message_outcome.name()),
            )
        }),
{
    broadcast use {lemma_with_get, lemma_with_is_object, lemma_empty_get};

    reveal_strlit("message_id");
    reveal_strlit("operation_id");
    reveal_strlit("outcome");
    assert("message_id"@.len() == 10);
    assert("operation_id"@.len() == 12);
    assert("outcome"@.len() == 7);
}

/// How a launch ended: each part is told under its own name.
#[verifier::spinoff_prover]
#[verifier::rlimit(30)]
pub proof fn law_launch_result_is_told(created: LaunchResult)
    ensures
        ({
            let told = launch_result_view(created);
            &&& told.get("logical_agent_id"@) == Some(
                id_view(created.logical_agent_id.value),
            )
            &&& told.get("incarnation_id"@) == Some(
                id_view(created.incarnation_id.value),
            )
            &&& told.get("runtime_start"@) == Some(
                runtime_start_view(created),
            )
            &&& told.get("initial_message"@) == Some(
                initial_message_view(created),
            )
        }),
{
    broadcast use {lemma_with_get, lemma_with_is_object, lemma_empty_get};

    reveal_strlit("logical_agent_id");
    reveal_strlit("incarnation_id");
    reveal_strlit("runtime_start");
    reveal_strlit("initial_message");
    assert("logical_agent_id"@.len() == 16);
    assert("incarnation_id"@.len() == 14);
    assert("runtime_start"@.len() == 13);
    assert("initial_message"@.len() == 15);
}

/// How a clear ended: each part is told under its own name.
#[verifier::spinoff_prover]
#[verifier::rlimit(30)]
pub proof fn law_clear_result_is_told(cleared: ClearResult)
    ensures
        ({
            let told = clear_result_view(cleared);
            &&& told.get("operation_id"@) == Some(
                id_view(cleared.operation_id.value),
            )
            &&& told.get("recipient"@) == Some(
                id_view(cleared.recipient.value),
            )
            &&& told.get("recipient_incarnation"@) == Some(
                id_view(cleared.recipient_incarnation.value),
            )
            &&& told.get("outcome"@) == Some(
                text_view(cleared.outcome.name()),
            )
        }),
{
    broadcast use {lemma_with_get, lemma_with_is_object, lemma_empty_get};

    reveal_strlit("operation_id");
    reveal_strlit("recipient");
    reveal_strlit("recipient_incarnation");
    reveal_strlit("outcome");
    assert("operation_id"@.len() == 12);
    assert("recipient"@.len() == 9);
    assert("recipient_incarnation"@.len() == 21);
    assert("outcome"@.len() == 7);
}

/// How a retirement ended: each part is told under its own name.
#[verifier::spinoff_prover]
#[verifier::rlimit(30)]
pub proof fn law_retire_result_is_told(operation_id: OperationId, released: bool)
    ensures
        ({
            let told = retire_result_view(operation_id, released);
            &&& told.get("operation_id"@) == Some(
                id_view(operation_id.value),
            )
            &&& told.get("pane_released"@) == Some(
                JsonView::Bool(released),
            )
        }),
{
    broadcast use {lemma_with_get, lemma_with_is_object, lemma_empty_get};

    reveal_strlit("operation_id");
    reveal_strlit("pane_released");
    assert("operation_id"@.len() == 12);
    assert("pane_released"@.len() == 13);
}

/// How a cancellation went: each part is told under its own name.
#[verifier::spinoff_prover]
#[verifier::rlimit(30)]
pub proof fn law_cancel_result_is_told(outcome: CancelOutcome)
    ensures
        ({
            let told = cancel_result_view(outcome);
            &&& told.get("state"@) == Some(
                text_view("cancelled"@),
            )
            &&& told.get("response"@) == Some(
                text_view(response_name(outcome.delivered)),
            )
            &&& told.get("message_id"@) == Some(
                optional_id_view(match outcome.message_id { Some(id) => Some(id.value), None => None }),
            )
            &&& told.get("owing_response"@) == Some(
                text_view(response_name(outcome.owing_delivered)),
            )
            &&& told.get("owing_message_id"@) == Some(
                optional_id_view(match outcome.owing_message_id { Some(id) => Some(id.value), None => None }),
            )
        }),
{
    broadcast use {lemma_with_get, lemma_with_is_object, lemma_empty_get};

    reveal_strlit("state");
    reveal_strlit("response");
    reveal_strlit("message_id");
    reveal_strlit("owing_response");
    reveal_strlit("owing_message_id");
    assert("state"@.len() == 5);
    assert("response"@.len() == 8);
    assert("message_id"@.len() == 10);
    assert("owing_response"@.len() == 14);
    assert("owing_message_id"@.len() == 16);
}

/// How the notice to one owing agent went: each part is told under its own name.
#[verifier::spinoff_prover]
#[verifier::rlimit(30)]
pub proof fn law_owing_notice_is_told(notice: WaiterRetireOwingNotice)
    ensures
        ({
            let told = owing_notice_view(notice);
            &&& told.get("ask_message_id"@) == Some(
                id_view(notice.ask_message_id.value),
            )
            &&& told.get("message_id"@) == Some(
                id_view(notice.message_id.value),
            )
            &&& told.get("owing_response"@) == Some(
                text_view(response_name(notice.delivered)),
            )
        }),
{
    broadcast use {lemma_with_get, lemma_with_is_object, lemma_empty_get};

    reveal_strlit("ask_message_id");
    reveal_strlit("message_id");
    reveal_strlit("owing_response");
    assert("ask_message_id"@.len() == 14);
    assert("message_id"@.len() == 10);
    assert("owing_response"@.len() == 14);
    assert("ask_message_id"@[0] == 'a');
    assert("owing_response"@[0] == 'o');
}

/// How the retirement of a socket waiter went: each part is told under its own name.
#[verifier::spinoff_prover]
#[verifier::rlimit(30)]
pub proof fn law_waiter_retire_result_is_told(agent: LogicalAgentId, ended: WaiterRetireOutcome)
    ensures
        ({
            let told = waiter_retire_result_view(agent, ended);
            &&& told.get("logical_agent_id"@) == Some(
                id_view(agent.value),
            )
            &&& told.get("targeting_ended"@) == Some(
                JsonView::Bool(true),
            )
            &&& told.get("cancelled_ask_ids"@) == Some(
                message_ids_view(ended.cancelled_ask_ids@),
            )
            &&& told.get("owing_notices"@) == Some(
                owing_notices_view(ended.owing_notices@),
            )
        }),
{
    broadcast use {lemma_with_get, lemma_with_is_object, lemma_empty_get};

    reveal_strlit("logical_agent_id");
    reveal_strlit("targeting_ended");
    reveal_strlit("cancelled_ask_ids");
    reveal_strlit("owing_notices");
    assert("logical_agent_id"@.len() == 16);
    assert("targeting_ended"@.len() == 15);
    assert("cancelled_ask_ids"@.len() == 17);
    assert("owing_notices"@.len() == 13);
}

/// What a recovery did: each part is told under its own name.
#[verifier::spinoff_prover]
#[verifier::rlimit(60)]
pub proof fn law_recover_result_is_told(report: RecoveryReport)
    ensures
        ({
            let told = recover_result_view(report);
            &&& told.get("starts_recovered"@) == Some(
                int_view(report.starts_recovered as int),
            )
            &&& told.get("outcomes_marked_unknown"@) == Some(
                int_view(report.outcomes_marked_unknown as int),
            )
            &&& told.get("untouched_pending_intents"@) == Some(
                int_view(report.untouched_pending_intents as int),
            )
            &&& told.get("unattempted_clears_failed"@) == Some(
                int_view(report.unattempted_clears_failed as int),
            )
            &&& told.get("retirements_completed"@) == Some(
                int_view(report.retirements_completed as int),
            )
            &&& told.get("retirements_still_live"@) == Some(
                int_view(report.retirements_still_live as int),
            )
            &&& told.get("incarnations_marked_lost"@) == Some(
                int_view(report.incarnations_marked_lost as int),
            )
            &&& told.get("native_sessions_refreshed"@) == Some(
                int_view(report.native_sessions_refreshed as int),
            )
        }),
{
    broadcast use {lemma_with_get, lemma_with_is_object, lemma_empty_get};

    reveal_strlit("starts_recovered");
    reveal_strlit("outcomes_marked_unknown");
    reveal_strlit("untouched_pending_intents");
    reveal_strlit("unattempted_clears_failed");
    reveal_strlit("retirements_completed");
    reveal_strlit("retirements_still_live");
    reveal_strlit("incarnations_marked_lost");
    reveal_strlit("native_sessions_refreshed");
    assert("starts_recovered"@.len() == 16);
    assert("outcomes_marked_unknown"@.len() == 23);
    assert("untouched_pending_intents"@.len() == 25);
    assert("unattempted_clears_failed"@.len() == 25);
    assert("retirements_completed"@.len() == 21);
    assert("retirements_still_live"@.len() == 22);
    assert("incarnations_marked_lost"@.len() == 24);
    assert("native_sessions_refreshed"@.len() == 25);
    assert("untouched_pending_intents"@[2] == 't');
    assert("unattempted_clears_failed"@[2] == 'a');
    assert("untouched_pending_intents"@[0] == 'u');
    assert("native_sessions_refreshed"@[0] == 'n');
    assert("unattempted_clears_failed"@[0] == 'u');
}

/// One recorded observation: each part is told under its own name.
#[verifier::spinoff_prover]
#[verifier::rlimit(30)]
pub proof fn law_observation_is_told(recorded: RecordedObservation)
    ensures
        ({
            let told = observation_view(recorded);
            &&& told.get("recorded_at_ms"@) == Some(
                int_view(recorded.recorded_at_ms as int),
            )
            &&& told.get("adapter"@) == Some(
                text_view(recorded.observed.adapter@),
            )
            &&& told.get("model"@) == Some(
                recorded.observed.model.document_view(),
            )
            &&& told.get("provider"@) == Some(
                recorded.observed.provider.document_view(),
            )
            &&& told.get("effort"@) == Some(
                recorded.observed.effort.document_view(),
            )
        }),
{
    broadcast use {lemma_with_get, lemma_with_is_object, lemma_empty_get};

    reveal_strlit("recorded_at_ms");
    reveal_strlit("adapter");
    reveal_strlit("model");
    reveal_strlit("provider");
    reveal_strlit("effort");
    assert("recorded_at_ms"@.len() == 14);
    assert("adapter"@.len() == 7);
    assert("model"@.len() == 5);
    assert("provider"@.len() == 8);
    assert("effort"@.len() == 6);
}

/// Requested and observed attribution of one incarnation, under separate keys and never
/// merged: each part is told under its own name.
#[verifier::spinoff_prover]
#[verifier::rlimit(60)]
pub proof fn law_attribution_result_is_told(evidence: AttributionEvidence)
    ensures
        ({
            let told = attribution_result_view(evidence);
            &&& told.get("logical_agent_id"@) == Some(
                id_view(evidence.logical_agent_id.value),
            )
            &&& told.get("incarnation_id"@) == Some(
                id_view(evidence.incarnation_id.value),
            )
            &&& told.get("public_name"@) == Some(
                text_view(evidence.public_name@),
            )
            &&& told.get("backend_kind"@) == Some(
                text_view(evidence.backend_kind@),
            )
            &&& told.get("incarnation_state"@) == Some(
                text_view(evidence.incarnation_state.name()),
            )
            &&& told.get("requested"@) == Some(
                requested_view(evidence),
            )
            &&& told.get("observed"@) == Some(
                latest_view(evidence.latest),
            )
            &&& told.get("observations"@) == Some(
                observations_view(evidence.observations@),
            )
        }),
{
    broadcast use {lemma_with_get, lemma_with_is_object, lemma_empty_get};

    reveal_strlit("logical_agent_id");
    reveal_strlit("incarnation_id");
    reveal_strlit("public_name");
    reveal_strlit("backend_kind");
    reveal_strlit("incarnation_state");
    reveal_strlit("requested");
    reveal_strlit("observed");
    reveal_strlit("observations");
    assert("logical_agent_id"@.len() == 16);
    assert("incarnation_id"@.len() == 14);
    assert("public_name"@.len() == 11);
    assert("backend_kind"@.len() == 12);
    assert("incarnation_state"@.len() == 17);
    assert("requested"@.len() == 9);
    assert("observed"@.len() == 8);
    assert("observations"@.len() == 12);
    assert("backend_kind"@[0] == 'b');
    assert("observations"@[0] == 'o');
}

/// Who a socket waiter is: it has no incarnation and no attribution: each part is told under
/// its own name.
#[verifier::spinoff_prover]
#[verifier::rlimit(60)]
pub proof fn law_who_waiter_is_told(agent: LogicalAgentId, public_name: String, addressable: bool)
    ensures
        ({
            let told = who_waiter_view(agent, public_name, addressable);
            &&& told.get("logical_agent_id"@) == Some(
                id_view(agent.value),
            )
            &&& told.get("incarnation_id"@) == Some(
                JsonView::Null,
            )
            &&& told.get("public_name"@) == Some(
                text_view(public_name@),
            )
            &&& told.get("delivery_transport"@) == Some(
                text_view("socket_inbox"@),
            )
            &&& told.get("addressable"@) == Some(
                JsonView::Bool(addressable),
            )
            &&& told.get("backend_kind"@) == Some(
                JsonView::Null,
            )
            &&& told.get("incarnation_state"@) == Some(
                JsonView::Null,
            )
            &&& told.get("requested"@) == Some(
                JsonView::Null,
            )
            &&& told.get("observed"@) == Some(
                JsonView::Null,
            )
            &&& told.get("observations"@) == Some(
                empty_list(),
            )
        }),
{
    broadcast use {lemma_with_get, lemma_with_is_object, lemma_empty_get};

    reveal_strlit("logical_agent_id");
    reveal_strlit("incarnation_id");
    reveal_strlit("public_name");
    reveal_strlit("delivery_transport");
    reveal_strlit("addressable");
    reveal_strlit("backend_kind");
    reveal_strlit("incarnation_state");
    reveal_strlit("requested");
    reveal_strlit("observed");
    reveal_strlit("observations");
    assert("logical_agent_id"@.len() == 16);
    assert("incarnation_id"@.len() == 14);
    assert("public_name"@.len() == 11);
    assert("delivery_transport"@.len() == 18);
    assert("addressable"@.len() == 11);
    assert("backend_kind"@.len() == 12);
    assert("incarnation_state"@.len() == 17);
    assert("requested"@.len() == 9);
    assert("observed"@.len() == 8);
    assert("observations"@.len() == 12);
    assert("public_name"@[0] == 'p');
    assert("addressable"@[0] == 'a');
    assert("backend_kind"@[0] == 'b');
    assert("observations"@[0] == 'o');
}

/// How one message was delivered: each part is told under its own name.
#[verifier::spinoff_prover]
#[verifier::rlimit(60)]
pub proof fn law_delivery_is_told(info: DeliveryInfo)
    ensures
        ({
            let told = delivery_view(info);
            &&& told.get("transport"@) == Some(
                text_view(info.transport.name()),
            )
            &&& told.get("outcome"@) == Some(
                text_view(info.outcome.name()),
            )
            &&& told.get("attempt_number"@) == Some(
                int_view(info.attempt_number as int),
            )
            &&& told.get("scheduled_at_ms"@) == Some(
                optional_int_view(info.scheduled_at_ms),
            )
            &&& told.get("attempted_at_ms"@) == Some(
                optional_int_view(info.attempted_at_ms),
            )
            &&& told.get("resolved_at_ms"@) == Some(
                optional_int_view(info.resolved_at_ms),
            )
        }),
{
    broadcast use {lemma_with_get, lemma_with_is_object, lemma_empty_get};

    reveal_strlit("transport");
    reveal_strlit("outcome");
    reveal_strlit("attempt_number");
    reveal_strlit("scheduled_at_ms");
    reveal_strlit("attempted_at_ms");
    reveal_strlit("resolved_at_ms");
    assert("transport"@.len() == 9);
    assert("outcome"@.len() == 7);
    assert("attempt_number"@.len() == 14);
    assert("scheduled_at_ms"@.len() == 15);
    assert("attempted_at_ms"@.len() == 15);
    assert("resolved_at_ms"@.len() == 14);
    assert("attempt_number"@[0] == 'a');
    assert("resolved_at_ms"@[0] == 'r');
    assert("scheduled_at_ms"@[0] == 's');
    assert("attempted_at_ms"@[0] == 'a');
}

/// One reply to an ask: each part is told under its own name.
#[verifier::spinoff_prover]
#[verifier::rlimit(30)]
pub proof fn law_reply_info_is_told(reply: ReplyInfo)
    ensures
        ({
            let told = reply_info_view(reply);
            &&& told.get("message_id"@) == Some(
                id_view(reply.message_id.value),
            )
            &&& told.get("body"@) == Some(
                text_view(reply.body@),
            )
            &&& told.get("disposition"@) == Some(
                text_view(reply.disposition.name()),
            )
            &&& told.get("created_at_ms"@) == Some(
                int_view(reply.created_at_ms as int),
            )
            &&& told.get("delivery"@) == Some(
                delivery_view(reply.delivery),
            )
        }),
{
    broadcast use {lemma_with_get, lemma_with_is_object, lemma_empty_get};

    reveal_strlit("message_id");
    reveal_strlit("body");
    reveal_strlit("disposition");
    reveal_strlit("created_at_ms");
    reveal_strlit("delivery");
    assert("message_id"@.len() == 10);
    assert("body"@.len() == 4);
    assert("disposition"@.len() == 11);
    assert("created_at_ms"@.len() == 13);
    assert("delivery"@.len() == 8);
}

/// One party of an ask: each part is told under its own name.
#[verifier::spinoff_prover]
#[verifier::rlimit(30)]
pub proof fn law_party_is_told(agent: LogicalAgentId, name: String)
    ensures
        ({
            let told = party_view(agent, name);
            &&& told.get("agent_id"@) == Some(
                id_view(agent.value),
            )
            &&& told.get("name"@) == Some(
                text_view(name@),
            )
        }),
{
    broadcast use {lemma_with_get, lemma_with_is_object, lemma_empty_get};

    reveal_strlit("agent_id");
    reveal_strlit("name");
    assert("agent_id"@.len() == 8);
    assert("name"@.len() == 4);
}

/// Everything recorded of one ask: each part is told under its own name.
#[verifier::spinoff_prover]
#[verifier::rlimit(60)]
pub proof fn law_ask_info_is_told(info: AskInfo)
    ensures
        ({
            let told = ask_info_view(info);
            &&& told.get("ask_message_id"@) == Some(
                id_view(info.ask_message_id.value),
            )
            &&& told.get("body"@) == Some(
                text_view(info.body@),
            )
            &&& told.get("asker"@) == Some(
                party_view(info.asker_agent_id, info.asker_name),
            )
            &&& told.get("responder"@) == Some(
                party_view(info.responder_agent_id, info.responder_name),
            )
            &&& told.get("state"@) == Some(
                text_view(info.state.name()),
            )
            &&& told.get("created_at_ms"@) == Some(
                int_view(info.created_at_ms as int),
            )
            &&& told.get("last_activity_at_ms"@) == Some(
                int_view(info.last_activity_at_ms as int),
            )
            &&& told.get("cancellation_reason"@) == Some(
                optional_text_view(optional_text(info.cancellation_reason)),
            )
            &&& told.get("delivery"@) == Some(
                delivery_view(info.delivery),
            )
            &&& told.get("replies"@) == Some(
                replies_view(info.replies@),
            )
        }),
{
    broadcast use {lemma_with_get, lemma_with_is_object, lemma_empty_get};

    reveal_strlit("ask_message_id");
    reveal_strlit("body");
    reveal_strlit("asker");
    reveal_strlit("responder");
    reveal_strlit("state");
    reveal_strlit("created_at_ms");
    reveal_strlit("last_activity_at_ms");
    reveal_strlit("cancellation_reason");
    reveal_strlit("delivery");
    reveal_strlit("replies");
    assert("ask_message_id"@.len() == 14);
    assert("body"@.len() == 4);
    assert("asker"@.len() == 5);
    assert("responder"@.len() == 9);
    assert("state"@.len() == 5);
    assert("created_at_ms"@.len() == 13);
    assert("last_activity_at_ms"@.len() == 19);
    assert("cancellation_reason"@.len() == 19);
    assert("delivery"@.len() == 8);
    assert("replies"@.len() == 7);
    assert("asker"@[0] == 'a');
    assert("state"@[0] == 's');
    assert("last_activity_at_ms"@[0] == 'l');
    assert("cancellation_reason"@[0] == 'c');
}

/// One agent that holds a public name: each part is told under its own name.
#[verifier::spinoff_prover]
#[verifier::rlimit(60)]
pub proof fn law_claimant_info_is_told(claimant: Claimant)
    ensures
        ({
            let told = claimant_info_view(claimant);
            &&& told.get("logical_agent_id"@) == Some(
                id_view(claimant.logical_agent_id.value),
            )
            &&& told.get("created_at_ms"@) == Some(
                int_view(claimant.created_at_ms as int),
            )
            &&& told.get("delivery_transport"@) == Some(
                text_view(claimant.delivery_transport.name()),
            )
            &&& told.get("live"@) == Some(
                JsonView::Bool(claimant.has_ready_incarnation),
            )
            &&& told.get("addressable"@) == Some(
                JsonView::Bool(claimant.is_addressable),
            )
            &&& told.get("unresolved_count"@) == Some(
                int_view(claimant.unresolved_count as int),
            )
        }),
{
    broadcast use {lemma_with_get, lemma_with_is_object, lemma_empty_get};

    reveal_strlit("logical_agent_id");
    reveal_strlit("created_at_ms");
    reveal_strlit("delivery_transport");
    reveal_strlit("live");
    reveal_strlit("addressable");
    reveal_strlit("unresolved_count");
    assert("logical_agent_id"@.len() == 16);
    assert("created_at_ms"@.len() == 13);
    assert("delivery_transport"@.len() == 18);
    assert("live"@.len() == 4);
    assert("addressable"@.len() == 11);
    assert("unresolved_count"@.len() == 16);
    assert("logical_agent_id"@[0] == 'l');
    assert("unresolved_count"@[0] == 'u');
}

/// One party of an ask, and whether it is live: each part is told under its own name.
#[verifier::spinoff_prover]
#[verifier::rlimit(30)]
pub proof fn law_live_party_is_told(agent: LogicalAgentId, name: String, live: bool)
    ensures
        ({
            let told = live_party_view(agent, name, live);
            &&& told.get("agent_id"@) == Some(
                id_view(agent.value),
            )
            &&& told.get("name"@) == Some(
                text_view(name@),
            )
            &&& told.get("live"@) == Some(
                JsonView::Bool(live),
            )
        }),
{
    broadcast use {lemma_with_get, lemma_with_is_object, lemma_empty_get};

    reveal_strlit("agent_id");
    reveal_strlit("name");
    reveal_strlit("live");
    assert("agent_id"@.len() == 8);
    assert("name"@.len() == 4);
    assert("live"@.len() == 4);
    assert("name"@[0] == 'n');
    assert("live"@[0] == 'l');
}

/// One unresolved ask: each part is told under its own name.
#[verifier::spinoff_prover]
#[verifier::rlimit(60)]
pub proof fn law_unresolved_ask_is_told(ask: UnresolvedAsk)
    ensures
        ({
            let told = unresolved_ask_view(ask);
            &&& told.get("ask_message_id"@) == Some(
                id_view(ask.ask_message_id.value),
            )
            &&& told.get("state"@) == Some(
                text_view(ask.state.name()),
            )
            &&& told.get("created_at_ms"@) == Some(
                int_view(ask.created_at_ms as int),
            )
            &&& told.get("last_activity_at_ms"@) == Some(
                int_view(ask.last_activity_at_ms as int),
            )
            &&& told.get("asker"@) == Some(
                live_party_view(ask.asker_agent_id, ask.asker_name, ask.asker_live),
            )
            &&& told.get("responder"@) == Some(
                live_party_view(ask.responder_agent_id, ask.responder_name, ask.responder_live),
            )
        }),
{
    broadcast use {lemma_with_get, lemma_with_is_object, lemma_empty_get};

    reveal_strlit("ask_message_id");
    reveal_strlit("state");
    reveal_strlit("created_at_ms");
    reveal_strlit("last_activity_at_ms");
    reveal_strlit("asker");
    reveal_strlit("responder");
    assert("ask_message_id"@.len() == 14);
    assert("state"@.len() == 5);
    assert("created_at_ms"@.len() == 13);
    assert("last_activity_at_ms"@.len() == 19);
    assert("asker"@.len() == 5);
    assert("responder"@.len() == 9);
    assert("state"@[0] == 's');
    assert("asker"@[0] == 'a');
}

/// Everything recorded of one public name: each part is told under its own name.
#[verifier::spinoff_prover]
#[verifier::rlimit(30)]
pub proof fn law_name_info_is_told(info: NameInfo)
    ensures
        ({
            let told = name_info_view(info);
            &&& told.get("name"@) == Some(
                text_view(info.public_name@),
            )
            &&& told.get("claimants"@) == Some(
                claimants_view(info.claimants@),
            )
            &&& told.get("unresolved"@) == Some(
                unresolved_asks_view(info.unresolved@),
            )
        }),
{
    broadcast use {lemma_with_get, lemma_with_is_object, lemma_empty_get};

    reveal_strlit("name");
    reveal_strlit("claimants");
    reveal_strlit("unresolved");
    assert("name"@.len() == 4);
    assert("claimants"@.len() == 9);
    assert("unresolved"@.len() == 10);
}

/// One answer that an agent owes: each part is told under its own name.
#[verifier::spinoff_prover]
#[verifier::rlimit(30)]
pub proof fn law_obligation_is_told(owed: PendingObligation)
    ensures
        ({
            let told = obligation_view(owed);
            &&& told.get("ask_message_id"@) == Some(
                id_view(owed.ask_message_id.value),
            )
            &&& told.get("waiting_agent_id"@) == Some(
                id_view(owed.waiting_agent_id.value),
            )
            &&& told.get("state"@) == Some(
                text_view(owed.state.name()),
            )
        }),
{
    broadcast use {lemma_with_get, lemma_with_is_object, lemma_empty_get};

    reveal_strlit("ask_message_id");
    reveal_strlit("waiting_agent_id");
    reveal_strlit("state");
    assert("ask_message_id"@.len() == 14);
    assert("waiting_agent_id"@.len() == 16);
    assert("state"@.len() == 5);
}

/// One ask that was cancelled while an agent was away, as one of its two audiences: each part
/// is told under its own name.
#[verifier::spinoff_prover]
#[verifier::rlimit(60)]
pub proof fn law_cancelled_away_is_told(entry: CancelledAway, audience: Seq<char>)
    ensures
        ({
            let told = cancelled_away_view(entry, audience);
            &&& told.get("ask_message_id"@) == Some(
                id_view(entry.ask_message_id.value),
            )
            &&& told.get("state"@) == Some(
                text_view("cancelled"@),
            )
            &&& told.get("audience"@) == Some(
                text_view(audience),
            )
            &&& told.get("cancellation_reason"@) == Some(
                text_view(entry.reason@),
            )
            &&& told.get("cancellation_requester_agent_id"@) == Some(
                id_view(entry.cancelled_by.value),
            )
            &&& told.get("cancelled_at_ms"@) == Some(
                int_view(entry.cancelled_at_ms as int),
            )
        }),
{
    broadcast use {lemma_with_get, lemma_with_is_object, lemma_empty_get};

    reveal_strlit("ask_message_id");
    reveal_strlit("state");
    reveal_strlit("audience");
    reveal_strlit("cancellation_reason");
    reveal_strlit("cancellation_requester_agent_id");
    reveal_strlit("cancelled_at_ms");
    assert("ask_message_id"@.len() == 14);
    assert("state"@.len() == 5);
    assert("audience"@.len() == 8);
    assert("cancellation_reason"@.len() == 19);
    assert("cancellation_requester_agent_id"@.len() == 31);
    assert("cancelled_at_ms"@.len() == 15);
}

/// One notice to the operator: each part is told under its own name.
#[verifier::spinoff_prover]
#[verifier::rlimit(30)]
pub proof fn law_operator_notice_is_told(notice: OperatorNotice)
    ensures
        ({
            let told = operator_notice_view(notice);
            &&& told.get("notice_id"@) == Some(
                id_view(notice.id.value),
            )
            &&& told.get("body"@) == Some(
                text_view(notice.body@),
            )
            &&& told.get("created_at_ms"@) == Some(
                int_view(notice.created_at_ms as int),
            )
            &&& told.get("acknowledged"@) == Some(
                JsonView::Bool(notice.acknowledged),
            )
        }),
{
    broadcast use {lemma_with_get, lemma_with_is_object, lemma_empty_get};

    reveal_strlit("notice_id");
    reveal_strlit("body");
    reveal_strlit("created_at_ms");
    reveal_strlit("acknowledged");
    assert("notice_id"@.len() == 9);
    assert("body"@.len() == 4);
    assert("created_at_ms"@.len() == 13);
    assert("acknowledged"@.len() == 12);
}

/// A notice was recorded: each part is told under its own name.
#[verifier::spinoff_prover]
#[verifier::rlimit(30)]
pub proof fn law_notice_created_is_told(id: OperatorNoticeId)
    ensures
        ({
            let told = notice_created_view(id);
            &&& told.get("notice_id"@) == Some(
                id_view(id.value),
            )
        }),
{
    broadcast use {lemma_with_get, lemma_with_is_object, lemma_empty_get};

    reveal_strlit("notice_id");
    assert("notice_id"@.len() == 9);
}

/// A renew was cancelled: each part is told under its own name.
#[verifier::spinoff_prover]
#[verifier::rlimit(30)]
pub proof fn law_renew_cancelled_is_told(renew_id: RenewId, notice_id: OperatorNoticeId)
    ensures
        ({
            let told = renew_cancelled_view(renew_id, notice_id);
            &&& told.get("renew_id"@) == Some(
                id_view(renew_id.value),
            )
            &&& told.get("notice_id"@) == Some(
                id_view(notice_id.value),
            )
        }),
{
    broadcast use {lemma_with_get, lemma_with_is_object, lemma_empty_get};

    reveal_strlit("renew_id");
    reveal_strlit("notice_id");
    assert("renew_id"@.len() == 8);
    assert("notice_id"@.len() == 9);
}

/// A socket waiter was registered: each part is told under its own name.
#[verifier::spinoff_prover]
#[verifier::rlimit(30)]
pub proof fn law_waiter_registered_is_told(agent: LogicalAgentId, public_name: String)
    ensures
        ({
            let told = waiter_registered_view(agent, public_name);
            &&& told.get("logical_agent_id"@) == Some(
                id_view(agent.value),
            )
            &&& told.get("public_name"@) == Some(
                text_view(public_name@),
            )
            &&& told.get("delivery_transport"@) == Some(
                text_view("socket_inbox"@),
            )
        }),
{
    broadcast use {lemma_with_get, lemma_with_is_object, lemma_empty_get};

    reveal_strlit("logical_agent_id");
    reveal_strlit("public_name");
    reveal_strlit("delivery_transport");
    assert("logical_agent_id"@.len() == 16);
    assert("public_name"@.len() == 11);
    assert("delivery_transport"@.len() == 18);
}

/// A socket waiter claimed its inbox: each part is told under its own name.
#[verifier::spinoff_prover]
#[verifier::rlimit(30)]
pub proof fn law_inbox_claimed_is_told(agent: LogicalAgentId)
    ensures
        ({
            let told = inbox_claimed_view(agent);
            &&& told.get("logical_agent_id"@) == Some(
                id_view(agent.value),
            )
            &&& told.get("claimed"@) == Some(
                JsonView::Bool(true),
            )
            &&& told.get("delivery_transport"@) == Some(
                text_view("socket_inbox"@),
            )
        }),
{
    broadcast use {lemma_with_get, lemma_with_is_object, lemma_empty_get};

    reveal_strlit("logical_agent_id");
    reveal_strlit("claimed");
    reveal_strlit("delivery_transport");
    assert("logical_agent_id"@.len() == 16);
    assert("claimed"@.len() == 7);
    assert("delivery_transport"@.len() == 18);
}

/// A delivery to an inbox was acknowledged: each part is told under its own name.
#[verifier::spinoff_prover]
#[verifier::rlimit(30)]
pub proof fn law_inbox_acked_is_told(message_id: MessageId, outcome: DeliveryOutcome)
    ensures
        ({
            let told = inbox_acked_view(message_id, outcome);
            &&& told.get("message_id"@) == Some(
                id_view(message_id.value),
            )
            &&& told.get("outcome"@) == Some(
                text_view(outcome.name()),
            )
        }),
{
    broadcast use {lemma_with_get, lemma_with_is_object, lemma_empty_get};

    reveal_strlit("message_id");
    reveal_strlit("outcome");
    assert("message_id"@.len() == 10);
    assert("outcome"@.len() == 7);
}

/// What a delivery to an inbox carries: each part is told under its own name.
#[verifier::spinoff_prover]
#[verifier::rlimit(60)]
pub proof fn law_delivery_params_is_told(delivery: InboxDelivery)
    ensures
        ({
            let told = delivery_params_view(delivery);
            &&& told.get("message_id"@) == Some(
                id_view(delivery.message_id.value),
            )
            &&& told.get("kind"@) == Some(
                text_view(delivery.kind.name()),
            )
            &&& told.get("body"@) == Some(
                text_view(delivery.body@),
            )
            &&& told.get("reply_to"@) == Some(
                optional_id_view(match delivery.reply_to { Some(id) => Some(id.value), None => None }),
            )
            &&& told.get("disposition"@) == Some(
                optional_text_view(match delivery.disposition { Some(v) => Some(v.name()), None => None }),
            )
            &&& told.get("attempt_number"@) == Some(
                int_view(delivery.attempt_number as int),
            )
            &&& told.get("sender_agent_id"@) == Some(
                optional_id_view(match delivery.sender_agent_id { Some(id) => Some(id.value), None => None }),
            )
            &&& told.get("sender_public_name"@) == Some(
                optional_text_view(optional_text(delivery.sender_public_name)),
            )
        }),
{
    broadcast use {lemma_with_get, lemma_with_is_object, lemma_empty_get};

    reveal_strlit("message_id");
    reveal_strlit("kind");
    reveal_strlit("body");
    reveal_strlit("reply_to");
    reveal_strlit("disposition");
    reveal_strlit("attempt_number");
    reveal_strlit("sender_agent_id");
    reveal_strlit("sender_public_name");
    assert("message_id"@.len() == 10);
    assert("kind"@.len() == 4);
    assert("body"@.len() == 4);
    assert("reply_to"@.len() == 8);
    assert("disposition"@.len() == 11);
    assert("attempt_number"@.len() == 14);
    assert("sender_agent_id"@.len() == 15);
    assert("sender_public_name"@.len() == 18);
    assert("kind"@[0] == 'k');
    assert("body"@[0] == 'b');
}

/// The event that offers a delivery to an inbox: each part is told under its own name.
#[verifier::spinoff_prover]
#[verifier::rlimit(30)]
pub proof fn law_inbox_event_is_told(event_id: Seq<char>, delivery: InboxDelivery)
    ensures
        ({
            let told = inbox_event_view(event_id, delivery);
            &&& told.get("id"@) == Some(
                text_view(event_id),
            )
            &&& told.get("method"@) == Some(
                text_view("inbox.delivery"@),
            )
            &&& told.get("params"@) == Some(
                delivery_params_view(delivery),
            )
        }),
{
    broadcast use {lemma_with_get, lemma_with_is_object, lemma_empty_get};

    reveal_strlit("id");
    reveal_strlit("method");
    reveal_strlit("params");
    assert("id"@.len() == 2);
    assert("method"@.len() == 6);
    assert("params"@.len() == 6);
    assert("method"@[0] == 'm');
    assert("params"@[0] == 'p');
}

/// Reminders of an ask were put off: each part is told under its own name.
#[verifier::spinoff_prover]
#[verifier::rlimit(30)]
pub proof fn law_snoozed_is_told(until_ms: i64)
    ensures
        ({
            let told = snoozed_view(until_ms);
            &&& told.get("state"@) == Some(
                text_view("snoozed"@),
            )
            &&& told.get("until_ms"@) == Some(
                int_view(until_ms as int),
            )
        }),
{
    broadcast use {lemma_with_get, lemma_with_is_object, lemma_empty_get};

    reveal_strlit("state");
    reveal_strlit("until_ms");
    assert("state"@.len() == 5);
    assert("until_ms"@.len() == 8);
}

/// One entry for each, in order.
pub proof fn law_owing_notices_come_in_order(values: Seq<WaiterRetireOwingNotice>)
    ensures
        owing_notices_view(values).items().len() == values.len(),
        forall|i: int|
            0 <= i < values.len() ==> #[trigger] owing_notices_view(values).items()[i] == owing_notice_view(values[i]),
{
}

/// One entry for each, in order.
pub proof fn law_message_ids_come_in_order(values: Seq<MessageId>)
    ensures
        message_ids_view(values).items().len() == values.len(),
        forall|i: int|
            0 <= i < values.len() ==> #[trigger] message_ids_view(values).items()[i] == message_id_view(values[i]),
{
}

/// One entry for each, in order.
pub proof fn law_observations_come_in_order(values: Seq<RecordedObservation>)
    ensures
        observations_view(values).items().len() == values.len(),
        forall|i: int|
            0 <= i < values.len() ==> #[trigger] observations_view(values).items()[i] == observation_view(values[i]),
{
}

/// One entry for each, in order.
pub proof fn law_strings_come_in_order(values: Seq<String>)
    ensures
        strings_view(values).items().len() == values.len(),
        forall|i: int|
            0 <= i < values.len() ==> #[trigger] strings_view(values).items()[i] == string_view(values[i]),
{
}

/// One entry for each, in order.
pub proof fn law_replies_come_in_order(values: Seq<ReplyInfo>)
    ensures
        replies_view(values).items().len() == values.len(),
        forall|i: int|
            0 <= i < values.len() ==> #[trigger] replies_view(values).items()[i] == reply_info_view(values[i]),
{
}

/// One entry for each, in order.
pub proof fn law_claimants_come_in_order(values: Seq<Claimant>)
    ensures
        claimants_view(values).items().len() == values.len(),
        forall|i: int|
            0 <= i < values.len() ==> #[trigger] claimants_view(values).items()[i] == claimant_info_view(values[i]),
{
}

/// One entry for each, in order.
pub proof fn law_unresolved_asks_come_in_order(values: Seq<UnresolvedAsk>)
    ensures
        unresolved_asks_view(values).items().len() == values.len(),
        forall|i: int|
            0 <= i < values.len() ==> #[trigger] unresolved_asks_view(values).items()[i] == unresolved_ask_view(values[i]),
{
}

/// One entry for each, in order.
pub proof fn law_operator_notices_come_in_order(values: Seq<OperatorNotice>)
    ensures
        operator_notices_view(values).items().len() == values.len(),
        forall|i: int|
            0 <= i < values.len() ==> #[trigger] operator_notices_view(values).items()[i] == operator_notice_view(values[i]),
{
}

/// A notice was delivered, or only recorded.
pub proof fn law_response_tells_whether_it_was_delivered(delivered: bool)
    ensures
        delivered ==> response_name(delivered) == "delivered"@,
        !delivered ==> response_name(delivered) == "recorded"@,
{
}

/// What is pending comes as what is owed, then the asks that ended while their asker was
/// away, then those that ended while their responder was, each told as what it is.
#[verifier::spinoff_prover]
pub proof fn law_pending_comes_in_order(
    owed: Seq<PendingObligation>,
    waiting: Seq<CancelledAway>,
    owing: Seq<CancelledAway>,
    at: int,
)
    requires
        0 <= at < owed.len() + waiting.len() + owing.len(),
    ensures
        pending_view(owed, waiting, owing).items().len() == owed.len() + waiting.len() + owing.len(),
        at < owed.len() ==> pending_view(owed, waiting, owing).items()[at] == obligation_view(
            owed[at],
        ),
        owed.len() <= at < owed.len() + waiting.len() ==> pending_view(
            owed,
            waiting,
            owing,
        ).items()[at] == cancelled_away_view(waiting[at - owed.len()], "waiting"@),
        owed.len() + waiting.len() <= at ==> pending_view(owed, waiting, owing).items()[at]
            == cancelled_away_view(owing[at - owed.len() - waiting.len()], "owing"@),
{
}

/// An attribution that is undetermined says why, and changes nothing else.
#[verifier::spinoff_prover]
#[verifier::rlimit(60)]
pub proof fn law_reason_is_told_beside_the_attribution(
    evidence: AttributionEvidence,
    reason: Option<Seq<char>>,
    name: Seq<char>,
)
    ensures
        reason matches Some(text) ==> attribution_response_view(evidence, reason).get(
            "undetermined_because"@,
        ) == Some(text_view(text)),
        name != "undetermined_because"@ || reason is None ==> attribution_response_view(
            evidence,
            reason,
        ).get(name) == attribution_result_view(evidence).get(name),
{
    broadcast use {lemma_with_get, lemma_with_is_object, lemma_empty_get};

}

/// Who an incarnation is is its attribution, and whether it can be addressed: while it is
/// ready.
#[verifier::spinoff_prover]
#[verifier::rlimit(60)]
pub proof fn law_who_tells_whether_an_incarnation_is_addressable(
    evidence: AttributionEvidence,
    reason: Option<Seq<char>>,
    name: Seq<char>,
)
    ensures
        who_incarnation_view(evidence, reason).get("addressable"@) == Some(
            JsonView::Bool(evidence.incarnation_state == IncarnationState::Ready),
        ),
        who_incarnation_view(evidence, reason).get("delivery_transport"@) == Some(
            text_view("herdr_prompt"@),
        ),
        name != "addressable"@ && name != "delivery_transport"@ ==> who_incarnation_view(
            evidence,
            reason,
        ).get(name) == attribution_response_view(evidence, reason).get(name),
{
    broadcast use {lemma_with_get, lemma_with_is_object, lemma_empty_get};

    reveal_strlit("addressable");
    reveal_strlit("delivery_transport");
    assert("addressable"@.len() == 11);
    assert("delivery_transport"@.len() == 18);
    assert(attribution_response_view(evidence, reason) is Object);
}

/// What was requested of an incarnation is told with the arguments of its backend.
#[verifier::spinoff_prover]
pub proof fn law_requested_is_told_with_its_arguments(
    evidence: AttributionEvidence,
    name: Seq<char>,
)
    ensures
        requested_view(evidence).get("backend_args"@) == Some(
            strings_view(evidence.requested_backend_args@),
        ),
        name != "backend_args"@ ==> requested_view(evidence).get(name) == evidence.requested@.get(
            name,
        ),
{
    broadcast use {lemma_with_get, lemma_with_is_object, lemma_empty_get};

    assert(evidence.requested@ is Object);
}

/// An armed policy is told with whom it renews, when it first comes due and how it goes on.
#[verifier::spinoff_prover]
#[verifier::rlimit(60)]
pub proof fn law_renewed_is_told(
    renew_id: RenewId,
    recipient: LogicalAgentId,
    incarnation: IncarnationId,
    scheduled_at_ms: i64,
    on_timeout: RenewTimeout,
    every_ms: Option<i64>,
)
    ensures
        ({
            let told = renewed_view(
                renew_id,
                recipient,
                incarnation,
                scheduled_at_ms,
                on_timeout,
                every_ms,
            );
            &&& told.get("renew_id"@) == Some(id_view(renew_id.value))
            &&& told.get("recipient"@) == Some(id_view(recipient.value))
            &&& told.get("recipient_incarnation"@) == Some(id_view(incarnation.value))
            &&& told.get("scheduled_at_ms"@) == Some(int_view(scheduled_at_ms as int))
            &&& told.get("on_timeout"@) == Some(text_view(on_timeout.name()))
            &&& told.get("phase"@) == Some(text_view("scheduled"@))
            &&& told.get("every_ms"@) == match every_ms {
                Some(ms) => Some(int_view(ms as int)),
                None => None,
            }
        }),
{
    broadcast use {lemma_with_get, lemma_with_is_object, lemma_empty_get};

    reveal_strlit("renew_id");
    reveal_strlit("recipient");
    reveal_strlit("recipient_incarnation");
    reveal_strlit("scheduled_at_ms");
    reveal_strlit("on_timeout");
    reveal_strlit("phase");
    reveal_strlit("every_ms");
    assert("renew_id"@.len() == 8);
    assert("recipient"@.len() == 9);
    assert("recipient_incarnation"@.len() == 21);
    assert("scheduled_at_ms"@.len() == 15);
    assert("on_timeout"@.len() == 10);
    assert("phase"@.len() == 5);
    assert("every_ms"@.len() == 8);
    assert("renew_id"@[0] == 'r');
    assert("every_ms"@[0] == 'e');
}

/// An identifier is told as its own text: two that are told alike are the same, and one that is
/// absent is told as null.
#[verifier::spinoff_prover]
pub proof fn law_identifier_is_told(a: u128, b: u128)
    ensures
        id_view(a) == JsonView::Text(uuid_text(a as nat)),
        id_view(a) == id_view(b) ==> a == b,
        optional_id_view(Some(a)) == id_view(a),
        optional_id_view(None) is Null,
{
    if id_view(a) == id_view(b) {
        law_uuid_text_is_injective(a, b);
    }
}

} // verus!
