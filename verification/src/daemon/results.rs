//! The results that answer requests.

use vstd::prelude::*;

use super::errors::optional_text;
use crate::attribution::{ObservedAttribution, RequestedAttribution};
use crate::domain::{
    uuid_text, DeliveryOutcome, DeliveryTransport, IncarnationId, IncarnationState, LogicalAgentId,
    MessageId, MessageKind, ObligationState, OperationId, OperationOutcome, OperatorNoticeId,
    RenewId, RenewTimeout, ReplyDisposition,
};
use crate::json::{
    empty_object, int_view, lemma_with, optional_text_view, text_view, Json, JsonView,
};

verus! {

/// An identifier as a JSON value.
pub open spec fn id_view(value: u128) -> JsonView {
    text_view(uuid_text(value as nat))
}

/// An identifier as a JSON value.
pub fn id_json(value: u128) -> (r: Json)
    ensures
        r@ == id_view(value),
{
    let id = LogicalAgentId { value };
    Json::Text(id.to_text())
}

/// An identifier that may be absent as a JSON value: null where it is.
pub open spec fn optional_id_view(value: Option<u128>) -> JsonView {
    match value {
        Some(value) => id_view(value),
        None => JsonView::Null,
    }
}

/// An identifier that may be absent as a JSON value: null where it is.
pub fn optional_id(value: Option<u128>) -> (r: Json)
    ensures
        r@ == optional_id_view(value),
{
    match value {
        Some(value) => id_json(value),
        None => Json::Null,
    }
}

/// An integer that may be absent as a JSON value: null where it is.
pub open spec fn optional_int_view(value: Option<i64>) -> JsonView {
    match value {
        Some(n) => int_view(n as int),
        None => JsonView::Null,
    }
}

/// An integer that may be absent as a JSON value: null where it is.
pub fn optional_integer(value: Option<i64>) -> (r: Json)
    ensures
        r@ == optional_int_view(value),
{
    match value {
        Some(n) => Json::integer(n),
        None => Json::Null,
    }
}

/// A text as a JSON value.
pub open spec fn string_view(text: String) -> JsonView {
    text_view(text@)
}

fn string_json(text: &String) -> (r: Json)
    ensures
        r@ == string_view(*text),
{
    Json::text(text.as_str())
}

/// The identifier of a message as a JSON value.
pub open spec fn message_id_view(id: MessageId) -> JsonView {
    id_view(id.value)
}

fn message_id_json(id: &MessageId) -> (r: Json)
    ensures
        r@ == message_id_view(*id),
{
    id_json(id.value)
}

/// The exact identity of a Ready agent.
#[derive(Debug, PartialEq, Eq)]
pub struct ReadyIdentity {
    pub logical_agent_id: LogicalAgentId,
    pub incarnation_id: IncarnationId,
    pub public_name: String,
}

/// What declaring a start recorded.
#[derive(Debug, Clone, Copy, PartialEq, Eq, Structural)]
pub struct DeclaredStart {
    pub logical_agent_id: LogicalAgentId,
    pub incarnation_id: IncarnationId,
    pub operation_id: OperationId,
}

/// How a launch ended: its runtime and its initial message, each on its own.
#[derive(Debug, Clone, Copy, PartialEq, Eq, Structural)]
pub struct LaunchResult {
    pub logical_agent_id: LogicalAgentId,
    pub incarnation_id: IncarnationId,
    pub start_operation_id: OperationId,
    pub start_outcome: OperationOutcome,
    pub initial_message_id: MessageId,
    pub initial_message_operation_id: OperationId,
    pub initial_message_outcome: DeliveryOutcome,
}

/// How a clear ended.
#[derive(Debug, Clone, Copy, PartialEq, Eq, Structural)]
pub struct ClearResult {
    pub operation_id: OperationId,
    pub recipient: LogicalAgentId,
    pub recipient_incarnation: IncarnationId,
    pub outcome: OperationOutcome,
}

/// How a cancellation went: what its two audiences got.
#[derive(Debug, Clone, Copy, PartialEq, Eq, Structural)]
pub struct CancelOutcome {
    pub delivered: bool,
    pub message_id: Option<MessageId>,
    pub owing_delivered: bool,
    pub owing_message_id: Option<MessageId>,
}

/// The notice to one agent that owed a retired waiter an answer.
#[derive(Debug, Clone, Copy, PartialEq, Eq, Structural)]
pub struct WaiterRetireOwingNotice {
    pub ask_message_id: MessageId,
    pub message_id: MessageId,
    pub delivered: bool,
}

/// How the retirement of a socket waiter went.
#[derive(Debug, PartialEq, Eq)]
pub struct WaiterRetireOutcome {
    pub cancelled_ask_ids: Vec<MessageId>,
    pub owing_notices: Vec<WaiterRetireOwingNotice>,
}

/// What a recovery did.
#[derive(Debug, Clone, Copy, PartialEq, Eq, Structural)]
pub struct RecoveryReport {
    pub starts_recovered: u64,
    pub outcomes_marked_unknown: u64,
    pub untouched_pending_intents: u64,
    pub unattempted_clears_failed: u64,
    pub retirements_completed: u64,
    pub retirements_still_live: u64,
    pub incarnations_marked_lost: u64,
    pub native_sessions_refreshed: u64,
}

/// One recorded observation of what served an agent.
#[derive(Debug, PartialEq, Eq)]
pub struct RecordedObservation {
    pub recorded_at_ms: i64,
    pub observed: ObservedAttribution,
}

/// What is recorded of an incarnation's attribution.
#[derive(Debug, PartialEq, Eq)]
pub struct AttributionEvidence {
    pub logical_agent_id: LogicalAgentId,
    pub incarnation_id: IncarnationId,
    pub public_name: String,
    pub backend_kind: String,
    pub incarnation_state: IncarnationState,
    pub requested: RequestedAttribution,
    pub requested_backend_args: Vec<String>,
    /// The newest observation.
    pub latest: Option<RecordedObservation>,
    pub observations: Vec<RecordedObservation>,
}

/// How one message was delivered.
#[derive(Debug, Clone, Copy, PartialEq, Eq, Structural)]
pub struct DeliveryInfo {
    pub transport: DeliveryTransport,
    pub outcome: DeliveryOutcome,
    pub attempt_number: i64,
    pub scheduled_at_ms: Option<i64>,
    pub attempted_at_ms: Option<i64>,
    pub resolved_at_ms: Option<i64>,
}

/// One reply to an ask.
#[derive(Debug, PartialEq, Eq)]
pub struct ReplyInfo {
    pub message_id: MessageId,
    pub body: String,
    pub disposition: ReplyDisposition,
    pub created_at_ms: i64,
    pub delivery: DeliveryInfo,
}

/// Everything recorded of one ask.
#[derive(Debug, PartialEq, Eq)]
pub struct AskInfo {
    pub ask_message_id: MessageId,
    pub body: String,
    pub asker_agent_id: LogicalAgentId,
    pub asker_name: String,
    pub responder_agent_id: LogicalAgentId,
    pub responder_name: String,
    pub state: ObligationState,
    pub created_at_ms: i64,
    pub last_activity_at_ms: i64,
    pub cancellation_reason: Option<String>,
    pub delivery: DeliveryInfo,
    pub replies: Vec<ReplyInfo>,
}

/// One agent that holds a public name.
#[derive(Debug, PartialEq, Eq)]
pub struct Claimant {
    pub logical_agent_id: LogicalAgentId,
    pub created_at_ms: i64,
    pub delivery_transport: DeliveryTransport,
    pub has_ready_incarnation: bool,
    pub is_addressable: bool,
    pub unresolved_count: i64,
}

/// One unresolved ask that touches a public name.
#[derive(Debug, PartialEq, Eq)]
pub struct UnresolvedAsk {
    pub ask_message_id: MessageId,
    pub state: ObligationState,
    pub created_at_ms: i64,
    pub last_activity_at_ms: i64,
    pub asker_agent_id: LogicalAgentId,
    pub asker_name: String,
    pub asker_live: bool,
    pub responder_agent_id: LogicalAgentId,
    pub responder_name: String,
    pub responder_live: bool,
}

/// Everything recorded of one public name.
#[derive(Debug, PartialEq, Eq)]
pub struct NameInfo {
    pub public_name: String,
    pub claimants: Vec<Claimant>,
    pub unresolved: Vec<UnresolvedAsk>,
}

/// One answer that an agent owes.
#[derive(Debug, Clone, Copy, PartialEq, Eq, Structural)]
pub struct PendingObligation {
    pub ask_message_id: MessageId,
    pub waiting_agent_id: LogicalAgentId,
    pub state: ObligationState,
}

/// One ask that was cancelled while an agent was away.
#[derive(Debug, PartialEq, Eq)]
pub struct CancelledAway {
    pub ask_message_id: MessageId,
    pub reason: String,
    pub cancelled_by: LogicalAgentId,
    pub cancelled_at_ms: i64,
}

/// One notice to the operator.
#[derive(Debug, PartialEq, Eq)]
pub struct OperatorNotice {
    pub id: OperatorNoticeId,
    pub body: String,
    pub created_at_ms: i64,
    pub acknowledged: bool,
}

/// One message that waits in the inbox of a socket waiter.
#[derive(Debug, PartialEq, Eq)]
pub struct InboxDelivery {
    pub message_id: MessageId,
    pub kind: MessageKind,
    pub body: String,
    pub reply_to: Option<MessageId>,
    pub disposition: Option<ReplyDisposition>,
    pub attempt_number: i64,
    pub sender_agent_id: Option<LogicalAgentId>,
    pub sender_public_name: Option<String>,
}

/// Who an agent is.
pub open spec fn identity_result_view(identity: ReadyIdentity) -> JsonView {
    empty_object()
        .with("logical_agent_id"@, id_view(identity.logical_agent_id.value))
        .with("incarnation_id"@, id_view(identity.incarnation_id.value))
        .with("public_name"@, text_view(identity.public_name@))
}

/// Who an agent is.
pub fn identity_result(identity: &ReadyIdentity) -> (result: Json)
    ensures
        result@ == identity_result_view(*identity),
{
    Json::object()
        .with("logical_agent_id", id_json(identity.logical_agent_id.value))
        .with("incarnation_id", id_json(identity.incarnation_id.value))
        .with("public_name", Json::text(identity.public_name.as_str()))
}

/// Who a freshly adopted agent is, where its name cannot be read back.
pub open spec fn unnamed_identity_view(created: DeclaredStart) -> JsonView {
    empty_object()
        .with("logical_agent_id"@, id_view(created.logical_agent_id.value))
        .with("incarnation_id"@, id_view(created.incarnation_id.value))
}

/// Who a freshly adopted agent is, where its name cannot be read back.
pub fn unnamed_identity(created: DeclaredStart) -> (result: Json)
    ensures
        result@ == unnamed_identity_view(created),
{
    Json::object()
        .with("logical_agent_id", id_json(created.logical_agent_id.value))
        .with("incarnation_id", id_json(created.incarnation_id.value))
}

/// Who holds an alias.
pub open spec fn alias_identity_view(agent: LogicalAgentId, incarnation: IncarnationId, alias: String) -> JsonView {
    empty_object()
        .with("logical_agent_id"@, id_view(agent.value))
        .with("incarnation_id"@, id_view(incarnation.value))
        .with("public_name"@, text_view(alias@))
}

/// Who holds an alias.
pub fn alias_identity(agent: LogicalAgentId, incarnation: IncarnationId, alias: &String) -> (result: Json)
    ensures
        result@ == alias_identity_view(agent, incarnation, *alias),
{
    Json::object()
        .with("logical_agent_id", id_json(agent.value))
        .with("incarnation_id", id_json(incarnation.value))
        .with("public_name", Json::text(alias.as_str()))
}

/// How an adoption ended.
pub open spec fn adopt_result_view(created: DeclaredStart) -> JsonView {
    empty_object()
        .with("logical_agent_id"@, id_view(created.logical_agent_id.value))
        .with("incarnation_id"@, id_view(created.incarnation_id.value))
        .with("operation_id"@, id_view(created.operation_id.value))
        .with("outcome"@, text_view("succeeded"@))
}

/// How an adoption ended.
pub fn adopt_result(created: DeclaredStart) -> (result: Json)
    ensures
        result@ == adopt_result_view(created),
{
    Json::object()
        .with("logical_agent_id", id_json(created.logical_agent_id.value))
        .with("incarnation_id", id_json(created.incarnation_id.value))
        .with("operation_id", id_json(created.operation_id.value))
        .with("outcome", Json::text("succeeded"))
}

/// How the runtime of a launch ended.
pub open spec fn runtime_start_view(created: LaunchResult) -> JsonView {
    empty_object()
        .with("operation_id"@, id_view(created.start_operation_id.value))
        .with("outcome"@, text_view(created.start_outcome.name()))
}

/// How the initial message of a launch ended.
pub open spec fn initial_message_view(created: LaunchResult) -> JsonView {
    empty_object()
        .with("message_id"@, id_view(created.initial_message_id.value))
        .with("operation_id"@, id_view(created.initial_message_operation_id.value))
        .with("outcome"@, text_view(created.initial_message_outcome.name()))
}

/// How a launch ended.
pub open spec fn launch_result_view(created: LaunchResult) -> JsonView {
    empty_object()
        .with("logical_agent_id"@, id_view(created.logical_agent_id.value))
        .with("incarnation_id"@, id_view(created.incarnation_id.value))
        .with("runtime_start"@, runtime_start_view(created))
        .with("initial_message"@, initial_message_view(created))
}

/// How a launch ended.
pub fn launch_result(created: LaunchResult) -> (result: Json)
    ensures
        result@ == launch_result_view(created),
{
    Json::object()
        .with("logical_agent_id", id_json(created.logical_agent_id.value))
        .with("incarnation_id", id_json(created.incarnation_id.value))
        .with("runtime_start", Json::object()
        .with("operation_id", id_json(created.start_operation_id.value))
        .with("outcome", Json::text(created.start_outcome.label())))
        .with("initial_message", Json::object()
        .with("message_id", id_json(created.initial_message_id.value))
        .with("operation_id", id_json(created.initial_message_operation_id.value))
        .with("outcome", Json::text(created.initial_message_outcome.label())))
}

/// How a clear ended.
pub open spec fn clear_result_view(cleared: ClearResult) -> JsonView {
    empty_object()
        .with("operation_id"@, id_view(cleared.operation_id.value))
        .with("recipient"@, id_view(cleared.recipient.value))
        .with("recipient_incarnation"@, id_view(cleared.recipient_incarnation.value))
        .with("outcome"@, text_view(cleared.outcome.name()))
}

/// How a clear ended.
pub fn clear_result(cleared: ClearResult) -> (result: Json)
    ensures
        result@ == clear_result_view(cleared),
{
    Json::object()
        .with("operation_id", id_json(cleared.operation_id.value))
        .with("recipient", id_json(cleared.recipient.value))
        .with("recipient_incarnation", id_json(cleared.recipient_incarnation.value))
        .with("outcome", Json::text(cleared.outcome.label()))
}

/// How a retirement ended.
pub open spec fn retire_result_view(operation_id: OperationId, released: bool) -> JsonView {
    empty_object()
        .with("operation_id"@, id_view(operation_id.value))
        .with("pane_released"@, JsonView::Bool(released))
}

/// How a retirement ended.
pub fn retire_result(operation_id: OperationId, released: bool) -> (result: Json)
    ensures
        result@ == retire_result_view(operation_id, released),
{
    Json::object()
        .with("operation_id", id_json(operation_id.value))
        .with("pane_released", Json::Bool(released))
}

/// Whether a notice reached its audience or is only recorded.
pub open spec fn response_name(delivered: bool) -> Seq<char> {
    if delivered {
        "delivered"@
    } else {
        "recorded"@
    }
}

fn response_label(delivered: bool) -> (label: &'static str)
    ensures
        label@ == response_name(delivered),
{
    if delivered {
        "delivered"
    } else {
        "recorded"
    }
}

/// How a cancellation went.
pub open spec fn cancel_result_view(outcome: CancelOutcome) -> JsonView {
    empty_object()
        .with("state"@, text_view("cancelled"@))
        .with("response"@, text_view(response_name(outcome.delivered)))
        .with("message_id"@, optional_id_view(match outcome.message_id { Some(id) => Some(id.value), None => None }))
        .with("owing_response"@, text_view(response_name(outcome.owing_delivered)))
        .with("owing_message_id"@, optional_id_view(match outcome.owing_message_id { Some(id) => Some(id.value), None => None }))
}

/// How a cancellation went.
pub fn cancel_result(outcome: CancelOutcome) -> (result: Json)
    ensures
        result@ == cancel_result_view(outcome),
{
    Json::object()
        .with("state", Json::text("cancelled"))
        .with("response", Json::text(response_label(outcome.delivered)))
        .with("message_id", optional_id(match outcome.message_id { Some(id) => Some(id.value), None => None }))
        .with("owing_response", Json::text(response_label(outcome.owing_delivered)))
        .with("owing_message_id", optional_id(match outcome.owing_message_id { Some(id) => Some(id.value), None => None }))
}

/// How the notice to one owing agent went.
pub open spec fn owing_notice_view(notice: WaiterRetireOwingNotice) -> JsonView {
    empty_object()
        .with("ask_message_id"@, id_view(notice.ask_message_id.value))
        .with("message_id"@, id_view(notice.message_id.value))
        .with("owing_response"@, text_view(response_name(notice.delivered)))
}

/// How the notice to one owing agent went.
pub fn owing_notice(notice: &WaiterRetireOwingNotice) -> (result: Json)
    ensures
        result@ == owing_notice_view(*notice),
{
    Json::object()
        .with("ask_message_id", id_json(notice.ask_message_id.value))
        .with("message_id", id_json(notice.message_id.value))
        .with("owing_response", Json::text(response_label(notice.delivered)))
}

/// How the notices to the owing agents went.
pub open spec fn owing_notices_view(values: Seq<WaiterRetireOwingNotice>) -> JsonView {
    JsonView::List(values.map_values(|value: WaiterRetireOwingNotice| owing_notice_view(value)))
}

/// How the notices to the owing agents went.
pub fn owing_notices(values: &Vec<WaiterRetireOwingNotice>) -> (result: Json)
    ensures
        result@ == owing_notices_view(values@),
{
    let mut items: Vec<Json> = Vec::new();
    let mut i: usize = 0;
    while i < values.len()
        invariant
            i <= values@.len(),
            items@.len() == i,
            forall|j: int| 0 <= j < i ==> (#[trigger] items@[j])@ == owing_notice_view(values@[j]),
        decreases values@.len() - i,
    {
        items.push(owing_notice(&values[i]));
        i = i + 1;
    }
    let result = Json::List(items);
    assert(result@->List_0 =~= owing_notices_view(values@)->List_0);
    result
}

/// Identifiers of messages.
pub open spec fn message_ids_view(values: Seq<MessageId>) -> JsonView {
    JsonView::List(values.map_values(|value: MessageId| message_id_view(value)))
}

/// Identifiers of messages.
pub fn message_ids(values: &Vec<MessageId>) -> (result: Json)
    ensures
        result@ == message_ids_view(values@),
{
    let mut items: Vec<Json> = Vec::new();
    let mut i: usize = 0;
    while i < values.len()
        invariant
            i <= values@.len(),
            items@.len() == i,
            forall|j: int| 0 <= j < i ==> (#[trigger] items@[j])@ == message_id_view(values@[j]),
        decreases values@.len() - i,
    {
        items.push(message_id_json(&values[i]));
        i = i + 1;
    }
    let result = Json::List(items);
    assert(result@->List_0 =~= message_ids_view(values@)->List_0);
    result
}

/// How the retirement of a socket waiter went.
pub open spec fn waiter_retire_result_view(agent: LogicalAgentId, ended: WaiterRetireOutcome) -> JsonView {
    empty_object()
        .with("logical_agent_id"@, id_view(agent.value))
        .with("targeting_ended"@, JsonView::Bool(true))
        .with("cancelled_ask_ids"@, message_ids_view(ended.cancelled_ask_ids@))
        .with("owing_notices"@, owing_notices_view(ended.owing_notices@))
}

/// How the retirement of a socket waiter went.
pub fn waiter_retire_result(agent: LogicalAgentId, ended: &WaiterRetireOutcome) -> (result: Json)
    ensures
        result@ == waiter_retire_result_view(agent, *ended),
{
    Json::object()
        .with("logical_agent_id", id_json(agent.value))
        .with("targeting_ended", Json::Bool(true))
        .with("cancelled_ask_ids", message_ids(&ended.cancelled_ask_ids))
        .with("owing_notices", owing_notices(&ended.owing_notices))
}

/// What a recovery did.
pub open spec fn recover_result_view(report: RecoveryReport) -> JsonView {
    empty_object()
        .with("starts_recovered"@, int_view(report.starts_recovered as int))
        .with("outcomes_marked_unknown"@, int_view(report.outcomes_marked_unknown as int))
        .with("untouched_pending_intents"@, int_view(report.untouched_pending_intents as int))
        .with("unattempted_clears_failed"@, int_view(report.unattempted_clears_failed as int))
        .with("retirements_completed"@, int_view(report.retirements_completed as int))
        .with("retirements_still_live"@, int_view(report.retirements_still_live as int))
        .with("incarnations_marked_lost"@, int_view(report.incarnations_marked_lost as int))
        .with("native_sessions_refreshed"@, int_view(report.native_sessions_refreshed as int))
}

/// What a recovery did.
pub fn recover_result(report: RecoveryReport) -> (result: Json)
    ensures
        result@ == recover_result_view(report),
{
    Json::object()
        .with("starts_recovered", Json::unsigned(report.starts_recovered))
        .with("outcomes_marked_unknown", Json::unsigned(report.outcomes_marked_unknown))
        .with("untouched_pending_intents", Json::unsigned(report.untouched_pending_intents))
        .with("unattempted_clears_failed", Json::unsigned(report.unattempted_clears_failed))
        .with("retirements_completed", Json::unsigned(report.retirements_completed))
        .with("retirements_still_live", Json::unsigned(report.retirements_still_live))
        .with("incarnations_marked_lost", Json::unsigned(report.incarnations_marked_lost))
        .with("native_sessions_refreshed", Json::unsigned(report.native_sessions_refreshed))
}

/// One recorded observation.
pub open spec fn observation_view(recorded: RecordedObservation) -> JsonView {
    empty_object()
        .with("recorded_at_ms"@, int_view(recorded.recorded_at_ms as int))
        .with("adapter"@, text_view(recorded.observed.adapter@))
        .with("model"@, recorded.observed.model.document_view())
        .with("provider"@, recorded.observed.provider.document_view())
        .with("effort"@, recorded.observed.effort.document_view())
}

/// One recorded observation.
pub fn observation(recorded: &RecordedObservation) -> (result: Json)
    ensures
        result@ == observation_view(*recorded),
{
    Json::object()
        .with("recorded_at_ms", Json::integer(recorded.recorded_at_ms))
        .with("adapter", Json::text(recorded.observed.adapter.as_str()))
        .with("model", recorded.observed.model.document())
        .with("provider", recorded.observed.provider.document())
        .with("effort", recorded.observed.effort.document())
}

/// Recorded observations.
pub open spec fn observations_view(values: Seq<RecordedObservation>) -> JsonView {
    JsonView::List(values.map_values(|value: RecordedObservation| observation_view(value)))
}

/// Recorded observations.
pub fn observations(values: &Vec<RecordedObservation>) -> (result: Json)
    ensures
        result@ == observations_view(values@),
{
    let mut items: Vec<Json> = Vec::new();
    let mut i: usize = 0;
    while i < values.len()
        invariant
            i <= values@.len(),
            items@.len() == i,
            forall|j: int| 0 <= j < i ==> (#[trigger] items@[j])@ == observation_view(values@[j]),
        decreases values@.len() - i,
    {
        items.push(observation(&values[i]));
        i = i + 1;
    }
    let result = Json::List(items);
    assert(result@->List_0 =~= observations_view(values@)->List_0);
    result
}

/// Texts.
pub open spec fn strings_view(values: Seq<String>) -> JsonView {
    JsonView::List(values.map_values(|value: String| string_view(value)))
}

/// Texts.
pub fn strings(values: &Vec<String>) -> (result: Json)
    ensures
        result@ == strings_view(values@),
{
    let mut items: Vec<Json> = Vec::new();
    let mut i: usize = 0;
    while i < values.len()
        invariant
            i <= values@.len(),
            items@.len() == i,
            forall|j: int| 0 <= j < i ==> (#[trigger] items@[j])@ == string_view(values@[j]),
        decreases values@.len() - i,
    {
        items.push(string_json(&values[i]));
        i = i + 1;
    }
    let result = Json::List(items);
    assert(result@->List_0 =~= strings_view(values@)->List_0);
    result
}

/// What a launch asked for. The argument vector is part of it: it is what was
/// asked, stored verbatim, and no backend reports whether it was honored.
pub open spec fn requested_view(evidence: AttributionEvidence) -> JsonView {
    evidence.requested@.with("backend_args"@, strings_view(evidence.requested_backend_args@))
}

/// The newest observation, or null.
pub open spec fn latest_view(latest: Option<RecordedObservation>) -> JsonView {
    match latest {
        Some(recorded) => observation_view(recorded),
        None => JsonView::Null,
    }
}

fn latest_json(latest: &Option<RecordedObservation>) -> (r: Json)
    ensures
        r@ == latest_view(*latest),
{
    match latest {
        Some(recorded) => observation(recorded),
        None => Json::Null,
    }
}

/// Requested and observed attribution of one incarnation, under separate keys and never merged.
pub open spec fn attribution_result_view(evidence: AttributionEvidence) -> JsonView {
    empty_object()
        .with("logical_agent_id"@, id_view(evidence.logical_agent_id.value))
        .with("incarnation_id"@, id_view(evidence.incarnation_id.value))
        .with("public_name"@, text_view(evidence.public_name@))
        .with("backend_kind"@, text_view(evidence.backend_kind@))
        .with("incarnation_state"@, text_view(evidence.incarnation_state.name()))
        .with("requested"@, requested_view(evidence))
        .with("observed"@, latest_view(evidence.latest))
        .with("observations"@, observations_view(evidence.observations@))
}

/// Requested and observed attribution of one incarnation, under separate keys and never merged.
pub fn attribution_result(evidence: &AttributionEvidence) -> (result: Json)
    ensures
        result@ == attribution_result_view(*evidence),
{
    Json::object()
        .with("logical_agent_id", id_json(evidence.logical_agent_id.value))
        .with("incarnation_id", id_json(evidence.incarnation_id.value))
        .with("public_name", Json::text(evidence.public_name.as_str()))
        .with("backend_kind", Json::text(evidence.backend_kind.as_str()))
        .with("incarnation_state", Json::text(evidence.incarnation_state.label()))
        .with("requested", evidence.requested.document()
        .with("backend_args", strings(&evidence.requested_backend_args)))
        .with("observed", latest_json(&evidence.latest))
        .with("observations", observations(&evidence.observations))
}

/// An attribution, with the reason why nothing could be determined where there is
/// one.
pub open spec fn attribution_response_view(
    evidence: AttributionEvidence,
    reason: Option<Seq<char>>,
) -> JsonView {
    match reason {
        Some(reason) => attribution_result_view(evidence).with(
            "undetermined_because"@,
            text_view(reason),
        ),
        None => attribution_result_view(evidence),
    }
}

/// An attribution, with the reason why nothing could be determined where there is
/// one.
pub fn attribution_response(evidence: &AttributionEvidence, reason: &Option<String>) -> (result: Json)
    ensures
        result@ == attribution_response_view(*evidence, optional_text(*reason)),
{
    let mut result = attribution_result(evidence);
    if let Some(reason) = reason {
        result.put("undetermined_because", Json::text(reason.as_str()));
    }
    result
}

/// Who an incarnation is: addressable exactly while it is Ready.
pub open spec fn who_incarnation_view(
    evidence: AttributionEvidence,
    reason: Option<Seq<char>>,
) -> JsonView {
    attribution_response_view(evidence, reason)
        .with("delivery_transport"@, text_view("herdr_prompt"@))
        .with("addressable"@, JsonView::Bool(evidence.incarnation_state == IncarnationState::Ready))
}

/// Who an incarnation is.
pub fn who_incarnation(evidence: &AttributionEvidence, reason: &Option<String>) -> (result: Json)
    ensures
        result@ == who_incarnation_view(*evidence, optional_text(*reason)),
{
    let ready = match evidence.incarnation_state {
        IncarnationState::Ready => true,
        _ => false,
    };
    attribution_response(evidence, reason)
        .with("delivery_transport", Json::text("herdr_prompt"))
        .with("addressable", Json::Bool(ready))
}

/// A list of nothing.
pub open spec fn empty_list() -> JsonView {
    JsonView::List(Seq::empty())
}

fn empty_list_json() -> (r: Json)
    ensures
        r@ == empty_list(),
{
    let r = Json::List(Vec::new());
    assert(r@->List_0 =~= Seq::empty());
    r
}

/// Who a socket waiter is: it has no incarnation and no attribution.
pub open spec fn who_waiter_view(agent: LogicalAgentId, public_name: String, addressable: bool) -> JsonView {
    empty_object()
        .with("logical_agent_id"@, id_view(agent.value))
        .with("incarnation_id"@, JsonView::Null)
        .with("public_name"@, text_view(public_name@))
        .with("delivery_transport"@, text_view("socket_inbox"@))
        .with("addressable"@, JsonView::Bool(addressable))
        .with("backend_kind"@, JsonView::Null)
        .with("incarnation_state"@, JsonView::Null)
        .with("requested"@, JsonView::Null)
        .with("observed"@, JsonView::Null)
        .with("observations"@, empty_list())
}

/// Who a socket waiter is: it has no incarnation and no attribution.
pub fn who_waiter(agent: LogicalAgentId, public_name: &String, addressable: bool) -> (result: Json)
    ensures
        result@ == who_waiter_view(agent, *public_name, addressable),
{
    Json::object()
        .with("logical_agent_id", id_json(agent.value))
        .with("incarnation_id", Json::Null)
        .with("public_name", Json::text(public_name.as_str()))
        .with("delivery_transport", Json::text("socket_inbox"))
        .with("addressable", Json::Bool(addressable))
        .with("backend_kind", Json::Null)
        .with("incarnation_state", Json::Null)
        .with("requested", Json::Null)
        .with("observed", Json::Null)
        .with("observations", empty_list_json())
}

/// How one message was delivered.
pub open spec fn delivery_view(info: DeliveryInfo) -> JsonView {
    empty_object()
        .with("transport"@, text_view(info.transport.name()))
        .with("outcome"@, text_view(info.outcome.name()))
        .with("attempt_number"@, int_view(info.attempt_number as int))
        .with("scheduled_at_ms"@, optional_int_view(info.scheduled_at_ms))
        .with("attempted_at_ms"@, optional_int_view(info.attempted_at_ms))
        .with("resolved_at_ms"@, optional_int_view(info.resolved_at_ms))
}

/// How one message was delivered.
pub fn delivery(info: DeliveryInfo) -> (result: Json)
    ensures
        result@ == delivery_view(info),
{
    Json::object()
        .with("transport", Json::text(info.transport.label()))
        .with("outcome", Json::text(info.outcome.label()))
        .with("attempt_number", Json::integer(info.attempt_number))
        .with("scheduled_at_ms", optional_integer(info.scheduled_at_ms))
        .with("attempted_at_ms", optional_integer(info.attempted_at_ms))
        .with("resolved_at_ms", optional_integer(info.resolved_at_ms))
}

/// One reply to an ask.
pub open spec fn reply_info_view(reply: ReplyInfo) -> JsonView {
    empty_object()
        .with("message_id"@, id_view(reply.message_id.value))
        .with("body"@, text_view(reply.body@))
        .with("disposition"@, text_view(reply.disposition.name()))
        .with("created_at_ms"@, int_view(reply.created_at_ms as int))
        .with("delivery"@, delivery_view(reply.delivery))
}

/// One reply to an ask.
pub fn reply_info(reply: &ReplyInfo) -> (result: Json)
    ensures
        result@ == reply_info_view(*reply),
{
    Json::object()
        .with("message_id", id_json(reply.message_id.value))
        .with("body", Json::text(reply.body.as_str()))
        .with("disposition", Json::text(reply.disposition.label()))
        .with("created_at_ms", Json::integer(reply.created_at_ms))
        .with("delivery", delivery(reply.delivery))
}

/// The replies to an ask.
pub open spec fn replies_view(values: Seq<ReplyInfo>) -> JsonView {
    JsonView::List(values.map_values(|value: ReplyInfo| reply_info_view(value)))
}

/// The replies to an ask.
pub fn replies(values: &Vec<ReplyInfo>) -> (result: Json)
    ensures
        result@ == replies_view(values@),
{
    let mut items: Vec<Json> = Vec::new();
    let mut i: usize = 0;
    while i < values.len()
        invariant
            i <= values@.len(),
            items@.len() == i,
            forall|j: int| 0 <= j < i ==> (#[trigger] items@[j])@ == reply_info_view(values@[j]),
        decreases values@.len() - i,
    {
        items.push(reply_info(&values[i]));
        i = i + 1;
    }
    let result = Json::List(items);
    assert(result@->List_0 =~= replies_view(values@)->List_0);
    result
}

/// One party of an ask.
pub open spec fn party_view(agent: LogicalAgentId, name: String) -> JsonView {
    empty_object()
        .with("agent_id"@, id_view(agent.value))
        .with("name"@, text_view(name@))
}

/// One party of an ask.
pub fn party(agent: LogicalAgentId, name: &String) -> (result: Json)
    ensures
        result@ == party_view(agent, *name),
{
    Json::object()
        .with("agent_id", id_json(agent.value))
        .with("name", Json::text(name.as_str()))
}

/// Everything recorded of one ask.
pub open spec fn ask_info_view(info: AskInfo) -> JsonView {
    empty_object()
        .with("ask_message_id"@, id_view(info.ask_message_id.value))
        .with("body"@, text_view(info.body@))
        .with("asker"@, party_view(info.asker_agent_id, info.asker_name))
        .with("responder"@, party_view(info.responder_agent_id, info.responder_name))
        .with("state"@, text_view(info.state.name()))
        .with("created_at_ms"@, int_view(info.created_at_ms as int))
        .with("last_activity_at_ms"@, int_view(info.last_activity_at_ms as int))
        .with("cancellation_reason"@, optional_text_view(optional_text(info.cancellation_reason)))
        .with("delivery"@, delivery_view(info.delivery))
        .with("replies"@, replies_view(info.replies@))
}

/// Everything recorded of one ask.
pub fn ask_info(info: &AskInfo) -> (result: Json)
    ensures
        result@ == ask_info_view(*info),
{
    Json::object()
        .with("ask_message_id", id_json(info.ask_message_id.value))
        .with("body", Json::text(info.body.as_str()))
        .with("asker", party(info.asker_agent_id, &info.asker_name))
        .with("responder", party(info.responder_agent_id, &info.responder_name))
        .with("state", Json::text(info.state.label()))
        .with("created_at_ms", Json::integer(info.created_at_ms))
        .with("last_activity_at_ms", Json::integer(info.last_activity_at_ms))
        .with("cancellation_reason", Json::optional_text(&info.cancellation_reason))
        .with("delivery", delivery(info.delivery))
        .with("replies", replies(&info.replies))
}

/// One agent that holds a public name.
pub open spec fn claimant_info_view(claimant: Claimant) -> JsonView {
    empty_object()
        .with("logical_agent_id"@, id_view(claimant.logical_agent_id.value))
        .with("created_at_ms"@, int_view(claimant.created_at_ms as int))
        .with("delivery_transport"@, text_view(claimant.delivery_transport.name()))
        .with("live"@, JsonView::Bool(claimant.has_ready_incarnation))
        .with("addressable"@, JsonView::Bool(claimant.is_addressable))
        .with("unresolved_count"@, int_view(claimant.unresolved_count as int))
}

/// One agent that holds a public name.
pub fn claimant_info(claimant: &Claimant) -> (result: Json)
    ensures
        result@ == claimant_info_view(*claimant),
{
    Json::object()
        .with("logical_agent_id", id_json(claimant.logical_agent_id.value))
        .with("created_at_ms", Json::integer(claimant.created_at_ms))
        .with("delivery_transport", Json::text(claimant.delivery_transport.label()))
        .with("live", Json::Bool(claimant.has_ready_incarnation))
        .with("addressable", Json::Bool(claimant.is_addressable))
        .with("unresolved_count", Json::integer(claimant.unresolved_count))
}

/// The agents that hold a public name.
pub open spec fn claimants_view(values: Seq<Claimant>) -> JsonView {
    JsonView::List(values.map_values(|value: Claimant| claimant_info_view(value)))
}

/// The agents that hold a public name.
pub fn claimants(values: &Vec<Claimant>) -> (result: Json)
    ensures
        result@ == claimants_view(values@),
{
    let mut items: Vec<Json> = Vec::new();
    let mut i: usize = 0;
    while i < values.len()
        invariant
            i <= values@.len(),
            items@.len() == i,
            forall|j: int| 0 <= j < i ==> (#[trigger] items@[j])@ == claimant_info_view(values@[j]),
        decreases values@.len() - i,
    {
        items.push(claimant_info(&values[i]));
        i = i + 1;
    }
    let result = Json::List(items);
    assert(result@->List_0 =~= claimants_view(values@)->List_0);
    result
}

/// One party of an ask, and whether it is live.
pub open spec fn live_party_view(agent: LogicalAgentId, name: String, live: bool) -> JsonView {
    empty_object()
        .with("agent_id"@, id_view(agent.value))
        .with("name"@, text_view(name@))
        .with("live"@, JsonView::Bool(live))
}

/// One party of an ask, and whether it is live.
pub fn live_party(agent: LogicalAgentId, name: &String, live: bool) -> (result: Json)
    ensures
        result@ == live_party_view(agent, *name, live),
{
    Json::object()
        .with("agent_id", id_json(agent.value))
        .with("name", Json::text(name.as_str()))
        .with("live", Json::Bool(live))
}

/// One unresolved ask.
pub open spec fn unresolved_ask_view(ask: UnresolvedAsk) -> JsonView {
    empty_object()
        .with("ask_message_id"@, id_view(ask.ask_message_id.value))
        .with("state"@, text_view(ask.state.name()))
        .with("created_at_ms"@, int_view(ask.created_at_ms as int))
        .with("last_activity_at_ms"@, int_view(ask.last_activity_at_ms as int))
        .with("asker"@, live_party_view(ask.asker_agent_id, ask.asker_name, ask.asker_live))
        .with("responder"@, live_party_view(ask.responder_agent_id, ask.responder_name, ask.responder_live))
}

/// One unresolved ask.
pub fn unresolved_ask(ask: &UnresolvedAsk) -> (result: Json)
    ensures
        result@ == unresolved_ask_view(*ask),
{
    Json::object()
        .with("ask_message_id", id_json(ask.ask_message_id.value))
        .with("state", Json::text(ask.state.label()))
        .with("created_at_ms", Json::integer(ask.created_at_ms))
        .with("last_activity_at_ms", Json::integer(ask.last_activity_at_ms))
        .with("asker", live_party(ask.asker_agent_id, &ask.asker_name, ask.asker_live))
        .with("responder", live_party(ask.responder_agent_id, &ask.responder_name, ask.responder_live))
}

/// Unresolved asks.
pub open spec fn unresolved_asks_view(values: Seq<UnresolvedAsk>) -> JsonView {
    JsonView::List(values.map_values(|value: UnresolvedAsk| unresolved_ask_view(value)))
}

/// Unresolved asks.
pub fn unresolved_asks(values: &Vec<UnresolvedAsk>) -> (result: Json)
    ensures
        result@ == unresolved_asks_view(values@),
{
    let mut items: Vec<Json> = Vec::new();
    let mut i: usize = 0;
    while i < values.len()
        invariant
            i <= values@.len(),
            items@.len() == i,
            forall|j: int| 0 <= j < i ==> (#[trigger] items@[j])@ == unresolved_ask_view(values@[j]),
        decreases values@.len() - i,
    {
        items.push(unresolved_ask(&values[i]));
        i = i + 1;
    }
    let result = Json::List(items);
    assert(result@->List_0 =~= unresolved_asks_view(values@)->List_0);
    result
}

/// Everything recorded of one public name.
pub open spec fn name_info_view(info: NameInfo) -> JsonView {
    empty_object()
        .with("name"@, text_view(info.public_name@))
        .with("claimants"@, claimants_view(info.claimants@))
        .with("unresolved"@, unresolved_asks_view(info.unresolved@))
}

/// Everything recorded of one public name.
pub fn name_info(info: &NameInfo) -> (result: Json)
    ensures
        result@ == name_info_view(*info),
{
    Json::object()
        .with("name", Json::text(info.public_name.as_str()))
        .with("claimants", claimants(&info.claimants))
        .with("unresolved", unresolved_asks(&info.unresolved))
}

/// One answer that an agent owes.
pub open spec fn obligation_view(owed: PendingObligation) -> JsonView {
    empty_object()
        .with("ask_message_id"@, id_view(owed.ask_message_id.value))
        .with("waiting_agent_id"@, id_view(owed.waiting_agent_id.value))
        .with("state"@, text_view(owed.state.name()))
}

/// One answer that an agent owes.
pub fn obligation(owed: PendingObligation) -> (result: Json)
    ensures
        result@ == obligation_view(owed),
{
    Json::object()
        .with("ask_message_id", id_json(owed.ask_message_id.value))
        .with("waiting_agent_id", id_json(owed.waiting_agent_id.value))
        .with("state", Json::text(owed.state.label()))
}

/// One ask that was cancelled while an agent was away, as one of its two
/// audiences.
pub open spec fn cancelled_away_view(entry: CancelledAway, audience: Seq<char>) -> JsonView {
    empty_object()
        .with("ask_message_id"@, id_view(entry.ask_message_id.value))
        .with("state"@, text_view("cancelled"@))
        .with("audience"@, text_view(audience))
        .with("cancellation_reason"@, text_view(entry.reason@))
        .with("cancellation_requester_agent_id"@, id_view(entry.cancelled_by.value))
        .with("cancelled_at_ms"@, int_view(entry.cancelled_at_ms as int))
}

fn cancelled_away(entry: &CancelledAway, audience: &str) -> (r: Json)
    ensures
        r@ == cancelled_away_view(*entry, audience@),
{
    Json::object()
        .with("ask_message_id", id_json(entry.ask_message_id.value))
        .with("state", Json::text("cancelled"))
        .with("audience", Json::text(audience))
        .with("cancellation_reason", Json::text(entry.reason.as_str()))
        .with("cancellation_requester_agent_id", id_json(entry.cancelled_by.value))
        .with("cancelled_at_ms", Json::integer(entry.cancelled_at_ms))
}

/// What an agent owes, then what happened to its waits while it had no Ready
/// incarnation, then the asks it was answering that were cancelled meanwhile.
pub open spec fn pending_view(
    owed: Seq<PendingObligation>,
    waiting: Seq<CancelledAway>,
    owing: Seq<CancelledAway>,
) -> JsonView {
    JsonView::List(
        owed.map_values(|entry: PendingObligation| obligation_view(entry))
            + waiting.map_values(|entry: CancelledAway| cancelled_away_view(entry, "waiting"@))
            + owing.map_values(|entry: CancelledAway| cancelled_away_view(entry, "owing"@)),
    )
}

fn push_cancelled(items: &mut Vec<Json>, entries: &Vec<CancelledAway>, audience: &str)
    ensures
        crate::json::views(final(items)@) == crate::json::views(old(items)@) + entries@.map_values(
            |entry: CancelledAway| cancelled_away_view(entry, audience@),
        ),
{
    let ghost before = crate::json::views(items@);
    let ghost meant = entries@.map_values(
        |entry: CancelledAway| cancelled_away_view(entry, audience@),
    );
    let mut i: usize = 0;
    while i < entries.len()
        invariant
            i <= entries@.len(),
            meant == entries@.map_values(
                |entry: CancelledAway| cancelled_away_view(entry, audience@),
            ),
            crate::json::views(items@) =~= before + meant.take(i as int),
        decreases entries@.len() - i,
    {
        let ghost shown = crate::json::views(items@);
        items.push(cancelled_away(&entries[i], audience));
        proof {
            assert(crate::json::views(items@) =~= shown.push(meant[i as int]));
            assert(meant.take(i as int + 1) =~= meant.take(i as int).push(meant[i as int]));
        }
        i = i + 1;
    }
    assert(meant.take(entries@.len() as int) =~= meant);
}

/// What an agent owes, and what was cancelled while it was away.
pub fn pending(
    owed: &Vec<PendingObligation>,
    waiting: &Vec<CancelledAway>,
    owing: &Vec<CancelledAway>,
) -> (result: Json)
    ensures
        result@ == pending_view(owed@, waiting@, owing@),
{
    let mut items: Vec<Json> = Vec::new();
    let mut i: usize = 0;
    while i < owed.len()
        invariant
            i <= owed@.len(),
            items@.len() == i,
            forall|j: int| 0 <= j < i ==> (#[trigger] items@[j])@ == obligation_view(owed@[j]),
        decreases owed@.len() - i,
    {
        items.push(obligation(owed[i]));
        i = i + 1;
    }
    assert(crate::json::views(items@) =~= owed@.map_values(
        |entry: PendingObligation| obligation_view(entry),
    ));
    push_cancelled(&mut items, waiting, "waiting");
    push_cancelled(&mut items, owing, "owing");
    proof {
        crate::json::lemma_list_view(items);
    }
    Json::List(items)
}

/// One notice to the operator.
pub open spec fn operator_notice_view(notice: OperatorNotice) -> JsonView {
    empty_object()
        .with("notice_id"@, id_view(notice.id.value))
        .with("body"@, text_view(notice.body@))
        .with("created_at_ms"@, int_view(notice.created_at_ms as int))
        .with("acknowledged"@, JsonView::Bool(notice.acknowledged))
}

/// One notice to the operator.
pub fn operator_notice(notice: &OperatorNotice) -> (result: Json)
    ensures
        result@ == operator_notice_view(*notice),
{
    Json::object()
        .with("notice_id", id_json(notice.id.value))
        .with("body", Json::text(notice.body.as_str()))
        .with("created_at_ms", Json::integer(notice.created_at_ms))
        .with("acknowledged", Json::Bool(notice.acknowledged))
}

/// The notices to the operator.
pub open spec fn operator_notices_view(values: Seq<OperatorNotice>) -> JsonView {
    JsonView::List(values.map_values(|value: OperatorNotice| operator_notice_view(value)))
}

/// The notices to the operator.
pub fn operator_notices(values: &Vec<OperatorNotice>) -> (result: Json)
    ensures
        result@ == operator_notices_view(values@),
{
    let mut items: Vec<Json> = Vec::new();
    let mut i: usize = 0;
    while i < values.len()
        invariant
            i <= values@.len(),
            items@.len() == i,
            forall|j: int| 0 <= j < i ==> (#[trigger] items@[j])@ == operator_notice_view(values@[j]),
        decreases values@.len() - i,
    {
        items.push(operator_notice(&values[i]));
        i = i + 1;
    }
    let result = Json::List(items);
    assert(result@->List_0 =~= operator_notices_view(values@)->List_0);
    result
}

/// A notice was recorded.
pub open spec fn notice_created_view(id: OperatorNoticeId) -> JsonView {
    empty_object()
        .with("notice_id"@, id_view(id.value))
}

/// A notice was recorded.
pub fn notice_created(id: OperatorNoticeId) -> (result: Json)
    ensures
        result@ == notice_created_view(id),
{
    Json::object()
        .with("notice_id", id_json(id.value))
}

/// A renew was cancelled.
pub open spec fn renew_cancelled_view(renew_id: RenewId, notice_id: OperatorNoticeId) -> JsonView {
    empty_object()
        .with("renew_id"@, id_view(renew_id.value))
        .with("notice_id"@, id_view(notice_id.value))
}

/// A renew was cancelled.
pub fn renew_cancelled(renew_id: RenewId, notice_id: OperatorNoticeId) -> (result: Json)
    ensures
        result@ == renew_cancelled_view(renew_id, notice_id),
{
    Json::object()
        .with("renew_id", id_json(renew_id.value))
        .with("notice_id", id_json(notice_id.value))
}

/// A socket waiter was registered.
pub open spec fn waiter_registered_view(agent: LogicalAgentId, public_name: String) -> JsonView {
    empty_object()
        .with("logical_agent_id"@, id_view(agent.value))
        .with("public_name"@, text_view(public_name@))
        .with("delivery_transport"@, text_view("socket_inbox"@))
}

/// A socket waiter was registered.
pub fn waiter_registered(agent: LogicalAgentId, public_name: &String) -> (result: Json)
    ensures
        result@ == waiter_registered_view(agent, *public_name),
{
    Json::object()
        .with("logical_agent_id", id_json(agent.value))
        .with("public_name", Json::text(public_name.as_str()))
        .with("delivery_transport", Json::text("socket_inbox"))
}

/// A socket waiter claimed its inbox.
pub open spec fn inbox_claimed_view(agent: LogicalAgentId) -> JsonView {
    empty_object()
        .with("logical_agent_id"@, id_view(agent.value))
        .with("claimed"@, JsonView::Bool(true))
        .with("delivery_transport"@, text_view("socket_inbox"@))
}

/// A socket waiter claimed its inbox.
pub fn inbox_claimed(agent: LogicalAgentId) -> (result: Json)
    ensures
        result@ == inbox_claimed_view(agent),
{
    Json::object()
        .with("logical_agent_id", id_json(agent.value))
        .with("claimed", Json::Bool(true))
        .with("delivery_transport", Json::text("socket_inbox"))
}

/// A delivery to an inbox was acknowledged.
pub open spec fn inbox_acked_view(message_id: MessageId, outcome: DeliveryOutcome) -> JsonView {
    empty_object()
        .with("message_id"@, id_view(message_id.value))
        .with("outcome"@, text_view(outcome.name()))
}

/// A delivery to an inbox was acknowledged.
pub fn inbox_acked(message_id: MessageId, outcome: DeliveryOutcome) -> (result: Json)
    ensures
        result@ == inbox_acked_view(message_id, outcome),
{
    Json::object()
        .with("message_id", id_json(message_id.value))
        .with("outcome", Json::text(outcome.label()))
}

/// What a delivery to an inbox carries.
pub open spec fn delivery_params_view(delivery: InboxDelivery) -> JsonView {
    empty_object()
        .with("message_id"@, id_view(delivery.message_id.value))
        .with("kind"@, text_view(delivery.kind.name()))
        .with("body"@, text_view(delivery.body@))
        .with("reply_to"@, optional_id_view(match delivery.reply_to { Some(id) => Some(id.value), None => None }))
        .with("disposition"@, optional_text_view(match delivery.disposition { Some(v) => Some(v.name()), None => None }))
        .with("attempt_number"@, int_view(delivery.attempt_number as int))
        .with("sender_agent_id"@, optional_id_view(match delivery.sender_agent_id { Some(id) => Some(id.value), None => None }))
        .with("sender_public_name"@, optional_text_view(optional_text(delivery.sender_public_name)))
}

/// What a delivery to an inbox carries.
pub fn delivery_params(delivery: &InboxDelivery) -> (result: Json)
    ensures
        result@ == delivery_params_view(*delivery),
{
    Json::object()
        .with("message_id", id_json(delivery.message_id.value))
        .with("kind", Json::text(delivery.kind.label()))
        .with("body", Json::text(delivery.body.as_str()))
        .with("reply_to", optional_id(match delivery.reply_to { Some(id) => Some(id.value), None => None }))
        .with("disposition", (match delivery.disposition { Some(v) => Json::text(v.label()), None => Json::Null }))
        .with("attempt_number", Json::integer(delivery.attempt_number))
        .with("sender_agent_id", optional_id(match delivery.sender_agent_id { Some(id) => Some(id.value), None => None }))
        .with("sender_public_name", Json::optional_text(&delivery.sender_public_name))
}

/// The event that offers a delivery to an inbox.
pub open spec fn inbox_event_view(event_id: Seq<char>, delivery: InboxDelivery) -> JsonView {
    empty_object()
        .with("id"@, text_view(event_id))
        .with("method"@, text_view("inbox.delivery"@))
        .with("params"@, delivery_params_view(delivery))
}

/// The event that offers a delivery to an inbox.
pub fn inbox_event(event_id: &str, delivery: &InboxDelivery) -> (event: Json)
    ensures
        event@ == inbox_event_view(event_id@, *delivery),
{
    Json::object()
        .with("id", Json::text(event_id))
        .with("method", Json::text("inbox.delivery"))
        .with("params", delivery_params(delivery))
}

/// Reminders of an ask were put off.
pub open spec fn snoozed_view(until_ms: i64) -> JsonView {
    empty_object().with("state"@, text_view("snoozed"@)).with("until_ms"@, int_view(until_ms as int))
}

/// Reminders of an ask were put off.
pub fn snoozed(until_ms: i64) -> (result: Json)
    ensures
        result@ == snoozed_view(until_ms),
{
    Json::object().with("state", Json::text("snoozed")).with("until_ms", Json::integer(until_ms))
}

/// Reminders of an ask were switched off.
pub fn disabled() -> (result: Json)
    ensures
        result@ == empty_object().with("state"@, text_view("disabled"@)),
{
    Json::object().with("state", Json::text("disabled"))
}

/// A renew was armed.
pub open spec fn renewed_view(
    renew_id: RenewId,
    recipient: LogicalAgentId,
    incarnation: IncarnationId,
    scheduled_at_ms: i64,
    on_timeout: RenewTimeout,
    every_ms: Option<i64>,
) -> JsonView {
    let base = empty_object()
        .with("renew_id"@, id_view(renew_id.value))
        .with("recipient"@, id_view(recipient.value))
        .with("recipient_incarnation"@, id_view(incarnation.value))
        .with("scheduled_at_ms"@, int_view(scheduled_at_ms as int))
        .with("on_timeout"@, text_view(on_timeout.name()))
        .with("phase"@, text_view("scheduled"@));
    match every_ms {
        Some(every_ms) => base.with("every_ms"@, int_view(every_ms as int)),
        None => base,
    }
}

/// A renew was armed.
pub fn renewed(
    renew_id: RenewId,
    recipient: LogicalAgentId,
    incarnation: IncarnationId,
    scheduled_at_ms: i64,
    on_timeout: RenewTimeout,
    every_ms: Option<i64>,
) -> (result: Json)
    ensures
        result@ == renewed_view(
            renew_id,
            recipient,
            incarnation,
            scheduled_at_ms,
            on_timeout,
            every_ms,
        ),
{
    let mut result = Json::object()
        .with("renew_id", id_json(renew_id.value))
        .with("recipient", id_json(recipient.value))
        .with("recipient_incarnation", id_json(incarnation.value))
        .with("scheduled_at_ms", Json::integer(scheduled_at_ms))
        .with("on_timeout", Json::text(on_timeout.label()))
        .with("phase", Json::text("scheduled"));
    if let Some(every_ms) = every_ms {
        result.put("every_ms", Json::integer(every_ms));
    }
    result
}

/// What was asked for never shows among what was observed: a model that was only
/// requested leaves no trace outside `requested`.
pub proof fn law_requested_is_not_observed(evidence: AttributionEvidence)
    requires
        evidence.latest is None,
    ensures
        attribution_result_view(evidence).get("observed"@) == Some(JsonView::Null),
        attribution_result_view(evidence).get("requested"@) == Some(requested_view(evidence)),
{
    reveal_strlit("observed");
    reveal_strlit("observations");
    reveal_strlit("requested");
    assert("observed"@.len() != "observations"@.len() && "requested"@.len() != "observed"@.len()
        && "requested"@.len() != "observations"@.len());
    let base = empty_object()
        .with("logical_agent_id"@, id_view(evidence.logical_agent_id.value))
        .with("incarnation_id"@, id_view(evidence.incarnation_id.value))
        .with("public_name"@, text_view(evidence.public_name@))
        .with("backend_kind"@, text_view(evidence.backend_kind@))
        .with("incarnation_state"@, text_view(evidence.incarnation_state.name()));
    let asked = base.with("requested"@, requested_view(evidence));
    let seen = asked.with("observed"@, latest_view(evidence.latest));
    lemma_with(base, "requested"@, requested_view(evidence), "requested"@);
    lemma_with(asked, "observed"@, latest_view(evidence.latest), "requested"@);
    lemma_with(
        seen,
        "observations"@,
        observations_view(evidence.observations@),
        "observed"@,
    );
    lemma_with(
        seen,
        "observations"@,
        observations_view(evidence.observations@),
        "requested"@,
    );
}

} // verus!
