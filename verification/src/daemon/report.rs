//! The fleet report: every durable node and edge, as recorded.
//!
//! Nothing is interpreted. Whether a state is a problem is the consumer's policy.

use vstd::prelude::*;

use super::errors::optional_text;
use super::results::{
    id_json, id_view, optional_id, optional_id_view, optional_int_view, optional_integer, strings,
    strings_view,
};
use crate::attribution::RequestedAttribution;
use crate::domain::{
    IncarnationId, IncarnationState, LogicalAgentId, MessageId, ObligationState, OperationId,
    OperationOutcome, RenewId, RenewPhase,
};
use crate::herdr::AgentStatus;
use crate::json::{
    empty_object, int_view, lemma_list_view, optional_text_view, text_view, views, Json, JsonView,
};
use crate::text::same;

verus! {

/// One armed renew.
#[derive(Debug, Clone, Copy, PartialEq, Eq, Structural)]
pub struct ReportRenew {
    pub id: RenewId,
    pub phase: RenewPhase,
    pub cycle: i64,
    pub every_ms: Option<i64>,
    pub scheduled_at_ms: i64,
    /// How much active occupancy is left before the next cycle.
    pub active_remaining_ms: Option<i64>,
}

/// The newest operation on an incarnation.
#[derive(Debug, PartialEq, Eq)]
pub struct ReportOperation {
    pub id: OperationId,
    pub kind: String,
    pub outcome: OperationOutcome,
}

/// One incarnation of an agent.
#[derive(Debug, PartialEq, Eq)]
pub struct ReportIncarnation {
    pub id: IncarnationId,
    pub state: IncarnationState,
    pub backend_kind: String,
    pub working_directory: String,
    pub herdr_session: String,
    pub intended_pane_id: String,
    pub expected_terminal_id: String,
    pub observed_pane_id: Option<String>,
    pub observed_terminal_id: Option<String>,
    pub requested: RequestedAttribution,
    pub requested_backend_args: Vec<String>,
    pub created_at_ms: i64,
    /// Nothing until a rotation is observed. Never defaulted to the creation
    /// time: that would report the incarnation's age as the conversation's.
    pub native_session_rotated_at_ms: Option<i64>,
    pub terminal_at_ms: Option<i64>,
    pub terminal_reason: Option<String>,
    pub latest_operation: Option<ReportOperation>,
    /// Nothing where no cycle is armed.
    pub renew: Option<ReportRenew>,
    /// What a live snapshot says of the incarnation's pane and terminal.
    pub live_status: Option<AgentStatus>,
}

/// One logical agent, with its newest incarnation first.
#[derive(Debug, PartialEq, Eq)]
pub struct ReportAgent {
    pub id: LogicalAgentId,
    pub public_name: String,
    pub parent_agent_id: Option<LogicalAgentId>,
    pub explicitly_parentless: bool,
    pub created_at_ms: i64,
    pub incarnations: Vec<ReportIncarnation>,
}

/// One obligation to answer.
#[derive(Debug, Clone, Copy, PartialEq, Eq, Structural)]
pub struct ReportObligation {
    pub ask_message_id: MessageId,
    pub owing_agent_id: LogicalAgentId,
    pub waiting_agent_id: LogicalAgentId,
    pub state: ObligationState,
    pub created_at_ms: i64,
    pub last_activity_at_ms: i64,
    pub resolving_message_id: Option<MessageId>,
}

/// Everything that is recorded.
#[derive(Debug, PartialEq, Eq)]
pub struct FleetReport {
    pub generated_at_ms: i64,
    pub agents: Vec<ReportAgent>,
    pub obligations: Vec<ReportObligation>,
}

/// Whether an agent still exists: its newest incarnation is ready, starting, or
/// unknown.
pub open spec fn exists_still(agent: ReportAgent) -> bool {
    agent.incarnations@.len() > 0 && {
        let state = agent.incarnations@[0].state;
        state == IncarnationState::Ready || state == IncarnationState::Starting || state
            == IncarnationState::Unknown
    }
}

fn is_existing(agent: &ReportAgent) -> (r: bool)
    ensures
        r == exists_still(*agent),
{
    if agent.incarnations.len() == 0 {
        return false;
    }
    match agent.incarnations[0].state {
        IncarnationState::Ready | IncarnationState::Starting | IncarnationState::Unknown => true,
        _ => false,
    }
}

/// Whether an agent exists, or explains in at most `steps` generations one that
/// does.
pub open spec fn explains(agents: Seq<ReportAgent>, id: LogicalAgentId, steps: nat) -> bool
    decreases steps,
{
    (exists|i: int| 0 <= i < agents.len() && (#[trigger] agents[i]).id == id && exists_still(agents[i]))
        || (steps > 0 && exists|i: int|
        0 <= i < agents.len() && (#[trigger] agents[i]).parent_agent_id == Some(id) && explains(
            agents,
            agents[i].id,
            (steps - 1) as nat,
        ))
}

/// Whether an agent is part of the active fleet: it exists, or it is an ancestor
/// of one that does. A child with no parent line loses the lineage that says who
/// started it.
pub open spec fn is_active(agents: Seq<ReportAgent>, id: LogicalAgentId) -> bool {
    exists|steps: nat| explains(agents, id, steps)
}

/// How many agents have a parent that is not among some identifiers.
pub open spec fn missing_parents(agents: Seq<ReportAgent>, wanted: Seq<LogicalAgentId>) -> nat
    decreases agents.len(),
{
    if agents.len() == 0 {
        0
    } else {
        let before = missing_parents(agents.drop_last(), wanted);
        match agents.last().parent_agent_id {
            Some(parent) => if wanted.contains(parent) {
                before
            } else {
                before + 1
            },
            None => before,
        }
    }
}

proof fn lemma_fewer_missing(
    agents: Seq<ReportAgent>,
    wanted: Seq<LogicalAgentId>,
    parent: LogicalAgentId,
)
    ensures
        missing_parents(agents, wanted.push(parent)) <= missing_parents(agents, wanted),
        (exists|i: int|
            0 <= i < agents.len() && (#[trigger] agents[i]).parent_agent_id == Some(parent))
            && !wanted.contains(parent) ==> missing_parents(agents, wanted.push(parent))
            < missing_parents(agents, wanted),
    decreases agents.len(),
{
    let more = wanted.push(parent);
    assert(more.last() == parent);
    assert(more.contains(parent));
    assert forall|id: LogicalAgentId| wanted.contains(id) implies more.contains(id) by {
        let i = choose|i: int| 0 <= i < wanted.len() && wanted[i] == id;
        assert(more[i] == id);
    }
    if agents.len() > 0 {
        let rest = agents.drop_last();
        lemma_fewer_missing(rest, wanted, parent);
        if exists|i: int|
            0 <= i < agents.len() && (#[trigger] agents[i]).parent_agent_id == Some(parent) {
            let i = choose|i: int|
                0 <= i < agents.len() && (#[trigger] agents[i]).parent_agent_id == Some(parent);
            if i < rest.len() {
                assert(rest[i].parent_agent_id == Some(parent));
            }
        }
    }
}

fn includes(ids: &Vec<LogicalAgentId>, id: LogicalAgentId) -> (r: bool)
    ensures
        r == ids@.contains(id),
{
    let mut i: usize = 0;
    while i < ids.len()
        invariant
            i <= ids@.len(),
            forall|j: int| 0 <= j < i ==> ids@[j] != id,
        decreases ids@.len() - i,
    {
        if ids[i].value == id.value {
            assert(ids@[i as int] == id);
            return true;
        }
        i = i + 1;
    }
    false
}

/// The parents of wanted agents are wanted.
pub open spec fn closed_upwards(agents: Seq<ReportAgent>, wanted: Seq<LogicalAgentId>) -> bool {
    forall|i: int|
        0 <= i < agents.len() && wanted.contains((#[trigger] agents[i]).id)
            && agents[i].parent_agent_id is Some ==> wanted.contains(agents[i].parent_agent_id->0)
}

proof fn lemma_closed_holds_active(
    agents: Seq<ReportAgent>,
    wanted: Seq<LogicalAgentId>,
    id: LogicalAgentId,
    steps: nat,
)
    requires
        closed_upwards(agents, wanted),
        forall|i: int|
            0 <= i < agents.len() && exists_still(#[trigger] agents[i]) ==> wanted.contains(
                agents[i].id,
            ),
        explains(agents, id, steps),
    ensures
        wanted.contains(id),
    decreases steps,
{
    if !(exists|i: int|
        0 <= i < agents.len() && (#[trigger] agents[i]).id == id && exists_still(agents[i])) {
        let i = choose|i: int|
            0 <= i < agents.len() && (#[trigger] agents[i]).parent_agent_id == Some(id)
                && explains(agents, agents[i].id, (steps - 1) as nat);
        lemma_closed_holds_active(agents, wanted, agents[i].id, (steps - 1) as nat);
    }
}

/// The identifiers of the active fleet.
fn wanted_ids(agents: &Vec<ReportAgent>) -> (wanted: Vec<LogicalAgentId>)
    ensures
        forall|id: LogicalAgentId| #[trigger] wanted@.contains(id) <==> is_active(agents@, id),
{
    let mut wanted: Vec<LogicalAgentId> = Vec::new();
    let mut i: usize = 0;
    while i < agents.len()
        invariant
            i <= agents@.len(),
            forall|j: int|
                0 <= j < i && exists_still(#[trigger] agents@[j]) ==> wanted@.contains(
                    agents@[j].id,
                ),
            forall|k: int| 0 <= k < wanted@.len() ==> is_active(agents@, #[trigger] wanted@[k]),
        decreases agents@.len() - i,
    {
        if is_existing(&agents[i]) {
            let ghost before = wanted@;
            let id = agents[i].id;
            wanted.push(id);
            proof {
                assert(explains(agents@, id, 0));
                assert(wanted@.last() == id);
                assert forall|j: int|
                    0 <= j < i && exists_still(#[trigger] agents@[j]) implies wanted@.contains(
                    agents@[j].id,
                ) by {
                    let k = choose|k: int| 0 <= k < before.len() && before[k] == agents@[j].id;
                    assert(wanted@[k] == agents@[j].id);
                }
            }
        }
        i = i + 1;
    }
    let mut growing = true;
    while growing
        invariant
            forall|j: int|
                0 <= j < agents@.len() && exists_still(#[trigger] agents@[j]) ==> wanted@.contains(
                    agents@[j].id,
                ),
            forall|k: int| 0 <= k < wanted@.len() ==> is_active(agents@, #[trigger] wanted@[k]),
            !growing ==> closed_upwards(agents@, wanted@),
        decreases
                missing_parents(agents@, wanted@),
                (if growing {
                    1int
                } else {
                    0
                }),
    {
        let ghost start = wanted@;
        let ghost start_missing = missing_parents(agents@, wanted@);
        growing = false;
        let mut i: usize = 0;
        while i < agents.len()
            invariant
                i <= agents@.len(),
                forall|j: int|
                    0 <= j < agents@.len() && exists_still(#[trigger] agents@[j])
                        ==> wanted@.contains(agents@[j].id),
                forall|k: int| 0 <= k < wanted@.len() ==> is_active(agents@, #[trigger] wanted@[k]),
                !growing ==> wanted@ == start,
                !growing ==> forall|j: int|
                    0 <= j < i && wanted@.contains((#[trigger] agents@[j]).id)
                        && agents@[j].parent_agent_id is Some ==> wanted@.contains(
                        agents@[j].parent_agent_id->0,
                    ),
                start_missing == missing_parents(agents@, start),
                growing ==> missing_parents(agents@, wanted@) < start_missing,
            decreases agents@.len() - i,
        {
            if let Some(parent) = agents[i].parent_agent_id {
                if includes(&wanted, agents[i].id) && !includes(&wanted, parent) {
                    let ghost before = wanted@;
                    wanted.push(parent);
                    growing = true;
                    proof {
                        lemma_fewer_missing(agents@, before, parent);
                        assert(agents@[i as int].parent_agent_id == Some(parent));
                        let k = choose|k: int|
                            0 <= k < before.len() && before[k] == agents@[i as int].id;
                        assert(is_active(agents@, before[k]));
                        let steps = choose|steps: nat|
                            explains(agents@, agents@[i as int].id, steps);
                        assert(explains(agents@, parent, steps + 1));
                        assert forall|j: int|
                            0 <= j < agents@.len() && exists_still(
                                #[trigger] agents@[j],
                            ) implies wanted@.contains(agents@[j].id) by {
                            let m = choose|m: int|
                                0 <= m < before.len() && before[m] == agents@[j].id;
                            assert(wanted@[m] == agents@[j].id);
                        }
                        assert forall|k: int| 0 <= k < wanted@.len() implies is_active(
                            agents@,
                            #[trigger] wanted@[k],
                        ) by {
                            if k < before.len() {
                                assert(is_active(agents@, before[k]));
                            }
                        }
                    }
                }
            }
            i = i + 1;
        }
    }
    proof {
        assert forall|id: LogicalAgentId| #[trigger] wanted@.contains(id) <==> is_active(
            agents@,
            id,
        ) by {
            if wanted@.contains(id) {
                let k = choose|k: int| 0 <= k < wanted@.len() && wanted@[k] == id;
                assert(is_active(agents@, wanted@[k]));
            }
            if is_active(agents@, id) {
                let steps = choose|steps: nat| explains(agents@, id, steps);
                lemma_closed_holds_active(agents@, wanted@, id, steps);
            }
        }
    }
    wanted
}

/// The agents that a report shows, in order: all of them, or the active fleet.
pub open spec fn kept_of(agents: Seq<ReportAgent>, active: bool) -> Seq<ReportAgent> {
    kept_among(agents, agents, active)
}

/// Those of some agents that a report of a fleet shows.
pub open spec fn kept_among(
    some: Seq<ReportAgent>,
    fleet: Seq<ReportAgent>,
    active: bool,
) -> Seq<ReportAgent>
    decreases some.len(),
{
    if some.len() == 0 {
        Seq::empty()
    } else {
        let before = kept_among(some.drop_last(), fleet, active);
        if !active || is_active(fleet, some.last().id) {
            before.push(some.last())
        } else {
            before
        }
    }
}

/// Borrowed agents.
pub open spec fn unborrowed(agents: Seq<&ReportAgent>) -> Seq<ReportAgent> {
    agents.map_values(|agent: &ReportAgent| *agent)
}

/// The agents that a report shows: those that still exist, plus the lineage that
/// explains them, where only the active ones are asked for.
pub fn active_agents(agents: &Vec<ReportAgent>, active: bool) -> (kept: Vec<&ReportAgent>)
    ensures
        unborrowed(kept@) == kept_of(agents@, active),
{
    let wanted = wanted_ids(agents);
    let mut kept: Vec<&ReportAgent> = Vec::new();
    let mut i: usize = 0;
    assert(unborrowed(kept@) =~= Seq::empty());
    while i < agents.len()
        invariant
            i <= agents@.len(),
            unborrowed(kept@) == kept_among(agents@.take(i as int), agents@, active),
            forall|id: LogicalAgentId| #[trigger] wanted@.contains(id) <==> is_active(agents@, id),
        decreases agents@.len() - i,
    {
        let ghost next = agents@.take(i as int + 1);
        let ghost before = unborrowed(kept@);
        proof {
            assert(next.drop_last() =~= agents@.take(i as int));
            assert(next.last() == agents@[i as int]);
        }
        if !active || includes(&wanted, agents[i].id) {
            kept.push(&agents[i]);
            assert(unborrowed(kept@) =~= before.push(agents@[i as int]));
        }
        i = i + 1;
    }
    assert(agents@.take(agents@.len() as int) =~= agents@);
    kept
}

/// When the cycle of a renew is due.
///
/// For a scheduled repeating cycle this is its remaining active occupancy
/// projected onto the wall clock, so it does not run down while the incarnation is
/// idle. For a one-shot it is the arming due time. For a cycle already in flight it
/// is when that cycle left `scheduled`.
pub open spec fn cycle_due_of(renew: ReportRenew, now_ms: Option<i64>) -> int {
    match renew.active_remaining_ms {
        Some(remaining) => if renew.phase == RenewPhase::Scheduled {
            let now = match now_ms {
                Some(now) => now,
                None => renew.scheduled_at_ms,
            };
            if now + remaining > i64::MAX {
                i64::MAX as int
            } else if now + remaining < i64::MIN {
                i64::MIN as int
            } else {
                now + remaining
            }
        } else {
            renew.scheduled_at_ms as int
        },
        None => renew.scheduled_at_ms as int,
    }
}

/// When the cycle of a renew is due. `now_ms` is the clock, where it can be read.
pub fn cycle_due_at_ms(renew: &ReportRenew, now_ms: Option<i64>) -> (at: i64)
    ensures
        at == cycle_due_of(*renew, now_ms),
{
    if let Some(remaining) = renew.active_remaining_ms {
        if let RenewPhase::Scheduled = renew.phase {
            let now: i64 = match now_ms {
                Some(now) => now,
                None => renew.scheduled_at_ms,
            };
            return match now.checked_add(remaining) {
                Some(at) => at,
                None => if remaining > 0 {
                    i64::MAX
                } else {
                    i64::MIN
                },
            };
        }
    }
    renew.scheduled_at_ms
}

/// One armed renew.
pub open spec fn renew_view(renew: ReportRenew, now_ms: Option<i64>) -> JsonView {
    empty_object()
        .with("renew_id"@, id_view(renew.id.value))
        .with("phase"@, text_view(renew.phase.name()))
        .with("cycle"@, int_view(renew.cycle as int))
        .with("every_ms"@, optional_int_view(renew.every_ms))
        .with("cycle_due_at_ms"@, int_view(cycle_due_of(renew, now_ms)))
}

fn renew_json(renew: &ReportRenew, now_ms: Option<i64>) -> (r: Json)
    ensures
        r@ == renew_view(*renew, now_ms),
{
    Json::object()
        .with("renew_id", id_json(renew.id.value))
        .with("phase", Json::text(renew.phase.label()))
        .with("cycle", Json::integer(renew.cycle))
        .with("every_ms", optional_integer(renew.every_ms))
        .with("cycle_due_at_ms", Json::integer(cycle_due_at_ms(renew, now_ms)))
}

/// The newest operation on an incarnation.
pub open spec fn operation_view(operation: ReportOperation) -> JsonView {
    empty_object()
        .with("operation_id"@, id_view(operation.id.value))
        .with("kind"@, text_view(operation.kind@))
        .with("outcome"@, text_view(operation.outcome.name()))
}

/// The newest operation on an incarnation.
fn operation_json(operation: &ReportOperation) -> (result: Json)
    ensures
        result@ == operation_view(*operation),
{
    Json::object()
        .with("operation_id", id_json(operation.id.value))
        .with("kind", Json::text(operation.kind.as_str()))
        .with("outcome", Json::text(operation.outcome.label()))
}

/// What a launch asked for.
pub open spec fn requested_view(incarnation: ReportIncarnation) -> JsonView {
    empty_object()
        .with("model"@, optional_text_view(optional_text(incarnation.requested.model)))
        .with("provider"@, optional_text_view(optional_text(incarnation.requested.provider)))
        .with("effort"@, optional_text_view(optional_text(incarnation.requested.effort)))
        .with("backend_args"@, strings_view(incarnation.requested_backend_args@))
}

/// What a launch asked for.
fn requested_json(incarnation: &ReportIncarnation) -> (result: Json)
    ensures
        result@ == requested_view(*incarnation),
{
    Json::object()
        .with("model", Json::optional_text(&incarnation.requested.model))
        .with("provider", Json::optional_text(&incarnation.requested.provider))
        .with("effort", Json::optional_text(&incarnation.requested.effort))
        .with("backend_args", strings(&incarnation.requested_backend_args))
}

/// What is recorded of an incarnation itself.
pub open spec fn recorded_view(incarnation: ReportIncarnation) -> JsonView {
    empty_object()
        .with("incarnation_id"@, id_view(incarnation.id.value))
        .with("state"@, text_view(incarnation.state.name()))
        .with("backend_kind"@, text_view(incarnation.backend_kind@))
        .with("working_directory"@, text_view(incarnation.working_directory@))
        .with("herdr_session"@, text_view(incarnation.herdr_session@))
        .with("intended_pane_id"@, text_view(incarnation.intended_pane_id@))
        .with("expected_terminal_id"@, text_view(incarnation.expected_terminal_id@))
        .with("observed_pane_id"@, optional_text_view(optional_text(incarnation.observed_pane_id)))
        .with("observed_terminal_id"@, optional_text_view(optional_text(incarnation.observed_terminal_id)))
        .with("requested"@, requested_view(incarnation))
        .with("created_at_ms"@, int_view(incarnation.created_at_ms as int))
        .with("native_session_rotated_at_ms"@, optional_int_view(incarnation.native_session_rotated_at_ms))
        .with("terminal_at_ms"@, optional_int_view(incarnation.terminal_at_ms))
        .with("terminal_reason"@, optional_text_view(optional_text(incarnation.terminal_reason)))
}

/// What is recorded of an incarnation itself.
fn recorded_json(incarnation: &ReportIncarnation) -> (result: Json)
    ensures
        result@ == recorded_view(*incarnation),
{
    Json::object()
        .with("incarnation_id", id_json(incarnation.id.value))
        .with("state", Json::text(incarnation.state.label()))
        .with("backend_kind", Json::text(incarnation.backend_kind.as_str()))
        .with("working_directory", Json::text(incarnation.working_directory.as_str()))
        .with("herdr_session", Json::text(incarnation.herdr_session.as_str()))
        .with("intended_pane_id", Json::text(incarnation.intended_pane_id.as_str()))
        .with("expected_terminal_id", Json::text(incarnation.expected_terminal_id.as_str()))
        .with("observed_pane_id", Json::optional_text(&incarnation.observed_pane_id))
        .with("observed_terminal_id", Json::optional_text(&incarnation.observed_terminal_id))
        .with("requested", requested_json(incarnation))
        .with("created_at_ms", Json::integer(incarnation.created_at_ms))
        .with("native_session_rotated_at_ms", optional_integer(incarnation.native_session_rotated_at_ms))
        .with("terminal_at_ms", optional_integer(incarnation.terminal_at_ms))
        .with("terminal_reason", Json::optional_text(&incarnation.terminal_reason))
}

/// One incarnation, with its newest operation, its renew, and its live status
/// where a live snapshot was taken.
pub open spec fn incarnation_view(
    incarnation: ReportIncarnation,
    live: bool,
    now_ms: Option<i64>,
) -> JsonView {
    let base = recorded_view(incarnation)
        .with("latest_operation"@, match incarnation.latest_operation {
            Some(operation) => operation_view(operation),
            None => JsonView::Null,
        })
        .with("renew"@, match incarnation.renew {
            Some(renew) => renew_view(renew, now_ms),
            None => JsonView::Null,
        });
    if live {
        base.with("live"@, match incarnation.live_status {
            Some(status) => text_view(status.name()),
            None => JsonView::Null,
        })
    } else {
        base
    }
}

/// One incarnation as a document.
pub fn report_incarnation(
    incarnation: &ReportIncarnation,
    live: bool,
    now_ms: Option<i64>,
) -> (r: Json)
    ensures
        r@ == incarnation_view(*incarnation, live, now_ms),
{
    let operation = match &incarnation.latest_operation {
        Some(operation) => operation_json(operation),
        None => Json::Null,
    };
    let renew = match &incarnation.renew {
        Some(renew) => renew_json(renew, now_ms),
        None => Json::Null,
    };
    let mut r = recorded_json(incarnation)
        .with("latest_operation", operation)
        .with("renew", renew);
    if live {
        let status = match &incarnation.live_status {
            Some(status) => Json::text(status.label()),
            None => Json::Null,
        };
        r.put("live", status);
    }
    r
}

/// The incarnations of an agent.
pub open spec fn incarnations_view(
    incarnations: Seq<ReportIncarnation>,
    live: bool,
    now_ms: Option<i64>,
) -> JsonView {
    JsonView::List(
        incarnations.map_values(
            |incarnation: ReportIncarnation| incarnation_view(incarnation, live, now_ms),
        ),
    )
}

fn incarnations_json(
    incarnations: &Vec<ReportIncarnation>,
    live: bool,
    now_ms: Option<i64>,
) -> (r: Json)
    ensures
        r@ == incarnations_view(incarnations@, live, now_ms),
{
    let mut items: Vec<Json> = Vec::new();
    let mut i: usize = 0;
    while i < incarnations.len()
        invariant
            i <= incarnations@.len(),
            items@.len() == i,
            forall|j: int|
                0 <= j < i ==> (#[trigger] items@[j])@ == incarnation_view(
                    incarnations@[j],
                    live,
                    now_ms,
                ),
        decreases incarnations@.len() - i,
    {
        items.push(report_incarnation(&incarnations[i], live, now_ms));
        i = i + 1;
    }
    let r = Json::List(items);
    assert(r@->List_0 =~= incarnations_view(incarnations@, live, now_ms)->List_0);
    r
}

/// One agent.
pub open spec fn agent_view(agent: ReportAgent, live: bool, now_ms: Option<i64>) -> JsonView {
    empty_object()
        .with("agent_id"@, id_view(agent.id.value))
        .with("public_name"@, text_view(agent.public_name@))
        .with("parent_agent_id"@, optional_id_view(match agent.parent_agent_id {
            Some(parent) => Some(parent.value),
            None => None,
        }))
        .with("explicitly_parentless"@, JsonView::Bool(agent.explicitly_parentless))
        .with("created_at_ms"@, int_view(agent.created_at_ms as int))
        .with("incarnations"@, incarnations_view(agent.incarnations@, live, now_ms))
}

fn agent_json(agent: &ReportAgent, live: bool, now_ms: Option<i64>) -> (r: Json)
    ensures
        r@ == agent_view(*agent, live, now_ms),
{
    let parent = match agent.parent_agent_id {
        Some(parent) => Some(parent.value),
        None => None,
    };
    Json::object()
        .with("agent_id", id_json(agent.id.value))
        .with("public_name", Json::text(agent.public_name.as_str()))
        .with("parent_agent_id", optional_id(parent))
        .with("explicitly_parentless", Json::Bool(agent.explicitly_parentless))
        .with("created_at_ms", Json::integer(agent.created_at_ms))
        .with("incarnations", incarnations_json(&agent.incarnations, live, now_ms))
}

/// The agents of a report.
pub open spec fn agents_view(
    agents: Seq<ReportAgent>,
    live: bool,
    now_ms: Option<i64>,
) -> JsonView {
    JsonView::List(agents.map_values(|agent: ReportAgent| agent_view(agent, live, now_ms)))
}

fn agents_json(agents: &Vec<&ReportAgent>, live: bool, now_ms: Option<i64>) -> (r: Json)
    ensures
        r@ == agents_view(unborrowed(agents@), live, now_ms),
{
    let mut items: Vec<Json> = Vec::new();
    let mut i: usize = 0;
    while i < agents.len()
        invariant
            i <= agents@.len(),
            items@.len() == i,
            forall|j: int|
                0 <= j < i ==> (#[trigger] items@[j])@ == agent_view(*agents@[j], live, now_ms),
        decreases agents@.len() - i,
    {
        items.push(agent_json(agents[i], live, now_ms));
        i = i + 1;
    }
    let r = Json::List(items);
    assert(r@->List_0 =~= agents_view(unborrowed(agents@), live, now_ms)->List_0);
    r
}

/// The identifiers of the agents that go by a name.
pub open spec fn namesakes(agents: Seq<ReportAgent>, name: Seq<char>) -> Seq<JsonView>
    decreases agents.len(),
{
    if agents.len() == 0 {
        Seq::empty()
    } else {
        let before = namesakes(agents.drop_last(), name);
        if agents.last().public_name@ == name {
            before.push(id_view(agents.last().id.value))
        } else {
            before
        }
    }
}

fn namesakes_json(agents: &Vec<&ReportAgent>, name: &str) -> (items: Vec<Json>)
    ensures
        views(items@) == namesakes(unborrowed(agents@), name@),
{
    let mut items: Vec<Json> = Vec::new();
    let mut i: usize = 0;
    let ghost all = unborrowed(agents@);
    assert(views(items@) =~= Seq::empty());
    while i < agents.len()
        invariant
            i <= agents@.len(),
            all == unborrowed(agents@),
            views(items@) == namesakes(all.take(i as int), name@),
        decreases agents@.len() - i,
    {
        let ghost next = all.take(i as int + 1);
        let ghost before = views(items@);
        proof {
            assert(next.drop_last() =~= all.take(i as int));
            assert(next.last() == *agents@[i as int]);
        }
        if same(agents[i].public_name.as_str(), name) {
            items.push(id_json(agents[i].id.value));
            assert(views(items@) =~= before.push(id_view(agents@[i as int].id.value)));
        }
        i = i + 1;
    }
    assert(all.take(all.len() as int) =~= all);
    items
}

/// Names shared by more than one agent, each with those that share it. Counting
/// identical texts is arithmetic, not a verdict; whether a collision matters is the
/// caller's policy.
pub open spec fn collisions_view(agents: Seq<ReportAgent>, upto: int) -> JsonView
    decreases upto,
{
    if upto <= 0 || upto > agents.len() {
        empty_object()
    } else {
        let before = collisions_view(agents, upto - 1);
        let name = agents[upto - 1].public_name@;
        if namesakes(agents, name).len() > 1 {
            before.with(name, JsonView::List(namesakes(agents, name)))
        } else {
            before
        }
    }
}

fn collisions_json(agents: &Vec<&ReportAgent>) -> (r: Json)
    ensures
        r@ == collisions_view(unborrowed(agents@), agents@.len() as int),
{
    let mut r = Json::object();
    let ghost all = unborrowed(agents@);
    let mut i: usize = 0;
    while i < agents.len()
        invariant
            i <= agents@.len(),
            all == unborrowed(agents@),
            r@ == collisions_view(all, i as int),
        decreases agents@.len() - i,
    {
        assert(all[i as int] == *agents@[i as int]);
        let name = agents[i].public_name.as_str();
        let shared = namesakes_json(agents, name);
        if shared.len() > 1 {
            proof {
                lemma_list_view(shared);
            }
            r.put(name, Json::List(shared));
        }
        i = i + 1;
    }
    r
}

/// One obligation to answer.
pub open spec fn obligation_view(owed: ReportObligation) -> JsonView {
    empty_object()
        .with("ask_message_id"@, id_view(owed.ask_message_id.value))
        .with("owing_agent_id"@, id_view(owed.owing_agent_id.value))
        .with("waiting_agent_id"@, id_view(owed.waiting_agent_id.value))
        .with("state"@, text_view(owed.state.name()))
        .with("created_at_ms"@, int_view(owed.created_at_ms as int))
        .with("last_activity_at_ms"@, int_view(owed.last_activity_at_ms as int))
        .with("resolving_message_id"@, optional_id_view(match owed.resolving_message_id { Some(id) => Some(id.value), None => None }))
}

/// One obligation to answer.
fn obligation_json(owed: ReportObligation) -> (result: Json)
    ensures
        result@ == obligation_view(owed),
{
    Json::object()
        .with("ask_message_id", id_json(owed.ask_message_id.value))
        .with("owing_agent_id", id_json(owed.owing_agent_id.value))
        .with("waiting_agent_id", id_json(owed.waiting_agent_id.value))
        .with("state", Json::text(owed.state.label()))
        .with("created_at_ms", Json::integer(owed.created_at_ms))
        .with("last_activity_at_ms", Json::integer(owed.last_activity_at_ms))
        .with("resolving_message_id", optional_id(match owed.resolving_message_id { Some(id) => Some(id.value), None => None }))
}

/// Whether an agent is among some.
pub open spec fn is_among(agents: Seq<ReportAgent>, id: LogicalAgentId) -> bool {
    exists|i: int| 0 <= i < agents.len() && (#[trigger] agents[i]).id == id
}

fn among(agents: &Vec<&ReportAgent>, id: LogicalAgentId) -> (r: bool)
    ensures
        r == is_among(unborrowed(agents@), id),
{
    let ghost all = unborrowed(agents@);
    let mut i: usize = 0;
    while i < agents.len()
        invariant
            i <= agents@.len(),
            all == unborrowed(agents@),
            forall|j: int| 0 <= j < i ==> (#[trigger] all[j]).id != id,
        decreases agents@.len() - i,
    {
        assert(all[i as int] == *agents@[i as int]);
        if agents[i].id.value == id.value {
            assert(all[i as int].id == id);
            return true;
        }
        i = i + 1;
    }
    false
}

/// The obligations of a report: all of them, or those that a shown agent owes.
pub open spec fn obligations_of(
    obligations: Seq<ReportObligation>,
    kept: Seq<ReportAgent>,
    active: bool,
) -> Seq<JsonView>
    decreases obligations.len(),
{
    if obligations.len() == 0 {
        Seq::empty()
    } else {
        let before = obligations_of(obligations.drop_last(), kept, active);
        if !active || is_among(kept, obligations.last().owing_agent_id) {
            before.push(obligation_view(obligations.last()))
        } else {
            before
        }
    }
}

fn obligations_json(
    obligations: &Vec<ReportObligation>,
    kept: &Vec<&ReportAgent>,
    active: bool,
) -> (r: Json)
    ensures
        r@ == JsonView::List(obligations_of(obligations@, unborrowed(kept@), active)),
{
    let mut items: Vec<Json> = Vec::new();
    let mut i: usize = 0;
    assert(views(items@) =~= Seq::empty());
    while i < obligations.len()
        invariant
            i <= obligations@.len(),
            views(items@) == obligations_of(
                obligations@.take(i as int),
                unborrowed(kept@),
                active,
            ),
        decreases obligations@.len() - i,
    {
        let ghost next = obligations@.take(i as int + 1);
        let ghost before = views(items@);
        proof {
            assert(next.drop_last() =~= obligations@.take(i as int));
            assert(next.last() == obligations@[i as int]);
        }
        let owed = obligations[i];
        if !active || among(kept, owed.owing_agent_id) {
            items.push(obligation_json(owed));
            assert(views(items@) =~= before.push(obligation_view(owed)));
        }
        i = i + 1;
    }
    assert(obligations@.take(obligations@.len() as int) =~= obligations@);
    proof {
        lemma_list_view(items);
    }
    Json::List(items)
}

/// The report as a document.
pub open spec fn report_view(
    report: FleetReport,
    active: bool,
    live: bool,
    now_ms: Option<i64>,
) -> JsonView {
    let kept = kept_of(report.agents@, active);
    let base = empty_object()
        .with("generated_at_ms"@, int_view(report.generated_at_ms as int))
        .with("agents"@, agents_view(kept, live, now_ms))
        .with("obligations"@, JsonView::List(obligations_of(report.obligations@, kept, active)))
        .with("alias_collisions"@, collisions_view(kept, kept.len() as int));
    if live {
        base.with("live_snapshot_at_ms"@, int_view(report.generated_at_ms as int))
    } else {
        base
    }
}

/// The report as a document. `live` tells whether a live snapshot was taken, and
/// `now_ms` is the clock, where it can be read.
pub fn render_report(
    report: &FleetReport,
    active: bool,
    live: bool,
    now_ms: Option<i64>,
) -> (r: Json)
    ensures
        r@ == report_view(*report, active, live, now_ms),
{
    let kept = active_agents(&report.agents, active);
    assert(unborrowed(kept@).len() == kept@.len());
    let mut r = Json::object()
        .with("generated_at_ms", Json::integer(report.generated_at_ms))
        .with("agents", agents_json(&kept, live, now_ms))
        .with("obligations", obligations_json(&report.obligations, &kept, active))
        .with("alias_collisions", collisions_json(&kept));
    if live {
        r.put("live_snapshot_at_ms", Json::integer(report.generated_at_ms));
    }
    r
}

/// The lineage of a shown agent is shown: the parent of an agent of the active
/// fleet belongs to it too.
pub proof fn law_lineage_is_kept(agents: Seq<ReportAgent>, at: int)
    requires
        0 <= at < agents.len(),
        is_active(agents, agents[at].id),
        agents[at].parent_agent_id is Some,
    ensures
        is_active(agents, agents[at].parent_agent_id->0),
{
    let steps = choose|steps: nat| explains(agents, agents[at].id, steps);
    assert(explains(agents, agents[at].parent_agent_id->0, steps + 1));
}

} // verus!
