//! What a report shows: of whom, in which order, and what of each.

use vstd::prelude::*;

use super::errors::optional_text;
use super::report::{
    agent_view, collisions_view, cycle_due_of, exists_still, explains, incarnation_view,
    incarnations_view, is_active, is_among, kept_among, kept_of, namesakes, obligation_view,
    obligations_of, operation_view, recorded_view, renew_view, report_view, requested_view,
    FleetReport, ReportAgent, ReportIncarnation, ReportObligation, ReportOperation, ReportRenew,
};
use super::results::{id_view, optional_id_view, optional_int_view, strings_view};
use crate::domain::{IncarnationState, LogicalAgentId, RenewPhase};
use crate::json::{
    int_view, lemma_empty_get, lemma_with_get, lemma_with_is_object, optional_text_view, text_view,
    JsonView,
};

verus! {

/// Whether places pick out, in order, exactly those of some agents that belong to a report
/// of the fleet: all of them, or the active ones.
pub open spec fn are_places(
    places: Seq<int>,
    some: Seq<ReportAgent>,
    fleet: Seq<ReportAgent>,
    active: bool,
) -> bool {
    &&& forall|k: int|
        0 <= k < places.len() ==> 0 <= #[trigger] places[k] < some.len() && (active ==> is_active(
            fleet,
            some[places[k]].id,
        ))
    &&& forall|j: int, k: int|
        0 <= j < k < places.len() ==> #[trigger] places[j] < #[trigger] places[k]
    &&& forall|i: int|
        0 <= i < some.len() && (active ==> is_active(fleet, (#[trigger] some[i]).id))
            ==> places.contains(i)
}

proof fn lemma_kept_places(some: Seq<ReportAgent>, fleet: Seq<ReportAgent>, active: bool) -> (
    places: Seq<int>)
    ensures
        are_places(places, some, fleet, active),
        kept_among(some, fleet, active) == places.map_values(|i: int| some[i]),
    decreases some.len(),
{
    if some.len() == 0 {
        let places = Seq::<int>::empty();
        assert(kept_among(some, fleet, active) =~= places.map_values(|i: int| some[i]));
        places
    } else {
        let rest = some.drop_last();
        let before = lemma_kept_places(rest, fleet, active);
        let last = some.len() - 1;
        let kept = kept_among(rest, fleet, active);
        assert forall|k: int| 0 <= k < before.len() implies 0 <= #[trigger] before[k] < last
            && some[before[k]] == rest[before[k]] by {}
        assert(before.map_values(|i: int| some[i]) =~= kept);
        if !active || is_active(fleet, some[last].id) {
            let places = before.push(last);
            assert(kept_among(some, fleet, active) =~= places.map_values(|i: int| some[i]));
            assert forall|i: int|
                0 <= i < some.len() && (active ==> is_active(fleet, (#[trigger] some[i]).id)) implies
                places.contains(i) by {
                if i < last {
                    assert(rest[i] == some[i]);
                    assert(before.contains(i));
                    let k = choose|k: int| 0 <= k < before.len() && before[k] == i;
                    assert(places[k] == i);
                } else {
                    assert(places[before.len() as int] == i);
                }
            }
            places
        } else {
            assert(kept_among(some, fleet, active) =~= before.map_values(|i: int| some[i]));
            assert forall|i: int|
                0 <= i < some.len() && (active ==> is_active(fleet, (#[trigger] some[i]).id)) implies
                before.contains(i) by {
                if i < last {
                    assert(rest[i] == some[i]);
                }
            }
            before
        }
    }
}

/// Whether the entries of a report are those of the agents at some places, in order.
pub open spec fn are_entries(
    entries: Seq<JsonView>,
    places: Seq<int>,
    agents: Seq<ReportAgent>,
) -> bool {
    entries.len() == places.len() && forall|k: int|
        0 <= k < entries.len() ==> (#[trigger] entries[k]).get("agent_id"@) == Some(
            id_view(agents[places[k]].id.value),
        )
}

/// The agents of a report are, in order, those that belong to it: every agent of the fleet,
/// or, where only the active ones are wanted, each that is active and no other.
pub proof fn law_report_lists_whom_it_is_of(
    report: FleetReport,
    active: bool,
    live: bool,
    now_ms: Option<i64>,
)
    ensures
        exists|places: Seq<int>|
            are_places(places, report.agents@, report.agents@, active) && #[trigger] are_entries(
                report_view(report, active, live, now_ms).at("agents"@).items(),
                places,
                report.agents@,
            ),
{
    let agents = report.agents@;
    let kept = kept_of(agents, active);
    let places = lemma_kept_places(agents, agents, active);
    law_report_holds_its_parts(report, active, live, now_ms);
    let entries = report_view(report, active, live, now_ms).at("agents"@).items();
    assert(entries =~= kept.map_values(|agent: ReportAgent| agent_view(agent, live, now_ms)));
    assert forall|k: int| 0 <= k < entries.len() implies (#[trigger] entries[k]).get("agent_id"@)
        == Some(id_view(agents[places[k]].id.value)) by {
        assert(kept[k] == agents[places[k]]);
        law_shown_agent_holds_what_is_recorded(kept[k], live, now_ms);
    }
    assert(are_entries(entries, places, agents));
}

/// A report of the whole fleet has one entry for every agent.
pub proof fn law_whole_report_lists_everybody(
    report: FleetReport,
    live: bool,
    now_ms: Option<i64>,
)
    ensures
        ({
            let entries = report_view(report, false, live, now_ms).at("agents"@).items();
            entries.len() == report.agents@.len() && forall|i: int|
                0 <= i < entries.len() ==> (#[trigger] entries[i]).get("agent_id"@) == Some(
                    id_view(report.agents@[i].id.value),
                )
        }),
{
    let agents = report.agents@;
    lemma_all_kept(agents, agents);
    law_report_holds_its_parts(report, false, live, now_ms);
    let entries = report_view(report, false, live, now_ms).at("agents"@).items();
    assert(entries =~= agents.map_values(|agent: ReportAgent| agent_view(agent, live, now_ms)));
    assert forall|i: int| 0 <= i < entries.len() implies (#[trigger] entries[i]).get("agent_id"@)
        == Some(id_view(agents[i].id.value)) by {
        law_shown_agent_holds_what_is_recorded(agents[i], live, now_ms);
    }
}

proof fn lemma_all_kept(some: Seq<ReportAgent>, fleet: Seq<ReportAgent>)
    ensures
        kept_among(some, fleet, false) == some,
    decreases some.len(),
{
    if some.len() > 0 {
        lemma_all_kept(some.drop_last(), fleet);
        assert(some.drop_last().push(some.last()) =~= some);
    } else {
        assert(kept_among(some, fleet, false) =~= some);
    }
}

/// Somebody who exists is active, and nobody is where nobody exists.
pub proof fn law_active_fleet_is_of_those_who_exist(agents: Seq<ReportAgent>, at: int)
    requires
        0 <= at < agents.len(),
    ensures
        exists_still(agents[at]) ==> is_active(agents, agents[at].id),
        (forall|i: int| 0 <= i < agents.len() ==> !exists_still(#[trigger] agents[i]))
            ==> !is_active(agents, agents[at].id),
{
    if exists_still(agents[at]) {
        assert(explains(agents, agents[at].id, 0));
    }
    if forall|i: int| 0 <= i < agents.len() ==> !exists_still(#[trigger] agents[i]) {
        assert forall|steps: nat| !explains(agents, agents[at].id, steps) by {
            lemma_nobody_explains(agents, agents[at].id, steps);
        }
    }
}

proof fn lemma_nobody_explains(agents: Seq<ReportAgent>, id: LogicalAgentId, steps: nat)
    requires
        forall|i: int| 0 <= i < agents.len() ==> !exists_still(#[trigger] agents[i]),
    ensures
        !explains(agents, id, steps),
    decreases steps,
{
    if steps > 0 {
        assert forall|i: int| 0 <= i < agents.len() implies !explains(
            agents,
            (#[trigger] agents[i]).id,
            (steps - 1) as nat,
        ) by {
            lemma_nobody_explains(agents, agents[i].id, (steps - 1) as nat);
        }
    }
}

/// An agent exists by its newest incarnation alone: while that is starting, ready, or not
/// known to have ended.
pub proof fn law_agent_exists_by_its_newest_incarnation(agent: ReportAgent)
    ensures
        agent.incarnations@.len() == 0 ==> !exists_still(agent),
        agent.incarnations@.len() > 0 ==> exists_still(agent) == match agent.incarnations@[0].state {
            IncarnationState::Ready | IncarnationState::Starting | IncarnationState::Unknown => true,
            IncarnationState::Declared | IncarnationState::Failed | IncarnationState::Retiring
            | IncarnationState::Retired | IncarnationState::Lost
            | IncarnationState::Superseded => false,
        },
{
}

/// An agent is shown with its name, its lineage and its incarnations in order.
#[verifier::spinoff_prover]
#[verifier::rlimit(30)]
pub proof fn law_shown_agent_holds_what_is_recorded(agent: ReportAgent, live: bool, now_ms: Option<i64>)
    ensures
        ({
            let shown = agent_view(agent, live, now_ms);
            &&& shown.get("agent_id"@) == Some(id_view(agent.id.value))
            &&& shown.get("public_name"@) == Some(text_view(agent.public_name@))
            &&& shown.get("parent_agent_id"@) == Some(optional_id_view(
                match agent.parent_agent_id {
                    Some(id) => Some(id.value),
                    None => None,
                },
            ))
            &&& shown.get("explicitly_parentless"@) == Some(JsonView::Bool(agent.explicitly_parentless))
            &&& shown.get("created_at_ms"@) == Some(int_view(agent.created_at_ms as int))
            &&& shown.get("incarnations"@) == Some(JsonView::List(
                Seq::new(
                    agent.incarnations@.len(),
                    |i: int| incarnation_view(agent.incarnations@[i], live, now_ms),
                ),
            ))
        }),
{
    broadcast use {lemma_with_get, lemma_with_is_object, lemma_empty_get};

    assert(incarnations_view(agent.incarnations@, live, now_ms)->List_0 =~= Seq::new(
        agent.incarnations@.len(),
        |i: int| incarnation_view(agent.incarnations@[i], live, now_ms),
    ));
    reveal_strlit("agent_id");
    reveal_strlit("public_name");
    reveal_strlit("parent_agent_id");
    reveal_strlit("explicitly_parentless");
    reveal_strlit("created_at_ms");
    reveal_strlit("incarnations");
    assert("agent_id"@.len() == 8);
    assert("public_name"@.len() == 11);
    assert("parent_agent_id"@.len() == 15);
    assert("explicitly_parentless"@.len() == 21);
    assert("created_at_ms"@.len() == 13);
    assert("incarnations"@.len() == 12);
}

/// An incarnation is shown with what is recorded of it, what was planned apart from what was
/// observed.
#[verifier::spinoff_prover]
#[verifier::rlimit(100)]
pub proof fn law_shown_incarnation_holds_what_is_recorded(incarnation: ReportIncarnation)
    ensures
        ({
            let shown = recorded_view(incarnation);
            &&& shown.get("incarnation_id"@) == Some(id_view(incarnation.id.value))
            &&& shown.get("state"@) == Some(text_view(incarnation.state.name()))
            &&& shown.get("backend_kind"@) == Some(text_view(incarnation.backend_kind@))
            &&& shown.get("working_directory"@) == Some(text_view(incarnation.working_directory@))
            &&& shown.get("herdr_session"@) == Some(text_view(incarnation.herdr_session@))
            &&& shown.get("intended_pane_id"@) == Some(text_view(incarnation.intended_pane_id@))
            &&& shown.get("expected_terminal_id"@) == Some(text_view(incarnation.expected_terminal_id@))
            &&& shown.get("observed_pane_id"@) == Some(optional_text_view(optional_text(incarnation.observed_pane_id)))
            &&& shown.get("observed_terminal_id"@) == Some(optional_text_view(optional_text(incarnation.observed_terminal_id)))
            &&& shown.get("created_at_ms"@) == Some(int_view(incarnation.created_at_ms as int))
            &&& shown.get("native_session_rotated_at_ms"@) == Some(optional_int_view(incarnation.native_session_rotated_at_ms))
            &&& shown.get("terminal_at_ms"@) == Some(optional_int_view(incarnation.terminal_at_ms))
            &&& shown.get("terminal_reason"@) == Some(optional_text_view(optional_text(incarnation.terminal_reason)))
            &&& shown.get("requested"@) == Some(requested_view(incarnation))
        }),
{
    broadcast use {lemma_with_get, lemma_with_is_object, lemma_empty_get};

    reveal_strlit("incarnation_id");
    reveal_strlit("state");
    reveal_strlit("backend_kind");
    reveal_strlit("working_directory");
    reveal_strlit("herdr_session");
    reveal_strlit("intended_pane_id");
    reveal_strlit("expected_terminal_id");
    reveal_strlit("observed_pane_id");
    reveal_strlit("observed_terminal_id");
    reveal_strlit("created_at_ms");
    reveal_strlit("native_session_rotated_at_ms");
    reveal_strlit("terminal_at_ms");
    reveal_strlit("terminal_reason");
    reveal_strlit("requested");
    assert("incarnation_id"@.len() == 14);
    assert("state"@.len() == 5);
    assert("backend_kind"@.len() == 12);
    assert("working_directory"@.len() == 17);
    assert("herdr_session"@.len() == 13);
    assert("intended_pane_id"@.len() == 16);
    assert("expected_terminal_id"@.len() == 20);
    assert("observed_pane_id"@.len() == 16);
    assert("observed_terminal_id"@.len() == 20);
    assert("created_at_ms"@.len() == 13);
    assert("native_session_rotated_at_ms"@.len() == 28);
    assert("terminal_at_ms"@.len() == 14);
    assert("terminal_reason"@.len() == 15);
    assert("requested"@.len() == 9);
    assert("incarnation_id"@[0] == 'i');
    assert("terminal_at_ms"@[0] == 't');
    assert("herdr_session"@[0] == 'h');
    assert("created_at_ms"@[0] == 'c');
    assert("intended_pane_id"@[0] == 'i');
    assert("observed_pane_id"@[0] == 'o');
    assert("expected_terminal_id"@[0] == 'e');
    assert("observed_terminal_id"@[0] == 'o');
}

/// What is shown beside the record of an incarnation leaves the record as it is, and the live
/// status is shown only where a live report was asked for.
#[verifier::spinoff_prover]
#[verifier::rlimit(60)]
pub proof fn law_shown_incarnation_keeps_its_record(
    incarnation: ReportIncarnation,
    live: bool,
    now_ms: Option<i64>,
    name: Seq<char>,
)
    ensures
        ({
            let shown = incarnation_view(incarnation, live, now_ms);
            &&& shown.get("latest_operation"@) == Some(
                match incarnation.latest_operation {
                    Some(operation) => operation_view(operation),
                    None => JsonView::Null,
                },
            )
            &&& shown.get("renew"@) == Some(
                match incarnation.renew {
                    Some(renew) => renew_view(renew, now_ms),
                    None => JsonView::Null,
                },
            )
            &&& live ==> shown.get("live"@) == Some(
                match incarnation.live_status {
                    Some(status) => text_view(status.name()),
                    None => JsonView::Null,
                },
            )
            &&& !live ==> shown.get("live"@) == recorded_view(incarnation).get("live"@)
            &&& name != "latest_operation"@ && name != "renew"@ && name != "live"@ ==> shown.get(name)
                == recorded_view(incarnation).get(name)
        }),
{
    broadcast use {lemma_with_get, lemma_with_is_object, lemma_empty_get};

    reveal_strlit("latest_operation");
    reveal_strlit("renew");
    reveal_strlit("live");
    assert("latest_operation"@.len() == 16);
    assert("renew"@.len() == 5);
    assert("live"@.len() == 4);
}

/// What was requested of an incarnation is shown part by part.
#[verifier::spinoff_prover]
#[verifier::rlimit(30)]
pub proof fn law_shown_request_is_what_was_requested(incarnation: ReportIncarnation)
    ensures
        ({
            let shown = requested_view(incarnation);
            &&& shown.get("model"@) == Some(optional_text_view(optional_text(incarnation.requested.model)))
            &&& shown.get("provider"@) == Some(optional_text_view(optional_text(incarnation.requested.provider)))
            &&& shown.get("effort"@) == Some(optional_text_view(optional_text(incarnation.requested.effort)))
            &&& shown.get("backend_args"@) == Some(strings_view(incarnation.requested_backend_args@))
        }),
{
    broadcast use {lemma_with_get, lemma_with_is_object, lemma_empty_get};

    reveal_strlit("model");
    reveal_strlit("provider");
    reveal_strlit("effort");
    reveal_strlit("backend_args");
    assert("model"@.len() == 5);
    assert("provider"@.len() == 8);
    assert("effort"@.len() == 6);
    assert("backend_args"@.len() == 12);
}

/// A policy is shown with its phase, its cycle and when it comes due.
#[verifier::spinoff_prover]
#[verifier::rlimit(30)]
pub proof fn law_shown_renew_holds_what_is_recorded(renew: ReportRenew, now_ms: Option<i64>)
    ensures
        ({
            let shown = renew_view(renew, now_ms);
            &&& shown.get("renew_id"@) == Some(id_view(renew.id.value))
            &&& shown.get("phase"@) == Some(text_view(renew.phase.name()))
            &&& shown.get("cycle"@) == Some(int_view(renew.cycle as int))
            &&& shown.get("every_ms"@) == Some(optional_int_view(renew.every_ms))
            &&& shown.get("cycle_due_at_ms"@) == Some(int_view(cycle_due_of(renew, now_ms)))
        }),
{
    broadcast use {lemma_with_get, lemma_with_is_object, lemma_empty_get};

    reveal_strlit("renew_id");
    reveal_strlit("phase");
    reveal_strlit("cycle");
    reveal_strlit("every_ms");
    reveal_strlit("cycle_due_at_ms");
    assert("renew_id"@.len() == 8);
    assert("phase"@.len() == 5);
    assert("cycle"@.len() == 5);
    assert("every_ms"@.len() == 8);
    assert("cycle_due_at_ms"@.len() == 15);
    assert("renew_id"@[0] == 'r');
    assert("every_ms"@[0] == 'e');
    assert("phase"@[0] == 'p');
    assert("cycle"@[0] == 'c');
}

/// An operation is shown with its kind and its outcome.
#[verifier::spinoff_prover]
#[verifier::rlimit(30)]
pub proof fn law_shown_operation_holds_what_is_recorded(operation: ReportOperation)
    ensures
        ({
            let shown = operation_view(operation);
            &&& shown.get("operation_id"@) == Some(id_view(operation.id.value))
            &&& shown.get("kind"@) == Some(text_view(operation.kind@))
            &&& shown.get("outcome"@) == Some(text_view(operation.outcome.name()))
        }),
{
    broadcast use {lemma_with_get, lemma_with_is_object, lemma_empty_get};

    reveal_strlit("operation_id");
    reveal_strlit("kind");
    reveal_strlit("outcome");
    assert("operation_id"@.len() == 12);
    assert("kind"@.len() == 4);
    assert("outcome"@.len() == 7);
}

/// An obligation is shown with who owes the answer and who waits for it.
#[verifier::spinoff_prover]
#[verifier::rlimit(60)]
pub proof fn law_shown_obligation_holds_what_is_recorded(owed: ReportObligation)
    ensures
        ({
            let shown = obligation_view(owed);
            &&& shown.get("ask_message_id"@) == Some(id_view(owed.ask_message_id.value))
            &&& shown.get("owing_agent_id"@) == Some(id_view(owed.owing_agent_id.value))
            &&& shown.get("waiting_agent_id"@) == Some(id_view(owed.waiting_agent_id.value))
            &&& shown.get("state"@) == Some(text_view(owed.state.name()))
            &&& shown.get("created_at_ms"@) == Some(int_view(owed.created_at_ms as int))
            &&& shown.get("last_activity_at_ms"@) == Some(int_view(owed.last_activity_at_ms as int))
            &&& shown.get("resolving_message_id"@) == Some(optional_id_view(
                match owed.resolving_message_id {
                    Some(id) => Some(id.value),
                    None => None,
                },
            ))
        }),
{
    broadcast use {lemma_with_get, lemma_with_is_object, lemma_empty_get};

    reveal_strlit("ask_message_id");
    reveal_strlit("owing_agent_id");
    reveal_strlit("waiting_agent_id");
    reveal_strlit("state");
    reveal_strlit("created_at_ms");
    reveal_strlit("last_activity_at_ms");
    reveal_strlit("resolving_message_id");
    assert("ask_message_id"@.len() == 14);
    assert("owing_agent_id"@.len() == 14);
    assert("waiting_agent_id"@.len() == 16);
    assert("state"@.len() == 5);
    assert("created_at_ms"@.len() == 13);
    assert("last_activity_at_ms"@.len() == 19);
    assert("resolving_message_id"@.len() == 20);
    assert("ask_message_id"@[0] == 'a');
    assert("owing_agent_id"@[0] == 'o');
}

/// A report says when it was made, and holds the agents, what they owe and the names that they
/// share.
#[verifier::spinoff_prover]
#[verifier::rlimit(30)]
pub proof fn law_report_holds_its_parts(report: FleetReport, active: bool, live: bool, now_ms: Option<i64>)
    ensures
        ({
            let shown = report_view(report, active, live, now_ms);
            &&& shown.get("generated_at_ms"@) == Some(int_view(report.generated_at_ms as int))
            &&& shown.get("agents"@) == Some(JsonView::List(
                kept_of(report.agents@, active).map_values(
                    |agent: ReportAgent| agent_view(agent, live, now_ms),
                ),
            ))
            &&& shown.get("obligations"@) == Some(JsonView::List(
                obligations_of(report.obligations@, kept_of(report.agents@, active), active),
            ))
            &&& shown.get("alias_collisions"@) == Some(collisions_view(
                kept_of(report.agents@, active),
                kept_of(report.agents@, active).len() as int,
            ))
        }),
{
    broadcast use {lemma_with_get, lemma_with_is_object, lemma_empty_get};

    reveal_strlit("generated_at_ms");
    reveal_strlit("agents");
    reveal_strlit("obligations");
    reveal_strlit("alias_collisions");
    reveal_strlit("live_snapshot_at_ms");
    assert("generated_at_ms"@.len() == 15);
    assert("agents"@.len() == 6);
    assert("obligations"@.len() == 11);
    assert("alias_collisions"@.len() == 16);
    assert("live_snapshot_at_ms"@.len() == 19);
}

/// A policy that counts active time comes due once the rest of it has passed from now on;
/// any other comes due when it was scheduled.
pub proof fn law_cycle_comes_due(renew: ReportRenew, now_ms: i64)
    ensures
        renew.active_remaining_ms is None ==> cycle_due_of(renew, Some(now_ms))
            == renew.scheduled_at_ms,
        renew.phase != RenewPhase::Scheduled ==> cycle_due_of(renew, Some(now_ms))
            == renew.scheduled_at_ms,
        renew.active_remaining_ms matches Some(left) ==> (renew.phase == RenewPhase::Scheduled
            && i64::MIN <= now_ms + left <= i64::MAX ==> cycle_due_of(renew, Some(now_ms)) - now_ms
            == left),
{
}

/// A report of the whole fleet shows every obligation, in order; one of the active fleet
/// shows those that somebody who is shown owes, and no other.
pub proof fn law_obligations_are_of_those_shown(
    obligations: Seq<ReportObligation>,
    kept: Seq<ReportAgent>,
    active: bool,
    at: int,
)
    requires
        0 <= at < obligations.len(),
    ensures
        !active ==> obligations_of(obligations, kept, active).len() == obligations.len()
            && obligations_of(obligations, kept, active)[at] == obligation_view(obligations[at]),
        active && is_among(kept, obligations[at].owing_agent_id) ==> obligations_of(
            obligations,
            kept,
            active,
        ).contains(obligation_view(obligations[at])),
        active ==> forall|k: int|
            0 <= k < obligations_of(obligations, kept, active).len() ==> exists|i: int|
                0 <= i < obligations.len() && is_among(
                    kept,
                    (#[trigger] obligations[i]).owing_agent_id,
                ) && obligation_view(obligations[i]) == #[trigger] obligations_of(
                    obligations,
                    kept,
                    active,
                )[k],
    decreases obligations.len(),
{
    let rest = obligations.drop_last();
    let last = obligations.len() - 1;
    let before = obligations_of(rest, kept, active);
    let all = obligations_of(obligations, kept, active);
    if rest.len() > 0 {
        law_obligations_are_of_those_shown(rest, kept, active, if at < last { at } else { 0 });
    }
    if at < last {
        assert(rest[at] == obligations[at]);
        if active && is_among(kept, obligations[at].owing_agent_id) {
            let k = choose|k: int|
                0 <= k < before.len() && before[k] == obligation_view(obligations[at]);
            assert(all[k] == before[k]);
        }
    } else if !active || is_among(kept, obligations[last].owing_agent_id) {
        assert(all[before.len() as int] == obligation_view(obligations[last]));
    }
    if active {
        assert forall|k: int| 0 <= k < all.len() implies exists|i: int|
            0 <= i < obligations.len() && is_among(kept, (#[trigger] obligations[i]).owing_agent_id)
                && obligation_view(obligations[i]) == #[trigger] all[k] by {
            if k < before.len() {
                assert(all[k] == before[k]);
                let i = choose|i: int|
                    0 <= i < rest.len() && is_among(kept, (#[trigger] rest[i]).owing_agent_id)
                        && obligation_view(rest[i]) == before[k];
                assert(obligations[i] == rest[i]);
            } else {
                assert(obligations[last].owing_agent_id == obligations[last].owing_agent_id);
            }
        }
    }
}

/// A name is told as shared exactly where several of the shown agents have it, and then with
/// their identifiers.
pub proof fn law_shared_names_are_told(agents: Seq<ReportAgent>, upto: int, name: Seq<char>)
    requires
        0 <= upto <= agents.len(),
    ensures
        collisions_view(agents, upto) is Object,
        collisions_view(agents, upto).get(name) == if namesakes(agents, name).len() > 1 && (exists|
            i: int,
        |
            0 <= i < upto && (#[trigger] agents[i]).public_name@ == name) {
            Some(JsonView::List(namesakes(agents, name)))
        } else {
            None
        },
    decreases upto,
{
    broadcast use {lemma_with_get, lemma_with_is_object, lemma_empty_get};

    if upto > 0 {
        law_shared_names_are_told(agents, upto - 1, name);
        assert(agents[upto - 1].public_name@ == agents[upto - 1].public_name@);
    }
}

/// The namesakes are the identifiers of the agents of that name.
pub proof fn law_namesakes_have_the_name(agents: Seq<ReportAgent>, name: Seq<char>, at: int)
    requires
        0 <= at < agents.len(),
    ensures
        agents[at].public_name@ == name ==> namesakes(agents, name).contains(
            id_view(agents[at].id.value),
        ),
        forall|k: int|
            0 <= k < namesakes(agents, name).len() ==> exists|i: int|
                0 <= i < agents.len() && (#[trigger] agents[i]).public_name@ == name && id_view(
                    agents[i].id.value,
                ) == #[trigger] namesakes(agents, name)[k],
    decreases agents.len(),
{
    let rest = agents.drop_last();
    let last = agents.len() - 1;
    let before = namesakes(rest, name);
    let all = namesakes(agents, name);
    if rest.len() > 0 {
        law_namesakes_have_the_name(rest, name, if at < last { at } else { 0 });
    }
    if at < last {
        assert(rest[at] == agents[at]);
        if agents[at].public_name@ == name {
            let k = choose|k: int| 0 <= k < before.len() && before[k] == id_view(agents[at].id.value);
            assert(all[k] == before[k]);
        }
    } else if agents[last].public_name@ == name {
        assert(all[before.len() as int] == id_view(agents[last].id.value));
    }
    assert forall|k: int| 0 <= k < all.len() implies exists|i: int|
        0 <= i < agents.len() && (#[trigger] agents[i]).public_name@ == name && id_view(
            agents[i].id.value,
        ) == #[trigger] all[k] by {
        if k < before.len() {
            assert(all[k] == before[k]);
            let i = choose|i: int|
                0 <= i < rest.len() && (#[trigger] rest[i]).public_name@ == name && id_view(
                    rest[i].id.value,
                ) == before[k];
            assert(agents[i] == rest[i]);
        } else {
            assert(agents[last].public_name@ == name);
        }
    }
}

} // verus!
