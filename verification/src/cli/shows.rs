//! What the rows of a report show: whom a row is of, how the agent stands, and what it owes.

use vstd::prelude::*;

use super::receipt::{said, shown};
use super::report::{
    agent_head, agent_line, collision_lines, collisions, conversation_pieces, count_pieces,
    fleet_of, fleet_tree, footnote, indent, is_in_state, live_pieces, named_in_place, owed_line,
    owed_lines, policy_pieces, ready_count, renew_pieces, report_head, report_receipt,
    unanswered_count, unsettled_count, unsettled_pieces, waiting_piece,
};
use super::says::says;
use super::time::utc_text;
use crate::domain::duration_text;
use crate::json::JsonView;
use crate::text::{decimal_text, int_text};

verus! {

/// The newest incarnation of an agent, as a report lists it: the first.
pub open spec fn first_listed(agent: JsonView) -> JsonView {
    agent.at("incarnations"@).items()[0]
}

/// Whether the state of an agent's first incarnation is a word, if it has one.
pub open spec fn has_state(agent: JsonView) -> bool {
    agent.at("incarnations"@).items().len() > 0 ==> first_listed(agent).at("state"@) is Text
}

/// Whether the first incarnation that an agent has is in a state.
pub open spec fn stands(agent: JsonView, state: Seq<char>) -> bool {
    agent.at("incarnations"@).items().len() > 0 && first_listed(agent).at("state"@)
        == JsonView::Text(state)
}

/// Whether an obligation is still to be answered.
pub open spec fn awaits_reply(obligation: JsonView) -> bool {
    obligation.at("state"@) == JsonView::Text("open"@) || obligation.at("state"@)
        == JsonView::Text("in_progress"@)
}

/// The head of a report counts the agents, those of them that are ready and those that are
/// unsettled, the obligations, and those of them that wait for a reply.
#[verifier::spinoff_prover]
#[verifier::rlimit(60)]
pub proof fn law_report_counts_what_it_shows(result: JsonView)
    requires
        forall|i: int|
            0 <= i < result.at("agents"@).items().len() ==> has_state(
                #[trigger] result.at("agents"@).items()[i],
            ),
    ensures
        ({
            let receipt = report_receipt(result);
            let agents = result.at("agents"@).items();
            let obligations = result.at("obligations"@).items();
            &&& says(receipt, "fleet agents="@, said(decimal_text(agents.len())))
            &&& says(
                receipt,
                " ready="@,
                said(decimal_text(agents.filter(|agent: JsonView| stands(agent, "ready"@)).len())),
            )
            &&& says(
                receipt,
                " unsettled="@,
                said(
                    decimal_text(
                        agents.filter(
                            |agent: JsonView|
                                stands(agent, "starting"@) || stands(agent, "unknown"@),
                        ).len(),
                    ),
                ),
            )
            &&& says(receipt, " obligations="@, said(decimal_text(obligations.len())))
            &&& says(
                receipt,
                " open="@,
                said(
                    decimal_text(
                        obligations.filter(
                            |obligation: JsonView| awaits_reply(obligation),
                        ).len(),
                    ),
                ),
            )
        }),
{
    let agents = result.at("agents"@).items();
    let obligations = result.at("obligations"@).items();
    let head = report_head(result);
    let receipt = report_receipt(result);
    let rest = fleet_tree(fleet_of(result)).0 + footnote(result);
    lemma_ready(agents);
    lemma_unsettled(agents);
    lemma_unanswered(obligations);
    assert(receipt =~= head + rest);
    assert(receipt[1] == said("fleet agents="@) && receipt[2] == head[2]);
    assert(receipt[3] == said(" ready="@) && receipt[4] == head[4]);
    assert(receipt[5] == said(" unsettled="@) && receipt[6] == head[6]);
    assert(receipt[7] == said(" obligations="@) && receipt[8] == head[8]);
    assert(receipt[9] == said(" open="@) && receipt[10] == head[10]);
}

proof fn lemma_in_state(agent: JsonView, state: Seq<char>)
    requires
        has_state(agent),
        state.len() > 1,
    ensures
        is_in_state(agent, state) <==> stands(agent, state),
{
    reveal_strlit("-");
    assert("-"@.len() == 1);
}

proof fn lemma_states()
    ensures
        "ready"@.len() > 1,
        "starting"@.len() > 1,
        "unknown"@.len() > 1,
{
    reveal_strlit("ready");
    reveal_strlit("starting");
    reveal_strlit("unknown");
}

proof fn lemma_ready(agents: Seq<JsonView>)
    requires
        forall|i: int| 0 <= i < agents.len() ==> has_state(#[trigger] agents[i]),
    ensures
        ready_count(agents) == agents.filter(|agent: JsonView| stands(agent, "ready"@)).len(),
    decreases agents.len(),
{
    reveal(Seq::filter);
    if agents.len() > 0 {
        assert(has_state(agents[agents.len() - 1]));
        assert forall|i: int| 0 <= i < agents.drop_last().len() implies has_state(
            #[trigger] agents.drop_last()[i],
        ) by {
            assert(has_state(agents[i]));
        }
        lemma_ready(agents.drop_last());
        lemma_states();
        lemma_in_state(agents.last(), "ready"@);
    }
}

proof fn lemma_unsettled(agents: Seq<JsonView>)
    requires
        forall|i: int| 0 <= i < agents.len() ==> has_state(#[trigger] agents[i]),
    ensures
        unsettled_count(agents) == agents.filter(
            |agent: JsonView| stands(agent, "starting"@) || stands(agent, "unknown"@),
        ).len(),
    decreases agents.len(),
{
    reveal(Seq::filter);
    if agents.len() > 0 {
        assert(has_state(agents[agents.len() - 1]));
        assert forall|i: int| 0 <= i < agents.drop_last().len() implies has_state(
            #[trigger] agents.drop_last()[i],
        ) by {
            assert(has_state(agents[i]));
        }
        lemma_unsettled(agents.drop_last());
        lemma_states();
        lemma_in_state(agents.last(), "starting"@);
        lemma_in_state(agents.last(), "unknown"@);
    }
}

proof fn lemma_unanswered(obligations: Seq<JsonView>)
    ensures
        unanswered_count(obligations) == obligations.filter(
            |obligation: JsonView| awaits_reply(obligation),
        ).len(),
    decreases obligations.len(),
{
    reveal(Seq::filter);
    if obligations.len() > 0 {
        lemma_unanswered(obligations.drop_last());
    }
}

/// A report says when it was made, and when Herdr was looked at where it was.
#[verifier::spinoff_prover]
#[verifier::rlimit(60)]
pub proof fn law_report_says_when_it_was_made(result: JsonView)
    ensures
        result.at("generated_at_ms"@).as_i64() matches Some(ms) ==> says(
            report_receipt(result),
            " generated="@,
            said(utc_text(ms as int)),
        ),
        result.at("live_snapshot_at_ms"@).as_i64() matches Some(ms) ==> says(
            report_receipt(result),
            " herdr-snapshot="@,
            said(utc_text(ms as int)),
        ),
{
    let head = report_head(result);
    let receipt = report_receipt(result);
    let rest = fleet_tree(fleet_of(result)).0 + footnote(result);
    assert(receipt =~= head + rest);
    assert(receipt[11] == said(" generated="@) && receipt[12] == head[12]);
    if let Some(ms) = result.at("live_snapshot_at_ms"@).as_i64() {
        assert(receipt[13] == said(" herdr-snapshot="@) && receipt[14] == head[14]);
    }
}

/// The row of an agent names it and says its backend and its state: those of the first
/// incarnation that is listed.
#[verifier::spinoff_prover]
#[verifier::rlimit(60)]
pub proof fn law_row_is_of_its_agent(agent: JsonView, id: Seq<char>, now: int, depth: nat)
    ensures
        ({
            let line = agent_line(agent, id, now, depth);
            let count = agent.at("incarnations"@).items().len();
            &&& line[2] == shown(agent.at("public_name"@))
            &&& says(line, " agent="@, said(id))
            &&& count > 0 ==> says(
                line,
                " backend="@,
                shown(first_listed(agent).at("backend_kind"@)),
            )
            &&& count > 0 ==> says(line, " kelpie="@, shown(first_listed(agent).at("state"@)))
            &&& says(line, " incarnations="@, said(decimal_text(count)))
            &&& count > 0 ==> (first_listed(agent).at("live"@) matches JsonView::Text(status)
                ==> says(line, " herdr="@, said(status)))
        }),
{
    let line = agent_line(agent, id, now, depth);
    let head = agent_head(agent, id, depth);
    let live = live_pieces(agent);
    let count = count_pieces(agent);
    let rest = conversation_pieces(agent, now) + renew_pieces(agent, now) + unsettled_pieces(agent)
        + seq![said("\n"@)];
    assert(line =~= head + live + count + rest);
    assert(head[3] == said(" agent="@));
    assert(head[5] == said(" backend="@));
    assert(head[7] == said(" kelpie="@));
    assert(line[2] == head[2]);
    assert(line[3] == head[3] && line[4] == head[4]);
    assert(line[5] == head[5] && line[6] == head[6]);
    assert(line[7] == head[7] && line[8] == head[8]);
    assert(count[0] == said(" incarnations="@));
    let at = (head + live).len() as int;
    assert(line[at] == count[0] && line[at + 1] == count[1]);
    if agent.at("incarnations"@).items().len() > 0 && first_listed(agent).at("live"@) is Text {
        assert(live[0] == said(" herdr="@));
        assert(line[9] == live[0] && line[10] == live[1]);
    }
}

/// The rows below another are set in by two blanks for each step, and marked; the topmost are
/// not.
#[verifier::spinoff_prover]
pub proof fn law_row_is_set_in(agent: JsonView, id: Seq<char>, now: int, depth: nat)
    ensures
        agent_line(agent, id, now, 0)[0] == said(Seq::empty()),
        agent_line(agent, id, now, 0)[1] == said(""@),
        agent_line(agent, id, now, depth + 1)[0] == said(indent(depth) + "  "@),
        agent_line(agent, id, now, depth + 1)[1] == said("└─ "@),
        indent(depth).len() == 2 * depth,
    decreases depth,
{
    reveal_strlit("  ");
    let rest = live_pieces(agent) + count_pieces(agent) + conversation_pieces(agent, now)
        + renew_pieces(agent, now) + unsettled_pieces(agent) + seq![said("\n"@)];
    assert(agent_line(agent, id, now, 0) =~= agent_head(agent, id, 0) + rest);
    assert(agent_line(agent, id, now, depth + 1) =~= agent_head(agent, id, depth + 1) + rest);
    if depth > 0 {
        law_row_is_set_in(agent, id, now, (depth - 1) as nat);
    }
}

/// The row of a ready agent says how long its conversation has run since it was last rotated; the
/// row of another agent says nothing of it.
#[verifier::spinoff_prover]
#[verifier::rlimit(60)]
pub proof fn law_conversation_runs_since_its_rotation(agent: JsonView, now: i64)
    requires
        has_state(agent),
    ensures
        stands(agent, "ready"@) ==> (first_listed(agent).at(
            "native_session_rotated_at_ms"@,
        ).as_i64() matches Some(started) ==> (i64::MIN <= now - started <= i64::MAX ==> says(
            conversation_pieces(agent, now as int),
            " conversation="@,
            said(duration_text(now - started)),
        ))),
        !stands(agent, "ready"@) ==> conversation_pieces(agent, now as int).len() == 0,
{
    lemma_states();
    lemma_in_state(agent, "ready"@);
    assert(stands(agent, "ready"@) ==> (first_listed(agent).at(
        "native_session_rotated_at_ms"@,
    ).as_i64() is Some ==> conversation_pieces(agent, now as int)[0] == said(" conversation="@)));
}

/// The policy of an agent says its phase, its cycle, how often it comes, and while it is
/// scheduled how long until the next.
#[verifier::spinoff_prover]
#[verifier::rlimit(60)]
pub proof fn law_policy_says_its_parts(renew: JsonView, now: i64, phase: Seq<char>)
    requires
        renew.at("phase"@) == JsonView::Text(phase),
    ensures
        ({
            let pieces = policy_pieces(renew, now as int);
            &&& says(pieces, " renew="@, said(phase))
            &&& renew.at("cycle"@).as_i64() matches Some(cycle) ==> says(
                pieces,
                " cycle="@,
                said(int_text(cycle as int)),
            )
            &&& renew.at("every_ms"@).as_i64() matches Some(ms) ==> says(
                pieces,
                " every="@,
                said(duration_text(ms as int)),
            )
            &&& renew.at("every_ms"@).as_i64() is None ==> pieces[4] == said(" one-shot"@)
            &&& phase == "scheduled"@ ==> (renew.at("cycle_due_at_ms"@).as_i64() matches Some(due)
                ==> (0 <= due - now <= i64::MAX ==> says(
                pieces,
                " next-in="@,
                said(duration_text(due - now)),
            )))
        }),
{
    let pieces = policy_pieces(renew, now as int);
    assert(pieces[0] == said(" renew="@));
    assert(pieces[2] == said(" cycle="@));
    let at = if renew.at("every_ms"@).as_i64() is Some {
        assert(pieces[4] == said(" every="@));
        6int
    } else {
        5int
    };
    if phase == "scheduled"@ && renew.at("cycle_due_at_ms"@).as_i64() is Some {
        assert(pieces[at] == said(" next-in="@));
    }
}

/// The row of an unsettled agent names the incarnation and the operation that a caller has to act
/// on; the row of a settled one does not.
#[verifier::spinoff_prover]
#[verifier::rlimit(60)]
pub proof fn law_unsettled_row_names_what_to_act_on(agent: JsonView)
    requires
        has_state(agent),
    ensures
        stands(agent, "starting"@) || stands(agent, "unknown"@) ==> says(
            unsettled_pieces(agent),
            " incarnation="@,
            shown(first_listed(agent).at("incarnation_id"@)),
        ) && (first_listed(agent).at("latest_operation"@).at("operation_id"@) matches JsonView::Text(
            operation,
        ) ==> says(unsettled_pieces(agent), " operation="@, said(operation))),
        !(stands(agent, "starting"@) || stands(agent, "unknown"@)) ==> unsettled_pieces(agent).len()
            == 0,
{
    lemma_states();
    lemma_in_state(agent, "starting"@);
    lemma_in_state(agent, "unknown"@);
    let pieces = unsettled_pieces(agent);
    if stands(agent, "starting"@) || stands(agent, "unknown"@) {
        assert(pieces[0] == said(" incarnation="@));
        if first_listed(agent).at("latest_operation"@).at("operation_id"@) is Text {
            assert(pieces[2] == said(" operation="@));
        }
    }
}

/// The line of a reply that is owed names who waits for it, the ask, how it stands and how long
/// it has gone unanswered.
#[verifier::spinoff_prover]
#[verifier::rlimit(60)]
pub proof fn law_owed_line_says_its_parts(
    agents: Seq<JsonView>,
    obligation: JsonView,
    now: i64,
    depth: nat,
    waiting: Seq<char>,
)
    requires
        obligation.at("waiting_agent_id"@) == JsonView::Text(waiting),
    ensures
        ({
            let line = owed_line(agents, obligation, now as int, depth);
            &&& says(line, "   owes a reply to "@, waiting_piece(agents, waiting))
            &&& says(line, " ask="@, shown(obligation.at("ask_message_id"@)))
            &&& says(line, " state="@, shown(obligation.at("state"@)))
            &&& obligation.at("created_at_ms"@).as_i64() matches Some(ms) ==> (i64::MIN <= now - ms
                <= i64::MAX ==> says(line, " unanswered-for="@, said(duration_text(now - ms))))
        }),
{
    let line = owed_line(agents, obligation, now as int, depth);
    assert(line[1] == said("   owes a reply to "@));
    assert(line[3] == said(" ask="@));
    assert(line[5] == said(" state="@));
    assert(line[7] == said(" unanswered-for="@));
}

/// Who waits for a reply is called by the name that the report has, and by its identifier where
/// the report does not have it.
#[verifier::spinoff_prover]
pub proof fn law_waiting_agent_is_named(agents: Seq<JsonView>, waiting: Seq<char>, at: int)
    requires
        0 <= at <= agents.len(),
        forall|i: int|
            0 <= i < at ==> (#[trigger] agents[i]).at("agent_id"@) != JsonView::Text(waiting),
        at < agents.len() ==> agents[at].at("agent_id"@) == JsonView::Text(waiting),
    ensures
        at < agents.len() ==> waiting_piece(agents, waiting) == shown(
            agents[at].at("public_name"@),
        ),
        at == agents.len() ==> waiting_piece(agents, waiting) == said(waiting),
    decreases agents.len(),
{
    if agents.len() > 0 && at > 0 {
        let rest = agents.skip(1);
        assert forall|i: int| 0 <= i < at - 1 implies (#[trigger] rest[i]).at("agent_id"@)
            != JsonView::Text(waiting) by {
            assert(agents[i + 1].at("agent_id"@) != JsonView::Text(waiting));
        }
        assert(at < agents.len() ==> rest[at - 1] == agents[at]);
        assert(agents[0].at("agent_id"@) != JsonView::Text(waiting));
        law_waiting_agent_is_named(rest, waiting, at - 1);
    }
}

/// Below an agent stand the replies that it owes itself and that are still to be given, and no
/// others, in their order.
#[verifier::spinoff_prover]
#[verifier::rlimit(60)]
pub proof fn law_owed_replies_stand_below_who_owes_them(
    agents: Seq<JsonView>,
    obligations: Seq<JsonView>,
    next: JsonView,
    id: Seq<char>,
    now: int,
    depth: nat,
)
    ensures
        owed_lines(agents, Seq::empty(), id, now, depth).len() == 0,
        next.at("owing_agent_id"@) == JsonView::Text(id) && awaits_reply(next) ==> owed_lines(
            agents,
            obligations.push(next),
            id,
            now,
            depth,
        ) == owed_lines(agents, obligations, id, now, depth) + owed_line(agents, next, now, depth),
        !(next.at("owing_agent_id"@) == JsonView::Text(id) && awaits_reply(next)) ==> owed_lines(
            agents,
            obligations.push(next),
            id,
            now,
            depth,
        ) == owed_lines(agents, obligations, id, now, depth),
{
    assert(obligations.push(next).drop_last() =~= obligations);
}

/// Names that several held are told in the order of the names, each with how many held it.
#[verifier::spinoff_prover]
#[verifier::rlimit(60)]
pub proof fn law_shared_names_are_counted(
    fields: Seq<(Seq<char>, JsonView)>,
    name: Seq<char>,
    holders: Seq<JsonView>,
)
    ensures
        collisions(seq![(name, JsonView::List(holders))]) == seq![(name, holders.len())],
        says(
            collision_lines(collisions(seq![(name, JsonView::List(holders))])),
            "  "@,
            said(name),
        ),
        says(
            collision_lines(collisions(seq![(name, JsonView::List(holders))])),
            " agents="@,
            said(decimal_text(holders.len())),
        ),
        collisions(fields).len() == fields.len(),
    decreases fields.len(),
{
    let one = seq![(name, JsonView::List(holders))];
    assert(one.drop_last() =~= Seq::empty());
    assert(collisions(one.drop_last()) =~= Seq::empty());
    let entries = collisions(one);
    assert(entries =~= seq![(name, holders.len())]);
    assert(entries.drop_last() =~= Seq::empty());
    let lines = collision_lines(entries);
    assert(collision_lines(entries.drop_last()) =~= Seq::empty());
    assert(lines[0] == said("  "@));
    assert(lines[2] == said(" agents="@));
    if fields.len() > 0 {
        law_shared_names_are_counted(fields.drop_last(), name, holders);
        lemma_named_in_place(
            collisions(fields.drop_last()),
            (fields.last().0, fields.last().1.items().len()),
        );
    }
}

proof fn lemma_named_in_place(sorted: Seq<(Seq<char>, nat)>, entry: (Seq<char>, nat))
    ensures
        named_in_place(sorted, entry).len() == sorted.len() + 1,
    decreases sorted.len(),
{
    if sorted.len() > 0 {
        lemma_named_in_place(sorted.drop_last(), entry);
    }
}

} // verus!
