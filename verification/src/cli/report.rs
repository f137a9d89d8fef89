//! The fleet report: a parentage tree with obligations as edges.
//!
//! Facts only: states are printed as recorded, never labelled healthy or stuck.

use vstd::prelude::*;

use crate::cli::receipt::{
    clamped, field_piece, items_of, said, shown, span, text_or, PieceView, Receipt,
};
use crate::cli::time::{format_utc_ms, utc_text};
use crate::domain::{duration_text, format_duration_ms};
use crate::json::{lemma_list_view, views, Json, JsonView};
use crate::text::{
    decimal_text, int_text, same, signed_decimal, text_before, text_le, texts,
};

verus! {

/// The newest incarnation of an agent, which is the first one listed.
pub open spec fn newest(agent: JsonView) -> Option<JsonView> {
    let list = agent.at("incarnations"@).items();
    if list.len() > 0 {
        Some(list[0])
    } else {
        None
    }
}

/// A field of an agent's newest incarnation, or a dash when it has none.
pub open spec fn newest_piece(agent: JsonView, name: Seq<char>) -> PieceView {
    match newest(agent) {
        Some(incarnation) => field_piece(incarnation, name),
        None => said("-"@),
    }
}

/// Whether an agent's newest incarnation is recorded in that state.
pub open spec fn is_in_state(agent: JsonView, state: Seq<char>) -> bool {
    newest_piece(agent, "state"@) == said(state)
}

/// Whether an agent may or may not be alive.
pub open spec fn is_unsettled(agent: JsonView) -> bool {
    is_in_state(agent, "starting"@) || is_in_state(agent, "unknown"@)
}

/// Whether an obligation still waits for its final reply.
pub open spec fn is_unanswered(obligation: JsonView) -> bool {
    let state = obligation.at("state"@).as_text();
    state == Some("open"@) || state == Some("in_progress"@)
}

/// How many agents are ready.
pub open spec fn ready_count(agents: Seq<JsonView>) -> nat
    decreases agents.len(),
{
    if agents.len() == 0 {
        0
    } else {
        ready_count(agents.drop_last()) + (if is_in_state(agents.last(), "ready"@) {
            1nat
        } else {
            0nat
        })
    }
}

/// How many agents are unsettled.
pub open spec fn unsettled_count(agents: Seq<JsonView>) -> nat
    decreases agents.len(),
{
    if agents.len() == 0 {
        0
    } else {
        unsettled_count(agents.drop_last()) + (if is_unsettled(agents.last()) {
            1nat
        } else {
            0nat
        })
    }
}

/// How many obligations are unanswered.
pub open spec fn unanswered_count(obligations: Seq<JsonView>) -> nat
    decreases obligations.len(),
{
    if obligations.len() == 0 {
        0
    } else {
        unanswered_count(obligations.drop_last()) + (if is_unanswered(obligations.last()) {
            1nat
        } else {
            0nat
        })
    }
}

/// The identifier of an agent.
pub open spec fn id_of(agent: JsonView) -> Option<Seq<char>> {
    agent.at("agent_id"@).as_text()
}

/// Whether an agent of that identifier is in the report.
pub open spec fn is_known(agents: Seq<JsonView>, id: Seq<char>) -> bool {
    exists|i: int| 0 <= i < agents.len() && #[trigger] id_of(agents[i]) == Some(id)
}

/// When an agent was created.
pub open spec fn created(agent: JsonView) -> int {
    match agent.at("created_at_ms"@).as_i64() {
        Some(ms) => ms as int,
        None => 0,
    }
}

/// Those of the first `count` agents that an agent started, in order.
pub open spec fn children(agents: Seq<JsonView>, id: Seq<char>, count: int) -> Seq<int>
    decreases count,
{
    if count <= 0 {
        Seq::empty()
    } else if agents[count - 1].at("parent_agent_id"@).as_text() == Some(id) {
        children(agents, id, count - 1).push(count - 1)
    } else {
        children(agents, id, count - 1)
    }
}

/// Whether an agent has no parent in the report.
pub open spec fn is_root(agents: Seq<JsonView>, agent: JsonView) -> bool {
    match agent.at("parent_agent_id"@).as_text() {
        Some(parent) => !is_known(agents, parent),
        None => true,
    }
}

/// Those of the first `count` agents that are roots, in order.
pub open spec fn roots(agents: Seq<JsonView>, count: int) -> Seq<int>
    decreases count,
{
    if count <= 0 {
        Seq::empty()
    } else if is_root(agents, agents[count - 1]) {
        roots(agents, count - 1).push(count - 1)
    } else {
        roots(agents, count - 1)
    }
}

/// An agent put in its place among agents in the order of their creation, behind
/// those created at the same time.
pub open spec fn placed(agents: Seq<JsonView>, order: Seq<int>, index: int) -> Seq<int>
    decreases order.len(),
{
    if order.len() == 0 || created(agents[order.last()]) <= created(agents[index]) {
        order.push(index)
    } else {
        placed(agents, order.drop_last(), index).push(order.last())
    }
}

/// Agents in the order of their creation; those created at the same time keep
/// their order.
pub open spec fn by_age(agents: Seq<JsonView>, picked: Seq<int>) -> Seq<int>
    decreases picked.len(),
{
    if picked.len() == 0 {
        Seq::empty()
    } else {
        placed(agents, by_age(agents, picked.drop_last()), picked.last())
    }
}

/// How many of the agents have an identifier that is not among those seen.
pub open spec fn unseen(agents: Seq<JsonView>, seen: Seq<Seq<char>>) -> nat
    decreases agents.len(),
{
    if agents.len() == 0 {
        0
    } else {
        unseen(agents.drop_last(), seen) + (match id_of(agents.last()) {
            Some(id) => if seen.contains(id) {
                0nat
            } else {
                1nat
            },
            None => 0nat,
        })
    }
}

proof fn lemma_unseen_bound(agents: Seq<JsonView>, seen: Seq<Seq<char>>)
    ensures
        unseen(agents, seen) <= agents.len(),
    decreases agents.len(),
{
    if agents.len() > 0 {
        lemma_unseen_bound(agents.drop_last(), seen);
    }
}

proof fn lemma_unseen_shrinks(agents: Seq<JsonView>, seen: Seq<Seq<char>>, id: Seq<char>)
    ensures
        unseen(agents, seen.push(id)) <= unseen(agents, seen),
    decreases agents.len(),
{
    if agents.len() > 0 {
        lemma_unseen_shrinks(agents.drop_last(), seen, id);
        match id_of(agents.last()) {
            Some(last) => {
                if seen.contains(last) {
                    let k = choose|k: int| 0 <= k < seen.len() && seen[k] == last;
                    assert(seen.push(id)[k] == last);
                }
            },
            None => {},
        }
    }
}

/// An agent that is seen for the first time is one less to be seen.
pub proof fn lemma_unseen_push(agents: Seq<JsonView>, seen: Seq<Seq<char>>, index: int)
    requires
        0 <= index < agents.len(),
        id_of(agents[index]) is Some,
        !seen.contains(id_of(agents[index])->0),
    ensures
        unseen(agents, seen.push(id_of(agents[index])->0)) < unseen(agents, seen),
    decreases agents.len(),
{
    let id = id_of(agents[index])->0;
    let rest = agents.drop_last();
    if index == agents.len() - 1 {
        lemma_unseen_shrinks(rest, seen, id);
        assert(seen.push(id)[seen.len() as int] == id);
    } else {
        assert(rest[index] == agents[index]);
        lemma_unseen_push(rest, seen, index);
        lemma_unseen_shrinks(seq![agents.last()], seen, id);
        assert(seq![agents.last()].drop_last() =~= Seq::<JsonView>::empty());
        assert(seq![agents.last()].last() == agents.last());
        assert(unseen(seq![agents.last()].drop_last(), seen) == 0);
        assert(unseen(seq![agents.last()].drop_last(), seen.push(id)) == 0);
    }
}

/// The indentation of a depth.
pub open spec fn indent(depth: nat) -> Seq<char>
    decreases depth,
{
    if depth == 0 {
        Seq::empty()
    } else {
        indent((depth - 1) as nat) + "  "@
    }
}

/// Herdr's live status, where the report has it.
pub open spec fn live_pieces(agent: JsonView) -> Seq<PieceView> {
    match newest(agent) {
        Some(incarnation) => match incarnation.at("live"@).as_text() {
            Some(status) => seq![said(" herdr="@), said(status)],
            None => Seq::empty(),
        },
        None => Seq::empty(),
    }
}

/// How long the current context has been running, for a binding that is live.
/// Unknown until a rotation was observed, never filled in from another age.
pub open spec fn conversation_pieces(agent: JsonView, now: int) -> Seq<PieceView> {
    if is_in_state(agent, "ready"@) {
        match newest(agent)->0.at("native_session_rotated_at_ms"@).as_i64() {
            Some(started) => seq![
                said(" conversation="@),
                said(duration_text(clamped(now - started))),
            ],
            None => seq![said(" conversation=unknown"@)],
        }
    } else {
        Seq::empty()
    }
}

/// The policy that bounds an agent's context, and when it next fires.
pub open spec fn policy_pieces(renew: JsonView, now: int) -> Seq<PieceView> {
    let phase = text_or(renew, "phase"@, "?"@);
    seq![
        said(" renew="@),
        said(phase),
        said(" cycle="@),
        said(
            int_text(
                match renew.at("cycle"@).as_i64() {
                    Some(cycle) => cycle as int,
                    None => 0,
                },
            ),
        ),
    ] + (match renew.at("every_ms"@).as_i64() {
        Some(ms) => seq![said(" every="@), said(duration_text(ms as int))],
        None => seq![said(" one-shot"@)],
    }) + (if phase == "scheduled"@ {
        match renew.at("cycle_due_at_ms"@).as_i64() {
            Some(due) => seq![
                said(" next-in="@),
                said(
                    duration_text(
                        if due > now {
                            clamped(due - now)
                        } else {
                            0
                        },
                    ),
                ),
            ],
            None => Seq::empty(),
        }
    } else {
        Seq::empty()
    })
}

/// Whether a policy is armed on a ready agent.
pub open spec fn renew_pieces(agent: JsonView, now: int) -> Seq<PieceView> {
    if is_in_state(agent, "ready"@) {
        match newest(agent)->0.given("renew"@) {
            Some(renew) => policy_pieces(renew, now),
            None => Seq::empty(),
        }
    } else {
        Seq::empty()
    }
}

/// The incarnation and operation behind an unsettled agent, which a caller has to
/// act on.
pub open spec fn unsettled_pieces(agent: JsonView) -> Seq<PieceView> {
    if is_unsettled(agent) {
        let incarnation = newest(agent)->0;
        seq![said(" incarnation="@), field_piece(incarnation, "incarnation_id"@)] + (
        match incarnation.at("latest_operation"@).at("operation_id"@).as_text() {
            Some(operation) => seq![said(" operation="@), said(operation)],
            None => Seq::empty(),
        })
    } else {
        Seq::empty()
    }
}

/// The start of an agent's line: where it stands, its name, and its newest
/// incarnation.
pub open spec fn agent_head(agent: JsonView, id: Seq<char>, depth: nat) -> Seq<PieceView> {
    seq![
        said(indent(depth)),
        said(
            if depth == 0 {
                ""@
            } else {
                "└─ "@
            },
        ),
        field_piece(agent, "public_name"@),
        said(" agent="@),
        said(id),
        said(" backend="@),
        newest_piece(agent, "backend_kind"@),
        said(" kelpie="@),
        newest_piece(agent, "state"@),
    ]
}

/// How many incarnations an agent has had.
pub open spec fn count_pieces(agent: JsonView) -> Seq<PieceView> {
    seq![
        said(" incarnations="@),
        said(decimal_text(agent.at("incarnations"@).items().len())),
    ]
}

/// The line of one agent.
pub open spec fn agent_line(agent: JsonView, id: Seq<char>, now: int, depth: nat) -> Seq<
    PieceView,
> {
    agent_head(agent, id, depth) + live_pieces(agent) + count_pieces(agent) + conversation_pieces(
        agent,
        now,
    ) + renew_pieces(agent, now) + unsettled_pieces(agent) + seq![said("\n"@)]
}

/// How the agent that waits for a reply is called: by its name where the report
/// has it.
pub open spec fn waiting_piece(agents: Seq<JsonView>, waiting: Seq<char>) -> PieceView
    decreases agents.len(),
{
    if agents.len() == 0 {
        said(waiting)
    } else if id_of(agents[0]) == Some(waiting) {
        field_piece(agents[0], "public_name"@)
    } else {
        waiting_piece(agents.skip(1), waiting)
    }
}

/// The line of one reply that an agent owes.
pub open spec fn owed_line(
    agents: Seq<JsonView>,
    obligation: JsonView,
    now: int,
    depth: nat,
) -> Seq<PieceView> {
    seq![
        said(indent(depth)),
        said("   owes a reply to "@),
        waiting_piece(agents, text_or(obligation, "waiting_agent_id"@, "-"@)),
        said(" ask="@),
        field_piece(obligation, "ask_message_id"@),
        said(" state="@),
        field_piece(obligation, "state"@),
        said(" unanswered-for="@),
        said(
            duration_text(
                match obligation.at("created_at_ms"@).as_i64() {
                    Some(ms) => clamped(now - ms),
                    None => 0,
                },
            ),
        ),
        said("\n"@),
    ]
}

/// The lines of the replies that an agent owes.
pub open spec fn owed_lines(
    agents: Seq<JsonView>,
    obligations: Seq<JsonView>,
    id: Seq<char>,
    now: int,
    depth: nat,
) -> Seq<PieceView>
    decreases obligations.len(),
{
    if obligations.len() == 0 {
        Seq::empty()
    } else {
        let before = owed_lines(agents, obligations.drop_last(), id, now, depth);
        let last = obligations.last();
        if last.at("owing_agent_id"@).as_text() == Some(id) && is_unanswered(last) {
            before + owed_line(agents, last, now, depth)
        } else {
            before
        }
    }
}

/// What the report is made from.
pub struct Fleet {
    pub agents: Seq<JsonView>,
    pub obligations: Seq<JsonView>,
    pub now: int,
}

/// An agent with everything that it started, and the agents seen after it. One
/// that was seen before is not shown again: parentage is data and can cycle.
pub open spec fn agent_tree(fleet: Fleet, index: int, depth: nat, seen: Seq<Seq<char>>) -> (
    Seq<PieceView>,
    Seq<Seq<char>>,
)
    decreases unseen(fleet.agents, seen), 0int,
{
    if index < 0 || index >= fleet.agents.len() {
        (Seq::empty(), seen)
    } else {
        match id_of(fleet.agents[index]) {
            None => (Seq::empty(), seen),
            Some(id) => if seen.contains(id) {
                (Seq::empty(), seen)
            } else {
                proof {
                    lemma_unseen_push(fleet.agents, seen, index);
                }
                let order = by_age(
                    fleet.agents,
                    children(fleet.agents, id, fleet.agents.len() as int),
                );
                let (below, after) = forest(fleet, order, 0, depth + 1, seen.push(id));
                (
                    agent_line(fleet.agents[index], id, fleet.now, depth) + owed_lines(
                        fleet.agents,
                        fleet.obligations,
                        id,
                        fleet.now,
                        depth,
                    ) + below,
                    after,
                )
            },
        }
    }
}

/// The agents of an order from its `from`th on, each with what it started.
pub open spec fn forest(
    fleet: Fleet,
    order: Seq<int>,
    from: int,
    depth: nat,
    seen: Seq<Seq<char>>,
) -> (Seq<PieceView>, Seq<Seq<char>>)
    decreases unseen(fleet.agents, seen), order.len() - from + 1,
{
    if from < 0 || from >= order.len() {
        (Seq::empty(), seen)
    } else {
        let (first, after) = agent_tree(fleet, order[from], depth, seen);
        if unseen(fleet.agents, after) <= unseen(fleet.agents, seen) {
            let (rest, last) = forest(fleet, order, from + 1, depth, after);
            (first + rest, last)
        } else {
            (first, after)
        }
    }
}

/// The newest incarnation of an agent.
fn newest_of<'a>(agent: &'a Json) -> (incarnation: Option<&'a Json>)
    ensures
        match incarnation {
            Some(value) => newest(agent@) == Some(value@),
            None => newest(agent@) is None,
        },
{
    match agent.get("incarnations") {
        Some(Json::List(items)) => {
            proof {
                lemma_list_view(*items);
            }
            if items.len() > 0 {
                assert(views(items@)[0] == items@[0]@);
                Some(&items[0])
            } else {
                None
            }
        },
        _ => None,
    }
}

/// Whether a value is shown as that text.
fn shows(value: &Json, text: &str) -> (r: bool)
    ensures
        r == (shown(value@) == said(text@)),
{
    match value {
        Json::Text(t) => same(t.as_str(), text),
        Json::Number(n) => {
            let t = n.to_text();
            same(t.as_str(), text)
        },
        Json::Bool(b) => if *b {
            same("true", text)
        } else {
            same("false", text)
        },
        Json::Null => same("-", text),
        _ => false,
    }
}

/// Whether an agent's newest incarnation is recorded in that state.
fn in_state(agent: &Json, state: &str) -> (r: bool)
    ensures
        r == is_in_state(agent@, state@),
{
    match newest_of(agent) {
        Some(incarnation) => match incarnation.get("state") {
            Some(value) => shows(value, state),
            None => same("-", state),
        },
        None => same("-", state),
    }
}

/// Whether an agent may or may not be alive.
fn unsettled(agent: &Json) -> (r: bool)
    ensures
        r == is_unsettled(agent@),
{
    in_state(agent, "starting") || in_state(agent, "unknown")
}

/// Whether an obligation still waits for its final reply.
fn unanswered(obligation: &Json) -> (r: bool)
    ensures
        r == is_unanswered(obligation@),
{
    match obligation.text_at("state") {
        Some(state) => same(state, "open") || same(state, "in_progress"),
        None => false,
    }
}

/// Whether a field holds that text.
fn text_is(value: &Json, name: &str, text: &str) -> (r: bool)
    ensures
        r == (value@.at(name@).as_text() == Some(text@)),
{
    match value.text_at(name) {
        Some(t) => same(t, text),
        None => false,
    }
}

/// Indices as integers.
pub open spec fn ints(v: Seq<usize>) -> Seq<int> {
    v.map_values(|i: usize| i as int)
}

/// Whether every index is one of an agent.
pub open spec fn in_range(v: Seq<usize>, count: nat) -> bool {
    forall|i: int| 0 <= i < v.len() ==> (#[trigger] v[i]) < count
}

/// Those agents that an agent started, in order.
fn children_of(agents: &Vec<Json>, id: &str) -> (picked: Vec<usize>)
    ensures
        ints(picked@) == children(views(agents@), id@, agents@.len() as int),
        in_range(picked@, agents@.len()),
{
    let mut picked: Vec<usize> = Vec::new();
    let mut i: usize = 0;
    assert(ints(picked@) =~= children(views(agents@), id@, 0));
    while i < agents.len()
        invariant
            i <= agents@.len(),
            ints(picked@) == children(views(agents@), id@, i as int),
            in_range(picked@, agents@.len()),
        decreases agents@.len() - i,
    {
        assert(views(agents@)[i as int] == agents@[i as int]@);
        if text_is(&agents[i], "parent_agent_id", id) {
            let ghost before = ints(picked@);
            picked.push(i);
            assert(ints(picked@) =~= before.push(i as int));
        }
        i = i + 1;
    }
    picked
}

/// Whether an agent of that identifier is in the report.
fn known(agents: &Vec<Json>, id: &str) -> (r: bool)
    ensures
        r == is_known(views(agents@), id@),
{
    let mut i: usize = 0;
    while i < agents.len()
        invariant
            i <= agents@.len(),
            forall|j: int| 0 <= j < i ==> #[trigger] id_of(views(agents@)[j]) != Some(id@),
        decreases agents@.len() - i,
    {
        assert(views(agents@)[i as int] == agents@[i as int]@);
        if text_is(&agents[i], "agent_id", id) {
            assert(id_of(views(agents@)[i as int]) == Some(id@));
            return true;
        }
        i = i + 1;
    }
    false
}

/// The agents without a parent in the report, in order.
fn roots_of(agents: &Vec<Json>) -> (picked: Vec<usize>)
    ensures
        ints(picked@) == roots(views(agents@), agents@.len() as int),
        in_range(picked@, agents@.len()),
{
    let mut picked: Vec<usize> = Vec::new();
    let mut i: usize = 0;
    assert(ints(picked@) =~= roots(views(agents@), 0));
    while i < agents.len()
        invariant
            i <= agents@.len(),
            ints(picked@) == roots(views(agents@), i as int),
            in_range(picked@, agents@.len()),
        decreases agents@.len() - i,
    {
        assert(views(agents@)[i as int] == agents@[i as int]@);
        let root = match agents[i].text_at("parent_agent_id") {
            Some(parent) => !known(agents, parent),
            None => true,
        };
        if root {
            let ghost before = ints(picked@);
            picked.push(i);
            assert(ints(picked@) =~= before.push(i as int));
        }
        i = i + 1;
    }
    picked
}

/// When an agent was created.
fn created_of(agent: &Json) -> (ms: i64)
    ensures
        ms == created(agent@),
{
    match agent.i64_at("created_at_ms") {
        Some(ms) => ms,
        None => 0,
    }
}

proof fn lemma_placed(agents: Seq<JsonView>, order: Seq<int>, index: int, at: int)
    requires
        0 <= at <= order.len(),
        forall|k: int|
            at <= k < order.len() ==> created(agents[#[trigger] order[k]]) > created(agents[index]),
        at > 0 ==> created(agents[order[at - 1]]) <= created(agents[index]),
    ensures
        placed(agents, order, index) == order.insert(at, index),
    decreases order.len(),
{
    if at == order.len() {
        assert(order.insert(at, index) =~= order.push(index));
    } else {
        assert(created(agents[order[order.len() - 1]]) > created(agents[index]));
        let rest = order.drop_last();
        assert forall|k: int| at <= k < rest.len() implies created(agents[#[trigger] rest[k]])
            > created(agents[index]) by {
            assert(rest[k] == order[k]);
        }
        lemma_placed(agents, rest, index, at);
        assert(order.insert(at, index) =~= rest.insert(at, index).push(order.last()));
    }
}

/// Agents in the order of their creation.
fn sort_by_age(agents: &Vec<Json>, picked: &Vec<usize>) -> (order: Vec<usize>)
    requires
        in_range(picked@, agents@.len()),
    ensures
        ints(order@) == by_age(views(agents@), ints(picked@)),
        in_range(order@, agents@.len()),
{
    let ghost shown = views(agents@);
    let mut order: Vec<usize> = Vec::new();
    let mut i: usize = 0;
    assert(ints(picked@.take(0)) =~= Seq::<int>::empty());
    assert(ints(order@) =~= by_age(shown, ints(picked@.take(0))));
    while i < picked.len()
        invariant
            i <= picked@.len(),
            shown == views(agents@),
            in_range(picked@, agents@.len()),
            in_range(order@, agents@.len()),
            ints(order@) == by_age(shown, ints(picked@.take(i as int))),
        decreases picked@.len() - i,
    {
        let index = picked[i];
        let age: i64 = created_of(&agents[index]);
        let mut at: usize = order.len();
        while at > 0 && created_of(&agents[order[at - 1]]) > age
            invariant
                at <= order@.len(),
                shown == views(agents@),
                in_range(order@, agents@.len()),
                index < agents@.len(),
                age == created(agents@[index as int]@),
                forall|k: int|
                    at <= k < order@.len() ==> created(agents@[(#[trigger] order@[k]) as int]@) > age,
            decreases at,
        {
            at = at - 1;
        }
        proof {
            let old_order = ints(order@);
            assert forall|k: int| at <= k < old_order.len() implies created(
                shown[#[trigger] old_order[k]],
            ) > created(shown[index as int]) by {
                assert(old_order[k] == order@[k] as int);
                assert(shown[order@[k] as int] == agents@[order@[k] as int]@);
            }
            if at > 0 {
                assert(shown[order@[at - 1] as int] == agents@[order@[at - 1] as int]@);
            }
            lemma_placed(shown, old_order, index as int, at as int);
            let next = ints(picked@.take(i as int + 1));
            assert(next.drop_last() =~= ints(picked@.take(i as int)));
            assert(next.last() == index as int);
        }
        let ghost before = order@;
        order.insert(at, index);
        proof {
            assert(ints(order@) =~= ints(before).insert(at as int, index as int));
            assert forall|k: int| 0 <= k < order@.len() implies (#[trigger] order@[k])
                < agents@.len() by {
                if k < at {
                    assert(order@[k] == before[k]);
                } else if k > at {
                    assert(order@[k] == before[k - 1]);
                }
            }
        }
        i = i + 1;
    }
    assert(picked@.take(i as int) =~= picked@);
    order
}

/// The indentation of a depth.
fn indentation(depth: usize) -> (text: String)
    ensures
        text@ == indent(depth as nat),
{
    let mut text = String::new();
    let mut i: usize = 0;
    while i < depth
        invariant
            i <= depth,
            text@ == indent(i as nat),
        decreases depth - i,
    {
        text.append("  ");
        i = i + 1;
    }
    text
}

/// Append how a field of the newest incarnation is shown.
fn show_newest(r: &mut Receipt, agent: &Json, name: &str)
    ensures
        final(r)@ == old(r)@.push(newest_piece(agent@, name@)),
{
    match newest_of(agent) {
        Some(incarnation) => r.field(incarnation, name),
        None => r.say("-"),
    }
}

fn render_live(r: &mut Receipt, agent: &Json)
    ensures
        final(r)@ == old(r)@ + live_pieces(agent@),
{
    if let Some(incarnation) = newest_of(agent) {
        if let Some(status) = incarnation.text_at("live") {
            r.say(" herdr=");
            r.say(status);
        }
    }
    assert(r@ =~= old(r)@ + live_pieces(agent@));
}

fn render_conversation(r: &mut Receipt, agent: &Json, now: i64)
    ensures
        final(r)@ == old(r)@ + conversation_pieces(agent@, now as int),
{
    if in_state(agent, "ready") {
        proof {
            reveal_strlit("ready");
            reveal_strlit("-");
            assert("ready"@.len() != "-"@.len());
        }
        if let Some(incarnation) = newest_of(agent) {
            match incarnation.i64_at("native_session_rotated_at_ms") {
                Some(started) => {
                    r.say(" conversation=");
                    let text = format_duration_ms(span(now, started));
                    r.say(text.as_str());
                },
                None => r.say(" conversation=unknown"),
            }
        }
    }
    assert(r@ =~= old(r)@ + conversation_pieces(agent@, now as int));
}

fn render_policy(r: &mut Receipt, renew: &Json, now: i64)
    ensures
        final(r)@ == old(r)@ + policy_pieces(renew@, now as int),
{
    let phase = match renew.text_at("phase") {
        Some(phase) => phase,
        None => "?",
    };
    r.say(" renew=");
    r.say(phase);
    r.say(" cycle=");
    let cycle = signed_decimal(
        match renew.i64_at("cycle") {
            Some(cycle) => cycle,
            None => 0,
        },
    );
    r.say(cycle.as_str());
    match renew.i64_at("every_ms") {
        Some(ms) => {
            r.say(" every=");
            let text = format_duration_ms(ms);
            r.say(text.as_str());
        },
        None => r.say(" one-shot"),
    }
    // Only a scheduled cycle has a future fire time. An in-flight one carries its
    // own original due time, already past, and rendering that as `next-in=0s`
    // reads as "fires now" when the truth is "the next cycle comes after this one
    // finishes".
    if same(phase, "scheduled") {
        if let Some(due) = renew.i64_at("cycle_due_at_ms") {
            r.say(" next-in=");
            let left: i64 = if due > now {
                span(due, now)
            } else {
                0
            };
            let text = format_duration_ms(left);
            r.say(text.as_str());
        }
    }
    assert(r@ =~= old(r)@ + policy_pieces(renew@, now as int));
}

fn render_renew(r: &mut Receipt, agent: &Json, now: i64)
    ensures
        final(r)@ == old(r)@ + renew_pieces(agent@, now as int),
{
    if in_state(agent, "ready") {
        proof {
            reveal_strlit("ready");
            reveal_strlit("-");
            assert("ready"@.len() != "-"@.len());
        }
        if let Some(incarnation) = newest_of(agent) {
            if let Some(renew) = incarnation.given("renew") {
                render_policy(r, renew, now);
            }
        }
    }
    assert(r@ =~= old(r)@ + renew_pieces(agent@, now as int));
}

fn render_unsettled(r: &mut Receipt, agent: &Json)
    ensures
        final(r)@ == old(r)@ + unsettled_pieces(agent@),
{
    if unsettled(agent) {
        proof {
            reveal_strlit("starting");
            reveal_strlit("unknown");
            reveal_strlit("-");
            assert("starting"@.len() != "-"@.len() && "unknown"@.len() != "-"@.len());
        }
        if let Some(incarnation) = newest_of(agent) {
            r.say(" incarnation=");
            r.field(incarnation, "incarnation_id");
            if let Some(latest) = incarnation.get("latest_operation") {
                if let Some(operation) = latest.text_at("operation_id") {
                    r.say(" operation=");
                    r.say(operation);
                }
            }
        }
    }
    assert(r@ =~= old(r)@ + unsettled_pieces(agent@));
}

fn render_agent_head(r: &mut Receipt, agent: &Json, id: &str, depth: usize)
    ensures
        final(r)@ == old(r)@ + agent_head(agent@, id@, depth as nat),
{
    let margin = indentation(depth);
    r.say(margin.as_str());
    if depth == 0 {
        r.say("");
    } else {
        r.say("└─ ");
    }
    r.field(agent, "public_name");
    r.say(" agent=");
    r.say(id);
    r.say(" backend=");
    show_newest(r, agent, "backend_kind");
    r.say(" kelpie=");
    show_newest(r, agent, "state");
    assert(r@ =~= old(r)@ + agent_head(agent@, id@, depth as nat));
}

fn render_count(r: &mut Receipt, agent: &Json)
    ensures
        final(r)@ == old(r)@ + count_pieces(agent@),
{
    let empty: Vec<Json> = Vec::new();
    let incarnations = items_of(agent, "incarnations", &empty);
    r.say(" incarnations=");
    r.say_number(incarnations.len());
    assert(r@ =~= old(r)@ + count_pieces(agent@));
}

proof fn lemma_append(a: Seq<PieceView>, b: Seq<PieceView>, c: Seq<PieceView>)
    ensures
        (a + b) + c == a + (b + c),
{
    assert((a + b) + c =~= a + (b + c));
}

fn render_agent_line(r: &mut Receipt, agent: &Json, id: &str, now: i64, depth: usize)
    ensures
        final(r)@ == old(r)@ + agent_line(agent@, id@, now as int, depth as nat),
{
    render_agent_head(r, agent, id, depth);
    render_live(r, agent);
    render_count(r, agent);
    render_conversation(r, agent, now);
    render_renew(r, agent, now);
    render_unsettled(r, agent);
    r.say("\n");
    proof {
        let start = old(r)@;
        let a = agent_head(agent@, id@, depth as nat);
        let b = a + live_pieces(agent@);
        let c = b + count_pieces(agent@);
        let d = c + conversation_pieces(agent@, now as int);
        let e = d + renew_pieces(agent@, now as int);
        let f = e + unsettled_pieces(agent@);
        lemma_append(start, a, live_pieces(agent@));
        lemma_append(start, b, count_pieces(agent@));
        lemma_append(start, c, conversation_pieces(agent@, now as int));
        lemma_append(start, d, renew_pieces(agent@, now as int));
        lemma_append(start, e, unsettled_pieces(agent@));
        assert(r@ =~= start + (f + seq![said("\n"@)]));
    }
}

fn render_waiting(r: &mut Receipt, agents: &Vec<Json>, waiting: &str)
    ensures
        final(r)@ == old(r)@.push(waiting_piece(views(agents@), waiting@)),
{
    let mut i: usize = 0;
    assert(views(agents@).skip(0) =~= views(agents@));
    while i < agents.len()
        invariant
            i <= agents@.len(),
            r@ == old(r)@,
            waiting_piece(views(agents@), waiting@) == waiting_piece(
                views(agents@).skip(i as int),
                waiting@,
            ),
        decreases agents@.len() - i,
    {
        proof {
            let rest = views(agents@).skip(i as int);
            assert(rest[0] == agents@[i as int]@);
            assert(rest.skip(1) =~= views(agents@).skip(i as int + 1));
        }
        if text_is(&agents[i], "agent_id", waiting) {
            r.field(&agents[i], "public_name");
            return ;
        }
        i = i + 1;
    }
    r.say(waiting);
}

fn render_owed(
    r: &mut Receipt,
    agents: &Vec<Json>,
    obligations: &Vec<Json>,
    id: &str,
    now: i64,
    depth: usize,
)
    ensures
        final(r)@ == old(r)@ + owed_lines(
            views(agents@),
            views(obligations@),
            id@,
            now as int,
            depth as nat,
        ),
{
    let ghost shown = views(agents@);
    let margin = indentation(depth);
    let mut i: usize = 0;
    assert(views(obligations@.take(0)) =~= Seq::<JsonView>::empty());
    assert(r@ =~= old(r)@ + owed_lines(
        shown,
        views(obligations@.take(0)),
        id@,
        now as int,
        depth as nat,
    ));
    while i < obligations.len()
        invariant
            i <= obligations@.len(),
            shown == views(agents@),
            margin@ == indent(depth as nat),
            r@ == old(r)@ + owed_lines(
                shown,
                views(obligations@.take(i as int)),
                id@,
                now as int,
                depth as nat,
            ),
        decreases obligations@.len() - i,
    {
        let obligation = &obligations[i];
        let ghost before = r@;
        proof {
            let next = views(obligations@.take(i as int + 1));
            assert(next.drop_last() =~= views(obligations@.take(i as int)));
            assert(next.last() == obligation@);
        }
        if text_is(obligation, "owing_agent_id", id) && unanswered(obligation) {
            r.say(margin.as_str());
            r.say("   owes a reply to ");
            let waiting = match obligation.text_at("waiting_agent_id") {
                Some(waiting) => waiting,
                None => "-",
            };
            render_waiting(r, agents, waiting);
            r.say(" ask=");
            r.field(obligation, "ask_message_id");
            r.say(" state=");
            r.field(obligation, "state");
            r.say(" unanswered-for=");
            let open_ms: i64 = match obligation.i64_at("created_at_ms") {
                Some(ms) => span(now, ms),
                None => 0,
            };
            let text = format_duration_ms(open_ms);
            r.say(text.as_str());
            r.say("\n");
            assert(r@ =~= before + owed_line(shown, obligation@, now as int, depth as nat));
            assert(r@ =~= old(r)@ + owed_lines(
                shown,
                views(obligations@.take(i as int + 1)),
                id@,
                now as int,
                depth as nat,
            ));
        }
        i = i + 1;
    }
    assert(obligations@.take(i as int) =~= obligations@);
}

proof fn lemma_texts_contain(v: Seq<String>, s: Seq<char>)
    ensures
        crate::text::lists(v, s) == texts(v).contains(s),
{
    if crate::text::lists(v, s) {
        let i = choose|i: int| 0 <= i < v.len() && #[trigger] v[i]@ == s;
        assert(texts(v)[i] == s);
    }
    if texts(v).contains(s) {
        let i = choose|i: int| 0 <= i < texts(v).len() && texts(v)[i] == s;
        assert(v[i]@ == s);
    }
}

/// Render one agent with everything that it started.
fn render_agent(
    r: &mut Receipt,
    agents: &Vec<Json>,
    obligations: &Vec<Json>,
    now: i64,
    index: usize,
    depth: usize,
    seen: &mut Vec<String>,
)
    requires
        index < agents@.len(),
        depth + unseen(views(agents@), texts(old(seen)@)) <= agents@.len(),
    ensures
        ({
            let (pieces, after) = agent_tree(
                (Fleet { agents: views(agents@), obligations: views(obligations@), now: now as int }),
                index as int,
                depth as nat,
                texts(old(seen)@),
            );
            &&& final(r)@ == old(r)@ + pieces
            &&& texts(final(seen)@) == after
            &&& unseen(views(agents@), after) <= unseen(views(agents@), texts(old(seen)@))
        }),
    decreases unseen(views(agents@), texts(old(seen)@)), 0int,
{
    let ghost shown = views(agents@);
    let ghost fleet = Fleet {
        agents: shown,
        obligations: views(obligations@),
        now: now as int,
    };
    let ghost before = texts(seen@);
    let agent = &agents[index];
    assert(shown[index as int] == agent@);
    let id = match agent.text_at("agent_id") {
        Some(id) => id,
        None => {
            assert(r@ =~= old(r)@ + Seq::<PieceView>::empty());
            return ;
        },
    };
    proof {
        lemma_texts_contain(seen@, id@);
    }
    // Parentage is data, and data can cycle; stop rather than recurse forever.
    if crate::text::listed(seen, id) {
        assert(r@ =~= old(r)@ + Seq::<PieceView>::empty());
        return ;
    }
    seen.push(id.to_owned());
    proof {
        assert(texts(seen@) =~= before.push(id@));
        lemma_unseen_push(shown, before, index as int);
        assert(depth < agents.len());
    }
    render_agent_line(r, agent, id, now, depth);
    render_owed(r, agents, obligations, id, now, depth);
    let picked = children_of(agents, id);
    let order = sort_by_age(agents, &picked);
    let ghost middle = r@;
    render_forest(r, agents, obligations, now, &order, depth + 1, seen);
    proof {
        let (below, after) = forest(fleet, ints(order@), 0, (depth + 1) as nat, before.push(id@));
        assert(r@ =~= middle + below);
        assert(r@ =~= old(r)@ + (agent_line(agent@, id@, now as int, depth as nat) + owed_lines(
            shown,
            fleet.obligations,
            id@,
            now as int,
            depth as nat,
        ) + below));
    }
}

/// Render agents in order, each with everything that it started.
fn render_forest(
    r: &mut Receipt,
    agents: &Vec<Json>,
    obligations: &Vec<Json>,
    now: i64,
    order: &Vec<usize>,
    depth: usize,
    seen: &mut Vec<String>,
)
    requires
        in_range(order@, agents@.len()),
        depth + unseen(views(agents@), texts(old(seen)@)) <= agents@.len(),
    ensures
        ({
            let (pieces, after) = forest(
                (Fleet { agents: views(agents@), obligations: views(obligations@), now: now as int }),
                ints(order@),
                0,
                depth as nat,
                texts(old(seen)@),
            );
            &&& final(r)@ == old(r)@ + pieces
            &&& texts(final(seen)@) == after
            &&& unseen(views(agents@), after) <= unseen(views(agents@), texts(old(seen)@))
        }),
    decreases unseen(views(agents@), texts(old(seen)@)), 1int,
{
    let ghost fleet = Fleet {
        agents: views(agents@),
        obligations: views(obligations@),
        now: now as int,
    };
    let ghost start = texts(seen@);
    let mut from: usize = 0;
    assert(r@ + forest(fleet, ints(order@), 0, depth as nat, start).0 =~= old(r)@ + forest(
        fleet,
        ints(order@),
        0,
        depth as nat,
        start,
    ).0);
    while from < order.len()
        invariant
            from <= order@.len(),
            fleet.agents == views(agents@),
            fleet.obligations == views(obligations@),
            fleet.now == now,
            in_range(order@, agents@.len()),
            depth + unseen(fleet.agents, texts(seen@)) <= agents@.len(),
            unseen(fleet.agents, texts(seen@)) <= unseen(fleet.agents, start),
            start == texts(old(seen)@),
            r@ + forest(fleet, ints(order@), from as int, depth as nat, texts(seen@)).0 == old(r)@
                + forest(fleet, ints(order@), 0, depth as nat, start).0,
            forest(fleet, ints(order@), from as int, depth as nat, texts(seen@)).1 == forest(
                fleet,
                ints(order@),
                0,
                depth as nat,
                start,
            ).1,
        decreases order@.len() - from,
    {
        let ghost before = r@;
        let ghost seen_before = texts(seen@);
        assert(ints(order@)[from as int] == order@[from as int] as int);
        render_agent(r, agents, obligations, now, order[from], depth, seen);
        proof {
            let (first, after) = agent_tree(
                fleet,
                order@[from as int] as int,
                depth as nat,
                seen_before,
            );
            let (rest, last) = forest(fleet, ints(order@), from as int + 1, depth as nat, after);
            assert(r@ + rest =~= before + (first + rest));
        }
        from = from + 1;
    }
    assert(r@ + Seq::<PieceView>::empty() =~= r@);
}

/// A named count put in its place among others in the order of their names.
pub open spec fn named_in_place(
    sorted: Seq<(Seq<char>, nat)>,
    entry: (Seq<char>, nat),
) -> Seq<(Seq<char>, nat)>
    decreases sorted.len(),
{
    if sorted.len() == 0 || text_le(sorted.last().0, entry.0) {
        sorted.push(entry)
    } else {
        named_in_place(sorted.drop_last(), entry).push(sorted.last())
    }
}

/// How many agents held each name, in the order of the names.
pub open spec fn collisions(fields: Seq<(Seq<char>, JsonView)>) -> Seq<(Seq<char>, nat)>
    decreases fields.len(),
{
    if fields.len() == 0 {
        Seq::empty()
    } else {
        named_in_place(
            collisions(fields.drop_last()),
            (fields.last().0, fields.last().1.items().len()),
        )
    }
}

/// The lines of the names that more than one agent held.
pub open spec fn collision_lines(entries: Seq<(Seq<char>, nat)>) -> Seq<PieceView>
    decreases entries.len(),
{
    if entries.len() == 0 {
        Seq::empty()
    } else {
        collision_lines(entries.drop_last()) + seq![
            said("  "@),
            said(entries.last().0),
            said(" agents="@),
            said(decimal_text(entries.last().1)),
            said("\n"@),
        ]
    }
}

/// The footnote on names that more than one agent held: names are reusable
/// aliases, so this is ordinary history rather than a fault.
pub open spec fn footnote(result: JsonView) -> Seq<PieceView> {
    match result.at("alias_collisions"@) {
        JsonView::Object(fields) => if fields.len() > 0 {
            seq![
                said(
                    "\nnames held by more than one agent over time (aliases are reusable, so this is history, not a fault):\n"@,
                ),
            ] + collision_lines(collisions(fields))
        } else {
            Seq::empty()
        },
        _ => Seq::empty(),
    }
}

/// Named counts as the report views them.
pub open spec fn entry_views(v: Seq<(String, usize)>) -> Seq<(Seq<char>, nat)> {
    v.map_values(|e: (String, usize)| (e.0@, e.1 as nat))
}

proof fn lemma_named_in_place(
    sorted: Seq<(Seq<char>, nat)>,
    entry: (Seq<char>, nat),
    at: int,
)
    requires
        0 <= at <= sorted.len(),
        forall|k: int| at <= k < sorted.len() ==> !text_le((#[trigger] sorted[k]).0, entry.0),
        at > 0 ==> text_le(sorted[at - 1].0, entry.0),
    ensures
        named_in_place(sorted, entry) == sorted.insert(at, entry),
    decreases sorted.len(),
{
    if at == sorted.len() {
        assert(sorted.insert(at, entry) =~= sorted.push(entry));
    } else {
        assert(!text_le(sorted[sorted.len() - 1].0, entry.0));
        let rest = sorted.drop_last();
        assert forall|k: int| at <= k < rest.len() implies !text_le(
            (#[trigger] rest[k]).0,
            entry.0,
        ) by {
            assert(rest[k] == sorted[k]);
        }
        lemma_named_in_place(rest, entry, at);
        assert(sorted.insert(at, entry) =~= rest.insert(at, entry).push(sorted.last()));
    }
}

/// How many agents held each name, in the order of the names.
fn count_collisions(fields: &Vec<(String, Json)>) -> (entries: Vec<(String, usize)>)
    ensures
        entry_views(entries@) == collisions(Json::Object(*fields)@->Object_0),
{
    let ghost shown = Json::Object(*fields)@->Object_0;
    let mut entries: Vec<(String, usize)> = Vec::new();
    let mut i: usize = 0;
    assert(shown.take(0) =~= Seq::<(Seq<char>, JsonView)>::empty());
    assert(entry_views(entries@) =~= collisions(shown.take(0)));
    while i < fields.len()
        invariant
            i <= fields@.len(),
            shown == Json::Object(*fields)@->Object_0,
            entry_views(entries@) == collisions(shown.take(i as int)),
        decreases fields@.len() - i,
    {
        let name = fields[i].0.clone();
        let count: usize = match &fields[i].1 {
            Json::List(items) => {
                proof {
                    lemma_list_view(*items);
                }
                items.len()
            },
            _ => 0,
        };
        let ghost entry = (name@, count as nat);
        assert(shown[i as int] == (fields@[i as int].0@, fields@[i as int].1@));
        let mut at: usize = entries.len();
        while at > 0 && !text_before(entries[at - 1].0.as_str(), name.as_str())
            invariant
                at <= entries@.len(),
                forall|k: int|
                    at <= k < entries@.len() ==> !text_le((#[trigger] entries@[k]).0@, name@),
            decreases at,
        {
            at = at - 1;
        }
        proof {
            let now = entry_views(entries@);
            assert forall|k: int| at <= k < now.len() implies !text_le(
                (#[trigger] now[k]).0,
                entry.0,
            ) by {
                assert(now[k].0 == entries@[k].0@);
            }
            lemma_named_in_place(now, entry, at as int);
            let next = shown.take(i as int + 1);
            assert(next.drop_last() =~= shown.take(i as int));
            assert(next.last() == shown[i as int]);
        }
        let ghost before = entries@;
        entries.insert(at, (name, count));
        assert(entry_views(entries@) =~= entry_views(before).insert(at as int, entry));
        i = i + 1;
    }
    assert(shown.take(i as int) =~= shown);
    entries
}

fn render_footnote(r: &mut Receipt, result: &Json)
    ensures
        final(r)@ == old(r)@ + footnote(result@),
{
    if let Some(Json::Object(fields)) = result.get("alias_collisions") {
        if fields.len() > 0 {
            r.say(
                "\nnames held by more than one agent over time (aliases are reusable, so this is history, not a fault):\n",
            );
            let entries = count_collisions(fields);
            let ghost head = r@;
            let ghost all = entry_views(entries@);
            let mut i: usize = 0;
            assert(all.take(0) =~= Seq::<(Seq<char>, nat)>::empty());
            assert(r@ =~= head + collision_lines(all.take(0)));
            while i < entries.len()
                invariant
                    i <= entries@.len(),
                    all == entry_views(entries@),
                    r@ == head + collision_lines(all.take(i as int)),
                decreases entries@.len() - i,
            {
                let ghost before = r@;
                r.say("  ");
                r.say(entries[i].0.as_str());
                r.say(" agents=");
                r.say_number(entries[i].1);
                r.say("\n");
                proof {
                    let next = all.take(i as int + 1);
                    assert(next.drop_last() =~= all.take(i as int));
                    assert(next.last() == all[i as int]);
                    assert(all[i as int] == (entries@[i as int].0@, entries@[i as int].1 as nat));
                    assert(r@ =~= head + collision_lines(next));
                }
                i = i + 1;
            }
            assert(all.take(i as int) =~= all);
            assert(r@ =~= old(r)@ + footnote(result@));
            return ;
        }
    }
    assert(r@ =~= old(r)@ + footnote(result@));
}

/// What the report is, and who owns each fact, before any of it: the reader is
/// usually an agent with no prior context.
pub const REPORT_HEADER: &'static str = "kelpie report: every logical agent Kelpie has ever recorded, nested under the agent that started it.\nindent means \"started by the line above\". kelpie=<what Kelpie recorded> herdr=<Herdr's live status, only with --live>.\na logical agent outlives its runtimes: incarnations= counts how many times it has been bound to one.\nconversation= is how long the CURRENT context has been running, not the agent's age. it resets on clear, compaction, resume, or renew, and reads unknown until Kelpie observes one.\nready=addressable now. unsettled=starting or unknown, may or may not be alive. every other state is history.\n";

/// The positions of that many agents.
pub open spec fn everyone(count: nat) -> Seq<int> {
    Seq::new(count, |i: int| i)
}

/// The roots with everything below them, and the agents that are shown there, in order.
pub open spec fn rooted(fleet: Fleet) -> (Seq<PieceView>, Seq<Seq<char>>) {
    forest(
        fleet,
        by_age(fleet.agents, roots(fleet.agents, fleet.agents.len() as int)),
        0,
        0,
        Seq::empty(),
    )
}

/// The roots with everything below them, then whoever is below no root: parentage is
/// data and can cycle, and nothing is silently dropped from the tree. Also the agents
/// that are shown, in order.
pub open spec fn fleet_tree(fleet: Fleet) -> (Seq<PieceView>, Seq<Seq<char>>) {
    let (first, seen) = rooted(fleet);
    let (left, all) = forest(
        fleet,
        by_age(fleet.agents, everyone(fleet.agents.len())),
        0,
        0,
        seen,
    );
    (first + left, all)
}

/// Render the roots with everything below them, then whoever is below no root.
fn render_fleet(r: &mut Receipt, agents: &Vec<Json>, obligations: &Vec<Json>, now: i64)
    ensures
        final(r)@ == old(r)@ + fleet_tree(
            (Fleet { agents: views(agents@), obligations: views(obligations@), now: now as int }),
        ).0,
{
    let ghost fleet = Fleet {
        agents: views(agents@),
        obligations: views(obligations@),
        now: now as int,
    };
    let picked = roots_of(agents);
    let order = sort_by_age(agents, &picked);
    let all = positions(agents.len());
    let age = sort_by_age(agents, &all);
    let mut seen: Vec<String> = Vec::new();
    proof {
        assert(texts(seen@) =~= Seq::<Seq<char>>::empty());
        lemma_unseen_bound(views(agents@), texts(seen@));
    }
    render_forest(r, agents, obligations, now, &order, 0, &mut seen);
    proof {
        lemma_unseen_bound(views(agents@), texts(seen@));
    }
    render_forest(r, agents, obligations, now, &age, 0, &mut seen);
    assert(r@ =~= old(r)@ + fleet_tree(fleet).0);
}

/// What a report is made from.
pub open spec fn fleet_of(result: JsonView) -> Fleet {
    Fleet {
        agents: result.at("agents"@).items(),
        obligations: result.at("obligations"@).items(),
        now: match result.at("generated_at_ms"@).as_i64() {
            Some(ms) => ms as int,
            None => 0,
        },
    }
}

/// What a report says before its rows.
pub open spec fn report_head(result: JsonView) -> Seq<PieceView> {
    let fleet = fleet_of(result);
    seq![
        said(REPORT_HEADER@),
        said("fleet agents="@),
        said(decimal_text(fleet.agents.len())),
        said(" ready="@),
        said(decimal_text(ready_count(fleet.agents))),
        said(" unsettled="@),
        said(decimal_text(unsettled_count(fleet.agents))),
        said(" obligations="@),
        said(decimal_text(fleet.obligations.len())),
        said(" open="@),
        said(decimal_text(unanswered_count(fleet.obligations))),
        said(" generated="@),
        said(utc_text(fleet.now)),
    ] + (match result.at("live_snapshot_at_ms"@).as_i64() {
        Some(ms) => seq![said(" herdr-snapshot="@), said(utc_text(ms as int))],
        None => Seq::empty(),
    }) + seq![said("\n"@)]
}

/// The receipt of a report.
pub open spec fn report_receipt(result: JsonView) -> Seq<PieceView> {
    report_head(result) + fleet_tree(fleet_of(result)).0 + footnote(result)
}

/// The positions of that many agents.
fn positions(count: usize) -> (all: Vec<usize>)
    ensures
        ints(all@) == everyone(count as nat),
        in_range(all@, count as nat),
{
    let mut all: Vec<usize> = Vec::new();
    let mut i: usize = 0;
    while i < count
        invariant
            i <= count,
            all@.len() == i,
            forall|j: int| 0 <= j < i ==> all@[j] == j,
        decreases count - i,
    {
        all.push(i);
        i = i + 1;
    }
    assert(ints(all@) =~= everyone(count as nat));
    all
}

/// How many agents are ready and how many unsettled.
fn count_agents(agents: &Vec<Json>) -> (counts: (usize, usize))
    ensures
        counts.0 == ready_count(views(agents@)),
        counts.1 == unsettled_count(views(agents@)),
{
    let mut ready: usize = 0;
    let mut undecided: usize = 0;
    let mut i: usize = 0;
    assert(views(agents@.take(0)) =~= Seq::<JsonView>::empty());
    while i < agents.len()
        invariant
            i <= agents@.len(),
            ready <= i,
            undecided <= i,
            ready == ready_count(views(agents@.take(i as int))),
            undecided == unsettled_count(views(agents@.take(i as int))),
        decreases agents@.len() - i,
    {
        proof {
            let next = views(agents@.take(i as int + 1));
            assert(next.drop_last() =~= views(agents@.take(i as int)));
            assert(next.last() == agents@[i as int]@);
        }
        // "ready" is the only state that proves an agent is addressable. Counting
        // starting and unknown alongside it would claim a binding Kelpie has not
        // proven, so they are reported separately as what they are: undecided.
        if in_state(&agents[i], "ready") {
            ready = ready + 1;
        }
        if unsettled(&agents[i]) {
            undecided = undecided + 1;
        }
        i = i + 1;
    }
    assert(agents@.take(i as int) =~= agents@);
    (ready, undecided)
}

/// How many obligations are unanswered.
fn count_open(obligations: &Vec<Json>) -> (open: usize)
    ensures
        open == unanswered_count(views(obligations@)),
{
    let mut open: usize = 0;
    let mut i: usize = 0;
    assert(views(obligations@.take(0)) =~= Seq::<JsonView>::empty());
    while i < obligations.len()
        invariant
            i <= obligations@.len(),
            open <= i,
            open == unanswered_count(views(obligations@.take(i as int))),
        decreases obligations@.len() - i,
    {
        proof {
            let next = views(obligations@.take(i as int + 1));
            assert(next.drop_last() =~= views(obligations@.take(i as int)));
            assert(next.last() == obligations@[i as int]@);
        }
        if unanswered(&obligations[i]) {
            open = open + 1;
        }
        i = i + 1;
    }
    assert(obligations@.take(i as int) =~= obligations@);
    open
}

/// Render the fleet as a parentage tree with obligations as edges.
#[verifier::rlimit(60)]
#[verifier::spinoff_prover]
pub fn render_report(result: &Json) -> (r: Receipt)
    ensures
        r@ == report_receipt(result@),
{
    let empty: Vec<Json> = Vec::new();
    let agents = items_of(result, "agents", &empty);
    let obligations = items_of(result, "obligations", &empty);
    let now: i64 = match result.i64_at("generated_at_ms") {
        Some(ms) => ms,
        None => 0,
    };
    let (ready, undecided) = count_agents(agents);
    let open: usize = count_open(obligations);
    let mut r = Receipt::new();
    r.say(REPORT_HEADER);
    r.say("fleet agents=");
    r.say_number(agents.len());
    r.say(" ready=");
    r.say_number(ready);
    r.say(" unsettled=");
    r.say_number(undecided);
    r.say(" obligations=");
    r.say_number(obligations.len());
    r.say(" open=");
    r.say_number(open);
    r.say(" generated=");
    let generated = format_utc_ms(now);
    r.say(generated.as_str());
    if let Some(ms) = result.i64_at("live_snapshot_at_ms") {
        r.say(" herdr-snapshot=");
        let snapshot = format_utc_ms(ms);
        r.say(snapshot.as_str());
    }
    r.say("\n");
    render_fleet(&mut r, agents, obligations, now);
    render_footnote(&mut r, result);
    assert(r@ =~= report_receipt(result@));
    r
}

/// Whether an order goes from the oldest to the newest.
pub open spec fn is_by_age(agents: Seq<JsonView>, order: Seq<int>) -> bool {
    forall|i: int, j: int|
        0 <= i <= j < order.len() ==> created(agents[#[trigger] order[i]]) <= created(
            agents[#[trigger] order[j]],
        )
}

proof fn lemma_placed_keeps(agents: Seq<JsonView>, order: Seq<int>, index: int)
    requires
        is_by_age(agents, order),
    ensures
        is_by_age(agents, placed(agents, order, index)),
        placed(agents, order, index).to_multiset() == order.to_multiset().insert(index),
        placed(agents, order, index).len() == order.len() + 1,
        forall|k: int|
            0 <= k < placed(agents, order, index).len() ==> created(
                agents[#[trigger] placed(agents, order, index)[k]],
            ) <= created(agents[index]) || (order.len() > 0 && created(
                agents[placed(agents, order, index)[k]],
            ) <= created(agents[order.last()])),
    decreases order.len(),
{
    broadcast use vstd::seq_lib::group_to_multiset_ensures;

    let result = placed(agents, order, index);
    if order.len() == 0 || created(agents[order.last()]) <= created(agents[index]) {
        assert forall|i: int, j: int| 0 <= i <= j < result.len() implies created(
            agents[#[trigger] result[i]],
        ) <= created(agents[#[trigger] result[j]]) by {
            if i < order.len() {
                assert(created(agents[order[i]]) <= created(agents[order[order.len() - 1]]));
                if j < order.len() {
                    assert(created(agents[order[i]]) <= created(agents[order[j]]));
                }
            }
        }
    } else {
        let rest = order.drop_last();
        assert forall|i: int, j: int| 0 <= i <= j < rest.len() implies created(
            agents[#[trigger] rest[i]],
        ) <= created(agents[#[trigger] rest[j]]) by {
            assert(created(agents[order[i]]) <= created(agents[order[j]]));
        }
        lemma_placed_keeps(agents, rest, index);
        let before = placed(agents, rest, index);
        if rest.len() > 0 {
            assert(created(agents[order[rest.len() - 1]]) <= created(
                agents[order[order.len() - 1]],
            ));
        }
        assert forall|k: int| 0 <= k < before.len() implies created(agents[#[trigger] before[k]])
            <= created(agents[order.last()]) by {}
        assert forall|i: int, j: int| 0 <= i <= j < result.len() implies created(
            agents[#[trigger] result[i]],
        ) <= created(agents[#[trigger] result[j]]) by {
            if j < before.len() {
                assert(created(agents[before[i]]) <= created(agents[before[j]]));
            } else if i < before.len() {
                assert(created(agents[before[i]]) <= created(agents[order.last()]));
            }
        }
        assert(order =~= rest.push(order.last()));
        assert(result.to_multiset() =~= order.to_multiset().insert(index));
    }
}

/// Agents put in order are the same agents, from the oldest to the newest.
pub proof fn law_by_age_sorts(agents: Seq<JsonView>, picked: Seq<int>)
    ensures
        is_by_age(agents, by_age(agents, picked)),
        by_age(agents, picked).to_multiset() == picked.to_multiset(),
    decreases picked.len(),
{
    broadcast use vstd::seq_lib::group_to_multiset_ensures;

    if picked.len() > 0 {
        let rest = picked.drop_last();
        law_by_age_sorts(agents, rest);
        lemma_placed_keeps(agents, by_age(agents, rest), picked.last());
        assert(picked =~= rest.push(picked.last()));
    } else {
        assert(picked =~= Seq::<int>::empty());
    }
}

proof fn lemma_by_age_contains(agents: Seq<JsonView>, picked: Seq<int>, index: int)
    requires
        picked.contains(index),
    ensures
        by_age(agents, picked).contains(index),
{
    broadcast use vstd::seq_lib::group_to_multiset_ensures;

    law_by_age_sorts(agents, picked);
    assert(picked.to_multiset().count(index) > 0);
    assert(by_age(agents, picked).to_multiset().count(index) > 0);
}

proof fn lemma_child_is_picked(agents: Seq<JsonView>, id: Seq<char>, count: int, index: int)
    requires
        0 <= index < count <= agents.len(),
        agents[index].at("parent_agent_id"@).as_text() == Some(id),
    ensures
        children(agents, id, count).contains(index),
    decreases count,
{
    let picked = children(agents, id, count);
    if index == count - 1 {
        assert(picked[picked.len() - 1] == index);
    } else {
        lemma_child_is_picked(agents, id, count - 1, index);
        let before = children(agents, id, count - 1);
        let k = choose|k: int| 0 <= k < before.len() && before[k] == index;
        assert(picked[k] == index);
    }
}

proof fn lemma_root_is_picked(agents: Seq<JsonView>, count: int, index: int)
    requires
        0 <= index < count <= agents.len(),
        is_root(agents, agents[index]),
    ensures
        roots(agents, count).contains(index),
    decreases count,
{
    let picked = roots(agents, count);
    if index == count - 1 {
        assert(picked[picked.len() - 1] == index);
    } else {
        lemma_root_is_picked(agents, count - 1, index);
        let before = roots(agents, count - 1);
        let k = choose|k: int| 0 <= k < before.len() && before[k] == index;
        assert(picked[k] == index);
    }
}

/// Whether one list of identifiers goes on from another.
pub open spec fn goes_on(before: Seq<Seq<char>>, after: Seq<Seq<char>>) -> bool {
    before.len() <= after.len() && after.take(before.len() as int) == before
}

proof fn lemma_goes_on_contains(
    before: Seq<Seq<char>>,
    after: Seq<Seq<char>>,
    id: Seq<char>,
)
    requires
        goes_on(before, after),
        before.contains(id),
    ensures
        after.contains(id),
{
    let k = choose|k: int| 0 <= k < before.len() && before[k] == id;
    assert(after.take(before.len() as int)[k] == id);
    assert(after[k] == id);
}

proof fn lemma_goes_on_unseen(
    agents: Seq<JsonView>,
    before: Seq<Seq<char>>,
    after: Seq<Seq<char>>,
)
    requires
        goes_on(before, after),
    ensures
        unseen(agents, after) <= unseen(agents, before),
    decreases agents.len(),
{
    if agents.len() > 0 {
        lemma_goes_on_unseen(agents.drop_last(), before, after);
        match id_of(agents.last()) {
            Some(id) => {
                if before.contains(id) {
                    lemma_goes_on_contains(before, after, id);
                }
            },
            None => {},
        }
    }
}

proof fn lemma_goes_on_trans(a: Seq<Seq<char>>, b: Seq<Seq<char>>, c: Seq<Seq<char>>)
    requires
        goes_on(a, b),
        goes_on(b, c),
    ensures
        goes_on(a, c),
{
    assert(c.take(a.len() as int) =~= b.take(a.len() as int));
}

/// Whether identifiers are all of agents in the report.
pub open spec fn all_known(agents: Seq<JsonView>, ids: Seq<Seq<char>>) -> bool {
    forall|k: int| 0 <= k < ids.len() ==> is_known(agents, #[trigger] ids[k])
}

/// Whether every agent that an agent shown since `before` started is shown too.
pub open spec fn closed_below(
    agents: Seq<JsonView>,
    before: Seq<Seq<char>>,
    after: Seq<Seq<char>>,
) -> bool {
    forall|i: int, id: Seq<char>|
        0 <= i < agents.len() && after.contains(id) && !before.contains(id) && (
        #[trigger] agents[i]).at("parent_agent_id"@).as_text() == Some(id) && id_of(agents[i]) is Some
            ==> #[trigger] after.contains(id) && after.contains(id_of(agents[i])->0)
}

proof fn lemma_agent_tree(fleet: Fleet, index: int, depth: nat, seen: Seq<Seq<char>>)
    ensures
        ({
            let after = agent_tree(fleet, index, depth, seen).1;
            &&& goes_on(seen, after)
            &&& seen.no_duplicates() ==> after.no_duplicates()
            &&& all_known(fleet.agents, seen) ==> all_known(fleet.agents, after)
            &&& 0 <= index < fleet.agents.len() && id_of(fleet.agents[index]) is Some
                ==> after.contains(id_of(fleet.agents[index])->0)
            &&& closed_below(fleet.agents, seen, after)
        }),
    decreases unseen(fleet.agents, seen), 0int,
{
    let agents = fleet.agents;
    let after = agent_tree(fleet, index, depth, seen).1;
    assert(seen.take(seen.len() as int) =~= seen);
    if 0 <= index < agents.len() && id_of(agents[index]) is Some && !seen.contains(
        id_of(agents[index])->0,
    ) {
        let id = id_of(agents[index])->0;
        let pushed = seen.push(id);
        lemma_unseen_push(agents, seen, index);
        assert(is_known(agents, id));
        let order = by_age(agents, children(agents, id, agents.len() as int));
        lemma_forest(fleet, order, 0, depth + 1, pushed);
        assert(pushed.take(seen.len() as int) =~= seen);
        lemma_goes_on_trans(seen, pushed, after);
        assert(pushed[seen.len() as int] == id);
        lemma_goes_on_contains(pushed, after, id);
        assert forall|i: int, other: Seq<char>|
            0 <= i < agents.len() && after.contains(other) && !seen.contains(other) && (
            #[trigger] agents[i]).at("parent_agent_id"@).as_text() == Some(other) && id_of(
                agents[i],
            ) is Some implies #[trigger] after.contains(other) && after.contains(
            id_of(agents[i])->0,
        ) by {
            if other == id {
                lemma_child_is_picked(agents, id, agents.len() as int, i);
                lemma_by_age_contains(agents, children(agents, id, agents.len() as int), i);
                let k = choose|k: int| 0 <= k < order.len() && order[k] == i;
                assert(id_of(agents[order[k]]) is Some);
            } else {
                assert(!pushed.contains(other)) by {
                    if pushed.contains(other) {
                        let k = choose|k: int| 0 <= k < pushed.len() && pushed[k] == other;
                        assert(seen[k] == other);
                    }
                }
            }
        }
    }
}

proof fn lemma_forest(
    fleet: Fleet,
    order: Seq<int>,
    from: int,
    depth: nat,
    seen: Seq<Seq<char>>,
)
    ensures
        ({
            let after = forest(fleet, order, from, depth, seen).1;
            &&& goes_on(seen, after)
            &&& seen.no_duplicates() ==> after.no_duplicates()
            &&& all_known(fleet.agents, seen) ==> all_known(fleet.agents, after)
            &&& from >= 0 ==> forall|k: int|
                from <= k < order.len() && 0 <= #[trigger] order[k] < fleet.agents.len() && id_of(
                    fleet.agents[order[k]],
                ) is Some ==> after.contains(id_of(fleet.agents[order[k]])->0)
            &&& closed_below(fleet.agents, seen, after)
        }),
    decreases unseen(fleet.agents, seen), order.len() - from + 1,
{
    let agents = fleet.agents;
    assert(seen.take(seen.len() as int) =~= seen);
    if 0 <= from < order.len() {
        let middle = agent_tree(fleet, order[from], depth, seen).1;
        lemma_agent_tree(fleet, order[from], depth, seen);
        lemma_goes_on_unseen(agents, seen, middle);
        lemma_forest(fleet, order, from + 1, depth, middle);
        let after = forest(fleet, order, from, depth, seen).1;
        assert(after == forest(fleet, order, from + 1, depth, middle).1);
        lemma_goes_on_trans(seen, middle, after);
        assert forall|k: int|
            from <= k < order.len() && 0 <= #[trigger] order[k] < agents.len() && id_of(
                agents[order[k]],
            ) is Some implies after.contains(id_of(agents[order[k]])->0) by {
            if k == from {
                lemma_goes_on_contains(middle, after, id_of(agents[order[k]])->0);
            }
        }
        assert forall|i: int, id: Seq<char>|
            0 <= i < agents.len() && after.contains(id) && !seen.contains(id) && (
            #[trigger] agents[i]).at("parent_agent_id"@).as_text() == Some(id) && id_of(
                agents[i],
            ) is Some implies #[trigger] after.contains(id) && after.contains(
            id_of(agents[i])->0,
        ) by {
            if middle.contains(id) {
                assert(middle.contains(id_of(agents[i])->0));
                lemma_goes_on_contains(middle, after, id_of(agents[i])->0);
            }
        }
    }
}

/// The identifiers of the agents that a report shows, in order.
pub open spec fn shown_agents(fleet: Fleet) -> Seq<Seq<char>> {
    fleet_tree(fleet).1
}

/// A report shows every agent that has an identifier, each once, and nobody else:
/// nothing is silently dropped from the tree, whatever the parents are.
pub proof fn law_report_shows_every_agent_once(fleet: Fleet)
    ensures
        shown_agents(fleet).no_duplicates(),
        forall|i: int|
            0 <= i < fleet.agents.len() && id_of(#[trigger] fleet.agents[i]) is Some
                ==> shown_agents(fleet).contains(id_of(fleet.agents[i])->0),
        forall|k: int|
            0 <= k < shown_agents(fleet).len() ==> is_known(
                fleet.agents,
                #[trigger] shown_agents(fleet)[k],
            ),
{
    let agents = fleet.agents;
    let first = by_age(agents, roots(agents, agents.len() as int));
    let seen = rooted(fleet).1;
    lemma_forest(fleet, first, 0, 0, Seq::empty());
    let picked = everyone(agents.len());
    let order = by_age(agents, picked);
    lemma_forest(fleet, order, 0, 0, seen);
    assert forall|i: int|
        0 <= i < agents.len() && id_of(#[trigger] agents[i]) is Some implies shown_agents(
        fleet,
    ).contains(id_of(agents[i])->0) by {
        assert(picked[i] == i);
        lemma_by_age_contains(agents, picked, i);
        let k = choose|k: int| 0 <= k < order.len() && order[k] == i;
        assert(id_of(agents[order[k]]) is Some);
    }
}

/// One agent of a report: its line, and the lines of the replies that it owes. A row is
/// the place of an agent and the depth that it is shown at.
pub open spec fn row_pieces(fleet: Fleet, row: (int, nat)) -> Seq<PieceView> {
    let agent = fleet.agents[row.0];
    let id = id_of(agent)->0;
    agent_line(agent, id, fleet.now, row.1) + owed_lines(
        fleet.agents,
        fleet.obligations,
        id,
        fleet.now,
        row.1,
    )
}

/// The rows of a report, one behind the other.
pub open spec fn rows_pieces(fleet: Fleet, rows: Seq<(int, nat)>) -> Seq<PieceView>
    decreases rows.len(),
{
    if rows.len() == 0 {
        Seq::empty()
    } else {
        rows_pieces(fleet, rows.drop_last()) + row_pieces(fleet, rows.last())
    }
}

/// Whether each row is an agent with an identifier.
pub open spec fn are_rows(fleet: Fleet, rows: Seq<(int, nat)>) -> bool {
    forall|k: int|
        0 <= k < rows.len() ==> 0 <= (#[trigger] rows[k]).0 < fleet.agents.len() && id_of(
            fleet.agents[rows[k].0],
        ) is Some
}

/// The identifiers that rows are headed by.
pub open spec fn row_ids(fleet: Fleet, rows: Seq<(int, nat)>) -> Seq<Seq<char>> {
    Seq::new(rows.len(), |k: int| id_of(fleet.agents[rows[k].0])->0)
}

proof fn lemma_rows_append(fleet: Fleet, a: Seq<(int, nat)>, b: Seq<(int, nat)>)
    ensures
        rows_pieces(fleet, a + b) == rows_pieces(fleet, a) + rows_pieces(fleet, b),
        row_ids(fleet, a + b) == row_ids(fleet, a) + row_ids(fleet, b),
        are_rows(fleet, a) && are_rows(fleet, b) ==> are_rows(fleet, a + b),
    decreases b.len(),
{
    assert(row_ids(fleet, a + b) =~= row_ids(fleet, a) + row_ids(fleet, b));
    if b.len() == 0 {
        assert(a + b =~= a);
        assert(rows_pieces(fleet, a) + rows_pieces(fleet, b) =~= rows_pieces(fleet, a));
    } else {
        lemma_rows_append(fleet, a, b.drop_last());
        assert((a + b).drop_last() =~= a + b.drop_last());
        assert(rows_pieces(fleet, a + b) =~= rows_pieces(fleet, a) + rows_pieces(fleet, b));
    }
}

/// The rows of an agent and of whatever is shown below it.
proof fn lemma_tree_rows(fleet: Fleet, index: int, depth: nat, seen: Seq<Seq<char>>) -> (rows: Seq<
    (int, nat),
>)
    ensures
        are_rows(fleet, rows),
        agent_tree(fleet, index, depth, seen).0 == rows_pieces(fleet, rows),
        agent_tree(fleet, index, depth, seen).1 == seen + row_ids(fleet, rows),
    decreases unseen(fleet.agents, seen), 0int,
{
    let agents = fleet.agents;
    let none = Seq::<(int, nat)>::empty();
    if 0 <= index < agents.len() && id_of(agents[index]) is Some && !seen.contains(
        id_of(agents[index])->0,
    ) {
        let id = id_of(agents[index])->0;
        lemma_unseen_push(agents, seen, index);
        let order = by_age(agents, children(agents, id, agents.len() as int));
        let below = lemma_forest_rows(fleet, order, 0, depth + 1, seen.push(id));
        let head = seq![(index, depth)];
        assert(head.drop_last() =~= none);
        assert(rows_pieces(fleet, head.drop_last()) == Seq::<PieceView>::empty());
        assert(rows_pieces(fleet, head) =~= row_pieces(fleet, (index, depth)));
        assert(row_ids(fleet, head) =~= seq![id]);
        lemma_rows_append(fleet, head, below);
        assert(agent_tree(fleet, index, depth, seen).0 =~= rows_pieces(fleet, head + below));
        assert(seen.push(id) + row_ids(fleet, below) =~= seen + row_ids(fleet, head + below));
        head + below
    } else {
        assert(seen + row_ids(fleet, none) =~= seen);
        none
    }
}

proof fn lemma_forest_rows(
    fleet: Fleet,
    order: Seq<int>,
    from: int,
    depth: nat,
    seen: Seq<Seq<char>>,
) -> (rows: Seq<(int, nat)>)
    ensures
        are_rows(fleet, rows),
        forest(fleet, order, from, depth, seen).0 == rows_pieces(fleet, rows),
        forest(fleet, order, from, depth, seen).1 == seen + row_ids(fleet, rows),
    decreases unseen(fleet.agents, seen), order.len() - from + 1,
{
    let none = Seq::<(int, nat)>::empty();
    if 0 <= from < order.len() {
        let middle = agent_tree(fleet, order[from], depth, seen).1;
        lemma_agent_tree(fleet, order[from], depth, seen);
        lemma_goes_on_unseen(fleet.agents, seen, middle);
        let first = lemma_tree_rows(fleet, order[from], depth, seen);
        let rest = lemma_forest_rows(fleet, order, from + 1, depth, middle);
        lemma_rows_append(fleet, first, rest);
        assert(middle + row_ids(fleet, rest) =~= seen + row_ids(fleet, first + rest));
        first + rest
    } else {
        assert(seen + row_ids(fleet, none) =~= seen);
        none
    }
}

/// Whether rows are all that a report shows between its head and its footnote, with one
/// row for every agent that has an identifier, and none beside.
pub open spec fn shows_rows(result: JsonView, rows: Seq<(int, nat)>) -> bool {
    let fleet = fleet_of(result);
    &&& are_rows(fleet, rows)
    &&& report_receipt(result) == report_head(result) + rows_pieces(fleet, rows) + footnote(result)
    &&& row_ids(fleet, rows).no_duplicates()
    &&& forall|i: int|
        0 <= i < fleet.agents.len() && id_of(#[trigger] fleet.agents[i]) is Some ==> row_ids(
            fleet,
            rows,
        ).contains(id_of(fleet.agents[i])->0)
}

/// A report is its head, one row for every agent that has an identifier, and its footnote.
pub proof fn law_report_has_one_row_for_every_agent(result: JsonView)
    ensures
        exists|rows: Seq<(int, nat)>| shows_rows(result, rows),
{
    let fleet = fleet_of(result);
    let agents = fleet.agents;
    let seen = rooted(fleet).1;
    let first = lemma_forest_rows(
        fleet,
        by_age(agents, roots(agents, agents.len() as int)),
        0,
        0,
        Seq::empty(),
    );
    let left = lemma_forest_rows(fleet, by_age(agents, everyone(agents.len())), 0, 0, seen);
    lemma_rows_append(fleet, first, left);
    let rows = first + left;
    assert(Seq::<Seq<char>>::empty() + row_ids(fleet, first) =~= row_ids(fleet, first));
    assert(shown_agents(fleet) == row_ids(fleet, rows));
    law_report_shows_every_agent_once(fleet);
    assert(shows_rows(result, rows));
}

/// The tree of the roots shows every root, and with each agent whatever it started.
pub proof fn law_roots_show_whom_they_started(fleet: Fleet)
    ensures
        forall|i: int|
            0 <= i < fleet.agents.len() && is_root(fleet.agents, #[trigger] fleet.agents[i])
                && id_of(fleet.agents[i]) is Some ==> rooted(fleet).1.contains(
                id_of(fleet.agents[i])->0,
            ),
        closed_below(fleet.agents, Seq::empty(), rooted(fleet).1),
{
    let agents = fleet.agents;
    let picked = roots(agents, agents.len() as int);
    let order = by_age(agents, picked);
    lemma_forest(fleet, order, 0, 0, Seq::empty());
    assert forall|i: int|
        0 <= i < agents.len() && is_root(agents, #[trigger] agents[i]) && id_of(
            agents[i],
        ) is Some implies rooted(fleet).1.contains(id_of(agents[i])->0) by {
        lemma_root_is_picked(agents, agents.len() as int, i);
        lemma_by_age_contains(agents, picked, i);
        let k = choose|k: int| 0 <= k < order.len() && order[k] == i;
        assert(id_of(agents[order[k]]) is Some);
    }
}

} // verus!
