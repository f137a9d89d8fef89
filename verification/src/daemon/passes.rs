//! What a pass of the daemon does: what comes due is sent, what is queued is offered, and what moved
//! is noted.

use vstd::prelude::*;

use super::due::{after_due, fresh_due};
use super::inbox::{after_offers, fresh_offers, pumped, InboxAct, InboxPhase, InboxPump};
use super::poll::{moved, waits, Phase, PollMoves, PollParked};
use super::prompt::PreparedPrompt;
use super::results::InboxDelivery;
use super::route::Method;
use crate::herdr::AgentObservation;
use crate::herdr_exec::{lease_event_is, lease_goes_on, EventView, LeaseInput, ResultView};
use crate::json::Json;

verus! {

/// What is due is sent unless it is in flight already, and nothing else is.
#[verifier::spinoff_prover]
#[verifier::rlimit(60)]
pub proof fn law_everything_due_is_sent(due: Seq<PreparedPrompt>, inflight: Set<u128>)
    ensures
        forall|i: int|
            0 <= i < due.len() ==> after_due(due, inflight).contains(
                (#[trigger] due[i]).operation_id.value,
            ),
        forall|i: int|
            0 <= i < due.len() && !inflight.contains((#[trigger] due[i]).operation_id.value)
                ==> sends_operation(fresh_due(due, inflight), due[i].operation_id.value),
        forall|j: int|
            0 <= j < fresh_due(due, inflight).len() ==> due.contains(
                #[trigger] fresh_due(due, inflight)[j],
            ),
        forall|id: u128| #[trigger]
            after_due(due, inflight).contains(id) ==> inflight.contains(id) || sends_operation(
                due,
                id,
            ),
    decreases due.len(),
{
    if due.len() > 0 {
        let rest = due.drop_last();
        let last = due.last();
        let before = fresh_due(rest, inflight);
        let now = fresh_due(due, inflight);
        law_everything_due_is_sent(rest, inflight);
        assert forall|i: int| 0 <= i < due.len() implies after_due(due, inflight).contains(
            (#[trigger] due[i]).operation_id.value,
        ) by {
            if i < rest.len() {
                assert(rest[i] == due[i]);
            }
        }
        assert forall|i: int|
            0 <= i < due.len() && !inflight.contains(
                (#[trigger] due[i]).operation_id.value,
            ) implies sends_operation(now, due[i].operation_id.value) by {
            let id = due[i].operation_id.value;
            if i < rest.len() {
                assert(rest[i] == due[i]);
                let j = choose|j: int|
                    0 <= j < before.len() && (#[trigger] before[j]).operation_id.value == id;
                assert(now[j] == before[j]);
            } else if after_due(rest, inflight).contains(id) {
                let k = choose|k: int|
                    0 <= k < rest.len() && (#[trigger] rest[k]).operation_id.value == id;
                assert(rest[k].operation_id.value == id);
                let j = choose|j: int|
                    0 <= j < before.len() && (#[trigger] before[j]).operation_id.value == id;
                assert(now[j] == before[j]);
            } else {
                assert(now[now.len() - 1] == last);
            }
        }
        assert forall|j: int| 0 <= j < now.len() implies due.contains(#[trigger] now[j]) by {
            if j < before.len() {
                assert(now[j] == before[j]);
                let k = choose|k: int| 0 <= k < rest.len() && rest[k] == before[j];
                assert(due[k] == now[j]);
            } else {
                assert(due[due.len() - 1] == now[j]);
            }
        }
        assert forall|id: u128| #[trigger] after_due(due, inflight).contains(id) implies
            inflight.contains(id) || sends_operation(due, id) by {
            if id == last.operation_id.value {
                assert(due[due.len() - 1].operation_id.value == id);
            } else {
                assert(after_due(rest, inflight).contains(id));
                if !inflight.contains(id) {
                    let k = choose|k: int|
                        0 <= k < rest.len() && (#[trigger] rest[k]).operation_id.value == id;
                    assert(due[k].operation_id.value == id);
                }
            }
        }
    }
}

/// Whether one of the prompts is of an operation.
pub open spec fn sends_operation(prompts: Seq<PreparedPrompt>, id: u128) -> bool {
    exists|j: int| 0 <= j < prompts.len() && (#[trigger] prompts[j]).operation_id.value == id
}

/// Whether one of the deliveries is of a message.
pub open spec fn holds_message(deliveries: Seq<InboxDelivery>, id: u128) -> bool {
    exists|j: int| 0 <= j < deliveries.len() && (#[trigger] deliveries[j]).message_id.value == id
}

/// What is queued is offered unless it was offered already, and nothing else is.
#[verifier::spinoff_prover]
#[verifier::rlimit(60)]
pub proof fn law_everything_queued_is_offered(queued: Seq<InboxDelivery>, offered: Set<u128>)
    ensures
        forall|i: int|
            0 <= i < queued.len() ==> after_offers(queued, offered).contains(
                (#[trigger] queued[i]).message_id.value,
            ),
        forall|i: int|
            0 <= i < queued.len() && !offered.contains((#[trigger] queued[i]).message_id.value)
                ==> holds_message(fresh_offers(queued, offered), queued[i].message_id.value),
        forall|j: int|
            0 <= j < fresh_offers(queued, offered).len() ==> queued.contains(
                #[trigger] fresh_offers(queued, offered)[j],
            ),
        forall|id: u128| #[trigger]
            after_offers(queued, offered).contains(id) ==> offered.contains(id) || holds_message(
                queued,
                id,
            ),
    decreases queued.len(),
{
    if queued.len() > 0 {
        let rest = queued.drop_last();
        let last = queued.last();
        let before = fresh_offers(rest, offered);
        let now = fresh_offers(queued, offered);
        law_everything_queued_is_offered(rest, offered);
        assert forall|i: int| 0 <= i < queued.len() implies after_offers(queued, offered).contains(
            (#[trigger] queued[i]).message_id.value,
        ) by {
            if i < rest.len() {
                assert(rest[i] == queued[i]);
            }
        }
        assert forall|i: int|
            0 <= i < queued.len() && !offered.contains(
                (#[trigger] queued[i]).message_id.value,
            ) implies holds_message(now, queued[i].message_id.value) by {
            let id = queued[i].message_id.value;
            if i < rest.len() {
                assert(rest[i] == queued[i]);
                let j = choose|j: int|
                    0 <= j < before.len() && (#[trigger] before[j]).message_id.value == id;
                assert(now[j] == before[j]);
            } else if after_offers(rest, offered).contains(id) {
                let k = choose|k: int|
                    0 <= k < rest.len() && (#[trigger] rest[k]).message_id.value == id;
                assert(rest[k].message_id.value == id);
                let j = choose|j: int|
                    0 <= j < before.len() && (#[trigger] before[j]).message_id.value == id;
                assert(now[j] == before[j]);
            } else {
                assert(now[now.len() - 1] == last);
            }
        }
        assert forall|j: int| 0 <= j < now.len() implies queued.contains(#[trigger] now[j]) by {
            if j < before.len() {
                assert(now[j] == before[j]);
                let k = choose|k: int| 0 <= k < rest.len() && rest[k] == before[j];
                assert(queued[k] == now[j]);
            } else {
                assert(queued[queued.len() - 1] == now[j]);
            }
        }
        assert forall|id: u128| #[trigger] after_offers(queued, offered).contains(id) implies
            offered.contains(id) || holds_message(queued, id) by {
            if id == last.message_id.value {
                assert(queued[queued.len() - 1].message_id.value == id);
            } else {
                assert(after_offers(rest, offered).contains(id));
                if !offered.contains(id) {
                    let k = choose|k: int|
                        0 <= k < rest.len() && (#[trigger] rest[k]).message_id.value == id;
                    assert(queued[k].message_id.value == id);
                }
            }
        }
    }
}

/// What comes due later is sent behind what came due before, and what is queued later is offered
/// behind what was queued before.
#[verifier::spinoff_prover]
pub proof fn law_later_comes_behind(
    due: Seq<PreparedPrompt>,
    prompt: PreparedPrompt,
    inflight: Set<u128>,
    queued: Seq<InboxDelivery>,
    delivery: InboxDelivery,
    offered: Set<u128>,
)
    ensures
        after_due(due, inflight).contains(prompt.operation_id.value) ==> fresh_due(
            due.push(prompt),
            inflight,
        ) == fresh_due(due, inflight),
        !after_due(due, inflight).contains(prompt.operation_id.value) ==> fresh_due(
            due.push(prompt),
            inflight,
        ) == fresh_due(due, inflight).push(prompt),
        after_offers(queued, offered).contains(delivery.message_id.value) ==> fresh_offers(
            queued.push(delivery),
            offered,
        ) == fresh_offers(queued, offered),
        !after_offers(queued, offered).contains(delivery.message_id.value) ==> fresh_offers(
            queued.push(delivery),
            offered,
        ) == fresh_offers(queued, offered).push(delivery),
{
    assert(due.push(prompt).drop_last() =~= due);
    assert(queued.push(delivery).drop_last() =~= queued);
}

/// A pass over an inbox writes what was left, offers what is queued, writes that, reads the
/// acknowledgements and writes their answers; it closes where a part failed, and waits where
/// something is left to be written.
#[verifier::spinoff_prover]
pub proof fn law_inbox_pass_goes_on(pump: InboxPump, moved: bool, left: bool)
    ensures
        pump.phase is Rest && !left ==> pumped(pump, Ok(moved), left).1 is Offer,
        pump.phase is Offer ==> pumped(pump, Ok(moved), left).1 is Flush,
        pump.phase is Offered && !left ==> pumped(pump, Ok(moved), left).1 is ReadAcks,
        (pump.phase is Rest || pump.phase is Offered) && left ==> pumped(
            pump,
            Ok(moved),
            left,
        ).1 is Done,
        pump.phase matches InboxPhase::Answers { read, read_ok: true } ==> pumped(
            pump,
            Ok(moved),
            left,
        ).1 == (InboxAct::Done { progressed: pump.progressed || moved || read }),
        pump.phase matches InboxPhase::Answers { read_ok: false, .. } ==> pumped(
            pump,
            Ok(moved),
            left,
        ).1 is Close,
        pump.phase !is Acks ==> pumped(pump, Err(()), left).1 is Close,
        pump.phase is Rest && left ==> pumped(pump, Ok(moved), left).1 == (InboxAct::Done {
            progressed: pump.progressed || moved,
        }),
{
}

/// A part that moved something is noted as having moved, and the others stay as they were; nothing
/// has moved in a pass in which no part did.
#[verifier::spinoff_prover]
pub proof fn law_moves_are_noted(moves: PollMoves, phase: Phase)
    ensures
        !moved(PollMoves::none()),
        moved(moves) ==> moved(moves.with_move(phase)),
        phase is DriveRenews || phase is AwaitingRenews || phase is AwaitingStarts || phase
            is AwaitingClears || phase is Inboxes || phase is Reading || phase is Accept || phase
            is ReadingAfterAccept ==> moved(moves.with_move(phase)),
        phase is HerdrEvents || phase is DueDeliveries || phase is DueOpens || phase is DueReminders
            || phase is RenewHerdr || phase is ClearHerdr ==> moves.with_move(phase) == moves,
        moves.with_move(phase).starts == (moves.starts || phase is AwaitingStarts),
        moves.with_move(phase).clears == (moves.clears || phase is AwaitingClears),
        moves.with_move(phase).inboxes == (moves.inboxes || phase is Inboxes),
        moves.with_move(phase).reading == (moves.reading || phase is Reading),
        moves.with_move(phase).accepted == (moves.accepted || phase is Accept),
        moves.with_move(phase).renews_parked == (moves.renews_parked || phase is DriveRenews),
        moves.with_move(phase).renews_advanced == (moves.renews_advanced || phase
            is AwaitingRenews),
        moves.with_move(phase).reading_after_accept == (moves.reading_after_accept || phase
            is ReadingAfterAccept),
{
}

/// The loop rests only where nothing is parked that a further pass may move.
#[verifier::spinoff_prover]
pub proof fn law_parked_work_is_waited_for(parked: PollParked)
    ensures
        !waits(parked) <==> parked.starts == 0 && parked.clears == 0 && parked.reading == 0
            && parked.prompts == 0 && parked.cancels == 0 && parked.reminder_job is None
            && parked.reads == 0 && parked.renews == 0 && parked.adopts == 0 && parked.renames == 0
            && parked.retires == 0,
{
}

/// The names that the parts of a pass are logged under: each has its own, and no two share one.
#[verifier::spinoff_prover]
#[verifier::rlimit(90)]
pub proof fn law_phase_has_its_own_name(value: Phase, other: Phase)
    ensures
        value.name() == other.name() ==> value == other,
        value.name() == "herdr_events"@ <==> value is HerdrEvents,
        value.name() == "due_deliveries"@ <==> value is DueDeliveries,
        value.name() == "due_opens"@ <==> value is DueOpens,
        value.name() == "due_reminders"@ <==> value is DueReminders,
        value.name() == "drive_renews"@ <==> value is DriveRenews,
        value.name() == "awaiting_renews"@ <==> value is AwaitingRenews,
        value.name() == "renew_herdr"@ <==> value is RenewHerdr,
        value.name() == "awaiting_starts"@ <==> value is AwaitingStarts,
        value.name() == "awaiting_clears"@ <==> value is AwaitingClears,
        value.name() == "clear_herdr"@ <==> value is ClearHerdr,
        value.name() == "inboxes"@ <==> value is Inboxes,
        value.name() == "reading"@ <==> value is Reading,
        value.name() == "accept"@ <==> value is Accept,
        value.name() == "reading_after_accept"@ <==> value is ReadingAfterAccept,
{
    reveal_strlit("herdr_events");
    reveal_strlit("due_deliveries");
    reveal_strlit("due_opens");
    reveal_strlit("due_reminders");
    reveal_strlit("drive_renews");
    reveal_strlit("awaiting_renews");
    reveal_strlit("renew_herdr");
    reveal_strlit("awaiting_starts");
    reveal_strlit("awaiting_clears");
    reveal_strlit("clear_herdr");
    reveal_strlit("inboxes");
    reveal_strlit("reading");
    reveal_strlit("accept");
    reveal_strlit("reading_after_accept");
    assert("herdr_events"@.len() == 12);
    assert("due_deliveries"@.len() == 14);
    assert("due_opens"@.len() == 9);
    assert("due_reminders"@.len() == 13);
    assert("drive_renews"@.len() == 12);
    assert("awaiting_renews"@.len() == 15);
    assert("renew_herdr"@.len() == 11);
    assert("awaiting_starts"@.len() == 15);
    assert("awaiting_clears"@.len() == 15);
    assert("clear_herdr"@.len() == 11);
    assert("inboxes"@.len() == 7);
    assert("reading"@.len() == 7);
    assert("accept"@.len() == 6);
    assert("reading_after_accept"@.len() == 20);
    assert("herdr_events"@[0] == 'h');
    assert("drive_renews"@[0] == 'd');
    assert("awaiting_renews"@[9] == 'r');
    assert("awaiting_starts"@[9] == 's');
    assert("awaiting_clears"@[9] == 'c');
    assert("renew_herdr"@[0] == 'r');
    assert("clear_herdr"@[0] == 'c');
    assert("inboxes"@[0] == 'i');
    assert("reading"@[0] == 'r');
}

/// The names of the methods: each has its own, and no two share one.
#[verifier::spinoff_prover]
#[verifier::rlimit(100)]
pub proof fn law_method_has_its_own_name(value: Method, other: Method)
    ensures
        value.name() == other.name() ==> value == other,
        value.name() == "start"@ <==> value is Start,
        value.name() == "handoff"@ <==> value is Handoff,
        value.name() == "inbox.claim"@ <==> value is InboxClaim,
        value.name() == "ask"@ <==> value is Ask,
        value.name() == "tell"@ <==> value is Tell,
        value.name() == "reply"@ <==> value is Reply,
        value.name() == "clear"@ <==> value is Clear,
        value.name() == "recover"@ <==> value is Recover,
        value.name() == "attribution"@ <==> value is Attribution,
        value.name() == "who"@ <==> value is Who,
        value.name() == "report"@ <==> value is Report,
        value.name() == "whoami"@ <==> value is Whoami,
        value.name() == "adopt"@ <==> value is Adopt,
        value.name() == "rename"@ <==> value is Rename,
        value.name() == "retire"@ <==> value is Retire,
        value.name() == "waiter.register"@ <==> value is WaiterRegister,
        value.name() == "waiter.retire"@ <==> value is WaiterRetire,
        value.name() == "cancel"@ <==> value is Cancel,
        value.name() == "renew"@ <==> value is Renew,
        value.name() == "renew.cancel"@ <==> value is RenewCancel,
        value.name() == "pending"@ <==> value is Pending,
        value.name() == "name.info"@ <==> value is NameInfo,
        value.name() == "ask.info"@ <==> value is AskInfo,
        value.name() == "reminder.snooze"@ <==> value is ReminderSnooze,
        value.name() == "reminder.disable"@ <==> value is ReminderDisable,
        value.name() == "notice.create"@ <==> value is NoticeCreate,
        value.name() == "notice.list"@ <==> value is NoticeList,
{
    reveal_strlit("start");
    reveal_strlit("handoff");
    reveal_strlit("inbox.claim");
    reveal_strlit("ask");
    reveal_strlit("tell");
    reveal_strlit("reply");
    reveal_strlit("clear");
    reveal_strlit("recover");
    reveal_strlit("attribution");
    reveal_strlit("who");
    reveal_strlit("report");
    reveal_strlit("whoami");
    reveal_strlit("adopt");
    reveal_strlit("rename");
    reveal_strlit("retire");
    reveal_strlit("waiter.register");
    reveal_strlit("waiter.retire");
    reveal_strlit("cancel");
    reveal_strlit("renew");
    reveal_strlit("renew.cancel");
    reveal_strlit("pending");
    reveal_strlit("name.info");
    reveal_strlit("ask.info");
    reveal_strlit("reminder.snooze");
    reveal_strlit("reminder.disable");
    reveal_strlit("notice.create");
    reveal_strlit("notice.list");
    assert("start"@.len() == 5);
    assert("handoff"@.len() == 7);
    assert("inbox.claim"@.len() == 11);
    assert("ask"@.len() == 3);
    assert("tell"@.len() == 4);
    assert("reply"@.len() == 5);
    assert("clear"@.len() == 5);
    assert("recover"@.len() == 7);
    assert("attribution"@.len() == 11);
    assert("who"@.len() == 3);
    assert("report"@.len() == 6);
    assert("whoami"@.len() == 6);
    assert("adopt"@.len() == 5);
    assert("rename"@.len() == 6);
    assert("retire"@.len() == 6);
    assert("waiter.register"@.len() == 15);
    assert("waiter.retire"@.len() == 13);
    assert("cancel"@.len() == 6);
    assert("renew"@.len() == 5);
    assert("renew.cancel"@.len() == 12);
    assert("pending"@.len() == 7);
    assert("name.info"@.len() == 9);
    assert("ask.info"@.len() == 8);
    assert("reminder.snooze"@.len() == 15);
    assert("reminder.disable"@.len() == 16);
    assert("notice.create"@.len() == 13);
    assert("notice.list"@.len() == 11);
    assert("start"@[0] == 's');
    assert("reply"@[0] == 'r');
    assert("clear"@[0] == 'c');
    assert("adopt"@[0] == 'a');
    assert("renew"@[0] == 'r');
    assert("handoff"@[0] == 'h');
    assert("recover"@[0] == 'r');
    assert("pending"@[0] == 'p');
    assert("inbox.claim"@[0] == 'i');
    assert("attribution"@[0] == 'a');
    assert("notice.list"@[0] == 'n');
    assert("ask"@[0] == 'a');
    assert("who"@[0] == 'w');
    assert("reply"@[2] == 'p');
    assert("renew"@[2] == 'n');
    assert("report"@[0] == 'r');
    assert("whoami"@[0] == 'w');
    assert("report"@[2] == 'p');
    assert("rename"@[2] == 'n');
    assert("retire"@[2] == 't');
    assert("cancel"@[0] == 'c');
    assert("rename"@[0] == 'r');
    assert("retire"@[0] == 'r');
    assert("waiter.register"@[0] == 'w');
    assert("reminder.snooze"@[0] == 'r');
    assert("waiter.retire"@[0] == 'w');
    assert("notice.create"@[0] == 'n');
}

/// A lease ends where it is dropped, where the daemon is gone and where it took too long, and goes on
/// with every answer. What it tells is of its own job: the agent of a prompt as a prompt, the agent of
/// another request as an agent, and a closed pane as closed.
#[verifier::spinoff_prover]
#[verifier::rlimit(60)]
pub proof fn law_lease_tells_what_was_answered(
    event: EventView,
    job_id: u64,
    method: String,
    wrote: bool,
    answer: Json,
    agent: AgentObservation,
)
    requires
        lease_event_is(
            event,
            job_id,
            (LeaseInput::Sent { method, wrote, answer: Ok(answer), parsed: Ok(agent) }),
        ),
    ensures
        event.job() == job_id,
        answer@.get("agent"@) is Some && method@ == "agent.prompt"@ ==> event == (EventView::Done {
            job_id,
            result: Ok(ResultView::Prompt(agent@)),
        }),
        answer@.get("agent"@) is Some && (method@ == "agent.start"@ || method@ == "agent.get"@
            || method@ == "agent.rename"@) ==> event == (EventView::Done {
            job_id,
            result: Ok(ResultView::Agent(agent@)),
        }),
        method@ == "pane.close"@ ==> event == (EventView::Done {
            job_id,
            result: Ok(ResultView::Closed),
        }),
        answer@.get("agent"@) is None && method@ == "agent.prompt"@ ==> (event matches EventView::Done {
            result,
            ..
        } && result is Err),
{
    reveal_strlit("agent.prompt");
    reveal_strlit("agent.start");
    reveal_strlit("agent.get");
    reveal_strlit("agent.rename");
    reveal_strlit("pane.close");
    assert("agent.prompt"@.len() == 12);
    assert("agent.start"@.len() == 11);
    assert("agent.get"@.len() == 9);
    assert("agent.rename"@.len() == 12);
    assert("pane.close"@.len() == 10);
    assert("agent.prompt"@[6] == 'p');
    assert("agent.rename"@[6] == 'r');
}

/// A lease that nothing was answered on ends: as dropped, or as failed where it took too long.
#[verifier::spinoff_prover]
pub proof fn law_unanswered_lease_ends(event: EventView, job_id: u64, input: LeaseInput)
    requires
        lease_event_is(event, job_id, input),
    ensures
        lease_goes_on(input) <==> input is Sent,
        input is Drop || input is Disconnected ==> event == (EventView::Dropped { job_id }),
        input is TimedOut ==> (event matches EventView::Failed { job_id: id, phase, .. } && id
            == job_id && phase is Lease),
        event.job() == job_id,
{
}

} // verus!
