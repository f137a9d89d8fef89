//! What the daemon decides, from what it knows to what it does next.

use vstd::prelude::*;

use super::adopt::{AdoptAfterSnapshot, AdoptReply};
use super::clear::{advance_clear, settle_until, ClearAdvance, ClearState};
use super::due::{
    may_remind, reminder_prompt, reminder_snapshot, schedule_reminders, PreparedReminder,
    ReminderPass,
};
use super::errors::{class_of, SliceError, StoreError};
use super::inbox::{acks_read, inbox_line, InboxLine};
use super::inflight::Inflight;
use super::params::{
    check_refresh, tell_recipient, waiter_for_alias, who_agent, who_alias, ReportParams,
    TellRecipient, WhoIdentity, WhoamiParams,
};
use super::prompt::{releases_due, ParkedPrompt, PreparedPrompt, PromptOwner};
use super::reads::{
    alias_judged, attribution_resolved, pane_judged, prepare_report_read, resume_bound_request,
    snapshot_needed, who_resolved, whoami_pane_found, AliasEnd, ClientRequest, Document, LookNeed,
    PaneEnd, ReadKind, Resumption,
};
use super::renew::{
    is_passed_over, renew_advanced, renew_prepared, renew_probe_allowed, renew_spacing,
    RenewVerdict,
};
use super::report::{render_report, FleetReport};
use super::results::id_view;
use super::route::{misread, Method, Misread};
use super::shown::law_whole_report_lists_everybody;
use crate::domain::{DeliveryTransport, IncarnationId, LogicalAgentId, OperationId};
use crate::herdr::{HerdrError, LifecycleObservation};
use crate::herdr_exec::HerdrJobResult;
use crate::json::Json;

verus! {

/// A clear that is looked at again begins no earlier than either moment, and at one of the two.
pub proof fn law_clear_settles_until_the_later_moment(not_before_ms: i64, latest_ms: i64, at: i64)
    requires
        call_ensures(settle_until, (not_before_ms, latest_ms), at),
    ensures
        at >= not_before_ms,
        at >= latest_ms,
        at == not_before_ms || at == latest_ms,
{
}

/// A clear does nothing before its moment or while it waits for a job. From then on it looks its
/// recipient up, and once it is written it watches its pane.
pub proof fn law_clear_waits_for_its_moment(
    state: &ClearState,
    waits: bool,
    now_ms: i64,
    advance: ClearAdvance,
)
    requires
        call_ensures(advance_clear, (state, waits, now_ms), advance),
    ensures
        waits ==> advance is Wait,
        !waits ==> (state matches ClearState::Settling { clear, not_before_ms } ==> (advance is Wait
            <==> now_ms < *not_before_ms) && (advance matches ClearAdvance::LookUpPane(incarnation)
            ==> incarnation == clear.recipient_incarnation)),
        !waits ==> (state matches ClearState::Rotation { pane_id, .. } ==> (
        advance matches ClearAdvance::Get { target, .. } && target@ == pane_id@)),
        state is Probe || state is Sending ==> advance is Wait,
{
}

/// A renew is prepared only where no prompt is too close; a renew whose look fails is noted and the
/// others go on.
pub proof fn law_renew_keeps_its_spacing(active: Result<bool, SliceError>, verdict: RenewVerdict)
    requires
        call_ensures(renew_spacing, (active,), verdict),
    ensures
        verdict is Prepare <==> active == Ok::<bool, SliceError>(false),
        active == Ok::<bool, SliceError>(true) ==> verdict == (RenewVerdict::Next { moved: false }),
        verdict is NoteAndNext <==> active is Err,
{
}

/// A renew that was prepared waits for its prompt; one that moved counts as moved; one that may be
/// probed is. An error is passed over or stops the pass, by what it concerns.
pub proof fn law_renew_goes_by_the_word_on_it(
    prepared: Result<(), SliceError>,
    after_prepared: RenewVerdict,
    moved: Result<bool, SliceError>,
    after_moved: RenewVerdict,
    allowed: Result<bool, SliceError>,
    after_allowed: RenewVerdict,
)
    requires
        call_ensures(renew_prepared, (prepared,), after_prepared),
        call_ensures(renew_advanced, (moved,), after_moved),
        call_ensures(renew_probe_allowed, (allowed,), after_allowed),
    ensures
        after_prepared is ParkPrompt <==> prepared is Ok,
        moved matches Ok(did) ==> after_moved == (RenewVerdict::Next { moved: did }),
        after_allowed is ParkProbe <==> allowed == Ok::<bool, SliceError>(true),
        allowed == Ok::<bool, SliceError>(false) ==> after_allowed == (RenewVerdict::Next {
            moved: false,
        }),
        prepared matches Err(error) ==> (after_prepared is NoteAndStop <==> !is_passed_over(error)),
        moved matches Err(error) ==> (after_moved is NoteAndStop <==> !is_passed_over(error)),
        allowed matches Err(error) ==> (after_allowed is NoteAndStop <==> !is_passed_over(error)),
{
}

/// Herdr is looked at for reminders exactly where one is due, one sits on a boundary, or occupancy is
/// to be sampled; a failed look is noted.
pub proof fn law_reminders_are_looked_for_where_any_is_due(
    occupancy: Result<bool, SliceError>,
    collected: Result<(usize, usize), SliceError>,
    pass: ReminderPass,
)
    requires
        call_ensures(schedule_reminders, (occupancy, collected), pass),
    ensures
        collected is Err <==> pass is Note,
        collected matches Ok((due, boundaries)) ==> (pass is Look <==> due > 0 || boundaries > 0
            || occupancy == Ok::<bool, SliceError>(true)),
{
}

/// Reminders are looked for only while no look and no reminder is under way.
pub proof fn law_one_reminder_at_a_time(job: Option<u64>, inflight: &Inflight, r: bool)
    requires
        call_ensures(may_remind, (job, inflight), r),
    ensures
        r ==> job is None,
        r ==> forall|id: u128| !(#[trigger] inflight@.contains(id)),
        job is None && inflight@ == Set::<u128>::empty() ==> r,
{
}

/// What the look for reminders shows counts while it is wanted, and nothing else does.
pub proof fn law_wanted_look_is_heard(
    pending: bool,
    result: Result<HerdrJobResult, HerdrError>,
    observed: Option<Vec<LifecycleObservation>>,
)
    requires
        call_ensures(reminder_snapshot, (pending, result), observed),
    ensures
        observed matches Some(agents) ==> pending && result == Ok::<HerdrJobResult, HerdrError>(
            HerdrJobResult::Lifecycle(agents),
        ),
        pending ==> (result matches Ok(HerdrJobResult::Lifecycle(agents)) ==> observed is Some),
{
}

/// A reminder goes to its own incarnation and pane, with its own envelope, under a fresh operation.
pub proof fn law_reminder_is_prompted_where_it_belongs(
    reminder: &PreparedReminder,
    operation_id: OperationId,
    prompt: PreparedPrompt,
)
    requires
        call_ensures(reminder_prompt, (reminder, operation_id), prompt),
    ensures
        prompt.operation_id == operation_id,
        prompt.recipient_incarnation == reminder.recipient_incarnation,
        prompt.pane_id@ == reminder.pane_id@,
        prompt.envelope@ == reminder.envelope@,
        prompt.request_id@ == reminder.request_id@,
        !prompt.queued,
{
}

/// What came due by itself may come due again, unless it is a reminder; what somebody asked for does
/// not.
pub proof fn law_due_prompts_are_released(prompt: ParkedPrompt, r: bool)
    requires
        call_ensures(releases_due, (prompt,), r),
    ensures
        r ==> prompt.owner is Internal && !prompt.reminder,
        prompt.owner is Internal && !prompt.reminder ==> r,
{
}

/// A tell to an alias goes to the pane of the incarnation that holds it or to the inbox of the waiter
/// that does; to nobody where nobody does, and where both do there is a conflict.
pub proof fn law_tell_finds_who_holds_the_alias(
    alias: &str,
    ready: Option<(LogicalAgentId, IncarnationId)>,
    waiter: Option<LogicalAgentId>,
    r: Result<TellRecipient, SliceError>,
)
    requires
        call_ensures(tell_recipient, (alias, ready, waiter), r),
    ensures
        r matches Ok(TellRecipient::Herdr(agent, incarnation)) ==> ready == Some(
            (agent, incarnation),
        ) && waiter is None,
        r matches Ok(TellRecipient::SocketInbox(agent)) ==> waiter == Some(agent) && ready is None,
        r matches Ok(TellRecipient::Unbound) ==> ready is None && waiter is None,
        r matches Err(error) ==> ready is Some && waiter is Some && class_of(error) == "conflict"@,
{
}

/// A waiter is found by an alias that it alone holds.
pub proof fn law_waiter_is_found_by_its_alias(
    alias: &str,
    ready: Option<(LogicalAgentId, IncarnationId)>,
    waiter: Option<LogicalAgentId>,
    r: Result<LogicalAgentId, SliceError>,
)
    requires
        call_ensures(waiter_for_alias, (alias, ready, waiter), r),
    ensures
        r matches Ok(agent) ==> waiter == Some(agent) && ready is None,
        r matches Err(error) ==> (ready is Some || waiter is None) && class_of(error)
            == "conflict"@,
{
}

/// An agent is known by its newest incarnation where it is in a pane, and as a waiter where it is on
/// a socket.
pub proof fn law_agent_is_known_by_how_it_is_reached(
    agent: LogicalAgentId,
    transport: DeliveryTransport,
    newest: Result<IncarnationId, StoreError>,
    r: Result<WhoIdentity, SliceError>,
)
    requires
        call_ensures(who_agent, (agent, transport, newest), r),
    ensures
        transport is SocketInbox ==> (r matches Ok(WhoIdentity::SocketWaiter(waiter)) && waiter
            == agent),
        transport is HerdrPrompt ==> (newest matches Ok(id) ==> (r matches Ok(
            WhoIdentity::Incarnation(known),
        ) && known == id)),
        transport is HerdrPrompt && newest is Err ==> r is Err,
{
}

/// An alias is known by who holds it, and where nobody does by what it resolves to.
pub proof fn law_alias_is_known_by_who_holds_it(
    alias: &str,
    ready: Option<IncarnationId>,
    waiter: Option<LogicalAgentId>,
    resolved: Result<IncarnationId, StoreError>,
    r: Result<WhoIdentity, SliceError>,
)
    requires
        call_ensures(who_alias, (alias, ready, waiter, resolved), r),
    ensures
        r matches Ok(WhoIdentity::SocketWaiter(agent)) ==> waiter == Some(agent) && ready is None,
        r matches Ok(WhoIdentity::Incarnation(id)) ==> waiter is None && (ready == Some(id) || (ready
            is None && (resolved matches Ok(found) && found == id))),
        ready is Some && waiter is Some ==> (r matches Err(error) && class_of(error)
            == "conflict"@),
        ready is None && waiter is None ==> (r is Ok <==> resolved is Ok),
        (ready is Some) != (waiter is Some) ==> r is Ok,
{
}

/// Only an incarnation can be refreshed, and it is looked at again exactly where that was asked for.
pub proof fn law_only_an_incarnation_is_refreshed(
    identity: WhoIdentity,
    refresh: bool,
    checked: Result<(), SliceError>,
    need: Result<LookNeed<'static>, SliceError>,
)
    requires
        call_ensures(check_refresh, (identity, refresh), checked),
        call_ensures(who_resolved, (refresh, Ok(identity)), need),
    ensures
        checked is Err <==> refresh && identity is SocketWaiter,
        need matches Ok(LookNeed::AskSnapshot(id)) ==> refresh && identity
            == WhoIdentity::Incarnation(id),
        refresh && identity is Incarnation ==> (need matches Ok(asked) && asked is AskSnapshot),
        !refresh ==> (need matches Ok(asked) && asked is Answer),
{
}

/// What a pane was looked up for decides what becomes of it: an identity, the whole of it for the
/// incarnation that was found, or the adoption.
pub proof fn law_pane_is_judged_for_what_was_asked(
    reply: AdoptReply,
    judgement: Result<AdoptAfterSnapshot, SliceError>,
    end: PaneEnd,
)
    requires
        call_ensures(pane_judged, (reply, judgement), end),
    ensures
        judgement matches Err(error) ==> end == PaneEnd::Fail(error),
        judgement matches Ok(AdoptAfterSnapshot::Rename(work)) ==> end == PaneEnd::Rename(work),
        judgement matches Ok(AdoptAfterSnapshot::Ready(created)) ==> (end is Identity <==> reply
            is Whoami) && (reply is Rpc ==> end == PaneEnd::Adopted(created)) && (
        reply matches AdoptReply::Who { refresh } ==> end == (PaneEnd::Who {
            incarnation_id: created.incarnation_id,
            refresh,
        })),
{
}

/// A request whose alias is bound goes on, waits for a rename, or fails.
pub proof fn law_bound_alias_lets_its_request_go_on(
    judgement: Result<AdoptAfterSnapshot, SliceError>,
    end: AliasEnd,
)
    requires
        call_ensures(alias_judged, (judgement,), end),
    ensures
        end is Resume <==> judgement matches Ok(AdoptAfterSnapshot::Ready(_)),
        judgement matches Ok(AdoptAfterSnapshot::Rename(work)) ==> end == AliasEnd::Rename(work),
        judgement matches Err(error) ==> end == AliasEnd::Fail(error),
{
}

/// A message goes on as a prompt, and a clear as a clear; nothing else waits for an alias.
pub proof fn law_bound_request_goes_on_as_what_it_is(method: &str, resumption: Resumption)
    requires
        call_ensures(resume_bound_request, (method,), resumption),
    ensures
        resumption is Prompt <==> method@ == "ask"@ || method@ == "tell"@ || method@ == "reply"@,
        method@ == "clear"@ ==> resumption is Clear,
        resumption is Clear ==> method@ == "clear"@,
{
    reveal_strlit("ask");
    reveal_strlit("tell");
    reveal_strlit("reply");
    reveal_strlit("clear");
    assert("ask"@.len() == 3 && "tell"@.len() == 4 && "reply"@.len() == 5 && "clear"@.len() == 5);
    assert("reply"@[0] == 'r' && "clear"@[0] == 'c');
}

/// An attribution is looked at again exactly where that was asked for, of the incarnation that was
/// found.
pub proof fn law_attribution_is_refreshed_where_asked(
    refresh: bool,
    incarnation: Result<IncarnationId, SliceError>,
    need: Result<LookNeed<'static>, SliceError>,
)
    requires
        call_ensures(attribution_resolved, (refresh, incarnation), need),
    ensures
        need matches Ok(LookNeed::AskSnapshot(id)) ==> refresh && incarnation == Ok::<
            IncarnationId,
            SliceError,
        >(id),
        incarnation is Ok && refresh ==> (need matches Ok(asked) && asked is AskSnapshot),
        incarnation is Ok && !refresh ==> (need matches Ok(asked) && asked is Answer),
        incarnation is Err ==> need is Err,
{
}

/// A read that needs a snapshot waits for one, of its own incarnation and for its own document.
pub proof fn law_read_waits_for_its_snapshot(
    document: Document,
    incarnation_id: IncarnationId,
    needed: Result<bool, SliceError>,
    need: Result<LookNeed<'static>, SliceError>,
)
    requires
        call_ensures(snapshot_needed, (document, incarnation_id, needed), need),
    ensures
        needed == Ok::<bool, SliceError>(false) ==> (need matches Ok(asked) && asked is Answer),
        needed is Err ==> need is Err,
        needed == Ok::<bool, SliceError>(true) ==> (need matches Ok(LookNeed::Park(kind)) && match kind {
            ReadKind::Attribution { incarnation_id: id } => document is Attribution && id
                == incarnation_id,
            ReadKind::WhoAttribution { incarnation_id: id } => document is Who && id
                == incarnation_id,
            _ => false,
        }),
{
}

/// A report waits for Herdr exactly where it is to be live, and stays a report of whom it was asked
/// of.
pub proof fn law_live_report_waits_for_herdr(params: ReportParams, need: LookNeed<'static>)
    requires
        call_ensures(prepare_report_read, (params,), need),
    ensures
        need is Park <==> params.live,
        need matches LookNeed::Park(kind) ==> (kind matches ReadKind::Report { active } && active
            == params.active),
        !params.live ==> need is Answer,
{
}

/// A pane that is not known is adopted under the key that was given, and under the request where none
/// was; a known one is answered at once.
pub proof fn law_unknown_pane_is_adopted(
    params: &WhoamiParams,
    pane: &String,
    request_id: &str,
    found: Result<bool, StoreError>,
    need: Result<LookNeed<'static>, SliceError>,
)
    requires
        call_ensures(whoami_pane_found, (params, pane, request_id, found), need),
    ensures
        found == Ok::<bool, StoreError>(true) ==> (need matches Ok(asked) && asked is Answer),
        found is Err ==> need is Err,
        found == Ok::<bool, StoreError>(false) ==> (need matches Ok(
            LookNeed::Park(ReadKind::Whoami { pane_id, lazy_key }),
        ) && pane_id@ == pane@ && (params.lazy_adopt_key matches Some(key) ==> lazy_key@ == key@) && (
        params.lazy_adopt_key is None ==> lazy_key@ == request_id@)),
{
}

/// Params that cannot be read are answered with the reason, but for the methods that hang up on them.
pub proof fn law_misread_params_are_told(
    method: Method,
    request_id: &str,
    reason: &str,
    told: Misread,
)
    requires
        call_ensures(misread, (method, request_id, reason), told),
    ensures
        told is HangUp <==> method is Report || method is Adopt || method is Rename || method
            is Retire || method is WaiterRetire,
        told matches Misread::HangUp(word) ==> word@ == reason@,
{
}

/// An inbox takes acknowledgements and nothing else.
pub proof fn law_inbox_takes_acknowledgements(
    parsed: Result<ClientRequest, String>,
    line: InboxLine,
)
    requires
        call_ensures(inbox_line, (parsed,), line),
    ensures
        line matches InboxLine::Ack(request) ==> parsed == Ok::<ClientRequest, String>(request)
            && request.method@ == "inbox.ack"@,
        parsed matches Ok(request) ==> (request.method@ == "inbox.ack"@ ==> line is Ack),
        parsed is Err ==> line is Answer,
{
}

/// The end of a connection is told once its lines were read; before, whether anything moved is.
pub proof fn law_ended_inbox_is_told(ended: bool, progressed: bool, moved: Result<bool, ()>)
    requires
        call_ensures(acks_read, (ended, progressed), moved),
    ensures
        moved is Err <==> ended,
        moved matches Ok(did) ==> did == progressed,
{
}

/// A report that is not of the active agents alone lists, in order, every agent of the fleet.
pub proof fn law_rendered_report_lists_its_agents(
    report: &FleetReport,
    active: bool,
    live: bool,
    now_ms: Option<i64>,
    rendered: Json,
)
    requires
        call_ensures(render_report, (report, active, live, now_ms), rendered),
    ensures
        !active ==> rendered@.at("agents"@).items().len() == report.agents@.len(),
        !active ==> forall|i: int|
            0 <= i < report.agents@.len() ==> (#[trigger] rendered@.at("agents"@).items()[i]).get(
                "agent_id"@,
            ) == Some(id_view(report.agents@[i].id.value)),
{
    if !active {
        law_whole_report_lists_everybody(*report, live, now_ms);
    }
}

} // verus!
