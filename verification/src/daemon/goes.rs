//! How the flows go on: what each event leads to, and what is carried along.

use vstd::prelude::*;

use super::adopt::{self, AdoptAfterSnapshot, AdoptEvent, AdoptReply, AdoptState, AdoptStep};
use super::answers::{
    law_close_is_sent_to_its_pane, law_prompt_is_sent_to_its_pane, law_rename_is_sent_to_its_pane,
};
use super::clear::{self, ClearEvent, ClearState, ClearStep, ClearSubmission};
use super::errors::{SliceError, StoreError};
use super::prompt::{
    self, end_of, marked, noted, settle_of, AwaitingCancel, ParkedPrompt, PromptAct, PromptEnd,
    PromptEvent, PromptFlow, PromptOwner, Settle,
};
use super::rename::{self, RenameEvent, RenameState, RenameStep};
use super::renew::{
    self, ask_of, cycle_sent, is_passed_over, DueRenew, RenewAsk, RenewEvent, RenewState, RenewStep,
    RenewVerdict,
};
use super::results::WaiterRetireOwingNotice;
use super::retire::{self, RetireAfterSnapshot, RetireEvent, RetireState, RetireStep};
use super::send::sends;
use super::start::{self, StartEvent, StartPhase, StartStep, StartSubmit, StartWork};
use crate::domain::MessageId;
use crate::herdr::{AgentObservation, HerdrError};
use crate::herdr_exec::{FailPhase, HerdrJobResult, LeaseCmd};
use crate::json::text_view;

verus! {

/// Whether a command writes a text to a pane.
pub open spec fn prompts(cmd: LeaseCmd, pane: Seq<char>, text: Seq<char>) -> bool {
    cmd matches LeaseCmd::Send { method, params, .. } && method@ == "agent.prompt"@
        && params@.get("target"@) == Some(text_view(pane)) && params@.get("text"@) == Some(
        text_view(text),
    )
}

/// Whether a command gives the agent in a pane a name.
pub open spec fn renames(cmd: LeaseCmd, pane: Seq<char>, name: Seq<char>) -> bool {
    cmd matches LeaseCmd::Send { method, params, .. } && method@ == "agent.rename"@
        && params@.get("target"@) == Some(text_view(pane)) && params@.get("name"@) == Some(
        text_view(name),
    )
}

/// Whether a command closes a pane.
pub open spec fn closes(cmd: LeaseCmd, pane: Seq<char>) -> bool {
    cmd matches LeaseCmd::Send { method, params, .. } && method@ == "pane.close"@
        && params@.get("pane_id"@) == Some(text_view(pane))
}

/// A clear goes on with every good word, and ends with every bad one.
#[verifier::spinoff_prover]
#[verifier::rlimit(60)]
pub proof fn law_clear_goes_on(step: ClearStep, event: ClearEvent, after: ClearStep)
    requires
        clear::follows(step, event, after),
    ensures
        event matches ClearEvent::Pass { now_ms } ==> (step matches ClearStep::Rest {
            state: ClearState::Settling { clear, not_before_ms },
        } ==> now_ms >= not_before_ms && after == (ClearStep::LookUp { clear })),
        event matches ClearEvent::Pass { .. } ==> (step matches ClearStep::Rest {
            state: ClearState::Rotation { operation_id, pane_id },
        } ==> (after matches ClearStep::Get { target, .. } && target@ == pane_id@)),
        event matches ClearEvent::Bound(Ok(pane)) ==> (step matches ClearStep::LookUp { clear }
            ==> (after matches ClearStep::Get { target, state, .. } && target@ == pane@ && state
            == (ClearState::Probe { clear, pane_id: pane }))),
        event matches ClearEvent::Done(Ok(HerdrJobResult::Agent(agent))) ==> (
        clear::waiting_state(step) matches Some(ClearState::Probe { clear, pane_id }) ==> after == (
        ClearStep::Begin { clear, pane_id, observed: agent })),
        event matches ClearEvent::Begun(Ok(work)) ==> (step matches ClearStep::Begin {
            clear,
            pane_id,
            ..
        } ==> (after matches ClearStep::Open { pane, state } && pane@ == pane_id@ && state == (
        ClearState::Sending { clear, pane_id, work }))),
        event is Opened ==> after is Commit,
        event matches ClearEvent::Committed(Ok(_)) ==> (step matches ClearStep::Commit {
            pane_id,
            work,
            ..
        } ==> (after matches ClearStep::Send { cmd, .. } && prompts(
            cmd,
            pane_id@,
            work.command@,
        ))),
        event matches ClearEvent::Done(Ok(HerdrJobResult::Prompt(agent))) ==> (
        clear::waiting_state(step) matches Some(ClearState::Sending { work, .. }) ==> (
        after matches ClearStep::Apply { work: w, observed, .. } && w == work && observed == Ok::<
            AgentObservation,
            HerdrError,
        >(agent))),
        event matches ClearEvent::Applied(Ok(ClearSubmission::Complete(cleared))) ==> after
            == ClearStep::Answer(Ok(cleared)),
        event matches ClearEvent::Applied(Ok(ClearSubmission::Awaiting { operation_id, pane_id }))
            ==> (after matches ClearStep::Get { target, state, .. } && target@ == pane_id@ && state
            == (ClearState::Rotation { operation_id, pane_id })),
        event matches ClearEvent::Watched(Ok(Some(cleared))) ==> after == ClearStep::Answer(
            Ok(cleared),
        ),
        event matches ClearEvent::Watched(Ok(None)) ==> after is Rest,
        event matches ClearEvent::Watched(Err(_)) ==> after is Rest,
        event matches ClearEvent::Failed(source) ==> after == ClearStep::Answer(
            Err(SliceError::Herdr(source)),
        ),
        event matches ClearEvent::Bound(Err(error)) ==> after == ClearStep::Answer(Err(error)),
        event matches ClearEvent::Begun(Err(error)) ==> after == ClearStep::Answer(Err(error)),
        event matches ClearEvent::Committed(Err(error)) ==> after == ClearStep::Answer(Err(error)),
        event matches ClearEvent::Applied(Err(error)) ==> after == ClearStep::Answer(Err(error)),
{
    if let ClearEvent::Committed(Ok(_)) = event {
        if let ClearStep::Commit { clear: _, pane_id, work, request_id: _ } = step {
            law_prompt_is_sent_to_its_pane(
                clear::clear_request(work.operation_id),
                pane_id@,
                work.command@,
                "clear_after_write_before_response"@,
            );
        }
    }
}

/// A rename goes on with every good word: it writes the new name to the pane that was looked at,
/// and looks again. What the coordinator says at the end is the answer.
#[verifier::spinoff_prover]
#[verifier::rlimit(60)]
pub proof fn law_rename_goes_on(step: RenameStep, event: RenameEvent, after: RenameStep)
    requires
        rename::follows(step, event, after),
    ensures
        event matches RenameEvent::Done(Ok(HerdrJobResult::Snapshot(snapshot))) ==> (
        rename::waiting_state(step) matches Some(RenameState::Snapshot(preflight)) ==> after == (
        RenameStep::Verify { preflight, snapshot })),
        event matches RenameEvent::Verified(Ok(_)) ==> (step matches RenameStep::Verify {
            preflight,
            ..
        } ==> (after matches RenameStep::Open { pane, state } && pane@ == preflight.pane_id@
            && state == RenameState::Opening(preflight))),
        event is Opened ==> after is Commit,
        event matches RenameEvent::Committed(Ok(work)) ==> (after matches RenameStep::Send {
            cmd,
            state,
        } && renames(cmd, work.pane_id@, work.new_name@) && state == RenameState::Sending(work)),
        event matches RenameEvent::Done(Ok(HerdrJobResult::Agent(_))) ==> (
        rename::waiting_state(step) matches Some(RenameState::Sending(work)) ==> after == (
        RenameStep::Look { state: RenameState::Confirm(work) })),
        event matches RenameEvent::Done(Ok(HerdrJobResult::Snapshot(snapshot))) ==> (
        rename::waiting_state(step) matches Some(RenameState::Confirm(work)) ==> after == (
        RenameStep::Confirm { work, snapshot })),
        event matches RenameEvent::Settled(settled) ==> after == RenameStep::Answer(settled),
        event matches RenameEvent::Verified(Err(error)) ==> after == RenameStep::Answer(Err(error)),
        event matches RenameEvent::Committed(Err(error)) ==> after == RenameStep::Answer(
            Err(error),
        ),
{
    if let RenameEvent::Committed(Ok(work)) = event {
        law_rename_is_sent_to_its_pane(work.request_id@, work.pane_id@, work.new_name@, ""@);
    }
}

/// A retirement goes on with every good word: it closes the pane that the coordinator named, and
/// looks again. One that has nothing to close is over with its first look.
#[verifier::spinoff_prover]
#[verifier::rlimit(60)]
pub proof fn law_retirement_goes_on(step: RetireStep, event: RetireEvent, after: RetireStep)
    requires
        retire::follows(step, event, after),
    ensures
        event matches RetireEvent::Done(Ok(HerdrJobResult::Snapshot(snapshot))) ==> (
        retire::waiting_state(step) matches Some(RetireState::Snapshot(preflight)) ==> after == (
        RetireStep::Judge { preflight, snapshot })),
        event matches RetireEvent::Judged(Ok(RetireAfterSnapshot::Done { released })) ==> (
        step matches RetireStep::Judge { preflight, .. } ==> after == RetireStep::Answer(
            Ok((preflight.operation_id, released)),
        )),
        event matches RetireEvent::Judged(Ok(RetireAfterSnapshot::Close(work))) ==> (
        after matches RetireStep::Open { pane, state } && pane@ == work.pane@ && state
            == RetireState::Closing(work)),
        event is Opened ==> (step matches RetireStep::Open { state: RetireState::Closing(work), .. }
            ==> (after matches RetireStep::Send { cmd, .. } && closes(cmd, work.pane@))),
        event matches RetireEvent::Done(Ok(HerdrJobResult::Closed)) ==> (
        retire::waiting_state(step) matches Some(RetireState::Closing(work)) ==> after == (
        RetireStep::Look { state: RetireState::Confirm(work) })),
        event matches RetireEvent::Done(Ok(HerdrJobResult::Snapshot(snapshot))) ==> (
        retire::waiting_state(step) matches Some(RetireState::Confirm(work)) ==> after == (
        RetireStep::Confirm { work, snapshot })),
        event matches RetireEvent::Settled(settled) ==> after == RetireStep::Answer(settled),
        event matches RetireEvent::Judged(Err(error)) ==> after == RetireStep::Answer(Err(error)),
{
    if let RetireStep::Open { pane: _, state: RetireState::Closing(work) } = step {
        law_close_is_sent_to_its_pane(work);
    }
}

/// A write that failed may have gone out where its answer was awaited, and where the lease ended;
/// it has not where it failed before.
#[verifier::spinoff_prover]
pub proof fn law_write_may_have_gone_out(phase: FailPhase)
    ensures
        phase is Read ==> retire::may_be_written(phase),
        phase is Lease ==> retire::may_be_written(phase),
        retire::may_be_written(phase) ==> phase is Read || phase is Lease,
{
}

/// An adoption goes on with every good word: it gives the agent in the pane the name that was
/// chosen, looks again, and ends with whom the coordinator accepted.
#[verifier::spinoff_prover]
#[verifier::rlimit(60)]
pub proof fn law_adoption_goes_on(
    reply: AdoptReply,
    step: AdoptStep,
    event: AdoptEvent,
    after: AdoptStep,
)
    requires
        adopt::follows(reply, step, event, after),
    ensures
        event matches AdoptEvent::Done(Ok(HerdrJobResult::Snapshot(snapshot))) ==> (
        adopt::waiting_state(step) matches Some(AdoptState::Snapshot(intent)) ==> after == (
        AdoptStep::Judge { intent, snapshot })),
        event matches AdoptEvent::Judged(Ok(AdoptAfterSnapshot::Ready(created))) ==> after
            == AdoptStep::Finish(Ok(created)),
        event matches AdoptEvent::Judged(Ok(AdoptAfterSnapshot::Rename(work))) ==> (
        after matches AdoptStep::Open { pane, .. } && pane@ == work.pane_id@),
        event is Opened ==> after is Submit,
        event matches AdoptEvent::Submitted(Ok(_)) ==> (step matches AdoptStep::Submit { work }
            ==> (after matches AdoptStep::Send { cmd, .. } && renames(
            cmd,
            work.pane_id@,
            work.public_name@,
        ))),
        event matches AdoptEvent::Done(Ok(HerdrJobResult::Agent(_))) ==> (
        adopt::waiting_state(step) matches Some(AdoptState::Renaming { work, .. }) ==> after == (
        AdoptStep::Look { state: AdoptState::Confirm(work) })),
        event matches AdoptEvent::Done(Ok(HerdrJobResult::Snapshot(snapshot))) ==> (
        adopt::waiting_state(step) matches Some(AdoptState::Confirm(work)) ==> after == (
        AdoptStep::Accept { work, snapshot })),
        event matches AdoptEvent::Accepted(Ok(created)) ==> (step matches AdoptStep::Accept {
            snapshot,
            ..
        } ==> match reply {
            AdoptReply::Who { refresh } => after == (AdoptStep::Tell { created, refresh, snapshot }),
            _ => after == AdoptStep::Finish(Ok(created)),
        }),
        event matches AdoptEvent::Accepted(Err(error)) ==> after == AdoptStep::Finish(Err(error)),
        event matches AdoptEvent::Judged(Err(error)) ==> after == AdoptStep::Finish(Err(error)),
        event matches AdoptEvent::Submitted(Err(error)) ==> after == AdoptStep::Finish(Err(error)),
        event matches AdoptEvent::Explained(error) ==> after == AdoptStep::Finish(Err(error)),
{
    if let AdoptEvent::Submitted(Ok(intent)) = event {
        if let AdoptStep::Submit { work } = step {
            law_rename_is_sent_to_its_pane(
                intent@,
                work.pane_id@,
                work.public_name@,
                "adopt_rename_after_write_before_response"@,
            );
        }
    }
}

/// A prompt goes on with every good word: what is written to its pane is its envelope, and what
/// the coordinator settles decides how it ends.
#[verifier::spinoff_prover]
#[verifier::rlimit(60)]
pub proof fn law_prompt_goes_on(flow: PromptFlow, event: PromptEvent, after: PromptFlow)
    requires
        prompt::follows(flow, event, after),
    ensures
        after.prepared == flow.prepared,
        after.prompt.owner == flow.prompt.owner,
        after.prompt.reminder == flow.prompt.reminder,
        event is Opened ==> after.act is Commit,
        event matches PromptEvent::Committed(Ok(_)) ==> (after.act matches PromptAct::Send(cmd)
            && prompts(cmd, flow.prepared.pane_id@, flow.prepared.envelope@)),
        event matches PromptEvent::Done(Ok(HerdrJobResult::Prompt(agent))) ==> (
        after.act matches PromptAct::Settle { prompt, .. } && prompt == Ok::<
            AgentObservation,
            HerdrError,
        >(agent)),
        event matches PromptEvent::Done(Err(error)) ==> (after.act matches PromptAct::Settle {
            prompt,
            ..
        } && prompt == Err::<AgentObservation, HerdrError>(error)),
        event matches PromptEvent::Settled(settled) ==> after.act is End,
        event matches PromptEvent::Settled(settled) ==> (flow.act matches PromptAct::Settle {
            settle: Settle::Complete,
            ..
        } ==> (flow.prompt.owner is Client && !flow.prompt.reminder ==> after.act
            == PromptAct::End(PromptEnd::Answer(settled)))),
{
    if let PromptEvent::Committed(Ok(_)) = event {
        law_prompt_is_sent_to_its_pane(
            flow.prepared.request_id@,
            flow.prepared.pane_id@,
            flow.prepared.envelope@,
            if flow.prompt.reminder {
                ""@
            } else {
                flow.prepared.after_write_pause@
            },
        );
    }
}

/// A notice that ends is told to the one whose it is, and as delivered exactly where its delivery
/// went well.
#[verifier::spinoff_prover]
pub proof fn law_ended_prompt_is_told_to_its_owner(
    prompt: ParkedPrompt,
    delivery: Result<(), SliceError>,
)
    ensures
        prompt.reminder ==> end_of(prompt, delivery) is ForgetReminder,
        !prompt.reminder ==> (prompt.owner matches PromptOwner::Cancel { session, waiting } ==> (
        end_of(prompt, delivery) matches PromptEnd::NoteCancel { session: s, waiting: w, delivered }
            && s == session && w == waiting && (delivered <==> delivery is Ok))),
        !prompt.reminder ==> (prompt.owner matches PromptOwner::WaiterRetire { session, ask } ==> (
        end_of(prompt, delivery) matches PromptEnd::NoteWaiterRetire {
            session: s,
            ask: a,
            delivered,
        } && s == session && a == ask && (delivered <==> delivery is Ok))),
{
}

/// A prompt that went out is completed; one that never did is rejected where a notice waits for
/// it, and left alone elsewhere.
#[verifier::spinoff_prover]
pub proof fn law_prompt_is_settled_by_what_went_out(prompt: ParkedPrompt, finished: bool)
    ensures
        prompt.reminder && (finished || prompt.intent_committed) ==> settle_of(prompt, finished)
            is CompleteReminder,
        !prompt.reminder && (finished || prompt.intent_committed) ==> settle_of(prompt, finished)
            is Complete,
        !finished && !prompt.intent_committed && prompt.reminder ==> settle_of(prompt, finished)
            is Nothing,
        !finished && !prompt.intent_committed && !prompt.reminder ==> (settle_of(prompt, finished)
            is RejectUnsent <==> prompt.owner is Cancel || prompt.owner is WaiterRetire),
{
}

/// A notice of a cancellation marks the party that it was for, and leaves one fewer to wait for.
#[verifier::spinoff_prover]
pub proof fn law_notice_marks_its_own_party(cancel: AwaitingCancel, waiting: bool, delivered: bool)
    ensures
        ({
            let after = noted(cancel, waiting, delivered);
            &&& waiting ==> after.outcome.delivered == delivered && after.outcome.owing_delivered
                == cancel.outcome.owing_delivered
            &&& !waiting ==> after.outcome.owing_delivered == delivered && after.outcome.delivered
                == cancel.outcome.delivered
            &&& cancel.remaining > 0 ==> after.remaining == cancel.remaining - 1
            &&& cancel.remaining == 0 ==> after.remaining == 0
        }),
{
}

/// A notice of a retirement marks the first entry of its ask and no other.
pub proof fn law_notice_marks_its_own_ask(
    notices: Seq<WaiterRetireOwingNotice>,
    ask: MessageId,
    delivered: bool,
    at: int,
)
    requires
        0 <= at < notices.len(),
    ensures
        marked(notices, ask, delivered).len() == notices.len(),
        notices[at].ask_message_id != ask ==> marked(notices, ask, delivered)[at] == notices[at],
        notices[at].ask_message_id == ask && (forall|i: int|
            0 <= i < at ==> (#[trigger] notices[i]).ask_message_id != ask) ==> marked(
            notices,
            ask,
            delivered,
        )[at] == (WaiterRetireOwingNotice { delivered, ..notices[at] }),
    decreases notices.len(),
{
    if notices[0].ask_message_id == ask {
        if at > 0 {
            assert(notices.skip(1)[at - 1] == notices[at]);
        }
    } else {
        if at > 0 {
            let rest = notices.skip(1);
            law_notice_marks_its_own_ask(rest, ask, delivered, at - 1);
            assert(rest[at - 1] == notices[at]);
            if forall|i: int| 0 <= i < at ==> (#[trigger] notices[i]).ask_message_id != ask {
                assert forall|i: int| 0 <= i < at - 1 implies (#[trigger] rest[i]).ask_message_id
                    != ask by {
                    assert(notices[i + 1].ask_message_id != ask);
                }
            }
        } else if notices.len() > 1 {
            law_notice_marks_its_own_ask(notices.skip(1), ask, delivered, 0);
        } else {
            assert(marked(notices.skip(1), ask, delivered).len() == 0);
        }
    }
}

/// A start goes on with every good word: it carries what was declared, and its message once the
/// runtime is ready.
#[verifier::spinoff_prover]
#[verifier::rlimit(60)]
pub proof fn law_start_goes_on(work: StartWork, event: StartEvent, after: StartWork)
    requires
        start::follows(work, event, after),
    ensures
        event matches StartEvent::Done(Ok(HerdrJobResult::Snapshot(snapshot))) ==> (work.flow.phase
            is Snapshot ==> after.step == if work.flow.declared is None {
            StartStep::Declare(snapshot)
        } else {
            StartStep::CheckPane(snapshot)
        }),
        event matches StartEvent::Declared(Ok((declared, deadline, busy_deadline))) ==> after.step
            is Open && after.flow.declared == Some(declared) && after.flow.deadline == deadline
            && after.flow.busy_deadline == busy_deadline && after.flow.attempt_index == 1,
        event matches StartEvent::Checked(Ok(_)) ==> after.step is Open && after.flow.declared
            == work.flow.declared && (after.flow.phase matches StartPhase::Opening {
            attempt_index,
            ..
        } && (work.flow.attempt_index < u32::MAX ==> attempt_index == work.flow.attempt_index + 1)),
        event matches StartEvent::Committed(Ok((request_id, params))) ==> (
        after.step matches StartStep::Send(LeaseCmd::Send {
            request_id: r,
            method,
            params: p,
            ..
        }) && r@ == request_id@ && method@ == "agent.start"@ && p@ == params@
            && after.flow.intent_committed && after.flow.declared == work.flow.declared),
        event matches StartEvent::Done(Ok(HerdrJobResult::Agent(agent))) ==> (work.flow.phase
            is Sending ==> (work.flow.declared matches Some(declared) ==> (
        after.step matches StartStep::Apply { declared: d, agent: a, .. } && d == declared && a
            == Ok::<AgentObservation, HerdrError>(agent)))),
        event matches StartEvent::Applied(Ok(StartSubmit::Submitted { declared, deadline }))
            ==> after.step is Wait && after.flow.phase is Ready && after.flow.declared == Some(
            declared,
        ) && after.flow.deadline == deadline,
        event matches StartEvent::Applied(Ok(StartSubmit::BusyRetry { not_before, .. }))
            ==> after.step is Wait && (after.flow.phase matches StartPhase::Busy {
            not_before: n,
            ..
        } && n == not_before),
        event matches StartEvent::Done(Ok(HerdrJobResult::Agent(agent))) ==> (work.flow.phase
            is Ready ==> (work.flow.declared matches Some(declared) ==> (
        after.step matches StartStep::Observe { declared: d, observed } && d == declared && observed
            == Ok::<AgentObservation, HerdrError>(agent)))),
        event matches StartEvent::Observed(Ok(Some(started))) ==> after.step
            == StartStep::BeginInitial(started),
        event matches StartEvent::Observed(Ok(None)) ==> after.step is Wait,
        event matches StartEvent::InitialBegun(Ok((prepared, message_id))) ==> (
        after.step matches StartStep::OpenInitial { pane } && pane@ == prepared.pane_id@
            && after.flow.phase == (StartPhase::Initial { prepared, message_id })),
        event matches StartEvent::CommittedInitial(Ok(_)) ==> (
        work.flow.phase matches StartPhase::Initial { prepared, .. } ==> (
        after.step matches StartStep::Send(cmd) && prompts(
            cmd,
            prepared.pane_id@,
            prepared.envelope@,
        ))),
        event matches StartEvent::Launched(Ok(launched)) ==> after.step == StartStep::Answer(
            Ok(launched),
        ),
        event matches StartEvent::Declared(Err(error)) ==> after.step == StartStep::Fail(error),
        event matches StartEvent::Checked(Err(error)) ==> after.step == StartStep::Reject(error),
        event matches StartEvent::Applied(Err(error)) ==> after.step == StartStep::Fail(error),
        event matches StartEvent::Observed(Err(error)) ==> after.step == StartStep::Fail(error),
        event matches StartEvent::Launched(Err(error)) ==> after.step == StartStep::Fail(error),
        event is Rejected ==> (work.step matches StartStep::Reject(error) ==> after.step
            == StartStep::Fail(error)),
        event is Noted ==> (work.step matches StartStep::Fail(error) ==> after.step
            == StartStep::Answer(Err(error))),
{
    if let StartPhase::Initial { prepared, message_id: _ } = work.flow.phase {
        law_prompt_is_sent_to_its_pane(
            prepared.request_id@,
            prepared.pane_id@,
            prepared.envelope@,
            prepared.after_write_pause@,
        );
    }
}

/// A start has as long as its runtime may take, to the millisecond, and never a moment before now.
#[verifier::spinoff_prover]
pub proof fn law_deadline_is_its_span_away(now: u64, span: u64)
    ensures
        now + span <= u64::MAX ==> start::later(now, span) == now + span,
        start::later(now, span) >= now,
{
}

/// What is asked about a renew is decided by its phase. One that is parked, done, aborted or
/// terminated is left alone; no context is cleared that was not probed first.
#[verifier::spinoff_prover]
pub proof fn law_phase_decides_what_is_asked(item: DueRenew)
    ensures
        ask_of(item, true) == RenewAsk::Settled((RenewVerdict::Next { moved: false })),
        item.phase is Scheduled <==> ask_of(item, false) is Spacing,
        item.phase is Ready <==> ask_of(item, false) is ReadyToProbe,
        item.phase is Preparing || item.phase is TimedOut ==> ask_of(item, false) is Advance,
        item.phase is Clearing <==> ask_of(item, false) == RenewAsk::Settled(
            RenewVerdict::ParkRotation,
        ),
        item.phase is Injected && item.inject_not_before_ms is None ==> ask_of(item, false)
            is Advance,
        item.phase is Injected && item.inject_not_before_ms is Some <==> ask_of(item, false)
            == RenewAsk::Settled(RenewVerdict::ParkConfirm),
        item.phase is Done || item.phase is Aborted || item.phase is Terminated <==> ask_of(
            item,
            false,
        ) == RenewAsk::Settled((RenewVerdict::Next { moved: false })),
{
}

/// An error of Herdr, an outcome that is not known, a backend that cannot renew and a conflict
/// concern one renew and are passed over; any other error stops the pass.
#[verifier::spinoff_prover]
pub proof fn law_passed_over_errors_concern_one_renew(error: SliceError)
    ensures
        is_passed_over(error) <==> error is Herdr || error is UnknownOutcome || error
            is UnsupportedBackend || error matches SliceError::Store(StoreError::Conflict(_)),
{
}

/// A cycle writes the command that clears while it clears, and the envelope of the resumed
/// conversation while it injects, each to its own pane.
#[verifier::spinoff_prover]
#[verifier::rlimit(60)]
pub proof fn law_cycle_writes_what_its_state_holds(state: RenewState, cmd: LeaseCmd)
    requires
        cycle_sent(state) matches Some(sent) && sends(cmd, sent),
    ensures
        state matches RenewState::ClearingSend(write) ==> prompts(
            cmd,
            write.pane_id@,
            write.command@,
        ),
        state matches RenewState::InjectSend(write) ==> prompts(
            cmd,
            write.pane_id@,
            write.envelope@,
        ),
        state is ClearingSend || state is InjectSend,
{
    match state {
        RenewState::ClearingSend(write) => {
            law_prompt_is_sent_to_its_pane(
                write.request_id@,
                write.pane_id@,
                write.command@,
                ""@,
            );
        },
        RenewState::InjectSend(write) => {
            law_prompt_is_sent_to_its_pane(
                write.request_id@,
                write.pane_id@,
                write.envelope@,
                ""@,
            );
        },
        _ => {},
    }
}

/// A cycle goes on with every good word, and is left to another pass with every bad one.
#[verifier::spinoff_prover]
#[verifier::rlimit(60)]
pub proof fn law_cycle_goes_on(
    item: DueRenew,
    step: RenewStep,
    event: RenewEvent,
    after: RenewStep,
)
    requires
        renew::follows(item, step, event, after),
    ensures
        after matches RenewStep::Get { target, .. } ==> target@ == item.pane_id@,
        event matches RenewEvent::Done(Ok(HerdrJobResult::Agent(agent))) ==> (
        renew::waiting_state(step) matches Some(state) ==> (state is Probe ==> after
            == RenewStep::RecordClearing(agent)) && (state is RotationGet ==> after
            == RenewStep::DecideInject(agent)) && (state is ConfirmGet ==> after
            == RenewStep::Confirm(agent))),
        event matches RenewEvent::Recorded(Ok(write)) ==> (after matches RenewStep::Open {
            pane,
            state,
        } && pane@ == write.pane_id@ && state == RenewState::ClearingSend(write)),
        event matches RenewEvent::Decided(Ok(Some(write))) ==> (after matches RenewStep::Open {
            pane,
            state,
        } && pane@ == write.pane_id@ && state == RenewState::InjectSend(write)),
        event matches RenewEvent::Decided(Ok(None)) ==> after is Leave,
        event matches RenewEvent::Confirmed(Ok(confirmed)) ==> (after is Complete <==> confirmed),
        event is Failed || event is Unsent || event is Completed ==> after == (RenewStep::Leave {
            notice: None,
        }),
        event matches RenewEvent::Recorded(Err(error)) ==> (after matches RenewStep::Leave { notice }
            && (notice is None <==> is_passed_over(error))),
        event matches RenewEvent::Confirmed(Err(error)) ==> (after matches RenewStep::Leave {
            notice,
        } && (notice is None <==> is_passed_over(error))),
{
}

} // verus!
