//! A rename of a Ready agent: look, claim the pane, write, look again, answer.

use vstd::prelude::*;

use super::errors::{answer_view, is_wrong_answer, wrong_answer, ClientResponse, SliceError};
use super::parked::{keeps_id, Next, Parked};
use super::results::{identity_result, identity_result_view, ReadyIdentity};
use super::retire::may_be_written;
use super::send::{rename_sent, send_rename, sends};
use crate::domain::LogicalAgentId;
use crate::herdr::{HerdrError, Snapshot};
use crate::herdr_exec::{FailPhase, HerdrJobResult, LeaseCmd};
use crate::json::JsonView;

verus! {

/// A rename before anything was looked at.
#[derive(Debug, PartialEq, Eq)]
pub struct RenamePreflight {
    pub logical_agent_id: LogicalAgentId,
    pub pane_id: String,
    pub new_name: String,
}

/// A rename whose intent is recorded, and the request that writes it.
#[derive(Debug, PartialEq, Eq)]
pub struct RenameWork {
    pub request_id: String,
    pub pane_id: String,
    pub new_name: String,
}

/// Where a parked rename stands.
#[derive(Debug, PartialEq, Eq)]
pub enum RenameState {
    /// It waits for the snapshot that proves the pane its own.
    Snapshot(RenamePreflight),
    /// It waits for its lease. Nothing is recorded yet.
    Opening(RenamePreflight),
    /// Its intent is recorded and its request handed over.
    Sending(RenameWork),
    /// It waits for the snapshot that shows the new name.
    Confirm(RenameWork),
}

/// What a parked rename does next. After a result or a failure any lease it holds
/// is given back first.
#[derive(Debug, PartialEq, Eq)]
pub enum RenameStep {
    /// Take a snapshot with a negotiation, and go on from that state.
    First { state: RenameState },
    /// Ask the coordinator whether the snapshot shows what the rename expects.
    Verify { preflight: RenamePreflight, snapshot: Snapshot },
    /// Open the pane, and go on from that state.
    Open { pane: String, state: RenameState },
    /// Ask the coordinator to record the intent.
    Commit { preflight: RenamePreflight },
    /// Send that on the lease, keep the lease, and go on from that state.
    Send { cmd: LeaseCmd, state: RenameState },
    /// Take a snapshot without a negotiation, and go on from that state.
    Look { state: RenameState },
    /// Ask the coordinator to record a failure at or after the write, and answer
    /// with what it makes of it.
    WriteFailed { work: RenameWork, source: HerdrError },
    /// Ask the coordinator to withdraw an intent that was never written, and answer
    /// with what it makes of it.
    Abandon { work: RenameWork, source: HerdrError },
    /// Ask the coordinator to confirm the rename, and answer with that.
    Confirm { work: RenameWork, snapshot: Snapshot },
    /// Answer the client.
    Answer(Result<ReadyIdentity, SliceError>),
    /// Give the lease back: nobody needs it.
    GiveBack,
}

/// Whether a step answers with an unexpected answer of Herdr.
pub open spec fn answers_wrong(step: RenameStep, text: Seq<char>) -> bool {
    step matches RenameStep::Answer(Err(error)) && is_wrong_answer(error, text)
}

/// What follows an open lane: the intent is recorded before anything is sent.
pub fn rename_opened(state: RenameState) -> (step: RenameStep)
    ensures
        step == match state {
            RenameState::Opening(preflight) => RenameStep::Commit { preflight },
            _ => RenameStep::GiveBack,
        },
{
    match state {
        RenameState::Opening(preflight) => RenameStep::Commit { preflight },
        _ => RenameStep::GiveBack,
    }
}

/// Whether a step follows the recording of the intent.
pub open spec fn follows_commit(
    committed: Result<RenameWork, SliceError>,
    step: RenameStep,
) -> bool {
    match committed {
        Ok(work) => step matches RenameStep::Send { cmd, state } && sends(
            cmd,
            rename_sent(work.request_id@, work.pane_id@, work.new_name@, ""@),
        ) && state == RenameState::Sending(work),
        Err(error) => step == RenameStep::Answer(Err(error)),
    }
}

/// What follows the recording of the intent. Where it was refused, the lease is
/// given back and the client is told.
pub fn rename_committed(committed: Result<RenameWork, SliceError>) -> (step: RenameStep)
    ensures
        follows_commit(committed, step),
{
    match committed {
        Ok(work) => RenameStep::Send {
            cmd: send_rename(
                work.request_id.as_str(),
                work.pane_id.as_str(),
                work.new_name.as_str(),
                "",
            ),
            state: RenameState::Sending(work),
        },
        Err(error) => RenameStep::Answer(Err(error)),
    }
}

/// Whether a step follows a recorded rename that could not be handed to the worker.
pub open spec fn follows_unsent(work: RenameWork, step: RenameStep) -> bool {
    step matches RenameStep::WriteFailed { work: w, source: HerdrError::Unexpected(text) } && w
        == work && text@ == "herdr lease closed before rename"@
}

/// The recorded rename could not be handed to the worker.
pub fn rename_unsent(work: RenameWork) -> (step: RenameStep)
    ensures
        follows_unsent(work, step),
{
    RenameStep::WriteFailed {
        work,
        source: HerdrError::Unexpected("herdr lease closed before rename".to_owned()),
    }
}

/// Whether a step follows the result of a rename's job.
pub open spec fn follows_result(
    state: RenameState,
    result: Result<HerdrJobResult, HerdrError>,
    step: RenameStep,
) -> bool {
    match (state, result) {
        (RenameState::Snapshot(preflight), Ok(HerdrJobResult::Snapshot(snapshot))) => step == (
        RenameStep::Verify { preflight, snapshot }),
        (RenameState::Snapshot(_), Ok(_)) => answers_wrong(
            step,
            "rename snapshot returned wrong result"@,
        ),
        (RenameState::Snapshot(_), Err(error)) => step == RenameStep::Answer(
            Err(SliceError::Herdr(error)),
        ),
        (RenameState::Opening(_), _) => answers_wrong(
            step,
            "rename lease completed before send"@,
        ),
        (RenameState::Sending(work), Ok(HerdrJobResult::Agent(_))) => step == (
        RenameStep::Look { state: RenameState::Confirm(work) }),
        (RenameState::Sending(_), Ok(_)) => answers_wrong(
            step,
            "rename returned wrong result"@,
        ),
        (RenameState::Sending(work), Err(source)) => step == (RenameStep::WriteFailed {
            work,
            source,
        }),
        (RenameState::Confirm(work), Ok(HerdrJobResult::Snapshot(snapshot))) => step == (
        RenameStep::Confirm { work, snapshot }),
        (RenameState::Confirm(_), Ok(_)) => answers_wrong(
            step,
            "rename confirmation returned wrong result"@,
        ),
        (RenameState::Confirm(work), Err(source)) => step == (RenameStep::WriteFailed {
            work,
            source,
        }),
    }
}

/// What follows the result of a rename's job.
pub fn rename_done(state: RenameState, result: Result<HerdrJobResult, HerdrError>) -> (step: RenameStep)
    ensures
        follows_result(state, result, step),
{
    match (state, result) {
        (RenameState::Snapshot(preflight), Ok(HerdrJobResult::Snapshot(snapshot))) => {
            RenameStep::Verify { preflight, snapshot }
        },
        (RenameState::Snapshot(_), Ok(_)) => RenameStep::Answer(
            Err(wrong_answer("rename snapshot returned wrong result")),
        ),
        (RenameState::Snapshot(_), Err(error)) => RenameStep::Answer(Err(SliceError::Herdr(error))),
        (RenameState::Opening(_), _) => RenameStep::Answer(
            Err(wrong_answer("rename lease completed before send")),
        ),
        (RenameState::Sending(work), Ok(HerdrJobResult::Agent(_))) => RenameStep::Look {
            state: RenameState::Confirm(work),
        },
        (RenameState::Sending(_), Ok(_)) => RenameStep::Answer(
            Err(wrong_answer("rename returned wrong result")),
        ),
        (RenameState::Sending(work), Err(source)) => RenameStep::WriteFailed { work, source },
        (RenameState::Confirm(work), Ok(HerdrJobResult::Snapshot(snapshot))) => {
            RenameStep::Confirm { work, snapshot }
        },
        (RenameState::Confirm(_), Ok(_)) => RenameStep::Answer(
            Err(wrong_answer("rename confirmation returned wrong result")),
        ),
        (RenameState::Confirm(work), Err(source)) => RenameStep::WriteFailed { work, source },
    }
}

/// Whether a step follows the coordinator's look at the first snapshot.
pub open spec fn follows_verification(
    preflight: RenamePreflight,
    verified: Result<(), SliceError>,
    step: RenameStep,
) -> bool {
    match verified {
        Ok(()) => step matches RenameStep::Open { pane, state } && pane@ == preflight.pane_id@
            && state == RenameState::Opening(preflight),
        Err(error) => step == RenameStep::Answer(Err(error)),
    }
}

/// What follows the coordinator's look at the first snapshot.
pub fn rename_verified(preflight: RenamePreflight, verified: Result<(), SliceError>) -> (step: RenameStep)
    ensures
        follows_verification(preflight, verified, step),
{
    match verified {
        Ok(()) => RenameStep::Open {
            pane: preflight.pane_id.clone(),
            state: RenameState::Opening(preflight),
        },
        Err(error) => RenameStep::Answer(Err(error)),
    }
}

/// Whether a step follows the failure of a rename's job.
pub open spec fn follows_failure(
    state: RenameState,
    phase: FailPhase,
    source: HerdrError,
    step: RenameStep,
) -> bool {
    match state {
        RenameState::Sending(work) => step == if may_be_written(phase) {
            RenameStep::WriteFailed { work, source }
        } else {
            RenameStep::Abandon { work, source }
        },
        _ => step == RenameStep::Answer(Err(SliceError::Herdr(source))),
    }
}

/// What follows the failure of a rename's job. Once the intent is recorded it is
/// either told as written or withdrawn, by whether its bytes may have gone out.
pub fn rename_failed(state: RenameState, phase: FailPhase, source: HerdrError) -> (step: RenameStep)
    ensures
        follows_failure(state, phase, source, step),
{
    match (state, phase) {
        (RenameState::Sending(work), FailPhase::Read)
        | (RenameState::Sending(work), FailPhase::Lease) => RenameStep::WriteFailed { work, source },
        (RenameState::Sending(work), _) => RenameStep::Abandon { work, source },
        _ => RenameStep::Answer(Err(SliceError::Herdr(source))),
    }
}

/// The view of how a rename ended.
pub open spec fn renamed_view(result: Result<ReadyIdentity, SliceError>) -> Result<
    JsonView,
    SliceError,
> {
    match result {
        Ok(identity) => Ok(identity_result_view(identity)),
        Err(error) => Err(error),
    }
}

/// The response to a rename: who the agent is now.
pub fn answer_rename<W>(parked: &Parked<W>, result: Result<ReadyIdentity, SliceError>) -> (response:
    ClientResponse)
    ensures
        response.id@ == parked.request_id@,
        response@ == answer_view(parked.request_id@, renamed_view(result)),
{
    match result {
        Ok(identity) => parked.answer(Ok(identity_result(&identity))),
        Err(error) => parked.answer(Err(error)),
    }
}

/// What a parked rename is told.
#[derive(Debug, PartialEq, Eq)]
pub enum RenameEvent {
    /// Its lane is open.
    Opened,
    /// Its request could not be handed to the worker.
    Unsent,
    /// Its job is over.
    Done(Result<HerdrJobResult, HerdrError>),
    /// Its job failed.
    Failed { phase: FailPhase, source: HerdrError },
    /// The coordinator looked at the snapshot.
    Verified(Result<(), SliceError>),
    /// The coordinator recorded the intent.
    Committed(Result<RenameWork, SliceError>),
    /// The coordinator confirmed the rename, or recorded why it failed.
    Settled(Result<ReadyIdentity, SliceError>),
}

/// The state that a rename waits in for a worker.
pub open spec fn waiting_state(step: RenameStep) -> Option<RenameState> {
    match step {
        RenameStep::First { state } => Some(state),
        RenameStep::Open { state, .. } => Some(state),
        RenameStep::Send { state, .. } => Some(state),
        RenameStep::Look { state } => Some(state),
        _ => None,
    }
}

/// Whether a step follows another one and an event.
pub open spec fn follows(step: RenameStep, event: RenameEvent, after: RenameStep) -> bool {
    match (step, event) {
        (
            RenameStep::Open { state: RenameState::Opening(preflight), .. },
            RenameEvent::Opened,
        ) => after == (RenameStep::Commit { preflight }),
        (
            RenameStep::Send { state: RenameState::Sending(work), .. },
            RenameEvent::Unsent,
        ) => follows_unsent(work, after),
        (step, RenameEvent::Done(result)) => waiting_state(step) matches Some(state)
            && follows_result(state, result, after),
        (step, RenameEvent::Failed { phase, source }) => waiting_state(step) matches Some(state)
            && follows_failure(state, phase, source, after),
        (RenameStep::Verify { preflight, .. }, RenameEvent::Verified(verified)) => {
            follows_verification(preflight, verified, after)
        },
        (RenameStep::Commit { .. }, RenameEvent::Committed(committed)) => follows_commit(
            committed,
            after,
        ),
        (RenameStep::WriteFailed { .. }, RenameEvent::Settled(settled)) => after
            == RenameStep::Answer(settled),
        (RenameStep::Abandon { .. }, RenameEvent::Settled(settled)) => after == RenameStep::Answer(
            settled,
        ),
        (RenameStep::Confirm { .. }, RenameEvent::Settled(settled)) => after == RenameStep::Answer(
            settled,
        ),
        _ => false,
    }
}

/// Whether a rename waits for an event.
pub open spec fn waits_for(step: RenameStep, event: RenameEvent) -> bool {
    match event {
        RenameEvent::Opened => step matches RenameStep::Open { state: RenameState::Opening(_), .. },
        RenameEvent::Unsent => step matches RenameStep::Send { state: RenameState::Sending(_), .. },
        RenameEvent::Done(_) => waiting_state(step) is Some,
        RenameEvent::Failed { .. } => waiting_state(step) is Some,
        RenameEvent::Verified(_) => step is Verify,
        RenameEvent::Committed(_) => step is Commit,
        RenameEvent::Settled(_) => step is WriteFailed || step is Abandon || step is Confirm,
    }
}

/// Whether a step is taken under an identifier: the last one answers.
pub open spec fn lands(id: Seq<char>, step: RenameStep, next: Next<RenameStep>) -> bool {
    match step {
        RenameStep::Answer(result) => next matches Next::Answer(response) && response.id@ == id
            && response@ == answer_view(id, renamed_view(result)),
        _ => next matches Next::Go(parked) && parked.request_id@ == id && parked.work == step,
    }
}

fn land(request_id: String, step: RenameStep) -> (next: Next<RenameStep>)
    ensures
        lands(request_id@, step, next),
{
    match step {
        RenameStep::Answer(result) => {
            let parked = Parked { request_id, work: () };
            Next::Answer(answer_rename(&parked, result))
        },
        step => Next::Go(Parked { request_id, work: step }),
    }
}

/// What a parked rename does once something happened to it. An event that it does
/// not wait for changes nothing.
pub fn rename_next(parked: Parked<RenameStep>, event: RenameEvent) -> (next: Next<RenameStep>)
    ensures
        keeps_id(parked.request_id@, next),
        if waits_for(parked.work, event) {
            exists|step: RenameStep| #[trigger]
                follows(parked.work, event, step) && lands(parked.request_id@, step, next)
        } else {
            next == Next::Stay(parked)
        },
{
    let ghost step = parked.work;
    let ghost told = event;
    let request_id = parked.request_id;
    let after = match (parked.work, event) {
        (
            RenameStep::Open { state: RenameState::Opening(preflight), .. },
            RenameEvent::Opened,
        ) => rename_opened(RenameState::Opening(preflight)),
        (
            RenameStep::Send { state: RenameState::Sending(work), .. },
            RenameEvent::Unsent,
        ) => rename_unsent(work),
        (RenameStep::First { state }, RenameEvent::Done(result))
        | (RenameStep::Open { state, .. }, RenameEvent::Done(result))
        | (RenameStep::Send { state, .. }, RenameEvent::Done(result))
        | (RenameStep::Look { state }, RenameEvent::Done(result)) => rename_done(state, result),
        (RenameStep::First { state }, RenameEvent::Failed { phase, source })
        | (RenameStep::Open { state, .. }, RenameEvent::Failed { phase, source })
        | (RenameStep::Send { state, .. }, RenameEvent::Failed { phase, source })
        | (RenameStep::Look { state }, RenameEvent::Failed { phase, source }) => rename_failed(
            state,
            phase,
            source,
        ),
        (RenameStep::Verify { preflight, .. }, RenameEvent::Verified(verified)) => rename_verified(
            preflight,
            verified,
        ),
        (RenameStep::Commit { .. }, RenameEvent::Committed(committed)) => rename_committed(
            committed,
        ),
        (RenameStep::WriteFailed { .. }, RenameEvent::Settled(settled))
        | (RenameStep::Abandon { .. }, RenameEvent::Settled(settled))
        | (RenameStep::Confirm { .. }, RenameEvent::Settled(settled)) => RenameStep::Answer(settled),
        (work, _) => {
            return Next::Stay(Parked { request_id, work });
        },
    };
    assert(follows(step, told, after));
    land(request_id, after)
}

/// A rename goes in one order: look, verify, open, record, write, look again, confirm.
/// Nothing is written before its intent is recorded, and only the coordinator ends it
/// well.
pub proof fn law_rename_goes_in_order(step: RenameStep, event: RenameEvent, after: RenameStep)
    requires
        follows(step, event, after),
    ensures
        after is Verify ==> waiting_state(step) matches Some(RenameState::Snapshot(_)),
        after is Open ==> step is Verify,
        after is Commit ==> step is Open,
        after is Send ==> step is Commit && (event matches RenameEvent::Committed(Ok(_))),
        after is Look ==> waiting_state(step) matches Some(RenameState::Sending(_)),
        after is Confirm ==> waiting_state(step) matches Some(RenameState::Confirm(_)),
        (after matches RenameStep::Answer(Ok(_))) ==> event is Settled,
        !(after is First) && !(after is GiveBack),
{
}

/// No answer of Herdr is by itself a success of a rename: only what the
/// coordinator makes of a snapshot is, and a written rename is always followed by
/// a look.
pub proof fn law_rename_is_confirmed_by_a_later_look(
    state: RenameState,
    result: Result<HerdrJobResult, HerdrError>,
    step: RenameStep,
)
    requires
        follows_result(state, result, step),
    ensures
        !(step matches RenameStep::Answer(Ok(_))),
        state is Sending ==> !(step is Confirm),
        (state matches RenameState::Sending(work) && result matches Ok(HerdrJobResult::Agent(_)))
            ==> step matches RenameStep::Look { state: RenameState::Confirm(_) },
{
}

/// A rename whose intent is recorded never fails silently: the coordinator is told
/// whether its bytes may have gone out.
pub proof fn law_recorded_rename_is_settled(
    work: RenameWork,
    phase: FailPhase,
    source: HerdrError,
    step: RenameStep,
)
    requires
        follows_failure(RenameState::Sending(work), phase, source, step),
    ensures
        may_be_written(phase) ==> step == (RenameStep::WriteFailed { work, source }),
        !may_be_written(phase) ==> step == (RenameStep::Abandon { work, source }),
{
}

} // verus!
