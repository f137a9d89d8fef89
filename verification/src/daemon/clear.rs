//! A clear of a conversation: let the pane settle, probe it, write the backend's
//! command, wait until the backend's session has rotated, answer.

use vstd::prelude::*;

use super::errors::{
    answer_view, is_wrong_answer, wrong_answer, ClientResponse, SliceError, StoreError,
};
use super::parked::{keeps_id, Next, Parked};
use super::results::{clear_result, clear_result_view, ClearResult};
use super::send::{prompt_sent, send_prompt, sends};
use crate::domain::{uuid_text, IncarnationId, LogicalAgentId, OperationId};
use crate::herdr::{AgentObservation, HerdrError};
use crate::herdr_exec::{HerdrJobResult, LeaseCmd};
use crate::json::JsonView;

verus! {

/// Whom a clear is for.
#[derive(Debug, PartialEq, Eq)]
pub struct ResolvedClear {
    pub recipient: LogicalAgentId,
    pub recipient_incarnation: IncarnationId,
    pub idempotency_key: String,
}

/// What the coordinator recorded of a clear that is about to be written.
#[derive(Debug, PartialEq, Eq)]
pub struct ClearWork {
    pub operation_id: OperationId,
    /// What the backend has to be told.
    pub command: String,
}

/// Where a parked clear stands.
#[derive(Debug, PartialEq, Eq)]
pub enum ClearState {
    /// It waits until prompts to the pane are far enough apart.
    Settling { clear: ResolvedClear, not_before_ms: i64 },
    /// It waits for what the pane shows before the clear.
    Probe { clear: ResolvedClear, pane_id: String },
    /// It waits for its lease, then for the answer to the command.
    Sending { clear: ResolvedClear, pane_id: String, work: ClearWork },
    /// It waits until the backend's session has rotated.
    Rotation { operation_id: OperationId, pane_id: String },
}

/// A clear that is for somebody begins by letting the pane settle.
pub fn begin_clear(
    recipient: LogicalAgentId,
    recipient_incarnation: IncarnationId,
    idempotency_key: String,
    not_before_ms: i64,
) -> (state: ClearState)
    ensures
        state == (ClearState::Settling {
            clear: ResolvedClear { recipient, recipient_incarnation, idempotency_key },
            not_before_ms,
        }),
{
    ClearState::Settling {
        clear: ResolvedClear { recipient, recipient_incarnation, idempotency_key },
        not_before_ms,
    }
}

/// When a clear that is looked at again may begin: never earlier than it was told
/// before.
pub fn settle_until(not_before_ms: i64, latest_ms: i64) -> (at: i64)
    ensures
        at == if latest_ms > not_before_ms {
            latest_ms
        } else {
            not_before_ms
        },
{
    if latest_ms > not_before_ms {
        latest_ms
    } else {
        not_before_ms
    }
}

/// What a clear does in one pass of the daemon's loop.
#[derive(Debug, PartialEq, Eq)]
pub enum ClearAdvance {
    /// Nothing yet.
    Wait,
    /// Look up the pane of the recipient, to probe it.
    LookUpPane(IncarnationId),
    /// Read the agent in that pane, under that request identifier.
    Get { request_id: String, target: String },
}

/// The request that reads whether a session has rotated.
pub open spec fn rotation_request(operation: OperationId) -> Seq<char> {
    "kelpie:clear:rotation:"@ + uuid_text(operation.value as nat)
}

/// What a clear does in one pass. `waits` tells whether it waits for a job.
pub fn advance_clear(state: &ClearState, waits: bool, now_ms: i64) -> (advance: ClearAdvance)
    ensures
        match state {
            _ if waits => advance == ClearAdvance::Wait,
            ClearState::Settling { clear, not_before_ms } => if now_ms < *not_before_ms {
                advance == ClearAdvance::Wait
            } else {
                advance == ClearAdvance::LookUpPane(clear.recipient_incarnation)
            },
            ClearState::Rotation { operation_id, pane_id } => advance matches ClearAdvance::Get {
                request_id,
                target,
            } && request_id@ == rotation_request(*operation_id) && target@ == pane_id@,
            _ => advance == ClearAdvance::Wait,
        },
{
    if waits {
        return ClearAdvance::Wait;
    }
    match state {
        ClearState::Settling { clear, not_before_ms } => if now_ms < *not_before_ms {
            ClearAdvance::Wait
        } else {
            ClearAdvance::LookUpPane(clear.recipient_incarnation)
        },
        ClearState::Rotation { operation_id, pane_id } => ClearAdvance::Get {
            request_id: "kelpie:clear:rotation:".to_owned().concat(
                operation_id.to_text().as_str(),
            ),
            target: pane_id.clone(),
        },
        _ => ClearAdvance::Wait,
    }
}

/// What a parked clear does next. After a result or a failure any lease it holds is
/// given back first.
#[derive(Debug, PartialEq, Eq)]
pub enum ClearStep {
    /// Wait for the next pass in that state.
    Rest { state: ClearState },
    /// Ask the store for the pane of the recipient.
    LookUp { clear: ResolvedClear },
    /// Read the agent in the pane under that request identifier, and go on from that
    /// state.
    Get { request_id: String, target: String, state: ClearState },
    /// Ask the coordinator to begin the clear from what the pane shows.
    Begin { clear: ResolvedClear, pane_id: String, observed: AgentObservation },
    /// Open the pane, and go on from that state.
    Open { pane: String, state: ClearState },
    /// Ask the coordinator to record the intent, under that request identifier.
    Commit { clear: ResolvedClear, pane_id: String, work: ClearWork, request_id: String },
    /// Send that on the lease, keep the lease, and go on from that state.
    Send { cmd: LeaseCmd, state: ClearState },
    /// Ask the coordinator what the answer to the command means.
    Apply {
        clear: ResolvedClear,
        pane_id: String,
        work: ClearWork,
        observed: Result<AgentObservation, HerdrError>,
    },
    /// Ask the coordinator whether the session has rotated, and wait meanwhile.
    Rotated {
        operation_id: OperationId,
        pane_id: String,
        observed: Result<AgentObservation, HerdrError>,
    },
    /// Answer the client.
    Answer(Result<ClearResult, SliceError>),
}

/// Whether a step answers with an unexpected answer of Herdr.
pub open spec fn answers_wrong(step: ClearStep, text: Seq<char>) -> bool {
    step matches ClearStep::Answer(Err(error)) && is_wrong_answer(error, text)
}

/// Whether a step follows the look-up of the pane of a settled clear.
pub open spec fn follows_lookup(
    clear: ResolvedClear,
    pane: Result<String, SliceError>,
    step: ClearStep,
) -> bool {
    match pane {
        Ok(pane_id) => step matches ClearStep::Get { request_id, target, state } && request_id@
            == "kelpie:clear:probe:"@ + clear.idempotency_key@ && target@ == pane_id@ && state == (
        ClearState::Probe { clear, pane_id }),
        Err(error) => step == ClearStep::Answer(Err(error)),
    }
}

/// What follows the look-up of the pane of a settled clear.
pub fn clear_bound(clear: ResolvedClear, pane: Result<String, SliceError>) -> (step: ClearStep)
    ensures
        follows_lookup(clear, pane, step),
{
    match pane {
        Ok(pane_id) => ClearStep::Get {
            request_id: "kelpie:clear:probe:".to_owned().concat(clear.idempotency_key.as_str()),
            target: pane_id.clone(),
            state: ClearState::Probe { clear, pane_id },
        },
        Err(error) => ClearStep::Answer(Err(error)),
    }
}

/// The request that writes a clear.
pub open spec fn clear_request(operation: OperationId) -> Seq<char> {
    "kelpie:clear:"@ + uuid_text(operation.value as nat)
}

/// Whether a step asks to record the intent of a clear.
pub open spec fn commits(
    clear: ResolvedClear,
    pane_id: String,
    work: ClearWork,
    step: ClearStep,
) -> bool {
    step matches ClearStep::Commit { clear: c, pane_id: p, work: w, request_id } && c == clear && p
        == pane_id && w == work && request_id@ == clear_request(work.operation_id)
}

/// What follows an open lane: the intent is recorded before anything is sent.
pub fn clear_opened(clear: ResolvedClear, pane_id: String, work: ClearWork) -> (step: ClearStep)
    ensures
        commits(clear, pane_id, work, step),
{
    let request_id = "kelpie:clear:".to_owned().concat(work.operation_id.to_text().as_str());
    ClearStep::Commit { clear, pane_id, work, request_id }
}

/// Whether a step follows the recording of the intent of a clear.
pub open spec fn follows_commit(
    clear: ResolvedClear,
    pane_id: String,
    work: ClearWork,
    committed: Result<(), SliceError>,
    step: ClearStep,
) -> bool {
    match committed {
        Ok(()) => step matches ClearStep::Send { cmd, state } && sends(
            cmd,
            prompt_sent(
                clear_request(work.operation_id),
                pane_id@,
                work.command@,
                "clear_after_write_before_response"@,
            ),
        ) && state == (ClearState::Sending { clear, pane_id, work }),
        Err(error) => step == ClearStep::Answer(Err(error)),
    }
}

/// What follows the recording of the intent of a clear: its command goes out, or the
/// lease is given back and the client is told.
pub fn clear_committed(
    clear: ResolvedClear,
    pane_id: String,
    work: ClearWork,
    committed: Result<(), SliceError>,
) -> (step: ClearStep)
    ensures
        follows_commit(clear, pane_id, work, committed, step),
{
    match committed {
        Ok(()) => {
            let request_id = "kelpie:clear:".to_owned().concat(
                work.operation_id.to_text().as_str(),
            );
            ClearStep::Send {
                cmd: send_prompt(
                    request_id.as_str(),
                    pane_id.as_str(),
                    work.command.as_str(),
                    "clear_after_write_before_response",
                ),
                state: ClearState::Sending { clear, pane_id, work },
            }
        },
        Err(error) => ClearStep::Answer(Err(error)),
    }
}

/// The recorded clear could not be handed to the worker.
pub fn clear_unsent() -> (step: ClearStep)
    ensures
        answers_wrong(step, "herdr lease closed before clear send"@),
{
    ClearStep::Answer(Err(wrong_answer("herdr lease closed before clear send")))
}

/// Whether an observation is what a result shows of an agent, or why it shows none.
pub open spec fn shows_agent(
    observed: Result<AgentObservation, HerdrError>,
    result: Result<HerdrJobResult, HerdrError>,
    prompt_counts: bool,
    text: Seq<char>,
) -> bool {
    match result {
        Ok(HerdrJobResult::Agent(agent)) => observed == Ok::<AgentObservation, HerdrError>(agent),
        Ok(HerdrJobResult::Prompt(agent)) => if prompt_counts {
            observed == Ok::<AgentObservation, HerdrError>(agent)
        } else {
            observed matches Err(HerdrError::Unexpected(message)) && message@ == text
        },
        Ok(_) => observed matches Err(HerdrError::Unexpected(message)) && message@ == text,
        Err(error) => observed == Err::<AgentObservation, HerdrError>(error),
    }
}

fn shown_agent(result: Result<HerdrJobResult, HerdrError>, prompt_counts: bool, text: &str) -> (observed: Result<
    AgentObservation,
    HerdrError,
>)
    ensures
        shows_agent(observed, result, prompt_counts, text@),
{
    match result {
        Ok(HerdrJobResult::Agent(agent)) => Ok(agent),
        Ok(HerdrJobResult::Prompt(agent)) => if prompt_counts {
            Ok(agent)
        } else {
            Err(HerdrError::Unexpected(text.to_owned()))
        },
        Ok(_) => Err(HerdrError::Unexpected(text.to_owned())),
        Err(error) => Err(error),
    }
}

/// Whether a step follows the result of a clear's job.
pub open spec fn follows_result(
    state: ClearState,
    result: Result<HerdrJobResult, HerdrError>,
    step: ClearStep,
) -> bool {
    match state {
        ClearState::Settling { .. } => step == (ClearStep::Rest { state }),
        ClearState::Probe { clear, pane_id } => match result {
            Ok(HerdrJobResult::Agent(observed)) => step == (ClearStep::Begin {
                clear,
                pane_id,
                observed,
            }),
            Ok(_) => answers_wrong(step, "clear probe returned a non-agent result"@),
            Err(error) => step == ClearStep::Answer(Err(SliceError::Herdr(error))),
        },
        ClearState::Sending { clear, pane_id, work } => step matches ClearStep::Apply {
            clear: c,
            pane_id: p,
            work: w,
            observed,
        } && c == clear && p == pane_id && w == work && shows_agent(
            observed,
            result,
            true,
            "clear command returned a non-agent result"@,
        ),
        ClearState::Rotation { operation_id, pane_id } => step matches ClearStep::Rotated {
            operation_id: o,
            pane_id: p,
            observed,
        } && o == operation_id && p == pane_id && shows_agent(
            observed,
            result,
            false,
            "clear rotation returned a non-agent result"@,
        ),
    }
}

/// What follows the result of a clear's job.
pub fn clear_done(state: ClearState, result: Result<HerdrJobResult, HerdrError>) -> (step: ClearStep)
    ensures
        follows_result(state, result, step),
{
    match state {
        ClearState::Settling { clear, not_before_ms } => ClearStep::Rest {
            state: ClearState::Settling { clear, not_before_ms },
        },
        ClearState::Probe { clear, pane_id } => match result {
            Ok(HerdrJobResult::Agent(observed)) => ClearStep::Begin { clear, pane_id, observed },
            Ok(_) => ClearStep::Answer(
                Err(wrong_answer("clear probe returned a non-agent result")),
            ),
            Err(error) => ClearStep::Answer(Err(SliceError::Herdr(error))),
        },
        ClearState::Sending { clear, pane_id, work } => ClearStep::Apply {
            clear,
            pane_id,
            work,
            observed: shown_agent(result, true, "clear command returned a non-agent result"),
        },
        ClearState::Rotation { operation_id, pane_id } => ClearStep::Rotated {
            operation_id,
            pane_id,
            observed: shown_agent(result, false, "clear rotation returned a non-agent result"),
        },
    }
}

/// Whether a step follows the beginning of a clear.
pub open spec fn follows_beginning(
    clear: ResolvedClear,
    pane_id: String,
    reply: Result<ClearWork, SliceError>,
    step: ClearStep,
) -> bool {
    match reply {
        Ok(work) => step matches ClearStep::Open { pane, state } && pane@ == pane_id@ && state == (
        ClearState::Sending { clear, pane_id, work }),
        Err(error) => step == ClearStep::Answer(Err(error)),
    }
}

/// What follows the beginning of a clear.
pub fn clear_begun(
    clear: ResolvedClear,
    pane_id: String,
    reply: Result<ClearWork, SliceError>,
) -> (step: ClearStep)
    ensures
        follows_beginning(clear, pane_id, reply, step),
{
    match reply {
        Ok(work) => ClearStep::Open {
            pane: pane_id.clone(),
            state: ClearState::Sending { clear, pane_id, work },
        },
        Err(error) => ClearStep::Answer(Err(error)),
    }
}

/// What the coordinator makes of the answer to a clear's command.
#[derive(Debug, PartialEq, Eq)]
pub enum ClearSubmission {
    Complete(ClearResult),
    /// The session has not rotated yet.
    Awaiting { operation_id: OperationId, pane_id: String },
}

/// Whether a step follows the coordinator's word on the answer to a clear's command.
pub open spec fn follows_application(
    reply: Result<ClearSubmission, SliceError>,
    step: ClearStep,
) -> bool {
    match reply {
        Ok(ClearSubmission::Complete(cleared)) => step == ClearStep::Answer(Ok(cleared)),
        Ok(ClearSubmission::Awaiting { operation_id, pane_id }) => {
            step matches ClearStep::Get { request_id, target, state } && request_id@
                == rotation_request(operation_id) && target@ == pane_id@ && state == (
            ClearState::Rotation { operation_id, pane_id })
        },
        Err(error) => step == ClearStep::Answer(Err(error)),
    }
}

/// What follows the coordinator's word on the answer to a clear's command: the
/// client is answered, or the session is watched at once.
pub fn clear_applied(reply: Result<ClearSubmission, SliceError>) -> (step: ClearStep)
    ensures
        follows_application(reply, step),
{
    match reply {
        Ok(ClearSubmission::Complete(cleared)) => ClearStep::Answer(Ok(cleared)),
        Ok(ClearSubmission::Awaiting { operation_id, pane_id }) => ClearStep::Get {
            request_id: "kelpie:clear:rotation:".to_owned().concat(
                operation_id.to_text().as_str(),
            ),
            target: pane_id.clone(),
            state: ClearState::Rotation { operation_id, pane_id },
        },
        Err(error) => ClearStep::Answer(Err(error)),
    }
}

/// What follows the coordinator's word on whether the session has rotated.
pub open spec fn after_rotation(
    operation_id: OperationId,
    pane_id: String,
    reply: Result<Option<ClearResult>, SliceError>,
) -> ClearStep {
    match reply {
        Ok(Some(cleared)) => ClearStep::Answer(Ok(cleared)),
        Ok(None) => ClearStep::Rest { state: ClearState::Rotation { operation_id, pane_id } },
        Err(_) => ClearStep::Rest { state: ClearState::Rotation { operation_id, pane_id } },
    }
}

/// What follows the coordinator's word on whether the session has rotated: where it has
/// not, or where that could not be told, it is watched again in the next pass.
pub fn clear_rotated(
    operation_id: OperationId,
    pane_id: String,
    reply: Result<Option<ClearResult>, SliceError>,
) -> (step: ClearStep)
    ensures
        step == after_rotation(operation_id, pane_id, reply),
{
    match reply {
        Ok(Some(cleared)) => ClearStep::Answer(Ok(cleared)),
        Ok(None) => ClearStep::Rest { state: ClearState::Rotation { operation_id, pane_id } },
        Err(_) => ClearStep::Rest { state: ClearState::Rotation { operation_id, pane_id } },
    }
}

/// What became of a clear so far.
#[derive(Debug, PartialEq, Eq)]
pub enum ClearDispatch {
    /// It is done.
    Complete(ClearResult),
    /// It waits.
    Awaiting(ClearState),
}

/// What a clear that is driven by itself does while it settles.
#[derive(Debug, PartialEq, Eq)]
pub enum Settled {
    /// It waits on.
    Wait(ClearState),
    /// Ask the coordinator to submit it.
    Submit(ResolvedClear),
    /// It ends with that failure.
    Fail(SliceError),
}

/// What a clear that is driven by itself does while it settles, from the
/// coordinator's word on when it may begin and from the clock.
pub fn drive_settling(
    clear: ResolvedClear,
    not_before_ms: i64,
    latest_ms: Result<i64, SliceError>,
    now_ms: Result<i64, StoreError>,
) -> (settled: Settled)
    ensures
        match (latest_ms, now_ms) {
            (Err(error), _) => settled == Settled::Fail(error),
            (Ok(_), Err(error)) => settled == Settled::Fail(SliceError::Store(error)),
            (Ok(latest), Ok(now)) => settled == if now < not_before_ms || now < latest {
                Settled::Wait(
                    ClearState::Settling {
                        clear,
                        not_before_ms: if latest > not_before_ms {
                            latest
                        } else {
                            not_before_ms
                        },
                    },
                )
            } else {
                Settled::Submit(clear)
            },
        },
{
    match (latest_ms, now_ms) {
        (Err(error), _) => Settled::Fail(error),
        (Ok(_), Err(error)) => Settled::Fail(SliceError::Store(error)),
        (Ok(latest), Ok(now)) => {
            let at: i64 = settle_until(not_before_ms, latest);
            if now < at {
                Settled::Wait(ClearState::Settling { clear, not_before_ms: at })
            } else {
                Settled::Submit(clear)
            }
        },
    }
}

/// What became of a clear that was submitted.
pub fn drive_submitted(reply: Result<ClearSubmission, SliceError>) -> (r: Result<
    ClearDispatch,
    SliceError,
>)
    ensures
        r == match reply {
            Ok(ClearSubmission::Complete(cleared)) => Ok::<ClearDispatch, SliceError>(
                ClearDispatch::Complete(cleared),
            ),
            Ok(ClearSubmission::Awaiting { operation_id, pane_id }) => Ok(
                ClearDispatch::Awaiting(ClearState::Rotation { operation_id, pane_id }),
            ),
            Err(error) => Err(error),
        },
{
    match reply {
        Ok(ClearSubmission::Complete(cleared)) => Ok(ClearDispatch::Complete(cleared)),
        Ok(ClearSubmission::Awaiting { operation_id, pane_id }) => Ok(
            ClearDispatch::Awaiting(ClearState::Rotation { operation_id, pane_id }),
        ),
        Err(error) => Err(error),
    }
}

/// What became of a clear whose session is watched.
pub fn drive_rotation(
    operation_id: OperationId,
    pane_id: String,
    reply: Result<Option<ClearResult>, SliceError>,
) -> (r: Result<ClearDispatch, SliceError>)
    ensures
        r == match reply {
            Ok(Some(cleared)) => Ok::<ClearDispatch, SliceError>(ClearDispatch::Complete(cleared)),
            Ok(None) => Ok(ClearDispatch::Awaiting(ClearState::Rotation { operation_id, pane_id })),
            Err(error) => Err(error),
        },
{
    match reply {
        Ok(Some(cleared)) => Ok(ClearDispatch::Complete(cleared)),
        Ok(None) => Ok(ClearDispatch::Awaiting(ClearState::Rotation { operation_id, pane_id })),
        Err(error) => Err(error),
    }
}

/// The view of how a clear ended.
pub open spec fn cleared_view(result: Result<ClearResult, SliceError>) -> Result<
    JsonView,
    SliceError,
> {
    match result {
        Ok(cleared) => Ok(clear_result_view(cleared)),
        Err(error) => Err(error),
    }
}

/// The response to a clear.
pub fn answer_clear<W>(parked: &Parked<W>, result: Result<ClearResult, SliceError>) -> (response:
    ClientResponse)
    ensures
        response.id@ == parked.request_id@,
        response@ == answer_view(parked.request_id@, cleared_view(result)),
{
    match result {
        Ok(cleared) => parked.answer(Ok(clear_result(cleared))),
        Err(error) => parked.answer(Err(error)),
    }
}

/// What a parked clear is told.
#[derive(Debug, PartialEq, Eq)]
pub enum ClearEvent {
    /// A pass of the daemon's loop came by at that moment.
    Pass { now_ms: i64 },
    /// The store looked the pane of the recipient up.
    Bound(Result<String, SliceError>),
    /// Its lane is open.
    Opened,
    /// Its command could not be handed to the worker.
    Unsent,
    /// Its job is over.
    Done(Result<HerdrJobResult, HerdrError>),
    /// Its job failed.
    Failed(HerdrError),
    /// The coordinator began the clear.
    Begun(Result<ClearWork, SliceError>),
    /// The coordinator recorded the intent.
    Committed(Result<(), SliceError>),
    /// The coordinator said what the answer to the command means.
    Applied(Result<ClearSubmission, SliceError>),
    /// The coordinator said whether the session has rotated.
    Watched(Result<Option<ClearResult>, SliceError>),
}

/// The state that a clear waits in for a worker.
pub open spec fn waiting_state(step: ClearStep) -> Option<ClearState> {
    match step {
        ClearStep::Get { state, .. } => Some(state),
        ClearStep::Open { state, .. } => Some(state),
        ClearStep::Send { state, .. } => Some(state),
        _ => None,
    }
}

/// Whether a step follows a pass of the daemon's loop.
pub open spec fn follows_pass(state: ClearState, now_ms: i64, after: ClearStep) -> bool {
    match state {
        ClearState::Settling { clear, not_before_ms } => now_ms >= not_before_ms && after == (
        ClearStep::LookUp { clear }),
        ClearState::Rotation { operation_id, pane_id } => after matches ClearStep::Get {
            request_id,
            target,
            state: waiting,
        } && request_id@ == rotation_request(operation_id) && target@ == pane_id@ && waiting
            == state,
        _ => false,
    }
}

/// Whether a step follows another one and an event.
pub open spec fn follows(step: ClearStep, event: ClearEvent, after: ClearStep) -> bool {
    match (step, event) {
        (ClearStep::Rest { state }, ClearEvent::Pass { now_ms }) => follows_pass(
            state,
            now_ms,
            after,
        ),
        (ClearStep::LookUp { clear }, ClearEvent::Bound(pane)) => follows_lookup(
            clear,
            pane,
            after,
        ),
        (
            ClearStep::Open { state: ClearState::Sending { clear, pane_id, work }, .. },
            ClearEvent::Opened,
        ) => commits(clear, pane_id, work, after),
        (ClearStep::Send { .. }, ClearEvent::Unsent) => answers_wrong(
            after,
            "herdr lease closed before clear send"@,
        ),
        (step, ClearEvent::Done(result)) => waiting_state(step) matches Some(state)
            && follows_result(state, result, after),
        (step, ClearEvent::Failed(source)) => waiting_state(step) is Some && after
            == ClearStep::Answer(Err(SliceError::Herdr(source))),
        (ClearStep::Begin { clear, pane_id, .. }, ClearEvent::Begun(reply)) => follows_beginning(
            clear,
            pane_id,
            reply,
            after,
        ),
        (ClearStep::Commit { clear, pane_id, work, .. }, ClearEvent::Committed(committed)) => {
            follows_commit(clear, pane_id, work, committed, after)
        },
        (ClearStep::Apply { .. }, ClearEvent::Applied(reply)) => follows_application(reply, after),
        (ClearStep::Rotated { operation_id, pane_id, .. }, ClearEvent::Watched(reply)) => after
            == after_rotation(operation_id, pane_id, reply),
        _ => false,
    }
}

/// Whether a clear waits for an event.
pub open spec fn waits_for(step: ClearStep, event: ClearEvent) -> bool {
    match event {
        ClearEvent::Pass { now_ms } => match step {
            ClearStep::Rest { state: ClearState::Settling { not_before_ms, .. } } => now_ms
                >= not_before_ms,
            ClearStep::Rest { state: ClearState::Rotation { .. } } => true,
            _ => false,
        },
        ClearEvent::Bound(_) => step is LookUp,
        ClearEvent::Opened => step matches ClearStep::Open { state: ClearState::Sending { .. }, .. },
        ClearEvent::Unsent => step is Send,
        ClearEvent::Done(_) => waiting_state(step) is Some,
        ClearEvent::Failed(_) => waiting_state(step) is Some,
        ClearEvent::Begun(_) => step is Begin,
        ClearEvent::Committed(_) => step is Commit,
        ClearEvent::Applied(_) => step is Apply,
        ClearEvent::Watched(_) => step is Rotated,
    }
}

/// Whether a step is taken under an identifier: the last one answers.
pub open spec fn lands(id: Seq<char>, step: ClearStep, next: Next<ClearStep>) -> bool {
    match step {
        ClearStep::Answer(result) => next matches Next::Answer(response) && response.id@ == id
            && response@ == answer_view(id, cleared_view(result)),
        _ => next matches Next::Go(parked) && parked.request_id@ == id && parked.work == step,
    }
}

fn land(request_id: String, step: ClearStep) -> (next: Next<ClearStep>)
    ensures
        lands(request_id@, step, next),
{
    match step {
        ClearStep::Answer(result) => {
            let parked = Parked { request_id, work: () };
            Next::Answer(answer_clear(&parked, result))
        },
        step => Next::Go(Parked { request_id, work: step }),
    }
}

/// What a parked clear does once something happened to it. An event that it does not
/// wait for changes nothing.
pub fn clear_next(parked: Parked<ClearStep>, event: ClearEvent) -> (next: Next<ClearStep>)
    ensures
        keeps_id(parked.request_id@, next),
        if waits_for(parked.work, event) {
            exists|step: ClearStep| #[trigger]
                follows(parked.work, event, step) && lands(parked.request_id@, step, next)
        } else {
            next == Next::Stay(parked)
        },
{
    let ghost step = parked.work;
    let ghost told = event;
    let request_id = parked.request_id;
    let after = match (parked.work, event) {
        (ClearStep::Rest { state }, ClearEvent::Pass { now_ms }) => {
            match (advance_clear(&state, false, now_ms), state) {
                (ClearAdvance::LookUpPane(_), ClearState::Settling { clear, .. }) => {
                    ClearStep::LookUp { clear }
                },
                (ClearAdvance::Get { request_id, target }, state) => ClearStep::Get {
                    request_id,
                    target,
                    state,
                },
                (_, state) => {
                    return Next::Stay(Parked { request_id, work: ClearStep::Rest { state } });
                },
            }
        },
        (ClearStep::LookUp { clear }, ClearEvent::Bound(pane)) => clear_bound(clear, pane),
        (
            ClearStep::Open { state: ClearState::Sending { clear, pane_id, work }, .. },
            ClearEvent::Opened,
        ) => clear_opened(clear, pane_id, work),
        (ClearStep::Send { .. }, ClearEvent::Unsent) => clear_unsent(),
        (ClearStep::Get { state, .. }, ClearEvent::Done(result))
        | (ClearStep::Open { state, .. }, ClearEvent::Done(result))
        | (ClearStep::Send { state, .. }, ClearEvent::Done(result)) => clear_done(state, result),
        (ClearStep::Get { .. }, ClearEvent::Failed(source))
        | (ClearStep::Open { .. }, ClearEvent::Failed(source))
        | (ClearStep::Send { .. }, ClearEvent::Failed(source)) => ClearStep::Answer(
            Err(SliceError::Herdr(source)),
        ),
        (ClearStep::Begin { clear, pane_id, .. }, ClearEvent::Begun(reply)) => clear_begun(
            clear,
            pane_id,
            reply,
        ),
        (ClearStep::Commit { clear, pane_id, work, .. }, ClearEvent::Committed(committed)) => {
            clear_committed(clear, pane_id, work, committed)
        },
        (ClearStep::Apply { .. }, ClearEvent::Applied(reply)) => clear_applied(reply),
        (ClearStep::Rotated { operation_id, pane_id, .. }, ClearEvent::Watched(reply)) => {
            clear_rotated(operation_id, pane_id, reply)
        },
        (work, _) => {
            return Next::Stay(Parked { request_id, work });
        },
    };
    assert(follows(step, told, after));
    land(request_id, after)
}

/// A clear goes in one order: settle, probe, begin, open, record, write, watch. Nothing
/// is written before its intent is recorded, and only the coordinator ends it well.
pub proof fn law_clear_goes_in_order(step: ClearStep, event: ClearEvent, after: ClearStep)
    requires
        follows(step, event, after),
    ensures
        after is LookUp ==> step matches ClearStep::Rest { state: ClearState::Settling { .. } },
        after is Begin ==> waiting_state(step) matches Some(ClearState::Probe { .. }),
        after is Open ==> step is Begin,
        after is Commit ==> step is Open,
        after is Send ==> step is Commit && (event matches ClearEvent::Committed(Ok(_))),
        after is Apply ==> waiting_state(step) matches Some(ClearState::Sending { .. }),
        after is Rotated ==> waiting_state(step) matches Some(ClearState::Rotation { .. }),
        (after matches ClearStep::Answer(Ok(_))) ==> event is Applied || event is Watched,
{
}

/// No answer of Herdr is by itself a success of a clear: only what the coordinator
/// makes of an observation is.
pub proof fn law_only_the_coordinator_ends_a_clear_well(
    state: ClearState,
    result: Result<HerdrJobResult, HerdrError>,
    step: ClearStep,
)
    requires
        follows_result(state, result, step),
    ensures
        !(step matches ClearStep::Answer(Ok(_))),
        state is Sending ==> step is Apply,
        state is Rotation ==> step is Rotated,
{
}

} // verus!
