//! A retirement that closes its pane: look, close, look again, answer.

use vstd::prelude::*;

use super::errors::{answer_view, is_wrong_answer, wrong_answer, ClientResponse, SliceError};
use super::parked::{keeps_id, Next, Parked};
use super::results::{retire_result, retire_result_view};
use super::send::{sends, Sent};
use crate::domain::{IncarnationId, OperationId};
use crate::herdr::{HerdrError, Snapshot};
use crate::herdr_exec::{FailPhase, HerdrJobResult, LeaseCmd};
use crate::json::{empty_object, text_view, Json, JsonView};

verus! {

/// A retirement before anything was looked at.
#[derive(Debug, Clone, Copy, PartialEq, Eq, Structural)]
pub struct RetirePreflight {
    pub operation_id: OperationId,
    pub incarnation_id: IncarnationId,
}

/// A pane that is to be closed, and the request that closes it.
#[derive(Debug, PartialEq, Eq)]
pub struct RetireCloseWork {
    pub operation_id: OperationId,
    pub request: String,
    pub pane: String,
}

/// Where a parked retirement stands.
#[derive(Debug, PartialEq, Eq)]
pub enum RetireState {
    /// It waits for the snapshot that tells whether the pane is still its own.
    Snapshot(RetirePreflight),
    /// It waits for its lease, then for the answer to the close.
    Closing(RetireCloseWork),
    /// It waits for the snapshot that proves the pane gone.
    Confirm(RetireCloseWork),
}

/// What the coordinator makes of the first snapshot.
#[derive(Debug, PartialEq, Eq)]
pub enum RetireAfterSnapshot {
    /// Nothing is left to close.
    Done { released: bool },
    Close(RetireCloseWork),
}

/// How a retirement ended: its operation, and whether the pane was released.
pub type Retired = (OperationId, bool);

/// What a parked retirement does next. Any lease it holds is given back first.
#[derive(Debug, PartialEq, Eq)]
pub enum RetireStep {
    /// Take a snapshot with a negotiation, and go on from that state.
    First { state: RetireState },
    /// Ask the coordinator what the snapshot proves.
    Judge { preflight: RetirePreflight, snapshot: Snapshot },
    /// Open the pane, and go on from that state.
    Open { pane: String, state: RetireState },
    /// Send that on the lease, keep the lease, and go on from that state.
    Send { cmd: LeaseCmd, state: RetireState },
    /// Take a snapshot without a negotiation, and go on from that state.
    Look { state: RetireState },
    /// Ask the coordinator what a failure means that came at or after the write,
    /// and answer with that.
    Explain { work: RetireCloseWork, source: HerdrError },
    /// Ask the coordinator to confirm the close, and answer with that.
    Confirm { work: RetireCloseWork, snapshot: Snapshot },
    /// Answer the client.
    Answer(Result<Retired, SliceError>),
}

/// Whether a step answers with an unexpected answer of Herdr.
pub open spec fn answers_wrong(step: RetireStep, text: Seq<char>) -> bool {
    step matches RetireStep::Answer(Err(error)) && is_wrong_answer(error, text)
}

/// The request that closes a pane.
pub open spec fn close_sent(work: RetireCloseWork) -> Sent {
    Sent {
        request_id: work.request@,
        method: "pane.close"@,
        params: empty_object().with("pane_id"@, text_view(work.pane@)),
        pause: "retire_after_write_before_response"@,
    }
}

/// What is sent on the open lane: the close, if the retirement still waits for
/// it. Without a request the lease is given back.
pub fn retire_opened(state: &RetireState) -> (send: Option<LeaseCmd>)
    ensures
        match (state, send) {
            (RetireState::Closing(work), Some(cmd)) => sends(cmd, close_sent(*work)),
            (RetireState::Closing(_), None) => false,
            (_, send) => send is None,
        },
{
    match state {
        RetireState::Closing(work) => Some(
            LeaseCmd::Send {
                request_id: work.request.clone(),
                method: "pane.close",
                params: Json::object().with("pane_id", Json::text(work.pane.as_str())),
                after_write_pause: "retire_after_write_before_response",
            },
        ),
        _ => None,
    }
}

/// The close could not be handed to the worker: nothing was written.
pub fn retire_unsent() -> (step: RetireStep)
    ensures
        answers_wrong(step, "herdr lease closed before retire close"@),
{
    RetireStep::Answer(Err(wrong_answer("herdr lease closed before retire close")))
}

/// Whether a step follows the result of a retirement's job.
pub open spec fn follows_result(
    state: RetireState,
    result: Result<HerdrJobResult, HerdrError>,
    step: RetireStep,
) -> bool {
    match (state, result) {
        (RetireState::Snapshot(preflight), Ok(HerdrJobResult::Snapshot(snapshot))) => step == (
        RetireStep::Judge { preflight, snapshot }),
        (RetireState::Snapshot(_), Ok(_)) => answers_wrong(
            step,
            "retire snapshot returned wrong result"@,
        ),
        (RetireState::Snapshot(_), Err(error)) => step == RetireStep::Answer(
            Err(SliceError::Herdr(error)),
        ),
        (RetireState::Closing(work), Ok(HerdrJobResult::Closed)) => step == (RetireStep::Look {
            state: RetireState::Confirm(work),
        }),
        (RetireState::Closing(_), Ok(_)) => answers_wrong(
            step,
            "retire close returned wrong result"@,
        ),
        (RetireState::Closing(work), Err(source)) => step == (RetireStep::Explain {
            work,
            source,
        }),
        (RetireState::Confirm(work), Ok(HerdrJobResult::Snapshot(snapshot))) => step == (
        RetireStep::Confirm { work, snapshot }),
        (RetireState::Confirm(_), Ok(_)) => answers_wrong(
            step,
            "retire confirmation returned wrong result"@,
        ),
        (RetireState::Confirm(work), Err(source)) => step == (RetireStep::Explain {
            work,
            source,
        }),
    }
}

/// What follows the result of a retirement's job.
pub fn retire_done(state: RetireState, result: Result<HerdrJobResult, HerdrError>) -> (step: RetireStep)
    ensures
        follows_result(state, result, step),
{
    match (state, result) {
        (RetireState::Snapshot(preflight), Ok(HerdrJobResult::Snapshot(snapshot))) => {
            RetireStep::Judge { preflight, snapshot }
        },
        (RetireState::Snapshot(_), Ok(_)) => RetireStep::Answer(
            Err(wrong_answer("retire snapshot returned wrong result")),
        ),
        (RetireState::Snapshot(_), Err(error)) => RetireStep::Answer(Err(SliceError::Herdr(error))),
        (RetireState::Closing(work), Ok(HerdrJobResult::Closed)) => RetireStep::Look {
            state: RetireState::Confirm(work),
        },
        (RetireState::Closing(_), Ok(_)) => RetireStep::Answer(
            Err(wrong_answer("retire close returned wrong result")),
        ),
        (RetireState::Closing(work), Err(source)) => RetireStep::Explain { work, source },
        (RetireState::Confirm(work), Ok(HerdrJobResult::Snapshot(snapshot))) => {
            RetireStep::Confirm { work, snapshot }
        },
        (RetireState::Confirm(_), Ok(_)) => RetireStep::Answer(
            Err(wrong_answer("retire confirmation returned wrong result")),
        ),
        (RetireState::Confirm(work), Err(source)) => RetireStep::Explain { work, source },
    }
}

/// Whether a step follows the coordinator's judgement of the first snapshot.
pub open spec fn follows_judgement(
    preflight: RetirePreflight,
    judgement: Result<RetireAfterSnapshot, SliceError>,
    step: RetireStep,
) -> bool {
    match judgement {
        Ok(RetireAfterSnapshot::Done { released }) => step == RetireStep::Answer(
            Ok((preflight.operation_id, released)),
        ),
        Ok(RetireAfterSnapshot::Close(work)) => step matches RetireStep::Open { pane, state }
            && pane@ == work.pane@ && state == RetireState::Closing(work),
        Err(error) => step == RetireStep::Answer(Err(error)),
    }
}

/// What follows the coordinator's judgement of the first snapshot.
pub fn retire_judged(
    preflight: RetirePreflight,
    judgement: Result<RetireAfterSnapshot, SliceError>,
) -> (step: RetireStep)
    ensures
        follows_judgement(preflight, judgement, step),
{
    match judgement {
        Ok(RetireAfterSnapshot::Done { released }) => RetireStep::Answer(
            Ok((preflight.operation_id, released)),
        ),
        Ok(RetireAfterSnapshot::Close(work)) => RetireStep::Open {
            pane: work.pane.clone(),
            state: RetireState::Closing(work),
        },
        Err(error) => RetireStep::Answer(Err(error)),
    }
}

/// Whether a failure came at or after the write of a request.
pub open spec fn may_be_written(phase: FailPhase) -> bool {
    phase == FailPhase::Read || phase == FailPhase::Lease
}

/// Whether a step follows the failure of a retirement's job.
pub open spec fn follows_failure(
    state: RetireState,
    phase: FailPhase,
    source: HerdrError,
    step: RetireStep,
) -> bool {
    match state {
        RetireState::Closing(work) => if may_be_written(phase) {
            step == (RetireStep::Explain { work, source })
        } else {
            step == RetireStep::Answer(Err(SliceError::Herdr(source)))
        },
        _ => step == RetireStep::Answer(Err(SliceError::Herdr(source))),
    }
}

/// What follows the failure of a retirement's job. A close that may have been
/// written is explained; before that, the failure is told as it is.
pub fn retire_failed(state: RetireState, phase: FailPhase, source: HerdrError) -> (step: RetireStep)
    ensures
        follows_failure(state, phase, source, step),
{
    match (state, phase) {
        (RetireState::Closing(work), FailPhase::Read)
        | (RetireState::Closing(work), FailPhase::Lease) => RetireStep::Explain { work, source },
        _ => RetireStep::Answer(Err(SliceError::Herdr(source))),
    }
}

/// The view of how a retirement ended.
pub open spec fn retired_view(result: Result<Retired, SliceError>) -> Result<JsonView, SliceError> {
    match result {
        Ok((operation_id, released)) => Ok(retire_result_view(operation_id, released)),
        Err(error) => Err(error),
    }
}

/// The response to a retirement.
pub fn answer_retire<W>(parked: &Parked<W>, result: Result<Retired, SliceError>) -> (response:
    ClientResponse)
    ensures
        response.id@ == parked.request_id@,
        response@ == answer_view(parked.request_id@, retired_view(result)),
{
    match result {
        Ok((operation_id, released)) => parked.answer(Ok(retire_result(operation_id, released))),
        Err(error) => parked.answer(Err(error)),
    }
}

/// What a parked retirement is told.
#[derive(Debug, PartialEq, Eq)]
pub enum RetireEvent {
    /// Its lane is open.
    Opened,
    /// Its request could not be handed to the worker.
    Unsent,
    /// Its job is over.
    Done(Result<HerdrJobResult, HerdrError>),
    /// Its job failed.
    Failed { phase: FailPhase, source: HerdrError },
    /// The coordinator judged the first snapshot.
    Judged(Result<RetireAfterSnapshot, SliceError>),
    /// The coordinator confirmed the close, or explained why it failed.
    Settled(Result<Retired, SliceError>),
}

/// The state that a retirement waits in for a worker.
pub open spec fn waiting_state(step: RetireStep) -> Option<RetireState> {
    match step {
        RetireStep::First { state } => Some(state),
        RetireStep::Open { state, .. } => Some(state),
        RetireStep::Send { state, .. } => Some(state),
        RetireStep::Look { state } => Some(state),
        _ => None,
    }
}

/// Whether a step follows another one and an event.
pub open spec fn follows(step: RetireStep, event: RetireEvent, after: RetireStep) -> bool {
    match (step, event) {
        (RetireStep::Open { state: RetireState::Closing(work), .. }, RetireEvent::Opened) => {
            after matches RetireStep::Send { cmd, state } && sends(cmd, close_sent(work)) && state
                == RetireState::Closing(work)
        },
        (RetireStep::Send { .. }, RetireEvent::Unsent) => answers_wrong(
            after,
            "herdr lease closed before retire close"@,
        ),
        (step, RetireEvent::Done(result)) => waiting_state(step) matches Some(state)
            && follows_result(state, result, after),
        (step, RetireEvent::Failed { phase, source }) => waiting_state(step) matches Some(state)
            && follows_failure(state, phase, source, after),
        (RetireStep::Judge { preflight, .. }, RetireEvent::Judged(judgement)) => follows_judgement(
            preflight,
            judgement,
            after,
        ),
        (RetireStep::Explain { .. }, RetireEvent::Settled(settled)) => after == RetireStep::Answer(
            settled,
        ),
        (RetireStep::Confirm { .. }, RetireEvent::Settled(settled)) => after == RetireStep::Answer(
            settled,
        ),
        _ => false,
    }
}

/// Whether a retirement waits for an event.
pub open spec fn waits_for(step: RetireStep, event: RetireEvent) -> bool {
    match event {
        RetireEvent::Opened => step matches RetireStep::Open { state: RetireState::Closing(_), .. },
        RetireEvent::Unsent => step is Send,
        RetireEvent::Done(_) => waiting_state(step) is Some,
        RetireEvent::Failed { .. } => waiting_state(step) is Some,
        RetireEvent::Judged(_) => step is Judge,
        RetireEvent::Settled(_) => step is Explain || step is Confirm,
    }
}

/// Whether a step is taken under an identifier: the last one answers.
pub open spec fn lands(id: Seq<char>, step: RetireStep, next: Next<RetireStep>) -> bool {
    match step {
        RetireStep::Answer(result) => next matches Next::Answer(response) && response.id@ == id
            && response@ == answer_view(id, retired_view(result)),
        _ => next matches Next::Go(parked) && parked.request_id@ == id && parked.work == step,
    }
}

fn land(request_id: String, step: RetireStep) -> (next: Next<RetireStep>)
    ensures
        lands(request_id@, step, next),
{
    match step {
        RetireStep::Answer(result) => {
            let parked = Parked { request_id, work: () };
            Next::Answer(answer_retire(&parked, result))
        },
        step => Next::Go(Parked { request_id, work: step }),
    }
}

/// What a parked retirement does once something happened to it. An event that it does
/// not wait for changes nothing.
pub fn retire_next(parked: Parked<RetireStep>, event: RetireEvent) -> (next: Next<RetireStep>)
    ensures
        keeps_id(parked.request_id@, next),
        if waits_for(parked.work, event) {
            exists|step: RetireStep| #[trigger]
                follows(parked.work, event, step) && lands(parked.request_id@, step, next)
        } else {
            next == Next::Stay(parked)
        },
{
    let ghost step = parked.work;
    let ghost told = event;
    let request_id = parked.request_id;
    let after = match (parked.work, event) {
        (RetireStep::Open { pane, state }, RetireEvent::Opened) => match retire_opened(&state) {
            Some(cmd) => RetireStep::Send { cmd, state },
            None => {
                return Next::Stay(Parked { request_id, work: RetireStep::Open { pane, state } });
            },
        },
        (RetireStep::Send { .. }, RetireEvent::Unsent) => retire_unsent(),
        (RetireStep::First { state }, RetireEvent::Done(result))
        | (RetireStep::Open { state, .. }, RetireEvent::Done(result))
        | (RetireStep::Send { state, .. }, RetireEvent::Done(result))
        | (RetireStep::Look { state }, RetireEvent::Done(result)) => retire_done(state, result),
        (RetireStep::First { state }, RetireEvent::Failed { phase, source })
        | (RetireStep::Open { state, .. }, RetireEvent::Failed { phase, source })
        | (RetireStep::Send { state, .. }, RetireEvent::Failed { phase, source })
        | (RetireStep::Look { state }, RetireEvent::Failed { phase, source }) => retire_failed(
            state,
            phase,
            source,
        ),
        (RetireStep::Judge { preflight, .. }, RetireEvent::Judged(judgement)) => retire_judged(
            preflight,
            judgement,
        ),
        (RetireStep::Explain { .. }, RetireEvent::Settled(settled))
        | (RetireStep::Confirm { .. }, RetireEvent::Settled(settled)) => RetireStep::Answer(settled),
        (work, _) => {
            return Next::Stay(Parked { request_id, work });
        },
    };
    assert(follows(step, told, after));
    land(request_id, after)
}

/// A retirement goes in one order: look, judge, open, close, look again, confirm. Only
/// the coordinator ends it well.
pub proof fn law_retirement_goes_in_order(step: RetireStep, event: RetireEvent, after: RetireStep)
    requires
        follows(step, event, after),
    ensures
        after is Judge ==> waiting_state(step) matches Some(RetireState::Snapshot(_)),
        after is Open ==> step is Judge,
        after is Send ==> step is Open && event is Opened,
        after is Look ==> waiting_state(step) matches Some(RetireState::Closing(_)),
        after is Confirm ==> waiting_state(step) matches Some(RetireState::Confirm(_)),
        (after matches RetireStep::Answer(Ok(_))) ==> event is Settled || event is Judged,
        !(after is First),
{
}

/// No answer of Herdr is by itself a success: only what the coordinator makes of a
/// snapshot is. In particular a pane counts as closed only after a look that
/// postdates the close.
pub proof fn law_only_a_snapshot_ends_a_retirement_well(
    state: RetireState,
    result: Result<HerdrJobResult, HerdrError>,
    step: RetireStep,
)
    requires
        follows_result(state, result, step),
    ensures
        !(step matches RetireStep::Answer(Ok(_))),
        state is Closing ==> !(step is Confirm),
{
}

/// A close that may have been written is never told as a plain failure.
pub proof fn law_written_close_is_explained(
    work: RetireCloseWork,
    phase: FailPhase,
    source: HerdrError,
    step: RetireStep,
)
    requires
        follows_failure(RetireState::Closing(work), phase, source, step),
        may_be_written(phase),
    ensures
        step == (RetireStep::Explain { work, source }),
{
}

} // verus!
