//! An adoption of an agent that already runs: look, rename it where its name has to
//! change, look again, answer.

use vstd::prelude::*;

use super::errors::{answer_view, is_wrong_answer, wrong_answer, ClientResponse, SliceError};
use super::parked::{keeps_id, Next, Parked};
use super::reads::ClientRequest;
use super::results::{
    adopt_result, adopt_result_view, identity_result, identity_result_view, unnamed_identity,
    unnamed_identity_view, DeclaredStart, ReadyIdentity,
};
use super::send::{rename_sent, send_rename, sends};
use crate::domain::AdoptIntent;
use crate::herdr::{HerdrError, Snapshot};
use crate::herdr_exec::{HerdrJobResult, LeaseCmd};
use crate::json::{Json, JsonView};

verus! {

/// An agent that has to be renamed before it counts as adopted.
#[derive(Debug, PartialEq, Eq)]
pub struct AdoptRename {
    pub declared: DeclaredStart,
    pub pane_id: String,
    pub public_name: String,
}

/// What a client waits for with an adoption.
#[derive(Debug, Clone, Copy, PartialEq, Eq, Structural)]
pub enum AdoptReply {
    /// The adoption itself.
    Rpc,
    /// Who it is.
    Whoami,
    /// Who it is, in full.
    Who { refresh: bool },
}

/// Where a parked adoption stands.
#[derive(Debug, PartialEq, Eq)]
pub enum AdoptState {
    /// It waits for the snapshot that shows the agent.
    Snapshot(AdoptIntent),
    /// It waits for its lease; once `request_id` is set, its rename is recorded.
    Renaming { work: AdoptRename, request_id: Option<String> },
    /// It waits for the snapshot that shows the new name.
    Confirm(AdoptRename),
}

/// What the coordinator makes of a snapshot.
#[derive(Debug, PartialEq, Eq)]
pub enum AdoptAfterSnapshot {
    /// The agent is adopted.
    Ready(DeclaredStart),
    /// It has to be renamed first.
    Rename(AdoptRename),
}

/// What a parked adoption does next. After a result or a failure any lease it
/// holds is given back first.
#[derive(Debug, PartialEq, Eq)]
pub enum AdoptStep {
    /// Take a snapshot with a negotiation, and go on from that state.
    First { state: AdoptState },
    /// Ask the coordinator what the snapshot shows of the intent.
    Judge { intent: AdoptIntent, snapshot: Snapshot },
    /// Open the pane, and go on from that state.
    Open { pane: String, state: AdoptState },
    /// Ask the coordinator to record the intent to rename.
    Submit { work: AdoptRename },
    /// Send that on the lease, keep the lease, and go on from that state.
    Send { cmd: LeaseCmd, state: AdoptState },
    /// Take a snapshot without a negotiation, and go on from that state.
    Look { state: AdoptState },
    /// Ask the coordinator to record a failed rename, and answer with what it makes
    /// of it.
    RenameFailed { declared: DeclaredStart, source: HerdrError },
    /// Ask the coordinator to record a failed confirmation, and answer with what it
    /// makes of it.
    ConfirmFailed { declared: DeclaredStart, source: HerdrError },
    /// Ask the coordinator to accept the confirmation.
    Accept { work: AdoptRename, snapshot: Snapshot },
    /// Refresh the attribution from the snapshot where asked, and answer with who the
    /// agent is, in full.
    Tell { created: DeclaredStart, refresh: bool, snapshot: Snapshot },
    /// The adoption ended.
    Finish(Result<DeclaredStart, SliceError>),
    /// Give the lease back: nobody needs it.
    GiveBack,
}

/// Whether a step ends with an unexpected answer of Herdr.
pub open spec fn ends_wrong(step: AdoptStep, text: Seq<char>) -> bool {
    step matches AdoptStep::Finish(Err(error)) && is_wrong_answer(error, text)
}

/// Whether a failure is an unexpected answer of that kind.
pub open spec fn is_unexpected_source(source: HerdrError, text: Seq<char>) -> bool {
    source matches HerdrError::Unexpected(message) && message@ == text
}

/// What follows an open lane: the intent to rename is recorded before anything is
/// sent.
pub fn adopt_opened(state: AdoptState) -> (step: AdoptStep)
    ensures
        step == match state {
            AdoptState::Renaming { work, .. } => AdoptStep::Submit { work },
            _ => AdoptStep::GiveBack,
        },
{
    match state {
        AdoptState::Renaming { work, .. } => AdoptStep::Submit { work },
        _ => AdoptStep::GiveBack,
    }
}

/// Whether a step follows the recording of the intent.
pub open spec fn follows_submission(
    work: AdoptRename,
    submitted: Result<String, SliceError>,
    step: AdoptStep,
) -> bool {
    match submitted {
        Ok(intent_id) => step matches AdoptStep::Send { cmd, state } && sends(
            cmd,
            rename_sent(
                intent_id@,
                work.pane_id@,
                work.public_name@,
                "adopt_rename_after_write_before_response"@,
            ),
        ) && state == (AdoptState::Renaming { work, request_id: Some(intent_id) }),
        Err(error) => step == AdoptStep::Finish(Err(error)),
    }
}

/// What follows the recording of the intent: its request goes out, or the lease is
/// given back and the adoption ends.
pub fn adopt_submitted(work: AdoptRename, submitted: Result<String, SliceError>) -> (step: AdoptStep)
    ensures
        follows_submission(work, submitted, step),
{
    match submitted {
        Ok(intent_id) => AdoptStep::Send {
            cmd: send_rename(
                intent_id.as_str(),
                work.pane_id.as_str(),
                work.public_name.as_str(),
                "adopt_rename_after_write_before_response",
            ),
            state: AdoptState::Renaming { work, request_id: Some(intent_id) },
        },
        Err(error) => AdoptStep::Finish(Err(error)),
    }
}

/// Whether a step follows a recorded rename that could not be handed to the worker.
pub open spec fn follows_unsent(declared: DeclaredStart, step: AdoptStep) -> bool {
    step matches AdoptStep::RenameFailed { declared: d, source } && d == declared
        && is_unexpected_source(source, "herdr lease closed before adopt rename"@)
}

/// The recorded rename could not be handed to the worker.
pub fn adopt_unsent(declared: DeclaredStart) -> (step: AdoptStep)
    ensures
        follows_unsent(declared, step),
{
    AdoptStep::RenameFailed {
        declared,
        source: HerdrError::Unexpected("herdr lease closed before adopt rename".to_owned()),
    }
}

/// Whether a step follows the result of an adoption's job.
pub open spec fn follows_result(
    state: AdoptState,
    result: Result<HerdrJobResult, HerdrError>,
    step: AdoptStep,
) -> bool {
    match (state, result) {
        (AdoptState::Snapshot(intent), Ok(HerdrJobResult::Snapshot(snapshot))) => step == (
        AdoptStep::Judge { intent, snapshot }),
        (AdoptState::Snapshot(_), Ok(_)) => ends_wrong(
            step,
            "adopt snapshot returned the wrong Herdr result"@,
        ),
        (AdoptState::Snapshot(_), Err(error)) => step == AdoptStep::Finish(
            Err(SliceError::Herdr(error)),
        ),
        (AdoptState::Renaming { work, .. }, Ok(HerdrJobResult::Agent(_))) => step == (
        AdoptStep::Look { state: AdoptState::Confirm(work) }),
        (AdoptState::Renaming { work, .. }, Ok(_)) => step matches AdoptStep::RenameFailed {
            declared,
            source,
        } && declared == work.declared && is_unexpected_source(
            source,
            "adopt rename returned a non-agent result"@,
        ),
        (AdoptState::Renaming { work, .. }, Err(source)) => step == (AdoptStep::RenameFailed {
            declared: work.declared,
            source,
        }),
        (AdoptState::Confirm(work), Ok(HerdrJobResult::Snapshot(snapshot))) => step == (
        AdoptStep::Accept { work, snapshot }),
        (AdoptState::Confirm(work), Ok(_)) => step matches AdoptStep::ConfirmFailed {
            declared,
            source,
        } && declared == work.declared && is_unexpected_source(
            source,
            "adopt confirm returned a non-snapshot result"@,
        ),
        (AdoptState::Confirm(work), Err(source)) => step == (AdoptStep::ConfirmFailed {
            declared: work.declared,
            source,
        }),
    }
}

/// What follows the result of an adoption's job.
pub fn adopt_done(state: AdoptState, result: Result<HerdrJobResult, HerdrError>) -> (step: AdoptStep)
    ensures
        follows_result(state, result, step),
{
    match (state, result) {
        (AdoptState::Snapshot(intent), Ok(HerdrJobResult::Snapshot(snapshot))) => AdoptStep::Judge {
            intent,
            snapshot,
        },
        (AdoptState::Snapshot(_), Ok(_)) => AdoptStep::Finish(
            Err(wrong_answer("adopt snapshot returned the wrong Herdr result")),
        ),
        (AdoptState::Snapshot(_), Err(error)) => AdoptStep::Finish(Err(SliceError::Herdr(error))),
        (AdoptState::Renaming { work, .. }, Ok(HerdrJobResult::Agent(_))) => AdoptStep::Look {
            state: AdoptState::Confirm(work),
        },
        (AdoptState::Renaming { work, .. }, Ok(_)) => AdoptStep::RenameFailed {
            declared: work.declared,
            source: HerdrError::Unexpected("adopt rename returned a non-agent result".to_owned()),
        },
        (AdoptState::Renaming { work, .. }, Err(source)) => AdoptStep::RenameFailed {
            declared: work.declared,
            source,
        },
        (AdoptState::Confirm(work), Ok(HerdrJobResult::Snapshot(snapshot))) => AdoptStep::Accept {
            work,
            snapshot,
        },
        (AdoptState::Confirm(work), Ok(_)) => AdoptStep::ConfirmFailed {
            declared: work.declared,
            source: HerdrError::Unexpected(
                "adopt confirm returned a non-snapshot result".to_owned(),
            ),
        },
        (AdoptState::Confirm(work), Err(source)) => AdoptStep::ConfirmFailed {
            declared: work.declared,
            source,
        },
    }
}

/// Whether a step opens the pane of an agent that has to be renamed first.
pub open spec fn opens_rename(work: AdoptRename, step: AdoptStep) -> bool {
    step matches AdoptStep::Open { pane, state } && pane@ == work.pane_id@ && state == (
    AdoptState::Renaming { work, request_id: None })
}

/// An agent that has to be renamed first: its pane is opened.
pub fn adopt_rename(work: AdoptRename) -> (step: AdoptStep)
    ensures
        opens_rename(work, step),
{
    AdoptStep::Open {
        pane: work.pane_id.clone(),
        state: AdoptState::Renaming { work, request_id: None },
    }
}

/// Whether a step follows the coordinator's judgement of a snapshot.
pub open spec fn follows_judgement(
    judgement: Result<AdoptAfterSnapshot, SliceError>,
    step: AdoptStep,
) -> bool {
    match judgement {
        Ok(AdoptAfterSnapshot::Ready(created)) => step == AdoptStep::Finish(Ok(created)),
        Ok(AdoptAfterSnapshot::Rename(work)) => opens_rename(work, step),
        Err(error) => step == AdoptStep::Finish(Err(error)),
    }
}

/// What follows the coordinator's judgement of a snapshot.
pub fn adopt_judged(judgement: Result<AdoptAfterSnapshot, SliceError>) -> (step: AdoptStep)
    ensures
        follows_judgement(judgement, step),
{
    match judgement {
        Ok(AdoptAfterSnapshot::Ready(created)) => AdoptStep::Finish(Ok(created)),
        Ok(AdoptAfterSnapshot::Rename(work)) => adopt_rename(work),
        Err(error) => AdoptStep::Finish(Err(error)),
    }
}

/// What follows the failure of an adoption's job.
pub open spec fn after_failure(state: AdoptState, source: HerdrError) -> AdoptStep {
    match state {
        AdoptState::Snapshot(_) => AdoptStep::Finish(Err(SliceError::Herdr(source))),
        AdoptState::Renaming { work, request_id } => if request_id is Some {
            AdoptStep::RenameFailed { declared: work.declared, source }
        } else {
            AdoptStep::Finish(Err(SliceError::Herdr(source)))
        },
        AdoptState::Confirm(work) => AdoptStep::ConfirmFailed { declared: work.declared, source },
    }
}

/// What follows the failure of an adoption's job. A rename that was recorded, and
/// one that waits for its confirmation, are settled with the coordinator.
pub fn adopt_failed(state: AdoptState, source: HerdrError) -> (step: AdoptStep)
    ensures
        step == after_failure(state, source),
{
    match state {
        AdoptState::Snapshot(_) => AdoptStep::Finish(Err(SliceError::Herdr(source))),
        AdoptState::Renaming { work, request_id } => match request_id {
            Some(_) => AdoptStep::RenameFailed { declared: work.declared, source },
            None => AdoptStep::Finish(Err(SliceError::Herdr(source))),
        },
        AdoptState::Confirm(work) => AdoptStep::ConfirmFailed { declared: work.declared, source },
    }
}

/// What a client is told of an adoption that nothing waits behind. `identity` is
/// who the pane's agent is, where that can be read back.
pub fn answer_adopt(
    reply: AdoptReply,
    created: Result<DeclaredStart, SliceError>,
    identity: &Option<ReadyIdentity>,
) -> (r: Result<Json, SliceError>)
    ensures
        match (reply, created) {
            (_, Err(error)) => r == Err::<Json, SliceError>(error),
            (AdoptReply::Rpc, Ok(created)) => r matches Ok(value) && value@ == adopt_result_view(
                created,
            ),
            (AdoptReply::Whoami, Ok(created)) => r matches Ok(value) && value@ == match *identity {
                Some(identity) => identity_result_view(identity),
                None => unnamed_identity_view(created),
            },
            (AdoptReply::Who { .. }, Ok(_)) => r matches Err(error) && is_wrong_answer(
                error,
                "who adoption completed without its confirming snapshot"@,
            ),
        },
{
    match (reply, created) {
        (_, Err(error)) => Err(error),
        (AdoptReply::Rpc, Ok(created)) => Ok(adopt_result(created)),
        (AdoptReply::Whoami, Ok(created)) => match identity {
            Some(identity) => Ok(identity_result(identity)),
            None => Ok(unnamed_identity(created)),
        },
        (AdoptReply::Who { .. }, Ok(_)) => Err(
            wrong_answer("who adoption completed without its confirming snapshot"),
        ),
    }
}

/// A rename that an adoption recorded never fails silently: the coordinator is
/// told of it.
pub proof fn law_recorded_adoption_is_settled(
    work: AdoptRename,
    request_id: String,
    result: Result<HerdrJobResult, HerdrError>,
    step: AdoptStep,
)
    requires
        follows_result(
            (AdoptState::Renaming { work, request_id: Some(request_id) }),
            result,
            step,
        ),
    ensures
        step is Look || (step matches AdoptStep::RenameFailed { declared, .. } && declared
            == work.declared),
{
}

/// What follows a finished adoption.
#[derive(Debug, PartialEq, Eq)]
pub enum AdoptEnd {
    /// Tell in full who the agent is, after a refresh where one is asked for.
    Who { created: DeclaredStart, refresh: bool },
    /// The adoption ended.
    Finish(Result<DeclaredStart, SliceError>),
}

/// What follows the coordinator's acceptance of a confirmed adoption: a client
/// that asked who it is gets the full answer, from the confirming snapshot.
pub fn adopt_accepted(reply: AdoptReply, accepted: Result<DeclaredStart, SliceError>) -> (end: AdoptEnd)
    ensures
        end == match (accepted, reply) {
            (Ok(created), AdoptReply::Who { refresh }) => AdoptEnd::Who { created, refresh },
            (accepted, _) => AdoptEnd::Finish(accepted),
        },
{
    match (accepted, reply) {
        (Ok(created), AdoptReply::Who { refresh }) => AdoptEnd::Who { created, refresh },
        (accepted, _) => AdoptEnd::Finish(accepted),
    }
}

/// A parked adoption: what its client waits for, the request that goes on after it, and
/// the pane it is about.
#[derive(Debug, PartialEq, Eq)]
pub struct AdoptFlow {
    pub reply: AdoptReply,
    pub resume: Option<ClientRequest>,
    pub pane: String,
    pub step: AdoptStep,
}

/// An adoption that nothing is known of yet.
pub fn new_adopt(intent: AdoptIntent) -> (flow: AdoptFlow)
    ensures
        flow.reply == AdoptReply::Rpc,
        flow.resume is None,
        flow.pane@ == intent.pane_id@,
        flow.step == (AdoptStep::First { state: AdoptState::Snapshot(intent) }),
{
    AdoptFlow {
        reply: AdoptReply::Rpc,
        resume: None,
        pane: intent.pane_id.clone(),
        step: AdoptStep::First { state: AdoptState::Snapshot(intent) },
    }
}

/// An adoption that a look found to need a rename.
pub fn renaming_adopt(reply: AdoptReply, resume: Option<ClientRequest>, work: AdoptRename) -> (flow:
    AdoptFlow)
    ensures
        flow.reply == reply,
        flow.resume == resume,
        flow.pane@ == work.pane_id@,
        opens_rename(work, flow.step),
{
    AdoptFlow { reply, resume, pane: work.pane_id.clone(), step: adopt_rename(work) }
}

/// What a parked adoption is told.
#[derive(Debug, PartialEq, Eq)]
pub enum AdoptEvent {
    /// Its lane is open.
    Opened,
    /// Its request could not be handed to the worker.
    Unsent,
    /// Its job is over.
    Done(Result<HerdrJobResult, HerdrError>),
    /// Its job failed.
    Failed(HerdrError),
    /// The coordinator judged the snapshot.
    Judged(Result<AdoptAfterSnapshot, SliceError>),
    /// The coordinator recorded the intent to rename, under that identifier.
    Submitted(Result<String, SliceError>),
    /// The coordinator recorded a failure, and makes that of it.
    Explained(SliceError),
    /// The coordinator looked at the confirmation.
    Accepted(Result<DeclaredStart, SliceError>),
}

/// The state that an adoption waits in for a worker.
pub open spec fn waiting_state(step: AdoptStep) -> Option<AdoptState> {
    match step {
        AdoptStep::First { state } => Some(state),
        AdoptStep::Open { state, .. } => Some(state),
        AdoptStep::Send { state, .. } => Some(state),
        AdoptStep::Look { state } => Some(state),
        _ => None,
    }
}

/// What follows the coordinator's acceptance of a confirmed adoption.
pub open spec fn after_acceptance(
    reply: AdoptReply,
    snapshot: Snapshot,
    accepted: Result<DeclaredStart, SliceError>,
) -> AdoptStep {
    match (accepted, reply) {
        (Ok(created), AdoptReply::Who { refresh }) => AdoptStep::Tell { created, refresh, snapshot },
        (accepted, _) => AdoptStep::Finish(accepted),
    }
}

/// Whether a step follows another one and an event.
pub open spec fn follows(
    reply: AdoptReply,
    step: AdoptStep,
    event: AdoptEvent,
    after: AdoptStep,
) -> bool {
    match (step, event) {
        (AdoptStep::Open { state: AdoptState::Renaming { work, .. }, .. }, AdoptEvent::Opened) => {
            after == (AdoptStep::Submit { work })
        },
        (AdoptStep::Send { state: AdoptState::Renaming { work, .. }, .. }, AdoptEvent::Unsent) => {
            follows_unsent(work.declared, after)
        },
        (step, AdoptEvent::Done(result)) => waiting_state(step) matches Some(state)
            && follows_result(state, result, after),
        (step, AdoptEvent::Failed(source)) => waiting_state(step) matches Some(state) && after
            == after_failure(state, source),
        (AdoptStep::Judge { .. }, AdoptEvent::Judged(judgement)) => follows_judgement(
            judgement,
            after,
        ),
        (AdoptStep::Submit { work }, AdoptEvent::Submitted(submitted)) => follows_submission(
            work,
            submitted,
            after,
        ),
        (AdoptStep::RenameFailed { .. }, AdoptEvent::Explained(error)) => after
            == AdoptStep::Finish(Err(error)),
        (AdoptStep::ConfirmFailed { .. }, AdoptEvent::Explained(error)) => after
            == AdoptStep::Finish(Err(error)),
        (AdoptStep::Accept { snapshot, .. }, AdoptEvent::Accepted(accepted)) => after
            == after_acceptance(reply, snapshot, accepted),
        _ => false,
    }
}

/// Whether an adoption waits for an event.
pub open spec fn waits_for(step: AdoptStep, event: AdoptEvent) -> bool {
    match event {
        AdoptEvent::Opened => step matches AdoptStep::Open {
            state: AdoptState::Renaming { .. },
            ..
        },
        AdoptEvent::Unsent => step matches AdoptStep::Send {
            state: AdoptState::Renaming { .. },
            ..
        },
        AdoptEvent::Done(_) => waiting_state(step) is Some,
        AdoptEvent::Failed(_) => waiting_state(step) is Some,
        AdoptEvent::Judged(_) => step is Judge,
        AdoptEvent::Submitted(_) => step is Submit,
        AdoptEvent::Explained(_) => step is RenameFailed || step is ConfirmFailed,
        AdoptEvent::Accepted(_) => step is Accept,
    }
}

/// The pane that an adoption is about after a step: a rename names it anew.
pub open spec fn pane_after(pane: Seq<char>, step: AdoptStep) -> Seq<char> {
    match step {
        AdoptStep::Open { pane, .. } => pane@,
        _ => pane,
    }
}

/// Whether a step of a flow is taken under an identifier: a failure answers.
pub open spec fn lands(
    id: Seq<char>,
    flow: AdoptFlow,
    step: AdoptStep,
    next: Next<AdoptFlow>,
) -> bool {
    match step {
        AdoptStep::Finish(Err(error)) => next matches Next::Answer(response) && response.id@ == id
            && response@ == answer_view(id, Err(error)),
        _ => next matches Next::Go(parked) && parked.request_id@ == id && parked.work.step == step
            && parked.work.reply == flow.reply && parked.work.resume == flow.resume
            && parked.work.pane@ == pane_after(flow.pane@, step),
    }
}

fn land(
    request_id: String,
    reply: AdoptReply,
    resume: Option<ClientRequest>,
    pane: String,
    step: AdoptStep,
) -> (next: Next<AdoptFlow>)
    ensures
        forall|flow: AdoptFlow|
            flow.reply == reply && flow.resume == resume && flow.pane@ == pane@
                ==> #[trigger] lands(request_id@, flow, step, next),
{
    match step {
        AdoptStep::Finish(Err(error)) => {
            let parked = Parked { request_id, work: () };
            Next::Answer(parked.answer(Err(error)))
        },
        AdoptStep::Open { pane: opened, state } => Next::Go(
            Parked {
                request_id,
                work: AdoptFlow {
                    reply,
                    resume,
                    pane: opened.clone(),
                    step: AdoptStep::Open { pane: opened, state },
                },
            },
        ),
        step => Next::Go(Parked { request_id, work: AdoptFlow { reply, resume, pane, step } }),
    }
}

/// What a parked adoption does once something happened to it. An event that it does not
/// wait for changes nothing.
pub fn adopt_next(parked: Parked<AdoptFlow>, event: AdoptEvent) -> (next: Next<AdoptFlow>)
    ensures
        keeps_id(parked.request_id@, next),
        if waits_for(parked.work.step, event) {
            exists|step: AdoptStep| #[trigger]
                follows(parked.work.reply, parked.work.step, event, step) && lands(
                    parked.request_id@,
                    parked.work,
                    step,
                    next,
                )
        } else {
            next == Next::Stay(parked)
        },
{
    let ghost flow = parked.work;
    let ghost told = event;
    let request_id = parked.request_id;
    let AdoptFlow { reply, resume, pane, step } = parked.work;
    let after = match (step, event) {
        (
            AdoptStep::Open { state: AdoptState::Renaming { work, request_id }, .. },
            AdoptEvent::Opened,
        ) => adopt_opened(AdoptState::Renaming { work, request_id }),
        (AdoptStep::Send { state: AdoptState::Renaming { work, .. }, .. }, AdoptEvent::Unsent) => {
            adopt_unsent(work.declared)
        },
        (AdoptStep::First { state }, AdoptEvent::Done(result))
        | (AdoptStep::Open { state, .. }, AdoptEvent::Done(result))
        | (AdoptStep::Send { state, .. }, AdoptEvent::Done(result))
        | (AdoptStep::Look { state }, AdoptEvent::Done(result)) => adopt_done(state, result),
        (AdoptStep::First { state }, AdoptEvent::Failed(source))
        | (AdoptStep::Open { state, .. }, AdoptEvent::Failed(source))
        | (AdoptStep::Send { state, .. }, AdoptEvent::Failed(source))
        | (AdoptStep::Look { state }, AdoptEvent::Failed(source)) => adopt_failed(state, source),
        (AdoptStep::Judge { .. }, AdoptEvent::Judged(judgement)) => adopt_judged(judgement),
        (AdoptStep::Submit { work }, AdoptEvent::Submitted(submitted)) => adopt_submitted(
            work,
            submitted,
        ),
        (AdoptStep::RenameFailed { .. }, AdoptEvent::Explained(error))
        | (AdoptStep::ConfirmFailed { .. }, AdoptEvent::Explained(error)) => AdoptStep::Finish(
            Err(error),
        ),
        (AdoptStep::Accept { snapshot, .. }, AdoptEvent::Accepted(accepted)) => {
            match adopt_accepted(reply, accepted) {
                AdoptEnd::Who { created, refresh } => AdoptStep::Tell { created, refresh, snapshot },
                AdoptEnd::Finish(accepted) => AdoptStep::Finish(accepted),
            }
        },
        (step, _) => {
            return Next::Stay(
                Parked { request_id, work: AdoptFlow { reply, resume, pane, step } },
            );
        },
    };
    assert(follows(flow.reply, flow.step, told, after));
    let next = land(request_id, reply, resume, pane, after);
    assert(lands(request_id@, flow, after, next));
    next
}

/// What a finished adoption leads to, where a request may wait behind it.
#[derive(Debug, PartialEq, Eq)]
pub enum AdoptAnswer {
    /// Go on with the request that waited for the adoption.
    Resume(ClientRequest),
    /// Answer the client with that.
    Answer(ClientResponse),
    /// The adoption is not over.
    Stay(Parked<AdoptFlow>),
}

/// What an adopted agent is told as, to a client that nothing waits behind.
pub open spec fn adopted_view(
    reply: AdoptReply,
    created: DeclaredStart,
    identity: Option<ReadyIdentity>,
) -> Option<JsonView> {
    match reply {
        AdoptReply::Rpc => Some(adopt_result_view(created)),
        AdoptReply::Whoami => Some(
            match identity {
                Some(identity) => identity_result_view(identity),
                None => unnamed_identity_view(created),
            },
        ),
        AdoptReply::Who { .. } => None,
    }
}

/// What a finished adoption leads to: a request that waited for it goes on; else the
/// client is answered. `identity` is who the pane's agent is, where that can be read
/// back.
pub fn finish_adopt(parked: Parked<AdoptFlow>, identity: &Option<ReadyIdentity>) -> (answer:
    AdoptAnswer)
    ensures
        match parked.work.step {
            AdoptStep::Finish(Ok(created)) => match parked.work.resume {
                Some(request) => answer == AdoptAnswer::Resume(request),
                None => answer matches AdoptAnswer::Answer(response) && response.id@
                    == parked.request_id@ && match adopted_view(
                    parked.work.reply,
                    created,
                    *identity,
                ) {
                    Some(view) => response@ == answer_view(parked.request_id@, Ok(view)),
                    None => exists|error: SliceError|
                        is_wrong_answer(
                            error,
                            "who adoption completed without its confirming snapshot"@,
                        ) && response@ == #[trigger] answer_view(parked.request_id@, Err(error)),
                },
            },
            AdoptStep::Finish(Err(error)) => answer matches AdoptAnswer::Answer(response)
                && response.id@ == parked.request_id@ && response@ == answer_view(
                parked.request_id@,
                Err(error),
            ),
            _ => answer == AdoptAnswer::Stay(parked),
        },
{
    let request_id = parked.request_id;
    let AdoptFlow { reply, resume, pane, step } = parked.work;
    match step {
        AdoptStep::Finish(Ok(created)) => match resume {
            Some(request) => AdoptAnswer::Resume(request),
            None => {
                let result = answer_adopt(reply, Ok(created), identity);
                let ghost told = result;
                let response = Parked { request_id, work: () }.answer(result);
                proof {
                    if let Err(error) = told {
                        assert(response@ == answer_view(request_id@, Err(error)));
                    }
                }
                AdoptAnswer::Answer(response)
            },
        },
        AdoptStep::Finish(Err(error)) => AdoptAnswer::Answer(
            Parked { request_id, work: () }.answer(Err(error)),
        ),
        step => AdoptAnswer::Stay(
            Parked { request_id, work: AdoptFlow { reply, resume, pane, step } },
        ),
    }
}

/// An adoption goes in one order: look, judge, open, record, write, look again, accept.
/// Nothing is written before its intent is recorded, and only the coordinator ends it
/// well.
pub proof fn law_adoption_goes_in_order(
    reply: AdoptReply,
    step: AdoptStep,
    event: AdoptEvent,
    after: AdoptStep,
)
    requires
        follows(reply, step, event, after),
    ensures
        after is Judge ==> waiting_state(step) matches Some(AdoptState::Snapshot(_)),
        after is Open ==> step is Judge,
        after is Submit ==> step is Open,
        after is Send ==> step is Submit && (event matches AdoptEvent::Submitted(Ok(_))),
        after is Look ==> waiting_state(step) matches Some(AdoptState::Renaming { .. }),
        after is Accept ==> waiting_state(step) matches Some(AdoptState::Confirm(_)),
        (after matches AdoptStep::Finish(Ok(_))) || after is Tell ==> event is Judged || event
            is Accepted,
        !(after is First) && !(after is GiveBack),
{
}

} // verus!
