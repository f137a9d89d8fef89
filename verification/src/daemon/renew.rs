//! The cycles of renews: which of them may move, and how one goes through its
//! clear, its rotation and its injection.

use vstd::prelude::*;

use super::errors::{SliceError, StoreError};
use super::send::{prompt_sent, send_prompt, sends, Sent};
use crate::domain::{uuid_text, IncarnationId, RenewId, RenewPhase};
use crate::herdr::{AgentObservation, HerdrError};
use crate::herdr_exec::{HerdrJobResult, LeaseCmd};

verus! {

/// One renew that may have something to do.
#[derive(Debug, PartialEq, Eq)]
pub struct DueRenew {
    pub renew_id: RenewId,
    pub incarnation_id: IncarnationId,
    pub pane_id: String,
    pub phase: RenewPhase,
    /// From when on an injected prompt can be confirmed, once it was injected.
    pub inject_not_before_ms: Option<i64>,
}

/// What the coordinator is asked about a renew.
#[derive(Debug, PartialEq, Eq)]
pub enum RenewAsk {
    /// Whether prompts to the incarnation are far enough apart; then to prepare it.
    Spacing,
    /// To move it on by itself.
    Advance,
    /// Whether its pane may be probed for the clear.
    ReadyToProbe,
    /// Nothing: what happens is settled.
    Settled(RenewVerdict),
}

/// What the coordinator is asked about a renew. One that is parked already is left
/// alone.
pub open spec fn ask_of(item: DueRenew, parked: bool) -> RenewAsk {
    if parked {
        RenewAsk::Settled(RenewVerdict::Next { moved: false })
    } else {
        match item.phase {
            RenewPhase::Scheduled => RenewAsk::Spacing,
            RenewPhase::Preparing => RenewAsk::Advance,
            RenewPhase::TimedOut => RenewAsk::Advance,
            RenewPhase::Ready => RenewAsk::ReadyToProbe,
            RenewPhase::Clearing => RenewAsk::Settled(RenewVerdict::ParkRotation),
            RenewPhase::Injected => if item.inject_not_before_ms is None {
                RenewAsk::Advance
            } else {
                RenewAsk::Settled(RenewVerdict::ParkConfirm)
            },
            RenewPhase::Done => RenewAsk::Settled(RenewVerdict::Next { moved: false }),
            RenewPhase::Aborted => RenewAsk::Settled(RenewVerdict::Next { moved: false }),
            RenewPhase::Terminated => RenewAsk::Settled(RenewVerdict::Next { moved: false }),
        }
    }
}

/// Decide what the coordinator is asked about a renew.
pub fn renew_ask(item: &DueRenew, parked: bool) -> (ask: RenewAsk)
    ensures
        ask == ask_of(*item, parked),
{
    if parked {
        return RenewAsk::Settled(RenewVerdict::Next { moved: false });
    }
    match item.phase {
        RenewPhase::Scheduled => RenewAsk::Spacing,
        RenewPhase::Preparing | RenewPhase::TimedOut => RenewAsk::Advance,
        RenewPhase::Ready => RenewAsk::ReadyToProbe,
        RenewPhase::Clearing => RenewAsk::Settled(RenewVerdict::ParkRotation),
        RenewPhase::Injected => if item.inject_not_before_ms.is_none() {
            RenewAsk::Advance
        } else {
            RenewAsk::Settled(RenewVerdict::ParkConfirm)
        },
        RenewPhase::Done | RenewPhase::Aborted | RenewPhase::Terminated => RenewAsk::Settled(
            RenewVerdict::Next { moved: false },
        ),
    }
}

/// Whether an error of one renew is passed over: another pass may do better.
pub open spec fn is_passed_over(error: SliceError) -> bool {
    match error {
        SliceError::Herdr(_) => true,
        SliceError::UnknownOutcome { .. } => true,
        SliceError::UnsupportedBackend { .. } => true,
        SliceError::Store(StoreError::Conflict(_)) => true,
        _ => false,
    }
}

/// Whether an error of one renew is passed over.
pub fn renew_drive_skips(error: &SliceError) -> (r: bool)
    ensures
        r == is_passed_over(*error),
{
    match error {
        SliceError::Herdr(_) | SliceError::UnknownOutcome { .. }
        | SliceError::UnsupportedBackend { .. } | SliceError::Store(StoreError::Conflict(_)) => true,
        _ => false,
    }
}

/// What the operator is told of a failed drive.
pub open spec fn drive_notice(error: SliceError) -> Seq<char> {
    "renew drive failed: "@ + error.text()
}

/// What the operator is told of a failed drive.
pub fn note_renew_drive_error(error: &SliceError) -> (notice: String)
    ensures
        notice@ == drive_notice(*error),
{
    "renew drive failed: ".to_owned().concat(error.message().as_str())
}

/// What follows the coordinator's word on one renew.
#[derive(Debug, PartialEq, Eq)]
pub enum RenewVerdict {
    /// Go on with the next renew; whether this one moved.
    Next { moved: bool },
    /// Ask the coordinator to prepare it.
    Prepare,
    /// Park its prompt, and go on.
    ParkPrompt,
    /// Park it to probe its pane, and go on.
    ParkProbe,
    /// Park it to watch for the rotation, and go on.
    ParkRotation,
    /// Park it to confirm the injection, and go on.
    ParkConfirm,
    /// Tell the operator, and go on.
    NoteAndNext(String),
    /// Tell the operator, and leave the rest for another pass.
    NoteAndStop(String),
}

/// What the operator is told when the renews that have ended could not be marked so:
/// then nothing is driven in this pass.
pub fn renews_terminated(reply: &Result<(), SliceError>) -> (notice: Option<String>)
    ensures
        match reply {
            Ok(()) => notice is None,
            Err(error) => notice matches Some(notice) && notice@ == drive_notice(*error),
        },
{
    match reply {
        Ok(()) => None,
        Err(error) => Some(note_renew_drive_error(error)),
    }
}

/// What the operator is told when the renews could not be listed: then nothing is
/// driven in this pass.
pub fn renews_unlisted(error: &StoreError) -> (notice: String)
    ensures
        notice@ == "renew drive failed: "@ + error.text(),
{
    "renew drive failed: ".to_owned().concat(error.message().as_str())
}

/// What an error of one renew leads to.
pub open spec fn verdict_on_error(error: SliceError, verdict: RenewVerdict) -> bool {
    if is_passed_over(error) {
        verdict == (RenewVerdict::Next { moved: false })
    } else {
        verdict matches RenewVerdict::NoteAndStop(notice) && notice@ == drive_notice(error)
    }
}

fn on_error(error: &SliceError) -> (verdict: RenewVerdict)
    ensures
        verdict_on_error(*error, verdict),
{
    if renew_drive_skips(error) {
        RenewVerdict::Next { moved: false }
    } else {
        RenewVerdict::NoteAndStop(note_renew_drive_error(error))
    }
}

/// What follows the word on the spacing of prompts. A failure of this look does not
/// hold up the others.
pub fn renew_spacing(active: Result<bool, SliceError>) -> (verdict: RenewVerdict)
    ensures
        match active {
            Ok(true) => verdict == (RenewVerdict::Next { moved: false }),
            Ok(false) => verdict == RenewVerdict::Prepare,
            Err(error) => verdict matches RenewVerdict::NoteAndNext(notice) && notice@
                == drive_notice(error),
        },
{
    match active {
        Ok(true) => RenewVerdict::Next { moved: false },
        Ok(false) => RenewVerdict::Prepare,
        Err(error) => RenewVerdict::NoteAndNext(note_renew_drive_error(&error)),
    }
}

/// What follows the preparation of a renew.
pub fn renew_prepared(prepared: Result<(), SliceError>) -> (verdict: RenewVerdict)
    ensures
        match prepared {
            Ok(()) => verdict == RenewVerdict::ParkPrompt,
            Err(error) => verdict_on_error(error, verdict),
        },
{
    match prepared {
        Ok(()) => RenewVerdict::ParkPrompt,
        Err(error) => on_error(&error),
    }
}

/// What follows a renew that moved on by itself, or did not.
pub fn renew_advanced(moved: Result<bool, SliceError>) -> (verdict: RenewVerdict)
    ensures
        match moved {
            Ok(moved) => verdict == (RenewVerdict::Next { moved }),
            Err(error) => verdict_on_error(error, verdict),
        },
{
    match moved {
        Ok(moved) => RenewVerdict::Next { moved },
        Err(error) => on_error(&error),
    }
}

/// What follows the word on whether a pane may be probed.
pub fn renew_probe_allowed(allowed: Result<bool, SliceError>) -> (verdict: RenewVerdict)
    ensures
        match allowed {
            Ok(true) => verdict == RenewVerdict::ParkProbe,
            Ok(false) => verdict == (RenewVerdict::Next { moved: false }),
            Err(error) => verdict_on_error(error, verdict),
        },
{
    match allowed {
        Ok(true) => RenewVerdict::ParkProbe,
        Ok(false) => RenewVerdict::Next { moved: false },
        Err(error) => on_error(&error),
    }
}

/// How far a pass over the renews has come.
#[derive(Debug, Clone, Copy, PartialEq, Eq, Structural)]
pub struct RenewPass {
    /// Whether any renew moved.
    pub progressed: bool,
    /// Whether the rest is left for another pass.
    pub stopped: bool,
}

/// Whether a verdict is about a renew that moved.
pub open spec fn moves(verdict: RenewVerdict) -> bool {
    match verdict {
        RenewVerdict::Next { moved } => moved,
        RenewVerdict::ParkPrompt => true,
        RenewVerdict::ParkProbe => true,
        RenewVerdict::ParkRotation => true,
        RenewVerdict::ParkConfirm => true,
        _ => false,
    }
}

/// Count one verdict into a pass.
pub fn count_verdict(pass: &mut RenewPass, verdict: &RenewVerdict)
    ensures
        *final(pass) == (RenewPass {
            progressed: old(pass).progressed || moves(*verdict),
            stopped: old(pass).stopped || verdict is NoteAndStop,
        }),
{
    let moved = match verdict {
        RenewVerdict::Next { moved } => *moved,
        RenewVerdict::ParkPrompt | RenewVerdict::ParkProbe | RenewVerdict::ParkRotation
        | RenewVerdict::ParkConfirm => true,
        _ => false,
    };
    let stops = match verdict {
        RenewVerdict::NoteAndStop(_) => true,
        _ => false,
    };
    let progressed = pass.progressed || moved;
    let stopped = pass.stopped || stops;
    *pass = RenewPass { progressed, stopped };
}

/// A pass after a run of verdicts.
pub open spec fn pass_after(verdicts: Seq<RenewVerdict>) -> RenewPass
    decreases verdicts.len(),
{
    if verdicts.len() == 0 {
        RenewPass { progressed: false, stopped: false }
    } else {
        let before = pass_after(verdicts.drop_last());
        RenewPass {
            progressed: before.progressed || moves(verdicts.last()),
            stopped: before.stopped || verdicts.last() is NoteAndStop,
        }
    }
}

/// A pass has progressed exactly when some renew moved, and has stopped exactly when
/// an error was not passed over.
pub proof fn law_pass_tells_what_happened(verdicts: Seq<RenewVerdict>)
    ensures
        pass_after(verdicts).progressed <==> exists|i: int|
            0 <= i < verdicts.len() && moves(#[trigger] verdicts[i]),
        pass_after(verdicts).stopped <==> exists|i: int|
            0 <= i < verdicts.len() && (#[trigger] verdicts[i]) is NoteAndStop,
    decreases verdicts.len(),
{
    if verdicts.len() > 0 {
        let rest = verdicts.drop_last();
        law_pass_tells_what_happened(rest);
        assert forall|i: int| 0 <= i < rest.len() implies rest[i] == verdicts[i] by {}
        assert(verdicts.last() == verdicts[verdicts.len() - 1]);
        if pass_after(rest).progressed {
            let i = choose|i: int| 0 <= i < rest.len() && moves(#[trigger] rest[i]);
            assert(moves(verdicts[i]));
        }
        if pass_after(rest).stopped {
            let i = choose|i: int| 0 <= i < rest.len() && (#[trigger] rest[i]) is NoteAndStop;
            assert(verdicts[i] is NoteAndStop);
        }
        if exists|i: int| 0 <= i < verdicts.len() && moves(#[trigger] verdicts[i]) {
            let i = choose|i: int| 0 <= i < verdicts.len() && moves(#[trigger] verdicts[i]);
            if i < rest.len() {
                assert(moves(rest[i]));
            }
        }
        if exists|i: int| 0 <= i < verdicts.len() && (#[trigger] verdicts[i]) is NoteAndStop {
            let i = choose|i: int|
                0 <= i < verdicts.len() && (#[trigger] verdicts[i]) is NoteAndStop;
            if i < rest.len() {
                assert(rest[i] is NoteAndStop);
            }
        }
    }
}

/// The command that clears a pane.
#[derive(Debug, PartialEq, Eq)]
pub struct RenewClearWrite {
    pub request_id: String,
    pub pane_id: String,
    pub command: String,
}

/// The prompt that a cleared agent resumes with.
#[derive(Debug, PartialEq, Eq)]
pub struct RenewInjectWrite {
    pub request_id: String,
    pub pane_id: String,
    pub envelope: String,
}

/// Where a parked renew stands.
#[derive(Debug, PartialEq, Eq)]
pub enum RenewState {
    /// It probes its pane before the clear.
    Probe,
    /// It writes the clear.
    ClearingSend(RenewClearWrite),
    /// It watches for the rotation.
    RotationGet,
    /// It writes the resuming prompt.
    InjectSend(RenewInjectWrite),
    /// It confirms the injection.
    ConfirmGet,
}

/// What a parked renew does in one pass of the daemon's loop.
#[derive(Debug, PartialEq, Eq)]
pub enum RenewAdvance {
    /// Nothing yet.
    Wait,
    /// Read the agent in that pane, under that request identifier.
    Get { request_id: String, target: String },
    /// Open that pane.
    Open { pane: String },
}

/// The request of a read in a cycle.
pub open spec fn cycle_request(step: Seq<char>, renew: RenewId) -> Seq<char> {
    "kelpie:renew:"@ + step + ":"@ + uuid_text(renew.value as nat)
}

/// The part of a cycle that a read belongs to.
pub open spec fn read_step(state: RenewState) -> Option<Seq<char>> {
    match state {
        RenewState::Probe => Some("probe"@),
        RenewState::RotationGet => Some("rotation"@),
        RenewState::ConfirmGet => Some("confirm"@),
        _ => None,
    }
}

/// The pane that a write goes to.
pub open spec fn write_pane(state: RenewState) -> Option<Seq<char>> {
    match state {
        RenewState::ClearingSend(write) => Some(write.pane_id@),
        RenewState::InjectSend(write) => Some(write.pane_id@),
        _ => None,
    }
}

/// Whether an advance is what a renew that waits for no job does.
pub open spec fn is_advance(item: DueRenew, state: RenewState, advance: RenewAdvance) -> bool {
    match (read_step(state), write_pane(state)) {
        (Some(step), _) => advance matches RenewAdvance::Get { request_id, target } && request_id@
            == cycle_request(step, item.renew_id) && target@ == item.pane_id@,
        (None, Some(wanted)) => advance matches RenewAdvance::Open { pane } && pane@ == wanted,
        (None, None) => false,
    }
}

/// What a parked renew does in one pass. `waits` tells whether it waits for a job.
pub fn advance_renew(item: &DueRenew, state: &RenewState, waits: bool) -> (advance: RenewAdvance)
    ensures
        if waits {
            advance == RenewAdvance::Wait
        } else {
            is_advance(*item, *state, advance)
        },
{
    if waits {
        return RenewAdvance::Wait;
    }
    let step = match state {
        RenewState::Probe => "probe",
        RenewState::RotationGet => "rotation",
        RenewState::ConfirmGet => "confirm",
        RenewState::ClearingSend(write) => {
            return RenewAdvance::Open { pane: write.pane_id.clone() };
        },
        RenewState::InjectSend(write) => {
            return RenewAdvance::Open { pane: write.pane_id.clone() };
        },
    };
    RenewAdvance::Get {
        request_id: "kelpie:renew:".to_owned().concat(step).concat(":").concat(
            item.renew_id.to_text().as_str(),
        ),
        target: item.pane_id.clone(),
    }
}

/// The request that a state of a cycle writes.
pub open spec fn cycle_sent(state: RenewState) -> Option<Sent> {
    match state {
        RenewState::ClearingSend(write) => Some(
            prompt_sent(write.request_id@, write.pane_id@, write.command@, ""@),
        ),
        RenewState::InjectSend(write) => Some(
            prompt_sent(write.request_id@, write.pane_id@, write.envelope@, ""@),
        ),
        _ => None,
    }
}

/// What is sent on an open lane. Without a request the lease is given back.
pub fn renew_opened(state: &RenewState) -> (cmd: Option<LeaseCmd>)
    ensures
        match cycle_sent(*state) {
            Some(sent) => cmd matches Some(cmd) && sends(cmd, sent),
            None => cmd is None,
        },
{
    match state {
        RenewState::ClearingSend(write) => Some(
            send_prompt(
                write.request_id.as_str(),
                write.pane_id.as_str(),
                write.command.as_str(),
                "",
            ),
        ),
        RenewState::InjectSend(write) => Some(
            send_prompt(
                write.request_id.as_str(),
                write.pane_id.as_str(),
                write.envelope.as_str(),
                "",
            ),
        ),
        _ => None,
    }
}

/// What a parked renew does next. After a result or a failure any lease it holds is
/// given back first.
#[derive(Debug, PartialEq, Eq)]
pub enum RenewStep {
    /// Wait for the next pass in that state.
    Rest { state: RenewState },
    /// Read the agent in the pane under that request identifier, and go on from that
    /// state.
    Get { request_id: String, target: String, state: RenewState },
    /// Send that on the lease, keep the lease, and go on from that state.
    Send { cmd: LeaseCmd, state: RenewState },
    /// Ask the coordinator to record the clear, from what the pane shows.
    RecordClearing(AgentObservation),
    /// Tell the coordinator how the clear's command ended.
    ApplyClear { write: RenewClearWrite, outcome: Result<(), HerdrError> },
    /// Ask the coordinator whether to inject, from what the pane shows.
    DecideInject(AgentObservation),
    /// Tell the coordinator how the injection ended.
    ApplyInject { write: RenewInjectWrite, outcome: Result<(), HerdrError> },
    /// Ask the coordinator whether the injection is confirmed.
    Confirm(AgentObservation),
    /// Open the pane, and go on from that state.
    Open { pane: String, state: RenewState },
    /// Record that the cycle is complete, and leave it.
    Complete,
    /// Leave the cycle to another pass, telling the operator where that is due.
    Leave { notice: Option<String> },
}

/// Whether a step leaves a cycle over an error: the operator is told, unless the
/// error is passed over.
pub open spec fn leaves_over(step: RenewStep, error: SliceError) -> bool {
    step matches RenewStep::Leave { notice } && if is_passed_over(error) {
        notice is None
    } else {
        notice is Some && notice->0@ == drive_notice(error)
    }
}

/// Leave a cycle over an error.
pub fn drop_renew(error: &SliceError) -> (step: RenewStep)
    ensures
        leaves_over(step, *error),
{
    if renew_drive_skips(error) {
        RenewStep::Leave { notice: None }
    } else {
        RenewStep::Leave { notice: Some(note_renew_drive_error(error)) }
    }
}

/// Whether a write ended well: Herdr answered with the agent.
pub open spec fn write_outcome(
    outcome: Result<(), HerdrError>,
    result: Result<HerdrJobResult, HerdrError>,
    text: Seq<char>,
) -> bool {
    match result {
        Ok(HerdrJobResult::Prompt(_)) => outcome == Ok::<(), HerdrError>(()),
        Ok(HerdrJobResult::Agent(_)) => outcome == Ok::<(), HerdrError>(()),
        Ok(_) => outcome matches Err(HerdrError::Unexpected(message)) && message@ == text,
        Err(error) => outcome == Err::<(), HerdrError>(error),
    }
}

fn written(result: Result<HerdrJobResult, HerdrError>, text: &str) -> (outcome: Result<(), HerdrError>)
    ensures
        write_outcome(outcome, result, text@),
{
    match result {
        Ok(HerdrJobResult::Prompt(_)) | Ok(HerdrJobResult::Agent(_)) => Ok(()),
        Ok(_) => Err(HerdrError::Unexpected(text.to_owned())),
        Err(error) => Err(error),
    }
}

/// Whether a step follows the result of a renew's job.
pub open spec fn follows_result(
    state: RenewState,
    result: Result<HerdrJobResult, HerdrError>,
    step: RenewStep,
) -> bool {
    match (state, result) {
        (RenewState::Probe, Ok(HerdrJobResult::Agent(agent))) => step
            == RenewStep::RecordClearing(agent),
        (RenewState::RotationGet, Ok(HerdrJobResult::Agent(agent))) => step
            == RenewStep::DecideInject(agent),
        (RenewState::ConfirmGet, Ok(HerdrJobResult::Agent(agent))) => step
            == RenewStep::Confirm(agent),
        (RenewState::ClearingSend(write), result) => step matches RenewStep::ApplyClear {
            write: w,
            outcome,
        } && w == write && write_outcome(
            outcome,
            result,
            "renew clear returned a non-agent result"@,
        ),
        (RenewState::InjectSend(write), result) => step matches RenewStep::ApplyInject {
            write: w,
            outcome,
        } && w == write && write_outcome(
            outcome,
            result,
            "renew inject returned a non-agent result"@,
        ),
        _ => step == (RenewStep::Leave { notice: None }),
    }
}

/// What follows the result of a renew's job. A read that fails leaves the cycle to
/// another pass without a word, as Herdr's errors are passed over.
pub fn renew_done(state: RenewState, result: Result<HerdrJobResult, HerdrError>) -> (step: RenewStep)
    ensures
        follows_result(state, result, step),
{
    match (state, result) {
        (RenewState::Probe, Ok(HerdrJobResult::Agent(agent))) => RenewStep::RecordClearing(agent),
        (RenewState::RotationGet, Ok(HerdrJobResult::Agent(agent))) => RenewStep::DecideInject(
            agent,
        ),
        (RenewState::ConfirmGet, Ok(HerdrJobResult::Agent(agent))) => RenewStep::Confirm(agent),
        (RenewState::ClearingSend(write), result) => RenewStep::ApplyClear {
            write,
            outcome: written(result, "renew clear returned a non-agent result"),
        },
        (RenewState::InjectSend(write), result) => RenewStep::ApplyInject {
            write,
            outcome: written(result, "renew inject returned a non-agent result"),
        },
        _ => RenewStep::Leave { notice: None },
    }
}

/// Whether a step follows the recording of a clear.
pub open spec fn follows_clearing(reply: Result<RenewClearWrite, SliceError>, step: RenewStep) -> bool {
    match reply {
        Ok(write) => step matches RenewStep::Open { pane, state } && pane@ == write.pane_id@
            && state == RenewState::ClearingSend(write),
        Err(error) => leaves_over(step, error),
    }
}

/// What follows the recording of a clear.
pub fn renew_clearing(reply: Result<RenewClearWrite, SliceError>) -> (step: RenewStep)
    ensures
        follows_clearing(reply, step),
{
    match reply {
        Ok(write) => RenewStep::Open {
            pane: write.pane_id.clone(),
            state: RenewState::ClearingSend(write),
        },
        Err(error) => drop_renew(&error),
    }
}

/// Whether a step follows the coordinator's word on a write.
pub open spec fn follows_application(reply: Result<(), SliceError>, step: RenewStep) -> bool {
    match reply {
        Ok(()) => step == (RenewStep::Leave { notice: None }),
        Err(error) => leaves_over(step, error),
    }
}

/// What follows the coordinator's word on a write: the cycle is left to another
/// pass.
pub fn renew_applied(reply: Result<(), SliceError>) -> (step: RenewStep)
    ensures
        follows_application(reply, step),
{
    match reply {
        Ok(()) => RenewStep::Leave { notice: None },
        Err(error) => drop_renew(&error),
    }
}

/// Whether a step follows the decision to inject, or not yet.
pub open spec fn follows_decision(reply: Result<Option<RenewInjectWrite>, SliceError>, step: RenewStep) -> bool {
    match reply {
        Ok(None) => step == (RenewStep::Leave { notice: None }),
        Ok(Some(write)) => step matches RenewStep::Open { pane, state } && pane@
            == write.pane_id@ && state == RenewState::InjectSend(write),
        Err(error) => leaves_over(step, error),
    }
}

/// What follows the decision to inject, or not yet.
pub fn renew_inject(reply: Result<Option<RenewInjectWrite>, SliceError>) -> (step: RenewStep)
    ensures
        follows_decision(reply, step),
{
    match reply {
        Ok(None) => RenewStep::Leave { notice: None },
        Ok(Some(write)) => RenewStep::Open {
            pane: write.pane_id.clone(),
            state: RenewState::InjectSend(write),
        },
        Err(error) => drop_renew(&error),
    }
}

/// Whether a step follows the word on whether an injection is confirmed.
pub open spec fn follows_confirmation(reply: Result<bool, SliceError>, step: RenewStep) -> bool {
    match reply {
        Ok(true) => step == RenewStep::Complete,
        Ok(false) => step == (RenewStep::Leave { notice: None }),
        Err(error) => leaves_over(step, error),
    }
}

/// What follows the word on whether an injection is confirmed.
pub fn renew_confirmed(reply: Result<bool, SliceError>) -> (step: RenewStep)
    ensures
        follows_confirmation(reply, step),
{
    match reply {
        Ok(true) => RenewStep::Complete,
        Ok(false) => RenewStep::Leave { notice: None },
        Err(error) => drop_renew(&error),
    }
}

/// The write of a renew could not be handed to the worker: the cycle is left to
/// another pass.
pub fn renew_unsent() -> (step: RenewStep)
    ensures
        step == (RenewStep::Leave { notice: None }),
{
    RenewStep::Leave { notice: None }
}

/// What a parked renew is told.
#[derive(Debug, PartialEq, Eq)]
pub enum RenewEvent {
    /// A pass of the daemon's loop came by.
    Pass,
    /// Its lane is open.
    Opened,
    /// Its request could not be handed to the worker.
    Unsent,
    /// Its job is over.
    Done(Result<HerdrJobResult, HerdrError>),
    /// Its job failed.
    Failed(HerdrError),
    /// The coordinator recorded the clear.
    Recorded(Result<RenewClearWrite, SliceError>),
    /// The coordinator took the outcome of a write.
    Applied(Result<(), SliceError>),
    /// The coordinator decided whether to inject.
    Decided(Result<Option<RenewInjectWrite>, SliceError>),
    /// The coordinator said whether the injection is confirmed.
    Confirmed(Result<bool, SliceError>),
    /// The store marked the cycle complete.
    Completed,
}

/// The state that a renew waits in for a worker.
pub open spec fn waiting_state(step: RenewStep) -> Option<RenewState> {
    match step {
        RenewStep::Get { state, .. } => Some(state),
        RenewStep::Open { state, .. } => Some(state),
        RenewStep::Send { state, .. } => Some(state),
        _ => None,
    }
}

/// Whether a step follows another one and an event.
pub open spec fn follows(
    item: DueRenew,
    step: RenewStep,
    event: RenewEvent,
    after: RenewStep,
) -> bool {
    match (step, event) {
        (RenewStep::Rest { state }, RenewEvent::Pass) => match after {
            RenewStep::Get { request_id, target, state: waiting } => waiting == state && is_advance(
                item,
                state,
                (RenewAdvance::Get { request_id, target }),
            ),
            RenewStep::Open { pane, state: waiting } => waiting == state && is_advance(
                item,
                state,
                (RenewAdvance::Open { pane }),
            ),
            _ => false,
        },
        (RenewStep::Open { state, .. }, RenewEvent::Opened) => cycle_sent(state) matches Some(sent)
            && (after matches RenewStep::Send { cmd, state: waiting } && waiting == state && sends(
            cmd,
            sent,
        )),
        (RenewStep::Send { .. }, RenewEvent::Unsent) => after == (RenewStep::Leave {
            notice: None,
        }),
        (step, RenewEvent::Done(result)) => waiting_state(step) matches Some(state)
            && follows_result(state, result, after),
        (step, RenewEvent::Failed(_)) => waiting_state(step) is Some && after == (RenewStep::Leave {
            notice: None,
        }),
        (RenewStep::RecordClearing(_), RenewEvent::Recorded(reply)) => follows_clearing(
            reply,
            after,
        ),
        (RenewStep::ApplyClear { .. }, RenewEvent::Applied(reply)) => follows_application(
            reply,
            after,
        ),
        (RenewStep::ApplyInject { .. }, RenewEvent::Applied(reply)) => follows_application(
            reply,
            after,
        ),
        (RenewStep::DecideInject(_), RenewEvent::Decided(reply)) => follows_decision(reply, after),
        (RenewStep::Confirm(_), RenewEvent::Confirmed(reply)) => follows_confirmation(reply, after),
        (RenewStep::Complete, RenewEvent::Completed) => after == (RenewStep::Leave {
            notice: None,
        }),
        _ => false,
    }
}

/// Whether a renew waits for an event.
pub open spec fn waits_for(step: RenewStep, event: RenewEvent) -> bool {
    match event {
        RenewEvent::Pass => step is Rest,
        RenewEvent::Opened => step matches RenewStep::Open { state, .. } && cycle_sent(
            state,
        ) is Some,
        RenewEvent::Unsent => step is Send,
        RenewEvent::Done(_) => waiting_state(step) is Some,
        RenewEvent::Failed(_) => waiting_state(step) is Some,
        RenewEvent::Recorded(_) => step is RecordClearing,
        RenewEvent::Applied(_) => step is ApplyClear || step is ApplyInject,
        RenewEvent::Decided(_) => step is DecideInject,
        RenewEvent::Confirmed(_) => step is Confirm,
        RenewEvent::Completed => step is Complete,
    }
}

/// What a parked renew does once something happened to it. An event that it does not
/// wait for is given back as a failure, with the step unchanged.
pub fn renew_next(item: &DueRenew, step: RenewStep, event: RenewEvent) -> (r: Result<
    RenewStep,
    RenewStep,
>)
    ensures
        match r {
            Ok(after) => waits_for(step, event) && follows(*item, step, event, after),
            Err(same) => !waits_for(step, event) && same == step,
        },
{
    match (step, event) {
        (RenewStep::Rest { state }, RenewEvent::Pass) => match advance_renew(item, &state, false) {
            RenewAdvance::Get { request_id, target } => Ok(
                RenewStep::Get { request_id, target, state },
            ),
            RenewAdvance::Open { pane } => Ok(RenewStep::Open { pane, state }),
            RenewAdvance::Wait => Err(RenewStep::Rest { state }),
        },
        (RenewStep::Open { pane, state }, RenewEvent::Opened) => match renew_opened(&state) {
            Some(cmd) => Ok(RenewStep::Send { cmd, state }),
            None => Err(RenewStep::Open { pane, state }),
        },
        (RenewStep::Send { .. }, RenewEvent::Unsent) => Ok(renew_unsent()),
        (RenewStep::Get { state, .. }, RenewEvent::Done(result))
        | (RenewStep::Open { state, .. }, RenewEvent::Done(result))
        | (RenewStep::Send { state, .. }, RenewEvent::Done(result)) => Ok(
            renew_done(state, result),
        ),
        (RenewStep::Get { .. }, RenewEvent::Failed(source))
        | (RenewStep::Open { .. }, RenewEvent::Failed(source))
        | (RenewStep::Send { .. }, RenewEvent::Failed(source)) => Ok(
            drop_renew(&SliceError::Herdr(source)),
        ),
        (RenewStep::RecordClearing(_), RenewEvent::Recorded(reply)) => Ok(renew_clearing(reply)),
        (RenewStep::ApplyClear { .. }, RenewEvent::Applied(reply))
        | (RenewStep::ApplyInject { .. }, RenewEvent::Applied(reply)) => Ok(renew_applied(reply)),
        (RenewStep::DecideInject(_), RenewEvent::Decided(reply)) => Ok(renew_inject(reply)),
        (RenewStep::Confirm(_), RenewEvent::Confirmed(reply)) => Ok(renew_confirmed(reply)),
        (RenewStep::Complete, RenewEvent::Completed) => Ok(RenewStep::Leave { notice: None }),
        (step, _) => Err(step),
    }
}

/// A cycle goes in one order: probe, record, clear, watch, decide, inject, confirm. It is
/// complete only once the coordinator has confirmed its injection.
pub proof fn law_cycle_goes_in_order(
    item: DueRenew,
    step: RenewStep,
    event: RenewEvent,
    after: RenewStep,
)
    requires
        follows(item, step, event, after),
    ensures
        after is RecordClearing ==> waiting_state(step) == Some(RenewState::Probe),
        after is Send ==> step is Open && event is Opened,
        after is ApplyClear ==> waiting_state(step) matches Some(RenewState::ClearingSend(_)),
        after is DecideInject ==> waiting_state(step) == Some(RenewState::RotationGet),
        after is ApplyInject ==> waiting_state(step) matches Some(RenewState::InjectSend(_)),
        after is Confirm ==> waiting_state(step) == Some(RenewState::ConfirmGet),
        after is Complete ==> event matches RenewEvent::Confirmed(Ok(true)),
{
}

/// A write of a cycle is told to the coordinator once its job has a result, whatever that
/// is.
pub proof fn law_cycle_write_is_settled(
    state: RenewState,
    result: Result<HerdrJobResult, HerdrError>,
    step: RenewStep,
)
    requires
        follows_result(state, result, step),
    ensures
        state is ClearingSend ==> step is ApplyClear,
        state is InjectSend ==> step is ApplyInject,
        step is Complete ==> false,
{
}

} // verus!
