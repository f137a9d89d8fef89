//! A start: look, declare, claim the pane, write, wait until the runtime is ready,
//! then send the initial message. A pane that stays busy is tried again within a
//! budget.
//!
//! Times are milliseconds on one clock that only goes forward.

use vstd::prelude::*;

use super::errors::{
    answer_view, conflict, invalid, is_conflict, is_invalid, is_wrong_answer, wrong_answer,
    ClientResponse, SliceError,
};
use super::parked::{keeps_id, Next, Parked};
use super::prompt::PreparedPrompt;
use super::results::{launch_result, launch_result_view, DeclaredStart, LaunchResult};
use super::send::{prompt_sent, send_prompt, sends, Sent};
use crate::domain::{uuid_text, MessageId};
use crate::herdr::{AgentObservation, HerdrError, Snapshot};
use crate::herdr_exec::{HerdrJobResult, LeaseCmd};
use crate::json::{Json, JsonView};

verus! {

/// Where a start stands.
#[derive(Debug, PartialEq, Eq)]
pub enum StartPhase {
    /// It waits for a snapshot: before it is declared, or before it tries again.
    Snapshot,
    /// It waits for its lease.
    Opening { busy_deadline: u64, attempt_index: u32 },
    /// Its intent is recorded and its request handed over.
    Sending { busy_deadline: u64, attempt_index: u32 },
    /// The pane was busy: it tries again, from `not_before` until the deadline.
    Busy { busy_deadline: u64, not_before: u64 },
    /// The runtime was submitted: it waits until the runtime is ready.
    Ready,
    /// The runtime is ready: it waits for its initial message.
    Initial { prepared: PreparedPrompt, message_id: MessageId },
}

/// What is parked of a start.
#[derive(Debug, PartialEq, Eq)]
pub struct StartFlow {
    pub declared: Option<DeclaredStart>,
    pub deadline: u64,
    pub busy_deadline: u64,
    pub attempt_index: u32,
    /// Whether the intent of what it waits for is recorded.
    pub intent_committed: bool,
    pub phase: StartPhase,
}

/// A start that nothing is known of yet.
pub fn new_start(now: u64, readiness_timeout_ms: u64) -> (flow: StartFlow)
    ensures
        flow == (StartFlow {
            declared: None,
            deadline: later(now, readiness_timeout_ms),
            busy_deadline: later(now, readiness_timeout_ms),
            attempt_index: 1,
            intent_committed: false,
            phase: StartPhase::Snapshot,
        }),
{
    let deadline: u64 = match now.checked_add(readiness_timeout_ms) {
        Some(at) => at,
        None => u64::MAX,
    };
    StartFlow {
        declared: None,
        deadline,
        busy_deadline: deadline,
        attempt_index: 1,
        intent_committed: false,
        phase: StartPhase::Snapshot,
    }
}

/// A moment after another, as far as the clock goes.
pub open spec fn later(now: u64, span: u64) -> u64 {
    if now + span > u64::MAX {
        u64::MAX
    } else {
        (now + span) as u64
    }
}

/// What follows an open lane.
#[derive(Debug, PartialEq, Eq)]
pub enum StartOpened {
    /// Ask the coordinator to record the intent of that attempt.
    Commit { declared: DeclaredStart, attempt_index: u32, busy_deadline: u64 },
    /// Ask the coordinator to record the intent of the initial message.
    CommitInitial,
    /// Give the lease back and fail.
    Fail(SliceError),
}

/// Whether that follows an open lane.
pub open spec fn follows_opening(flow: StartFlow, opened: StartOpened) -> bool {
    match (flow.phase, flow.declared) {
        (StartPhase::Initial { .. }, _) => opened == StartOpened::CommitInitial,
        (_, None) => opened matches StartOpened::Fail(error) && is_invalid(
            error,
            "start opened before it was declared"@,
        ),
        (StartPhase::Opening { busy_deadline, attempt_index }, Some(declared)) => opened == (
        StartOpened::Commit { declared, attempt_index, busy_deadline }),
        (StartPhase::Sending { busy_deadline, attempt_index }, Some(declared)) => opened == (
        StartOpened::Commit { declared, attempt_index, busy_deadline }),
        (_, Some(declared)) => opened == (StartOpened::Commit {
            declared,
            attempt_index: 1,
            busy_deadline: flow.deadline,
        }),
    }
}

/// What follows an open lane. Nothing is sent before its intent is recorded, and
/// nothing is recorded before the start is declared.
pub fn start_opened(flow: &StartFlow) -> (opened: StartOpened)
    ensures
        follows_opening(*flow, opened),
{
    if let StartPhase::Initial { .. } = &flow.phase {
        return StartOpened::CommitInitial;
    }
    let declared = match flow.declared {
        Some(declared) => declared,
        None => {
            return StartOpened::Fail(invalid("start opened before it was declared"));
        },
    };
    match &flow.phase {
        StartPhase::Opening { busy_deadline, attempt_index }
        | StartPhase::Sending { busy_deadline, attempt_index } => StartOpened::Commit {
            declared,
            attempt_index: *attempt_index,
            busy_deadline: *busy_deadline,
        },
        _ => StartOpened::Commit { declared, attempt_index: 1, busy_deadline: flow.deadline },
    }
}

/// The request that starts a runtime.
pub open spec fn start_sent(request_id: Seq<char>, params: JsonView) -> Sent {
    Sent {
        request_id,
        method: "agent.start"@,
        params,
        pause: "start_after_write_before_response"@,
    }
}

/// A start whose request goes out.
pub open spec fn sending(flow: StartFlow, busy_deadline: u64, attempt_index: u32) -> StartFlow {
    StartFlow {
        intent_committed: true,
        phase: StartPhase::Sending { busy_deadline, attempt_index },
        ..flow
    }
}

/// The start goes out: what is sent on the lease, which is kept.
pub fn start_committed(
    flow: &mut StartFlow,
    busy_deadline: u64,
    attempt_index: u32,
    request_id: &str,
    params: Json,
) -> (cmd: LeaseCmd)
    ensures
        *final(flow) == sending(*old(flow), busy_deadline, attempt_index),
        sends(cmd, start_sent(request_id@, params@)),
{
    flow.intent_committed = true;
    flow.phase = StartPhase::Sending { busy_deadline, attempt_index };
    LeaseCmd::Send {
        request_id: request_id.to_owned(),
        method: "agent.start",
        params,
        after_write_pause: "start_after_write_before_response",
    }
}

/// Why a recorded start failed that could not be handed to the worker.
pub fn start_unsent() -> (error: SliceError)
    ensures
        is_wrong_answer(error, "herdr lease closed before start send"@),
{
    wrong_answer("herdr lease closed before start send")
}

/// The request that sends an initial message.
pub open spec fn initial_sent(prepared: PreparedPrompt) -> Sent {
    prompt_sent(
        prepared.request_id@,
        prepared.pane_id@,
        prepared.envelope@,
        prepared.after_write_pause@,
    )
}

/// The initial message goes out: what is sent on the lease, which is kept.
pub fn initial_committed(flow: &mut StartFlow) -> (cmd: Option<LeaseCmd>)
    ensures
        match old(flow).phase {
            StartPhase::Initial { prepared, .. } => *final(flow) == (StartFlow {
                intent_committed: true,
                ..*old(flow)
            }) && (cmd matches Some(cmd) && sends(cmd, initial_sent(prepared))),
            _ => *final(flow) == *old(flow) && cmd is None,
        },
{
    let cmd = match &flow.phase {
        StartPhase::Initial { prepared, .. } => Some(
            send_prompt(
                prepared.request_id.as_str(),
                prepared.pane_id.as_str(),
                prepared.envelope.as_str(),
                prepared.after_write_pause,
            ),
        ),
        _ => None,
    };
    if cmd.is_some() {
        flow.intent_committed = true;
    }
    cmd
}

/// What a start does next after a result, a failure or a reply of the coordinator.
/// Any lease it holds is given back first.
#[derive(Debug, PartialEq, Eq)]
pub enum StartStep {
    /// Take a snapshot, with a negotiation where nothing is declared yet.
    Look { negotiate: bool },
    /// Ask the coordinator to record the intent of that attempt, and for its request.
    Commit { declared: DeclaredStart, attempt_index: u32, busy_deadline: u64 },
    /// Ask the coordinator to record the intent of the initial message.
    CommitInitial,
    /// Send that on the lease, and keep the lease.
    Send(LeaseCmd),
    /// Ask whether the runtime is ready, under that request identifier.
    Poll { request_id: String },
    /// Ask the coordinator to declare the start from that snapshot.
    Declare(Snapshot),
    /// Ask the coordinator whether that snapshot still shows the intended pane.
    CheckPane(Snapshot),
    /// Open the pane that the start is meant for.
    Open,
    /// Ask the coordinator what the answer to the start means.
    Apply { declared: DeclaredStart, attempt_index: u32, busy_deadline: u64, agent: Result<AgentObservation, HerdrError> },
    /// Ask the coordinator whether the runtime is ready.
    Observe { declared: DeclaredStart, observed: Result<AgentObservation, HerdrError> },
    /// Ask the coordinator to begin the initial message.
    BeginInitial(DeclaredStart),
    /// Open the pane of the initial message.
    OpenInitial { pane: String },
    /// Tell the coordinator how the initial message ended, then answer with the
    /// launch.
    CompleteInitial { started: DeclaredStart, prompt: Result<AgentObservation, HerdrError> },
    /// The initial message was not written: answer with the launch.
    AnswerInitial,
    /// Record that the declared start was rejected, then fail.
    Reject(SliceError),
    /// Note a brief that was not delivered where the start was declared, then answer with
    /// the failure.
    Fail(SliceError),
    /// Answer the client.
    Answer(Result<LaunchResult, SliceError>),
    /// Wait for the next pass.
    Wait,
}

/// Whether a step fails with an unexpected answer of Herdr.
pub open spec fn fails_wrong(step: StartStep, text: Seq<char>) -> bool {
    step matches StartStep::Fail(error) && is_wrong_answer(error, text)
}

/// An agent that was answered, or the failure; any other answer is unexpected.
pub open spec fn is_agent_or(
    agent: Result<AgentObservation, HerdrError>,
    result: Result<HerdrJobResult, HerdrError>,
    text: Seq<char>,
) -> bool {
    match result {
        Ok(HerdrJobResult::Agent(answered)) => agent == Ok::<AgentObservation, HerdrError>(answered),
        Ok(_) => agent matches Err(HerdrError::Unexpected(message)) && message@ == text,
        Err(error) => agent == Err::<AgentObservation, HerdrError>(error),
    }
}

fn agent_or(result: Result<HerdrJobResult, HerdrError>, text: &str) -> (agent: Result<AgentObservation, HerdrError>)
    ensures
        is_agent_or(agent, result, text@),
{
    match result {
        Ok(HerdrJobResult::Agent(agent)) => Ok(agent),
        Ok(_) => Err(HerdrError::Unexpected(text.to_owned())),
        Err(error) => Err(error),
    }
}

/// Whether a step follows the result of a start's job.
pub open spec fn follows_result(
    flow: StartFlow,
    result: Result<HerdrJobResult, HerdrError>,
    step: StartStep,
) -> bool {
    match flow.phase {
        StartPhase::Snapshot => match result {
            Ok(HerdrJobResult::Snapshot(snapshot)) => step == if flow.declared is None {
                StartStep::Declare(snapshot)
            } else {
                StartStep::CheckPane(snapshot)
            },
            Ok(_) => fails_wrong(step, "start snapshot returned a non-snapshot result"@),
            Err(error) => step == StartStep::Fail(SliceError::Herdr(error)),
        },
        StartPhase::Sending { busy_deadline, attempt_index } => match flow.declared {
            Some(declared) => step matches StartStep::Apply {
                declared: d,
                attempt_index: a,
                busy_deadline: b,
                agent,
            } && d == declared && a == attempt_index && b == busy_deadline && is_agent_or(
                agent,
                result,
                "agent.start returned a non-agent result"@,
            ),
            None => fails_wrong(step, "start send completed with no declaration"@),
        },
        StartPhase::Ready => match flow.declared {
            Some(declared) => step matches StartStep::Observe { declared: d, observed } && d
                == declared && is_agent_or(
                observed,
                result,
                "start ready poll returned a non-agent result"@,
            ),
            None => fails_wrong(step, "ready poll with no declaration"@),
        },
        StartPhase::Initial { .. } => match flow.declared {
            Some(started) => step matches StartStep::CompleteInitial { started: s, prompt } && s
                == started && match result {
                Ok(HerdrJobResult::Prompt(agent)) => prompt == Ok::<
                    AgentObservation,
                    HerdrError,
                >(agent),
                Ok(_) => prompt matches Err(HerdrError::Unexpected(text)) && text@
                    == "initial message returned a non-prompt result"@,
                Err(error) => prompt == Err::<AgentObservation, HerdrError>(error),
            },
            None => step == StartStep::Wait,
        },
        _ => step == StartStep::Wait,
    }
}

/// What follows the result of a start's job.
pub fn start_done(flow: &StartFlow, result: Result<HerdrJobResult, HerdrError>) -> (step: StartStep)
    ensures
        follows_result(*flow, result, step),
{
    match &flow.phase {
        StartPhase::Snapshot => match result {
            Ok(HerdrJobResult::Snapshot(snapshot)) => if flow.declared.is_none() {
                StartStep::Declare(snapshot)
            } else {
                StartStep::CheckPane(snapshot)
            },
            Ok(_) => StartStep::Fail(
                wrong_answer("start snapshot returned a non-snapshot result"),
            ),
            Err(error) => StartStep::Fail(SliceError::Herdr(error)),
        },
        StartPhase::Sending { busy_deadline, attempt_index } => match flow.declared {
            Some(declared) => StartStep::Apply {
                declared,
                attempt_index: *attempt_index,
                busy_deadline: *busy_deadline,
                agent: agent_or(result, "agent.start returned a non-agent result"),
            },
            None => StartStep::Fail(wrong_answer("start send completed with no declaration")),
        },
        StartPhase::Ready => match flow.declared {
            Some(declared) => StartStep::Observe {
                declared,
                observed: agent_or(result, "start ready poll returned a non-agent result"),
            },
            None => StartStep::Fail(wrong_answer("ready poll with no declaration")),
        },
        StartPhase::Initial { .. } => match flow.declared {
            Some(started) => StartStep::CompleteInitial {
                started,
                prompt: match result {
                    Ok(HerdrJobResult::Prompt(agent)) => Ok(agent),
                    Ok(_) => Err(
                        HerdrError::Unexpected(
                            "initial message returned a non-prompt result".to_owned(),
                        ),
                    ),
                    Err(error) => Err(error),
                },
            },
            None => StartStep::Wait,
        },
        _ => StartStep::Wait,
    }
}

/// Whether a step follows the failure of a start.
pub open spec fn follows_failure(flow: StartFlow, error: SliceError, step: StartStep) -> bool {
    match (flow.phase, flow.declared) {
        (StartPhase::Initial { .. }, Some(started)) => if flow.intent_committed {
            step matches StartStep::CompleteInitial {
                started: s,
                prompt: Err(HerdrError::Unexpected(text)),
            } && s == started && text@ == error.text()
        } else {
            step == StartStep::AnswerInitial
        },
        (StartPhase::Initial { .. }, None) => step == StartStep::Wait,
        _ => step == StartStep::Fail(error),
    }
}

/// What follows the failure of a start, whatever failed. Once its initial message
/// may have been written, that message is settled; before that it is only told that
/// it was not.
pub fn fail_start(flow: &StartFlow, error: SliceError) -> (step: StartStep)
    ensures
        follows_failure(*flow, error, step),
{
    match (&flow.phase, flow.declared) {
        (StartPhase::Initial { .. }, Some(started)) => if flow.intent_committed {
            StartStep::CompleteInitial {
                started,
                prompt: Err(HerdrError::Unexpected(error.message())),
            }
        } else {
            StartStep::AnswerInitial
        },
        (StartPhase::Initial { .. }, None) => StartStep::Wait,
        _ => StartStep::Fail(error),
    }
}

/// Whether a failure is Herdr's answer to a start that was sent.
pub open spec fn is_refused_start(flow: StartFlow, error: HerdrError) -> bool {
    flow.phase is Sending && error is Rejected
}

/// Whether a step follows the failure of a start's job.
pub open spec fn follows_job_failure(flow: StartFlow, error: HerdrError, step: StartStep) -> bool {
    if is_refused_start(flow, error) {
        match (flow.declared, flow.phase) {
            (Some(declared), StartPhase::Sending { busy_deadline, attempt_index }) => step == (
            StartStep::Apply { declared, attempt_index, busy_deadline, agent: Err(error) }),
            _ => fails_wrong(step, "start send completed with no declaration"@),
        }
    } else {
        follows_failure(flow, SliceError::Herdr(error), step)
    }
}

/// Route a failed start job by what the failure proves.
///
/// A rejection while sending means Herdr read the start and answered no: a decisive
/// outcome that belongs to the coordinator, which retries a busy pane within its
/// budget and records every other refusal against the operation. Transport failures
/// fail at once.
pub fn start_failed(flow: &StartFlow, error: HerdrError) -> (step: StartStep)
    ensures
        follows_job_failure(*flow, error, step),
{
    if let StartPhase::Sending { .. } = &flow.phase {
        if let HerdrError::Rejected { .. } = &error {
            return start_done(flow, Err(error));
        }
    }
    fail_start(flow, SliceError::Herdr(error))
}

/// Whether a step follows the declaration of a start.
pub open spec fn follows_declaration(
    flow: StartFlow,
    reply: Result<(DeclaredStart, u64, u64), SliceError>,
    after: StartFlow,
    step: StartStep,
) -> bool {
    match reply {
        Ok((declared, deadline, busy_deadline)) => after == (StartFlow {
            declared: Some(declared),
            deadline,
            busy_deadline,
            attempt_index: 1,
            intent_committed: flow.intent_committed,
            phase: StartPhase::Opening { busy_deadline, attempt_index: 1 },
        }) && step == StartStep::Open,
        Err(error) => after == flow && step == StartStep::Fail(error),
    }
}

/// What follows the declaration of a start.
pub fn start_declared(
    flow: &mut StartFlow,
    reply: Result<(DeclaredStart, u64, u64), SliceError>,
) -> (step: StartStep)
    ensures
        follows_declaration(*old(flow), reply, *final(flow), step),
{
    match reply {
        Ok((declared, deadline, busy_deadline)) => {
            flow.declared = Some(declared);
            flow.deadline = deadline;
            flow.busy_deadline = busy_deadline;
            flow.attempt_index = 1;
            flow.phase = StartPhase::Opening { busy_deadline, attempt_index: 1 };
            StartStep::Open
        },
        Err(error) => StartStep::Fail(error),
    }
}

/// The attempt after another. The last one is counted again and again.
pub open spec fn next_attempt(attempt: u32) -> u32 {
    if attempt == u32::MAX {
        u32::MAX
    } else {
        (attempt + 1) as u32
    }
}

/// Whether a step follows the check of the pane before another attempt.
pub open spec fn follows_check(
    flow: StartFlow,
    reply: Result<(), SliceError>,
    after: StartFlow,
    step: StartStep,
) -> bool {
    match reply {
        Ok(()) => after == (StartFlow {
            phase: StartPhase::Opening {
                busy_deadline: flow.busy_deadline,
                attempt_index: next_attempt(flow.attempt_index),
            },
            ..flow
        }) && step == StartStep::Open,
        Err(error) => after == flow && step == StartStep::Reject(error),
    }
}

/// What follows the check of the pane before another attempt: it is opened again,
/// or the start is rejected.
pub fn start_checked(flow: &mut StartFlow, reply: Result<(), SliceError>) -> (step: StartStep)
    ensures
        follows_check(*old(flow), reply, *final(flow), step),
{
    match reply {
        Ok(()) => {
            let attempt_index: u32 = if flow.attempt_index == u32::MAX {
                u32::MAX
            } else {
                flow.attempt_index + 1
            };
            flow.phase = StartPhase::Opening { busy_deadline: flow.busy_deadline, attempt_index };
            StartStep::Open
        },
        Err(error) => StartStep::Reject(error),
    }
}

/// What the coordinator makes of the answer to a start.
#[derive(Debug, Clone, Copy, PartialEq, Eq, Structural)]
pub enum StartSubmit {
    /// The runtime was submitted.
    Submitted { declared: DeclaredStart, deadline: u64 },
    /// The pane was busy: try again from that moment.
    BusyRetry {
        declared: DeclaredStart,
        deadline: u64,
        busy_deadline: u64,
        not_before: u64,
        attempt_index: u32,
    },
}

/// Whether a step follows the coordinator's word on the answer to a start.
pub open spec fn follows_application(
    flow: StartFlow,
    reply: Result<StartSubmit, SliceError>,
    after: StartFlow,
    step: StartStep,
) -> bool {
    match reply {
        Ok(StartSubmit::Submitted { declared, deadline }) => after == (StartFlow {
            declared: Some(declared),
            deadline,
            phase: StartPhase::Ready,
            ..flow
        }) && step == StartStep::Wait,
        Ok(
            StartSubmit::BusyRetry {
                declared,
                deadline,
                busy_deadline,
                not_before,
                attempt_index,
            },
        ) => after == (StartFlow {
            declared: Some(declared),
            deadline,
            busy_deadline,
            attempt_index,
            intent_committed: flow.intent_committed,
            phase: StartPhase::Busy { busy_deadline, not_before },
        }) && step == StartStep::Wait,
        Err(error) => after == flow && step == StartStep::Fail(error),
    }
}

/// What follows the coordinator's word on the answer to a start.
pub fn start_applied(flow: &mut StartFlow, reply: Result<StartSubmit, SliceError>) -> (step: StartStep)
    ensures
        follows_application(*old(flow), reply, *final(flow), step),
{
    match reply {
        Ok(StartSubmit::Submitted { declared, deadline }) => {
            flow.declared = Some(declared);
            flow.deadline = deadline;
            flow.phase = StartPhase::Ready;
            StartStep::Wait
        },
        Ok(
            StartSubmit::BusyRetry { declared, deadline, busy_deadline, not_before, attempt_index },
        ) => {
            flow.declared = Some(declared);
            flow.deadline = deadline;
            flow.busy_deadline = busy_deadline;
            flow.attempt_index = attempt_index;
            flow.phase = StartPhase::Busy { busy_deadline, not_before };
            StartStep::Wait
        },
        Err(error) => StartStep::Fail(error),
    }
}

/// What follows the coordinator's word on whether the runtime is ready.
pub open spec fn after_observation(reply: Result<Option<DeclaredStart>, SliceError>) -> StartStep {
    match reply {
        Ok(None) => StartStep::Wait,
        Ok(Some(started)) => StartStep::BeginInitial(started),
        Err(error) => StartStep::Fail(error),
    }
}

/// What follows the coordinator's word on whether the runtime is ready.
pub fn start_observed(reply: Result<Option<DeclaredStart>, SliceError>) -> (step: StartStep)
    ensures
        step == after_observation(reply),
{
    match reply {
        Ok(None) => StartStep::Wait,
        Ok(Some(started)) => StartStep::BeginInitial(started),
        Err(error) => StartStep::Fail(error),
    }
}

/// Whether a step follows the beginning of the initial message.
pub open spec fn follows_initial(
    flow: StartFlow,
    started: DeclaredStart,
    reply: Result<(PreparedPrompt, MessageId), SliceError>,
    after: StartFlow,
    step: StartStep,
) -> bool {
    match reply {
        Ok((prepared, message_id)) => after == (StartFlow {
            declared: Some(started),
            intent_committed: false,
            phase: StartPhase::Initial { prepared, message_id },
            ..flow
        }) && (step matches StartStep::OpenInitial { pane } && pane@ == prepared.pane_id@),
        Err(error) => after == flow && step == StartStep::Fail(error),
    }
}

/// What follows the beginning of the initial message.
pub fn initial_begun(
    flow: &mut StartFlow,
    started: DeclaredStart,
    reply: Result<(PreparedPrompt, MessageId), SliceError>,
) -> (step: StartStep)
    ensures
        follows_initial(*old(flow), started, reply, *final(flow), step),
{
    match reply {
        Ok((prepared, message_id)) => {
            let pane = prepared.pane_id.clone();
            flow.declared = Some(started);
            flow.intent_committed = false;
            flow.phase = StartPhase::Initial { prepared, message_id };
            StartStep::OpenInitial { pane }
        },
        Err(error) => StartStep::Fail(error),
    }
}

/// What a start does in one pass of the daemon's loop.
#[derive(Debug, PartialEq, Eq)]
pub enum StartAdvance {
    /// Nothing yet.
    Wait,
    /// The pane stayed busy: record that the start was rejected, then fail.
    GiveUp(SliceError),
    /// Take a snapshot without a negotiation before the next attempt.
    LookAgain,
    /// Ask whether the runtime is ready, under that request identifier.
    Poll { request_id: String },
    /// It cannot be polled, as nothing was declared.
    Stuck,
}

/// What is said of a pane that stayed busy.
pub open spec fn busy_refusal() -> Seq<char> {
    "pane stayed busy until the start retry budget elapsed"@
}

/// The request that asks whether a runtime is ready.
pub open spec fn ready_request(declared: DeclaredStart) -> Seq<char> {
    "kelpie:start-ready:"@ + uuid_text(declared.operation_id.value as nat)
}

/// Whether an advance is what a start does at a moment.
pub open spec fn is_advance(flow: StartFlow, waits: bool, now: u64, advance: StartAdvance) -> bool {
    if waits {
        advance == StartAdvance::Wait
    } else {
        match flow.phase {
            StartPhase::Busy { busy_deadline, not_before } => if now < not_before {
                advance == StartAdvance::Wait
            } else if now >= busy_deadline {
                advance matches StartAdvance::GiveUp(error) && is_conflict(error, busy_refusal())
            } else {
                advance == StartAdvance::LookAgain
            },
            StartPhase::Ready => match flow.declared {
                Some(declared) => advance matches StartAdvance::Poll { request_id } && request_id@
                    == ready_request(declared),
                None => advance == StartAdvance::Stuck,
            },
            _ => advance == StartAdvance::Wait,
        }
    }
}

/// What a start does in one pass of the daemon's loop. `waits` tells whether it
/// waits for a job.
pub fn advance_start(flow: &StartFlow, waits: bool, now: u64) -> (advance: StartAdvance)
    ensures
        is_advance(*flow, waits, now, advance),
{
    if waits {
        return StartAdvance::Wait;
    }
    match &flow.phase {
        StartPhase::Busy { busy_deadline, not_before } => {
            if now < *not_before {
                StartAdvance::Wait
            } else if now >= *busy_deadline {
                StartAdvance::GiveUp(
                    conflict("pane stayed busy until the start retry budget elapsed"),
                )
            } else {
                StartAdvance::LookAgain
            }
        },
        StartPhase::Ready => match flow.declared {
            Some(declared) => StartAdvance::Poll {
                request_id: "kelpie:start-ready:".to_owned().concat(
                    declared.operation_id.to_text().as_str(),
                ),
            },
            None => StartAdvance::Stuck,
        },
        _ => StartAdvance::Wait,
    }
}

/// A parked start: what is known of it, and what it does.
#[derive(Debug, PartialEq, Eq)]
pub struct StartWork {
    pub flow: StartFlow,
    pub step: StartStep,
}

/// A start that waits for its first snapshot.
pub fn park_start(flow: StartFlow) -> (work: StartWork)
    ensures
        work == (StartWork {
            flow,
            step: StartStep::Look { negotiate: flow.declared is None },
        }),
{
    let negotiate = flow.declared.is_none();
    StartWork { flow, step: StartStep::Look { negotiate } }
}

/// The view of how a start ended.
pub open spec fn launched_view(result: Result<LaunchResult, SliceError>) -> Result<
    JsonView,
    SliceError,
> {
    match result {
        Ok(launched) => Ok(launch_result_view(launched)),
        Err(error) => Err(error),
    }
}

/// The response to a start.
pub fn answer_start<W>(parked: &Parked<W>, result: Result<LaunchResult, SliceError>) -> (response:
    ClientResponse)
    ensures
        response.id@ == parked.request_id@,
        response@ == answer_view(parked.request_id@, launched_view(result)),
{
    match result {
        Ok(launched) => parked.answer(Ok(launch_result(launched))),
        Err(error) => parked.answer(Err(error)),
    }
}

/// What a parked start is told.
#[derive(Debug, PartialEq, Eq)]
pub enum StartEvent {
    /// A pass of the daemon's loop came by at that moment.
    Pass { now: u64 },
    /// Its lane is open.
    Opened,
    /// Its request could not be handed to the worker.
    Unsent,
    /// Its job is over.
    Done(Result<HerdrJobResult, HerdrError>),
    /// Its job failed.
    Failed(HerdrError),
    /// The coordinator declared the start, with its two deadlines.
    Declared(Result<(DeclaredStart, u64, u64), SliceError>),
    /// The coordinator checked the pane.
    Checked(Result<(), SliceError>),
    /// The coordinator recorded the intent of an attempt: the identifier and the
    /// parameters of its request.
    Committed(Result<(String, Json), SliceError>),
    /// The coordinator recorded the intent of the initial message.
    CommittedInitial(Result<(), SliceError>),
    /// The coordinator said what the answer to the start means.
    Applied(Result<StartSubmit, SliceError>),
    /// The coordinator said whether the runtime is ready.
    Observed(Result<Option<DeclaredStart>, SliceError>),
    /// The coordinator began the initial message.
    InitialBegun(Result<(PreparedPrompt, MessageId), SliceError>),
    /// The coordinator told the launch.
    Launched(Result<LaunchResult, SliceError>),
    /// The coordinator recorded the rejection.
    Rejected,
    /// What failed is noted.
    Noted,
}

/// Whether a start waits for a worker.
pub open spec fn waits_for_job(step: StartStep) -> bool {
    step is Look || step is Open || step is OpenInitial || step is Send || step is Poll
}

/// Whether a step follows an open lane.
pub open spec fn follows_open_lane(flow: StartFlow, step: StartStep) -> bool {
    match step {
        StartStep::Commit { declared, attempt_index, busy_deadline } => follows_opening(
            flow,
            (StartOpened::Commit { declared, attempt_index, busy_deadline }),
        ),
        StartStep::CommitInitial => follows_opening(flow, StartOpened::CommitInitial),
        StartStep::Fail(error) => follows_opening(flow, StartOpened::Fail(error)),
        _ => false,
    }
}

/// Whether a start follows a pass of the daemon's loop.
pub open spec fn follows_pass(flow: StartFlow, now: u64, after: StartWork) -> bool {
    match after.step {
        StartStep::Reject(error) => after.flow == flow && is_advance(
            flow,
            false,
            now,
            StartAdvance::GiveUp(error),
        ),
        StartStep::Look { negotiate } => !negotiate && after.flow == (StartFlow {
            phase: StartPhase::Snapshot,
            ..flow
        }) && is_advance(flow, false, now, StartAdvance::LookAgain),
        StartStep::Poll { request_id } => after.flow == flow && is_advance(
            flow,
            false,
            now,
            (StartAdvance::Poll { request_id }),
        ),
        _ => false,
    }
}

/// Whether a start follows another one and an event.
pub open spec fn follows(work: StartWork, event: StartEvent, after: StartWork) -> bool {
    let flow = work.flow;
    match (work.step, event) {
        (StartStep::Wait, StartEvent::Pass { now }) => follows_pass(flow, now, after),
        (StartStep::Open, StartEvent::Opened) => after.flow == flow && follows_open_lane(
            flow,
            after.step,
        ),
        (StartStep::OpenInitial { .. }, StartEvent::Opened) => after.flow == flow
            && follows_open_lane(flow, after.step),
        (StartStep::Send(_), StartEvent::Unsent) => after.flow == flow && if flow.phase is Initial {
            after.step == StartStep::AnswerInitial
        } else {
            fails_wrong(after.step, "herdr lease closed before start send"@)
        },
        (step, StartEvent::Done(result)) => waits_for_job(step) && after.flow == flow
            && follows_result(flow, result, after.step),
        (step, StartEvent::Failed(error)) => waits_for_job(step) && after.flow == flow
            && follows_job_failure(flow, error, after.step),
        (StartStep::Declare(_), StartEvent::Declared(reply)) => follows_declaration(
            flow,
            reply,
            after.flow,
            after.step,
        ),
        (StartStep::CheckPane(_), StartEvent::Checked(reply)) => follows_check(
            flow,
            reply,
            after.flow,
            after.step,
        ),
        (
            StartStep::Commit { busy_deadline, attempt_index, .. },
            StartEvent::Committed(committed),
        ) => match committed {
            Ok((request_id, params)) => after.flow == sending(flow, busy_deadline, attempt_index)
                && (after.step matches StartStep::Send(cmd) && sends(
                cmd,
                start_sent(request_id@, params@),
            )),
            Err(error) => after.flow == flow && follows_failure(flow, error, after.step),
        },
        (StartStep::CommitInitial, StartEvent::CommittedInitial(committed)) => match (
            committed,
            flow.phase,
        ) {
            (Ok(()), StartPhase::Initial { prepared, .. }) => after.flow == (StartFlow {
                intent_committed: true,
                ..flow
            }) && (after.step matches StartStep::Send(cmd) && sends(cmd, initial_sent(prepared))),
            _ => after == (StartWork { flow, step: StartStep::AnswerInitial }),
        },
        (StartStep::Apply { .. }, StartEvent::Applied(reply)) => follows_application(
            flow,
            reply,
            after.flow,
            after.step,
        ),
        (StartStep::Observe { .. }, StartEvent::Observed(reply)) => after == (StartWork {
            flow,
            step: after_observation(reply),
        }),
        (StartStep::BeginInitial(started), StartEvent::InitialBegun(reply)) => follows_initial(
            flow,
            started,
            reply,
            after.flow,
            after.step,
        ),
        (StartStep::CompleteInitial { .. }, StartEvent::Launched(launched)) => after.flow == flow
            && after.step == after_launch(launched),
        (StartStep::AnswerInitial, StartEvent::Launched(launched)) => after.flow == flow
            && after.step == after_launch(launched),
        (StartStep::Reject(error), StartEvent::Rejected) => after == (StartWork {
            flow,
            step: StartStep::Fail(error),
        }),
        (StartStep::Fail(error), StartEvent::Noted) => after == (StartWork {
            flow,
            step: StartStep::Answer(Err(error)),
        }),
        _ => false,
    }
}

/// What follows the coordinator's word on the launch.
pub open spec fn after_launch(launched: Result<LaunchResult, SliceError>) -> StartStep {
    match launched {
        Ok(launched) => StartStep::Answer(Ok(launched)),
        Err(error) => StartStep::Fail(error),
    }
}

/// Whether a start waits for an event.
pub open spec fn waits_for(work: StartWork, event: StartEvent) -> bool {
    match event {
        StartEvent::Pass { now } => work.step is Wait && match work.flow.phase {
            StartPhase::Busy { not_before, .. } => now >= not_before,
            StartPhase::Ready => work.flow.declared is Some,
            _ => false,
        },
        StartEvent::Opened => work.step is Open || work.step is OpenInitial,
        StartEvent::Unsent => work.step is Send,
        StartEvent::Done(_) => waits_for_job(work.step),
        StartEvent::Failed(_) => waits_for_job(work.step),
        StartEvent::Declared(_) => work.step is Declare,
        StartEvent::Checked(_) => work.step is CheckPane,
        StartEvent::Committed(_) => work.step is Commit,
        StartEvent::CommittedInitial(_) => work.step is CommitInitial,
        StartEvent::Applied(_) => work.step is Apply,
        StartEvent::Observed(_) => work.step is Observe,
        StartEvent::InitialBegun(_) => work.step is BeginInitial,
        StartEvent::Launched(_) => work.step is CompleteInitial || work.step is AnswerInitial,
        StartEvent::Rejected => work.step is Reject,
        StartEvent::Noted => work.step is Fail,
    }
}

/// Whether a start goes on under an identifier: the last step answers.
pub open spec fn lands(id: Seq<char>, work: StartWork, next: Next<StartWork>) -> bool {
    match work.step {
        StartStep::Answer(result) => next matches Next::Answer(response) && response.id@ == id
            && response@ == answer_view(id, launched_view(result)),
        _ => next matches Next::Go(parked) && parked.request_id@ == id && parked.work == work,
    }
}

fn land(request_id: String, flow: StartFlow, step: StartStep) -> (next: Next<StartWork>)
    ensures
        lands(request_id@, StartWork { flow, step }, next),
{
    match step {
        StartStep::Answer(result) => {
            let parked = Parked { request_id, work: () };
            Next::Answer(answer_start(&parked, result))
        },
        step => Next::Go(Parked { request_id, work: StartWork { flow, step } }),
    }
}

/// What a parked start does once something happened to it. An event that it does not
/// wait for changes nothing.
pub fn start_next(parked: Parked<StartWork>, event: StartEvent) -> (next: Next<StartWork>)
    ensures
        keeps_id(parked.request_id@, next),
        if waits_for(parked.work, event) {
            exists|after: StartWork| #[trigger]
                follows(parked.work, event, after) && lands(parked.request_id@, after, next)
        } else {
            next == Next::Stay(parked)
        },
{
    let ghost work = parked.work;
    let ghost told = event;
    let request_id = parked.request_id;
    let mut flow = parked.work.flow;
    let after = match (parked.work.step, event) {
        (StartStep::Wait, StartEvent::Pass { now }) => match advance_start(&flow, false, now) {
            StartAdvance::GiveUp(error) => StartStep::Reject(error),
            StartAdvance::LookAgain => {
                flow.phase = StartPhase::Snapshot;
                StartStep::Look { negotiate: false }
            },
            StartAdvance::Poll { request_id } => StartStep::Poll { request_id },
            _ => {
                return Next::Stay(
                    Parked { request_id, work: StartWork { flow, step: StartStep::Wait } },
                );
            },
        },
        (StartStep::Open, StartEvent::Opened)
        | (StartStep::OpenInitial { .. }, StartEvent::Opened) => match start_opened(&flow) {
            StartOpened::Commit { declared, attempt_index, busy_deadline } => StartStep::Commit {
                declared,
                attempt_index,
                busy_deadline,
            },
            StartOpened::CommitInitial => StartStep::CommitInitial,
            StartOpened::Fail(error) => StartStep::Fail(error),
        },
        (StartStep::Send(_), StartEvent::Unsent) => match &flow.phase {
            StartPhase::Initial { .. } => StartStep::AnswerInitial,
            _ => fail_start(&flow, start_unsent()),
        },
        (StartStep::Look { .. }, StartEvent::Done(result))
        | (StartStep::Open, StartEvent::Done(result))
        | (StartStep::OpenInitial { .. }, StartEvent::Done(result))
        | (StartStep::Send(_), StartEvent::Done(result))
        | (StartStep::Poll { .. }, StartEvent::Done(result)) => start_done(&flow, result),
        (StartStep::Look { .. }, StartEvent::Failed(error))
        | (StartStep::Open, StartEvent::Failed(error))
        | (StartStep::OpenInitial { .. }, StartEvent::Failed(error))
        | (StartStep::Send(_), StartEvent::Failed(error))
        | (StartStep::Poll { .. }, StartEvent::Failed(error)) => start_failed(&flow, error),
        (StartStep::Declare(_), StartEvent::Declared(reply)) => start_declared(&mut flow, reply),
        (StartStep::CheckPane(_), StartEvent::Checked(reply)) => start_checked(&mut flow, reply),
        (
            StartStep::Commit { busy_deadline, attempt_index, .. },
            StartEvent::Committed(committed),
        ) => match committed {
            Ok((id, params)) => StartStep::Send(
                start_committed(&mut flow, busy_deadline, attempt_index, id.as_str(), params),
            ),
            Err(error) => fail_start(&flow, error),
        },
        (StartStep::CommitInitial, StartEvent::CommittedInitial(committed)) => match committed {
            Ok(()) => match initial_committed(&mut flow) {
                Some(cmd) => StartStep::Send(cmd),
                None => StartStep::AnswerInitial,
            },
            Err(_) => StartStep::AnswerInitial,
        },
        (StartStep::Apply { .. }, StartEvent::Applied(reply)) => start_applied(&mut flow, reply),
        (StartStep::Observe { .. }, StartEvent::Observed(reply)) => start_observed(reply),
        (StartStep::BeginInitial(started), StartEvent::InitialBegun(reply)) => initial_begun(
            &mut flow,
            started,
            reply,
        ),
        (StartStep::CompleteInitial { .. }, StartEvent::Launched(launched))
        | (StartStep::AnswerInitial, StartEvent::Launched(launched)) => match launched {
            Ok(launched) => StartStep::Answer(Ok(launched)),
            Err(error) => StartStep::Fail(error),
        },
        (StartStep::Reject(error), StartEvent::Rejected) => StartStep::Fail(error),
        (StartStep::Fail(error), StartEvent::Noted) => StartStep::Answer(Err(error)),
        (step, _) => {
            return Next::Stay(Parked { request_id, work: StartWork { flow, step } });
        },
    };
    assert(follows(work, told, (StartWork { flow, step: after })));
    land(request_id, flow, after)
}

/// A start goes in one order: look, declare, open, record, write, wait until ready, then
/// the initial message. Nothing is written before its intent is recorded, a failure is
/// noted before it is told, and only the coordinator's word on the launch ends it well.
pub proof fn law_start_goes_in_order(work: StartWork, event: StartEvent, after: StartWork)
    requires
        follows(work, event, after),
    ensures
        after.step is Declare ==> work.flow.phase is Snapshot && work.flow.declared is None,
        after.step is CheckPane ==> work.flow.phase is Snapshot && work.flow.declared is Some,
        after.step is Open ==> work.step is Declare || work.step is CheckPane,
        after.step is Commit ==> work.step is Open || work.step is OpenInitial,
        after.step is Send ==> (work.step is Commit && (event matches StartEvent::Committed(Ok(_))))
            || (work.step is CommitInitial && (event matches StartEvent::CommittedInitial(Ok(_)))),
        after.step is Apply ==> work.flow.phase is Sending,
        after.step is BeginInitial ==> work.step is Observe,
        after.step is OpenInitial ==> work.step is BeginInitial,
        (after.step matches StartStep::Answer(Ok(_))) ==> event is Launched,
        (after.step matches StartStep::Answer(Err(_))) ==> work.step is Fail && event is Noted,
{
}

/// A busy pane is tried again within its budget and no longer: in a pass the start
/// waits, tries again, or gives up, and it gives up exactly when the budget has
/// elapsed and its pause is over.
pub proof fn law_busy_pane_is_retried_within_its_budget(
    flow: StartFlow,
    now: u64,
    advance: StartAdvance,
)
    requires
        flow.phase is Busy,
        is_advance(flow, false, now, advance),
    ensures
        advance is GiveUp <==> now >= flow.phase->not_before && now
            >= flow.phase->Busy_busy_deadline,
        advance is LookAgain <==> flow.phase->not_before <= now
            < flow.phase->Busy_busy_deadline,
        advance is Wait <==> now < flow.phase->not_before,
{
}

} // verus!
