//! From a client's line to what the daemon does with it.

use vstd::prelude::*;

use super::adopt::{new_adopt, AdoptFlow, AdoptReply, AdoptState, AdoptStep};
use super::clear::{ClearDispatch, ClearStep};
use super::errors::{
    answer_view, invalid, is_invalid, malformed, malformed_view, respond, wrong_answer,
    is_wrong_answer, ClientResponse, SliceError, StoreError,
};
use super::message::MessageOutcome;
use super::params::RetireParams;
use super::parked::Parked;
use super::prompt::{OwingNotice, PreparedPrompt, PromptWork};
use super::reads::{ClientRequest, LookNeed, ReadKind};
use super::rename::{RenamePreflight, RenameState, RenameStep};
use super::results::{
    cancel_result, cancel_result_view, clear_result, clear_result_view, inbox_claimed,
    inbox_claimed_view, CancelOutcome, WaiterRetireOutcome, WaiterRetireOwingNotice,
};
use super::retire::{RetirePreflight, RetireState, RetireStep};
use super::start::{later, new_start, park_start, StartFlow, StartPhase, StartStep, StartWork};
use crate::domain::{AdoptIntent, LogicalAgentId, MessageId};
use crate::json::JsonView;
use crate::text::same;

verus! {

/// What a client can ask for.
#[derive(Debug, Clone, Copy, PartialEq, Eq, Structural)]
pub enum Method {
    Start,
    Handoff,
    InboxClaim,
    Ask,
    Tell,
    Reply,
    Clear,
    Recover,
    Attribution,
    Who,
    Report,
    Whoami,
    Adopt,
    Rename,
    Retire,
    WaiterRegister,
    WaiterRetire,
    Cancel,
    Renew,
    RenewCancel,
    Pending,
    NameInfo,
    AskInfo,
    ReminderSnooze,
    ReminderDisable,
    NoticeCreate,
    NoticeList,
}

impl Method {
    /// The name that a client asks for it by.
    pub open spec fn name(self) -> Seq<char> {
        match self {
            Method::Start => "start"@,
            Method::Handoff => "handoff"@,
            Method::InboxClaim => "inbox.claim"@,
            Method::Ask => "ask"@,
            Method::Tell => "tell"@,
            Method::Reply => "reply"@,
            Method::Clear => "clear"@,
            Method::Recover => "recover"@,
            Method::Attribution => "attribution"@,
            Method::Who => "who"@,
            Method::Report => "report"@,
            Method::Whoami => "whoami"@,
            Method::Adopt => "adopt"@,
            Method::Rename => "rename"@,
            Method::Retire => "retire"@,
            Method::WaiterRegister => "waiter.register"@,
            Method::WaiterRetire => "waiter.retire"@,
            Method::Cancel => "cancel"@,
            Method::Renew => "renew"@,
            Method::RenewCancel => "renew.cancel"@,
            Method::Pending => "pending"@,
            Method::NameInfo => "name.info"@,
            Method::AskInfo => "ask.info"@,
            Method::ReminderSnooze => "reminder.snooze"@,
            Method::ReminderDisable => "reminder.disable"@,
            Method::NoticeCreate => "notice.create"@,
            Method::NoticeList => "notice.list"@,
        }
    }

    /// What a name asks for.
    pub fn of(name: &str) -> (method: Option<Method>)
        ensures
            match method {
                Some(method) => name@ == method.name(),
                None => forall|method: Method| name@ != #[trigger] method.name(),
            },
    {
        if same(name, "start") {
            return Some(Method::Start);
        }
        if same(name, "handoff") {
            return Some(Method::Handoff);
        }
        if same(name, "inbox.claim") {
            return Some(Method::InboxClaim);
        }
        if same(name, "ask") {
            return Some(Method::Ask);
        }
        if same(name, "tell") {
            return Some(Method::Tell);
        }
        if same(name, "reply") {
            return Some(Method::Reply);
        }
        if same(name, "clear") {
            return Some(Method::Clear);
        }
        if same(name, "recover") {
            return Some(Method::Recover);
        }
        if same(name, "attribution") {
            return Some(Method::Attribution);
        }
        if same(name, "who") {
            return Some(Method::Who);
        }
        if same(name, "report") {
            return Some(Method::Report);
        }
        if same(name, "whoami") {
            return Some(Method::Whoami);
        }
        if same(name, "adopt") {
            return Some(Method::Adopt);
        }
        if same(name, "rename") {
            return Some(Method::Rename);
        }
        if same(name, "retire") {
            return Some(Method::Retire);
        }
        if same(name, "waiter.register") {
            return Some(Method::WaiterRegister);
        }
        if same(name, "waiter.retire") {
            return Some(Method::WaiterRetire);
        }
        if same(name, "cancel") {
            return Some(Method::Cancel);
        }
        if same(name, "renew") {
            return Some(Method::Renew);
        }
        if same(name, "renew.cancel") {
            return Some(Method::RenewCancel);
        }
        if same(name, "pending") {
            return Some(Method::Pending);
        }
        if same(name, "name.info") {
            return Some(Method::NameInfo);
        }
        if same(name, "ask.info") {
            return Some(Method::AskInfo);
        }
        if same(name, "reminder.snooze") {
            return Some(Method::ReminderSnooze);
        }
        if same(name, "reminder.disable") {
            return Some(Method::ReminderDisable);
        }
        if same(name, "notice.create") {
            return Some(Method::NoticeCreate);
        }
        if same(name, "notice.list") {
            return Some(Method::NoticeList);
        }
        None
    }
}

/// What the daemon does with a line.
#[derive(Debug, PartialEq, Eq)]
pub enum Line {
    /// Answer with that, and end the connection.
    Answer(ClientResponse),
    /// Serve the request.
    Serve { method: Method, request: ClientRequest },
}

/// Whether a response refuses a request with that text.
pub open spec fn refuses(response: ClientResponse, id: Seq<char>, text: Seq<char>) -> bool {
    exists|error: SliceError|
        is_invalid(error, text) && response@ == #[trigger] answer_view(id, Err(error))
}

/// What the daemon does with a line: a line that is no request is told so without an
/// identifier, and a method that nobody knows is refused.
pub fn serve_line(parsed: Result<ClientRequest, String>) -> (line: Line)
    ensures
        match parsed {
            Err(reason) => line matches Line::Answer(response) && response@ == malformed_view(
                reason@,
            ),
            Ok(request) => match line {
                Line::Serve { method, request: served } => method.name() == request.method@
                    && served == request,
                Line::Answer(response) => (forall|method: Method|
                    request.method@ != #[trigger] method.name()) && refuses(
                    response,
                    request.id@,
                    "unknown client method "@ + request.method@,
                ),
            },
        },
{
    match parsed {
        Err(reason) => Line::Answer(malformed(reason.as_str())),
        Ok(request) => match Method::of(request.method.as_str()) {
            Some(method) => Line::Serve { method, request },
            None => {
                let error = invalid(
                    "unknown client method ".to_owned().concat(request.method.as_str()).as_str(),
                );
                let ghost told = error;
                let response = respond(request.id.as_str(), Err(error));
                assert(response@ == answer_view(request.id@, Err(told)));
                Line::Answer(response)
            },
        },
    }
}

/// What becomes of a request whose parameters cannot be read.
#[derive(Debug, PartialEq, Eq)]
pub enum Misread {
    /// The connection ends without an answer, for that reason.
    HangUp(String),
    /// Answer with that, and end the connection.
    Answer(ClientResponse),
}

/// Whether a method ends the connection where its parameters cannot be read.
pub open spec fn hangs_up(method: Method) -> bool {
    method is Report || method is Adopt || method is Rename || method is Retire
        || method is WaiterRetire
}

/// What becomes of a request whose parameters cannot be read.
pub fn misread(method: Method, request_id: &str, reason: &str) -> (misread: Misread)
    ensures
        match misread {
            Misread::HangUp(told) => hangs_up(method) && told@ == reason@,
            Misread::Answer(response) => !hangs_up(method) && refuses(
                response,
                request_id@,
                reason@,
            ),
        },
{
    match method {
        Method::Report | Method::Adopt | Method::Rename | Method::Retire
        | Method::WaiterRetire => Misread::HangUp(reason.to_owned()),
        _ => {
            let error = invalid(reason);
            let ghost told = error;
            let response = respond(request_id, Err(error));
            assert(response@ == answer_view(request_id@, Err(told)));
            Misread::Answer(response)
        },
    }
}

/// One notice of a cancellation, for the waiting or the owing audience.
#[derive(Debug, PartialEq, Eq)]
pub struct CancelPrompt {
    pub prepared: PreparedPrompt,
    pub waiting: bool,
}

/// A cancellation before its notices went out.
#[derive(Debug, PartialEq, Eq)]
pub struct PendingCancel {
    pub outcome: CancelOutcome,
    pub prompts: Vec<CancelPrompt>,
}

/// The prompt of a notice that the retirement of a socket waiter owes.
#[derive(Debug, PartialEq, Eq)]
pub struct OwingPrompt {
    pub ask_message_id: MessageId,
    pub prepared: PreparedPrompt,
}

/// What the coordinator prepared for the retirement of a socket waiter: the asks that end
/// with it, the notices it owes, and the prompts of those that somebody can be told.
#[derive(Debug, PartialEq, Eq)]
pub struct PreparedWaiterRetire {
    pub cancelled_ask_ids: Vec<MessageId>,
    pub notices: Vec<OwingNotice>,
    pub prompts: Vec<OwingPrompt>,
}

/// The retirement of a socket waiter before its notices went out.
#[derive(Debug, PartialEq, Eq)]
pub struct PendingWaiterRetire {
    pub agent: LogicalAgentId,
    pub prepared: PreparedWaiterRetire,
}

/// What serving a request produced. What waits keeps the identifier of the request.
#[derive(Debug, PartialEq, Eq)]
pub enum Served {
    /// The response ends the connection.
    Answered(ClientResponse),
    /// A start was accepted; the connection waits for its readiness outcome.
    Start(Parked<StartWork>),
    /// A clear waits for prompt spacing or for the rotation of the backend's session.
    Clear(Parked<ClearStep>),
    /// A socket waiter claimed the connection as its inbox: it is told so, and the
    /// connection stays.
    Inbox { waiter_id: LogicalAgentId, response: ClientResponse },
    /// A message waits for its write.
    Prompt(Parked<PromptWork>),
    /// A cancellation waits for its notices.
    Cancel(Parked<PendingCancel>),
    /// The retirement of a socket waiter waits for its notices.
    WaiterRetire(Parked<PendingWaiterRetire>),
    /// The request waits for a look at Herdr.
    Read(Parked<ReadKind>),
    /// An adoption waits for its snapshot.
    Adopt(Parked<AdoptFlow>),
    /// A rename waits for its snapshot.
    Rename(Parked<RenameStep>),
    /// A retirement waits for its snapshot.
    Retire(Parked<RetireStep>),
}

impl Served {
    /// The identifier that the client is answered under, now or later.
    pub open spec fn request_id(self) -> Seq<char> {
        match self {
            Served::Answered(response) => response.id@,
            Served::Start(parked) => parked.request_id@,
            Served::Clear(parked) => parked.request_id@,
            Served::Inbox { response, .. } => response.id@,
            Served::Prompt(parked) => parked.request_id@,
            Served::Cancel(parked) => parked.request_id@,
            Served::WaiterRetire(parked) => parked.request_id@,
            Served::Read(parked) => parked.request_id@,
            Served::Adopt(parked) => parked.request_id@,
            Served::Rename(parked) => parked.request_id@,
            Served::Retire(parked) => parked.request_id@,
        }
    }
}

/// Whether a request is answered with an error.
pub open spec fn answers_error(served: Served, id: Seq<char>, error: SliceError) -> bool {
    served matches Served::Answered(response) && response@ == answer_view(id, Err(error))
}

/// Whether a request is answered with a result.
pub open spec fn answers_result(served: Served, id: Seq<char>, result: JsonView) -> bool {
    served matches Served::Answered(response) && response@ == answer_view(id, Ok(result))
}

/// Whether that is what becomes of a start once the coordinator has checked it.
pub open spec fn is_start(
    served: Served,
    id: Seq<char>,
    checked: Result<(), SliceError>,
    now: u64,
    readiness_timeout_ms: u64,
) -> bool {
    &&& served.request_id() == id
    &&& match checked {
        Ok(()) => served matches Served::Start(parked) && parked.work == (StartWork {
            flow: StartFlow {
                declared: None,
                deadline: later(now, readiness_timeout_ms),
                busy_deadline: later(now, readiness_timeout_ms),
                attempt_index: 1,
                intent_committed: false,
                phase: StartPhase::Snapshot,
            },
            step: StartStep::Look { negotiate: true },
        }),
        Err(error) => answers_error(served, id, error),
    }
}

/// A start or a handoff, once the coordinator has checked it. It has as long as its
/// runtime may take to become ready.
pub fn serve_start(
    request_id: &str,
    checked: Result<(), SliceError>,
    now: u64,
    readiness_timeout_ms: u64,
) -> (served: Served)
    ensures
        is_start(served, request_id@, checked, now, readiness_timeout_ms),
{
    match checked {
        Ok(()) => Served::Start(
            Parked::new(request_id, park_start(new_start(now, readiness_timeout_ms))),
        ),
        Err(error) => Served::Answered(respond(request_id, Err(error))),
    }
}

/// Whether that is what becomes of the claim of an inbox.
pub open spec fn is_claim(
    served: Served,
    id: Seq<char>,
    waiter_id: LogicalAgentId,
    claimed: Result<(), StoreError>,
) -> bool {
    &&& served.request_id() == id
    &&& match claimed {
        Ok(()) => served matches Served::Inbox { waiter_id: waiter, response } && waiter
            == waiter_id && response@ == answer_view(
            id,
            Ok(inbox_claimed_view(waiter_id)),
        ),
        Err(error) => answers_error(served, id, SliceError::Store(error)),
    }
}

/// The claim of an inbox, once the store has ruled on it.
pub fn serve_inbox_claim(
    request_id: &str,
    waiter_id: LogicalAgentId,
    claimed: Result<(), StoreError>,
) -> (served: Served)
    ensures
        is_claim(served, request_id@, waiter_id, claimed),
{
    match claimed {
        Ok(()) => Served::Inbox {
            waiter_id,
            response: respond(request_id, Ok(inbox_claimed(waiter_id))),
        },
        Err(error) => Served::Answered(respond(request_id, Err(SliceError::Store(error)))),
    }
}

/// A message or a clear whose alias nobody holds yet waits for a look, and goes on
/// after it.
pub fn serve_bind(request: ClientRequest, alias: String, lazy_key: String) -> (served: Served)
    ensures
        served.request_id() == request.id@,
        served matches Served::Read(parked) && parked.work == (ReadKind::Alias {
            alias,
            lazy_key,
            resume: request,
        }),
{
    let request_id = request.id.clone();
    Served::Read(Parked { request_id, work: ReadKind::Alias { alias, lazy_key, resume: request } })
}

/// Whether that is what becomes of a recorded message.
pub open spec fn is_message(
    served: Served,
    id: Seq<char>,
    outcome: Result<MessageOutcome, SliceError>,
) -> bool {
    &&& served.request_id() == id
    &&& match outcome {
        Ok(MessageOutcome { result, prepared: None, .. }) => answers_result(
            served,
            id,
            result@,
        ),
        Ok(MessageOutcome { result, prepared: Some(prepared), reply_to }) => {
            served matches Served::Prompt(parked) && parked.work == (PromptWork {
                result,
                prepared,
                reply_to,
            })
        },
        Err(error) => answers_error(served, id, error),
    }
}

/// A message, once the coordinator has recorded it.
pub fn serve_message(request_id: &str, outcome: Result<MessageOutcome, SliceError>) -> (served:
    Served)
    ensures
        is_message(served, request_id@, outcome),
{
    match outcome {
        Ok(MessageOutcome { result, prepared: None, .. }) => Served::Answered(
            respond(request_id, Ok(result)),
        ),
        Ok(MessageOutcome { result, prepared: Some(prepared), reply_to }) => Served::Prompt(
            Parked::new(request_id, PromptWork { result, prepared, reply_to }),
        ),
        Err(error) => Served::Answered(respond(request_id, Err(error))),
    }
}

/// A clear, once the coordinator has begun it.
pub fn serve_clear(request_id: &str, begun: Result<ClearDispatch, SliceError>) -> (served: Served)
    ensures
        served.request_id() == request_id@,
        match begun {
            Ok(ClearDispatch::Complete(cleared)) => answers_result(
                served,
                request_id@,
                clear_result_view(cleared),
            ),
            Ok(ClearDispatch::Awaiting(state)) => served matches Served::Clear(parked)
                && parked.work == (ClearStep::Rest { state }),
            Err(error) => answers_error(served, request_id@, error),
        },
{
    match begun {
        Ok(ClearDispatch::Complete(cleared)) => Served::Answered(
            respond(request_id, Ok(clear_result(cleared))),
        ),
        Ok(ClearDispatch::Awaiting(state)) => Served::Clear(
            Parked::new(request_id, ClearStep::Rest { state }),
        ),
        Err(error) => Served::Answered(respond(request_id, Err(error))),
    }
}

/// What a request that may need a look does next.
#[derive(Debug, PartialEq, Eq)]
pub enum Looked<'a> {
    /// That was it.
    Served(Served),
    /// Do that first.
    Ask(LookNeed<'a>),
}

/// A request that may need a look: parked, refused, or asked about further.
pub fn serve_look<'a>(request_id: &str, need: Result<LookNeed<'a>, SliceError>) -> (looked: Looked<
    'a,
>)
    ensures
        match need {
            Ok(LookNeed::Park(kind)) => looked matches Looked::Served(Served::Read(parked))
                && parked.request_id@ == request_id@ && parked.work == kind,
            Ok(other) => looked == Looked::Ask(other),
            Err(error) => looked matches Looked::Served(served) && served.request_id()
                == request_id@ && answers_error(served, request_id@, error),
        },
{
    match need {
        Ok(LookNeed::Park(kind)) => Looked::Served(Served::Read(Parked::new(request_id, kind))),
        Ok(other) => Looked::Ask(other),
        Err(error) => Looked::Served(Served::Answered(respond(request_id, Err(error)))),
    }
}

/// A recovery waits for a look.
pub fn serve_recover(request_id: &str) -> (served: Served)
    ensures
        served.request_id() == request_id@,
        served matches Served::Read(parked) && parked.work == ReadKind::Recover,
{
    Served::Read(Parked::new(request_id, ReadKind::Recover))
}

/// An adoption waits for its snapshot.
pub fn serve_adopt(request_id: &str, intent: AdoptIntent) -> (served: Served)
    ensures
        served.request_id() == request_id@,
        served matches Served::Adopt(parked) && parked.work.reply == AdoptReply::Rpc
            && parked.work.resume is None && parked.work.pane@ == intent.pane_id@
            && parked.work.step == (AdoptStep::First { state: AdoptState::Snapshot(intent) }),
{
    Served::Adopt(Parked::new(request_id, new_adopt(intent)))
}

/// Whether that is what becomes of a prepared rename.
pub open spec fn is_rename(
    served: Served,
    id: Seq<char>,
    prepared: Result<RenamePreflight, SliceError>,
) -> bool {
    &&& served.request_id() == id
    &&& match prepared {
        Ok(preflight) => served matches Served::Rename(parked) && parked.work == (RenameStep::First {
            state: RenameState::Snapshot(preflight),
        }),
        Err(error) => answers_error(served, id, error),
    }
}

/// A rename, once the coordinator has prepared it.
pub fn serve_rename(request_id: &str, prepared: Result<RenamePreflight, SliceError>) -> (served:
    Served)
    ensures
        is_rename(served, request_id@, prepared),
{
    match prepared {
        Ok(preflight) => Served::Rename(
            Parked::new(request_id, RenameStep::First { state: RenameState::Snapshot(preflight) }),
        ),
        Err(error) => Served::Answered(respond(request_id, Err(error))),
    }
}

/// How a retirement is served.
#[derive(Debug, Clone, Copy, PartialEq, Eq, Structural)]
pub enum RetireRoute {
    /// The coordinator retires it at once, and its pane stays.
    AtOnce,
    /// The coordinator prepares to close its pane.
    Close,
}

/// How a retirement is served: without a word the pane stays.
pub fn retire_route(params: &RetireParams) -> (route: RetireRoute)
    ensures
        route == if params.close_pane {
            RetireRoute::Close
        } else {
            RetireRoute::AtOnce
        },
{
    if params.close_pane {
        RetireRoute::Close
    } else {
        RetireRoute::AtOnce
    }
}

/// Whether that is what becomes of a prepared retirement.
pub open spec fn is_retire(
    served: Served,
    id: Seq<char>,
    prepared: Result<RetirePreflight, SliceError>,
) -> bool {
    &&& served.request_id() == id
    &&& match prepared {
        Ok(preflight) => served matches Served::Retire(parked) && parked.work == (RetireStep::First {
            state: RetireState::Snapshot(preflight),
        }),
        Err(error) => answers_error(served, id, error),
    }
}

/// A retirement that closes its pane, once the coordinator has prepared it.
pub fn serve_retire(request_id: &str, prepared: Result<RetirePreflight, SliceError>) -> (served:
    Served)
    ensures
        is_retire(served, request_id@, prepared),
{
    match prepared {
        Ok(preflight) => Served::Retire(
            Parked::new(request_id, RetireStep::First { state: RetireState::Snapshot(preflight) }),
        ),
        Err(error) => Served::Answered(respond(request_id, Err(error))),
    }
}

/// Whether that is what becomes of the prepared retirement of a socket waiter.
pub open spec fn is_waiter_retire(
    served: Served,
    id: Seq<char>,
    agent: LogicalAgentId,
    prepared: Result<PreparedWaiterRetire, SliceError>,
) -> bool {
    &&& served.request_id() == id
    &&& match prepared {
        Ok(prepared) => served matches Served::WaiterRetire(parked) && parked.work == (
        PendingWaiterRetire { agent, prepared }),
        Err(error) => answers_error(served, id, error),
    }
}

/// The retirement of a socket waiter, once the coordinator has prepared it.
pub fn serve_waiter_retire(
    request_id: &str,
    agent: LogicalAgentId,
    prepared: Result<PreparedWaiterRetire, SliceError>,
) -> (served: Served)
    ensures
        is_waiter_retire(served, request_id@, agent, prepared),
{
    match prepared {
        Ok(prepared) => Served::WaiterRetire(
            Parked::new(request_id, PendingWaiterRetire { agent, prepared }),
        ),
        Err(error) => Served::Answered(respond(request_id, Err(error))),
    }
}

/// Whether that is what becomes of a recorded cancellation.
pub open spec fn is_cancel(
    served: Served,
    id: Seq<char>,
    prepared: Result<PendingCancel, SliceError>,
) -> bool {
    &&& served.request_id() == id
    &&& match prepared {
        Ok(pending) => if pending.prompts@.len() == 0 {
            answers_result(served, id, cancel_result_view(pending.outcome))
        } else {
            served matches Served::Cancel(parked) && parked.work == pending
        },
        Err(error) => answers_error(served, id, error),
    }
}

/// A cancellation, once the coordinator has recorded it, with the notices it prepared.
/// Without any it is answered at once.
pub fn serve_cancel(request_id: &str, prepared: Result<PendingCancel, SliceError>) -> (served:
    Served)
    ensures
        is_cancel(served, request_id@, prepared),
{
    match prepared {
        Ok(pending) => if pending.prompts.len() == 0 {
            Served::Answered(respond(request_id, Ok(cancel_result(pending.outcome))))
        } else {
            Served::Cancel(Parked::new(request_id, pending))
        },
        Err(error) => Served::Answered(respond(request_id, Err(error))),
    }
}

/// The adoption that one request, served by itself, settles at once.
pub fn inline_adopt(step: &AdoptStep) -> (intent: Result<&AdoptIntent, SliceError>)
    ensures
        match step {
            AdoptStep::First { state: AdoptState::Snapshot(wanted) } => intent matches Ok(intent)
                && *intent == *wanted,
            _ => intent matches Err(error) && is_wrong_answer(
                error,
                "inline adopt is missing its snapshot intent"@,
            ),
        },
{
    match step {
        AdoptStep::First { state: AdoptState::Snapshot(intent) } => Ok(intent),
        _ => Err(wrong_answer("inline adopt is missing its snapshot intent")),
    }
}

/// The rename that one request, served by itself, settles at once.
pub fn inline_rename(step: &RenameStep) -> (preflight: Result<&RenamePreflight, SliceError>)
    ensures
        match step {
            RenameStep::First { state: RenameState::Snapshot(wanted) } => {
                preflight matches Ok(preflight) && *preflight == *wanted
            },
            _ => preflight matches Err(error) && is_wrong_answer(
                error,
                "inline rename is missing its snapshot intent"@,
            ),
        },
{
    match step {
        RenameStep::First { state: RenameState::Snapshot(preflight) } => Ok(preflight),
        _ => Err(wrong_answer("inline rename is missing its snapshot intent")),
    }
}

/// The retirement that one request, served by itself, settles at once.
pub fn inline_retire(step: &RetireStep) -> (preflight: Result<&RetirePreflight, SliceError>)
    ensures
        match step {
            RetireStep::First { state: RetireState::Snapshot(wanted) } => {
                preflight matches Ok(preflight) && *preflight == *wanted
            },
            _ => preflight matches Err(error) && is_wrong_answer(
                error,
                "inline retire is missing its snapshot intent"@,
            ),
        },
{
    match step {
        RetireStep::First { state: RetireState::Snapshot(preflight) } => Ok(preflight),
        _ => Err(wrong_answer("inline retire is missing its snapshot intent")),
    }
}

/// One notice of a cancellation went out, or failed and ends it.
pub fn inline_cancel_notice(
    outcome: &mut CancelOutcome,
    waiting: bool,
    sent: Result<bool, SliceError>,
) -> (r: Result<(), SliceError>)
    ensures
        match sent {
            Ok(delivered) => r == Ok::<(), SliceError>(()) && *final(outcome) == if waiting {
                CancelOutcome { delivered, ..*old(outcome) }
            } else {
                CancelOutcome { owing_delivered: delivered, ..*old(outcome) }
            },
            Err(error) => r == Err::<(), SliceError>(error) && *final(outcome) == *old(outcome),
        },
{
    match sent {
        Ok(delivered) => {
            if waiting {
                outcome.delivered = delivered;
            } else {
                outcome.owing_delivered = delivered;
            }
            Ok(())
        },
        Err(error) => Err(error),
    }
}

/// One notice of the retirement of a socket waiter went out, had nobody to go to, or
/// failed and ends it.
pub fn inline_waiter_notice(
    outcome: &mut WaiterRetireOutcome,
    notice: OwingNotice,
    sent: Option<Result<bool, SliceError>>,
) -> (r: Result<(), SliceError>)
    ensures
        final(outcome).cancelled_ask_ids@ == old(outcome).cancelled_ask_ids@,
        match sent {
            Some(Err(error)) => r == Err::<(), SliceError>(error) && final(outcome).owing_notices@
                == old(outcome).owing_notices@,
            _ => r == Ok::<(), SliceError>(()) && final(outcome).owing_notices@ == old(
                outcome,
            ).owing_notices@.push(
                WaiterRetireOwingNotice {
                    ask_message_id: notice.ask_message_id,
                    message_id: notice.message_id,
                    delivered: sent matches Some(Ok(delivered)) && delivered,
                },
            ),
        },
{
    let delivered = match sent {
        Some(Ok(delivered)) => delivered,
        Some(Err(error)) => return Err(error),
        None => false,
    };
    outcome.owing_notices.push(
        WaiterRetireOwingNotice {
            ask_message_id: notice.ask_message_id,
            message_id: notice.message_id,
            delivered,
        },
    );
    Ok(())
}

} // verus!
