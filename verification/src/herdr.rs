//! Herdr's newline-delimited JSON socket protocol: what is asked, how an answer
//! is read, and what goes wrong.

use vstd::prelude::*;

use crate::json::{empty_object, text_view, Json, JsonView};
use crate::json_text::{json_failure, json_of, json_text, parse_json, show_json};
use crate::text::{decimal, decimal_text, has_prefix, leads, same};

verus! {

/// Exact Herdr protocol Kelpie supports.
pub const SUPPORTED_PROTOCOL: u32 = 20;

/// A minimal observed agent identity from Herdr.
#[derive(Debug, PartialEq, Eq)]
pub struct AgentObservation {
    pub terminal_id: String,
    pub pane_id: String,
    pub name: Option<String>,
    pub agent: Option<String>,
    pub interactive_ready: bool,
    pub launch_pending: bool,
    /// Backend-native conversation reference when Herdr provides it.
    pub agent_session: Option<Json>,
}

/// The view of an observed agent identity.
pub struct AgentView {
    pub terminal_id: Seq<char>,
    pub pane_id: Seq<char>,
    pub name: Option<Seq<char>>,
    pub agent: Option<Seq<char>>,
    pub interactive_ready: bool,
    pub launch_pending: bool,
    pub agent_session: Option<JsonView>,
}

/// The view of a text that may be absent.
pub open spec fn optional_view(text: Option<String>) -> Option<Seq<char>> {
    match text {
        Some(text) => Some(text@),
        None => None,
    }
}

fn optional_clone(text: &Option<String>) -> (r: Option<String>)
    ensures
        optional_view(r) == optional_view(*text),
{
    match text {
        Some(text) => Some(text.clone()),
        None => None,
    }
}

impl AgentObservation {
    pub open spec fn view(&self) -> AgentView {
        AgentView {
            terminal_id: self.terminal_id@,
            pane_id: self.pane_id@,
            name: optional_view(self.name),
            agent: optional_view(self.agent),
            interactive_ready: self.interactive_ready,
            launch_pending: self.launch_pending,
            agent_session: match self.agent_session {
                Some(session) => Some(session@),
                None => None,
            },
        }
    }
}

impl Clone for AgentObservation {
    fn clone(&self) -> (r: Self)
        ensures
            r@ == self@,
    {
        AgentObservation {
            terminal_id: self.terminal_id.clone(),
            pane_id: self.pane_id.clone(),
            name: optional_clone(&self.name),
            agent: optional_clone(&self.agent),
            interactive_ready: self.interactive_ready,
            launch_pending: self.launch_pending,
            agent_session: match &self.agent_session {
                Some(session) => Some(session.clone()),
                None => None,
            },
        }
    }
}

/// Herdr's current observed lifecycle status for an agent runtime.
#[derive(Debug, Clone, Copy, PartialEq, Eq, Structural)]
pub enum AgentStatus {
    Idle,
    Working,
    Blocked,
    Done,
    Unknown,
}

impl Default for AgentStatus {
    fn default() -> (status: Self)
        ensures
            status == AgentStatus::Unknown,
    {
        AgentStatus::Unknown
    }
}

impl AgentStatus {
    /// How a status is written.
    pub open spec fn name(self) -> Seq<char> {
        match self {
            AgentStatus::Idle => "idle"@,
            AgentStatus::Working => "working"@,
            AgentStatus::Blocked => "blocked"@,
            AgentStatus::Done => "done"@,
            AgentStatus::Unknown => "unknown"@,
        }
    }

    /// How a status is written.
    pub fn label(&self) -> (label: &'static str)
        ensures
            label@ == self.name(),
    {
        match self {
            AgentStatus::Idle => "idle",
            AgentStatus::Working => "working",
            AgentStatus::Blocked => "blocked",
            AgentStatus::Done => "done",
            AgentStatus::Unknown => "unknown",
        }
    }
}

/// Exact live identity plus Herdr's current lifecycle observation.
#[derive(Debug, PartialEq, Eq)]
pub struct LifecycleObservation {
    pub agent: AgentObservation,
    pub agent_status: AgentStatus,
}

impl LifecycleObservation {
    pub open spec fn view(&self) -> (AgentView, AgentStatus) {
        (self.agent@, self.agent_status)
    }
}

impl Clone for LifecycleObservation {
    fn clone(&self) -> (r: Self)
        ensures
            r@ == self@,
    {
        LifecycleObservation { agent: self.agent.clone(), agent_status: self.agent_status }
    }
}

/// A minimal live pane identity from Herdr's authoritative snapshot.
#[derive(Debug, PartialEq, Eq)]
pub struct PaneObservation {
    pub pane_id: String,
    pub terminal_id: String,
    pub cwd: Option<String>,
}

/// The view of a live pane identity.
pub struct PaneView {
    pub pane_id: Seq<char>,
    pub terminal_id: Seq<char>,
    pub cwd: Option<Seq<char>>,
}

impl PaneObservation {
    pub open spec fn view(&self) -> PaneView {
        PaneView {
            pane_id: self.pane_id@,
            terminal_id: self.terminal_id@,
            cwd: optional_view(self.cwd),
        }
    }
}

impl Clone for PaneObservation {
    fn clone(&self) -> (r: Self)
        ensures
            r@ == self@,
    {
        PaneObservation {
            pane_id: self.pane_id.clone(),
            terminal_id: self.terminal_id.clone(),
            cwd: optional_clone(&self.cwd),
        }
    }
}

/// Authoritative present-state baseline returned by Herdr.
#[derive(Debug, PartialEq, Eq)]
pub struct Snapshot {
    pub protocol: u32,
    pub panes: Vec<PaneObservation>,
    pub agents: Vec<AgentObservation>,
}

/// The view of a baseline.
pub struct SnapshotView {
    pub protocol: u32,
    pub panes: Seq<PaneView>,
    pub agents: Seq<AgentView>,
}

impl Snapshot {
    pub open spec fn view(&self) -> SnapshotView {
        SnapshotView {
            protocol: self.protocol,
            panes: self.panes@.map_values(|pane: PaneObservation| pane@),
            agents: self.agents@.map_values(|agent: AgentObservation| agent@),
        }
    }
}

impl Clone for Snapshot {
    fn clone(&self) -> (r: Self)
        ensures
            r@ == self@,
    {
        let mut panes: Vec<PaneObservation> = Vec::new();
        let mut i: usize = 0;
        while i < self.panes.len()
            invariant
                i <= self.panes@.len(),
                panes@.len() == i,
                forall|j: int| 0 <= j < i ==> (#[trigger] panes@[j])@ == self.panes@[j]@,
            decreases self.panes@.len() - i,
        {
            panes.push(self.panes[i].clone());
            i = i + 1;
        }
        let mut agents: Vec<AgentObservation> = Vec::new();
        let mut k: usize = 0;
        while k < self.agents.len()
            invariant
                k <= self.agents@.len(),
                agents@.len() == k,
                forall|j: int| 0 <= j < k ==> (#[trigger] agents@[j])@ == self.agents@[j]@,
            decreases self.agents@.len() - k,
        {
            agents.push(self.agents[k].clone());
            k = k + 1;
        }
        let r = Snapshot { protocol: self.protocol, panes, agents };
        assert(r@.panes =~= self@.panes);
        assert(r@.agents =~= self@.agents);
        r
    }
}

/// Errors retain transport and Herdr rejection distinctions.
#[derive(Debug, PartialEq, Eq)]
pub enum HerdrError {
    /// The transport failed, and how.
    Unavailable(String),
    /// The response could not be read, and why.
    Malformed(String),
    Rejected { code: String, message: String },
    Incompatible { actual: u32, supported: u32 },
    Unexpected(String),
    /// Readiness was not proved within that many milliseconds.
    ReadinessTimeout(u64),
}

impl Clone for HerdrError {
    fn clone(&self) -> (r: Self)
        ensures
            r == *self,
    {
        match self {
            HerdrError::Unavailable(source) => HerdrError::Unavailable(source.clone()),
            HerdrError::Malformed(source) => HerdrError::Malformed(source.clone()),
            HerdrError::Rejected { code, message } => HerdrError::Rejected {
                code: code.clone(),
                message: message.clone(),
            },
            HerdrError::Incompatible { actual, supported } => HerdrError::Incompatible {
                actual: *actual,
                supported: *supported,
            },
            HerdrError::Unexpected(message) => HerdrError::Unexpected(message.clone()),
            HerdrError::ReadinessTimeout(limit) => HerdrError::ReadinessTimeout(*limit),
        }
    }
}

/// The `Debug` text of a `std::time::Duration` of that many milliseconds.
pub uninterp spec fn duration_debug(ms: u64) -> Seq<char>;

/// The `Debug` text of `std::time::Duration::from_millis`. It is a function of
/// the duration alone; what it looks like is not stated.
#[verifier::external_body]
fn show_duration(ms: u64) -> (text: String)
    ensures
        text@ == duration_debug(ms),
{
    format!("{:?}", std::time::Duration::from_millis(ms))
}

impl HerdrError {
    /// The message that explains the failure.
    pub open spec fn text(&self) -> Seq<char> {
        match self {
            HerdrError::Unavailable(source) => "Herdr is unavailable: "@ + source@,
            HerdrError::Malformed(source) => "Herdr response was malformed: "@ + source@,
            HerdrError::Rejected { code, message } => "Herdr rejected the request with "@ + code@
                + ": "@ + message@,
            HerdrError::Incompatible { actual, supported } => "Herdr protocol "@ + decimal_text(
                *actual as nat,
            ) + " is incompatible; supported protocol is "@ + decimal_text(*supported as nat),
            HerdrError::Unexpected(what) => "Herdr returned unexpected result type "@ + what@,
            HerdrError::ReadinessTimeout(
                limit,
            ) => "Herdr did not prove agent readiness before the "@ + duration_debug(*limit)
                + " deadline"@,
        }
    }

    /// The message that explains the failure.
    pub fn message(&self) -> (text: String)
        ensures
            text@ == self.text(),
    {
        match self {
            HerdrError::Unavailable(source) => "Herdr is unavailable: ".to_owned().concat(
                source.as_str(),
            ),
            HerdrError::Malformed(source) => "Herdr response was malformed: ".to_owned().concat(
                source.as_str(),
            ),
            HerdrError::Rejected {
                code,
                message,
            } => "Herdr rejected the request with ".to_owned().concat(code.as_str()).concat(
                ": ",
            ).concat(message.as_str()),
            HerdrError::Incompatible { actual, supported } => "Herdr protocol ".to_owned().concat(
                decimal(*actual as u64).as_str(),
            ).concat(" is incompatible; supported protocol is ").concat(
                decimal(*supported as u64).as_str(),
            ),
            HerdrError::Unexpected(
                what,
            ) => "Herdr returned unexpected result type ".to_owned().concat(what.as_str()),
            HerdrError::ReadinessTimeout(
                limit,
            ) => "Herdr did not prove agent readiness before the ".to_owned().concat(
                show_duration(*limit).as_str(),
            ).concat(" deadline"),
        }
    }
}

/// Whether an outcome is a failure with an unexpected answer of that kind.
pub open spec fn is_unexpected<T>(r: Result<T, HerdrError>, what: Seq<char>) -> bool {
    r matches Err(HerdrError::Unexpected(text)) && text@ == what
}

fn unexpected(what: &str) -> (e: HerdrError)
    ensures
        e matches HerdrError::Unexpected(text) && text@ == what@,
{
    HerdrError::Unexpected(what.to_owned())
}

/// Refuse every protocol but the supported one.
pub fn validate_protocol(protocol: u32) -> (r: Result<(), HerdrError>)
    ensures
        r == if protocol == SUPPORTED_PROTOCOL {
            Ok::<(), HerdrError>(())
        } else {
            Err(
                (HerdrError::Incompatible { actual: protocol, supported: SUPPORTED_PROTOCOL }),
            )
        },
{
    if protocol == SUPPORTED_PROTOCOL {
        Ok(())
    } else {
        Err(HerdrError::Incompatible { actual: protocol, supported: SUPPORTED_PROTOCOL })
    }
}

/// One request to Herdr.
#[derive(Debug, PartialEq, Eq)]
pub struct HerdrRequest {
    pub id: String,
    pub method: &'static str,
    pub params: Json,
}

/// The document of one request.
pub open spec fn document_view(id: Seq<char>, method: Seq<char>, params: JsonView) -> JsonView {
    empty_object().with("id"@, text_view(id)).with("method"@, text_view(method)).with(
        "params"@,
        params,
    )
}

impl HerdrRequest {
    /// Whether this is the request of that identifier, method and params.
    pub open spec fn is(self, id: Seq<char>, method: Seq<char>, params: JsonView) -> bool {
        self.id@ == id && self.method@ == method && self.params@ == params
    }

    /// The document that goes over the socket.
    pub fn document(&self) -> (document: Json)
        ensures
            document@ == document_view(self.id@, self.method@, self.params@),
    {
        Json::object().with("id", Json::text(self.id.as_str())).with(
            "method",
            Json::text(self.method),
        ).with("params", self.params.clone())
    }

    /// The line that goes over the socket.
    pub fn line(&self) -> (line: String)
        ensures
            line@ == json_text(document_view(self.id@, self.method@, self.params@)) + "\n"@,
    {
        show_json(&self.document()).concat("\n")
    }
}

/// The `ping` that negotiates the protocol.
pub fn ping_request() -> (request: HerdrRequest)
    ensures
        request.is("kelpie:ping"@, "ping"@, empty_object()),
{
    HerdrRequest { id: "kelpie:ping".to_owned(), method: "ping", params: Json::object() }
}

/// The `session.snapshot` that gives a fresh baseline.
pub fn snapshot_request() -> (request: HerdrRequest)
    ensures
        request.is("kelpie:snapshot"@, "session.snapshot"@, empty_object()),
{
    HerdrRequest {
        id: "kelpie:snapshot".to_owned(),
        method: "session.snapshot",
        params: Json::object(),
    }
}

/// The `session.snapshot` that gives fresh identities with their status.
pub fn lifecycle_request() -> (request: HerdrRequest)
    ensures
        request.is("kelpie:lifecycle-snapshot"@, "session.snapshot"@, empty_object()),
{
    HerdrRequest {
        id: "kelpie:lifecycle-snapshot".to_owned(),
        method: "session.snapshot",
        params: Json::object(),
    }
}

/// One `agent.start`.
pub fn start_request(request_id: &str, params: Json) -> (request: HerdrRequest)
    ensures
        request.is(request_id@, "agent.start"@, params@),
{
    HerdrRequest { id: request_id.to_owned(), method: "agent.start", params }
}

/// The params of a request that names an agent by its target.
pub open spec fn target_view(target: Seq<char>) -> JsonView {
    empty_object().with("target"@, text_view(target))
}

/// One `agent.rename`.
pub fn rename_request(request_id: &str, target: &str, name: &str) -> (request: HerdrRequest)
    ensures
        request.is(
            request_id@,
            "agent.rename"@,
            target_view(target@).with("name"@, text_view(name@)),
        ),
{
    HerdrRequest {
        id: request_id.to_owned(),
        method: "agent.rename",
        params: Json::object().with("target", Json::text(target)).with("name", Json::text(name)),
    }
}

/// One `pane.close`, which ends the pane's process.
///
/// Herdr keys `pane.*` methods on `pane_id` and `agent.*` methods on `target`.
/// This is the only `pane.*` request, so the surrounding `target` convention does
/// not apply; sending it is rejected as a missing `pane_id` field.
pub fn close_request(request_id: &str, pane_id: &str) -> (request: HerdrRequest)
    ensures
        request.is(
            request_id@,
            "pane.close"@,
            empty_object().with("pane_id"@, text_view(pane_id@)),
        ),
{
    HerdrRequest {
        id: request_id.to_owned(),
        method: "pane.close",
        params: Json::object().with("pane_id", Json::text(pane_id)),
    }
}

/// One `agent.get`, which reconciles the agent's managed start state.
///
/// This is not interchangeable with reading the same agent out of a
/// `session.snapshot`, which is a pure read and promotes nothing. Polling a start
/// for readiness has to use this.
pub fn agent_request(request_id: &str, target: &str) -> (request: HerdrRequest)
    ensures
        request.is(request_id@, "agent.get"@, target_view(target@)),
{
    HerdrRequest {
        id: request_id.to_owned(),
        method: "agent.get",
        params: Json::object().with("target", Json::text(target)),
    }
}

/// One `agent.prompt`.
pub fn prompt_request(request_id: &str, target: &str, text: &str) -> (request: HerdrRequest)
    ensures
        request.is(
            request_id@,
            "agent.prompt"@,
            target_view(target@).with("text"@, text_view(text@)),
        ),
{
    HerdrRequest {
        id: request_id.to_owned(),
        method: "agent.prompt",
        params: Json::object().with("target", Json::text(target)).with("text", Json::text(text)),
    }
}

/// The text of a field, or a default where it is no text.
pub open spec fn text_or(value: JsonView, name: Seq<char>, default: Seq<char>) -> Seq<char> {
    match value.at(name).as_text() {
        Some(text) => text,
        None => default,
    }
}

fn text_or_default(value: &Json, name: &str, default: &str) -> (text: String)
    ensures
        text@ == text_or(value@, name@, default@),
{
    match value.text_at(name) {
        Some(text) => text.to_owned(),
        None => default.to_owned(),
    }
}

/// Whether that is the answer in a response: its result, a rejection wherever there is
/// an `error` at all, or an answer that has neither.
pub open spec fn is_answer(r: Result<Json, HerdrError>, response: JsonView) -> bool {
    match response.get("error"@) {
        Some(error) => r matches Err(HerdrError::Rejected { code, message }) && code@ == text_or(
            error,
            "code"@,
            "unknown"@,
        ) && message@ == text_or(error, "message"@, "Herdr rejected request"@),
        None => match response.get("result"@) {
            Some(result) => r matches Ok(value) && value@ == result,
            None => is_unexpected(r, "response without result"@),
        },
    }
}

/// The answer in the response to one request.
pub fn response_result(response: &Json) -> (r: Result<Json, HerdrError>)
    ensures
        is_answer(r, response@),
{
    if let Some(error) = response.get("error") {
        return Err(
            HerdrError::Rejected {
                code: text_or_default(error, "code", "unknown"),
                message: text_or_default(error, "message", "Herdr rejected request"),
            },
        );
    }
    match response.get("result") {
        Some(result) => Ok(result.clone()),
        None => Err(unexpected("response without result")),
    }
}

/// Read the line that answers one request.
pub fn read_response(line: &str) -> (r: Result<Json, HerdrError>)
    ensures
        match json_failure(line@) {
            Some(failure) => r matches Err(HerdrError::Malformed(e)) && e@ == failure,
            None => is_answer(r, json_of(line@)),
        },
{
    match parse_json(line) {
        Ok(response) => response_result(&response),
        Err(failure) => Err(HerdrError::Malformed(failure)),
    }
}

/// The outcome of a `ping`, from its result.
pub open spec fn negotiation_of(r: Result<(), HerdrError>, result: JsonView) -> bool {
    match result.at("protocol"@).as_u64() {
        None => is_unexpected(r, "pong without protocol"@),
        Some(protocol) => if protocol > u32::MAX {
            is_unexpected(r, "protocol exceeds u32"@)
        } else {
            r == if protocol == SUPPORTED_PROTOCOL {
                Ok::<(), HerdrError>(())
            } else {
                Err(
                    (HerdrError::Incompatible {
                        actual: protocol as u32,
                        supported: SUPPORTED_PROTOCOL,
                    }),
                )
            }
        },
    }
}

/// Judge the result of a `ping`: exact protocol compatibility or a classified
/// error.
pub fn negotiated(result: &Json) -> (r: Result<(), HerdrError>)
    ensures
        negotiation_of(r, result@),
{
    let given = match result.get("protocol") {
        Some(value) => value.as_u64(),
        None => None,
    };
    match given {
        None => Err(unexpected("pong without protocol")),
        Some(protocol) => if protocol > 0xffff_ffff {
            Err(unexpected("protocol exceeds u32"))
        } else {
            validate_protocol(protocol as u32)
        },
    }
}

/// The agent in the result of an `agent.*` request. `parsed` is what reading its
/// `agent` field as an observation gave.
pub fn agent_result(result: &Json, parsed: Result<AgentObservation, String>) -> (r: Result<
    AgentObservation,
    HerdrError,
>)
    ensures
        match (result@.get("agent"@), parsed) {
            (None, _) => is_unexpected(r, "agent result without agent"@),
            (Some(_), Ok(agent)) => r == Ok::<AgentObservation, HerdrError>(agent),
            (Some(_), Err(e)) => r == Err::<AgentObservation, HerdrError>(HerdrError::Malformed(e)),
        },
{
    if result.get("agent").is_none() {
        return Err(unexpected("agent result without agent"));
    }
    match parsed {
        Ok(agent) => Ok(agent),
        Err(e) => Err(HerdrError::Malformed(e)),
    }
}

/// The baseline in the result of a `session.snapshot`. `parsed` is what reading
/// its `snapshot` field as a baseline gave.
pub fn snapshot_result(result: &Json, parsed: Result<Snapshot, String>) -> (r: Result<
    Snapshot,
    HerdrError,
>)
    ensures
        match (result@.get("snapshot"@), parsed) {
            (None, _) => is_unexpected(r, "snapshot result without snapshot"@),
            (Some(_), Err(e)) => r == Err::<Snapshot, HerdrError>(HerdrError::Malformed(e)),
            (Some(_), Ok(snapshot)) => r == if snapshot.protocol == SUPPORTED_PROTOCOL {
                Ok::<Snapshot, HerdrError>(snapshot)
            } else {
                Err(
                    (HerdrError::Incompatible {
                        actual: snapshot.protocol,
                        supported: SUPPORTED_PROTOCOL,
                    }),
                )
            },
        },
{
    if result.get("snapshot").is_none() {
        return Err(unexpected("snapshot result without snapshot"));
    }
    match parsed {
        Err(e) => Err(HerdrError::Malformed(e)),
        Ok(snapshot) => match validate_protocol(snapshot.protocol) {
            Ok(()) => Ok(snapshot),
            Err(e) => Err(e),
        },
    }
}

/// The identities with their status in the result of a `session.snapshot`.
/// `parsed` is what reading its `snapshot` field gave: the protocol and the
/// identities.
pub fn lifecycle_result(
    result: &Json,
    parsed: Result<(u32, Vec<LifecycleObservation>), String>,
) -> (r: Result<Vec<LifecycleObservation>, HerdrError>)
    ensures
        match (result@.get("snapshot"@), parsed) {
            (None, _) => is_unexpected(r, "snapshot result without snapshot"@),
            (Some(_), Err(e)) => r == Err::<Vec<LifecycleObservation>, HerdrError>(
                HerdrError::Malformed(e),
            ),
            (Some(_), Ok((protocol, agents))) => r == if protocol == SUPPORTED_PROTOCOL {
                Ok::<Vec<LifecycleObservation>, HerdrError>(agents)
            } else {
                Err(
                    (HerdrError::Incompatible { actual: protocol, supported: SUPPORTED_PROTOCOL }),
                )
            },
        },
{
    if result.get("snapshot").is_none() {
        return Err(unexpected("snapshot result without snapshot"));
    }
    match parsed {
        Err(e) => Err(HerdrError::Malformed(e)),
        Ok((protocol, agents)) => match validate_protocol(protocol) {
            Ok(()) => Ok(agents),
            Err(e) => Err(e),
        },
    }
}

/// The named point after the write of a request and before its response, for the
/// requests that have one.
pub open spec fn fault_point(id: Seq<char>, method: Seq<char>) -> Option<Seq<char>> {
    if method == "agent.start"@ && leads("kelpie:start:"@, id) {
        Some("start_after_write_before_response"@)
    } else if method == "agent.prompt"@ && leads("kelpie:ask:"@, id) {
        Some("ask_after_write_before_response"@)
    } else if method == "agent.prompt"@ && leads("kelpie:tell:"@, id) {
        Some("tell_after_write_before_response"@)
    } else if method == "agent.prompt"@ && leads("kelpie:initial:to:"@, id) {
        Some("initial_message_after_write_before_response"@)
    } else if method == "agent.prompt"@ && leads("kelpie:reply:"@, id) {
        Some("reply_after_write_before_response"@)
    } else if method == "agent.prompt"@ && leads("kelpie:owing-cancellation:"@, id) {
        Some("owing_cancellation_after_write_before_response"@)
    } else if method == "agent.prompt"@ && leads("kelpie:cancellation:"@, id) {
        Some("cancellation_after_write_before_response"@)
    } else if method == "agent.prompt"@ && leads("kelpie:clear:"@, id) {
        Some("clear_after_write_before_response"@)
    } else if method == "agent.rename"@ && leads("kelpie:adopt-rename:"@, id) {
        Some("adopt_rename_after_write_before_response"@)
    } else if method == "pane.close"@ && leads("kelpie:retire-close:"@, id) {
        Some("retire_after_write_before_response"@)
    } else {
        None
    }
}

/// The named point after the write of a request and before its response.
pub fn after_write_fault_point(id: &str, method: &str) -> (point: Option<&'static str>)
    ensures
        match (point, fault_point(id@, method@)) {
            (Some(name), Some(meant)) => name@ == meant,
            (None, None) => true,
            _ => false,
        },
{
    if same(method, "agent.start") && has_prefix(id, "kelpie:start:") {
        Some("start_after_write_before_response")
    } else if same(method, "agent.prompt") && has_prefix(id, "kelpie:ask:") {
        Some("ask_after_write_before_response")
    } else if same(method, "agent.prompt") && has_prefix(id, "kelpie:tell:") {
        Some("tell_after_write_before_response")
    } else if same(method, "agent.prompt") && has_prefix(id, "kelpie:initial:to:") {
        Some("initial_message_after_write_before_response")
    } else if same(method, "agent.prompt") && has_prefix(id, "kelpie:reply:") {
        Some("reply_after_write_before_response")
    } else if same(method, "agent.prompt") && has_prefix(id, "kelpie:owing-cancellation:") {
        Some("owing_cancellation_after_write_before_response")
    } else if same(method, "agent.prompt") && has_prefix(id, "kelpie:cancellation:") {
        Some("cancellation_after_write_before_response")
    } else if same(method, "agent.prompt") && has_prefix(id, "kelpie:clear:") {
        Some("clear_after_write_before_response")
    } else if same(method, "agent.rename") && has_prefix(id, "kelpie:adopt-rename:") {
        Some("adopt_rename_after_write_before_response")
    } else if same(method, "pane.close") && has_prefix(id, "kelpie:retire-close:") {
        Some("retire_after_write_before_response")
    } else {
        None
    }
}

/// A client of a single Herdr socket.
#[derive(Debug, PartialEq, Eq)]
pub struct HerdrClient {
    pub socket_path: String,
    /// How long one read or write may take.
    pub timeout_ms: u64,
}

/// The next step of a wait for the socket.
#[derive(Debug, PartialEq, Eq)]
pub enum WaitStep {
    /// The socket is there.
    Present,
    /// Look again after that many nanoseconds.
    Sleep(u128),
    /// The limit elapsed with no socket at the path.
    Failed(HerdrError),
}

/// Nanoseconds of a number of milliseconds.
pub open spec fn nanoseconds(ms: u64) -> int {
    ms * 1_000_000
}

/// What a wait does next.
pub enum Wait {
    Present,
    Sleep(int),
    Expired,
}

/// What a wait does next: it ends when the socket is there or the limit is
/// reached, and else sleeps until the next look, never past the limit.
pub open spec fn wait_of(present: bool, elapsed_ns: int, limit_ms: u64, poll_ms: u64) -> Wait {
    let left = nanoseconds(limit_ms) - elapsed_ns;
    if present {
        Wait::Present
    } else if left <= 0 {
        Wait::Expired
    } else if nanoseconds(poll_ms) <= left {
        Wait::Sleep(nanoseconds(poll_ms))
    } else {
        Wait::Sleep(left)
    }
}

impl HerdrClient {
    /// Create a client for an explicit documented Herdr socket path.
    pub fn new(socket_path: &str, timeout_ms: u64) -> (client: HerdrClient)
        ensures
            client.socket_path@ == socket_path@,
            client.timeout_ms == timeout_ms,
    {
        HerdrClient { socket_path: socket_path.to_owned(), timeout_ms }
    }

    /// One step of waiting until the socket exists, `elapsed_ns` nanoseconds
    /// after the wait began and `poll_ms` milliseconds between two looks.
    ///
    /// Waiting looks at the path only: probing by connecting would consume an
    /// `accept` on the peer, which is a real observable effect and is not safe to
    /// repeat. Presence is not readiness: the caller still makes the single
    /// connection that negotiates the protocol.
    ///
    /// A zero limit makes exactly one look.
    pub fn wait_until_present(
        &self,
        present: bool,
        elapsed_ns: u128,
        limit_ms: u64,
        poll_ms: u64,
    ) -> (step: WaitStep)
        ensures
            match (step, wait_of(present, elapsed_ns as int, limit_ms, poll_ms)) {
                (WaitStep::Present, Wait::Present) => true,
                (WaitStep::Sleep(ns), Wait::Sleep(meant)) => ns == meant,
                (WaitStep::Failed(e), Wait::Expired) => e matches HerdrError::Unavailable(text)
                    && text@ == "no Herdr socket at "@ + self.socket_path@ + " after "@
                    + duration_debug(limit_ms),
                _ => false,
            },
    {
        if present {
            return WaitStep::Present;
        }
        let limit: u128 = limit_ms as u128 * 1_000_000;
        if elapsed_ns >= limit {
            return WaitStep::Failed(
                HerdrError::Unavailable(
                    "no Herdr socket at ".to_owned().concat(self.socket_path.as_str()).concat(
                        " after ",
                    ).concat(show_duration(limit_ms).as_str()),
                ),
            );
        }
        let poll: u128 = poll_ms as u128 * 1_000_000;
        if poll <= limit - elapsed_ns {
            WaitStep::Sleep(poll)
        } else {
            WaitStep::Sleep(limit - elapsed_ns)
        }
    }
}

/// A wait with a zero limit looks exactly once: it never sleeps.
pub proof fn law_zero_limit_looks_once(present: bool, elapsed_ns: int, poll_ms: u64)
    requires
        elapsed_ns >= 0,
    ensures
        wait_of(present, elapsed_ns, 0, poll_ms) == if present {
            Wait::Present
        } else {
            Wait::Expired
        },
{
}

/// No sleep of a wait goes past its limit.
pub proof fn law_wait_stays_within_its_limit(elapsed_ns: int, limit_ms: u64, poll_ms: u64)
    requires
        elapsed_ns >= 0,
    ensures
        wait_of(false, elapsed_ns, limit_ms, poll_ms) matches Wait::Sleep(ns) ==> elapsed_ns + ns
            <= nanoseconds(limit_ms),
{
}

/// The written names of what an agent does: each has its own, and no two share one.
#[verifier::spinoff_prover]
#[verifier::rlimit(60)]
pub proof fn law_agent_status_has_its_own_name(value: AgentStatus, other: AgentStatus)
    ensures
        value.name() == other.name() ==> value == other,
        value.name() == "idle"@ <==> value is Idle,
        value.name() == "working"@ <==> value is Working,
        value.name() == "blocked"@ <==> value is Blocked,
        value.name() == "done"@ <==> value is Done,
        value.name() == "unknown"@ <==> value is Unknown,
{
    reveal_strlit("idle");
    reveal_strlit("working");
    reveal_strlit("blocked");
    reveal_strlit("done");
    reveal_strlit("unknown");
    assert("idle"@.len() == 4);
    assert("working"@.len() == 7);
    assert("blocked"@.len() == 7);
    assert("done"@.len() == 4);
    assert("unknown"@.len() == 7);
    assert("idle"@[0] == 'i');
    assert("done"@[0] == 'd');
    assert("working"@[0] == 'w');
    assert("blocked"@[0] == 'b');
    assert("unknown"@[0] == 'u');
}

/// Herdr is spoken to in one version of its protocol and in no other.
#[verifier::spinoff_prover]
pub proof fn law_one_protocol_is_spoken(r: Result<(), HerdrError>, result: JsonView)
    requires
        negotiation_of(r, result),
    ensures
        r is Ok <==> result.at("protocol"@).as_u64() == Some(20u64),
        result.at("protocol"@).as_u64() is None ==> (r matches Err(HerdrError::Unexpected(_))),
        result.at("protocol"@).as_u64() matches Some(n) ==> (n != 20 && n <= u32::MAX ==> (
        r matches Err(HerdrError::Incompatible { actual, supported }) && actual == n && supported
            == 20)),
{
}

/// A response with an error is a rejection, by the code and the message of the error, whatever else it
/// holds; one without is its result.
#[verifier::spinoff_prover]
pub proof fn law_response_is_a_rejection_or_a_result(r: Result<Json, HerdrError>, response: JsonView)
    requires
        is_answer(r, response),
    ensures
        response.get("error"@) matches Some(error) ==> (r matches Err(
            HerdrError::Rejected { code, message },
        ) && (error.at("code"@) matches JsonView::Text(text) ==> code@ == text) && (
        error.at("message"@) matches JsonView::Text(text) ==> message@ == text)),
        response.get("error"@) is None ==> (response.get("result"@) matches Some(result) ==> (
        r matches Ok(value) && value@ == result)),
        response.get("error"@) is None && response.get("result"@) is None ==> r is Err,
{
}

/// A request that is written has a point of its own behind the write, by what it is for; a request
/// that writes nothing has none.
#[verifier::spinoff_prover]
#[verifier::rlimit(60)]
pub proof fn law_written_request_has_its_own_point(id: Seq<char>, method: Seq<char>)
    ensures
        method == "agent.start"@ && leads("kelpie:start:"@, id) ==> fault_point(id, method) == Some(
            "start_after_write_before_response"@,
        ),
        method == "agent.prompt"@ && leads("kelpie:ask:"@, id) ==> fault_point(id, method) == Some(
            "ask_after_write_before_response"@,
        ),
        method == "agent.prompt"@ && leads("kelpie:tell:"@, id) ==> fault_point(id, method) == Some(
            "tell_after_write_before_response"@,
        ),
        method == "agent.prompt"@ && leads("kelpie:initial:to:"@, id) ==> fault_point(id, method) == Some(
            "initial_message_after_write_before_response"@,
        ),
        method == "agent.prompt"@ && leads("kelpie:reply:"@, id) ==> fault_point(id, method) == Some(
            "reply_after_write_before_response"@,
        ),
        method == "agent.prompt"@ && leads("kelpie:owing-cancellation:"@, id) ==> fault_point(id, method) == Some(
            "owing_cancellation_after_write_before_response"@,
        ),
        method == "agent.prompt"@ && leads("kelpie:cancellation:"@, id) ==> fault_point(id, method) == Some(
            "cancellation_after_write_before_response"@,
        ),
        method == "agent.prompt"@ && leads("kelpie:clear:"@, id) ==> fault_point(id, method) == Some(
            "clear_after_write_before_response"@,
        ),
        method == "agent.rename"@ && leads("kelpie:adopt-rename:"@, id) ==> fault_point(id, method) == Some(
            "adopt_rename_after_write_before_response"@,
        ),
        method == "pane.close"@ && leads("kelpie:retire-close:"@, id) ==> fault_point(id, method) == Some(
            "retire_after_write_before_response"@,
        ),
        method != "agent.start"@ && method != "agent.prompt"@ && method != "agent.rename"@ && method
            != "pane.close"@ ==> fault_point(id, method) is None,
{
    reveal_strlit("agent.start");
    reveal_strlit("agent.prompt");
    reveal_strlit("agent.rename");
    reveal_strlit("pane.close");
    assert("agent.start"@.len() == 11);
    assert("agent.prompt"@.len() == 12);
    assert("agent.rename"@.len() == 12);
    assert("pane.close"@.len() == 10);
    assert("agent.prompt"@[6] == 'p');
    assert("agent.rename"@[6] == 'r');
    reveal_strlit("kelpie:start:");
    reveal_strlit("kelpie:ask:");
    reveal_strlit("kelpie:tell:");
    reveal_strlit("kelpie:initial:to:");
    reveal_strlit("kelpie:reply:");
    reveal_strlit("kelpie:owing-cancellation:");
    reveal_strlit("kelpie:cancellation:");
    reveal_strlit("kelpie:clear:");
    reveal_strlit("kelpie:adopt-rename:");
    reveal_strlit("kelpie:retire-close:");
    assert("kelpie:start:"@.len() == 13);
    assert("kelpie:ask:"@.len() == 11);
    assert("kelpie:tell:"@[7] == 't');
    assert(leads("kelpie:tell:"@, id) ==> id.take(12)[7] == id[7]);
    assert("kelpie:ask:"@[7] == 'a');
    assert(leads("kelpie:ask:"@, id) ==> id.take(11)[7] == id[7]);
    assert("kelpie:tell:"@.len() == 12);
    assert("kelpie:initial:to:"@[7] == 'i');
    assert(leads("kelpie:initial:to:"@, id) ==> id.take(18)[7] == id[7]);
    assert("kelpie:initial:to:"@.len() == 18);
    assert("kelpie:reply:"@[7] == 'r');
    assert(leads("kelpie:reply:"@, id) ==> id.take(13)[7] == id[7]);
    assert("kelpie:reply:"@.len() == 13);
    assert("kelpie:owing-cancellation:"@[7] == 'o');
    assert(leads("kelpie:owing-cancellation:"@, id) ==> id.take(26)[7] == id[7]);
    assert("kelpie:owing-cancellation:"@.len() == 26);
    assert("kelpie:cancellation:"@[7] == 'c');
    assert(leads("kelpie:cancellation:"@, id) ==> id.take(20)[7] == id[7]);
    assert("kelpie:cancellation:"@.len() == 20);
    assert("kelpie:clear:"@[7] == 'c');
    assert(leads("kelpie:clear:"@, id) ==> id.take(13)[7] == id[7]);
    assert("kelpie:clear:"@[8] == 'l');
    assert(leads("kelpie:clear:"@, id) ==> id.take(13)[8] == id[8]);
    assert("kelpie:cancellation:"@[8] == 'a');
    assert(leads("kelpie:cancellation:"@, id) ==> id.take(20)[8] == id[8]);
    assert("kelpie:clear:"@.len() == 13);
    assert("kelpie:adopt-rename:"@.len() == 20);
    assert("kelpie:retire-close:"@.len() == 20);
}

} // verus!
