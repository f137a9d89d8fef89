//! What goes wrong with a request, how it is classified, and the response.

use vstd::prelude::*;

use crate::herdr::HerdrError;
use crate::json::{empty_object, lemma_ending_with, text_view, Json, JsonView};
use crate::json_text::{json_text, show_json};
use crate::text::{holds, occurs};

verus! {

/// What the store refuses or fails at. Each carries the text that explains it.
#[derive(Debug, PartialEq, Eq)]
pub enum StoreError {
    Conflict(String),
    InvalidRecord(String),
    UnsafeLocation(String),
    Sql(String),
}

impl StoreError {
    /// The text that explains the failure.
    pub open spec fn text(&self) -> Seq<char> {
        match self {
            StoreError::Conflict(message) => message@,
            StoreError::InvalidRecord(message) => message@,
            StoreError::UnsafeLocation(message) => message@,
            StoreError::Sql(message) => message@,
        }
    }

    /// The text that explains the failure.
    pub fn message(&self) -> (text: String)
        ensures
            text@ == self.text(),
    {
        match self {
            StoreError::Conflict(message) => message.clone(),
            StoreError::InvalidRecord(message) => message.clone(),
            StoreError::UnsafeLocation(message) => message.clone(),
            StoreError::Sql(message) => message.clone(),
        }
    }
}

/// What the coordinator refuses or fails at. `message` is the text that explains
/// it.
#[derive(Debug, PartialEq, Eq)]
pub enum SliceError {
    PaneOccupied { message: String },
    LiveConflict(String),
    Store(StoreError),
    Herdr(HerdrError),
    UnsupportedBackend { message: String },
    ClearRotationTimeout { message: String },
    ClearUnproven { message: String },
    /// Something was written and its outcome is not known.
    UnknownOutcome { message: String, source: HerdrError },
}

impl SliceError {
    /// The text that explains the failure.
    pub open spec fn text(&self) -> Seq<char> {
        match self {
            SliceError::PaneOccupied { message } => message@,
            SliceError::LiveConflict(message) => message@,
            SliceError::Store(error) => error.text(),
            SliceError::Herdr(error) => error.text(),
            SliceError::UnsupportedBackend { message } => message@,
            SliceError::ClearRotationTimeout { message } => message@,
            SliceError::ClearUnproven { message } => message@,
            SliceError::UnknownOutcome { message, .. } => message@,
        }
    }

    /// The text that explains the failure.
    pub fn message(&self) -> (text: String)
        ensures
            text@ == self.text(),
    {
        match self {
            SliceError::PaneOccupied { message } => message.clone(),
            SliceError::LiveConflict(message) => message.clone(),
            SliceError::Store(error) => error.message(),
            SliceError::Herdr(error) => error.message(),
            SliceError::UnsupportedBackend { message } => message.clone(),
            SliceError::ClearRotationTimeout { message } => message.clone(),
            SliceError::ClearUnproven { message } => message.clone(),
            SliceError::UnknownOutcome { message, .. } => message.clone(),
        }
    }
}

/// Whether an error refuses a request with that text.
pub open spec fn is_invalid(error: SliceError, text: Seq<char>) -> bool {
    error matches SliceError::Store(StoreError::InvalidRecord(message)) && message@ == text
}

/// Whether an error is a conflict with that text.
pub open spec fn is_conflict(error: SliceError, text: Seq<char>) -> bool {
    error matches SliceError::Store(StoreError::Conflict(message)) && message@ == text
}

/// Whether an error is an unexpected answer of Herdr.
pub open spec fn is_wrong_answer(error: SliceError, text: Seq<char>) -> bool {
    error matches SliceError::Herdr(HerdrError::Unexpected(message)) && message@ == text
}

/// Refuse a request.
pub fn invalid(text: &str) -> (error: SliceError)
    ensures
        is_invalid(error, text@),
{
    SliceError::Store(StoreError::InvalidRecord(text.to_owned()))
}

/// Report a conflict.
pub fn conflict(text: &str) -> (error: SliceError)
    ensures
        is_conflict(error, text@),
{
    SliceError::Store(StoreError::Conflict(text.to_owned()))
}

/// Report an unexpected answer of Herdr.
pub fn wrong_answer(text: &str) -> (error: SliceError)
    ensures
        is_wrong_answer(error, text@),
{
    SliceError::Herdr(HerdrError::Unexpected(text.to_owned()))
}

/// Stable client-visible error classification.
///
/// `class` is the error taxonomy. `code` is a finer stable identifier for callers
/// that must branch, so no client has to parse `message`.
#[derive(Debug, PartialEq, Eq)]
pub struct ClientError {
    pub class: &'static str,
    pub message: String,
    pub code: Option<String>,
}

/// The class of an error.
pub open spec fn class_of(error: SliceError) -> Seq<char> {
    match error {
        SliceError::PaneOccupied { .. } => "conflict"@,
        SliceError::LiveConflict(_) => "conflict"@,
        SliceError::Store(StoreError::Conflict(_)) => "conflict"@,
        SliceError::ClearUnproven { .. } => "conflict"@,
        SliceError::Store(StoreError::InvalidRecord(_)) => "invalid_request"@,
        SliceError::Store(StoreError::UnsafeLocation(_)) => "internal"@,
        SliceError::Store(StoreError::Sql(_)) => "internal"@,
        SliceError::Herdr(HerdrError::Malformed(_)) => "internal"@,
        SliceError::Herdr(HerdrError::Unexpected(_)) => "internal"@,
        SliceError::Herdr(HerdrError::Incompatible { .. }) => "incompatible_runtime"@,
        SliceError::UnsupportedBackend { .. } => "incompatible_runtime"@,
        SliceError::Herdr(HerdrError::Unavailable(_)) => "unavailable"@,
        SliceError::Herdr(HerdrError::Rejected { code, .. }) => if occurs(code@, "not_found"@) {
            "target_unavailable"@
        } else {
            "rejected"@
        },
        SliceError::Herdr(HerdrError::ReadinessTimeout(_)) => "timeout"@,
        SliceError::ClearRotationTimeout { .. } => "timeout"@,
        SliceError::UnknownOutcome { .. } => "unknown_outcome"@,
    }
}

/// The code of an error. Kelpie's own codes are decided here; Herdr's own code is
/// passed through unaltered so a caller branches on evidence rather than on prose.
pub open spec fn code_of(error: SliceError) -> Option<Seq<char>> {
    match error {
        SliceError::PaneOccupied { .. } => Some("pane_occupied"@),
        SliceError::UnsupportedBackend { .. } => Some("renew_unsupported_backend"@),
        SliceError::ClearRotationTimeout { .. } => Some("clear_rotation_timeout"@),
        SliceError::ClearUnproven { .. } => Some("clear_unproven"@),
        SliceError::Herdr(HerdrError::Rejected { code, .. }) => Some(code@),
        SliceError::UnknownOutcome { source: HerdrError::Rejected { code, .. }, .. } => Some(
            code@,
        ),
        _ => None,
    }
}

/// The view of a text that may be absent.
pub open spec fn optional_text(text: Option<String>) -> Option<Seq<char>> {
    match text {
        Some(text) => Some(text@),
        None => None,
    }
}

/// Classify an error for a client.
pub fn classify_error(error: &SliceError) -> (client: ClientError)
    ensures
        client.class@ == class_of(*error),
        client.message@ == error.text(),
        optional_text(client.code) == code_of(*error),
{
    let class = match error {
        SliceError::PaneOccupied { .. } | SliceError::LiveConflict(_)
        | SliceError::Store(StoreError::Conflict(_)) | SliceError::ClearUnproven { .. } => "conflict",
        SliceError::Store(StoreError::InvalidRecord(_)) => "invalid_request",
        SliceError::Store(StoreError::UnsafeLocation(_)) | SliceError::Store(StoreError::Sql(_))
        | SliceError::Herdr(HerdrError::Malformed(_))
        | SliceError::Herdr(HerdrError::Unexpected(_)) => "internal",
        SliceError::Herdr(HerdrError::Incompatible { .. })
        | SliceError::UnsupportedBackend { .. } => "incompatible_runtime",
        SliceError::Herdr(HerdrError::Unavailable(_)) => "unavailable",
        SliceError::Herdr(HerdrError::Rejected { code, .. }) => if holds(
            code.as_str(),
            "not_found",
        ) {
            "target_unavailable"
        } else {
            "rejected"
        },
        SliceError::Herdr(HerdrError::ReadinessTimeout(_))
        | SliceError::ClearRotationTimeout { .. } => "timeout",
        SliceError::UnknownOutcome { .. } => "unknown_outcome",
    };
    let code = match error {
        SliceError::PaneOccupied { .. } => Some("pane_occupied".to_owned()),
        SliceError::UnsupportedBackend { .. } => Some("renew_unsupported_backend".to_owned()),
        SliceError::ClearRotationTimeout { .. } => Some("clear_rotation_timeout".to_owned()),
        SliceError::ClearUnproven { .. } => Some("clear_unproven".to_owned()),
        SliceError::Herdr(HerdrError::Rejected { code, .. }) => Some(code.clone()),
        SliceError::UnknownOutcome { source: HerdrError::Rejected { code, .. }, .. } => Some(
            code.clone(),
        ),
        _ => None,
    };
    ClientError { class, message: error.message(), code }
}

/// One local client response correlated by request ID.
#[derive(Debug, PartialEq, Eq)]
pub struct ClientResponse {
    pub id: String,
    pub result: Option<Json>,
    pub error: Option<ClientError>,
}

/// The document of a classified error: a code only where there is one.
pub open spec fn error_view(
    class: Seq<char>,
    message: Seq<char>,
    code: Option<Seq<char>>,
) -> JsonView {
    let base = empty_object().ending_with("class"@, text_view(class)).ending_with(
        "message"@,
        text_view(message),
    );
    match code {
        Some(code) => base.ending_with("code"@, text_view(code)),
        None => base,
    }
}

impl ClientError {
    pub open spec fn view(&self) -> JsonView {
        error_view(self.class@, self.message@, optional_text(self.code))
    }

    /// The document of a classified error.
    pub fn document(&self) -> (document: Json)
        ensures
            document@ == self@,
    {
        let mut document = Json::object().ending_with("class", Json::text(self.class)).ending_with(
            "message",
            Json::text(self.message.as_str()),
        );
        if let Some(code) = &self.code {
            document = document.ending_with("code", Json::text(code.as_str()));
        }
        document
    }
}

impl ClientResponse {
    /// The document of a response: what is absent is left out.
    pub open spec fn view(&self) -> JsonView {
        let base = empty_object().ending_with("id"@, text_view(self.id@));
        let resulted = match self.result {
            Some(result) => base.ending_with("result"@, result@),
            None => base,
        };
        match self.error {
            Some(error) => resulted.ending_with("error"@, error@),
            None => resulted,
        }
    }

    /// The document of a response.
    pub fn document(&self) -> (document: Json)
        ensures
            document@ == self@,
    {
        let mut document = Json::object().ending_with("id", Json::text(self.id.as_str()));
        if let Some(result) = &self.result {
            document = document.ending_with("result", result.clone());
        }
        if let Some(error) = &self.error {
            document = document.ending_with("error", error.document());
        }
        document
    }

    /// The line that a client is answered with.
    pub fn line(&self) -> (line: String)
        ensures
            line@ == json_text(self@) + "\n"@,
    {
        show_json(&self.document()).concat("\n")
    }
}

/// What answers a request: its result, or its classified error.
pub open spec fn answer_view(id: Seq<char>, result: Result<JsonView, SliceError>) -> JsonView {
    let base = empty_object().ending_with("id"@, text_view(id));
    match result {
        Ok(value) => base.ending_with("result"@, value),
        Err(error) => base.ending_with(
            "error"@,
            error_view(class_of(error), error.text(), code_of(error)),
        ),
    }
}

/// The view of an outcome.
pub open spec fn outcome_view(result: Result<Json, SliceError>) -> Result<JsonView, SliceError> {
    match result {
        Ok(value) => Ok(value@),
        Err(error) => Err(error),
    }
}

/// One correlated response, with errors classified.
pub fn respond(request_id: &str, result: Result<Json, SliceError>) -> (response: ClientResponse)
    ensures
        response@ == answer_view(request_id@, outcome_view(result)),
        response.id@ == request_id@,
        response.result is Some <==> result is Ok,
        response.error is Some <==> result is Err,
{
    match result {
        Ok(result) => ClientResponse {
            id: request_id.to_owned(),
            result: Some(result),
            error: None,
        },
        Err(error) => ClientResponse {
            id: request_id.to_owned(),
            result: None,
            error: Some(classify_error(&error)),
        },
    }
}

/// The response to a line that is no request.
pub open spec fn malformed_view(reason: Seq<char>) -> JsonView {
    empty_object().ending_with("id"@, text_view(Seq::empty())).ending_with(
        "error"@,
        error_view("invalid_request"@, reason, None),
    )
}

/// The response to a line that is no request at all: it has no identifier to
/// correlate with.
pub fn malformed(reason: &str) -> (response: ClientResponse)
    ensures
        response@ == malformed_view(reason@),
{
    ClientResponse {
        id: String::new(),
        result: None,
        error: Some(
            ClientError { class: "invalid_request", message: reason.to_owned(), code: None },
        ),
    }
}

/// A response is correlated with its request and is either a result or an error,
/// never both and never neither.
pub proof fn law_answer_is_a_result_or_an_error(
    id: Seq<char>,
    result: Result<JsonView, SliceError>,
)
    ensures
        answer_view(id, result).get("id"@) == Some(text_view(id)),
        answer_view(id, result).get("result"@) is Some <==> result is Ok,
        answer_view(id, result).get("error"@) is Some <==> result is Err,
        result matches Err(error) ==> answer_view(id, result).at("error"@).get("class"@) == Some(
            text_view(class_of(error)),
        ),
{
    reveal_strlit("id");
    reveal_strlit("result");
    reveal_strlit("error");
    reveal_strlit("class");
    reveal_strlit("message");
    reveal_strlit("code");
    assert("id"@.len() != "result"@.len() && "id"@.len() != "error"@.len() && "result"@.len()
        != "error"@.len());
    assert("class"@.len() != "message"@.len() && "class"@.len() != "code"@.len());
    let none = empty_object();
    let base = none.ending_with("id"@, text_view(id));
    lemma_ending_with(none, "id"@, text_view(id), "result"@);
    lemma_ending_with(none, "id"@, text_view(id), "error"@);
    match result {
        Ok(value) => {
            lemma_ending_with(base, "result"@, value, "id"@);
            lemma_ending_with(base, "result"@, value, "error"@);
        },
        Err(error) => {
            let view = error_view(class_of(error), error.text(), code_of(error));
            lemma_ending_with(base, "error"@, view, "id"@);
            lemma_ending_with(base, "error"@, view, "result"@);
            let classed = none.ending_with("class"@, text_view(class_of(error)));
            lemma_ending_with(none, "class"@, text_view(class_of(error)), "class"@);
            lemma_ending_with(classed, "message"@, text_view(error.text()), "class"@);
            if let Some(code) = code_of(error) {
                lemma_ending_with(
                    classed.ending_with("message"@, text_view(error.text())),
                    "code"@,
                    text_view(code),
                    "class"@,
                );
            }
        },
    }
}

} // verus!
