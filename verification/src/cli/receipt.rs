//! Receipts: what a typed command prints of the daemon's response.
//!
//! A receipt is a sequence of pieces. Almost all are text; where a response
//! holds a list or an object in a place that is shown as it stands, the piece is
//! that JSON value, to be written in its compact form.

use vstd::prelude::*;

use crate::cli::report::{render_report, report_receipt};
use crate::cli::time::{format_utc_ms, utc_text};
use crate::json::{lemma_list_view, number_text, views, Json, JsonView};
use crate::json_text::{json_text, show_json};
use crate::text::{decimal, decimal_text, int_text, joined, same, signed_decimal, texts};

verus! {

/// One piece of a receipt.
#[derive(Debug, PartialEq, Eq)]
pub enum Piece {
    /// Text to be printed as it is.
    Text(String),
    /// A JSON value to be printed in its compact form.
    Shown(Json),
}

/// The view of a piece.
pub enum PieceView {
    Text(Seq<char>),
    Shown(JsonView),
}

impl Piece {
    pub open spec fn view(&self) -> PieceView {
        match self {
            Piece::Text(text) => PieceView::Text(text@),
            Piece::Shown(value) => PieceView::Shown(value@),
        }
    }
}

/// The text that a piece is printed as.
pub open spec fn piece_text(piece: PieceView) -> Seq<char> {
    match piece {
        PieceView::Text(text) => text,
        PieceView::Shown(value) => json_text(value),
    }
}

/// The text that pieces are printed as, one behind the other.
pub open spec fn pieces_text(pieces: Seq<PieceView>) -> Seq<char>
    decreases pieces.len(),
{
    if pieces.len() == 0 {
        Seq::empty()
    } else {
        pieces_text(pieces.drop_last()) + piece_text(pieces.last())
    }
}

/// A piece of text.
pub open spec fn said(text: Seq<char>) -> PieceView {
    PieceView::Text(text)
}

/// The text of a boolean.
pub open spec fn bool_text(b: bool) -> Seq<char> {
    if b {
        "true"@
    } else {
        "false"@
    }
}

/// How a JSON value is shown: text and numbers plainly, null as a dash.
pub open spec fn shown(value: JsonView) -> PieceView {
    match value {
        JsonView::Text(text) => said(text),
        JsonView::Number(number) => said(number_text(number)),
        JsonView::Bool(b) => said(bool_text(b)),
        JsonView::Null => said("-"@),
        other => PieceView::Shown(other),
    }
}

/// How a field is shown; an absent one as a dash.
pub open spec fn field_piece(value: JsonView, name: Seq<char>) -> PieceView {
    shown(value.at(name))
}

/// How a field of a nested object is shown.
pub open spec fn nested_piece(value: JsonView, object: Seq<char>, name: Seq<char>) -> PieceView {
    field_piece(value.at(object), name)
}

/// The text of a field, or a default where it is no text.
pub open spec fn text_or(value: JsonView, name: Seq<char>, default: Seq<char>) -> Seq<char> {
    match value.at(name).as_text() {
        Some(text) => text,
        None => default,
    }
}

/// The moment in a field, or a question mark where there is none.
pub open spec fn moment(value: JsonView, name: Seq<char>) -> Seq<char> {
    match value.at(name).as_i64() {
        Some(ms) => utc_text(ms as int),
        None => "?"@,
    }
}

/// A number cut to the range of an `i64`.
pub open spec fn clamped(n: int) -> int {
    if n > i64::MAX {
        i64::MAX as int
    } else if n < i64::MIN {
        i64::MIN as int
    } else {
        n
    }
}

/// A receipt as it is written.
#[derive(Debug, PartialEq, Eq)]
pub struct Receipt {
    pub pieces: Vec<Piece>,
}

impl Receipt {
    pub open spec fn view(&self) -> Seq<PieceView> {
        self.pieces@.map_values(|p: Piece| p@)
    }

    /// The receipt as it is printed.
    pub fn text(&self) -> (text: String)
        ensures
            text@ == pieces_text(self@),
    {
        let mut text = String::new();
        let mut i: usize = 0;
        while i < self.pieces.len()
            invariant
                i <= self.pieces@.len(),
                text@ == pieces_text(self@.take(i as int)),
            decreases self.pieces@.len() - i,
        {
            match &self.pieces[i] {
                Piece::Text(part) => text.append(part.as_str()),
                Piece::Shown(value) => text.append(show_json(value).as_str()),
            }
            proof {
                let printed = self@.take(i as int + 1);
                assert(printed.drop_last() =~= self@.take(i as int));
                assert(printed.last() == self.pieces@[i as int]@);
            }
            i = i + 1;
        }
        assert(self@.take(i as int) =~= self@);
        text
    }

    pub(crate) fn new() -> (r: Receipt)
        ensures
            r@ == Seq::<PieceView>::empty(),
    {
        let r = Receipt { pieces: Vec::new() };
        assert(r@ =~= Seq::<PieceView>::empty());
        r
    }

    pub(crate) fn piece(&mut self, piece: Piece)
        ensures
            final(self)@ == old(self)@.push(piece@),
    {
        self.pieces.push(piece);
        assert(self@ =~= old(self)@.push(piece@));
    }

    pub(crate) fn say(&mut self, text: &str)
        ensures
            final(self)@ == old(self)@.push(said(text@)),
    {
        self.piece(Piece::Text(text.to_owned()));
    }

    pub(crate) fn show(&mut self, value: &Json)
        ensures
            final(self)@ == old(self)@.push(shown(value@)),
    {
        match value {
            Json::Text(text) => self.say(text.as_str()),
            Json::Number(number) => {
                let text = number.to_text();
                self.say(text.as_str());
            },
            Json::Bool(b) => if *b {
                self.say("true")
            } else {
                self.say("false")
            },
            Json::Null => self.say("-"),
            other => self.piece(Piece::Shown(other.clone())),
        }
    }

    pub(crate) fn field(&mut self, value: &Json, name: &str)
        ensures
            final(self)@ == old(self)@.push(field_piece(value@, name@)),
    {
        match value.get(name) {
            Some(inner) => self.show(inner),
            None => self.say("-"),
        }
    }

    pub(crate) fn nested(&mut self, value: &Json, object: &str, name: &str)
        ensures
            final(self)@ == old(self)@.push(nested_piece(value@, object@, name@)),
    {
        match value.get(object) {
            Some(inner) => self.field(inner, name),
            None => self.say("-"),
        }
    }

    pub(crate) fn say_or(&mut self, value: &Json, name: &str, default: &str)
        ensures
            final(self)@ == old(self)@.push(said(text_or(value@, name@, default@))),
    {
        match value.text_at(name) {
            Some(text) => self.say(text),
            None => self.say(default),
        }
    }

    pub(crate) fn say_moment(&mut self, value: &Json, name: &str)
        ensures
            final(self)@ == old(self)@.push(said(moment(value@, name@))),
    {
        match value.i64_at(name) {
            Some(ms) => {
                let text = format_utc_ms(ms);
                self.say(text.as_str());
            },
            None => self.say("?"),
        }
    }

    pub(crate) fn say_number(&mut self, n: usize)
        ensures
            final(self)@ == old(self)@.push(said(decimal_text(n as nat))),
    {
        let text = decimal(n as u64);
        self.say(text.as_str());
    }
}

/// The list in a field; an empty one where there is none.
pub(crate) fn items_of<'a>(value: &'a Json, name: &str, empty: &'a Vec<Json>) -> (items: &'a Vec<Json>)
    requires
        empty@.len() == 0,
    ensures
        views(items@) == value@.at(name@).items(),
{
    match value.get(name) {
        Some(Json::List(items)) => {
            proof {
                lemma_list_view(*items);
            }
            items
        },
        _ => {
            assert(views(empty@) =~= Seq::<JsonView>::empty());
            empty
        },
    }
}

/// The difference of two moments, cut to the range of an `i64`.
pub(crate) fn span(later: i64, earlier: i64) -> (ms: i64)
    ensures
        ms == clamped(later - earlier),
{
    match later.checked_sub(earlier) {
        Some(ms) => ms,
        None => if later > earlier {
            i64::MAX
        } else {
            i64::MIN
        },
    }
}

/// When a queued delivery goes out, where it is queued. A queued delivery is a
/// deferral, not a dispatch.
pub open spec fn due_pieces(result: JsonView) -> Seq<PieceView> {
    match result.at("due_at_ms"@).as_i64() {
        Some(due) => seq![
            said(" NOT-SENT-UNTIL="@),
            said(utc_text(due as int)),
            said(" due-at-ms="@),
            said(int_text(due as int)),
        ],
        None => Seq::empty(),
    }
}

/// How an ask is reminded of; nothing of a tell.
pub open spec fn reminder_pieces(method: Seq<char>, result: JsonView) -> Seq<PieceView> {
    if method == "ask"@ {
        match result.at("remind_after_ms"@) {
            JsonView::Number(number) => seq![said(" reminder="@), said(number_text(number))],
            _ => seq![said(" reminder=disabled"@)],
        }
    } else {
        Seq::empty()
    }
}

/// The receipt of a tell or an ask.
pub open spec fn message_receipt(method: Seq<char>, result: JsonView) -> Seq<PieceView> {
    seq![
        said(method),
        said(" message="@),
        field_piece(result, "message_id"@),
        said(" operation="@),
        field_piece(result, "operation_id"@),
        said(" recipient="@),
        field_piece(result, "recipient"@),
        said(" delivery="@),
        field_piece(result, "delivery_outcome"@),
    ] + due_pieces(result) + reminder_pieces(method, result) + seq![said("\n"@)]
}

fn format_message_receipt(method: &str, result: &Json) -> (r: Receipt)
    ensures
        r@ == message_receipt(method@, result@),
{
    let mut r = Receipt::new();
    r.say(method);
    r.say(" message=");
    r.field(result, "message_id");
    r.say(" operation=");
    r.field(result, "operation_id");
    r.say(" recipient=");
    r.field(result, "recipient");
    r.say(" delivery=");
    r.field(result, "delivery_outcome");
    let ghost head = r@;
    // Epoch milliseconds are unreadable at a glance, and a reader who skims one
    // has no way to notice the message has not been sent yet.
    if let Some(due) = result.i64_at("due_at_ms") {
        r.say(" NOT-SENT-UNTIL=");
        let when = format_utc_ms(due);
        r.say(when.as_str());
        r.say(" due-at-ms=");
        let ms = signed_decimal(due);
        r.say(ms.as_str());
    }
    assert(r@ =~= head + due_pieces(result@));
    let ghost dued = r@;
    if same(method, "ask") {
        match result.get("remind_after_ms") {
            Some(Json::Number(number)) => {
                r.say(" reminder=");
                let text = number.to_text();
                r.say(text.as_str());
            },
            _ => {
                r.say(" reminder=disabled");
            },
        }
    }
    assert(r@ =~= dued + reminder_pieces(method@, result@));
    r.say("\n");
    assert(r@ =~= message_receipt(method@, result@));
    r
}

/// The receipt of a renew.
pub open spec fn renew_receipt(result: JsonView) -> Seq<PieceView> {
    seq![
        said("renew "@),
        field_piece(result, "renew_id"@),
        said(" recipient="@),
        field_piece(result, "recipient"@),
        said(" phase="@),
        field_piece(result, "phase"@),
        said(" on-timeout="@),
        field_piece(result, "on_timeout"@),
    ] + (match result.at("every_ms"@) {
        JsonView::Number(number) => seq![
            said(" every="@),
            said(number_text(number)),
            said("ms"@),
        ],
        _ => seq![said(" due="@), field_piece(result, "scheduled_at_ms"@)],
    }) + seq![said("\n"@)]
}

fn format_renew_receipt(result: &Json) -> (r: Receipt)
    ensures
        r@ == renew_receipt(result@),
{
    let mut r = Receipt::new();
    r.say("renew ");
    r.field(result, "renew_id");
    r.say(" recipient=");
    r.field(result, "recipient");
    r.say(" phase=");
    r.field(result, "phase");
    r.say(" on-timeout=");
    r.field(result, "on_timeout");
    match result.get("every_ms") {
        Some(Json::Number(number)) => {
            r.say(" every=");
            let text = number.to_text();
            r.say(text.as_str());
            r.say("ms");
        },
        _ => {
            r.say(" due=");
            r.field(result, "scheduled_at_ms");
        },
    }
    r.say("\n");
    assert(r@ =~= renew_receipt(result@));
    r
}

/// The receipt of a clear.
pub open spec fn clear_receipt(result: JsonView) -> Seq<PieceView> {
    seq![
        said("clear operation="@),
        field_piece(result, "operation_id"@),
        said(" recipient="@),
        field_piece(result, "recipient"@),
        said(" outcome="@),
        field_piece(result, "outcome"@),
        said("\n"@),
    ]
}

fn format_clear_receipt(result: &Json) -> (r: Receipt)
    ensures
        r@ == clear_receipt(result@),
{
    let mut r = Receipt::new();
    r.say("clear operation=");
    r.field(result, "operation_id");
    r.say(" recipient=");
    r.field(result, "recipient");
    r.say(" outcome=");
    r.field(result, "outcome");
    r.say("\n");
    r
}

/// The receipt of a cancel: what each of its two audiences was told.
pub open spec fn cancel_receipt(result: JsonView) -> Seq<PieceView> {
    seq![
        said("cancel state="@),
        field_piece(result, "state"@),
        said(" response="@),
        field_piece(result, "response"@),
    ] + (match result.at("message_id"@).as_text() {
        Some(id) => seq![said(" message="@), said(id)],
        None => Seq::empty(),
    }) + seq![said(" owing-response="@), field_piece(result, "owing_response"@)] + (
    match result.at("owing_message_id"@).as_text() {
        Some(id) => seq![said(" owing-message="@), said(id)],
        None => Seq::empty(),
    }) + seq![said("\n"@)]
}

fn format_cancel_receipt(result: &Json) -> (r: Receipt)
    ensures
        r@ == cancel_receipt(result@),
{
    let mut r = Receipt::new();
    r.say("cancel state=");
    r.field(result, "state");
    r.say(" response=");
    r.field(result, "response");
    if let Some(id) = result.text_at("message_id") {
        r.say(" message=");
        r.say(id);
    }
    r.say(" owing-response=");
    r.field(result, "owing_response");
    if let Some(id) = result.text_at("owing_message_id") {
        r.say(" owing-message=");
        r.say(id);
    }
    r.say("\n");
    assert(r@ =~= cancel_receipt(result@));
    r
}

/// The texts among the items of a list.
pub open spec fn texts_among(items: Seq<JsonView>) -> Seq<Seq<char>>
    decreases items.len(),
{
    if items.len() == 0 {
        Seq::empty()
    } else {
        match items.last().as_text() {
            Some(text) => texts_among(items.drop_last()).push(text),
            None => texts_among(items.drop_last()),
        }
    }
}

/// How many owing notices were delivered.
pub open spec fn delivered_count(notices: Seq<JsonView>) -> nat
    decreases notices.len(),
{
    if notices.len() == 0 {
        0
    } else {
        delivered_count(notices.drop_last()) + (if notices.last().at("owing_response"@).as_text()
            == Some("delivered"@) {
            1nat
        } else {
            0nat
        })
    }
}

/// The asks that a retirement cancelled, or `none`.
pub open spec fn cancelled_text(items: Seq<JsonView>) -> Seq<char> {
    let text = joined(texts_among(items), ","@);
    if text.len() == 0 {
        "none"@
    } else {
        text
    }
}

/// The receipt of a waiter's retirement.
pub open spec fn waiter_retire_receipt(result: JsonView) -> Seq<PieceView> {
    let notices = result.at("owing_notices"@).items();
    seq![
        said("waiter-retire agent="@),
        field_piece(result, "logical_agent_id"@),
        said(" targeting-ended="@),
        field_piece(result, "targeting_ended"@),
        said(" cancelled-asks="@),
        said(cancelled_text(result.at("cancelled_ask_ids"@).items())),
        said(" owing-delivered="@),
        said(decimal_text(delivered_count(notices))),
        said(" owing-recorded="@),
        said(decimal_text((notices.len() - delivered_count(notices)) as nat)),
        said("\n"@),
    ]
}

fn format_waiter_retire_receipt(result: &Json) -> (r: Receipt)
    ensures
        r@ == waiter_retire_receipt(result@),
{
    let empty: Vec<Json> = Vec::new();
    let ids = items_of(result, "cancelled_ask_ids", &empty);
    let notices = items_of(result, "owing_notices", &empty);
    let mut cancelled: Vec<String> = Vec::new();
    let mut i: usize = 0;
    assert(views(ids@.take(0)) =~= Seq::<JsonView>::empty());
    assert(texts(cancelled@) =~= texts_among(views(ids@.take(0))));
    while i < ids.len()
        invariant
            i <= ids@.len(),
            texts(cancelled@) == texts_among(views(ids@.take(i as int))),
        decreases ids@.len() - i,
    {
        proof {
            let next = views(ids@.take(i as int + 1));
            assert(next.drop_last() =~= views(ids@.take(i as int)));
            assert(next.last() == ids@[i as int]@);
        }
        if let Some(text) = ids[i].as_text() {
            let ghost before = texts(cancelled@);
            cancelled.push(text.to_owned());
            assert(texts(cancelled@) =~= before.push(text@));
        }
        i = i + 1;
    }
    assert(ids@.take(i as int) =~= ids@);
    let mut delivered: usize = 0;
    let mut j: usize = 0;
    assert(views(notices@.take(0)) =~= Seq::<JsonView>::empty());
    while j < notices.len()
        invariant
            j <= notices@.len(),
            delivered <= j,
            delivered == delivered_count(views(notices@.take(j as int))),
        decreases notices@.len() - j,
    {
        proof {
            let next = views(notices@.take(j as int + 1));
            assert(next.drop_last() =~= views(notices@.take(j as int)));
            assert(next.last() == notices@[j as int]@);
        }
        if let Some(response) = notices[j].text_at("owing_response") {
            if same(response, "delivered") {
                delivered = delivered + 1;
            }
        }
        j = j + 1;
    }
    assert(notices@.take(j as int) =~= notices@);
    let text = crate::text::join(&cancelled, ",");
    let mut r = Receipt::new();
    r.say("waiter-retire agent=");
    r.field(result, "logical_agent_id");
    r.say(" targeting-ended=");
    r.field(result, "targeting_ended");
    r.say(" cancelled-asks=");
    if text.as_str().is_empty() {
        r.say("none");
    } else {
        r.say(text.as_str());
    }
    r.say(" owing-delivered=");
    r.say_number(delivered);
    r.say(" owing-recorded=");
    r.say_number(notices.len() - delivered);
    r.say("\n");
    r
}

/// One observed field: its reported value, or why there is none.
pub open spec fn observed_text(observation: JsonView, name: Seq<char>) -> Seq<char> {
    let status = observation.at(name).at("status"@).as_text();
    if status == Some("reported"@) {
        text_or(observation.at(name), "value"@, "-"@)
    } else {
        match status {
            Some(status) => status,
            None => "-"@,
        }
    }
}

/// Render one observed field as `undetermined` or its reported value.
fn observed_field(observation: &Json, name: &str) -> (text: String)
    ensures
        text@ == observed_text(observation@, name@),
{
    match observation.get(name) {
        Some(field) => match field.text_at("status") {
            Some(status) => if same(status, "reported") {
                match field.text_at("value") {
                    Some(value) => value.to_owned(),
                    None => "-".to_owned(),
                }
            } else {
                status.to_owned()
            },
            None => "-".to_owned(),
        },
        None => "-".to_owned(),
    }
}

/// What was observed of an incarnation, on a line of its own.
pub open spec fn observed_pieces(result: JsonView) -> Seq<PieceView> {
    match result.given("observed"@) {
        Some(observed) => seq![
            said("observed adapter="@),
            field_piece(observed, "adapter"@),
            said(" model="@),
            said(observed_text(observed, "model"@)),
            said(" provider="@),
            said(observed_text(observed, "provider"@)),
            said(" effort="@),
            said(observed_text(observed, "effort"@)),
            said(" recorded-at-ms="@),
            field_piece(observed, "recorded_at_ms"@),
        ],
        None => seq![said("observed none"@)],
    }
}

/// The argument vector that a launch asked for, as recorded.
pub open spec fn args_piece(requested: JsonView) -> PieceView {
    match requested.get("backend_args"@) {
        Some(args) => PieceView::Shown(args),
        None => said("[]"@),
    }
}

/// The receipt of an attribution lookup.
pub open spec fn attribution_receipt(result: JsonView) -> Seq<PieceView> {
    let requested = result.at("requested"@);
    seq![
        said("attribution name="@),
        field_piece(result, "public_name"@),
        said(" agent="@),
        field_piece(result, "logical_agent_id"@),
        said(" incarnation="@),
        field_piece(result, "incarnation_id"@),
        said(" backend="@),
        field_piece(result, "backend_kind"@),
        said(" state="@),
        field_piece(result, "incarnation_state"@),
        said("\nrequested model="@),
        field_piece(requested, "model"@),
        said(" provider="@),
        field_piece(requested, "provider"@),
        said(" effort="@),
        field_piece(requested, "effort"@),
        said("\nrequested-args "@),
        args_piece(requested),
        said("\n"@),
    ] + observed_pieces(result) + seq![said("\n"@)]
}

/// Render attribution with requested and observed on separate lines.
///
/// They are never merged: requested is launch intent, observed is evidence.
fn render_attribution(result: &Json) -> (r: Receipt)
    ensures
        r@ == attribution_receipt(result@),
{
    let none = Json::Null;
    let requested = match result.get("requested") {
        Some(requested) => requested,
        None => &none,
    };
    let mut r = Receipt::new();
    r.say("attribution name=");
    r.field(result, "public_name");
    r.say(" agent=");
    r.field(result, "logical_agent_id");
    r.say(" incarnation=");
    r.field(result, "incarnation_id");
    r.say(" backend=");
    r.field(result, "backend_kind");
    r.say(" state=");
    r.field(result, "incarnation_state");
    r.say("\nrequested model=");
    r.field(requested, "model");
    r.say(" provider=");
    r.field(requested, "provider");
    r.say(" effort=");
    r.field(requested, "effort");
    r.say("\nrequested-args ");
    match requested.get("backend_args") {
        Some(args) => r.piece(Piece::Shown(args.clone())),
        None => r.say("[]"),
    }
    r.say("\n");
    let ghost head = r@;
    match result.given("observed") {
        Some(observed) => {
            r.say("observed adapter=");
            r.field(observed, "adapter");
            r.say(" model=");
            let model = observed_field(observed, "model");
            r.say(model.as_str());
            r.say(" provider=");
            let provider = observed_field(observed, "provider");
            r.say(provider.as_str());
            r.say(" effort=");
            let effort = observed_field(observed, "effort");
            r.say(effort.as_str());
            r.say(" recorded-at-ms=");
            r.field(observed, "recorded_at_ms");
        },
        None => {
            r.say("observed none");
        },
    }
    assert(r@ =~= head + observed_pieces(result@));
    r.say("\n");
    assert(r@ =~= attribution_receipt(result@));
    r
}

/// The receipt of an ask lookup: the durable content of one ask and its parties.
pub open spec fn ask_info_receipt(result: JsonView) -> Seq<PieceView> {
    let asker = result.at("asker"@);
    let responder = result.at("responder"@);
    seq![
        said("ask-info "@),
        field_piece(result, "ask_message_id"@),
        said(" state="@),
        field_piece(result, "state"@),
        said("\n  asked-by "@),
        said(text_or(asker, "name"@, "?"@)),
        said(" ("@),
        said(text_or(asker, "agent_id"@, "?"@)),
        said(")\n  responder "@),
        said(text_or(responder, "name"@, "?"@)),
        said(" ("@),
        said(text_or(responder, "agent_id"@, "?"@)),
        said(")\n  created="@),
        said(moment(result, "created_at_ms"@)),
        said(" last-activity="@),
        said(moment(result, "last_activity_at_ms"@)),
    ] + (match result.at("cancellation_reason"@).as_text() {
        Some(reason) => seq![said("\n  cancellation-reason "@), said(reason)],
        None => Seq::empty(),
    }) + seq![said("\n\n"@), field_piece(result, "body"@), said("\n"@)]
}

/// The field of that name, or null.
fn at<'a>(value: &'a Json, name: &str, none: &'a Json) -> (inner: &'a Json)
    requires
        none@ is Null,
    ensures
        inner@ == value@.at(name@),
{
    match value.get(name) {
        Some(inner) => inner,
        None => none,
    }
}

/// Render ask-info: the durable content of one ask and its parties. This is
/// the amnesia-recovery read — a renewed agent re-reads what it was asked.
fn render_ask_info(result: &Json) -> (r: Receipt)
    ensures
        r@ == ask_info_receipt(result@),
{
    let none = Json::Null;
    let asker = at(result, "asker", &none);
    let responder = at(result, "responder", &none);
    let mut r = Receipt::new();
    r.say("ask-info ");
    r.field(result, "ask_message_id");
    r.say(" state=");
    r.field(result, "state");
    r.say("\n  asked-by ");
    r.say_or(asker, "name", "?");
    r.say(" (");
    r.say_or(asker, "agent_id", "?");
    r.say(")\n  responder ");
    r.say_or(responder, "name", "?");
    r.say(" (");
    r.say_or(responder, "agent_id", "?");
    r.say(")\n  created=");
    r.say_moment(result, "created_at_ms");
    r.say(" last-activity=");
    r.say_moment(result, "last_activity_at_ms");
    let ghost head = r@;
    if let Some(reason) = result.text_at("cancellation_reason") {
        r.say("\n  cancellation-reason ");
        r.say(reason);
    }
    let ghost told = r@;
    assert(told =~= head + (match result@.at("cancellation_reason"@).as_text() {
        Some(reason) => seq![said("\n  cancellation-reason "@), said(reason)],
        None => Seq::empty(),
    }));
    r.say("\n\n");
    r.field(result, "body");
    r.say("\n");
    assert(r@ =~= ask_info_receipt(result@));
    r
}

/// What a claimant of a name is now.
pub open spec fn claimant_state(claimant: JsonView) -> Seq<char> {
    let live = claimant.at("live"@).as_bool() == Some(true);
    let addressable = match claimant.at("addressable"@).as_bool() {
        Some(addressable) => addressable,
        None => live,
    };
    if text_or(claimant, "delivery_transport"@, "herdr_prompt"@) == "socket_inbox"@ {
        if addressable {
            "active-waiter"@
        } else {
            "retired-waiter"@
        }
    } else if live {
        "live"@
    } else {
        "not-live"@
    }
}

/// The integer in a field, or zero.
pub open spec fn count_at(value: JsonView, name: Seq<char>) -> int {
    match value.at(name).as_i64() {
        Some(n) => n as int,
        None => 0,
    }
}

/// The line of one claimant of a name.
pub open spec fn claimant_line(claimant: JsonView) -> Seq<PieceView> {
    seq![
        said("\n  "@),
        said(text_or(claimant, "logical_agent_id"@, "?"@)),
        said(" created="@),
        said(moment(claimant, "created_at_ms"@)),
        said(" "@),
        said(claimant_state(claimant)),
        said(" transport="@),
        said(text_or(claimant, "delivery_transport"@, "herdr_prompt"@)),
        said(" unresolved="@),
        said(int_text(count_at(claimant, "unresolved_count"@))),
    ]
}

/// The lines of the claimants of a name.
pub open spec fn claimant_lines(claimants: Seq<JsonView>) -> Seq<PieceView>
    decreases claimants.len(),
{
    if claimants.len() == 0 {
        Seq::empty()
    } else {
        claimant_lines(claimants.drop_last()) + claimant_line(claimants.last())
    }
}

/// One party of an obligation: its name, its agent and whether it is live.
pub open spec fn party_pieces(party: JsonView) -> Seq<PieceView> {
    seq![
        said(text_or(party, "name"@, "?"@)),
        said(" ("@),
        said(text_or(party, "agent_id"@, "?"@)),
        said(", "@),
        said(
            if party.at("live"@).as_bool() == Some(true) {
                "live"@
            } else {
                "not-live"@
            },
        ),
        said(")"@),
    ]
}

/// The lines of one unresolved obligation.
pub open spec fn unresolved_line(obligation: JsonView) -> Seq<PieceView> {
    seq![
        said("\n  ask "@),
        said(text_or(obligation, "ask_message_id"@, "?"@)),
        said(" state="@),
        said(text_or(obligation, "state"@, "?"@)),
        said(" created="@),
        said(moment(obligation, "created_at_ms"@)),
        said(" last-activity="@),
        said(moment(obligation, "last_activity_at_ms"@)),
        said("\n    asker "@),
    ] + party_pieces(obligation.at("asker"@)) + seq![said("\n    responder "@)] + party_pieces(
        obligation.at("responder"@),
    )
}

/// The lines of the unresolved obligations.
pub open spec fn unresolved_lines(obligations: Seq<JsonView>) -> Seq<PieceView>
    decreases obligations.len(),
{
    if obligations.len() == 0 {
        Seq::empty()
    } else {
        unresolved_lines(obligations.drop_last()) + unresolved_line(obligations.last())
    }
}

/// The receipt of a name lookup.
pub open spec fn name_info_receipt(result: JsonView) -> Seq<PieceView> {
    let claimants = result.at("claimants"@).items();
    let unresolved = result.at("unresolved"@).items();
    seq![
        said("name-info "@),
        said(text_or(result, "name"@, "?"@)),
        said(" claimants="@),
        said(decimal_text(claimants.len())),
    ] + claimant_lines(claimants) + seq![
        said("\nunresolved obligations="@),
        said(decimal_text(unresolved.len())),
    ] + unresolved_lines(unresolved) + seq![said("\n"@)]
}

fn render_claimant(r: &mut Receipt, claimant: &Json)
    ensures
        final(r)@ == old(r)@ + claimant_line(claimant@),
{
    let live = match claimant.bool_at("live") {
        Some(live) => live,
        None => false,
    };
    let addressable = match claimant.bool_at("addressable") {
        Some(addressable) => addressable,
        None => live,
    };
    let transport = match claimant.text_at("delivery_transport") {
        Some(transport) => transport,
        None => "herdr_prompt",
    };
    let state = if same(transport, "socket_inbox") {
        if addressable {
            "active-waiter"
        } else {
            "retired-waiter"
        }
    } else if live {
        "live"
    } else {
        "not-live"
    };
    let count: i64 = match claimant.i64_at("unresolved_count") {
        Some(n) => n,
        None => 0,
    };
    r.say("\n  ");
    r.say_or(claimant, "logical_agent_id", "?");
    r.say(" created=");
    r.say_moment(claimant, "created_at_ms");
    r.say(" ");
    r.say(state);
    r.say(" transport=");
    r.say(transport);
    r.say(" unresolved=");
    let unresolved = signed_decimal(count);
    r.say(unresolved.as_str());
    assert(r@ =~= old(r)@ + claimant_line(claimant@));
}

fn render_party(r: &mut Receipt, party: &Json)
    ensures
        final(r)@ == old(r)@ + party_pieces(party@),
{
    r.say_or(party, "name", "?");
    r.say(" (");
    r.say_or(party, "agent_id", "?");
    r.say(", ");
    if let Some(true) = party.bool_at("live") {
        r.say("live");
    } else {
        r.say("not-live");
    }
    r.say(")");
    assert(r@ =~= old(r)@ + party_pieces(party@));
}

fn render_unresolved(r: &mut Receipt, obligation: &Json)
    ensures
        final(r)@ == old(r)@ + unresolved_line(obligation@),
{
    let none = Json::Null;
    r.say("\n  ask ");
    r.say_or(obligation, "ask_message_id", "?");
    r.say(" state=");
    r.say_or(obligation, "state", "?");
    r.say(" created=");
    r.say_moment(obligation, "created_at_ms");
    r.say(" last-activity=");
    r.say_moment(obligation, "last_activity_at_ms");
    r.say("\n    asker ");
    render_party(r, at(obligation, "asker", &none));
    r.say("\n    responder ");
    render_party(r, at(obligation, "responder", &none));
    assert(r@ =~= old(r)@ + unresolved_line(obligation@));
}

/// Render name-info: every claimant of a name and every unresolved ask touching
/// them, with both parties named and marked live or not. Facts only — a name's
/// history belongs to whoever reads it, not to a verdict.
fn render_name_info(result: &Json) -> (r: Receipt)
    ensures
        r@ == name_info_receipt(result@),
{
    let empty: Vec<Json> = Vec::new();
    let claimants = items_of(result, "claimants", &empty);
    let unresolved = items_of(result, "unresolved", &empty);
    let mut r = Receipt::new();
    r.say("name-info ");
    r.say_or(result, "name", "?");
    r.say(" claimants=");
    r.say_number(claimants.len());
    let ghost head = r@;
    let mut i: usize = 0;
    assert(views(claimants@.take(0)) =~= Seq::<JsonView>::empty());
    assert(r@ =~= head + claimant_lines(views(claimants@.take(0))));
    while i < claimants.len()
        invariant
            i <= claimants@.len(),
            r@ == head + claimant_lines(views(claimants@.take(i as int))),
        decreases claimants@.len() - i,
    {
        let ghost before = r@;
        render_claimant(&mut r, &claimants[i]);
        proof {
            let next = views(claimants@.take(i as int + 1));
            assert(next.drop_last() =~= views(claimants@.take(i as int)));
            assert(next.last() == claimants@[i as int]@);
            assert(r@ =~= head + claimant_lines(next));
        }
        i = i + 1;
    }
    assert(claimants@.take(i as int) =~= claimants@);
    r.say("\nunresolved obligations=");
    r.say_number(unresolved.len());
    let ghost middle = r@;
    let mut j: usize = 0;
    assert(views(unresolved@.take(0)) =~= Seq::<JsonView>::empty());
    assert(r@ =~= middle + unresolved_lines(views(unresolved@.take(0))));
    while j < unresolved.len()
        invariant
            j <= unresolved@.len(),
            r@ == middle + unresolved_lines(views(unresolved@.take(j as int))),
        decreases unresolved@.len() - j,
    {
        render_unresolved(&mut r, &unresolved[j]);
        proof {
            let next = views(unresolved@.take(j as int + 1));
            assert(next.drop_last() =~= views(unresolved@.take(j as int)));
            assert(next.last() == unresolved@[j as int]@);
            assert(r@ =~= middle + unresolved_lines(next));
        }
        j = j + 1;
    }
    assert(unresolved@.take(j as int) =~= unresolved@);
    r.say("\n");
    assert(r@ =~= name_info_receipt(result@));
    r
}

/// The receipt of a reply.
pub open spec fn reply_receipt(result: JsonView) -> Seq<PieceView> {
    seq![
        said("reply message="@),
        field_piece(result, "message_id"@),
        said(" delivery="@),
        field_piece(result, "delivery_outcome"@),
        said(" obligation="@),
        field_piece(result, "obligation_state"@),
        said("\n"@),
    ]
}

fn format_reply_receipt(result: &Json) -> (r: Receipt)
    ensures
        r@ == reply_receipt(result@),
{
    let mut r = Receipt::new();
    r.say("reply message=");
    r.field(result, "message_id");
    r.say(" delivery=");
    r.field(result, "delivery_outcome");
    r.say(" obligation=");
    r.field(result, "obligation_state");
    r.say("\n");
    r
}

/// The receipt of a caller lookup.
pub open spec fn whoami_receipt(result: JsonView) -> Seq<PieceView> {
    seq![
        said("whoami name="@),
        field_piece(result, "public_name"@),
        said(" agent="@),
        field_piece(result, "logical_agent_id"@),
        said(" incarnation="@),
        field_piece(result, "incarnation_id"@),
        said("\n"@),
    ]
}

fn format_whoami_receipt(result: &Json) -> (r: Receipt)
    ensures
        r@ == whoami_receipt(result@),
{
    let mut r = Receipt::new();
    r.say("whoami name=");
    r.field(result, "public_name");
    r.say(" agent=");
    r.field(result, "logical_agent_id");
    r.say(" incarnation=");
    r.field(result, "incarnation_id");
    r.say("\n");
    r
}

/// The receipt of a start: what became of the runtime and of the message, apart.
pub open spec fn start_receipt(result: JsonView) -> Seq<PieceView> {
    seq![
        said("start agent="@),
        field_piece(result, "logical_agent_id"@),
        said(" incarnation="@),
        field_piece(result, "incarnation_id"@),
        said(" runtime="@),
        nested_piece(result, "runtime_start"@, "outcome"@),
        said(" message="@),
        nested_piece(result, "initial_message"@, "message_id"@),
        said(" delivery="@),
        nested_piece(result, "initial_message"@, "outcome"@),
        said("\n"@),
    ]
}

fn format_start_receipt(result: &Json) -> (r: Receipt)
    ensures
        r@ == start_receipt(result@),
{
    let mut r = Receipt::new();
    r.say("start agent=");
    r.field(result, "logical_agent_id");
    r.say(" incarnation=");
    r.field(result, "incarnation_id");
    r.say(" runtime=");
    r.nested(result, "runtime_start", "outcome");
    r.say(" message=");
    r.nested(result, "initial_message", "message_id");
    r.say(" delivery=");
    r.nested(result, "initial_message", "outcome");
    r.say("\n");
    r
}

/// The receipt of an adoption.
pub open spec fn adopt_receipt(result: JsonView) -> Seq<PieceView> {
    seq![
        said("adopt agent="@),
        field_piece(result, "logical_agent_id"@),
        said(" incarnation="@),
        field_piece(result, "incarnation_id"@),
        said(" outcome="@),
        field_piece(result, "outcome"@),
        said("\n"@),
    ]
}

fn format_adopt_receipt(result: &Json) -> (r: Receipt)
    ensures
        r@ == adopt_receipt(result@),
{
    let mut r = Receipt::new();
    r.say("adopt agent=");
    r.field(result, "logical_agent_id");
    r.say(" incarnation=");
    r.field(result, "incarnation_id");
    r.say(" outcome=");
    r.field(result, "outcome");
    r.say("\n");
    r
}

/// The receipt of a recovery.
pub open spec fn recover_receipt(result: JsonView) -> Seq<PieceView> {
    seq![
        said("recover lost="@),
        field_piece(result, "incarnations_marked_lost"@),
        said(" unknown="@),
        field_piece(result, "outcomes_marked_unknown"@),
        said(" starts="@),
        field_piece(result, "starts_recovered"@),
        said("\n"@),
    ]
}

fn format_recover_receipt(result: &Json) -> (r: Receipt)
    ensures
        r@ == recover_receipt(result@),
{
    let mut r = Receipt::new();
    r.say("recover lost=");
    r.field(result, "incarnations_marked_lost");
    r.say(" unknown=");
    r.field(result, "outcomes_marked_unknown");
    r.say(" starts=");
    r.field(result, "starts_recovered");
    r.say("\n");
    r
}

/// The receipt of a waiter's registration.
pub open spec fn waiter_register_receipt(result: JsonView) -> Seq<PieceView> {
    seq![
        said("waiter-register agent="@),
        field_piece(result, "logical_agent_id"@),
        said(" name="@),
        field_piece(result, "public_name"@),
        said(" transport=socket_inbox\n"@),
    ]
}

fn format_waiter_register_receipt(result: &Json) -> (r: Receipt)
    ensures
        r@ == waiter_register_receipt(result@),
{
    let mut r = Receipt::new();
    r.say("waiter-register agent=");
    r.field(result, "logical_agent_id");
    r.say(" name=");
    r.field(result, "public_name");
    r.say(" transport=socket_inbox\n");
    r
}

/// The receipt of a rename.
pub open spec fn rename_receipt(result: JsonView) -> Seq<PieceView> {
    seq![
        said("rename name="@),
        field_piece(result, "public_name"@),
        said(" agent="@),
        field_piece(result, "logical_agent_id"@),
        said(" incarnation="@),
        field_piece(result, "incarnation_id"@),
        said("\n"@),
    ]
}

fn format_rename_receipt(result: &Json) -> (r: Receipt)
    ensures
        r@ == rename_receipt(result@),
{
    let mut r = Receipt::new();
    r.say("rename name=");
    r.field(result, "public_name");
    r.say(" agent=");
    r.field(result, "logical_agent_id");
    r.say(" incarnation=");
    r.field(result, "incarnation_id");
    r.say("\n");
    r
}

/// The receipt of a notice.
pub open spec fn notice_receipt(result: JsonView) -> Seq<PieceView> {
    seq![
        said("notice "@),
        field_piece(result, "notice_id"@),
        said("\n"@),
    ]
}

fn format_notice_receipt(result: &Json) -> (r: Receipt)
    ensures
        r@ == notice_receipt(result@),
{
    let mut r = Receipt::new();
    r.say("notice ");
    r.field(result, "notice_id");
    r.say("\n");
    r
}

/// The receipt of a retirement.
pub open spec fn retire_receipt(result: JsonView) -> Seq<PieceView> {
    seq![
        said("retire operation="@),
        field_piece(result, "operation_id"@),
        said(" pane-released="@),
        field_piece(result, "pane_released"@),
        said("\n"@),
    ]
}

fn format_retire_receipt(result: &Json) -> (r: Receipt)
    ensures
        r@ == retire_receipt(result@),
{
    let mut r = Receipt::new();
    r.say("retire operation=");
    r.field(result, "operation_id");
    r.say(" pane-released=");
    r.field(result, "pane_released");
    r.say("\n");
    r
}

/// The receipt of a refused request: the error is never hidden.
pub open spec fn error_receipt(method: Seq<char>, error: JsonView) -> Seq<PieceView> {
    seq![
        said(method),
        said(" error class="@),
        said(text_or(error, "class"@, "?"@)),
        said(" message="@),
        said(text_or(error, "message"@, "request failed"@)),
        said("\n"@),
    ]
}

fn format_error_receipt(method: &str, error: &Json) -> (r: Receipt)
    ensures
        r@ == error_receipt(method@, error@),
{
    let mut r = Receipt::new();
    r.say(method);
    r.say(" error class=");
    r.say_or(error, "class", "?");
    r.say(" message=");
    r.say_or(error, "message", "request failed");
    r.say("\n");
    r
}

/// The receipt of a result: of each method in its own words, of any other as it
/// stands.
pub open spec fn result_receipt(method: Seq<char>, result: JsonView) -> Seq<PieceView> {
    if method == "tell"@ || method == "ask"@ {
        message_receipt(method, result)
    } else if method == "renew"@ {
        renew_receipt(result)
    } else if method == "clear"@ {
        clear_receipt(result)
    } else if method == "reply"@ {
        reply_receipt(result)
    } else if method == "whoami"@ {
        whoami_receipt(result)
    } else if method == "start"@ {
        start_receipt(result)
    } else if method == "adopt"@ {
        adopt_receipt(result)
    } else if method == "recover"@ {
        recover_receipt(result)
    } else if method == "attribution"@ {
        attribution_receipt(result)
    } else if method == "report"@ {
        report_receipt(result)
    } else if method == "name.info"@ {
        name_info_receipt(result)
    } else if method == "ask.info"@ {
        ask_info_receipt(result)
    } else if method == "waiter.register"@ {
        waiter_register_receipt(result)
    } else if method == "waiter.retire"@ {
        waiter_retire_receipt(result)
    } else if method == "rename"@ {
        rename_receipt(result)
    } else if method == "notice.create"@ {
        notice_receipt(result)
    } else if method == "cancel"@ {
        cancel_receipt(result)
    } else if method == "retire"@ {
        retire_receipt(result)
    } else {
        seq![PieceView::Shown(result), said("\n"@)]
    }
}

fn format_result_receipt(method: &str, result: &Json) -> (r: Receipt)
    ensures
        r@ == result_receipt(method@, result@),
{
    if same(method, "tell") || same(method, "ask") {
        format_message_receipt(method, result)
    } else if same(method, "renew") {
        format_renew_receipt(result)
    } else if same(method, "clear") {
        format_clear_receipt(result)
    } else if same(method, "reply") {
        format_reply_receipt(result)
    } else if same(method, "whoami") {
        format_whoami_receipt(result)
    } else if same(method, "start") {
        format_start_receipt(result)
    } else if same(method, "adopt") {
        format_adopt_receipt(result)
    } else if same(method, "recover") {
        format_recover_receipt(result)
    } else if same(method, "attribution") {
        render_attribution(result)
    } else if same(method, "report") {
        render_report(result)
    } else if same(method, "name.info") {
        render_name_info(result)
    } else if same(method, "ask.info") {
        render_ask_info(result)
    } else if same(method, "waiter.register") {
        format_waiter_register_receipt(result)
    } else if same(method, "waiter.retire") {
        format_waiter_retire_receipt(result)
    } else if same(method, "rename") {
        format_rename_receipt(result)
    } else if same(method, "notice.create") {
        format_notice_receipt(result)
    } else if same(method, "cancel") {
        format_cancel_receipt(result)
    } else if same(method, "retire") {
        format_retire_receipt(result)
    } else {
        let mut r = Receipt::new();
        r.piece(Piece::Shown(result.clone()));
        r.say("\n");
        r
    }
}

/// The receipt of a response.
pub open spec fn receipt_of(method: Seq<char>, response: JsonView) -> Seq<PieceView> {
    match response.given("error"@) {
        Some(error) => error_receipt(method, error),
        None => result_receipt(method, response.at("result"@)),
    }
}

/// The pieces of the receipt of a response. Unknown and rejected outcomes stay visible.
pub fn receipt_pieces(method: &str, response: &Json) -> (r: Receipt)
    ensures
        r@ == receipt_of(method@, response@),
{
    match response.given("error") {
        Some(error) => format_error_receipt(method, error),
        None => match response.get("result") {
            Some(result) => format_result_receipt(method, result),
            None => format_result_receipt(method, &Json::Null),
        },
    }
}

/// Format a typed receipt. Unknown and rejected outcomes stay visible.
pub fn format_receipt(method: &str, response: &Json) -> (text: String)
    ensures
        text@ == pieces_text(receipt_of(method@, response@)),
{
    receipt_pieces(method, response).text()
}

/// A response with an error is never shown as a success: its receipt names the
/// class and the message, whatever the result holds.
pub proof fn law_receipt_does_not_hide_an_error(method: Seq<char>, response: JsonView)
    requires
        response.given("error"@) is Some,
    ensures
        ({
            let error = response.given("error"@)->0;
            let receipt = receipt_of(method, response);
            &&& receipt[1] == said(" error class="@)
            &&& receipt[2] == said(text_or(error, "class"@, "?"@))
            &&& receipt[4] == said(text_or(error, "message"@, "request failed"@))
        }),
{
}

} // verus!
