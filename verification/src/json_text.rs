//! The text of JSON documents: reading it and writing it in its compact form.

use vstd::prelude::*;

use crate::json::{number_text, Json, JsonView, Number, NumberView};
use crate::text::{join, joined, texts};

verus! {

/// `serde_json::Value`: a document as the crate holds it.
#[verifier::external_type_specification]
#[verifier::external_body]
pub struct ExValue(serde_json::Value);

/// What `serde_json::from_str::<Value>` reads in a text: a document, or why it reads none.
pub uninterp spec fn json_content(text: Seq<char>) -> Result<JsonView, Seq<char>>;

/// The document that a `serde_json::Value` holds.
pub uninterp spec fn value_document(value: serde_json::Value) -> JsonView;

/// The `Display` text of a `serde_json::Value` that holds a string: the string in quotes.
pub uninterp spec fn quoted(text: Seq<char>) -> Seq<char>;

/// Why a text is not read; nothing where it is.
pub open spec fn json_failure(text: Seq<char>) -> Option<Seq<char>> {
    match json_content(text) {
        Ok(_) => None,
        Err(failure) => Some(failure),
    }
}

/// The document that a text denotes, where it denotes one.
pub open spec fn json_of(text: Seq<char>) -> JsonView {
    match json_content(text) {
        Ok(document) => document,
        Err(_) => JsonView::Null,
    }
}

/// `serde_json::from_str::<Value>`: the document that the text is, or the text of the
/// error.
#[verifier::external_body]
fn read_text(text: &str) -> (r: Result<serde_json::Value, String>)
    ensures
        match (r, json_content(text@)) {
            (Ok(value), Ok(document)) => value_document(value) == document,
            (Err(e), Err(failure)) => e@ == failure,
            _ => false,
        },
{
    serde_json::from_str::<serde_json::Value>(text).map_err(|error| error.to_string())
}

/// What a document is made of. A number is each integer that it is, and its text.
enum Parts<'a> {
    Null,
    Bool(bool),
    Number(Option<u64>, Option<i64>, String),
    Text(&'a String),
    List(&'a Vec<serde_json::Value>),
    Object(Vec<(&'a String, &'a serde_json::Value)>),
}

/// A number as it is read: an integer where it is one.
pub open spec fn number_of(
    unsigned: Option<u64>,
    signed: Option<i64>,
    text: Seq<char>,
) -> NumberView {
    match (unsigned, signed) {
        (Some(n), _) => NumberView::Int(n as int),
        (None, Some(n)) => NumberView::Int(n as int),
        (None, None) => NumberView::Other(text),
    }
}

/// The documents that the items of a list hold.
pub open spec fn items_of(items: Seq<serde_json::Value>) -> Seq<JsonView> {
    Seq::new(items.len(), |i: int| value_document(items[i]))
}

/// The names of the fields of an object, each with the document that its value holds.
pub open spec fn fields_of(fields: Seq<(&String, &serde_json::Value)>) -> Seq<
    (Seq<char>, JsonView),
> {
    Seq::new(fields.len(), |i: int| (fields[i].0@, value_document(*fields[i].1)))
}

/// The variants of `serde_json::Value`: which one a document is, with what it holds. A
/// number comes as what `Number::as_u64`, `Number::as_i64` and its `Display` give.
#[verifier::external_body]
fn take_apart(value: &serde_json::Value) -> (parts: Parts<'_>)
    ensures
        match (parts, value_document(*value)) {
            (Parts::Null, JsonView::Null) => true,
            (Parts::Bool(b), JsonView::Bool(c)) => b == c,
            (Parts::Number(u, i, text), JsonView::Number(number)) => number == number_of(
                u,
                i,
                text@,
            ),
            (Parts::Text(text), JsonView::Text(held)) => text@ == held,
            (Parts::List(items), JsonView::List(held)) => items_of(items@) == held,
            (Parts::Object(fields), JsonView::Object(held)) => fields_of(fields@) == held,
            _ => false,
        },
{
    match value {
        serde_json::Value::Null => Parts::Null,
        serde_json::Value::Bool(b) => Parts::Bool(*b),
        serde_json::Value::Number(n) => Parts::Number(n.as_u64(), n.as_i64(), n.to_string()),
        serde_json::Value::String(text) => Parts::Text(text),
        serde_json::Value::Array(items) => Parts::List(items),
        serde_json::Value::Object(fields) => Parts::Object(fields.iter().collect()),
    }
}

/// The `Display` text of a `serde_json::Value` that holds a string: the string in quotes.
#[verifier::external_body]
fn quote(text: &str) -> (shown: String)
    ensures
        shown@ == quoted(text@),
{
    serde_json::Value::from(text).to_string()
}

fn read_value(value: &serde_json::Value) -> (document: Json)
    ensures
        document@ == value_document(*value),
    decreases value_document(*value),
{
    match take_apart(value) {
        Parts::Null => Json::Null,
        Parts::Bool(b) => Json::Bool(b),
        Parts::Number(unsigned, signed, shown) => Json::Number(
            match (unsigned, signed) {
                (Some(n), _) => Number::Unsigned(n),
                (None, Some(n)) => Number::Negative(n),
                (None, None) => Number::Other(shown),
            },
        ),
        Parts::Text(text) => Json::Text(text.clone()),
        Parts::List(values) => {
            let mut items: Vec<Json> = Vec::new();
            let mut i: usize = 0;
            while i < values.len()
                invariant
                    i <= values@.len(),
                    items@.len() == i,
                    value_document(*value) == JsonView::List(items_of(values@)),
                    forall|j: int|
                        0 <= j < i ==> (#[trigger] items@[j])@ == value_document(values@[j]),
                decreases values@.len() - i,
            {
                proof {
                    let held = value_document(*value);
                    assert(decreases_to!(held => held->List_0));
                    assert(decreases_to!(held->List_0 => held->List_0[i as int]));
                    assert(held->List_0[i as int] == value_document(values@[i as int]));
                }
                let item = read_value(&values[i]);
                items.push(item);
                i = i + 1;
            }
            let document = Json::List(items);
            assert(document@->List_0 =~= items_of(values@));
            document
        },
        Parts::Object(values) => {
            let mut fields: Vec<(String, Json)> = Vec::new();
            let mut i: usize = 0;
            while i < values.len()
                invariant
                    i <= values@.len(),
                    fields@.len() == i,
                    value_document(*value) == JsonView::Object(fields_of(values@)),
                    forall|j: int|
                        0 <= j < i ==> (#[trigger] fields@[j]).0@ == values@[j].0@ && fields@[j].1@
                            == value_document(*values@[j].1),
                decreases values@.len() - i,
            {
                proof {
                    let held = value_document(*value);
                    assert(decreases_to!(held => held->Object_0));
                    assert(decreases_to!(held->Object_0 => held->Object_0[i as int]));
                    assert(decreases_to!(held->Object_0[i as int] => held->Object_0[i as int].1));
                    assert(held->Object_0[i as int].1 == value_document(*values@[i as int].1));
                }
                let field = read_value(values[i].1);
                fields.push((values[i].0.clone(), field));
                i = i + 1;
            }
            let document = Json::Object(fields);
            assert(document@->Object_0 =~= fields_of(values@));
            document
        },
    }
}

/// Whether reading a text gave what it should.
pub open spec fn is_read(r: Result<Json, String>, text: Seq<char>) -> bool {
    match (r, json_content(text)) {
        (Ok(value), Ok(document)) => value@ == document,
        (Err(e), Err(failure)) => e@ == failure,
        _ => false,
    }
}

/// Read a document from its text.
pub fn parse_json(text: &str) -> (r: Result<Json, String>)
    ensures
        is_read(r, text@),
{
    match read_text(text) {
        Ok(value) => Ok(read_value(&value)),
        Err(failure) => Err(failure),
    }
}

/// The compact text of a document: its fields in their order, nothing between its
/// tokens.
pub open spec fn json_text(value: JsonView) -> Seq<char>
    decreases value,
{
    match value {
        JsonView::Null => "null"@,
        JsonView::Bool(b) => if b {
            "true"@
        } else {
            "false"@
        },
        JsonView::Number(number) => number_text(number),
        JsonView::Text(text) => quoted(text),
        JsonView::List(items) => "["@ + joined(item_texts(items), ","@) + "]"@,
        JsonView::Object(fields) => "{"@ + joined(field_texts(fields), ","@) + "}"@,
    }
}

/// The compact texts of the items of a list.
pub open spec fn item_texts(items: Seq<JsonView>) -> Seq<Seq<char>>
    decreases items,
{
    Seq::new(
        items.len(),
        |i: int|
            if 0 <= i < items.len() {
                json_text(items[i])
            } else {
                Seq::empty()
            },
    )
}

/// The compact texts of the fields of an object.
pub open spec fn field_texts(fields: Seq<(Seq<char>, JsonView)>) -> Seq<Seq<char>>
    decreases fields,
{
    Seq::new(
        fields.len(),
        |i: int|
            if 0 <= i < fields.len() {
                quoted(fields[i].0) + ":"@ + json_text(fields[i].1)
            } else {
                Seq::empty()
            },
    )
}

/// Write a document in its compact form.
pub fn show_json(value: &Json) -> (text: String)
    ensures
        text@ == json_text(value@),
    decreases value,
{
    match value {
        Json::Null => "null".to_owned(),
        Json::Bool(b) => if *b {
            "true".to_owned()
        } else {
            "false".to_owned()
        },
        Json::Number(number) => number.to_text(),
        Json::Text(text) => quote(text.as_str()),
        Json::List(items) => {
            let mut parts: Vec<String> = Vec::new();
            let mut i: usize = 0;
            while i < items.len()
                invariant
                    i <= items@.len(),
                    parts@.len() == i,
                    value == Json::List(*items),
                    forall|j: int| 0 <= j < i ==> (#[trigger] parts@[j])@ == json_text(items@[j]@),
                decreases items@.len() - i,
            {
                proof {
                    assert(decreases_to!(*value => value->List_0));
                    assert(decreases_to!(*items => items@));
                    assert(decreases_to!(items@ => items@[i as int]));
                }
                let part = show_json(&items[i]);
                parts.push(part);
                i = i + 1;
            }
            assert(texts(parts@) =~= item_texts(value@->List_0));
            "[".to_owned().concat(join(&parts, ",").as_str()).concat("]")
        },
        Json::Object(fields) => {
            let mut parts: Vec<String> = Vec::new();
            let mut i: usize = 0;
            while i < fields.len()
                invariant
                    i <= fields@.len(),
                    parts@.len() == i,
                    value == Json::Object(*fields),
                    forall|j: int|
                        0 <= j < i ==> (#[trigger] parts@[j])@ == quoted(fields@[j].0@) + ":"@
                            + json_text(fields@[j].1@),
                decreases fields@.len() - i,
            {
                proof {
                    assert(decreases_to!(*value => value->Object_0));
                    assert(decreases_to!(*fields => fields@));
                    assert(decreases_to!(fields@ => fields@[i as int]));
                    assert(decreases_to!(fields@[i as int] => fields@[i as int].1));
                }
                let part = quote(fields[i].0.as_str()).concat(":").concat(
                    show_json(&fields[i].1).as_str(),
                );
                parts.push(part);
                i = i + 1;
            }
            assert(texts(parts@) =~= field_texts(value@->Object_0));
            "{".to_owned().concat(join(&parts, ",").as_str()).concat("}")
        },
    }
}

} // verus!
