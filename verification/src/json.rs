//! A JSON document as plain data, and its mathematical view.

use vstd::prelude::*;

use crate::text::{
    decimal, int_text, law_text_order_goes_on, law_texts_have_one_order, same, signed_decimal,
    text_before, text_le,
};

verus! {

/// A JSON number. One that is no 64-bit integer is kept as its text.
#[derive(Debug, PartialEq, Eq)]
pub enum Number {
    Unsigned(u64),
    Negative(i64),
    Other(String),
}

/// A JSON value. An object is built with its fields in the order of their names.
#[derive(Debug, PartialEq, Eq)]
pub enum Json {
    Null,
    Bool(bool),
    Number(Number),
    Text(String),
    List(Vec<Json>),
    Object(Vec<(String, Json)>),
}

/// The view of a JSON number.
pub enum NumberView {
    Int(int),
    Other(Seq<char>),
}

/// The view of a JSON value.
pub enum JsonView {
    Null,
    Bool(bool),
    Number(NumberView),
    Text(Seq<char>),
    List(Seq<JsonView>),
    Object(Seq<(Seq<char>, JsonView)>),
}

impl Number {
    pub open spec fn view(&self) -> NumberView {
        match self {
            Number::Unsigned(n) => NumberView::Int(*n as int),
            Number::Negative(n) => NumberView::Int(*n as int),
            Number::Other(text) => NumberView::Other(text@),
        }
    }
}

impl Json {
    pub open spec fn view(&self) -> JsonView
        decreases self,
    {
        match self {
            Json::Null => JsonView::Null,
            Json::Bool(b) => JsonView::Bool(*b),
            Json::Number(n) => JsonView::Number(n@),
            Json::Text(t) => JsonView::Text(t@),
            Json::List(items) => JsonView::List(
                Seq::new(
                    items@.len(),
                    |i: int|
                        if 0 <= i < items@.len() {
                            items@[i].view()
                        } else {
                            JsonView::Null
                        },
                ),
            ),
            Json::Object(fields) => JsonView::Object(
                Seq::new(
                    fields@.len(),
                    |i: int|
                        if 0 <= i < fields@.len() {
                            (fields@[i].0@, fields@[i].1.view())
                        } else {
                            (Seq::empty(), JsonView::Null)
                        },
                ),
            ),
        }
    }
}

impl Clone for Number {
    fn clone(&self) -> (r: Self)
        ensures
            r@ == self@,
    {
        match self {
            Number::Unsigned(n) => Number::Unsigned(*n),
            Number::Negative(n) => Number::Negative(*n),
            Number::Other(text) => Number::Other(text.clone()),
        }
    }
}

impl Clone for Json {
    fn clone(&self) -> (r: Self)
        ensures
            r@ == self@,
        decreases self,
    {
        match self {
            Json::Null => Json::Null,
            Json::Bool(b) => Json::Bool(*b),
            Json::Number(n) => Json::Number(n.clone()),
            Json::Text(t) => Json::Text(t.clone()),
            Json::List(items) => {
                let mut copies: Vec<Json> = Vec::new();
                let mut i: usize = 0;
                while i < items.len()
                    invariant
                        i <= items@.len(),
                        copies@.len() == i,
                        self == Json::List(*items),
                        forall|j: int| 0 <= j < i ==> (#[trigger] copies@[j])@ == items@[j]@,
                    decreases items@.len() - i,
                {
                    proof {
                        assert(decreases_to!(*self => self->List_0));
                        assert(decreases_to!(*items => items@));
                        assert(decreases_to!(items@ => items@[i as int]));
                    }
                    let copy = items[i].clone();
                    copies.push(copy);
                    i = i + 1;
                }
                let r = Json::List(copies);
                assert(r@->List_0 =~= self@->List_0);
                r
            },
            Json::Object(fields) => {
                let mut copies: Vec<(String, Json)> = Vec::new();
                let mut i: usize = 0;
                while i < fields.len()
                    invariant
                        i <= fields@.len(),
                        copies@.len() == i,
                        self == Json::Object(*fields),
                        forall|j: int|
                            0 <= j < i ==> (#[trigger] copies@[j]).0@ == fields@[j].0@
                                && copies@[j].1@ == fields@[j].1@,
                    decreases fields@.len() - i,
                {
                    let name = fields[i].0.clone();
                    proof {
                        assert(decreases_to!(*self => self->Object_0));
                        assert(decreases_to!(*fields => fields@));
                        assert(decreases_to!(fields@ => fields@[i as int]));
                        assert(decreases_to!(fields@[i as int] => fields@[i as int].1));
                    }
                    let copy = fields[i].1.clone();
                    copies.push((name, copy));
                    i = i + 1;
                }
                let r = Json::Object(copies);
                assert(r@->Object_0 =~= self@->Object_0);
                r
            },
        }
    }
}

/// The index of the first field of that name.
pub open spec fn field_at(fields: Seq<(Seq<char>, JsonView)>, name: Seq<char>) -> Option<int>
    decreases fields.len(),
{
    if fields.len() == 0 {
        None
    } else {
        match field_at(fields.drop_last(), name) {
            Some(i) => Some(i),
            None => if fields.last().0 == name {
                Some(fields.len() - 1)
            } else {
                None
            },
        }
    }
}

/// `field_at` is the index of the first field of that name.
pub proof fn lemma_field_at(fields: Seq<(Seq<char>, JsonView)>, name: Seq<char>)
    ensures
        match field_at(fields, name) {
            Some(i) => 0 <= i < fields.len() && fields[i].0 == name && forall|j: int|
                0 <= j < i ==> (#[trigger] fields[j]).0 != name,
            None => forall|j: int| 0 <= j < fields.len() ==> (#[trigger] fields[j]).0 != name,
        },
    decreases fields.len(),
{
    if fields.len() > 0 {
        let rest = fields.drop_last();
        lemma_field_at(rest, name);
        assert forall|j: int| 0 <= j < rest.len() implies rest[j] == fields[j] by {}
        match field_at(rest, name) {
            Some(i) => {
                assert(rest[i] == fields[i]);
                assert forall|j: int| 0 <= j < i implies (#[trigger] fields[j]).0 != name by {
                    assert(rest[j].0 != name);
                }
            },
            None => {
                assert forall|j: int| 0 <= j < fields.len() - 1 implies (#[trigger] fields[j]).0
                    != name by {
                    assert(rest[j].0 != name);
                }
            },
        }
    }
}

/// The place of a name among fields in the order of their names.
pub open spec fn slot(fields: Seq<(Seq<char>, JsonView)>, name: Seq<char>) -> int
    decreases fields.len(),
{
    if fields.len() == 0 || text_le(fields.last().0, name) {
        fields.len() as int
    } else {
        slot(fields.drop_last(), name)
    }
}

proof fn lemma_slot(fields: Seq<(Seq<char>, JsonView)>, name: Seq<char>)
    ensures
        0 <= slot(fields, name) <= fields.len(),
    decreases fields.len(),
{
    if fields.len() > 0 {
        lemma_slot(fields.drop_last(), name);
    }
}

impl JsonView {
    /// The field of that name of an object; nothing of any other value.
    pub open spec fn get(self, name: Seq<char>) -> Option<JsonView> {
        match self {
            JsonView::Object(fields) => match field_at(fields, name) {
                Some(i) => Some(fields[i].1),
                None => None,
            },
            _ => None,
        }
    }

    /// The field of that name, or null where there is none.
    pub open spec fn at(self, name: Seq<char>) -> JsonView {
        match self.get(name) {
            Some(value) => value,
            None => JsonView::Null,
        }
    }

    /// The field of that name, unless it is absent or null.
    pub open spec fn given(self, name: Seq<char>) -> Option<JsonView> {
        match self.get(name) {
            Some(value) => if value is Null {
                None
            } else {
                Some(value)
            },
            None => None,
        }
    }

    pub open spec fn as_text(self) -> Option<Seq<char>> {
        match self {
            JsonView::Text(t) => Some(t),
            _ => None,
        }
    }

    pub open spec fn as_bool(self) -> Option<bool> {
        match self {
            JsonView::Bool(b) => Some(b),
            _ => None,
        }
    }

    /// The value of an integer that an `i64` can hold.
    pub open spec fn as_i64(self) -> Option<i64> {
        match self {
            JsonView::Number(NumberView::Int(n)) => if i64::MIN <= n <= i64::MAX {
                Some(n as i64)
            } else {
                None
            },
            _ => None,
        }
    }

    /// The value of an integer that a `u64` can hold.
    pub open spec fn as_u64(self) -> Option<u64> {
        match self {
            JsonView::Number(NumberView::Int(n)) => if 0 <= n <= u64::MAX {
                Some(n as u64)
            } else {
                None
            },
            _ => None,
        }
    }

    /// The items of a list; none of any other value.
    pub open spec fn items(self) -> Seq<JsonView> {
        match self {
            JsonView::List(items) => items,
            _ => Seq::empty(),
        }
    }

    /// An object with one more field behind the others, as a record writes it.
    pub open spec fn ending_with(self, name: Seq<char>, value: JsonView) -> JsonView {
        match self {
            JsonView::Object(fields) => JsonView::Object(fields.push((name, value))),
            _ => JsonView::Object(seq![(name, value)]),
        }
    }

    /// An object with one field set: replaced where it is, added in the place of its name
    /// where it is not.
    pub open spec fn with(self, name: Seq<char>, value: JsonView) -> JsonView {
        match self {
            JsonView::Object(fields) => match field_at(fields, name) {
                Some(i) => JsonView::Object(fields.update(i, (name, value))),
                None => JsonView::Object(fields.insert(slot(fields, name), (name, value))),
            },
            _ => JsonView::Object(seq![(name, value)]),
        }
    }
}

/// The decimal text of a number.
pub open spec fn number_text(n: NumberView) -> Seq<char> {
    match n {
        NumberView::Int(n) => int_text(n),
        NumberView::Other(text) => text,
    }
}

/// A text as a JSON value.
pub open spec fn text_view(t: Seq<char>) -> JsonView {
    JsonView::Text(t)
}

/// An integer as a JSON value.
pub open spec fn int_view(n: int) -> JsonView {
    JsonView::Number(NumberView::Int(n))
}

/// A text that may be absent as a JSON value: null where it is.
pub open spec fn optional_text_view(t: Option<Seq<char>>) -> JsonView {
    match t {
        Some(t) => JsonView::Text(t),
        None => JsonView::Null,
    }
}

/// An object with no fields.
pub open spec fn empty_object() -> JsonView {
    JsonView::Object(Seq::empty())
}

impl Number {
    /// The decimal text of the number.
    pub fn to_text(&self) -> (text: String)
        ensures
            text@ == number_text(self@),
    {
        match self {
            Number::Unsigned(n) => decimal(*n),
            Number::Negative(n) => signed_decimal(*n),
            Number::Other(text) => text.clone(),
        }
    }
}

impl Json {
    /// An object with no fields.
    pub fn object() -> (r: Json)
        ensures
            r@ == empty_object(),
    {
        let r = Json::Object(Vec::new());
        assert(r@->Object_0 =~= Seq::empty());
        r
    }

    /// A text value.
    pub fn text(t: &str) -> (r: Json)
        ensures
            r@ == text_view(t@),
    {
        Json::Text(t.to_owned())
    }

    /// A text value, or null.
    pub fn optional_text(t: &Option<String>) -> (r: Json)
        ensures
            r@ == optional_text_view(
                match t {
                    Some(t) => Some(t@),
                    None => None,
                },
            ),
    {
        match t {
            Some(t) => Json::Text(t.clone()),
            None => Json::Null,
        }
    }

    /// An integer value.
    pub fn integer(n: i64) -> (r: Json)
        ensures
            r@ == int_view(n as int),
    {
        if n >= 0 {
            Json::Number(Number::Unsigned(n as u64))
        } else {
            Json::Number(Number::Negative(n))
        }
    }

    /// A non-negative integer value.
    pub fn unsigned(n: u64) -> (r: Json)
        ensures
            r@ == int_view(n as int),
    {
        Json::Number(Number::Unsigned(n))
    }

    /// The index of the first field of that name.
    fn position(fields: &Vec<(String, Json)>, name: &str) -> (index: Option<usize>)
        ensures
            match (index, field_at(Json::Object(*fields)@->Object_0, name@)) {
                (Some(i), Some(j)) => i == j && i < fields@.len(),
                (None, None) => true,
                _ => false,
            },
    {
        let ghost shown = Json::Object(*fields)@->Object_0;
        proof {
            lemma_field_at(shown, name@);
        }
        let mut i: usize = 0;
        while i < fields.len()
            invariant
                i <= fields@.len(),
                shown == Json::Object(*fields)@->Object_0,
                forall|j: int| 0 <= j < i ==> (#[trigger] shown[j]).0 != name@,
            decreases fields@.len() - i,
        {
            assert(shown[i as int].0 == fields@[i as int].0@);
            if same(fields[i].0.as_str(), name) {
                proof {
                    lemma_field_at(shown, name@);
                }
                return Some(i);
            }
            i = i + 1;
        }
        None
    }

    /// The field of that name of an object; nothing of any other value.
    pub fn get(&self, name: &str) -> (value: Option<&Json>)
        ensures
            match value {
                Some(v) => self@.get(name@) == Some(v@),
                None => self@.get(name@) is None,
            },
    {
        match self {
            Json::Object(fields) => match Json::position(fields, name) {
                Some(i) => Some(&fields[i].1),
                None => None,
            },
            _ => None,
        }
    }

    /// The field of that name, unless it is absent or null.
    pub fn given(&self, name: &str) -> (value: Option<&Json>)
        ensures
            match value {
                Some(v) => self@.given(name@) == Some(v@),
                None => self@.given(name@) is None,
            },
    {
        match self.get(name) {
            Some(Json::Null) => None,
            other => other,
        }
    }

    /// Whether this is null.
    pub fn is_null(&self) -> (r: bool)
        ensures
            r == (self@ is Null),
    {
        match self {
            Json::Null => true,
            _ => false,
        }
    }

    /// The text of a text value.
    pub fn as_text(&self) -> (text: Option<&str>)
        ensures
            match text {
                Some(t) => self@.as_text() == Some(t@),
                None => self@.as_text() is None,
            },
    {
        match self {
            Json::Text(t) => Some(t.as_str()),
            _ => None,
        }
    }

    /// The value of a boolean.
    pub fn as_bool(&self) -> (value: Option<bool>)
        ensures
            value == self@.as_bool(),
    {
        match self {
            Json::Bool(b) => Some(*b),
            _ => None,
        }
    }

    /// The value of an integer that an `i64` can hold.
    pub fn as_i64(&self) -> (value: Option<i64>)
        ensures
            value == self@.as_i64(),
    {
        match self {
            Json::Number(Number::Unsigned(n)) => if *n <= 0x7fff_ffff_ffff_ffff {
                Some(*n as i64)
            } else {
                None
            },
            Json::Number(Number::Negative(n)) => Some(*n),
            _ => None,
        }
    }

    /// The value of an integer that a `u64` can hold.
    pub fn as_u64(&self) -> (value: Option<u64>)
        ensures
            value == self@.as_u64(),
    {
        match self {
            Json::Number(Number::Unsigned(n)) => Some(*n),
            Json::Number(Number::Negative(n)) => if *n >= 0 {
                Some(*n as u64)
            } else {
                None
            },
            _ => None,
        }
    }

    /// The text of the field of that name, where it is a text.
    pub fn text_at(&self, name: &str) -> (text: Option<&str>)
        ensures
            match text {
                Some(t) => self@.at(name@).as_text() == Some(t@),
                None => self@.at(name@).as_text() is None,
            },
    {
        match self.get(name) {
            Some(value) => value.as_text(),
            None => None,
        }
    }

    /// The integer in the field of that name, where it is one.
    pub fn i64_at(&self, name: &str) -> (value: Option<i64>)
        ensures
            value == self@.at(name@).as_i64(),
    {
        match self.get(name) {
            Some(value) => value.as_i64(),
            None => None,
        }
    }

    /// The boolean in the field of that name, where it is one.
    pub fn bool_at(&self, name: &str) -> (value: Option<bool>)
        ensures
            value == self@.at(name@).as_bool(),
    {
        match self.get(name) {
            Some(value) => value.as_bool(),
            None => None,
        }
    }

    fn place(fields: &Vec<(String, Json)>, name: &str) -> (i: usize)
        ensures
            i == slot(Json::Object(*fields)@->Object_0, name@),
            i <= fields@.len(),
    {
        let ghost shown = Json::Object(*fields)@->Object_0;
        let mut i: usize = fields.len();
        assert(shown.take(i as int) =~= shown);
        while i > 0
            invariant
                i <= fields@.len(),
                shown == Json::Object(*fields)@->Object_0,
                slot(shown, name@) == slot(shown.take(i as int), name@),
            decreases i,
        {
            proof {
                assert(shown.take(i as int).last() == shown[i as int - 1]);
                assert(shown[i as int - 1].0 == fields@[i as int - 1].0@);
                assert(shown.take(i as int).drop_last() =~= shown.take(i as int - 1));
            }
            if text_before(fields[i - 1].0.as_str(), name) {
                return i;
            }
            i = i - 1;
        }
        i
    }

    /// Set one field of an object: replace it where it is, add it in the place of
    /// its name where it is not. Any other value becomes an object with that field alone.
    pub fn put(&mut self, name: &str, value: Json)
        ensures
            final(self)@ == old(self)@.with(name@, value@),
    {
        match self {
            Json::Object(fields) => {
                let ghost before = Json::Object(*fields)@->Object_0;
                match Json::position(fields, name) {
                    Some(i) => {
                        fields.set(i, (name.to_owned(), value));
                        proof {
                            assert(Json::Object(*fields)@->Object_0 =~= before.update(
                                i as int,
                                (name@, value@),
                            ));
                        }
                    },
                    None => {
                        let i: usize = Json::place(fields, name);
                        fields.insert(i, (name.to_owned(), value));
                        proof {
                            assert(Json::Object(*fields)@->Object_0 =~= before.insert(
                                i as int,
                                (name@, value@),
                            ));
                        }
                    },
                }
            },
            _ => {
                let mut fields: Vec<(String, Json)> = Vec::new();
                fields.push((name.to_owned(), value));
                *self = Json::Object(fields);
                proof {
                    assert(self@->Object_0 =~= seq![(name@, value@)]);
                }
            },
        }
    }

    /// The same object with one more field behind the others.
    pub fn ending_with(self, name: &str, value: Json) -> (r: Json)
        ensures
            r@ == self@.ending_with(name@, value@),
    {
        match self {
            Json::Object(fields) => {
                let ghost before = Json::Object(fields)@->Object_0;
                let mut fields = fields;
                fields.push((name.to_owned(), value));
                let r = Json::Object(fields);
                assert(r@->Object_0 =~= before.push((name@, value@)));
                r
            },
            _ => {
                let mut fields: Vec<(String, Json)> = Vec::new();
                fields.push((name.to_owned(), value));
                let r = Json::Object(fields);
                assert(r@->Object_0 =~= seq![(name@, value@)]);
                r
            },
        }
    }

    /// The same object with one field set.
    pub fn with(self, name: &str, value: Json) -> (r: Json)
        ensures
            r@ == self@.with(name@, value@),
    {
        let mut r = self;
        r.put(name, value);
        r
    }
}

/// The views of a sequence of JSON values.
pub open spec fn views(values: Seq<Json>) -> Seq<JsonView> {
    values.map_values(|v: Json| v@)
}

/// A list's view holds its items' views, in order.
pub proof fn lemma_list_view(items: Vec<Json>)
    ensures
        Json::List(items)@ == JsonView::List(views(items@)),
        views(items@).len() == items@.len(),
        forall|i: int| 0 <= i < items@.len() ==> #[trigger] views(items@)[i] == items@[i]@,
{
    assert(Json::List(items)@->List_0 =~= views(items@));
}

/// A field that was set reads back, and the others of an object stay.
pub proof fn lemma_with(value: JsonView, name: Seq<char>, field: JsonView, other: Seq<char>)
    ensures
        value.with(name, field).get(name) == Some(field),
        value is Object && other != name ==> value.with(name, field).get(other) == value.get(other),
        value.with(name, field) is Object,
{
    let after = value.with(name, field)->Object_0;
    lemma_field_at(after, name);
    lemma_field_at(after, other);
    match value {
        JsonView::Object(fields) => {
            lemma_field_at(fields, name);
            lemma_field_at(fields, other);
            match field_at(fields, name) {
                Some(i) => {
                    assert(after[i] == (name, field));
                    match field_at(fields, other) {
                        Some(j) => {
                            assert(other != name ==> after[j] == fields[j]);
                        },
                        None => {},
                    }
                    assert forall|j: int| 0 <= j < after.len() && j != i implies after[j]
                        == fields[j] by {}
                },
                None => {
                    let s = slot(fields, name);
                    lemma_slot(fields, name);
                    assert(after[s] == (name, field));
                    assert forall|j: int| 0 <= j < s implies after[j] == fields[j] by {}
                    assert forall|j: int| s < j < after.len() implies after[j] == fields[j - 1] by {}
                    if other != name {
                        match field_at(fields, other) {
                            Some(j) => {
                                assert(after[if j < s { j } else { j + 1 }] == fields[j]);
                            },
                            None => {},
                        }
                    }
                },
            }
        },
        _ => {
            assert(after[0] == (name, field));
        },
    }
}

/// An object with a field set has that field, and every other as before.
pub broadcast proof fn lemma_with_get(
    value: JsonView,
    name: Seq<char>,
    field: JsonView,
    other: Seq<char>,
)
    requires
        value is Object,
    ensures
        (#[trigger] value.with(name, field).get(other)) == if other == name {
            Some(field)
        } else {
            value.get(other)
        },
{
    lemma_with(value, name, field, other);
}

/// A value with a field set is an object.
pub broadcast proof fn lemma_with_is_object(value: JsonView, name: Seq<char>, field: JsonView)
    ensures
        (#[trigger] value.with(name, field)) is Object,
{
    lemma_with(value, name, field, name);
}

/// An empty object has no field.
pub broadcast proof fn lemma_empty_get(name: Seq<char>)
    ensures
        (#[trigger] empty_object().get(name)) is None,
        empty_object() is Object,
{
}

/// A field behind the others reads back where no other has its name, and the others
/// stay.
pub proof fn lemma_ending_with(value: JsonView, name: Seq<char>, field: JsonView, other: Seq<char>)
    requires
        value is Object,
    ensures
        value.get(name) is None ==> value.ending_with(name, field).get(name) == Some(field),
        other != name ==> value.ending_with(name, field).get(other) == value.get(other),
        value.ending_with(name, field) is Object,
{
    let fields = value->Object_0;
    let after = value.ending_with(name, field)->Object_0;
    assert(after.drop_last() =~= fields);
    lemma_field_at(fields, name);
    lemma_field_at(fields, other);
}

/// A field behind the others reads back where no other has its name, and the others stay.
pub broadcast proof fn lemma_ending_with_get(
    value: JsonView,
    name: Seq<char>,
    field: JsonView,
    other: Seq<char>,
)
    requires
        value is Object,
        value.get(name) is None,
    ensures
        (#[trigger] value.ending_with(name, field).get(other)) == if other == name {
            Some(field)
        } else {
            value.get(other)
        },
{
    lemma_ending_with(value, name, field, other);
}

/// An object with a field behind the others is an object.
pub broadcast proof fn lemma_ending_with_is_object(
    value: JsonView,
    name: Seq<char>,
    field: JsonView,
)
    requires
        value is Object,
    ensures
        (#[trigger] value.ending_with(name, field)) is Object,
{
    lemma_ending_with(value, name, field, name);
}

/// Whether fields stand in the order of their names, each of which occurs once.
pub open spec fn is_ordered(fields: Seq<(Seq<char>, JsonView)>) -> bool {
    forall|i: int, j: int|
        0 <= i < j < fields.len() ==> text_le((#[trigger] fields[i]).0, (#[trigger] fields[j]).0)
            && fields[i].0 != fields[j].0
}

proof fn lemma_slot_parts(fields: Seq<(Seq<char>, JsonView)>, name: Seq<char>)
    requires
        is_ordered(fields),
    ensures
        0 <= slot(fields, name) <= fields.len(),
        forall|i: int| 0 <= i < slot(fields, name) ==> text_le((#[trigger] fields[i]).0, name),
        forall|i: int|
            slot(fields, name) <= i < fields.len() ==> !text_le((#[trigger] fields[i]).0, name),
    decreases fields.len(),
{
    if fields.len() > 0 {
        let rest = fields.drop_last();
        if text_le(fields.last().0, name) {
            assert forall|i: int| 0 <= i < fields.len() implies text_le(
                (#[trigger] fields[i]).0,
                name,
            ) by {
                if i < fields.len() - 1 {
                    law_text_order_goes_on(fields[i].0, fields[fields.len() - 1].0, name);
                }
            }
        } else {
            assert(is_ordered(rest));
            lemma_slot_parts(rest, name);
            assert forall|i: int| 0 <= i < slot(fields, name) implies text_le(
                (#[trigger] fields[i]).0,
                name,
            ) by {
                assert(rest[i] == fields[i]);
            }
            assert forall|i: int| slot(fields, name) <= i < fields.len() implies !text_le(
                (#[trigger] fields[i]).0,
                name,
            ) by {
                if i < rest.len() {
                    assert(rest[i] == fields[i]);
                }
            }
        }
    }
}

/// A field is set in its place: an object whose fields stand in the order of their names stays one.
pub proof fn law_fields_stay_in_order(value: JsonView, name: Seq<char>, field: JsonView)
    requires
        value matches JsonView::Object(fields) && is_ordered(fields),
    ensures
        value.with(name, field) matches JsonView::Object(fields) && is_ordered(fields),
{
    let fields = value->Object_0;
    lemma_field_at(fields, name);
    if let Some(i) = field_at(fields, name) {
        let after = fields.update(i, (name, field));
        assert(forall|k: int| 0 <= k < fields.len() ==> after[k].0 == fields[k].0);
        assert(is_ordered(after));
    } else {
        lemma_slot_parts(fields, name);
        let at = slot(fields, name);
        let after = fields.insert(at, (name, field));
        assert forall|i: int, j: int| 0 <= i < j < after.len() implies text_le(
            (#[trigger] after[i]).0,
            (#[trigger] after[j]).0,
        ) && after[i].0 != after[j].0 by {
            let a = if i < at {
                i
            } else {
                i - 1
            };
            let b = if j < at {
                j
            } else {
                j - 1
            };
            if i == at {
                law_texts_have_one_order(fields[b].0, name);
                assert(!text_le(fields[b].0, name));
            } else if j == at {
                assert(text_le(fields[a].0, name));
                assert(fields[a].0 != name);
            } else {
                assert(text_le(fields[a].0, fields[b].0) && fields[a].0 != fields[b].0);
            }
        }
    }
}

} // verus!
