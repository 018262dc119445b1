//! A JSON document as a value the gateway logic can read.
//!
//! Text is turned into a document, and a document into text, by `serde_json`;
//! everything the gateway decides about a document is decided here on
//! [`Json`], whose mathematical content is [`JsonValue`].

use vstd::prelude::*;
use crate::text::spells;

verus! {

/// The mathematical content of a JSON document.
///
/// An object keeps its members in the order in which they were written.
pub enum JsonValue {
    Null,
    Bool(bool),
    /// A number written as a non-negative integer.
    Integer(nat),
    /// Any other number: negative, fractional or with an exponent.
    OtherNumber,
    Text(Seq<char>),
    Array(Seq<JsonValue>),
    Object(Seq<(Seq<char>, JsonValue)>),
}

/// A JSON document.
#[derive(Debug, PartialEq, Eq)]
pub enum Json {
    Null,
    Bool(bool),
    /// A number written as a non-negative integer that fits in 64 bits.
    Integer(u64),
    /// Any other number: negative, fractional or with an exponent.
    OtherNumber,
    Text(String),
    Array(Vec<Json>),
    Object(Vec<(String, Json)>),
}

/// The mathematical content of a document.
pub open spec fn content(json: Json) -> JsonValue
    decreases json,
{
    match json {
        Json::Null => JsonValue::Null,
        Json::Bool(b) => JsonValue::Bool(b),
        Json::Integer(n) => JsonValue::Integer(n as nat),
        Json::OtherNumber => JsonValue::OtherNumber,
        Json::Text(s) => JsonValue::Text(s@),
        Json::Array(items) => JsonValue::Array(
            Seq::new(
                items@.len(),
                |i: int|
                    if 0 <= i < items@.len() {
                        content(items@[i])
                    } else {
                        JsonValue::Null
                    },
            ),
        ),
        Json::Object(members) => JsonValue::Object(
            Seq::new(
                members@.len(),
                |i: int|
                    if 0 <= i < members@.len() {
                        (members@[i].0@, content(members@[i].1))
                    } else {
                        (Seq::empty(), JsonValue::Null)
                    },
            ),
        ),
    }
}

impl View for Json {
    type V = JsonValue;

    open spec fn view(&self) -> JsonValue {
        content(*self)
    }
}

/// The content of a list of documents.
pub open spec fn items_view(items: Seq<Json>) -> Seq<JsonValue> {
    Seq::new(items.len(), |i: int| items[i]@)
}

/// The content of an object's members.
pub open spec fn members_view(members: Seq<(String, Json)>) -> Seq<(Seq<char>, JsonValue)> {
    Seq::new(members.len(), |i: int| (members[i].0@, members[i].1@))
}

/// The content of an array is the list of its items' contents.
pub proof fn lemma_array_view(items: Vec<Json>)
    ensures
        Json::Array(items)@ == JsonValue::Array(items_view(items@)),
{
    assert(Json::Array(items)@->Array_0 =~= items_view(items@));
}

/// The content of an object is the list of its members' contents.
pub proof fn lemma_object_view(members: Vec<(String, Json)>)
    ensures
        Json::Object(members)@ == JsonValue::Object(members_view(members@)),
{
    assert(Json::Object(members)@->Object_0 =~= members_view(members@));
}

impl JsonValue {
    /// Whether the document can be written out as it stands: it holds no
    /// number other than non-negative integers of at most 64 bits.
    pub open spec fn is_exact(self) -> bool
        decreases self,
    {
        match self {
            JsonValue::Integer(n) => n <= u64::MAX,
            JsonValue::OtherNumber => false,
            JsonValue::Array(items) => forall|i: int|
                0 <= i < items.len() ==> (#[trigger] items[i]).is_exact(),
            JsonValue::Object(members) => forall|i: int|
                0 <= i < members.len() ==> (#[trigger] members[i]).1.is_exact(),
            _ => true,
        }
    }
}

/// An array with an item that cannot be written out cannot be written out.
pub proof fn lemma_inexact_item(items: Seq<JsonValue>, i: int)
    requires
        0 <= i < items.len(),
        !items[i].is_exact(),
    ensures
        !JsonValue::Array(items).is_exact(),
{
    if JsonValue::Array(items).is_exact() {
        assert(JsonValue::Array(items)->Array_0 == items);
        assert(items[i].is_exact());
    }
}

/// An object with a member that cannot be written out cannot be written out.
pub proof fn lemma_inexact_member(members: Seq<(Seq<char>, JsonValue)>, i: int)
    requires
        0 <= i < members.len(),
        !members[i].1.is_exact(),
    ensures
        !JsonValue::Object(members).is_exact(),
{
    if JsonValue::Object(members).is_exact() {
        assert(JsonValue::Object(members)->Object_0 == members);
        assert(members[i].1.is_exact());
    }
}

/// Whether some member of the object has the key.
pub open spec fn has_key(members: Seq<(Seq<char>, JsonValue)>, key: Seq<char>) -> bool {
    exists|i: int| 0 <= i < members.len() && (#[trigger] members[i]).0 == key
}

/// Whether two members of the object have the key.
pub open spec fn repeats_key(members: Seq<(Seq<char>, JsonValue)>, key: Seq<char>) -> bool {
    exists|i: int, j: int|
        0 <= i < j < members.len() && (#[trigger] members[i]).0 == key && (
        #[trigger] members[j]).0 == key
}

/// The value of some member that has the key.
pub open spec fn value_at(members: Seq<(Seq<char>, JsonValue)>, key: Seq<char>) -> JsonValue {
    members[choose|i: int| 0 <= i < members.len() && (#[trigger] members[i]).0 == key].1
}

/// What an object holds under a key.
pub enum Field {
    /// No member has the key.
    Missing,
    /// Exactly one member has the key, with this value.
    Found(JsonValue),
    /// More than one member has the key.
    Repeated,
}

/// What the object holds under the key.
pub open spec fn field(members: Seq<(Seq<char>, JsonValue)>, key: Seq<char>) -> Field {
    if !has_key(members, key) {
        Field::Missing
    } else if repeats_key(members, key) {
        Field::Repeated
    } else {
        Field::Found(value_at(members, key))
    }
}

/// Where a key is not repeated, every member that has it holds the value
/// that `field` reports.
pub proof fn lemma_field_found(members: Seq<(Seq<char>, JsonValue)>, key: Seq<char>, i: int)
    requires
        0 <= i < members.len(),
        members[i].0 == key,
        !repeats_key(members, key),
    ensures
        field(members, key) == Field::Found(members[i].1),
{
    let j = choose|j: int| 0 <= j < members.len() && (#[trigger] members[j]).0 == key;
    if j < i {
        assert(members[j].0 == key && members[i].0 == key);
    } else if i < j {
        assert(members[i].0 == key && members[j].0 == key);
    }
}

/// What [`find`] reports of a key.
pub enum Lookup<'a> {
    /// No member has the key.
    Missing,
    /// Exactly one member has the key, with this value.
    Found(&'a Json),
    /// More than one member has the key.
    Repeated,
}

impl<'a> View for Lookup<'a> {
    type V = Field;

    open spec fn view(&self) -> Field {
        match self {
            Lookup::Missing => Field::Missing,
            Lookup::Found(value) => Field::Found(value@),
            Lookup::Repeated => Field::Repeated,
        }
    }
}

/// Looks a key up among the members of an object.
pub fn find<'a>(members: &'a Vec<(String, Json)>, key: &str) -> (found: Lookup<'a>)
    ensures
        found@ == field(members_view(members@), key@),
{
    let ghost view = members_view(members@);
    let mut found: Lookup<'a> = Lookup::Missing;
    let mut at: Ghost<int> = Ghost(0);
    let mut i: usize = 0;
    while i < members.len()
        invariant
            i <= members.len(),
            view == members_view(members@),
            found is Missing ==> forall|j: int| 0 <= j < i ==> (#[trigger] view[j]).0 != key@,
            found matches Lookup::Found(value) ==> {
                &&& 0 <= at@ < i
                &&& view[at@].0 == key@
                &&& value@ == view[at@].1
                &&& forall|j: int| 0 <= j < i && (#[trigger] view[j]).0 == key@ ==> j == at@
            },
            found is Repeated ==> repeats_key(view, key@),
        decreases members.len() - i,
    {
        if spells(members[i].0.as_str(), key) {
            assert(view[i as int].0 == key@);
            match found {
                Lookup::Missing => {
                    found = Lookup::Found(&members[i].1);
                    proof {
                        at@ = i as int;
                    }
                },
                Lookup::Found(_) => {
                    assert(view[at@].0 == key@ && view[i as int].0 == key@);
                    found = Lookup::Repeated;
                },
                Lookup::Repeated => {},
            }
        }
        i = i + 1;
    }
    proof {
        match found {
            Lookup::Missing => {},
            Lookup::Found(value) => {
                assert(view[at@].0 == key@);
                if repeats_key(view, key@) {
                    let (a, b) = choose|a: int, b: int|
                        0 <= a < b < view.len() && (#[trigger] view[a]).0 == key@ && (
                        #[trigger] view[b]).0 == key@;
                    assert(a == at@ && b == at@);
                }
                lemma_field_found(view, key@, at@);
            },
            Lookup::Repeated => {
                let (a, b) = choose|a: int, b: int|
                    0 <= a < b < view.len() && (#[trigger] view[a]).0 == key@ && (
                    #[trigger] view[b]).0 == key@;
                assert(view[a].0 == key@);
            },
        }
    }
    found
}

/// A member whose key no other member has is what the object holds under
/// that key.
pub proof fn lemma_field_at(members: Seq<(Seq<char>, JsonValue)>, i: int)
    requires
        0 <= i < members.len(),
        forall|j: int| 0 <= j < members.len() && j != i ==> (#[trigger] members[j]).0 != members[i].0,
    ensures
        field(members, members[i].0) == Field::Found(members[i].1),
{
    let key = members[i].0;
    if repeats_key(members, key) {
        let (a, b) = choose|a: int, b: int|
            0 <= a < b < members.len() && (#[trigger] members[a]).0 == key && (
            #[trigger] members[b]).0 == key;
        assert(a == i && b == i);
    }
    lemma_field_found(members, key, i);
}

/// An object whose members can all be written out can be written out.
pub proof fn lemma_exact_object(members: Seq<(Seq<char>, JsonValue)>)
    requires
        forall|i: int| 0 <= i < members.len() ==> (#[trigger] members[i]).1.is_exact(),
    ensures
        JsonValue::Object(members).is_exact(),
{
}

/// An array whose items can all be written out can be written out.
pub proof fn lemma_exact_array(items: Seq<JsonValue>)
    requires
        forall|i: int| 0 <= i < items.len() ==> (#[trigger] items[i]).is_exact(),
    ensures
        JsonValue::Array(items).is_exact(),
{
}

/// An object with one member holds that member's value under its key, and
/// nothing under any other key.
pub proof fn lemma_field_of_one(key: Seq<char>, value: JsonValue, other: Seq<char>)
    ensures
        field(seq![(key, value)], key) == Field::Found(value),
        other != key ==> field(seq![(key, value)], other) == Field::Missing,
{
    let members = seq![(key, value)];
    assert(members[0].0 == key);
    lemma_field_found(members, key, 0);
}

/// An object with two members of different keys holds each member's value
/// under its key, and nothing under any other key.
pub proof fn lemma_field_of_two(
    first: Seq<char>,
    first_value: JsonValue,
    second: Seq<char>,
    second_value: JsonValue,
    other: Seq<char>,
)
    requires
        first != second,
    ensures
        field(seq![(first, first_value), (second, second_value)], first) == Field::Found(
            first_value,
        ),
        field(seq![(first, first_value), (second, second_value)], second) == Field::Found(
            second_value,
        ),
        other != first && other != second ==> field(
            seq![(first, first_value), (second, second_value)],
            other,
        ) == Field::Missing,
{
    let members = seq![(first, first_value), (second, second_value)];
    assert(members[0].0 == first);
    assert(members[1].0 == second);
    lemma_field_found(members, first, 0);
    lemma_field_found(members, second, 1);
}

impl Json {
    /// The array with the given items.
    pub fn array(items: Vec<Json>) -> (json: Json)
        ensures
            json@ == JsonValue::Array(items_view(items@)),
    {
        proof {
            lemma_array_view(items);
        }
        Json::Array(items)
    }

    /// The object with the given members.
    pub fn object(members: Vec<(String, Json)>) -> (json: Json)
        ensures
            json@ == JsonValue::Object(members_view(members@)),
    {
        proof {
            lemma_object_view(members);
        }
        Json::Object(members)
    }

    /// Reads a JSON text.
    pub fn parse(text: &str) -> (document: Option<Json>)
        ensures
            document is Some == json_parse(text@) is Some,
            document matches Some(json) ==> json_parse(text@) == Some(json@),
    {
        parse_text(text)
    }

    /// Whether the document can be written out as it stands.
    #[verifier::loop_isolation(false)]
    pub fn is_exact(&self) -> (exact: bool)
        ensures
            exact == self@.is_exact(),
        decreases self,
    {
        match self {
            Json::OtherNumber => false,
            Json::Array(items) => {
                proof {
                    lemma_array_view(*items);
                }
                let mut i: usize = 0;
                while i < items.len()
                    invariant
                        i <= items.len(),
                        forall|j: int| 0 <= j < i ==> (#[trigger] items@[j])@.is_exact(),
                    decreases items.len() - i,
                {
                    if !items[i].is_exact() {
                        proof {
                            lemma_array_view(*items);
                            lemma_inexact_item(items_view(items@), i as int);
                        }
                        return false;
                    }
                    i = i + 1;
                }
                assert forall|j: int| 0 <= j < items@.len() implies (#[trigger] items_view(
                    items@,
                )[j]).is_exact() by {
                    assert(items@[j]@.is_exact());
                }
                true
            },
            Json::Object(members) => {
                proof {
                    lemma_object_view(*members);
                }
                let mut i: usize = 0;
                while i < members.len()
                    invariant
                        i <= members.len(),
                        forall|j: int| 0 <= j < i ==> (#[trigger] members@[j]).1@.is_exact(),
                    decreases members.len() - i,
                {
                    if !members[i].1.is_exact() {
                        proof {
                            lemma_object_view(*members);
                            lemma_inexact_member(members_view(members@), i as int);
                        }
                        return false;
                    }
                    i = i + 1;
                }
                assert forall|j: int| 0 <= j < members@.len() implies (#[trigger] members_view(
                    members@,
                )[j]).1.is_exact() by {
                    assert(members@[j].1@.is_exact());
                }
                true
            },
            _ => true,
        }
    }

    /// Writes the document as JSON text.
    pub fn render(&self) -> (text: String)
        requires
            self@.is_exact(),
        ensures
            text@ == json_text(self@),
    {
        render_text(self)
    }

    /// Writes the document as JSON text, where it can be written out as it
    /// stands.
    pub fn try_render(&self) -> (text: Option<String>)
        ensures
            text is Some == self@.is_exact(),
            text matches Some(t) ==> t@ == json_text(self@),
    {
        if self.is_exact() {
            Some(self.render())
        } else {
            None
        }
    }
}

/// The document that `serde_json` reads from a text, or `None` where the
/// text is not JSON.
pub uninterp spec fn json_parse(text: Seq<char>) -> Option<JsonValue>;

/// The text that `serde_json` writes for a document.
pub uninterp spec fn json_text(value: JsonValue) -> Seq<char>;

/// `serde_json::Value`, the document as `serde_json` holds it. Nothing is
/// known of it here; the two conversions below take it apart and build it.
#[verifier::external_type_specification]
#[verifier::external_body]
pub struct ExValue(serde_json::Value);

/// Moves a `serde_json::Value` into a [`Json`], variant by variant: a number
/// for which `serde_json::Number::as_u64` gives an integer becomes `Integer`,
/// any other number `OtherNumber`, and an object's members keep the order in
/// which `serde_json::Map` hands them out. Nothing is claimed of the result;
/// it is one half of [`parse_text`].
#[verifier::external_body]
fn from_value(value: serde_json::Value) -> Json {
    match value {
        serde_json::Value::Null => Json::Null,
        serde_json::Value::Bool(b) => Json::Bool(b),
        serde_json::Value::Number(n) => n.as_u64().map_or(Json::OtherNumber, Json::Integer),
        serde_json::Value::String(s) => Json::Text(s),
        serde_json::Value::Array(items) => Json::Array(items.into_iter().map(from_value).collect()),
        serde_json::Value::Object(members) => Json::Object(
            members.into_iter().map(|(key, value)| (key, from_value(value))).collect(),
        ),
    }
}

/// Moves a [`Json`] into a `serde_json::Value`, variant by variant; an
/// integer goes through `serde_json::Number::from`. Nothing is claimed of
/// the result; it is one half of [`render_text`].
#[verifier::external_body]
fn to_value(json: &Json) -> serde_json::Value
    requires
        json@.is_exact(),
{
    match json {
        Json::Null | Json::OtherNumber => serde_json::Value::Null,
        Json::Bool(b) => serde_json::Value::Bool(*b),
        Json::Integer(n) => serde_json::Value::Number((*n).into()),
        Json::Text(s) => serde_json::Value::String(s.clone()),
        Json::Array(items) => serde_json::Value::Array(items.iter().map(to_value).collect()),
        Json::Object(members) => serde_json::Value::Object(
            members.iter().map(|(key, value)| (key.clone(), to_value(value))).collect(),
        ),
    }
}

/// Reads a text with `serde_json::from_str`. The contract claims that what
/// comes back depends on the text alone: it is the document named
/// [`json_parse`], and `None` exactly where `serde_json` reports an error.
#[verifier::external_body]
pub(crate) fn parse_text(text: &str) -> (document: Option<Json>)
    ensures
        document is Some == json_parse(text@) is Some,
        document matches Some(json) ==> json_parse(text@) == Some(json@),
{
    serde_json::from_str::<serde_json::Value>(text).ok().map(from_value)
}

/// Writes a document with `serde_json::to_string`, which cannot fail for a
/// `serde_json::Value`: every key is a string and the writer is a buffer in
/// memory. The contract claims that the text depends on the document alone:
/// it is the text named [`json_text`].
#[verifier::external_body]
pub(crate) fn render_text(document: &Json) -> (text: String)
    requires
        document@.is_exact(),
    ensures
        text@ == json_text(document@),
{
    serde_json::to_string(&to_value(document)).unwrap_or_default()
}

} // verus!
