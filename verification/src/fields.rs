//! Reading the members of a JSON object as plain values.
//!
//! A member that is required has to be there exactly once. A member that is
//! optional may also be left out or be `null`. Identifiers are strings of
//! decimal digits.

use vstd::prelude::*;
use crate::json::{Field, Json, JsonValue, Lookup, field, find, members_view};
use crate::text::{parse_u64, parse_u64_spec};

verus! {

/// A required string.
pub open spec fn text_of(field: Field) -> Option<Seq<char>> {
    match field {
        Field::Found(JsonValue::Text(text)) => Some(text),
        _ => None,
    }
}

/// An optional string; the outer `None` stands for a member of another kind.
pub open spec fn optional_text_of(field: Field) -> Option<Option<Seq<char>>> {
    match field {
        Field::Missing => Some(None),
        Field::Found(JsonValue::Null) => Some(None),
        Field::Found(JsonValue::Text(text)) => Some(Some(text)),
        _ => None,
    }
}

/// A required identifier.
pub open spec fn id_of(field: Field) -> Option<u64> {
    match field {
        Field::Found(JsonValue::Text(text)) => parse_u64_spec(text),
        _ => None,
    }
}

/// An optional identifier; the outer `None` stands for a member of another
/// kind or a string that is no identifier.
pub open spec fn optional_id_of(field: Field) -> Option<Option<u64>> {
    match field {
        Field::Missing => Some(None),
        Field::Found(JsonValue::Null) => Some(None),
        Field::Found(JsonValue::Text(text)) => match parse_u64_spec(text) {
            Some(id) => Some(Some(id)),
            None => None,
        },
        _ => None,
    }
}

/// An optional truth value; the outer `None` stands for a member of another
/// kind.
pub open spec fn optional_bool_of(field: Field) -> Option<Option<bool>> {
    match field {
        Field::Missing => Some(None),
        Field::Found(JsonValue::Null) => Some(None),
        Field::Found(JsonValue::Bool(b)) => Some(Some(b)),
        _ => None,
    }
}

/// A required non-negative integer of at most `limit`.
pub open spec fn integer_of(field: Field, limit: nat) -> Option<nat> {
    match field {
        Field::Found(JsonValue::Integer(n)) => if n <= limit {
            Some(n)
        } else {
            None
        },
        _ => None,
    }
}

/// Reads a required string.
pub fn read_text(members: &Vec<(String, Json)>, key: &str) -> (text: Option<String>)
    ensures
        text is Some == text_of(field(members_view(members@), key@)) is Some,
        text matches Some(t) ==> text_of(field(members_view(members@), key@)) == Some(t@),
{
    match find(members, key) {
        Lookup::Found(Json::Text(text)) => Some(text.clone()),
        _ => None,
    }
}

/// Reads an optional string.
pub fn read_optional_text(members: &Vec<(String, Json)>, key: &str) -> (text: Option<
    Option<String>,
>)
    ensures
        match text {
            Some(Some(t)) => optional_text_of(field(members_view(members@), key@)) == Some(
                Some(t@),
            ),
            Some(None) => optional_text_of(field(members_view(members@), key@)) == Some(
                None::<Seq<char>>,
            ),
            None => optional_text_of(field(members_view(members@), key@)) is None,
        },
{
    match find(members, key) {
        Lookup::Missing => Some(None),
        Lookup::Found(Json::Null) => Some(None),
        Lookup::Found(Json::Text(text)) => Some(Some(text.clone())),
        _ => None,
    }
}

/// Reads a required identifier.
pub fn read_id(members: &Vec<(String, Json)>, key: &str) -> (id: Option<u64>)
    ensures
        id == id_of(field(members_view(members@), key@)),
{
    match find(members, key) {
        Lookup::Found(Json::Text(text)) => parse_u64(text.as_str()),
        _ => None,
    }
}

/// Reads an optional identifier.
pub fn read_optional_id(members: &Vec<(String, Json)>, key: &str) -> (id: Option<Option<u64>>)
    ensures
        id == optional_id_of(field(members_view(members@), key@)),
{
    match find(members, key) {
        Lookup::Missing => Some(None),
        Lookup::Found(Json::Null) => Some(None),
        Lookup::Found(Json::Text(text)) => match parse_u64(text.as_str()) {
            Some(id) => Some(Some(id)),
            None => None,
        },
        _ => None,
    }
}

/// Reads an optional truth value.
pub fn read_optional_bool(members: &Vec<(String, Json)>, key: &str) -> (flag: Option<
    Option<bool>,
>)
    ensures
        flag == optional_bool_of(field(members_view(members@), key@)),
{
    match find(members, key) {
        Lookup::Missing => Some(None),
        Lookup::Found(Json::Null) => Some(None),
        Lookup::Found(Json::Bool(b)) => Some(Some(*b)),
        _ => None,
    }
}

/// Reads a required non-negative integer of at most `limit`.
pub fn read_integer(members: &Vec<(String, Json)>, key: &str, limit: u64) -> (n: Option<u64>)
    ensures
        n is Some == integer_of(field(members_view(members@), key@), limit as nat) is Some,
        n matches Some(k) ==> integer_of(field(members_view(members@), key@), limit as nat)
            == Some(k as nat),
{
    match find(members, key) {
        Lookup::Found(Json::Integer(n)) => if *n <= limit {
            Some(*n)
        } else {
            None
        },
        _ => None,
    }
}

} // verus!
