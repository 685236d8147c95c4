//! Typed reading of the members of a JSON object.
//!
//! Each reader gives `None` where the member is missing or is of another kind
//! than the one asked for. On a document that is no object every member is
//! missing.

use vstd::prelude::*;
use crate::decimal::Decimal;
use crate::json::{Json, JsonValue};

verus! {

/// The integer held by member `name` of `doc`.
pub open spec fn integer_field(doc: JsonValue, name: Seq<char>) -> Option<i64> {
    match doc.member(name) {
        Some(v) => v.as_integer(),
        None => None,
    }
}

/// The decimal held by member `name` of `doc`; an integer is read as a decimal.
pub open spec fn decimal_field(doc: JsonValue, name: Seq<char>) -> Option<Seq<char>> {
    match doc.member(name) {
        Some(v) => v.as_decimal(),
        None => None,
    }
}

/// The decimal held by member `name` of `doc`, which may be left out or null:
/// `Some(None)` then. `None` where the member holds anything but a number or
/// null.
pub open spec fn optional_decimal_field(doc: JsonValue, name: Seq<char>) -> Option<
    Option<Seq<char>>,
> {
    match doc.member(name) {
        None => Some(None),
        Some(JsonValue::Null) => Some(None),
        Some(v) => match v.as_decimal() {
            Some(d) => Some(Some(d)),
            None => None,
        },
    }
}

/// The string held by member `name` of `doc`.
pub open spec fn text_field(doc: JsonValue, name: Seq<char>) -> Option<Seq<char>> {
    match doc.member(name) {
        Some(v) => v.as_text(),
        None => None,
    }
}

/// The items of the array held by member `name` of `doc`.
pub open spec fn array_field(doc: JsonValue, name: Seq<char>) -> Option<Seq<JsonValue>> {
    match doc.member(name) {
        Some(v) => v.as_array(),
        None => None,
    }
}

/// The value of an optional decimal.
pub open spec fn optional_decimal_view(d: Option<Decimal>) -> Option<Seq<char>> {
    match d {
        Some(d) => Some(d@),
        None => None,
    }
}

/// Reads the integer held by member `name` of `doc`.
pub fn read_integer(doc: &Json, name: &str) -> (r: Option<i64>)
    ensures
        r == integer_field(doc@, name@),
{
    match doc.member(name) {
        Some(v) => v.as_integer(),
        None => None,
    }
}

/// Reads the decimal held by member `name` of `doc`; an integer is read as a
/// decimal.
pub fn read_decimal(doc: &Json, name: &str) -> (r: Option<Decimal>)
    ensures
        optional_decimal_view(r) == decimal_field(doc@, name@),
{
    match doc.member(name) {
        Some(v) => v.as_decimal(),
        None => None,
    }
}

/// Reads the decimal held by member `name` of `doc`, which may be left out or
/// null.
pub fn read_optional_decimal(doc: &Json, name: &str) -> (r: Option<Option<Decimal>>)
    ensures
        match r {
            Some(d) => optional_decimal_field(doc@, name@) == Some(optional_decimal_view(d)),
            None => optional_decimal_field(doc@, name@).is_none(),
        },
{
    match doc.member(name) {
        None => Some(None),
        Some(Json::Null) => Some(None),
        Some(v) => match v.as_decimal() {
            Some(d) => Some(Some(d)),
            None => None,
        },
    }
}

/// Reads the string held by member `name` of `doc`.
pub fn read_text(doc: &Json, name: &str) -> (r: Option<String>)
    ensures
        match r {
            Some(s) => text_field(doc@, name@) == Some(s@),
            None => text_field(doc@, name@).is_none(),
        },
{
    match doc.member(name) {
        Some(v) => v.as_text(),
        None => None,
    }
}

/// Reads the items of the array held by member `name` of `doc`.
pub fn read_array<'a>(doc: &'a Json, name: &str) -> (r: Option<&'a Vec<Json>>)
    ensures
        match r {
            Some(items) => array_field(doc@, name@) == Some(crate::json::items_view(items@)),
            None => array_field(doc@, name@).is_none(),
        },
{
    match doc.member(name) {
        Some(v) => v.as_array(),
        None => None,
    }
}

/// What is written for an optional decimal: the decimal, or null.
pub open spec fn optional_decimal_json(d: Option<Seq<char>>) -> JsonValue {
    match d {
        Some(d) => JsonValue::Decimal(d),
        None => JsonValue::Null,
    }
}

/// Writes an optional decimal: the decimal, or null.
pub fn write_optional_decimal(d: &Option<Decimal>) -> (r: Json)
    ensures
        r@ == optional_decimal_json(optional_decimal_view(*d)),
{
    match d {
        Some(d) => Json::Decimal(d.clone()),
        None => Json::Null,
    }
}

} // verus!
