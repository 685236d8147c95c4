//! Reading and writing JSON text, which `serde_json` does.
//!
//! The items of this module that are marked `external_body` are believed, not
//! proved: each names the `serde_json` functions that it calls and says what is
//! claimed of them.

use vstd::prelude::*;
use serde_json::{Number, Value};
use crate::decimal::Decimal;
use crate::json::{Json, JsonValue};

verus! {

#[verifier::external_type_specification]
#[verifier::external_body]
pub struct ExValue(Value);

/// The document that `serde_json::from_slice` reads from `body`, or `None`
/// where it reports an error.
pub uninterp spec fn json_parse(body: Seq<u8>) -> Option<JsonValue>;

/// The text that `serde_json::to_string` writes for `doc`.
pub uninterp spec fn json_text(doc: JsonValue) -> Seq<char>;

/// The decimal text that `serde_json` writes for the integer `i` once it is
/// read as a floating-point number.
pub uninterp spec fn integer_as_decimal(i: i64) -> Seq<char>;

/// Turns a `serde_json::Value` into a [`Json`], variant by variant. A number
/// for which `Number::as_i64` gives an integer becomes `Integer`. Any other
/// becomes the `Decimal` whose text is what `Number::as_f64`, handed to
/// `Number::from_f64`, prints as. Nothing is claimed of the result here: the
/// claim is made of [`parse_document`], which alone calls this.
#[verifier::external_body]
fn lift(v: Value) -> Json {
    match v {
        Value::Null => Json::Null,
        Value::Bool(b) => Json::Bool(b),
        Value::Number(n) => match n.as_i64() {
            Some(i) => Json::Integer(i),
            None => {
                let read = n.as_f64().and_then(Number::from_f64);
                Json::Decimal(Decimal { text: read.map(|m| m.to_string()).unwrap_or_default() })
            },
        },
        Value::String(s) => Json::Text(s),
        Value::Array(a) => Json::Array(a.into_iter().map(lift).collect()),
        Value::Object(m) => Json::Object(m.into_iter().map(|(k, v)| (k, lift(v))).collect()),
    }
}

/// Turns a [`Json`] into a `serde_json::Value`, variant by variant. A decimal
/// is parsed by std and handed to `Number::from_f64`; where either refuses the
/// text, the value is `Value::Null`. Members are inserted into a
/// `serde_json::Map` in their order. Nothing is claimed of the result here: the
/// claim is made of [`render_document`], which alone calls this.
#[verifier::external_body]
fn lower(doc: &Json) -> Value {
    match doc {
        Json::Null => Value::Null,
        Json::Bool(b) => Value::Bool(*b),
        Json::Integer(i) => Value::from(*i),
        Json::Decimal(d) => {
            let read = d.text.parse().ok().and_then(Number::from_f64);
            read.map_or(Value::Null, Value::Number)
        },
        Json::Text(s) => Value::String(s.clone()),
        Json::Array(items) => Value::Array(items.iter().map(lower).collect()),
        Json::Object(members) => Value::Object(
            members.iter().map(|(k, v)| (k.clone(), lower(v))).collect(),
        ),
    }
}

/// Calls `serde_json::from_slice` for a `Value` and converts what it returns.
/// Claimed: whether a document comes back, and which, depends on the bytes of
/// `body` alone.
#[verifier::external_body]
fn parse_document(body: &[u8]) -> (r: Option<Json>)
    ensures
        match r {
            Some(doc) => json_parse(body@) == Some(doc@),
            None => json_parse(body@).is_none(),
        },
{
    match serde_json::from_slice::<Value>(body) {
        Ok(v) => Some(lift(v)),
        Err(_) => None,
    }
}

/// Calls `serde_json::to_string` on the `Value` made from `doc`. Claimed: the
/// text depends on the value of `doc` alone.
#[verifier::external_body]
fn render_document(doc: &Json) -> (r: String)
    ensures
        r@ == json_text(doc@),
{
    serde_json::to_string(&lower(doc)).unwrap_or_default()
}

/// Makes a `serde_json::Number` of `i`, reads it with `Number::as_f64`, and
/// prints what `Number::from_f64` makes of that. Claimed: the text depends on
/// `i` alone.
#[verifier::external_body]
fn decimal_of_integer(i: i64) -> (r: Decimal)
    ensures
        r@ == integer_as_decimal(i),
{
    let read = Number::from(i).as_f64().and_then(Number::from_f64);
    Decimal { text: read.map(|n| n.to_string()).unwrap_or_default() }
}

impl JsonValue {
    /// The decimal that `self` is, if it is a number: an integer counts as the
    /// decimal of the same magnitude.
    pub open spec fn as_decimal(self) -> Option<Seq<char>> {
        match self {
            JsonValue::Integer(i) => Some(integer_as_decimal(i)),
            JsonValue::Decimal(d) => Some(d),
            _ => None,
        }
    }
}

impl Json {
    /// Reads a JSON document from `body`.
    pub fn parse(body: &[u8]) -> (r: Option<Json>)
        ensures
            match r {
                Some(doc) => json_parse(body@) == Some(doc@),
                None => json_parse(body@).is_none(),
            },
    {
        parse_document(body)
    }

    /// Writes `self` as JSON text. A decimal is read as a floating-point number
    /// and printed anew; one whose text denotes no finite number is written as
    /// `null`.
    pub fn render(&self) -> (r: String)
        ensures
            r@ == json_text(self@),
    {
        render_document(self)
    }

    /// The decimal that `self` is, if it is a number.
    pub fn as_decimal(&self) -> (r: Option<Decimal>)
        ensures
            match r {
                Some(d) => self@.as_decimal() == Some(d@),
                None => self@.as_decimal().is_none(),
            },
    {
        match self {
            Json::Integer(i) => Some(decimal_of_integer(*i)),
            Json::Decimal(d) => Some(d.clone()),
            _ => None,
        }
    }
}

} // verus!
