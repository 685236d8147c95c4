//! JSON documents as trees of plain values.

use vstd::prelude::*;
use crate::decimal::Decimal;

verus! {

/// A JSON document held in memory.
///
/// A number is an `Integer` where it is read as an integer of 64 signed bits,
/// and a `Decimal` otherwise. The members of an object keep the order in which
/// they are listed here.
#[derive(Debug, PartialEq)]
pub enum Json {
    Null,
    Bool(bool),
    Integer(i64),
    Decimal(Decimal),
    Text(String),
    Array(Vec<Json>),
    Object(Vec<(String, Json)>),
}

/// The mathematical value of a [`Json`] document.
pub enum JsonValue {
    Null,
    Bool(bool),
    Integer(i64),
    Decimal(Seq<char>),
    Text(Seq<char>),
    Array(Seq<JsonValue>),
    Object(Seq<(Seq<char>, JsonValue)>),
}

/// The value of a document: each string by its characters, each array and
/// each member list by its entries in order.
pub open spec fn value_of(doc: Json) -> JsonValue
    decreases doc,
{
    match doc {
        Json::Null => JsonValue::Null,
        Json::Bool(b) => JsonValue::Bool(b),
        Json::Integer(i) => JsonValue::Integer(i),
        Json::Decimal(d) => JsonValue::Decimal(d@),
        Json::Text(s) => JsonValue::Text(s@),
        Json::Array(items) => JsonValue::Array(
            Seq::new(
                items@.len(),
                |i: int|
                    if 0 <= i < items@.len() {
                        value_of(items@[i])
                    } else {
                        JsonValue::Null
                    },
            ),
        ),
        Json::Object(members) => JsonValue::Object(
            Seq::new(
                members@.len(),
                |i: int|
                    if 0 <= i < members@.len() {
                        (members@[i].0@, value_of(members@[i].1))
                    } else {
                        (Seq::empty(), JsonValue::Null)
                    },
            ),
        ),
    }
}

impl View for Json {
    type V = JsonValue;

    open spec fn view(&self) -> JsonValue {
        value_of(*self)
    }
}

/// The value of the last member named `name` among the first `end` of
/// `members`.
pub open spec fn lookup_before(
    members: Seq<(Seq<char>, JsonValue)>,
    name: Seq<char>,
    end: int,
) -> Option<JsonValue>
    decreases end,
{
    if end <= 0 || end > members.len() {
        None
    } else if members[end - 1].0 == name {
        Some(members[end - 1].1)
    } else {
        lookup_before(members, name, end - 1)
    }
}

impl JsonValue {
    /// The value of the member named `name`, where `self` is an object that
    /// has one. Where several members bear the name, the last one counts, as
    /// it does in JSON text that is read.
    pub open spec fn member(self, name: Seq<char>) -> Option<JsonValue> {
        match self {
            JsonValue::Object(members) => lookup_before(members, name, members.len() as int),
            _ => None,
        }
    }
}

/// Members whose names differ from `name` are passed over.
pub proof fn lemma_lookup_skips(
    members: Seq<(Seq<char>, JsonValue)>,
    name: Seq<char>,
    from: int,
    to: int,
)
    requires
        0 <= from <= to <= members.len(),
        forall|k: int| from <= k < to ==> (#[trigger] members[k]).0 != name,
    ensures
        lookup_before(members, name, to) == lookup_before(members, name, from),
    decreases to - from,
{
    if from < to {
        lemma_lookup_skips(members, name, from, to - 1);
    }
}

impl Json {
    /// The member named `name`, where `self` is an object that has one: the
    /// last of them, where several bear the name.
    pub fn member(&self, name: &str) -> (r: Option<&Json>)
        ensures
            match r {
                Some(found) => self@.member(name@) == Some(found@),
                None => self@.member(name@).is_none(),
            },
    {
        match self {
            Json::Object(members) => {
                let key = String::from_str(name);
                let ghost all = self@->Object_0;
                let mut i: usize = members.len();
                while i > 0
                    invariant
                        i <= members.len(),
                        key@ == name@,
                        self@ == JsonValue::Object(all),
                        all.len() == members@.len(),
                        forall|k: int|
                            0 <= k < members@.len() ==> #[trigger] all[k] == (
                                members@[k].0@,
                                members@[k].1@,
                            ),
                        lookup_before(all, name@, all.len() as int) == lookup_before(
                            all,
                            name@,
                            i as int,
                        ),
                    decreases i,
                {
                    i -= 1;
                    if members[i].0 == key {
                        return Some(&members[i].1);
                    }
                }
                None
            },
            _ => None,
        }
    }

    /// The integer that `self` is, if it is one.
    pub fn as_integer(&self) -> (r: Option<i64>)
        ensures
            r == self@.as_integer(),
    {
        match self {
            Json::Integer(i) => Some(*i),
            _ => None,
        }
    }

    /// The text that `self` is, if it is a string.
    pub fn as_text(&self) -> (r: Option<String>)
        ensures
            match r {
                Some(s) => self@.as_text() == Some(s@),
                None => self@.as_text().is_none(),
            },
    {
        match self {
            Json::Text(s) => Some(s.clone()),
            _ => None,
        }
    }

    /// The items of `self`, if it is an array.
    pub fn as_array(&self) -> (r: Option<&Vec<Json>>)
        ensures
            match r {
                Some(items) => self@.as_array() == Some(items_view(items@)),
                None => self@.as_array().is_none(),
            },
    {
        match self {
            Json::Array(items) => {
                assert(self@->Array_0 =~= items_view(items@));
                Some(items)
            },
            _ => None,
        }
    }
}

/// The values of a run of documents, in order.
pub open spec fn items_view(items: Seq<Json>) -> Seq<JsonValue> {
    Seq::new(items.len(), |i: int| items[i]@)
}

impl JsonValue {
    /// The integer that `self` is, if it is one.
    pub open spec fn as_integer(self) -> Option<i64> {
        match self {
            JsonValue::Integer(i) => Some(i),
            _ => None,
        }
    }

    /// The text that `self` is, if it is a string.
    pub open spec fn as_text(self) -> Option<Seq<char>> {
        match self {
            JsonValue::Text(s) => Some(s),
            _ => None,
        }
    }

    /// The items of `self`, if it is an array.
    pub open spec fn as_array(self) -> Option<Seq<JsonValue>> {
        match self {
            JsonValue::Array(items) => Some(items),
            _ => None,
        }
    }
}

impl Clone for Json {
    /// A document of the same value.
    fn clone(&self) -> (r: Json)
        ensures
            r@ == self@,
        decreases self,
    {
        match self {
            Json::Null => Json::Null,
            Json::Bool(b) => Json::Bool(*b),
            Json::Integer(i) => Json::Integer(*i),
            Json::Decimal(d) => Json::Decimal(d.clone()),
            Json::Text(s) => Json::Text(s.clone()),
            Json::Array(items) => {
                let mut copy: Vec<Json> = Vec::new();
                let mut i: usize = 0;
                while i < items.len()
                    invariant
                        *self == Json::Array(*items),
                        i <= items.len(),
                        copy@.len() == i,
                        forall|k: int| 0 <= k < i ==> (#[trigger] copy@[k])@ == items@[k]@,
                    decreases items.len() - i,
                {
                    assert(decreases_to!(*self => self->Array_0[i as int]));
                    copy.push(items[i].clone());
                    i += 1;
                }
                let r = Json::Array(copy);
                assert(r@->Array_0 =~= self@->Array_0);
                r
            },
            Json::Object(members) => {
                let mut copy: Vec<(String, Json)> = Vec::new();
                let mut i: usize = 0;
                while i < members.len()
                    invariant
                        *self == Json::Object(*members),
                        i <= members.len(),
                        copy@.len() == i,
                        forall|k: int|
                            0 <= k < i ==> (#[trigger] copy@[k]).0@ == members@[k].0@
                                && copy@[k].1@ == members@[k].1@,
                    decreases members.len() - i,
                {
                    assert(decreases_to!(*self => self->Object_0[i as int].1));
                    copy.push((members[i].0.clone(), members[i].1.clone()));
                    i += 1;
                }
                let r = Json::Object(copy);
                assert(r@->Object_0 =~= self@->Object_0);
                r
            },
        }
    }
}

} // verus!
