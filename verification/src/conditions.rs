//! Weather condition descriptors.

use vstd::prelude::*;
use crate::fields::{array_field, integer_field, read_array, read_integer, read_text, text_field};
use crate::json::{items_view, lemma_lookup_skips, value_of, Json, JsonValue};

verus! {

/// One weather condition: its code, its category, what it is in words, and the code of its icon.
#[derive(Default, Debug, Clone, PartialEq)]
pub struct Weather {
    pub id: i64,
    pub main: String,
    pub description: String,
    pub icon: String,
}

/// The value of a [`Weather`].
pub struct WeatherView {
    pub id: i64,
    pub main: Seq<char>,
    pub description: Seq<char>,
    pub icon: Seq<char>,
}

impl View for Weather {
    type V = WeatherView;

    open spec fn view(&self) -> WeatherView {
        WeatherView {
            id: self.id,
            main: self.main@,
            description: self.description@,
            icon: self.icon@,
        }
    }
}

/// The values of a run of conditions, in order.
pub open spec fn weather_views(list: Seq<Weather>) -> Seq<WeatherView> {
    Seq::new(list.len(), |i: int| list[i]@)
}

/// The condition that `doc` describes: an object whose members `id`, `main`, `description` and
/// `icon` are an integer and three strings. `None` where one of them is missing or of another kind.
/// Other members are passed over.
pub open spec fn decode_weather(doc: JsonValue) -> Option<WeatherView> {
    if {
        &&& integer_field(doc, "id"@) is Some
        &&& text_field(doc, "main"@) is Some
        &&& text_field(doc, "description"@) is Some
        &&& text_field(doc, "icon"@) is Some
    } {
        Some(
            WeatherView {
                id: integer_field(doc, "id"@)->0,
                main: text_field(doc, "main"@)->0,
                description: text_field(doc, "description"@)->0,
                icon: text_field(doc, "icon"@)->0,
            },
        )
    } else {
        None
    }
}

/// The conditions that `items` describe, if each of them describes one.
pub open spec fn decode_weather_list(items: Seq<JsonValue>) -> Option<Seq<WeatherView>> {
    if forall|i: int| 0 <= i < items.len() ==> decode_weather(#[trigger] items[i]) is Some {
        Some(Seq::new(items.len(), |i: int| decode_weather(items[i])->0))
    } else {
        None
    }
}

/// The conditions held, as an array, by member `name` of `doc`.
pub open spec fn weather_list_field(doc: JsonValue, name: Seq<char>) -> Option<Seq<WeatherView>> {
    match array_field(doc, name) {
        Some(items) => decode_weather_list(items),
        None => None,
    }
}

/// The members of the object written for a condition.
pub open spec fn weather_members(v: WeatherView) -> Seq<(Seq<char>, JsonValue)> {
    seq![
        ("id"@, JsonValue::Integer(v.id)),
        ("main"@, JsonValue::Text(v.main)),
        ("description"@, JsonValue::Text(v.description)),
        ("icon"@, JsonValue::Text(v.icon)),
    ]
}

/// The document written for a condition.
pub open spec fn encode_weather(v: WeatherView) -> JsonValue {
    JsonValue::Object(weather_members(v))
}

/// The array written for a run of conditions.
pub open spec fn encode_weather_list(list: Seq<WeatherView>) -> JsonValue {
    JsonValue::Array(Seq::new(list.len(), |i: int| encode_weather(list[i])))
}

impl Weather {
    /// Reads a condition from `doc`.
    pub fn decode(doc: &Json) -> (r: Option<Weather>)
        ensures
            match r {
                Some(x) => decode_weather(doc@) == Some(x@),
                None => decode_weather(doc@).is_none(),
            },
    {
        let id = read_integer(doc, "id")?;
        let main = read_text(doc, "main")?;
        let description = read_text(doc, "description")?;
        let icon = read_text(doc, "icon")?;
        Some(Weather { id, main, description, icon })
    }

    /// Reads a run of conditions from the items of an array.
    pub fn decode_list(items: &Vec<Json>) -> (r: Option<Vec<Weather>>)
        ensures
            match r {
                Some(list) => decode_weather_list(items_view(items@)) == Some(weather_views(list@)),
                None => decode_weather_list(items_view(items@)).is_none(),
            },
    {
        let mut list: Vec<Weather> = Vec::new();
        let mut i: usize = 0;
        while i < items.len()
            invariant
                i <= items.len(),
                list@.len() == i,
                forall|k: int|
                    0 <= k < i ==> decode_weather(#[trigger] items_view(items@)[k]) == Some(
                        list@[k]@,
                    ),
            decreases items.len() - i,
        {
            match Weather::decode(&items[i]) {
                Some(x) => {
                    list.push(x);
                },
                None => {
                    assert(decode_weather(items_view(items@)[i as int]).is_none());
                    return None;
                },
            }
            i += 1;
        }
        assert(weather_views(list@) =~= decode_weather_list(items_view(items@))->0);
        Some(list)
    }

    /// Reads a run of conditions from the array that member `name` of `doc` holds.
    pub fn read_list(doc: &Json, name: &str) -> (r: Option<Vec<Weather>>)
        ensures
            match r {
                Some(list) => weather_list_field(doc@, name@) == Some(weather_views(list@)),
                None => weather_list_field(doc@, name@).is_none(),
            },
    {
        match read_array(doc, name) {
            Some(items) => Weather::decode_list(items),
            None => None,
        }
    }

    /// Writes this condition as a document.
    pub fn encode(&self) -> (r: Json)
        ensures
            r@ == encode_weather(self@),
    {
        let mut members: Vec<(String, Json)> = Vec::new();
        members.push((String::from_str("id"), Json::Integer(self.id)));
        members.push((String::from_str("main"), Json::Text(self.main.clone())));
        members.push((String::from_str("description"), Json::Text(self.description.clone())));
        members.push((String::from_str("icon"), Json::Text(self.icon.clone())));
        let r = Json::Object(members);
        proof {
            reveal_with_fuel(value_of, 2);
            let got = r@->Object_0;
            let want = weather_members(self@);
            assert(got.len() == 4 && want.len() == 4);
            assert(got[0] == want[0]);
            assert(got[1] == want[1]);
            assert(got[2] == want[2]);
            assert(got[3] == want[3]);
            assert(got =~= want);
        }
        r
    }

    /// Writes a run of conditions as an array.
    pub fn encode_list(list: &Vec<Weather>) -> (r: Json)
        ensures
            r@ == encode_weather_list(weather_views(list@)),
    {
        let mut items: Vec<Json> = Vec::new();
        let mut i: usize = 0;
        while i < list.len()
            invariant
                i <= list.len(),
                items@.len() == i,
                forall|k: int| 0 <= k < i ==> (#[trigger] items@[k])@ == encode_weather(list@[k]@),
            decreases list.len() - i,
        {
            items.push(list[i].encode());
            i += 1;
        }
        let r = Json::Array(items);
        assert(r@->Array_0 =~= encode_weather_list(weather_views(list@))->Array_0);
        r
    }
}

/// Each member that is written for a condition is found again under its name.
pub proof fn lemma_weather_members(v: WeatherView)
    ensures
        encode_weather(v).member("id"@) == Some(JsonValue::Integer(v.id)),
        encode_weather(v).member("main"@) == Some(JsonValue::Text(v.main)),
        encode_weather(v).member("description"@) == Some(JsonValue::Text(v.description)),
        encode_weather(v).member("icon"@) == Some(JsonValue::Text(v.icon)),
{
    let m = weather_members(v);
    reveal_strlit("id");
    reveal_strlit("main");
    reveal_strlit("description");
    reveal_strlit("icon");
    assert(m[0].0 == "id"@);
    assert(m[1].0 == "main"@ && "main"@[0] == 'm');
    assert(m[2].0 == "description"@);
    assert(m[3].0 == "icon"@ && "icon"@[0] == 'i');
    lemma_lookup_skips(m, "id"@, 1, 4);
    lemma_lookup_skips(m, "main"@, 2, 4);
    lemma_lookup_skips(m, "description"@, 3, 4);
}

/// The names of the members that a condition must have.
pub open spec fn weather_required_names() -> Set<Seq<char>> {
    set![
        "id"@,
        "main"@,
        "description"@,
        "icon"@,
    ]
}

/// A document that lacks a required member describes no condition.
pub proof fn lemma_weather_requires(doc: JsonValue, name: Seq<char>)
    requires
        weather_required_names().contains(name),
        doc.member(name) is None,
    ensures
        decode_weather(doc) is None,
{
}

/// The names of the members that are read for a condition.
pub open spec fn weather_names() -> Set<Seq<char>> {
    set![
        "id"@,
        "main"@,
        "description"@,
        "icon"@,
    ]
}

/// Two documents that agree on every member that is read for a condition describe the same
/// condition, or both none: what else they hold has no say.
pub proof fn lemma_weather_reads_named_members(a: JsonValue, b: JsonValue)
    requires
        forall|name: Seq<char>|
            (#[trigger] weather_names().contains(name)) ==> a.member(name) == b.member(
                name,
            ),
    ensures
        decode_weather(a) == decode_weather(b),
{
    assert(weather_names().contains("id"@));
    assert(weather_names().contains("main"@));
    assert(weather_names().contains("description"@));
    assert(weather_names().contains("icon"@));
}

/// A condition that is written and read again is the condition itself.
pub proof fn lemma_weather_round_trip(v: WeatherView)
    ensures
        decode_weather(encode_weather(v)) == Some(v),
{
    lemma_weather_members(v);
}

/// A run of conditions that is written and read again is the run itself.
pub proof fn lemma_weather_list_round_trip(list: Seq<WeatherView>)
    ensures
        decode_weather_list(encode_weather_list(list)->Array_0) == Some(list),
{
    let items = encode_weather_list(list)->Array_0;
    assert forall|i: int| 0 <= i < items.len() implies decode_weather(#[trigger] items[i]) == Some(
        list[i],
    ) by {
        lemma_weather_round_trip(list[i]);
    }
    assert(decode_weather_list(items)->0 =~= list);
}

} // verus!
