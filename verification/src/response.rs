//! What the upstream answers: a place, its time zone, and the data asked for.

use vstd::prelude::*;
use crate::current::{current_field, encode_current, lemma_current_round_trip, Current, CurrentView};
use crate::daily::{
    daily_list_field, daily_views, encode_daily_list, lemma_daily_list_round_trip, Daily, DailyView,
};
use crate::decimal::Decimal;
use crate::fields::{
    decimal_field, integer_field, read_decimal, read_integer, read_text, text_field,
};
use crate::json::{lemma_lookup_skips, value_of, Json, JsonValue};

verus! {

/// A daily forecast for one place: where it is, its time zone, and the days in order.
#[derive(Default, Debug, Clone, PartialEq)]
pub struct WeatherResponse {
    pub lat: Decimal,
    pub lon: Decimal,
    /// Name of the time zone.
    pub timezone: String,
    /// Offset of the time zone from UTC, in seconds.
    pub timezone_offset: i64,
    pub daily: Vec<Daily>,
}

/// The value of a [`WeatherResponse`].
pub struct WeatherResponseView {
    pub lat: Seq<char>,
    pub lon: Seq<char>,
    pub timezone: Seq<char>,
    pub timezone_offset: i64,
    pub daily: Seq<DailyView>,
}

impl View for WeatherResponse {
    type V = WeatherResponseView;

    open spec fn view(&self) -> WeatherResponseView {
        WeatherResponseView {
            lat: self.lat@,
            lon: self.lon@,
            timezone: self.timezone@,
            timezone_offset: self.timezone_offset,
            daily: daily_views(self.daily@),
        }
    }
}

/// The daily-forecast answer that `doc` describes: an object whose members `lat` and `lon` are
/// numbers, `timezone` a string, `timezone_offset` an integer, and `daily` an array of daily
/// forecasts. `None` otherwise. Other members are passed over.
pub open spec fn decode_weather_response(doc: JsonValue) -> Option<WeatherResponseView> {
    if {
        &&& decimal_field(doc, "lat"@) is Some
        &&& decimal_field(doc, "lon"@) is Some
        &&& text_field(doc, "timezone"@) is Some
        &&& integer_field(doc, "timezone_offset"@) is Some
        &&& daily_list_field(doc, "daily"@) is Some
    } {
        Some(
            WeatherResponseView {
                lat: decimal_field(doc, "lat"@)->0,
                lon: decimal_field(doc, "lon"@)->0,
                timezone: text_field(doc, "timezone"@)->0,
                timezone_offset: integer_field(doc, "timezone_offset"@)->0,
                daily: daily_list_field(doc, "daily"@)->0,
            },
        )
    } else {
        None
    }
}

/// The members of the object written for a daily-forecast answer.
pub open spec fn weather_response_members(v: WeatherResponseView) -> Seq<(Seq<char>, JsonValue)> {
    seq![
        ("lat"@, JsonValue::Decimal(v.lat)),
        ("lon"@, JsonValue::Decimal(v.lon)),
        ("timezone"@, JsonValue::Text(v.timezone)),
        ("timezone_offset"@, JsonValue::Integer(v.timezone_offset)),
        ("daily"@, encode_daily_list(v.daily)),
    ]
}

/// The document written for a daily-forecast answer.
pub open spec fn encode_weather_response(v: WeatherResponseView) -> JsonValue {
    JsonValue::Object(weather_response_members(v))
}

impl WeatherResponse {
    /// Reads a daily-forecast answer from `doc`.
    pub fn decode(doc: &Json) -> (r: Option<WeatherResponse>)
        ensures
            match r {
                Some(x) => decode_weather_response(doc@) == Some(x@),
                None => decode_weather_response(doc@).is_none(),
            },
    {
        let lat = read_decimal(doc, "lat")?;
        let lon = read_decimal(doc, "lon")?;
        let timezone = read_text(doc, "timezone")?;
        let timezone_offset = read_integer(doc, "timezone_offset")?;
        let daily = Daily::read_list(doc, "daily")?;
        Some(WeatherResponse { lat, lon, timezone, timezone_offset, daily })
    }

    /// Writes this daily-forecast answer as a document.
    pub fn encode(&self) -> (r: Json)
        ensures
            r@ == encode_weather_response(self@),
    {
        let mut members: Vec<(String, Json)> = Vec::new();
        members.push((String::from_str("lat"), Json::Decimal(self.lat.clone())));
        members.push((String::from_str("lon"), Json::Decimal(self.lon.clone())));
        members.push((String::from_str("timezone"), Json::Text(self.timezone.clone())));
        members.push((String::from_str("timezone_offset"), Json::Integer(self.timezone_offset)));
        members.push((String::from_str("daily"), Daily::encode_list(&self.daily)));
        let r = Json::Object(members);
        proof {
            reveal_with_fuel(value_of, 2);
            let got = r@->Object_0;
            let want = weather_response_members(self@);
            assert(got.len() == 5 && want.len() == 5);
            assert(got[0] == want[0]);
            assert(got[1] == want[1]);
            assert(got[2] == want[2]);
            assert(got[3] == want[3]);
            assert(got[4] == want[4]);
            assert(got =~= want);
        }
        r
    }
}

/// Each member that is written for a daily-forecast answer is found again under its name.
pub proof fn lemma_weather_response_members(v: WeatherResponseView)
    ensures
        encode_weather_response(v).member("lat"@) == Some(JsonValue::Decimal(v.lat)),
        encode_weather_response(v).member("lon"@) == Some(JsonValue::Decimal(v.lon)),
        encode_weather_response(v).member("timezone"@) == Some(JsonValue::Text(v.timezone)),
        encode_weather_response(v).member("timezone_offset"@) == Some(
            JsonValue::Integer(v.timezone_offset),
        ),
        encode_weather_response(v).member("daily"@) == Some(encode_daily_list(v.daily)),
{
    let m = weather_response_members(v);
    reveal_strlit("lat");
    reveal_strlit("lon");
    reveal_strlit("timezone");
    reveal_strlit("timezone_offset");
    reveal_strlit("daily");
    assert(m[0].0 == "lat"@ && "lat"@[1] == 'a');
    assert(m[1].0 == "lon"@ && "lon"@[1] == 'o');
    assert(m[2].0 == "timezone"@);
    assert(m[3].0 == "timezone_offset"@);
    assert(m[4].0 == "daily"@);
    lemma_lookup_skips(m, "lat"@, 1, 5);
    lemma_lookup_skips(m, "lon"@, 2, 5);
    lemma_lookup_skips(m, "timezone"@, 3, 5);
    lemma_lookup_skips(m, "timezone_offset"@, 4, 5);
}

/// The names of the members that a daily-forecast answer must have.
pub open spec fn weather_response_required_names() -> Set<Seq<char>> {
    set![
        "lat"@,
        "lon"@,
        "timezone"@,
        "timezone_offset"@,
        "daily"@,
    ]
}

/// A document that lacks a required member describes no daily-forecast answer.
pub proof fn lemma_weather_response_requires(doc: JsonValue, name: Seq<char>)
    requires
        weather_response_required_names().contains(name),
        doc.member(name) is None,
    ensures
        decode_weather_response(doc) is None,
{
}

/// The names of the members that are read for a daily-forecast answer.
pub open spec fn weather_response_names() -> Set<Seq<char>> {
    set![
        "lat"@,
        "lon"@,
        "timezone"@,
        "timezone_offset"@,
        "daily"@,
    ]
}

/// Two documents that agree on every member that is read for a daily-forecast answer describe the
/// same daily-forecast answer, or both none: what else they hold has no say.
pub proof fn lemma_weather_response_reads_named_members(a: JsonValue, b: JsonValue)
    requires
        forall|name: Seq<char>|
            (#[trigger] weather_response_names().contains(name)) ==> a.member(name) == b.member(
                name,
            ),
    ensures
        decode_weather_response(a) == decode_weather_response(b),
{
    assert(weather_response_names().contains("lat"@));
    assert(weather_response_names().contains("lon"@));
    assert(weather_response_names().contains("timezone"@));
    assert(weather_response_names().contains("timezone_offset"@));
    assert(weather_response_names().contains("daily"@));
}

/// A daily-forecast answer that is written and read again is the daily-forecast answer itself.
pub proof fn lemma_weather_response_round_trip(v: WeatherResponseView)
    ensures
        decode_weather_response(encode_weather_response(v)) == Some(v),
{
    lemma_weather_response_members(v);
    lemma_daily_list_round_trip(v.daily);
}

/// The current conditions at one place: where it is, its time zone, and the conditions.
#[derive(Default, Debug, Clone, PartialEq)]
pub struct CurrentWeather {
    pub lat: Decimal,
    pub lon: Decimal,
    /// Name of the time zone.
    pub timezone: String,
    /// Offset of the time zone from UTC, in seconds.
    pub timezone_offset: i64,
    pub current: Current,
}

/// The value of a [`CurrentWeather`].
pub struct CurrentWeatherView {
    pub lat: Seq<char>,
    pub lon: Seq<char>,
    pub timezone: Seq<char>,
    pub timezone_offset: i64,
    pub current: CurrentView,
}

impl View for CurrentWeather {
    type V = CurrentWeatherView;

    open spec fn view(&self) -> CurrentWeatherView {
        CurrentWeatherView {
            lat: self.lat@,
            lon: self.lon@,
            timezone: self.timezone@,
            timezone_offset: self.timezone_offset,
            current: self.current@,
        }
    }
}

/// The current-conditions answer that `doc` describes: an object whose members `lat` and `lon` are
/// numbers, `timezone` a string, `timezone_offset` an integer, and `current` a record of current
/// conditions. `None` otherwise. Other members are passed over.
pub open spec fn decode_current_weather(doc: JsonValue) -> Option<CurrentWeatherView> {
    if {
        &&& decimal_field(doc, "lat"@) is Some
        &&& decimal_field(doc, "lon"@) is Some
        &&& text_field(doc, "timezone"@) is Some
        &&& integer_field(doc, "timezone_offset"@) is Some
        &&& current_field(doc, "current"@) is Some
    } {
        Some(
            CurrentWeatherView {
                lat: decimal_field(doc, "lat"@)->0,
                lon: decimal_field(doc, "lon"@)->0,
                timezone: text_field(doc, "timezone"@)->0,
                timezone_offset: integer_field(doc, "timezone_offset"@)->0,
                current: current_field(doc, "current"@)->0,
            },
        )
    } else {
        None
    }
}

/// The members of the object written for a current-conditions answer.
pub open spec fn current_weather_members(v: CurrentWeatherView) -> Seq<(Seq<char>, JsonValue)> {
    seq![
        ("lat"@, JsonValue::Decimal(v.lat)),
        ("lon"@, JsonValue::Decimal(v.lon)),
        ("timezone"@, JsonValue::Text(v.timezone)),
        ("timezone_offset"@, JsonValue::Integer(v.timezone_offset)),
        ("current"@, encode_current(v.current)),
    ]
}

/// The document written for a current-conditions answer.
pub open spec fn encode_current_weather(v: CurrentWeatherView) -> JsonValue {
    JsonValue::Object(current_weather_members(v))
}

impl CurrentWeather {
    /// Reads a current-conditions answer from `doc`.
    pub fn decode(doc: &Json) -> (r: Option<CurrentWeather>)
        ensures
            match r {
                Some(x) => decode_current_weather(doc@) == Some(x@),
                None => decode_current_weather(doc@).is_none(),
            },
    {
        let lat = read_decimal(doc, "lat")?;
        let lon = read_decimal(doc, "lon")?;
        let timezone = read_text(doc, "timezone")?;
        let timezone_offset = read_integer(doc, "timezone_offset")?;
        let current = Current::read(doc, "current")?;
        Some(CurrentWeather { lat, lon, timezone, timezone_offset, current })
    }

    /// Writes this current-conditions answer as a document.
    pub fn encode(&self) -> (r: Json)
        ensures
            r@ == encode_current_weather(self@),
    {
        let mut members: Vec<(String, Json)> = Vec::new();
        members.push((String::from_str("lat"), Json::Decimal(self.lat.clone())));
        members.push((String::from_str("lon"), Json::Decimal(self.lon.clone())));
        members.push((String::from_str("timezone"), Json::Text(self.timezone.clone())));
        members.push((String::from_str("timezone_offset"), Json::Integer(self.timezone_offset)));
        members.push((String::from_str("current"), self.current.encode()));
        let r = Json::Object(members);
        proof {
            reveal_with_fuel(value_of, 2);
            let got = r@->Object_0;
            let want = current_weather_members(self@);
            assert(got.len() == 5 && want.len() == 5);
            assert(got[0] == want[0]);
            assert(got[1] == want[1]);
            assert(got[2] == want[2]);
            assert(got[3] == want[3]);
            assert(got[4] == want[4]);
            assert(got =~= want);
        }
        r
    }
}

/// Each member that is written for a current-conditions answer is found again under its name.
pub proof fn lemma_current_weather_members(v: CurrentWeatherView)
    ensures
        encode_current_weather(v).member("lat"@) == Some(JsonValue::Decimal(v.lat)),
        encode_current_weather(v).member("lon"@) == Some(JsonValue::Decimal(v.lon)),
        encode_current_weather(v).member("timezone"@) == Some(JsonValue::Text(v.timezone)),
        encode_current_weather(v).member("timezone_offset"@) == Some(
            JsonValue::Integer(v.timezone_offset),
        ),
        encode_current_weather(v).member("current"@) == Some(encode_current(v.current)),
{
    let m = current_weather_members(v);
    reveal_strlit("lat");
    reveal_strlit("lon");
    reveal_strlit("timezone");
    reveal_strlit("timezone_offset");
    reveal_strlit("current");
    assert(m[0].0 == "lat"@ && "lat"@[1] == 'a');
    assert(m[1].0 == "lon"@ && "lon"@[1] == 'o');
    assert(m[2].0 == "timezone"@);
    assert(m[3].0 == "timezone_offset"@);
    assert(m[4].0 == "current"@);
    lemma_lookup_skips(m, "lat"@, 1, 5);
    lemma_lookup_skips(m, "lon"@, 2, 5);
    lemma_lookup_skips(m, "timezone"@, 3, 5);
    lemma_lookup_skips(m, "timezone_offset"@, 4, 5);
}

/// The names of the members that a current-conditions answer must have.
pub open spec fn current_weather_required_names() -> Set<Seq<char>> {
    set![
        "lat"@,
        "lon"@,
        "timezone"@,
        "timezone_offset"@,
        "current"@,
    ]
}

/// A document that lacks a required member describes no current-conditions answer.
pub proof fn lemma_current_weather_requires(doc: JsonValue, name: Seq<char>)
    requires
        current_weather_required_names().contains(name),
        doc.member(name) is None,
    ensures
        decode_current_weather(doc) is None,
{
}

/// The names of the members that are read for a current-conditions answer.
pub open spec fn current_weather_names() -> Set<Seq<char>> {
    set![
        "lat"@,
        "lon"@,
        "timezone"@,
        "timezone_offset"@,
        "current"@,
    ]
}

/// Two documents that agree on every member that is read for a current-conditions answer describe
/// the same current-conditions answer, or both none: what else they hold has no say.
pub proof fn lemma_current_weather_reads_named_members(a: JsonValue, b: JsonValue)
    requires
        forall|name: Seq<char>|
            (#[trigger] current_weather_names().contains(name)) ==> a.member(name) == b.member(
                name,
            ),
    ensures
        decode_current_weather(a) == decode_current_weather(b),
{
    assert(current_weather_names().contains("lat"@));
    assert(current_weather_names().contains("lon"@));
    assert(current_weather_names().contains("timezone"@));
    assert(current_weather_names().contains("timezone_offset"@));
    assert(current_weather_names().contains("current"@));
}

/// A current-conditions answer that is written and read again is the current-conditions answer
/// itself.
pub proof fn lemma_current_weather_round_trip(v: CurrentWeatherView)
    ensures
        decode_current_weather(encode_current_weather(v)) == Some(v),
{
    lemma_current_weather_members(v);
    lemma_current_round_trip(v.current);
}

} // verus!
