//! The forecast for one day, and the breakdowns it holds.

use vstd::prelude::*;
use crate::conditions::{
    encode_weather_list, lemma_weather_list_round_trip, weather_list_field, weather_views, Weather,
    WeatherView,
};
use crate::decimal::Decimal;
use crate::fields::{
    array_field, decimal_field, integer_field, optional_decimal_field, optional_decimal_json,
    optional_decimal_view, read_array, read_decimal, read_integer, read_optional_decimal,
    write_optional_decimal,
};
use crate::json::{items_view, lemma_lookup_skips, value_of, Json, JsonValue};

verus! {

/// Temperatures over one day: by day, the lowest, the highest, by night, in the evening and in the
/// morning.
#[derive(Default, Debug, Clone, PartialEq)]
pub struct Temp {
    pub day: Decimal,
    pub min: Decimal,
    pub max: Decimal,
    pub night: Decimal,
    pub eve: Decimal,
    pub morn: Decimal,
}

/// The value of a [`Temp`].
pub struct TempView {
    pub day: Seq<char>,
    pub min: Seq<char>,
    pub max: Seq<char>,
    pub night: Seq<char>,
    pub eve: Seq<char>,
    pub morn: Seq<char>,
}

impl View for Temp {
    type V = TempView;

    open spec fn view(&self) -> TempView {
        TempView {
            day: self.day@,
            min: self.min@,
            max: self.max@,
            night: self.night@,
            eve: self.eve@,
            morn: self.morn@,
        }
    }
}

/// The temperature breakdown that `doc` describes: an object whose members `day`, `min`, `max`,
/// `night`, `eve` and `morn` are numbers. `None` where one of them is missing or no number.
pub open spec fn decode_temp(doc: JsonValue) -> Option<TempView> {
    if {
        &&& decimal_field(doc, "day"@) is Some
        &&& decimal_field(doc, "min"@) is Some
        &&& decimal_field(doc, "max"@) is Some
        &&& decimal_field(doc, "night"@) is Some
        &&& decimal_field(doc, "eve"@) is Some
        &&& decimal_field(doc, "morn"@) is Some
    } {
        Some(
            TempView {
                day: decimal_field(doc, "day"@)->0,
                min: decimal_field(doc, "min"@)->0,
                max: decimal_field(doc, "max"@)->0,
                night: decimal_field(doc, "night"@)->0,
                eve: decimal_field(doc, "eve"@)->0,
                morn: decimal_field(doc, "morn"@)->0,
            },
        )
    } else {
        None
    }
}

/// The temperature breakdown held by member `name` of `doc`.
pub open spec fn temp_field(doc: JsonValue, name: Seq<char>) -> Option<TempView> {
    match doc.member(name) {
        Some(v) => decode_temp(v),
        None => None,
    }
}

/// The members of the object written for a temperature breakdown.
pub open spec fn temp_members(v: TempView) -> Seq<(Seq<char>, JsonValue)> {
    seq![
        ("day"@, JsonValue::Decimal(v.day)),
        ("min"@, JsonValue::Decimal(v.min)),
        ("max"@, JsonValue::Decimal(v.max)),
        ("night"@, JsonValue::Decimal(v.night)),
        ("eve"@, JsonValue::Decimal(v.eve)),
        ("morn"@, JsonValue::Decimal(v.morn)),
    ]
}

/// The document written for a temperature breakdown.
pub open spec fn encode_temp(v: TempView) -> JsonValue {
    JsonValue::Object(temp_members(v))
}

impl Temp {
    /// Reads a temperature breakdown from `doc`.
    pub fn decode(doc: &Json) -> (r: Option<Temp>)
        ensures
            match r {
                Some(x) => decode_temp(doc@) == Some(x@),
                None => decode_temp(doc@).is_none(),
            },
    {
        let day = read_decimal(doc, "day")?;
        let min = read_decimal(doc, "min")?;
        let max = read_decimal(doc, "max")?;
        let night = read_decimal(doc, "night")?;
        let eve = read_decimal(doc, "eve")?;
        let morn = read_decimal(doc, "morn")?;
        Some(Temp { day, min, max, night, eve, morn })
    }

    /// Reads a temperature breakdown from member `name` of `doc`.
    pub fn read(doc: &Json, name: &str) -> (r: Option<Temp>)
        ensures
            match r {
                Some(x) => temp_field(doc@, name@) == Some(x@),
                None => temp_field(doc@, name@).is_none(),
            },
    {
        match doc.member(name) {
            Some(v) => Temp::decode(v),
            None => None,
        }
    }

    /// Writes this temperature breakdown as a document.
    pub fn encode(&self) -> (r: Json)
        ensures
            r@ == encode_temp(self@),
    {
        let mut members: Vec<(String, Json)> = Vec::new();
        members.push((String::from_str("day"), Json::Decimal(self.day.clone())));
        members.push((String::from_str("min"), Json::Decimal(self.min.clone())));
        members.push((String::from_str("max"), Json::Decimal(self.max.clone())));
        members.push((String::from_str("night"), Json::Decimal(self.night.clone())));
        members.push((String::from_str("eve"), Json::Decimal(self.eve.clone())));
        members.push((String::from_str("morn"), Json::Decimal(self.morn.clone())));
        let r = Json::Object(members);
        proof {
            reveal_with_fuel(value_of, 2);
            let got = r@->Object_0;
            let want = temp_members(self@);
            assert(got.len() == 6 && want.len() == 6);
            assert(got[0] == want[0]);
            assert(got[1] == want[1]);
            assert(got[2] == want[2]);
            assert(got[3] == want[3]);
            assert(got[4] == want[4]);
            assert(got[5] == want[5]);
            assert(got =~= want);
        }
        r
    }
}

/// Each member that is written for a temperature breakdown is found again under its name.
pub proof fn lemma_temp_members(v: TempView)
    ensures
        encode_temp(v).member("day"@) == Some(JsonValue::Decimal(v.day)),
        encode_temp(v).member("min"@) == Some(JsonValue::Decimal(v.min)),
        encode_temp(v).member("max"@) == Some(JsonValue::Decimal(v.max)),
        encode_temp(v).member("night"@) == Some(JsonValue::Decimal(v.night)),
        encode_temp(v).member("eve"@) == Some(JsonValue::Decimal(v.eve)),
        encode_temp(v).member("morn"@) == Some(JsonValue::Decimal(v.morn)),
{
    let m = temp_members(v);
    reveal_strlit("day");
    reveal_strlit("min");
    reveal_strlit("max");
    reveal_strlit("night");
    reveal_strlit("eve");
    reveal_strlit("morn");
    assert(m[0].0 == "day"@ && "day"@[0] == 'd');
    assert(m[1].0 == "min"@ && "min"@[0] == 'm' && "min"@[1] == 'i');
    assert(m[2].0 == "max"@ && "max"@[0] == 'm' && "max"@[1] == 'a');
    assert(m[3].0 == "night"@);
    assert(m[4].0 == "eve"@ && "eve"@[0] == 'e');
    assert(m[5].0 == "morn"@);
    lemma_lookup_skips(m, "day"@, 1, 6);
    lemma_lookup_skips(m, "min"@, 2, 6);
    lemma_lookup_skips(m, "max"@, 3, 6);
    lemma_lookup_skips(m, "night"@, 4, 6);
    lemma_lookup_skips(m, "eve"@, 5, 6);
}

/// The names of the members that a temperature breakdown must have.
pub open spec fn temp_required_names() -> Set<Seq<char>> {
    set![
        "day"@,
        "min"@,
        "max"@,
        "night"@,
        "eve"@,
        "morn"@,
    ]
}

/// A document that lacks a required member describes no temperature breakdown.
pub proof fn lemma_temp_requires(doc: JsonValue, name: Seq<char>)
    requires
        temp_required_names().contains(name),
        doc.member(name) is None,
    ensures
        decode_temp(doc) is None,
{
}

/// The names of the members that are read for a temperature breakdown.
pub open spec fn temp_names() -> Set<Seq<char>> {
    set![
        "day"@,
        "min"@,
        "max"@,
        "night"@,
        "eve"@,
        "morn"@,
    ]
}

/// Two documents that agree on every member that is read for a temperature breakdown describe the
/// same temperature breakdown, or both none: what else they hold has no say.
pub proof fn lemma_temp_reads_named_members(a: JsonValue, b: JsonValue)
    requires
        forall|name: Seq<char>|
            (#[trigger] temp_names().contains(name)) ==> a.member(name) == b.member(
                name,
            ),
    ensures
        decode_temp(a) == decode_temp(b),
{
    assert(temp_names().contains("day"@));
    assert(temp_names().contains("min"@));
    assert(temp_names().contains("max"@));
    assert(temp_names().contains("night"@));
    assert(temp_names().contains("eve"@));
    assert(temp_names().contains("morn"@));
}

/// A temperature breakdown that is written and read again is the temperature breakdown itself.
pub proof fn lemma_temp_round_trip(v: TempView)
    ensures
        decode_temp(encode_temp(v)) == Some(v),
{
    lemma_temp_members(v);
}

/// Felt temperatures over one day: by day, by night, in the evening and in the morning.
#[derive(Default, Debug, Clone, PartialEq)]
pub struct FeelsLike {
    pub day: Decimal,
    pub night: Decimal,
    pub eve: Decimal,
    pub morn: Decimal,
}

/// The value of a [`FeelsLike`].
pub struct FeelsLikeView {
    pub day: Seq<char>,
    pub night: Seq<char>,
    pub eve: Seq<char>,
    pub morn: Seq<char>,
}

impl View for FeelsLike {
    type V = FeelsLikeView;

    open spec fn view(&self) -> FeelsLikeView {
        FeelsLikeView {
            day: self.day@,
            night: self.night@,
            eve: self.eve@,
            morn: self.morn@,
        }
    }
}

/// The felt-temperature breakdown that `doc` describes: an object whose members `day`, `night`,
/// `eve` and `morn` are numbers. `None` where one of them is missing or no number.
pub open spec fn decode_feels_like(doc: JsonValue) -> Option<FeelsLikeView> {
    if {
        &&& decimal_field(doc, "day"@) is Some
        &&& decimal_field(doc, "night"@) is Some
        &&& decimal_field(doc, "eve"@) is Some
        &&& decimal_field(doc, "morn"@) is Some
    } {
        Some(
            FeelsLikeView {
                day: decimal_field(doc, "day"@)->0,
                night: decimal_field(doc, "night"@)->0,
                eve: decimal_field(doc, "eve"@)->0,
                morn: decimal_field(doc, "morn"@)->0,
            },
        )
    } else {
        None
    }
}

/// The felt-temperature breakdown held by member `name` of `doc`.
pub open spec fn feels_like_field(doc: JsonValue, name: Seq<char>) -> Option<FeelsLikeView> {
    match doc.member(name) {
        Some(v) => decode_feels_like(v),
        None => None,
    }
}

/// The members of the object written for a felt-temperature breakdown.
pub open spec fn feels_like_members(v: FeelsLikeView) -> Seq<(Seq<char>, JsonValue)> {
    seq![
        ("day"@, JsonValue::Decimal(v.day)),
        ("night"@, JsonValue::Decimal(v.night)),
        ("eve"@, JsonValue::Decimal(v.eve)),
        ("morn"@, JsonValue::Decimal(v.morn)),
    ]
}

/// The document written for a felt-temperature breakdown.
pub open spec fn encode_feels_like(v: FeelsLikeView) -> JsonValue {
    JsonValue::Object(feels_like_members(v))
}

impl FeelsLike {
    /// Reads a felt-temperature breakdown from `doc`.
    pub fn decode(doc: &Json) -> (r: Option<FeelsLike>)
        ensures
            match r {
                Some(x) => decode_feels_like(doc@) == Some(x@),
                None => decode_feels_like(doc@).is_none(),
            },
    {
        let day = read_decimal(doc, "day")?;
        let night = read_decimal(doc, "night")?;
        let eve = read_decimal(doc, "eve")?;
        let morn = read_decimal(doc, "morn")?;
        Some(FeelsLike { day, night, eve, morn })
    }

    /// Reads a felt-temperature breakdown from member `name` of `doc`.
    pub fn read(doc: &Json, name: &str) -> (r: Option<FeelsLike>)
        ensures
            match r {
                Some(x) => feels_like_field(doc@, name@) == Some(x@),
                None => feels_like_field(doc@, name@).is_none(),
            },
    {
        match doc.member(name) {
            Some(v) => FeelsLike::decode(v),
            None => None,
        }
    }

    /// Writes this felt-temperature breakdown as a document.
    pub fn encode(&self) -> (r: Json)
        ensures
            r@ == encode_feels_like(self@),
    {
        let mut members: Vec<(String, Json)> = Vec::new();
        members.push((String::from_str("day"), Json::Decimal(self.day.clone())));
        members.push((String::from_str("night"), Json::Decimal(self.night.clone())));
        members.push((String::from_str("eve"), Json::Decimal(self.eve.clone())));
        members.push((String::from_str("morn"), Json::Decimal(self.morn.clone())));
        let r = Json::Object(members);
        proof {
            reveal_with_fuel(value_of, 2);
            let got = r@->Object_0;
            let want = feels_like_members(self@);
            assert(got.len() == 4 && want.len() == 4);
            assert(got[0] == want[0]);
            assert(got[1] == want[1]);
            assert(got[2] == want[2]);
            assert(got[3] == want[3]);
            assert(got =~= want);
        }
        r
    }
}

/// Each member that is written for a felt-temperature breakdown is found again under its name.
pub proof fn lemma_feels_like_members(v: FeelsLikeView)
    ensures
        encode_feels_like(v).member("day"@) == Some(JsonValue::Decimal(v.day)),
        encode_feels_like(v).member("night"@) == Some(JsonValue::Decimal(v.night)),
        encode_feels_like(v).member("eve"@) == Some(JsonValue::Decimal(v.eve)),
        encode_feels_like(v).member("morn"@) == Some(JsonValue::Decimal(v.morn)),
{
    let m = feels_like_members(v);
    reveal_strlit("day");
    reveal_strlit("night");
    reveal_strlit("eve");
    reveal_strlit("morn");
    assert(m[0].0 == "day"@ && "day"@[0] == 'd');
    assert(m[1].0 == "night"@);
    assert(m[2].0 == "eve"@ && "eve"@[0] == 'e');
    assert(m[3].0 == "morn"@);
    lemma_lookup_skips(m, "day"@, 1, 4);
    lemma_lookup_skips(m, "night"@, 2, 4);
    lemma_lookup_skips(m, "eve"@, 3, 4);
}

/// The names of the members that a felt-temperature breakdown must have.
pub open spec fn feels_like_required_names() -> Set<Seq<char>> {
    set![
        "day"@,
        "night"@,
        "eve"@,
        "morn"@,
    ]
}

/// A document that lacks a required member describes no felt-temperature breakdown.
pub proof fn lemma_feels_like_requires(doc: JsonValue, name: Seq<char>)
    requires
        feels_like_required_names().contains(name),
        doc.member(name) is None,
    ensures
        decode_feels_like(doc) is None,
{
}

/// The names of the members that are read for a felt-temperature breakdown.
pub open spec fn feels_like_names() -> Set<Seq<char>> {
    set![
        "day"@,
        "night"@,
        "eve"@,
        "morn"@,
    ]
}

/// Two documents that agree on every member that is read for a felt-temperature breakdown describe
/// the same felt-temperature breakdown, or both none: what else they hold has no say.
pub proof fn lemma_feels_like_reads_named_members(a: JsonValue, b: JsonValue)
    requires
        forall|name: Seq<char>|
            (#[trigger] feels_like_names().contains(name)) ==> a.member(name) == b.member(
                name,
            ),
    ensures
        decode_feels_like(a) == decode_feels_like(b),
{
    assert(feels_like_names().contains("day"@));
    assert(feels_like_names().contains("night"@));
    assert(feels_like_names().contains("eve"@));
    assert(feels_like_names().contains("morn"@));
}

/// A felt-temperature breakdown that is written and read again is the felt-temperature breakdown
/// itself.
pub proof fn lemma_feels_like_round_trip(v: FeelsLikeView)
    ensures
        decode_feels_like(encode_feels_like(v)) == Some(v),
{
    lemma_feels_like_members(v);
}

/// The forecast for one day. Times are seconds since the Unix epoch.
#[derive(Default, Debug, Clone, PartialEq)]
pub struct Daily {
    pub dt: i64,
    pub sunrise: i64,
    pub sunset: i64,
    pub moonrise: i64,
    pub moonset: i64,
    pub moon_phase: Decimal,
    pub temp: Temp,
    pub feels_like: FeelsLike,
    pub pressure: i64,
    pub humidity: i64,
    pub dew_point: Decimal,
    pub wind_speed: Decimal,
    pub wind_deg: i64,
    pub wind_gust: Decimal,
    pub weather: Vec<Weather>,
    pub clouds: i64,
    /// Probability of precipitation.
    pub pop: Decimal,
    pub uvi: Decimal,
    /// Rain accumulation, where any is forecast.
    pub rain: Option<Decimal>,
    /// Snow accumulation, where any is forecast.
    pub snow: Option<Decimal>,
}

/// The value of a [`Daily`].
pub struct DailyView {
    pub dt: i64,
    pub sunrise: i64,
    pub sunset: i64,
    pub moonrise: i64,
    pub moonset: i64,
    pub moon_phase: Seq<char>,
    pub temp: TempView,
    pub feels_like: FeelsLikeView,
    pub pressure: i64,
    pub humidity: i64,
    pub dew_point: Seq<char>,
    pub wind_speed: Seq<char>,
    pub wind_deg: i64,
    pub wind_gust: Seq<char>,
    pub weather: Seq<WeatherView>,
    pub clouds: i64,
    pub pop: Seq<char>,
    pub uvi: Seq<char>,
    pub rain: Option<Seq<char>>,
    pub snow: Option<Seq<char>>,
}

impl View for Daily {
    type V = DailyView;

    open spec fn view(&self) -> DailyView {
        DailyView {
            dt: self.dt,
            sunrise: self.sunrise,
            sunset: self.sunset,
            moonrise: self.moonrise,
            moonset: self.moonset,
            moon_phase: self.moon_phase@,
            temp: self.temp@,
            feels_like: self.feels_like@,
            pressure: self.pressure,
            humidity: self.humidity,
            dew_point: self.dew_point@,
            wind_speed: self.wind_speed@,
            wind_deg: self.wind_deg,
            wind_gust: self.wind_gust@,
            weather: weather_views(self.weather@),
            clouds: self.clouds,
            pop: self.pop@,
            uvi: self.uvi@,
            rain: optional_decimal_view(self.rain),
            snow: optional_decimal_view(self.snow),
        }
    }
}

/// The values of a run of daily forecasts, in order.
pub open spec fn daily_views(list: Seq<Daily>) -> Seq<DailyView> {
    Seq::new(list.len(), |i: int| list[i]@)
}

/// The daily forecast that `doc` describes: an object that has every member of [`Daily`] under its
/// name and of its kind, where `rain` and `snow` may be left out or null. `None` where a member is
/// missing otherwise, or is of another kind. Other members are passed over.
pub open spec fn decode_daily(doc: JsonValue) -> Option<DailyView> {
    if {
        &&& integer_field(doc, "dt"@) is Some
        &&& integer_field(doc, "sunrise"@) is Some
        &&& integer_field(doc, "sunset"@) is Some
        &&& integer_field(doc, "moonrise"@) is Some
        &&& integer_field(doc, "moonset"@) is Some
        &&& decimal_field(doc, "moon_phase"@) is Some
        &&& temp_field(doc, "temp"@) is Some
        &&& feels_like_field(doc, "feels_like"@) is Some
        &&& integer_field(doc, "pressure"@) is Some
        &&& integer_field(doc, "humidity"@) is Some
        &&& decimal_field(doc, "dew_point"@) is Some
        &&& decimal_field(doc, "wind_speed"@) is Some
        &&& integer_field(doc, "wind_deg"@) is Some
        &&& decimal_field(doc, "wind_gust"@) is Some
        &&& weather_list_field(doc, "weather"@) is Some
        &&& integer_field(doc, "clouds"@) is Some
        &&& decimal_field(doc, "pop"@) is Some
        &&& decimal_field(doc, "uvi"@) is Some
        &&& optional_decimal_field(doc, "rain"@) is Some
        &&& optional_decimal_field(doc, "snow"@) is Some
    } {
        Some(
            DailyView {
                dt: integer_field(doc, "dt"@)->0,
                sunrise: integer_field(doc, "sunrise"@)->0,
                sunset: integer_field(doc, "sunset"@)->0,
                moonrise: integer_field(doc, "moonrise"@)->0,
                moonset: integer_field(doc, "moonset"@)->0,
                moon_phase: decimal_field(doc, "moon_phase"@)->0,
                temp: temp_field(doc, "temp"@)->0,
                feels_like: feels_like_field(doc, "feels_like"@)->0,
                pressure: integer_field(doc, "pressure"@)->0,
                humidity: integer_field(doc, "humidity"@)->0,
                dew_point: decimal_field(doc, "dew_point"@)->0,
                wind_speed: decimal_field(doc, "wind_speed"@)->0,
                wind_deg: integer_field(doc, "wind_deg"@)->0,
                wind_gust: decimal_field(doc, "wind_gust"@)->0,
                weather: weather_list_field(doc, "weather"@)->0,
                clouds: integer_field(doc, "clouds"@)->0,
                pop: decimal_field(doc, "pop"@)->0,
                uvi: decimal_field(doc, "uvi"@)->0,
                rain: optional_decimal_field(doc, "rain"@)->0,
                snow: optional_decimal_field(doc, "snow"@)->0,
            },
        )
    } else {
        None
    }
}

/// The daily forecasts that `items` describe, if each of them describes one.
pub open spec fn decode_daily_list(items: Seq<JsonValue>) -> Option<Seq<DailyView>> {
    if forall|i: int| 0 <= i < items.len() ==> decode_daily(#[trigger] items[i]) is Some {
        Some(Seq::new(items.len(), |i: int| decode_daily(items[i])->0))
    } else {
        None
    }
}

/// The daily forecasts held, as an array, by member `name` of `doc`.
pub open spec fn daily_list_field(doc: JsonValue, name: Seq<char>) -> Option<Seq<DailyView>> {
    match array_field(doc, name) {
        Some(items) => decode_daily_list(items),
        None => None,
    }
}

/// The members of the object written for a daily forecast.
pub open spec fn daily_members(v: DailyView) -> Seq<(Seq<char>, JsonValue)> {
    seq![
        ("dt"@, JsonValue::Integer(v.dt)),
        ("sunrise"@, JsonValue::Integer(v.sunrise)),
        ("sunset"@, JsonValue::Integer(v.sunset)),
        ("moonrise"@, JsonValue::Integer(v.moonrise)),
        ("moonset"@, JsonValue::Integer(v.moonset)),
        ("moon_phase"@, JsonValue::Decimal(v.moon_phase)),
        ("temp"@, encode_temp(v.temp)),
        ("feels_like"@, encode_feels_like(v.feels_like)),
        ("pressure"@, JsonValue::Integer(v.pressure)),
        ("humidity"@, JsonValue::Integer(v.humidity)),
        ("dew_point"@, JsonValue::Decimal(v.dew_point)),
        ("wind_speed"@, JsonValue::Decimal(v.wind_speed)),
        ("wind_deg"@, JsonValue::Integer(v.wind_deg)),
        ("wind_gust"@, JsonValue::Decimal(v.wind_gust)),
        ("weather"@, encode_weather_list(v.weather)),
        ("clouds"@, JsonValue::Integer(v.clouds)),
        ("pop"@, JsonValue::Decimal(v.pop)),
        ("uvi"@, JsonValue::Decimal(v.uvi)),
        ("rain"@, optional_decimal_json(v.rain)),
        ("snow"@, optional_decimal_json(v.snow)),
    ]
}

/// The document written for a daily forecast.
pub open spec fn encode_daily(v: DailyView) -> JsonValue {
    JsonValue::Object(daily_members(v))
}

/// The array written for a run of daily forecasts.
pub open spec fn encode_daily_list(list: Seq<DailyView>) -> JsonValue {
    JsonValue::Array(Seq::new(list.len(), |i: int| encode_daily(list[i])))
}

impl Daily {
    /// Reads a daily forecast from `doc`.
    pub fn decode(doc: &Json) -> (r: Option<Daily>)
        ensures
            match r {
                Some(x) => decode_daily(doc@) == Some(x@),
                None => decode_daily(doc@).is_none(),
            },
    {
        let dt = read_integer(doc, "dt")?;
        let sunrise = read_integer(doc, "sunrise")?;
        let sunset = read_integer(doc, "sunset")?;
        let moonrise = read_integer(doc, "moonrise")?;
        let moonset = read_integer(doc, "moonset")?;
        let moon_phase = read_decimal(doc, "moon_phase")?;
        let temp = Temp::read(doc, "temp")?;
        let feels_like = FeelsLike::read(doc, "feels_like")?;
        let pressure = read_integer(doc, "pressure")?;
        let humidity = read_integer(doc, "humidity")?;
        let dew_point = read_decimal(doc, "dew_point")?;
        let wind_speed = read_decimal(doc, "wind_speed")?;
        let wind_deg = read_integer(doc, "wind_deg")?;
        let wind_gust = read_decimal(doc, "wind_gust")?;
        let weather = Weather::read_list(doc, "weather")?;
        let clouds = read_integer(doc, "clouds")?;
        let pop = read_decimal(doc, "pop")?;
        let uvi = read_decimal(doc, "uvi")?;
        let rain = read_optional_decimal(doc, "rain")?;
        let snow = read_optional_decimal(doc, "snow")?;
        Some(
            Daily {
                dt,
                sunrise,
                sunset,
                moonrise,
                moonset,
                moon_phase,
                temp,
                feels_like,
                pressure,
                humidity,
                dew_point,
                wind_speed,
                wind_deg,
                wind_gust,
                weather,
                clouds,
                pop,
                uvi,
                rain,
                snow,
            },
        )
    }

    /// Reads a run of daily forecasts from the items of an array.
    pub fn decode_list(items: &Vec<Json>) -> (r: Option<Vec<Daily>>)
        ensures
            match r {
                Some(list) => decode_daily_list(items_view(items@)) == Some(daily_views(list@)),
                None => decode_daily_list(items_view(items@)).is_none(),
            },
    {
        let mut list: Vec<Daily> = Vec::new();
        let mut i: usize = 0;
        while i < items.len()
            invariant
                i <= items.len(),
                list@.len() == i,
                forall|k: int|
                    0 <= k < i ==> decode_daily(#[trigger] items_view(items@)[k]) == Some(
                        list@[k]@,
                    ),
            decreases items.len() - i,
        {
            match Daily::decode(&items[i]) {
                Some(x) => {
                    list.push(x);
                },
                None => {
                    assert(decode_daily(items_view(items@)[i as int]).is_none());
                    return None;
                },
            }
            i += 1;
        }
        assert(daily_views(list@) =~= decode_daily_list(items_view(items@))->0);
        Some(list)
    }

    /// Reads a run of daily forecasts from the array that member `name` of `doc` holds.
    pub fn read_list(doc: &Json, name: &str) -> (r: Option<Vec<Daily>>)
        ensures
            match r {
                Some(list) => daily_list_field(doc@, name@) == Some(daily_views(list@)),
                None => daily_list_field(doc@, name@).is_none(),
            },
    {
        match read_array(doc, name) {
            Some(items) => Daily::decode_list(items),
            None => None,
        }
    }

    /// Writes this daily forecast as a document.
    pub fn encode(&self) -> (r: Json)
        ensures
            r@ == encode_daily(self@),
    {
        let mut members: Vec<(String, Json)> = Vec::new();
        members.push((String::from_str("dt"), Json::Integer(self.dt)));
        members.push((String::from_str("sunrise"), Json::Integer(self.sunrise)));
        members.push((String::from_str("sunset"), Json::Integer(self.sunset)));
        members.push((String::from_str("moonrise"), Json::Integer(self.moonrise)));
        members.push((String::from_str("moonset"), Json::Integer(self.moonset)));
        members.push((String::from_str("moon_phase"), Json::Decimal(self.moon_phase.clone())));
        members.push((String::from_str("temp"), self.temp.encode()));
        members.push((String::from_str("feels_like"), self.feels_like.encode()));
        members.push((String::from_str("pressure"), Json::Integer(self.pressure)));
        members.push((String::from_str("humidity"), Json::Integer(self.humidity)));
        members.push((String::from_str("dew_point"), Json::Decimal(self.dew_point.clone())));
        members.push((String::from_str("wind_speed"), Json::Decimal(self.wind_speed.clone())));
        members.push((String::from_str("wind_deg"), Json::Integer(self.wind_deg)));
        members.push((String::from_str("wind_gust"), Json::Decimal(self.wind_gust.clone())));
        members.push((String::from_str("weather"), Weather::encode_list(&self.weather)));
        members.push((String::from_str("clouds"), Json::Integer(self.clouds)));
        members.push((String::from_str("pop"), Json::Decimal(self.pop.clone())));
        members.push((String::from_str("uvi"), Json::Decimal(self.uvi.clone())));
        members.push((String::from_str("rain"), write_optional_decimal(&self.rain)));
        members.push((String::from_str("snow"), write_optional_decimal(&self.snow)));
        let r = Json::Object(members);
        proof {
            reveal_with_fuel(value_of, 2);
            let got = r@->Object_0;
            let want = daily_members(self@);
            assert(got.len() == 20 && want.len() == 20);
            assert(got[0] == want[0]);
            assert(got[1] == want[1]);
            assert(got[2] == want[2]);
            assert(got[3] == want[3]);
            assert(got[4] == want[4]);
            assert(got[5] == want[5]);
            assert(got[6] == want[6]);
            assert(got[7] == want[7]);
            assert(got[8] == want[8]);
            assert(got[9] == want[9]);
            assert(got[10] == want[10]);
            assert(got[11] == want[11]);
            assert(got[12] == want[12]);
            assert(got[13] == want[13]);
            assert(got[14] == want[14]);
            assert(got[15] == want[15]);
            assert(got[16] == want[16]);
            assert(got[17] == want[17]);
            assert(got[18] == want[18]);
            assert(got[19] == want[19]);
            assert(got =~= want);
        }
        r
    }

    /// Writes a run of daily forecasts as an array.
    pub fn encode_list(list: &Vec<Daily>) -> (r: Json)
        ensures
            r@ == encode_daily_list(daily_views(list@)),
    {
        let mut items: Vec<Json> = Vec::new();
        let mut i: usize = 0;
        while i < list.len()
            invariant
                i <= list.len(),
                items@.len() == i,
                forall|k: int| 0 <= k < i ==> (#[trigger] items@[k])@ == encode_daily(list@[k]@),
            decreases list.len() - i,
        {
            items.push(list[i].encode());
            i += 1;
        }
        let r = Json::Array(items);
        assert(r@->Array_0 =~= encode_daily_list(daily_views(list@))->Array_0);
        r
    }
}

/// Each member that is written for a daily forecast is found again under its name.
pub proof fn lemma_daily_members(v: DailyView)
    ensures
        encode_daily(v).member("dt"@) == Some(JsonValue::Integer(v.dt)),
        encode_daily(v).member("sunrise"@) == Some(JsonValue::Integer(v.sunrise)),
        encode_daily(v).member("sunset"@) == Some(JsonValue::Integer(v.sunset)),
        encode_daily(v).member("moonrise"@) == Some(JsonValue::Integer(v.moonrise)),
        encode_daily(v).member("moonset"@) == Some(JsonValue::Integer(v.moonset)),
        encode_daily(v).member("moon_phase"@) == Some(JsonValue::Decimal(v.moon_phase)),
        encode_daily(v).member("temp"@) == Some(encode_temp(v.temp)),
        encode_daily(v).member("feels_like"@) == Some(encode_feels_like(v.feels_like)),
        encode_daily(v).member("pressure"@) == Some(JsonValue::Integer(v.pressure)),
        encode_daily(v).member("humidity"@) == Some(JsonValue::Integer(v.humidity)),
        encode_daily(v).member("dew_point"@) == Some(JsonValue::Decimal(v.dew_point)),
        encode_daily(v).member("wind_speed"@) == Some(JsonValue::Decimal(v.wind_speed)),
        encode_daily(v).member("wind_deg"@) == Some(JsonValue::Integer(v.wind_deg)),
        encode_daily(v).member("wind_gust"@) == Some(JsonValue::Decimal(v.wind_gust)),
        encode_daily(v).member("weather"@) == Some(encode_weather_list(v.weather)),
        encode_daily(v).member("clouds"@) == Some(JsonValue::Integer(v.clouds)),
        encode_daily(v).member("pop"@) == Some(JsonValue::Decimal(v.pop)),
        encode_daily(v).member("uvi"@) == Some(JsonValue::Decimal(v.uvi)),
        encode_daily(v).member("rain"@) == Some(optional_decimal_json(v.rain)),
        encode_daily(v).member("snow"@) == Some(optional_decimal_json(v.snow)),
{
    let m = daily_members(v);
    reveal_strlit("dt");
    reveal_strlit("sunrise");
    reveal_strlit("sunset");
    reveal_strlit("moonrise");
    reveal_strlit("moonset");
    reveal_strlit("moon_phase");
    reveal_strlit("temp");
    reveal_strlit("feels_like");
    reveal_strlit("pressure");
    reveal_strlit("humidity");
    reveal_strlit("dew_point");
    reveal_strlit("wind_speed");
    reveal_strlit("wind_deg");
    reveal_strlit("wind_gust");
    reveal_strlit("weather");
    reveal_strlit("clouds");
    reveal_strlit("pop");
    reveal_strlit("uvi");
    reveal_strlit("rain");
    reveal_strlit("snow");
    assert(m[0].0 == "dt"@);
    assert(m[1].0 == "sunrise"@ && "sunrise"@[0] == 's');
    assert(m[2].0 == "sunset"@ && "sunset"@[0] == 's');
    assert(m[3].0 == "moonrise"@ && "moonrise"@[0] == 'm');
    assert(m[4].0 == "moonset"@ && "moonset"@[0] == 'm');
    assert(m[5].0 == "moon_phase"@ && "moon_phase"@[0] == 'm');
    assert(m[6].0 == "temp"@ && "temp"@[0] == 't');
    assert(m[7].0 == "feels_like"@ && "feels_like"@[0] == 'f');
    assert(m[8].0 == "pressure"@ && "pressure"@[0] == 'p');
    assert(m[9].0 == "humidity"@ && "humidity"@[0] == 'h');
    assert(m[10].0 == "dew_point"@ && "dew_point"@[0] == 'd');
    assert(m[11].0 == "wind_speed"@ && "wind_speed"@[0] == 'w');
    assert(m[12].0 == "wind_deg"@ && "wind_deg"@[0] == 'w');
    assert(m[13].0 == "wind_gust"@ && "wind_gust"@[0] == 'w');
    assert(m[14].0 == "weather"@ && "weather"@[0] == 'w');
    assert(m[15].0 == "clouds"@ && "clouds"@[0] == 'c');
    assert(m[16].0 == "pop"@ && "pop"@[0] == 'p');
    assert(m[17].0 == "uvi"@ && "uvi"@[0] == 'u');
    assert(m[18].0 == "rain"@ && "rain"@[0] == 'r');
    assert(m[19].0 == "snow"@ && "snow"@[0] == 's');
    lemma_lookup_skips(m, "dt"@, 1, 20);
    lemma_lookup_skips(m, "sunrise"@, 2, 20);
    lemma_lookup_skips(m, "sunset"@, 3, 20);
    lemma_lookup_skips(m, "moonrise"@, 4, 20);
    lemma_lookup_skips(m, "moonset"@, 5, 20);
    lemma_lookup_skips(m, "moon_phase"@, 6, 20);
    lemma_lookup_skips(m, "temp"@, 7, 20);
    lemma_lookup_skips(m, "feels_like"@, 8, 20);
    lemma_lookup_skips(m, "pressure"@, 9, 20);
    lemma_lookup_skips(m, "humidity"@, 10, 20);
    lemma_lookup_skips(m, "dew_point"@, 11, 20);
    lemma_lookup_skips(m, "wind_speed"@, 12, 20);
    lemma_lookup_skips(m, "wind_deg"@, 13, 20);
    lemma_lookup_skips(m, "wind_gust"@, 14, 20);
    lemma_lookup_skips(m, "weather"@, 15, 20);
    lemma_lookup_skips(m, "clouds"@, 16, 20);
    lemma_lookup_skips(m, "pop"@, 17, 20);
    lemma_lookup_skips(m, "uvi"@, 18, 20);
    lemma_lookup_skips(m, "rain"@, 19, 20);
}

/// The names of the members that a daily forecast must have.
pub open spec fn daily_required_names() -> Set<Seq<char>> {
    set![
        "dt"@,
        "sunrise"@,
        "sunset"@,
        "moonrise"@,
        "moonset"@,
        "moon_phase"@,
        "temp"@,
        "feels_like"@,
        "pressure"@,
        "humidity"@,
        "dew_point"@,
        "wind_speed"@,
        "wind_deg"@,
        "wind_gust"@,
        "weather"@,
        "clouds"@,
        "pop"@,
        "uvi"@,
    ]
}

/// A document that lacks a required member describes no daily forecast.
pub proof fn lemma_daily_requires(doc: JsonValue, name: Seq<char>)
    requires
        daily_required_names().contains(name),
        doc.member(name) is None,
    ensures
        decode_daily(doc) is None,
{
}

/// The names of the members that are read for a daily forecast.
pub open spec fn daily_names() -> Set<Seq<char>> {
    set![
        "dt"@,
        "sunrise"@,
        "sunset"@,
        "moonrise"@,
        "moonset"@,
        "moon_phase"@,
        "temp"@,
        "feels_like"@,
        "pressure"@,
        "humidity"@,
        "dew_point"@,
        "wind_speed"@,
        "wind_deg"@,
        "wind_gust"@,
        "weather"@,
        "clouds"@,
        "pop"@,
        "uvi"@,
        "rain"@,
        "snow"@,
    ]
}

/// Two documents that agree on every member that is read for a daily forecast describe the same
/// daily forecast, or both none: what else they hold has no say.
pub proof fn lemma_daily_reads_named_members(a: JsonValue, b: JsonValue)
    requires
        forall|name: Seq<char>|
            (#[trigger] daily_names().contains(name)) ==> a.member(name) == b.member(
                name,
            ),
    ensures
        decode_daily(a) == decode_daily(b),
{
    assert(daily_names().contains("dt"@));
    assert(daily_names().contains("sunrise"@));
    assert(daily_names().contains("sunset"@));
    assert(daily_names().contains("moonrise"@));
    assert(daily_names().contains("moonset"@));
    assert(daily_names().contains("moon_phase"@));
    assert(daily_names().contains("temp"@));
    assert(daily_names().contains("feels_like"@));
    assert(daily_names().contains("pressure"@));
    assert(daily_names().contains("humidity"@));
    assert(daily_names().contains("dew_point"@));
    assert(daily_names().contains("wind_speed"@));
    assert(daily_names().contains("wind_deg"@));
    assert(daily_names().contains("wind_gust"@));
    assert(daily_names().contains("weather"@));
    assert(daily_names().contains("clouds"@));
    assert(daily_names().contains("pop"@));
    assert(daily_names().contains("uvi"@));
    assert(daily_names().contains("rain"@));
    assert(daily_names().contains("snow"@));
}

/// A daily forecast that is written and read again is the daily forecast itself.
pub proof fn lemma_daily_round_trip(v: DailyView)
    ensures
        decode_daily(encode_daily(v)) == Some(v),
{
    lemma_daily_members(v);
    lemma_temp_round_trip(v.temp);
    lemma_feels_like_round_trip(v.feels_like);
    lemma_weather_list_round_trip(v.weather);
}

/// A run of daily forecasts that is written and read again is the run itself.
pub proof fn lemma_daily_list_round_trip(list: Seq<DailyView>)
    ensures
        decode_daily_list(encode_daily_list(list)->Array_0) == Some(list),
{
    let items = encode_daily_list(list)->Array_0;
    assert forall|i: int| 0 <= i < items.len() implies decode_daily(#[trigger] items[i]) == Some(
        list[i],
    ) by {
        lemma_daily_round_trip(list[i]);
    }
    assert(decode_daily_list(items)->0 =~= list);
}

/// In a daily forecast that is read from a document, the rain accumulation is
/// absent exactly where the document leaves `rain` out or gives it as null,
/// and so for snow: neither is a reason to refuse the document.
pub proof fn lemma_daily_accumulations(doc: JsonValue)
    requires
        decode_daily(doc) is Some,
    ensures
        decode_daily(doc)->0.rain is None <==> (doc.member("rain"@) is None || doc.member("rain"@)
            == Some(JsonValue::Null)),
        decode_daily(doc)->0.snow is None <==> (doc.member("snow"@) is None || doc.member("snow"@)
            == Some(JsonValue::Null)),
{
}

} // verus!
