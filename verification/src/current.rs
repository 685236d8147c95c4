//! The conditions at the time of the query.

use vstd::prelude::*;
use crate::conditions::{
    encode_weather_list, lemma_weather_list_round_trip, weather_list_field, weather_views, Weather,
    WeatherView,
};
use crate::decimal::Decimal;
use crate::fields::{decimal_field, integer_field, read_decimal, read_integer};
use crate::json::{lemma_lookup_skips, value_of, Json, JsonValue};

verus! {

/// The conditions at the time of the query. Times are seconds since the Unix epoch.
#[derive(Default, Debug, Clone, PartialEq)]
pub struct Current {
    pub dt: i64,
    pub sunrise: i64,
    pub sunset: i64,
    pub temp: Decimal,
    pub feels_like: Decimal,
    pub pressure: i64,
    pub humidity: i64,
    pub dew_point: Decimal,
    pub uvi: Decimal,
    /// Cloud cover, in percent.
    pub clouds: i64,
    pub visibility: i64,
    pub wind_speed: Decimal,
    pub wind_deg: i64,
    pub weather: Vec<Weather>,
}

/// The value of a [`Current`].
pub struct CurrentView {
    pub dt: i64,
    pub sunrise: i64,
    pub sunset: i64,
    pub temp: Seq<char>,
    pub feels_like: Seq<char>,
    pub pressure: i64,
    pub humidity: i64,
    pub dew_point: Seq<char>,
    pub uvi: Seq<char>,
    pub clouds: i64,
    pub visibility: i64,
    pub wind_speed: Seq<char>,
    pub wind_deg: i64,
    pub weather: Seq<WeatherView>,
}

impl View for Current {
    type V = CurrentView;

    open spec fn view(&self) -> CurrentView {
        CurrentView {
            dt: self.dt,
            sunrise: self.sunrise,
            sunset: self.sunset,
            temp: self.temp@,
            feels_like: self.feels_like@,
            pressure: self.pressure,
            humidity: self.humidity,
            dew_point: self.dew_point@,
            uvi: self.uvi@,
            clouds: self.clouds,
            visibility: self.visibility,
            wind_speed: self.wind_speed@,
            wind_deg: self.wind_deg,
            weather: weather_views(self.weather@),
        }
    }
}

/// The current conditions that `doc` describes: an object that has every member of [`Current`]
/// under its name and of its kind. `None` where one is missing or of another kind. Other members
/// are passed over.
pub open spec fn decode_current(doc: JsonValue) -> Option<CurrentView> {
    if {
        &&& integer_field(doc, "dt"@) is Some
        &&& integer_field(doc, "sunrise"@) is Some
        &&& integer_field(doc, "sunset"@) is Some
        &&& decimal_field(doc, "temp"@) is Some
        &&& decimal_field(doc, "feels_like"@) is Some
        &&& integer_field(doc, "pressure"@) is Some
        &&& integer_field(doc, "humidity"@) is Some
        &&& decimal_field(doc, "dew_point"@) is Some
        &&& decimal_field(doc, "uvi"@) is Some
        &&& integer_field(doc, "clouds"@) is Some
        &&& integer_field(doc, "visibility"@) is Some
        &&& decimal_field(doc, "wind_speed"@) is Some
        &&& integer_field(doc, "wind_deg"@) is Some
        &&& weather_list_field(doc, "weather"@) is Some
    } {
        Some(
            CurrentView {
                dt: integer_field(doc, "dt"@)->0,
                sunrise: integer_field(doc, "sunrise"@)->0,
                sunset: integer_field(doc, "sunset"@)->0,
                temp: decimal_field(doc, "temp"@)->0,
                feels_like: decimal_field(doc, "feels_like"@)->0,
                pressure: integer_field(doc, "pressure"@)->0,
                humidity: integer_field(doc, "humidity"@)->0,
                dew_point: decimal_field(doc, "dew_point"@)->0,
                uvi: decimal_field(doc, "uvi"@)->0,
                clouds: integer_field(doc, "clouds"@)->0,
                visibility: integer_field(doc, "visibility"@)->0,
                wind_speed: decimal_field(doc, "wind_speed"@)->0,
                wind_deg: integer_field(doc, "wind_deg"@)->0,
                weather: weather_list_field(doc, "weather"@)->0,
            },
        )
    } else {
        None
    }
}

/// The record of current conditions held by member `name` of `doc`.
pub open spec fn current_field(doc: JsonValue, name: Seq<char>) -> Option<CurrentView> {
    match doc.member(name) {
        Some(v) => decode_current(v),
        None => None,
    }
}

/// The members of the object written for a record of current conditions.
pub open spec fn current_members(v: CurrentView) -> Seq<(Seq<char>, JsonValue)> {
    seq![
        ("dt"@, JsonValue::Integer(v.dt)),
        ("sunrise"@, JsonValue::Integer(v.sunrise)),
        ("sunset"@, JsonValue::Integer(v.sunset)),
        ("temp"@, JsonValue::Decimal(v.temp)),
        ("feels_like"@, JsonValue::Decimal(v.feels_like)),
        ("pressure"@, JsonValue::Integer(v.pressure)),
        ("humidity"@, JsonValue::Integer(v.humidity)),
        ("dew_point"@, JsonValue::Decimal(v.dew_point)),
        ("uvi"@, JsonValue::Decimal(v.uvi)),
        ("clouds"@, JsonValue::Integer(v.clouds)),
        ("visibility"@, JsonValue::Integer(v.visibility)),
        ("wind_speed"@, JsonValue::Decimal(v.wind_speed)),
        ("wind_deg"@, JsonValue::Integer(v.wind_deg)),
        ("weather"@, encode_weather_list(v.weather)),
    ]
}

/// The document written for a record of current conditions.
pub open spec fn encode_current(v: CurrentView) -> JsonValue {
    JsonValue::Object(current_members(v))
}

impl Current {
    /// Reads a record of current conditions from `doc`.
    pub fn decode(doc: &Json) -> (r: Option<Current>)
        ensures
            match r {
                Some(x) => decode_current(doc@) == Some(x@),
                None => decode_current(doc@).is_none(),
            },
    {
        let dt = read_integer(doc, "dt")?;
        let sunrise = read_integer(doc, "sunrise")?;
        let sunset = read_integer(doc, "sunset")?;
        let temp = read_decimal(doc, "temp")?;
        let feels_like = read_decimal(doc, "feels_like")?;
        let pressure = read_integer(doc, "pressure")?;
        let humidity = read_integer(doc, "humidity")?;
        let dew_point = read_decimal(doc, "dew_point")?;
        let uvi = read_decimal(doc, "uvi")?;
        let clouds = read_integer(doc, "clouds")?;
        let visibility = read_integer(doc, "visibility")?;
        let wind_speed = read_decimal(doc, "wind_speed")?;
        let wind_deg = read_integer(doc, "wind_deg")?;
        let weather = Weather::read_list(doc, "weather")?;
        Some(
            Current {
                dt,
                sunrise,
                sunset,
                temp,
                feels_like,
                pressure,
                humidity,
                dew_point,
                uvi,
                clouds,
                visibility,
                wind_speed,
                wind_deg,
                weather,
            },
        )
    }

    /// Reads a record of current conditions from member `name` of `doc`.
    pub fn read(doc: &Json, name: &str) -> (r: Option<Current>)
        ensures
            match r {
                Some(x) => current_field(doc@, name@) == Some(x@),
                None => current_field(doc@, name@).is_none(),
            },
    {
        match doc.member(name) {
            Some(v) => Current::decode(v),
            None => None,
        }
    }

    /// Writes this record of current conditions as a document.
    pub fn encode(&self) -> (r: Json)
        ensures
            r@ == encode_current(self@),
    {
        let mut members: Vec<(String, Json)> = Vec::new();
        members.push((String::from_str("dt"), Json::Integer(self.dt)));
        members.push((String::from_str("sunrise"), Json::Integer(self.sunrise)));
        members.push((String::from_str("sunset"), Json::Integer(self.sunset)));
        members.push((String::from_str("temp"), Json::Decimal(self.temp.clone())));
        members.push((String::from_str("feels_like"), Json::Decimal(self.feels_like.clone())));
        members.push((String::from_str("pressure"), Json::Integer(self.pressure)));
        members.push((String::from_str("humidity"), Json::Integer(self.humidity)));
        members.push((String::from_str("dew_point"), Json::Decimal(self.dew_point.clone())));
        members.push((String::from_str("uvi"), Json::Decimal(self.uvi.clone())));
        members.push((String::from_str("clouds"), Json::Integer(self.clouds)));
        members.push((String::from_str("visibility"), Json::Integer(self.visibility)));
        members.push((String::from_str("wind_speed"), Json::Decimal(self.wind_speed.clone())));
        members.push((String::from_str("wind_deg"), Json::Integer(self.wind_deg)));
        members.push((String::from_str("weather"), Weather::encode_list(&self.weather)));
        let r = Json::Object(members);
        proof {
            reveal_with_fuel(value_of, 2);
            let got = r@->Object_0;
            let want = current_members(self@);
            assert(got.len() == 14 && want.len() == 14);
            assert(got[0] == want[0]);
            assert(got[1] == want[1]);
            assert(got[2] == want[2]);
            assert(got[3] == want[3]);
            assert(got[4] == want[4]);
            assert(got[5] == want[5]);
            assert(got[6] == want[6]);
            assert(got[7] == want[7]);
            assert(got[8] == want[8]);
            assert(got[9] == want[9]);
            assert(got[10] == want[10]);
            assert(got[11] == want[11]);
            assert(got[12] == want[12]);
            assert(got[13] == want[13]);
            assert(got =~= want);
        }
        r
    }
}

/// Each member that is written for a record of current conditions is found again under its name.
pub proof fn lemma_current_members(v: CurrentView)
    ensures
        encode_current(v).member("dt"@) == Some(JsonValue::Integer(v.dt)),
        encode_current(v).member("sunrise"@) == Some(JsonValue::Integer(v.sunrise)),
        encode_current(v).member("sunset"@) == Some(JsonValue::Integer(v.sunset)),
        encode_current(v).member("temp"@) == Some(JsonValue::Decimal(v.temp)),
        encode_current(v).member("feels_like"@) == Some(JsonValue::Decimal(v.feels_like)),
        encode_current(v).member("pressure"@) == Some(JsonValue::Integer(v.pressure)),
        encode_current(v).member("humidity"@) == Some(JsonValue::Integer(v.humidity)),
        encode_current(v).member("dew_point"@) == Some(JsonValue::Decimal(v.dew_point)),
        encode_current(v).member("uvi"@) == Some(JsonValue::Decimal(v.uvi)),
        encode_current(v).member("clouds"@) == Some(JsonValue::Integer(v.clouds)),
        encode_current(v).member("visibility"@) == Some(JsonValue::Integer(v.visibility)),
        encode_current(v).member("wind_speed"@) == Some(JsonValue::Decimal(v.wind_speed)),
        encode_current(v).member("wind_deg"@) == Some(JsonValue::Integer(v.wind_deg)),
        encode_current(v).member("weather"@) == Some(encode_weather_list(v.weather)),
{
    let m = current_members(v);
    reveal_strlit("dt");
    reveal_strlit("sunrise");
    reveal_strlit("sunset");
    reveal_strlit("temp");
    reveal_strlit("feels_like");
    reveal_strlit("pressure");
    reveal_strlit("humidity");
    reveal_strlit("dew_point");
    reveal_strlit("uvi");
    reveal_strlit("clouds");
    reveal_strlit("visibility");
    reveal_strlit("wind_speed");
    reveal_strlit("wind_deg");
    reveal_strlit("weather");
    assert(m[0].0 == "dt"@);
    assert(m[1].0 == "sunrise"@ && "sunrise"@[0] == 's');
    assert(m[2].0 == "sunset"@ && "sunset"@[0] == 's');
    assert(m[3].0 == "temp"@);
    assert(m[4].0 == "feels_like"@ && "feels_like"@[0] == 'f');
    assert(m[5].0 == "pressure"@ && "pressure"@[0] == 'p');
    assert(m[6].0 == "humidity"@ && "humidity"@[0] == 'h');
    assert(m[7].0 == "dew_point"@);
    assert(m[8].0 == "uvi"@);
    assert(m[9].0 == "clouds"@ && "clouds"@[0] == 'c');
    assert(m[10].0 == "visibility"@ && "visibility"@[0] == 'v');
    assert(m[11].0 == "wind_speed"@ && "wind_speed"@[0] == 'w');
    assert(m[12].0 == "wind_deg"@ && "wind_deg"@[0] == 'w');
    assert(m[13].0 == "weather"@ && "weather"@[0] == 'w');
    lemma_lookup_skips(m, "dt"@, 1, 14);
    lemma_lookup_skips(m, "sunrise"@, 2, 14);
    lemma_lookup_skips(m, "sunset"@, 3, 14);
    lemma_lookup_skips(m, "temp"@, 4, 14);
    lemma_lookup_skips(m, "feels_like"@, 5, 14);
    lemma_lookup_skips(m, "pressure"@, 6, 14);
    lemma_lookup_skips(m, "humidity"@, 7, 14);
    lemma_lookup_skips(m, "dew_point"@, 8, 14);
    lemma_lookup_skips(m, "uvi"@, 9, 14);
    lemma_lookup_skips(m, "clouds"@, 10, 14);
    lemma_lookup_skips(m, "visibility"@, 11, 14);
    lemma_lookup_skips(m, "wind_speed"@, 12, 14);
    lemma_lookup_skips(m, "wind_deg"@, 13, 14);
}

/// The names of the members that a record of current conditions must have.
pub open spec fn current_required_names() -> Set<Seq<char>> {
    set![
        "dt"@,
        "sunrise"@,
        "sunset"@,
        "temp"@,
        "feels_like"@,
        "pressure"@,
        "humidity"@,
        "dew_point"@,
        "uvi"@,
        "clouds"@,
        "visibility"@,
        "wind_speed"@,
        "wind_deg"@,
        "weather"@,
    ]
}

/// A document that lacks a required member describes no record of current conditions.
pub proof fn lemma_current_requires(doc: JsonValue, name: Seq<char>)
    requires
        current_required_names().contains(name),
        doc.member(name) is None,
    ensures
        decode_current(doc) is None,
{
}

/// The names of the members that are read for a record of current conditions.
pub open spec fn current_names() -> Set<Seq<char>> {
    set![
        "dt"@,
        "sunrise"@,
        "sunset"@,
        "temp"@,
        "feels_like"@,
        "pressure"@,
        "humidity"@,
        "dew_point"@,
        "uvi"@,
        "clouds"@,
        "visibility"@,
        "wind_speed"@,
        "wind_deg"@,
        "weather"@,
    ]
}

/// Two documents that agree on every member that is read for a record of current conditions
/// describe the same record of current conditions, or both none: what else they hold has no say.
pub proof fn lemma_current_reads_named_members(a: JsonValue, b: JsonValue)
    requires
        forall|name: Seq<char>|
            (#[trigger] current_names().contains(name)) ==> a.member(name) == b.member(
                name,
            ),
    ensures
        decode_current(a) == decode_current(b),
{
    assert(current_names().contains("dt"@));
    assert(current_names().contains("sunrise"@));
    assert(current_names().contains("sunset"@));
    assert(current_names().contains("temp"@));
    assert(current_names().contains("feels_like"@));
    assert(current_names().contains("pressure"@));
    assert(current_names().contains("humidity"@));
    assert(current_names().contains("dew_point"@));
    assert(current_names().contains("uvi"@));
    assert(current_names().contains("clouds"@));
    assert(current_names().contains("visibility"@));
    assert(current_names().contains("wind_speed"@));
    assert(current_names().contains("wind_deg"@));
    assert(current_names().contains("weather"@));
}

/// A record of current conditions that is written and read again is the record of current
/// conditions itself.
pub proof fn lemma_current_round_trip(v: CurrentView)
    ensures
        decode_current(encode_current(v)) == Some(v),
{
    lemma_current_members(v);
    lemma_weather_list_round_trip(v.weather);
}

} // verus!
