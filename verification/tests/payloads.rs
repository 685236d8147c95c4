use weather_relay::conditions::Weather;
use weather_relay::current::Current;
use weather_relay::daily::{Daily, FeelsLike, Temp};
use weather_relay::decimal::Decimal;
use weather_relay::json::Json;
use weather_relay::payload::{Endpoint, WeatherPayload};
use weather_relay::response::{CurrentWeather, WeatherResponse};

const DAY: &str = "{\"dt\":1700040000,\"sunrise\":1700020000,\"sunset\":1700055000,\
\"moonrise\":1700030000,\"moonset\":1700065000,\"moon_phase\":0.25,\
\"temp\":{\"day\":283.1,\"min\":279,\"max\":285.5,\"night\":280.2,\"eve\":282.0,\"morn\":279.4},\
\"feels_like\":{\"day\":281.0,\"night\":278.1,\"eve\":280.3,\"morn\":277.7},\
\"pressure\":1015,\"humidity\":60,\"dew_point\":275.0,\"wind_speed\":3.1,\"wind_deg\":200,\
\"wind_gust\":5.6,\"weather\":[{\"id\":500,\"main\":\"Rain\",\"description\":\"light rain\",\
\"icon\":\"10d\"}],\"clouds\":75,\"pop\":0.4,\"uvi\":1,\"rain\":2.5}";

fn dec(text: &str) -> Decimal {
    Decimal::new(text)
}

fn parse(text: &str) -> Json {
    Json::parse(text.as_bytes()).unwrap()
}

fn day() -> Daily {
    Daily {
        dt: 1700040000,
        sunrise: 1700020000,
        sunset: 1700055000,
        moonrise: 1700030000,
        moonset: 1700065000,
        moon_phase: dec("0.25"),
        temp: Temp {
            day: dec("283.1"),
            min: dec("279.0"),
            max: dec("285.5"),
            night: dec("280.2"),
            eve: dec("282.0"),
            morn: dec("279.4"),
        },
        feels_like: FeelsLike {
            day: dec("281.0"),
            night: dec("278.1"),
            eve: dec("280.3"),
            morn: dec("277.7"),
        },
        pressure: 1015,
        humidity: 60,
        dew_point: dec("275.0"),
        wind_speed: dec("3.1"),
        wind_deg: 200,
        wind_gust: dec("5.6"),
        weather: vec![Weather {
            id: 500,
            main: String::from("Rain"),
            description: String::from("light rain"),
            icon: String::from("10d"),
        }],
        clouds: 75,
        pop: dec("0.4"),
        uvi: dec("1.0"),
        rain: Some(dec("2.5")),
        snow: None,
    }
}

fn without(doc: &str, member: &str) -> String {
    let start = doc.find(&format!("\"{}\":", member)).unwrap();
    let rest = &doc[start..];
    let mut depth = 0;
    let mut end = rest.len();
    for (i, c) in rest.char_indices() {
        match c {
            '{' | '[' => depth += 1,
            '}' | ']' if depth > 0 => depth -= 1,
            '}' | ']' => {
                end = i;
                break;
            }
            ',' if depth == 0 => {
                end = i + 1;
                break;
            }
            _ => {}
        }
    }
    let mut out = String::from(&doc[..start]);
    out.push_str(&rest[end..]);
    if out.ends_with(",}") {
        out.truncate(out.len() - 2);
        out.push('}');
    }
    out
}

#[test]
fn weather_is_read_member_by_member() {
    let doc = parse("{\"id\":800,\"main\":\"Clear\",\"description\":\"clear sky\",\"icon\":\"01d\"}");
    assert_eq!(
        Weather::decode(&doc),
        Some(Weather {
            id: 800,
            main: String::from("Clear"),
            description: String::from("clear sky"),
            icon: String::from("01d"),
        })
    );
}

#[test]
fn weather_without_a_member_or_with_one_of_another_kind_is_refused() {
    assert_eq!(Weather::decode(&parse("{\"id\":800,\"main\":\"Clear\",\"icon\":\"01d\"}")), None);
    assert_eq!(
        Weather::decode(&parse(
            "{\"id\":\"800\",\"main\":\"Clear\",\"description\":\"clear sky\",\"icon\":\"01d\"}"
        )),
        None
    );
    assert_eq!(
        Weather::decode(&parse(
            "{\"id\":800.5,\"main\":\"Clear\",\"description\":\"clear sky\",\"icon\":\"01d\"}"
        )),
        None
    );
    assert_eq!(
        Weather::decode(&parse(
            "{\"id\":800,\"main\":null,\"description\":\"clear sky\",\"icon\":\"01d\"}"
        )),
        None
    );
    assert_eq!(Weather::decode(&parse("[800,\"Clear\",\"clear sky\",\"01d\"]")), None);
    assert_eq!(Weather::decode(&Json::Null), None);
}

#[test]
fn weather_list_is_read_in_order_and_refused_for_one_bad_item() {
    let good = parse(
        "[{\"id\":1,\"main\":\"a\",\"description\":\"b\",\"icon\":\"c\"},\
          {\"id\":2,\"main\":\"d\",\"description\":\"e\",\"icon\":\"f\"}]",
    );
    let list = Weather::decode_list(good.as_array().unwrap()).unwrap();
    assert_eq!(list.len(), 2);
    assert_eq!(list[0].id, 1);
    assert_eq!(list[1].id, 2);
    assert_eq!(list[1].icon, "f");
    let bad = parse("[{\"id\":1,\"main\":\"a\",\"description\":\"b\",\"icon\":\"c\"},{\"id\":2}]");
    assert_eq!(Weather::decode_list(bad.as_array().unwrap()), None);
    assert_eq!(Weather::decode_list(&Vec::new()), Some(Vec::new()));
}

#[test]
fn daily_is_read_member_by_member() {
    assert_eq!(Daily::decode(&parse(DAY)), Some(day()));
}

#[test]
fn daily_reads_an_integer_where_a_decimal_is_asked_for() {
    let read = Daily::decode(&parse(DAY)).unwrap();
    assert_eq!(read.uvi, dec("1.0"));
    assert_eq!(read.temp.min, dec("279.0"));
}

#[test]
fn daily_refuses_a_decimal_where_an_integer_is_asked_for() {
    let doc = DAY.replace("\"pressure\":1015", "\"pressure\":1015.0");
    assert_eq!(Daily::decode(&parse(&doc)), None);
    let doc = DAY.replace("\"dt\":1700040000", "\"dt\":1.70004e9");
    assert_eq!(Daily::decode(&parse(&doc)), None);
    let doc = DAY.replace("\"humidity\":60", "\"humidity\":18446744073709551615");
    assert_eq!(Daily::decode(&parse(&doc)), None);
}

#[test]
fn daily_takes_rain_and_snow_as_they_come() {
    let read = Daily::decode(&parse(DAY)).unwrap();
    assert_eq!(read.rain, Some(dec("2.5")));
    assert_eq!(read.snow, None);
    let doc = DAY.replace("\"rain\":2.5", "\"rain\":null,\"snow\":3");
    let read = Daily::decode(&parse(&doc)).unwrap();
    assert_eq!(read.rain, None);
    assert_eq!(read.snow, Some(dec("3.0")));
    let read = Daily::decode(&parse(&without(DAY, "rain"))).unwrap();
    assert_eq!(read.rain, None);
    assert_eq!(read.snow, None);
}

#[test]
fn daily_refuses_rain_that_is_no_number() {
    let doc = DAY.replace("\"rain\":2.5", "\"rain\":\"heavy\"");
    assert_eq!(Daily::decode(&parse(&doc)), None);
    let doc = DAY.replace("\"rain\":2.5", "\"rain\":{\"1h\":2.5}");
    assert_eq!(Daily::decode(&parse(&doc)), None);
}

#[test]
fn daily_refuses_a_document_without_a_required_member() {
    for member in [
        "dt", "sunrise", "sunset", "moonrise", "moonset", "moon_phase", "temp", "feels_like",
        "pressure", "humidity", "dew_point", "wind_speed", "wind_deg", "wind_gust", "weather",
        "clouds", "pop", "uvi",
    ] {
        let doc = without(DAY, member);
        assert!(Json::parse(doc.as_bytes()).is_some(), "{}", member);
        assert_eq!(Daily::decode(&parse(&doc)), None, "{}", member);
    }
}

#[test]
fn daily_refuses_a_breakdown_without_a_member() {
    let doc = DAY.replace("\"min\":279,", "");
    assert_eq!(Daily::decode(&parse(&doc)), None);
    let doc = DAY.replace(",\"morn\":277.7", "");
    assert_eq!(Daily::decode(&parse(&doc)), None);
    let doc = DAY.replace("\"eve\":280.3", "\"eve\":\"mild\"");
    assert_eq!(Daily::decode(&parse(&doc)), None);
}

#[test]
fn daily_passes_over_members_it_does_not_know() {
    let doc = DAY.replace("\"clouds\":75", "\"clouds\":75,\"summary\":\"wet\",\"alerts\":[1,2]");
    assert_eq!(Daily::decode(&parse(&doc)), Some(day()));
}

#[test]
fn daily_written_and_read_again_is_unchanged() {
    let written = day().encode();
    assert_eq!(Daily::decode(&written), Some(day()));
    let mut dry = day();
    dry.rain = None;
    dry.snow = Some(dec("0.3"));
    assert_eq!(Daily::decode(&dry.encode()), Some(dry));
}

#[test]
fn daily_is_written_with_every_member_and_null_for_what_is_absent() {
    let written = day().encode();
    assert_eq!(written.member("dt"), Some(&Json::Integer(1700040000)));
    assert_eq!(written.member("pop"), Some(&Json::Decimal(dec("0.4"))));
    assert_eq!(written.member("rain"), Some(&Json::Decimal(dec("2.5"))));
    assert_eq!(written.member("snow"), Some(&Json::Null));
    assert_eq!(
        written.member("feels_like").unwrap().member("eve"),
        Some(&Json::Decimal(dec("280.3")))
    );
    assert_eq!(written.member("weather").unwrap().as_array().unwrap().len(), 1);
}

#[test]
fn daily_list_is_read_and_written_in_order() {
    let mut second = day();
    second.dt = 1700126400;
    let days = vec![day(), second];
    let written = Daily::encode_list(&days);
    assert_eq!(written.as_array().unwrap().len(), 2);
    assert_eq!(Daily::decode_list(written.as_array().unwrap()), Some(days));
}

#[test]
fn temp_and_feels_like_are_read_and_written() {
    let temp = Temp::decode(&parse(
        "{\"day\":1.5,\"min\":-2,\"max\":3.25,\"night\":0.0,\"eve\":1,\"morn\":-1.5}",
    ))
    .unwrap();
    assert_eq!(temp.min, dec("-2.0"));
    assert_eq!(temp.night, dec("0.0"));
    assert_eq!(Temp::decode(&temp.encode()), Some(temp));
    let feels = FeelsLike::decode(&parse("{\"day\":1,\"night\":2,\"eve\":3,\"morn\":4}")).unwrap();
    assert_eq!(feels.morn, dec("4.0"));
    assert_eq!(FeelsLike::decode(&feels.encode()), Some(feels));
    assert_eq!(FeelsLike::decode(&parse("{\"day\":1,\"night\":2,\"eve\":3}")), None);
}

#[test]
fn current_is_read_and_written() {
    let doc = parse(
        "{\"dt\":1700000000,\"sunrise\":1699960000,\"sunset\":1699995000,\"temp\":283.1,\
          \"feels_like\":281.0,\"pressure\":1015,\"humidity\":60,\"dew_point\":275.0,\"uvi\":1,\
          \"clouds\":20,\"visibility\":10000,\"wind_speed\":3.1,\"wind_deg\":200,\"weather\":[]}",
    );
    let read = Current::decode(&doc).unwrap();
    assert_eq!(read.dt, 1700000000);
    assert_eq!(read.temp, dec("283.1"));
    assert_eq!(read.uvi, dec("1.0"));
    assert_eq!(read.visibility, 10000);
    assert!(read.weather.is_empty());
    assert_eq!(Current::decode(&read.encode()), Some(read));
}

#[test]
fn answers_are_read_for_the_endpoint_that_asks() {
    let daily = format!(
        "{{\"lat\":40.7,\"lon\":-74,\"timezone\":\"America/New_York\",\"timezone_offset\":-18000,\
          \"daily\":[{}]}}",
        DAY
    );
    let doc = parse(&daily);
    let expected = WeatherResponse {
        lat: dec("40.7"),
        lon: dec("-74.0"),
        timezone: String::from("America/New_York"),
        timezone_offset: -18000,
        daily: vec![day()],
    };
    assert_eq!(WeatherResponse::decode(&doc), Some(expected.clone()));
    assert_eq!(
        WeatherPayload::decode(Endpoint::Daily, &doc),
        Some(WeatherPayload::Daily(expected.clone()))
    );
    assert_eq!(WeatherPayload::decode(Endpoint::Current, &doc), None);
    assert_eq!(CurrentWeather::decode(&doc), None);
    let payload = WeatherPayload::Daily(expected);
    assert_eq!(payload.endpoint(), Endpoint::Daily);
    assert_eq!(WeatherPayload::decode(Endpoint::Daily, &payload.encode()), Some(payload));
}

#[test]
fn defaults_hold_zeros_and_nothing_else() {
    let day = Daily::default();
    assert_eq!(day.dt, 0);
    assert_eq!(day.pop, Decimal::zero());
    assert_eq!(day.rain, None);
    assert!(day.weather.is_empty());
    assert_eq!(WeatherResponse::default().timezone, "");
}
