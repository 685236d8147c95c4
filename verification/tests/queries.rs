use weather_relay::decimal::Decimal;
use weather_relay::payload::Endpoint;
use weather_relay::query::{
    write_exclusions, Coordinates, Section, UpstreamQuery, UPSTREAM_TIMEOUT_SECONDS,
};

fn place(lat: &str, lon: &str) -> Coordinates {
    Coordinates::new(Decimal::new(lat), Decimal::new(lon))
}

#[test]
fn a_request_without_a_place_is_answered_for_the_origin() {
    let resolved = Coordinates::resolve(None);
    assert_eq!(resolved, place("0", "0"));
    assert_eq!(resolved, Coordinates::origin());
    assert_eq!(Coordinates::resolve(None), Coordinates::resolve(None));
    assert_eq!(resolved.lat.as_str().parse::<f64>(), Ok(0.0));
    assert_eq!(resolved.lon.as_str().parse::<f64>(), Ok(0.0));
}

#[test]
fn a_request_with_a_place_is_answered_for_it() {
    assert_eq!(Coordinates::resolve(Some(place("40.7", "-74"))), place("40.7", "-74"));
    assert_eq!(Coordinates::resolve(Some(place("95", "-200.5"))), place("95", "-200.5"));
    assert_eq!(place("1", "2").clone(), place("1", "2"));
}

#[test]
fn exclusions_are_written_with_commas_between() {
    assert_eq!(write_exclusions(&vec![]), "");
    assert_eq!(write_exclusions(&vec![Section::Alerts]), "alerts");
    assert_eq!(
        write_exclusions(&vec![
            Section::Current,
            Section::Minutely,
            Section::Hourly,
            Section::Daily,
            Section::Alerts
        ]),
        "current,minutely,hourly,daily,alerts"
    );
    assert_eq!(Section::Hourly.as_str(), "hourly");
}

#[test]
fn each_endpoint_leaves_out_all_but_what_it_relays() {
    assert_eq!(
        Endpoint::Daily.exclude(),
        vec![Section::Minutely, Section::Current, Section::Hourly]
    );
    assert_eq!(
        Endpoint::Current.exclude(),
        vec![Section::Minutely, Section::Hourly, Section::Daily]
    );
}

#[test]
fn the_request_for_a_daily_forecast_is_built_to_the_letter() {
    let query =
        UpstreamQuery::for_endpoint(Endpoint::Daily, place("40.7", "-74"), String::from("k3y"));
    let request = query.build();
    assert_eq!(
        request.url,
        "https://api.openweathermap.org/data/2.5/onecall?lat=40.7&lon=-74\
         &exclude=minutely,current,hourly&appid=k3y"
    );
    assert_eq!(
        request.headers,
        vec![
            (String::from("content-type"), String::from("application/json")),
            (String::from("accept"), String::from("application/json")),
        ]
    );
    assert_eq!(request.timeout_seconds, 10);
    assert_eq!(UPSTREAM_TIMEOUT_SECONDS, 10);
}

#[test]
fn the_request_for_current_conditions_at_the_origin() {
    let query =
        UpstreamQuery::for_endpoint(Endpoint::Current, Coordinates::resolve(None), String::new());
    assert_eq!(
        query.build().url,
        "https://api.openweathermap.org/data/2.5/onecall?lat=0&lon=0\
         &exclude=minutely,hourly,daily&appid="
    );
}

#[test]
fn a_place_off_the_globe_is_passed_on_as_it_came() {
    let query = UpstreamQuery::new(place("123.5", "-500"), vec![], String::from("k"));
    assert_eq!(query.coordinates(), &place("123.5", "-500"));
    assert_eq!(query.exclude(), &Vec::<Section>::new());
    assert_eq!(query.api_key(), "k");
    assert_eq!(
        query.build().url,
        "https://api.openweathermap.org/data/2.5/onecall?lat=123.5&lon=-500&exclude=&appid=k"
    );
}
