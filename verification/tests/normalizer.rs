use weather_relay::decimal::Decimal;
use weather_relay::json::Json;
use weather_relay::normalize::{
    body_is_read, classify, classify_document, normalize, normalize_document, Failure, Outcome,
};
use weather_relay::payload::{Endpoint, WeatherPayload};

const CURRENT_BODY: &str = "{\"lat\":40.7,\"lon\":-74.0,\"timezone\":\"America/New_York\",\
\"timezone_offset\":-18000,\"current\":{\"dt\":1700000000,\"sunrise\":1699960000,\
\"sunset\":1699995000,\"temp\":283.1,\"feels_like\":281.0,\"pressure\":1015,\"humidity\":60,\
\"dew_point\":275.0,\"uvi\":1,\"clouds\":20,\"visibility\":10000,\"wind_speed\":3.1,\
\"wind_deg\":200,\"weather\":[{\"id\":800,\"main\":\"Clear\",\"description\":\"clear sky\",\
\"icon\":\"01d\"}]}}";

const DAILY_BODY: &str = "{\"lat\":51.5,\"lon\":-0.12,\"timezone\":\"Europe/London\",\
\"timezone_offset\":0,\"daily\":[]}";

fn bad_request(code: u16) -> Outcome {
    Outcome::ClientError { code, message: String::from("Bad Request") }
}

#[test]
fn a_well_formed_body_is_told_member_for_member() {
    let outcome = normalize(Endpoint::Current, 200, CURRENT_BODY.as_bytes());
    let Outcome::Success(WeatherPayload::Current(answer)) = outcome else {
        panic!("no success: {:?}", outcome);
    };
    assert_eq!(answer.lat, Decimal::new("40.7"));
    assert_eq!(answer.lon, Decimal::new("-74.0"));
    assert_eq!(answer.timezone, "America/New_York");
    assert_eq!(answer.timezone_offset, -18000);
    assert_eq!(answer.current.dt, 1700000000);
    assert_eq!(answer.current.sunrise, 1699960000);
    assert_eq!(answer.current.sunset, 1699995000);
    assert_eq!(answer.current.temp, Decimal::new("283.1"));
    assert_eq!(answer.current.feels_like, Decimal::new("281.0"));
    assert_eq!(answer.current.pressure, 1015);
    assert_eq!(answer.current.humidity, 60);
    assert_eq!(answer.current.dew_point, Decimal::new("275.0"));
    assert_eq!(answer.current.uvi, Decimal::new("1.0"));
    assert_eq!(answer.current.clouds, 20);
    assert_eq!(answer.current.visibility, 10000);
    assert_eq!(answer.current.wind_speed, Decimal::new("3.1"));
    assert_eq!(answer.current.wind_deg, 200);
    assert_eq!(answer.current.weather.len(), 1);
    assert_eq!(answer.current.weather[0].id, 800);
    assert_eq!(answer.current.weather[0].main, "Clear");
    assert_eq!(answer.current.weather[0].description, "clear sky");
    assert_eq!(answer.current.weather[0].icon, "01d");
}

#[test]
fn a_daily_body_without_days_is_a_success() {
    let outcome = normalize(Endpoint::Daily, 200, DAILY_BODY.as_bytes());
    let Outcome::Success(WeatherPayload::Daily(answer)) = outcome else {
        panic!("no success: {:?}", outcome);
    };
    assert_eq!(answer.lat, Decimal::new("51.5"));
    assert!(answer.daily.is_empty());
}

#[test]
fn what_was_written_for_a_payload_is_told_as_that_payload() {
    let Outcome::Success(payload) = normalize(Endpoint::Current, 200, CURRENT_BODY.as_bytes())
    else {
        panic!("no success");
    };
    let written = payload.encode().render();
    assert_eq!(normalize(Endpoint::Current, 200, written.as_bytes()), Outcome::Success(payload));
}

#[test]
fn any_other_status_is_a_bad_request_whatever_the_body() {
    for status in [0, 100, 199, 201, 204, 301, 400, 402, 403, 404, 429, 500, 502, 503, 65535] {
        for body in [CURRENT_BODY, DAILY_BODY, "", "not json", "{}"] {
            assert_eq!(normalize(Endpoint::Current, status, body.as_bytes()), bad_request(400));
            assert_eq!(normalize(Endpoint::Daily, status, body.as_bytes()), bad_request(400));
        }
    }
}

#[test]
fn unauthorized_is_passed_on_whatever_the_body() {
    for body in [CURRENT_BODY, DAILY_BODY, "", "not json", "{\"cod\":401}"] {
        assert_eq!(normalize(Endpoint::Current, 401, body.as_bytes()), bad_request(401));
        assert_eq!(normalize(Endpoint::Daily, 401, body.as_bytes()), bad_request(401));
    }
}

#[test]
fn a_body_without_temp_is_a_bad_request() {
    let body = CURRENT_BODY.replace("\"temp\":283.1,", "");
    assert!(Json::parse(body.as_bytes()).is_some());
    assert_eq!(normalize(Endpoint::Current, 200, body.as_bytes()), bad_request(400));
}

#[test]
fn a_body_without_a_member_of_the_envelope_is_a_bad_request() {
    for member in ["\"lat\":40.7,", "\"lon\":-74.0,", "\"timezone\":\"America/New_York\",",
        "\"timezone_offset\":-18000,"]
    {
        let body = CURRENT_BODY.replace(member, "");
        assert!(Json::parse(body.as_bytes()).is_some());
        assert_eq!(normalize(Endpoint::Current, 200, body.as_bytes()), bad_request(400));
    }
    assert_eq!(normalize(Endpoint::Daily, 200, CURRENT_BODY.as_bytes()), bad_request(400));
    assert_eq!(normalize(Endpoint::Current, 200, DAILY_BODY.as_bytes()), bad_request(400));
}

#[test]
fn a_body_that_is_no_json_is_a_bad_request() {
    for body in ["", "<html>", "{\"lat\":", "[1,2", "\u{feff}{}"] {
        assert_eq!(normalize(Endpoint::Current, 200, body.as_bytes()), bad_request(400));
    }
    assert_eq!(normalize(Endpoint::Current, 200, &[0xc3, 0x28]), bad_request(400));
}

#[test]
fn a_body_with_a_member_of_another_kind_is_a_bad_request() {
    let body = CURRENT_BODY.replace("\"temp\":283.1", "\"temp\":\"283.1\"");
    assert_eq!(normalize(Endpoint::Current, 200, body.as_bytes()), bad_request(400));
    let body = CURRENT_BODY.replace("\"weather\":[", "\"weather\":[7,");
    assert_eq!(normalize(Endpoint::Current, 200, body.as_bytes()), bad_request(400));
    let body = DAILY_BODY.replace("\"daily\":[]", "\"daily\":{}");
    assert_eq!(normalize(Endpoint::Daily, 200, body.as_bytes()), bad_request(400));
    let body = DAILY_BODY.replace("\"daily\":[]", "\"daily\":[{}]");
    assert_eq!(normalize(Endpoint::Daily, 200, body.as_bytes()), bad_request(400));
}

#[test]
fn members_that_are_not_asked_for_are_passed_over() {
    let body = CURRENT_BODY.replace("\"lat\":40.7,", "\"lat\":40.7,\"minutely\":[1,2,3],");
    let plain = normalize(Endpoint::Current, 200, CURRENT_BODY.as_bytes());
    assert_eq!(normalize(Endpoint::Current, 200, body.as_bytes()), plain);
}

#[test]
fn each_failure_is_told_apart() {
    assert_eq!(
        classify(Endpoint::Current, 200, b"{}"),
        Err(Failure::MalformedUpstreamPayload)
    );
    assert_eq!(classify(Endpoint::Current, 200, b"{"), Err(Failure::MalformedUpstreamPayload));
    assert_eq!(
        classify(Endpoint::Current, 401, CURRENT_BODY.as_bytes()),
        Err(Failure::UpstreamAuthFailure)
    );
    assert_eq!(
        classify(Endpoint::Current, 500, CURRENT_BODY.as_bytes()),
        Err(Failure::UpstreamOtherFailure)
    );
    assert!(classify(Endpoint::Current, 200, CURRENT_BODY.as_bytes()).is_ok());
}

#[test]
fn a_document_in_hand_is_classified_as_its_body_would_be() {
    let doc = Json::parse(CURRENT_BODY.as_bytes()).unwrap();
    assert_eq!(
        classify_document(Endpoint::Current, 200, Some(&doc)),
        classify(Endpoint::Current, 200, CURRENT_BODY.as_bytes())
    );
    assert_eq!(
        classify_document(Endpoint::Current, 200, None),
        Err(Failure::MalformedUpstreamPayload)
    );
    assert_eq!(
        classify_document(Endpoint::Current, 401, Some(&doc)),
        Err(Failure::UpstreamAuthFailure)
    );
    assert_eq!(
        normalize_document(Endpoint::Current, 200, Some(&doc)),
        normalize(Endpoint::Current, 200, CURRENT_BODY.as_bytes())
    );
    assert_eq!(normalize_document(Endpoint::Daily, 200, Some(&doc)), bad_request(400));
    assert_eq!(normalize_document(Endpoint::Daily, 418, Some(&doc)), bad_request(400));
}

#[test]
fn failures_have_their_status_and_words() {
    assert_eq!(Failure::UpstreamUnreachable.status_code(), 502);
    assert_eq!(Failure::MalformedUpstreamPayload.status_code(), 400);
    assert_eq!(Failure::UpstreamAuthFailure.status_code(), 401);
    assert_eq!(Failure::UpstreamOtherFailure.status_code(), 400);
    assert_eq!(Failure::ConfigurationMissing.status_code(), 500);
    assert_eq!(Failure::UpstreamUnreachable.describe(), "Bad Gateway");
    assert_eq!(Failure::MalformedUpstreamPayload.describe(), "Bad Request");
    assert_eq!(Failure::UpstreamAuthFailure.describe(), "Bad Request");
    assert_eq!(Failure::UpstreamOtherFailure.describe(), "Bad Request");
    assert_eq!(Failure::ConfigurationMissing.describe(), "Internal Server Error");
    assert_eq!(
        Outcome::from_classification(Err(Failure::UpstreamAuthFailure)),
        bad_request(401)
    );
}

#[test]
fn the_body_is_read_under_the_status_of_success_only() {
    assert!(body_is_read(200));
    for status in [0, 199, 201, 204, 301, 400, 401, 404, 500, 502, 65535] {
        assert!(!body_is_read(status), "{}", status);
        assert_eq!(
            normalize(Endpoint::Current, status, b""),
            normalize(Endpoint::Current, status, CURRENT_BODY.as_bytes())
        );
    }
}
