use weather_relay::decimal::Decimal;
use weather_relay::handler::{Action, Event, Pipeline, Stage};
use weather_relay::json::Json;
use weather_relay::logging::{log_line, write_place};
use weather_relay::normalize::{Failure, Outcome};
use weather_relay::payload::{Endpoint, WeatherPayload};
use weather_relay::query::Coordinates;
use weather_relay::reply::{ContentType, Reply};

const UPSTREAM_BODY: &str = "{\"lat\":40.7,\"lon\":-74.0,\"timezone\":\"America/New_York\",\
\"timezone_offset\":-18000,\"current\":{\"dt\":1700000000,\"sunrise\":1699960000,\
\"sunset\":1699995000,\"temp\":283.1,\"feels_like\":281.0,\"pressure\":1015,\"humidity\":60,\
\"dew_point\":275.0,\"uvi\":1,\"clouds\":20,\"visibility\":10000,\"wind_speed\":3.1,\
\"wind_deg\":200,\"weather\":[{\"id\":800,\"main\":\"Clear\",\"description\":\"clear sky\",\
\"icon\":\"01d\"}]}}";

fn new_york() -> Coordinates {
    Coordinates::new(Decimal::new("40.7"), Decimal::new("-74"))
}

fn until_sent(endpoint: Endpoint, located: Option<Coordinates>) -> (Pipeline, String) {
    let state = Pipeline::new(endpoint);
    assert_eq!(state.stage(), Stage::Received);
    let (state, action) = state.step(Event::Located(located));
    assert_eq!(state.stage(), Stage::CoordinatesResolved);
    assert!(action == Action::LoadKey);
    let (state, action) = state.step(Event::Configured(Some(String::from("secret"))));
    assert_eq!(state.stage(), Stage::UpstreamRequestSent);
    let Action::Send(request) = action else {
        panic!("nothing sent");
    };
    (state, request.url)
}

fn answer(endpoint: Endpoint, status: u16, body: &[u8]) -> Reply {
    let (state, _) = until_sent(endpoint, Some(new_york()));
    let (state, action) = state.step(Event::Answered { status, body: body.to_vec() });
    assert_eq!(state.stage(), Stage::ResponseClassified);
    assert!(action == Action::Resume);
    let (state, action) = state.step(Event::Resumed);
    assert_eq!(state, Pipeline::Completed);
    let Action::Respond(reply) = action else {
        panic!("no reply");
    };
    reply
}

#[test]
fn the_query_is_sent_for_the_place_of_the_request() {
    let (_, url) = until_sent(Endpoint::Current, Some(new_york()));
    assert_eq!(
        url,
        "https://api.openweathermap.org/data/2.5/onecall?lat=40.7&lon=-74\
         &exclude=minutely,hourly,daily&appid=secret"
    );
    let (_, url) = until_sent(Endpoint::Daily, None);
    assert_eq!(
        url,
        "https://api.openweathermap.org/data/2.5/onecall?lat=0&lon=0\
         &exclude=minutely,current,hourly&appid=secret"
    );
}

#[test]
fn a_served_request_ends_with_the_upstream_data_as_json() {
    let reply = answer(Endpoint::Current, 200, UPSTREAM_BODY.as_bytes());
    assert_eq!(reply.status, 200);
    assert_eq!(reply.content_type, ContentType::Json);
    assert_eq!(
        reply.body,
        "{\"current\":{\"clouds\":20,\"dew_point\":275.0,\"dt\":1700000000,\"feels_like\":281.0,\
         \"humidity\":60,\"pressure\":1015,\"sunrise\":1699960000,\"sunset\":1699995000,\
         \"temp\":283.1,\"uvi\":1.0,\"visibility\":10000,\"weather\":[{\"description\":\
         \"clear sky\",\"icon\":\"01d\",\"id\":800,\"main\":\"Clear\"}],\"wind_deg\":200,\
         \"wind_speed\":3.1},\"lat\":40.7,\"lon\":-74.0,\"timezone\":\"America/New_York\",\
         \"timezone_offset\":-18000}"
    );
}

#[test]
fn the_reply_to_a_served_request_holds_what_the_upstream_said() {
    let reply = answer(Endpoint::Current, 200, UPSTREAM_BODY.as_bytes());
    let sent = Json::parse(UPSTREAM_BODY.as_bytes()).unwrap();
    let relayed = Json::parse(reply.body.as_bytes()).unwrap();
    let said = WeatherPayload::decode(Endpoint::Current, &sent);
    assert!(said.is_some());
    assert_eq!(WeatherPayload::decode(Endpoint::Current, &relayed), said);
    for name in ["lat", "lon", "timezone", "timezone_offset"] {
        assert_eq!(relayed.member(name), sent.member(name), "{}", name);
    }
    let sent = sent.member("current").unwrap();
    let relayed = relayed.member("current").unwrap();
    for name in ["dt", "sunrise", "sunset", "pressure", "humidity", "clouds", "visibility",
        "wind_deg"]
    {
        assert_eq!(relayed.member(name), sent.member(name), "{}", name);
    }
    for name in ["temp", "feels_like", "dew_point", "uvi", "wind_speed"] {
        assert_eq!(
            relayed.member(name).unwrap().as_decimal(),
            sent.member(name).unwrap().as_decimal(),
            "{}",
            name
        );
    }
    let sent = sent.member("weather").unwrap().as_array().unwrap();
    let relayed = relayed.member("weather").unwrap().as_array().unwrap();
    assert_eq!(relayed.len(), 1);
    for name in ["id", "main", "description", "icon"] {
        assert_eq!(relayed[0].member(name), sent[0].member(name), "{}", name);
    }
}

#[test]
fn an_unauthorized_upstream_ends_with_the_same_status() {
    let reply = answer(Endpoint::Current, 401, UPSTREAM_BODY.as_bytes());
    assert_eq!(reply.status, 401);
    assert_eq!(reply.body, "Bad Request");
    assert_eq!(reply.content_type, ContentType::Unset);
    let reply = answer(Endpoint::Current, 401, b"{\"cod\":401,\"message\":\"Invalid API key\"}");
    assert_eq!(reply.status, 401);
    assert_eq!(reply.body, "Bad Request");
}

#[test]
fn a_failing_upstream_ends_with_a_bad_request() {
    let reply = answer(Endpoint::Daily, 503, b"unavailable");
    assert_eq!(reply.status, 400);
    assert_eq!(reply.body, "Bad Request");
    let reply = answer(Endpoint::Daily, 200, UPSTREAM_BODY.as_bytes());
    assert_eq!(reply.status, 400);
    assert_eq!(reply.body, "Bad Request");
}

#[test]
fn an_unreachable_upstream_ends_with_a_server_error() {
    let (state, _) = until_sent(Endpoint::Current, None);
    let (state, action) = state.step(Event::Unreachable);
    assert_eq!(state, Pipeline::Completed);
    let Action::Respond(reply) = action else {
        panic!("no reply");
    };
    assert!((500..=599).contains(&reply.status));
    assert_eq!(reply.status, 502);
    assert_eq!(reply.body, "Bad Gateway");
    assert_eq!(reply, Reply::from_failure(Failure::UpstreamUnreachable));
}

#[test]
fn a_missing_key_gives_the_request_up() {
    let (state, _) = Pipeline::new(Endpoint::Daily).step(Event::Located(None));
    let (state, action) = state.step(Event::Configured(None));
    assert_eq!(state, Pipeline::Completed);
    assert!(action == Action::Abort(Failure::ConfigurationMissing));
}

#[test]
fn a_completed_handling_takes_no_event_up() {
    let (state, _) = until_sent(Endpoint::Current, None);
    let (state, _) = state.step(Event::Unreachable);
    let (state, action) = state.step(Event::Answered { status: 200, body: Vec::new() });
    assert_eq!(state, Pipeline::Completed);
    assert!(action == Action::Nothing);
    let (state, action) = state.step(Event::Located(None));
    assert_eq!(state, Pipeline::Completed);
    assert!(action == Action::Nothing);
}

fn out_of_turn() -> Action {
    Action::Respond(Reply {
        status: 500,
        content_type: ContentType::Unset,
        body: String::from("Internal Server Error"),
    })
}

#[test]
fn an_event_out_of_turn_ends_the_handling() {
    let (state, action) = Pipeline::new(Endpoint::Current).step(Event::Resumed);
    assert!(state == Pipeline::Completed && action == out_of_turn());
    let (state, action) = Pipeline::new(Endpoint::Current).step(Event::Unreachable);
    assert!(state == Pipeline::Completed && action == out_of_turn());
    let (state, _) = Pipeline::new(Endpoint::Current).step(Event::Located(None));
    let (state, action) = state.step(Event::Located(None));
    assert!(state == Pipeline::Completed && action == out_of_turn());
    let (state, _) = until_sent(Endpoint::Current, None);
    let (state, action) = state.step(Event::Configured(Some(String::from("again"))));
    assert!(state == Pipeline::Completed && action == out_of_turn());
    let (state, _) = until_sent(Endpoint::Current, None);
    let (state, _) = state.step(Event::Answered { status: 200, body: Vec::new() });
    let (state, action) = state.step(Event::Unreachable);
    assert!(state == Pipeline::Completed && action == out_of_turn());
}

#[test]
fn every_step_moves_to_a_later_stage() {
    fn rank(stage: Stage) -> u8 {
        match stage {
            Stage::Received => 0,
            Stage::CoordinatesResolved => 1,
            Stage::UpstreamRequestSent => 2,
            Stage::ResponseClassified => 3,
            Stage::Completed => 4,
        }
    }
    let events = [
        || Event::Located(None),
        || Event::Configured(Some(String::from("k"))),
        || Event::Answered { status: 200, body: Vec::new() },
        || Event::Resumed,
    ];
    let mut state = Pipeline::new(Endpoint::Daily);
    let mut steps = 0;
    for event in events {
        let before = rank(state.stage());
        let (next, _) = state.step(event());
        assert!(rank(next.stage()) > before);
        state = next;
        steps += 1;
    }
    assert_eq!(steps, 4);
    assert_eq!(state, Pipeline::Completed);
}

#[test]
fn replies_tell_outcomes() {
    let refused = Outcome::ClientError { code: 400, message: String::from("Bad Request") };
    assert_eq!(
        Reply::from_outcome(&refused),
        Reply { status: 400, content_type: ContentType::Unset, body: String::from("Bad Request") }
    );
    assert_eq!(ContentType::Json.as_header(), Some("application/json"));
    assert_eq!(ContentType::PlainText.as_header(), Some("text/plain"));
    assert_eq!(ContentType::Unset.as_header(), None);
    assert_eq!(Reply::from_failure(Failure::ConfigurationMissing).status, 500);
}

#[test]
fn the_version_in_service_is_told_as_plain_text() {
    assert_eq!(
        Reply::version(Some(String::from("0.0.9"))),
        Ok(Reply { status: 200, content_type: ContentType::PlainText, body: String::from("0.0.9") })
    );
    assert_eq!(Reply::version(None), Err(Failure::ConfigurationMissing));
}

#[test]
fn the_log_line_names_time_path_place_and_region() {
    let place = Coordinates::new(
        Decimal::new(&format!("{:?}", 40.7_f32)),
        Decimal::new(&format!("{:?}", -74.0_f32)),
    );
    assert_eq!(
        log_line("2023-11-14T22:13:20Z", "/weather", Some(&place), Some("New York")),
        "2023-11-14T22:13:20Z - [/weather], located at: (40.7, -74.0), within: New York"
    );
    assert_eq!(
        log_line("2023-11-14T22:13:20Z", "/weather", Some(&place), Some("New York")),
        format!(
            "{} - [{}], located at: {:?}, within: {}",
            "2023-11-14T22:13:20Z",
            "/weather",
            (40.7_f32, -74.0_f32),
            "New York"
        )
    );
}

#[test]
fn a_request_without_place_or_region_is_logged_at_zero() {
    assert_eq!(
        log_line("T", "/", None, None),
        "T - [/], located at: (0.0, 0.0), within: unknown region"
    );
    assert_eq!(
        log_line("T", "/", None, None),
        format!(
            "{} - [{}], located at: {:?}, within: {}",
            "T",
            "/",
            <(f32, f32)>::default(),
            "unknown region"
        )
    );
    assert_eq!(write_place(None), "(0.0, 0.0)");
    assert_eq!(
        log_line("T", "/", None, Some("Texas")),
        "T - [/], located at: (0.0, 0.0), within: Texas"
    );
}
