//! The two kinds of data that are relayed, and the answer that goes with each.

use vstd::prelude::*;
use crate::json::{Json, JsonValue};
use crate::response::{
    current_weather_names, decode_current_weather, decode_weather_response,
    encode_current_weather, encode_weather_response, lemma_current_weather_reads_named_members,
    lemma_current_weather_round_trip, lemma_weather_response_reads_named_members,
    lemma_weather_response_round_trip, weather_response_names, CurrentWeather,
    CurrentWeatherView, WeatherResponse, WeatherResponseView,
};

verus! {

/// The kind of data that an endpoint relays. It fixes what is asked of the
/// upstream and the shape that its answer must have.
#[derive(Debug, Clone, Copy, PartialEq, Eq, Structural)]
pub enum Endpoint {
    /// The conditions at the time of the query.
    Current,
    /// The forecast, day by day.
    Daily,
}

/// A well-formed answer of the upstream.
#[derive(Debug, Clone, PartialEq)]
pub enum WeatherPayload {
    Current(CurrentWeather),
    Daily(WeatherResponse),
}

/// The value of a [`WeatherPayload`].
pub enum WeatherPayloadView {
    Current(CurrentWeatherView),
    Daily(WeatherResponseView),
}

impl View for WeatherPayload {
    type V = WeatherPayloadView;

    open spec fn view(&self) -> WeatherPayloadView {
        match self {
            WeatherPayload::Current(c) => WeatherPayloadView::Current(c@),
            WeatherPayload::Daily(d) => WeatherPayloadView::Daily(d@),
        }
    }
}

impl WeatherPayloadView {
    /// The endpoint that relays a payload of this kind.
    pub open spec fn endpoint(self) -> Endpoint {
        match self {
            WeatherPayloadView::Current(_) => Endpoint::Current,
            WeatherPayloadView::Daily(_) => Endpoint::Daily,
        }
    }
}

/// The payload that `doc` holds for `endpoint`: `None` where `doc` has not the
/// shape that the endpoint asks for.
pub open spec fn decode_payload(endpoint: Endpoint, doc: JsonValue) -> Option<WeatherPayloadView> {
    match endpoint {
        Endpoint::Current => match decode_current_weather(doc) {
            Some(c) => Some(WeatherPayloadView::Current(c)),
            None => None,
        },
        Endpoint::Daily => match decode_weather_response(doc) {
            Some(d) => Some(WeatherPayloadView::Daily(d)),
            None => None,
        },
    }
}

/// The document written for a payload.
pub open spec fn encode_payload(payload: WeatherPayloadView) -> JsonValue {
    match payload {
        WeatherPayloadView::Current(c) => encode_current_weather(c),
        WeatherPayloadView::Daily(d) => encode_weather_response(d),
    }
}

impl WeatherPayload {
    /// Reads from `doc` the payload that `endpoint` asks for.
    pub fn decode(endpoint: Endpoint, doc: &Json) -> (r: Option<WeatherPayload>)
        ensures
            match r {
                Some(p) => decode_payload(endpoint, doc@) == Some(p@),
                None => decode_payload(endpoint, doc@).is_none(),
            },
    {
        match endpoint {
            Endpoint::Current => match CurrentWeather::decode(doc) {
                Some(c) => Some(WeatherPayload::Current(c)),
                None => None,
            },
            Endpoint::Daily => match WeatherResponse::decode(doc) {
                Some(d) => Some(WeatherPayload::Daily(d)),
                None => None,
            },
        }
    }

    /// Writes this payload as a document.
    pub fn encode(&self) -> (r: Json)
        ensures
            r@ == encode_payload(self@),
    {
        match self {
            WeatherPayload::Current(c) => c.encode(),
            WeatherPayload::Daily(d) => d.encode(),
        }
    }

    /// The endpoint that relays a payload of this kind.
    pub fn endpoint(&self) -> (r: Endpoint)
        ensures
            r == self@.endpoint(),
    {
        match self {
            WeatherPayload::Current(_) => Endpoint::Current,
            WeatherPayload::Daily(_) => Endpoint::Daily,
        }
    }
}

/// A payload that is written and read again, for the endpoint that relays it,
/// is the payload itself: every member keeps its value, and a rain or snow
/// accumulation that was absent is absent again.
pub proof fn lemma_payload_round_trip(payload: WeatherPayloadView)
    ensures
        decode_payload(payload.endpoint(), encode_payload(payload)) == Some(payload),
{
    match payload {
        WeatherPayloadView::Current(c) => lemma_current_weather_round_trip(c),
        WeatherPayloadView::Daily(d) => lemma_weather_response_round_trip(d),
    }
}

/// The names of the members that are read for the answer to `endpoint`.
pub open spec fn payload_names(endpoint: Endpoint) -> Set<Seq<char>> {
    match endpoint {
        Endpoint::Current => current_weather_names(),
        Endpoint::Daily => weather_response_names(),
    }
}

/// Two documents that agree on every member that is read for the answer to
/// `endpoint` hold the same payload, or both none: members that the endpoint
/// does not know have no say.
pub proof fn lemma_payload_reads_named_members(endpoint: Endpoint, a: JsonValue, b: JsonValue)
    requires
        forall|name: Seq<char>|
            (#[trigger] payload_names(endpoint).contains(name)) ==> a.member(name) == b.member(
                name,
            ),
    ensures
        decode_payload(endpoint, a) == decode_payload(endpoint, b),
{
    match endpoint {
        Endpoint::Current => {
            assert(payload_names(endpoint) == current_weather_names());
            lemma_current_weather_reads_named_members(a, b);
        },
        Endpoint::Daily => {
            assert(payload_names(endpoint) == weather_response_names());
            lemma_weather_response_reads_named_members(a, b);
        },
    }
}

} // verus!
