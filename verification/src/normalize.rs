//! From the upstream's status and body to what the caller is told.

use vstd::prelude::*;
use crate::codec::json_parse;
use crate::json::{Json, JsonValue};
use crate::payload::{
    decode_payload, encode_payload, lemma_payload_round_trip, Endpoint, WeatherPayload,
    WeatherPayloadView,
};
use crate::current::{current_required_names, lemma_current_requires};
use crate::daily::{daily_required_names, lemma_daily_requires};
use crate::fields::array_field;
use crate::response::{
    current_weather_required_names, lemma_current_weather_requires, lemma_weather_response_requires,
    weather_response_required_names,
};

verus! {

/// The status with which the upstream answers a query that it has served.
pub const STATUS_OK: u16 = 200;

/// The status with which the upstream refuses the key of a query.
pub const STATUS_UNAUTHORIZED: u16 = 401;

/// The status under which a request that was not served is refused.
pub const STATUS_BAD_REQUEST: u16 = 400;

/// The status under which an error of the service itself is reported.
pub const STATUS_INTERNAL_ERROR: u16 = 500;

/// The status under which an upstream out of reach is reported.
pub const STATUS_BAD_GATEWAY: u16 = 502;

/// The ways in which a request can fail to be served.
#[derive(Debug, Clone, Copy, PartialEq, Eq, Structural)]
pub enum Failure {
    /// The upstream could not be reached, or gave no answer in time.
    UpstreamUnreachable,
    /// The upstream answered with the status of success and a body that has not
    /// the shape asked for.
    MalformedUpstreamPayload,
    /// The upstream refused the key.
    UpstreamAuthFailure,
    /// The upstream answered with any other status.
    UpstreamOtherFailure,
    /// A setting that the service cannot do without is not there.
    ConfigurationMissing,
}

impl Failure {
    /// The status under which the failure is reported.
    pub open spec fn status(self) -> u16 {
        match self {
            Failure::UpstreamUnreachable => STATUS_BAD_GATEWAY,
            Failure::MalformedUpstreamPayload => STATUS_BAD_REQUEST,
            Failure::UpstreamAuthFailure => STATUS_UNAUTHORIZED,
            Failure::UpstreamOtherFailure => STATUS_BAD_REQUEST,
            Failure::ConfigurationMissing => STATUS_INTERNAL_ERROR,
        }
    }

    /// The words in which the failure is reported. The three failures that
    /// come with an answer of the upstream are reported in the same words.
    pub open spec fn message(self) -> Seq<char> {
        match self {
            Failure::UpstreamUnreachable => "Bad Gateway"@,
            Failure::MalformedUpstreamPayload => "Bad Request"@,
            Failure::UpstreamAuthFailure => "Bad Request"@,
            Failure::UpstreamOtherFailure => "Bad Request"@,
            Failure::ConfigurationMissing => "Internal Server Error"@,
        }
    }

    /// The status under which the failure is reported.
    pub fn status_code(self) -> (r: u16)
        ensures
            r == self.status(),
            400 <= r <= 599,
    {
        match self {
            Failure::UpstreamUnreachable => STATUS_BAD_GATEWAY,
            Failure::MalformedUpstreamPayload => STATUS_BAD_REQUEST,
            Failure::UpstreamAuthFailure => STATUS_UNAUTHORIZED,
            Failure::UpstreamOtherFailure => STATUS_BAD_REQUEST,
            Failure::ConfigurationMissing => STATUS_INTERNAL_ERROR,
        }
    }

    /// The words in which the failure is reported.
    pub fn describe(self) -> (r: String)
        ensures
            r@ == self.message(),
    {
        match self {
            Failure::UpstreamUnreachable => String::from_str("Bad Gateway"),
            Failure::MalformedUpstreamPayload => String::from_str("Bad Request"),
            Failure::UpstreamAuthFailure => String::from_str("Bad Request"),
            Failure::UpstreamOtherFailure => String::from_str("Bad Request"),
            Failure::ConfigurationMissing => String::from_str("Internal Server Error"),
        }
    }
}

/// What the caller is told of the upstream's answer.
#[derive(Debug, Clone, PartialEq)]
pub enum Outcome {
    /// The upstream served the query: here is what it said.
    Success(WeatherPayload),
    /// The query was not served.
    ClientError { code: u16, message: String },
}

/// The value of an [`Outcome`].
pub enum OutcomeView {
    Success(WeatherPayloadView),
    ClientError { code: u16, message: Seq<char> },
}

impl View for Outcome {
    type V = OutcomeView;

    open spec fn view(&self) -> OutcomeView {
        match self {
            Outcome::Success(p) => OutcomeView::Success(p@),
            Outcome::ClientError { code, message } => OutcomeView::ClientError {
                code: *code,
                message: message@,
            },
        }
    }
}

/// The value of a classification.
pub open spec fn classification_view(r: Result<WeatherPayload, Failure>) -> Result<
    WeatherPayloadView,
    Failure,
> {
    match r {
        Ok(p) => Ok(p@),
        Err(f) => Err(f),
    }
}

/// The value of an optional document.
pub open spec fn parsed_view(parsed: Option<&Json>) -> Option<JsonValue> {
    match parsed {
        Some(doc) => Some(doc@),
        None => None,
    }
}

/// How an answer of the upstream is classified, given its status and the
/// document read from its body, if one could be read. Under any status but
/// that of success the body has no say.
pub open spec fn classify_spec(
    endpoint: Endpoint,
    status: u16,
    parsed: Option<JsonValue>,
) -> Result<WeatherPayloadView, Failure> {
    if status == STATUS_OK {
        match parsed {
            Some(doc) => match decode_payload(endpoint, doc) {
                Some(payload) => Ok(payload),
                None => Err(Failure::MalformedUpstreamPayload),
            },
            None => Err(Failure::MalformedUpstreamPayload),
        }
    } else if status == STATUS_UNAUTHORIZED {
        Err(Failure::UpstreamAuthFailure)
    } else {
        Err(Failure::UpstreamOtherFailure)
    }
}

/// What the caller is told of a classified answer.
pub open spec fn outcome_of(classified: Result<WeatherPayloadView, Failure>) -> OutcomeView {
    match classified {
        Ok(payload) => OutcomeView::Success(payload),
        Err(failure) => OutcomeView::ClientError {
            code: failure.status(),
            message: failure.message(),
        },
    }
}

/// What the caller is told, given the upstream's status and the document read
/// from its body, if one could be read.
pub open spec fn normalize_spec(
    endpoint: Endpoint,
    status: u16,
    parsed: Option<JsonValue>,
) -> OutcomeView {
    outcome_of(classify_spec(endpoint, status, parsed))
}

/// Whether the body of an answer with `status` is read: under the status of
/// success only.
pub open spec fn body_counts(status: u16) -> bool {
    status == STATUS_OK
}

/// Tells whether the body of an answer with `status` is read. Where it is not,
/// there is no need to wait for it.
pub fn body_is_read(status: u16) -> (r: bool)
    ensures
        r == body_counts(status),
{
    status == STATUS_OK
}

/// The outcome that refuses a request with `code`.
pub open spec fn bad_request(code: u16) -> OutcomeView {
    OutcomeView::ClientError { code, message: "Bad Request"@ }
}

/// Classifies an answer of the upstream, given its status and the document
/// read from its body, if one could be read.
pub fn classify_document(endpoint: Endpoint, status: u16, parsed: Option<&Json>) -> (r: Result<
    WeatherPayload,
    Failure,
>)
    ensures
        classification_view(r) == classify_spec(endpoint, status, parsed_view(parsed)),
{
    if status == STATUS_OK {
        match parsed {
            Some(doc) => match WeatherPayload::decode(endpoint, doc) {
                Some(payload) => Ok(payload),
                None => Err(Failure::MalformedUpstreamPayload),
            },
            None => Err(Failure::MalformedUpstreamPayload),
        }
    } else if status == STATUS_UNAUTHORIZED {
        Err(Failure::UpstreamAuthFailure)
    } else {
        Err(Failure::UpstreamOtherFailure)
    }
}

/// Classifies an answer of the upstream, given its status and its body. The
/// body is read only under the status of success.
pub fn classify(endpoint: Endpoint, status: u16, body: &[u8]) -> (r: Result<
    WeatherPayload,
    Failure,
>)
    ensures
        classification_view(r) == classify_spec(endpoint, status, json_parse(body@)),
        status != STATUS_OK && status != STATUS_UNAUTHORIZED ==> classification_view(r) == Err::<
            WeatherPayloadView,
            Failure,
        >(Failure::UpstreamOtherFailure),
        status == STATUS_UNAUTHORIZED ==> classification_view(r) == Err::<
            WeatherPayloadView,
            Failure,
        >(Failure::UpstreamAuthFailure),
        r is Ok ==> status == STATUS_OK,
{
    if status == STATUS_OK {
        match Json::parse(body) {
            Some(doc) => classify_document(endpoint, status, Some(&doc)),
            None => classify_document(endpoint, status, None),
        }
    } else {
        classify_document(endpoint, status, None)
    }
}

impl Outcome {
    /// What the caller is told of a classified answer.
    pub fn from_classification(classified: Result<WeatherPayload, Failure>) -> (r: Outcome)
        ensures
            r@ == outcome_of(classification_view(classified)),
    {
        match classified {
            Ok(payload) => Outcome::Success(payload),
            Err(failure) => Outcome::ClientError {
                code: failure.status_code(),
                message: failure.describe(),
            },
        }
    }
}

/// Tells what the caller is told, given the upstream's status and the document
/// read from its body, if one could be read.
pub fn normalize_document(endpoint: Endpoint, status: u16, parsed: Option<&Json>) -> (r: Outcome)
    ensures
        r@ == normalize_spec(endpoint, status, parsed_view(parsed)),
        status != STATUS_OK && status != STATUS_UNAUTHORIZED ==> r@ == bad_request(
            STATUS_BAD_REQUEST,
        ),
        status == STATUS_UNAUTHORIZED ==> r@ == bad_request(STATUS_UNAUTHORIZED),
        status == STATUS_OK ==> (match parsed {
            Some(doc) => match decode_payload(endpoint, doc@) {
                Some(payload) => r@ == OutcomeView::Success(payload),
                None => r@ == bad_request(STATUS_BAD_REQUEST),
            },
            None => r@ == bad_request(STATUS_BAD_REQUEST),
        }),
{
    Outcome::from_classification(classify_document(endpoint, status, parsed))
}

/// Tells what the caller is told, given the upstream's status and its body.
///
/// Under the status of success the outcome is `Success` exactly where the body
/// is a JSON document of the shape that `endpoint` asks for, and then holds
/// what the document says, member for member. Under any other status the body
/// has no say.
pub fn normalize(endpoint: Endpoint, status: u16, body: &[u8]) -> (r: Outcome)
    ensures
        r@ == normalize_spec(endpoint, status, json_parse(body@)),
        status != STATUS_OK && status != STATUS_UNAUTHORIZED ==> r@ == bad_request(
            STATUS_BAD_REQUEST,
        ),
        status == STATUS_UNAUTHORIZED ==> r@ == bad_request(STATUS_UNAUTHORIZED),
        status == STATUS_OK ==> (match json_parse(body@) {
            Some(doc) => match decode_payload(endpoint, doc) {
                Some(payload) => r@ == OutcomeView::Success(payload),
                None => r@ == bad_request(STATUS_BAD_REQUEST),
            },
            None => r@ == bad_request(STATUS_BAD_REQUEST),
        }),
{
    Outcome::from_classification(classify(endpoint, status, body))
}

/// Under a status whose body is not read, the caller is told the same whatever
/// the body holds, and whether or not it could be had.
pub proof fn lemma_unread_body_has_no_say(
    endpoint: Endpoint,
    status: u16,
    a: Option<JsonValue>,
    b: Option<JsonValue>,
)
    requires
        !body_counts(status),
    ensures
        normalize_spec(endpoint, status, a) == normalize_spec(endpoint, status, b),
{
}

/// Under the status of success, a document that is what was written for a
/// payload is told to the caller as that payload: nothing is lost or changed
/// on the way.
pub proof fn lemma_written_payload_is_relayed(payload: WeatherPayloadView)
    ensures
        normalize_spec(payload.endpoint(), STATUS_OK, Some(encode_payload(payload)))
            == OutcomeView::Success(payload),
{
    lemma_payload_round_trip(payload);
}

/// The names of the members that an answer for `endpoint` must have.
pub open spec fn required_names(endpoint: Endpoint) -> Set<Seq<char>> {
    match endpoint {
        Endpoint::Current => current_weather_required_names(),
        Endpoint::Daily => weather_response_required_names(),
    }
}

/// Under the status of success, a document that lacks a member that the
/// endpoint requires is refused as a bad request, and never told as a success.
pub proof fn lemma_missing_member_is_refused(endpoint: Endpoint, doc: JsonValue, name: Seq<char>)
    requires
        required_names(endpoint).contains(name),
        doc.member(name) is None,
    ensures
        normalize_spec(endpoint, STATUS_OK, Some(doc)) == bad_request(STATUS_BAD_REQUEST),
{
    match endpoint {
        Endpoint::Current => lemma_current_weather_requires(doc, name),
        Endpoint::Daily => lemma_weather_response_requires(doc, name),
    }
}

/// Under the status of success, an answer whose record of current conditions
/// lacks a member that such a record requires is refused as a bad request.
pub proof fn lemma_missing_current_member_is_refused(doc: JsonValue, name: Seq<char>)
    requires
        current_required_names().contains(name),
        doc.member("current"@) is Some,
        doc.member("current"@)->0.member(name) is None,
    ensures
        normalize_spec(Endpoint::Current, STATUS_OK, Some(doc)) == bad_request(STATUS_BAD_REQUEST),
{
    lemma_current_requires(doc.member("current"@)->0, name);
}

/// Under the status of success, an answer in which the forecast of one day
/// lacks a member that a daily forecast requires is refused as a bad request.
pub proof fn lemma_missing_daily_member_is_refused(doc: JsonValue, day: int, name: Seq<char>)
    requires
        daily_required_names().contains(name),
        array_field(doc, "daily"@) is Some,
        0 <= day < array_field(doc, "daily"@)->0.len(),
        array_field(doc, "daily"@)->0[day].member(name) is None,
    ensures
        normalize_spec(Endpoint::Daily, STATUS_OK, Some(doc)) == bad_request(STATUS_BAD_REQUEST),
{
    lemma_daily_requires(array_field(doc, "daily"@)->0[day], name);
}

} // verus!
