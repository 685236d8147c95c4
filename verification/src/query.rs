//! From the place of a request to the query that is sent upstream.

use vstd::prelude::*;
use crate::decimal::{zero_text, Decimal};
use crate::payload::Endpoint;

verus! {

/// A place on the globe: latitude and longitude in degrees.
///
/// Nothing here checks that a latitude lies within 90 degrees of the equator
/// or a longitude within 180 degrees of the prime meridian: a place is passed
/// on as it came.
#[derive(Debug, PartialEq, Eq)]
pub struct Coordinates {
    pub lat: Decimal,
    pub lon: Decimal,
}

/// The value of a [`Coordinates`].
pub struct CoordinatesView {
    pub lat: Seq<char>,
    pub lon: Seq<char>,
}

impl View for Coordinates {
    type V = CoordinatesView;

    open spec fn view(&self) -> CoordinatesView {
        CoordinatesView { lat: self.lat@, lon: self.lon@ }
    }
}

impl Clone for Coordinates {
    fn clone(&self) -> (r: Self)
        ensures
            r@ == self@,
    {
        Coordinates { lat: self.lat.clone(), lon: self.lon.clone() }
    }
}

/// The place that stands in where a request brings none: latitude zero,
/// longitude zero.
pub open spec fn origin() -> CoordinatesView {
    CoordinatesView { lat: zero_text(), lon: zero_text() }
}

/// The value of an optional place.
pub open spec fn located_view(located: Option<Coordinates>) -> Option<CoordinatesView> {
    match located {
        Some(c) => Some(c@),
        None => None,
    }
}

/// The place that a request is answered for: the one it brings, or the origin.
pub open spec fn resolved(located: Option<CoordinatesView>) -> CoordinatesView {
    match located {
        Some(c) => c,
        None => origin(),
    }
}

impl Coordinates {
    /// The place at latitude `lat` and longitude `lon`.
    pub fn new(lat: Decimal, lon: Decimal) -> (r: Coordinates)
        ensures
            r@ == (CoordinatesView { lat: lat@, lon: lon@ }),
    {
        Coordinates { lat, lon }
    }

    /// Latitude zero, longitude zero.
    pub fn origin() -> (r: Coordinates)
        ensures
            r@ == origin(),
    {
        Coordinates { lat: Decimal::zero(), lon: Decimal::zero() }
    }

    /// The place that a request is answered for, given the place that its
    /// metadata names, if any. Every input has an answer: a request without a
    /// place is answered for the origin.
    pub fn resolve(located: Option<Coordinates>) -> (r: Coordinates)
        ensures
            r@ == resolved(located_view(located)),
            located is None ==> r@ == origin(),
            located is Some ==> r@ == located->0@,
    {
        match located {
            Some(c) => c,
            None => Coordinates::origin(),
        }
    }
}

/// A part of the upstream's answer that a query can ask to leave out.
#[derive(Debug, Clone, Copy, PartialEq, Eq, Structural)]
pub enum Section {
    Current,
    Minutely,
    Hourly,
    Daily,
    Alerts,
}

impl Section {
    /// The name of the section in a query.
    pub open spec fn name(self) -> Seq<char> {
        match self {
            Section::Current => "current"@,
            Section::Minutely => "minutely"@,
            Section::Hourly => "hourly"@,
            Section::Daily => "daily"@,
            Section::Alerts => "alerts"@,
        }
    }

    /// The name of the section in a query.
    pub fn as_str(self) -> (r: &'static str)
        ensures
            r@ == self.name(),
    {
        match self {
            Section::Current => "current",
            Section::Minutely => "minutely",
            Section::Hourly => "hourly",
            Section::Daily => "daily",
            Section::Alerts => "alerts",
        }
    }
}

/// The names of `sections`, in order, with a comma between each two.
pub open spec fn exclude_text(sections: Seq<Section>) -> Seq<char>
    decreases sections.len(),
{
    if sections.len() == 0 {
        Seq::empty()
    } else if sections.len() == 1 {
        sections[0].name()
    } else {
        exclude_text(sections.drop_last()) + seq![','] + sections.last().name()
    }
}

/// Writes the names of `sections`, in order, with a comma between each two.
pub fn write_exclusions(sections: &Vec<Section>) -> (r: String)
    ensures
        r@ == exclude_text(sections@),
{
    let mut out = String::new();
    let mut i: usize = 0;
    while i < sections.len()
        invariant
            i <= sections.len(),
            out@ == exclude_text(sections@.take(i as int)),
        decreases sections.len() - i,
    {
        proof {
            let next = sections@.take(i + 1);
            assert(next.drop_last() =~= sections@.take(i as int));
            assert(next.last() == sections@[i as int]);
            reveal_strlit(",");
            assert(","@ =~= seq![',']);
            if i == 0 {
                assert(out@ =~= Seq::<char>::empty());
                assert(Seq::<char>::empty() + sections@[0].name() =~= sections@[0].name());
            }
        }
        if i > 0 {
            out.append(",");
        }
        out.append(sections[i].as_str());
        i += 1;
    }
    assert(sections@.take(sections@.len() as int) =~= sections@);
    out
}

impl Endpoint {
    /// The sections that a query for this endpoint asks to leave out.
    pub open spec fn exclusions(self) -> Seq<Section> {
        match self {
            Endpoint::Current => seq![Section::Minutely, Section::Hourly, Section::Daily],
            Endpoint::Daily => seq![Section::Minutely, Section::Current, Section::Hourly],
        }
    }

    /// The sections that a query for this endpoint asks to leave out.
    pub fn exclude(self) -> (r: Vec<Section>)
        ensures
            r@ == self.exclusions(),
    {
        let mut out: Vec<Section> = Vec::new();
        out.push(Section::Minutely);
        match self {
            Endpoint::Current => {
                out.push(Section::Hourly);
                out.push(Section::Daily);
            },
            Endpoint::Daily => {
                out.push(Section::Current);
                out.push(Section::Hourly);
            },
        }
        assert(out@ =~= self.exclusions());
        out
    }
}

/// What is asked of the upstream: a place, the sections to leave out, and the
/// key that the upstream knows the caller by. A query is fixed once it is
/// made, and building the request uses it up. It cannot be printed: it holds
/// the key.
pub struct UpstreamQuery {
    coordinates: Coordinates,
    exclude: Vec<Section>,
    api_key: String,
}

/// The value of an [`UpstreamQuery`].
pub struct UpstreamQueryView {
    pub coordinates: CoordinatesView,
    pub exclude: Seq<Section>,
    pub api_key: Seq<char>,
}

impl View for UpstreamQuery {
    type V = UpstreamQueryView;

    closed spec fn view(&self) -> UpstreamQueryView {
        UpstreamQueryView {
            coordinates: self.coordinates@,
            exclude: self.exclude@,
            api_key: self.api_key@,
        }
    }
}

/// The request that carries a query: where it goes, the headers it bears, and
/// how long an answer is waited for. It cannot be printed: its address holds
/// the key.
#[derive(PartialEq, Eq)]
pub struct UpstreamRequest {
    pub url: String,
    pub headers: Vec<(String, String)>,
    pub timeout_seconds: u64,
}

/// The value of an [`UpstreamRequest`].
pub struct UpstreamRequestView {
    pub url: Seq<char>,
    pub headers: Seq<(Seq<char>, Seq<char>)>,
    pub timeout_seconds: u64,
}

impl View for UpstreamRequest {
    type V = UpstreamRequestView;

    open spec fn view(&self) -> UpstreamRequestView {
        UpstreamRequestView {
            url: self.url@,
            headers: Seq::new(
                self.headers@.len(),
                |i: int| (self.headers@[i].0@, self.headers@[i].1@),
            ),
            timeout_seconds: self.timeout_seconds,
        }
    }
}

/// How long an answer of the upstream is waited for, in seconds.
pub const UPSTREAM_TIMEOUT_SECONDS: u64 = 10;

/// The address that a query is sent to.
pub open spec fn upstream_url(query: UpstreamQueryView) -> Seq<char> {
    "https://api.openweathermap.org/data/2.5/onecall?lat="@ + query.coordinates.lat + "&lon="@
        + query.coordinates.lon + "&exclude="@ + exclude_text(query.exclude) + "&appid="@
        + query.api_key
}

/// The headers that every request to the upstream bears.
pub open spec fn upstream_headers() -> Seq<(Seq<char>, Seq<char>)> {
    seq![("content-type"@, "application/json"@), ("accept"@, "application/json"@)]
}

/// The request that carries `query`.
pub open spec fn request_for(query: UpstreamQueryView) -> UpstreamRequestView {
    UpstreamRequestView {
        url: upstream_url(query),
        headers: upstream_headers(),
        timeout_seconds: UPSTREAM_TIMEOUT_SECONDS,
    }
}

impl UpstreamQuery {
    /// The query for a place that leaves out the sections of `exclude`.
    pub fn new(coordinates: Coordinates, exclude: Vec<Section>, api_key: String) -> (r:
        UpstreamQuery)
        ensures
            r@ == (UpstreamQueryView {
                coordinates: coordinates@,
                exclude: exclude@,
                api_key: api_key@,
            }),
    {
        UpstreamQuery { coordinates, exclude, api_key }
    }

    /// The query that `endpoint` sends for a place.
    pub fn for_endpoint(endpoint: Endpoint, coordinates: Coordinates, api_key: String) -> (r:
        UpstreamQuery)
        ensures
            r@ == (UpstreamQueryView {
                coordinates: coordinates@,
                exclude: endpoint.exclusions(),
                api_key: api_key@,
            }),
    {
        UpstreamQuery { coordinates, exclude: endpoint.exclude(), api_key }
    }

    /// The place that is asked about.
    pub fn coordinates(&self) -> (r: &Coordinates)
        ensures
            r@ == self@.coordinates,
    {
        &self.coordinates
    }

    /// The sections that the answer is to leave out.
    pub fn exclude(&self) -> (r: &Vec<Section>)
        ensures
            r@ == self@.exclude,
    {
        &self.exclude
    }

    /// The key that the upstream knows the caller by.
    pub fn api_key(&self) -> (r: &str)
        ensures
            r@ == self@.api_key,
    {
        self.api_key.as_str()
    }

    /// Builds the request that carries this query. The place is written as it
    /// is, whether or not it lies on the globe.
    pub fn build(self) -> (r: UpstreamRequest)
        ensures
            r@ == request_for(self@),
    {
        let mut url = String::from_str("https://api.openweathermap.org/data/2.5/onecall?lat=");
        url.append(self.coordinates.lat.as_str());
        url.append("&lon=");
        url.append(self.coordinates.lon.as_str());
        url.append("&exclude=");
        let sections = write_exclusions(&self.exclude);
        url.append(sections.as_str());
        url.append("&appid=");
        url.append(self.api_key.as_str());
        let mut headers: Vec<(String, String)> = Vec::new();
        headers.push((String::from_str("content-type"), String::from_str("application/json")));
        headers.push((String::from_str("accept"), String::from_str("application/json")));
        let r = UpstreamRequest { url, headers, timeout_seconds: UPSTREAM_TIMEOUT_SECONDS };
        assert(r@.headers =~= upstream_headers());
        r
    }
}

} // verus!
