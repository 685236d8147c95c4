//! The line that is logged for a request.
//!
//! In a log line a coordinate is written with its fraction, `-74.0` and not
//! `-74`, which is not how it is written in the address of a query. The place
//! handed to [`log_line`] therefore holds texts of its own, written for the
//! log. A request that names no place is logged at zero and zero.

use vstd::prelude::*;
use crate::query::{Coordinates, CoordinatesView};

verus! {

/// The region named in a log line: the one given, or words that say that none
/// is known.
pub open spec fn region_text(region: Option<Seq<char>>) -> Seq<char> {
    match region {
        Some(region) => region,
        None => "unknown region"@,
    }
}

/// The place named in a log line: latitude and longitude between brackets, as
/// they were handed over, or zero and zero where the request names no place.
pub open spec fn place_text(located: Option<CoordinatesView>) -> Seq<char> {
    match located {
        Some(place) => "("@ + place.lat + ", "@ + place.lon + ")"@,
        None => "(0.0, 0.0)"@,
    }
}

/// The line logged for a request: when it came, for which path, for which
/// place, and from which region. It holds nothing else of the request, and no
/// key.
pub open spec fn log_text(
    timestamp: Seq<char>,
    path: Seq<char>,
    located: Option<CoordinatesView>,
    region: Option<Seq<char>>,
) -> Seq<char> {
    timestamp + " - ["@ + path + "], located at: "@ + place_text(located) + ", within: "@
        + region_text(region)
}

/// The value of an optional region.
pub open spec fn region_view(region: Option<&str>) -> Option<Seq<char>> {
    match region {
        Some(region) => Some(region@),
        None => None,
    }
}

/// The value of an optional place.
pub open spec fn place_view(located: Option<&Coordinates>) -> Option<CoordinatesView> {
    match located {
        Some(place) => Some(place@),
        None => None,
    }
}

/// Writes the place named in a log line.
pub fn write_place(located: Option<&Coordinates>) -> (r: String)
    ensures
        r@ == place_text(place_view(located)),
{
    match located {
        Some(place) => {
            let mut text = String::from_str("(");
            text.append(place.lat.as_str());
            text.append(", ");
            text.append(place.lon.as_str());
            text.append(")");
            text
        },
        None => String::from_str("(0.0, 0.0)"),
    }
}

/// Writes the line logged for a request. `located` is the place that the
/// request's metadata names, if it names one, with each coordinate written as
/// the log is to show it.
pub fn log_line(
    timestamp: &str,
    path: &str,
    located: Option<&Coordinates>,
    region: Option<&str>,
) -> (r: String)
    ensures
        r@ == log_text(timestamp@, path@, place_view(located), region_view(region)),
{
    let mut line = String::from_str(timestamp);
    line.append(" - [");
    line.append(path);
    line.append("], located at: ");
    let place = write_place(located);
    line.append(place.as_str());
    line.append(", within: ");
    match region {
        Some(region) => line.append(region),
        None => line.append("unknown region"),
    }
    line
}

} // verus!
