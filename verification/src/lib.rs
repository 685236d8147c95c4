//! Relay of weather data at the edge.
//!
//! A request comes in with, at best, a place in its metadata. The relay asks
//! the upstream weather service about that place, reads the answer against the
//! shape it expects, and tells the caller what it found: the data as JSON, or a
//! refusal.
//!
//! - [`query`] resolves the place and builds the request to the upstream.
//! - [`normalize`] classifies the upstream's status and body.
//! - [`handler`] steps through the handling of one request; its caller does the
//!   fetching and the sending.
//! - [`reply`] is what goes back to the caller, [`logging`] the line logged.
//! - [`payload`], [`response`], [`current`], [`daily`] and [`conditions`] hold
//!   the shapes of the data, and read and write them as [`json`] documents.
//! - [`codec`] reads and writes JSON text; [`decimal`] stands for numbers that
//!   are no integers.

pub mod codec;
pub mod conditions;
pub mod current;
pub mod daily;
pub mod decimal;
pub mod fields;
pub mod handler;
pub mod json;
pub mod logging;
pub mod normalize;
pub mod payload;
pub mod query;
pub mod reply;
pub mod response;
