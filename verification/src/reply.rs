//! What is sent back to the caller.

use vstd::prelude::*;
use crate::codec::json_text;
use crate::normalize::{Failure, Outcome, OutcomeView, STATUS_OK};
use crate::payload::encode_payload;

verus! {

/// The kind of content that a reply declares.
#[derive(Debug, Clone, Copy, PartialEq, Eq, Structural)]
pub enum ContentType {
    /// `application/json`
    Json,
    /// `text/plain`
    PlainText,
    /// The reply declares none.
    Unset,
}

impl ContentType {
    /// The value of the header that declares the content, if one is sent.
    pub open spec fn header(self) -> Option<Seq<char>> {
        match self {
            ContentType::Json => Some("application/json"@),
            ContentType::PlainText => Some("text/plain"@),
            ContentType::Unset => None,
        }
    }

    /// The value of the header that declares the content, if one is sent.
    pub fn as_header(self) -> (r: Option<&'static str>)
        ensures
            match r {
                Some(value) => self.header() == Some(value@),
                None => self.header().is_none(),
            },
    {
        match self {
            ContentType::Json => Some("application/json"),
            ContentType::PlainText => Some("text/plain"),
            ContentType::Unset => None,
        }
    }
}

/// A reply to the caller: its status, the kind of its content, and its body.
#[derive(Debug, PartialEq, Eq)]
pub struct Reply {
    pub status: u16,
    pub content_type: ContentType,
    pub body: String,
}

/// The value of a [`Reply`].
pub struct ReplyView {
    pub status: u16,
    pub content_type: ContentType,
    pub body: Seq<char>,
}

impl View for Reply {
    type V = ReplyView;

    open spec fn view(&self) -> ReplyView {
        ReplyView { status: self.status, content_type: self.content_type, body: self.body@ }
    }
}

/// The reply that tells an outcome: a payload goes out as JSON text under the
/// status of success, a refusal as its words under its code.
pub open spec fn reply_of(outcome: OutcomeView) -> ReplyView {
    match outcome {
        OutcomeView::Success(payload) => ReplyView {
            status: STATUS_OK,
            content_type: ContentType::Json,
            body: json_text(encode_payload(payload)),
        },
        OutcomeView::ClientError { code, message } => ReplyView {
            status: code,
            content_type: ContentType::Unset,
            body: message,
        },
    }
}

/// The reply that reports a failure.
pub open spec fn failure_reply(failure: Failure) -> ReplyView {
    ReplyView {
        status: failure.status(),
        content_type: ContentType::Unset,
        body: failure.message(),
    }
}

/// The reply that names the version in service.
pub open spec fn version_reply(version: Seq<char>) -> ReplyView {
    ReplyView { status: STATUS_OK, content_type: ContentType::PlainText, body: version }
}

/// The value of a reply or the failure in its place.
pub open spec fn reply_result_view(r: Result<Reply, Failure>) -> Result<ReplyView, Failure> {
    match r {
        Ok(reply) => Ok(reply@),
        Err(failure) => Err(failure),
    }
}

impl Reply {
    /// The reply that tells `outcome`.
    pub fn from_outcome(outcome: &Outcome) -> (r: Reply)
        ensures
            r@ == reply_of(outcome@),
    {
        match outcome {
            Outcome::Success(payload) => Reply {
                status: STATUS_OK,
                content_type: ContentType::Json,
                body: payload.encode().render(),
            },
            Outcome::ClientError { code, message } => Reply {
                status: *code,
                content_type: ContentType::Unset,
                body: message.clone(),
            },
        }
    }

    /// The reply that reports `failure`.
    pub fn from_failure(failure: Failure) -> (r: Reply)
        ensures
            r@ == failure_reply(failure),
            400 <= r.status <= 599,
    {
        Reply {
            status: failure.status_code(),
            content_type: ContentType::Unset,
            body: failure.describe(),
        }
    }

    /// The reply to a request for the version in service, given the version
    /// that the configuration names, if it names one. Without one there is no
    /// reply: the service is misconfigured.
    pub fn version(configured: Option<String>) -> (r: Result<Reply, Failure>)
        ensures
            reply_result_view(r) == (match configured {
                Some(version) => Ok(version_reply(version@)),
                None => Err(Failure::ConfigurationMissing),
            }),
    {
        match configured {
            Some(version) => Ok(
                Reply { status: STATUS_OK, content_type: ContentType::PlainText, body: version },
            ),
            None => Err(Failure::ConfigurationMissing),
        }
    }
}

} // verus!
