//! The handling of one request for weather data, step by step.
//!
//! Handling a request is a run through five stages, in this order and without
//! a way back. The caller of [`Pipeline::step`] does what each [`Action`] asks
//! and reports what came of it as the next [`Event`].

use vstd::prelude::*;
use crate::codec::json_parse;
use crate::normalize::{
    normalize, normalize_spec, Failure, Outcome, OutcomeView, STATUS_INTERNAL_ERROR,
};
use crate::payload::Endpoint;
use crate::query::{
    located_view, request_for, resolved, Coordinates, CoordinatesView, UpstreamQuery,
    UpstreamQueryView, UpstreamRequest, UpstreamRequestView,
};
use crate::reply::{failure_reply, reply_of, ContentType, Reply, ReplyView};

verus! {

/// How far the handling of a request has come.
#[derive(Debug, Clone, Copy, PartialEq, Eq, Structural)]
pub enum Stage {
    Received,
    CoordinatesResolved,
    UpstreamRequestSent,
    ResponseClassified,
    Completed,
}

impl Stage {
    /// The place of the stage in the order of handling.
    pub open spec fn rank(self) -> nat {
        match self {
            Stage::Received => 0,
            Stage::CoordinatesResolved => 1,
            Stage::UpstreamRequestSent => 2,
            Stage::ResponseClassified => 3,
            Stage::Completed => 4,
        }
    }
}

/// The handling of one request: its stage, and what is known at that stage.
#[derive(Debug, PartialEq)]
pub enum Pipeline {
    /// The request has come in.
    Received { endpoint: Endpoint },
    /// The place to answer for is known.
    CoordinatesResolved { endpoint: Endpoint, coordinates: Coordinates },
    /// The query is on its way to the upstream.
    UpstreamRequestSent { endpoint: Endpoint },
    /// The upstream's answer has been read.
    ResponseClassified { outcome: Outcome },
    /// Nothing is left to do.
    Completed,
}

/// The value of a [`Pipeline`].
pub enum PipelineView {
    Received { endpoint: Endpoint },
    CoordinatesResolved { endpoint: Endpoint, coordinates: CoordinatesView },
    UpstreamRequestSent { endpoint: Endpoint },
    ResponseClassified { outcome: OutcomeView },
    Completed,
}

impl View for Pipeline {
    type V = PipelineView;

    open spec fn view(&self) -> PipelineView {
        match self {
            Pipeline::Received { endpoint } => PipelineView::Received { endpoint: *endpoint },
            Pipeline::CoordinatesResolved { endpoint, coordinates } => {
                PipelineView::CoordinatesResolved { endpoint: *endpoint, coordinates: coordinates@ }
            },
            Pipeline::UpstreamRequestSent { endpoint } => PipelineView::UpstreamRequestSent {
                endpoint: *endpoint,
            },
            Pipeline::ResponseClassified { outcome } => PipelineView::ResponseClassified {
                outcome: outcome@,
            },
            Pipeline::Completed => PipelineView::Completed,
        }
    }
}

impl PipelineView {
    /// How far the handling has come.
    pub open spec fn stage(self) -> Stage {
        match self {
            PipelineView::Received { .. } => Stage::Received,
            PipelineView::CoordinatesResolved { .. } => Stage::CoordinatesResolved,
            PipelineView::UpstreamRequestSent { .. } => Stage::UpstreamRequestSent,
            PipelineView::ResponseClassified { .. } => Stage::ResponseClassified,
            PipelineView::Completed => Stage::Completed,
        }
    }
}

/// What the outside reports to the handling of a request. It cannot be
/// printed: it may hold the key.
#[derive(PartialEq)]
pub enum Event {
    /// The request's metadata has been read: it names this place, or none.
    Located(Option<Coordinates>),
    /// The configuration has been asked for the key of the upstream: it holds
    /// this one, or none.
    Configured(Option<String>),
    /// The upstream has answered.
    Answered { status: u16, body: Vec<u8> },
    /// The upstream could not be reached, or gave no answer in time.
    Unreachable,
    /// Handling may go on.
    Resumed,
}

/// The value of an [`Event`].
pub enum EventView {
    Located(Option<CoordinatesView>),
    Configured(Option<Seq<char>>),
    Answered { status: u16, body: Seq<u8> },
    Unreachable,
    Resumed,
}

/// The value of an optional key.
pub open spec fn key_view(key: Option<String>) -> Option<Seq<char>> {
    match key {
        Some(key) => Some(key@),
        None => None,
    }
}

impl View for Event {
    type V = EventView;

    open spec fn view(&self) -> EventView {
        match self {
            Event::Located(located) => EventView::Located(located_view(*located)),
            Event::Configured(key) => EventView::Configured(key_view(*key)),
            Event::Answered { status, body } => EventView::Answered {
                status: *status,
                body: body@,
            },
            Event::Unreachable => EventView::Unreachable,
            Event::Resumed => EventView::Resumed,
        }
    }
}

/// What the handling of a request asks of the outside. It cannot be printed:
/// it may hold the key.
#[derive(PartialEq)]
pub enum Action {
    /// Ask the configuration for the key of the upstream, and report
    /// [`Event::Configured`].
    LoadKey,
    /// Send this request to the upstream, and report [`Event::Answered`] or
    /// [`Event::Unreachable`].
    Send(UpstreamRequest),
    /// Report [`Event::Resumed`].
    Resume,
    /// Send this reply to the caller.
    Respond(Reply),
    /// Give the request up: the service cannot serve it as it is set up.
    Abort(Failure),
    /// Do nothing.
    Nothing,
}

/// The value of an [`Action`].
pub enum ActionView {
    LoadKey,
    Send(UpstreamRequestView),
    Resume,
    Respond(ReplyView),
    Abort(Failure),
    Nothing,
}

impl View for Action {
    type V = ActionView;

    open spec fn view(&self) -> ActionView {
        match self {
            Action::LoadKey => ActionView::LoadKey,
            Action::Send(request) => ActionView::Send(request@),
            Action::Resume => ActionView::Resume,
            Action::Respond(reply) => ActionView::Respond(reply@),
            Action::Abort(failure) => ActionView::Abort(*failure),
            Action::Nothing => ActionView::Nothing,
        }
    }
}

/// The reply to a request whose handling was reported an event out of turn.
pub open spec fn out_of_turn_reply() -> ReplyView {
    ReplyView {
        status: STATUS_INTERNAL_ERROR,
        content_type: ContentType::Unset,
        body: "Internal Server Error"@,
    }
}

/// The query that `endpoint` sends for a place.
pub open spec fn query_for(
    endpoint: Endpoint,
    coordinates: CoordinatesView,
    key: Seq<char>,
) -> UpstreamQueryView {
    UpstreamQueryView { coordinates, exclude: endpoint.exclusions(), api_key: key }
}

/// One step of handling: the state that follows `state` on `event`, and what
/// is asked of the outside.
///
/// Each stage awaits one kind of event, and the stage in which the query is on
/// its way awaits two. An event out of turn ends the handling with a reply
/// that reports an error of the service. Once completed, the handling takes
/// no event up.
pub open spec fn step_spec(state: PipelineView, event: EventView) -> (PipelineView, ActionView) {
    match state {
        PipelineView::Completed => (PipelineView::Completed, ActionView::Nothing),
        PipelineView::Received { endpoint } => match event {
            EventView::Located(located) => (
                PipelineView::CoordinatesResolved { endpoint, coordinates: resolved(located) },
                ActionView::LoadKey,
            ),
            _ => (PipelineView::Completed, ActionView::Respond(out_of_turn_reply())),
        },
        PipelineView::CoordinatesResolved { endpoint, coordinates } => match event {
            EventView::Configured(Some(key)) => (
                PipelineView::UpstreamRequestSent { endpoint },
                ActionView::Send(request_for(query_for(endpoint, coordinates, key))),
            ),
            EventView::Configured(None) => (
                PipelineView::Completed,
                ActionView::Abort(Failure::ConfigurationMissing),
            ),
            _ => (PipelineView::Completed, ActionView::Respond(out_of_turn_reply())),
        },
        PipelineView::UpstreamRequestSent { endpoint } => match event {
            EventView::Answered { status, body } => (
                PipelineView::ResponseClassified {
                    outcome: normalize_spec(endpoint, status, json_parse(body)),
                },
                ActionView::Resume,
            ),
            EventView::Unreachable => (
                PipelineView::Completed,
                ActionView::Respond(failure_reply(Failure::UpstreamUnreachable)),
            ),
            _ => (PipelineView::Completed, ActionView::Respond(out_of_turn_reply())),
        },
        PipelineView::ResponseClassified { outcome } => match event {
            EventView::Resumed => (PipelineView::Completed, ActionView::Respond(reply_of(outcome))),
            _ => (PipelineView::Completed, ActionView::Respond(out_of_turn_reply())),
        },
    }
}

/// The reply to a request whose handling was reported an event out of turn.
fn out_of_turn() -> (r: (Pipeline, Action))
    ensures
        r.0@ == PipelineView::Completed,
        r.1@ == ActionView::Respond(out_of_turn_reply()),
{
    let reply = Reply {
        status: STATUS_INTERNAL_ERROR,
        content_type: ContentType::Unset,
        body: String::from_str("Internal Server Error"),
    };
    (Pipeline::Completed, Action::Respond(reply))
}

impl Pipeline {
    /// The handling of a request that has just come in for `endpoint`.
    pub fn new(endpoint: Endpoint) -> (r: Pipeline)
        ensures
            r@ == (PipelineView::Received { endpoint }),
    {
        Pipeline::Received { endpoint }
    }

    /// How far the handling has come.
    pub fn stage(&self) -> (r: Stage)
        ensures
            r == self@.stage(),
    {
        match self {
            Pipeline::Received { .. } => Stage::Received,
            Pipeline::CoordinatesResolved { .. } => Stage::CoordinatesResolved,
            Pipeline::UpstreamRequestSent { .. } => Stage::UpstreamRequestSent,
            Pipeline::ResponseClassified { .. } => Stage::ResponseClassified,
            Pipeline::Completed => Stage::Completed,
        }
    }

    /// Takes `event` up: gives the state that follows, and what is now asked of
    /// the outside.
    pub fn step(self, event: Event) -> (r: (Pipeline, Action))
        ensures
            (r.0@, r.1@) == step_spec(self@, event@),
            self@.stage() != Stage::Completed ==> r.0@.stage().rank() > self@.stage().rank(),
            self@.stage() == Stage::UpstreamRequestSent && event@ == EventView::Unreachable
                ==> r.0@ == PipelineView::Completed && r.1@ == ActionView::Respond(
                failure_reply(Failure::UpstreamUnreachable),
            ),
    {
        match self {
            Pipeline::Completed => (Pipeline::Completed, Action::Nothing),
            Pipeline::Received { endpoint } => match event {
                Event::Located(located) => {
                    let coordinates = Coordinates::resolve(located);
                    (Pipeline::CoordinatesResolved { endpoint, coordinates }, Action::LoadKey)
                },
                _ => out_of_turn(),
            },
            Pipeline::CoordinatesResolved { endpoint, coordinates } => match event {
                Event::Configured(Some(key)) => {
                    let query = UpstreamQuery::for_endpoint(endpoint, coordinates, key);
                    (Pipeline::UpstreamRequestSent { endpoint }, Action::Send(query.build()))
                },
                Event::Configured(None) => (
                    Pipeline::Completed,
                    Action::Abort(Failure::ConfigurationMissing),
                ),
                _ => out_of_turn(),
            },
            Pipeline::UpstreamRequestSent { endpoint } => match event {
                Event::Answered { status, body } => {
                    let outcome = normalize(endpoint, status, body.as_slice());
                    (Pipeline::ResponseClassified { outcome }, Action::Resume)
                },
                Event::Unreachable => (
                    Pipeline::Completed,
                    Action::Respond(Reply::from_failure(Failure::UpstreamUnreachable)),
                ),
                _ => out_of_turn(),
            },
            Pipeline::ResponseClassified { outcome } => match event {
                Event::Resumed => (
                    Pipeline::Completed,
                    Action::Respond(Reply::from_outcome(&outcome)),
                ),
                _ => out_of_turn(),
            },
        }
    }
}

/// While the handling is not completed, every event moves it to a later stage:
/// no stage is entered twice, and a run takes four steps at most.
pub proof fn lemma_step_advances(state: PipelineView, event: EventView)
    requires
        state.stage() != Stage::Completed,
    ensures
        step_spec(state, event).0.stage().rank() > state.stage().rank(),
{
}

/// A handling that is completed stays so and asks nothing more.
pub proof fn lemma_completed_is_final(event: EventView)
    ensures
        step_spec(PipelineView::Completed, event) == (
            PipelineView::Completed,
            ActionView::Nothing,
        ),
{
}

/// A query is sent only on leaving the stage in which the place is known, so
/// at most once for a request: an answer that fails is not asked for again.
pub proof fn lemma_sends_once(state: PipelineView, event: EventView)
    requires
        step_spec(state, event).1 is Send,
    ensures
        state.stage() == Stage::CoordinatesResolved,
        step_spec(state, event).0.stage() == Stage::UpstreamRequestSent,
{
}

/// Where the upstream cannot be reached while its answer is awaited, the
/// handling ends with a reply whose status reports an error of the server.
pub proof fn lemma_unreachable_is_server_error(endpoint: Endpoint)
    ensures
        step_spec(PipelineView::UpstreamRequestSent { endpoint }, EventView::Unreachable) == (
            PipelineView::Completed,
            ActionView::Respond(failure_reply(Failure::UpstreamUnreachable)),
        ),
        500 <= failure_reply(Failure::UpstreamUnreachable).status <= 599,
{
}

/// The states that a served request passes through, and the reply it ends
/// with: the place is resolved, the query for it is sent, and what the
/// upstream answered is told to the caller.
pub proof fn lemma_served_request(
    endpoint: Endpoint,
    located: Option<CoordinatesView>,
    key: Seq<char>,
    status: u16,
    body: Seq<u8>,
)
    ensures
        ({
            let s0 = PipelineView::Received { endpoint };
            let (s1, a1) = step_spec(s0, EventView::Located(located));
            let (s2, a2) = step_spec(s1, EventView::Configured(Some(key)));
            let (s3, a3) = step_spec(s2, EventView::Answered { status, body });
            let (s4, a4) = step_spec(s3, EventView::Resumed);
            &&& a1 == ActionView::LoadKey
            &&& a2 == ActionView::Send(request_for(query_for(endpoint, resolved(located), key)))
            &&& a3 == ActionView::Resume
            &&& a4 == ActionView::Respond(
                reply_of(normalize_spec(endpoint, status, json_parse(body))),
            )
            &&& s4 == PipelineView::Completed
        }),
{
}

} // verus!
