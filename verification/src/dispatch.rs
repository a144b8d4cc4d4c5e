//! The dispatcher as a state machine: a request is received, the page's
//! query is run, the page's template is rendered, and a response ends it.
//! The caller runs the query and the rendering that the machine asks for
//! and hands each outcome back.

use crate::engine::{context_variables, engine_outcome};
use crate::handler::{finish, handle, is_request_of, query_serves, RenderRequest};
use crate::response::{respond, response_of, PageError, QueryError, Response};
use crate::route::{
    page_of_path, parameter_views, parameters_of_page, route, shape_of_page, sql_of_page,
    template_of_page, Page, PagePlan,
};
use crate::row::{rows_cells, SqlCell, SqlValue};
use vstd::prelude::*;

verus! {

/// Where the handling of one request stands.
#[derive(Debug, Clone, Copy, PartialEq, Eq, Structural)]
pub enum RequestState {
    /// No request was received yet.
    Idle,
    /// The page's query is being run.
    Handling(Page),
    /// The page's template is being rendered.
    Rendering(Page),
    /// The response with this status was made. Nothing follows it.
    Responded(u16),
}

/// What happened outside the machine.
#[derive(Debug)]
pub enum Event {
    /// A `GET` request for this path came in.
    Received(String),
    /// The query of the page ended.
    Queried(Result<Vec<Vec<SqlValue>>, QueryError>),
    /// The rendering of the page's template ended.
    Rendered(Result<String, tera::Error>),
}

/// What the caller does next.
#[derive(Debug)]
pub enum Action {
    /// Nothing: the event is not for this machine in this state.
    Pass,
    /// Run this statement and hand its outcome back.
    RunQuery(PagePlan),
    /// Render this template with these variables and hand the outcome back.
    Render(RenderRequest),
    /// Send this response.
    Reply(Response),
}

/// The plan is that of the page.
pub open spec fn is_plan_of(plan: PagePlan, page: Page) -> bool {
    &&& plan.sql@ == sql_of_page(page)
    &&& parameter_views(plan.parameters@) == parameters_of_page(page)
    &&& plan.shape == shape_of_page(page)
    &&& plan.template@ == template_of_page(page)
}

/// The state that `event` leads to from `state`. A request leads from
/// `Idle` to the handling of the page that its path names. The rows of the
/// query lead on to the rendering, a failed query or a row that cannot be
/// converted to the response with status 500. The text of the rendering
/// leads to the response with status 200, its failure to that with status
/// 500. Every other event leaves the state as it is.
pub open spec fn next_state(state: RequestState, event: Event) -> RequestState {
    match (state, event) {
        (RequestState::Idle, Event::Received(path)) => match page_of_path(path@) {
            Some(page) => RequestState::Handling(page),
            None => RequestState::Idle,
        },
        (RequestState::Handling(page), Event::Queried(query)) => if query_serves(page, query) {
            RequestState::Rendering(page)
        } else {
            RequestState::Responded(500)
        },
        (RequestState::Rendering(_), Event::Rendered(outcome)) => if outcome is Ok {
            RequestState::Responded(200)
        } else {
            RequestState::Responded(500)
        },
        _ => state,
    }
}

/// The action that goes with the step from `state` on `event`.
pub open spec fn action_fits(state: RequestState, event: Event, action: Action) -> bool {
    match (state, event) {
        (RequestState::Idle, Event::Received(path)) => match page_of_path(path@) {
            Some(page) => action is RunQuery && is_plan_of(action->RunQuery_0, page),
            None => action is Pass,
        },
        (RequestState::Handling(page), Event::Queried(query)) => if query_serves(page, query) {
            action is Render && is_request_of(
                action->Render_0,
                page,
                rows_cells(query->Ok_0@),
            )
        } else {
            action is Reply && action->Reply_0.parts() == response_of(Err(PageError::Query))
        },
        (RequestState::Rendering(_), Event::Rendered(outcome)) => {
            action is Reply && action->Reply_0.parts() == response_of(engine_outcome(outcome))
        },
        _ => action is Pass,
    }
}

/// Takes one step: the next state and what the caller does next.
pub fn step(state: RequestState, event: Event) -> (out: (RequestState, Action))
    ensures
        out.0 == next_state(state, event),
        action_fits(state, event, out.1),
{
    match state {
        RequestState::Idle => match event {
            Event::Received(path) => match route(path.as_str()) {
                Some(page) => (RequestState::Handling(page), Action::RunQuery(page.plan())),
                None => (RequestState::Idle, Action::Pass),
            },
            _ => (state, Action::Pass),
        },
        RequestState::Handling(page) => match event {
            Event::Queried(query) => match handle(page, query) {
                Ok(request) => (RequestState::Rendering(page), Action::Render(request)),
                Err(e) => {
                    let response = respond(Err(e));
                    (RequestState::Responded(response.status), Action::Reply(response))
                },
            },
            _ => (state, Action::Pass),
        },
        RequestState::Rendering(_) => match event {
            Event::Rendered(outcome) => {
                let response = finish(outcome);
                (RequestState::Responded(response.status), Action::Reply(response))
            },
            _ => (state, Action::Pass),
        },
        RequestState::Responded(_) => (state, Action::Pass),
    }
}

/// A response ends the handling: no event leads anywhere from it.
pub proof fn lemma_responded_is_terminal(state: RequestState, event: Event)
    requires
        state is Responded,
    ensures
        next_state(state, event) == state,
{
}

/// A request is answered with status 200 or 500 and nothing else; with 500
/// whenever its query failed, a row cannot be converted or the rendering
/// failed; and with the same generic body on each of these.
pub proof fn lemma_response_status(state: RequestState, event: Event)
    requires
        !(state is Responded),
        next_state(state, event) is Responded,
    ensures
        next_state(state, event) == RequestState::Responded(200) || next_state(state, event)
            == RequestState::Responded(500),
        event is Queried ==> next_state(state, event) == RequestState::Responded(500),
        event is Rendered && event->Rendered_0 is Err ==> next_state(state, event)
            == RequestState::Responded(500),
        response_of(Err(PageError::Query)) == response_of(Err(PageError::Render)),
{
}

/// Two queries that give the same rows hand the engine the same template
/// name and the same variables.
pub proof fn lemma_same_rows_same_request(
    page: Page,
    rows: Seq<Seq<SqlCell>>,
    first: RenderRequest,
    second: RenderRequest,
)
    requires
        is_request_of(first, page, rows),
        is_request_of(second, page, rows),
    ensures
        first.template@ == second.template@,
        context_variables(first.variables) == context_variables(second.variables),
{
}

/// The response depends on nothing but the outcome of the rendering: two
/// renderings that give the same text, or that both fail, end in the same
/// state and the same response.
pub proof fn lemma_same_text_same_response(
    page: Page,
    first: Result<String, tera::Error>,
    second: Result<String, tera::Error>,
)
    requires
        engine_outcome(first) == engine_outcome(second),
    ensures
        response_of(engine_outcome(first)) == response_of(engine_outcome(second)),
        next_state(RequestState::Rendering(page), Event::Rendered(first)) == next_state(
            RequestState::Rendering(page),
            Event::Rendered(second),
        ),
{
}

} // verus!
