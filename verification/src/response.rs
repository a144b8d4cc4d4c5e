//! The response that a handler hands back to the client.

use crate::row::RowDecodeError;
use vstd::prelude::*;

verus! {

/// Status of a page that was rendered.
pub const STATUS_OK: u16 = 200;

/// Status of every request that failed while it was handled.
pub const STATUS_SERVER_ERROR: u16 = 500;

/// Body of every response with [`STATUS_SERVER_ERROR`]. It says nothing of
/// what failed.
pub const SERVER_ERROR_BODY: &'static str = "Internal Server Error";

/// What can fail while one request is handled. None of these ends the
/// process or the task that serves the request.
#[derive(Debug, Clone, Copy, PartialEq, Eq, Structural)]
pub enum PageError {
    /// The statement could not be prepared or run.
    Query,
    /// A row could not be converted into a record.
    Decode(RowDecodeError),
    /// The template is missing or does not fit the context.
    Render,
}

/// The statement of a page failed to prepare or to run.
#[derive(Debug)]
pub struct QueryError {
    /// What the database engine said. It never reaches the client.
    pub message: String,
}

/// Status and body of an HTML response.
#[derive(Debug, PartialEq, Eq)]
pub struct Response {
    pub status: u16,
    pub body: String,
}

/// The response to a request whose handling ended in `outcome`, as status
/// and body.
pub open spec fn response_of(outcome: Result<Seq<char>, PageError>) -> (u16, Seq<char>) {
    match outcome {
        Ok(html) => (STATUS_OK, html),
        Err(_) => (STATUS_SERVER_ERROR, SERVER_ERROR_BODY@),
    }
}

/// The outcome without its string's representation.
pub open spec fn outcome_view(outcome: Result<String, PageError>) -> Result<
    Seq<char>,
    PageError,
> {
    match outcome {
        Ok(html) => Ok(html@),
        Err(e) => Err(e),
    }
}

impl Response {
    /// Status and body as mathematical values.
    pub open spec fn parts(&self) -> (u16, Seq<char>) {
        (self.status, self.body@)
    }
}

/// Ends the handling of a request: the rendered page with status 200, or,
/// whatever failed, status 500 with the generic body.
pub fn respond(outcome: Result<String, PageError>) -> (response: Response)
    ensures
        response.parts() == response_of(outcome_view(outcome)),
{
    match outcome {
        Ok(html) => Response { status: STATUS_OK, body: html },
        Err(_) => Response { status: STATUS_SERVER_ERROR, body: SERVER_ERROR_BODY.to_owned() },
    }
}

/// Every failure gives the same response, with status 500: the client
/// cannot tell from it what failed.
pub proof fn lemma_failure_is_generic(e1: PageError, e2: PageError)
    ensures
        response_of(Err(e1)) == response_of(Err(e2)),
        response_of(Err(e1)).0 == 500,
{
}

} // verus!
