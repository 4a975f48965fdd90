//! Answers to requests.
use vstd::prelude::*;

verus! {

pub const OK: u16 = 200;

pub const CREATED: u16 = 201;

pub const BAD_REQUEST: u16 = 400;

pub const FORBIDDEN: u16 = 403;

pub const INTERNAL_SERVER_ERROR: u16 = 500;

/// A refusal or a failure, with the status code that it is answered with.
pub struct RelayError {
    pub status_code: u16,
    pub message: String,
}

impl View for RelayError {
    type V = (u16, Seq<char>);

    open spec fn view(&self) -> (u16, Seq<char>) {
        (self.status_code, self.message@)
    }
}

/// An answer: a status code and a body.
pub struct Response {
    pub status_code: u16,
    pub body: String,
}

impl View for Response {
    type V = (u16, Seq<char>);

    open spec fn view(&self) -> (u16, Seq<char>) {
        (self.status_code, self.body@)
    }
}

/// What came of a request: the text of a success, or the status code and the text of an error.
pub type Outcome = Result<Seq<char>, (u16, Seq<char>)>;

/// The outcome that a result stands for.
pub open spec fn outcome(result: Result<String, RelayError>) -> Outcome {
    match result {
        Ok(text) => Ok(text@),
        Err(err) => Err(err@),
    }
}

/// How an outcome is answered: a success with its text under 200, an error as it is.
pub open spec fn answer(outcome: Outcome) -> (u16, Seq<char>) {
    match outcome {
        Ok(text) => (OK, text),
        Err(err) => err,
    }
}

/// Answers a request with what came of it.
pub fn respond(result: Result<String, RelayError>) -> (response: Response)
    ensures
        response@ == answer(outcome(result)),
{
    match result {
        Ok(text) => Response { status_code: OK, body: text },
        Err(err) => Response { status_code: err.status_code, body: err.message },
    }
}

/// An error that is the client's.
pub fn bad_request(message: String) -> (err: RelayError)
    ensures
        err@ == (BAD_REQUEST, message@),
{
    RelayError { status_code: BAD_REQUEST, message }
}

/// An error that is not the client's.
pub fn internal_error(message: String) -> (err: RelayError)
    ensures
        err@ == (INTERNAL_SERVER_ERROR, message@),
{
    RelayError { status_code: INTERNAL_SERVER_ERROR, message }
}

} // verus!
