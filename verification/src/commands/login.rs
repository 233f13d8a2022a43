//! Logging in: what a session URL's check decides.
use vstd::prelude::*;

use crate::commands::RequestError;

verus! {

/// What the login command does after checking the session of a session URL.
#[derive(Clone, Copy, Debug, PartialEq, Eq, Structural)]
pub enum SessionCheck {
    /// The session is valid: keep it.
    Valid,
    /// The vault refused the session (status 401): log in again on the same vault,
    /// asking for the username and password.
    LoginAgain,
    /// Any other failure: report it and end with a failure.
    Fail,
}

/// What the login command does with the answer to the session check: a 401 answer,
/// bare or with an error body, means the session expired.
pub open spec fn session_check_spec(answer: Result<(), RequestError>) -> SessionCheck {
    match answer {
        Ok(_) => SessionCheck::Valid,
        Err(RequestError::StatusCodeError(s)) => if s == 401 {
            SessionCheck::LoginAgain
        } else {
            SessionCheck::Fail
        },
        Err(RequestError::ApiError { status, .. }) => if status == 401 {
            SessionCheck::LoginAgain
        } else {
            SessionCheck::Fail
        },
        Err(_) => SessionCheck::Fail,
    }
}

/// What the login command does with the answer to the session check (see
/// `session_check_spec`); `answer` is `Ok` when the session's context was received.
pub fn session_check(answer: &Result<(), RequestError>) -> (r: SessionCheck)
    ensures
        r == session_check_spec(*answer),
{
    match answer {
        Ok(_) => SessionCheck::Valid,
        Err(RequestError::StatusCodeError(s)) => if *s == 401 {
            SessionCheck::LoginAgain
        } else {
            SessionCheck::Fail
        },
        Err(RequestError::ApiError { status, .. }) => if *status == 401 {
            SessionCheck::LoginAgain
        } else {
            SessionCheck::Fail
        },
        Err(_) => SessionCheck::Fail,
    }
}

/// An expired session, answered with status 401 with or without an error body, leads
/// to a new login; a received context keeps the session; any other status, and any
/// failure without a status, ends the command.
pub proof fn law_session_check(status: u16, code: String, message: String, e: RequestError)
    ensures
        session_check_spec(Ok(())) == SessionCheck::Valid,
        session_check_spec(Err(RequestError::StatusCodeError(status))) == (if status == 401 {
            SessionCheck::LoginAgain
        } else {
            SessionCheck::Fail
        }),
        session_check_spec(Err(RequestError::ApiError { status, code, message })) == (if status == 401 {
            SessionCheck::LoginAgain
        } else {
            SessionCheck::Fail
        }),
        e is HyperError || e is JSONError ==> session_check_spec(Err(e)) == SessionCheck::Fail,
{
}

} // verus!
