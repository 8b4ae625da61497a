//! The errors that request handling answers with.
use vstd::prelude::*;

use crate::text::owned;

verus! {

#[derive(Debug, Clone, PartialEq, Eq)]
pub enum AppError {
    BadRequest(String),
    NotFound(String),
    Unauthorized(String),
    TooManyRequests(String),
    Internal,
}

/// The model of an [`AppError`].
pub enum AppErrorSpec {
    BadRequest(Seq<char>),
    NotFound(Seq<char>),
    Unauthorized(Seq<char>),
    TooManyRequests(Seq<char>),
    Internal,
}

impl View for AppError {
    type V = AppErrorSpec;

    open spec fn view(&self) -> AppErrorSpec {
        match self {
            AppError::BadRequest(m) => AppErrorSpec::BadRequest(m@),
            AppError::NotFound(m) => AppErrorSpec::NotFound(m@),
            AppError::Unauthorized(m) => AppErrorSpec::Unauthorized(m@),
            AppError::TooManyRequests(m) => AppErrorSpec::TooManyRequests(m@),
            AppError::Internal => AppErrorSpec::Internal,
        }
    }
}

/// The model of a result that carries no value.
pub open spec fn outcome(r: Result<(), AppError>) -> Result<(), AppErrorSpec> {
    match r {
        Ok(_) => Ok(()),
        Err(e) => Err(e@),
    }
}

/// A bad request with the given message.
pub fn bad(msg: &str) -> (r: AppError)
    ensures
        r@ == AppErrorSpec::BadRequest(msg@),
{
    AppError::BadRequest(owned(msg))
}

pub open spec fn missing_auth_request() -> AppErrorSpec {
    AppErrorSpec::BadRequest("AuthRequest doesn't exist"@)
}

/// The answer to every lookup of a login request that fails.
pub fn bad_request() -> (r: AppError)
    ensures
        r@ == missing_auth_request(),
{
    bad("AuthRequest doesn't exist")
}

/// The HTTP status and the message of an error response.
pub open spec fn status_and_message(e: AppErrorSpec) -> (u16, Seq<char>) {
    match e {
        AppErrorSpec::NotFound(m) => (404, m),
        AppErrorSpec::BadRequest(m) => (400, m),
        AppErrorSpec::Unauthorized(m) => (401, m),
        AppErrorSpec::TooManyRequests(m) => (429, m),
        AppErrorSpec::Internal => (500, "Internal server error"@),
    }
}

/// The status and message that an error is answered with.
pub fn error_status_and_message(err: &AppError) -> (r: (u16, String))
    ensures
        (r.0, r.1@) == status_and_message(err@),
        err@ is NotFound ==> r.0 == 404,
        err@ is BadRequest ==> r.0 == 400,
        err@ is Unauthorized ==> r.0 == 401,
        err@ is TooManyRequests ==> r.0 == 429,
        err@ is Internal ==> r.0 == 500 && r.1@ == "Internal server error"@,
        match err@ {
            AppErrorSpec::NotFound(m) | AppErrorSpec::BadRequest(m) | AppErrorSpec::Unauthorized(m)
            | AppErrorSpec::TooManyRequests(m) => r.1@ == m,
            AppErrorSpec::Internal => true,
        },
{
    match err {
        AppError::NotFound(msg) => (404, owned(msg.as_str())),
        AppError::BadRequest(msg) => (400, owned(msg.as_str())),
        AppError::Unauthorized(msg) => (401, owned(msg.as_str())),
        AppError::TooManyRequests(msg) => (429, owned(msg.as_str())),
        AppError::Internal => (500, owned("Internal server error")),
    }
}

} // verus!
