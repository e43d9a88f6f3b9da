use vstd::prelude::*;
use crate::text::join2;

verus! {

/// The error type that every operation of the platform reports.
///
/// Each variant carries the human-readable message that is sent back to the
/// caller; `Database` carries the text of the storage failure.
#[derive(Debug, Clone, PartialEq, Eq)]
pub enum AppError {
    Auth(String),
    BadRequest(String),
    Conflict(String),
    Database(String),
    Forbidden(String),
    Internal(String),
    NotFound(String),
    Validation(String),
}

/// The HTTP status code that belongs to each kind of error.
pub open spec fn spec_error_code(e: AppError) -> u16 {
    match e {
        AppError::Auth(_) => 401,
        AppError::BadRequest(_) => 400,
        AppError::Conflict(_) => 409,
        AppError::Database(_) => 500,
        AppError::Forbidden(_) => 403,
        AppError::Internal(_) => 500,
        AppError::NotFound(_) => 404,
        AppError::Validation(_) => 400,
    }
}

/// The message carried by an error.
pub open spec fn spec_error_message(e: AppError) -> Seq<char> {
    match e {
        AppError::Auth(m) => m@,
        AppError::BadRequest(m) => m@,
        AppError::Conflict(m) => m@,
        AppError::Database(m) => m@,
        AppError::Forbidden(m) => m@,
        AppError::Internal(m) => m@,
        AppError::NotFound(m) => m@,
        AppError::Validation(m) => m@,
    }
}

impl AppError {
    pub fn auth(msg: &str) -> (e: AppError)
        ensures
            e matches AppError::Auth(m) && m@ == msg@,
    {
        AppError::Auth(String::from_str(msg))
    }

    pub fn bad_request(msg: &str) -> (e: AppError)
        ensures
            e matches AppError::BadRequest(m) && m@ == msg@,
    {
        AppError::BadRequest(String::from_str(msg))
    }

    pub fn conflict(msg: &str) -> (e: AppError)
        ensures
            e matches AppError::Conflict(m) && m@ == msg@,
    {
        AppError::Conflict(String::from_str(msg))
    }

    pub fn forbidden(msg: &str) -> (e: AppError)
        ensures
            e matches AppError::Forbidden(m) && m@ == msg@,
    {
        AppError::Forbidden(String::from_str(msg))
    }

    pub fn internal(msg: &str) -> (e: AppError)
        ensures
            e matches AppError::Internal(m) && m@ == msg@,
    {
        AppError::Internal(String::from_str(msg))
    }

    pub fn not_found(msg: &str) -> (e: AppError)
        ensures
            e matches AppError::NotFound(m) && m@ == msg@,
    {
        AppError::NotFound(String::from_str(msg))
    }

    pub fn validation(msg: &str) -> (e: AppError)
        ensures
            e matches AppError::Validation(m) && m@ == msg@,
    {
        AppError::Validation(String::from_str(msg))
    }

    /// The HTTP status code reported for this error.
    pub fn error_code(&self) -> (code: u16)
        ensures
            code == spec_error_code(*self),
    {
        match self {
            AppError::Auth(_) => 401,
            AppError::BadRequest(_) => 400,
            AppError::Conflict(_) => 409,
            AppError::Database(_) => 500,
            AppError::Forbidden(_) => 403,
            AppError::Internal(_) => 500,
            AppError::NotFound(_) => 404,
            AppError::Validation(_) => 400,
        }
    }

    /// Errors caused by the request (status 4xx).
    pub fn is_client_error(&self) -> (b: bool)
        ensures
            b == (400 <= spec_error_code(*self) < 500),
    {
        let code = self.error_code();
        400 <= code && code < 500
    }

    /// Errors caused by the server (status 5xx).
    pub fn is_server_error(&self) -> (b: bool)
        ensures
            b == (500 <= spec_error_code(*self) < 600),
    {
        let code = self.error_code();
        500 <= code && code < 600
    }

    /// The message carried by this error.
    pub fn message(&self) -> (m: String)
        ensures
            m@ == spec_error_message(*self),
    {
        match self {
            AppError::Auth(m) => m.clone(),
            AppError::BadRequest(m) => m.clone(),
            AppError::Conflict(m) => m.clone(),
            AppError::Database(m) => m.clone(),
            AppError::Forbidden(m) => m.clone(),
            AppError::Internal(m) => m.clone(),
            AppError::NotFound(m) => m.clone(),
            AppError::Validation(m) => m.clone(),
        }
    }
}


/// The words that introduce each kind of error in its text.
pub open spec fn spec_error_prefix(e: AppError) -> Seq<char> {
    match e {
        AppError::Auth(_) => "Authentication failed: "@,
        AppError::BadRequest(_) => "Bad request: "@,
        AppError::Conflict(_) => "Conflict: "@,
        AppError::Database(_) => "Database error: "@,
        AppError::Forbidden(_) => "Forbidden: "@,
        AppError::Internal(_) => "Internal server error: "@,
        AppError::NotFound(_) => "Not found: "@,
        AppError::Validation(_) => "Validation error: "@,
    }
}

impl AppError {
    /// The error as a sentence: its kind, a colon, and its message.
    pub fn to_text(&self) -> (t: String)
        ensures
            t@ == spec_error_prefix(*self) + spec_error_message(*self),
    {
        match self {
            AppError::Auth(m) => join2("Authentication failed: ", m.as_str()),
            AppError::BadRequest(m) => join2("Bad request: ", m.as_str()),
            AppError::Conflict(m) => join2("Conflict: ", m.as_str()),
            AppError::Database(m) => join2("Database error: ", m.as_str()),
            AppError::Forbidden(m) => join2("Forbidden: ", m.as_str()),
            AppError::Internal(m) => join2("Internal server error: ", m.as_str()),
            AppError::NotFound(m) => join2("Not found: ", m.as_str()),
            AppError::Validation(m) => join2("Validation error: ", m.as_str()),
        }
    }
}


/// The error a request gets when the service layer fails underneath it: a
/// timeout is `Internal("Request timeout")`, anything else
/// `Internal("Internal server error")`.
pub fn service_failure(timed_out: bool) -> (e: AppError)
    ensures
        timed_out ==> (e matches AppError::Internal(m) && m@ == "Request timeout"@),
        !timed_out ==> (e matches AppError::Internal(m) && m@ == "Internal server error"@),
{
    if timed_out {
        AppError::internal("Request timeout")
    } else {
        AppError::internal("Internal server error")
    }
}

} // verus!
