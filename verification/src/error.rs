use vstd::prelude::*;

verus! {

/// Errors surfaced by the authentication backend.
///
/// `Invalid` reports caller-supplied data that fails policy (recoverable,
/// user-correctable). `Internal` reports store failures, corrupt stored
/// hashes and hashing-primitive failures (not user-correctable). A failed
/// authentication is never an error: it is reported as `Ok(None)`, so that
/// a caller cannot tell a missing username from a wrong password.
#[derive(Clone, Debug, PartialEq)]
pub enum AppError {
    NotFound,
    Internal(String),
    Invalid(String),
}

impl AppError {
    /// The HTTP status code that each error maps to when it escapes to a
    /// web front end.
    pub fn status_code(&self) -> (code: u16)
        ensures
            code == match self {
                AppError::NotFound => 404u16,
                AppError::Internal(_) => 500u16,
                AppError::Invalid(_) => 406u16,
            },
    {
        match self {
            AppError::NotFound => 404,
            AppError::Internal(_) => 500,
            AppError::Invalid(_) => 406,
        }
    }

    /// A human-readable description of the error.
    pub fn message(&self) -> (msg: String)
        ensures
            msg@ == match self {
                AppError::NotFound => "Not Found"@,
                AppError::Internal(s) => "Internal Error: "@ + s@,
                AppError::Invalid(s) => "Invalid data: "@ + s@,
            },
    {
        match self {
            AppError::NotFound => String::from_str("Not Found"),
            AppError::Internal(s) => {
                let mut msg = String::from_str("Internal Error: ");
                msg.append(s.as_str());
                msg
            },
            AppError::Invalid(s) => {
                let mut msg = String::from_str("Invalid data: ");
                msg.append(s.as_str());
                msg
            },
        }
    }
}

} // verus!
