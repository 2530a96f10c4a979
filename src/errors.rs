//! The error type of the HTTP surface and how each kind answers.
use vstd::prelude::*;

verus! {

/// An error with the message meant for the client.
#[derive(Clone, Debug)]
pub enum AppError {
    BadRequest(String),
    Unauthorized(String),
    NotFound(String),
    Conflict(String),
    Internal(String),
}

impl AppError {
    /// The HTTP status of the answer.
    pub open spec fn status_spec(&self) -> u16 {
        match self {
            AppError::BadRequest(_) => 400,
            AppError::Unauthorized(_) => 401,
            AppError::NotFound(_) => 404,
            AppError::Conflict(_) => 409,
            AppError::Internal(_) => 500,
        }
    }

    pub open spec fn message_spec(&self) -> Seq<char> {
        match self {
            AppError::BadRequest(m) => m@,
            AppError::Unauthorized(m) => m@,
            AppError::NotFound(m) => m@,
            AppError::Conflict(m) => m@,
            AppError::Internal(m) => m@,
        }
    }

    pub fn status_code(&self) -> (r: u16)
        ensures
            r == self.status_spec(),
    {
        match self {
            AppError::BadRequest(_) => 400,
            AppError::Unauthorized(_) => 401,
            AppError::NotFound(_) => 404,
            AppError::Conflict(_) => 409,
            AppError::Internal(_) => 500,
        }
    }

    /// The message the client sees: its own, except that an internal error
    /// only says that one happened.
    pub fn public_message(&self) -> (r: String)
        ensures
            r@ == match self {
                AppError::Internal(_) => "Internal server error"@,
                _ => self.message_spec(),
            },
    {
        match self {
            AppError::BadRequest(m) => m.clone(),
            AppError::Unauthorized(m) => m.clone(),
            AppError::NotFound(m) => m.clone(),
            AppError::Conflict(m) => m.clone(),
            AppError::Internal(_) => String::from_str("Internal server error"),
        }
    }

    /// The error in words: its kind, a colon, and its message.
    pub fn describe(&self) -> (r: String)
        ensures
            r@ == match self {
                AppError::BadRequest(m) => "Bad Request: "@ + m@,
                AppError::Unauthorized(m) => "Unauthorized: "@ + m@,
                AppError::NotFound(m) => "Not Found: "@ + m@,
                AppError::Conflict(m) => "Conflict: "@ + m@,
                AppError::Internal(m) => "Internal Error: "@ + m@,
            },
    {
        let (mut out, m) = match self {
            AppError::BadRequest(m) => (String::from_str("Bad Request: "), m),
            AppError::Unauthorized(m) => (String::from_str("Unauthorized: "), m),
            AppError::NotFound(m) => (String::from_str("Not Found: "), m),
            AppError::Conflict(m) => (String::from_str("Conflict: "), m),
            AppError::Internal(m) => (String::from_str("Internal Error: "), m),
        };
        out.append(m.as_str());
        out
    }
}

} // verus!
