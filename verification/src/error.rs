//! The error taxonomy of the service and its mapping to HTTP status codes
//! and JSON bodies.

use vstd::prelude::*;
use vstd::string::StringExecFns;

verus! {

/// Typed failures of the service layers.
///
/// `InvalidCredentials` is deliberately undifferentiated: a failed login
/// reports it whether the username was unknown or the password wrong, so a
/// caller cannot enumerate accounts from the error.
#[derive(Debug, Clone, PartialEq)]
pub enum ServiceError {
    InternalServerError(String),
    BadRequest(String),
    Unauthorized,
    NotFound(String),
    Conflict(String),
    InvalidCredentials,
}

impl ServiceError {
    /// The HTTP status code a transport layer should answer with.
    pub fn status_code(&self) -> (code: u16)
        ensures
            code == match self {
                ServiceError::InternalServerError(_) => 500u16,
                ServiceError::BadRequest(_) => 400u16,
                ServiceError::Unauthorized => 401u16,
                ServiceError::NotFound(_) => 404u16,
                ServiceError::Conflict(_) => 409u16,
                ServiceError::InvalidCredentials => 401u16,
            },
    {
        match self {
            ServiceError::InternalServerError(_) => 500,
            ServiceError::BadRequest(_) => 400,
            ServiceError::Unauthorized => 401,
            ServiceError::NotFound(_) => 404,
            ServiceError::Conflict(_) => 409,
            ServiceError::InvalidCredentials => 401,
        }
    }

    /// The JSON body a transport layer should answer with; raw internal
    /// detail beyond the stored message never reaches the caller.
    pub fn body_string(&self) -> (body: String)
        ensures
            body@ == match self {
                ServiceError::InternalServerError(m) => "{\"error\":\"Internal Server Error - "@
                    + m@ + "\"}"@,
                ServiceError::BadRequest(m) => "{\"error\":\""@ + m@ + "\"}"@,
                ServiceError::Unauthorized => "{\"error\":\"Unauthorized\"}"@,
                ServiceError::NotFound(m) => "{\"error\":\"Object '"@ + m@ + "' not Found\"}"@,
                ServiceError::Conflict(m) => "{\"error\":\"Conflict - "@ + m@ + "\"}"@,
                ServiceError::InvalidCredentials => "{\"error\":\"Invalid username or password\"}"@,
            },
    {
        match self {
            ServiceError::InternalServerError(m) => {
                let mut s = "{\"error\":\"Internal Server Error - ".to_owned();
                s.append(m.as_str());
                s.append("\"}");
                s
            },
            ServiceError::BadRequest(m) => {
                let mut s = "{\"error\":\"".to_owned();
                s.append(m.as_str());
                s.append("\"}");
                s
            },
            ServiceError::Unauthorized => "{\"error\":\"Unauthorized\"}".to_owned(),
            ServiceError::NotFound(m) => {
                let mut s = "{\"error\":\"Object '".to_owned();
                s.append(m.as_str());
                s.append("' not Found\"}");
                s
            },
            ServiceError::Conflict(m) => {
                let mut s = "{\"error\":\"Conflict - ".to_owned();
                s.append(m.as_str());
                s.append("\"}");
                s
            },
            ServiceError::InvalidCredentials => "{\"error\":\"Invalid username or password\"}"
                .to_owned(),
        }
    }
}

} // verus!
