//! Service-level failures and what a client is told of each: collaborator
//! failures are reported by kind only, never with their details.
use vstd::prelude::*;
use vstd::string::*;

verus! {

/// A failed request; collaborator failures carry their description as text.
pub enum ApiError {
    Database(String),
    Redis(String),
    Auth(String),
    Validation(String),
    NotFound(String),
    BadRequest(String),
    Internal(String),
    Jwt(String),
    Io(String),
}

impl ApiError {
    /// The text the error carries.
    pub open spec fn spec_text(&self) -> String {
        match self {
            ApiError::Database(m) => *m,
            ApiError::Redis(m) => *m,
            ApiError::Auth(m) => *m,
            ApiError::Validation(m) => *m,
            ApiError::NotFound(m) => *m,
            ApiError::BadRequest(m) => *m,
            ApiError::Internal(m) => *m,
            ApiError::Jwt(m) => *m,
            ApiError::Io(m) => *m,
        }
    }

    /// The HTTP status and the message sent for the error. Authentication,
    /// validation, not-found and bad-request errors show their own message;
    /// the others show a fixed text that names only their kind.
    pub fn status_and_message(&self) -> (r: (u16, String))
        ensures
            match self {
                ApiError::Database(_) => r.0 == 500 && r.1@ == "Database error"@,
                ApiError::Redis(_) => r.0 == 500 && r.1@ == "Cache error"@,
                ApiError::Auth(m) => r.0 == 401 && r.1@ == m@,
                ApiError::Validation(m) => r.0 == 400 && r.1@ == m@,
                ApiError::NotFound(m) => r.0 == 404 && r.1@ == m@,
                ApiError::BadRequest(m) => r.0 == 400 && r.1@ == m@,
                ApiError::Internal(_) => r.0 == 500 && r.1@ == "Internal server error"@,
                ApiError::Jwt(_) => r.0 == 401 && r.1@ == "Invalid token"@,
                ApiError::Io(_) => r.0 == 500 && r.1@ == "File operation error"@,
            },
    {
        match self {
            ApiError::Database(_) => (500, String::from_str("Database error")),
            ApiError::Redis(_) => (500, String::from_str("Cache error")),
            ApiError::Auth(m) => (401, m.clone()),
            ApiError::Validation(m) => (400, m.clone()),
            ApiError::NotFound(m) => (404, m.clone()),
            ApiError::BadRequest(m) => (400, m.clone()),
            ApiError::Internal(_) => (500, String::from_str("Internal server error")),
            ApiError::Jwt(_) => (401, String::from_str("Invalid token")),
            ApiError::Io(_) => (500, String::from_str("File operation error")),
        }
    }
}

} // verus!
