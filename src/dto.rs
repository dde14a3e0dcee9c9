//! Response envelopes and the error kinds a transport maps to statuses.
use vstd::prelude::*;
use vstd::string::*;
use crate::jwt::TokenError;
use crate::telegram::VerificationError;

verus! {

/// Envelope of a successful response: payload, optional message, status code.
pub struct BaseResponseDto<T: Default> {
    pub data: T,
    pub message: Option<String>,
    pub code: u16,
}

impl<T: Default> Default for BaseResponseDto<T> {
    fn default() -> (r: Self)
        ensures
            call_ensures(T::default, (), r.data),
            r.message is None,
            r.code == 200,
    {
        BaseResponseDto { data: T::default(), message: None, code: 200 }
    }
}

impl<T: Default> BaseResponseDto<T> {
    /// An envelope with the default payload, no message and code 200.
    pub fn builder() -> (r: BaseResponseDto<T>)
        ensures
            call_ensures(T::default, (), r.data),
            r.message is None,
            r.code == 200,
    {
        BaseResponseDto::<T>::default()
    }

    /// The envelope with its payload replaced by `data`.
    pub fn data(self, data: T) -> (r: Self)
        ensures
            r.data == data,
            r.message == self.message,
            r.code == self.code,
    {
        let mut s = self;
        s.data = data;
        s
    }

    /// The envelope with `message` set.
    pub fn message(self, message: String) -> (r: Self)
        ensures
            r.data == self.data,
            r.message == Some(message),
            r.code == self.code,
    {
        let mut s = self;
        s.message = Some(message);
        s
    }

    /// The envelope with its status code replaced by `code`.
    pub fn code(self, code: u16) -> (r: Self)
        ensures
            r.data == self.data,
            r.message == self.message,
            r.code == code,
    {
        let mut s = self;
        s.code = code;
        s
    }
}

/// The uniform error body `{ "error": <message> }`.
pub struct BaseApiError {
    pub error: String,
}

impl BaseApiError {
    pub fn new(error: String) -> (r: Self)
        ensures
            r.error == error,
    {
        Self { error }
    }
}

/// A failed request, by kind, with its message.
pub enum ApiError {
    Auth(String),
    Validation(String),
    BadRequest(String),
    NotFound(String),
    Interal(String),
}

impl ApiError {
    /// The HTTP status of the error: 401 for authentication, 400 for
    /// validation and bad requests, 404 for not found, 500 otherwise.
    pub fn status_code(&self) -> (r: u16)
        ensures
            r == match self {
                ApiError::Auth(_) => 401u16,
                ApiError::Validation(_) => 400u16,
                ApiError::BadRequest(_) => 400u16,
                ApiError::NotFound(_) => 404u16,
                ApiError::Interal(_) => 500u16,
            },
    {
        match self {
            ApiError::Auth(_) => 401,
            ApiError::Validation(_) => 400,
            ApiError::BadRequest(_) => 400,
            ApiError::NotFound(_) => 404,
            ApiError::Interal(_) => 500,
        }
    }

    pub open spec fn spec_text(&self) -> String {
        match self {
            ApiError::Auth(m) => *m,
            ApiError::Validation(m) => *m,
            ApiError::BadRequest(m) => *m,
            ApiError::NotFound(m) => *m,
            ApiError::Interal(m) => *m,
        }
    }

    /// The message the error carries.
    pub fn text(&self) -> (r: &String)
        ensures
            *r == self.spec_text(),
    {
        match self {
            ApiError::Auth(m) => m,
            ApiError::Validation(m) => m,
            ApiError::BadRequest(m) => m,
            ApiError::NotFound(m) => m,
            ApiError::Interal(m) => m,
        }
    }

    /// The body sent for the error.
    pub fn to_body(&self) -> (r: BaseApiError)
        ensures
            r.error == self.spec_text(),
    {
        BaseApiError::new(self.text().clone())
    }

    /// `r` is the error a rejected assertion gives for `e`.
    pub open spec fn is_verification_error(e: VerificationError, r: ApiError) -> bool {
        match e {
            VerificationError::MalformedInput => r is Validation && r.spec_text()@
                == "Malformed Telegram authentication data"@,
            VerificationError::InvalidSignature => r is Auth && r.spec_text()@
                == "Invalid Telegram authentication"@,
            VerificationError::Expired => r is Auth && r.spec_text()@
                == "Telegram authentication has expired"@,
        }
    }

    /// `r` is the error a rejected token gives for `e`.
    pub open spec fn is_token_error(e: TokenError, r: ApiError) -> bool {
        match e {
            TokenError::Malformed => r is BadRequest && r.spec_text()@ == "Malformed token"@,
            TokenError::InvalidSignature => r is Auth && r.spec_text()@ == "Invalid token"@,
            TokenError::Expired => r is Auth && r.spec_text()@ == "Token has expired"@,
        }
    }

    /// A rejected assertion: malformed input is a validation failure, a bad
    /// signature or a stale assertion an authentication failure.
    pub fn from_verification(e: VerificationError) -> (r: ApiError)
        ensures
            ApiError::is_verification_error(e, r),
    {
        match e {
            VerificationError::MalformedInput => ApiError::Validation(
                String::from_str("Malformed Telegram authentication data"),
            ),
            VerificationError::InvalidSignature => ApiError::Auth(
                String::from_str("Invalid Telegram authentication"),
            ),
            VerificationError::Expired => ApiError::Auth(
                String::from_str("Telegram authentication has expired"),
            ),
        }
    }

    /// A rejected token: a malformed token is a bad request, a bad signature or
    /// an expired token an authentication failure.
    pub fn from_token(e: TokenError) -> (r: ApiError)
        ensures
            ApiError::is_token_error(e, r),
    {
        match e {
            TokenError::Malformed => ApiError::BadRequest(String::from_str("Malformed token")),
            TokenError::InvalidSignature => ApiError::Auth(String::from_str("Invalid token")),
            TokenError::Expired => ApiError::Auth(String::from_str("Token has expired")),
        }
    }
}

} // verus!
