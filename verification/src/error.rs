//! The failure kinds of the authentication core and what a client sees of each.

use vstd::prelude::*;

verus! {

/// Why an authentication step failed.
#[derive(Debug, Clone, Copy, PartialEq, Eq, Structural)]
pub enum AuthError {
    /// A token was well signed and well shaped, but it has expired or its
    /// subject is no identity key.
    InvalidToken,
    /// A token was presented and its signature, its format, its algorithm
    /// or the shape of its claims was rejected.
    WrongCredentials,
    /// The request carried no token at all.
    MissingCredentials,
    /// Signing a token failed during issuance.
    TokenCreation,
    /// The subject of a valid token names no live identity.
    IdentityNotFound,
    /// The password hashing primitive failed.
    HashingError,
}

/// The body of every failure response.
#[derive(Debug, Clone, PartialEq, Eq)]
pub struct ErrorResponse {
    pub status: String,
    pub message: String,
}

/// A failure as it is reported to the client: an HTTP status and a message.
#[derive(Debug, Clone, PartialEq, Eq)]
pub struct ApiError {
    pub status_code: u16,
    pub message: String,
    pub error_code: Option<i8>,
}

/// The HTTP status that a failure kind is answered with.
pub open spec fn status_of(err: AuthError) -> u16 {
    match err {
        AuthError::InvalidToken => 401,
        AuthError::WrongCredentials => 401,
        AuthError::MissingCredentials => 401,
        AuthError::IdentityNotFound => 401,
        AuthError::TokenCreation => 500,
        AuthError::HashingError => 500,
    }
}

/// The message that a failure kind is answered with. Every cause of a
/// rejected token gives the same text, so that a client cannot learn which
/// check failed.
pub open spec fn message_of(err: AuthError) -> Seq<char> {
    match err {
        AuthError::InvalidToken => "Invalid token"@,
        AuthError::WrongCredentials => "Invalid token"@,
        AuthError::IdentityNotFound => "Invalid token"@,
        AuthError::MissingCredentials => "not logged in"@,
        AuthError::TokenCreation => "Failed to create token"@,
        AuthError::HashingError => "Internal server error"@,
    }
}

impl AuthError {
    /// The HTTP status of this failure.
    pub fn status_code(&self) -> (code: u16)
        ensures
            code == status_of(*self),
    {
        match self {
            AuthError::InvalidToken => 401,
            AuthError::WrongCredentials => 401,
            AuthError::MissingCredentials => 401,
            AuthError::IdentityNotFound => 401,
            AuthError::TokenCreation => 500,
            AuthError::HashingError => 500,
        }
    }

    /// The message of this failure.
    pub fn message(&self) -> (text: String)
        ensures
            text@ == message_of(*self),
    {
        match self {
            AuthError::InvalidToken => "Invalid token".to_owned(),
            AuthError::WrongCredentials => "Invalid token".to_owned(),
            AuthError::IdentityNotFound => "Invalid token".to_owned(),
            AuthError::MissingCredentials => "not logged in".to_owned(),
            AuthError::TokenCreation => "Failed to create token".to_owned(),
            AuthError::HashingError => "Internal server error".to_owned(),
        }
    }
}

impl ErrorResponse {
    /// A failure body with the given message.
    pub fn new(message: &str) -> (body: ErrorResponse)
        ensures
            body.status@ == "fail"@,
            body.message@ == message@,
    {
        ErrorResponse { status: "fail".to_owned(), message: message.to_owned() }
    }
}

impl ApiError {
    /// The response for a failure kind: its status, its message, no error code.
    pub fn from_auth_error(err: AuthError) -> (api: ApiError)
        ensures
            api.status_code == status_of(err),
            api.message@ == message_of(err),
            api.error_code is None,
    {
        ApiError { status_code: err.status_code(), message: err.message(), error_code: None }
    }

    /// The failure body of this response.
    pub fn body(&self) -> (body: ErrorResponse)
        ensures
            body.status@ == "fail"@,
            body.message@ == self.message@,
    {
        ErrorResponse::new(self.message.as_str())
    }
}

} // verus!
