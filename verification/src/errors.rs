//! The failures a request can end in, with the status and the stable code that
//! each one is reported under.

use crate::utils::text::{decimal, decimal_digits, join2};
use vstd::prelude::*;

verus! {

/// HTTP status for malformed or out-of-range input.
pub const STATUS_BAD_REQUEST: u16 = 400;

/// HTTP status for missing or failed authentication.
pub const STATUS_UNAUTHORIZED: u16 = 401;

/// HTTP status for a resource that does not exist.
pub const STATUS_NOT_FOUND: u16 = 404;

/// HTTP status for an account that has been locked.
pub const STATUS_LOCKED: u16 = 423;

/// HTTP status for a fault on the server's side.
pub const STATUS_INTERNAL_SERVER_ERROR: u16 = 500;

/// Why a caller could not be authenticated.
#[derive(Debug, Clone, Copy, PartialEq, Eq, Structural)]
pub enum AuthenticateError {
    WrongCredentials,
    TokenCreation,
    InvalidToken,
    Locked,
}

/// A request that was refused because of what it held.
#[derive(Debug, Clone, PartialEq, Eq)]
pub struct BadRequest {
    pub message: String,
}

/// A resource that was asked for and is not there.
#[derive(Debug, Clone, Copy, PartialEq, Eq, Structural)]
pub struct NotFound {}

/// Every failure a handler can return. The variants that stand for a fault of
/// the store, the hasher or the task pool carry the cause as text.
#[derive(Debug, Clone, PartialEq, Eq)]
pub enum Error {
    Wither(String),
    Mongo(String),
    ParseObjectID(String),
    SerializeMongoResponse(String),
    Authenticate(AuthenticateError),
    BadRequest(BadRequest),
    NotFound(NotFound),
    RunSyncTask(String),
    HashPassword(String),
    TokenCreation(String),
    InvalidPassword(String),
}

/// What a client receives for a failed request.
#[derive(Debug, Clone, PartialEq, Eq)]
pub struct ErrorBody {
    pub status: u16,
    pub success: bool,
    pub message: String,
    pub error: String,
}

impl AuthenticateError {
    /// The text this failure is described with.
    pub open spec fn text(self) -> Seq<char> {
        match self {
            AuthenticateError::WrongCredentials => "Wrong authentication credentials"@,
            AuthenticateError::TokenCreation => "Failed to create authentication token"@,
            AuthenticateError::InvalidToken => "Invalid authentication credentials"@,
            AuthenticateError::Locked => "User is locked"@,
        }
    }

    pub fn message(&self) -> (s: String)
        ensures
            s@ == self.text(),
    {
        match self {
            AuthenticateError::WrongCredentials => "Wrong authentication credentials".to_owned(),
            AuthenticateError::TokenCreation => "Failed to create authentication token".to_owned(),
            AuthenticateError::InvalidToken => "Invalid authentication credentials".to_owned(),
            AuthenticateError::Locked => "User is locked".to_owned(),
        }
    }
}

impl Error {
    /// The HTTP status and the stable code of each failure.
    pub open spec fn codes(self) -> (u16, u16) {
        match self {
            Error::ParseObjectID(_) => (STATUS_BAD_REQUEST, 40001),
            Error::BadRequest(_) => (STATUS_BAD_REQUEST, 40002),
            Error::NotFound(_) => (STATUS_NOT_FOUND, 40003),
            Error::Authenticate(AuthenticateError::WrongCredentials) => (
                STATUS_UNAUTHORIZED,
                40004,
            ),
            Error::Authenticate(AuthenticateError::InvalidToken) => (STATUS_UNAUTHORIZED, 40005),
            Error::Authenticate(AuthenticateError::Locked) => (STATUS_LOCKED, 40006),
            Error::TokenCreation(_) => (STATUS_INTERNAL_SERVER_ERROR, 5007),
            Error::InvalidPassword(_) => (STATUS_UNAUTHORIZED, 40008),
            Error::Authenticate(AuthenticateError::TokenCreation) => (
                STATUS_INTERNAL_SERVER_ERROR,
                5001,
            ),
            Error::Wither(_) => (STATUS_INTERNAL_SERVER_ERROR, 5002),
            Error::Mongo(_) => (STATUS_INTERNAL_SERVER_ERROR, 5003),
            Error::SerializeMongoResponse(_) => (STATUS_INTERNAL_SERVER_ERROR, 5004),
            Error::RunSyncTask(_) => (STATUS_INTERNAL_SERVER_ERROR, 5005),
            Error::HashPassword(_) => (STATUS_INTERNAL_SERVER_ERROR, 5006),
        }
    }

    /// The full description of a failure, cause included.
    pub open spec fn text(self) -> Seq<char> {
        match self {
            Error::Wither(cause) => cause@,
            Error::Mongo(cause) => cause@,
            Error::ParseObjectID(given) => "Error parsing ObjectID "@ + given@,
            Error::SerializeMongoResponse(cause) => cause@,
            Error::Authenticate(reason) => reason.text(),
            Error::BadRequest(request) => request.message@,
            Error::NotFound(_) => "Not found"@,
            Error::RunSyncTask(cause) => cause@,
            Error::HashPassword(cause) => cause@,
            Error::TokenCreation(cause) => cause@,
            Error::InvalidPassword(cause) => "Error invalid password "@ + cause@,
        }
    }

    /// Whether the failure is a fault of the server rather than of the request.
    pub open spec fn is_server_fault(self) -> bool {
        self.codes().0 == STATUS_INTERNAL_SERVER_ERROR
    }

    /// The description a client is shown: the full one for a failure of the
    /// request, a fixed sentence for a fault of the server.
    pub open spec fn public_text(self) -> Seq<char> {
        if self.is_server_fault() {
            "Internal server error"@
        } else {
            self.text()
        }
    }

    pub fn get_codes(&self) -> (r: (u16, u16))
        ensures
            r == self.codes(),
    {
        match self {
            Error::ParseObjectID(_) => (STATUS_BAD_REQUEST, 40001),
            Error::BadRequest(_) => (STATUS_BAD_REQUEST, 40002),
            Error::NotFound(_) => (STATUS_NOT_FOUND, 40003),
            Error::Authenticate(AuthenticateError::WrongCredentials) => (
                STATUS_UNAUTHORIZED,
                40004,
            ),
            Error::Authenticate(AuthenticateError::InvalidToken) => (STATUS_UNAUTHORIZED, 40005),
            Error::Authenticate(AuthenticateError::Locked) => (STATUS_LOCKED, 40006),
            Error::TokenCreation(_) => (STATUS_INTERNAL_SERVER_ERROR, 5007),
            Error::InvalidPassword(_) => (STATUS_UNAUTHORIZED, 40008),
            Error::Authenticate(AuthenticateError::TokenCreation) => (
                STATUS_INTERNAL_SERVER_ERROR,
                5001,
            ),
            Error::Wither(_) => (STATUS_INTERNAL_SERVER_ERROR, 5002),
            Error::Mongo(_) => (STATUS_INTERNAL_SERVER_ERROR, 5003),
            Error::SerializeMongoResponse(_) => (STATUS_INTERNAL_SERVER_ERROR, 5004),
            Error::RunSyncTask(_) => (STATUS_INTERNAL_SERVER_ERROR, 5005),
            Error::HashPassword(_) => (STATUS_INTERNAL_SERVER_ERROR, 5006),
        }
    }

    pub fn bad_request() -> (e: Self)
        ensures
            e matches Error::BadRequest(b) && b.message@ == "Bad Request"@,
    {
        Error::BadRequest(BadRequest { message: "Bad Request".to_owned() })
    }

    pub fn bad_request_with_message(message: String) -> (e: Self)
        ensures
            e == Error::BadRequest(BadRequest { message }),
    {
        Error::BadRequest(BadRequest { message })
    }

    pub fn not_found() -> (e: Self)
        ensures
            e == Error::NotFound(NotFound {  }),
    {
        Error::NotFound(NotFound {  })
    }

    /// The failure for bad credentials. Which of the credentials was wrong is
    /// never reported, so the message given is dropped.
    pub fn unauthorized_with_message(message: String) -> (e: Self)
        ensures
            e == Error::Authenticate(AuthenticateError::WrongCredentials),
    {
        Error::Authenticate(AuthenticateError::WrongCredentials)
    }

    /// The full description of the failure.
    pub fn to_message(&self) -> (s: String)
        ensures
            s@ == self.text(),
    {
        match self {
            Error::Wither(cause) => cause.clone(),
            Error::Mongo(cause) => cause.clone(),
            Error::ParseObjectID(given) => join2("Error parsing ObjectID ", given.as_str()),
            Error::SerializeMongoResponse(cause) => cause.clone(),
            Error::Authenticate(reason) => reason.message(),
            Error::BadRequest(request) => request.message.clone(),
            Error::NotFound(_) => "Not found".to_owned(),
            Error::RunSyncTask(cause) => cause.clone(),
            Error::HashPassword(cause) => cause.clone(),
            Error::TokenCreation(cause) => cause.clone(),
            Error::InvalidPassword(cause) => join2("Error invalid password ", cause.as_str()),
        }
    }

    /// The body sent to the client: never a success, the public description,
    /// and the stable code in decimal.
    pub fn into_response(self) -> (body: ErrorBody)
        ensures
            body.status == self.codes().0,
            !body.success,
            body.message@ == self.public_text(),
            body.error@ == decimal_digits(self.codes().1 as nat),
    {
        let (status, code) = self.get_codes();
        let message = if status == STATUS_INTERNAL_SERVER_ERROR {
            "Internal server error".to_owned()
        } else {
            self.to_message()
        };
        ErrorBody { status, success: false, message, error: decimal(code as u64) }
    }
}

/// The code alone tells a fault of the server from a fault of the request:
/// server faults have the status 500 and a code from 5001 to 5007, and
/// everything else has a status below 500 and a code from 40001 to 40008.
pub proof fn lemma_codes_tell_faults_apart(error: Error)
    ensures
        error.is_server_fault() <==> 5001 <= error.codes().1 <= 5007,
        !error.is_server_fault() <==> 40001 <= error.codes().1 <= 40008,
        !error.is_server_fault() ==> 400 <= error.codes().0 < 500,
{
}

} // verus!
