use vstd::prelude::*;

use crate::includes::Includable;

verus! {

/// Problems with the shape of a request itself.
#[derive(Debug, Clone, Copy, PartialEq, Eq, Structural)]
pub enum ReqError {
    NoID,
    WrongContentType,
    NoAuth,
}

/// The kinds of record that a lookup can fail to find.
#[derive(Debug, Clone, Copy, PartialEq, Eq, Structural)]
pub enum Entity {
    School,
    Student,
    Teacher,
    Book,
    Alias,
    BaseSet,
    Lending,
}

/// Every way a request can fail.
///
/// The infrastructure variants (storage, connection, pool, encoding, I/O,
/// hashing) carry no payload: their details are logged where they arise.
#[derive(Debug, Clone, Copy, PartialEq, Eq, Structural)]
pub enum ObsidianError {
    RequestError(ReqError),
    PostgresError,
    ConnectionError,
    GetConnError,
    RecordNotFound(Entity),
    PoolError,
    ParseError,
    SerializeError,
    IoError,
    IncludeNotSupported(Includable),
    WrongPassword,
    BCryptError,
}

/// The fixed texts that go into an error response body.
#[derive(Debug, Clone, Copy, PartialEq, Eq, Structural)]
pub enum ErrorText {
    IncludeNotSupported,
    IdNotInteger,
    WrongContentType,
}

/// What the client sees of a failure: a status code, whether a
/// `WWW-Authenticate` challenge goes with it, and an optional text.
#[derive(Debug, Clone, Copy, PartialEq, Eq, Structural)]
pub struct ErrorResponse {
    pub status: u16,
    pub challenge: bool,
    pub text: Option<ErrorText>,
}

pub const STATUS_BAD_REQUEST: u16 = 400;

pub const STATUS_UNAUTHORIZED: u16 = 401;

pub const STATUS_NOT_FOUND: u16 = 404;

pub const STATUS_INTERNAL: u16 = 500;

/// Failures of the storage or encoding machinery: never the client's fault.
pub open spec fn is_internal(e: ObsidianError) -> bool {
    match e {
        ObsidianError::PostgresError | ObsidianError::ConnectionError
        | ObsidianError::GetConnError | ObsidianError::PoolError
        | ObsidianError::SerializeError => true,
        _ => false,
    }
}

/// Failures that ask the client to authenticate again. A missing school is
/// one of them, so that an unknown name and a wrong password look alike.
pub open spec fn is_auth_failure(e: ObsidianError) -> bool {
    match e {
        ObsidianError::RequestError(ReqError::NoAuth) | ObsidianError::WrongPassword
        | ObsidianError::BCryptError | ObsidianError::RecordNotFound(Entity::School) => true,
        _ => false,
    }
}

/// The response for each kind of failure.
pub open spec fn response_of(e: ObsidianError) -> ErrorResponse {
    if is_internal(e) {
        ErrorResponse { status: 500, challenge: false, text: None }
    } else if is_auth_failure(e) {
        ErrorResponse { status: 401, challenge: true, text: None }
    } else {
        match e {
            ObsidianError::IncludeNotSupported(_) => ErrorResponse {
                status: 400,
                challenge: false,
                text: Some(ErrorText::IncludeNotSupported),
            },
            ObsidianError::RequestError(ReqError::NoID) => ErrorResponse {
                status: 400,
                challenge: false,
                text: Some(ErrorText::IdNotInteger),
            },
            ObsidianError::RequestError(ReqError::WrongContentType) => ErrorResponse {
                status: 400,
                challenge: false,
                text: Some(ErrorText::WrongContentType),
            },
            ObsidianError::RecordNotFound(_) => ErrorResponse {
                status: 404,
                challenge: false,
                text: None,
            },
            _ => ErrorResponse { status: 400, challenge: false, text: None },
        }
    }
}

impl ObsidianError {
    /// Maps the failure to what the client receives.
    pub fn to_response(&self) -> (r: ErrorResponse)
        ensures
            r == response_of(*self),
    {
        match *self {
            ObsidianError::PostgresError | ObsidianError::ConnectionError
            | ObsidianError::GetConnError | ObsidianError::PoolError
            | ObsidianError::SerializeError => ErrorResponse {
                status: STATUS_INTERNAL,
                challenge: false,
                text: None,
            },
            ObsidianError::RequestError(ReqError::NoAuth) | ObsidianError::WrongPassword
            | ObsidianError::BCryptError | ObsidianError::RecordNotFound(Entity::School) => {
                ErrorResponse { status: STATUS_UNAUTHORIZED, challenge: true, text: None }
            },
            ObsidianError::IncludeNotSupported(_) => ErrorResponse {
                status: STATUS_BAD_REQUEST,
                challenge: false,
                text: Some(ErrorText::IncludeNotSupported),
            },
            ObsidianError::RequestError(ReqError::NoID) => ErrorResponse {
                status: STATUS_BAD_REQUEST,
                challenge: false,
                text: Some(ErrorText::IdNotInteger),
            },
            ObsidianError::RequestError(ReqError::WrongContentType) => ErrorResponse {
                status: STATUS_BAD_REQUEST,
                challenge: false,
                text: Some(ErrorText::WrongContentType),
            },
            ObsidianError::RecordNotFound(_) => ErrorResponse {
                status: STATUS_NOT_FOUND,
                challenge: false,
                text: None,
            },
            ObsidianError::ParseError | ObsidianError::IoError => ErrorResponse {
                status: STATUS_BAD_REQUEST,
                challenge: false,
                text: None,
            },
        }
    }
}

impl ErrorText {
    /// The words of the response body.
    pub fn message(&self) -> (r: &'static str)
        ensures
            r@ == message_of(*self),
    {
        match *self {
            ErrorText::IncludeNotSupported => "The relation to be included is not supported by this route",
            ErrorText::IdNotInteger => "The id needs to be an integer",
            ErrorText::WrongContentType => "Content-Type need to be application/json",
        }
    }
}

pub open spec fn message_of(t: ErrorText) -> Seq<char> {
    match t {
        ErrorText::IncludeNotSupported => "The relation to be included is not supported by this route"@,
        ErrorText::IdNotInteger => "The id needs to be an integer"@,
        ErrorText::WrongContentType => "Content-Type need to be application/json"@,
    }
}

/// The value of the `WWW-Authenticate` header sent with a challenge.
pub fn challenge_header() -> (r: &'static str)
    ensures
        r@ == "Basic: realm=\"Token and secret\""@,
{
    "Basic: realm=\"Token and secret\""
}

} // verus!
