use vstd::prelude::*;

verus! {

/// The failures that the credential and session core reports to its callers.
///
/// Store and crypto failures are folded into `Internal`; every other kind is
/// expected control flow with a user-safe message.
#[derive(Debug)]
pub enum ApiError {
    /// Unknown username or wrong password, reported identically.
    InvalidCredentials,
    /// Missing, malformed, expired or revoked credential, or a disabled account.
    SessionExpired,
    /// Authenticated, but the role or ownership does not allow the action.
    Forbidden(&'static str),
    /// Malformed input: a bad lifetime, a bad role, a weak password.
    ValidationError(&'static str),
    /// The target session or account is absent or not visible to the caller.
    NotFound(&'static str),
    /// A store or crypto failure.
    Internal(&'static str),
}

/// The kind of an `ApiError`, without its message.
#[derive(Clone, Copy, Debug, PartialEq, Eq, Structural)]
pub enum ErrorKind {
    InvalidCredentials,
    SessionExpired,
    Forbidden,
    ValidationError,
    NotFound,
    Internal,
}

pub open spec fn kind_of(e: ApiError) -> ErrorKind {
    match e {
        ApiError::InvalidCredentials => ErrorKind::InvalidCredentials,
        ApiError::SessionExpired => ErrorKind::SessionExpired,
        ApiError::Forbidden(_) => ErrorKind::Forbidden,
        ApiError::ValidationError(_) => ErrorKind::ValidationError,
        ApiError::NotFound(_) => ErrorKind::NotFound,
        ApiError::Internal(_) => ErrorKind::Internal,
    }
}

/// Wire shape of an error body: `{ "error": { "code": .., "message": .. } }`.
pub struct ErrorResponse {
    pub error: ErrorObject,
}

pub struct ErrorObject {
    pub code: String,
    pub message: String,
}

/// The machine-readable code of each kind of error.
pub open spec fn code_of(e: ApiError) -> Seq<char> {
    match e {
        ApiError::InvalidCredentials => "INVALID_CREDENTIALS"@,
        ApiError::SessionExpired => "SESSION_EXPIRED"@,
        ApiError::Forbidden(_) => "FORBIDDEN"@,
        ApiError::ValidationError(_) => "VALIDATION_ERROR"@,
        ApiError::NotFound(_) => "NOT_FOUND"@,
        ApiError::Internal(_) => "INTERNAL"@,
    }
}

/// The HTTP status that each kind of error is reported with.
pub open spec fn status_of(e: ApiError) -> u16 {
    match e {
        ApiError::InvalidCredentials => 401,
        ApiError::SessionExpired => 401,
        ApiError::Forbidden(_) => 403,
        ApiError::ValidationError(_) => 400,
        ApiError::NotFound(_) => 404,
        ApiError::Internal(_) => 500,
    }
}

/// The user-facing message of each error.
pub open spec fn message_of(e: ApiError) -> Seq<char> {
    match e {
        ApiError::InvalidCredentials => "Username or password is incorrect"@,
        ApiError::SessionExpired => "Session expired"@,
        ApiError::Forbidden(m) => m@,
        ApiError::ValidationError(m) => m@,
        ApiError::NotFound(m) => m@,
        ApiError::Internal(m) => m@,
    }
}

impl ApiError {
    /// The error for an unknown username or a wrong password.
    pub fn invalid_credentials() -> (r: ApiError)
        ensures
            r is InvalidCredentials,
    {
        ApiError::InvalidCredentials
    }

    /// The error for a missing, malformed, expired or revoked credential.
    pub fn session_expired() -> (r: ApiError)
        ensures
            r is SessionExpired,
    {
        ApiError::SessionExpired
    }

    pub fn kind(&self) -> (r: ErrorKind)
        ensures
            r == kind_of(*self),
    {
        match self {
            ApiError::InvalidCredentials => ErrorKind::InvalidCredentials,
            ApiError::SessionExpired => ErrorKind::SessionExpired,
            ApiError::Forbidden(_) => ErrorKind::Forbidden,
            ApiError::ValidationError(_) => ErrorKind::ValidationError,
            ApiError::NotFound(_) => ErrorKind::NotFound,
            ApiError::Internal(_) => ErrorKind::Internal,
        }
    }

    pub fn code(&self) -> (r: &'static str)
        ensures
            r@ == code_of(*self),
    {
        match self {
            ApiError::InvalidCredentials => "INVALID_CREDENTIALS",
            ApiError::SessionExpired => "SESSION_EXPIRED",
            ApiError::Forbidden(_) => "FORBIDDEN",
            ApiError::ValidationError(_) => "VALIDATION_ERROR",
            ApiError::NotFound(_) => "NOT_FOUND",
            ApiError::Internal(_) => "INTERNAL",
        }
    }

    pub fn status(&self) -> (r: u16)
        ensures
            r == status_of(*self),
    {
        match self {
            ApiError::InvalidCredentials => 401,
            ApiError::SessionExpired => 401,
            ApiError::Forbidden(_) => 403,
            ApiError::ValidationError(_) => 400,
            ApiError::NotFound(_) => 404,
            ApiError::Internal(_) => 500,
        }
    }

    pub fn message(&self) -> (r: &'static str)
        ensures
            r@ == message_of(*self),
    {
        match self {
            ApiError::InvalidCredentials => "Username or password is incorrect",
            ApiError::SessionExpired => "Session expired",
            ApiError::Forbidden(m) => m,
            ApiError::ValidationError(m) => m,
            ApiError::NotFound(m) => m,
            ApiError::Internal(m) => m,
        }
    }

    /// The body that reports this error to a client.
    pub fn to_error_response(&self) -> (r: ErrorResponse)
        ensures
            r.error.code@ == code_of(*self),
            r.error.message@ == message_of(*self),
    {
        ErrorResponse {
            error: ErrorObject {
                code: String::from_str(self.code()),
                message: String::from_str(self.message()),
            },
        }
    }
}

} // verus!
