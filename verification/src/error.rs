//! The failures that the service reports: a status for the transport and a
//! reason for the reader, with the reasons of internal failures held back
//! where the build is for production.

use vstd::prelude::*;

verus! {

pub const BAD_REQUEST: u16 = 400;

pub const UNAUTHORIZED: u16 = 401;

pub const FORBIDDEN: u16 = 403;

pub const NOT_FOUND: u16 = 404;

pub const CONFLICT: u16 = 409;

pub const INTERNAL_SERVER_ERROR: u16 = 500;

pub const SERVICE_UNAVAILABLE: u16 = 503;

/// A failure as the service reports it.
#[derive(Debug)]
pub struct ErrorResponse {
    pub reason: String,
    pub status_code: u16,
}

/// What an `ErrorResponse` holds, as mathematics.
pub struct ErrorResponseView {
    pub reason: Seq<char>,
    pub status_code: u16,
}

impl View for ErrorResponse {
    type V = ErrorResponseView;

    open spec fn view(&self) -> ErrorResponseView {
        ErrorResponseView { reason: self.reason@, status_code: self.status_code }
    }
}

/// A failure as it leaves for the transport: the status, and the reason that
/// the body carries, where there is a body.
#[derive(Debug)]
pub struct ResponseParts {
    pub status_code: u16,
    pub reason: Option<String>,
}

/// Whether a number can stand as a status on the transport.
pub open spec fn is_status(status_code: u16) -> bool {
    100 <= status_code <= 999
}

/// The reason that an internal failure is given: the caller's own where
/// internal reasons are exposed, a fixed one where they are not.
pub open spec fn internal_reason(reason: Seq<char>, expose_internal_errors: bool) -> Seq<char> {
    if expose_internal_errors {
        reason
    } else {
        "Internal server error"@
    }
}

/// The internal failure that a reason makes.
pub open spec fn internal_failure(
    reason: Seq<char>,
    expose_internal_errors: bool,
) -> ErrorResponseView {
    ErrorResponseView {
        reason: internal_reason(reason, expose_internal_errors),
        status_code: INTERNAL_SERVER_ERROR,
    }
}

/// The failure of a missing resource that a reason makes.
pub open spec fn missing(reason: Seq<char>) -> ErrorResponseView {
    ErrorResponseView { reason, status_code: NOT_FOUND }
}

/// Whether a failure leaves with a body: every one does, but an internal
/// failure where internal reasons are not exposed.
pub open spec fn has_body(status_code: u16, expose_internal_errors: bool) -> bool {
    status_code != INTERNAL_SERVER_ERROR || expose_internal_errors
}

/// A result with its failure seen as mathematics.
pub open spec fn outcome<T>(result: Result<T, ErrorResponse>) -> Result<T, ErrorResponseView> {
    match result {
        Ok(value) => Ok(value),
        Err(error) => Err(error@),
    }
}

impl ErrorResponse {
    /// A failure of the given status and reason.
    pub fn new(status_code: u16, reason: &str) -> (made: Self)
        requires
            is_status(status_code),
        ensures
            made@ == (ErrorResponseView { reason: reason@, status_code }),
    {
        Self { reason: reason.to_owned(), status_code }
    }

    /// Constructs a BadRequest (400) error response.
    pub fn bad_request(reason: &str) -> (made: Self)
        ensures
            made@ == (ErrorResponseView { reason: reason@, status_code: BAD_REQUEST }),
    {
        Self::new(BAD_REQUEST, reason)
    }

    /// Constructs a Unauthorized (401) error response.
    pub fn unauthorized(reason: &str) -> (made: Self)
        ensures
            made@ == (ErrorResponseView { reason: reason@, status_code: UNAUTHORIZED }),
    {
        Self::new(UNAUTHORIZED, reason)
    }

    /// Constructs a Forbidden (403) error response.
    pub fn forbidden(reason: &str) -> (made: Self)
        ensures
            made@ == (ErrorResponseView { reason: reason@, status_code: FORBIDDEN }),
    {
        Self::new(FORBIDDEN, reason)
    }

    /// Constructs a NotFound (404) error response.
    pub fn not_found(reason: &str) -> (made: Self)
        ensures
            made@ == missing(reason@),
    {
        Self::new(NOT_FOUND, reason)
    }

    /// Constructs a Conflict (409) error response.
    pub fn conflict(reason: &str) -> (made: Self)
        ensures
            made@ == (ErrorResponseView { reason: reason@, status_code: CONFLICT }),
    {
        Self::new(CONFLICT, reason)
    }

    /// Constructs a ServiceUnavailable (503) error response.
    pub fn service_unavailable(reason: &str) -> (made: Self)
        ensures
            made@ == (ErrorResponseView { reason: reason@, status_code: SERVICE_UNAVAILABLE }),
    {
        Self::new(SERVICE_UNAVAILABLE, reason)
    }

    /// Constructs a InternalServerError (500) error response. The reason is
    /// kept only where internal reasons are exposed; otherwise it is dropped
    /// and a fixed one takes its place.
    pub fn internal_server_error(reason: &str, expose_internal_errors: bool) -> (made: Self)
        ensures
            made@ == internal_failure(reason@, expose_internal_errors),
    {
        if expose_internal_errors {
            Self::new(INTERNAL_SERVER_ERROR, reason)
        } else {
            Self::new(INTERNAL_SERVER_ERROR, "Internal server error")
        }
    }

    /// The status and the body that the transport sends for this failure. The
    /// body carries the reason. An internal failure goes out with the status
    /// alone where internal reasons are not exposed.
    pub fn into_response(self, expose_internal_errors: bool) -> (parts: ResponseParts)
        ensures
            parts.status_code == self.status_code,
            parts.reason is Some <==> has_body(self.status_code, expose_internal_errors),
            parts.reason matches Some(reason) ==> reason@ == self.reason@,
    {
        if self.status_code == INTERNAL_SERVER_ERROR && !expose_internal_errors {
            ResponseParts { status_code: self.status_code, reason: None }
        } else {
            ResponseParts { status_code: self.status_code, reason: Some(self.reason) }
        }
    }
}

} // verus!
