//! Canonical error model of the platform API.
//!
//! Every error carries a stable machine-readable code, a client-safe
//! message and an HTTP status; none of them exposes internal details.

use vstd::prelude::*;

verus! {

/// Canonical error response: `{"error": {"code": ..., "message": ...}}`.
#[derive(Debug, Clone, Copy)]
pub struct ErrorResponse {
    pub error: ErrorBody,
}

/// Canonical error body.
#[derive(Debug, Clone, Copy)]
pub struct ErrorBody {
    pub code: &'static str,
    pub message: &'static str,
}

/// Platform API application errors.
#[derive(Debug, Clone, Copy, PartialEq, Eq)]
pub enum ApiError {
    Internal,
    NotFound,
    BadRequest,
    Unauthorized,
    Forbidden,
    Conflict,
    RateLimited,
    ServiceUnavailable,
    /// Input validation failure with a stable, field-specific code.
    ValidationFailed { code: &'static str, message: &'static str },
    /// Conflict with a stable, operation-specific code.
    ConflictDetailed { code: &'static str, message: &'static str },
}

pub type ApiResult<T> = Result<T, ApiError>;

/// The stable code of an error.
pub open spec fn error_code(e: ApiError) -> Seq<char> {
    match e {
        ApiError::Internal => "INTERNAL_ERROR"@,
        ApiError::NotFound => "NOT_FOUND"@,
        ApiError::BadRequest => "BAD_REQUEST"@,
        ApiError::Unauthorized => "UNAUTHORIZED"@,
        ApiError::Forbidden => "FORBIDDEN"@,
        ApiError::Conflict => "CONFLICT"@,
        ApiError::RateLimited => "RATE_LIMITED"@,
        ApiError::ServiceUnavailable => "SERVICE_UNAVAILABLE"@,
        ApiError::ValidationFailed { code, .. } => code@,
        ApiError::ConflictDetailed { code, .. } => code@,
    }
}

/// The client-safe message of an error.
pub open spec fn error_message(e: ApiError) -> Seq<char> {
    match e {
        ApiError::Internal => "Internal server error"@,
        ApiError::NotFound => "Resource not found"@,
        ApiError::BadRequest => "Bad request"@,
        ApiError::Unauthorized => "Authentication required"@,
        ApiError::Forbidden => "Access denied"@,
        ApiError::Conflict => "Resource conflict"@,
        ApiError::RateLimited => "Too many requests"@,
        ApiError::ServiceUnavailable => "Service temporarily unavailable"@,
        ApiError::ValidationFailed { message, .. } => message@,
        ApiError::ConflictDetailed { message, .. } => message@,
    }
}

/// The HTTP status of an error.
pub open spec fn error_status(e: ApiError) -> u16 {
    match e {
        ApiError::Internal => 500,
        ApiError::NotFound => 404,
        ApiError::BadRequest => 400,
        ApiError::Unauthorized => 401,
        ApiError::Forbidden => 403,
        ApiError::Conflict => 409,
        ApiError::RateLimited => 429,
        ApiError::ServiceUnavailable => 503,
        ApiError::ValidationFailed { .. } => 400,
        ApiError::ConflictDetailed { .. } => 409,
    }
}

impl ApiError {
    /// Stable machine-readable error code.
    pub fn code(&self) -> (r: &'static str)
        ensures
            r@ == error_code(*self),
    {
        match self {
            ApiError::Internal => "INTERNAL_ERROR",
            ApiError::NotFound => "NOT_FOUND",
            ApiError::BadRequest => "BAD_REQUEST",
            ApiError::Unauthorized => "UNAUTHORIZED",
            ApiError::Forbidden => "FORBIDDEN",
            ApiError::Conflict => "CONFLICT",
            ApiError::RateLimited => "RATE_LIMITED",
            ApiError::ServiceUnavailable => "SERVICE_UNAVAILABLE",
            ApiError::ValidationFailed { code, .. } => code,
            ApiError::ConflictDetailed { code, .. } => code,
        }
    }

    /// Safe client-facing message.
    pub fn message(&self) -> (r: &'static str)
        ensures
            r@ == error_message(*self),
    {
        match self {
            ApiError::Internal => "Internal server error",
            ApiError::NotFound => "Resource not found",
            ApiError::BadRequest => "Bad request",
            ApiError::Unauthorized => "Authentication required",
            ApiError::Forbidden => "Access denied",
            ApiError::Conflict => "Resource conflict",
            ApiError::RateLimited => "Too many requests",
            ApiError::ServiceUnavailable => "Service temporarily unavailable",
            ApiError::ValidationFailed { message, .. } => message,
            ApiError::ConflictDetailed { message, .. } => message,
        }
    }

    /// HTTP status code associated with the error.
    pub fn status_code(&self) -> (r: u16)
        ensures
            r == error_status(*self),
    {
        match self {
            ApiError::Internal => 500,
            ApiError::NotFound => 404,
            ApiError::BadRequest => 400,
            ApiError::Unauthorized => 401,
            ApiError::Forbidden => 403,
            ApiError::Conflict => 409,
            ApiError::RateLimited => 429,
            ApiError::ServiceUnavailable => 503,
            ApiError::ValidationFailed { .. } => 400,
            ApiError::ConflictDetailed { .. } => 409,
        }
    }

    /// Whether clients may retry the request.
    pub fn is_retryable(&self) -> (r: bool)
        ensures
            r == (*self is RateLimited || *self is ServiceUnavailable),
    {
        match self {
            ApiError::RateLimited | ApiError::ServiceUnavailable => true,
            _ => false,
        }
    }

    /// The response body of the error: its code and message only.
    pub fn body(&self) -> (r: ErrorResponse)
        ensures
            r.error.code@ == error_code(*self),
            r.error.message@ == error_message(*self),
    {
        ErrorResponse { error: ErrorBody { code: self.code(), message: self.message() } }
    }

    /// Extra response header that the error carries, as (name, value).
    pub fn extra_header(&self) -> (r: Option<(&'static str, &'static str)>)
        ensures
            *self is Unauthorized ==> (r matches Some(h) && h.0@ == "WWW-Authenticate"@ && h.1@
                == "Bearer"@),
            *self is RateLimited ==> (r matches Some(h) && h.0@ == "Retry-After"@ && h.1@ == "60"@),
            !(*self is Unauthorized) && !(*self is RateLimited) ==> r is None,
    {
        match self {
            ApiError::Unauthorized => Some(("WWW-Authenticate", "Bearer")),
            ApiError::RateLimited => Some(("Retry-After", "60")),
            _ => None,
        }
    }
}

} // verus!
