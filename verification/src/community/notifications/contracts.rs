//! Notification API contracts: limits, error codes and response bodies.

use vstd::prelude::*;
use vstd::std_specs::convert::FromSpecImpl;
use crate::clock::{Id, Timestamp};
use crate::community::notifications::models::NotificationKind;
use crate::community::notifications::validation::ValidationError;
use crate::error::ApiError;

verus! {

pub const DEFAULT_PAGE_LIMIT: usize = 20;
pub const MIN_PAGE_LIMIT: usize = 1;
pub const MAX_PAGE_LIMIT: usize = 100;

/// Largest serialized payload, in bytes (16 KiB).
pub const MAX_PAYLOAD_SIZE: usize = 16384;
pub const MAX_SOURCE_ID_LEN: usize = 256;

/// Longest pagination cursor accepted, in bytes.
pub const MAX_CURSOR_LEN: usize = 512;

pub const INVALID_CURSOR_CODE: &'static str = "INVALID_CURSOR";
pub const INVALID_CURSOR_MESSAGE: &'static str = "Pagination cursor is invalid";

pub const SOURCE_ID_EMPTY_CODE: &'static str = "SOURCE_ID_EMPTY";
pub const SOURCE_ID_EMPTY_MESSAGE: &'static str = "Source identifier is empty";

pub const SOURCE_ID_TOO_LONG_CODE: &'static str = "SOURCE_ID_TOO_LONG";
pub const SOURCE_ID_TOO_LONG_MESSAGE: &'static str = "Source identifier is too long";

pub const SOURCE_ID_INVALID_CODE: &'static str = "SOURCE_ID_INVALID";
pub const SOURCE_ID_INVALID_MESSAGE: &'static str = "Source identifier contains invalid characters";

pub const PAYLOAD_TOO_LARGE_CODE: &'static str = "PAYLOAD_TOO_LARGE";
pub const PAYLOAD_TOO_LARGE_MESSAGE: &'static str = "Notification payload exceeds maximum size";

pub const LIMIT_OUT_OF_RANGE_CODE: &'static str = "LIMIT_OUT_OF_RANGE";
pub const LIMIT_OUT_OF_RANGE_MESSAGE: &'static str = "Page limit is out of allowed range";

/// Public notification body; the owner's user id is left out.
#[derive(Debug, Clone)]
pub struct NotificationResponse {
    pub id: Id,
    pub kind: NotificationKind,
    /// The payload as JSON text.
    pub payload: String,
    pub read_at: Option<Timestamp>,
    pub created_at: Timestamp,
}

#[derive(Debug, Clone)]
pub struct NotificationPageResponse {
    pub items: Vec<NotificationResponse>,
    pub next_cursor: Option<String>,
}

#[derive(Debug, Clone, Copy)]
pub struct UnreadCountResponse {
    pub count: u64,
}

#[derive(Debug, Clone)]
pub struct ListNotificationsQuery {
    pub limit: Option<usize>,
    pub cursor: Option<String>,
}

/// The public error of a notification validation failure.
pub open spec fn notification_api_error(e: ValidationError) -> ApiError {
    match e {
        ValidationError::SourceIdEmpty => ApiError::ValidationFailed {
            code: SOURCE_ID_EMPTY_CODE,
            message: SOURCE_ID_EMPTY_MESSAGE,
        },
        ValidationError::SourceIdTooLong { .. } => ApiError::ValidationFailed {
            code: SOURCE_ID_TOO_LONG_CODE,
            message: SOURCE_ID_TOO_LONG_MESSAGE,
        },
        ValidationError::SourceIdInvalidChar { .. } => ApiError::ValidationFailed {
            code: SOURCE_ID_INVALID_CODE,
            message: SOURCE_ID_INVALID_MESSAGE,
        },
        ValidationError::PayloadTooLarge { .. } => ApiError::ValidationFailed {
            code: PAYLOAD_TOO_LARGE_CODE,
            message: PAYLOAD_TOO_LARGE_MESSAGE,
        },
        ValidationError::LimitOutOfRange { .. } => ApiError::ValidationFailed {
            code: LIMIT_OUT_OF_RANGE_CODE,
            message: LIMIT_OUT_OF_RANGE_MESSAGE,
        },
    }
}

impl From<ValidationError> for ApiError {
    fn from(error: ValidationError) -> (r: Self) {
        let (code, message) = match error {
            ValidationError::SourceIdEmpty => (SOURCE_ID_EMPTY_CODE, SOURCE_ID_EMPTY_MESSAGE),
            ValidationError::SourceIdTooLong { .. } => (
                SOURCE_ID_TOO_LONG_CODE,
                SOURCE_ID_TOO_LONG_MESSAGE,
            ),
            ValidationError::SourceIdInvalidChar { .. } => (
                SOURCE_ID_INVALID_CODE,
                SOURCE_ID_INVALID_MESSAGE,
            ),
            ValidationError::PayloadTooLarge { .. } => (
                PAYLOAD_TOO_LARGE_CODE,
                PAYLOAD_TOO_LARGE_MESSAGE,
            ),
            ValidationError::LimitOutOfRange { .. } => (
                LIMIT_OUT_OF_RANGE_CODE,
                LIMIT_OUT_OF_RANGE_MESSAGE,
            ),
        };
        ApiError::ValidationFailed { code, message }
    }
}

impl FromSpecImpl<ValidationError> for ApiError {
    open spec fn obeys_from_spec() -> bool {
        true
    }

    open spec fn from_spec(v: ValidationError) -> ApiError {
        notification_api_error(v)
    }
}

} // verus!
