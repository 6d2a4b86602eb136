//! Community API contracts and the stable validation error vocabulary.

use vstd::prelude::*;
use vstd::std_specs::convert::FromSpecImpl;
use crate::clock::Timestamp;
use crate::community::models::CommunityRole;
use crate::community::validation::ValidationError;
use crate::error::ApiError;

verus! {

pub const USERNAME_TOO_SHORT_CODE: &'static str = "USERNAME_TOO_SHORT";
pub const USERNAME_TOO_SHORT_MESSAGE: &'static str = "Username must be at least 3 characters";

pub const USERNAME_TOO_LONG_CODE: &'static str = "USERNAME_TOO_LONG";
pub const USERNAME_TOO_LONG_MESSAGE: &'static str = "Username must be at most 32 characters";

pub const USERNAME_INVALID_CHARSET_CODE: &'static str = "USERNAME_INVALID_CHARSET";
pub const USERNAME_INVALID_CHARSET_MESSAGE: &'static str = "Username may only contain a-z, 0-9, _ and -";

pub const USERNAME_RESERVED_CODE: &'static str = "USERNAME_RESERVED";
pub const USERNAME_RESERVED_MESSAGE: &'static str = "Username is reserved";

pub const USERNAME_REQUIRED_CODE: &'static str = "USERNAME_REQUIRED";
pub const USERNAME_REQUIRED_MESSAGE: &'static str = "Username is required for initial profile creation";

pub const USERNAME_IMMUTABLE_CODE: &'static str = "USERNAME_IMMUTABLE";
pub const USERNAME_IMMUTABLE_MESSAGE: &'static str = "Username cannot be changed";

pub const USERNAME_ALREADY_EXISTS_CODE: &'static str = "USERNAME_ALREADY_EXISTS";
pub const USERNAME_ALREADY_EXISTS_MESSAGE: &'static str = "Username is already taken";

pub const DISPLAY_NAME_TOO_LONG_CODE: &'static str = "DISPLAY_NAME_TOO_LONG";
pub const DISPLAY_NAME_TOO_LONG_MESSAGE: &'static str = "Display name must be at most 64 characters";

pub const DISPLAY_NAME_INVALID_CHARS_CODE: &'static str = "DISPLAY_NAME_INVALID_CHARS";
pub const DISPLAY_NAME_INVALID_CHARS_MESSAGE: &'static str = "Display name contains invalid characters";

pub const BIO_TOO_LONG_CODE: &'static str = "BIO_TOO_LONG";
pub const BIO_TOO_LONG_MESSAGE: &'static str = "Bio must be at most 500 characters";

pub const BIO_INVALID_CHARS_CODE: &'static str = "BIO_INVALID_CHARS";
pub const BIO_INVALID_CHARS_MESSAGE: &'static str = "Bio contains invalid characters";

/// Create-or-update request; absent fields are `None`.
#[derive(Debug, Clone)]
pub struct UpdateProfileRequest {
    pub username: Option<String>,
    pub display_name: Option<String>,
    pub bio: Option<String>,
}

/// What anyone may see of a profile: no user id, no e-mail.
#[derive(Debug, Clone)]
pub struct PublicProfileResponse {
    pub username: String,
    pub display_name: Option<String>,
    pub bio: Option<String>,
    pub avatar_url: Option<String>,
    pub joined_at: Timestamp,
}

/// What the owner sees of their profile.
#[derive(Debug, Clone)]
pub struct PrivateProfileResponse {
    pub username: String,
    pub display_name: Option<String>,
    pub bio: Option<String>,
    pub avatar_url: Option<String>,
    pub joined_at: Timestamp,
    pub role: CommunityRole,
}

/// The public error for a validation failure: a stable code and message
/// per rule, without the offending input.
pub open spec fn validation_api_error(e: ValidationError) -> ApiError {
    match e {
        ValidationError::UsernameTooShort { .. } => ApiError::ValidationFailed {
            code: USERNAME_TOO_SHORT_CODE,
            message: USERNAME_TOO_SHORT_MESSAGE,
        },
        ValidationError::UsernameTooLong { .. } => ApiError::ValidationFailed {
            code: USERNAME_TOO_LONG_CODE,
            message: USERNAME_TOO_LONG_MESSAGE,
        },
        ValidationError::UsernameInvalidCharset { .. } => ApiError::ValidationFailed {
            code: USERNAME_INVALID_CHARSET_CODE,
            message: USERNAME_INVALID_CHARSET_MESSAGE,
        },
        ValidationError::UsernameReserved => ApiError::ValidationFailed {
            code: USERNAME_RESERVED_CODE,
            message: USERNAME_RESERVED_MESSAGE,
        },
        ValidationError::DisplayNameTooLong { .. } => ApiError::ValidationFailed {
            code: DISPLAY_NAME_TOO_LONG_CODE,
            message: DISPLAY_NAME_TOO_LONG_MESSAGE,
        },
        ValidationError::DisplayNameContainsControl { .. }
        | ValidationError::DisplayNameContainsBidi { .. } => ApiError::ValidationFailed {
            code: DISPLAY_NAME_INVALID_CHARS_CODE,
            message: DISPLAY_NAME_INVALID_CHARS_MESSAGE,
        },
        ValidationError::BioTooLong { .. } => ApiError::ValidationFailed {
            code: BIO_TOO_LONG_CODE,
            message: BIO_TOO_LONG_MESSAGE,
        },
        ValidationError::BioContainsControl { .. }
        | ValidationError::BioContainsBidi { .. } => ApiError::ValidationFailed {
            code: BIO_INVALID_CHARS_CODE,
            message: BIO_INVALID_CHARS_MESSAGE,
        },
    }
}

impl From<ValidationError> for ApiError {
    fn from(error: ValidationError) -> (r: Self) {
        let (code, message) = match error {
            ValidationError::UsernameTooShort { .. } => (
                USERNAME_TOO_SHORT_CODE,
                USERNAME_TOO_SHORT_MESSAGE,
            ),
            ValidationError::UsernameTooLong { .. } => (
                USERNAME_TOO_LONG_CODE,
                USERNAME_TOO_LONG_MESSAGE,
            ),
            ValidationError::UsernameInvalidCharset { .. } => (
                USERNAME_INVALID_CHARSET_CODE,
                USERNAME_INVALID_CHARSET_MESSAGE,
            ),
            ValidationError::UsernameReserved => (
                USERNAME_RESERVED_CODE,
                USERNAME_RESERVED_MESSAGE,
            ),
            ValidationError::DisplayNameTooLong { .. } => (
                DISPLAY_NAME_TOO_LONG_CODE,
                DISPLAY_NAME_TOO_LONG_MESSAGE,
            ),
            ValidationError::DisplayNameContainsControl { .. }
            | ValidationError::DisplayNameContainsBidi { .. } => (
                DISPLAY_NAME_INVALID_CHARS_CODE,
                DISPLAY_NAME_INVALID_CHARS_MESSAGE,
            ),
            ValidationError::BioTooLong { .. } => (BIO_TOO_LONG_CODE, BIO_TOO_LONG_MESSAGE),
            ValidationError::BioContainsControl { .. }
            | ValidationError::BioContainsBidi { .. } => (
                BIO_INVALID_CHARS_CODE,
                BIO_INVALID_CHARS_MESSAGE,
            ),
        };
        ApiError::ValidationFailed { code, message }
    }
}

impl FromSpecImpl<ValidationError> for ApiError {
    open spec fn obeys_from_spec() -> bool {
        true
    }

    open spec fn from_spec(v: ValidationError) -> ApiError {
        validation_api_error(v)
    }
}

} // verus!
