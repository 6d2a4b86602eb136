//! Authentication API contracts: request shapes, limits and their validation.

use vstd::prelude::*;
use vstd::utf8::encode_utf8;
use crate::clock::{Id, Timestamp};

verus! {

#[derive(Debug, Clone)]
pub struct RegisterRequest {
    pub email: String,
    pub password: String,
}

#[derive(Debug, Clone)]
pub struct LoginRequest {
    pub email: String,
    pub password: String,
}

#[derive(Debug, Clone)]
pub struct PasswordChangeRequest {
    pub current_password: String,
    pub new_password: String,
}

#[derive(Debug, Clone)]
pub struct PasswordResetRequest {
    pub email: String,
}

#[derive(Debug, Clone)]
pub struct PasswordResetConfirm {
    pub token: String,
    pub new_password: String,
}

#[derive(Debug, Clone)]
pub struct EmailVerificationRequest {}

#[derive(Debug, Clone)]
pub struct EmailVerificationConfirm {
    pub token: String,
}

#[derive(Debug, Clone)]
pub struct EmailVerificationResponse {
    pub success: bool,
}

#[derive(Debug, Clone)]
pub struct LogoutResponse {
    pub success: bool,
}

/// What an authenticator app needs to enroll: the otpauth URI and the
/// secret in base32.
#[derive(Debug, Clone)]
pub struct TwoFactorSetupResponse {
    pub otpauth_uri: String,
    pub secret_base32: String,
}

/// Whether two-factor authentication is on, and its state by name
/// (`enabled`, `pending` or `disabled`).
#[derive(Debug, Clone)]
pub struct TwoFactorStatusResponse {
    pub enabled: bool,
    pub state: String,
}

/// The caller's backup codes: whether any exist, how many are still
/// usable, how many there are, and when the newest was generated.
#[derive(Debug, Clone)]
pub struct BackupCodeStatusResponse {
    pub enabled: bool,
    pub remaining: usize,
    pub total: usize,
    pub generated_at: Option<Timestamp>,
}

/// One of the caller's sessions in use; `current` marks the session that
/// carried the request.
#[derive(Debug, Clone)]
pub struct ActiveSessionResponse {
    pub id: Id,
    pub created_at: Timestamp,
    pub expires_at: Timestamp,
    pub last_seen_at: Option<Timestamp>,
    pub ip_address: Option<String>,
    pub user_agent: Option<String>,
    pub current: bool,
}

pub const SESSION_COOKIE_NAME: &'static str = "__Host-aevum_session";

pub const SESSION_DURATION_DAYS: i64 = 7;

pub const SESSION_DURATION_SECONDS: i64 = 604800;

pub const MAX_EMAIL_LENGTH: usize = 254;

pub const MIN_PASSWORD_LENGTH: usize = 12;

pub const MAX_PASSWORD_LENGTH: usize = 128;

pub const MAX_USER_AGENT_LENGTH: usize = 512;

pub const MAX_IP_ADDRESS_LENGTH: usize = 64;

pub const PASSWORD_RESET_TOKEN_BYTES: usize = 32;

pub const PASSWORD_RESET_TOKEN_TTL_MINUTES: i64 = 30;

/// Lifetime of the pre-auth token of a login that awaits its second
/// factor, in seconds.
pub const PRE_AUTH_TOKEN_TTL_SECONDS: i64 = 300;

/// Lifetime of an e-mail verification token, in minutes (a day).
pub const EMAIL_VERIFICATION_TOKEN_TTL_MINUTES: i64 = 1440;

pub const BACKUP_CODE_GROUP_SIZE: usize = 5;

pub const BACKUP_CODE_GROUPS: usize = 2;

pub const BACKUP_CODES_PER_SET: usize = 10;

#[derive(Debug, Clone, Copy, PartialEq, Eq, Structural)]
pub enum ContractValidationError {
    EmptyEmail,
    EmailTooLong,
    EmptyPassword,
    PasswordTooShort,
    PasswordTooLong,
    EmptyResetToken,
    EmptyVerificationToken,
}

/// Length in bytes of the UTF-8 encoding of a string.
pub open spec fn byte_len(s: Seq<char>) -> usize {
    encode_utf8(s).len() as usize
}

/// Outcome of the e-mail rules: non-empty, at most 254 bytes.
pub open spec fn email_check(email: Seq<char>) -> Result<(), ContractValidationError> {
    if email.len() == 0 {
        Err(ContractValidationError::EmptyEmail)
    } else if byte_len(email) > MAX_EMAIL_LENGTH {
        Err(ContractValidationError::EmailTooLong)
    } else {
        Ok(())
    }
}

/// Outcome of the password rules: non-empty, 12 to 128 bytes.
pub open spec fn password_check(password: Seq<char>) -> Result<(), ContractValidationError> {
    if password.len() == 0 {
        Err(ContractValidationError::EmptyPassword)
    } else if byte_len(password) < MIN_PASSWORD_LENGTH {
        Err(ContractValidationError::PasswordTooShort)
    } else if byte_len(password) > MAX_PASSWORD_LENGTH {
        Err(ContractValidationError::PasswordTooLong)
    } else {
        Ok(())
    }
}

/// Outcome of the login password rules: non-empty, at most 128 bytes.
pub open spec fn login_password_check(password: Seq<char>) -> Result<(), ContractValidationError> {
    if password.len() == 0 {
        Err(ContractValidationError::EmptyPassword)
    } else if byte_len(password) > MAX_PASSWORD_LENGTH {
        Err(ContractValidationError::PasswordTooLong)
    } else {
        Ok(())
    }
}

pub fn validate_email(email: &str) -> (r: Result<(), ContractValidationError>)
    ensures
        r == email_check(email@),
{
    if email.is_empty() {
        return Err(ContractValidationError::EmptyEmail);
    }
    if email.len() > MAX_EMAIL_LENGTH {
        return Err(ContractValidationError::EmailTooLong);
    }
    Ok(())
}

pub fn validate_password(password: &str) -> (r: Result<(), ContractValidationError>)
    ensures
        r == password_check(password@),
{
    if password.is_empty() {
        return Err(ContractValidationError::EmptyPassword);
    }
    if password.len() < MIN_PASSWORD_LENGTH {
        return Err(ContractValidationError::PasswordTooShort);
    }
    if password.len() > MAX_PASSWORD_LENGTH {
        return Err(ContractValidationError::PasswordTooLong);
    }
    Ok(())
}

fn validate_login_password(password: &str) -> (r: Result<(), ContractValidationError>)
    ensures
        r == login_password_check(password@),
{
    if password.is_empty() {
        return Err(ContractValidationError::EmptyPassword);
    }
    if password.len() > MAX_PASSWORD_LENGTH {
        return Err(ContractValidationError::PasswordTooLong);
    }
    Ok(())
}

impl RegisterRequest {
    pub fn validate(&self) -> (r: Result<(), ContractValidationError>)
        ensures
            r == (match email_check(self.email@) {
                Err(e) => Err(e),
                Ok(()) => password_check(self.password@),
            }),
    {
        validate_email(self.email.as_str())?;
        validate_password(self.password.as_str())
    }
}

impl LoginRequest {
    pub fn validate(&self) -> (r: Result<(), ContractValidationError>)
        ensures
            r == (match email_check(self.email@) {
                Err(e) => Err(e),
                Ok(()) => login_password_check(self.password@),
            }),
    {
        validate_email(self.email.as_str())?;
        validate_login_password(self.password.as_str())
    }
}

impl PasswordChangeRequest {
    pub fn validate(&self) -> (r: Result<(), ContractValidationError>)
        ensures
            r == (if self.current_password@.len() == 0 {
                Err(ContractValidationError::EmptyPassword)
            } else {
                password_check(self.new_password@)
            }),
    {
        if self.current_password.as_str().is_empty() {
            return Err(ContractValidationError::EmptyPassword);
        }
        validate_password(self.new_password.as_str())
    }
}

impl PasswordResetRequest {
    pub fn validate(&self) -> (r: Result<(), ContractValidationError>)
        ensures
            r == email_check(self.email@),
    {
        validate_email(self.email.as_str())
    }
}

impl PasswordResetConfirm {
    pub fn validate(&self) -> (r: Result<(), ContractValidationError>)
        ensures
            r == (if self.token@.len() == 0 {
                Err(ContractValidationError::EmptyResetToken)
            } else {
                password_check(self.new_password@)
            }),
    {
        if self.token.as_str().is_empty() {
            return Err(ContractValidationError::EmptyResetToken);
        }
        validate_password(self.new_password.as_str())
    }
}

impl EmailVerificationRequest {
    pub fn validate(&self) -> (r: Result<(), ContractValidationError>)
        ensures
            r is Ok,
    {
        Ok(())
    }
}

impl EmailVerificationConfirm {
    pub fn validate(&self) -> (r: Result<(), ContractValidationError>)
        ensures
            r == (if self.token@.len() == 0 {
                Err(ContractValidationError::EmptyVerificationToken)
            } else {
                Ok(())
            }),
    {
        if self.token.as_str().is_empty() {
            return Err(ContractValidationError::EmptyVerificationToken);
        }
        Ok(())
    }
}

} // verus!
