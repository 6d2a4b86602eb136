//! Security events of the authentication subsystem.
//!
//! A stable vocabulary of what happened, with severity, used by the audit
//! log and the security center.

use vstd::prelude::*;
use crate::clock::{new_id, now, Id, Timestamp};

pub mod storage;

verus! {

/// Severity level for security events.
#[derive(Debug, Clone, Copy, PartialEq, Eq, Structural)]
pub enum SecuritySeverity {
    Info,
    Warning,
    Critical,
}

/// Structured reason for login failures.
#[derive(Debug, Clone, Copy, PartialEq, Eq, Structural)]
pub enum LoginFailureReason {
    InvalidPassword,
    UnknownUser,
    AccountDisabled,
    SessionExpired,
    RateLimited,
}

pub open spec fn failure_reason_name(r: LoginFailureReason) -> Seq<char> {
    match r {
        LoginFailureReason::InvalidPassword => "invalid_password"@,
        LoginFailureReason::UnknownUser => "unknown_user"@,
        LoginFailureReason::AccountDisabled => "account_disabled"@,
        LoginFailureReason::SessionExpired => "session_expired"@,
        LoginFailureReason::RateLimited => "rate_limited"@,
    }
}

impl LoginFailureReason {
    pub fn as_str(self) -> (r: &'static str)
        ensures
            r@ == failure_reason_name(self),
    {
        match self {
            LoginFailureReason::InvalidPassword => "invalid_password",
            LoginFailureReason::UnknownUser => "unknown_user",
            LoginFailureReason::AccountDisabled => "account_disabled",
            LoginFailureReason::SessionExpired => "session_expired",
            LoginFailureReason::RateLimited => "rate_limited",
        }
    }
}

/// Event kind for indexing and filtering.
#[derive(Debug, Clone, Copy, PartialEq, Eq, Hash, Structural)]
pub enum SecurityEventKind {
    UserRegistered,
    LoginSuccess,
    LoginFailed,
    LoginRateLimited,
    RegisterRateLimited,
    SessionCreated,
    SessionRevoked,
    AllSessionsRevoked,
    SessionRotated,
    PasswordChanged,
    PasswordResetRequested,
    PasswordResetCompleted,
    TwoFactorEnabled,
    TwoFactorDisabled,
    TwoFactorVerificationFailed,
    EmailChanged,
    AccountLocked,
    AccountUnlocked,
}

pub open spec fn kind_name(k: SecurityEventKind) -> Seq<char> {
    match k {
        SecurityEventKind::UserRegistered => "USER_REGISTERED"@,
        SecurityEventKind::LoginSuccess => "LOGIN_SUCCESS"@,
        SecurityEventKind::LoginFailed => "LOGIN_FAILED"@,
        SecurityEventKind::LoginRateLimited => "LOGIN_RATE_LIMITED"@,
        SecurityEventKind::RegisterRateLimited => "REGISTER_RATE_LIMITED"@,
        SecurityEventKind::SessionCreated => "SESSION_CREATED"@,
        SecurityEventKind::SessionRevoked => "SESSION_REVOKED"@,
        SecurityEventKind::AllSessionsRevoked => "ALL_SESSIONS_REVOKED"@,
        SecurityEventKind::SessionRotated => "SESSION_ROTATED"@,
        SecurityEventKind::PasswordChanged => "PASSWORD_CHANGED"@,
        SecurityEventKind::PasswordResetRequested => "PASSWORD_RESET_REQUESTED"@,
        SecurityEventKind::PasswordResetCompleted => "PASSWORD_RESET_COMPLETED"@,
        SecurityEventKind::TwoFactorEnabled => "TWO_FACTOR_ENABLED"@,
        SecurityEventKind::TwoFactorDisabled => "TWO_FACTOR_DISABLED"@,
        SecurityEventKind::TwoFactorVerificationFailed => "TWO_FACTOR_VERIFICATION_FAILED"@,
        SecurityEventKind::EmailChanged => "EMAIL_CHANGED"@,
        SecurityEventKind::AccountLocked => "ACCOUNT_LOCKED"@,
        SecurityEventKind::AccountUnlocked => "ACCOUNT_UNLOCKED"@,
    }
}

impl SecurityEventKind {
    pub fn as_str(self) -> (r: &'static str)
        ensures
            r@ == kind_name(self),
    {
        match self {
            SecurityEventKind::UserRegistered => "USER_REGISTERED",
            SecurityEventKind::LoginSuccess => "LOGIN_SUCCESS",
            SecurityEventKind::LoginFailed => "LOGIN_FAILED",
            SecurityEventKind::LoginRateLimited => "LOGIN_RATE_LIMITED",
            SecurityEventKind::RegisterRateLimited => "REGISTER_RATE_LIMITED",
            SecurityEventKind::SessionCreated => "SESSION_CREATED",
            SecurityEventKind::SessionRevoked => "SESSION_REVOKED",
            SecurityEventKind::AllSessionsRevoked => "ALL_SESSIONS_REVOKED",
            SecurityEventKind::SessionRotated => "SESSION_ROTATED",
            SecurityEventKind::PasswordChanged => "PASSWORD_CHANGED",
            SecurityEventKind::PasswordResetRequested => "PASSWORD_RESET_REQUESTED",
            SecurityEventKind::PasswordResetCompleted => "PASSWORD_RESET_COMPLETED",
            SecurityEventKind::TwoFactorEnabled => "TWO_FACTOR_ENABLED",
            SecurityEventKind::TwoFactorDisabled => "TWO_FACTOR_DISABLED",
            SecurityEventKind::TwoFactorVerificationFailed => "TWO_FACTOR_VERIFICATION_FAILED",
            SecurityEventKind::EmailChanged => "EMAIL_CHANGED",
            SecurityEventKind::AccountLocked => "ACCOUNT_LOCKED",
            SecurityEventKind::AccountUnlocked => "ACCOUNT_UNLOCKED",
        }
    }
}

/// Common metadata for all security events.
#[derive(Debug, Clone, PartialEq, Eq)]
pub struct SecurityMetadata {
    pub event_id: Id,
    pub timestamp: Timestamp,
    pub client_ip: Option<String>,
    pub user_agent: Option<String>,
}

/// A copy of an optional string with the same characters.
pub fn copy_opt_string(s: &Option<String>) -> (r: Option<String>)
    ensures
        r == *s,
{
    match s {
        Some(v) => Some(v.clone()),
        None => None,
    }
}

impl SecurityMetadata {
    /// Metadata with a fresh event id, stamped now.
    pub fn new(client_ip: Option<String>, user_agent: Option<String>) -> (r: Self)
        ensures
            r.client_ip == client_ip,
            r.user_agent == user_agent,
    {
        let t = now();
        SecurityMetadata { event_id: new_id(), timestamp: t, client_ip, user_agent }
    }

    pub fn copy(&self) -> (r: Self)
        ensures
            r == *self,
    {
        SecurityMetadata {
            event_id: self.event_id,
            timestamp: self.timestamp,
            client_ip: copy_opt_string(&self.client_ip),
            user_agent: copy_opt_string(&self.user_agent),
        }
    }
}

/// Security events tracked by the authentication subsystem.
#[derive(Debug, Clone, PartialEq, Eq)]
pub enum SecurityEvent {
    UserRegistered { metadata: SecurityMetadata, user_id: Id, email: String },
    LoginSuccess { metadata: SecurityMetadata, user_id: Id, email: String },
    LoginFailed { metadata: SecurityMetadata, email: String, reason: LoginFailureReason },
    LoginRateLimited { metadata: SecurityMetadata, email: Option<String> },
    RegisterRateLimited { metadata: SecurityMetadata },
    SessionCreated { metadata: SecurityMetadata, user_id: Id, session_id: Id },
    SessionRevoked { metadata: SecurityMetadata, user_id: Id, session_id: Id },
    AllSessionsRevoked { metadata: SecurityMetadata, user_id: Id, revoked_count: usize },
    SessionRotated { metadata: SecurityMetadata, user_id: Id, old_session_id: Id, new_session_id: Id },
    PasswordChanged { metadata: SecurityMetadata, user_id: Id },
    PasswordResetRequested { metadata: SecurityMetadata, email: String },
    PasswordResetCompleted { metadata: SecurityMetadata, user_id: Id },
    TwoFactorEnabled { metadata: SecurityMetadata, user_id: Id },
    TwoFactorDisabled { metadata: SecurityMetadata, user_id: Id },
    TwoFactorVerificationFailed { metadata: SecurityMetadata, user_id: Id },
    EmailChanged { metadata: SecurityMetadata, user_id: Id, old_email: String, new_email: String },
    AccountLocked { metadata: SecurityMetadata, user_id: Id },
    AccountUnlocked { metadata: SecurityMetadata, user_id: Id },
}

pub open spec fn event_kind(e: SecurityEvent) -> SecurityEventKind {
    match e {
        SecurityEvent::UserRegistered { .. } => SecurityEventKind::UserRegistered,
        SecurityEvent::LoginSuccess { .. } => SecurityEventKind::LoginSuccess,
        SecurityEvent::LoginFailed { .. } => SecurityEventKind::LoginFailed,
        SecurityEvent::LoginRateLimited { .. } => SecurityEventKind::LoginRateLimited,
        SecurityEvent::RegisterRateLimited { .. } => SecurityEventKind::RegisterRateLimited,
        SecurityEvent::SessionCreated { .. } => SecurityEventKind::SessionCreated,
        SecurityEvent::SessionRevoked { .. } => SecurityEventKind::SessionRevoked,
        SecurityEvent::AllSessionsRevoked { .. } => SecurityEventKind::AllSessionsRevoked,
        SecurityEvent::SessionRotated { .. } => SecurityEventKind::SessionRotated,
        SecurityEvent::PasswordChanged { .. } => SecurityEventKind::PasswordChanged,
        SecurityEvent::PasswordResetRequested { .. } => SecurityEventKind::PasswordResetRequested,
        SecurityEvent::PasswordResetCompleted { .. } => SecurityEventKind::PasswordResetCompleted,
        SecurityEvent::TwoFactorEnabled { .. } => SecurityEventKind::TwoFactorEnabled,
        SecurityEvent::TwoFactorDisabled { .. } => SecurityEventKind::TwoFactorDisabled,
        SecurityEvent::TwoFactorVerificationFailed { .. } => SecurityEventKind::TwoFactorVerificationFailed,
        SecurityEvent::EmailChanged { .. } => SecurityEventKind::EmailChanged,
        SecurityEvent::AccountLocked { .. } => SecurityEventKind::AccountLocked,
        SecurityEvent::AccountUnlocked { .. } => SecurityEventKind::AccountUnlocked,
    }
}

pub open spec fn kind_severity(k: SecurityEventKind) -> SecuritySeverity {
    match k {
        SecurityEventKind::UserRegistered => SecuritySeverity::Info,
        SecurityEventKind::LoginSuccess => SecuritySeverity::Info,
        SecurityEventKind::LoginFailed => SecuritySeverity::Warning,
        SecurityEventKind::LoginRateLimited => SecuritySeverity::Warning,
        SecurityEventKind::RegisterRateLimited => SecuritySeverity::Warning,
        SecurityEventKind::SessionCreated => SecuritySeverity::Info,
        SecurityEventKind::SessionRevoked => SecuritySeverity::Critical,
        SecurityEventKind::AllSessionsRevoked => SecuritySeverity::Critical,
        SecurityEventKind::SessionRotated => SecuritySeverity::Info,
        SecurityEventKind::PasswordChanged => SecuritySeverity::Info,
        SecurityEventKind::PasswordResetRequested => SecuritySeverity::Warning,
        SecurityEventKind::PasswordResetCompleted => SecuritySeverity::Info,
        SecurityEventKind::TwoFactorEnabled => SecuritySeverity::Info,
        SecurityEventKind::TwoFactorDisabled => SecuritySeverity::Info,
        SecurityEventKind::TwoFactorVerificationFailed => SecuritySeverity::Warning,
        SecurityEventKind::EmailChanged => SecuritySeverity::Info,
        SecurityEventKind::AccountLocked => SecuritySeverity::Critical,
        SecurityEventKind::AccountUnlocked => SecuritySeverity::Info,
    }
}

pub open spec fn event_metadata(e: SecurityEvent) -> SecurityMetadata {
    match e {
        SecurityEvent::UserRegistered { metadata, .. } => metadata,
        SecurityEvent::LoginSuccess { metadata, .. } => metadata,
        SecurityEvent::LoginFailed { metadata, .. } => metadata,
        SecurityEvent::LoginRateLimited { metadata, .. } => metadata,
        SecurityEvent::RegisterRateLimited { metadata, .. } => metadata,
        SecurityEvent::SessionCreated { metadata, .. } => metadata,
        SecurityEvent::SessionRevoked { metadata, .. } => metadata,
        SecurityEvent::AllSessionsRevoked { metadata, .. } => metadata,
        SecurityEvent::SessionRotated { metadata, .. } => metadata,
        SecurityEvent::PasswordChanged { metadata, .. } => metadata,
        SecurityEvent::PasswordResetRequested { metadata, .. } => metadata,
        SecurityEvent::PasswordResetCompleted { metadata, .. } => metadata,
        SecurityEvent::TwoFactorEnabled { metadata, .. } => metadata,
        SecurityEvent::TwoFactorDisabled { metadata, .. } => metadata,
        SecurityEvent::TwoFactorVerificationFailed { metadata, .. } => metadata,
        SecurityEvent::EmailChanged { metadata, .. } => metadata,
        SecurityEvent::AccountLocked { metadata, .. } => metadata,
        SecurityEvent::AccountUnlocked { metadata, .. } => metadata,
    }
}

/// The user an event is about, for the variants that name one.
pub open spec fn event_user(e: SecurityEvent) -> Option<Id> {
    match e {
        SecurityEvent::UserRegistered { user_id, .. } => Some(user_id),
        SecurityEvent::LoginSuccess { user_id, .. } => Some(user_id),
        SecurityEvent::SessionCreated { user_id, .. } => Some(user_id),
        SecurityEvent::SessionRevoked { user_id, .. } => Some(user_id),
        SecurityEvent::AllSessionsRevoked { user_id, .. } => Some(user_id),
        SecurityEvent::SessionRotated { user_id, .. } => Some(user_id),
        SecurityEvent::PasswordChanged { user_id, .. } => Some(user_id),
        SecurityEvent::PasswordResetCompleted { user_id, .. } => Some(user_id),
        SecurityEvent::TwoFactorEnabled { user_id, .. } => Some(user_id),
        SecurityEvent::TwoFactorDisabled { user_id, .. } => Some(user_id),
        SecurityEvent::TwoFactorVerificationFailed { user_id, .. } => Some(user_id),
        SecurityEvent::EmailChanged { user_id, .. } => Some(user_id),
        SecurityEvent::AccountLocked { user_id, .. } => Some(user_id),
        SecurityEvent::AccountUnlocked { user_id, .. } => Some(user_id),
        _ => None,
    }
}

impl SecurityEvent {
    pub fn user_registered(user_id: Id, email: String, metadata: SecurityMetadata) -> (r: Self)
        ensures
            r == (SecurityEvent::UserRegistered { metadata, user_id, email }),
    {
        SecurityEvent::UserRegistered { metadata, user_id, email }
    }

    pub fn login_success(user_id: Id, email: String, metadata: SecurityMetadata) -> (r: Self)
        ensures
            r == (SecurityEvent::LoginSuccess { metadata, user_id, email }),
    {
        SecurityEvent::LoginSuccess { metadata, user_id, email }
    }

    pub fn login_failed(email: String, reason: LoginFailureReason, metadata: SecurityMetadata) -> (r: Self)
        ensures
            r == (SecurityEvent::LoginFailed { metadata, email, reason }),
    {
        SecurityEvent::LoginFailed { metadata, email, reason }
    }

    pub fn login_rate_limited(email: Option<String>, metadata: SecurityMetadata) -> (r: Self)
        ensures
            r == (SecurityEvent::LoginRateLimited { metadata, email }),
    {
        SecurityEvent::LoginRateLimited { metadata, email }
    }

    pub fn register_rate_limited(metadata: SecurityMetadata) -> (r: Self)
        ensures
            r == (SecurityEvent::RegisterRateLimited { metadata }),
    {
        SecurityEvent::RegisterRateLimited { metadata }
    }

    pub fn session_created(user_id: Id, session_id: Id, metadata: SecurityMetadata) -> (r: Self)
        ensures
            r == (SecurityEvent::SessionCreated { metadata, user_id, session_id }),
    {
        SecurityEvent::SessionCreated { metadata, user_id, session_id }
    }

    pub fn session_revoked(user_id: Id, session_id: Id, metadata: SecurityMetadata) -> (r: Self)
        ensures
            r == (SecurityEvent::SessionRevoked { metadata, user_id, session_id }),
    {
        SecurityEvent::SessionRevoked { metadata, user_id, session_id }
    }

    pub fn all_sessions_revoked(user_id: Id, revoked_count: usize, metadata: SecurityMetadata) -> (r: Self)
        ensures
            r == (SecurityEvent::AllSessionsRevoked { metadata, user_id, revoked_count }),
    {
        SecurityEvent::AllSessionsRevoked { metadata, user_id, revoked_count }
    }

    pub fn session_rotated(
        user_id: Id,
        old_session_id: Id,
        new_session_id: Id,
        metadata: SecurityMetadata,
    ) -> (r: Self)
        ensures
            r == (SecurityEvent::SessionRotated { metadata, user_id, old_session_id, new_session_id }),
    {
        SecurityEvent::SessionRotated { metadata, user_id, old_session_id, new_session_id }
    }

    pub fn kind(&self) -> (r: SecurityEventKind)
        ensures
            r == event_kind(*self),
    {
        match self {
            SecurityEvent::UserRegistered { .. } => SecurityEventKind::UserRegistered,
            SecurityEvent::LoginSuccess { .. } => SecurityEventKind::LoginSuccess,
            SecurityEvent::LoginFailed { .. } => SecurityEventKind::LoginFailed,
            SecurityEvent::LoginRateLimited { .. } => SecurityEventKind::LoginRateLimited,
            SecurityEvent::RegisterRateLimited { .. } => SecurityEventKind::RegisterRateLimited,
            SecurityEvent::SessionCreated { .. } => SecurityEventKind::SessionCreated,
            SecurityEvent::SessionRevoked { .. } => SecurityEventKind::SessionRevoked,
            SecurityEvent::AllSessionsRevoked { .. } => SecurityEventKind::AllSessionsRevoked,
            SecurityEvent::SessionRotated { .. } => SecurityEventKind::SessionRotated,
            SecurityEvent::PasswordChanged { .. } => SecurityEventKind::PasswordChanged,
            SecurityEvent::PasswordResetRequested { .. } => SecurityEventKind::PasswordResetRequested,
            SecurityEvent::PasswordResetCompleted { .. } => SecurityEventKind::PasswordResetCompleted,
            SecurityEvent::TwoFactorEnabled { .. } => SecurityEventKind::TwoFactorEnabled,
            SecurityEvent::TwoFactorDisabled { .. } => SecurityEventKind::TwoFactorDisabled,
            SecurityEvent::TwoFactorVerificationFailed { .. } => SecurityEventKind::TwoFactorVerificationFailed,
            SecurityEvent::EmailChanged { .. } => SecurityEventKind::EmailChanged,
            SecurityEvent::AccountLocked { .. } => SecurityEventKind::AccountLocked,
            SecurityEvent::AccountUnlocked { .. } => SecurityEventKind::AccountUnlocked,
        }
    }

    pub fn event_name(&self) -> (r: &'static str)
        ensures
            r@ == kind_name(event_kind(*self)),
    {
        self.kind().as_str()
    }

    pub fn severity(&self) -> (r: SecuritySeverity)
        ensures
            r == kind_severity(event_kind(*self)),
    {
        match self {
            SecurityEvent::UserRegistered { .. } => SecuritySeverity::Info,
            SecurityEvent::LoginSuccess { .. } => SecuritySeverity::Info,
            SecurityEvent::LoginFailed { .. } => SecuritySeverity::Warning,
            SecurityEvent::LoginRateLimited { .. } => SecuritySeverity::Warning,
            SecurityEvent::RegisterRateLimited { .. } => SecuritySeverity::Warning,
            SecurityEvent::SessionCreated { .. } => SecuritySeverity::Info,
            SecurityEvent::SessionRevoked { .. } => SecuritySeverity::Critical,
            SecurityEvent::AllSessionsRevoked { .. } => SecuritySeverity::Critical,
            SecurityEvent::SessionRotated { .. } => SecuritySeverity::Info,
            SecurityEvent::PasswordChanged { .. } => SecuritySeverity::Info,
            SecurityEvent::PasswordResetRequested { .. } => SecuritySeverity::Warning,
            SecurityEvent::PasswordResetCompleted { .. } => SecuritySeverity::Info,
            SecurityEvent::TwoFactorEnabled { .. } => SecuritySeverity::Info,
            SecurityEvent::TwoFactorDisabled { .. } => SecuritySeverity::Info,
            SecurityEvent::TwoFactorVerificationFailed { .. } => SecuritySeverity::Warning,
            SecurityEvent::EmailChanged { .. } => SecuritySeverity::Info,
            SecurityEvent::AccountLocked { .. } => SecuritySeverity::Critical,
            SecurityEvent::AccountUnlocked { .. } => SecuritySeverity::Info,
        }
    }

    pub fn metadata(&self) -> (r: &SecurityMetadata)
        ensures
            *r == event_metadata(*self),
    {
        match self {
            SecurityEvent::UserRegistered { metadata, .. } => metadata,
            SecurityEvent::LoginSuccess { metadata, .. } => metadata,
            SecurityEvent::LoginFailed { metadata, .. } => metadata,
            SecurityEvent::LoginRateLimited { metadata, .. } => metadata,
            SecurityEvent::RegisterRateLimited { metadata, .. } => metadata,
            SecurityEvent::SessionCreated { metadata, .. } => metadata,
            SecurityEvent::SessionRevoked { metadata, .. } => metadata,
            SecurityEvent::AllSessionsRevoked { metadata, .. } => metadata,
            SecurityEvent::SessionRotated { metadata, .. } => metadata,
            SecurityEvent::PasswordChanged { metadata, .. } => metadata,
            SecurityEvent::PasswordResetRequested { metadata, .. } => metadata,
            SecurityEvent::PasswordResetCompleted { metadata, .. } => metadata,
            SecurityEvent::TwoFactorEnabled { metadata, .. } => metadata,
            SecurityEvent::TwoFactorDisabled { metadata, .. } => metadata,
            SecurityEvent::TwoFactorVerificationFailed { metadata, .. } => metadata,
            SecurityEvent::EmailChanged { metadata, .. } => metadata,
            SecurityEvent::AccountLocked { metadata, .. } => metadata,
            SecurityEvent::AccountUnlocked { metadata, .. } => metadata,
        }
    }

    pub fn timestamp(&self) -> (r: Timestamp)
        ensures
            r == event_metadata(*self).timestamp,
    {
        self.metadata().timestamp
    }

    pub fn user_id(&self) -> (r: Option<Id>)
        ensures
            r == event_user(*self),
    {
        match self {
            SecurityEvent::UserRegistered { user_id, .. } => Some(*user_id),
            SecurityEvent::LoginSuccess { user_id, .. } => Some(*user_id),
            SecurityEvent::SessionCreated { user_id, .. } => Some(*user_id),
            SecurityEvent::SessionRevoked { user_id, .. } => Some(*user_id),
            SecurityEvent::AllSessionsRevoked { user_id, .. } => Some(*user_id),
            SecurityEvent::SessionRotated { user_id, .. } => Some(*user_id),
            SecurityEvent::PasswordChanged { user_id, .. } => Some(*user_id),
            SecurityEvent::PasswordResetCompleted { user_id, .. } => Some(*user_id),
            SecurityEvent::TwoFactorEnabled { user_id, .. } => Some(*user_id),
            SecurityEvent::TwoFactorDisabled { user_id, .. } => Some(*user_id),
            SecurityEvent::TwoFactorVerificationFailed { user_id, .. } => Some(*user_id),
            SecurityEvent::EmailChanged { user_id, .. } => Some(*user_id),
            SecurityEvent::AccountLocked { user_id, .. } => Some(*user_id),
            SecurityEvent::AccountUnlocked { user_id, .. } => Some(*user_id),
            _ => None,
        }
    }

    /// A copy of the event with equal fields.
    pub fn copy(&self) -> (r: Self)
        ensures
            r == *self,
    {
        match self {
            SecurityEvent::UserRegistered { metadata, user_id, email } => SecurityEvent::UserRegistered { metadata: metadata.copy(), user_id: *user_id, email: email.clone() },
            SecurityEvent::LoginSuccess { metadata, user_id, email } => SecurityEvent::LoginSuccess { metadata: metadata.copy(), user_id: *user_id, email: email.clone() },
            SecurityEvent::LoginFailed { metadata, email, reason } => SecurityEvent::LoginFailed { metadata: metadata.copy(), email: email.clone(), reason: *reason },
            SecurityEvent::LoginRateLimited { metadata, email } => SecurityEvent::LoginRateLimited { metadata: metadata.copy(), email: copy_opt_string(email) },
            SecurityEvent::RegisterRateLimited { metadata } => SecurityEvent::RegisterRateLimited { metadata: metadata.copy() },
            SecurityEvent::SessionCreated { metadata, user_id, session_id } => SecurityEvent::SessionCreated { metadata: metadata.copy(), user_id: *user_id, session_id: *session_id },
            SecurityEvent::SessionRevoked { metadata, user_id, session_id } => SecurityEvent::SessionRevoked { metadata: metadata.copy(), user_id: *user_id, session_id: *session_id },
            SecurityEvent::AllSessionsRevoked { metadata, user_id, revoked_count } => SecurityEvent::AllSessionsRevoked { metadata: metadata.copy(), user_id: *user_id, revoked_count: *revoked_count },
            SecurityEvent::SessionRotated { metadata, user_id, old_session_id, new_session_id } => SecurityEvent::SessionRotated { metadata: metadata.copy(), user_id: *user_id, old_session_id: *old_session_id, new_session_id: *new_session_id },
            SecurityEvent::PasswordChanged { metadata, user_id } => SecurityEvent::PasswordChanged { metadata: metadata.copy(), user_id: *user_id },
            SecurityEvent::PasswordResetRequested { metadata, email } => SecurityEvent::PasswordResetRequested { metadata: metadata.copy(), email: email.clone() },
            SecurityEvent::PasswordResetCompleted { metadata, user_id } => SecurityEvent::PasswordResetCompleted { metadata: metadata.copy(), user_id: *user_id },
            SecurityEvent::TwoFactorEnabled { metadata, user_id } => SecurityEvent::TwoFactorEnabled { metadata: metadata.copy(), user_id: *user_id },
            SecurityEvent::TwoFactorDisabled { metadata, user_id } => SecurityEvent::TwoFactorDisabled { metadata: metadata.copy(), user_id: *user_id },
            SecurityEvent::TwoFactorVerificationFailed { metadata, user_id } => SecurityEvent::TwoFactorVerificationFailed { metadata: metadata.copy(), user_id: *user_id },
            SecurityEvent::EmailChanged { metadata, user_id, old_email, new_email } => SecurityEvent::EmailChanged { metadata: metadata.copy(), user_id: *user_id, old_email: old_email.clone(), new_email: new_email.clone() },
            SecurityEvent::AccountLocked { metadata, user_id } => SecurityEvent::AccountLocked { metadata: metadata.copy(), user_id: *user_id },
            SecurityEvent::AccountUnlocked { metadata, user_id } => SecurityEvent::AccountUnlocked { metadata: metadata.copy(), user_id: *user_id },
        }
    }
}

/// A stored security event with its own record id and timestamp.
#[derive(Debug, Clone, PartialEq, Eq)]
pub struct SecurityEventRecord {
    pub id: Id,
    pub timestamp: Timestamp,
    pub event: SecurityEvent,
}

impl SecurityEventRecord {
    /// A record with a fresh id, stamped with the event's own timestamp.
    pub fn new(event: SecurityEvent) -> (r: Self)
        ensures
            r.event == event,
            r.timestamp == event_metadata(event).timestamp,
    {
        SecurityEventRecord { id: new_id(), timestamp: event.timestamp(), event }
    }
}

} // verus!
