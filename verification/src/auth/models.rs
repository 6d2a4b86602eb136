//! Authentication data models.

use vstd::prelude::*;
use crate::auth::csrf::{digest_secret, secret_digest, CsrfTokenHash};
use crate::auth::password::SessionToken;
use crate::clock::{new_id, now, shift, shifted, Id, Timestamp, MICROS_PER_MINUTE, MICROS_PER_SECOND};
use crate::community::models::copy_opt;

verus! {

#[derive(Debug, Clone, Copy, PartialEq, Eq, Structural)]
pub enum UserStatus {
    Active,
    Suspended,
    Deleted,
}

impl UserStatus {
    pub fn can_authenticate(self) -> (r: bool)
        ensures
            r == (self is Active),
    {
        match self {
            UserStatus::Active => true,
            _ => false,
        }
    }
}

#[derive(Debug, Clone)]
pub struct User {
    pub id: Id,
    pub email: String,
    pub password_hash: String,
    pub status: UserStatus,
    /// Whether the user proved control of the e-mail address.
    pub email_verified: bool,
    pub email_verified_at: Option<Timestamp>,
    pub created_at: Timestamp,
    pub updated_at: Timestamp,
}

impl User {
    /// A new active user with a fresh id, created now.
    pub fn new(email: String, password_hash: String) -> (r: Self)
        ensures
            r.email@ == email@,
            r.password_hash@ == password_hash@,
            r.status == UserStatus::Active,
            !r.email_verified,
            r.email_verified_at is None,
            r.created_at == r.updated_at,
    {
        let t = now();
        User::new_at(new_id(), email, password_hash, t)
    }

    /// A new active user with the given id and creation time.
    pub fn new_at(id: Id, email: String, password_hash: String, at: Timestamp) -> (r: Self)
        ensures
            r.id == id,
            r.email@ == email@,
            r.password_hash@ == password_hash@,
            r.status == UserStatus::Active,
            !r.email_verified,
            r.email_verified_at is None,
            r.created_at == at,
            r.updated_at == at,
    {
        User {
            id,
            email,
            password_hash,
            status: UserStatus::Active,
            email_verified: false,
            email_verified_at: None,
            created_at: at,
            updated_at: at,
        }
    }

    /// An identical copy.
    pub fn copy(&self) -> (r: Self)
        ensures
            r == *self,
    {
        User {
            id: self.id,
            email: self.email.clone(),
            password_hash: self.password_hash.clone(),
            status: self.status,
            email_verified: self.email_verified,
            email_verified_at: self.email_verified_at,
            created_at: self.created_at,
            updated_at: self.updated_at,
        }
    }
}

/// Hash of a session token, the only form in which tokens are stored.
#[derive(Clone)]
pub struct SessionTokenHash(String);

impl View for SessionTokenHash {
    type V = Seq<char>;

    closed spec fn view(&self) -> Seq<char> {
        self.0@
    }
}

impl SessionTokenHash {
    pub fn new(hash: String) -> (r: Self)
        ensures
            r@ == hash@,
    {
        SessionTokenHash(hash)
    }

    /// URL-safe base64 of the SHA-256 of the token.
    pub fn from_token(token: &SessionToken) -> (r: Self)
        ensures
            r@ == secret_digest(token@),
    {
        SessionTokenHash(digest_secret(token.expose()))
    }

    pub fn as_str(&self) -> (r: &str)
        ensures
            r@ == self@,
    {
        self.0.as_str()
    }

    pub fn clone_hash(&self) -> (r: Self)
        ensures
            r == *self,
    {
        SessionTokenHash(self.0.clone())
    }
}

/// A copy of a string with the same characters.
pub fn string_copy(s: &String) -> (r: String)
    ensures
        r@ == s@,
{
    s.clone()
}

#[derive(Clone)]
pub struct Session {
    pub id: Id,
    pub user_id: Id,
    pub token_hash: SessionTokenHash,
    pub csrf_token_hash: Option<CsrfTokenHash>,
    pub created_at: Timestamp,
    pub expires_at: Timestamp,
    pub revoked_at: Option<Timestamp>,
    pub issued_at: Timestamp,
    pub last_rotated_at: Timestamp,
    pub last_seen_at: Option<Timestamp>,
    pub user_agent: Option<String>,
    pub ip_address: Option<String>,
}

impl Session {
    pub open spec fn expired_at(&self, t: Timestamp) -> bool {
        t >= self.expires_at
    }

    pub open spec fn valid_at(&self, t: Timestamp) -> bool {
        self.revoked_at is None && !self.expired_at(t)
    }

    /// A new session with a fresh id, created now.
    pub fn new(user_id: Id, token_hash: SessionTokenHash, expires_at: Timestamp) -> (r: Self)
        ensures
            r.user_id == user_id,
            r.token_hash@ == token_hash@,
            r.expires_at == expires_at,
            r.revoked_at is None,
            r.csrf_token_hash is None,
    {
        let t = now();
        Session::new_at(new_id(), user_id, token_hash, expires_at, t)
    }

    /// A new session with the given id, created at `at`.
    pub fn new_at(id: Id, user_id: Id, token_hash: SessionTokenHash, expires_at: Timestamp, at: Timestamp) -> (r: Self)
        ensures
            r.id == id,
            r.user_id == user_id,
            r.token_hash@ == token_hash@,
            r.expires_at == expires_at,
            r.revoked_at is None,
            r.csrf_token_hash is None,
            r.created_at == at,
            r.issued_at == at,
            r.last_rotated_at == at,
            r.last_seen_at is None,
            r.user_agent is None,
            r.ip_address is None,
    {
        Session {
            id,
            user_id,
            token_hash,
            csrf_token_hash: None,
            created_at: at,
            expires_at,
            revoked_at: None,
            issued_at: at,
            last_rotated_at: at,
            last_seen_at: None,
            user_agent: None,
            ip_address: None,
        }
    }

    pub fn is_expired_at(&self, t: Timestamp) -> (r: bool)
        ensures
            r == self.expired_at(t),
    {
        t >= self.expires_at
    }

    pub fn is_revoked(&self) -> (r: bool)
        ensures
            r == self.revoked_at is Some,
    {
        self.revoked_at.is_some()
    }

    pub fn is_valid_at(&self, t: Timestamp) -> (r: bool)
        ensures
            r == self.valid_at(t),
    {
        !self.is_revoked() && !self.is_expired_at(t)
    }

    /// Validity at the current wall-clock time.
    pub fn is_valid(&self) -> (r: bool)
        ensures
            r ==> self.revoked_at is None,
            self.revoked_at is Some ==> !r,
    {
        self.is_valid_at(now())
    }

    /// An identical copy.
    pub fn copy(&self) -> (r: Self)
        ensures
            r == *self,
    {
        Session {
            id: self.id,
            user_id: self.user_id,
            token_hash: self.token_hash.clone_hash(),
            csrf_token_hash: match &self.csrf_token_hash {
                Some(h) => Some(h.copy()),
                None => None,
            },
            created_at: self.created_at,
            expires_at: self.expires_at,
            revoked_at: self.revoked_at,
            issued_at: self.issued_at,
            last_rotated_at: self.last_rotated_at,
            last_seen_at: self.last_seen_at,
            user_agent: copy_opt(&self.user_agent),
            ip_address: copy_opt(&self.ip_address),
        }
    }

    /// Revoke at `t`; a session already revoked keeps its first revocation time.
    pub fn revoke(&mut self, t: Timestamp)
        ensures
            final(self).revoked_at == (if old(self).revoked_at is None {
                Some(t)
            } else {
                old(self).revoked_at
            }),
            final(self).id == old(self).id,
            final(self).user_id == old(self).user_id,
            final(self).token_hash@ == old(self).token_hash@,
            final(self).expires_at == old(self).expires_at,
            final(self).created_at == old(self).created_at,
    {
        if self.revoked_at.is_none() {
            self.revoked_at = Some(t);
        }
    }
}

#[derive(Debug, Clone)]
pub struct LoginCredentials {
    pub email: String,
    pub password: String,
}

#[derive(Debug, Clone)]
pub struct PasswordResetToken {
    pub user_id: Id,
    pub token_hash: String,
    pub created_at: Timestamp,
    pub expires_at: Timestamp,
    pub used_at: Option<Timestamp>,
}

/// Largest TTL in minutes that a duration can hold.
pub const MAX_TTL_MINUTES: i64 = 153722867280;

/// Largest TTL in seconds that a duration can hold.
pub const MAX_TTL_SECONDS: i64 = 9223372036854775;

impl PasswordResetToken {
    pub open spec fn valid_at(&self, t: Timestamp) -> bool {
        t < self.expires_at && self.used_at is None
    }

    /// A token created now that expires `ttl_minutes` later.
    pub fn new(user_id: Id, token_hash: String, ttl_minutes: i64) -> (r: Self)
        requires
            -MAX_TTL_MINUTES <= ttl_minutes <= MAX_TTL_MINUTES,
        ensures
            r.user_id == user_id,
            r.token_hash@ == token_hash@,
            r.expires_at == shifted(r.created_at, ttl_minutes * MICROS_PER_MINUTE),
            r.used_at is None,
    {
        PasswordResetToken::new_at(user_id, token_hash, ttl_minutes, now())
    }

    pub fn new_at(user_id: Id, token_hash: String, ttl_minutes: i64, at: Timestamp) -> (r: Self)
        requires
            -MAX_TTL_MINUTES <= ttl_minutes <= MAX_TTL_MINUTES,
        ensures
            r.user_id == user_id,
            r.token_hash@ == token_hash@,
            r.created_at == at,
            r.expires_at == shifted(at, ttl_minutes * MICROS_PER_MINUTE),
            r.used_at is None,
    {
        let d = ttl_minutes * MICROS_PER_MINUTE;
        PasswordResetToken { user_id, token_hash, created_at: at, expires_at: shift(at, d), used_at: None }
    }

    pub fn is_expired_at(&self, t: Timestamp) -> (r: bool)
        ensures
            r == (t >= self.expires_at),
    {
        t >= self.expires_at
    }

    pub fn is_used(&self) -> (r: bool)
        ensures
            r == self.used_at is Some,
    {
        self.used_at.is_some()
    }

    pub fn is_valid_at(&self, t: Timestamp) -> (r: bool)
        ensures
            r == self.valid_at(t),
    {
        !self.is_expired_at(t) && !self.is_used()
    }

    /// An identical copy.
    pub fn copy(&self) -> (r: Self)
        ensures
            r == *self,
    {
        PasswordResetToken {
            user_id: self.user_id,
            token_hash: self.token_hash.clone(),
            created_at: self.created_at,
            expires_at: self.expires_at,
            used_at: self.used_at,
        }
    }
}

/// Single-use token that proves control of a user's e-mail address; only
/// its hash is stored.
#[derive(Debug, Clone)]
pub struct EmailVerificationToken {
    pub user_id: Id,
    pub token_hash: String,
    pub created_at: Timestamp,
    pub expires_at: Timestamp,
    pub used_at: Option<Timestamp>,
}

impl EmailVerificationToken {
    pub open spec fn valid_at(&self, t: Timestamp) -> bool {
        t < self.expires_at && self.used_at is None
    }

    /// A token created now that expires `ttl_minutes` later.
    pub fn new(user_id: Id, token_hash: String, ttl_minutes: i64) -> (r: Self)
        requires
            -MAX_TTL_MINUTES <= ttl_minutes <= MAX_TTL_MINUTES,
        ensures
            r.user_id == user_id,
            r.token_hash@ == token_hash@,
            r.expires_at == shifted(r.created_at, ttl_minutes * MICROS_PER_MINUTE),
            r.used_at is None,
    {
        EmailVerificationToken::new_at(user_id, token_hash, ttl_minutes, now())
    }

    pub fn new_at(user_id: Id, token_hash: String, ttl_minutes: i64, at: Timestamp) -> (r: Self)
        requires
            -MAX_TTL_MINUTES <= ttl_minutes <= MAX_TTL_MINUTES,
        ensures
            r.user_id == user_id,
            r.token_hash@ == token_hash@,
            r.created_at == at,
            r.expires_at == shifted(at, ttl_minutes * MICROS_PER_MINUTE),
            r.used_at is None,
    {
        let d = ttl_minutes * MICROS_PER_MINUTE;
        EmailVerificationToken { user_id, token_hash, created_at: at, expires_at: shift(at, d), used_at: None }
    }

    pub fn is_valid_at(&self, t: Timestamp) -> (r: bool)
        ensures
            r == self.valid_at(t),
    {
        t < self.expires_at && self.used_at.is_none()
    }

    /// An identical copy.
    pub fn copy(&self) -> (r: Self)
        ensures
            r == *self,
    {
        EmailVerificationToken {
            user_id: self.user_id,
            token_hash: self.token_hash.clone(),
            created_at: self.created_at,
            expires_at: self.expires_at,
            used_at: self.used_at,
        }
    }
}

/// One single-use backup code of a user; only its Argon2id hash is kept.
#[derive(Debug, Clone)]
pub struct BackupCode {
    pub id: Id,
    pub user_id: Id,
    /// The set the code was generated with.
    pub set_id: Id,
    pub code_hash: String,
    pub created_at: Timestamp,
    pub used_at: Option<Timestamp>,
    pub revoked_at: Option<Timestamp>,
}

impl BackupCode {
    /// Neither used nor revoked.
    pub open spec fn active(&self) -> bool {
        self.used_at is None && self.revoked_at is None
    }

    /// A new active code with the given id, created at `at`.
    pub fn new_at(id: Id, user_id: Id, set_id: Id, code_hash: String, at: Timestamp) -> (r: Self)
        ensures
            r.id == id,
            r.user_id == user_id,
            r.set_id == set_id,
            r.code_hash@ == code_hash@,
            r.created_at == at,
            r.active(),
    {
        BackupCode { id, user_id, set_id, code_hash, created_at: at, used_at: None, revoked_at: None }
    }

    /// A new active code with a fresh id, created now.
    pub fn new(user_id: Id, set_id: Id, code_hash: String) -> (r: Self)
        ensures
            r.user_id == user_id,
            r.set_id == set_id,
            r.code_hash@ == code_hash@,
            r.active(),
    {
        let at = now();
        BackupCode::new_at(new_id(), user_id, set_id, code_hash, at)
    }

    pub fn is_active(&self) -> (r: bool)
        ensures
            r == self.active(),
    {
        self.used_at.is_none() && self.revoked_at.is_none()
    }

    /// An identical copy.
    pub fn copy(&self) -> (r: Self)
        ensures
            r == *self,
    {
        BackupCode {
            id: self.id,
            user_id: self.user_id,
            set_id: self.set_id,
            code_hash: self.code_hash.clone(),
            created_at: self.created_at,
            used_at: self.used_at,
            revoked_at: self.revoked_at,
        }
    }
}

/// What a successful password check gives: a session, or, when two-factor
/// authentication is on, a pre-auth token to present with the second
/// factor.
pub enum LoginResult {
    Session { user: User, session_token: SessionToken },
    RequiresTwoFactor { pre_auth_token: String, expires_in_seconds: i64 },
}

/// Short-lived token of a login whose password checked out and that awaits
/// its second factor; only its hash is stored.
#[derive(Debug, Clone)]
pub struct PreAuthToken {
    pub user_id: Id,
    pub token_hash: String,
    pub created_at: Timestamp,
    pub expires_at: Timestamp,
    pub consumed_at: Option<Timestamp>,
}

impl PreAuthToken {
    pub open spec fn valid_at(&self, t: Timestamp) -> bool {
        t < self.expires_at && self.consumed_at is None
    }

    /// A token created at `at` that expires `ttl_seconds` later (saturating
    /// at the ends of the timestamp range).
    pub fn new_at(user_id: Id, token_hash: String, ttl_seconds: i64, at: Timestamp) -> (r: Self)
        requires
            -MAX_TTL_SECONDS <= ttl_seconds <= MAX_TTL_SECONDS,
        ensures
            r.user_id == user_id,
            r.token_hash@ == token_hash@,
            r.created_at == at,
            r.expires_at == shifted(at, ttl_seconds * MICROS_PER_SECOND),
            r.consumed_at is None,
    {
        let total: i128 = at as i128 + (ttl_seconds as i128) * 1_000_000i128;
        let expires_at: i64 = if total > i64::MAX as i128 {
            i64::MAX
        } else if total < i64::MIN as i128 {
            i64::MIN
        } else {
            total as i64
        };
        PreAuthToken { user_id, token_hash, created_at: at, expires_at, consumed_at: None }
    }

    pub fn is_valid_at(&self, t: Timestamp) -> (r: bool)
        ensures
            r == self.valid_at(t),
    {
        t < self.expires_at && self.consumed_at.is_none()
    }

    /// An identical copy.
    pub fn copy(&self) -> (r: Self)
        ensures
            r == *self,
    {
        PreAuthToken {
            user_id: self.user_id,
            token_hash: self.token_hash.clone(),
            created_at: self.created_at,
            expires_at: self.expires_at,
            consumed_at: self.consumed_at,
        }
    }
}

/// An authenticated request: the user and the session that carried it.
pub struct AuthContext {
    pub user: User,
    pub session: Session,
}

#[derive(Debug, Clone)]
pub struct RegisterRequest {
    pub email: String,
    pub password: String,
}

#[derive(Debug, Clone)]
pub struct RegisterResponse {
    pub user_id: Id,
    pub email: String,
}

#[derive(Debug, Clone)]
pub struct LoginResponse {
    pub user_id: Id,
    pub email: String,
}

#[derive(Debug, Clone)]
pub struct MeResponse {
    pub user_id: Id,
    pub email: String,
    pub status: UserStatus,
    pub created_at: Timestamp,
}

} // verus!
