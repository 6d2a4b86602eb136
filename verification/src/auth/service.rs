//! Authentication service: registration, login, session authentication,
//! logout and rotation, password change and reset, e-mail verification,
//! session management, preferences, avatars, backup codes, two-factor
//! authentication and the security center.
//!
//! The service owns the rules; storage, the rate limiter, the audit log
//! and the e-mail provider are its collaborators.

use vstd::prelude::*;
use crate::auth::avatar::{avatar_check, blob_key_spec, validate_avatar, Avatar, AvatarMime, AvatarValidationError};
use crate::auth::backup_codes::{
    generate_set, is_valid_normalized_code, lemma_valid_normalized_len, normalize_code, normalize_seq,
    valid_normalized, well_formed_code,
};
use crate::auth::contracts::{
    byte_len, ActiveSessionResponse, BackupCodeStatusResponse, TwoFactorSetupResponse,
    TwoFactorStatusResponse, BACKUP_CODES_PER_SET, EMAIL_VERIFICATION_TOKEN_TTL_MINUTES,
    PASSWORD_RESET_TOKEN_TTL_MINUTES, PRE_AUTH_TOKEN_TTL_SECONDS, SESSION_DURATION_DAYS,
};
use crate::auth::csrf::{secret_digest, CsrfToken};
use crate::auth::email::{EmailProvider, MockEmailProvider};
use crate::auth::events::{
    event_metadata, LoginFailureReason, SecurityEvent, SecurityEventKind, SecurityEventRecord, SecurityMetadata,
};
use crate::auth::events::storage::{
    newest_selected, EventFilter, InMemorySecurityEventStorage, SecurityEventStorage,
};
use crate::auth::models::{
    AuthContext, BackupCode, EmailVerificationToken, LoginResult, PasswordResetToken, PreAuthToken, Session,
    SessionTokenHash, User,
};
use crate::auth::password::{
    argon2_accepts, argon2_readable, argon2_verify_outcome, hash_input_check, PasswordError, PasswordHasher,
    SessionToken, MAX_PASSWORD_BYTES,
};
use crate::auth::rate_limit::{
    attempt_map, bucket_kept, bumped, check_map, cleaned, AttemptBucket, InMemoryRateLimiter, Instant, LoginRateLimiter,
};
use crate::auth::preferences::{apply_update, or_keep, Language, Theme, UserPreferences, UserPreferencesUpdate};
use crate::auth::secret_cipher::{SecretCipher, TestSecretCipher};
use crate::auth::security_center::{
    build_security_center, changed_recently, security_score, summarizes, SecurityCenterResponse,
    SecurityScoreInput, SECURITY_CENTER_EVENT_LIMIT,
};
use crate::auth::two_factor::{
    check_totp_secret, lemma_totp_parameters_accepted, random_totp_secret, totp_accepts, totp_enrollment,
    totp_secret_base32, TOTP_DIGITS, TOTP_ISSUER, TOTP_SKEW, TOTP_STEP_SECONDS,
    totp_step, totp_time, totp_uri, verify_totp_and_mark_step, TotpSecretObjectId, TwoFactorRecord,
    TwoFactorSettings, TwoFactorState, PENDING_TTL_SECONDS,
};
use crate::auth::storage::{
    active_code_of, auth_state_ok, code_matches, consumed, lists_active, lists_codes, pre_auth_consumed,
    revocable_in, revoke_all, revoke_codes, revoke_in, revoked, used_code, user_with_id,
    verification_consumed, with_avatars, with_blobs, with_codes, with_prefs, with_resets,
    with_pre_auth, with_sessions, with_two_factor, with_users, with_verifications, AuthState, AuthStorage,
    SessionScope,
};
use crate::community::models::copy_opt;
use crate::crypto::sha256_digest;
use crate::clock::{self, shift, shifted, Id, Timestamp, MICROS_PER_DAY, MICROS_PER_SECOND};
use crate::error::ApiError;
use crate::text::{push_str_chars, string_from_chars, to_lowercase, trim, trimmed_chars, unicode_lowercase};
use vstd::utf8::encode_utf8;

verus! {

pub const MAX_SESSION_DURATION_DAYS: i64 = 30;

pub const MIN_SESSION_DURATION_DAYS: i64 = 1;

/// E-mail addresses are compared trimmed and lowercased.
pub open spec fn normalized_email(email: Seq<char>) -> Seq<char> {
    unicode_lowercase(trim(email))
}

/// The rate limiter's clock reading at wall-clock time `now` (times
/// before the epoch read as zero).
pub open spec fn limiter_time(now: Timestamp) -> Instant {
    if now < 0 {
        0
    } else {
        now as u64
    }
}

pub fn limiter_tick(now: Timestamp) -> (r: Instant)
    ensures
        r == limiter_time(now),
{
    if now < 0 {
        0
    } else {
        now as u64
    }
}

/// When a session created at `now` expires.
pub open spec fn session_expiry(now: Timestamp, days: i64) -> Timestamp {
    shifted(now, days * MICROS_PER_DAY)
}

/// `s` is a fresh session `id` of `user_id` for the token with hash
/// `hash`, created at `now`, expiring at `expires_at`.
pub open spec fn fresh_session(
    s: Session,
    id: Id,
    user_id: Id,
    hash: Seq<char>,
    expires_at: Timestamp,
    now: Timestamp,
) -> bool {
    &&& s.id == id
    &&& s.user_id == user_id
    &&& s.token_hash@ == hash
    &&& s.expires_at == expires_at
    &&& s.revoked_at is None
    &&& s.csrf_token_hash is None
    &&& s.created_at == now
    &&& s.issued_at == now
    &&& s.last_rotated_at == now
    &&& s.last_seen_at is None
    &&& s.user_agent is None
    &&& s.ip_address is None
}

/// The only change to `s0` is that `sessions` gained the session filed
/// under `hash`.
pub open spec fn session_added(s0: AuthState, s1: AuthState, hash: Seq<char>) -> bool {
    &&& s1 == with_sessions(s0, s0.sessions.insert(hash, s1.sessions[hash]))
    &&& !s0.sessions.contains_key(hash)
}

/// The password is one the hasher accepts (non-empty, at most
/// `MAX_PASSWORD_BYTES` bytes) and verifies against the PHC string.
pub open spec fn password_matches(password: Seq<char>, phc: Seq<char>) -> bool {
    &&& hash_input_check(password) is Ok
    &&& argon2_accepts(encode_utf8(password), phc)
}

/// Whether the login rate limits let an attempt for `ip` and e-mail
/// `email` through at `now`.
pub open spec fn login_permitted(l: InMemoryRateLimiter, ip: Seq<char>, email: Seq<char>, now: Timestamp) -> bool {
    &&& check_map(
        l.login_ip_buckets(),
        ip,
        l.config().login_ip_limit,
        l.config().login_window,
        limiter_time(now),
    ).1
    &&& check_map(
        l.login_email_buckets(),
        email,
        l.config().login_email_limit,
        l.config().login_window,
        limiter_time(now),
    ).1
}

/// When a login with these credentials must succeed: the limits let it
/// through, the account exists and is active, the password matches its
/// hash and the new token's hash is not in use.
pub open spec fn login_succeeds_on(
    s: AuthState,
    l: InMemoryRateLimiter,
    email: Seq<char>,
    password: Seq<char>,
    ip: Seq<char>,
    token: Seq<char>,
    now: Timestamp,
) -> bool {
    let n = normalized_email(email);
    &&& login_permitted(l, ip, n, now)
    &&& s.users.contains_key(n)
    &&& s.users[n].status is Active
    &&& password_matches(password, s.users[n].password_hash@)
    &&& !s.sessions.contains_key(secret_digest(token))
}

/// Trim and lowercase an e-mail address.
pub fn normalize_email(email: &str) -> (r: String)
    ensures
        r@ == normalized_email(email@),
{
    let chars = trimmed_chars(email);
    let trimmed = string_from_chars(chars.as_slice());
    to_lowercase(trimmed.as_str())
}

/// Authentication service over a storage backend.
pub struct AuthService<S: AuthStorage> {
    storage: S,
    password_hasher: PasswordHasher,
    session_duration_days: i64,
    rate_limiter: InMemoryRateLimiter,
    events: Box<dyn SecurityEventStorage>,
    email_provider: Box<dyn EmailProvider>,
    secret_cipher: Box<dyn SecretCipher>,
}

impl<S: AuthStorage> AuthService<S> {
    pub closed spec fn store(&self) -> S {
        self.storage
    }

    pub closed spec fn limiter(&self) -> InMemoryRateLimiter {
        self.rate_limiter
    }

    /// The records of the audit log, oldest first.
    pub closed spec fn event_log(&self) -> Seq<SecurityEventRecord> {
        self.events.records()
    }

    /// The audit log never fails.
    pub closed spec fn log_infallible(&self) -> bool {
        self.events.infallible()
    }

    pub closed spec fn duration_days(&self) -> i64 {
        self.session_duration_days
    }

    /// What was handed to the e-mail provider so far.
    pub closed spec fn outbox(&self) -> Seq<(Seq<char>, Seq<char>)> {
        self.email_provider.outbox()
    }

    /// What the service's cipher decrypts: `dec(c, p)` when ciphertext
    /// `c` decrypts to plaintext `p`.
    pub closed spec fn decryption(&self) -> spec_fn(Seq<u8>, Seq<u8>) -> bool {
        |c: Seq<u8>, p: Seq<u8>| self.secret_cipher.decrypts(c, p)
    }

    /// The service is ready: storage and limiter well formed, a session
    /// duration of 1 to 30 days.
    pub closed spec fn wf(&self) -> bool {
        &&& self.storage.inv()
        &&& self.rate_limiter.wf()
        &&& MIN_SESSION_DURATION_DAYS <= self.session_duration_days <= MAX_SESSION_DURATION_DAYS
    }

    pub fn new(storage: S) -> (r: Self)
        requires
            storage.inv(),
        ensures
            r.wf(),
            r.store() == storage,
            r.duration_days() == SESSION_DURATION_DAYS,
            r.log_infallible(),
            r.event_log() == Seq::<SecurityEventRecord>::empty(),
    {
        Self::new_with_email_provider(storage, Box::new(MockEmailProvider::new()))
    }

    pub fn new_with_email_provider(storage: S, email_provider: Box<dyn EmailProvider>) -> (r: Self)
        requires
            storage.inv(),
        ensures
            r.wf(),
            r.store() == storage,
            r.duration_days() == SESSION_DURATION_DAYS,
            r.log_infallible(),
            r.event_log() == Seq::<SecurityEventRecord>::empty(),
    {
        Self::with_dependencies(storage, email_provider, Box::new(TestSecretCipher::new()))
    }

    /// Full constructor; production must pass a real cipher.
    pub fn with_dependencies(
        storage: S,
        email_provider: Box<dyn EmailProvider>,
        secret_cipher: Box<dyn SecretCipher>,
    ) -> (r: Self)
        requires
            storage.inv(),
        ensures
            r.wf(),
            r.store() == storage,
            r.duration_days() == SESSION_DURATION_DAYS,
            r.log_infallible(),
            r.event_log() == Seq::<SecurityEventRecord>::empty(),
    {
        AuthService {
            storage,
            password_hasher: PasswordHasher::new(),
            session_duration_days: SESSION_DURATION_DAYS,
            rate_limiter: InMemoryRateLimiter::with_defaults(),
            events: Box::new(InMemorySecurityEventStorage::new()),
            email_provider,
            secret_cipher,
        }
    }

    /// A service whose sessions last `days` days; `BadRequest` outside 1 to 30.
    pub fn with_session_duration(storage: S, days: i64) -> (r: Result<Self, ApiError>)
        requires
            storage.inv(),
        ensures
            (MIN_SESSION_DURATION_DAYS <= days <= MAX_SESSION_DURATION_DAYS) <==> r is Ok,
            r matches Ok(svc) ==> svc.wf() && svc.store() == storage && svc.duration_days() == days
                && svc.log_infallible() && svc.event_log() == Seq::<SecurityEventRecord>::empty(),
            r matches Err(e) ==> e == ApiError::BadRequest,
    {
        if days < MIN_SESSION_DURATION_DAYS || days > MAX_SESSION_DURATION_DAYS {
            return Err(ApiError::BadRequest);
        }
        Ok(
            AuthService {
                storage,
                password_hasher: PasswordHasher::new(),
                session_duration_days: days,
                rate_limiter: InMemoryRateLimiter::with_defaults(),
                events: Box::new(InMemorySecurityEventStorage::new()),
                email_provider: Box::new(MockEmailProvider::new()),
                secret_cipher: Box::new(TestSecretCipher::new()),
            },
        )
    }

    pub fn session_duration_days(&self) -> (r: i64)
        ensures
            r == self.duration_days(),
    {
        self.session_duration_days
    }

    /// The storage behind the service.
    pub fn storage(&self) -> (r: &S)
        ensures
            *r == self.store(),
    {
        &self.storage
    }

    /// The audit log of the service.
    pub fn events(&self) -> (r: &Box<dyn SecurityEventStorage>)
        ensures
            r.records() == self.event_log(),
            r.infallible() == self.log_infallible(),
    {
        &self.events
    }

    fn session_expiration(&self, now: Timestamp) -> (r: Timestamp)
        requires
            MIN_SESSION_DURATION_DAYS <= self.duration_days() <= MAX_SESSION_DURATION_DAYS,
        ensures
            r == session_expiry(now, self.duration_days()),
    {
        shift(now, self.session_duration_days * MICROS_PER_DAY)
    }

    /// Register an account with the given id at `now`.
    pub fn register_at(&mut self, email: &str, password: &str, ip: &str, id: Id, now: Timestamp) -> (r:
        Result<User, ApiError>)
        requires
            old(self).wf(),
        ensures
            final(self).wf(),
            final(self).duration_days() == old(self).duration_days(),
            normalized_email(email@).len() == 0 ==> (r matches Err(e) && e == ApiError::BadRequest),
            r matches Ok(user) ==> registered(
                old(self).store().state(),
                final(self).store().state(),
                old(self).limiter(),
                final(self).limiter(),
                user,
                email@,
                password@,
                ip@,
                id,
                now,
            ),
            r is Err ==> final(self).store().state() == old(self).store().state(),
            final(self).limiter().login_ip_buckets() == old(self).limiter().login_ip_buckets(),
            final(self).limiter().login_email_buckets() == old(self).limiter().login_email_buckets(),
            final(self).limiter().config() == old(self).limiter().config(),
            normalized_email(email@).len() > 0 && !check_map(
                old(self).limiter().register_ip_buckets(),
                ip@,
                old(self).limiter().config().register_ip_limit,
                old(self).limiter().config().register_window,
                limiter_time(now),
            ).1 ==> (r matches Err(e) && e == ApiError::RateLimited),
            normalized_email(email@).len() > 0 && check_map(
                old(self).limiter().register_ip_buckets(),
                ip@,
                old(self).limiter().config().register_ip_limit,
                old(self).limiter().config().register_window,
                limiter_time(now),
            ).1 && old(self).store().state().users.contains_key(normalized_email(email@)) ==> r is Err,
            ({
                let n = normalized_email(email@);
                let s0 = old(self).store().state();
                let permitted = check_map(
                    old(self).limiter().register_ip_buckets(),
                    ip@,
                    old(self).limiter().config().register_ip_limit,
                    old(self).limiter().config().register_window,
                    limiter_time(now),
                ).1;
                &&& old(self).store().infallible() && n.len() > 0 && permitted && s0.users.contains_key(n)
                    ==> r == Err::<User, ApiError>(ApiError::Conflict)
                &&& old(self).store().infallible() && n.len() > 0 && permitted && !s0.users.contains_key(n)
                    && !s0.ids.contains_key(id) ==> r is Ok || r == Err::<User, ApiError>(ApiError::Internal)
            }),
    {
        let normalized = normalize_email(email);
        if normalized.as_str().is_empty() {
            return Err(ApiError::BadRequest);
        }
        let tick = limiter_tick(now);
        match self.rate_limiter.check_register_ip(ip, tick) {
            Ok(()) => {},
            Err(e) => {
                return Err(e);
            },
        }
        match self.storage.user_exists(normalized.as_str()) {
            Ok(false) => {},
            Ok(true) => {
                return Err(ApiError::Conflict);
            },
            Err(e) => {
                return Err(e);
            },
        }
        let password_hash = match self.password_hasher.hash(password) {
            Ok(h) => h,
            Err(_) => {
                return Err(ApiError::Internal);
            },
        };
        let user = User::new_at(id, normalized, password_hash, now);
        match self.storage.create_user(&user) {
            Ok(()) => {},
            Err(e) => {
                return Err(e);
            },
        }
        self.rate_limiter.record_successful_registration(ip, tick);
        let event = SecurityEvent::user_registered(
            user.id,
            user.email.clone(),
            SecurityMetadata::new(Some(ip.to_owned()), None),
        );
        let _ = self.events.record_event(event);
        Ok(user)
    }

    /// Register an account with a fresh id at the current time.
    pub fn register(&mut self, email: &str, password: &str, ip: &str) -> (r: Result<User, ApiError>)
        requires
            old(self).wf(),
        ensures
            final(self).wf(),
            normalized_email(email@).len() == 0 ==> (r matches Err(e) && e == ApiError::BadRequest),
            r matches Ok(user) ==> user.email@ == normalized_email(email@) && password_matches(
                password@,
                user.password_hash@,
            ) && final(self).store().state().users.contains_key(user.email@),
            r is Err ==> final(self).store().state() == old(self).store().state(),
            r matches Ok(user) ==> !old(self).store().state().users.contains_key(user.email@),
            old(self).store().infallible() && normalized_email(email@).len() > 0 && old(
                self,
            ).store().state().users.contains_key(normalized_email(email@)) ==> r == Err::<User, ApiError>(
                ApiError::Conflict,
            ) || r == Err::<User, ApiError>(ApiError::RateLimited),
            final(self).duration_days() == old(self).duration_days(),
            final(self).limiter().login_ip_buckets() == old(self).limiter().login_ip_buckets(),
            final(self).limiter().login_email_buckets() == old(self).limiter().login_email_buckets(),
            final(self).limiter().config() == old(self).limiter().config(),
            r matches Ok(user) ==> exists|id: Id, now: Timestamp|
                #[trigger] registered(
                    old(self).store().state(),
                    final(self).store().state(),
                    old(self).limiter(),
                    final(self).limiter(),
                    user,
                    email@,
                    password@,
                    ip@,
                    id,
                    now,
                ),
    {
        let id = clock::new_id();
        let now = clock::now();
        let r = self.register_at(email, password, ip, id, now);
        proof {
            if r is Ok {
                assert(registered(
                    old(self).store().state(),
                    self.store().state(),
                    old(self).limiter(),
                    self.limiter(),
                    r->Ok_0,
                    email@,
                    password@,
                    ip@,
                    id,
                    now,
                ));
            }
        }
        r
    }

    /// Store a fresh session `session_id` for `user` under `token`.
    fn create_session_for_user_at(
        &mut self,
        user: User,
        now: Timestamp,
        session_id: Id,
        token: SessionToken,
    ) -> (r: Result<(User, SessionToken), ApiError>)
        requires
            old(self).wf(),
        ensures
            final(self).wf(),
            final(self).duration_days() == old(self).duration_days(),
            final(self).limiter() == old(self).limiter(),
            final(self).store().infallible() == old(self).store().infallible(),
            r matches Ok((u, t)) ==> {
                let h = secret_digest(token@);
                &&& u == user
                &&& t@ == token@
                &&& session_added(old(self).store().state(), final(self).store().state(), h)
                &&& fresh_session(
                    final(self).store().state().sessions[h],
                    session_id,
                    user.id,
                    h,
                    session_expiry(now, old(self).duration_days()),
                    now,
                )
            },
            r is Err ==> final(self).store().state() == old(self).store().state(),
            old(self).store().infallible() && !old(self).store().state().sessions.contains_key(
                secret_digest(token@),
            ) ==> r is Ok,
            old(self).store().state().sessions.contains_key(secret_digest(token@)) ==> r == Err::<
                (User, SessionToken),
                ApiError,
            >(ApiError::Conflict),
    {
        let token_hash = SessionTokenHash::from_token(&token);
        let expires_at = self.session_expiration(now);
        let session = Session::new_at(session_id, user.id, token_hash, expires_at, now);
        match self.storage.create_session(&session) {
            Ok(()) => {},
            Err(e) => {
                return Err(e);
            },
        }
        let event = SecurityEvent::session_created(
            session.user_id,
            session.id,
            SecurityMetadata::new(None, None),
        );
        let _ = self.events.record_event(event);
        Ok((user, token))
    }

    /// Log in at `now`: check the IP and e-mail rate limits, find the
    /// account by normalized e-mail, and check that it is active and the
    /// password matches (an unknown e-mail, an inactive account and a wrong
    /// password are `Unauthorized` alike and count as failures). Success
    /// clears the failure counts. Without two-factor authentication session
    /// `session_id` is opened under `token`; with it on, `token` becomes the
    /// pre-auth token of a two-factor challenge and no session is opened.
    pub fn login_at(
        &mut self,
        email: &str,
        password: &str,
        ip: &str,
        now: Timestamp,
        session_id: Id,
        token: SessionToken,
    ) -> (r: Result<LoginResult, ApiError>)
        requires
            old(self).wf(),
        ensures
            final(self).wf(),
            final(self).duration_days() == old(self).duration_days(),
            final(self).limiter().config() == old(self).limiter().config(),
            ({
                let n = normalized_email(email@);
                let s0 = old(self).store().state();
                let s1 = final(self).store().state();
                let l0 = old(self).limiter();
                let l1 = final(self).limiter();
                let inf = old(self).store().infallible();
                let permitted = login_permitted(l0, ip@, n, now);
                let u = s0.users[n];
                &&& r matches Ok(LoginResult::Session { user, session_token }) ==> {
                    &&& session_token@ == token@
                    &&& !two_factor_on(s0, user.id)
                    &&& logged_in(s0, s1, l0, l1, old(self).duration_days(), email@, password@, ip@, user, token@, now, session_id)
                }
                &&& r matches Ok(LoginResult::RequiresTwoFactor { pre_auth_token, expires_in_seconds }) ==> {
                    &&& pre_auth_token@ == token@
                    &&& expires_in_seconds == PRE_AUTH_TOKEN_TTL_SECONDS
                    &&& challenge_issued(s0, s1, l0, l1, email@, password@, ip@, token@, now)
                }
                &&& r is Err ==> s1 == s0
                &&& !permitted ==> r == Err::<LoginResult, ApiError>(ApiError::RateLimited)
                &&& inf && permitted && login_refused(s0, n, password@) ==> r == Err::<LoginResult, ApiError>(
                    ApiError::Unauthorized,
                )
                &&& inf && permitted && login_failure_counted(s0, n, password@) ==> failed_login_limiter(
                    l0,
                    l1,
                    ip@,
                    n,
                    now,
                )
                &&& inf && login_succeeds_on(s0, l0, email@, password@, ip@, token@, now) ==> r is Ok
                &&& r is Ok && s0.users.contains_key(n) && two_factor_on(s0, u.id) ==> (r matches Ok(
                    LoginResult::RequiresTwoFactor { .. },
                ))
                &&& r is Ok && s0.users.contains_key(n) && !two_factor_on(s0, u.id) ==> (r matches Ok(
                    LoginResult::Session { .. },
                ))
            }),
    {
        let normalized = normalize_email(email);
        let tick = limiter_tick(now);
        let ghost l0 = self.rate_limiter;
        match self.rate_limiter.check_login_ip(ip, tick) {
            Ok(()) => {},
            Err(e) => {
                let event = SecurityEvent::login_rate_limited(
                    Some(normalized.clone()),
                    SecurityMetadata::new(Some(ip.to_owned()), None),
                );
                let _ = self.events.record_event(event);
                return Err(e);
            },
        }
        assert(self.rate_limiter.login_email_buckets() == l0.login_email_buckets());
        match self.rate_limiter.check_login_email(normalized.as_str(), tick) {
            Ok(()) => {},
            Err(e) => {
                let event = SecurityEvent::login_rate_limited(
                    Some(normalized.clone()),
                    SecurityMetadata::new(Some(ip.to_owned()), None),
                );
                let _ = self.events.record_event(event);
                return Err(e);
            },
        }
        let user = match self.storage.get_user_by_email(normalized.as_str()) {
            Ok(Some(user)) => user,
            Ok(None) => {
                self.rate_limiter.record_login_failure(ip, normalized.as_str(), tick);
                let event = SecurityEvent::login_failed(
                    normalized.clone(),
                    LoginFailureReason::UnknownUser,
                    SecurityMetadata::new(Some(ip.to_owned()), None),
                );
                let _ = self.events.record_event(event);
                return Err(ApiError::Unauthorized);
            },
            Err(e) => {
                return Err(e);
            },
        };
        if !user.status.can_authenticate() {
            self.rate_limiter.record_login_failure(ip, normalized.as_str(), tick);
            let event = SecurityEvent::login_failed(
                normalized.clone(),
                LoginFailureReason::AccountDisabled,
                SecurityMetadata::new(Some(ip.to_owned()), None),
            );
            let _ = self.events.record_event(event);
            return Err(ApiError::Unauthorized);
        }
        let valid = match self.password_hasher.verify(password, user.password_hash.as_str()) {
            Ok(v) => v,
            Err(_) => {
                return Err(ApiError::Unauthorized);
            },
        };
        if !valid {
            self.rate_limiter.record_login_failure(ip, normalized.as_str(), tick);
            let event = SecurityEvent::login_failed(
                normalized.clone(),
                LoginFailureReason::InvalidPassword,
                SecurityMetadata::new(Some(ip.to_owned()), None),
            );
            let _ = self.events.record_event(event);
            return Err(ApiError::Unauthorized);
        }
        self.rate_limiter.record_login_success(ip, normalized.as_str());
        let event = SecurityEvent::login_success(
            user.id,
            normalized.clone(),
            SecurityMetadata::new(Some(ip.to_owned()), None),
        );
        let _ = self.events.record_event(event);
        let settings = match self.storage.get_two_factor_settings(&user.id) {
            Ok(o) => o,
            Err(e) => {
                return Err(e);
            },
        };
        let requires_two_factor = match settings {
            Some(t) => match t.state {
                TwoFactorState::Enabled => true,
                _ => false,
            },
            None => false,
        };
        if requires_two_factor {
            let hash = SessionTokenHash::from_token(&token);
            let model = PreAuthToken::new_at(user.id, hash.as_str().to_owned(), PRE_AUTH_TOKEN_TTL_SECONDS, now);
            match self.storage.create_pre_auth_token(&model) {
                Ok(()) => {},
                Err(e) => {
                    return Err(e);
                },
            }
            return Ok(
                LoginResult::RequiresTwoFactor {
                    pre_auth_token: token.expose().to_owned(),
                    expires_in_seconds: PRE_AUTH_TOKEN_TTL_SECONDS,
                },
            );
        }
        match self.create_session_for_user_at(user, now, session_id, token) {
            Ok((user, session_token)) => Ok(LoginResult::Session { user, session_token }),
            Err(e) => Err(e),
        }
    }

    /// Log in at the current time with a fresh session id and token.
    pub fn login(&mut self, email: &str, password: &str, ip: &str) -> (r: Result<LoginResult, ApiError>)
        requires
            old(self).wf(),
        ensures
            final(self).wf(),
            final(self).duration_days() == old(self).duration_days(),
            final(self).limiter().config() == old(self).limiter().config(),
            r is Err ==> final(self).store().state() == old(self).store().state(),
            ({
                let n = normalized_email(email@);
                let s0 = old(self).store().state();
                let s1 = final(self).store().state();
                let l0 = old(self).limiter();
                let l1 = final(self).limiter();
                let inf = old(self).store().infallible();
                &&& r matches Ok(LoginResult::Session { user, session_token }) ==> !two_factor_on(s0, user.id)
                    && exists|now: Timestamp, session_id: Id|
                    #[trigger] logged_in(
                        s0,
                        s1,
                        l0,
                        l1,
                        old(self).duration_days(),
                        email@,
                        password@,
                        ip@,
                        user,
                        session_token@,
                        now,
                        session_id,
                    )
                &&& r matches Ok(LoginResult::RequiresTwoFactor { pre_auth_token, expires_in_seconds }) ==> {
                    &&& expires_in_seconds == PRE_AUTH_TOKEN_TTL_SECONDS
                    &&& exists|now: Timestamp|
                        #[trigger] challenge_issued(s0, s1, l0, l1, email@, password@, ip@, pre_auth_token@, now)
                }
                &&& inf && login_refused(s0, n, password@) ==> r == Err::<LoginResult, ApiError>(ApiError::Unauthorized)
                    || r == Err::<LoginResult, ApiError>(ApiError::RateLimited)
            }),
    {
        let now = clock::now();
        let session_id = clock::new_id();
        let token = SessionToken::generate();
        let ghost tok = token@;
        let r = self.login_at(email, password, ip, now, session_id, token);
        proof {
            let s0 = old(self).store().state();
            let l0 = old(self).limiter();
            match &r {
                Ok(LoginResult::Session { user, session_token }) => {
                    assert(logged_in(
                        s0,
                        self.store().state(),
                        l0,
                        self.limiter(),
                        old(self).duration_days(),
                        email@,
                        password@,
                        ip@,
                        *user,
                        session_token@,
                        now,
                        session_id,
                    ));
                },
                Ok(LoginResult::RequiresTwoFactor { pre_auth_token, expires_in_seconds }) => {
                    assert(challenge_issued(
                        s0,
                        self.store().state(),
                        l0,
                        self.limiter(),
                        email@,
                        password@,
                        ip@,
                        pre_auth_token@,
                        now,
                    ));
                },
                Err(_) => {},
            }
        }
        r
    }

    /// The user and session behind a token at `now`: `None` for an
    /// unknown, revoked or expired session or an account that may not
    /// authenticate; `Internal` when the session's user is missing.
    pub fn authenticate_at(&self, token: &SessionToken, now: Timestamp) -> (r: Result<
        Option<AuthContext>,
        ApiError,
    >)
        requires
            self.wf(),
        ensures
            ({
                let s = self.store().state();
                let h = secret_digest(token@);
                &&& r matches Ok(Some(ctx)) ==> {
                    &&& s.sessions.contains_key(h)
                    &&& ctx.session == s.sessions[h]
                    &&& ctx.session.valid_at(now)
                    &&& user_with_id(s, ctx.session.user_id) == Some(ctx.user)
                    &&& ctx.user.status is Active
                }
                &&& !(s.sessions.contains_key(h) && s.sessions[h].valid_at(now)) ==> !(r matches Ok(
                    Some(_),
                ))
                &&& self.store().infallible() && s.sessions.contains_key(h) && s.sessions[h].valid_at(
                    now,
                ) && (user_with_id(s, s.sessions[h].user_id) matches Some(u) && u.status is Active)
                    ==> (r matches Ok(Some(_)))
                &&& self.store().infallible() && !s.sessions.contains_key(h) ==> r == Ok::<Option<AuthContext>, ApiError>(None)
                &&& self.store().infallible() && s.sessions.contains_key(h) && user_with_id(
                    s,
                    s.sessions[h].user_id,
                ) is Some ==> r is Ok
            }),
    {
        let token_hash = SessionTokenHash::from_token(token);
        let session = match self.storage.get_session_by_token_hash(&token_hash) {
            Ok(Some(s)) => s,
            Ok(None) => {
                return Ok(None);
            },
            Err(e) => {
                return Err(e);
            },
        };
        if !session.is_valid_at(now) {
            return Ok(None);
        }
        let user = match self.storage.get_user_by_id(&session.user_id) {
            Ok(Some(u)) => u,
            Ok(None) => {
                return Err(ApiError::Internal);
            },
            Err(e) => {
                return Err(e);
            },
        };
        if !user.status.can_authenticate() {
            return Ok(None);
        }
        Ok(Some(AuthContext { user, session }))
    }

    /// `authenticate_at` at the current time.
    pub fn authenticate(&self, token: &SessionToken) -> (r: Result<Option<AuthContext>, ApiError>)
        requires
            self.wf(),
        ensures
            ({
                let s = self.store().state();
                let h = secret_digest(token@);
                &&& r matches Ok(Some(ctx)) ==> {
                    &&& s.sessions.contains_key(h)
                    &&& ctx.session == s.sessions[h]
                    &&& exists|t: Timestamp| #[trigger] ctx.session.valid_at(t)
                    &&& user_with_id(s, ctx.session.user_id) == Some(ctx.user)
                    &&& ctx.user.status is Active
                }
                &&& self.store().infallible() && !s.sessions.contains_key(h) ==> r == Ok::<Option<AuthContext>, ApiError>(None)
                &&& self.store().infallible() && s.sessions.contains_key(h) && user_with_id(
                    s,
                    s.sessions[h].user_id,
                ) is Some ==> r is Ok
            }),
    {
        let now = clock::now();
        self.authenticate_at(token, now)
    }

    /// Revoke the session behind a token at `now`; unknown tokens are
    /// accepted silently.
    pub fn logout_at(&mut self, token: &SessionToken, now: Timestamp) -> (r: Result<(), ApiError>)
        requires
            old(self).wf(),
        ensures
            final(self).wf(),
            final(self).duration_days() == old(self).duration_days(),
            final(self).limiter() == old(self).limiter(),
            ({
                let s0 = old(self).store().state();
                let h = secret_digest(token@);
                r is Ok ==> final(self).store().state() == with_sessions(
                    s0,
                    if s0.sessions.contains_key(h) {
                        s0.sessions.insert(h, revoked(s0.sessions[h], now))
                    } else {
                        s0.sessions
                    },
                )
            }),
            r is Err ==> final(self).store().state() == old(self).store().state(),
            old(self).store().infallible() ==> r is Ok,
    {
        let token_hash = SessionTokenHash::from_token(token);
        match self.storage.get_session_by_token_hash(&token_hash) {
            Ok(Some(session)) => {
                match self.storage.revoke_session_by_token_hash(&token_hash, now) {
                    Ok(()) => {},
                    Err(e) => {
                        return Err(e);
                    },
                }
                let event = SecurityEvent::session_revoked(
                    session.user_id,
                    session.id,
                    SecurityMetadata::new(None, None),
                );
                let _ = self.events.record_event(event);
                Ok(())
            },
            Ok(None) => Ok(()),
            Err(e) => Err(e),
        }
    }

    /// `logout_at` at the current time.
    pub fn logout(&mut self, token: &SessionToken) -> (r: Result<(), ApiError>)
        requires
            old(self).wf(),
        ensures
            final(self).wf(),
            final(self).duration_days() == old(self).duration_days(),
            final(self).limiter() == old(self).limiter(),
            old(self).store().infallible() ==> r is Ok,
            r is Err ==> final(self).store().state() == old(self).store().state(),
            r is Ok ==> exists|t: Timestamp|
                final(self).store().state() == #[trigger] logged_out(
                    old(self).store().state(),
                    secret_digest(token@),
                    t,
                ),
    {
        let now = clock::now();
        let r = self.logout_at(token, now);
        proof {
            if r is Ok {
                assert(self.store().state() == logged_out(old(self).store().state(), secret_digest(token@), now));
            }
        }
        r
    }

    pub fn get_user(&self, user_id: &Id) -> (r: Result<Option<User>, ApiError>)
        requires
            self.wf(),
        ensures
            r matches Ok(o) ==> o == user_with_id(self.store().state(), *user_id),
            self.store().infallible() ==> r is Ok,
    {
        self.storage.get_user_by_id(user_id)
    }

    /// Replace a valid session by a new one at `now`: the old session is
    /// revoked, session `new_session_id` is opened under `new_token`, and
    /// a fresh CSRF token is issued. `Unauthorized` for an unknown,
    /// revoked or expired session.
    pub fn rotate_session_at(
        &mut self,
        token: &SessionToken,
        now: Timestamp,
        new_session_id: Id,
        new_token: SessionToken,
    ) -> (r: Result<(SessionToken, CsrfToken), ApiError>)
        requires
            old(self).wf(),
        ensures
            final(self).wf(),
            final(self).duration_days() == old(self).duration_days(),
            ({
                let s0 = old(self).store().state();
                let h = secret_digest(token@);
                let h2 = secret_digest(new_token@);
                &&& !(s0.sessions.contains_key(h) && s0.sessions[h].valid_at(now)) ==> r is Err
                &&& old(self).store().infallible() && !(s0.sessions.contains_key(h)
                    && s0.sessions[h].valid_at(now)) ==> (r matches Err(e) && e == ApiError::Unauthorized)
                &&& old(self).store().infallible() && s0.sessions.contains_key(h) && s0.sessions[h].valid_at(now)
                    && user_with_id(s0, s0.sessions[h].user_id) is Some && !s0.sessions.contains_key(h2) ==> r is Ok
                &&& old(self).store().infallible() && r == Err::<(SessionToken, CsrfToken), ApiError>(
                    ApiError::Unauthorized,
                ) ==> final(self).store().state() == s0
                &&& r matches Ok((t, _)) ==> {
                    let s1 = with_sessions(s0, s0.sessions.insert(h, revoked(s0.sessions[h], now)));
                    &&& s0.sessions.contains_key(h)
                    &&& s0.sessions[h].valid_at(now)
                    &&& t@ == new_token@
                    &&& session_added(s1, final(self).store().state(), h2)
                    &&& user_with_id(s0, s0.sessions[h].user_id) is Some
                    &&& fresh_session(
                        final(self).store().state().sessions[h2],
                        new_session_id,
                        user_with_id(s0, s0.sessions[h].user_id)->0.id,
                        h2,
                        session_expiry(now, old(self).duration_days()),
                        now,
                    )
                }
            }),
    {
        let token_hash = SessionTokenHash::from_token(token);
        let session = match self.storage.get_session_by_token_hash(&token_hash) {
            Ok(Some(s)) => s,
            Ok(None) => {
                return Err(ApiError::Unauthorized);
            },
            Err(e) => {
                return Err(e);
            },
        };
        if !session.is_valid_at(now) {
            return Err(ApiError::Unauthorized);
        }
        match self.storage.revoke_session_by_token_hash(&token_hash, now) {
            Ok(()) => {},
            Err(e) => {
                return Err(e);
            },
        }
        let user = match self.storage.get_user_by_id(&session.user_id) {
            Ok(Some(u)) => u,
            Ok(None) => {
                return Err(ApiError::Internal);
            },
            Err(e) => {
                return Err(e);
            },
        };
        let (_, session_token) = match self.create_session_for_user_at(user, now, new_session_id, new_token) {
            Ok(pair) => pair,
            Err(e) => {
                return Err(e);
            },
        };
        let csrf = CsrfToken::generate();
        let event = SecurityEvent::session_rotated(
            session.user_id,
            session.id,
            new_session_id,
            SecurityMetadata::new(None, None),
        );
        let _ = self.events.record_event(event);
        Ok((session_token, csrf))
    }

    /// `rotate_session_at` at the current time, with a fresh session and
    /// token.
    pub fn rotate_session(&mut self, token: &SessionToken) -> (r: Result<(SessionToken, CsrfToken), ApiError>)
        requires
            old(self).wf(),
        ensures
            final(self).wf(),
            final(self).duration_days() == old(self).duration_days(),
            ({
                let s0 = old(self).store().state();
                let h = secret_digest(token@);
                &&& !s0.sessions.contains_key(h) ==> r is Err
                &&& old(self).store().infallible() && !s0.sessions.contains_key(h) ==> r == Err::<
                    (SessionToken, CsrfToken),
                    ApiError,
                >(ApiError::Unauthorized)
                &&& r matches Ok((t, _)) ==> exists|now: Timestamp, session_id: Id|
                    #[trigger] session_rotated(
                        s0,
                        final(self).store().state(),
                        old(self).duration_days(),
                        h,
                        t@,
                        now,
                        session_id,
                    )
            }),
    {
        let now = clock::now();
        let new_session_id = clock::new_id();
        let new_token = SessionToken::generate();
        let r = self.rotate_session_at(token, now, new_session_id, new_token);
        proof {
            if r is Ok {
                let t = r->Ok_0.0;
                assert(session_rotated(
                    old(self).store().state(),
                    self.store().state(),
                    old(self).duration_days(),
                    secret_digest(token@),
                    t@,
                    now,
                    new_session_id,
                ));
            }
        }
        r
    }

    /// Change the caller's password at `now`: the current password must
    /// match; the new hash is stored, every session of the user is
    /// revoked and session `session_id` is opened under `token`.
    pub fn change_password_at(
        &mut self,
        user_id: &Id,
        current_password: &str,
        new_password: &str,
        now: Timestamp,
        session_id: Id,
        token: SessionToken,
    ) -> (r: Result<SessionToken, ApiError>)
        requires
            old(self).wf(),
        ensures
            final(self).wf(),
            final(self).duration_days() == old(self).duration_days(),
            ({
                let s0 = old(self).store().state();
                &&& old(self).store().infallible() && user_with_id(s0, *user_id) is None ==> (r matches Err(
                    e,
                ) && e == ApiError::Unauthorized)
                &&& !(user_with_id(s0, *user_id) matches Some(u) && password_matches(
                    current_password@,
                    u.password_hash@,
                )) ==> r is Err && final(self).store().state() == s0
                &&& old(self).store().infallible() && (user_with_id(s0, *user_id) matches Some(u)
                    && !password_matches(current_password@, u.password_hash@)) ==> r == Err::<
                    SessionToken,
                    ApiError,
                >(ApiError::Unauthorized)
                &&& old(self).store().infallible() && (user_with_id(s0, *user_id) matches Some(u)
                    && password_matches(current_password@, u.password_hash@)) && !s0.sessions.contains_key(
                    secret_digest(token@),
                ) ==> r is Ok || r == Err::<SessionToken, ApiError>(ApiError::Internal)
                &&& r matches Ok(t) ==> {
                    let u = user_with_id(s0, *user_id)->0;
                    let e = u.email@;
                    let nu = final(self).store().state().users[e];
                    let h = secret_digest(token@);
                    &&& user_with_id(s0, *user_id) is Some
                    &&& password_matches(current_password@, u.password_hash@)
                    &&& password_matches(new_password@, nu.password_hash@)
                    &&& nu == User { password_hash: nu.password_hash, updated_at: now, ..u }
                    &&& t@ == token@
                    &&& final(self).store().state() == with_sessions(
                        with_users(s0, s0.users.insert(e, nu), s0.ids),
                        revoke_all(s0.sessions, *user_id, now).insert(
                            h,
                            final(self).store().state().sessions[h],
                        ),
                    )
                    &&& !revoke_all(s0.sessions, *user_id, now).contains_key(h)
                    &&& fresh_session(
                        final(self).store().state().sessions[h],
                        session_id,
                        u.id,
                        h,
                        session_expiry(now, old(self).duration_days()),
                        now,
                    )
                }
            }),
    {
        let user = match self.storage.get_user_by_id(user_id) {
            Ok(Some(u)) => u,
            Ok(None) => {
                return Err(ApiError::Unauthorized);
            },
            Err(e) => {
                return Err(e);
            },
        };
        let valid = match self.password_hasher.verify(current_password, user.password_hash.as_str()) {
            Ok(v) => v,
            Err(_) => {
                return Err(ApiError::Unauthorized);
            },
        };
        if !valid {
            return Err(ApiError::Unauthorized);
        }
        let new_hash = match self.password_hasher.hash(new_password) {
            Ok(h) => h,
            Err(_) => {
                return Err(ApiError::Internal);
            },
        };
        let ghost s0 = self.storage.state();
        proof {
            self.storage.lemma_state_ok();
        }
        let updated = User { password_hash: new_hash, updated_at: now, ..user };
        match self.storage.update_user(&updated) {
            Ok(()) => {},
            Err(e) => {
                return Err(e);
            },
        }
        match self.storage.revoke_all_sessions_for_user(user_id, now) {
            Ok(_) => {},
            Err(e) => {
                return Err(e);
            },
        }
        let (_, session_token) = match self.create_session_for_user_at(updated, now, session_id, token) {
            Ok(pair) => pair,
            Err(e) => {
                return Err(e);
            },
        };
        let event = SecurityEvent::PasswordChanged {
            metadata: SecurityMetadata::new(None, None),
            user_id: *user_id,
        };
        let _ = self.events.record_event(event);
        Ok(session_token)
    }

    /// `change_password_at` at the current time with a fresh session and
    /// token.
    pub fn change_password(&mut self, user_id: &Id, current_password: &str, new_password: &str) -> (r:
        Result<SessionToken, ApiError>)
        requires
            old(self).wf(),
        ensures
            final(self).wf(),
            final(self).duration_days() == old(self).duration_days(),
            old(self).store().infallible() && user_with_id(old(self).store().state(), *user_id) is None ==> r
                == Err::<SessionToken, ApiError>(ApiError::Unauthorized),
            r matches Ok(t) ==> exists|now: Timestamp, session_id: Id|
                #[trigger] password_changed(
                    old(self).store().state(),
                    final(self).store().state(),
                    old(self).duration_days(),
                    *user_id,
                    current_password@,
                    new_password@,
                    t@,
                    now,
                    session_id,
                ),
    {
        let now = clock::now();
        let session_id = clock::new_id();
        let token = SessionToken::generate();
        let r = self.change_password_at(user_id, current_password, new_password, now, session_id, token);
        proof {
            if r is Ok {
                let t = r->Ok_0;
                assert(password_changed(
                    old(self).store().state(),
                    self.store().state(),
                    old(self).duration_days(),
                    *user_id,
                    current_password@,
                    new_password@,
                    t@,
                    now,
                    session_id,
                ));
            }
        }
        r
    }

    /// Request a password reset at `now`. Whether or not the address has
    /// an account, the answer is the same; for an account a reset token
    /// (the hash of `reset_token`) valid for
    /// `PASSWORD_RESET_TOKEN_TTL_MINUTES` is stored and the raw token is
    /// e-mailed.
    pub fn request_password_reset_at(&mut self, email: &str, ip: &str, now: Timestamp, reset_token: SessionToken) -> (r:
        Result<(), ApiError>)
        requires
            old(self).wf(),
        ensures
            final(self).wf(),
            final(self).duration_days() == old(self).duration_days(),
            ({
                let s0 = old(self).store().state();
                let n = normalized_email(email@);
                let l = old(self).limiter();
                let permitted = check_map(
                    l.login_ip_buckets(),
                    ip@,
                    l.config().login_ip_limit,
                    l.config().login_window,
                    limiter_time(now),
                ).1;
                &&& !permitted ==> (r matches Err(e) && e == ApiError::RateLimited)
                &&& old(self).store().infallible() && permitted ==> r is Ok
                &&& r is Ok && !s0.users.contains_key(n) ==> final(self).store().state() == s0
                &&& r is Ok && s0.users.contains_key(n) ==> {
                    let h = secret_digest(reset_token@);
                    let t = final(self).store().state().resets[h];
                    &&& final(self).store().state() == with_resets(s0, s0.resets.insert(h, t))
                    &&& t.user_id == s0.users[n].id
                    &&& t.token_hash@ == h
                    &&& t.created_at == now
                    &&& t.expires_at == shifted(now, PASSWORD_RESET_TOKEN_TTL_MINUTES * crate::clock::MICROS_PER_MINUTE)
                    &&& t.used_at is None
                }
                &&& r is Err ==> final(self).store().state() == s0
                &&& r is Ok && s0.users.contains_key(n) ==> final(self).outbox() == old(self).outbox().push(
                    (n, reset_token@),
                )
                &&& !(r is Ok && s0.users.contains_key(n)) ==> final(self).outbox() == old(self).outbox()
            }),
    {
        let normalized = normalize_email(email);
        let tick = limiter_tick(now);
        match self.rate_limiter.check_login_ip(ip, tick) {
            Ok(()) => {},
            Err(e) => {
                return Err(e);
            },
        }
        let user = match self.storage.get_user_by_email(normalized.as_str()) {
            Ok(u) => u,
            Err(e) => {
                return Err(e);
            },
        };
        if let Some(user) = user {
            let reset_hash = SessionTokenHash::from_token(&reset_token);
            let reset_model = PasswordResetToken::new_at(
                user.id,
                reset_hash.as_str().to_owned(),
                PASSWORD_RESET_TOKEN_TTL_MINUTES,
                now,
            );
            match self.storage.create_password_reset_token(&reset_model) {
                Ok(()) => {},
                Err(e) => {
                    return Err(e);
                },
            }
            let _ = self.email_provider.send_password_reset(normalized.as_str(), reset_token.expose());
            let event = SecurityEvent::PasswordResetRequested {
                metadata: SecurityMetadata::new(Some(ip.to_owned()), None),
                email: normalized,
            };
            let _ = self.events.record_event(event);
        }
        Ok(())
    }

    /// `request_password_reset_at` at the current time with a fresh token.
    pub fn request_password_reset(&mut self, email: &str, ip: &str) -> (r: Result<(), ApiError>)
        requires
            old(self).wf(),
        ensures
            final(self).wf(),
            final(self).duration_days() == old(self).duration_days(),
            ({
                let s0 = old(self).store().state();
                let n = normalized_email(email@);
                &&& r is Err ==> final(self).store().state() == s0
                &&& r is Ok && !s0.users.contains_key(n) ==> final(self).store().state() == s0
                &&& r is Ok && s0.users.contains_key(n) ==> exists|token: Seq<char>, now: Timestamp|
                    #[trigger] reset_issued(s0, final(self).store().state(), n, token, now)
            }),
    {
        let now = clock::now();
        let reset_token = SessionToken::generate();
        let ghost token = reset_token@;
        let r = self.request_password_reset_at(email, ip, now, reset_token);
        proof {
            let s0 = old(self).store().state();
            if r is Ok && s0.users.contains_key(normalized_email(email@)) {
                assert(reset_issued(s0, self.store().state(), normalized_email(email@), token, now));
            }
        }
        r
    }

    /// Set a new password with an e-mailed reset token at `now`. The token
    /// must exist, be unexpired and unused; it is used up, the new hash is
    /// stored and every session of the user is revoked.
    pub fn confirm_password_reset_at(&mut self, token: &str, new_password: &str, now: Timestamp) -> (r:
        Result<(), ApiError>)
        requires
            old(self).wf(),
        ensures
            final(self).wf(),
            final(self).duration_days() == old(self).duration_days(),
            ({
                let s0 = old(self).store().state();
                let h = secret_digest(token@);
                &&& !(s0.resets.contains_key(h) && s0.resets[h].valid_at(now)) ==> r is Err
                    && final(self).store().state() == s0
                &&& old(self).store().infallible() && !(s0.resets.contains_key(h) && s0.resets[h].valid_at(
                    now,
                )) ==> (r matches Err(e) && e == ApiError::Unauthorized)
                &&& old(self).store().infallible() && s0.resets.contains_key(h) && s0.resets[h].valid_at(now)
                    && user_with_id(s0, s0.resets[h].user_id) is Some ==> r is Ok || r == Err::<(), ApiError>(
                    ApiError::Internal,
                )
                &&& r is Ok ==> {
                    let t = s0.resets[h];
                    let u = user_with_id(s0, t.user_id)->0;
                    let nu = final(self).store().state().users[u.email@];
                    &&& s0.resets.contains_key(h)
                    &&& t.valid_at(now)
                    &&& user_with_id(s0, t.user_id) is Some
                    &&& password_matches(new_password@, nu.password_hash@)
                    &&& nu == User { password_hash: nu.password_hash, updated_at: now, ..u }
                    &&& final(self).store().state() == AuthState {
                        users: s0.users.insert(u.email@, nu),
                        ids: s0.ids,
                        sessions: revoke_all(s0.sessions, u.id, now),
                        resets: s0.resets.insert(h, consumed(t, now)),
                        ..s0
                    }
                }
            }),
    {
        let temp_token = SessionToken::from_secret(token.to_owned());
        let token_hash = SessionTokenHash::from_token(&temp_token);
        let reset_token = match self.storage.get_password_reset_token_by_hash(token_hash.as_str()) {
            Ok(Some(t)) => t,
            Ok(None) => {
                return Err(ApiError::Unauthorized);
            },
            Err(e) => {
                return Err(e);
            },
        };
        if !reset_token.is_valid_at(now) {
            return Err(ApiError::Unauthorized);
        }
        match self.storage.consume_password_reset_token(token_hash.as_str(), now) {
            Ok(()) => {},
            Err(e) => {
                return Err(e);
            },
        }
        let user = match self.storage.get_user_by_id(&reset_token.user_id) {
            Ok(Some(u)) => u,
            Ok(None) => {
                return Err(ApiError::Unauthorized);
            },
            Err(e) => {
                return Err(e);
            },
        };
        let new_hash = match self.password_hasher.hash(new_password) {
            Ok(h) => h,
            Err(_) => {
                return Err(ApiError::Internal);
            },
        };
        proof {
            self.storage.lemma_state_ok();
        }
        let uid = user.id;
        let updated = User { password_hash: new_hash, updated_at: now, ..user };
        match self.storage.update_user(&updated) {
            Ok(()) => {},
            Err(e) => {
                return Err(e);
            },
        }
        match self.storage.revoke_all_sessions_for_user(&uid, now) {
            Ok(_) => {},
            Err(e) => {
                return Err(e);
            },
        }
        let event = SecurityEvent::PasswordResetCompleted {
            metadata: SecurityMetadata::new(None, None),
            user_id: uid,
        };
        let _ = self.events.record_event(event);
        Ok(())
    }

    /// `confirm_password_reset_at` at the current time.
    pub fn confirm_password_reset(&mut self, token: &str, new_password: &str) -> (r: Result<(), ApiError>)
        requires
            old(self).wf(),
        ensures
            final(self).wf(),
            final(self).duration_days() == old(self).duration_days(),
            ({
                let s0 = old(self).store().state();
                let h = secret_digest(token@);
                &&& !s0.resets.contains_key(h) ==> r is Err && final(self).store().state() == s0
                &&& old(self).store().infallible() && !s0.resets.contains_key(h) ==> r == Err::<(), ApiError>(
                    ApiError::Unauthorized,
                )
                &&& r is Ok ==> exists|now: Timestamp|
                    #[trigger] reset_confirmed(s0, final(self).store().state(), h, new_password@, now)
            }),
    {
        let now = clock::now();
        let r = self.confirm_password_reset_at(token, new_password, now);
        proof {
            if r is Ok {
                assert(reset_confirmed(
                    old(self).store().state(),
                    self.store().state(),
                    secret_digest(token@),
                    new_password@,
                    now,
                ));
            }
        }
        r
    }

    /// The caller's sessions in use at `now`, each once, the session
    /// `current_session_id` marked as current.
    pub fn list_sessions_at(&self, user_id: &Id, current_session_id: Option<Id>, now: Timestamp) -> (r:
        Result<Vec<ActiveSessionResponse>, ApiError>)
        requires
            self.wf(),
        ensures
            r matches Ok(v) ==> exists|listed: Seq<Session>|
                #[trigger] lists_active(listed, self.store().state().sessions, *user_id, now) && v@
                    == session_rows(listed, current_session_id),
            self.store().infallible() ==> r is Ok,
    {
        let sessions = match self.storage.get_active_sessions_for_user(user_id, now) {
            Ok(v) => v,
            Err(e) => {
                return Err(e);
            },
        };
        let mut out: Vec<ActiveSessionResponse> = Vec::new();
        let mut i: usize = 0;
        while i < sessions.len()
            invariant
                i <= sessions@.len(),
                out@ == session_rows(sessions@.take(i as int), current_session_id),
            decreases sessions@.len() - i,
        {
            let row = session_response(&sessions[i], current_session_id);
            out.push(row);
            assert(session_rows(sessions@.take(i + 1), current_session_id) =~= session_rows(
                sessions@.take(i as int),
                current_session_id,
            ).push(row));
            i = i + 1;
        }
        assert(sessions@.take(sessions@.len() as int) =~= sessions@);
        assert(out@ == session_rows(sessions@, current_session_id));
        assert(lists_active(sessions@, self.store().state().sessions, *user_id, now));
        Ok(out)
    }

    /// `list_sessions_at` at the current time.
    pub fn list_sessions(&self, user_id: &Id, current_session_id: Option<Id>) -> (r: Result<
        Vec<ActiveSessionResponse>,
        ApiError,
    >)
        requires
            self.wf(),
        ensures
            self.store().infallible() ==> r is Ok,
            r matches Ok(v) ==> exists|t: Timestamp, listed: Seq<Session>|
                #[trigger] lists_active(listed, self.store().state().sessions, *user_id, t) && v@
                    == session_rows(listed, current_session_id),
    {
        let now = clock::now();
        self.list_sessions_at(user_id, current_session_id, now)
    }

    /// Revoke one of the caller's sessions at `now`; a session of another
    /// user is left alone.
    pub fn revoke_session_at(&mut self, session_id: &Id, user_id: &Id, now: Timestamp) -> (r: Result<
        (),
        ApiError,
    >)
        requires
            old(self).wf(),
        ensures
            final(self).wf(),
            final(self).duration_days() == old(self).duration_days(),
            final(self).limiter() == old(self).limiter(),
            r is Ok ==> final(self).store().state() == with_sessions(
                old(self).store().state(),
                revoke_in(
                    old(self).store().state().sessions,
                    *user_id,
                    SessionScope::Only(*session_id),
                    now,
                ),
            ),
            r is Err ==> final(self).store().state() == old(self).store().state(),
            old(self).store().infallible() ==> r is Ok,
    {
        match self.storage.revoke_session_by_id(session_id, user_id, now) {
            Ok(()) => {},
            Err(e) => {
                return Err(e);
            },
        }
        let event = SecurityEvent::session_revoked(*user_id, *session_id, SecurityMetadata::new(None, None));
        let _ = self.events.record_event(event);
        Ok(())
    }

    /// `revoke_session_at` at the current time.
    pub fn revoke_session(&mut self, session_id: &Id, user_id: &Id) -> (r: Result<(), ApiError>)
        requires
            old(self).wf(),
        ensures
            final(self).wf(),
            final(self).duration_days() == old(self).duration_days(),
            final(self).limiter() == old(self).limiter(),
            old(self).store().infallible() ==> r is Ok,
            r is Err ==> final(self).store().state() == old(self).store().state(),
            r is Ok ==> exists|t: Timestamp|
                final(self).store().state() == with_sessions(
                    old(self).store().state(),
                    #[trigger] revoke_in(
                        old(self).store().state().sessions,
                        *user_id,
                        SessionScope::Only(*session_id),
                        t,
                    ),
                ),
    {
        let now = clock::now();
        let r = self.revoke_session_at(session_id, user_id, now);
        proof {
            if r is Ok {
                let s0 = old(self).store().state();
                assert(self.store().state() == with_sessions(
                    s0,
                    revoke_in(s0.sessions, *user_id, SessionScope::Only(*session_id), now),
                ));
            }
        }
        r
    }

    /// Revoke every session of the caller but the current one at `now`;
    /// the count of sessions that were still active.
    pub fn revoke_other_sessions_at(&mut self, user_id: &Id, current_session_id: &Id, now: Timestamp) -> (r:
        Result<usize, ApiError>)
        requires
            old(self).wf(),
        ensures
            final(self).wf(),
            final(self).duration_days() == old(self).duration_days(),
            final(self).limiter() == old(self).limiter(),
            r matches Ok(n) ==> {
                let s0 = old(self).store().state();
                let scope = SessionScope::AllBut(*current_session_id);
                &&& final(self).store().state() == with_sessions(s0, revoke_in(s0.sessions, *user_id, scope, now))
                &&& n == s0.sessions.dom().filter(revocable_in(s0.sessions, *user_id, scope)).len()
            },
            r is Err ==> final(self).store().state() == old(self).store().state(),
            old(self).store().infallible() ==> r is Ok,
    {
        let revoked = match self.storage.revoke_all_sessions_except(user_id, current_session_id, now) {
            Ok(n) => n,
            Err(e) => {
                return Err(e);
            },
        };
        let event = SecurityEvent::all_sessions_revoked(*user_id, revoked, SecurityMetadata::new(None, None));
        let _ = self.events.record_event(event);
        Ok(revoked)
    }

    /// `revoke_other_sessions_at` at the current time.
    pub fn revoke_other_sessions(&mut self, user_id: &Id, current_session_id: &Id) -> (r: Result<usize, ApiError>)
        requires
            old(self).wf(),
        ensures
            final(self).wf(),
            final(self).duration_days() == old(self).duration_days(),
            final(self).limiter() == old(self).limiter(),
            old(self).store().infallible() ==> r is Ok,
            r is Err ==> final(self).store().state() == old(self).store().state(),
            r matches Ok(n) ==> {
                let s0 = old(self).store().state();
                let scope = SessionScope::AllBut(*current_session_id);
                &&& n == s0.sessions.dom().filter(revocable_in(s0.sessions, *user_id, scope)).len()
                &&& exists|t: Timestamp|
                    final(self).store().state() == with_sessions(
                        s0,
                        #[trigger] revoke_in(s0.sessions, *user_id, scope, t),
                    )
            },
    {
        let now = clock::now();
        let r = self.revoke_other_sessions_at(user_id, current_session_id, now);
        proof {
            if r is Ok {
                let s0 = old(self).store().state();
                let scope = SessionScope::AllBut(*current_session_id);
                assert(self.store().state() == with_sessions(s0, revoke_in(s0.sessions, *user_id, scope, now)));
            }
        }
        r
    }

    /// The user's stored preferences, or the defaults stamped `now`.
    pub fn get_preferences_at(&self, user_id: &Id, now: Timestamp) -> (r: Result<UserPreferences, ApiError>)
        requires
            self.wf(),
        ensures
            r matches Ok(p) ==> p == preferences_or_defaults(self.store().state(), *user_id, now),
            self.store().infallible() ==> r is Ok,
    {
        match self.storage.get_user_preferences(user_id) {
            Ok(Some(p)) => Ok(p),
            Ok(None) => Ok(UserPreferences::defaults_at(*user_id, now)),
            Err(e) => Err(e),
        }
    }

    /// `get_preferences_at` at the current time.
    pub fn get_preferences(&self, user_id: &Id) -> (r: Result<UserPreferences, ApiError>)
        requires
            self.wf(),
        ensures
            r matches Ok(p) ==> p.user_id == *user_id,
            r matches Ok(p) ==> (self.store().state().prefs.contains_key(*user_id) ==> p
                == self.store().state().prefs[*user_id]),
            self.store().infallible() ==> r is Ok,
            r matches Ok(p) ==> exists|now: Timestamp| p == #[trigger] preferences_or_defaults(
                self.store().state(),
                *user_id,
                now,
            ),
    {
        let now = clock::now();
        proof {
            self.storage.lemma_state_ok();
        }
        self.get_preferences_at(user_id, now)
    }

    /// Apply a partial update to the user's preferences at `now` and store
    /// them; fields not supplied keep their stored (or default) values.
    pub fn update_preferences_at(&mut self, user_id: &Id, update: UserPreferencesUpdate, now: Timestamp) -> (r:
        Result<UserPreferences, ApiError>)
        requires
            old(self).wf(),
        ensures
            final(self).wf(),
            final(self).duration_days() == old(self).duration_days(),
            final(self).limiter() == old(self).limiter(),
            r matches Ok(p) ==> preferences_updated(
                old(self).store().state(),
                final(self).store().state(),
                *user_id,
                update,
                now,
                p,
            ),
            r is Err ==> final(self).store().state() == old(self).store().state(),
            old(self).store().infallible() ==> r is Ok,
    {
        let current = match self.get_preferences_at(user_id, now) {
            Ok(p) => p,
            Err(e) => {
                return Err(e);
            },
        };
        proof {
            self.storage.lemma_state_ok();
        }
        let prefs = apply_update(current, update, now);
        match self.storage.upsert_user_preferences(&prefs) {
            Ok(()) => {},
            Err(e) => {
                return Err(e);
            },
        }
        Ok(prefs)
    }

    /// `update_preferences_at` at the current time.
    pub fn update_preferences(&mut self, user_id: &Id, update: UserPreferencesUpdate) -> (r: Result<
        UserPreferences,
        ApiError,
    >)
        requires
            old(self).wf(),
        ensures
            final(self).wf(),
            r matches Ok(p) ==> p.user_id == *user_id && final(self).store().state().prefs.contains_key(
                *user_id,
            ) && final(self).store().state().prefs[*user_id] == p,
            old(self).store().infallible() ==> r is Ok,
            final(self).duration_days() == old(self).duration_days(),
            final(self).limiter() == old(self).limiter(),
            r is Err ==> final(self).store().state() == old(self).store().state(),
            r matches Ok(p) ==> exists|now: Timestamp|
                #[trigger] preferences_updated(
                    old(self).store().state(),
                    final(self).store().state(),
                    *user_id,
                    update,
                    now,
                    p,
                ),
    {
        let now = clock::now();
        proof {
            self.storage.lemma_state_ok();
        }
        let r = self.update_preferences_at(user_id, update, now);
        proof {
            if r is Ok {
                assert(preferences_updated(old(self).store().state(), self.store().state(), *user_id, update, now, r->Ok_0));
            }
        }
        r
    }

    /// Upload (or replace) the user's avatar at `now`: the payload is
    /// validated, encrypted under the user's avatar object id, written to
    /// the user's blob key, and the metadata is stored. `BadRequest` for a
    /// payload that fails validation.
    pub fn upload_avatar_at(&mut self, user_id: &Id, content_type: &str, data: &[u8], now: Timestamp) -> (r:
        Result<Avatar, ApiError>)
        requires
            old(self).wf(),
        ensures
            final(self).wf(),
            final(self).duration_days() == old(self).duration_days(),
            final(self).limiter() == old(self).limiter(),
            avatar_check(content_type@, data@) is Err ==> (r matches Err(e) && e == ApiError::BadRequest),
            r matches Ok(a) ==> avatar_uploaded(
                old(self).decryption(),
                old(self).store().state(),
                final(self).store().state(),
                *user_id,
                content_type@,
                data@,
                now,
                a,
            ),
            r is Err && old(self).store().infallible() ==> final(self).store().state() == old(
                self,
            ).store().state(),
    {
        let mime = match validate_avatar(content_type, data) {
            Ok(m) => m,
            Err(_) => {
                return Err(ApiError::BadRequest);
            },
        };
        let blob_key = Avatar::blob_key_for(*user_id);
        let object_id = Avatar::object_id_for(*user_id);
        let encrypted = match self.secret_cipher.encrypt(object_id, data) {
            Ok(c) => c,
            Err(e) => {
                return Err(e);
            },
        };
        match self.storage.put_avatar_blob(blob_key.as_str(), encrypted.as_slice()) {
            Ok(()) => {},
            Err(e) => {
                return Err(e);
            },
        }
        let ghost s1 = self.storage.state();
        let avatar = Avatar {
            user_id: *user_id,
            mime_type: mime,
            size: data.len() as u64,
            content_hash: Avatar::hash_bytes(data),
            blob_key,
            uploaded_at: now,
        };
        match self.storage.upsert_avatar(&avatar) {
            Ok(()) => {},
            Err(e) => {
                return Err(e);
            },
        }
        Ok(avatar)
    }

    /// `upload_avatar_at` at the current time.
    pub fn upload_avatar(&mut self, user_id: &Id, content_type: &str, data: &[u8]) -> (r: Result<
        Avatar,
        ApiError,
    >)
        requires
            old(self).wf(),
        ensures
            final(self).wf(),
            avatar_check(content_type@, data@) is Err ==> (r matches Err(e) && e == ApiError::BadRequest),
            r matches Ok(a) ==> final(self).store().state().avatars.contains_key(*user_id)
                && final(self).store().state().avatars[*user_id] == a,
            final(self).duration_days() == old(self).duration_days(),
            final(self).limiter() == old(self).limiter(),
            r is Err && old(self).store().infallible() ==> final(self).store().state() == old(
                self,
            ).store().state(),
            r matches Ok(a) ==> exists|now: Timestamp|
                #[trigger] avatar_uploaded(
                    old(self).decryption(),
                    old(self).store().state(),
                    final(self).store().state(),
                    *user_id,
                    content_type@,
                    data@,
                    now,
                    a,
                ),
    {
        let now = clock::now();
        let r = self.upload_avatar_at(user_id, content_type, data, now);
        proof {
            if r is Ok {
                assert(avatar_uploaded(
                    old(self).decryption(),
                    old(self).store().state(),
                    self.store().state(),
                    *user_id,
                    content_type@,
                    data@,
                    now,
                    r->Ok_0,
                ));
            }
        }
        r
    }

    /// The user's avatar metadata and decrypted payload; `None` when no
    /// avatar or no payload is stored.
    pub fn get_avatar(&self, user_id: &Id) -> (r: Result<Option<(Avatar, Vec<u8>)>, ApiError>)
        requires
            self.wf(),
        ensures
            ({
                let s = self.store().state();
                let stored = s.avatars.contains_key(*user_id) && s.blobs.contains_key(
                    s.avatars[*user_id].blob_key@,
                );
                &&& r matches Ok(Some((a, _))) ==> stored && a == s.avatars[*user_id]
                &&& r matches Ok(None) ==> !stored
                &&& self.store().infallible() && !stored ==> (r matches Ok(o) && o is None)
            }),
    {
        let avatar = match self.storage.get_avatar(user_id) {
            Ok(Some(a)) => a,
            Ok(None) => {
                return Ok(None);
            },
            Err(e) => {
                return Err(e);
            },
        };
        let encrypted = match self.storage.get_avatar_blob(avatar.blob_key.as_str()) {
            Ok(Some(b)) => b,
            Ok(None) => {
                return Ok(None);
            },
            Err(e) => {
                return Err(e);
            },
        };
        match self.secret_cipher.decrypt(encrypted.as_slice()) {
            Ok(plaintext) => Ok(Some((avatar, plaintext))),
            Err(e) => Err(e),
        }
    }

    /// Delete the user's avatar, payload and metadata; nothing to do when
    /// none is stored.
    pub fn delete_avatar(&mut self, user_id: &Id) -> (r: Result<(), ApiError>)
        requires
            old(self).wf(),
        ensures
            final(self).wf(),
            final(self).duration_days() == old(self).duration_days(),
            final(self).limiter() == old(self).limiter(),
            ({
                let s0 = old(self).store().state();
                r is Ok ==> final(self).store().state() == if s0.avatars.contains_key(*user_id) {
                    with_avatars(
                        with_blobs(s0, s0.blobs.remove(s0.avatars[*user_id].blob_key@)),
                        s0.avatars.remove(*user_id),
                    )
                } else {
                    s0
                }
            }),
            old(self).store().infallible() ==> r is Ok,
    {
        let avatar = match self.storage.get_avatar(user_id) {
            Ok(Some(a)) => a,
            Ok(None) => {
                return Ok(());
            },
            Err(e) => {
                return Err(e);
            },
        };
        match self.storage.delete_avatar_blob(avatar.blob_key.as_str()) {
            Ok(()) => {},
            Err(e) => {
                return Err(e);
            },
        }
        self.storage.delete_avatar(user_id)
    }

    /// Replace the user's backup codes at `now`: every active code is
    /// revoked, then each of `codes` is stored, normalized and hashed with
    /// Argon2id, as an active code of set `set_id` under the matching id
    /// of `ids`. The plaintext codes are handed back; they are never
    /// stored.
    pub fn generate_backup_codes_at(
        &mut self,
        user_id: &Id,
        codes: Vec<String>,
        ids: Vec<Id>,
        set_id: Id,
        now: Timestamp,
    ) -> (r: Result<Vec<String>, ApiError>)
        requires
            old(self).wf(),
            ids@.len() == codes@.len(),
        ensures
            final(self).wf(),
            final(self).duration_days() == old(self).duration_days(),
            final(self).limiter() == old(self).limiter(),
            old(self).store().infallible() && r is Err ==> r == Err::<Vec<String>, ApiError>(ApiError::Internal),
            r matches Ok(out) ==> out@ == codes@ && codes_stored(
                old(self).store().state(),
                final(self).store().state(),
                *user_id,
                texts_of(codes@),
                ids@,
                set_id,
                now,
            ),
    {
        match self.storage.revoke_all_backup_codes(user_id, now) {
            Ok(_) => {},
            Err(e) => {
                return Err(e);
            },
        }
        let ghost s0 = old(self).store().state();
        let ghost texts = texts_of(codes@);
        let ghost revoked = revoke_codes(s0.backup_codes, *user_id, now);
        let mut i: usize = 0;
        while i < codes.len()
            invariant
                self.wf(),
                self.duration_days() == old(self).duration_days(),
                self.limiter() == old(self).limiter(),
                self.store().infallible() == old(self).store().infallible(),
                ids@.len() == codes@.len(),
                texts == texts_of(codes@),
                i <= codes@.len(),
                codes_stored(s0, self.store().state(), *user_id, texts.take(i as int), ids@.take(i as int), set_id, now),
                revoked == revoke_codes(s0.backup_codes, *user_id, now),
            decreases codes@.len() - i,
        {
            let normalized = normalize_code(codes[i].as_str());
            let hash = match self.password_hasher.hash(normalized.as_str()) {
                Ok(h) => h,
                Err(_) => {
                    return Err(ApiError::Internal);
                },
            };
            let code = BackupCode::new_at(ids[i], *user_id, set_id, hash, now);
            let ghost before = self.storage.state();
            match self.storage.create_backup_code(&code) {
                Ok(()) => {},
                Err(e) => {
                    return Err(e);
                },
            }
            proof {
                let t = texts.take(i + 1);
                let d = ids@.take(i + 1);
                assert(texts.take(i as int) =~= t.drop_last());
                assert(ids@.take(i as int) =~= d.drop_last());
                assert(t[i as int] == codes@[i as int]@);
                lemma_codes_stored_step(s0, before, self.storage.state(), *user_id, texts.take(i as int), ids@.take(i as int), t, d, set_id, now, code);
            }
            i = i + 1;
        }
        proof {
            assert(texts.take(codes@.len() as int) =~= texts);
            assert(ids@.take(codes@.len() as int) =~= ids@);
        }
        Ok(codes)
    }

    /// A fresh set of backup codes for the user; see
    /// `generate_backup_codes_at`.
    pub fn generate_backup_codes(&mut self, user_id: &Id) -> (r: Result<Vec<String>, ApiError>)
        requires
            old(self).wf(),
        ensures
            final(self).wf(),
            final(self).duration_days() == old(self).duration_days(),
            final(self).limiter() == old(self).limiter(),
            old(self).store().infallible() && r is Err ==> r == Err::<Vec<String>, ApiError>(ApiError::Internal),
            r matches Ok(out) ==> out@.len() == BACKUP_CODES_PER_SET && (forall|i: int|
                0 <= i < out@.len() ==> well_formed_code(#[trigger] out@[i]@)) && exists|ids: Seq<Id>, set_id: Id, now: Timestamp|
                #[trigger] codes_stored(
                    old(self).store().state(),
                    final(self).store().state(),
                    *user_id,
                    texts_of(out@),
                    ids,
                    set_id,
                    now,
                ),
    {
        let codes = generate_set();
        let mut ids: Vec<Id> = Vec::new();
        let mut i: usize = 0;
        while i < codes.len()
            invariant
                i <= codes@.len(),
                ids@.len() == i,
            decreases codes@.len() - i,
        {
            ids.push(clock::new_id());
            i = i + 1;
        }
        let set_id = clock::new_id();
        let now = clock::now();
        let r = self.generate_backup_codes_at(user_id, codes, ids, set_id, now);
        proof {
            if r is Ok {
                let out = r->Ok_0;
                assert(codes_stored(
                    old(self).store().state(),
                    self.store().state(),
                    *user_id,
                    texts_of(out@),
                    ids@,
                    set_id,
                    now,
                ));
            }
        }
        r
    }

    /// Check a backup code at `now` and use it up: the code is normalized;
    /// when it has the backup-code form and one of the user's active codes
    /// verifies it, that code is marked used and the answer is `true`.
    pub fn verify_backup_code_at(&mut self, user_id: &Id, code: &str, now: Timestamp) -> (r: Result<bool, ApiError>)
        requires
            old(self).wf(),
        ensures
            final(self).wf(),
            final(self).duration_days() == old(self).duration_days(),
            final(self).store().infallible() == old(self).store().infallible(),
            final(self).limiter() == old(self).limiter(),
            ({
                let s0 = old(self).store().state();
                let n = normalize_seq(code@);
                let codes = s0.backup_codes;
                &&& !valid_normalized(n) ==> r == Ok::<bool, ApiError>(false)
                &&& r matches Ok(true) ==> exists|k: Id|
                    #[trigger] active_code_of(codes, *user_id)(k) && code_verifies(n, codes[k])
                        && final(self).store().state() == with_codes(s0, codes.insert(k, used_code(codes[k], now)))
                &&& !(r matches Ok(true)) ==> final(self).store().state() == s0
                &&& old(self).store().infallible() && valid_normalized(n) && r == Ok::<bool, ApiError>(false) ==> forall|k: Id|
                    #[trigger] active_code_of(codes, *user_id)(k) ==> argon2_verify_outcome(
                        encode_utf8(n),
                        codes[k].code_hash@,
                    ) == Ok::<bool, PasswordError>(false)
                &&& old(self).store().infallible() && valid_normalized(n) && backup_code_owed(codes, *user_id, n)
                    ==> r == Ok::<bool, ApiError>(true)
                &&& old(self).store().infallible() && valid_normalized(n) && no_code_verifies(codes, *user_id, n)
                    ==> r == Ok::<bool, ApiError>(false)
            }),
    {
        let normalized = normalize_code(code);
        if !is_valid_normalized_code(normalized.as_str()) {
            return Ok(false);
        }
        let stored = match self.storage.list_backup_codes(user_id) {
            Ok(v) => v,
            Err(e) => {
                return Err(e);
            },
        };
        let ghost s0 = self.storage.state();
        let ghost n = normalized@;
        proof {
            lemma_valid_normalized_len(n);
        }
        let mut i: usize = 0;
        while i < stored.len()
            invariant
                self.wf(),
                self.storage.state() == s0,
                self.duration_days() == old(self).duration_days(),
                self.limiter() == old(self).limiter(),
                s0 == old(self).store().state(),
                n == normalized@,
                n == normalize_seq(code@),
                valid_normalized(n),
                n.len() > 0,
                byte_len(n) <= MAX_PASSWORD_BYTES,
                lists_codes(stored@, s0.backup_codes, *user_id),
                self.store().infallible() == old(self).store().infallible(),
                i <= stored@.len(),
                forall|j: int|
                    0 <= j < i ==> (#[trigger] stored@[j]).active() ==> argon2_verify_outcome(
                        encode_utf8(n),
                        stored@[j].code_hash@,
                    ) == Ok::<bool, PasswordError>(false),
            decreases stored@.len() - i,
        {
            let c = &stored[i];
            if c.is_active() {
                proof {
                    assert(s0.backup_codes.contains_key(c.id));
                    assert(active_code_of(s0.backup_codes, *user_id)(c.id));
                }
                let matches = match self.password_hasher.verify(normalized.as_str(), c.code_hash.as_str()) {
                    Ok(m) => m,
                    Err(_) => {
                        return Err(ApiError::Internal);
                    },
                };
                if matches {
                    proof {
                        assert(s0.backup_codes.contains_key(c.id));
                        assert(code_matches(s0.backup_codes, *user_id, c.code_hash@, c.id));
                    }
                    let consumed = match self.storage.consume_backup_code(user_id, c.code_hash.as_str(), now) {
                        Ok(b) => b,
                        Err(e) => {
                            return Err(e);
                        },
                    };
                    if consumed {
                        proof {
                            let k2 = choose|k: Id|
                                #[trigger] code_matches(s0.backup_codes, *user_id, c.code_hash@, k)
                                    && self.storage.state() == with_codes(
                                    s0,
                                    s0.backup_codes.insert(k, used_code(s0.backup_codes[k], now)),
                                );
                            assert(active_code_of(s0.backup_codes, *user_id)(k2));
                            assert(code_verifies(n, s0.backup_codes[k2]));
                        }
                        return Ok(true);
                    }
                    return Ok(false);
                }
            }
            i = i + 1;
        }
        proof {
            assert forall|k: Id| #[trigger] active_code_of(s0.backup_codes, *user_id)(k) implies argon2_verify_outcome(
                encode_utf8(n),
                s0.backup_codes[k].code_hash@,
            ) == Ok::<bool, PasswordError>(false) by {
                assert(s0.backup_codes.contains_key(k));
                let j = choose|j: int| 0 <= j < stored@.len() && (#[trigger] stored@[j]).id == k;
                assert(stored@[j] == s0.backup_codes[k]);
            }
        }
        Ok(false)
    }

    /// `verify_backup_code_at` at the current time.
    pub fn verify_backup_code(&mut self, user_id: &Id, code: &str) -> (r: Result<bool, ApiError>)
        requires
            old(self).wf(),
        ensures
            final(self).wf(),
            !valid_normalized(normalize_seq(code@)) ==> r == Ok::<bool, ApiError>(false),
            !(r matches Ok(true)) ==> final(self).store().state() == old(self).store().state(),
            old(self).store().infallible() && r == Ok::<bool, ApiError>(false) && valid_normalized(
                normalize_seq(code@),
            ) ==> no_code_verifies(old(self).store().state().backup_codes, *user_id, normalize_seq(code@)),
            old(self).store().infallible() && valid_normalized(normalize_seq(code@)) && backup_code_owed(
                old(self).store().state().backup_codes,
                *user_id,
                normalize_seq(code@),
            ) ==> r == Ok::<bool, ApiError>(true),
            ({
                let s0 = old(self).store().state();
                let codes = s0.backup_codes;
                r matches Ok(true) ==> exists|k: Id, t: Timestamp|
                    #[trigger] active_code_of(codes, *user_id)(k) && code_verifies(normalize_seq(code@), codes[k])
                        && final(self).store().state() == with_codes(s0, codes.insert(k, #[trigger] used_code(codes[k], t)))
            }),
    {
        let now = clock::now();
        let r = self.verify_backup_code_at(user_id, code, now);
        proof {
            let s0 = old(self).store().state();
            let codes = s0.backup_codes;
            if r matches Ok(true) {
                let k = choose|k: Id|
                    #[trigger] active_code_of(codes, *user_id)(k) && code_verifies(normalize_seq(code@), codes[k])
                        && self.store().state() == with_codes(s0, codes.insert(k, used_code(codes[k], now)));
                assert(active_code_of(codes, *user_id)(k) && used_code(codes[k], now) == used_code(codes[k], now));
            }
        }
        r
    }

    /// The state of the user's backup codes.
    pub fn backup_codes_status(&self, user_id: &Id) -> (r: Result<BackupCodeStatusResponse, ApiError>)
        requires
            self.wf(),
        ensures
            r matches Ok(resp) ==> exists|listed: Seq<BackupCode>|
                #[trigger] lists_codes(listed, self.store().state().backup_codes, *user_id) && resp
                    == code_status_of(listed),
            self.store().infallible() ==> r is Ok,
    {
        let codes = match self.storage.list_backup_codes(user_id) {
            Ok(v) => v,
            Err(e) => {
                return Err(e);
            },
        };
        let mut remaining: usize = 0;
        let mut generated_at: Option<Timestamp> = None;
        let mut i: usize = 0;
        while i < codes.len()
            invariant
                i <= codes@.len(),
                remaining <= i,
                remaining == count_active(codes@.take(i as int)),
                generated_at == newest_created(codes@.take(i as int)),
            decreases codes@.len() - i,
        {
            let c = &codes[i];
            proof {
                assert(codes@.take(i + 1).drop_last() =~= codes@.take(i as int));
            }
            if c.is_active() {
                remaining = remaining + 1;
            }
            generated_at = match generated_at {
                Some(t) => if c.created_at > t {
                    Some(c.created_at)
                } else {
                    Some(t)
                },
                None => Some(c.created_at),
            };
            i = i + 1;
        }
        proof {
            assert(codes@.take(codes@.len() as int) =~= codes@);
            assert(lists_codes(codes@, self.store().state().backup_codes, *user_id));
        }
        Ok(BackupCodeStatusResponse { enabled: codes.len() > 0, remaining, total: codes.len(), generated_at })
    }

    /// Start TOTP enrollment at `now` with the 160-bit `secret`: the secret
    /// is encrypted under the user's TOTP object id and stored as pending
    /// settings (replacing earlier ones), and the otpauth URI and base32
    /// secret are handed back, once. `Internal` when `totp_rs` refuses
    /// `email` as the account name (it holds `:`).
    pub fn setup_two_factor_at(&mut self, user_id: &Id, email: &str, secret: [u8; 20], now: Timestamp) -> (r:
        Result<TwoFactorSetupResponse, ApiError>)
        requires
            old(self).wf(),
        ensures
            final(self).wf(),
            final(self).duration_days() == old(self).duration_days(),
            final(self).limiter() == old(self).limiter(),
            email@.contains(':') ==> r == Err::<TwoFactorSetupResponse, ApiError>(ApiError::Internal),
            r is Err ==> final(self).store().state() == old(self).store().state(),
            r matches Ok(resp) ==> {
                let s0 = old(self).store().state();
                &&& resp.otpauth_uri@ == totp_uri(secret@, email@)
                &&& resp.secret_base32@ == totp_secret_base32(secret@)
                &&& exists|c: Seq<u8>|
                    old(self).decryption()(c, secret@) && final(self).store().state() == with_two_factor(
                        s0,
                        s0.two_factor.insert(*user_id, #[trigger] pending_record(*user_id, c, now)),
                    )
            },
    {
        proof {
            lemma_totp_parameters_accepted(secret@, email@);
        }
        let (otpauth_uri, secret_base32) = match totp_enrollment(
            secret.as_slice(),
            TOTP_DIGITS,
            TOTP_SKEW,
            TOTP_STEP_SECONDS,
            TOTP_ISSUER,
            email,
        ) {
            Some(pair) => pair,
            None => {
                return Err(ApiError::Internal);
            },
        };
        let object_id = TotpSecretObjectId::for_user(*user_id);
        let encrypted = match self.secret_cipher.encrypt(object_id, secret.as_slice()) {
            Ok(c) => c,
            Err(e) => {
                return Err(e);
            },
        };
        let settings = TwoFactorSettings::new_pending_at(*user_id, encrypted, now);
        match self.storage.create_two_factor_settings(&settings) {
            Ok(()) => {},
            Err(e) => {
                return Err(e);
            },
        }
        proof {
            assert(settings@ == pending_record(*user_id, settings.encrypted_secret@, now));
        }
        Ok(TwoFactorSetupResponse { otpauth_uri, secret_base32 })
    }

    /// `setup_two_factor_at` now, with a fresh secret from the operating
    /// system's random source (`Internal` when it fails).
    pub fn setup_two_factor(&mut self, user_id: &Id, email: &str) -> (r: Result<TwoFactorSetupResponse, ApiError>)
        requires
            old(self).wf(),
        ensures
            final(self).wf(),
            email@.contains(':') ==> r is Err,
            r is Err ==> final(self).store().state() == old(self).store().state(),
            r matches Ok(resp) ==> {
                let s0 = old(self).store().state();
                exists|secret: Seq<u8>, c: Seq<u8>, t: Timestamp|
                    #![trigger totp_uri(secret, email@), pending_record(*user_id, c, t)]
                    secret.len() == 20 && resp.otpauth_uri@ == totp_uri(secret, email@)
                        && resp.secret_base32@ == totp_secret_base32(secret) && old(self).decryption()(c, secret)
                        && final(self).store().state()
                        == with_two_factor(s0, s0.two_factor.insert(*user_id, pending_record(*user_id, c, t)))
            },
    {
        let secret = match random_totp_secret() {
            Some(b) => b,
            None => {
                return Err(ApiError::Internal);
            },
        };
        let now = clock::now();
        let r = self.setup_two_factor_at(user_id, email, secret, now);
        proof {
            if r is Ok {
                let s0 = old(self).store().state();
                let c = choose|c: Seq<u8>|
                    self.store().state() == with_two_factor(
                        s0,
                        s0.two_factor.insert(*user_id, #[trigger] pending_record(*user_id, c, now)),
                    );
                assert(totp_uri(secret@, email@) == totp_uri(secret@, email@));
            }
        }
        r
    }

    /// Finish confirming the user's pending, unexpired enrollment with its
    /// decrypted TOTP `secret`: `Internal` when the code cannot be checked
    /// (before the first step after the epoch, or a secret under 128 bits),
    /// `Unauthorized` when the secret does not accept the code, both with
    /// nothing changed; else the settings become enabled and a fresh set of
    /// backup codes is generated and handed back.
    pub fn confirm_enrollment_with_secret(
        &mut self,
        user_id: &Id,
        settings: TwoFactorSettings,
        secret: &[u8],
        code: &str,
        now: Timestamp,
    ) -> (r: Result<Vec<String>, ApiError>)
        requires
            old(self).wf(),
            old(self).store().state().two_factor.contains_key(*user_id),
            settings@ == old(self).store().state().two_factor[*user_id],
            settings.user_id == *user_id,
            settings@.state == TwoFactorState::Pending,
            !record_expired(settings@, now),
        ensures
            final(self).wf(),
            final(self).duration_days() == old(self).duration_days(),
            final(self).limiter() == old(self).limiter(),
            ({
                let s0 = old(self).store().state();
                let s1 = final(self).store().state();
                let t = totp_time(now);
                let usable = t is Some && secret@.len() >= 16;
                &&& !usable ==> r == Err::<Vec<String>, ApiError>(ApiError::Internal) && s1 == s0
                &&& usable && !totp_accepts(secret@, code@, t->0) ==> r == Err::<Vec<String>, ApiError>(
                    ApiError::Unauthorized,
                ) && s1 == s0
                &&& old(self).store().infallible() && usable && totp_accepts(secret@, code@, t->0) ==> r is Ok
                    || r == Err::<Vec<String>, ApiError>(ApiError::Internal)
                &&& r matches Ok(out) ==> usable && totp_accepts(secret@, code@, t->0) && enabled_with_codes(
                    s0,
                    s1,
                    *user_id,
                    now,
                    out@,
                )
            }),
    {
        let ghost s0 = self.storage.state();
        let valid = match check_totp_secret(secret, settings.user_id, code, now) {
            Ok(b) => b,
            Err(e) => {
                return Err(e);
            },
        };
        if !valid {
            let event = SecurityEvent::TwoFactorVerificationFailed {
                metadata: SecurityMetadata::new(None, None),
                user_id: *user_id,
            };
            let _ = self.events.record_event(event);
            return Err(ApiError::Unauthorized);
        }
        let mut updated = settings;
        updated.state = TwoFactorState::Enabled;
        updated.enabled_at = Some(now);
        updated.expires_at = None;
        match self.storage.update_two_factor_settings(&updated) {
            Ok(()) => {},
            Err(e) => {
                return Err(e);
            },
        }
        proof {
            assert(updated@ == enabled_record(s0.two_factor[*user_id], now));
        }
        let codes = match self.generate_backup_codes(user_id) {
            Ok(c) => c,
            Err(e) => {
                return Err(e);
            },
        };
        let event = SecurityEvent::TwoFactorEnabled { metadata: SecurityMetadata::new(None, None), user_id: *user_id };
        let _ = self.events.record_event(event);
        Ok(codes)
    }

    /// Confirm a pending enrollment at `now` with a first TOTP code: the
    /// settings become enabled (the time step is not consumed) and a fresh
    /// set of backup codes is generated and handed back. `Unauthorized`
    /// without settings, for an expired enrollment (which is deleted) or a
    /// wrong code; `BadRequest` when the settings are not pending.
    pub fn enable_two_factor_at(&mut self, user_id: &Id, code: &str, now: Timestamp) -> (r: Result<
        Vec<String>,
        ApiError,
    >)
        requires
            old(self).wf(),
        ensures
            final(self).wf(),
            final(self).duration_days() == old(self).duration_days(),
            final(self).limiter() == old(self).limiter(),
            ({
                let s0 = old(self).store().state();
                let s1 = final(self).store().state();
                let tf = s0.two_factor;
                let inf = old(self).store().infallible();
                &&& !tf.contains_key(*user_id) ==> s1 == s0 && r is Err && (inf ==> r == Err::<
                    Vec<String>,
                    ApiError,
                >(ApiError::Unauthorized))
                &&& tf.contains_key(*user_id) && tf[*user_id].state != TwoFactorState::Pending ==> s1 == s0
                    && r is Err && (inf ==> r == Err::<Vec<String>, ApiError>(ApiError::BadRequest))
                &&& tf.contains_key(*user_id) && record_expired(tf[*user_id], now) ==> r is Err && (inf ==> r
                    == Err::<Vec<String>, ApiError>(ApiError::Unauthorized) && s1 == with_two_factor(
                    s0,
                    tf.remove(*user_id),
                ))
                &&& inf && r == Err::<Vec<String>, ApiError>(ApiError::Unauthorized) && !(tf.contains_key(
                    *user_id,
                ) && record_expired(tf[*user_id], now)) ==> s1 == s0
                &&& r matches Ok(out) ==> enrollment_confirmed(old(self).decryption(), s0, s1, *user_id, code@, now, out@)
                &&& tf.contains_key(*user_id) && tf[*user_id].state == TwoFactorState::Pending && !record_expired(
                    tf[*user_id],
                    now,
                ) && totp_time(now) is Some && (forall|p: Seq<u8>|
                    old(self).decryption()(tf[*user_id].encrypted_secret, p) ==> !#[trigger] totp_accepts(
                        p,
                        code@,
                        totp_time(now)->0,
                    )) ==> r is Err && s1 == s0
            }),
    {
        let settings = match self.storage.get_two_factor_settings(user_id) {
            Ok(Some(t)) => t,
            Ok(None) => {
                return Err(ApiError::Unauthorized);
            },
            Err(e) => {
                return Err(e);
            },
        };
        let ghost s0 = self.storage.state();
        proof {
            self.storage.lemma_state_ok();
        }
        match settings.state {
            TwoFactorState::Pending => {},
            _ => {
                return Err(ApiError::BadRequest);
            },
        }
        if settings.is_pending_expired(now) {
            match self.storage.delete_two_factor_settings(user_id) {
                Ok(()) => {},
                Err(e) => {
                    return Err(e);
                },
            }
            return Err(ApiError::Unauthorized);
        }
        let secret = match self.secret_cipher.decrypt(settings.encrypted_secret.as_slice()) {
            Ok(p) => p,
            Err(e) => {
                return Err(e);
            },
        };
        proof {
            assert(settings.user_id == *user_id);
        }
        let r = self.confirm_enrollment_with_secret(user_id, settings, secret.as_slice(), code, now);
        proof {
            if r is Ok {
                assert(totp_accepts(secret@, code@, totp_time(now)->0));
            }
        }
        r
    }

    /// `enable_two_factor_at` now.
    pub fn enable_two_factor(&mut self, user_id: &Id, code: &str) -> (r: Result<Vec<String>, ApiError>)
        requires
            old(self).wf(),
        ensures
            final(self).wf(),
            !old(self).store().state().two_factor.contains_key(*user_id) ==> r is Err,
            ({
                let s0 = old(self).store().state();
                let tf = s0.two_factor;
                let inf = old(self).store().infallible();
                &&& !tf.contains_key(*user_id) ==> final(self).store().state() == s0
                &&& inf && !tf.contains_key(*user_id) ==> r == Err::<Vec<String>, ApiError>(ApiError::Unauthorized)
                &&& tf.contains_key(*user_id) && tf[*user_id].state != TwoFactorState::Pending ==> r is Err
                    && final(self).store().state() == s0
                &&& inf && tf.contains_key(*user_id) && tf[*user_id].state != TwoFactorState::Pending ==> r
                    == Err::<Vec<String>, ApiError>(ApiError::BadRequest)
            }),
            r matches Ok(out) ==> exists|t: Timestamp|
                #[trigger] enrollment_confirmed(
                    old(self).decryption(),
                    old(self).store().state(),
                    final(self).store().state(),
                    *user_id,
                    code@,
                    t,
                    out@,
                ),
    {
        let now = clock::now();
        let r = self.enable_two_factor_at(user_id, code, now);
        proof {
            if r is Ok {
                assert(enrollment_confirmed(
                    old(self).decryption(),
                    old(self).store().state(),
                    self.store().state(),
                    *user_id,
                    code@,
                    now,
                    r->Ok_0@,
                ));
            }
        }
        r
    }

    /// Finish turning off the user's enabled two-factor authentication
    /// with its decrypted TOTP `secret`: `Internal` when the code cannot be
    /// checked (before the first step after the epoch, or a secret under
    /// 128 bits), `Unauthorized` when the secret does not accept the code or
    /// its step is not after the last accepted one, both with nothing
    /// changed; else the settings are deleted and the user's backup codes
    /// revoked.
    pub fn disable_with_secret(
        &mut self,
        user_id: &Id,
        settings: TwoFactorSettings,
        secret: &[u8],
        code: &str,
        now: Timestamp,
    ) -> (r: Result<(), ApiError>)
        requires
            old(self).wf(),
            old(self).store().state().two_factor.contains_key(*user_id),
            settings@ == old(self).store().state().two_factor[*user_id],
            settings.user_id == *user_id,
            settings@.state == TwoFactorState::Enabled,
        ensures
            final(self).wf(),
            final(self).duration_days() == old(self).duration_days(),
            final(self).limiter() == old(self).limiter(),
            ({
                let s0 = old(self).store().state();
                let s1 = final(self).store().state();
                let tf = s0.two_factor;
                let t = totp_time(now);
                let usable = t is Some && secret@.len() >= 16;
                let accepted = usable && totp_accepts(secret@, code@, t->0) && (
                tf[*user_id].last_accepted_step matches Some(last) ==> totp_step(t->0) > last);
                &&& !usable ==> r == Err::<(), ApiError>(ApiError::Internal) && s1 == s0
                &&& usable && !accepted ==> r == Err::<(), ApiError>(ApiError::Unauthorized) && s1 == s0
                &&& old(self).store().infallible() && accepted ==> r is Ok
                &&& r is Ok ==> accepted && s1 == with_codes(
                    with_two_factor(s0, tf.remove(*user_id)),
                    revoke_codes(s0.backup_codes, *user_id, now),
                )
                &&& r is Err ==> s1 == s0 || s1 == with_two_factor(s0, tf.remove(*user_id))
            }),
    {
        let mut settings = settings;
        let valid = match verify_totp_and_mark_step(&mut settings, secret, code, now) {
            Ok(b) => b,
            Err(e) => {
                return Err(e);
            },
        };
        if !valid {
            let event = SecurityEvent::TwoFactorVerificationFailed {
                metadata: SecurityMetadata::new(None, None),
                user_id: *user_id,
            };
            let _ = self.events.record_event(event);
            return Err(ApiError::Unauthorized);
        }
        match self.storage.delete_two_factor_settings(user_id) {
            Ok(()) => {},
            Err(e) => {
                return Err(e);
            },
        }
        match self.storage.revoke_all_backup_codes(user_id, now) {
            Ok(_) => {},
            Err(e) => {
                return Err(e);
            },
        }
        let event = SecurityEvent::TwoFactorDisabled { metadata: SecurityMetadata::new(None, None), user_id: *user_id };
        let _ = self.events.record_event(event);
        Ok(())
    }

    /// Turn two-factor authentication off at `now`: the password and a
    /// current TOTP code (not a replayed step) are required; the settings
    /// are deleted and the user's backup codes revoked. `Unauthorized` for
    /// an unknown user, a wrong password, missing settings or a wrong code;
    /// `BadRequest` when two-factor authentication is not enabled.
    pub fn disable_two_factor_at(&mut self, user_id: &Id, password: &str, code: &str, now: Timestamp) -> (r:
        Result<(), ApiError>)
        requires
            old(self).wf(),
        ensures
            final(self).wf(),
            final(self).duration_days() == old(self).duration_days(),
            final(self).limiter() == old(self).limiter(),
            ({
                let s0 = old(self).store().state();
                let s1 = final(self).store().state();
                let tf = s0.two_factor;
                let inf = old(self).store().infallible();
                let user = user_with_id(s0, *user_id);
                let pw_ok = user matches Some(u) && password_matches(password@, u.password_hash@);
                &&& inf && user is None ==> r == Err::<(), ApiError>(ApiError::Unauthorized)
                &&& inf && !pw_ok ==> r == Err::<(), ApiError>(ApiError::Unauthorized)
                &&& !pw_ok ==> r is Err && s1 == s0
                &&& inf && pw_ok && !tf.contains_key(*user_id) ==> r == Err::<(), ApiError>(
                    ApiError::Unauthorized,
                )
                &&& inf && pw_ok && tf.contains_key(*user_id) && tf[*user_id].state != TwoFactorState::Enabled
                    ==> r == Err::<(), ApiError>(ApiError::BadRequest)
                &&& inf && r is Err ==> s1 == s0
                &&& r is Err ==> s1 == s0 || s1 == with_two_factor(s0, tf.remove(*user_id))
                &&& r is Ok ==> two_factor_disabled(old(self).decryption(), s0, s1, *user_id, password@, code@, now)
                &&& tf.contains_key(*user_id) && tf[*user_id].state == TwoFactorState::Enabled && totp_time(now) is Some
                    && (forall|p: Seq<u8>|
                    old(self).decryption()(tf[*user_id].encrypted_secret, p) ==> !#[trigger] totp_accepts(
                        p,
                        code@,
                        totp_time(now)->0,
                    )) ==> r is Err && s1 == s0
            }),
    {
        let user = match self.storage.get_user_by_id(user_id) {
            Ok(Some(u)) => u,
            Ok(None) => {
                return Err(ApiError::Unauthorized);
            },
            Err(e) => {
                return Err(e);
            },
        };
        let password_valid = match self.password_hasher.verify(password, user.password_hash.as_str()) {
            Ok(v) => v,
            Err(_) => {
                return Err(ApiError::Unauthorized);
            },
        };
        if !password_valid {
            return Err(ApiError::Unauthorized);
        }
        let settings = match self.storage.get_two_factor_settings(user_id) {
            Ok(Some(t)) => t,
            Ok(None) => {
                return Err(ApiError::Unauthorized);
            },
            Err(e) => {
                return Err(e);
            },
        };
        let ghost s0 = self.storage.state();
        proof {
            self.storage.lemma_state_ok();
        }
        match settings.state {
            TwoFactorState::Enabled => {},
            _ => {
                return Err(ApiError::BadRequest);
            },
        }
        let secret = match self.secret_cipher.decrypt(settings.encrypted_secret.as_slice()) {
            Ok(p) => p,
            Err(e) => {
                return Err(e);
            },
        };
        proof {
            assert(settings.user_id == *user_id);
        }
        let r = self.disable_with_secret(user_id, settings, secret.as_slice(), code, now);
        proof {
            if r is Ok {
                assert(totp_accepts(secret@, code@, totp_time(now)->0));
            }
        }
        r
    }

    /// `disable_two_factor_at` now.
    pub fn disable_two_factor(&mut self, user_id: &Id, password: &str, code: &str) -> (r: Result<(), ApiError>)
        requires
            old(self).wf(),
        ensures
            final(self).wf(),
            !(user_with_id(old(self).store().state(), *user_id) matches Some(u) && password_matches(
                password@,
                u.password_hash@,
            )) ==> r is Err && final(self).store().state() == old(self).store().state(),
            ({
                let s0 = old(self).store().state();
                let tf = s0.two_factor;
                let inf = old(self).store().infallible();
                let pw_ok = user_with_id(s0, *user_id) matches Some(u) && password_matches(
                    password@,
                    u.password_hash@,
                );
                &&& inf && !pw_ok ==> r == Err::<(), ApiError>(ApiError::Unauthorized)
                &&& inf && pw_ok && !tf.contains_key(*user_id) ==> r == Err::<(), ApiError>(ApiError::Unauthorized)
                &&& inf && pw_ok && tf.contains_key(*user_id) && tf[*user_id].state != TwoFactorState::Enabled
                    ==> r == Err::<(), ApiError>(ApiError::BadRequest)
                &&& inf && r is Err ==> final(self).store().state() == s0
            }),
            r is Ok ==> exists|t: Timestamp|
                #[trigger] two_factor_disabled(
                    old(self).decryption(),
                    old(self).store().state(),
                    final(self).store().state(),
                    *user_id,
                    password@,
                    code@,
                    t,
                ),
    {
        let now = clock::now();
        let r = self.disable_two_factor_at(user_id, password, code, now);
        proof {
            if r is Ok {
                assert(two_factor_disabled(
                    old(self).decryption(),
                    old(self).store().state(),
                    self.store().state(),
                    *user_id,
                    password@,
                    code@,
                    now,
                ));
            }
        }
        r
    }

    /// Whether two-factor authentication is on for the user, and its state
    /// by name.
    pub fn two_factor_status(&self, user_id: &Id) -> (r: Result<TwoFactorStatusResponse, ApiError>)
        requires
            self.wf(),
        ensures
            r matches Ok(resp) ==> {
                let tf = self.store().state().two_factor;
                &&& resp.enabled == (tf.contains_key(*user_id) && tf[*user_id].state == TwoFactorState::Enabled)
                &&& resp.state@ == two_factor_state_name(tf, *user_id)
            },
            self.store().infallible() ==> r is Ok,
    {
        let settings = match self.storage.get_two_factor_settings(user_id) {
            Ok(o) => o,
            Err(e) => {
                return Err(e);
            },
        };
        let mut name = String::new();
        let enabled = match settings {
            Some(t) => match t.state {
                TwoFactorState::Enabled => {
                    push_str_chars(&mut name, "enabled");
                    true
                },
                TwoFactorState::Pending => {
                    push_str_chars(&mut name, "pending");
                    false
                },
                TwoFactorState::Disabled => {
                    push_str_chars(&mut name, "disabled");
                    false
                },
            },
            None => {
                push_str_chars(&mut name, "disabled");
                false
            },
        };
        Ok(TwoFactorStatusResponse { enabled, state: name })
    }

    /// Ask the user to prove control of the e-mail address at `now`: the
    /// hash of `token` is stored as a verification token valid for a day
    /// and the token is mailed to the address. Nothing happens for an
    /// address already verified; `Unauthorized` for an unknown user.
    pub fn request_email_verification_at(&mut self, user_id: &Id, token: SessionToken, now: Timestamp) -> (r:
        Result<(), ApiError>)
        requires
            old(self).wf(),
        ensures
            final(self).wf(),
            final(self).duration_days() == old(self).duration_days(),
            final(self).limiter() == old(self).limiter(),
            ({
                let s0 = old(self).store().state();
                let s1 = final(self).store().state();
                let inf = old(self).store().infallible();
                let user = user_with_id(s0, *user_id);
                &&& user is None ==> r is Err
                &&& inf && user is None ==> r == Err::<(), ApiError>(ApiError::Unauthorized)
                &&& inf && user is Some ==> r is Ok
                &&& r is Err ==> s1 == s0
                &&& r is Ok && user->0.email_verified ==> s1 == s0
                &&& r is Ok && !user->0.email_verified ==> {
                    let h = secret_digest(token@);
                    let t = s1.verifications[h];
                    &&& s1 == with_verifications(s0, s0.verifications.insert(h, t))
                    &&& t.user_id == user->0.id
                    &&& t.token_hash@ == h
                    &&& t.created_at == now
                    &&& t.expires_at == shifted(
                        now,
                        EMAIL_VERIFICATION_TOKEN_TTL_MINUTES * crate::clock::MICROS_PER_MINUTE,
                    )
                    &&& t.used_at is None
                    &&& final(self).outbox() == old(self).outbox().push((user->0.email@, token@))
                }
                &&& !(r is Ok && !user->0.email_verified) ==> final(self).outbox() == old(self).outbox()
            }),
    {
        let user = match self.storage.get_user_by_id(user_id) {
            Ok(Some(u)) => u,
            Ok(None) => {
                return Err(ApiError::Unauthorized);
            },
            Err(e) => {
                return Err(e);
            },
        };
        if user.email_verified {
            return Ok(());
        }
        let hash = SessionTokenHash::from_token(&token);
        let model = EmailVerificationToken::new_at(
            user.id,
            hash.as_str().to_owned(),
            EMAIL_VERIFICATION_TOKEN_TTL_MINUTES,
            now,
        );
        match self.storage.create_email_verification_token(&model) {
            Ok(()) => {},
            Err(e) => {
                return Err(e);
            },
        }
        let _ = self.email_provider.send_email_verification(user.email.as_str(), token.expose());
        Ok(())
    }

    /// `request_email_verification_at` now, with a fresh token.
    pub fn request_email_verification(&mut self, user_id: &Id) -> (r: Result<(), ApiError>)
        requires
            old(self).wf(),
        ensures
            final(self).wf(),
            user_with_id(old(self).store().state(), *user_id) is None ==> r is Err,
            r is Err ==> final(self).store().state() == old(self).store().state(),
            ({
                let s0 = old(self).store().state();
                let user = user_with_id(s0, *user_id);
                &&& old(self).store().infallible() && user is None ==> r == Err::<(), ApiError>(
                    ApiError::Unauthorized,
                )
                &&& old(self).store().infallible() && user is Some ==> r is Ok
                &&& r is Ok && user->0.email_verified ==> final(self).store().state() == s0
                &&& r is Ok && !user->0.email_verified ==> exists|token: Seq<char>, now: Timestamp|
                    #[trigger] verification_issued(s0, final(self).store().state(), user->0, token, now)
            }),
    {
        let token = SessionToken::generate();
        let ghost tok = token@;
        let now = clock::now();
        let r = self.request_email_verification_at(user_id, token, now);
        proof {
            let s0 = old(self).store().state();
            let user = user_with_id(s0, *user_id);
            if r is Ok && !user->0.email_verified {
                assert(verification_issued(s0, self.store().state(), user->0, tok, now));
            }
        }
        r
    }

    /// Confirm an e-mail address at `now` with the mailed token: the token
    /// is used up and the user marked verified. `Unauthorized` for a token
    /// that is unknown, expired or used, or whose user is gone.
    pub fn verify_email_at(&mut self, token: &str, now: Timestamp) -> (r: Result<(), ApiError>)
        requires
            old(self).wf(),
        ensures
            final(self).wf(),
            final(self).duration_days() == old(self).duration_days(),
            final(self).limiter() == old(self).limiter(),
            ({
                let s0 = old(self).store().state();
                let s1 = final(self).store().state();
                let inf = old(self).store().infallible();
                let h = secret_digest(token@);
                let vs = s0.verifications;
                let valid = vs.contains_key(h) && vs[h].valid_at(now);
                &&& !valid ==> r is Err && s1 == s0
                &&& inf && !valid ==> r == Err::<(), ApiError>(ApiError::Unauthorized)
                &&& inf && valid ==> (r is Ok <==> user_with_id(s0, vs[h].user_id) is Some)
                &&& r is Ok ==> valid && email_verified_state(s0, s1, h, now)
            }),
    {
        let temp_token = SessionToken::from_secret(token.to_owned());
        let token_hash = SessionTokenHash::from_token(&temp_token);
        let verification = match self.storage.get_email_verification_token_by_hash(token_hash.as_str()) {
            Ok(Some(t)) => t,
            Ok(None) => {
                return Err(ApiError::Unauthorized);
            },
            Err(e) => {
                return Err(e);
            },
        };
        if !verification.is_valid_at(now) {
            return Err(ApiError::Unauthorized);
        }
        match self.storage.consume_email_verification_token(token_hash.as_str(), now) {
            Ok(()) => {},
            Err(e) => {
                return Err(e);
            },
        }
        let user = match self.storage.get_user_by_id(&verification.user_id) {
            Ok(Some(u)) => u,
            Ok(None) => {
                return Err(ApiError::Unauthorized);
            },
            Err(e) => {
                return Err(e);
            },
        };
        proof {
            self.storage.lemma_state_ok();
        }
        let updated = User { email_verified: true, email_verified_at: Some(now), updated_at: now, ..user };
        match self.storage.update_user(&updated) {
            Ok(()) => {},
            Err(e) => {
                return Err(e);
            },
        }
        Ok(())
    }

    /// `verify_email_at` now.
    pub fn verify_email(&mut self, token: &str) -> (r: Result<(), ApiError>)
        requires
            old(self).wf(),
        ensures
            final(self).wf(),
            ({
                let s0 = old(self).store().state();
                let h = secret_digest(token@);
                let vs = s0.verifications;
                &&& !vs.contains_key(h) ==> r is Err && final(self).store().state() == s0
                &&& vs.contains_key(h) && vs[h].used_at is Some ==> r is Err && final(self).store().state() == s0
                &&& old(self).store().infallible() && !(vs.contains_key(h) && vs[h].used_at is None) ==> r
                    == Err::<(), ApiError>(ApiError::Unauthorized)
            }),
            r is Ok ==> exists|t: Timestamp|
                #[trigger] email_verified_state(
                    old(self).store().state(),
                    final(self).store().state(),
                    secret_digest(token@),
                    t,
                ),
    {
        let now = clock::now();
        self.verify_email_at(token, now)
    }

    /// Check a second-factor code of the user at `now`: first as a TOTP
    /// code of enabled settings (its step is then recorded, so it cannot be
    /// replayed), else as one of the user's unused backup codes (which is
    /// then used up).
    pub fn verify_second_factor_at(&mut self, user_id: &Id, code: &str, now: Timestamp) -> (r: Result<
        bool,
        ApiError,
    >)
        requires
            old(self).wf(),
        ensures
            final(self).wf(),
            final(self).duration_days() == old(self).duration_days(),
            final(self).store().infallible() == old(self).store().infallible(),
            final(self).limiter() == old(self).limiter(),
            ({
                let s0 = old(self).store().state();
                let s1 = final(self).store().state();
                let tf = s0.two_factor;
                &&& r matches Ok(true) ==> totp_step_accepted(old(self).decryption(), s0, s1, *user_id, code@, now)
                    || backup_code_used(s0, s1, *user_id, code@, now)
                &&& !(r matches Ok(true)) ==> s1 == s0
                &&& old(self).store().infallible() && !(tf.contains_key(*user_id) && tf[*user_id].state
                    == TwoFactorState::Enabled) && !valid_normalized(normalize_seq(code@)) ==> r == Ok::<
                    bool,
                    ApiError,
                >(false)
                &&& old(self).store().infallible() && r == Ok::<bool, ApiError>(false) && valid_normalized(
                    normalize_seq(code@),
                ) ==> no_code_verifies(s0.backup_codes, *user_id, normalize_seq(code@))
                &&& old(self).store().infallible() && !two_factor_on(s0, *user_id) && valid_normalized(
                    normalize_seq(code@),
                ) && backup_code_owed(s0.backup_codes, *user_id, normalize_seq(code@)) ==> r == Ok::<
                    bool,
                    ApiError,
                >(true)
            }),
    {
        let stored = match self.storage.get_two_factor_settings(user_id) {
            Ok(o) => o,
            Err(e) => {
                return Err(e);
            },
        };
        proof {
            self.storage.lemma_state_ok();
        }
        let none: Vec<u8> = Vec::new();
        let r = match stored {
            Some(settings) => match settings.state {
                TwoFactorState::Enabled => {
                    let secret = match self.secret_cipher.decrypt(settings.encrypted_secret.as_slice()) {
                        Ok(p) => p,
                        Err(e) => {
                            return Err(e);
                        },
                    };
                    self.verify_second_factor_with_secret(user_id, Some(settings), secret.as_slice(), code, now)
                },
                _ => self.verify_second_factor_with_secret(user_id, None, none.as_slice(), code, now),
            },
            None => self.verify_second_factor_with_secret(user_id, None, none.as_slice(), code, now),
        };
        r
    }

    /// Check a second-factor code of the user at `now`, given the user's
    /// settings when two-factor authentication is on and their decrypted
    /// TOTP `secret`: first as a TOTP code (`Internal` when it cannot be
    /// checked; an accepted step is recorded, so it cannot be replayed),
    /// else as one of the user's unused backup codes (which is then used
    /// up).
    pub fn verify_second_factor_with_secret(
        &mut self,
        user_id: &Id,
        settings: Option<TwoFactorSettings>,
        secret: &[u8],
        code: &str,
        now: Timestamp,
    ) -> (r: Result<bool, ApiError>)
        requires
            old(self).wf(),
            settings is Some <==> two_factor_on(old(self).store().state(), *user_id),
            settings matches Some(st) ==> st@ == old(self).store().state().two_factor[*user_id] && st.user_id
                == *user_id,
        ensures
            final(self).wf(),
            final(self).duration_days() == old(self).duration_days(),
            final(self).store().infallible() == old(self).store().infallible(),
            final(self).limiter() == old(self).limiter(),
            ({
                let s0 = old(self).store().state();
                let s1 = final(self).store().state();
                let tf = s0.two_factor;
                let t = totp_time(now);
                let on = two_factor_on(s0, *user_id);
                let usable = t is Some && secret@.len() >= 16;
                let passes = totp_passes(s0, *user_id, secret@, code@, now);
                let n = normalize_seq(code@);
                let inf = old(self).store().infallible();
                &&& on && !usable ==> r == Err::<bool, ApiError>(ApiError::Internal) && s1 == s0
                &&& passes ==> !(r matches Ok(false)) && (inf ==> r == Ok::<bool, ApiError>(true))
                &&& r == Ok::<bool, ApiError>(true) && passes ==> s1 == with_two_factor(
                    s0,
                    tf.insert(
                        *user_id,
                        TwoFactorRecord { last_accepted_step: Some(totp_step(t->0)), ..tf[*user_id] },
                    ),
                )
                &&& r == Ok::<bool, ApiError>(true) && !passes ==> backup_code_used(s0, s1, *user_id, code@, now)
                &&& !(r matches Ok(true)) ==> s1 == s0
                &&& (on ==> usable && !passes) && !valid_normalized(n) ==> r == Ok::<bool, ApiError>(false)
                &&& inf && second_factor_rejected(s0, *user_id, secret@, code@, now) ==> r == Ok::<bool, ApiError>(
                    false,
                )
                &&& inf && r == Ok::<bool, ApiError>(false) && valid_normalized(n) ==> no_code_verifies(
                    s0.backup_codes,
                    *user_id,
                    n,
                )
                &&& inf && (on ==> usable && !passes) && valid_normalized(n) && backup_code_owed(
                    s0.backup_codes,
                    *user_id,
                    n,
                ) ==> r == Ok::<bool, ApiError>(true)
            }),
    {
        let ghost s0 = self.storage.state();
        let totp_valid = match settings {
            Some(mut st) => {
                let valid = match verify_totp_and_mark_step(&mut st, secret, code, now) {
                    Ok(b) => b,
                    Err(e) => {
                        return Err(e);
                    },
                };
                if valid {
                    match self.storage.update_two_factor_settings(&st) {
                        Ok(()) => {},
                        Err(e) => {
                            return Err(e);
                        },
                    }
                }
                valid
            },
            None => false,
        };
        if totp_valid {
            return Ok(true);
        }
        self.verify_backup_code_at(user_id, code, now)
    }

    /// The second step of a login with two-factor authentication, at
    /// `now`: the pre-auth token must be stored, unexpired and unconsumed
    /// and its user active; with two-factor authentication on, the stored
    /// secret is decrypted; then `complete_two_factor_with_secret` decides:
    /// the code must pass as a TOTP code or a backup code, and only then is
    /// the pre-auth token consumed and session `session_id` opened under
    /// `token`. `Unauthorized` otherwise.
    pub fn verify_two_factor_at(
        &mut self,
        pre_auth_token: &str,
        code: &str,
        now: Timestamp,
        session_id: Id,
        token: SessionToken,
    ) -> (r: Result<(User, SessionToken), ApiError>)
        requires
            old(self).wf(),
        ensures
            final(self).wf(),
            final(self).duration_days() == old(self).duration_days(),
            final(self).limiter() == old(self).limiter(),
            ({
                let s0 = old(self).store().state();
                let s1 = final(self).store().state();
                let inf = old(self).store().infallible();
                let h = secret_digest(pre_auth_token@);
                let pa = s0.pre_auth[h];
                let pending = s0.pre_auth.contains_key(h) && pa.valid_at(now);
                let active = user_with_id(s0, pa.user_id) matches Some(u) && u.status is Active;
                let n = normalize_seq(code@);
                &&& !pending ==> r is Err && s1 == s0
                &&& inf && !pending ==> r == Err::<(User, SessionToken), ApiError>(ApiError::Unauthorized)
                &&& pending && !active ==> r is Err && s1 == s0
                &&& inf && pending && !active ==> r == Err::<(User, SessionToken), ApiError>(ApiError::Unauthorized)
                &&& inf && r == Err::<(User, SessionToken), ApiError>(ApiError::Unauthorized) ==> s1 == s0
                &&& r matches Ok((u, t)) ==> t@ == token@ && two_factor_login(
                    old(self).decryption(),
                    s0,
                    s1,
                    h,
                    code@,
                    now,
                    u,
                    token@,
                    session_id,
                    old(self).duration_days(),
                )
                &&& inf && pending && active && !two_factor_on(s0, pa.user_id) && valid_normalized(n)
                    && backup_code_owed(s0.backup_codes, pa.user_id, n) && !s0.sessions.contains_key(
                    secret_digest(token@),
                ) ==> r is Ok
                &&& inf && pending && active && !two_factor_on(s0, pa.user_id) && (valid_normalized(n)
                    ==> no_code_verifies(s0.backup_codes, pa.user_id, n)) ==> r == Err::<
                    (User, SessionToken),
                    ApiError,
                >(ApiError::Unauthorized) && s1 == s0
                &&& inf && pending && active && two_factor_on(s0, pa.user_id) && totp_time(now) is Some && (
                forall|p: Seq<u8>|
                    old(self).decryption()(s0.two_factor[pa.user_id].encrypted_secret, p) ==> p.len() >= 16
                        && !#[trigger] totp_passes(s0, pa.user_id, p, code@, now)) && (valid_normalized(n)
                    ==> no_code_verifies(s0.backup_codes, pa.user_id, n)) ==> r is Err && s1 == s0
            }),
    {
        let temp_token = SessionToken::from_secret(pre_auth_token.to_owned());
        let token_hash = SessionTokenHash::from_token(&temp_token);
        let pre_auth = match self.storage.get_pre_auth_token_by_hash(token_hash.as_str()) {
            Ok(Some(t)) => t,
            Ok(None) => {
                return Err(ApiError::Unauthorized);
            },
            Err(e) => {
                return Err(e);
            },
        };
        if !pre_auth.is_valid_at(now) {
            return Err(ApiError::Unauthorized);
        }
        let user_id = pre_auth.user_id;
        let user = match self.storage.get_user_by_id(&user_id) {
            Ok(Some(u)) => u,
            Ok(None) => {
                return Err(ApiError::Unauthorized);
            },
            Err(e) => {
                return Err(e);
            },
        };
        if !user.status.can_authenticate() {
            return Err(ApiError::Unauthorized);
        }
        let stored = match self.storage.get_two_factor_settings(&user_id) {
            Ok(o) => o,
            Err(e) => {
                return Err(e);
            },
        };
        proof {
            self.storage.lemma_state_ok();
        }
        let none: Vec<u8> = Vec::new();
        match stored {
            Some(settings) => match settings.state {
                TwoFactorState::Enabled => {
                    let secret = match self.secret_cipher.decrypt(settings.encrypted_secret.as_slice()) {
                        Ok(p) => p,
                        Err(e) => {
                            return Err(e);
                        },
                    };
                    self.complete_two_factor_with_secret(
                        pre_auth_token,
                        user_id,
                        user,
                        Some(settings),
                        secret.as_slice(),
                        code,
                        now,
                        session_id,
                        token,
                    )
                },
                _ => self.complete_two_factor_with_secret(
                    pre_auth_token,
                    user_id,
                    user,
                    None,
                    none.as_slice(),
                    code,
                    now,
                    session_id,
                    token,
                ),
            },
            None => self.complete_two_factor_with_secret(
                pre_auth_token,
                user_id,
                user,
                None,
                none.as_slice(),
                code,
                now,
                session_id,
                token,
            ),
        }
    }

    /// The rest of the second login step once the pre-auth token under
    /// `pre_auth_token` was found pending and its user `user` (with id
    /// `user_id`) active, given the user's settings when two-factor
    /// authentication is on and their decrypted TOTP `secret`: the code must
    /// pass as a TOTP code or a backup code (see
    /// `verify_second_factor_with_secret`), else `Unauthorized` with nothing
    /// changed; then the pre-auth token is consumed and session `session_id`
    /// opened under `token`.
    pub fn complete_two_factor_with_secret(
        &mut self,
        pre_auth_token: &str,
        user_id: Id,
        user: User,
        settings: Option<TwoFactorSettings>,
        secret: &[u8],
        code: &str,
        now: Timestamp,
        session_id: Id,
        token: SessionToken,
    ) -> (r: Result<(User, SessionToken), ApiError>)
        requires
            old(self).wf(),
            ({
                let s0 = old(self).store().state();
                let h = secret_digest(pre_auth_token@);
                let pa = s0.pre_auth[h];
                &&& s0.pre_auth.contains_key(h)
                &&& pa.valid_at(now)
                &&& user_id == pa.user_id
                &&& user_with_id(s0, user_id) == Some(user)
                &&& user.status is Active
                &&& settings is Some <==> two_factor_on(s0, user_id)
                &&& settings matches Some(st) ==> st@ == s0.two_factor[user_id] && st.user_id == user_id
                    && old(self).decryption()(st@.encrypted_secret, secret@)
            }),
        ensures
            final(self).wf(),
            final(self).duration_days() == old(self).duration_days(),
            final(self).limiter() == old(self).limiter(),
            ({
                let s0 = old(self).store().state();
                let s1 = final(self).store().state();
                let inf = old(self).store().infallible();
                let h = secret_digest(pre_auth_token@);
                let n = normalize_seq(code@);
                let on = two_factor_on(s0, user_id);
                let usable = totp_time(now) is Some && secret@.len() >= 16;
                let passes = totp_passes(s0, user_id, secret@, code@, now);
                &&& on && !usable ==> r == Err::<(User, SessionToken), ApiError>(ApiError::Internal) && s1 == s0
                &&& inf && second_factor_rejected(s0, user_id, secret@, code@, now) ==> r == Err::<
                    (User, SessionToken),
                    ApiError,
                >(ApiError::Unauthorized) && s1 == s0
                &&& inf && r == Err::<(User, SessionToken), ApiError>(ApiError::Unauthorized) ==> s1 == s0
                &&& r matches Ok((u, t)) ==> t@ == token@ && two_factor_login(
                    old(self).decryption(),
                    s0,
                    s1,
                    h,
                    code@,
                    now,
                    u,
                    token@,
                    session_id,
                    old(self).duration_days(),
                )
                &&& inf && (passes || ((on ==> usable) && valid_normalized(n) && backup_code_owed(
                    s0.backup_codes,
                    user_id,
                    n,
                ))) && !s0.sessions.contains_key(secret_digest(token@)) ==> r is Ok
            }),
    {
        let ghost s0 = self.storage.state();
        let passed = match self.verify_second_factor_with_secret(&user_id, settings, secret, code, now) {
            Ok(b) => b,
            Err(e) => {
                return Err(e);
            },
        };
        if !passed {
            let event = SecurityEvent::TwoFactorVerificationFailed {
                metadata: SecurityMetadata::new(None, None),
                user_id,
            };
            let _ = self.events.record_event(event);
            return Err(ApiError::Unauthorized);
        }
        let ghost mid = self.storage.state();
        let temp_token = SessionToken::from_secret(pre_auth_token.to_owned());
        let token_hash = SessionTokenHash::from_token(&temp_token);
        match self.storage.consume_pre_auth_token(token_hash.as_str(), now) {
            Ok(()) => {},
            Err(e) => {
                return Err(e);
            },
        }
        proof {
            if totp_passes(s0, user_id, secret@, code@, now) {
                assert(totp_accepts(secret@, code@, totp_time(now)->0));
                assert(totp_step_accepted(old(self).decryption(), s0, mid, user_id, code@, now));
            }
            assert(second_factor_passed(old(self).decryption(), s0, mid, user_id, code@, now));
        }
        self.create_session_for_user_at(user, now, session_id, token)
    }

    /// `verify_two_factor_at` now, with a fresh session id and token.
    pub fn verify_two_factor(&mut self, pre_auth_token: &str, code: &str) -> (r: Result<(User, SessionToken), ApiError>)
        requires
            old(self).wf(),
        ensures
            final(self).wf(),
            final(self).duration_days() == old(self).duration_days(),
            ({
                let s0 = old(self).store().state();
                let h = secret_digest(pre_auth_token@);
                &&& !s0.pre_auth.contains_key(h) ==> r is Err && final(self).store().state() == s0
                &&& old(self).store().infallible() && !s0.pre_auth.contains_key(h) ==> r == Err::<
                    (User, SessionToken),
                    ApiError,
                >(ApiError::Unauthorized)
                &&& r matches Ok((u, t)) ==> exists|now: Timestamp, session_id: Id|
                    #[trigger] two_factor_login(
                        old(self).decryption(),
                        s0,
                        final(self).store().state(),
                        h,
                        code@,
                        now,
                        u,
                        t@,
                        session_id,
                        old(self).duration_days(),
                    )
            }),
    {
        let now = clock::now();
        let session_id = clock::new_id();
        let token = SessionToken::generate();
        let r = self.verify_two_factor_at(pre_auth_token, code, now, session_id, token);
        proof {
            match &r {
                Ok((u, t)) => {
                    assert(two_factor_login(
                        old(self).decryption(),
                        old(self).store().state(),
                        self.store().state(),
                        secret_digest(pre_auth_token@),
                        code@,
                        now,
                        *u,
                        t@,
                        session_id,
                        old(self).duration_days(),
                    ));
                },
                Err(_) => {},
            }
        }
        r
    }

    /// The security posture of the account at `now`: whether the e-mail is
    /// verified and two-factor authentication is on, the active backup codes and sessions, the
    /// latest password change and the newest events, with the score over
    /// them. `Unauthorized` for an unknown user.
    pub fn get_security_center_at(&self, user_id: &Id, now: Timestamp) -> (r: Result<SecurityCenterResponse, ApiError>)
        requires
            self.wf(),
        ensures
            ({
                let s = self.store().state();
                let inf = self.store().infallible() && self.log_infallible();
                &&& inf ==> (r is Ok <==> user_with_id(s, *user_id) is Some)
                &&& inf && user_with_id(s, *user_id) is None ==> r == Err::<SecurityCenterResponse, ApiError>(
                    ApiError::Unauthorized,
                )
                &&& r matches Ok(resp) ==> security_center_of(
                    resp,
                    s,
                    self.event_log(),
                    *user_id,
                    now,
                )
            }),
    {
        let user = match self.storage.get_user_by_id(user_id) {
            Ok(Some(u)) => u,
            Ok(None) => {
                return Err(ApiError::Unauthorized);
            },
            Err(e) => {
                return Err(e);
            },
        };
        let two_factor_enabled = match self.storage.get_two_factor_settings(user_id) {
            Ok(Some(t)) => match t.state {
                TwoFactorState::Enabled => true,
                _ => false,
            },
            Ok(None) => false,
            Err(e) => {
                return Err(e);
            },
        };
        let codes = match self.storage.list_backup_codes(user_id) {
            Ok(v) => v,
            Err(e) => {
                return Err(e);
            },
        };
        let mut remaining: usize = 0;
        let mut i: usize = 0;
        while i < codes.len()
            invariant
                i <= codes@.len(),
                remaining <= i,
                remaining == count_active(codes@.take(i as int)),
            decreases codes@.len() - i,
        {
            proof {
                assert(codes@.take(i + 1).drop_last() =~= codes@.take(i as int));
            }
            if codes[i].is_active() {
                remaining = remaining + 1;
            }
            i = i + 1;
        }
        proof {
            assert(codes@.take(codes@.len() as int) =~= codes@);
        }
        let sessions = match self.storage.get_active_sessions_for_user(user_id, now) {
            Ok(v) => v,
            Err(e) => {
                return Err(e);
            },
        };
        let password_changed_at = match self.events.get_latest_event_for_user(
            *user_id,
            SecurityEventKind::PasswordChanged,
        ) {
            Ok(Some(e)) => Some(e.timestamp()),
            Ok(None) => None,
            Err(e) => {
                return Err(e);
            },
        };
        let recent = match self.events.get_events_for_user(*user_id, SECURITY_CENTER_EVENT_LIMIT) {
            Ok(v) => v,
            Err(e) => {
                return Err(e);
            },
        };
        let resp = build_security_center(
            user.email_verified,
            two_factor_enabled,
            remaining,
            sessions.len(),
            password_changed_at,
            &recent,
            now,
        );
        proof {
            assert(lists_codes(codes@, self.store().state().backup_codes, *user_id));
            assert(lists_active(sessions@, self.store().state().sessions, *user_id, now));
        }
        Ok(resp)
    }

    /// `get_security_center_at` now.
    pub fn get_security_center(&self, user_id: &Id) -> (r: Result<SecurityCenterResponse, ApiError>)
        requires
            self.wf(),
        ensures
            self.store().infallible() && self.log_infallible() ==> (r is Ok <==> user_with_id(
                self.store().state(),
                *user_id,
            ) is Some),
            r matches Ok(resp) ==> exists|t: Timestamp|
                #[trigger] security_center_of(resp, self.store().state(), self.event_log(), *user_id, t),
    {
        let now = clock::now();
        self.get_security_center_at(user_id, now)
    }
}

/// The row shown for a listed session.
pub open spec fn session_row(s: Session, current: Option<Id>) -> ActiveSessionResponse {
    ActiveSessionResponse {
        id: s.id,
        created_at: s.created_at,
        expires_at: s.expires_at,
        last_seen_at: s.last_seen_at,
        ip_address: s.ip_address,
        user_agent: s.user_agent,
        current: current == Some(s.id),
    }
}

/// Settings of an enrollment started at `now`: pending, holding the
/// ciphertext `c`, expiring ten minutes later.
pub open spec fn pending_record(user_id: Id, c: Seq<u8>, now: Timestamp) -> TwoFactorRecord {
    TwoFactorRecord {
        user_id,
        encrypted_secret: c,
        state: TwoFactorState::Pending,
        created_at: now,
        expires_at: Some(shifted(now, PENDING_TTL_SECONDS * MICROS_PER_SECOND)),
        enabled_at: None,
        last_accepted_step: None,
    }
}

/// Settings after enrollment was confirmed at `now`.
pub open spec fn enabled_record(t: TwoFactorRecord, now: Timestamp) -> TwoFactorRecord {
    TwoFactorRecord { state: TwoFactorState::Enabled, enabled_at: Some(now), expires_at: None, ..t }
}

/// A pending enrollment whose confirmation window has closed at `now`.
pub open spec fn record_expired(t: TwoFactorRecord, now: Timestamp) -> bool {
    t.state == TwoFactorState::Pending && (t.expires_at matches Some(e) && now >= e)
}

/// The name of the user's two-factor state: `enabled`, `pending`, or
/// `disabled` (also when nothing is stored).
pub open spec fn two_factor_state_name(tf: Map<Id, TwoFactorRecord>, user_id: Id) -> Seq<char> {
    if tf.contains_key(user_id) && tf[user_id].state == TwoFactorState::Enabled {
        "enabled"@
    } else if tf.contains_key(user_id) && tf[user_id].state == TwoFactorState::Pending {
        "pending"@
    } else {
        "disabled"@
    }
}

/// `s1` is `s0` after a confirmed enrollment at `now` with `code`: the
/// user's pending, unexpired settings were enabled, a secret of at least
/// 128 bits accepted the code, and the backup codes `out` replaced the
/// user's active ones.
pub open spec fn enrollment_confirmed(
    dec: spec_fn(Seq<u8>, Seq<u8>) -> bool,
    s0: AuthState,
    s1: AuthState,
    user_id: Id,
    code: Seq<char>,
    now: Timestamp,
    out: Seq<String>,
) -> bool {
    let tf = s0.two_factor;
    &&& tf.contains_key(user_id)
    &&& tf[user_id].state == TwoFactorState::Pending
    &&& !record_expired(tf[user_id], now)
    &&& totp_time(now) is Some
    &&& exists|p: Seq<u8>|
        dec(tf[user_id].encrypted_secret, p) && p.len() >= 16 && #[trigger] totp_accepts(p, code, totp_time(now)->0)
    &&& enabled_with_codes(s0, s1, user_id, now, out)
}

/// `s1` is `s0` with the user's settings enabled at `now` and the backup
/// codes `out` stored in place of the user's active ones.
pub open spec fn enabled_with_codes(s0: AuthState, s1: AuthState, user_id: Id, now: Timestamp, out: Seq<String>) -> bool {
    let tf = s0.two_factor;
    let mid = with_two_factor(s0, tf.insert(user_id, enabled_record(tf[user_id], now)));
    &&& out.len() == BACKUP_CODES_PER_SET
    &&& forall|i: int| 0 <= i < out.len() ==> well_formed_code(#[trigger] out[i]@)
    &&& exists|ids: Seq<Id>, set_id: Id, t: Timestamp|
        #[trigger] codes_stored(mid, s1, user_id, texts_of(out), ids, set_id, t)
}

/// `s1` is `s0` after two-factor authentication was turned off at `now`:
/// the password matched, the settings were enabled, a secret of at least
/// 128 bits accepted the code at a step after the last accepted one, the
/// settings were deleted and the user's active backup codes revoked.
pub open spec fn two_factor_disabled(
    dec: spec_fn(Seq<u8>, Seq<u8>) -> bool,
    s0: AuthState,
    s1: AuthState,
    user_id: Id,
    password: Seq<char>,
    code: Seq<char>,
    now: Timestamp,
) -> bool {
    let tf = s0.two_factor;
    &&& user_with_id(s0, user_id) matches Some(u) && password_matches(password, u.password_hash@)
    &&& tf.contains_key(user_id)
    &&& tf[user_id].state == TwoFactorState::Enabled
    &&& totp_time(now) is Some
    &&& exists|p: Seq<u8>|
        dec(tf[user_id].encrypted_secret, p) && p.len() >= 16 && #[trigger] totp_accepts(p, code, totp_time(now)->0)
    &&& tf[user_id].last_accepted_step matches Some(last) ==> totp_step(totp_time(now)->0) > last
    &&& s1 == with_codes(
        with_two_factor(s0, tf.remove(user_id)),
        revoke_codes(s0.backup_codes, user_id, now),
    )
}

/// `s1` is `s0` after a TOTP code of the user's enabled settings was
/// accepted at `now`: a secret of at least 128 bits accepted it, at a step
/// after the last accepted one, and that step is now recorded.
pub open spec fn totp_step_accepted(dec: spec_fn(Seq<u8>, Seq<u8>) -> bool, s0: AuthState, s1: AuthState, user_id: Id, code: Seq<char>, now: Timestamp) -> bool {
    let tf = s0.two_factor;
    let step = totp_step(totp_time(now)->0);
    &&& tf.contains_key(user_id)
    &&& tf[user_id].state == TwoFactorState::Enabled
    &&& totp_time(now) is Some
    &&& exists|p: Seq<u8>|
        dec(tf[user_id].encrypted_secret, p) && p.len() >= 16 && #[trigger] totp_accepts(p, code, totp_time(now)->0)
    &&& tf[user_id].last_accepted_step matches Some(last) ==> step > last
    &&& s1 == with_two_factor(
        s0,
        tf.insert(user_id, TwoFactorRecord { last_accepted_step: Some(step), ..tf[user_id] }),
    )
}

/// `s1` is `s0` after one of the user's active backup codes verified the
/// normalized `code` and was used up at `now`.
pub open spec fn backup_code_used(s0: AuthState, s1: AuthState, user_id: Id, code: Seq<char>, now: Timestamp) -> bool {
    let codes = s0.backup_codes;
    exists|k: Id|
        #[trigger] active_code_of(codes, user_id)(k) && code_verifies(normalize_seq(code), codes[k]) && s1
            == with_codes(s0, codes.insert(k, used_code(codes[k], now)))
}

/// `resp` is the security center of the user over state `s` and event log
/// `log` at `now`.
pub open spec fn security_center_of(
    resp: SecurityCenterResponse,
    s: AuthState,
    log: Seq<SecurityEventRecord>,
    user_id: Id,
    now: Timestamp,
) -> bool {
    let tf = s.two_factor;
    let latest = newest_selected(log, EventFilter::UserKind(user_id, SecurityEventKind::PasswordChanged), 1);
    let recent = newest_selected(log, EventFilter::User(user_id), SECURITY_CENTER_EVENT_LIMIT as nat);
    let changed_at = if latest.len() == 0 {
        None
    } else {
        Some(event_metadata(latest[0]).timestamp)
    };
    &&& user_with_id(s, user_id) is Some
    &&& resp.email_verified == user_with_id(s, user_id)->0.email_verified
    &&& resp.two_factor_enabled == (tf.contains_key(user_id) && tf[user_id].state == TwoFactorState::Enabled)
    &&& exists|codes: Seq<BackupCode>|
        #[trigger] lists_codes(codes, s.backup_codes, user_id) && resp.backup_codes_remaining == count_active(codes)
    &&& exists|v: Seq<Session>| #[trigger] lists_active(v, s.sessions, user_id, now) && resp.active_sessions == v.len()
    &&& resp.password_changed_at == changed_at
    &&& resp.security_score == security_score(
        SecurityScoreInput {
            email_verified: resp.email_verified,
            two_factor_enabled: resp.two_factor_enabled,
            has_backup_codes: resp.backup_codes_remaining > 0,
            password_changed_recently: changed_recently(changed_at, now),
        },
    )
    &&& resp.recent_events@.len() == recent.len()
    &&& forall|i: int| 0 <= i < recent.len() ==> summarizes(#[trigger] resp.recent_events@[i], recent[i])
}

/// `s1` is `s0` after the verification token filed under `h` was used at
/// `now` and its user marked verified then.
pub open spec fn email_verified_state(s0: AuthState, s1: AuthState, h: Seq<char>, now: Timestamp) -> bool {
    let vs = s0.verifications;
    let t = vs[h];
    let u = user_with_id(s0, t.user_id)->0;
    &&& vs.contains_key(h)
    &&& user_with_id(s0, t.user_id) is Some
    &&& s1 == AuthState {
        users: s0.users.insert(
            u.email@,
            User { email_verified: true, email_verified_at: Some(now), updated_at: now, ..u },
        ),
        verifications: vs.insert(h, verification_consumed(t, now)),
        ..s0
    }
}

/// The user's second factor passed at `now`: a TOTP code of enabled
/// settings was accepted, or an active backup code was used up.
pub open spec fn second_factor_passed(dec: spec_fn(Seq<u8>, Seq<u8>) -> bool, s0: AuthState, s1: AuthState, user_id: Id, code: Seq<char>, now: Timestamp) -> bool {
    totp_step_accepted(dec, s0, s1, user_id, code, now) || backup_code_used(s0, s1, user_id, code, now)
}

/// The second login step at `now` with the pre-auth token under `h`: the
/// token was pending, its user `u` active, the second factor passed, the
/// token was consumed and session `session_id` of `u` opened under
/// `token`.
pub open spec fn two_factor_login(
    dec: spec_fn(Seq<u8>, Seq<u8>) -> bool,
    s0: AuthState,
    s1: AuthState,
    h: Seq<char>,
    code: Seq<char>,
    now: Timestamp,
    u: User,
    token: Seq<char>,
    session_id: Id,
    days: i64,
) -> bool {
    let pa = s0.pre_auth[h];
    let h2 = secret_digest(token);
    &&& s0.pre_auth.contains_key(h)
    &&& pa.valid_at(now)
    &&& user_with_id(s0, pa.user_id) == Some(u)
    &&& u.status is Active
    &&& exists|mid: AuthState|
        #[trigger] second_factor_passed(dec, s0, mid, pa.user_id, code, now) && session_added(
            with_pre_auth(mid, mid.pre_auth.insert(h, pre_auth_consumed(pa, now))),
            s1,
            h2,
        )
    &&& fresh_session(s1.sessions[h2], session_id, u.id, h2, session_expiry(now, days), now)
}

/// A TOTP code passes for the user at `now` with the decrypted `secret`:
/// two-factor authentication is on, the code can be checked and `secret`
/// accepts it, at a step after the last accepted one.
pub open spec fn totp_passes(s: AuthState, user_id: Id, secret: Seq<u8>, code: Seq<char>, now: Timestamp) -> bool {
    let t = totp_time(now);
    &&& two_factor_on(s, user_id)
    &&& t is Some
    &&& secret.len() >= 16
    &&& totp_accepts(secret, code, t->0)
    &&& s.two_factor[user_id].last_accepted_step matches Some(last) ==> totp_step(t->0) > last
}

/// The user's second factor is rejected at `now`, given the decrypted TOTP
/// `secret`: when two-factor authentication is on, the code can be checked
/// but does not pass as a TOTP code; and a well-formed backup code matches
/// none of the user's active codes.
pub open spec fn second_factor_rejected(
    s: AuthState,
    user_id: Id,
    secret: Seq<u8>,
    code: Seq<char>,
    now: Timestamp,
) -> bool {
    let n = normalize_seq(code);
    &&& two_factor_on(s, user_id) ==> totp_time(now) is Some && secret.len() >= 16 && !totp_passes(
        s,
        user_id,
        secret,
        code,
        now,
    )
    &&& valid_normalized(n) ==> no_code_verifies(s.backup_codes, user_id, n)
}

/// Two-factor authentication is on for the user.
pub open spec fn two_factor_on(s: AuthState, user_id: Id) -> bool {
    s.two_factor.contains_key(user_id) && s.two_factor[user_id].state == TwoFactorState::Enabled
}

/// The password check gives "no match" without an error: the password is
/// one the hasher refuses, or verification answers that it does not match.
pub open spec fn password_rejected(password: Seq<char>, phc: Seq<char>) -> bool {
    hash_input_check(password) is Err || argon2_verify_outcome(encode_utf8(password), phc) == Ok::<
        bool,
        PasswordError,
    >(false)
}

/// A login for e-mail `n` that is refused: no such account, an inactive
/// account, or a password that does not match.
pub open spec fn login_refused(s: AuthState, n: Seq<char>, password: Seq<char>) -> bool {
    !s.users.contains_key(n) || !(s.users[n].status is Active) || !password_matches(
        password,
        s.users[n].password_hash@,
    )
}

/// A refused login that counts as a failure: no such account, an inactive
/// account, or a password the check rejects (a hash that cannot be read
/// refuses the login without counting it).
pub open spec fn login_failure_counted(s: AuthState, n: Seq<char>, password: Seq<char>) -> bool {
    !s.users.contains_key(n) || !(s.users[n].status is Active) || password_rejected(
        password,
        s.users[n].password_hash@,
    )
}

/// The limiter after a failed login at `now`: both checks were made, then
/// a failure was counted for the IP and for the e-mail.
pub open spec fn failed_login_limiter(
    l0: InMemoryRateLimiter,
    l1: InMemoryRateLimiter,
    ip: Seq<char>,
    n: Seq<char>,
    now: Timestamp,
) -> bool {
    let t = limiter_time(now);
    let ips = check_map(l0.login_ip_buckets(), ip, l0.config().login_ip_limit, l0.config().login_window, t).0;
    let emails = check_map(l0.login_email_buckets(), n, l0.config().login_email_limit, l0.config().login_window, t).0;
    &&& l1.login_ip_buckets() == attempt_map(ips, ip, t)
    &&& l1.login_email_buckets() == attempt_map(emails, n, t)
}

/// A login at `now` that passed its first factor on an account with
/// two-factor authentication: the pre-auth token (the hash of `token`) was
/// stored for the user, valid for `PRE_AUTH_TOKEN_TTL_SECONDS`, and no
/// session was opened.
pub open spec fn challenge_issued(
    s0: AuthState,
    s1: AuthState,
    l0: InMemoryRateLimiter,
    l1: InMemoryRateLimiter,
    email: Seq<char>,
    password: Seq<char>,
    ip: Seq<char>,
    token: Seq<char>,
    now: Timestamp,
) -> bool {
    let n = normalized_email(email);
    let u = s0.users[n];
    let h = secret_digest(token);
    let t = s1.pre_auth[h];
    &&& login_permitted(l0, ip, n, now)
    &&& s0.users.contains_key(n)
    &&& u.status is Active
    &&& password_matches(password, u.password_hash@)
    &&& two_factor_on(s0, u.id)
    &&& s1 == with_pre_auth(s0, s0.pre_auth.insert(h, t))
    &&& t.user_id == u.id
    &&& t.token_hash@ == h
    &&& t.created_at == now
    &&& t.expires_at == shifted(now, PRE_AUTH_TOKEN_TTL_SECONDS * MICROS_PER_SECOND)
    &&& t.consumed_at is None
    &&& !l1.login_ip_buckets().contains_key(ip)
    &&& !l1.login_email_buckets().contains_key(n)
}

/// A login at `now` that opened session `session_id` under `token`: the
/// limits let it through, the account is active and the password matched,
/// the session was added and the failure counts of the IP and e-mail were
/// cleared.
pub open spec fn logged_in(
    s0: AuthState,
    s1: AuthState,
    l0: InMemoryRateLimiter,
    l1: InMemoryRateLimiter,
    days: i64,
    email: Seq<char>,
    password: Seq<char>,
    ip: Seq<char>,
    u: User,
    token: Seq<char>,
    now: Timestamp,
    session_id: Id,
) -> bool {
    let n = normalized_email(email);
    let h = secret_digest(token);
    &&& login_permitted(l0, ip, n, now)
    &&& s0.users.contains_key(n)
    &&& u == s0.users[n]
    &&& u.status is Active
    &&& password_matches(password, u.password_hash@)
    &&& session_added(s0, s1, h)
    &&& fresh_session(s1.sessions[h], session_id, u.id, h, session_expiry(now, days), now)
    &&& !l1.login_ip_buckets().contains_key(ip)
    &&& !l1.login_email_buckets().contains_key(n)
}

/// A rotation at `now` of the session under `h`: it was valid, it was
/// revoked, and session `session_id` of the same user was added under
/// `token`.
pub open spec fn session_rotated(
    s0: AuthState,
    s1: AuthState,
    days: i64,
    h: Seq<char>,
    token: Seq<char>,
    now: Timestamp,
    session_id: Id,
) -> bool {
    let mid = with_sessions(s0, s0.sessions.insert(h, revoked(s0.sessions[h], now)));
    let h2 = secret_digest(token);
    &&& s0.sessions.contains_key(h)
    &&& s0.sessions[h].valid_at(now)
    &&& session_added(mid, s1, h2)
    &&& user_with_id(s0, s0.sessions[h].user_id) is Some
    &&& fresh_session(
        s1.sessions[h2],
        session_id,
        user_with_id(s0, s0.sessions[h].user_id)->0.id,
        h2,
        session_expiry(now, days),
        now,
    )
}

/// A password change at `now`: the current password matched, the new one
/// verifies against the stored hash, every session of the user was revoked
/// and session `session_id` was opened under `token`.
pub open spec fn password_changed(
    s0: AuthState,
    s1: AuthState,
    days: i64,
    user_id: Id,
    current: Seq<char>,
    new: Seq<char>,
    token: Seq<char>,
    now: Timestamp,
    session_id: Id,
) -> bool {
    let u = user_with_id(s0, user_id)->0;
    let e = u.email@;
    let nu = s1.users[e];
    let h = secret_digest(token);
    &&& user_with_id(s0, user_id) is Some
    &&& password_matches(current, u.password_hash@)
    &&& password_matches(new, nu.password_hash@)
    &&& nu == User { password_hash: nu.password_hash, updated_at: now, ..u }
    &&& s1 == with_sessions(
        with_users(s0, s0.users.insert(e, nu), s0.ids),
        revoke_all(s0.sessions, user_id, now).insert(h, s1.sessions[h]),
    )
    &&& !revoke_all(s0.sessions, user_id, now).contains_key(h)
    &&& fresh_session(s1.sessions[h], session_id, u.id, h, session_expiry(now, days), now)
}

/// A reset token for the account of e-mail `n`, the hash of `token`,
/// stored at `now` and valid for `PASSWORD_RESET_TOKEN_TTL_MINUTES`.
pub open spec fn reset_issued(s0: AuthState, s1: AuthState, n: Seq<char>, token: Seq<char>, now: Timestamp) -> bool {
    let h = secret_digest(token);
    let t = s1.resets[h];
    &&& s1 == with_resets(s0, s0.resets.insert(h, t))
    &&& t.user_id == s0.users[n].id
    &&& t.token_hash@ == h
    &&& t.created_at == now
    &&& t.expires_at == shifted(now, PASSWORD_RESET_TOKEN_TTL_MINUTES * crate::clock::MICROS_PER_MINUTE)
    &&& t.used_at is None
}

/// A reset confirmed at `now` with the token under `h`: it was valid, it
/// was used up, the new password verifies against the stored hash and
/// every session of the user was revoked.
pub open spec fn reset_confirmed(s0: AuthState, s1: AuthState, h: Seq<char>, new: Seq<char>, now: Timestamp) -> bool {
    let t = s0.resets[h];
    let u = user_with_id(s0, t.user_id)->0;
    let nu = s1.users[u.email@];
    &&& s0.resets.contains_key(h)
    &&& t.valid_at(now)
    &&& user_with_id(s0, t.user_id) is Some
    &&& password_matches(new, nu.password_hash@)
    &&& nu == User { password_hash: nu.password_hash, updated_at: now, ..u }
    &&& s1 == AuthState {
        users: s0.users.insert(u.email@, nu),
        ids: s0.ids,
        sessions: revoke_all(s0.sessions, u.id, now),
        resets: s0.resets.insert(h, consumed(t, now)),
        ..s0
    }
}

/// A verification token for `user`, the hash of `token`, stored at `now`
/// and valid for a day.
pub open spec fn verification_issued(s0: AuthState, s1: AuthState, user: User, token: Seq<char>, now: Timestamp) -> bool {
    let h = secret_digest(token);
    let t = s1.verifications[h];
    &&& s1 == with_verifications(s0, s0.verifications.insert(h, t))
    &&& t.user_id == user.id
    &&& t.token_hash@ == h
    &&& t.created_at == now
    &&& t.expires_at == shifted(now, EMAIL_VERIFICATION_TOKEN_TTL_MINUTES * crate::clock::MICROS_PER_MINUTE)
    &&& t.used_at is None
}

/// A backup-code check of the normalized code `n` that must succeed: one
/// of the user's active codes verifies it, and verification answers
/// without an error against every active code.
pub open spec fn backup_code_owed(codes: Map<Id, BackupCode>, user_id: Id, n: Seq<char>) -> bool {
    &&& exists|k: Id| #[trigger] active_code_of(codes, user_id)(k) && code_verifies(n, codes[k])
    &&& forall|k: Id|
        #[trigger] active_code_of(codes, user_id)(k) ==> argon2_verify_outcome(encode_utf8(n), codes[k].code_hash@) is Ok
}

/// Argon2 verification of the normalized code `n` answers "no match"
/// against every active backup code of the user.
pub open spec fn no_code_verifies(codes: Map<Id, BackupCode>, user_id: Id, n: Seq<char>) -> bool {
    forall|k: Id|
        #[trigger] active_code_of(codes, user_id)(k) ==> argon2_verify_outcome(encode_utf8(n), codes[k].code_hash@)
            == Ok::<bool, PasswordError>(false)
}

/// `s0` after logout at `now` of the session filed under `h`, if any.
pub open spec fn logged_out(s0: AuthState, h: Seq<char>, now: Timestamp) -> AuthState {
    with_sessions(
        s0,
        if s0.sessions.contains_key(h) {
            s0.sessions.insert(h, revoked(s0.sessions[h], now))
        } else {
            s0.sessions
        },
    )
}

/// The texts of a list of strings.
pub open spec fn texts_of(v: Seq<String>) -> Seq<Seq<char>> {
    v.map_values(|c: String| c@)
}

/// Backup code `c` verifies the normalized code `n`.
pub open spec fn code_verifies(n: Seq<char>, c: BackupCode) -> bool {
    argon2_accepts(encode_utf8(n), c.code_hash@)
}

/// `c` is the code stored for plaintext `text` under `id`: active, of the
/// user and set, created at `now`, its hash verifying the normalized text.
pub open spec fn fresh_code(c: BackupCode, id: Id, user_id: Id, set_id: Id, now: Timestamp, text: Seq<char>) -> bool {
    &&& c.id == id
    &&& c.user_id == user_id
    &&& c.set_id == set_id
    &&& c.created_at == now
    &&& c.active()
    &&& code_verifies(normalize_seq(text), c)
}

/// `s1` is `s0` with the user's active codes revoked at `now` and a fresh
/// code stored for each text under its id; where an id repeats, the last
/// code stored under it stays.
pub open spec fn codes_stored(
    s0: AuthState,
    s1: AuthState,
    user_id: Id,
    texts: Seq<Seq<char>>,
    ids: Seq<Id>,
    set_id: Id,
    now: Timestamp,
) -> bool {
    let revoked = revoke_codes(s0.backup_codes, user_id, now);
    &&& s1 == with_codes(s0, s1.backup_codes)
    &&& ids.len() == texts.len()
    &&& forall|k: Id| #[trigger] s1.backup_codes.contains_key(k) <==> revoked.contains_key(k) || ids.contains(k)
    &&& forall|k: Id| revoked.contains_key(k) && !ids.contains(k) ==> #[trigger] s1.backup_codes[k] == revoked[k]
    &&& forall|i: int|
        0 <= i < ids.len() && (forall|j: int| i < j < ids.len() ==> ids[j] != ids[i]) ==> fresh_code(
            s1.backup_codes[#[trigger] ids[i]],
            ids[i],
            user_id,
            set_id,
            now,
            texts[i],
        )
}

proof fn lemma_codes_stored_step(
    s0: AuthState,
    mid: AuthState,
    s1: AuthState,
    user_id: Id,
    texts: Seq<Seq<char>>,
    ids: Seq<Id>,
    texts2: Seq<Seq<char>>,
    ids2: Seq<Id>,
    set_id: Id,
    now: Timestamp,
    code: BackupCode,
)
    requires
        codes_stored(s0, mid, user_id, texts, ids, set_id, now),
        texts2.drop_last() == texts,
        ids2.drop_last() == ids,
        texts2.len() == texts.len() + 1,
        ids2.len() == ids.len() + 1,
        fresh_code(code, ids2.last(), user_id, set_id, now, texts2.last()),
        s1 == with_codes(mid, mid.backup_codes.insert(code.id, code)),
    ensures
        codes_stored(s0, s1, user_id, texts2, ids2, set_id, now),
{
    let revoked = revoke_codes(s0.backup_codes, user_id, now);
    let last = ids2.len() - 1;
    assert forall|k: Id| #[trigger] s1.backup_codes.contains_key(k) <==> revoked.contains_key(k) || ids2.contains(k) by {
        if ids2.contains(k) && k != code.id {
            let j = choose|j: int| 0 <= j < ids2.len() && ids2[j] == k;
            assert(ids[j] == k);
        }
        if ids.contains(k) {
            let j = choose|j: int| 0 <= j < ids.len() && ids[j] == k;
            assert(ids2[j] == k);
        }
        if k == code.id {
            assert(ids2[last] == k);
        }
    }
    assert forall|k: Id| revoked.contains_key(k) && !ids2.contains(k) implies #[trigger] s1.backup_codes[k] == revoked[k] by {
        if ids.contains(k) {
            let j = choose|j: int| 0 <= j < ids.len() && ids[j] == k;
            assert(ids2[j] == k);
        }
        assert(ids2[last] != k);
    }
    assert forall|i: int|
        0 <= i < ids2.len() && (forall|j: int| i < j < ids2.len() ==> ids2[j] != ids2[i]) implies fresh_code(
        s1.backup_codes[#[trigger] ids2[i]],
        ids2[i],
        user_id,
        set_id,
        now,
        texts2[i],
    ) by {
        if i < last {
            assert(ids2[i] == ids[i]);
            assert(texts2[i] == texts[i]);
            assert(ids2[last] != ids2[i]);
            assert forall|j: int| i < j < ids.len() implies ids[j] != ids[i] by {
                assert(ids2[j] == ids[j]);
            }
        }
    }
}

/// How many of the codes are active.
pub open spec fn count_active(v: Seq<BackupCode>) -> nat
    decreases v.len(),
{
    if v.len() == 0 {
        0
    } else {
        count_active(v.drop_last()) + if v.last().active() {
            1nat
        } else {
            0nat
        }
    }
}

/// The latest creation time among the codes.
pub open spec fn newest_created(v: Seq<BackupCode>) -> Option<Timestamp>
    decreases v.len(),
{
    if v.len() == 0 {
        None
    } else {
        match newest_created(v.drop_last()) {
            Some(t) => if v.last().created_at > t {
                Some(v.last().created_at)
            } else {
                Some(t)
            },
            None => Some(v.last().created_at),
        }
    }
}

/// The status shown for a listing of the user's codes.
pub open spec fn code_status_of(v: Seq<BackupCode>) -> BackupCodeStatusResponse {
    BackupCodeStatusResponse {
        enabled: v.len() > 0,
        remaining: count_active(v) as usize,
        total: v.len() as usize,
        generated_at: newest_created(v),
    }
}

/// The rows shown for listed sessions, in listing order.
pub open spec fn session_rows(ss: Seq<Session>, current: Option<Id>) -> Seq<ActiveSessionResponse> {
    ss.map_values(|s: Session| session_row(s, current))
}

fn session_response(s: &Session, current: Option<Id>) -> (r: ActiveSessionResponse)
    ensures
        r == session_row(*s, current),
{
    let is_current = match current {
        Some(id) => id == s.id,
        None => false,
    };
    ActiveSessionResponse {
        id: s.id,
        created_at: s.created_at,
        expires_at: s.expires_at,
        last_seen_at: s.last_seen_at,
        ip_address: copy_opt(&s.ip_address),
        user_agent: copy_opt(&s.user_agent),
        current: is_current,
    }
}

/// The user's stored preferences, or the defaults stamped `now`.
pub open spec fn preferences_or_defaults(s: AuthState, user_id: Id, now: Timestamp) -> UserPreferences {
    if s.prefs.contains_key(user_id) {
        s.prefs[user_id]
    } else {
        UserPreferences {
            user_id,
            theme: Theme::System,
            language: Language::En,
            notifications_enabled: true,
            updated_at: now,
        }
    }
}

/// `p` with the supplied fields of `update` and stamped `at`.
pub open spec fn updated_preferences(p: UserPreferences, update: UserPreferencesUpdate, at: Timestamp) -> UserPreferences {
    UserPreferences {
        user_id: p.user_id,
        theme: or_keep(update.theme, p.theme),
        language: or_keep(update.language, p.language),
        notifications_enabled: or_keep(update.notifications_enabled, p.notifications_enabled),
        updated_at: at,
    }
}

/// `s1` is `s0` after the user uploaded `data` as `content_type` at `now`,
/// answered by avatar `a`: the content passed the checks with `a`'s MIME
/// type, `a` records the size and SHA-256 of the content, the user's blob
/// key and the time, the blob under that key decrypts (under `dec`) to the
/// content, and the avatar is stored for the user.
pub open spec fn avatar_uploaded(
    dec: spec_fn(Seq<u8>, Seq<u8>) -> bool,
    s0: AuthState,
    s1: AuthState,
    user_id: Id,
    content_type: Seq<char>,
    data: Seq<u8>,
    now: Timestamp,
    a: Avatar,
) -> bool {
    let key = blob_key_spec(user_id);
    &&& avatar_check(content_type, data) == Ok::<AvatarMime, AvatarValidationError>(a.mime_type)
    &&& a.user_id == user_id
    &&& a.size == data.len()
    &&& a.content_hash@ == sha256_digest(data)
    &&& a.blob_key@ == key
    &&& a.uploaded_at == now
    &&& s1.blobs.contains_key(key)
    &&& dec(s1.blobs[key], data)
    &&& s1 == with_avatars(with_blobs(s0, s0.blobs.insert(key, s1.blobs[key])), s0.avatars.insert(user_id, a))
}

/// `s1` is `s0` after the user's preferences were updated at `now` with
/// `update` to `p`: the stored ones (or the defaults) with the supplied
/// fields replaced.
pub open spec fn preferences_updated(
    s0: AuthState,
    s1: AuthState,
    user_id: Id,
    update: UserPreferencesUpdate,
    now: Timestamp,
    p: UserPreferences,
) -> bool {
    &&& p == updated_preferences(preferences_or_defaults(s0, user_id, now), update, now)
    &&& s1 == with_prefs(s0, s0.prefs.insert(user_id, p))
}

/// A registration of `email` with `password` from `ip`, as account `id`
/// at `now`, stored `user`: an active account under the normalized e-mail,
/// with a hash that `password` verifies against and that answers every
/// verification without an error, created and updated at
/// `now`; nothing was stored under that e-mail or id before, the store
/// gained exactly that account, and the attempt counted against the IP's
/// registration bucket.
pub open spec fn registered(
    s0: AuthState,
    s1: AuthState,
    l0: InMemoryRateLimiter,
    l1: InMemoryRateLimiter,
    user: User,
    email: Seq<char>,
    password: Seq<char>,
    ip: Seq<char>,
    id: Id,
    now: Timestamp,
) -> bool {
    let n = normalized_email(email);
    &&& user.id == id
    &&& user.email@ == n
    &&& user.status is Active
    &&& user.created_at == now
    &&& user.updated_at == now
    &&& password_matches(password, user.password_hash@)
    &&& argon2_readable(user.password_hash@)
    &&& !s0.users.contains_key(n)
    &&& !s0.ids.contains_key(id)
    &&& s1 == with_users(s0, s0.users.insert(n, user), s0.ids.insert(id, n))
    &&& l1.register_ip_buckets() == attempt_map(
        check_map(
            l0.register_ip_buckets(),
            ip,
            l0.config().register_ip_limit,
            l0.config().register_window,
            limiter_time(now),
        ).0,
        ip,
        limiter_time(now),
    )
}

/// After a registration, a login with a password that does not match is
/// refused and counted as a failure against the limits (the new hash
/// answers every verification without an error).
pub proof fn law_wrong_password_counted_after_register(
    s0: AuthState,
    s1: AuthState,
    l0: InMemoryRateLimiter,
    l1: InMemoryRateLimiter,
    user: User,
    email: Seq<char>,
    password: Seq<char>,
    ip: Seq<char>,
    id: Id,
    now: Timestamp,
    wrong: Seq<char>,
)
    requires
        registered(s0, s1, l0, l1, user, email, password, ip, id, now),
        !password_matches(wrong, user.password_hash@),
        encode_utf8(wrong).len() <= 0xFFFF_FFFF,
    ensures
        login_refused(s1, normalized_email(email), wrong),
        login_failure_counted(s1, normalized_email(email), wrong),
{
    let n = normalized_email(email);
    assert(s1.users[n] == user);
    assert(argon2_verify_outcome(encode_utf8(wrong), user.password_hash@) is Ok);
    if hash_input_check(wrong) is Ok {
        let o = argon2_verify_outcome(encode_utf8(wrong), user.password_hash@);
        assert(o != Ok::<bool, PasswordError>(true));
        assert(o == Ok::<bool, PasswordError>(o->Ok_0));
        assert(o->Ok_0 == false);
    }
}

/// Registration then login: once an account was stored by a successful
/// registration (e-mail normalized, password hashed so that it verifies),
/// a login with the same password and any spelling of the e-mail that
/// normalizes alike succeeds whenever the rate limits let it through and
/// the new token's hash is unused.
pub proof fn law_login_after_register(
    s0: AuthState,
    s1: AuthState,
    user: User,
    id: Id,
    email: Seq<char>,
    spelling: Seq<char>,
    password: Seq<char>,
    l: InMemoryRateLimiter,
    ip: Seq<char>,
    token: Seq<char>,
    now: Timestamp,
)
    requires
        user.email@ == normalized_email(email),
        user.status is Active,
        password_matches(password, user.password_hash@),
        s1 == with_users(
            s0,
            s0.users.insert(normalized_email(email), user),
            s0.ids.insert(id, normalized_email(email)),
        ),
        normalized_email(spelling) == normalized_email(email),
        login_permitted(l, ip, normalized_email(email), now),
        !s1.sessions.contains_key(secret_digest(token)),
    ensures
        login_succeeds_on(s1, l, spelling, password, ip, token, now),
{
}

/// A revoked session is never valid again, whatever the time.
pub proof fn law_revoked_session_invalid(s: Session, at: Timestamp, t: Timestamp)
    ensures
        !revoked(s, at).valid_at(t),
{
}

/// Logout ends the session: after the session under `h` was revoked, no
/// later authentication with that token finds a valid session.
pub proof fn law_logout_ends_session(s0: AuthState, h: Seq<char>, at: Timestamp, t: Timestamp)
    ensures
        ({
            let sessions = if s0.sessions.contains_key(h) {
                s0.sessions.insert(h, revoked(s0.sessions[h], at))
            } else {
                s0.sessions
            };
            !(sessions.contains_key(h) && sessions[h].valid_at(t))
        }),
{
}

/// After all sessions of a user are revoked, none of them is valid at
/// any time.
pub proof fn law_revoke_all_ends_user_sessions(
    sessions: Map<Seq<char>, Session>,
    user_id: Id,
    at: Timestamp,
    t: Timestamp,
    k: Seq<char>,
)
    requires
        sessions.contains_key(k),
        sessions[k].user_id == user_id,
    ensures
        revoke_all(sessions, user_id, at).contains_key(k),
        !revoke_all(sessions, user_id, at)[k].valid_at(t),
{
}

/// A password-reset token works once: after it is used it is never valid
/// again.
pub proof fn law_reset_token_single_use(t: PasswordResetToken, at: Timestamp, later: Timestamp)
    ensures
        !consumed(t, at).valid_at(later),
{
}

/// A fresh session is valid until it expires.
pub proof fn law_fresh_session_valid(
    s: Session,
    id: Id,
    user_id: Id,
    hash: Seq<char>,
    expires_at: Timestamp,
    now: Timestamp,
    t: Timestamp,
)
    requires
        fresh_session(s, id, user_id, hash, expires_at, now),
        t < expires_at,
    ensures
        s.valid_at(t),
{
}

/// Revoking one session touches nothing else: the session with that id,
/// if it belongs to the user, is never valid again; every other session,
/// and every session of another user, stays as it was.
pub proof fn law_revoke_one_session(
    sessions: Map<Seq<char>, Session>,
    user_id: Id,
    session_id: Id,
    at: Timestamp,
    t: Timestamp,
    k: Seq<char>,
)
    requires
        sessions.contains_key(k),
    ensures
        ({
            let after = revoke_in(sessions, user_id, SessionScope::Only(session_id), at);
            &&& after.dom() == sessions.dom()
            &&& sessions[k].user_id == user_id && sessions[k].id == session_id ==> !after[k].valid_at(t)
            &&& sessions[k].user_id != user_id || sessions[k].id != session_id ==> after[k] == sessions[k]
        }),
{
    assert(revoke_in(sessions, user_id, SessionScope::Only(session_id), at).dom() =~= sessions.dom());
}

/// After the other sessions are revoked, the sessions still in use are
/// the current one only, and the current session is left as it was.
pub proof fn law_revoke_others_keeps_current(
    sessions: Map<Seq<char>, Session>,
    user_id: Id,
    current: Id,
    at: Timestamp,
    t: Timestamp,
    listed: Seq<Session>,
    k: Seq<char>,
)
    requires
        lists_active(listed, revoke_in(sessions, user_id, SessionScope::AllBut(current), at), user_id, t),
    ensures
        forall|i: int| 0 <= i < listed.len() ==> (#[trigger] listed[i]).id == current,
        sessions.contains_key(k) && sessions[k].id == current ==> revoke_in(
            sessions,
            user_id,
            SessionScope::AllBut(current),
            at,
        )[k] == sessions[k],
{
    let after = revoke_in(sessions, user_id, SessionScope::AllBut(current), at);
    assert forall|i: int| 0 <= i < listed.len() implies (#[trigger] listed[i]).id == current by {
        let kk = listed[i].token_hash@;
        assert(after.contains_key(kk));
        assert(after[kk] == listed[i]);
    }
}

/// Preferences read back as written: after storing `p` for a user, the
/// user's preferences are `p`.
pub proof fn law_preferences_read_back(s: AuthState, user_id: Id, p: UserPreferences, t: Timestamp)
    ensures
        preferences_or_defaults(with_prefs(s, s.prefs.insert(user_id, p)), user_id, t) == p,
{
}

/// An update changes only what it supplies: applied to the stored (or
/// default) preferences, every field not in the update keeps its value.
pub proof fn law_update_keeps_unsupplied(p: UserPreferences, update: UserPreferencesUpdate, at: Timestamp)
    ensures
        ({
            let q = updated_preferences(p, update, at);
            &&& q.user_id == p.user_id
            &&& update.theme is None ==> q.theme == p.theme
            &&& update.language is None ==> q.language == p.language
            &&& update.notifications_enabled is None ==> q.notifications_enabled == p.notifications_enabled
        }),
{
}

/// An uploaded avatar reads back: after the payload is written under the
/// avatar's blob key and the metadata stored, the user has that avatar and
/// its payload is present.
pub proof fn law_avatar_read_back(s0: AuthState, user_id: Id, a: Avatar, payload: Seq<u8>)
    ensures
        ({
            let s1 = with_avatars(
                with_blobs(s0, s0.blobs.insert(a.blob_key@, payload)),
                s0.avatars.insert(user_id, a),
            );
            &&& s1.avatars.contains_key(user_id)
            &&& s1.avatars[user_id] == a
            &&& s1.blobs.contains_key(s1.avatars[user_id].blob_key@)
            &&& s1.blobs[a.blob_key@] == payload
        }),
{
}

/// A deleted avatar is gone: afterwards the user has no avatar.
pub proof fn law_avatar_delete_clears(s0: AuthState, user_id: Id)
    requires
        s0.avatars.contains_key(user_id),
    ensures
        !with_avatars(
            with_blobs(s0, s0.blobs.remove(s0.avatars[user_id].blob_key@)),
            s0.avatars.remove(user_id),
        ).avatars.contains_key(user_id),
{
}

/// A backup code works once: after it is used it is no longer an active
/// code of the user, and the user's other codes keep their standing.
pub proof fn law_backup_code_single_use(s0: AuthState, user_id: Id, k: Id, at: Timestamp)
    requires
        s0.backup_codes.contains_key(k),
    ensures
        ({
            let codes = s0.backup_codes.insert(k, used_code(s0.backup_codes[k], at));
            &&& !active_code_of(with_codes(s0, codes).backup_codes, user_id)(k)
            &&& forall|j: Id|
                j != k ==> (#[trigger] active_code_of(codes, user_id)(j) <==> active_code_of(
                    s0.backup_codes,
                    user_id,
                )(j))
        }),
{
}

/// Generating backup codes retires the old ones: afterwards every active
/// code of the user is one of the new codes.
pub proof fn law_new_codes_replace_old(
    s0: AuthState,
    s1: AuthState,
    user_id: Id,
    texts: Seq<Seq<char>>,
    ids: Seq<Id>,
    set_id: Id,
    now: Timestamp,
)
    requires
        codes_stored(s0, s1, user_id, texts, ids, set_id, now),
    ensures
        forall|k: Id| #[trigger] active_code_of(s1.backup_codes, user_id)(k) ==> ids.contains(k),
{
    let revoked = revoke_codes(s0.backup_codes, user_id, now);
    assert forall|k: Id| #[trigger] active_code_of(s1.backup_codes, user_id)(k) implies ids.contains(k) by {
        if !ids.contains(k) {
            assert(revoked.contains_key(k));
            assert(s1.backup_codes[k] == revoked[k]);
        }
    }
}

/// After two-factor authentication is turned off its state reads
/// `disabled` and the user has no active backup code.
pub proof fn law_disable_turns_off(
    dec: spec_fn(Seq<u8>, Seq<u8>) -> bool,
    s0: AuthState,
    s1: AuthState,
    user_id: Id,
    password: Seq<char>,
    code: Seq<char>,
    now: Timestamp,
)
    requires
        two_factor_disabled(dec, s0, s1, user_id, password, code, now),
    ensures
        two_factor_state_name(s1.two_factor, user_id) == "disabled"@,
        forall|k: Id| !(#[trigger] active_code_of(s1.backup_codes, user_id)(k)),
{
}

/// After enrollment is confirmed two-factor authentication reads `enabled`.
pub proof fn law_enable_turns_on(
    dec: spec_fn(Seq<u8>, Seq<u8>) -> bool,
    s0: AuthState,
    s1: AuthState,
    user_id: Id,
    code: Seq<char>,
    now: Timestamp,
    out: Seq<String>,
)
    requires
        enrollment_confirmed(dec, s0, s1, user_id, code, now, out),
    ensures
        s1.two_factor.contains_key(user_id),
        s1.two_factor[user_id].state == TwoFactorState::Enabled,
        two_factor_state_name(s1.two_factor, user_id) == "enabled"@,
{
}

/// An e-mail verification token works once, and afterwards the user reads
/// as verified since that time.
pub proof fn law_email_token_single_use(s0: AuthState, s1: AuthState, h: Seq<char>, now: Timestamp, later: Timestamp)
    requires
        auth_state_ok(s0),
        email_verified_state(s0, s1, h, now),
    ensures
        !s1.verifications[h].valid_at(later),
        user_with_id(s1, s0.verifications[h].user_id) matches Some(u) && u.email_verified
            && u.email_verified_at == Some(now),
{
    let uid = s0.verifications[h].user_id;
    assert(s0.users.contains_key(s0.ids[uid]));
    assert(s0.users[s0.ids[uid]].email@ == s0.ids[uid]);
}

/// A refused login counts one more failure for the e-mail: a fresh count
/// of one opened now when the e-mail had no live bucket, else the live
/// count (below the limit, as the check let the login through) plus one.
/// (A bucket whose lock has run out restarts at one.)
pub proof fn law_failed_login_counted(
    l0: InMemoryRateLimiter,
    l1: InMemoryRateLimiter,
    ip: Seq<char>,
    n: Seq<char>,
    now: Timestamp,
)
    requires
        failed_login_limiter(l0, l1, ip, n, now),
        login_permitted(l0, ip, n, now),
    ensures
        ({
            let t = limiter_time(now);
            let m = l0.login_email_buckets();
            let w = l0.config().login_window;
            &&& m.contains_key(n) && bucket_kept(m[n], w, t) && m[n].locked_until is None
                ==> l1.login_email_buckets()[n] == bumped(m[n]) && m[n].count < l0.config().login_email_limit
            &&& !(m.contains_key(n) && bucket_kept(m[n], w, t)) ==> l1.login_email_buckets()[n] == AttemptBucket {
                count: 1,
                first_attempt: t,
                locked_until: None,
            }
        }),
{
    let t = limiter_time(now);
    let m = l0.login_email_buckets();
    let w = l0.config().login_window;
    if m.contains_key(n) && bucket_kept(m[n], w, t) {
        assert(cleaned(m, w, t).contains_key(n) && cleaned(m, w, t)[n] == m[n]);
    } else {
        assert(!cleaned(m, w, t).contains_key(n));
    }
}

/// Lockout: once the e-mail's live failure count has reached the limit,
/// the next login inside the window is refused as rate limited.
pub proof fn law_login_locked_out(l: InMemoryRateLimiter, ip: Seq<char>, n: Seq<char>, now: Timestamp)
    requires
        l.login_email_buckets().contains_key(n),
        bucket_kept(l.login_email_buckets()[n], l.config().login_window, limiter_time(now)),
        l.login_email_buckets()[n].count >= l.config().login_email_limit,
        l.login_email_buckets()[n].locked_until is None,
    ensures
        !login_permitted(l, ip, n, now),
{
    let t = limiter_time(now);
    let m = l.login_email_buckets();
    let w = l.config().login_window;
    assert(cleaned(m, w, t).contains_key(n) && cleaned(m, w, t)[n] == m[n]);
}

} // verus!
