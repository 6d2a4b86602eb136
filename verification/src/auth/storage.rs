//! Authentication storage: users (by normalized e-mail, with an id
//! index), sessions by token hash and password-reset tokens by hash.
//!
//! Raw passwords and raw tokens never reach storage; revoked sessions stay
//! stored so that revocation outlives later authentication attempts.

use vstd::prelude::*;
use crate::auth::avatar::Avatar;
use crate::auth::models::{
    BackupCode, EmailVerificationToken, PasswordResetToken, PreAuthToken, Session, SessionTokenHash, User,
};
use crate::auth::two_factor::{TwoFactorRecord, TwoFactorSettings};
use crate::auth::preferences::UserPreferences;
use crate::clock::{Id, Timestamp};
use crate::error::ApiError;
use crate::auth::secret_cipher::bytes_to_vec;
use crate::table::Table;
use std::collections::HashMap;
use crate::text::str_eq;

verus! {

broadcast use vstd::std_specs::hash::group_hash_axioms;

/// The stored state.
pub struct AuthState {
    /// Users by normalized e-mail.
    pub users: Map<Seq<char>, User>,
    /// E-mail of each user id.
    pub ids: Map<Id, Seq<char>>,
    /// Sessions by token hash.
    pub sessions: Map<Seq<char>, Session>,
    /// Password-reset tokens by token hash.
    pub resets: Map<Seq<char>, PasswordResetToken>,
    /// E-mail verification tokens by token hash.
    pub verifications: Map<Seq<char>, EmailVerificationToken>,
    /// Pre-auth tokens of logins awaiting a second factor, by token hash.
    pub pre_auth: Map<Seq<char>, PreAuthToken>,
    /// Preferences by user id.
    pub prefs: Map<Id, UserPreferences>,
    /// Avatar metadata by user id.
    pub avatars: Map<Id, Avatar>,
    /// Encrypted avatar payloads by blob key.
    pub blobs: Map<Seq<char>, Seq<u8>>,
    /// Two-factor settings by user id.
    pub two_factor: Map<Id, TwoFactorRecord>,
    /// Backup codes by code id.
    pub backup_codes: Map<Id, BackupCode>,
}

/// Users are filed under their own e-mail, every indexed id leads to a
/// stored user, sessions are filed under their own token hash, and
/// preferences and avatars under their own user id.
pub open spec fn auth_state_ok(s: AuthState) -> bool {
    &&& forall|e: Seq<char>| #[trigger] s.users.contains_key(e) ==> s.users[e].email@ == e
    &&& forall|id: Id| #[trigger] s.ids.contains_key(id) ==> s.users.contains_key(s.ids[id])
    &&& forall|k: Seq<char>| #[trigger] s.sessions.contains_key(k) ==> s.sessions[k].token_hash@ == k
    &&& forall|id: Id| #[trigger] s.prefs.contains_key(id) ==> s.prefs[id].user_id == id
    &&& forall|id: Id| #[trigger] s.avatars.contains_key(id) ==> s.avatars[id].user_id == id
    &&& forall|id: Id| #[trigger] s.two_factor.contains_key(id) ==> s.two_factor[id].user_id == id
    &&& forall|id: Id| #[trigger] s.backup_codes.contains_key(id) ==> s.backup_codes[id].id == id
}

pub open spec fn lookup<K, V>(m: Map<K, V>, k: K) -> Option<V> {
    if m.contains_key(k) {
        Some(m[k])
    } else {
        None
    }
}

/// The user with id `id`, through the id index.
pub open spec fn user_with_id(s: AuthState, id: Id) -> Option<User> {
    if s.ids.contains_key(id) {
        Some(s.users[s.ids[id]])
    } else {
        None
    }
}

/// `s` revoked at `at`; an earlier revocation time is kept.
pub open spec fn revoked(s: Session, at: Timestamp) -> Session {
    Session {
        revoked_at: if s.revoked_at is None {
            Some(at)
        } else {
            s.revoked_at
        },
        ..s
    }
}

/// Which of a user's sessions a revocation covers.
#[derive(Debug, Clone, Copy, PartialEq, Eq, Structural)]
pub enum SessionScope {
    /// Every session of the user.
    Every,
    /// Every session of the user but the one with this id.
    AllBut(Id),
    /// Only the user's session with this id.
    Only(Id),
}

/// `s` is a session of `user_id` that `scope` covers.
pub open spec fn in_scope(s: Session, user_id: Id, scope: SessionScope) -> bool {
    &&& s.user_id == user_id
    &&& match scope {
        SessionScope::Every => true,
        SessionScope::AllBut(id) => s.id != id,
        SessionScope::Only(id) => s.id == id,
    }
}

/// A session under `scope` that is not yet revoked.
pub open spec fn revocable_in(
    sessions: Map<Seq<char>, Session>,
    user_id: Id,
    scope: SessionScope,
) -> spec_fn(Seq<char>) -> bool {
    |k: Seq<char>|
        sessions.contains_key(k) && in_scope(sessions[k], user_id, scope) && sessions[k].revoked_at is None
}

/// An active (not yet revoked) session of `user_id`.
pub open spec fn revocable(sessions: Map<Seq<char>, Session>, user_id: Id) -> spec_fn(Seq<char>) -> bool {
    revocable_in(sessions, user_id, SessionScope::Every)
}

/// The sessions under `scope` revoked at `at`; the others unchanged.
pub open spec fn revoke_in(
    sessions: Map<Seq<char>, Session>,
    user_id: Id,
    scope: SessionScope,
    at: Timestamp,
) -> Map<Seq<char>, Session> {
    Map::new(
        |k: Seq<char>| sessions.contains_key(k),
        |k: Seq<char>|
            if in_scope(sessions[k], user_id, scope) {
                revoked(sessions[k], at)
            } else {
                sessions[k]
            },
    )
}

/// Every session of `user_id` revoked at `at`.
pub open spec fn revoke_all(sessions: Map<Seq<char>, Session>, user_id: Id, at: Timestamp) -> Map<
    Seq<char>,
    Session,
> {
    revoke_in(sessions, user_id, SessionScope::Every, at)
}

/// A session of `user_id` in use at `now`: neither revoked nor expired.
pub open spec fn active_at(s: Session, user_id: Id, now: Timestamp) -> bool {
    s.user_id == user_id && s.valid_at(now)
}

/// `v` lists the sessions of `user_id` that are in use at `now`, each
/// once, as stored.
pub open spec fn lists_active(
    v: Seq<Session>,
    sessions: Map<Seq<char>, Session>,
    user_id: Id,
    now: Timestamp,
) -> bool {
    &&& forall|i: int|
        0 <= i < v.len() ==> {
            &&& sessions.contains_key(#[trigger] v[i].token_hash@)
            &&& sessions[v[i].token_hash@] == v[i]
            &&& active_at(v[i], user_id, now)
        }
    &&& forall|i: int, j: int|
        0 <= i < j < v.len() ==> (#[trigger] v[i]).token_hash@ != (#[trigger] v[j]).token_hash@
    &&& forall|k: Seq<char>|
        #![trigger sessions.contains_key(k)]
        sessions.contains_key(k) && active_at(sessions[k], user_id, now) ==> exists|i: int|
            0 <= i < v.len() && (#[trigger] v[i]).token_hash@ == k
}

/// `t` marked used at `at`, unless it was used before.
pub open spec fn pre_auth_consumed(t: PreAuthToken, at: Timestamp) -> PreAuthToken {
    PreAuthToken {
        consumed_at: if t.consumed_at is None {
            Some(at)
        } else {
            t.consumed_at
        },
        ..t
    }
}

pub open spec fn with_pre_auth(s: AuthState, pre_auth: Map<Seq<char>, PreAuthToken>) -> AuthState {
    AuthState { pre_auth, ..s }
}

pub open spec fn verification_consumed(t: EmailVerificationToken, at: Timestamp) -> EmailVerificationToken {
    EmailVerificationToken {
        used_at: if t.used_at is None {
            Some(at)
        } else {
            t.used_at
        },
        ..t
    }
}

pub open spec fn consumed(t: PasswordResetToken, at: Timestamp) -> PasswordResetToken {
    PasswordResetToken {
        used_at: if t.used_at is None {
            Some(at)
        } else {
            t.used_at
        },
        ..t
    }
}

/// `s` with only the given component replaced.
pub open spec fn with_users(s: AuthState, users: Map<Seq<char>, User>, ids: Map<Id, Seq<char>>) -> AuthState {
    AuthState { users, ids, ..s }
}

pub open spec fn with_sessions(s: AuthState, sessions: Map<Seq<char>, Session>) -> AuthState {
    AuthState { sessions, ..s }
}

pub open spec fn with_resets(s: AuthState, resets: Map<Seq<char>, PasswordResetToken>) -> AuthState {
    AuthState { resets, ..s }
}

pub open spec fn with_verifications(s: AuthState, verifications: Map<Seq<char>, EmailVerificationToken>) -> AuthState {
    AuthState { verifications, ..s }
}

pub open spec fn with_prefs(s: AuthState, prefs: Map<Id, UserPreferences>) -> AuthState {
    AuthState { prefs, ..s }
}

pub open spec fn with_avatars(s: AuthState, avatars: Map<Id, Avatar>) -> AuthState {
    AuthState { avatars, ..s }
}

pub open spec fn with_blobs(s: AuthState, blobs: Map<Seq<char>, Seq<u8>>) -> AuthState {
    AuthState { blobs, ..s }
}

pub open spec fn with_two_factor(s: AuthState, two_factor: Map<Id, TwoFactorRecord>) -> AuthState {
    AuthState { two_factor, ..s }
}

pub open spec fn with_codes(s: AuthState, backup_codes: Map<Id, BackupCode>) -> AuthState {
    AuthState { backup_codes, ..s }
}

/// `c` marked used at `at`.
pub open spec fn used_code(c: BackupCode, at: Timestamp) -> BackupCode {
    BackupCode { used_at: Some(at), ..c }
}

/// An active code of `user_id`.
pub open spec fn active_code_of(codes: Map<Id, BackupCode>, user_id: Id) -> spec_fn(Id) -> bool {
    |k: Id| codes.contains_key(k) && codes[k].user_id == user_id && codes[k].active()
}

/// The active codes of `user_id` revoked at `at`; the others unchanged.
pub open spec fn revoke_codes(codes: Map<Id, BackupCode>, user_id: Id, at: Timestamp) -> Map<Id, BackupCode> {
    Map::new(
        |k: Id| codes.contains_key(k),
        |k: Id|
            if codes[k].user_id == user_id && codes[k].active() {
                BackupCode { revoked_at: Some(at), ..codes[k] }
            } else {
                codes[k]
            },
    )
}

/// Code `k` is an active code of `user_id` with hash `hash`.
pub open spec fn code_matches(codes: Map<Id, BackupCode>, user_id: Id, hash: Seq<char>, k: Id) -> bool {
    &&& codes.contains_key(k)
    &&& codes[k].user_id == user_id
    &&& codes[k].code_hash@ == hash
    &&& codes[k].active()
}

/// `v` lists the backup codes of `user_id`, each once, as stored.
pub open spec fn lists_codes(v: Seq<BackupCode>, codes: Map<Id, BackupCode>, user_id: Id) -> bool {
    &&& forall|i: int|
        0 <= i < v.len() ==> {
            &&& codes.contains_key(#[trigger] v[i].id)
            &&& codes[v[i].id] == v[i]
            &&& v[i].user_id == user_id
        }
    &&& forall|i: int, j: int| 0 <= i < j < v.len() ==> (#[trigger] v[i]).id != (#[trigger] v[j]).id
    &&& forall|k: Id|
        #![trigger codes.contains_key(k)]
        codes.contains_key(k) && codes[k].user_id == user_id ==> exists|i: int|
            0 <= i < v.len() && (#[trigger] v[i]).id == k
}

/// Persistent authentication storage. An operation that fails leaves the
/// state as it was; an implementation that is `infallible` never fails
/// but where this says so.
pub trait AuthStorage {
    spec fn inv(&self) -> bool;

    spec fn infallible(&self) -> bool;

    spec fn state(&self) -> AuthState;

    proof fn lemma_state_ok(&self)
        requires
            self.inv(),
        ensures
            auth_state_ok(self.state()),
    ;

    fn user_exists(&self, email: &str) -> (r: Result<bool, ApiError>)
        requires
            self.inv(),
        ensures
            r matches Ok(b) ==> b == self.state().users.contains_key(email@),
            self.infallible() ==> r is Ok,
    ;

    fn get_user_by_email(&self, email: &str) -> (r: Result<Option<User>, ApiError>)
        requires
            self.inv(),
        ensures
            r matches Ok(o) ==> o == lookup(self.state().users, email@),
            self.infallible() ==> r is Ok,
    ;

    fn get_user_by_id(&self, user_id: &Id) -> (r: Result<Option<User>, ApiError>)
        requires
            self.inv(),
        ensures
            r matches Ok(o) ==> o == user_with_id(self.state(), *user_id),
            self.infallible() ==> r is Ok,
    ;

    /// Store a new user; `Conflict` when the e-mail or the id is taken.
    fn create_user(&mut self, user: &User) -> (r: Result<(), ApiError>)
        requires
            old(self).inv(),
        ensures
            final(self).inv(),
            final(self).infallible() == old(self).infallible(),
            r is Ok ==> {
                &&& !old(self).state().users.contains_key(user.email@)
                &&& !old(self).state().ids.contains_key(user.id)
                &&& final(self).state() == with_users(
                    old(self).state(),
                    old(self).state().users.insert(user.email@, *user),
                    old(self).state().ids.insert(user.id, user.email@),
                )
            },
            r is Err ==> final(self).state() == old(self).state(),
            old(self).state().users.contains_key(user.email@) || old(self).state().ids.contains_key(
                user.id,
            ) ==> (r matches Err(e) && e == ApiError::Conflict),
            old(self).infallible() && !old(self).state().users.contains_key(user.email@)
                && !old(self).state().ids.contains_key(user.id) ==> r is Ok,
    ;

    /// Replace the stored user with the same e-mail; `NotFound` if none.
    fn update_user(&mut self, user: &User) -> (r: Result<(), ApiError>)
        requires
            old(self).inv(),
        ensures
            final(self).inv(),
            final(self).infallible() == old(self).infallible(),
            r is Ok ==> old(self).state().users.contains_key(user.email@) && final(self).state()
                == with_users(
                old(self).state(),
                old(self).state().users.insert(user.email@, *user),
                old(self).state().ids,
            ),
            r is Err ==> final(self).state() == old(self).state(),
            !old(self).state().users.contains_key(user.email@) ==> (r matches Err(e) && e
                == ApiError::NotFound),
            old(self).infallible() && old(self).state().users.contains_key(user.email@) ==> r is Ok,
    ;

    /// Store a new session; `Conflict` when its token hash is taken.
    fn create_session(&mut self, session: &Session) -> (r: Result<(), ApiError>)
        requires
            old(self).inv(),
        ensures
            final(self).inv(),
            final(self).infallible() == old(self).infallible(),
            r is Ok ==> !old(self).state().sessions.contains_key(session.token_hash@) && final(self).state() == with_sessions(
                old(self).state(),
                old(self).state().sessions.insert(session.token_hash@, *session),
            ),
            r is Err ==> final(self).state() == old(self).state(),
            old(self).state().sessions.contains_key(session.token_hash@) ==> (r matches Err(e) && e
                == ApiError::Conflict),
            old(self).infallible() && !old(self).state().sessions.contains_key(session.token_hash@)
                ==> r is Ok,
    ;

    fn get_session_by_token_hash(&self, token_hash: &SessionTokenHash) -> (r: Result<
        Option<Session>,
        ApiError,
    >)
        requires
            self.inv(),
        ensures
            r matches Ok(o) ==> o == lookup(self.state().sessions, token_hash@),
            self.infallible() ==> r is Ok,
    ;

    /// Revoke the session with this token hash, if any; idempotent.
    fn revoke_session_by_token_hash(&mut self, token_hash: &SessionTokenHash, revoked_at: Timestamp) -> (r:
        Result<(), ApiError>)
        requires
            old(self).inv(),
        ensures
            final(self).inv(),
            final(self).infallible() == old(self).infallible(),
            r is Ok ==> final(self).state() == with_sessions(
                old(self).state(),
                if old(self).state().sessions.contains_key(token_hash@) {
                    old(self).state().sessions.insert(
                        token_hash@,
                        revoked(old(self).state().sessions[token_hash@], revoked_at),
                    )
                } else {
                    old(self).state().sessions
                },
            ),
            r is Err ==> final(self).state() == old(self).state(),
            old(self).infallible() ==> r is Ok,
    ;

    /// Revoke every session of a user; the count of sessions that were
    /// still active.
    fn revoke_all_sessions_for_user(&mut self, user_id: &Id, revoked_at: Timestamp) -> (r: Result<
        usize,
        ApiError,
    >)
        requires
            old(self).inv(),
        ensures
            final(self).inv(),
            final(self).infallible() == old(self).infallible(),
            r matches Ok(n) ==> {
                &&& final(self).state() == with_sessions(
                    old(self).state(),
                    revoke_all(old(self).state().sessions, *user_id, revoked_at),
                )
                &&& n == old(self).state().sessions.dom().filter(
                    revocable(old(self).state().sessions, *user_id),
                ).len()
            },
            r is Err ==> final(self).state() == old(self).state(),
            old(self).infallible() ==> r is Ok,
    ;

    fn create_password_reset_token(&mut self, token: &PasswordResetToken) -> (r: Result<(), ApiError>)
        requires
            old(self).inv(),
        ensures
            final(self).inv(),
            final(self).infallible() == old(self).infallible(),
            r is Ok ==> final(self).state() == with_resets(
                old(self).state(),
                old(self).state().resets.insert(token.token_hash@, *token),
            ),
            r is Err ==> final(self).state() == old(self).state(),
            old(self).infallible() ==> r is Ok,
    ;

    fn get_password_reset_token_by_hash(&self, token_hash: &str) -> (r: Result<
        Option<PasswordResetToken>,
        ApiError,
    >)
        requires
            self.inv(),
        ensures
            r matches Ok(o) ==> o == lookup(self.state().resets, token_hash@),
            self.infallible() ==> r is Ok,
    ;

    /// Mark the token used at `used_at`; a used token keeps its first time.
    fn consume_password_reset_token(&mut self, token_hash: &str, used_at: Timestamp) -> (r: Result<
        (),
        ApiError,
    >)
        requires
            old(self).inv(),
        ensures
            final(self).inv(),
            final(self).infallible() == old(self).infallible(),
            r is Ok ==> final(self).state() == with_resets(
                old(self).state(),
                if old(self).state().resets.contains_key(token_hash@) {
                    old(self).state().resets.insert(
                        token_hash@,
                        consumed(old(self).state().resets[token_hash@], used_at),
                    )
                } else {
                    old(self).state().resets
                },
            ),
            r is Err ==> final(self).state() == old(self).state(),
            old(self).infallible() ==> r is Ok,
    ;

    fn create_email_verification_token(&mut self, token: &EmailVerificationToken) -> (r: Result<(), ApiError>)
        requires
            old(self).inv(),
        ensures
            final(self).inv(),
            final(self).infallible() == old(self).infallible(),
            r is Ok ==> final(self).state() == with_verifications(
                old(self).state(),
                old(self).state().verifications.insert(token.token_hash@, *token),
            ),
            r is Err ==> final(self).state() == old(self).state(),
            old(self).infallible() ==> r is Ok,
    ;

    fn get_email_verification_token_by_hash(&self, token_hash: &str) -> (r: Result<
        Option<EmailVerificationToken>,
        ApiError,
    >)
        requires
            self.inv(),
        ensures
            r matches Ok(o) ==> o == lookup(self.state().verifications, token_hash@),
            self.infallible() ==> r is Ok,
    ;

    /// Mark the token used at `used_at`; a used token keeps its first time.
    fn consume_email_verification_token(&mut self, token_hash: &str, used_at: Timestamp) -> (r: Result<
        (),
        ApiError,
    >)
        requires
            old(self).inv(),
        ensures
            final(self).inv(),
            final(self).infallible() == old(self).infallible(),
            r is Ok ==> final(self).state() == with_verifications(
                old(self).state(),
                if old(self).state().verifications.contains_key(token_hash@) {
                    old(self).state().verifications.insert(
                        token_hash@,
                        verification_consumed(old(self).state().verifications[token_hash@], used_at),
                    )
                } else {
                    old(self).state().verifications
                },
            ),
            r is Err ==> final(self).state() == old(self).state(),
            old(self).infallible() ==> r is Ok,
    ;

    fn create_pre_auth_token(&mut self, token: &PreAuthToken) -> (r: Result<(), ApiError>)
        requires
            old(self).inv(),
        ensures
            final(self).inv(),
            final(self).infallible() == old(self).infallible(),
            r is Ok ==> final(self).state() == with_pre_auth(
                old(self).state(),
                old(self).state().pre_auth.insert(token.token_hash@, *token),
            ),
            r is Err ==> final(self).state() == old(self).state(),
            old(self).infallible() ==> r is Ok,
    ;

    fn get_pre_auth_token_by_hash(&self, token_hash: &str) -> (r: Result<Option<PreAuthToken>, ApiError>)
        requires
            self.inv(),
        ensures
            r matches Ok(o) ==> o == lookup(self.state().pre_auth, token_hash@),
            self.infallible() ==> r is Ok,
    ;

    /// Mark the token consumed at `consumed_at`; a consumed token keeps its
    /// first time.
    fn consume_pre_auth_token(&mut self, token_hash: &str, consumed_at: Timestamp) -> (r: Result<(), ApiError>)
        requires
            old(self).inv(),
        ensures
            final(self).inv(),
            final(self).infallible() == old(self).infallible(),
            r is Ok ==> final(self).state() == with_pre_auth(
                old(self).state(),
                if old(self).state().pre_auth.contains_key(token_hash@) {
                    old(self).state().pre_auth.insert(
                        token_hash@,
                        pre_auth_consumed(old(self).state().pre_auth[token_hash@], consumed_at),
                    )
                } else {
                    old(self).state().pre_auth
                },
            ),
            r is Err ==> final(self).state() == old(self).state(),
            old(self).infallible() ==> r is Ok,
    ;

    /// The user's sessions that are neither revoked nor expired at `now`,
    /// each once, in no promised order.
    fn get_active_sessions_for_user(&self, user_id: &Id, now: Timestamp) -> (r: Result<
        Vec<Session>,
        ApiError,
    >)
        requires
            self.inv(),
        ensures
            r matches Ok(v) ==> lists_active(v@, self.state().sessions, *user_id, now),
            self.infallible() ==> r is Ok,
    ;

    /// Revoke session `session_id` if it belongs to `user_id`; a session
    /// of another user, or none, leaves everything as it was.
    fn revoke_session_by_id(&mut self, session_id: &Id, user_id: &Id, revoked_at: Timestamp) -> (r:
        Result<(), ApiError>)
        requires
            old(self).inv(),
        ensures
            final(self).inv(),
            final(self).infallible() == old(self).infallible(),
            r is Ok ==> final(self).state() == with_sessions(
                old(self).state(),
                revoke_in(old(self).state().sessions, *user_id, SessionScope::Only(*session_id), revoked_at),
            ),
            r is Err ==> final(self).state() == old(self).state(),
            old(self).infallible() ==> r is Ok,
    ;

    /// Revoke every session of the user but `except_session_id`; the count
    /// of sessions that were still active.
    fn revoke_all_sessions_except(&mut self, user_id: &Id, except_session_id: &Id, revoked_at: Timestamp) -> (r:
        Result<usize, ApiError>)
        requires
            old(self).inv(),
        ensures
            final(self).inv(),
            final(self).infallible() == old(self).infallible(),
            r matches Ok(n) ==> {
                let scope = SessionScope::AllBut(*except_session_id);
                &&& final(self).state() == with_sessions(
                    old(self).state(),
                    revoke_in(old(self).state().sessions, *user_id, scope, revoked_at),
                )
                &&& n == old(self).state().sessions.dom().filter(
                    revocable_in(old(self).state().sessions, *user_id, scope),
                ).len()
            },
            r is Err ==> final(self).state() == old(self).state(),
            old(self).infallible() ==> r is Ok,
    ;

    fn get_user_preferences(&self, user_id: &Id) -> (r: Result<Option<UserPreferences>, ApiError>)
        requires
            self.inv(),
        ensures
            r matches Ok(o) ==> o == lookup(self.state().prefs, *user_id),
            self.infallible() ==> r is Ok,
    ;

    /// Store the preferences under their user id, replacing earlier ones.
    fn upsert_user_preferences(&mut self, preferences: &UserPreferences) -> (r: Result<(), ApiError>)
        requires
            old(self).inv(),
        ensures
            final(self).inv(),
            final(self).infallible() == old(self).infallible(),
            r is Ok ==> final(self).state() == with_prefs(
                old(self).state(),
                old(self).state().prefs.insert(preferences.user_id, *preferences),
            ),
            r is Err ==> final(self).state() == old(self).state(),
            old(self).infallible() ==> r is Ok,
    ;

    fn get_avatar(&self, user_id: &Id) -> (r: Result<Option<Avatar>, ApiError>)
        requires
            self.inv(),
        ensures
            r matches Ok(o) ==> o == lookup(self.state().avatars, *user_id),
            self.infallible() ==> r is Ok,
    ;

    /// Store the avatar metadata under its user id, replacing earlier one.
    fn upsert_avatar(&mut self, avatar: &Avatar) -> (r: Result<(), ApiError>)
        requires
            old(self).inv(),
        ensures
            final(self).inv(),
            final(self).infallible() == old(self).infallible(),
            r is Ok ==> final(self).state() == with_avatars(
                old(self).state(),
                old(self).state().avatars.insert(avatar.user_id, *avatar),
            ),
            r is Err ==> final(self).state() == old(self).state(),
            old(self).infallible() ==> r is Ok,
    ;

    fn delete_avatar(&mut self, user_id: &Id) -> (r: Result<(), ApiError>)
        requires
            old(self).inv(),
        ensures
            final(self).inv(),
            final(self).infallible() == old(self).infallible(),
            r is Ok ==> final(self).state() == with_avatars(
                old(self).state(),
                old(self).state().avatars.remove(*user_id),
            ),
            r is Err ==> final(self).state() == old(self).state(),
            old(self).infallible() ==> r is Ok,
    ;

    fn get_avatar_blob(&self, blob_key: &str) -> (r: Result<Option<Vec<u8>>, ApiError>)
        requires
            self.inv(),
        ensures
            r matches Ok(o) ==> match o {
                Some(b) => self.state().blobs.contains_key(blob_key@) && b@ == self.state().blobs[blob_key@],
                None => !self.state().blobs.contains_key(blob_key@),
            },
            self.infallible() ==> r is Ok,
    ;

    fn put_avatar_blob(&mut self, blob_key: &str, data: &[u8]) -> (r: Result<(), ApiError>)
        requires
            old(self).inv(),
        ensures
            final(self).inv(),
            final(self).infallible() == old(self).infallible(),
            r is Ok ==> final(self).state() == with_blobs(
                old(self).state(),
                old(self).state().blobs.insert(blob_key@, data@),
            ),
            r is Err ==> final(self).state() == old(self).state(),
            old(self).infallible() ==> r is Ok,
    ;

    fn delete_avatar_blob(&mut self, blob_key: &str) -> (r: Result<(), ApiError>)
        requires
            old(self).inv(),
        ensures
            final(self).inv(),
            final(self).infallible() == old(self).infallible(),
            r is Ok ==> final(self).state() == with_blobs(
                old(self).state(),
                old(self).state().blobs.remove(blob_key@),
            ),
            r is Err ==> final(self).state() == old(self).state(),
            old(self).infallible() ==> r is Ok,
    ;
    /// Store a user's two-factor settings, replacing earlier ones.
    fn create_two_factor_settings(&mut self, settings: &TwoFactorSettings) -> (r: Result<(), ApiError>)
        requires
            old(self).inv(),
        ensures
            final(self).inv(),
            final(self).infallible() == old(self).infallible(),
            r is Ok ==> final(self).state() == with_two_factor(
                old(self).state(),
                old(self).state().two_factor.insert(settings.user_id, settings@),
            ),
            r is Err ==> final(self).state() == old(self).state(),
            old(self).infallible() ==> r is Ok,
    ;

    fn get_two_factor_settings(&self, user_id: &Id) -> (r: Result<Option<TwoFactorSettings>, ApiError>)
        requires
            self.inv(),
        ensures
            r matches Ok(o) ==> match o {
                Some(t) => self.state().two_factor.contains_key(*user_id) && t@ == self.state().two_factor[*user_id],
                None => !self.state().two_factor.contains_key(*user_id),
            },
            self.infallible() ==> r is Ok,
    ;

    /// Store changed two-factor settings under their user id.
    fn update_two_factor_settings(&mut self, settings: &TwoFactorSettings) -> (r: Result<(), ApiError>)
        requires
            old(self).inv(),
        ensures
            final(self).inv(),
            final(self).infallible() == old(self).infallible(),
            r is Ok ==> final(self).state() == with_two_factor(
                old(self).state(),
                old(self).state().two_factor.insert(settings.user_id, settings@),
            ),
            r is Err ==> final(self).state() == old(self).state(),
            old(self).infallible() ==> r is Ok,
    ;

    fn delete_two_factor_settings(&mut self, user_id: &Id) -> (r: Result<(), ApiError>)
        requires
            old(self).inv(),
        ensures
            final(self).inv(),
            final(self).infallible() == old(self).infallible(),
            r is Ok ==> final(self).state() == with_two_factor(
                old(self).state(),
                old(self).state().two_factor.remove(*user_id),
            ),
            r is Err ==> final(self).state() == old(self).state(),
            old(self).infallible() ==> r is Ok,
    ;

    /// Store a backup code under its id.
    fn create_backup_code(&mut self, code: &BackupCode) -> (r: Result<(), ApiError>)
        requires
            old(self).inv(),
        ensures
            final(self).inv(),
            final(self).infallible() == old(self).infallible(),
            r is Ok ==> final(self).state() == with_codes(
                old(self).state(),
                old(self).state().backup_codes.insert(code.id, *code),
            ),
            r is Err ==> final(self).state() == old(self).state(),
            old(self).infallible() ==> r is Ok,
    ;

    /// Every backup code of the user, used and revoked ones included, each
    /// once, in no promised order.
    fn list_backup_codes(&self, user_id: &Id) -> (r: Result<Vec<BackupCode>, ApiError>)
        requires
            self.inv(),
        ensures
            r matches Ok(v) ==> lists_codes(v@, self.state().backup_codes, *user_id),
            self.infallible() ==> r is Ok,
    ;

    /// Mark used an active code of the user with this hash; `false`, and
    /// nothing changed, when there is none.
    fn consume_backup_code(&mut self, user_id: &Id, code_hash: &str, used_at: Timestamp) -> (r: Result<
        bool,
        ApiError,
    >)
        requires
            old(self).inv(),
        ensures
            final(self).inv(),
            final(self).infallible() == old(self).infallible(),
            ({
                let s0 = old(self).state();
                r matches Ok(b) ==> {
                    &&& b == exists|k: Id| #[trigger] code_matches(s0.backup_codes, *user_id, code_hash@, k)
                    &&& b ==> exists|k: Id|
                        #[trigger] code_matches(s0.backup_codes, *user_id, code_hash@, k)
                            && final(self).state() == with_codes(
                            s0,
                            s0.backup_codes.insert(k, used_code(s0.backup_codes[k], used_at)),
                        )
                    &&& !b ==> final(self).state() == s0
                }
            }),
            r is Err ==> final(self).state() == old(self).state(),
            old(self).infallible() ==> r is Ok,
    ;

    /// Revoke every active backup code of the user; the count revoked.
    fn revoke_all_backup_codes(&mut self, user_id: &Id, revoked_at: Timestamp) -> (r: Result<usize, ApiError>)
        requires
            old(self).inv(),
        ensures
            final(self).inv(),
            final(self).infallible() == old(self).infallible(),
            r matches Ok(n) ==> {
                &&& final(self).state() == with_codes(
                    old(self).state(),
                    revoke_codes(old(self).state().backup_codes, *user_id, revoked_at),
                )
                &&& n == old(self).state().backup_codes.dom().filter(
                    active_code_of(old(self).state().backup_codes, *user_id),
                ).len()
            },
            r is Err ==> final(self).state() == old(self).state(),
            old(self).infallible() ==> r is Ok,
    ;
}

/// In-memory authentication storage for development and tests.
pub struct InMemoryAuthStorage {
    users: Table<String, User>,
    users_by_id: HashMap<Id, String>,
    sessions: Table<String, Session>,
    password_reset_tokens: Table<String, PasswordResetToken>,
    email_verification_tokens: Table<String, EmailVerificationToken>,
    pre_auth_tokens: Table<String, PreAuthToken>,
    preferences: HashMap<Id, UserPreferences>,
    avatars: HashMap<Id, Avatar>,
    avatar_blobs: Table<String, Vec<u8>>,
    two_factor: HashMap<Id, TwoFactorSettings>,
    backup_codes: Table<Id, BackupCode>,
}

impl InMemoryAuthStorage {
    pub closed spec fn model(&self) -> AuthState {
        AuthState {
            users: self.users.view(),
            ids: Map::new(
                |id: Id| self.users_by_id.view().contains_key(id),
                |id: Id| self.users_by_id.view()[id]@,
            ),
            sessions: self.sessions.view(),
            resets: self.password_reset_tokens.view(),
            verifications: self.email_verification_tokens.view(),
            pre_auth: self.pre_auth_tokens.view(),
            prefs: self.preferences.view(),
            avatars: self.avatars.view(),
            blobs: Map::new(
                |k: Seq<char>| self.avatar_blobs.view().contains_key(k),
                |k: Seq<char>| self.avatar_blobs.view()[k]@,
            ),
            two_factor: Map::new(
                |k: Id| self.two_factor.view().contains_key(k),
                |k: Id| self.two_factor.view()[k]@,
            ),
            backup_codes: self.backup_codes.view(),
        }
    }

    pub closed spec fn wf(&self) -> bool {
        &&& self.users.wf()
        &&& self.sessions.wf()
        &&& self.password_reset_tokens.wf()
        &&& self.email_verification_tokens.wf()
        &&& self.pre_auth_tokens.wf()
        &&& self.avatar_blobs.wf()
        &&& self.backup_codes.wf()
        &&& auth_state_ok(self.model())
    }

    pub fn new() -> (r: Self)
        ensures
            r.wf(),
            r.model().users.dom().is_empty(),
            r.model().ids.dom().is_empty(),
            r.model().sessions.dom().is_empty(),
            r.model().resets.dom().is_empty(),
            r.model().verifications.dom().is_empty(),
            r.model().pre_auth.dom().is_empty(),
            r.model().prefs.dom().is_empty(),
            r.model().avatars.dom().is_empty(),
            r.model().blobs.dom().is_empty(),
            r.model().two_factor.dom().is_empty(),
            r.model().backup_codes.dom().is_empty(),
    {
        let r = InMemoryAuthStorage {
            users: Table::new(),
            users_by_id: HashMap::new(),
            sessions: Table::new(),
            password_reset_tokens: Table::new(),
            email_verification_tokens: Table::new(),
            pre_auth_tokens: Table::new(),
            preferences: HashMap::new(),
            avatars: HashMap::new(),
            avatar_blobs: Table::new(),
            two_factor: HashMap::new(),
            backup_codes: Table::new(),
        };
        assert(r.model().ids.dom() =~= Set::<Id>::empty());
        assert(r.model().blobs.dom() =~= Set::<Seq<char>>::empty());
        assert(r.model().two_factor.dom() =~= Set::<Id>::empty());
        r
    }

    /// Revoke the sessions of `user_id` under `scope`; the count of those
    /// that were still active.
    fn revoke_scoped(&mut self, user_id: Id, scope: SessionScope, revoked_at: Timestamp) -> (r: usize)
        requires
            old(self).wf(),
        ensures
            final(self).wf(),
            final(self).model() == with_sessions(
                old(self).model(),
                revoke_in(old(self).model().sessions, user_id, scope, revoked_at),
            ),
            r == old(self).model().sessions.dom().filter(
                revocable_in(old(self).model().sessions, user_id, scope),
            ).len(),
    {
        let ghost s0 = self.model();
        let ghost old_sessions = self.sessions.view();
        let ghost p = revocable_in(old_sessions, user_id, scope);
        let mut out: Table<String, Session> = Table::new();
        let mut count: usize = 0;
        let mut i: usize = 0;
        proof {
            self.sessions.lemma_key_prefix_empty();
            assert(self.sessions.key_prefix_set(0).filter(p) =~= Set::<Seq<char>>::empty());
        }
        while i < self.sessions.len()
            invariant
                self.wf(),
                self.model() == s0,
                old_sessions == self.sessions.view(),
                p == revocable_in(old_sessions, user_id, scope),
                out.wf(),
                i <= self.sessions.entries().len(),
                count <= i,
                self.sessions.key_prefix_set(i as int).filter(p).finite(),
                count == self.sessions.key_prefix_set(i as int).filter(p).len(),
                forall|k: Seq<char>| #[trigger]
                    out.view().contains_key(k) == self.sessions.key_prefix_set(i as int).contains(k),
                forall|k: Seq<char>| #[trigger]
                    out.view().contains_key(k) ==> out.view()[k] == revoke_in(
                        old_sessions,
                        user_id,
                        scope,
                        revoked_at,
                    )[k],
            decreases self.sessions.entries().len() - i,
        {
            let entry = self.sessions.entry(i);
            proof {
                self.sessions.lemma_key_prefix_step(i as int);
                self.sessions.lemma_entry_in_view(i as int);
                let sp = self.sessions.key_prefix_set(i as int);
                let k = self.sessions.entries()[i as int].0@;
                if p(k) {
                    assert(self.sessions.key_prefix_set(i + 1).filter(p) =~= sp.filter(p).insert(k));
                } else {
                    assert(self.sessions.key_prefix_set(i + 1).filter(p) =~= sp.filter(p));
                }
            }
            let s = entry.1.copy();
            let covered = s.user_id == user_id && match scope {
                SessionScope::Every => true,
                SessionScope::AllBut(id) => s.id != id,
                SessionScope::Only(id) => s.id == id,
            };
            let active = covered && s.revoked_at.is_none();
            let updated = if active {
                Session { revoked_at: Some(revoked_at), ..s }
            } else {
                s
            };
            if active {
                count = count + 1;
            }
            out.insert(entry.0.clone(), updated);
            i = i + 1;
        }
        proof {
            self.sessions.lemma_key_prefix_full();
            assert(out.view() =~= revoke_in(old_sessions, user_id, scope, revoked_at));
        }
        self.sessions = out;
        proof {
            let s = self.model();
            assert(s.ids =~= s0.ids);
            assert(s.blobs =~= s0.blobs);
            assert(s.two_factor =~= s0.two_factor);
            assert forall|k: Seq<char>| #[trigger] s.sessions.contains_key(k) implies s.sessions[k].token_hash@
                == k by {
                assert(s0.sessions.contains_key(k));
            }
        }
        count
    }

    /// Number of stored users.
    pub fn user_count(&self) -> (r: usize)
        requires
            self.wf(),
        ensures
            r == self.model().users.dom().len(),
    {
        proof {
            self.users.lemma_len();
        }
        self.users.len()
    }

    /// Number of stored sessions, revoked ones included.
    pub fn session_count(&self) -> (r: usize)
        requires
            self.wf(),
        ensures
            r == self.model().sessions.dom().len(),
    {
        proof {
            self.sessions.lemma_len();
        }
        self.sessions.len()
    }
}

impl AuthStorage for InMemoryAuthStorage {
    open spec fn inv(&self) -> bool {
        self.wf()
    }

    open spec fn infallible(&self) -> bool {
        true
    }

    open spec fn state(&self) -> AuthState {
        self.model()
    }

    proof fn lemma_state_ok(&self) {
    }

    fn user_exists(&self, email: &str) -> (r: Result<bool, ApiError>) {
        let key = email.to_owned();
        Ok(self.users.contains_key(&key))
    }

    fn get_user_by_email(&self, email: &str) -> (r: Result<Option<User>, ApiError>) {
        let key = email.to_owned();
        match self.users.get(&key) {
            Some(u) => Ok(Some(u.copy())),
            None => Ok(None),
        }
    }

    fn get_user_by_id(&self, user_id: &Id) -> (r: Result<Option<User>, ApiError>) {
        let email = match self.users_by_id.get(user_id) {
            Some(e) => e,
            None => {
                return Ok(None);
            },
        };
        proof {
            assert(self.model().ids.contains_key(*user_id));
        }
        match self.users.get(email) {
            Some(u) => Ok(Some(u.copy())),
            None => Ok(None),
        }
    }

    fn create_user(&mut self, user: &User) -> (r: Result<(), ApiError>) {
        if self.users.contains_key(&user.email) {
            return Err(ApiError::Conflict);
        }
        if self.users_by_id.contains_key(&user.id) {
            proof {
                assert(self.model().ids.contains_key(user.id));
            }
            return Err(ApiError::Conflict);
        }
        proof {
            assert(!self.model().ids.contains_key(user.id));
        }
        let ghost s0 = self.model();
        self.users.insert(user.email.clone(), user.copy());
        let _ = self.users_by_id.insert(user.id, user.email.clone());
        proof {
            let s = self.model();
            assert(s.ids =~= s0.ids.insert(user.id, user.email@));
            assert forall|e: Seq<char>| #[trigger] s.users.contains_key(e) implies s.users[e].email@
                == e by {
                if e != user.email@ {
                    assert(s0.users.contains_key(e));
                }
            }
            assert forall|id: Id| #[trigger] s.ids.contains_key(id) implies s.users.contains_key(
                s.ids[id],
            ) by {
                if id != user.id {
                    assert(s0.ids.contains_key(id));
                }
            }
        }
        Ok(())
    }

    fn update_user(&mut self, user: &User) -> (r: Result<(), ApiError>) {
        if !self.users.contains_key(&user.email) {
            return Err(ApiError::NotFound);
        }
        let ghost s0 = self.model();
        self.users.insert(user.email.clone(), user.copy());
        proof {
            let s = self.model();
            assert(s.ids =~= s0.ids);
            assert forall|e: Seq<char>| #[trigger] s.users.contains_key(e) implies s.users[e].email@
                == e by {
                if e != user.email@ {
                    assert(s0.users.contains_key(e));
                }
            }
            assert forall|id: Id| #[trigger] s.ids.contains_key(id) implies s.users.contains_key(
                s.ids[id],
            ) by {
                assert(s0.ids.contains_key(id));
            }
        }
        Ok(())
    }

    fn create_session(&mut self, session: &Session) -> (r: Result<(), ApiError>) {
        let key = session.token_hash.as_str().to_owned();
        if self.sessions.contains_key(&key) {
            return Err(ApiError::Conflict);
        }
        let ghost s0 = self.model();
        self.sessions.insert(key, session.copy());
        proof {
            assert(self.model().ids =~= s0.ids);
        }
        Ok(())
    }

    fn get_session_by_token_hash(&self, token_hash: &SessionTokenHash) -> (r: Result<
        Option<Session>,
        ApiError,
    >) {
        let key = token_hash.as_str().to_owned();
        match self.sessions.get(&key) {
            Some(s) => Ok(Some(s.copy())),
            None => Ok(None),
        }
    }

    fn revoke_session_by_token_hash(&mut self, token_hash: &SessionTokenHash, revoked_at: Timestamp) -> (r:
        Result<(), ApiError>) {
        let key = token_hash.as_str().to_owned();
        let current = match self.sessions.get(&key) {
            Some(s) => s.copy(),
            None => {
                return Ok(());
            },
        };
        let ghost s0 = self.model();
        let updated = if current.revoked_at.is_none() {
            Session { revoked_at: Some(revoked_at), ..current }
        } else {
            current
        };
        self.sessions.insert(key, updated);
        proof {
            assert(self.model().ids =~= s0.ids);
        }
        Ok(())
    }

    fn revoke_all_sessions_for_user(&mut self, user_id: &Id, revoked_at: Timestamp) -> (r: Result<
        usize,
        ApiError,
    >) {
        Ok(self.revoke_scoped(*user_id, SessionScope::Every, revoked_at))
    }

    fn create_password_reset_token(&mut self, token: &PasswordResetToken) -> (r: Result<(), ApiError>) {
        let ghost s0 = self.model();
        self.password_reset_tokens.insert(token.token_hash.clone(), token.copy());
        proof {
            assert(self.model().ids =~= s0.ids);
        }
        Ok(())
    }

    fn get_password_reset_token_by_hash(&self, token_hash: &str) -> (r: Result<
        Option<PasswordResetToken>,
        ApiError,
    >) {
        let key = token_hash.to_owned();
        match self.password_reset_tokens.get(&key) {
            Some(t) => Ok(Some(t.copy())),
            None => Ok(None),
        }
    }

    fn consume_password_reset_token(&mut self, token_hash: &str, used_at: Timestamp) -> (r: Result<
        (),
        ApiError,
    >) {
        let key = token_hash.to_owned();
        let current = match self.password_reset_tokens.get(&key) {
            Some(t) => t.copy(),
            None => {
                return Ok(());
            },
        };
        let ghost s0 = self.model();
        let updated = if current.used_at.is_none() {
            PasswordResetToken { used_at: Some(used_at), ..current }
        } else {
            current
        };
        self.password_reset_tokens.insert(key, updated);
        proof {
            assert(self.model().ids =~= s0.ids);
        }
        Ok(())
    }

    fn create_email_verification_token(&mut self, token: &EmailVerificationToken) -> (r: Result<(), ApiError>) {
        let ghost s0 = self.model();
        self.email_verification_tokens.insert(token.token_hash.clone(), token.copy());
        proof {
            assert(self.model().ids =~= s0.ids);
        }
        Ok(())
    }

    fn get_email_verification_token_by_hash(&self, token_hash: &str) -> (r: Result<
        Option<EmailVerificationToken>,
        ApiError,
    >) {
        let key = token_hash.to_owned();
        match self.email_verification_tokens.get(&key) {
            Some(t) => Ok(Some(t.copy())),
            None => Ok(None),
        }
    }

    fn consume_email_verification_token(&mut self, token_hash: &str, used_at: Timestamp) -> (r: Result<
        (),
        ApiError,
    >) {
        let key = token_hash.to_owned();
        let current = match self.email_verification_tokens.get(&key) {
            Some(t) => t.copy(),
            None => {
                return Ok(());
            },
        };
        let ghost s0 = self.model();
        let updated = if current.used_at.is_none() {
            EmailVerificationToken { used_at: Some(used_at), ..current }
        } else {
            current
        };
        self.email_verification_tokens.insert(key, updated);
        proof {
            assert(self.model().ids =~= s0.ids);
        }
        Ok(())
    }

    fn create_pre_auth_token(&mut self, token: &PreAuthToken) -> (r: Result<(), ApiError>) {
        let ghost s0 = self.model();
        self.pre_auth_tokens.insert(token.token_hash.clone(), token.copy());
        proof {
            assert(self.model().ids =~= s0.ids);
        }
        Ok(())
    }

    fn get_pre_auth_token_by_hash(&self, token_hash: &str) -> (r: Result<Option<PreAuthToken>, ApiError>) {
        let key = token_hash.to_owned();
        match self.pre_auth_tokens.get(&key) {
            Some(t) => Ok(Some(t.copy())),
            None => Ok(None),
        }
    }

    fn consume_pre_auth_token(&mut self, token_hash: &str, consumed_at: Timestamp) -> (r: Result<(), ApiError>) {
        let key = token_hash.to_owned();
        let current = match self.pre_auth_tokens.get(&key) {
            Some(t) => t.copy(),
            None => {
                return Ok(());
            },
        };
        let ghost s0 = self.model();
        let updated = if current.consumed_at.is_none() {
            PreAuthToken { consumed_at: Some(consumed_at), ..current }
        } else {
            current
        };
        self.pre_auth_tokens.insert(key, updated);
        proof {
            assert(self.model().ids =~= s0.ids);
        }
        Ok(())
    }

    fn get_active_sessions_for_user(&self, user_id: &Id, now: Timestamp) -> (r: Result<
        Vec<Session>,
        ApiError,
    >) {
        let ghost sessions = self.sessions.view();
        let mut out: Vec<Session> = Vec::new();
        let mut i: usize = 0;
        proof {
            self.sessions.lemma_key_prefix_empty();
        }
        while i < self.sessions.len()
            invariant
                self.wf(),
                sessions == self.sessions.view(),
                i <= self.sessions.entries().len(),
                forall|j: int|
                    0 <= j < out@.len() ==> {
                        &&& sessions.contains_key(#[trigger] out@[j].token_hash@)
                        &&& sessions[out@[j].token_hash@] == out@[j]
                        &&& active_at(out@[j], *user_id, now)
                        &&& self.sessions.key_prefix_set(i as int).contains(out@[j].token_hash@)
                    },
                forall|a: int, b: int|
                    0 <= a < b < out@.len() ==> (#[trigger] out@[a]).token_hash@ != (
                    #[trigger] out@[b]).token_hash@,
                forall|k: Seq<char>|
                    #![trigger self.sessions.key_prefix_set(i as int).contains(k)]
                    self.sessions.key_prefix_set(i as int).contains(k) && sessions.contains_key(k)
                        && active_at(sessions[k], *user_id, now) ==> exists|j: int|
                        0 <= j < out@.len() && (#[trigger] out@[j]).token_hash@ == k,
            decreases self.sessions.entries().len() - i,
        {
            let entry = self.sessions.entry(i);
            let ghost k = self.sessions.entries()[i as int].0@;
            proof {
                self.sessions.lemma_key_prefix_step(i as int);
                self.sessions.lemma_entry_in_view(i as int);
                assert(sessions[k].token_hash@ == k);
            }
            let s = &entry.1;
            if s.user_id == *user_id && s.is_valid_at(now) {
                let ghost before = out@;
                out.push(s.copy());
                proof {
                    assert(out@[before.len() as int] == sessions[k]);
                    assert forall|kk: Seq<char>|
                        #![trigger self.sessions.key_prefix_set(i + 1).contains(kk)]
                        self.sessions.key_prefix_set(i + 1).contains(kk) && sessions.contains_key(kk)
                            && active_at(sessions[kk], *user_id, now) implies exists|j: int|
                        0 <= j < out@.len() && (#[trigger] out@[j]).token_hash@ == kk by {
                        if kk == k {
                            assert(out@[before.len() as int].token_hash@ == kk);
                        } else {
                            assert(self.sessions.key_prefix_set(i as int).contains(kk));
                            let j = choose|j: int| 0 <= j < before.len() && (#[trigger] before[j]).token_hash@ == kk;
                            assert(out@[j] == before[j]);
                        }
                    }
                }
            } else {
                proof {
                    assert forall|kk: Seq<char>|
                        #![trigger self.sessions.key_prefix_set(i + 1).contains(kk)]
                        self.sessions.key_prefix_set(i + 1).contains(kk) && sessions.contains_key(kk)
                            && active_at(sessions[kk], *user_id, now) implies exists|j: int|
                        0 <= j < out@.len() && (#[trigger] out@[j]).token_hash@ == kk by {
                        assert(self.sessions.key_prefix_set(i as int).contains(kk));
                    }
                }
            }
            i = i + 1;
        }
        proof {
            self.sessions.lemma_key_prefix_full();
            assert forall|k: Seq<char>|
                #![trigger sessions.contains_key(k)]
                sessions.contains_key(k) && active_at(sessions[k], *user_id, now) implies exists|j: int|
                0 <= j < out@.len() && (#[trigger] out@[j]).token_hash@ == k by {
                assert(self.sessions.key_prefix_set(i as int).contains(k));
            }
        }
        Ok(out)
    }

    fn revoke_session_by_id(&mut self, session_id: &Id, user_id: &Id, revoked_at: Timestamp) -> (r:
        Result<(), ApiError>) {
        let _ = self.revoke_scoped(*user_id, SessionScope::Only(*session_id), revoked_at);
        Ok(())
    }

    fn revoke_all_sessions_except(&mut self, user_id: &Id, except_session_id: &Id, revoked_at: Timestamp) -> (r:
        Result<usize, ApiError>) {
        Ok(self.revoke_scoped(*user_id, SessionScope::AllBut(*except_session_id), revoked_at))
    }

    fn get_user_preferences(&self, user_id: &Id) -> (r: Result<Option<UserPreferences>, ApiError>) {
        match self.preferences.get(user_id) {
            Some(p) => Ok(Some(*p)),
            None => Ok(None),
        }
    }

    fn upsert_user_preferences(&mut self, preferences: &UserPreferences) -> (r: Result<(), ApiError>) {
        let ghost s0 = self.model();
        let _ = self.preferences.insert(preferences.user_id, *preferences);
        proof {
            let s = self.model();
            assert(s.ids =~= s0.ids);
            assert(s.blobs =~= s0.blobs);
            assert(s.two_factor =~= s0.two_factor);
        }
        Ok(())
    }

    fn get_avatar(&self, user_id: &Id) -> (r: Result<Option<Avatar>, ApiError>) {
        match self.avatars.get(user_id) {
            Some(a) => Ok(Some(a.copy())),
            None => Ok(None),
        }
    }

    fn upsert_avatar(&mut self, avatar: &Avatar) -> (r: Result<(), ApiError>) {
        let ghost s0 = self.model();
        let _ = self.avatars.insert(avatar.user_id, avatar.copy());
        proof {
            let s = self.model();
            assert(s.ids =~= s0.ids);
            assert(s.blobs =~= s0.blobs);
            assert(s.two_factor =~= s0.two_factor);
        }
        Ok(())
    }

    fn delete_avatar(&mut self, user_id: &Id) -> (r: Result<(), ApiError>) {
        let ghost s0 = self.model();
        let _ = self.avatars.remove(user_id);
        proof {
            let s = self.model();
            assert(s.ids =~= s0.ids);
            assert(s.blobs =~= s0.blobs);
            assert(s.two_factor =~= s0.two_factor);
        }
        Ok(())
    }

    fn get_avatar_blob(&self, blob_key: &str) -> (r: Result<Option<Vec<u8>>, ApiError>) {
        let key = blob_key.to_owned();
        match self.avatar_blobs.get(&key) {
            Some(b) => Ok(Some(bytes_to_vec(b.as_slice()))),
            None => Ok(None),
        }
    }

    fn put_avatar_blob(&mut self, blob_key: &str, data: &[u8]) -> (r: Result<(), ApiError>) {
        let ghost s0 = self.model();
        self.avatar_blobs.insert(blob_key.to_owned(), bytes_to_vec(data));
        proof {
            let s = self.model();
            assert(s.ids =~= s0.ids);
            assert(s.blobs =~= s0.blobs.insert(blob_key@, data@));
        }
        Ok(())
    }

    fn delete_avatar_blob(&mut self, blob_key: &str) -> (r: Result<(), ApiError>) {
        let ghost s0 = self.model();
        let key = blob_key.to_owned();
        let _ = self.avatar_blobs.remove(&key);
        proof {
            let s = self.model();
            assert(s.ids =~= s0.ids);
            assert(s.blobs =~= s0.blobs.remove(blob_key@));
        }
        Ok(())
    }

    fn create_two_factor_settings(&mut self, settings: &TwoFactorSettings) -> (r: Result<(), ApiError>) {
        let ghost s0 = self.model();
        let _ = self.two_factor.insert(settings.user_id, settings.copy());
        proof {
            let s = self.model();
            assert(s.ids =~= s0.ids);
            assert(s.blobs =~= s0.blobs);
            assert(s.two_factor =~= s0.two_factor.insert(settings.user_id, settings@));
        }
        Ok(())
    }

    fn get_two_factor_settings(&self, user_id: &Id) -> (r: Result<Option<TwoFactorSettings>, ApiError>) {
        match self.two_factor.get(user_id) {
            Some(t) => Ok(Some(t.copy())),
            None => Ok(None),
        }
    }

    fn update_two_factor_settings(&mut self, settings: &TwoFactorSettings) -> (r: Result<(), ApiError>) {
        self.create_two_factor_settings(settings)
    }

    fn delete_two_factor_settings(&mut self, user_id: &Id) -> (r: Result<(), ApiError>) {
        let ghost s0 = self.model();
        let _ = self.two_factor.remove(user_id);
        proof {
            let s = self.model();
            assert(s.ids =~= s0.ids);
            assert(s.blobs =~= s0.blobs);
            assert(s.two_factor =~= s0.two_factor.remove(*user_id));
        }
        Ok(())
    }

    fn create_backup_code(&mut self, code: &BackupCode) -> (r: Result<(), ApiError>) {
        let ghost s0 = self.model();
        self.backup_codes.insert(code.id, code.copy());
        proof {
            let s = self.model();
            assert(s.ids =~= s0.ids);
            assert(s.blobs =~= s0.blobs);
            assert(s.two_factor =~= s0.two_factor);
        }
        Ok(())
    }

    fn list_backup_codes(&self, user_id: &Id) -> (r: Result<Vec<BackupCode>, ApiError>) {
        let ghost codes = self.backup_codes.view();
        let mut out: Vec<BackupCode> = Vec::new();
        let mut i: usize = 0;
        proof {
            self.backup_codes.lemma_key_prefix_empty();
        }
        while i < self.backup_codes.len()
            invariant
                self.wf(),
                codes == self.backup_codes.view(),
                i <= self.backup_codes.entries().len(),
                forall|j: int|
                    0 <= j < out@.len() ==> {
                        &&& codes.contains_key(#[trigger] out@[j].id)
                        &&& codes[out@[j].id] == out@[j]
                        &&& out@[j].user_id == *user_id
                        &&& self.backup_codes.key_prefix_set(i as int).contains(out@[j].id)
                    },
                forall|a: int, b: int|
                    0 <= a < b < out@.len() ==> (#[trigger] out@[a]).id != (#[trigger] out@[b]).id,
                forall|k: Id|
                    #![trigger self.backup_codes.key_prefix_set(i as int).contains(k)]
                    self.backup_codes.key_prefix_set(i as int).contains(k) && codes.contains_key(k)
                        && codes[k].user_id == *user_id ==> exists|j: int|
                        0 <= j < out@.len() && (#[trigger] out@[j]).id == k,
            decreases self.backup_codes.entries().len() - i,
        {
            let entry = self.backup_codes.entry(i);
            let ghost k = self.backup_codes.entries()[i as int].0;
            proof {
                self.backup_codes.lemma_key_prefix_step(i as int);
                self.backup_codes.lemma_entry_in_view(i as int);
                assert(codes[k].id == k);
            }
            let c = &entry.1;
            if c.user_id == *user_id {
                let ghost before = out@;
                out.push(c.copy());
                proof {
                    assert(out@[before.len() as int] == codes[k]);
                    assert forall|kk: Id|
                        #![trigger self.backup_codes.key_prefix_set(i + 1).contains(kk)]
                        self.backup_codes.key_prefix_set(i + 1).contains(kk) && codes.contains_key(kk)
                            && codes[kk].user_id == *user_id implies exists|j: int|
                        0 <= j < out@.len() && (#[trigger] out@[j]).id == kk by {
                        if kk == k {
                            assert(out@[before.len() as int].id == kk);
                        } else {
                            assert(self.backup_codes.key_prefix_set(i as int).contains(kk));
                            let j = choose|j: int| 0 <= j < before.len() && (#[trigger] before[j]).id == kk;
                            assert(out@[j] == before[j]);
                        }
                    }
                }
            } else {
                proof {
                    assert forall|kk: Id|
                        #![trigger self.backup_codes.key_prefix_set(i + 1).contains(kk)]
                        self.backup_codes.key_prefix_set(i + 1).contains(kk) && codes.contains_key(kk)
                            && codes[kk].user_id == *user_id implies exists|j: int|
                        0 <= j < out@.len() && (#[trigger] out@[j]).id == kk by {
                        assert(self.backup_codes.key_prefix_set(i as int).contains(kk));
                    }
                }
            }
            i = i + 1;
        }
        proof {
            self.backup_codes.lemma_key_prefix_full();
            assert forall|k: Id|
                #![trigger codes.contains_key(k)]
                codes.contains_key(k) && codes[k].user_id == *user_id implies exists|j: int|
                0 <= j < out@.len() && (#[trigger] out@[j]).id == k by {
                assert(self.backup_codes.key_prefix_set(i as int).contains(k));
            }
        }
        Ok(out)
    }

    fn consume_backup_code(&mut self, user_id: &Id, code_hash: &str, used_at: Timestamp) -> (r: Result<
        bool,
        ApiError,
    >) {
        let ghost s0 = self.model();
        let ghost codes = self.backup_codes.view();
        let mut i: usize = 0;
        let mut hit = false;
        while i < self.backup_codes.len() && !hit
            invariant
                self.wf(),
                self.model() == s0,
                codes == self.backup_codes.view(),
                i <= self.backup_codes.entries().len(),
                hit ==> i < self.backup_codes.entries().len() && code_matches(
                    codes,
                    *user_id,
                    code_hash@,
                    self.backup_codes.entries()[i as int].0,
                ),
                !hit ==> forall|j: int|
                    0 <= j < i ==> !code_matches(
                        codes,
                        *user_id,
                        code_hash@,
                        #[trigger] self.backup_codes.entries()[j].0,
                    ),
            decreases self.backup_codes.entries().len() - i, (if hit { 0int } else { 1int }),
        {
            let entry = self.backup_codes.entry(i);
            proof {
                self.backup_codes.lemma_entry_in_view(i as int);
            }
            let c = &entry.1;
            if c.user_id == *user_id && str_eq(c.code_hash.as_str(), code_hash) && c.is_active() {
                hit = true;
            } else {
                i = i + 1;
            }
        }
        if !hit {
            proof {
                assert forall|k: Id| !code_matches(codes, *user_id, code_hash@, k) by {
                    if codes.contains_key(k) {
                        self.backup_codes.lemma_view_has_entry(k);
                    }
                }
            }
            return Ok(false);
        }
        let entry = self.backup_codes.entry(i);
        proof {
            self.backup_codes.lemma_entry_in_view(i as int);
        }
        let key = entry.0;
        let updated = BackupCode { used_at: Some(used_at), ..entry.1.copy() };
        self.backup_codes.insert(key, updated);
        proof {
            let s = self.model();
            assert(s.ids =~= s0.ids);
            assert(s.blobs =~= s0.blobs);
            assert(s.two_factor =~= s0.two_factor);
            assert(s.backup_codes =~= s0.backup_codes.insert(key, used_code(s0.backup_codes[key], used_at)));
            assert(code_matches(s0.backup_codes, *user_id, code_hash@, key));
            assert(s0 == old(self).state());
        }
        Ok(true)
    }

    fn revoke_all_backup_codes(&mut self, user_id: &Id, revoked_at: Timestamp) -> (r: Result<usize, ApiError>) {
        let ghost s0 = self.model();
        let ghost old_codes = self.backup_codes.view();
        let ghost p = active_code_of(old_codes, *user_id);
        let mut out: Table<Id, BackupCode> = Table::new();
        let mut count: usize = 0;
        let mut i: usize = 0;
        proof {
            self.backup_codes.lemma_key_prefix_empty();
            assert(self.backup_codes.key_prefix_set(0).filter(p) =~= Set::<Id>::empty());
        }
        while i < self.backup_codes.len()
            invariant
                self.wf(),
                self.model() == s0,
                old_codes == self.backup_codes.view(),
                p == active_code_of(old_codes, *user_id),
                out.wf(),
                i <= self.backup_codes.entries().len(),
                count <= i,
                self.backup_codes.key_prefix_set(i as int).filter(p).finite(),
                count == self.backup_codes.key_prefix_set(i as int).filter(p).len(),
                forall|k: Id| #[trigger]
                    out.view().contains_key(k) == self.backup_codes.key_prefix_set(i as int).contains(k),
                forall|k: Id| #[trigger]
                    out.view().contains_key(k) ==> out.view()[k] == revoke_codes(old_codes, *user_id, revoked_at)[k],
            decreases self.backup_codes.entries().len() - i,
        {
            let entry = self.backup_codes.entry(i);
            proof {
                self.backup_codes.lemma_key_prefix_step(i as int);
                self.backup_codes.lemma_entry_in_view(i as int);
                let sp = self.backup_codes.key_prefix_set(i as int);
                let k = self.backup_codes.entries()[i as int].0;
                if p(k) {
                    assert(self.backup_codes.key_prefix_set(i + 1).filter(p) =~= sp.filter(p).insert(k));
                } else {
                    assert(self.backup_codes.key_prefix_set(i + 1).filter(p) =~= sp.filter(p));
                }
            }
            let c = entry.1.copy();
            let active = c.user_id == *user_id && c.is_active();
            let updated = if active {
                BackupCode { revoked_at: Some(revoked_at), ..c }
            } else {
                c
            };
            if active {
                count = count + 1;
            }
            out.insert(entry.0, updated);
            i = i + 1;
        }
        proof {
            self.backup_codes.lemma_key_prefix_full();
            assert(out.view() =~= revoke_codes(old_codes, *user_id, revoked_at));
        }
        self.backup_codes = out;
        proof {
            let s = self.model();
            assert(s.ids =~= s0.ids);
            assert(s.blobs =~= s0.blobs);
            assert(s.two_factor =~= s0.two_factor);
        }
        Ok(count)
    }
}

} // verus!
