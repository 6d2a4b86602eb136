use aevum_platform_api::auth::avatar::{Avatar, AvatarMime};
use aevum_platform_api::auth::events::storage::{InMemorySecurityEventStorage, SecurityEventStorage};
use aevum_platform_api::auth::events::{SecurityEvent, SecurityEventKind, SecurityMetadata};
use aevum_platform_api::auth::models::{LoginResult, Session, SessionTokenHash, User};
use aevum_platform_api::auth::secret_cipher::{SecretCipher, TestSecretCipher};
use aevum_platform_api::auth::preferences::{Language, Theme, UserPreferencesUpdate};
use aevum_platform_api::auth::password::SessionToken;
use aevum_platform_api::auth::rate_limit::{InMemoryRateLimiter, LoginRateLimiter, RateLimitConfig};
use aevum_platform_api::auth::service::{normalize_email, AuthService};
use aevum_platform_api::auth::storage::{AuthStorage, InMemoryAuthStorage};
use aevum_platform_api::error::ApiError;

const DAY: i64 = 86_400_000_000;
const PASSWORD: &str = "correct-horse-battery-staple";

fn token(text: &str) -> SessionToken {
    SessionToken::from_secret(text.to_owned())
}

fn limiter_with(config: RateLimitConfig) -> InMemoryRateLimiter {
    InMemoryRateLimiter::new(config)
}

#[test]
fn login_ip_limit_enforced() {
    let mut limiter = limiter_with(RateLimitConfig {
        login_ip_limit: 2,
        ..Default::default()
    });
    assert!(limiter.check_login_ip("127.0.0.1", 1_000).is_ok());
    limiter.record_login_failure("127.0.0.1", "test@example.com", 1_000);
    assert!(limiter.check_login_ip("127.0.0.1", 1_001).is_ok());
    limiter.record_login_failure("127.0.0.1", "test@example.com", 1_002);
    assert_eq!(
        limiter.check_login_ip("127.0.0.1", 1_003),
        Err(ApiError::RateLimited)
    );
}

#[test]
fn login_email_limit_enforced() {
    let mut limiter = limiter_with(RateLimitConfig {
        login_email_limit: 2,
        ..Default::default()
    });
    assert!(limiter.check_login_email("test@example.com", 1_000).is_ok());
    limiter.record_login_failure("127.0.0.1", "test@example.com", 1_000);
    assert!(limiter.check_login_email("test@example.com", 1_001).is_ok());
    limiter.record_login_failure("127.0.0.1", "test@example.com", 1_002);
    assert!(limiter.check_login_email("test@example.com", 1_003).is_err());
}

#[test]
fn register_ip_limit_enforced() {
    let mut limiter = limiter_with(RateLimitConfig {
        register_ip_limit: 2,
        ..Default::default()
    });
    assert!(limiter.check_register_ip("127.0.0.1", 10).is_ok());
    limiter.record_successful_registration("127.0.0.1", 10);
    assert!(limiter.check_register_ip("127.0.0.1", 11).is_ok());
    limiter.record_successful_registration("127.0.0.1", 11);
    assert!(limiter.check_register_ip("127.0.0.1", 12).is_err());
}

#[test]
fn successful_login_clears_bucket() {
    let mut limiter = limiter_with(RateLimitConfig {
        login_email_limit: 1,
        ..Default::default()
    });
    limiter.record_login_failure("127.0.0.1", "test@example.com", 5);
    assert!(limiter.check_login_email("test@example.com", 6).is_err());
    limiter.record_login_success("127.0.0.1", "test@example.com");
    assert!(limiter.check_login_email("test@example.com", 7).is_ok());
}

#[test]
fn lock_expires_after_window() {
    let window = 900_000_000u64;
    let mut limiter = limiter_with(RateLimitConfig {
        login_ip_limit: 1,
        ..Default::default()
    });
    limiter.record_login_failure("ip", "e", 0);
    assert!(limiter.check_login_ip("ip", 10).is_err());
    assert!(limiter.check_login_ip("ip", 10 + window).is_ok());
}

#[test]
fn storage_user_lifecycle() {
    let mut storage = InMemoryAuthStorage::new();
    let user = User::new_at(1, "test@example.com".to_owned(), "hash".to_owned(), 5);
    assert!(!storage.user_exists("test@example.com").unwrap());
    storage.create_user(&user).unwrap();
    assert!(storage.user_exists("test@example.com").unwrap());
    let by_email = storage.get_user_by_email("test@example.com").unwrap().unwrap();
    assert_eq!(by_email.id, 1);
    let by_id = storage.get_user_by_id(&1).unwrap().unwrap();
    assert_eq!(by_id.email, "test@example.com");
    assert_eq!(storage.user_count(), 1);
    let same_email = User::new_at(2, "test@example.com".to_owned(), "h2".to_owned(), 5);
    assert_eq!(storage.create_user(&same_email), Err(ApiError::Conflict));
    let same_id = User::new_at(1, "other@example.com".to_owned(), "h3".to_owned(), 5);
    assert_eq!(storage.create_user(&same_id), Err(ApiError::Conflict));
    let stranger = User::new_at(3, "nobody@example.com".to_owned(), "h".to_owned(), 5);
    assert_eq!(storage.update_user(&stranger), Err(ApiError::NotFound));
}

#[test]
fn storage_session_lifecycle() {
    let mut storage = InMemoryAuthStorage::new();
    let hash = SessionTokenHash::new("test_token_hash".to_owned());
    let session = Session::new_at(10, 1, hash.clone_hash(), 100 + DAY, 100);
    storage.create_session(&session).unwrap();
    assert_eq!(storage.session_count(), 1);
    let again = Session::new_at(11, 1, hash.clone_hash(), 100 + DAY, 100);
    assert_eq!(storage.create_session(&again), Err(ApiError::Conflict));
    storage.revoke_session_by_token_hash(&hash, 200).unwrap();
    storage.revoke_session_by_token_hash(&hash, 300).unwrap();
    let revoked = storage.get_session_by_token_hash(&hash).unwrap().unwrap();
    assert_eq!(revoked.revoked_at, Some(200));
    let unknown = SessionTokenHash::new("unknown".to_owned());
    assert!(storage.revoke_session_by_token_hash(&unknown, 1).is_ok());
}

#[test]
fn storage_revoke_all_counts_active_sessions() {
    let mut storage = InMemoryAuthStorage::new();
    for (i, user) in [(1u128, 1u128), (2, 1), (3, 2)] {
        let hash = SessionTokenHash::new(format!("h{i}"));
        storage
            .create_session(&Session::new_at(i, user, hash, DAY, 0))
            .unwrap();
    }
    assert_eq!(storage.revoke_all_sessions_for_user(&1, 50).unwrap(), 2);
    assert_eq!(storage.revoke_all_sessions_for_user(&1, 60).unwrap(), 0);
    let other = storage
        .get_session_by_token_hash(&SessionTokenHash::new("h3".to_owned()))
        .unwrap()
        .unwrap();
    assert!(other.revoked_at.is_none());
}

#[test]
fn email_normalization_trims_and_lowercases() {
    assert_eq!(normalize_email("  Test@Example.COM "), "test@example.com");
}

fn service() -> AuthService<InMemoryAuthStorage> {
    AuthService::new(InMemoryAuthStorage::new())
}

#[test]
fn register_then_login_then_authenticate() {
    let mut auth = service();
    let user = auth
        .register_at(" User@Example.com ", PASSWORD, "10.0.0.1", 42, 1_000)
        .unwrap();
    assert_eq!(user.id, 42);
    assert_eq!(user.email, "user@example.com");
    assert!(user.password_hash.starts_with("$argon2id$"));
    let (logged_in, session_token) = match auth
        .login_at("user@example.com", PASSWORD, "10.0.0.1", 2_000, 7, token("tok-1"))
        .unwrap()
    {
        LoginResult::Session { user, session_token } => (user, session_token),
        LoginResult::RequiresTwoFactor { .. } => panic!("no second factor is configured"),
    };
    assert_eq!(logged_in.id, 42);
    assert_eq!(session_token.expose(), "tok-1");
    let ctx = auth.authenticate_at(&token("tok-1"), 3_000).unwrap().unwrap();
    assert_eq!(ctx.user.id, 42);
    assert_eq!(ctx.session.id, 7);
    assert_eq!(ctx.session.expires_at, 2_000 + 7 * DAY);
    assert!(auth.authenticate_at(&token("tok-1"), 2_000 + 7 * DAY).unwrap().is_none());
    assert!(auth.authenticate_at(&token("other"), 3_000).unwrap().is_none());
}

#[test]
fn register_rejects_blank_and_duplicate_emails() {
    let mut auth = service();
    assert_eq!(
        auth.register_at("   ", PASSWORD, "ip", 1, 0).err().unwrap(),
        ApiError::BadRequest
    );
    auth.register_at("a@example.com", PASSWORD, "ip", 1, 0).unwrap();
    assert_eq!(
        auth.register_at("A@EXAMPLE.COM", PASSWORD, "ip", 2, 0).err().unwrap(),
        ApiError::Conflict
    );
    assert_eq!(
        auth.register_at("b@example.com", "", "ip", 3, 0).err().unwrap(),
        ApiError::Internal
    );
}

#[test]
fn register_is_rate_limited_per_ip() {
    let mut auth = service();
    for i in 0..5u128 {
        let email = format!("user{i}@example.com");
        auth.register_at(&email, PASSWORD, "1.2.3.4", i, 0).unwrap();
    }
    assert_eq!(
        auth.register_at("late@example.com", PASSWORD, "1.2.3.4", 99, 0).err().unwrap(),
        ApiError::RateLimited
    );
    assert!(auth
        .register_at("late@example.com", PASSWORD, "5.6.7.8", 99, 0)
        .is_ok());
}

#[test]
fn login_failures_are_unauthorized_and_limited() {
    let mut auth = service();
    auth.register_at("u@example.com", PASSWORD, "ip", 1, 0).unwrap();
    assert_eq!(
        auth.login_at("nobody@example.com", PASSWORD, "ip", 10, 2, token("a")).err().unwrap(),
        ApiError::Unauthorized
    );
    for i in 0..5i64 {
        assert_eq!(
            auth.login_at("u@example.com", "wrong-password", "ip", 20 + i, 3, token("b"))
                .err().unwrap(),
            ApiError::Unauthorized
        );
    }
    assert_eq!(
        auth.login_at("u@example.com", PASSWORD, "ip", 30, 4, token("c")).err().unwrap(),
        ApiError::RateLimited
    );
}

#[test]
fn logout_revokes_and_is_idempotent() {
    let mut auth = service();
    auth.register_at("u@example.com", PASSWORD, "ip", 1, 0).unwrap();
    auth.login_at("u@example.com", PASSWORD, "ip", 10, 2, token("t1")).unwrap();
    auth.logout_at(&token("t1"), 20).unwrap();
    assert!(auth.authenticate_at(&token("t1"), 21).unwrap().is_none());
    assert!(auth.logout_at(&token("t1"), 30).is_ok());
    assert!(auth.logout_at(&token("never-issued"), 30).is_ok());
}

#[test]
fn rotation_replaces_the_session() {
    let mut auth = service();
    auth.register_at("u@example.com", PASSWORD, "ip", 1, 0).unwrap();
    auth.login_at("u@example.com", PASSWORD, "ip", 10, 2, token("old")).unwrap();
    let (new_token, csrf) = auth
        .rotate_session_at(&token("old"), 20, 3, token("new"))
        .unwrap();
    assert_eq!(new_token.expose(), "new");
    assert_eq!(csrf.as_str().len(), 43);
    assert!(auth.authenticate_at(&token("old"), 21).unwrap().is_none());
    let ctx = auth.authenticate_at(&token("new"), 21).unwrap().unwrap();
    assert_eq!(ctx.session.id, 3);
    assert_eq!(
        auth.rotate_session_at(&token("old"), 22, 4, token("newer")).err().unwrap(),
        ApiError::Unauthorized
    );
}

#[test]
fn password_change_revokes_every_session() {
    let mut auth = service();
    auth.register_at("u@example.com", PASSWORD, "ip", 1, 0).unwrap();
    auth.login_at("u@example.com", PASSWORD, "ip", 10, 2, token("s1")).unwrap();
    auth.login_at("u@example.com", PASSWORD, "ip", 11, 3, token("s2")).unwrap();
    assert_eq!(
        auth.change_password_at(&1, "wrong-password", "another-long-password", 20, 4, token("s3"))
            .err().unwrap(),
        ApiError::Unauthorized
    );
    let fresh = auth
        .change_password_at(&1, PASSWORD, "another-long-password", 30, 5, token("s4"))
        .unwrap();
    assert_eq!(fresh.expose(), "s4");
    assert!(auth.authenticate_at(&token("s1"), 31).unwrap().is_none());
    assert!(auth.authenticate_at(&token("s2"), 31).unwrap().is_none());
    assert!(auth.authenticate_at(&token("s4"), 31).unwrap().is_some());
    assert!(auth
        .login_at("u@example.com", "another-long-password", "ip2", 40, 6, token("s5"))
        .is_ok());
    assert_eq!(
        auth.change_password_at(&99, PASSWORD, "x-long-password", 50, 7, token("s6"))
            .err().unwrap(),
        ApiError::Unauthorized
    );
}

#[test]
fn password_reset_is_single_use() {
    let mut auth = service();
    auth.register_at("u@example.com", PASSWORD, "ip", 1, 0).unwrap();
    auth.login_at("u@example.com", PASSWORD, "ip", 10, 2, token("s1")).unwrap();
    assert!(auth
        .request_password_reset_at("nobody@example.com", "ip", 20, token("unused"))
        .is_ok());
    auth.request_password_reset_at("U@example.com", "ip", 20, token("reset-1"))
        .unwrap();
    assert_eq!(
        auth.confirm_password_reset_at("wrong", "brand-new-password", 30).err().unwrap(),
        ApiError::Unauthorized
    );
    auth.confirm_password_reset_at("reset-1", "brand-new-password", 30)
        .unwrap();
    assert!(auth.authenticate_at(&token("s1"), 31).unwrap().is_none());
    assert_eq!(
        auth.confirm_password_reset_at("reset-1", "brand-new-password-2", 40)
            .err().unwrap(),
        ApiError::Unauthorized
    );
    assert!(auth
        .login_at("u@example.com", "brand-new-password", "ip", 50, 3, token("s2"))
        .is_ok());
}

#[test]
fn password_reset_token_expires() {
    let mut auth = service();
    auth.register_at("u@example.com", PASSWORD, "ip", 1, 0).unwrap();
    auth.request_password_reset_at("u@example.com", "ip", 0, token("reset"))
        .unwrap();
    let thirty_minutes = 30 * 60 * 1_000_000;
    assert_eq!(
        auth.confirm_password_reset_at("reset", "brand-new-password", thirty_minutes)
            .err().unwrap(),
        ApiError::Unauthorized
    );
}

#[test]
fn session_duration_is_bounded() {
    assert!(AuthService::with_session_duration(InMemoryAuthStorage::new(), 0).is_err());
    assert!(AuthService::with_session_duration(InMemoryAuthStorage::new(), 31).is_err());
    let auth = AuthService::with_session_duration(InMemoryAuthStorage::new(), 30).unwrap();
    assert_eq!(auth.session_duration_days(), 30);
    assert_eq!(service().session_duration_days(), 7);
}

#[test]
fn get_user_reads_by_id() {
    let mut auth = service();
    auth.register_at("u@example.com", PASSWORD, "ip", 5, 0).unwrap();
    assert_eq!(auth.get_user(&5).unwrap().unwrap().email, "u@example.com");
    assert!(auth.get_user(&6).unwrap().is_none());
    assert!(!auth.events().get_recent_events(10).unwrap().is_empty());
}

fn png(width: u32, height: u32) -> Vec<u8> {
    let mut data = vec![
        0x89, 0x50, 0x4E, 0x47, 0x0D, 0x0A, 0x1A, 0x0A, 0x00, 0x00, 0x00, 0x0D, b'I', b'H', b'D',
        b'R',
    ];
    data.extend_from_slice(&width.to_be_bytes());
    data.extend_from_slice(&height.to_be_bytes());
    data.extend_from_slice(&[8, 2, 0, 0, 0]);
    data
}

#[test]
fn sessions_are_listed_and_revoked_one_by_one() {
    let mut auth = service();
    auth.register_at("u@example.com", PASSWORD, "ip", 1, 0).unwrap();
    auth.register_at("v@example.com", PASSWORD, "ip", 2, 0).unwrap();
    auth.login_at("u@example.com", PASSWORD, "ip", 10, 100, token("a")).unwrap();
    auth.login_at("u@example.com", PASSWORD, "ip", 11, 101, token("b")).unwrap();
    auth.login_at("v@example.com", PASSWORD, "ip", 12, 200, token("c")).unwrap();

    let mut listed = auth.list_sessions_at(&1, Some(101), 20).unwrap();
    listed.sort_by_key(|s| s.id);
    assert_eq!(listed.len(), 2);
    assert_eq!((listed[0].id, listed[0].current), (100, false));
    assert_eq!((listed[1].id, listed[1].current), (101, true));
    assert_eq!(listed[0].created_at, 10);
    assert_eq!(listed[0].expires_at, 10 + 7 * DAY);

    // Another user's session is not touched.
    auth.revoke_session_at(&200, &1, 30).unwrap();
    assert!(auth.authenticate_at(&token("c"), 31).unwrap().is_some());

    auth.revoke_session_at(&100, &1, 30).unwrap();
    assert!(auth.authenticate_at(&token("a"), 31).unwrap().is_none());
    assert!(auth.authenticate_at(&token("b"), 31).unwrap().is_some());
    let listed = auth.list_sessions_at(&1, None, 31).unwrap();
    assert_eq!(listed.len(), 1);
    assert_eq!(listed[0].id, 101);
    assert!(!listed[0].current);

    // Expired sessions are not listed.
    assert!(auth.list_sessions_at(&1, None, 11 + 7 * DAY).unwrap().is_empty());
}

#[test]
fn revoke_other_sessions_keeps_the_current_one() {
    let mut auth = service();
    auth.register_at("u@example.com", PASSWORD, "ip", 1, 0).unwrap();
    auth.login_at("u@example.com", PASSWORD, "ip", 10, 100, token("a")).unwrap();
    assert_eq!(auth.revoke_other_sessions_at(&1, &100, 15).unwrap(), 0);
    auth.login_at("u@example.com", PASSWORD, "ip", 20, 101, token("b")).unwrap();
    auth.login_at("u@example.com", PASSWORD, "ip", 21, 102, token("c")).unwrap();
    assert_eq!(auth.revoke_other_sessions_at(&1, &101, 30).unwrap(), 2);
    assert!(auth.authenticate_at(&token("a"), 31).unwrap().is_none());
    assert!(auth.authenticate_at(&token("b"), 31).unwrap().is_some());
    assert!(auth.authenticate_at(&token("c"), 31).unwrap().is_none());
    let listed = auth.list_sessions_at(&1, Some(101), 31).unwrap();
    assert_eq!(listed.len(), 1);
    assert!(listed[0].current);
    assert_eq!(auth.revoke_other_sessions_at(&1, &101, 40).unwrap(), 0);
}

#[test]
fn preferences_default_then_partial_updates() {
    let mut auth = service();
    let defaults = auth.get_preferences_at(&7, 5).unwrap();
    assert_eq!(defaults.user_id, 7);
    assert_eq!(defaults.theme, Theme::System);
    assert_eq!(defaults.language, Language::En);
    assert!(defaults.notifications_enabled);
    assert_eq!(defaults.updated_at, 5);

    let dark = auth
        .update_preferences_at(
            &7,
            UserPreferencesUpdate {
                theme: Some(Theme::Dark),
                ..Default::default()
            },
            10,
        )
        .unwrap();
    assert_eq!(dark.theme, Theme::Dark);
    assert!(dark.notifications_enabled);
    assert_eq!(dark.updated_at, 10);

    let quiet = auth
        .update_preferences_at(
            &7,
            UserPreferencesUpdate {
                notifications_enabled: Some(false),
                ..Default::default()
            },
            20,
        )
        .unwrap();
    assert_eq!(quiet.theme, Theme::Dark);
    assert!(!quiet.notifications_enabled);
    assert_eq!(auth.get_preferences_at(&7, 99).unwrap(), quiet);
    assert_eq!(auth.get_preferences(&7).unwrap(), quiet);

    let unchanged = auth
        .update_preferences_at(&7, UserPreferencesUpdate::default(), 30)
        .unwrap();
    assert_eq!(unchanged.theme, Theme::Dark);
    assert_eq!(unchanged.updated_at, 30);
    // Another user still has the defaults.
    assert_eq!(auth.get_preferences_at(&8, 1).unwrap().theme, Theme::System);
}

#[test]
fn avatar_upload_read_replace_delete() {
    let mut auth = service();
    assert!(auth.get_avatar(&9).unwrap().is_none());
    assert_eq!(
        auth.upload_avatar_at(&9, "image/png", &[1, 2, 3], 1).err().unwrap(),
        ApiError::BadRequest
    );
    assert_eq!(
        auth.upload_avatar_at(&9, "image/jpeg", &png(10, 10), 1).err().unwrap(),
        ApiError::BadRequest
    );
    assert!(auth.get_avatar(&9).unwrap().is_none());

    let data = png(64, 32);
    let avatar = auth.upload_avatar_at(&9, "image/png", &data, 5).unwrap();
    assert_eq!(avatar.user_id, 9);
    assert_eq!(avatar.mime_type, AvatarMime::Png);
    assert_eq!(avatar.size, data.len() as u64);
    assert_eq!(avatar.content_hash, Avatar::hash_bytes(&data));
    assert_eq!(avatar.blob_key, Avatar::blob_key_for(9));
    assert_eq!(avatar.uploaded_at, 5);

    let (stored, payload) = auth.get_avatar(&9).unwrap().unwrap();
    assert_eq!(stored.blob_key, avatar.blob_key);
    assert_eq!(payload, data);

    let replacement = png(16, 16);
    auth.upload_avatar_at(&9, "image/png", &replacement, 6).unwrap();
    let (_, payload) = auth.get_avatar(&9).unwrap().unwrap();
    assert_eq!(payload, replacement);

    auth.delete_avatar(&9).unwrap();
    assert!(auth.get_avatar(&9).unwrap().is_none());
    assert!(auth.delete_avatar(&9).is_ok());
}

#[test]
fn avatar_object_id_is_deterministic_per_user() {
    assert_eq!(Avatar::object_id_for(1), Avatar::object_id_for(1));
    assert_ne!(Avatar::object_id_for(1), Avatar::object_id_for(2));
}

fn wall_clock_micros() -> i64 {
    std::time::SystemTime::now()
        .duration_since(std::time::UNIX_EPOCH)
        .unwrap()
        .as_micros() as i64
}

#[test]
fn storage_duplicate_email_is_conflict() {
    let mut storage = InMemoryAuthStorage::new();
    let user1 = User::new("test@example.com".to_string(), "hash1".to_string());
    let user2 = User::new("test@example.com".to_string(), "hash2".to_string());
    storage.create_user(&user1).unwrap();
    assert!(matches!(storage.create_user(&user2), Err(ApiError::Conflict)));
}

#[test]
fn storage_duplicate_user_id_is_conflict() {
    let mut storage = InMemoryAuthStorage::new();
    let user = User::new("first@example.com".to_string(), "hash".to_string());
    storage.create_user(&user).unwrap();
    let duplicate_id = User {
        id: user.id,
        email: "second@example.com".to_string(),
        password_hash: "hash".to_string(),
        status: user.status,
        email_verified: user.email_verified,
        email_verified_at: user.email_verified_at,
        created_at: user.created_at,
        updated_at: user.updated_at,
    };
    assert!(matches!(storage.create_user(&duplicate_id), Err(ApiError::Conflict)));
}

#[test]
fn storage_logout_unknown_session_is_idempotent() {
    let mut storage = InMemoryAuthStorage::new();
    let token_hash = SessionTokenHash::new("unknown_token".to_string());
    assert!(storage
        .revoke_session_by_token_hash(&token_hash, wall_clock_micros())
        .is_ok());
}

#[test]
fn duplicate_session_hash_is_conflict() {
    let mut storage = InMemoryAuthStorage::new();
    let user = User::new("test@example.com".to_string(), "hash".to_string());
    storage.create_user(&user).unwrap();
    let token_hash = SessionTokenHash::new("same_hash".to_string());
    let expires_at = wall_clock_micros() + 3_600_000_000;
    let session1 = Session::new(user.id, token_hash.clone(), expires_at);
    let session2 = Session::new(user.id, token_hash.clone(), expires_at);
    storage.create_session(&session1).unwrap();
    assert!(matches!(storage.create_session(&session2), Err(ApiError::Conflict)));
}

#[test]
fn test_cipher_roundtrip() {
    let cipher = TestSecretCipher::new();
    let plaintext = b"my-secret-value";
    let ciphertext = cipher.encrypt(42, plaintext).unwrap();
    let decrypted = cipher.decrypt(&ciphertext).unwrap();
    assert_eq!(&decrypted[..], plaintext);
}

#[test]
fn test_cipher_is_passthrough() {
    let cipher = TestSecretCipher::new();
    let plaintext = b"visible-plaintext";
    let ciphertext = cipher.encrypt(0, plaintext).unwrap();
    assert_eq!(ciphertext, plaintext);
}

#[test]
fn storage_event_recording_and_retrieval() {
    let mut storage = InMemorySecurityEventStorage::new();
    let event = SecurityEvent::LoginSuccess {
        metadata: SecurityMetadata::new(None, None),
        user_id: 77,
        email: "test@example.com".to_string(),
    };
    storage.record_event(event.clone()).unwrap();
    assert_eq!(storage.event_count(), 1);
    assert_eq!(storage.get_events_for_user(77, 10).unwrap().len(), 1);
    assert_eq!(storage.get_recent_events(10).unwrap().len(), 1);
    assert_eq!(storage.get_events_by_type(SecurityEventKind::LoginSuccess, 10).unwrap().len(), 1);
    assert_eq!(storage.get_events_since(wall_clock_micros() - 60_000_000, 10).unwrap().len(), 1);
    assert_eq!(storage.prune_before(wall_clock_micros() + 1_000_000), Ok(1));
    assert_eq!(storage.event_count(), 0);
    assert_eq!(storage.flush(), Ok(()));
}
