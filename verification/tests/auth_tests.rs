use aevum_platform_api::auth::models::{PreAuthToken, MAX_TTL_SECONDS};
use aevum_platform_api::auth::avatar::{
    validate_avatar, Avatar, AvatarMime, AvatarValidationError, AVATAR_MAX_BYTES,
};
use aevum_platform_api::auth::backup_codes::{
    generate_code, generate_set, is_alphabet_byte, is_valid_normalized_code, normalize_code,
    BACKUP_CODE_FORMATTED_LENGTH, BACKUP_CODE_PAYLOAD_LENGTH, BACKUP_CODE_SEPARATOR_COUNT,
};
use aevum_platform_api::auth::contracts::{
    ContractValidationError, RegisterRequest, BACKUP_CODES_PER_SET, BACKUP_CODE_GROUP_SIZE,
};
use aevum_platform_api::auth::csrf::{validate_csrf_tokens, CsrfConfig, CsrfToken, CsrfTokenHash};
use aevum_platform_api::auth::csrf_middleware::{csrf_tokens_valid, requires_csrf, CsrfMiddleware};
use aevum_platform_api::auth::events::{
    LoginFailureReason, SecurityEvent, SecurityEventKind, SecurityEventRecord, SecurityMetadata,
    SecuritySeverity,
};
use aevum_platform_api::auth::password::{
    PasswordError, PasswordHasher, SessionToken, MAX_PASSWORD_BYTES,
};
use aevum_platform_api::auth::preferences::{Language, Theme, UserPreferences};
use aevum_platform_api::auth::rate_limit::{AttemptBucket, RateLimitConfig};
use aevum_platform_api::auth::security_center::{
    calculate_security_score, password_changed_recently, SecurityScoreInput,
    PASSWORD_RECENCY_DAYS, SECURITY_CENTER_EVENT_LIMIT, SECURITY_SCORE_MAX,
};
use aevum_platform_api::auth::two_factor::TotpSecretObjectId;

const MICROS_PER_DAY: i64 = 86_400_000_000;

fn minimal_png(width: u32, height: u32) -> Vec<u8> {
    let mut data = vec![
        0x89, 0x50, 0x4E, 0x47, 0x0D, 0x0A, 0x1A, 0x0A, 0x00, 0x00, 0x00, 0x0D, b'I', b'H', b'D',
        b'R',
    ];
    data.extend_from_slice(&width.to_be_bytes());
    data.extend_from_slice(&height.to_be_bytes());
    data.extend_from_slice(&[0x08, 0x02, 0x00, 0x00, 0x00]);
    data
}

fn minimal_jpeg(width: u16, height: u16) -> Vec<u8> {
    vec![
        0xFF,
        0xD8,
        0xFF,
        0xC0,
        0x00,
        0x11,
        0x08,
        (height >> 8) as u8,
        (height & 0xFF) as u8,
        (width >> 8) as u8,
        (width & 0xFF) as u8,
        0x03,
        0x01,
        0x11,
        0x00,
        0x02,
        0x11,
        0x01,
        0x03,
        0x11,
        0x01,
    ]
}

fn minimal_webp_vp8(width: u16, height: u16) -> Vec<u8> {
    let mut data = vec![
        b'R',
        b'I',
        b'F',
        b'F',
        0x00,
        0x00,
        0x00,
        0x00,
        b'W',
        b'E',
        b'B',
        b'P',
        b'V',
        b'P',
        b'8',
        b' ',
        0x00,
        0x00,
        0x00,
        0x00,
        0x00,
        0x00,
        0x00,
        0x9D,
        0x01,
        0x2A,
        (width & 0xFF) as u8,
        (width >> 8) as u8,
        (height & 0xFF) as u8,
        (height >> 8) as u8,
    ];
    data.resize(30, 0);
    data
}

#[test]
fn detects_png_from_magic() {
    let data = minimal_png(100, 100);
    assert_eq!(AvatarMime::detect_from_bytes(&data), Some(AvatarMime::Png));
}

#[test]
fn detects_jpeg_from_magic() {
    let data = minimal_jpeg(100, 100);
    assert_eq!(AvatarMime::detect_from_bytes(&data), Some(AvatarMime::Jpeg));
}

#[test]
fn detects_webp_from_magic() {
    let data = minimal_webp_vp8(100, 100);
    assert_eq!(AvatarMime::detect_from_bytes(&data), Some(AvatarMime::Webp));
}

#[test]
fn rejects_empty_payload() {
    let result = validate_avatar("image/png", &[]);
    assert_eq!(result, Err(AvatarValidationError::EmptyPayload));
}

#[test]
fn rejects_oversized_payload() {
    let data = vec![0u8; AVATAR_MAX_BYTES + 1];
    let result = validate_avatar("image/png", &data);
    assert_eq!(result, Err(AvatarValidationError::TooLarge));
}

#[test]
fn rejects_svg_content_type() {
    let result = validate_avatar("image/svg+xml", b"<svg/>");
    assert_eq!(result, Err(AvatarValidationError::UnsupportedContentType));
}

#[test]
fn rejects_content_type_mismatch() {
    let png_data = minimal_png(100, 100);
    let result = validate_avatar("image/jpeg", &png_data);
    assert_eq!(result, Err(AvatarValidationError::ContentTypeMismatch));
}

#[test]
fn rejects_unknown_magic_bytes() {
    let result = validate_avatar("image/png", b"not an image at all");
    assert_eq!(result, Err(AvatarValidationError::UnsupportedFormat));
}

#[test]
fn accepts_valid_png() {
    let data = minimal_png(256, 256);
    assert_eq!(validate_avatar("image/png", &data), Ok(AvatarMime::Png));
}

#[test]
fn accepts_valid_jpeg() {
    let data = minimal_jpeg(256, 256);
    assert_eq!(validate_avatar("image/jpeg", &data), Ok(AvatarMime::Jpeg));
}

#[test]
fn accepts_valid_webp() {
    let data = minimal_webp_vp8(256, 256);
    assert_eq!(validate_avatar("image/webp", &data), Ok(AvatarMime::Webp));
}

#[test]
fn rejects_png_with_excessive_dimensions() {
    let data = minimal_png(5000, 100);
    assert_eq!(
        validate_avatar("image/png", &data),
        Err(AvatarValidationError::InvalidImage)
    );
}

#[test]
fn blob_key_is_deterministic() {
    let user_id = uuid::Uuid::new_v4().as_u128();
    let k1 = Avatar::blob_key_for(user_id);
    let k2 = Avatar::blob_key_for(user_id);
    assert_eq!(k1, k2);
    assert!(k1.starts_with("platform:auth:avatar_blob:"));
}

#[test]
fn blob_key_differs_per_user() {
    let u1 = uuid::Uuid::new_v4().as_u128();
    let u2 = uuid::Uuid::new_v4().as_u128();
    assert_ne!(Avatar::blob_key_for(u1), Avatar::blob_key_for(u2));
}

#[test]
fn generated_code_has_correct_length() {
    let code = generate_code();
    assert_eq!(code.len(), BACKUP_CODE_FORMATTED_LENGTH);
}

#[test]
fn generated_code_has_correct_separator() {
    let code = generate_code();
    assert_eq!(
        code.chars().filter(|c| *c == '-').count(),
        BACKUP_CODE_SEPARATOR_COUNT
    );
    assert_eq!(code.chars().nth(BACKUP_CODE_GROUP_SIZE), Some('-'));
}

#[test]
fn generated_code_uses_only_safe_alphabet() {
    let code = generate_code();
    for byte in code.bytes() {
        if byte == b'-' {
            continue;
        }
        assert!(is_alphabet_byte(byte));
        assert!(!matches!(byte, b'O' | b'0' | b'I' | b'1' | b'L'));
    }
}

#[test]
fn generated_code_is_valid_after_normalization() {
    let code = generate_code();
    let normalized = normalize_code(&code);
    assert_eq!(normalized.len(), BACKUP_CODE_PAYLOAD_LENGTH);
    assert!(is_valid_normalized_code(&normalized));
}

#[test]
fn generated_set_has_correct_count() {
    let set = generate_set();
    assert_eq!(set.len(), BACKUP_CODES_PER_SET);
}

#[test]
fn generated_set_has_unique_codes() {
    let set = generate_set();
    let unique_count = set.iter().collect::<std::collections::HashSet<_>>().len();
    assert_eq!(unique_count, set.len());
}

#[test]
fn normalize_lowercase() {
    assert_eq!(normalize_code("abcde-fghjk"), "ABCDEFGHJK");
}

#[test]
fn normalize_removes_separator() {
    assert_eq!(normalize_code("ABCDE-FGHJK"), "ABCDEFGHJK");
}

#[test]
fn normalize_removes_ascii_whitespace() {
    assert_eq!(normalize_code(" ABCDE - FGHJK "), "ABCDEFGHJK");
}

#[test]
fn normalize_does_not_hide_invalid_punctuation() {
    assert_eq!(normalize_code("ABCDE!FGHJK"), "ABCDE!FGHJK");
    assert!(!is_valid_normalized_code(&normalize_code("ABCDE!FGHJK")));
}

#[test]
fn normalize_does_not_hide_invalid_unicode() {
    assert_eq!(normalize_code("ABCDE-ФGHJK"), "ABCDEФGHJK");
    assert!(!is_valid_normalized_code(&normalize_code("ABCDE-ФGHJK")));
}

#[test]
fn invalid_length_is_rejected() {
    assert!(is_valid_normalized_code("ABCDEFGHJK"));
    assert!(!is_valid_normalized_code("ABCDEFGHJ"));
    assert!(!is_valid_normalized_code("ABCDEFGHJKM"));
    assert!(!is_valid_normalized_code(""));
}

#[test]
fn ambiguous_characters_are_rejected() {
    assert!(!is_valid_normalized_code("ABCDE0FGHJK"));
    assert!(!is_valid_normalized_code("ABCDEIFGHJK"));
    assert!(!is_valid_normalized_code("ABCDE1FGHJK"));
    assert!(!is_valid_normalized_code("ABCDELGHJK"));
    assert!(!is_valid_normalized_code("ABCDEOFGHJK"));
}

#[test]
fn valid_registration_request_passes() {
    let request = RegisterRequest {
        email: "user@example.com".to_owned(),
        password: "correct-horse-battery-staple".to_owned(),
    };
    assert!(request.validate().is_ok());
}

#[test]
fn empty_email_is_rejected() {
    let request = RegisterRequest {
        email: String::new(),
        password: "correct-horse-battery-staple".to_owned(),
    };
    assert_eq!(request.validate(), Err(ContractValidationError::EmptyEmail));
}

#[test]
fn short_registration_password_is_rejected() {
    let request = RegisterRequest {
        email: "user@example.com".to_owned(),
        password: "short".to_owned(),
    };
    assert_eq!(
        request.validate(),
        Err(ContractValidationError::PasswordTooShort)
    );
}

#[test]
fn csrf_tokens_are_random() {
    let token1 = CsrfToken::generate();
    let token2 = CsrfToken::generate();
    assert_ne!(token1.as_str(), token2.as_str());
    assert_eq!(token1.as_str().len(), 43);
}

#[test]
fn csrf_hash_is_sha256_urlsafe() {
    let token = CsrfToken::generate();
    let hash = CsrfTokenHash::from_token(&token);
    assert_eq!(hash.as_str().len(), 43);
    assert_ne!(hash.as_str(), token.as_str());
}

#[test]
fn constant_time_comparison_works() {
    assert!(validate_csrf_tokens("same-token", "same-token"));
    assert!(!validate_csrf_tokens("token-a", "token-b"));
    assert!(!validate_csrf_tokens("", "token"));
    assert!(!validate_csrf_tokens("token", ""));
}

#[test]
fn events_login_failure_reason_is_structured() {
    assert_eq!(
        LoginFailureReason::InvalidPassword.as_str(),
        "invalid_password"
    );
    assert_eq!(LoginFailureReason::UnknownUser.as_str(), "unknown_user");
    assert_eq!(LoginFailureReason::RateLimited.as_str(), "rate_limited");
}

#[test]
fn mod_login_failure_reason_is_structured() {
    assert_eq!(
        LoginFailureReason::InvalidPassword.as_str(),
        "invalid_password"
    );
    assert_eq!(LoginFailureReason::UnknownUser.as_str(), "unknown_user");
    assert_eq!(LoginFailureReason::RateLimited.as_str(), "rate_limited");
}

#[test]
fn events_event_names_are_stable() {
    let metadata = SecurityMetadata::new(None, None);
    let event = SecurityEvent::SessionRotated {
        metadata,
        user_id: 0,
        old_session_id: 0,
        new_session_id: 0,
    };
    assert_eq!(event.event_name(), "SESSION_ROTATED");
    assert_eq!(event.severity(), SecuritySeverity::Info);
    assert_eq!(event.kind(), SecurityEventKind::SessionRotated);
}

#[test]
fn mod_event_names_are_stable() {
    let metadata = SecurityMetadata::new(None, None);
    let event = SecurityEvent::SessionRotated {
        metadata,
        user_id: 0,
        old_session_id: 0,
        new_session_id: 0,
    };
    assert_eq!(event.event_name(), "SESSION_ROTATED");
    assert_eq!(event.severity(), SecuritySeverity::Info);
    assert_eq!(event.kind(), SecurityEventKind::SessionRotated);
}

#[test]
fn events_critical_events_have_critical_severity() {
    let metadata = SecurityMetadata::new(None, None);
    let event = SecurityEvent::AccountLocked {
        metadata,
        user_id: 0,
    };
    assert_eq!(event.severity(), SecuritySeverity::Critical);
}

#[test]
fn mod_critical_events_have_critical_severity() {
    let metadata = SecurityMetadata::new(None, None);
    let event = SecurityEvent::AccountLocked {
        metadata,
        user_id: 0,
    };
    assert_eq!(event.severity(), SecuritySeverity::Critical);
}

#[test]
fn security_event_record_has_id_and_timestamp() {
    let metadata = SecurityMetadata::new(None, None);
    let event = SecurityEvent::LoginSuccess {
        metadata,
        user_id: 0,
        email: "test@example.com".to_string(),
    };
    let record = SecurityEventRecord::new(event.clone());
    assert_ne!(record.id, 0);
    assert_eq!(record.timestamp, event.timestamp());
}

#[test]
fn password_hash_verify_works() {
    let hasher = PasswordHasher::new();
    let password = "correct-horse-battery-staple";
    let hash = hasher.hash(password).unwrap();
    assert!(hash.starts_with("$argon2id$"));
    assert!(hasher.verify(password, &hash).unwrap());
}

#[test]
fn wrong_password_fails() {
    let hasher = PasswordHasher::new();
    let hash = hasher.hash("correct-horse-battery-staple").unwrap();
    assert!(!hasher.verify("wrong-password", &hash).unwrap());
}

#[test]
fn different_salts_produce_different_hashes() {
    let hasher = PasswordHasher::new();
    let password = "correct-horse-battery-staple";
    let hash1 = hasher.hash(password).unwrap();
    let hash2 = hasher.hash(password).unwrap();
    assert_ne!(hash1, hash2);
    assert!(hasher.verify(password, &hash1).unwrap());
    assert!(hasher.verify(password, &hash2).unwrap());
}

#[test]
fn empty_password_is_rejected_for_hashing() {
    let hasher = PasswordHasher::new();
    assert_eq!(hasher.hash(""), Err(PasswordError::EmptyPassword));
}

#[test]
fn empty_password_fails_verification() {
    let hasher = PasswordHasher::new();
    let hash = hasher.hash("valid-password").unwrap();
    assert!(!hasher.verify("", &hash).unwrap());
}

#[test]
fn oversized_password_is_rejected() {
    let hasher = PasswordHasher::new();
    let password = "a".repeat(MAX_PASSWORD_BYTES + 1);
    assert_eq!(hasher.hash(&password), Err(PasswordError::PasswordTooLong));
}

#[test]
fn invalid_hash_is_rejected() {
    let hasher = PasswordHasher::new();
    assert_eq!(
        hasher.verify("password", "not-a-valid-phc-hash"),
        Err(PasswordError::InvalidHash)
    );
}

#[test]
fn custom_parameters_work() {
    let hasher = PasswordHasher::with_params(4_096, 1, 1).unwrap();
    let hash = hasher.hash("test-password").unwrap();
    assert!(hasher.verify("test-password", &hash).unwrap());
}

#[test]
fn session_tokens_are_random() {
    let token1 = SessionToken::generate();
    let token2 = SessionToken::generate();
    assert_ne!(token1.expose(), token2.expose());
    assert_eq!(token1.expose().len(), 43);
}

#[test]
fn defaults_are_system_english_and_notifications_enabled() {
    let user_id = uuid::Uuid::new_v4().as_u128();
    let prefs = UserPreferences::defaults(user_id);
    assert_eq!(prefs.user_id, user_id);
    assert_eq!(prefs.theme, Theme::System);
    assert_eq!(prefs.language, Language::En);
    assert!(prefs.notifications_enabled);
}

#[test]
fn config_defaults_are_reasonable() {
    let config = RateLimitConfig::default();
    assert_eq!(config.login_ip_limit, 20);
    assert_eq!(config.login_email_limit, 5);
    assert_eq!(config.register_ip_limit, 5);
    assert_eq!(config.login_window, 15 * 60 * 1_000_000);
    assert_eq!(config.register_window, 15 * 60 * 1_000_000);
}

#[test]
fn attempt_bucket_window_elapse() {
    let now = 5_000_000u64;
    let mut bucket = AttemptBucket::new(now);
    bucket.record_attempt();
    assert!(!bucket.window_elapsed(60 * 1_000_000, now));
    assert!(bucket.window_elapsed(0, now));
}

#[test]
fn attempt_bucket_reset_works() {
    let now = 5_000_000u64;
    let mut bucket = AttemptBucket::new(now);
    bucket.record_attempt();
    bucket.record_attempt();
    bucket.locked_until = Some(now + 60 * 1_000_000);
    bucket.reset(now);
    assert_eq!(bucket.count, 0);
    assert!(bucket.locked_until.is_none());
}

fn input(
    email_verified: bool,
    two_factor_enabled: bool,
    has_backup_codes: bool,
    password_changed_recently: bool,
) -> SecurityScoreInput {
    SecurityScoreInput {
        email_verified,
        two_factor_enabled,
        has_backup_codes,
        password_changed_recently,
    }
}

#[test]
fn score_empty_account_is_zero() {
    assert_eq!(calculate_security_score(input(false, false, false, false)), 0);
}

#[test]
fn score_email_only_is_twenty() {
    assert_eq!(calculate_security_score(input(true, false, false, false)), 20);
}

#[test]
fn score_2fa_only_is_thirty_five() {
    assert_eq!(calculate_security_score(input(false, true, false, false)), 35);
}

#[test]
fn score_backup_codes_only_is_fifteen() {
    assert_eq!(calculate_security_score(input(false, false, true, false)), 15);
}

#[test]
fn score_recent_password_only_is_thirty() {
    assert_eq!(calculate_security_score(input(false, false, false, true)), 30);
}

#[test]
fn score_email_plus_2fa_is_fifty_five() {
    assert_eq!(calculate_security_score(input(true, true, false, false)), 55);
}

#[test]
fn score_all_controls_is_100() {
    assert_eq!(calculate_security_score(input(true, true, true, true)), 100);
}

#[test]
fn score_never_exceeds_100() {
    let score = calculate_security_score(input(true, true, true, true));
    assert!(score <= SECURITY_SCORE_MAX);
    assert_eq!(score, SECURITY_SCORE_MAX);
}

#[test]
fn password_within_90_days_is_recent() {
    let now = chrono::Utc::now().timestamp_micros();
    let changed_at = now - 30 * MICROS_PER_DAY;
    assert!(password_changed_recently(Some(changed_at), now));
}

#[test]
fn password_exactly_on_boundary_is_recent() {
    let now = chrono::Utc::now().timestamp_micros();
    let changed_at = now - PASSWORD_RECENCY_DAYS * MICROS_PER_DAY;
    assert!(password_changed_recently(Some(changed_at), now));
}

#[test]
fn password_older_than_90_days_is_not_recent() {
    let now = chrono::Utc::now().timestamp_micros();
    let changed_at = now - (PASSWORD_RECENCY_DAYS + 1) * MICROS_PER_DAY;
    assert!(!password_changed_recently(Some(changed_at), now));
}

#[test]
fn missing_password_timestamp_is_not_recent() {
    assert!(!password_changed_recently(
        None,
        chrono::Utc::now().timestamp_micros()
    ));
}

#[test]
fn future_password_timestamp_is_not_recent() {
    let now = chrono::Utc::now().timestamp_micros();
    let changed_at = now + 3_600_000_000;
    assert!(!password_changed_recently(Some(changed_at), now));
}

#[test]
fn event_limit_is_ten() {
    assert_eq!(SECURITY_CENTER_EVENT_LIMIT, 10);
}

#[test]
fn password_recency_window_is_90_days() {
    assert_eq!(PASSWORD_RECENCY_DAYS, 90);
}

#[test]
fn object_id_is_deterministic() {
    let user_id = uuid::Uuid::new_v4().as_u128();
    let a = TotpSecretObjectId::for_user(user_id);
    let b = TotpSecretObjectId::for_user(user_id);
    assert_eq!(a, b);
}

#[test]
fn object_id_differs_between_users() {
    let u1 = uuid::Uuid::new_v4().as_u128();
    let u2 = uuid::Uuid::new_v4().as_u128();
    assert_ne!(
        TotpSecretObjectId::for_user(u1),
        TotpSecretObjectId::for_user(u2)
    );
}

#[test]
fn csrf_required_only_for_mutating_methods() {
    assert!(requires_csrf("POST"));
    assert!(requires_csrf("PUT"));
    assert!(requires_csrf("PATCH"));
    assert!(requires_csrf("DELETE"));
    assert!(!requires_csrf("GET"));
    assert!(!requires_csrf("HEAD"));
    assert!(!requires_csrf("OPTIONS"));
}

#[test]
fn login_is_exempt_from_csrf() {
    assert!(CsrfMiddleware::is_exempt("/api/v1/auth/login"));
    assert!(CsrfMiddleware::is_exempt("/api/v1/auth/register"));
    assert!(CsrfMiddleware::is_exempt("/api/v1/auth/logout"));
    assert!(!CsrfMiddleware::is_exempt("/api/v1/wallet/transfer"));
}

#[test]
fn csrf_guard_decides_per_request() {
    let guard = CsrfMiddleware::new(CsrfConfig::default());
    let path = "/api/v1/auth/password/change";
    assert!(guard.allows("GET", path, None, None));
    assert!(!guard.allows("POST", path, None, None));
    assert!(!guard.allows("POST", path, Some("t"), None));
    assert!(!guard.allows("POST", path, None, Some("t")));
    assert!(!guard.allows("POST", path, Some("a"), Some("b")));
    assert!(guard.allows("POST", path, Some("t"), Some("t")));
    assert!(guard.allows("POST", "/api/v1/auth/login", None, None));
    assert!(!guard.allows("DELETE", "/api/v1/auth/login/", None, None));
    assert!(!csrf_tokens_valid(Some(""), None));
    assert!(csrf_tokens_valid(Some("x"), Some("x")));
}

#[test]
fn pre_auth_token_expiry_follows_its_ttl() {
    let at: i64 = 1_700_000_000_000_000;
    let t = PreAuthToken::new_at(7, "h".to_string(), 300, at);
    assert_eq!(t.expires_at, at + 300_000_000);
    assert!(t.is_valid_at(at + 299_999_999));
    assert!(!t.is_valid_at(at + 300_000_000));
    // A negative TTL gives a token that is already expired.
    let past = PreAuthToken::new_at(7, "h".to_string(), -1, at);
    assert_eq!(past.expires_at, at - 1_000_000);
    assert!(!past.is_valid_at(at));
    // The largest TTLs saturate at the ends of the timestamp range.
    assert_eq!(PreAuthToken::new_at(7, "h".to_string(), MAX_TTL_SECONDS, at).expires_at, i64::MAX);
    assert_eq!(PreAuthToken::new_at(7, "h".to_string(), -MAX_TTL_SECONDS, at).expires_at, i64::MIN);
}
