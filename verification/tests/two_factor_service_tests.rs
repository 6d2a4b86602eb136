use aevum_platform_api::auth::password::SessionToken;
use aevum_platform_api::auth::service::AuthService;
use aevum_platform_api::auth::models::{EmailVerificationToken, LoginResult};
use aevum_platform_api::auth::storage::{AuthStorage, InMemoryAuthStorage};
use aevum_platform_api::auth::two_factor::{
    check_totp_secret, totp_seconds, verify_totp_and_mark_step, TwoFactorSettings, TwoFactorState,
};
use aevum_platform_api::error::ApiError;

const PASSWORD: &str = "correct-horse-battery-staple";
const SECRET: [u8; 20] = *b"12345678901234567890";
/// 2023-11-14T22:13:20Z, in microseconds.
const NOW: i64 = 1_700_000_000_000_000;
const USER: u128 = 0x1234;

fn service() -> AuthService<InMemoryAuthStorage> {
    AuthService::new(InMemoryAuthStorage::new())
}

fn user_account() -> String {
    let bytes = USER.to_be_bytes();
    let mut hex = String::new();
    for b in bytes.iter() {
        hex.push_str(&format!("{:02x}", b));
    }
    format!(
        "{}-{}-{}-{}-{}",
        &hex[0..8],
        &hex[8..12],
        &hex[12..16],
        &hex[16..20],
        &hex[20..32]
    )
}

fn code_at(secret: &[u8], micros: i64) -> String {
    let totp = totp_rs::TOTP::new(
        totp_rs::Algorithm::SHA1,
        6,
        1,
        30,
        secret.to_vec(),
        Some("Aevum".to_string()),
        user_account(),
    )
    .unwrap();
    totp.generate((micros / 1_000_000) as u64)
}

fn wrong_code(secret: &[u8], micros: i64) -> String {
    let good = code_at(secret, micros);
    let mut c = if good == "000000" { "111111".to_string() } else { "000000".to_string() };
    // Make sure the code differs from the ones of the neighbouring steps too.
    while c == code_at(secret, micros - 30_000_000) || c == code_at(secret, micros + 30_000_000) || c == good {
        c = format!("{:06}", (c.parse::<u32>().unwrap() + 1) % 1_000_000);
    }
    c
}

#[test]
fn totp_time_before_first_step_is_none() {
    assert_eq!(totp_seconds(-1), None);
    assert_eq!(totp_seconds(29_999_999), None);
    assert_eq!(totp_seconds(30_000_000), Some(30));
    assert_eq!(totp_seconds(NOW + 999_999), Some(1_700_000_000));
}

#[test]
fn totp_check_matches_reference_codes() {
    let good = code_at(&SECRET, NOW);
    assert_eq!(check_totp_secret(&SECRET, USER, &good, NOW), Ok(true));
    // One step of skew either way is accepted, two are not.
    assert_eq!(check_totp_secret(&SECRET, USER, &good, NOW + 30_000_000), Ok(true));
    assert_eq!(check_totp_secret(&SECRET, USER, &good, NOW - 30_000_000), Ok(true));
    let wrong = wrong_code(&SECRET, NOW);
    assert_eq!(check_totp_secret(&SECRET, USER, &wrong, NOW), Ok(false));
    // A secret under 128 bits or a time before the first step is an error.
    assert_eq!(check_totp_secret(&SECRET[..15], USER, &good, NOW), Err(ApiError::Internal));
    assert_eq!(check_totp_secret(&SECRET, USER, &good, 10), Err(ApiError::Internal));
}

#[test]
fn totp_step_is_not_accepted_twice() {
    let mut settings = TwoFactorSettings::new_pending_at(USER, SECRET.to_vec(), 0);
    let good = code_at(&SECRET, NOW);
    assert_eq!(verify_totp_and_mark_step(&mut settings, &SECRET, &good, NOW), Ok(true));
    assert_eq!(settings.last_accepted_step, Some(1_700_000_000 / 30));
    // Same code, same step: a replay.
    assert_eq!(verify_totp_and_mark_step(&mut settings, &SECRET, &good, NOW), Ok(false));
    // The next step's code is fresh.
    let next = code_at(&SECRET, NOW + 30_000_000);
    assert_eq!(
        verify_totp_and_mark_step(&mut settings, &SECRET, &next, NOW + 30_000_000),
        Ok(true)
    );
    assert_eq!(settings.last_accepted_step, Some(1_700_000_000 / 30 + 1));
}

#[test]
fn setup_stores_pending_settings() {
    let mut auth = service();
    assert_eq!(auth.two_factor_status(&USER).unwrap().state, "disabled");
    let resp = auth.setup_two_factor_at(&USER, "u@example.com", SECRET, NOW).unwrap();
    assert_eq!(resp.secret_base32, "GEZDGNBVGY3TQOJQGEZDGNBVGY3TQOJQ");
    assert!(resp.otpauth_uri.starts_with("otpauth://totp/Aevum:u%40example.com?"));
    assert!(resp.otpauth_uri.contains("secret=GEZDGNBVGY3TQOJQGEZDGNBVGY3TQOJQ"));
    let status = auth.two_factor_status(&USER).unwrap();
    assert!(!status.enabled);
    assert_eq!(status.state, "pending");
    let stored = auth.storage().get_two_factor_settings(&USER).unwrap().unwrap();
    assert_eq!(stored.state, TwoFactorState::Pending);
    assert_eq!(stored.encrypted_secret, SECRET.to_vec());
    assert_eq!(stored.expires_at, Some(NOW + 600_000_000));

    // An account name with ':' is refused by the TOTP library.
    assert_eq!(
        auth.setup_two_factor_at(&USER, "a:b@example.com", SECRET, NOW).err().unwrap(),
        ApiError::Internal
    );
}

#[test]
fn enable_requires_pending_unexpired_and_good_code() {
    let mut auth = service();
    let good = code_at(&SECRET, NOW);
    assert_eq!(auth.enable_two_factor_at(&USER, &good, NOW).err().unwrap(), ApiError::Unauthorized);

    auth.setup_two_factor_at(&USER, "u@example.com", SECRET, NOW).unwrap();
    let wrong = wrong_code(&SECRET, NOW);
    assert_eq!(auth.enable_two_factor_at(&USER, &wrong, NOW).err().unwrap(), ApiError::Unauthorized);
    assert_eq!(auth.two_factor_status(&USER).unwrap().state, "pending");

    // Past the ten-minute window the enrollment is dropped.
    let late = NOW + 600_000_000;
    let late_code = code_at(&SECRET, late);
    assert_eq!(
        auth.enable_two_factor_at(&USER, &late_code, late).err().unwrap(),
        ApiError::Unauthorized
    );
    assert_eq!(auth.two_factor_status(&USER).unwrap().state, "disabled");
}

#[test]
fn two_factor_enable_then_disable() {
    let mut auth = service();
    auth.register_at("u@example.com", PASSWORD, "ip", USER, 0).unwrap();
    auth.setup_two_factor_at(&USER, "u@example.com", SECRET, NOW).unwrap();
    let codes = auth.enable_two_factor_at(&USER, &code_at(&SECRET, NOW), NOW).unwrap();
    assert_eq!(codes.len(), 10);
    let status = auth.two_factor_status(&USER).unwrap();
    assert!(status.enabled);
    assert_eq!(status.state, "enabled");
    let stored = auth.storage().get_two_factor_settings(&USER).unwrap().unwrap();
    assert_eq!(stored.enabled_at, Some(NOW));
    assert_eq!(stored.expires_at, None);
    assert_eq!(auth.backup_codes_status(&USER).unwrap().remaining, 10);

    // Enabling again is a bad request.
    assert_eq!(
        auth.enable_two_factor_at(&USER, &code_at(&SECRET, NOW), NOW).err().unwrap(),
        ApiError::BadRequest
    );

    let later = NOW + 60_000_000;
    let code = code_at(&SECRET, later);
    assert_eq!(
        auth.disable_two_factor_at(&USER, "wrong-password", &code, later).err().unwrap(),
        ApiError::Unauthorized
    );
    assert_eq!(
        auth.disable_two_factor_at(&USER, PASSWORD, &wrong_code(&SECRET, later), later).err().unwrap(),
        ApiError::Unauthorized
    );
    assert!(auth.two_factor_status(&USER).unwrap().enabled);

    auth.disable_two_factor_at(&USER, PASSWORD, &code, later).unwrap();
    assert_eq!(auth.two_factor_status(&USER).unwrap().state, "disabled");
    let backup = auth.backup_codes_status(&USER).unwrap();
    assert_eq!(backup.remaining, 0);
    assert_eq!(backup.total, 10);

    // Nothing left to disable.
    assert_eq!(
        auth.disable_two_factor_at(&USER, PASSWORD, &code, later).err().unwrap(),
        ApiError::Unauthorized
    );
}

#[test]
fn disable_requires_enabled_state() {
    let mut auth = service();
    auth.register_at("u@example.com", PASSWORD, "ip", USER, 0).unwrap();
    auth.setup_two_factor_at(&USER, "u@example.com", SECRET, NOW).unwrap();
    assert_eq!(
        auth.disable_two_factor_at(&USER, PASSWORD, &code_at(&SECRET, NOW), NOW).err().unwrap(),
        ApiError::BadRequest
    );
    // Unknown user.
    assert_eq!(
        auth.disable_two_factor_at(&7, PASSWORD, "123456", NOW).err().unwrap(),
        ApiError::Unauthorized
    );
}

#[test]
fn backup_codes_single_use_and_status() {
    let mut auth = service();
    let status = auth.backup_codes_status(&USER).unwrap();
    assert!(!status.enabled);
    assert_eq!(status.total, 0);
    assert_eq!(status.generated_at, None);

    let codes = vec!["ABCDE-FGH23".to_string(), "23456-789AB".to_string()];
    let out = auth
        .generate_backup_codes_at(&USER, codes.clone(), vec![1, 2], 100, 5)
        .unwrap();
    assert_eq!(out, codes);
    let status = auth.backup_codes_status(&USER).unwrap();
    assert!(status.enabled);
    assert_eq!(status.remaining, 2);
    assert_eq!(status.total, 2);
    assert_eq!(status.generated_at, Some(5));

    // Lowercase and spaced input is normalized; a code works once.
    assert_eq!(auth.verify_backup_code_at(&USER, " abcde fgh23 ", 9), Ok(true));
    assert_eq!(auth.verify_backup_code_at(&USER, "ABCDE-FGH23", 10), Ok(false));
    assert_eq!(auth.backup_codes_status(&USER).unwrap().remaining, 1);
    // Not of the backup-code form, or not one of the user's codes.
    assert_eq!(auth.verify_backup_code_at(&USER, "short", 11), Ok(false));
    assert_eq!(auth.verify_backup_code_at(&USER, "ABCDE-FGH24", 11), Ok(false));
    assert_eq!(auth.verify_backup_code_at(&99, "23456-789AB", 11), Ok(false));

    // A new set revokes the old codes.
    auth.generate_backup_codes_at(&USER, vec!["XYZ23-45678".to_string()], vec![3], 101, 20)
        .unwrap();
    assert_eq!(auth.verify_backup_code_at(&USER, "23456-789AB", 21), Ok(false));
    let status = auth.backup_codes_status(&USER).unwrap();
    assert_eq!(status.remaining, 1);
    assert_eq!(status.total, 3);
    assert_eq!(status.generated_at, Some(20));
    assert_eq!(auth.verify_backup_code_at(&USER, "xyz23-45678", 22), Ok(true));
}

#[test]
fn backup_codes_full_set() {
    let mut auth = service();
    let codes = auth.generate_backup_codes(&USER).unwrap();
    assert_eq!(codes.len(), 10);
    for c in &codes {
        assert_eq!(c.len(), 11);
        assert_eq!(&c[5..6], "-");
    }
    let status = auth.backup_codes_status(&USER).unwrap();
    assert_eq!(status.remaining, 10);
    assert_eq!(status.total, 10);
    assert!(status.enabled);
    assert_eq!(auth.verify_backup_code(&USER, &codes[0]), Ok(true));
    assert_eq!(auth.backup_codes_status(&USER).unwrap().remaining, 9);
}

fn wall_clock_micros() -> i64 {
    std::time::SystemTime::now()
        .duration_since(std::time::UNIX_EPOCH)
        .unwrap()
        .as_micros() as i64
}

#[test]
fn second_factor_takes_totp_once_then_backup_codes() {
    let mut auth = service();
    // Without settings only a backup code could pass.
    assert_eq!(auth.verify_second_factor_at(&USER, "123456", NOW), Ok(false));
    auth.setup_two_factor_at(&USER, "u@example.com", SECRET, NOW).unwrap();
    // Pending settings do not take TOTP codes.
    assert_eq!(auth.verify_second_factor_at(&USER, &code_at(&SECRET, NOW), NOW), Ok(false));
    auth.enable_two_factor_at(&USER, &code_at(&SECRET, NOW), NOW).unwrap();

    let later = NOW + 90_000_000;
    let code = code_at(&SECRET, later);
    assert_eq!(auth.verify_second_factor_at(&USER, &code, later), Ok(true));
    // The same step again is a replay.
    assert_eq!(auth.verify_second_factor_at(&USER, &code, later), Ok(false));
    let stored = auth.storage().get_two_factor_settings(&USER).unwrap().unwrap();
    assert_eq!(stored.last_accepted_step, Some((later / 1_000_000 / 30) as u64));

    // A replacement set of one backup code, then the fallback to it.
    auth.generate_backup_codes_at(&USER, vec!["ABCDE-FGH23".to_string()], vec![77], 1, later)
        .unwrap();
    assert_eq!(auth.verify_second_factor_at(&USER, "abcde-fgh23", later), Ok(true));
    assert_eq!(auth.verify_second_factor_at(&USER, "abcde-fgh23", later), Ok(false));
    assert_eq!(auth.backup_codes_status(&USER).unwrap().remaining, 0);
}

#[test]
fn security_center_reflects_account_state() {
    let mut auth = service();
    assert_eq!(auth.get_security_center(&USER).err().unwrap(), ApiError::Unauthorized);
    auth.register_at("u@example.com", PASSWORD, "ip", USER, 0).unwrap();
    let now = wall_clock_micros();
    let center = auth.get_security_center_at(&USER, now).unwrap();
    assert!(!center.email_verified);
    assert!(!center.two_factor_enabled);
    assert_eq!(center.backup_codes_remaining, 0);
    assert_eq!(center.active_sessions, 0);
    assert_eq!(center.password_changed_at, None);
    assert_eq!(center.security_score, 0);
    assert_eq!(center.recent_events.len(), 1);
    assert_eq!(center.recent_events[0].event_type, "USER_REGISTERED");

    auth.login_at("u@example.com", PASSWORD, "ip", now, 5, SessionToken::from_secret("t1".to_string()))
        .unwrap();
    auth.change_password_at(
        &USER,
        PASSWORD,
        "another-long-password",
        now,
        6,
        SessionToken::from_secret("t2".to_string()),
    )
    .unwrap();
    let center = auth.get_security_center_at(&USER, wall_clock_micros()).unwrap();
    assert_eq!(center.active_sessions, 1);
    assert!(center.password_changed_at.is_some());
    assert_eq!(center.security_score, 30);
    assert_eq!(center.recent_events[0].event_type, "PASSWORD_CHANGED");
    assert!(center.recent_events.len() <= 10);

    let t = wall_clock_micros();
    auth.setup_two_factor_at(&USER, "u@example.com", SECRET, t).unwrap();
    auth.enable_two_factor_at(&USER, &code_at(&SECRET, t), t).unwrap();
    let center = auth.get_security_center(&USER).unwrap();
    assert!(center.two_factor_enabled);
    assert_eq!(center.backup_codes_remaining, 10);
    assert_eq!(center.security_score, 80);
}

fn token(text: &str) -> SessionToken {
    SessionToken::from_secret(text.to_string())
}

#[test]
fn email_verification_flow() {
    let mut auth = service();
    assert_eq!(
        auth.request_email_verification_at(&USER, token("v1"), 10).err().unwrap(),
        ApiError::Unauthorized
    );
    auth.register_at("verify-flow@example.com", PASSWORD, "ip", USER, 0).unwrap();
    assert!(!auth.get_security_center_at(&USER, 5).unwrap().email_verified);
    auth.request_email_verification_at(&USER, token("v1"), 10).unwrap();
    assert_eq!(auth.verify_email_at("wrong", 11).err().unwrap(), ApiError::Unauthorized);
    auth.verify_email_at("v1", 11).unwrap();
    // A token works once.
    assert_eq!(auth.verify_email_at("v1", 12).err().unwrap(), ApiError::Unauthorized);
    let user = auth.storage().get_user_by_id(&USER).unwrap().unwrap();
    assert!(user.email_verified);
    assert_eq!(user.email_verified_at, Some(11));
    assert_eq!(user.updated_at, 11);

    // Already verified: nothing is issued.
    auth.request_email_verification_at(&USER, token("v2"), 20).unwrap();
    assert_eq!(auth.verify_email_at("v2", 21).err().unwrap(), ApiError::Unauthorized);
    let center = auth.get_security_center_at(&USER, 30).unwrap();
    assert!(center.email_verified);
    assert_eq!(center.security_score, 20);
}

#[test]
fn email_verification_token_lasts_a_day() {
    let mut auth = service();
    auth.register_at("u@example.com", PASSWORD, "ip", USER, 0).unwrap();
    auth.request_email_verification_at(&USER, token("v1"), 0).unwrap();
    let day = 86_400_000_000;
    assert_eq!(auth.verify_email_at("v1", day).err().unwrap(), ApiError::Unauthorized);
    auth.verify_email_at("v1", day - 1).unwrap();
}

#[test]
fn storage_email_verification_token_lifecycle() {
    let mut storage = InMemoryAuthStorage::new();
    let t = EmailVerificationToken::new_at(USER, "hash".to_string(), 60, 0);
    storage.create_email_verification_token(&t).unwrap();
    let stored = storage.get_email_verification_token_by_hash("hash").unwrap().unwrap();
    assert!(stored.is_valid_at(59 * 60_000_000));
    assert!(!stored.is_valid_at(60 * 60_000_000));
    storage.consume_email_verification_token("hash", 5).unwrap();
    storage.consume_email_verification_token("hash", 9).unwrap();
    let used = storage.get_email_verification_token_by_hash("hash").unwrap().unwrap();
    assert_eq!(used.used_at, Some(5));
    assert!(!used.is_valid_at(6));
    assert!(storage.get_email_verification_token_by_hash("other").unwrap().is_none());
    // Consuming an unknown token is a no-op.
    assert!(storage.consume_email_verification_token("other", 1).is_ok());
}

#[test]
fn login_with_two_factor_needs_the_second_step() {
    let mut auth = service();
    auth.register_at("u@example.com", PASSWORD, "ip", USER, 0).unwrap();
    auth.setup_two_factor_at(&USER, "u@example.com", SECRET, NOW).unwrap();
    auth.enable_two_factor_at(&USER, &code_at(&SECRET, NOW), NOW).unwrap();

    match auth.login_at("u@example.com", PASSWORD, "ip", NOW, 5, token("pre")).unwrap() {
        LoginResult::RequiresTwoFactor { pre_auth_token, expires_in_seconds } => {
            assert_eq!(pre_auth_token, "pre");
            assert_eq!(expires_in_seconds, 300);
        }
        LoginResult::Session { .. } => panic!("two-factor authentication is on"),
    }
    // No session was opened by the first step.
    assert!(auth.authenticate_at(&token("pre"), NOW).unwrap().is_none());

    let later = NOW + 60_000_000;
    let code = code_at(&SECRET, later);
    assert_eq!(
        auth.verify_two_factor_at("unknown", &code, later, 6, token("sess")).err().unwrap(),
        ApiError::Unauthorized
    );
    assert_eq!(
        auth.verify_two_factor_at("pre", &wrong_code(&SECRET, later), later, 6, token("sess"))
            .err()
            .unwrap(),
        ApiError::Unauthorized
    );
    let (user, session) = auth.verify_two_factor_at("pre", &code, later, 6, token("sess")).unwrap();
    assert_eq!(user.id, USER);
    assert_eq!(session.expose(), "sess");
    let ctx = auth.authenticate_at(&token("sess"), later).unwrap().unwrap();
    assert_eq!(ctx.session.id, 6);
    // The pre-auth token is used up.
    let next = later + 30_000_000;
    assert_eq!(
        auth.verify_two_factor_at("pre", &code_at(&SECRET, next), next, 7, token("sess2"))
            .err()
            .unwrap(),
        ApiError::Unauthorized
    );

    // A pre-auth token lapses after five minutes.
    auth.login_at("u@example.com", PASSWORD, "ip", NOW, 8, token("pre2")).unwrap();
    let late = NOW + 300_000_000;
    assert_eq!(
        auth.verify_two_factor_at("pre2", &code_at(&SECRET, late), late, 9, token("sess3"))
            .err()
            .unwrap(),
        ApiError::Unauthorized
    );
}

#[test]
fn generated_sets_hold_distinct_codes() {
    for _ in 0..20 {
        let set = aevum_platform_api::auth::backup_codes::generate_set();
        assert_eq!(set.len(), 10);
        for a in 0..set.len() {
            for b in 0..set.len() {
                if a != b {
                    assert_ne!(set[a], set[b]);
                }
            }
        }
    }
}

#[test]
fn enrollment_decision_with_decrypted_secret() {
    let mut auth = service();
    auth.setup_two_factor_at(&USER, "u@example.com", SECRET, NOW).unwrap();
    let settings = auth.storage().get_two_factor_settings(&USER).unwrap().unwrap();
    let good = code_at(&SECRET, NOW);
    assert_eq!(
        auth.confirm_enrollment_with_secret(&USER, settings.clone(), &SECRET[..15], &good, NOW).err(),
        Some(ApiError::Internal)
    );
    assert_eq!(
        auth.confirm_enrollment_with_secret(&USER, settings.clone(), &SECRET, &wrong_code(&SECRET, NOW), NOW)
            .err(),
        Some(ApiError::Unauthorized)
    );
    assert_eq!(auth.two_factor_status(&USER).unwrap().state, "pending");
    let codes = auth.confirm_enrollment_with_secret(&USER, settings, &SECRET, &good, NOW).unwrap();
    assert_eq!(codes.len(), 10);
    assert_eq!(auth.two_factor_status(&USER).unwrap().state, "enabled");
}

#[test]
fn disable_decision_with_decrypted_secret() {
    let mut auth = service();
    auth.setup_two_factor_at(&USER, "u@example.com", SECRET, NOW).unwrap();
    auth.enable_two_factor_at(&USER, &code_at(&SECRET, NOW), NOW).unwrap();
    let settings = auth.storage().get_two_factor_settings(&USER).unwrap().unwrap();
    let later = NOW + 60_000_000;
    assert_eq!(
        auth.disable_with_secret(&USER, settings.clone(), &SECRET, &wrong_code(&SECRET, later), later),
        Err(ApiError::Unauthorized)
    );
    assert_eq!(
        auth.disable_with_secret(&USER, settings.clone(), &SECRET, &code_at(&SECRET, later), 10),
        Err(ApiError::Internal)
    );
    assert!(auth.two_factor_status(&USER).unwrap().enabled);
    assert_eq!(auth.disable_with_secret(&USER, settings, &SECRET, &code_at(&SECRET, later), later), Ok(()));
    assert_eq!(auth.two_factor_status(&USER).unwrap().state, "disabled");
}

#[test]
fn second_factor_decision_with_decrypted_secret() {
    let mut auth = service();
    // Without two-factor settings only backup codes count; a malformed
    // code is a plain rejection.
    assert_eq!(auth.verify_second_factor_with_secret(&USER, None, &[], "ABCDE!FGHJK", NOW), Ok(false));
    auth.setup_two_factor_at(&USER, "u@example.com", SECRET, NOW).unwrap();
    auth.enable_two_factor_at(&USER, &code_at(&SECRET, NOW), NOW).unwrap();
    let settings = auth.storage().get_two_factor_settings(&USER).unwrap().unwrap();
    let later = NOW + 60_000_000;
    assert_eq!(
        auth.verify_second_factor_with_secret(&USER, Some(settings.clone()), &SECRET[..15], "123456", later),
        Err(ApiError::Internal)
    );
    assert_eq!(
        auth.verify_second_factor_with_secret(
            &USER,
            Some(settings.clone()),
            &SECRET,
            &wrong_code(&SECRET, later),
            later
        ),
        Ok(false)
    );
    assert_eq!(
        auth.verify_second_factor_with_secret(&USER, Some(settings), &SECRET, &code_at(&SECRET, later), later),
        Ok(true)
    );
}
