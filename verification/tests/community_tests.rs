use aevum_platform_api::community::contracts::{
    UpdateProfileRequest, BIO_TOO_LONG_MESSAGE, DISPLAY_NAME_TOO_LONG_MESSAGE,
    USERNAME_ALREADY_EXISTS_CODE, USERNAME_ALREADY_EXISTS_MESSAGE, USERNAME_IMMUTABLE_CODE,
    USERNAME_IMMUTABLE_MESSAGE, USERNAME_INVALID_CHARSET_CODE, USERNAME_INVALID_CHARSET_MESSAGE,
    USERNAME_REQUIRED_CODE, USERNAME_REQUIRED_MESSAGE, USERNAME_TOO_LONG_MESSAGE,
    USERNAME_TOO_SHORT_MESSAGE,
};
use aevum_platform_api::community::models::{CommunityProfile, CommunityRole};
use aevum_platform_api::community::service::CommunityService;
use aevum_platform_api::community::storage::{CommunityStorage, InMemoryCommunityStorage};
use aevum_platform_api::community::validation::{
    is_bidi_control, is_reserved_username, validate_bio, validate_display_name, validate_username,
    ValidationError, BIO_MAX_LEN, DISPLAY_NAME_MAX_LEN, USERNAME_MAX_LEN, USERNAME_MIN_LEN,
};
use aevum_platform_api::error::ApiError;

#[test]
fn username_normalizes_uppercase_and_whitespace() {
    let result = validate_username("  Alice_01  ").unwrap();
    assert_eq!(result.canonical, "Alice_01");
    assert_eq!(result.normalized, "alice_01");
}

#[test]
fn username_rejects_short_value() {
    assert_eq!(
        validate_username("ab"),
        Err(ValidationError::UsernameTooShort {
            min: USERNAME_MIN_LEN
        })
    );
}

#[test]
fn username_rejects_long_value() {
    let username = "a".repeat(USERNAME_MAX_LEN + 1);
    assert_eq!(
        validate_username(&username),
        Err(ValidationError::UsernameTooLong {
            max: USERNAME_MAX_LEN
        })
    );
}

#[test]
fn username_accepts_allowed_charset() {
    assert!(validate_username("aevum_01").is_ok());
    assert!(validate_username("aevum-user").is_ok());
}

#[test]
fn username_rejects_invalid_charset() {
    assert_eq!(
        validate_username("aevum!"),
        Err(ValidationError::UsernameInvalidCharset { offending: '!' })
    );
}

#[test]
fn username_rejects_non_ascii() {
    assert!(matches!(
        validate_username("аevum"),
        Err(ValidationError::UsernameInvalidCharset { .. })
    ));
}

#[test]
fn username_reserved_check_is_case_insensitive() {
    assert_eq!(
        validate_username("  ADMIN "),
        Err(ValidationError::UsernameReserved)
    );
}

#[test]
fn display_name_is_trimmed() {
    assert_eq!(
        validate_display_name(Some("  Aevum Foundation  ")).unwrap(),
        Some("Aevum Foundation".to_owned())
    );
}

#[test]
fn empty_display_name_becomes_none() {
    assert_eq!(validate_display_name(Some("   ")).unwrap(), None);
    assert_eq!(validate_display_name(None).unwrap(), None);
}

#[test]
fn display_name_counts_unicode_scalars() {
    let value = "é".repeat(DISPLAY_NAME_MAX_LEN);
    assert!(validate_display_name(Some(&value)).is_ok());
}

#[test]
fn display_name_rejects_control_characters() {
    assert_eq!(
        validate_display_name(Some("hello\tworld")),
        Err(ValidationError::DisplayNameContainsControl { code: '\t' as u32 })
    );
}

#[test]
fn display_name_rejects_bidi_controls() {
    assert_eq!(
        validate_display_name(Some("hello\u{202E}world")),
        Err(ValidationError::DisplayNameContainsBidi { code: 0x202E })
    );
}

#[test]
fn bio_allows_newline() {
    assert_eq!(
        validate_bio(Some("line one\nline two")).unwrap(),
        Some("line one\nline two".to_owned())
    );
}

#[test]
fn bio_rejects_other_control_characters() {
    assert_eq!(
        validate_bio(Some("hello\tworld")),
        Err(ValidationError::BioContainsControl { code: '\t' as u32 })
    );
}

#[test]
fn bio_rejects_bidi_controls() {
    assert_eq!(
        validate_bio(Some("hello\u{2066}world")),
        Err(ValidationError::BioContainsBidi { code: 0x2066 })
    );
}

#[test]
fn validation_messages_match_frozen_limits() {
    assert!(format!("Username must be at least {USERNAME_MIN_LEN} characters")
        .contains(&USERNAME_MIN_LEN.to_string()));
    assert!(format!("Username must be at most {USERNAME_MAX_LEN} characters")
        .contains(&USERNAME_MAX_LEN.to_string()));
    assert!(
        format!("Display name must be at most {DISPLAY_NAME_MAX_LEN} characters")
            .contains(&DISPLAY_NAME_MAX_LEN.to_string())
    );
    assert!(format!("Bio must be at most {BIO_MAX_LEN} characters")
        .contains(&BIO_MAX_LEN.to_string()));
}

#[test]
fn frozen_messages_match_validation_limits() {
    assert_eq!(
        USERNAME_TOO_SHORT_MESSAGE,
        "Username must be at least 3 characters"
    );
    assert_eq!(
        USERNAME_TOO_LONG_MESSAGE,
        "Username must be at most 32 characters"
    );
    assert_eq!(
        DISPLAY_NAME_TOO_LONG_MESSAGE,
        "Display name must be at most 64 characters"
    );
    assert_eq!(BIO_TOO_LONG_MESSAGE, "Bio must be at most 500 characters");
    assert_eq!(USERNAME_MIN_LEN, 3);
    assert_eq!(USERNAME_MAX_LEN, 32);
    assert_eq!(DISPLAY_NAME_MAX_LEN, 64);
    assert_eq!(BIO_MAX_LEN, 500);
}

#[test]
fn validation_error_maps_without_leaking_offending_character() {
    let error = ApiError::from(ValidationError::UsernameInvalidCharset { offending: '@' });
    assert_eq!(error.code(), USERNAME_INVALID_CHARSET_CODE);
    assert_eq!(error.message(), USERNAME_INVALID_CHARSET_MESSAGE);
}

#[test]
fn conflict_codes_are_stable() {
    assert_eq!(USERNAME_REQUIRED_CODE, "USERNAME_REQUIRED");
    assert_eq!(USERNAME_IMMUTABLE_CODE, "USERNAME_IMMUTABLE");
    assert_eq!(USERNAME_ALREADY_EXISTS_CODE, "USERNAME_ALREADY_EXISTS");
    assert_eq!(
        USERNAME_REQUIRED_MESSAGE,
        "Username is required for initial profile creation"
    );
    assert_eq!(USERNAME_IMMUTABLE_MESSAGE, "Username cannot be changed");
    assert_eq!(USERNAME_ALREADY_EXISTS_MESSAGE, "Username is already taken");
}

#[test]
fn conflict_detailed_renders_as_409_with_custom_payload() {
    let error = ApiError::ConflictDetailed {
        code: USERNAME_IMMUTABLE_CODE,
        message: USERNAME_IMMUTABLE_MESSAGE,
    };
    assert_eq!(error.code(), "USERNAME_IMMUTABLE");
    assert_eq!(error.message(), "Username cannot be changed");
    assert_eq!(
        error.status_code(),
        actix_web::http::StatusCode::CONFLICT.as_u16()
    );
}

#[test]
fn legacy_conflict_still_renders_generic_payload() {
    let error = ApiError::Conflict;
    assert_eq!(error.code(), "CONFLICT");
    assert_eq!(error.message(), "Resource conflict");
    assert_eq!(
        error.status_code(),
        actix_web::http::StatusCode::CONFLICT.as_u16()
    );
}

#[test]
fn role_as_str_is_stable() {
    assert_eq!(CommunityRole::User.as_str(), "user");
    assert_eq!(CommunityRole::Moderator.as_str(), "moderator");
    assert_eq!(CommunityRole::Admin.as_str(), "admin");
}

#[test]
fn role_from_str_round_trips() {
    for role in [
        CommunityRole::User,
        CommunityRole::Moderator,
        CommunityRole::Admin,
    ] {
        assert_eq!(CommunityRole::from_str(role.as_str()), Some(role));
    }
}

#[test]
fn role_from_str_rejects_unknown() {
    assert_eq!(CommunityRole::from_str("owner"), None);
    assert_eq!(CommunityRole::from_str(""), None);
    assert_eq!(CommunityRole::from_str("USER"), None);
}

#[test]
fn role_default_is_user() {
    assert_eq!(CommunityRole::default(), CommunityRole::User);
}

// ─── Own checks ─────────────────────────────────────────────

#[test]
fn reserved_list_and_bidi_ranges() {
    assert!(is_reserved_username("official"));
    assert!(!is_reserved_username("alice"));
    assert!(is_bidi_control('\u{202A}'));
    assert!(is_bidi_control('\u{2069}'));
    assert!(!is_bidi_control('\u{202F}'));
}

#[test]
fn username_at_length_limits() {
    assert!(validate_username("abc").is_ok());
    assert!(validate_username(&"a".repeat(USERNAME_MAX_LEN)).is_ok());
    assert_eq!(
        validate_username("   "),
        Err(ValidationError::UsernameTooShort {
            min: USERNAME_MIN_LEN
        })
    );
}

#[test]
fn display_name_too_long_reports_length() {
    let value = "x".repeat(DISPLAY_NAME_MAX_LEN + 1);
    assert_eq!(
        validate_display_name(Some(&value)),
        Err(ValidationError::DisplayNameTooLong {
            max: DISPLAY_NAME_MAX_LEN,
            actual: DISPLAY_NAME_MAX_LEN + 1
        })
    );
}

#[test]
fn bio_too_long_maps_to_public_error() {
    let value = "x".repeat(BIO_MAX_LEN + 1);
    let error = validate_bio(Some(&value)).unwrap_err();
    assert_eq!(
        error,
        ValidationError::BioTooLong {
            max: BIO_MAX_LEN,
            actual: BIO_MAX_LEN + 1
        }
    );
    assert_eq!(ApiError::from(error).code(), "BIO_TOO_LONG");
}

fn profile(user_id: u128, username: &str) -> CommunityProfile {
    let normalized = username.trim().to_ascii_lowercase();
    CommunityProfile::new(user_id, username.to_owned(), normalized, None, None, 1_000)
}

#[test]
fn storage_create_and_get() {
    let mut storage = InMemoryCommunityStorage::new();
    storage.create_profile(&profile(1, "Alice")).unwrap();
    let by_id = storage.get_profile_by_user_id(&1).unwrap().unwrap();
    assert_eq!(by_id.username, "Alice");
    let by_name = storage.get_profile_by_username("alice").unwrap().unwrap();
    assert_eq!(by_name.user_id, 1);
    assert_eq!(storage.profile_count(), 1);
    assert!(storage.get_profile_by_username("ghost").unwrap().is_none());
    assert!(storage.get_profile_by_user_id(&2).unwrap().is_none());
}

#[test]
fn storage_usernames_and_users_are_unique() {
    let mut storage = InMemoryCommunityStorage::new();
    storage.create_profile(&profile(1, "alice")).unwrap();
    assert_eq!(
        storage.create_profile(&profile(2, "ALICE")),
        Err(ApiError::Conflict)
    );
    assert_eq!(
        storage.create_profile(&profile(1, "bob")),
        Err(ApiError::Conflict)
    );
    assert_eq!(storage.profile_count(), 1);
}

#[test]
fn storage_update_keeps_username() {
    let mut storage = InMemoryCommunityStorage::new();
    let original = profile(1, "alice");
    storage.create_profile(&original).unwrap();
    let mut tampered = original.clone();
    tampered.normalized_username = "bob".to_owned();
    assert_eq!(storage.update_profile(&tampered), Err(ApiError::Conflict));
    assert_eq!(
        storage.update_profile(&profile(9, "carol")),
        Err(ApiError::NotFound)
    );
    let mut updated = original.clone();
    updated.bio = Some("hello".to_owned());
    storage.update_profile(&updated).unwrap();
    let fetched = storage.get_profile_by_username("alice").unwrap().unwrap();
    assert_eq!(fetched.bio.as_deref(), Some("hello"));
}

#[test]
fn storage_roles_default_and_round_trip() {
    let mut storage = InMemoryCommunityStorage::new();
    assert_eq!(storage.get_role(&7).unwrap(), CommunityRole::User);
    storage.set_role(&7, CommunityRole::Moderator).unwrap();
    assert_eq!(storage.get_role(&7).unwrap(), CommunityRole::Moderator);
}

fn request(username: Option<&str>, display_name: Option<&str>, bio: Option<&str>) -> UpdateProfileRequest {
    UpdateProfileRequest {
        username: username.map(str::to_owned),
        display_name: display_name.map(str::to_owned),
        bio: bio.map(str::to_owned),
    }
}

#[test]
fn service_create_then_update_keeps_username() {
    let mut service = CommunityService::new(InMemoryCommunityStorage::new());
    let created = service
        .create_or_update_profile_at(&1, request(Some("Alice"), Some("Display"), Some("bio")), 10)
        .unwrap();
    assert_eq!(created.username, "Alice");
    assert_eq!(created.role, CommunityRole::User);
    assert!(created.avatar_url.is_none());
    assert_eq!(created.joined_at, 10);
    let updated = service
        .create_or_update_profile_at(&1, request(Some("ALICE"), Some("Updated"), None), 20)
        .unwrap();
    assert_eq!(updated.username, "Alice");
    assert_eq!(updated.display_name.as_deref(), Some("Updated"));
    assert!(updated.bio.is_none());
    assert_eq!(updated.joined_at, 10);
    let error = service
        .create_or_update_profile_at(&1, request(Some("bob"), None, None), 30)
        .unwrap_err();
    assert_eq!(error.code(), USERNAME_IMMUTABLE_CODE);
    assert_eq!(error.status_code(), 409);
}

#[test]
fn service_errors_follow_the_contract() {
    let mut service = CommunityService::new(InMemoryCommunityStorage::new());
    let missing = service
        .create_or_update_profile_at(&1, request(None, Some("Display"), None), 10)
        .unwrap_err();
    assert_eq!(missing.code(), USERNAME_REQUIRED_CODE);
    assert_eq!(missing.status_code(), 400);
    service
        .create_or_update_profile_at(&1, request(Some("alice"), None, None), 10)
        .unwrap();
    let taken = service
        .create_or_update_profile_at(&2, request(Some("Alice"), None, None), 10)
        .unwrap_err();
    assert_eq!(taken.code(), USERNAME_ALREADY_EXISTS_CODE);
    assert_eq!(taken.status_code(), 409);
    let reserved = service
        .create_or_update_profile_at(&3, request(Some("admin"), None, None), 10)
        .unwrap_err();
    assert_eq!(reserved.code(), "USERNAME_RESERVED");
    let long_bio = "a".repeat(501);
    let bio_error = service
        .create_or_update_profile_at(&3, request(Some("carol"), None, Some(&long_bio)), 10)
        .unwrap_err();
    assert_eq!(bio_error.code(), "BIO_TOO_LONG");
}

#[test]
fn service_public_and_own_profiles() {
    let mut service = CommunityService::new(InMemoryCommunityStorage::new());
    assert_eq!(service.get_own_profile(&1).unwrap_err().status_code(), 404);
    assert_eq!(service.get_public_profile("ghost").unwrap_err().status_code(), 404);
    service
        .create_or_update_profile_at(&1, request(Some("Alice"), Some("Display"), Some("bio")), 10)
        .unwrap();
    let public = service.get_public_profile("ALICE").unwrap();
    assert_eq!(public.username, "Alice");
    assert_eq!(public.bio.as_deref(), Some("bio"));
    let own = service.get_own_profile(&1).unwrap();
    assert_eq!(own.display_name.as_deref(), Some("Display"));
    assert_eq!(
        service.get_public_profile("a!").unwrap_err().code(),
        "USERNAME_TOO_SHORT"
    );
}

#[test]
fn validation_messages_match_display_texts() {
    assert_eq!(
        ValidationError::UsernameTooShort { min: 3 }.message(),
        "username must be at least 3 characters"
    );
    assert_eq!(
        ValidationError::UsernameTooLong { max: 32 }.message(),
        "username must be at most 32 characters"
    );
    assert_eq!(
        ValidationError::UsernameInvalidCharset { offending: '!' }.message(),
        "username contains invalid character '!'"
    );
    assert_eq!(ValidationError::UsernameReserved.message(), "username is reserved");
    assert_eq!(
        ValidationError::DisplayNameTooLong { max: 64, actual: 100 }.message(),
        "display name is 100 characters; maximum is 64"
    );
    assert_eq!(
        ValidationError::DisplayNameContainsControl { code: 7 }.message(),
        "display name contains control character U+0007"
    );
    assert_eq!(
        ValidationError::DisplayNameContainsBidi { code: 0x202e }.message(),
        "display name contains bidi control U+202E"
    );
    assert_eq!(
        ValidationError::BioTooLong { max: 500, actual: 501 }.message(),
        "bio is 501 characters; maximum is 500"
    );
    assert_eq!(
        ValidationError::BioContainsControl { code: 0x1f }.message(),
        "bio contains control character U+001F"
    );
    assert_eq!(
        ValidationError::BioContainsBidi { code: 0x10ffff }.message(),
        "bio contains bidi control U+10FFFF"
    );
}

#[test]
fn validated_username_revalidates_to_same_form() {
    let first = validate_username("  Alice_Dev-1 ").unwrap();
    assert_eq!(first.canonical, "Alice_Dev-1");
    assert_eq!(first.normalized, "alice_dev-1");
    let again = validate_username(&first.canonical).unwrap();
    assert_eq!(again.canonical, first.canonical);
    assert_eq!(again.normalized, first.normalized);
    let norm = validate_username(&first.normalized).unwrap();
    assert_eq!(norm.canonical, "alice_dev-1");
    assert_eq!(norm.normalized, "alice_dev-1");
}
