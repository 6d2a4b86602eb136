use aevum_platform_api::community::contracts::{
    UpdateProfileRequest, USERNAME_ALREADY_EXISTS_CODE, USERNAME_IMMUTABLE_CODE,
    USERNAME_REQUIRED_CODE,
};
use aevum_platform_api::community::models::{CommunityProfile, CommunityRole};
use aevum_platform_api::community::service::CommunityService;
use aevum_platform_api::community::storage::{CommunityStorage, InMemoryCommunityStorage};
use aevum_platform_api::error::ApiError;

fn profile(user_id: u128, username: &str) -> CommunityProfile {
    let normalized = username.trim().to_ascii_lowercase();
    CommunityProfile::new(user_id, username.to_owned(), normalized, None, None, 1_000)
}

fn service() -> CommunityService<InMemoryCommunityStorage> {
    CommunityService::new(InMemoryCommunityStorage::new())
}

fn request_create(username: &str) -> UpdateProfileRequest {
    UpdateProfileRequest {
        username: Some(username.to_owned()),
        display_name: Some("Display".to_owned()),
        bio: Some("bio".to_owned()),
    }
}

fn request_update(
    username: Option<&str>,
    display_name: Option<&str>,
    bio: Option<&str>,
) -> UpdateProfileRequest {
    UpdateProfileRequest {
        username: username.map(str::to_owned),
        display_name: display_name.map(str::to_owned),
        bio: bio.map(str::to_owned),
    }
}

#[test]
fn storage_create_and_get_by_user_id() {
    let mut storage = InMemoryCommunityStorage::new();
    storage.create_profile(&profile(11, "alice")).unwrap();
    let fetched = storage.get_profile_by_user_id(&11).unwrap().unwrap();
    assert_eq!(fetched.user_id, 11);
    assert_eq!(fetched.username, "alice");
    assert_eq!(fetched.normalized_username, "alice");
}

#[test]
fn storage_create_and_get_by_username() {
    let mut storage = InMemoryCommunityStorage::new();
    storage.create_profile(&profile(11, "Alice")).unwrap();
    let fetched = storage.get_profile_by_username("alice").unwrap().unwrap();
    assert_eq!(fetched.user_id, 11);
    assert_eq!(fetched.username, "Alice");
}

#[test]
fn storage_duplicate_username_is_conflict() {
    let mut storage = InMemoryCommunityStorage::new();
    storage.create_profile(&profile(1, "alice")).unwrap();
    assert!(matches!(
        storage.create_profile(&profile(2, "Alice")),
        Err(ApiError::Conflict)
    ));
}

#[test]
fn community_storage_duplicate_user_id_is_conflict() {
    let mut storage = InMemoryCommunityStorage::new();
    storage.create_profile(&profile(1, "alice")).unwrap();
    assert!(matches!(
        storage.create_profile(&profile(1, "bob")),
        Err(ApiError::Conflict)
    ));
}

#[test]
fn storage_get_role_defaults_to_user() {
    let storage = InMemoryCommunityStorage::new();
    assert_eq!(storage.get_role(&5).unwrap(), CommunityRole::User);
}

#[test]
fn storage_set_role_round_trips() {
    let mut storage = InMemoryCommunityStorage::new();
    storage.set_role(&5, CommunityRole::Moderator).unwrap();
    assert_eq!(storage.get_role(&5).unwrap(), CommunityRole::Moderator);
    storage.set_role(&5, CommunityRole::Admin).unwrap();
    assert_eq!(storage.get_role(&5).unwrap(), CommunityRole::Admin);
}

#[test]
fn storage_update_profile_preserves_username_index() {
    let mut storage = InMemoryCommunityStorage::new();
    let mut p = profile(3, "alice");
    storage.create_profile(&p).unwrap();
    p.display_name = Some("Alice".to_owned());
    p.bio = Some("hello".to_owned());
    p.updated_at = 2_000;
    storage.update_profile(&p).unwrap();
    let by_username = storage.get_profile_by_username("alice").unwrap().unwrap();
    assert_eq!(by_username.display_name.as_deref(), Some("Alice"));
    assert_eq!(by_username.bio.as_deref(), Some("hello"));
    assert_eq!(by_username.user_id, 3);
}

#[test]
fn storage_update_profile_rejects_username_change() {
    let mut storage = InMemoryCommunityStorage::new();
    let p = profile(3, "alice");
    storage.create_profile(&p).unwrap();
    let mut tampered = p.clone();
    tampered.username = "bob".to_owned();
    tampered.normalized_username = "bob".to_owned();
    assert!(matches!(storage.update_profile(&tampered), Err(ApiError::Conflict)));
    let fetched = storage.get_profile_by_user_id(&3).unwrap().unwrap();
    assert_eq!(fetched.username, "alice");
}

#[test]
fn storage_update_profile_missing_returns_not_found() {
    let mut storage = InMemoryCommunityStorage::new();
    assert!(matches!(
        storage.update_profile(&profile(4, "alice")),
        Err(ApiError::NotFound)
    ));
}

#[test]
fn storage_get_profile_by_username_missing_returns_none() {
    let storage = InMemoryCommunityStorage::new();
    assert!(storage.get_profile_by_username("ghost").unwrap().is_none());
}

#[test]
fn storage_get_profile_by_user_id_missing_returns_none() {
    let storage = InMemoryCommunityStorage::new();
    assert!(storage.get_profile_by_user_id(&99).unwrap().is_none());
}

#[test]
fn storage_concurrent_create_same_username_one_wins() {
    let mut storage = InMemoryCommunityStorage::new();
    let results = [
        storage.create_profile(&profile(1, "alice")),
        storage.create_profile(&profile(2, "ALICE")),
    ];
    assert_eq!(results.iter().filter(|r| r.is_ok()).count(), 1);
    assert_eq!(
        results.iter().filter(|r| matches!(r, Err(ApiError::Conflict))).count(),
        1
    );
    assert_eq!(storage.profile_count(), 1);
}

#[test]
fn concurrent_create_same_user_id_one_wins() {
    let mut storage = InMemoryCommunityStorage::new();
    let results = [
        storage.create_profile(&profile(1, "alice")),
        storage.create_profile(&profile(1, "bob")),
    ];
    assert_eq!(results.iter().filter(|r| r.is_ok()).count(), 1);
    assert_eq!(
        results.iter().filter(|r| matches!(r, Err(ApiError::Conflict))).count(),
        1
    );
    assert_eq!(storage.profile_count(), 1);
}

#[test]
fn create_profile_happy_path() {
    let mut service = service();
    let response = service.create_or_update_profile(&1, request_create("alice")).unwrap();
    assert_eq!(response.username, "alice");
    assert_eq!(response.display_name.as_deref(), Some("Display"));
    assert_eq!(response.bio.as_deref(), Some("bio"));
    assert_eq!(response.role, CommunityRole::User);
    assert!(response.avatar_url.is_none());
}

#[test]
fn create_profile_without_username_is_validation_failed() {
    let mut service = service();
    let error = service
        .create_or_update_profile(&1, request_update(None, Some("Display"), None))
        .err()
        .unwrap();
    assert_eq!(error.code(), USERNAME_REQUIRED_CODE);
    assert_eq!(error.status_code(), 400);
}

#[test]
fn create_profile_duplicate_username_is_username_already_exists() {
    let mut service = service();
    service.create_or_update_profile(&1, request_create("alice")).unwrap();
    let error = service
        .create_or_update_profile(&2, request_create("alice"))
        .err()
        .unwrap();
    assert_eq!(error.code(), USERNAME_ALREADY_EXISTS_CODE);
    assert_eq!(error.status_code(), 409);
}

#[test]
fn update_profile_changes_display_name_and_bio() {
    let mut service = service();
    service.create_or_update_profile(&1, request_create("alice")).unwrap();
    let response = service
        .create_or_update_profile(&1, request_update(None, Some("New Name"), Some("new bio")))
        .unwrap();
    assert_eq!(response.username, "alice");
    assert_eq!(response.display_name.as_deref(), Some("New Name"));
    assert_eq!(response.bio.as_deref(), Some("new bio"));
}

#[test]
fn update_profile_without_username_succeeds() {
    let mut service = service();
    service.create_or_update_profile(&1, request_create("alice")).unwrap();
    let response = service
        .create_or_update_profile(&1, request_update(None, None, None))
        .unwrap();
    assert_eq!(response.username, "alice");
    assert!(response.display_name.is_none());
    assert!(response.bio.is_none());
}

#[test]
fn update_profile_with_same_username_is_idempotent() {
    let mut service = service();
    service.create_or_update_profile(&1, request_create("Alice")).unwrap();
    let response = service
        .create_or_update_profile(&1, request_update(Some("ALICE"), Some("Updated"), None))
        .unwrap();
    assert_eq!(response.username, "Alice");
    assert_eq!(response.display_name.as_deref(), Some("Updated"));
    assert!(response.bio.is_none());
}

#[test]
fn update_profile_with_different_username_is_username_immutable() {
    let mut service = service();
    service.create_or_update_profile(&1, request_create("alice")).unwrap();
    let error = service
        .create_or_update_profile(&1, request_update(Some("bob"), None, None))
        .err()
        .unwrap();
    assert_eq!(error.code(), USERNAME_IMMUTABLE_CODE);
    assert_eq!(error.status_code(), 409);
}

#[test]
fn update_profile_with_invalid_username_is_rejected() {
    let mut service = service();
    service.create_or_update_profile(&1, request_create("alice")).unwrap();
    let error = service
        .create_or_update_profile(&1, request_update(Some("bad username"), None, None))
        .err()
        .unwrap();
    assert_eq!(error.code(), "USERNAME_INVALID_CHARSET");
    assert_eq!(error.status_code(), 400);
}

#[test]
fn get_own_profile_missing_returns_not_found() {
    let service = service();
    assert_eq!(service.get_own_profile(&1).err().unwrap().status_code(), 404);
}

#[test]
fn get_own_profile_returns_response() {
    let mut service = service();
    service.create_or_update_profile(&1, request_create("alice")).unwrap();
    let response = service.get_own_profile(&1).unwrap();
    assert_eq!(response.username, "alice");
    assert_eq!(response.role, CommunityRole::User);
    assert_eq!(response.display_name.as_deref(), Some("Display"));
}

#[test]
fn get_public_profile_missing_returns_not_found() {
    let service = service();
    assert_eq!(service.get_public_profile("ghost").err().unwrap().status_code(), 404);
}

#[test]
fn get_public_profile_returns_response() {
    let mut service = service();
    service.create_or_update_profile(&1, request_create("alice")).unwrap();
    let response = service.get_public_profile("alice").unwrap();
    assert_eq!(response.username, "alice");
    assert_eq!(response.display_name.as_deref(), Some("Display"));
    assert_eq!(response.bio.as_deref(), Some("bio"));
    assert!(response.avatar_url.is_none());
}

#[test]
fn get_public_profile_normalizes_username() {
    let mut service = service();
    service.create_or_update_profile(&1, request_create("Alice")).unwrap();
    assert_eq!(service.get_public_profile("ALICE").unwrap().username, "Alice");
}

#[test]
fn create_profile_rejects_reserved_username() {
    let mut service = service();
    let error = service
        .create_or_update_profile(&1, request_create("admin"))
        .err()
        .unwrap();
    assert_eq!(error.code(), "USERNAME_RESERVED");
    assert_eq!(error.status_code(), 400);
}

#[test]
fn create_profile_rejects_invalid_bio() {
    let mut service = service();
    let error = service
        .create_or_update_profile(
            &1,
            UpdateProfileRequest {
                username: Some("alice".to_owned()),
                display_name: None,
                bio: Some("a".repeat(501)),
            },
        )
        .err()
        .unwrap();
    assert_eq!(error.code(), "BIO_TOO_LONG");
    assert_eq!(error.status_code(), 400);
}
