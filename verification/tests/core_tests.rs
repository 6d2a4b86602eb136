use aevum_platform_api::config::{parse_port, Config};
use aevum_platform_api::error::ApiError;
use aevum_platform_api::metrics::{audit, auth, rate_limit, storage};
use aevum_platform_api::storage::{MockStorage, SharedStorage, Storage, StorageStatus};

#[test]
fn storage_status_is_stable() {
    assert_eq!(StorageStatus::Healthy.as_str(), "healthy");
    assert_eq!(StorageStatus::NotReady.as_str(), "not_ready");
    assert_eq!(StorageStatus::Unavailable.as_str(), "unavailable");
}

#[test]
fn mock_storage_is_healthy() {
    let storage = MockStorage::new();
    assert_eq!(storage.health(), StorageStatus::Healthy);
    assert!(storage.is_ready());
    assert_eq!(storage.name(), "mock");
}

#[test]
fn healthy_status_is_not_retryable() {
    assert!(!StorageStatus::Healthy.is_retryable());
}

#[test]
fn unavailable_status_is_retryable() {
    assert!(StorageStatus::Unavailable.is_retryable());
}

#[test]
fn not_ready_status_is_retryable() {
    assert!(StorageStatus::NotReady.is_retryable());
}

#[test]
fn shared_storage_is_object_safe() {
    let storage: SharedStorage = std::sync::Arc::new(MockStorage::new());
    assert!(storage.is_ready());
    assert_eq!(storage.name(), "mock");
}

#[test]
fn storage_status_has_stable_names() {
    assert_eq!(StorageStatus::Healthy.as_str(), "healthy");
    assert_eq!(StorageStatus::NotReady.as_str(), "not_ready");
    assert_eq!(StorageStatus::Unavailable.as_str(), "unavailable");
}

#[test]
fn constants_are_stable() {
    assert_eq!(auth::LOGIN_SUCCESS_TOTAL, "auth_login_success_total");
    assert_eq!(auth::ACTIVE_SESSIONS, "auth_active_sessions");
    assert_eq!(audit::EVENTS_WRITTEN_TOTAL, "audit_events_written_total");
    assert_eq!(storage::READS_TOTAL, "auth_storage_reads_total");
    assert_eq!(
        rate_limit::LOGIN_RATE_LIMITED_TOTAL,
        "auth_login_rate_limited_total"
    );
}

// ─── Own checks ─────────────────────────────────────────────

#[test]
fn error_codes_messages_and_statuses() {
    let cases = [
        (ApiError::Internal, "INTERNAL_ERROR", "Internal server error", 500),
        (ApiError::NotFound, "NOT_FOUND", "Resource not found", 404),
        (ApiError::BadRequest, "BAD_REQUEST", "Bad request", 400),
        (ApiError::Unauthorized, "UNAUTHORIZED", "Authentication required", 401),
        (ApiError::Forbidden, "FORBIDDEN", "Access denied", 403),
        (ApiError::Conflict, "CONFLICT", "Resource conflict", 409),
        (ApiError::RateLimited, "RATE_LIMITED", "Too many requests", 429),
        (
            ApiError::ServiceUnavailable,
            "SERVICE_UNAVAILABLE",
            "Service temporarily unavailable",
            503,
        ),
    ];
    for (error, code, message, status) in cases {
        assert_eq!(error.code(), code);
        assert_eq!(error.message(), message);
        assert_eq!(error.status_code(), status);
        let body = error.body();
        assert_eq!(body.error.code, code);
        assert_eq!(body.error.message, message);
    }
}

#[test]
fn only_throttling_and_outages_are_retryable() {
    assert!(ApiError::RateLimited.is_retryable());
    assert!(ApiError::ServiceUnavailable.is_retryable());
    assert!(!ApiError::Internal.is_retryable());
    assert!(!ApiError::Conflict.is_retryable());
}

#[test]
fn error_headers() {
    assert_eq!(
        ApiError::Unauthorized.extra_header(),
        Some(("WWW-Authenticate", "Bearer"))
    );
    assert_eq!(ApiError::RateLimited.extra_header(), Some(("Retry-After", "60")));
    assert_eq!(ApiError::NotFound.extra_header(), None);
}

#[test]
fn detailed_errors_carry_their_own_code() {
    let error = ApiError::ValidationFailed {
        code: "X_CODE",
        message: "x message",
    };
    assert_eq!(error.code(), "X_CODE");
    assert_eq!(error.message(), "x message");
    assert_eq!(error.status_code(), 400);
}

#[test]
fn config_defaults_when_unset() {
    let config = Config::from_vars(None, None, None);
    assert_eq!(config.host, "127.0.0.1");
    assert_eq!(config.port, 8080);
    assert_eq!(config.environment, "development");
}

#[test]
fn config_reads_set_values() {
    let config = Config::from_vars(
        Some("0.0.0.0".to_owned()),
        Some("9090".to_owned()),
        Some("production".to_owned()),
    );
    assert_eq!(config.host, "0.0.0.0");
    assert_eq!(config.port, 9090);
    assert_eq!(config.environment, "production");
}

#[test]
fn port_parsing_follows_u16_parse() {
    for text in ["0", "8080", "+80", "65535", "007", "", "+", "-1", "65536", "80a", " 80", "++1", "99999999999"] {
        assert_eq!(parse_port(text), text.parse::<u16>().ok(), "{text}");
    }
    assert_eq!(Config::from_vars(None, Some("not-a-port".to_owned()), None).port, 8080);
    assert_eq!(Config::from_vars(None, Some("70000".to_owned()), None).port, 8080);
}
