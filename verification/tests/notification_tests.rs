use aevum_platform_api::community::notifications::contracts::{
    DEFAULT_PAGE_LIMIT, INVALID_CURSOR_CODE, LIMIT_OUT_OF_RANGE_CODE, MAX_PAGE_LIMIT,
    MAX_PAYLOAD_SIZE, MAX_SOURCE_ID_LEN, MIN_PAGE_LIMIT, PAYLOAD_TOO_LARGE_CODE,
    SOURCE_ID_EMPTY_CODE, SOURCE_ID_INVALID_CODE, SOURCE_ID_TOO_LONG_CODE,
};
use aevum_platform_api::community::notifications::models::{
    CreateNotificationResult, CursorError, Notification, NotificationCursor, NotificationKind,
};
use aevum_platform_api::community::notifications::service::NotificationService;
use aevum_platform_api::community::notifications::sink::{
    NoopNotificationSink, NotificationSink, NotificationSinkError,
};
use aevum_platform_api::community::notifications::storage::{
    hash_source_id, InMemoryNotificationStorage, NotificationStorage, SOURCE_HASH_HEX_LEN,
};
use aevum_platform_api::community::notifications::validation::{
    validate_limit, validate_payload_size, validate_source_id, ValidationError,
};
use aevum_platform_api::error::ApiError;

fn payload_with(key: &str, value: &str) -> String {
    let mut map = serde_json::Map::new();
    map.insert(key.to_owned(), serde_json::Value::String(value.to_owned()));
    serde_json::to_string(&serde_json::Value::Object(map)).unwrap()
}

#[test]
fn limits_are_stable() {
    assert_eq!(DEFAULT_PAGE_LIMIT, 20);
    assert_eq!(MIN_PAGE_LIMIT, 1);
    assert_eq!(MAX_PAGE_LIMIT, 100);
    assert_eq!(MAX_PAYLOAD_SIZE, 16 * 1024);
    assert_eq!(MAX_SOURCE_ID_LEN, 256);
}

#[test]
fn error_codes_are_stable() {
    assert_eq!(INVALID_CURSOR_CODE, "INVALID_CURSOR");
    assert_eq!(SOURCE_ID_EMPTY_CODE, "SOURCE_ID_EMPTY");
    assert_eq!(SOURCE_ID_TOO_LONG_CODE, "SOURCE_ID_TOO_LONG");
    assert_eq!(SOURCE_ID_INVALID_CODE, "SOURCE_ID_INVALID");
    assert_eq!(PAYLOAD_TOO_LARGE_CODE, "PAYLOAD_TOO_LARGE");
    assert_eq!(LIMIT_OUT_OF_RANGE_CODE, "LIMIT_OUT_OF_RANGE");
}

#[test]
fn source_id_empty_maps_to_validation_failed() {
    let error = ApiError::from(ValidationError::SourceIdEmpty);
    assert_eq!(error.code(), SOURCE_ID_EMPTY_CODE);
    assert_eq!(
        error.status_code(),
        actix_web::http::StatusCode::BAD_REQUEST.as_u16()
    );
}

#[test]
fn payload_too_large_maps_to_validation_failed() {
    let error = ApiError::from(ValidationError::PayloadTooLarge {
        max: MAX_PAYLOAD_SIZE,
        actual: MAX_PAYLOAD_SIZE + 1,
    });
    assert_eq!(error.code(), PAYLOAD_TOO_LARGE_CODE);
    assert_eq!(
        error.status_code(),
        actix_web::http::StatusCode::BAD_REQUEST.as_u16()
    );
}

#[test]
fn limit_out_of_range_maps_to_validation_failed() {
    let error = ApiError::from(ValidationError::LimitOutOfRange {
        min: MIN_PAGE_LIMIT,
        max: MAX_PAGE_LIMIT,
        actual: 0,
    });
    assert_eq!(error.code(), LIMIT_OUT_OF_RANGE_CODE);
    assert_eq!(
        error.status_code(),
        actix_web::http::StatusCode::BAD_REQUEST.as_u16()
    );
}

#[test]
fn kind_as_str_is_stable() {
    assert_eq!(NotificationKind::ReplyToTopic.as_str(), "reply_to_topic");
    assert_eq!(NotificationKind::ReplyToComment.as_str(), "reply_to_comment");
    assert_eq!(NotificationKind::MentionedInPost.as_str(), "mentioned_in_post");
    assert_eq!(NotificationKind::System.as_str(), "system");
}

#[test]
fn kind_from_str_round_trips() {
    for kind in [
        NotificationKind::ReplyToTopic,
        NotificationKind::ReplyToComment,
        NotificationKind::MentionedInPost,
        NotificationKind::System,
    ] {
        assert_eq!(NotificationKind::from_str(kind.as_str()), Some(kind));
    }
}

#[test]
fn kind_from_str_rejects_unknown() {
    assert_eq!(NotificationKind::from_str("unknown"), None);
    assert_eq!(NotificationKind::from_str(""), None);
    assert_eq!(NotificationKind::from_str("ReplyToTopic"), None);
}

#[test]
fn cursor_encode_decode_round_trips() {
    let cursor = NotificationCursor {
        created_at: chrono::Utc::now().timestamp_micros(),
        id: uuid::Uuid::new_v4().as_u128(),
    };
    let encoded = cursor.encode();
    let decoded = NotificationCursor::decode(&encoded).unwrap();
    assert_eq!(decoded.id, cursor.id);
    assert_eq!(
        decoded.created_at / 1_000_000,
        cursor.created_at / 1_000_000
    );
}

#[test]
fn cursor_decode_rejects_invalid_base64() {
    let result = NotificationCursor::decode("not-base64!!!");
    assert!(matches!(result, Err(CursorError::InvalidBase64)));
}

#[test]
fn cursor_decode_rejects_invalid_json() {
    let bytes = b"not json";
    let encoded = base64::Engine::encode(&base64::engine::general_purpose::URL_SAFE_NO_PAD, bytes);
    let result = NotificationCursor::decode(&encoded);
    assert!(matches!(result, Err(CursorError::InvalidJson)));
}

#[test]
fn cursor_decode_rejects_invalid_uuid() {
    let mut map = serde_json::Map::new();
    map.insert(
        "created_at".to_owned(),
        serde_json::Value::String(chrono::Utc::now().to_rfc3339()),
    );
    map.insert(
        "id".to_owned(),
        serde_json::Value::String("not-a-uuid".to_owned()),
    );
    let bytes = serde_json::to_vec(&serde_json::Value::Object(map)).unwrap();
    let encoded = base64::Engine::encode(&base64::engine::general_purpose::URL_SAFE_NO_PAD, bytes);
    let result = NotificationCursor::decode(&encoded);
    assert!(matches!(result, Err(CursorError::InvalidUuid)));
}

#[test]
fn sink_error_new_constructs_delivery_variant() {
    let error = NotificationSinkError::new("boom");
    match error {
        NotificationSinkError::Delivery(message) => assert_eq!(message, "boom"),
    }
}

#[test]
fn sink_error_displays_message() {
    let error = NotificationSinkError::new("boom");
    assert_eq!(error.to_string(), "boom");
}

#[test]
fn sink_error_from_string() {
    let error: NotificationSinkError = String::from("boom").into();
    match error {
        NotificationSinkError::Delivery(message) => assert_eq!(message, "boom"),
    }
}

#[test]
fn sink_error_from_str() {
    let error: NotificationSinkError = "boom".into();
    match error {
        NotificationSinkError::Delivery(message) => assert_eq!(message, "boom"),
    }
}

#[test]
fn source_id_empty_is_rejected() {
    assert_eq!(validate_source_id(""), Err(ValidationError::SourceIdEmpty));
}

#[test]
fn source_id_single_char_is_ok() {
    assert!(validate_source_id("a").is_ok());
}

#[test]
fn source_id_max_length_is_ok() {
    let raw = "a".repeat(MAX_SOURCE_ID_LEN);
    assert!(validate_source_id(&raw).is_ok());
}

#[test]
fn source_id_over_max_is_rejected() {
    let raw = "a".repeat(MAX_SOURCE_ID_LEN + 1);
    assert!(matches!(
        validate_source_id(&raw),
        Err(ValidationError::SourceIdTooLong { .. })
    ));
}

#[test]
fn source_id_with_newline_is_rejected() {
    assert!(matches!(
        validate_source_id("abc\ndef"),
        Err(ValidationError::SourceIdInvalidChar { .. })
    ));
}

#[test]
fn source_id_with_tab_is_rejected() {
    assert!(matches!(
        validate_source_id("abc\tdef"),
        Err(ValidationError::SourceIdInvalidChar { .. })
    ));
}

#[test]
fn source_id_with_unicode_is_ok() {
    assert!(validate_source_id("тема-1").is_ok());
}

#[test]
fn payload_small_is_ok() {
    let payload = payload_with("topic", "abc");
    assert!(validate_payload_size(&payload).is_ok());
}

#[test]
fn payload_16kb_is_rejected_when_over() {
    let big = "a".repeat(MAX_PAYLOAD_SIZE);
    let payload = payload_with("data", &big);
    assert!(matches!(
        validate_payload_size(&payload),
        Err(ValidationError::PayloadTooLarge { .. })
    ));
}

#[test]
fn limit_zero_is_rejected() {
    assert!(matches!(
        validate_limit(0),
        Err(ValidationError::LimitOutOfRange { .. })
    ));
}

#[test]
fn limit_one_is_ok() {
    assert!(validate_limit(1).is_ok());
}

#[test]
fn limit_max_is_ok() {
    assert!(validate_limit(MAX_PAGE_LIMIT).is_ok());
}

#[test]
fn limit_over_max_is_rejected() {
    assert!(matches!(
        validate_limit(MAX_PAGE_LIMIT + 1),
        Err(ValidationError::LimitOutOfRange { .. })
    ));
}

#[test]
fn hash_source_id_is_deterministic_and_distinct() {
    assert_eq!(hash_source_id("abc"), hash_source_id("abc"));
    assert_ne!(hash_source_id("abc"), hash_source_id("abcd"));
}

#[test]
fn hash_source_id_has_expected_length() {
    assert_eq!(hash_source_id("abc").len(), SOURCE_HASH_HEX_LEN);
    assert_eq!(hash_source_id("").len(), SOURCE_HASH_HEX_LEN);
}

#[test]
fn hash_source_id_is_lowercase_hex() {
    let h = hash_source_id("abc");
    assert!(h.chars().all(|c| c.is_ascii_hexdigit() && !c.is_ascii_uppercase()));
}

// ─── Own checks ─────────────────────────────────────────────

#[test]
fn hash_source_id_matches_known_digest() {
    assert_eq!(
        hash_source_id("abc"),
        "ba7816bf8f01cfea414140de5dae2223b00361a396177a9cb410ff61f20015ad"
    );
}

#[test]
fn cursor_encoding_is_the_documented_format() {
    let cursor = NotificationCursor {
        created_at: 0,
        id: 0x67e55044_10b1_426f_9247_bb680e5fe0c8,
    };
    let encoded = cursor.encode();
    let bytes =
        base64::Engine::decode(&base64::engine::general_purpose::URL_SAFE_NO_PAD, encoded.as_bytes())
            .unwrap();
    assert_eq!(
        String::from_utf8(bytes).unwrap(),
        "{\"created_at\":\"1970-01-01T00:00:00+00:00\",\"id\":\"67e55044-10b1-426f-9247-bb680e5fe0c8\"}"
    );
    assert_eq!(NotificationCursor::decode(&encoded).unwrap(), cursor);
}

#[test]
fn cursor_with_missing_field_is_invalid_json() {
    let mut map = serde_json::Map::new();
    map.insert("id".to_owned(), serde_json::Value::String("x".to_owned()));
    let bytes = serde_json::to_vec(&serde_json::Value::Object(map)).unwrap();
    let encoded = base64::Engine::encode(&base64::engine::general_purpose::URL_SAFE_NO_PAD, bytes);
    assert_eq!(
        NotificationCursor::decode(&encoded),
        Err(CursorError::InvalidJson)
    );
}

#[test]
fn cursor_with_bad_timestamp_is_invalid_timestamp() {
    let mut map = serde_json::Map::new();
    map.insert(
        "created_at".to_owned(),
        serde_json::Value::String("yesterday".to_owned()),
    );
    map.insert(
        "id".to_owned(),
        serde_json::Value::String(uuid::Uuid::new_v4().to_string()),
    );
    let bytes = serde_json::to_vec(&serde_json::Value::Object(map)).unwrap();
    let encoded = base64::Engine::encode(&base64::engine::general_purpose::URL_SAFE_NO_PAD, bytes);
    assert_eq!(
        NotificationCursor::decode(&encoded),
        Err(CursorError::InvalidTimestamp)
    );
}

fn note(user_id: u128, id: u128, kind: NotificationKind, created_at: i64) -> Notification {
    Notification {
        id,
        user_id,
        kind,
        payload: payload_with("text", "hello"),
        read_at: None,
        created_at,
    }
}

#[test]
fn storage_create_is_idempotent_per_identity() {
    let mut storage = InMemoryNotificationStorage::new();
    let first = note(1, 10, NotificationKind::System, 100);
    assert_eq!(
        storage.create(&first, "src-1").unwrap(),
        CreateNotificationResult::Created(first.clone())
    );
    let repeat = note(1, 11, NotificationKind::System, 200);
    assert_eq!(
        storage.create(&repeat, "src-1").unwrap(),
        CreateNotificationResult::AlreadyExists(first.clone())
    );
    assert_eq!(storage.notification_count(&1), 1);
    storage
        .create(&note(1, 12, NotificationKind::ReplyToTopic, 300), "src-1")
        .unwrap();
    storage
        .create(&note(2, 13, NotificationKind::System, 300), "src-1")
        .unwrap();
    assert_eq!(storage.notification_count(&1), 2);
    assert_eq!(storage.notification_count(&2), 1);
}

#[test]
fn storage_pages_newest_first_with_cursor() {
    let mut storage = InMemoryNotificationStorage::new();
    for i in 0..5u128 {
        let source = format!("src-{i}");
        storage
            .create(&note(1, 100 + i, NotificationKind::System, 1_000 + i as i64), &source)
            .unwrap();
    }
    storage
        .create(&note(2, 500, NotificationKind::System, 9_999), "other")
        .unwrap();
    let page1 = storage.list(&1, None, 2).unwrap();
    assert_eq!(
        page1.items.iter().map(|n| n.id).collect::<Vec<_>>(),
        vec![104, 103]
    );
    let c1 = page1.next_cursor.unwrap();
    assert_eq!(c1.id, 103);
    let page2 = storage.list(&1, Some(c1), 2).unwrap();
    assert_eq!(
        page2.items.iter().map(|n| n.id).collect::<Vec<_>>(),
        vec![102, 101]
    );
    let page3 = storage.list(&1, page2.next_cursor, 2).unwrap();
    assert_eq!(page3.items.iter().map(|n| n.id).collect::<Vec<_>>(), vec![100]);
    assert!(page3.next_cursor.is_none());
    let exact = storage.list(&1, None, 5).unwrap();
    assert_eq!(exact.items.len(), 5);
    assert!(exact.next_cursor.is_none());
    assert!(storage.list(&3, None, 5).unwrap().items.is_empty());
}

#[test]
fn storage_ties_on_time_break_by_id() {
    let mut storage = InMemoryNotificationStorage::new();
    for (i, id) in [7u128, 3, 9].iter().enumerate() {
        let source = format!("s{i}");
        storage
            .create(&note(1, *id, NotificationKind::System, 50), &source)
            .unwrap();
    }
    let page = storage.list(&1, None, 10).unwrap();
    assert_eq!(
        page.items.iter().map(|n| n.id).collect::<Vec<_>>(),
        vec![9, 7, 3]
    );
}

#[test]
fn storage_mark_read_is_idempotent() {
    let mut storage = InMemoryNotificationStorage::new();
    storage
        .create(&note(1, 10, NotificationKind::System, 100), "a")
        .unwrap();
    storage
        .create(&note(1, 11, NotificationKind::System, 100), "b")
        .unwrap();
    assert_eq!(storage.unread_count(&1).unwrap(), 2);
    let first = storage.mark_read(&1, &10, 500).unwrap();
    assert_eq!(first.read_at, Some(500));
    let second = storage.mark_read(&1, &10, 900).unwrap();
    assert_eq!(second.read_at, Some(500));
    assert_eq!(storage.unread_count(&1).unwrap(), 1);
    assert_eq!(storage.mark_read(&2, &11, 500), Err(ApiError::NotFound));
    assert_eq!(storage.mark_read(&1, &99, 500), Err(ApiError::NotFound));
}

#[test]
fn noop_sink_accepts_everything() {
    let sink = NoopNotificationSink::new();
    assert!(sink.deliver(&note(1, 1, NotificationKind::System, 1)).is_ok());
}

#[test]
fn service_emit_validates_and_is_idempotent() {
    let mut service = NotificationService::with_noop_sink(InMemoryNotificationStorage::new());
    let empty = service
        .emit_at(&1, NotificationKind::System, "", payload_with("t", "x"), 10, 100)
        .unwrap_err();
    assert_eq!(empty.code(), SOURCE_ID_EMPTY_CODE);
    let big = "a".repeat(MAX_PAYLOAD_SIZE);
    let too_large = service
        .emit_at(&1, NotificationKind::System, "s", payload_with("t", &big), 10, 100)
        .unwrap_err();
    assert_eq!(too_large.code(), PAYLOAD_TOO_LARGE_CODE);
    let first = service
        .emit_at(&1, NotificationKind::System, "s", payload_with("t", "x"), 10, 100)
        .unwrap();
    assert_eq!(first.id, 10);
    assert!(first.read_at.is_none());
    let again = service
        .emit_at(&1, NotificationKind::System, "s", payload_with("t", "y"), 11, 200)
        .unwrap();
    assert_eq!(again.id, 10);
    assert_eq!(again.created_at, 100);
    assert_eq!(service.unread_count(&1).unwrap().count, 1);
}

#[test]
fn service_list_checks_limit_and_cursor() {
    let mut service = NotificationService::with_noop_sink(InMemoryNotificationStorage::new());
    for i in 0..3u128 {
        let source = format!("s{i}");
        service
            .emit_at(
                &1,
                NotificationKind::System,
                &source,
                payload_with("t", "x"),
                20 + i,
                1_000 + i as i64,
            )
            .unwrap();
    }
    assert_eq!(
        service.list(&1, None, Some(0)).unwrap_err().code(),
        LIMIT_OUT_OF_RANGE_CODE
    );
    assert_eq!(
        service
            .list(&1, Some("garbage!".to_owned()), None)
            .unwrap_err()
            .code(),
        INVALID_CURSOR_CODE
    );
    let long_cursor = "a".repeat(1_000);
    assert_eq!(
        service.list(&1, Some(long_cursor), None).unwrap_err().code(),
        INVALID_CURSOR_CODE
    );
    let page = service.list(&1, None, Some(2)).unwrap();
    assert_eq!(page.items.len(), 2);
    assert_eq!(page.items[0].id, 22);
    let rest = service.list(&1, page.next_cursor, Some(2)).unwrap();
    assert_eq!(rest.items.len(), 1);
    assert_eq!(rest.items[0].id, 20);
    assert!(rest.next_cursor.is_none());
}

#[test]
fn service_mark_read_answers_not_found_for_others() {
    let mut service = NotificationService::with_noop_sink(InMemoryNotificationStorage::new());
    service
        .emit_at(&1, NotificationKind::System, "s", payload_with("t", "x"), 10, 100)
        .unwrap();
    assert_eq!(service.mark_read_at(&2, &10, 300).unwrap_err(), ApiError::NotFound);
    let read = service.mark_read_at(&1, &10, 300).unwrap();
    assert_eq!(read.read_at, Some(300));
    assert_eq!(service.unread_count(&1).unwrap().count, 0);
}
