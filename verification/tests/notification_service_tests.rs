use aevum_platform_api::community::notifications::models::{
    CreateNotificationResult, Notification, NotificationKind,
};
use aevum_platform_api::community::notifications::service::NotificationService;
use aevum_platform_api::community::notifications::sink::{
    NoopNotificationSink, NotificationSink, NotificationSinkError,
};
use aevum_platform_api::community::notifications::storage::{
    InMemoryNotificationStorage, NotificationStorage,
};
use aevum_platform_api::error::ApiError;

const BASE: i64 = 1_700_000_000_000_000;

fn payload(key: &str, value: &str) -> String {
    let mut map = serde_json::Map::new();
    map.insert(key.to_owned(), serde_json::Value::String(value.to_owned()));
    serde_json::to_string(&serde_json::Value::Object(map)).unwrap()
}

fn make_notification(user_id: u128, id: u128, kind: NotificationKind, age_secs: i64) -> Notification {
    make_notification_at(user_id, id, kind, BASE - age_secs * 1_000_000)
}

fn make_notification_at(user_id: u128, id: u128, kind: NotificationKind, created_at: i64) -> Notification {
    Notification {
        id,
        user_id,
        kind,
        payload: payload("text", "hello"),
        read_at: None,
        created_at,
    }
}

struct FailingSink;

impl NotificationSink for FailingSink {
    fn deliver(&self, _: &Notification) -> Result<(), NotificationSinkError> {
        Err(NotificationSinkError::from("boom"))
    }
}

fn service() -> NotificationService<InMemoryNotificationStorage> {
    NotificationService::with_noop_sink(InMemoryNotificationStorage::new())
}

#[test]
fn storage_create_then_list_returns_notification() {
    let mut storage = InMemoryNotificationStorage::new();
    let n = make_notification(1, 10, NotificationKind::System, 0);
    assert!(matches!(
        storage.create(&n, "src-1").unwrap(),
        CreateNotificationResult::Created(_)
    ));
    let page = storage.list(&1, None, 10).unwrap();
    assert_eq!(page.items.len(), 1);
    assert_eq!(page.items[0].id, n.id);
    assert!(page.next_cursor.is_none());
}

#[test]
fn storage_create_duplicate_source_id_is_already_exists() {
    let mut storage = InMemoryNotificationStorage::new();
    let n1 = make_notification(1, 10, NotificationKind::System, 0);
    let n2 = make_notification(1, 11, NotificationKind::System, 0);
    storage.create(&n1, "src-1").unwrap();
    match storage.create(&n2, "src-1").unwrap() {
        CreateNotificationResult::AlreadyExists(existing) => assert_eq!(existing.id, n1.id),
        CreateNotificationResult::Created(_) => panic!("expected AlreadyExists"),
    }
    assert_eq!(storage.notification_count(&1), 1);
}

#[test]
fn storage_create_different_source_id_creates_two() {
    let mut storage = InMemoryNotificationStorage::new();
    storage.create(&make_notification(1, 10, NotificationKind::System, 0), "src-1").unwrap();
    storage.create(&make_notification(1, 11, NotificationKind::System, 0), "src-2").unwrap();
    assert_eq!(storage.notification_count(&1), 2);
}

#[test]
fn storage_create_different_kind_same_source_is_distinct() {
    let mut storage = InMemoryNotificationStorage::new();
    storage
        .create(&make_notification(1, 10, NotificationKind::ReplyToTopic, 0), "src-1")
        .unwrap();
    storage
        .create(&make_notification(1, 11, NotificationKind::MentionedInPost, 0), "src-1")
        .unwrap();
    assert_eq!(storage.notification_count(&1), 2);
}

#[test]
fn storage_create_different_user_same_source_is_distinct() {
    let mut storage = InMemoryNotificationStorage::new();
    storage.create(&make_notification(1, 10, NotificationKind::System, 0), "src-1").unwrap();
    storage.create(&make_notification(2, 11, NotificationKind::System, 0), "src-1").unwrap();
    assert_eq!(storage.notification_count(&1), 1);
    assert_eq!(storage.notification_count(&2), 1);
}

#[test]
fn storage_list_empty_returns_empty_page() {
    let storage = InMemoryNotificationStorage::new();
    let page = storage.list(&1, None, 10).unwrap();
    assert!(page.items.is_empty());
    assert!(page.next_cursor.is_none());
}

#[test]
fn storage_list_pagination_uses_cursor() {
    let mut storage = InMemoryNotificationStorage::new();
    for i in 0..5u128 {
        let n = make_notification(1, 100 + i, NotificationKind::System, i as i64);
        storage.create(&n, &format!("src-{i}")).unwrap();
    }
    let page1 = storage.list(&1, None, 2).unwrap();
    assert_eq!(page1.items.len(), 2);
    assert!(page1.next_cursor.is_some());
    let page2 = storage.list(&1, page1.next_cursor, 2).unwrap();
    assert_eq!(page2.items.len(), 2);
    assert!(page2.next_cursor.is_some());
    let page3 = storage.list(&1, page2.next_cursor, 2).unwrap();
    assert_eq!(page3.items.len(), 1);
    assert!(page3.next_cursor.is_none());
    let mut ids: Vec<u128> = page1
        .items
        .iter()
        .chain(page2.items.iter())
        .chain(page3.items.iter())
        .map(|n| n.id)
        .collect();
    ids.sort();
    ids.dedup();
    assert_eq!(ids.len(), 5);
}

#[test]
fn storage_list_orders_by_created_at_desc() {
    let mut storage = InMemoryNotificationStorage::new();
    let oldest = make_notification(1, 1, NotificationKind::System, 100);
    let middle = make_notification(1, 2, NotificationKind::System, 50);
    let newest = make_notification(1, 3, NotificationKind::System, 1);
    storage.create(&oldest, "s1").unwrap();
    storage.create(&middle, "s2").unwrap();
    storage.create(&newest, "s3").unwrap();
    let page = storage.list(&1, None, 10).unwrap();
    assert_eq!(page.items[0].id, newest.id);
    assert_eq!(page.items[1].id, middle.id);
    assert_eq!(page.items[2].id, oldest.id);
}

#[test]
fn storage_list_exact_limit_has_no_next_cursor() {
    let mut storage = InMemoryNotificationStorage::new();
    for i in 0..3u128 {
        let n = make_notification(1, i, NotificationKind::System, i as i64);
        storage.create(&n, &format!("s{i}")).unwrap();
    }
    let page = storage.list(&1, None, 3).unwrap();
    assert_eq!(page.items.len(), 3);
    assert!(page.next_cursor.is_none());
}

#[test]
fn storage_list_one_over_limit_has_next_cursor() {
    let mut storage = InMemoryNotificationStorage::new();
    for i in 0..4u128 {
        let n = make_notification(1, i, NotificationKind::System, i as i64);
        storage.create(&n, &format!("s{i}")).unwrap();
    }
    let page = storage.list(&1, None, 3).unwrap();
    assert_eq!(page.items.len(), 3);
    assert!(page.next_cursor.is_some());
}

#[test]
fn storage_same_created_at_uses_uuid_tiebreaker() {
    let mut storage = InMemoryNotificationStorage::new();
    let ids = [0x5a, 0xf1, 0x33u128];
    for (i, id) in ids.iter().enumerate() {
        let n = make_notification_at(1, *id, NotificationKind::System, BASE);
        storage.create(&n, &format!("s{i}")).unwrap();
    }
    let mut expected = ids.to_vec();
    expected.sort_by(|a, b| b.cmp(a));
    let mut collected = Vec::new();
    let mut cursor = None;
    for _ in 0..3 {
        let page = storage.list(&1, cursor, 1).unwrap();
        assert_eq!(page.items.len(), 1);
        collected.push(page.items[0].id);
        cursor = page.next_cursor;
    }
    assert_eq!(collected, expected);
    assert!(cursor.is_none());
}

#[test]
fn storage_unread_count_tracks_unread_state() {
    let mut storage = InMemoryNotificationStorage::new();
    for i in 0..3u128 {
        let n = make_notification(1, i, NotificationKind::System, i as i64);
        storage.create(&n, &format!("s{i}")).unwrap();
    }
    assert_eq!(storage.unread_count(&1).unwrap(), 3);
}

#[test]
fn storage_mark_read_decrements_unread_count() {
    let mut storage = InMemoryNotificationStorage::new();
    let n = make_notification(1, 10, NotificationKind::System, 0);
    storage.create(&n, "s1").unwrap();
    assert_eq!(storage.unread_count(&1).unwrap(), 1);
    storage.mark_read(&1, &n.id, BASE + 1).unwrap();
    assert_eq!(storage.unread_count(&1).unwrap(), 0);
}

#[test]
fn storage_mark_read_first_call_sets_read_at() {
    let mut storage = InMemoryNotificationStorage::new();
    let n = make_notification(1, 10, NotificationKind::System, 0);
    storage.create(&n, "s1").unwrap();
    assert!(storage.mark_read(&1, &n.id, BASE + 1).unwrap().read_at.is_some());
}

#[test]
fn storage_mark_read_repeat_is_idempotent() {
    let mut storage = InMemoryNotificationStorage::new();
    let n = make_notification(1, 10, NotificationKind::System, 0);
    storage.create(&n, "s1").unwrap();
    let first = storage.mark_read(&1, &n.id, BASE + 1).unwrap();
    let second = storage.mark_read(&1, &n.id, BASE + 2).unwrap();
    assert_eq!(first.read_at, second.read_at);
}

#[test]
fn storage_mark_read_missing_returns_not_found() {
    let mut storage = InMemoryNotificationStorage::new();
    assert!(matches!(storage.mark_read(&1, &2, BASE), Err(ApiError::NotFound)));
}

#[test]
fn storage_mark_read_wrong_user_returns_not_found() {
    let mut storage = InMemoryNotificationStorage::new();
    let n = make_notification(1, 10, NotificationKind::System, 0);
    storage.create(&n, "s1").unwrap();
    assert!(matches!(storage.mark_read(&2, &n.id, BASE), Err(ApiError::NotFound)));
}

#[test]
fn storage_concurrent_create_same_source_one_wins() {
    let mut storage = InMemoryNotificationStorage::new();
    let n1 = make_notification(1, 10, NotificationKind::System, 0);
    let n2 = make_notification(1, 11, NotificationKind::System, 0);
    let mut created = 0;
    let mut exists = 0;
    for result in [storage.create(&n1, "same-src"), storage.create(&n2, "same-src")] {
        match result.unwrap() {
            CreateNotificationResult::Created(_) => created += 1,
            CreateNotificationResult::AlreadyExists(_) => exists += 1,
        }
    }
    assert_eq!(created, 1);
    assert_eq!(exists, 1);
    assert_eq!(storage.notification_count(&1), 1);
}

#[test]
fn noop_sink_returns_ok() {
    let sink = NoopNotificationSink::new();
    assert!(sink.deliver(&make_notification(1, 1, NotificationKind::System, 0)).is_ok());
}

#[test]
fn failing_sink_returns_error() {
    let sink = FailingSink;
    assert!(sink.deliver(&make_notification(1, 1, NotificationKind::System, 0)).is_err());
}

#[test]
fn emit_creates_notification() {
    let mut service = service();
    let response = service
        .emit(&1, NotificationKind::System, "src-1", payload("text", "hi"))
        .unwrap();
    assert_eq!(response.kind, NotificationKind::System);
    assert!(response.read_at.is_none());
    let value: serde_json::Value = serde_json::from_str(&response.payload).unwrap();
    assert_eq!(value["text"], "hi");
}

#[test]
fn emit_repeat_is_idempotent() {
    let mut service = service();
    let first = service
        .emit(&1, NotificationKind::System, "src-1", payload("text", "hi"))
        .unwrap();
    let second = service
        .emit(&1, NotificationKind::System, "src-1", payload("text", "different"))
        .unwrap();
    assert_eq!(first.id, second.id);
    assert_eq!(first.payload, second.payload);
}

#[test]
fn emit_different_kind_creates_two() {
    let mut service = service();
    service.emit(&1, NotificationKind::ReplyToTopic, "src-1", "{}".to_owned()).unwrap();
    service.emit(&1, NotificationKind::MentionedInPost, "src-1", "{}".to_owned()).unwrap();
    assert_eq!(service.list(&1, None, None).unwrap().items.len(), 2);
}

#[test]
fn emit_empty_source_id_is_validation_failed() {
    let mut service = service();
    let error = service
        .emit(&1, NotificationKind::System, "", "{}".to_owned())
        .err()
        .unwrap();
    assert_eq!(error.code(), "SOURCE_ID_EMPTY");
    assert_eq!(error.status_code(), 400);
}

#[test]
fn emit_source_id_too_long_is_validation_failed() {
    let mut service = service();
    let error = service
        .emit(&1, NotificationKind::System, &"a".repeat(257), "{}".to_owned())
        .err()
        .unwrap();
    assert_eq!(error.code(), "SOURCE_ID_TOO_LONG");
}

#[test]
fn emit_payload_too_large_is_validation_failed() {
    let mut service = service();
    let big = "a".repeat(17 * 1024);
    let error = service
        .emit(&1, NotificationKind::System, "src-1", payload("data", &big))
        .err()
        .unwrap();
    assert_eq!(error.code(), "PAYLOAD_TOO_LARGE");
}

#[test]
fn emit_with_failing_sink_returns_ok_and_persists() {
    let mut service = NotificationService::new(InMemoryNotificationStorage::new(), Box::new(FailingSink));
    let response = service
        .emit(&1, NotificationKind::System, "src-1", payload("text", "hi"))
        .unwrap();
    let page = service.list(&1, None, None).unwrap();
    assert_eq!(page.items.len(), 1);
    assert_eq!(page.items[0].id, response.id);
}

#[test]
fn service_list_empty_returns_empty_page() {
    let service = service();
    let page = service.list(&1, None, None).unwrap();
    assert!(page.items.is_empty());
    assert!(page.next_cursor.is_none());
}

#[test]
fn list_default_limit_is_20() {
    let mut service = service();
    for i in 0..25 {
        service
            .emit(&1, NotificationKind::System, &format!("src-{i}"), "{}".to_owned())
            .unwrap();
    }
    let page = service.list(&1, None, None).unwrap();
    assert_eq!(page.items.len(), 20);
    assert!(page.next_cursor.is_some());
}

#[test]
fn service_list_pagination_uses_cursor() {
    let mut service = service();
    for i in 0..5 {
        service
            .emit(&1, NotificationKind::System, &format!("src-{i}"), "{}".to_owned())
            .unwrap();
    }
    let page1 = service.list(&1, None, Some(2)).unwrap();
    assert_eq!(page1.items.len(), 2);
    assert!(page1.next_cursor.is_some());
    let page2 = service.list(&1, page1.next_cursor.clone(), Some(2)).unwrap();
    assert_eq!(page2.items.len(), 2);
    let page3 = service.list(&1, page2.next_cursor, Some(2)).unwrap();
    assert_eq!(page3.items.len(), 1);
    assert!(page3.next_cursor.is_none());
}

#[test]
fn list_invalid_cursor_is_validation_failed() {
    let service = service();
    let error = service
        .list(&1, Some("not-a-real-cursor".to_owned()), None)
        .err()
        .unwrap();
    assert_eq!(error.code(), "INVALID_CURSOR");
}

#[test]
fn list_limit_zero_is_validation_failed() {
    let service = service();
    assert_eq!(service.list(&1, None, Some(0)).err().unwrap().code(), "LIMIT_OUT_OF_RANGE");
}

#[test]
fn list_limit_too_large_is_validation_failed() {
    let service = service();
    assert_eq!(service.list(&1, None, Some(101)).err().unwrap().code(), "LIMIT_OUT_OF_RANGE");
}

#[test]
fn service_unread_count_tracks_state() {
    let mut service = service();
    for i in 0..3 {
        service
            .emit(&1, NotificationKind::System, &format!("src-{i}"), "{}".to_owned())
            .unwrap();
    }
    assert_eq!(service.unread_count(&1).unwrap().count, 3);
}

#[test]
fn service_mark_read_first_call_sets_read_at() {
    let mut service = service();
    let emitted = service.emit(&1, NotificationKind::System, "s1", "{}".to_owned()).unwrap();
    assert!(service.mark_read(&1, &emitted.id).unwrap().read_at.is_some());
}

#[test]
fn service_mark_read_repeat_is_idempotent() {
    let mut service = service();
    let emitted = service.emit(&1, NotificationKind::System, "s1", "{}".to_owned()).unwrap();
    let first = service.mark_read(&1, &emitted.id).unwrap();
    let second = service.mark_read(&1, &emitted.id).unwrap();
    assert_eq!(first.read_at, second.read_at);
}

#[test]
fn mark_read_wrong_user_is_not_found() {
    let mut service = service();
    let emitted = service.emit(&1, NotificationKind::System, "s1", "{}".to_owned()).unwrap();
    assert_eq!(service.mark_read(&2, &emitted.id).err().unwrap().status_code(), 404);
}

#[test]
fn mark_read_missing_is_not_found() {
    let mut service = service();
    assert_eq!(service.mark_read(&1, &2).err().unwrap().status_code(), 404);
}

struct RecordingSink {
    delivered: std::sync::Arc<std::sync::Mutex<Vec<u128>>>,
    fail: bool,
}

impl NotificationSink for RecordingSink {
    fn deliver(&self, n: &Notification) -> Result<(), NotificationSinkError> {
        self.delivered.lock().unwrap().push(n.id);
        if self.fail {
            Err(NotificationSinkError::from("boom"))
        } else {
            Ok(())
        }
    }
}

#[test]
fn emit_delivers_once_per_new_notification() {
    for fail in [false, true] {
        let delivered = std::sync::Arc::new(std::sync::Mutex::new(Vec::new()));
        let sink = RecordingSink { delivered: delivered.clone(), fail };
        let mut service = NotificationService::new(InMemoryNotificationStorage::new(), Box::new(sink));
        let first = service
            .emit_at(&1, NotificationKind::System, "src-1", payload("text", "hi"), 41, BASE)
            .unwrap();
        assert_eq!(first.id, 41);
        assert_eq!(*delivered.lock().unwrap(), vec![41]);
        // A repeat answers with the stored notification and delivers nothing.
        let again = service
            .emit_at(&1, NotificationKind::System, "src-1", payload("text", "other"), 42, BASE + 1)
            .unwrap();
        assert_eq!(again.id, 41);
        assert_eq!(*delivered.lock().unwrap(), vec![41]);
        // A refused emit delivers nothing either.
        assert!(service
            .emit_at(&1, NotificationKind::System, "", payload("text", "x"), 43, BASE)
            .is_err());
        assert_eq!(*delivered.lock().unwrap(), vec![41]);
        assert_eq!(service.storage().list(&1, None, 10).unwrap().items.len(), 1);
    }
}
