use aevum_platform_api::auth::events::SecurityEventKind;
use aevum_platform_api::auth::models::SessionTokenHash;
use aevum_platform_api::community::notifications::models::NotificationKind;
use aevum_platform_api::keys::{
    backup_code_prefix, event_key, idempotency_key, notification_key, notification_prefix,
    parse_timestamp_from_key, profile_key, role_key, session_by_user_key, session_by_user_prefix,
    session_token_key, timeline_key, timeline_prefix, ts_component, type_index_key,
    type_index_prefix, unread_key, unread_prefix, user_email_key, user_id_key, user_index_key,
    user_index_prefix, username_index_key,
};

const UID: u128 = 0x550e8400_e29b_41d4_a716_446655440000;
const NID: u128 = 0x660e8400_e29b_41d4_a716_446655440001;

#[test]
fn aevumdb_storage_key_layout_is_stable() {
    assert_eq!(user_email_key("alice@example.com"), "platform:user:email:alice@example.com");
    assert_eq!(
        user_id_key(0),
        format!("platform:user:id:{}", "00000000-0000-0000-0000-000000000000")
    );
    let hash = SessionTokenHash::new("abc".to_string());
    assert_eq!(session_token_key(&hash), "platform:session:token:abc");
}

#[test]
fn community_key_layout_is_stable() {
    assert_eq!(
        profile_key(UID),
        "platform:community:profile:550e8400-e29b-41d4-a716-446655440000"
    );
    assert_eq!(username_index_key("alice"), "platform:community:profile:username:alice");
    assert_eq!(role_key(UID), "platform:community:role:550e8400-e29b-41d4-a716-446655440000");
}

#[test]
fn notification_key_layout_is_stable() {
    assert_eq!(
        notification_key(UID, NID),
        "platform:community:notifications:550e8400-e29b-41d4-a716-446655440000:660e8400-e29b-41d4-a716-446655440001"
    );
    assert_eq!(
        unread_key(UID, NID),
        "platform:community:notifications:unread:550e8400-e29b-41d4-a716-446655440000:660e8400-e29b-41d4-a716-446655440001"
    );
    assert_eq!(
        idempotency_key(UID, NotificationKind::System, "abcd"),
        "platform:community:notifications:idempotency:550e8400-e29b-41d4-a716-446655440000:system:abcd"
    );
    assert_eq!(
        notification_prefix(UID),
        "platform:community:notifications:550e8400-e29b-41d4-a716-446655440000:"
    );
    assert_eq!(
        unread_prefix(UID),
        "platform:community:notifications:unread:550e8400-e29b-41d4-a716-446655440000:"
    );
}

#[test]
fn session_index_keys_are_per_user() {
    assert_eq!(
        session_by_user_key(UID, NID),
        "platform:session:by_user:550e8400-e29b-41d4-a716-446655440000:660e8400-e29b-41d4-a716-446655440001"
    );
    assert!(session_by_user_key(UID, NID).starts_with(&session_by_user_prefix(UID)));
    assert_eq!(backup_code_prefix(), "platform:auth:backup_code:");
}

#[test]
fn timestamp_component_is_fixed_width() {
    assert_eq!(ts_component(12345), "00000000000000012345");
}

#[test]
fn timestamp_component_matches_zero_padded_format() {
    for t in [0i64, 1, -1, 12345, -12345, i64::MAX, i64::MIN, 1_700_000_000_000_000] {
        assert_eq!(ts_component(t), format!("{:020}", t));
        assert_eq!(ts_component(t).len(), 20);
    }
}

#[test]
fn audit_index_keys_read_back() {
    let t = 1_700_000_000_123_456i64;
    assert_eq!(event_key(NID), "platform:audit:event:660e8400-e29b-41d4-a716-446655440001");
    let user_key = user_index_key(UID, t, NID);
    assert_eq!(
        user_key,
        "platform:audit:user:550e8400-e29b-41d4-a716-446655440000:00001700000000123456:660e8400-e29b-41d4-a716-446655440001"
    );
    assert_eq!(parse_timestamp_from_key(&user_key, &user_index_prefix(UID)), Some(t));
    let type_key = type_index_key(SecurityEventKind::LoginSuccess, -5, NID);
    assert_eq!(
        type_key,
        "platform:audit:type:LOGIN_SUCCESS:-0000000000000000005:660e8400-e29b-41d4-a716-446655440001"
    );
    assert_eq!(
        parse_timestamp_from_key(&type_key, &type_index_prefix(SecurityEventKind::LoginSuccess)),
        Some(-5)
    );
    let line = timeline_key(i64::MIN, NID);
    assert_eq!(parse_timestamp_from_key(&line, timeline_prefix()), Some(i64::MIN));
}

#[test]
fn timestamp_parsing_rejects_foreign_keys() {
    assert_eq!(parse_timestamp_from_key("other:123:x", "platform:audit:timeline:"), None);
    assert_eq!(parse_timestamp_from_key("platform:audit:timeline:12a:x", "platform:audit:timeline:"), None);
    assert_eq!(parse_timestamp_from_key("platform:audit:timeline::x", "platform:audit:timeline:"), None);
    assert_eq!(parse_timestamp_from_key("p:+7", "p:"), Some(7));
    assert_eq!(parse_timestamp_from_key("p:9223372036854775808", "p:"), None);
    assert_eq!(parse_timestamp_from_key("p:-9223372036854775809", "p:"), None);
    assert_eq!(parse_timestamp_from_key("p:-", "p:"), None);
    for text in ["0", "-0", "+0", "42", "-42", "--1", "+-1", "99999999999999999999999"] {
        let key = format!("p:{text}:tail");
        assert_eq!(parse_timestamp_from_key(&key, "p:"), text.parse::<i64>().ok(), "{text}");
    }
}
