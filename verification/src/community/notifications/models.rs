//! Notification domain models.

use vstd::prelude::*;
use crate::clock::{
    format_rfc3339, parse_rfc3339, parse_uuid, rfc3339_micros, rfc3339_text, uuid_from_text,
    uuid_text, uuid_to_text, Id, Timestamp, MAX_RFC3339_MICROS, MIN_RFC3339_MICROS,
};
use crate::community::validation::opt_string_view;
use crate::crypto::{base64_url_decode, base64_url_encode, base64_url_nopad, lemma_base64_url_nopad_injective};
use crate::text::str_eq;

verus! {

/// Notification kind; exactly four in this version.
#[derive(Debug, Clone, Copy, PartialEq, Eq, Structural)]
pub enum NotificationKind {
    ReplyToTopic,
    ReplyToComment,
    MentionedInPost,
    System,
}

/// The stable name of a kind.
pub open spec fn kind_name(k: NotificationKind) -> Seq<char> {
    match k {
        NotificationKind::ReplyToTopic => "reply_to_topic"@,
        NotificationKind::ReplyToComment => "reply_to_comment"@,
        NotificationKind::MentionedInPost => "mentioned_in_post"@,
        NotificationKind::System => "system"@,
    }
}

/// The kind with stable name `s`, if any.
pub open spec fn kind_from_name(s: Seq<char>) -> Option<NotificationKind> {
    if s == "reply_to_topic"@ {
        Some(NotificationKind::ReplyToTopic)
    } else if s == "reply_to_comment"@ {
        Some(NotificationKind::ReplyToComment)
    } else if s == "mentioned_in_post"@ {
        Some(NotificationKind::MentionedInPost)
    } else if s == "system"@ {
        Some(NotificationKind::System)
    } else {
        None
    }
}

impl NotificationKind {
    pub fn as_str(self) -> (r: &'static str)
        ensures
            r@ == kind_name(self),
    {
        match self {
            NotificationKind::ReplyToTopic => "reply_to_topic",
            NotificationKind::ReplyToComment => "reply_to_comment",
            NotificationKind::MentionedInPost => "mentioned_in_post",
            NotificationKind::System => "system",
        }
    }

    pub fn from_str(value: &str) -> (r: Option<NotificationKind>)
        ensures
            r == kind_from_name(value@),
    {
        if str_eq(value, "reply_to_topic") {
            Some(NotificationKind::ReplyToTopic)
        } else if str_eq(value, "reply_to_comment") {
            Some(NotificationKind::ReplyToComment)
        } else if str_eq(value, "mentioned_in_post") {
            Some(NotificationKind::MentionedInPost)
        } else if str_eq(value, "system") {
            Some(NotificationKind::System)
        } else {
            None
        }
    }
}

/// Parsing a kind's stable name gives the kind back.
pub proof fn law_kind_name_round_trip(k: NotificationKind)
    ensures
        kind_from_name(kind_name(k)) == Some(k),
{
    reveal_strlit("reply_to_topic");
    reveal_strlit("reply_to_comment");
    reveal_strlit("mentioned_in_post");
    reveal_strlit("system");
    assert("reply_to_topic"@.len() == 14);
    assert("reply_to_comment"@.len() == 16);
    assert("mentioned_in_post"@.len() == 17);
    assert("system"@.len() == 6);
}

/// A durable notification owned by one user. The producer's source id is
/// not stored here: it belongs to the idempotency identity.
#[derive(Debug, Clone, PartialEq, Eq)]
pub struct Notification {
    pub id: Id,
    pub user_id: Id,
    pub kind: NotificationKind,
    /// The payload as JSON text.
    pub payload: String,
    pub read_at: Option<Timestamp>,
    pub created_at: Timestamp,
}

impl Notification {
    /// A field-by-field copy.
    pub fn copy(&self) -> (r: Self)
        ensures
            r == *self,
    {
        Notification {
            id: self.id,
            user_id: self.user_id,
            kind: self.kind,
            payload: self.payload.clone(),
            read_at: self.read_at,
            created_at: self.created_at,
        }
    }
}

/// Position in the listing order `created_at DESC, id DESC`.
#[derive(Debug, Clone, Copy, PartialEq, Eq, Structural)]
pub struct NotificationCursor {
    pub created_at: Timestamp,
    pub id: Id,
}

#[derive(Debug, Clone, Copy, PartialEq, Eq, Structural)]
pub enum CursorError {
    InvalidBase64,
    InvalidJson,
    InvalidTimestamp,
    InvalidUuid,
}

/// Result of an idempotent create: a repeat returns the stored
/// notification instead of an error.
#[derive(Debug, Clone, PartialEq, Eq)]
pub enum CreateNotificationResult {
    Created(Notification),
    AlreadyExists(Notification),
}

/// One page of notifications; no `next_cursor` means no further page.
#[derive(Debug, Clone)]
pub struct NotificationPage {
    pub items: Vec<Notification>,
    pub next_cursor: Option<NotificationCursor>,
}

/// The bytes `serde_json::to_vec` writes for the JSON object with two
/// string fields.
pub uninterp spec fn json_object_text(k1: Seq<char>, v1: Seq<char>, k2: Seq<char>, v2: Seq<char>) -> Seq<u8>;

/// The fields `serde_json` reads from bytes holding a JSON object, in key
/// order: each key with its value when that is a string, `None` for any
/// other value. `None` overall when the bytes are not a JSON object.
pub uninterp spec fn json_string_fields(bytes: Seq<u8>) -> Option<Seq<(Seq<char>, Option<Seq<char>>)>>;

pub open spec fn fields_view(v: Seq<(String, Option<String>)>) -> Seq<(Seq<char>, Option<Seq<char>>)> {
    v.map_values(|p: (String, Option<String>)| (p.0@, opt_string_view(p.1)))
}

/// `serde_json::to_vec` of the object `{k1: v1, k2: v2}` (held as a
/// `BTreeMap`, so keys come out sorted). Reading those bytes back as an
/// object gives the two fields, in key order.
#[verifier::external_body]
fn json_object_of_two(k1: &str, v1: &str, k2: &str, v2: &str) -> (r: Vec<u8>)
    requires
        k1@.len() > 0,
        k2@.len() > 0,
        k1@[0] < k2@[0],
    ensures
        r@ == json_object_text(k1@, v1@, k2@, v2@),
        json_string_fields(r@) == Some(seq![(k1@, Some(v1@)), (k2@, Some(v2@))]),
{
    serde_json::to_vec(&std::collections::BTreeMap::from([(k1, v1), (k2, v2)])).unwrap_or_default()
}

/// `serde_json::from_slice` into a map from keys to JSON values, each
/// value then taken as a string when it is one.
#[verifier::external_body]
fn parse_json_string_fields(bytes: &[u8]) -> (r: Option<Vec<(String, Option<String>)>>)
    ensures
        match r {
            Some(v) => json_string_fields(bytes@) == Some(fields_view(v@)),
            None => json_string_fields(bytes@) is None,
        },
{
    serde_json::from_slice::<std::collections::BTreeMap<String, serde_json::Value>>(bytes).ok().map(
        |m| m.into_iter().map(|(k, v)| (k, v.as_str().map(String::from))).collect(),
    )
}

/// The value of the first field named `key`: `None` when there is none,
/// `Some(None)` when its value is not a string.
pub open spec fn field_value(fields: Seq<(Seq<char>, Option<Seq<char>>)>, key: Seq<char>) -> Option<
    Option<Seq<char>>,
>
    decreases fields.len(),
{
    if fields.len() == 0 {
        None
    } else if fields[0].0 == key {
        Some(fields[0].1)
    } else {
        field_value(fields.drop_first(), key)
    }
}

/// The text of a cursor: unpadded URL-safe base64 of the JSON object
/// `{"created_at": <RFC 3339>, "id": <hyphenated UUID>}`.
pub open spec fn cursor_text(c: NotificationCursor) -> Seq<char> {
    base64_url_nopad(json_object_text("created_at"@, rfc3339_text(c.created_at), "id"@, uuid_text(c.id)))
}

/// What decoding a cursor text gives: the first failing step's error, or
/// the cursor.
pub open spec fn cursor_decoding(s: Seq<char>) -> Result<NotificationCursor, CursorError> {
    if !(exists|b: Seq<u8>| #[trigger] base64_url_nopad(b) == s) {
        Err(CursorError::InvalidBase64)
    } else {
        let bytes = choose|b: Seq<u8>| #[trigger] base64_url_nopad(b) == s;
        match json_string_fields(bytes) {
            None => Err(CursorError::InvalidJson),
            Some(fields) => match (field_value(fields, "created_at"@), field_value(fields, "id"@)) {
                (Some(Some(t)), Some(Some(u))) => match rfc3339_micros(t) {
                    None => Err(CursorError::InvalidTimestamp),
                    Some(created_at) => match uuid_from_text(u) {
                        None => Err(CursorError::InvalidUuid),
                        Some(id) => Ok(NotificationCursor { created_at, id }),
                    },
                },
                _ => Err(CursorError::InvalidJson),
            },
        }
    }
}

/// The string value of the first field named `key`, if it is a string.
fn find_string_field(fields: &Vec<(String, Option<String>)>, key: &str) -> (r: Option<String>)
    ensures
        match field_value(fields_view(fields@), key@) {
            Some(Some(t)) => (r matches Some(s) && s@ == t),
            _ => r is None,
        },
{
    let ghost fv = fields_view(fields@);
    let mut i: usize = 0;
    assert(fv.subrange(0, fv.len() as int) =~= fv);
    while i < fields.len()
        invariant
            fv == fields_view(fields@),
            i <= fields@.len(),
            field_value(fv, key@) == field_value(fv.subrange(i as int, fv.len() as int), key@),
        decreases fields@.len() - i,
    {
        let entry = &fields[i];
        let ghost sub = fv.subrange(i as int, fv.len() as int);
        assert(sub[0] == fv[i as int]);
        if str_eq(entry.0.as_str(), key) {
            return match &entry.1 {
                Some(v) => Some(v.clone()),
                None => None,
            };
        }
        assert(sub.drop_first() =~= fv.subrange(i + 1, fv.len() as int));
        i = i + 1;
    }
    assert(fv.subrange(fv.len() as int, fv.len() as int).len() == 0);
    None
}

impl NotificationCursor {
    /// The opaque text of the cursor. For timestamps in years 1 to 9999,
    /// decoding the text gives the cursor back.
    pub fn encode(&self) -> (r: String)
        ensures
            r@ == cursor_text(*self),
            MIN_RFC3339_MICROS <= self.created_at <= MAX_RFC3339_MICROS ==> (cursor_decoding(r@) matches Ok(
                c,
            ) && c == *self),
    {
        let created_at = format_rfc3339(self.created_at);
        let id = uuid_to_text(self.id);
        proof {
            reveal_strlit("created_at");
            reveal_strlit("id");
        }
        let json = json_object_of_two("created_at", created_at.as_str(), "id", id.as_str());
        let text = base64_url_encode(json.as_slice());
        proof {
            let s = text@;
            assert(base64_url_nopad(json@) == s);
            let bytes = choose|b: Seq<u8>| #[trigger] base64_url_nopad(b) == s;
            lemma_base64_url_nopad_injective(bytes, json@);
            let fields = seq![("created_at"@, Some(created_at@)), ("id"@, Some(id@))];
            assert(field_value(fields, "created_at"@) == Some(Some(created_at@)));
            reveal_strlit("created_at");
            reveal_strlit("id");
            assert("created_at"@.len() == 10);
            assert("id"@.len() == 2);
            assert("created_at"@ != "id"@);
            assert(fields.drop_first() =~= seq![("id"@, Some(id@))]);
            assert(fields[0].0 != "id"@);
            assert(field_value(seq![("id"@, Some(id@))], "id"@) == Some(Some(id@)));
            assert(field_value(fields, "id"@) == Some(Some(id@)));
        }
        text
    }

    /// Decode a cursor text.
    pub fn decode(raw: &str) -> (r: Result<NotificationCursor, CursorError>)
        ensures
            r == cursor_decoding(raw@),
    {
        let bytes = match base64_url_decode(raw) {
            Some(b) => b,
            None => {
                return Err(CursorError::InvalidBase64);
            },
        };
        proof {
            let s = raw@;
            let b = choose|b: Seq<u8>| #[trigger] base64_url_nopad(b) == s;
            lemma_base64_url_nopad_injective(b, bytes@);
        }
        let fields = match parse_json_string_fields(bytes.as_slice()) {
            Some(f) => f,
            None => {
                return Err(CursorError::InvalidJson);
            },
        };
        let created_at_text = match find_string_field(&fields, "created_at") {
            Some(t) => t,
            None => {
                return Err(CursorError::InvalidJson);
            },
        };
        let id_text = match find_string_field(&fields, "id") {
            Some(t) => t,
            None => {
                return Err(CursorError::InvalidJson);
            },
        };
        let created_at = match parse_rfc3339(created_at_text.as_str()) {
            Some(t) => t,
            None => {
                return Err(CursorError::InvalidTimestamp);
            },
        };
        let id = match parse_uuid(id_text.as_str()) {
            Some(id) => id,
            None => {
                return Err(CursorError::InvalidUuid);
            },
        };
        Ok(NotificationCursor { created_at, id })
    }
}

} // verus!
