//! Identifiers and wall-clock time as plain values.
//!
//! Identifiers are 128-bit values (the integer form of a UUID) and
//! timestamps are microseconds since the Unix epoch.

use vstd::prelude::*;

verus! {

/// A 128-bit identifier (UUID as an integer).
pub type Id = u128;

/// Microseconds since the Unix epoch.
pub type Timestamp = i64;

pub const MICROS_PER_SECOND: i64 = 1_000_000;

pub const MICROS_PER_MINUTE: i64 = 60_000_000;

pub const MICROS_PER_DAY: i64 = 86_400_000_000;

/// `t + d`, clamped to the representable range.
pub open spec fn shifted(t: Timestamp, d: int) -> Timestamp {
    if t + d > i64::MAX {
        i64::MAX
    } else if t + d < i64::MIN {
        i64::MIN
    } else {
        (t + d) as i64
    }
}

/// Shift a timestamp by a signed number of microseconds, saturating at the
/// ends of the range.
pub fn shift(t: Timestamp, d: i64) -> (r: Timestamp)
    ensures
        r == shifted(t, d as int),
{
    match t.checked_add(d) {
        Some(v) => v,
        None => if d > 0 {
            i64::MAX
        } else {
            i64::MIN
        },
    }
}

/// `uuid::Uuid::new_v4`: a fresh random identifier. Nothing is promised of
/// the value, which comes from the operating system's random source.
#[verifier::external_body]
pub(crate) fn new_id() -> Id {
    uuid::Uuid::new_v4().as_u128()
}

/// `chrono::Utc::now`: the current wall-clock time in microseconds. Nothing
/// is promised of the value, which depends on the system clock.
#[verifier::external_body]
pub(crate) fn now() -> Timestamp {
    chrono::Utc::now().timestamp_micros()
}

/// First microsecond of year 1 (0001-01-01T00:00:00Z).
pub const MIN_RFC3339_MICROS: i64 = -62_135_596_800_000_000;

/// Last microsecond of year 9999 (9999-12-31T23:59:59.999999Z).
pub const MAX_RFC3339_MICROS: i64 = 253_402_300_799_999_999;

/// The RFC 3339 text `chrono` writes for a UTC timestamp.
pub uninterp spec fn rfc3339_text(ts: Timestamp) -> Seq<char>;

/// The timestamp `chrono` reads from RFC 3339 text, if it parses.
pub uninterp spec fn rfc3339_micros(s: Seq<char>) -> Option<Timestamp>;

/// Characters of RFC 3339 text: digits and `- : T . +`.
pub open spec fn is_rfc3339_char(c: char) -> bool {
    ('0' <= c && c <= '9') || c == '-' || c == ':' || c == 'T' || c == '.' || c == '+'
}

/// `chrono::DateTime::<Utc>::to_rfc3339` of the instant `ts` (built with
/// `DateTime::from_timestamp_micros`): digits and `- : T . +` only, with a
/// `+00:00` offset and as many fraction digits as needed. For years 1 to
/// 9999 `DateTime::parse_from_rfc3339` reads the text back to the same
/// instant. Outside `chrono`'s range (about 262,000 years) the text is
/// empty.
#[verifier::external_body]
pub(crate) fn format_rfc3339(ts: Timestamp) -> (r: String)
    ensures
        r@ == rfc3339_text(ts),
        forall|i: int| 0 <= i < r@.len() ==> is_rfc3339_char(#[trigger] r@[i]),
        MIN_RFC3339_MICROS <= ts <= MAX_RFC3339_MICROS ==> rfc3339_micros(r@) == Some(ts),
{
    chrono::DateTime::from_timestamp_micros(ts).map(|d| d.to_rfc3339()).unwrap_or_default()
}

/// `chrono::DateTime::parse_from_rfc3339` followed by `timestamp_micros`:
/// the instant the text denotes, in microseconds, or `None` when the text
/// is not RFC 3339.
#[verifier::external_body]
pub(crate) fn parse_rfc3339(s: &str) -> (r: Option<Timestamp>)
    ensures
        r == rfc3339_micros(s@),
{
    chrono::DateTime::parse_from_rfc3339(s).ok().map(|d| d.timestamp_micros())
}

/// The hyphenated lowercase form of a UUID: the 32 hex digits of its
/// big-endian bytes, split 8-4-4-4-12.
pub open spec fn uuid_text(id: Id) -> Seq<char> {
    let h = crate::crypto::hex_lower(crate::crypto::be_bytes_u128(id));
    h.subrange(0, 8) + seq!['-'] + h.subrange(8, 12) + seq!['-'] + h.subrange(12, 16) + seq!['-']
        + h.subrange(16, 20) + seq!['-'] + h.subrange(20, 32)
}

/// The UUID `uuid::Uuid::parse_str` reads from a text, if it parses.
pub uninterp spec fn uuid_from_text(s: Seq<char>) -> Option<Id>;

/// `uuid::Uuid::from_u128(id).to_string()`: the hyphenated lowercase form,
/// which `Uuid::parse_str` reads back to the same value.
#[verifier::external_body]
pub(crate) fn uuid_to_text(id: Id) -> (r: String)
    ensures
        r@ == uuid_text(id),
        uuid_from_text(r@) == Some(id),
{
    uuid::Uuid::from_u128(id).to_string()
}

/// `uuid::Uuid::parse_str` followed by `as_u128`: the UUID the text
/// denotes (simple, hyphenated, braced or URN form), or `None`.
#[verifier::external_body]
pub(crate) fn parse_uuid(s: &str) -> (r: Option<Id>)
    ensures
        r == uuid_from_text(s@),
{
    uuid::Uuid::parse_str(s).ok().map(|u| u.as_u128())
}

} // verus!
