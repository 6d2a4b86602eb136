//! Key layout of the platform's persistent key-value store.
//!
//! Every record lives under a fixed prefix followed by its identifying
//! parts, separated by `:`. Ids are written in hyphenated lowercase UUID
//! form; timestamps in index keys are written at a fixed width of twenty
//! characters, so that keys sort by time, and can be read back.

use vstd::prelude::*;
use crate::auth::events::{kind_name as event_kind_name, SecurityEventKind};
use crate::auth::models::SessionTokenHash;
use crate::clock::{uuid_text, uuid_to_text, Id, Timestamp};
use crate::community::notifications::models::{kind_name, NotificationKind};
use crate::text::{
    all_decimal_digits, capped_decimal, chars_of, decimal_value, is_decimal_digit,
    lemma_decimal_value_nonneg, push_char, push_str_chars, string_from_chars,
};

verus! {

pub const USER_EMAIL_PREFIX: &'static str = "platform:user:email:";

pub const USER_ID_PREFIX: &'static str = "platform:user:id:";

pub const SESSION_TOKEN_PREFIX: &'static str = "platform:session:token:";

pub const SESSION_ID_PREFIX: &'static str = "platform:session:id:";

pub const SESSION_BY_USER_PREFIX: &'static str = "platform:session:by_user:";

pub const PASSWORD_RESET_PREFIX: &'static str = "platform:auth:password_reset:";

pub const EMAIL_VERIFICATION_PREFIX: &'static str = "platform:auth:email_verification:";

pub const BACKUP_CODE_PREFIX: &'static str = "platform:auth:backup_code:";

pub const TWO_FACTOR_PREFIX: &'static str = "platform:auth:two_factor:";

pub const PROFILE_PREFIX: &'static str = "platform:community:profile:";

pub const USERNAME_INDEX_PREFIX: &'static str = "platform:community:profile:username:";

pub const ROLE_PREFIX: &'static str = "platform:community:role:";

pub const NOTIFICATION_PREFIX: &'static str = "platform:community:notifications:";

pub const UNREAD_PREFIX: &'static str = "platform:community:notifications:unread:";

pub const IDEMPOTENCY_PREFIX: &'static str = "platform:community:notifications:idempotency:";

pub const EVENT_PREFIX: &'static str = "platform:audit:event:";

pub const USER_INDEX_PREFIX: &'static str = "platform:audit:user:";

pub const TYPE_INDEX_PREFIX: &'static str = "platform:audit:type:";

pub const TIMELINE_PREFIX: &'static str = "platform:audit:timeline:";

/// `prefix` followed by `text`.
fn key_with(prefix: &str, text: &str) -> (r: String)
    ensures
        r@ == prefix@ + text@,
{
    let mut k = prefix.to_owned();
    push_str_chars(&mut k, text);
    k
}

/// `prefix`, the id, `:`.
fn key_with_id_colon(prefix: &str, id: Id) -> (r: String)
    ensures
        r@ == prefix@ + uuid_text(id) + seq![':'],
{
    let mut k = key_with(prefix, uuid_to_text(id).as_str());
    push_char(&mut k, ':');
    k
}

pub fn user_email_key(email: &str) -> (r: String)
    ensures
        r@ == USER_EMAIL_PREFIX@ + email@,
{
    key_with(USER_EMAIL_PREFIX, email)
}

pub fn user_id_key(user_id: Id) -> (r: String)
    ensures
        r@ == USER_ID_PREFIX@ + uuid_text(user_id),
{
    key_with(USER_ID_PREFIX, uuid_to_text(user_id).as_str())
}

pub fn session_token_key(token_hash: &SessionTokenHash) -> (r: String)
    ensures
        r@ == SESSION_TOKEN_PREFIX@ + token_hash@,
{
    key_with(SESSION_TOKEN_PREFIX, token_hash.as_str())
}

pub fn session_token_key_from_hash(hash: &str) -> (r: String)
    ensures
        r@ == SESSION_TOKEN_PREFIX@ + hash@,
{
    key_with(SESSION_TOKEN_PREFIX, hash)
}

pub fn session_id_key(session_id: Id) -> (r: String)
    ensures
        r@ == SESSION_ID_PREFIX@ + uuid_text(session_id),
{
    key_with(SESSION_ID_PREFIX, uuid_to_text(session_id).as_str())
}

/// The entry of a session in its user's session index.
pub fn session_by_user_key(user_id: Id, session_id: Id) -> (r: String)
    ensures
        r@ == SESSION_BY_USER_PREFIX@ + uuid_text(user_id) + seq![':'] + uuid_text(session_id),
{
    let mut k = key_with_id_colon(SESSION_BY_USER_PREFIX, user_id);
    push_str_chars(&mut k, uuid_to_text(session_id).as_str());
    k
}

/// The prefix shared by every entry of a user's session index.
pub fn session_by_user_prefix(user_id: Id) -> (r: String)
    ensures
        r@ == SESSION_BY_USER_PREFIX@ + uuid_text(user_id) + seq![':'],
{
    key_with_id_colon(SESSION_BY_USER_PREFIX, user_id)
}

pub fn password_reset_key(token_hash: &str) -> (r: String)
    ensures
        r@ == PASSWORD_RESET_PREFIX@ + token_hash@,
{
    key_with(PASSWORD_RESET_PREFIX, token_hash)
}

pub fn email_verification_key(token_hash: &str) -> (r: String)
    ensures
        r@ == EMAIL_VERIFICATION_PREFIX@ + token_hash@,
{
    key_with(EMAIL_VERIFICATION_PREFIX, token_hash)
}

pub fn backup_code_key(id: Id) -> (r: String)
    ensures
        r@ == BACKUP_CODE_PREFIX@ + uuid_text(id),
{
    key_with(BACKUP_CODE_PREFIX, uuid_to_text(id).as_str())
}

pub fn backup_code_prefix() -> (r: &'static str)
    ensures
        r@ == BACKUP_CODE_PREFIX@,
{
    BACKUP_CODE_PREFIX
}

pub fn two_factor_key(user_id: Id) -> (r: String)
    ensures
        r@ == TWO_FACTOR_PREFIX@ + uuid_text(user_id),
{
    key_with(TWO_FACTOR_PREFIX, uuid_to_text(user_id).as_str())
}

pub fn profile_key(user_id: Id) -> (r: String)
    ensures
        r@ == PROFILE_PREFIX@ + uuid_text(user_id),
{
    key_with(PROFILE_PREFIX, uuid_to_text(user_id).as_str())
}

pub fn username_index_key(normalized_username: &str) -> (r: String)
    ensures
        r@ == USERNAME_INDEX_PREFIX@ + normalized_username@,
{
    key_with(USERNAME_INDEX_PREFIX, normalized_username)
}

pub fn role_key(user_id: Id) -> (r: String)
    ensures
        r@ == ROLE_PREFIX@ + uuid_text(user_id),
{
    key_with(ROLE_PREFIX, uuid_to_text(user_id).as_str())
}

pub fn notification_key(user_id: Id, notification_id: Id) -> (r: String)
    ensures
        r@ == NOTIFICATION_PREFIX@ + uuid_text(user_id) + seq![':'] + uuid_text(notification_id),
{
    let mut k = key_with_id_colon(NOTIFICATION_PREFIX, user_id);
    push_str_chars(&mut k, uuid_to_text(notification_id).as_str());
    k
}

pub fn unread_key(user_id: Id, notification_id: Id) -> (r: String)
    ensures
        r@ == UNREAD_PREFIX@ + uuid_text(user_id) + seq![':'] + uuid_text(notification_id),
{
    let mut k = key_with_id_colon(UNREAD_PREFIX, user_id);
    push_str_chars(&mut k, uuid_to_text(notification_id).as_str());
    k
}

/// The idempotency entry of a (user, kind, source) triple.
pub fn idempotency_key(user_id: Id, kind: NotificationKind, source_hash: &str) -> (r: String)
    ensures
        r@ == IDEMPOTENCY_PREFIX@ + uuid_text(user_id) + seq![':'] + kind_name(kind) + seq![':']
            + source_hash@,
{
    let mut k = key_with_id_colon(IDEMPOTENCY_PREFIX, user_id);
    push_str_chars(&mut k, kind.as_str());
    push_char(&mut k, ':');
    push_str_chars(&mut k, source_hash);
    k
}

pub fn notification_prefix(user_id: Id) -> (r: String)
    ensures
        r@ == NOTIFICATION_PREFIX@ + uuid_text(user_id) + seq![':'],
{
    key_with_id_colon(NOTIFICATION_PREFIX, user_id)
}

pub fn unread_prefix(user_id: Id) -> (r: String)
    ensures
        r@ == UNREAD_PREFIX@ + uuid_text(user_id) + seq![':'],
{
    key_with_id_colon(UNREAD_PREFIX, user_id)
}

pub fn event_key(event_id: Id) -> (r: String)
    ensures
        r@ == EVENT_PREFIX@ + uuid_text(event_id),
{
    key_with(EVENT_PREFIX, uuid_to_text(event_id).as_str())
}

/// The character of decimal digit `d`.
pub open spec fn digit_char(d: int) -> char {
    ('0' as int + d) as char
}

/// The last `w` decimal digits of `n`, zero-padded.
pub open spec fn padded_digits(n: nat, w: nat) -> Seq<char>
    decreases w,
{
    if w == 0 {
        Seq::empty()
    } else {
        padded_digits(n / 10, (w - 1) as nat).push(digit_char((n % 10) as int))
    }
}

pub open spec fn pow10(w: nat) -> int
    decreases w,
{
    if w == 0 {
        1
    } else {
        10 * pow10((w - 1) as nat)
    }
}

/// A timestamp in index keys: `format!("{:020}", t)`, twenty characters,
/// zero-padded, with the sign in front of the digits of a negative value.
pub open spec fn ts_text(t: Timestamp) -> Seq<char> {
    if t >= 0 {
        padded_digits(t as nat, 20)
    } else {
        seq!['-'] + padded_digits((-t) as nat, 19)
    }
}

/// The `w` low decimal digits of `n`.
fn padded_decimal(n: u64, w: usize) -> (r: Vec<char>)
    ensures
        r@ == padded_digits(n as nat, w as nat),
{
    let mut out: Vec<char> = Vec::new();
    let mut k: usize = 0;
    while k < w
        invariant
            k <= w,
            out@.len() == k,
        decreases w - k,
    {
        out.push('0');
        k = k + 1;
    }
    let mut rest: u64 = n;
    let mut j: usize = 0;
    while j < w
        invariant
            j <= w,
            out@.len() == w,
            padded_digits(n as nat, w as nat) == padded_digits(rest as nat, (w - j) as nat) + out@.subrange(
                (w - j) as int,
                w as int,
            ),
        decreases w - j,
    {
        let idx = w - 1 - j;
        let d = (rest % 10) as u8;
        let c = (d + 48u8) as char;
        let ghost before = out@;
        out.set(idx, c);
        proof {
            assert(c == digit_char(rest as int % 10));
            let tail = before.subrange((w - j) as int, w as int);
            assert(out@.subrange(idx as int, w as int) =~= seq![c] + tail);
            assert(padded_digits(rest as nat, (w - j) as nat) == padded_digits(
                (rest / 10) as nat,
                (w - j - 1) as nat,
            ).push(c));
            assert(padded_digits((rest / 10) as nat, (w - j - 1) as nat).push(c) + tail
                =~= padded_digits((rest / 10) as nat, (w - j - 1) as nat) + (seq![c] + tail));
        }
        rest = rest / 10;
        j = j + 1;
    }
    assert(out@.subrange(0, w as int) =~= out@);
    out
}

/// The fixed-width timestamp component of index keys.
pub fn ts_component(t: Timestamp) -> (r: String)
    ensures
        r@ == ts_text(t),
{
    if t >= 0 {
        let digits = padded_decimal(t as u64, 20);
        string_from_chars(digits.as_slice())
    } else {
        let magnitude = ((-(t + 1)) as u64) + 1;
        let digits = padded_decimal(magnitude, 19);
        let mut s = String::new();
        push_char(&mut s, '-');
        let rest = string_from_chars(digits.as_slice());
        push_str_chars(&mut s, rest.as_str());
        assert(s@ =~= seq!['-'] + padded_digits((-t) as nat, 19));
        s
    }
}

/// The entry of an event in its user's index, ordered by time.
pub fn user_index_key(user_id: Id, timestamp: Timestamp, event_id: Id) -> (r: String)
    ensures
        r@ == USER_INDEX_PREFIX@ + uuid_text(user_id) + seq![':'] + ts_text(timestamp) + seq![':']
            + uuid_text(event_id),
{
    let mut k = key_with_id_colon(USER_INDEX_PREFIX, user_id);
    push_str_chars(&mut k, ts_component(timestamp).as_str());
    push_char(&mut k, ':');
    push_str_chars(&mut k, uuid_to_text(event_id).as_str());
    k
}

pub fn user_index_prefix(user_id: Id) -> (r: String)
    ensures
        r@ == USER_INDEX_PREFIX@ + uuid_text(user_id) + seq![':'],
{
    key_with_id_colon(USER_INDEX_PREFIX, user_id)
}

/// The entry of an event in its kind's index, ordered by time.
pub fn type_index_key(event_kind: SecurityEventKind, timestamp: Timestamp, event_id: Id) -> (r: String)
    ensures
        r@ == TYPE_INDEX_PREFIX@ + event_kind_name(event_kind) + seq![':'] + ts_text(timestamp) + seq![
            ':',
        ] + uuid_text(event_id),
{
    let mut k = key_with(TYPE_INDEX_PREFIX, event_kind.as_str());
    push_char(&mut k, ':');
    push_str_chars(&mut k, ts_component(timestamp).as_str());
    push_char(&mut k, ':');
    push_str_chars(&mut k, uuid_to_text(event_id).as_str());
    k
}

pub fn type_index_prefix(event_kind: SecurityEventKind) -> (r: String)
    ensures
        r@ == TYPE_INDEX_PREFIX@ + event_kind_name(event_kind) + seq![':'],
{
    let mut k = key_with(TYPE_INDEX_PREFIX, event_kind.as_str());
    push_char(&mut k, ':');
    k
}

/// The entry of an event in the global timeline.
pub fn timeline_key(timestamp: Timestamp, event_id: Id) -> (r: String)
    ensures
        r@ == TIMELINE_PREFIX@ + ts_text(timestamp) + seq![':'] + uuid_text(event_id),
{
    let mut k = key_with(TIMELINE_PREFIX, ts_component(timestamp).as_str());
    push_char(&mut k, ':');
    push_str_chars(&mut k, uuid_to_text(event_id).as_str());
    k
}

pub fn timeline_prefix() -> (r: &'static str)
    ensures
        r@ == TIMELINE_PREFIX@,
{
    TIMELINE_PREFIX
}

/// The text before the first `:` (all of it when there is none).
pub open spec fn first_field(s: Seq<char>) -> Seq<char>
    decreases s.len(),
{
    if s.len() == 0 {
        s
    } else if s[0] == ':' {
        Seq::empty()
    } else {
        seq![s[0]] + first_field(s.drop_first())
    }
}

/// The digits of a signed decimal number: the text without one leading
/// sign.
pub open spec fn signed_digits(s: Seq<char>) -> Seq<char> {
    if s.len() > 1 && (s[0] == '+' || s[0] == '-') {
        s.drop_first()
    } else {
        s
    }
}

/// A number as `str::parse::<i64>` reads it: an optional sign, then one
/// or more decimal digits whose signed value fits in 64 bits.
pub open spec fn parsed_i64(s: Seq<char>) -> Option<i64> {
    let digits = signed_digits(s);
    let negative = s.len() > 1 && s[0] == '-';
    if digits.len() > 0 && all_decimal_digits(digits) {
        if negative {
            if decimal_value(digits) <= 0x8000_0000_0000_0000 {
                Some((-decimal_value(digits)) as i64)
            } else {
                None
            }
        } else {
            if decimal_value(digits) <= i64::MAX {
                Some(decimal_value(digits) as i64)
            } else {
                None
            }
        }
    } else {
        None
    }
}

/// The timestamp of an index key under `prefix`: the first `:`-separated
/// field after the prefix, read as a number.
pub open spec fn key_timestamp(key: Seq<char>, prefix: Seq<char>) -> Option<i64> {
    if prefix.len() <= key.len() && key.take(prefix.len() as int) == prefix {
        parsed_i64(first_field(key.skip(prefix.len() as int)))
    } else {
        None
    }
}

proof fn lemma_first_field_at(s: Seq<char>, j: int)
    requires
        0 <= j <= s.len(),
        forall|i: int| 0 <= i < j ==> s[i] != ':',
        j == s.len() || s[j] == ':',
    ensures
        first_field(s) == s.take(j),
    decreases s.len(),
{
    if s.len() == 0 {
        assert(s.take(j) =~= s);
    } else if j == 0 {
        assert(s.take(0) =~= Seq::<char>::empty());
    } else {
        let t = s.drop_first();
        assert forall|i: int| 0 <= i < j - 1 implies t[i] != ':' by {
            assert(t[i] == s[i + 1]);
        }
        lemma_first_field_at(t, j - 1);
        assert(seq![s[0]] + t.take(j - 1) =~= s.take(j));
    }
}

/// The timestamp of the index key under `prefix`, if it has one.
pub fn parse_timestamp_from_key(key: &str, prefix: &str) -> (r: Option<i64>)
    ensures
        r == key_timestamp(key@, prefix@),
{
    let kc = chars_of(key);
    let pc = chars_of(prefix);
    let p = pc.len();
    if p > kc.len() {
        return None;
    }
    let mut i: usize = 0;
    while i < p
        invariant
            kc@ == key@,
            pc@ == prefix@,
            p == pc@.len(),
            p <= kc@.len(),
            i <= p,
            forall|x: int| 0 <= x < i ==> kc@[x] == pc@[x],
        decreases p - i,
    {
        if kc[i] != pc[i] {
            proof {
                assert(kc@.take(p as int)[i as int] != pc@[i as int]);
            }
            return None;
        }
        i = i + 1;
    }
    assert(kc@.take(p as int) =~= pc@);
    let ghost rest = kc@.skip(p as int);
    let mut field: Vec<char> = Vec::new();
    let mut j: usize = p;
    while j < kc.len() && kc[j] != ':'
        invariant
            p <= j <= kc@.len(),
            rest == kc@.skip(p as int),
            field@ == rest.take(j - p),
            forall|x: int| 0 <= x < j - p ==> rest[x] != ':',
        decreases kc@.len() - j,
    {
        field.push(kc[j]);
        assert(rest.take(j - p).push(kc@[j as int]) =~= rest.take(j + 1 - p));
        j = j + 1;
    }
    proof {
        lemma_first_field_at(rest, j - p);
    }
    let n = field.len();
    let signed = n > 1 && (field[0] == '+' || field[0] == '-');
    let negative = n > 1 && field[0] == '-';
    let start: usize = if signed {
        1
    } else {
        0
    };
    proof {
        if signed {
            assert(field@.subrange(1, n as int) =~= field@.drop_first());
        } else {
            assert(field@.subrange(0, n as int) =~= field@);
        }
    }
    let ghost digits = field@.subrange(start as int, n as int);
    match capped_decimal(field.as_slice(), start, 0x8000_0000_0000_0001) {
        Some(v) => {
            proof {
                lemma_decimal_value_nonneg(digits);
            }
            if negative {
                if v <= 0x8000_0000_0000_0000 {
                    if v == 0x8000_0000_0000_0000 {
                        Some(i64::MIN)
                    } else {
                        Some(-(v as i64))
                    }
                } else {
                    None
                }
            } else {
                if v <= 0x7fff_ffff_ffff_ffff {
                    Some(v as i64)
                } else {
                    None
                }
            }
        },
        None => None,
    }
}

proof fn lemma_padded_digits(n: nat, w: nat)
    requires
        n < pow10(w),
    ensures
        padded_digits(n, w).len() == w,
        all_decimal_digits(padded_digits(n, w)),
        decimal_value(padded_digits(n, w)) == n,
    decreases w,
{
    if w == 0 {
    } else {
        let q = n / 10;
        let d = n % 10;
        assert(q < pow10((w - 1) as nat));
        lemma_padded_digits(q, (w - 1) as nat);
        let s = padded_digits(n, w);
        let c = digit_char(d as int);
        assert(c as int == '0' as int + d);
        assert(s.drop_last() =~= padded_digits(q, (w - 1) as nat));
        assert forall|i: int| 0 <= i < s.len() implies is_decimal_digit(#[trigger] s[i]) by {
            if i < s.len() - 1 {
                assert(s[i] == padded_digits(q, (w - 1) as nat)[i]);
            }
        }
    }
}

proof fn lemma_pow10_19()
    ensures
        pow10(19) == 10_000_000_000_000_000_000,
        pow10(20) == 100_000_000_000_000_000_000,
{
    reveal_with_fuel(pow10, 21);
}

/// Timestamps in index keys read back: the fixed-width text of every
/// timestamp parses to that timestamp.
pub proof fn law_ts_text_reads_back(t: Timestamp)
    ensures
        ts_text(t).len() == 20,
        parsed_i64(ts_text(t)) == Some(t),
        forall|i: int| 0 <= i < ts_text(t).len() ==> #[trigger] ts_text(t)[i] != ':',
{
    lemma_pow10_19();
    let s = ts_text(t);
    if t >= 0 {
        lemma_padded_digits(t as nat, 20);
        assert(is_decimal_digit(s[0]));
        assert(signed_digits(s) == s);
    } else {
        let m = (-t) as nat;
        lemma_padded_digits(m, 19);
        let pd = padded_digits(m, 19);
        assert(s.drop_first() =~= pd);
        assert(signed_digits(s) == pd);
        assert forall|i: int| 0 <= i < s.len() implies #[trigger] s[i] != ':' by {
            if i > 0 {
                assert(s[i] == pd[i - 1]);
                assert(is_decimal_digit(pd[i - 1]));
            }
        }
    }
}

proof fn lemma_first_field_before_colon(s: Seq<char>, rest: Seq<char>)
    requires
        forall|i: int| 0 <= i < s.len() ==> #[trigger] s[i] != ':',
    ensures
        first_field(s + seq![':'] + rest) == s,
{
    let whole = s + seq![':'] + rest;
    assert forall|i: int| 0 <= i < s.len() implies whole[i] != ':' by {
        assert(whole[i] == s[i]);
    }
    assert(whole[s.len() as int] == ':');
    lemma_first_field_at(whole, s.len() as int);
    assert(whole.take(s.len() as int) =~= s);
}

/// An index key written with a timestamp gives that timestamp back when
/// read under the prefix it was written with.
pub proof fn law_index_key_timestamp(prefix: Seq<char>, t: Timestamp, rest: Seq<char>)
    ensures
        key_timestamp(prefix + ts_text(t) + seq![':'] + rest, prefix) == Some(t),
{
    law_ts_text_reads_back(t);
    let key = prefix + ts_text(t) + seq![':'] + rest;
    assert(key.take(prefix.len() as int) =~= prefix);
    assert(key.skip(prefix.len() as int) =~= ts_text(t) + seq![':'] + rest);
    lemma_first_field_before_colon(ts_text(t), rest);
}

/// The audit indexes read back: the user index, kind index and timeline
/// entries of an event give its timestamp back under their prefixes.
pub proof fn law_event_index_keys_read_back(
    user_id: Id,
    event_kind: SecurityEventKind,
    t: Timestamp,
    event_id: Id,
)
    ensures
        key_timestamp(
            USER_INDEX_PREFIX@ + uuid_text(user_id) + seq![':'] + ts_text(t) + seq![':'] + uuid_text(
                event_id,
            ),
            USER_INDEX_PREFIX@ + uuid_text(user_id) + seq![':'],
        ) == Some(t),
        key_timestamp(
            TYPE_INDEX_PREFIX@ + event_kind_name(event_kind) + seq![':'] + ts_text(t) + seq![':']
                + uuid_text(event_id),
            TYPE_INDEX_PREFIX@ + event_kind_name(event_kind) + seq![':'],
        ) == Some(t),
        key_timestamp(TIMELINE_PREFIX@ + ts_text(t) + seq![':'] + uuid_text(event_id), TIMELINE_PREFIX@)
            == Some(t),
{
    law_index_key_timestamp(USER_INDEX_PREFIX@ + uuid_text(user_id) + seq![':'], t, uuid_text(event_id));
    law_index_key_timestamp(
        TYPE_INDEX_PREFIX@ + event_kind_name(event_kind) + seq![':'],
        t,
        uuid_text(event_id),
    );
    law_index_key_timestamp(TIMELINE_PREFIX@, t, uuid_text(event_id));
}

} // verus!
