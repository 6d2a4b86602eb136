//! Notification input validation: source id, payload size, page limit.

use vstd::prelude::*;
use crate::community::notifications::contracts::{
    MAX_PAGE_LIMIT, MAX_PAYLOAD_SIZE, MAX_SOURCE_ID_LEN, MIN_PAGE_LIMIT,
};
use crate::text::{chars_of, is_control, is_control_char};

verus! {

#[derive(Debug, Clone, Copy, PartialEq, Eq, Structural)]
pub enum ValidationError {
    SourceIdEmpty,
    SourceIdTooLong { max: usize, actual: usize },
    SourceIdInvalidChar { code: u32 },
    PayloadTooLarge { max: usize, actual: usize },
    LimitOutOfRange { min: usize, max: usize, actual: usize },
}

/// The first control character of `s`, if any.
pub open spec fn first_control(s: Seq<char>) -> Option<char>
    decreases s.len(),
{
    if s.len() == 0 {
        None
    } else if is_control_char(s[0]) {
        Some(s[0])
    } else {
        first_control(s.drop_first())
    }
}

/// The source-id rules: 1 to `MAX_SOURCE_ID_LEN` Unicode scalar values,
/// no control characters.
pub open spec fn source_id_check(s: Seq<char>) -> Result<(), ValidationError> {
    if s.len() == 0 {
        Err(ValidationError::SourceIdEmpty)
    } else if s.len() > MAX_SOURCE_ID_LEN {
        Err(ValidationError::SourceIdTooLong { max: MAX_SOURCE_ID_LEN, actual: s.len() as usize })
    } else {
        match first_control(s) {
            Some(c) => Err(ValidationError::SourceIdInvalidChar { code: c as u32 }),
            None => Ok(()),
        }
    }
}

/// The page-limit rule: `MIN_PAGE_LIMIT..=MAX_PAGE_LIMIT`.
pub open spec fn limit_check(limit: usize) -> Result<(), ValidationError> {
    if limit < MIN_PAGE_LIMIT || limit > MAX_PAGE_LIMIT {
        Err(
            ValidationError::LimitOutOfRange {
                min: MIN_PAGE_LIMIT,
                max: MAX_PAGE_LIMIT,
                actual: limit,
            },
        )
    } else {
        Ok(())
    }
}

/// The payload rule on the serialized JSON text: at most
/// `MAX_PAYLOAD_SIZE` bytes of UTF-8.
pub open spec fn payload_check(payload: Seq<char>) -> Result<(), ValidationError> {
    let actual = vstd::utf8::encode_utf8(payload).len() as usize;
    if actual > MAX_PAYLOAD_SIZE {
        Err(ValidationError::PayloadTooLarge { max: MAX_PAYLOAD_SIZE, actual })
    } else {
        Ok(())
    }
}

proof fn lemma_first_control_step(s: Seq<char>, i: int)
    requires
        0 <= i < s.len(),
        !is_control_char(s[i]),
    ensures
        first_control(s.subrange(i, s.len() as int)) == first_control(
            s.subrange(i + 1, s.len() as int),
        ),
{
    assert(s.subrange(i, s.len() as int).drop_first() =~= s.subrange(i + 1, s.len() as int));
}

/// Validate a producer-supplied source id.
pub fn validate_source_id(raw: &str) -> (r: Result<(), ValidationError>)
    ensures
        r == source_id_check(raw@),
{
    let chars = chars_of(raw);
    let n = chars.len();
    if n == 0 {
        return Err(ValidationError::SourceIdEmpty);
    }
    if n > MAX_SOURCE_ID_LEN {
        return Err(ValidationError::SourceIdTooLong { max: MAX_SOURCE_ID_LEN, actual: n });
    }
    let mut i: usize = 0;
    assert(chars@.subrange(0, n as int) =~= chars@);
    while i < n
        invariant
            n == chars@.len(),
            chars@ == raw@,
            0 < n <= MAX_SOURCE_ID_LEN,
            i <= n,
            first_control(chars@) == first_control(chars@.subrange(i as int, n as int)),
        decreases n - i,
    {
        let c = chars[i];
        if is_control(c) {
            assert(chars@.subrange(i as int, n as int)[0] == chars@[i as int]);
            assert(first_control(chars@) == Some(c));
            let code = c as u32;
            return Err(ValidationError::SourceIdInvalidChar { code });
        }
        proof {
            lemma_first_control_step(chars@, i as int);
        }
        i = i + 1;
    }
    assert(chars@.subrange(n as int, n as int).len() == 0);
    Ok(())
}

/// Validate the size of a serialized payload.
pub fn validate_payload_size(payload: &str) -> (r: Result<(), ValidationError>)
    ensures
        r == payload_check(payload@),
{
    let actual = payload.len();
    if actual > MAX_PAYLOAD_SIZE {
        return Err(ValidationError::PayloadTooLarge { max: MAX_PAYLOAD_SIZE, actual });
    }
    Ok(())
}

/// Validate a pagination limit.
pub fn validate_limit(limit: usize) -> (r: Result<(), ValidationError>)
    ensures
        r == limit_check(limit),
{
    if limit < MIN_PAGE_LIMIT || limit > MAX_PAGE_LIMIT {
        return Err(
            ValidationError::LimitOutOfRange {
                min: MIN_PAGE_LIMIT,
                max: MAX_PAGE_LIMIT,
                actual: limit,
            },
        );
    }
    Ok(())
}

} // verus!
