//! Community input validation and canonicalization.
//!
//! Lengths are counted in Unicode scalar values, after trimming.

use vstd::prelude::*;
use crate::text::{
    ascii_lower, ascii_lower_seq, is_control, is_control_char, is_unicode_whitespace, push_char, push_str_chars,
    str_eq, string_from_chars, to_ascii_lowercase, trim, trim_end, trim_start, trimmed_chars,
};

verus! {

/// Minimum username length in Unicode scalar values.
pub const USERNAME_MIN_LEN: usize = 3;

/// Maximum username length in Unicode scalar values.
pub const USERNAME_MAX_LEN: usize = 32;

/// Maximum display-name length in Unicode scalar values.
pub const DISPLAY_NAME_MAX_LEN: usize = 64;

/// Maximum bio length in Unicode scalar values.
pub const BIO_MAX_LEN: usize = 500;

/// A username after validation.
///
/// `canonical` preserves the trimmed user input; `normalized` is the
/// lowercase form used for uniqueness and lookup.
#[derive(Debug, Clone, PartialEq, Eq)]
pub struct ValidUsername {
    pub canonical: String,
    pub normalized: String,
}

#[derive(Debug, Clone, Copy, PartialEq, Eq, Structural)]
pub enum ValidationError {
    UsernameTooShort { min: usize },
    UsernameTooLong { max: usize },
    UsernameInvalidCharset { offending: char },
    UsernameReserved,
    DisplayNameTooLong { max: usize, actual: usize },
    DisplayNameContainsControl { code: u32 },
    DisplayNameContainsBidi { code: u32 },
    BioTooLong { max: usize, actual: usize },
    BioContainsControl { code: u32 },
    BioContainsBidi { code: u32 },
}

/// The decimal digits of `n`, without leading zeros.
pub open spec fn decimal_text(n: nat) -> Seq<char>
    decreases n,
{
    if n < 10 {
        seq![digit_of(n as int)]
    } else {
        decimal_text(n / 10).push(digit_of((n % 10) as int))
    }
}

/// The character of decimal digit `d`.
pub open spec fn digit_of(d: int) -> char {
    ('0' as int + d) as char
}

/// The uppercase hexadecimal digit of `d`.
pub open spec fn hex_digit_upper(d: int) -> char {
    if d < 10 {
        ('0' as int + d) as char
    } else {
        ('A' as int + d - 10) as char
    }
}

/// The uppercase hexadecimal digits of `n`, without leading zeros.
pub open spec fn hex_text(n: nat) -> Seq<char>
    decreases n,
{
    if n < 16 {
        seq![hex_digit_upper(n as int)]
    } else {
        hex_text(n / 16).push(hex_digit_upper((n % 16) as int))
    }
}

/// `format!("{:04X}", n)`: uppercase hexadecimal, zero-padded to four
/// digits.
pub open spec fn hex4_text(n: nat) -> Seq<char> {
    let h = hex_text(n);
    if h.len() < 4 {
        Seq::new((4 - h.len()) as nat, |i: int| '0') + h
    } else {
        h
    }
}

/// `format!("{:?}", c)`: the character quoted and escaped as `char`'s
/// `Debug` prints it.
pub uninterp spec fn char_debug_text(c: char) -> Seq<char>;

/// `format!("{:?}", c)` of std's `Debug` for `char`.
#[verifier::external_body]
fn char_debug(c: char) -> (r: String)
    ensures
        r@ == char_debug_text(c),
{
    format!("{:?}", c)
}

/// Append the decimal digits of `n`.
fn push_decimal(s: &mut String, n: u64)
    ensures
        final(s)@ == old(s)@ + decimal_text(n as nat),
    decreases n,
{
    if n >= 10 {
        push_decimal(s, n / 10);
    }
    let d = (n % 10) as u8;
    let c = (d + 48u8) as char;
    assert(c == digit_of((n % 10) as int));
    push_char(s, c);
    assert(decimal_text(n as nat) == if n < 10 {
        seq![c]
    } else {
        decimal_text((n / 10) as nat).push(c)
    });
}

/// Append the uppercase hexadecimal digits of `n`.
fn push_hex(s: &mut String, n: u32)
    ensures
        final(s)@ == old(s)@ + hex_text(n as nat),
    decreases n,
{
    if n >= 16 {
        push_hex(s, n / 16);
    }
    let d = (n % 16) as u8;
    let c = if d < 10 {
        (d + 48u8) as char
    } else {
        (d + 55u8) as char
    };
    assert(c == hex_digit_upper((n % 16) as int));
    push_char(s, c);
    assert(hex_text(n as nat) == if n < 16 {
        seq![c]
    } else {
        hex_text((n / 16) as nat).push(c)
    });
}

/// Append `format!("{:04X}", n)`.
fn push_hex4(s: &mut String, n: u32)
    ensures
        final(s)@ == old(s)@ + hex4_text(n as nat),
{
    let mut digits = String::new();
    push_hex(&mut digits, n);
    let ghost h = hex_text(n as nat);
    assert(digits@ =~= h);
    let len = digits.as_str().unicode_len();
    let mut pad: usize = if len < 4 {
        4 - len
    } else {
        0
    };
    let ghost start = s@;
    let mut k: usize = 0;
    while k < pad
        invariant
            k <= pad,
            s@ == start + Seq::new(k as nat, |i: int| '0'),
        decreases pad - k,
    {
        push_char(s, '0');
        assert(Seq::new(k as nat, |i: int| '0').push('0') =~= Seq::new((k + 1) as nat, |i: int| '0'));
        k = k + 1;
    }
    push_str_chars(s, digits.as_str());
    assert(hex4_text(n as nat) =~= Seq::new(pad as nat, |i: int| '0') + h);
}

/// The text `Display` gives for a validation error.
pub open spec fn validation_message(e: ValidationError) -> Seq<char> {
    match e {
        ValidationError::UsernameTooShort { min } => "username must be at least "@ + decimal_text(min as nat)
            + " characters"@,
        ValidationError::UsernameTooLong { max } => "username must be at most "@ + decimal_text(max as nat)
            + " characters"@,
        ValidationError::UsernameInvalidCharset { offending } => "username contains invalid character "@
            + char_debug_text(offending),
        ValidationError::UsernameReserved => "username is reserved"@,
        ValidationError::DisplayNameTooLong { max, actual } => "display name is "@ + decimal_text(
            actual as nat,
        ) + " characters; maximum is "@ + decimal_text(max as nat),
        ValidationError::DisplayNameContainsControl { code } => "display name contains control character U+"@
            + hex4_text(code as nat),
        ValidationError::DisplayNameContainsBidi { code } => "display name contains bidi control U+"@
            + hex4_text(code as nat),
        ValidationError::BioTooLong { max, actual } => "bio is "@ + decimal_text(actual as nat)
            + " characters; maximum is "@ + decimal_text(max as nat),
        ValidationError::BioContainsControl { code } => "bio contains control character U+"@ + hex4_text(
            code as nat,
        ),
        ValidationError::BioContainsBidi { code } => "bio contains bidi control U+"@ + hex4_text(code as nat),
    }
}

impl ValidationError {
    /// The message of the error, as `Display` writes it.
    pub fn message(&self) -> (r: String)
        ensures
            r@ == validation_message(*self),
    {
        let mut s = String::new();
        match *self {
            ValidationError::UsernameTooShort { min } => {
                push_str_chars(&mut s, "username must be at least ");
                push_decimal(&mut s, min as u64);
                push_str_chars(&mut s, " characters");
            },
            ValidationError::UsernameTooLong { max } => {
                push_str_chars(&mut s, "username must be at most ");
                push_decimal(&mut s, max as u64);
                push_str_chars(&mut s, " characters");
            },
            ValidationError::UsernameInvalidCharset { offending } => {
                push_str_chars(&mut s, "username contains invalid character ");
                let d = char_debug(offending);
                push_str_chars(&mut s, d.as_str());
            },
            ValidationError::UsernameReserved => {
                push_str_chars(&mut s, "username is reserved");
            },
            ValidationError::DisplayNameTooLong { max, actual } => {
                push_str_chars(&mut s, "display name is ");
                push_decimal(&mut s, actual as u64);
                push_str_chars(&mut s, " characters; maximum is ");
                push_decimal(&mut s, max as u64);
            },
            ValidationError::DisplayNameContainsControl { code } => {
                push_str_chars(&mut s, "display name contains control character U+");
                push_hex4(&mut s, code);
            },
            ValidationError::DisplayNameContainsBidi { code } => {
                push_str_chars(&mut s, "display name contains bidi control U+");
                push_hex4(&mut s, code);
            },
            ValidationError::BioTooLong { max, actual } => {
                push_str_chars(&mut s, "bio is ");
                push_decimal(&mut s, actual as u64);
                push_str_chars(&mut s, " characters; maximum is ");
                push_decimal(&mut s, max as u64);
            },
            ValidationError::BioContainsControl { code } => {
                push_str_chars(&mut s, "bio contains control character U+");
                push_hex4(&mut s, code);
            },
            ValidationError::BioContainsBidi { code } => {
                push_str_chars(&mut s, "bio contains bidi control U+");
                push_hex4(&mut s, code);
            },
        }
        s
    }
}

/// Names that no profile may take (compared after lowercasing).
pub open spec fn reserved_usernames() -> Seq<&'static str> {
    seq![
        "admin", "administrator", "root", "system", "support", "help", "staff", "moderator",
        "mod", "api", "auth", "login", "logout", "register", "settings", "profile", "forum",
        "community", "search", "notifications", "me", "u", "www", "mail", "email", "security",
        "aevum", "aevumchain", "foundation", "official",
    ]
}

pub open spec fn is_reserved(name: Seq<char>) -> bool {
    exists|i: int| 0 <= i < reserved_usernames().len() && (#[trigger] reserved_usernames()[i])@ == name
}

/// Characters a normalized username may hold: `a-z`, `0-9`, `_` and `-`.
pub open spec fn is_username_char(c: char) -> bool {
    ('a' <= c && c <= 'z') || ('0' <= c && c <= '9') || c == '_' || c == '-'
}

/// The first character of `s` outside the username charset, if any.
pub open spec fn first_invalid_username_char(s: Seq<char>) -> Option<char>
    decreases s.len(),
{
    if s.len() == 0 {
        None
    } else if !is_username_char(s[0]) {
        Some(s[0])
    } else {
        first_invalid_username_char(s.drop_first())
    }
}

/// What `validate_username` gives for raw input `raw`: the canonical and
/// normalized forms, or the first rule they break.
pub open spec fn username_outcome(raw: Seq<char>) -> Result<(Seq<char>, Seq<char>), ValidationError> {
    let canonical = trim(raw);
    let normalized = ascii_lower_seq(canonical);
    if normalized.len() < USERNAME_MIN_LEN {
        Err(ValidationError::UsernameTooShort { min: USERNAME_MIN_LEN })
    } else if normalized.len() > USERNAME_MAX_LEN {
        Err(ValidationError::UsernameTooLong { max: USERNAME_MAX_LEN })
    } else if first_invalid_username_char(normalized) is Some {
        Err(
            ValidationError::UsernameInvalidCharset {
                offending: first_invalid_username_char(normalized)->0,
            },
        )
    } else if is_reserved(normalized) {
        Err(ValidationError::UsernameReserved)
    } else {
        Ok((canonical, normalized))
    }
}

/// Without an offending character, every character is a username character.
proof fn lemma_all_username_chars(s: Seq<char>)
    requires
        first_invalid_username_char(s) is None,
    ensures
        forall|i: int| 0 <= i < s.len() ==> is_username_char(#[trigger] s[i]),
    decreases s.len(),
{
    if s.len() > 0 {
        lemma_all_username_chars(s.drop_first());
        assert forall|i: int| 0 <= i < s.len() implies is_username_char(#[trigger] s[i]) by {
            if i > 0 {
                assert(s[i] == s.drop_first()[i - 1]);
            }
        }
    }
}

/// A sequence that neither starts nor ends with whitespace is its own
/// trimmed form.
proof fn lemma_trim_unchanged(s: Seq<char>)
    requires
        s.len() > 0,
        !is_unicode_whitespace(s[0]),
        !is_unicode_whitespace(s.last()),
    ensures
        trim(s) == s,
{
    assert(trim_start(s) == s);
    assert(trim_end(s) == s);
}

/// A username that validates validates again to the same normalized form:
/// its canonical form gives the same outcome, and its normalized form is
/// its own canonical and normalized form.
pub proof fn law_username_revalidates(raw: Seq<char>)
    requires
        username_outcome(raw) is Ok,
    ensures
        username_outcome(trim(raw)) == username_outcome(raw),
        username_outcome(ascii_lower_seq(trim(raw))) == Ok::<(Seq<char>, Seq<char>), ValidationError>(
            (ascii_lower_seq(trim(raw)), ascii_lower_seq(trim(raw))),
        ),
{
    let c = trim(raw);
    let n = ascii_lower_seq(c);
    lemma_all_username_chars(n);
    assert forall|i: int| 0 <= i < c.len() implies !is_unicode_whitespace(#[trigger] c[i]) by {
        assert(is_username_char(n[i]));
        if is_unicode_whitespace(c[i]) {
            assert(n[i] == c[i]);
        }
    }
    lemma_trim_unchanged(c);
    assert(is_username_char(n[0]) && is_username_char(n.last()));
    lemma_trim_unchanged(n);
    assert(ascii_lower_seq(n) =~= n);
}

/// A sequence of username characters has no offending character.
proof fn lemma_no_invalid_username_char(s: Seq<char>)
    requires
        forall|k: int| 0 <= k < s.len() ==> is_username_char(#[trigger] s[k]),
    ensures
        first_invalid_username_char(s) is None,
    decreases s.len(),
{
    if s.len() > 0 {
        assert forall|k: int| 0 <= k < s.drop_first().len() implies is_username_char(
            #[trigger] s.drop_first()[k],
        ) by {
            assert(s.drop_first()[k] == s[k + 1]);
        }
        lemma_no_invalid_username_char(s.drop_first());
    }
}

/// The reserved names are refused: a username that trims and lowercases to
/// one of admin, administrator, root, system, support, help, staff,
/// moderator, mod, api, auth, login, logout, register, settings, profile,
/// forum, community, search, notifications, me, u, www, mail, email,
/// security, aevum, aevumchain, foundation or official, in any letter case,
/// fails validation: with `UsernameReserved`, or, for the names shorter
/// than three characters (me, u), with `UsernameTooShort` first.
pub proof fn law_reserved_usernames_refused(raw: Seq<char>, i: int)
    requires
        ({
            let names = seq![
                "admin", "administrator", "root", "system", "support", "help", "staff",
                "moderator", "mod", "api", "auth", "login", "logout", "register", "settings",
                "profile", "forum", "community", "search", "notifications", "me", "u", "www",
                "mail", "email", "security", "aevum", "aevumchain", "foundation", "official",
            ];
            0 <= i < names.len() && ascii_lower_seq(trim(raw)) == names[i]@
        }),
    ensures
        username_outcome(raw) == (if ascii_lower_seq(trim(raw)).len() < 3 {
            Err::<(Seq<char>, Seq<char>), ValidationError>(ValidationError::UsernameTooShort { min: 3 })
        } else {
            Err::<(Seq<char>, Seq<char>), ValidationError>(ValidationError::UsernameReserved)
        }),
{
    let names = seq![
        "admin", "administrator", "root", "system", "support", "help", "staff", "moderator",
        "mod", "api", "auth", "login", "logout", "register", "settings", "profile", "forum",
        "community", "search", "notifications", "me", "u", "www", "mail", "email", "security",
        "aevum", "aevumchain", "foundation", "official",
    ];
    reveal_strlit("admin");
    reveal_strlit("administrator");
    reveal_strlit("root");
    reveal_strlit("system");
    reveal_strlit("support");
    reveal_strlit("help");
    reveal_strlit("staff");
    reveal_strlit("moderator");
    reveal_strlit("mod");
    reveal_strlit("api");
    reveal_strlit("auth");
    reveal_strlit("login");
    reveal_strlit("logout");
    reveal_strlit("register");
    reveal_strlit("settings");
    reveal_strlit("profile");
    reveal_strlit("forum");
    reveal_strlit("community");
    reveal_strlit("search");
    reveal_strlit("notifications");
    reveal_strlit("me");
    reveal_strlit("u");
    reveal_strlit("www");
    reveal_strlit("mail");
    reveal_strlit("email");
    reveal_strlit("security");
    reveal_strlit("aevum");
    reveal_strlit("aevumchain");
    reveal_strlit("foundation");
    reveal_strlit("official");
    let n = ascii_lower_seq(trim(raw));
    assert(names =~= reserved_usernames());
    assert(reserved_usernames()[i]@ == n);
    assert(is_reserved(n));
    assert forall|k: int| 0 <= k < n.len() implies is_username_char(#[trigger] n[k]) by {}
    lemma_no_invalid_username_char(n);
}

/// Bidirectional formatting controls: U+202A..U+202E and U+2066..U+2069.
pub open spec fn is_bidi(c: char) -> bool {
    let u = c as u32;
    (0x202A <= u && u <= 0x202E) || (0x2066 <= u && u <= 0x2069)
}

/// A character that free text may not hold: a control character (a line
/// feed excepted where `allow_newline`) or a bidi control.
pub open spec fn is_flagged(c: char, allow_newline: bool) -> bool {
    (is_control_char(c) && !(allow_newline && c == '\n')) || is_bidi(c)
}

/// The first flagged character of `s`, if any.
pub open spec fn first_flagged(s: Seq<char>, allow_newline: bool) -> Option<char>
    decreases s.len(),
{
    if s.len() == 0 {
        None
    } else if is_flagged(s[0], allow_newline) {
        Some(s[0])
    } else {
        first_flagged(s.drop_first(), allow_newline)
    }
}

/// The outcome of validating optional free text (display name or bio):
/// `Ok(None)` when absent or blank, else the trimmed text or an error.
/// `bio` selects the bio variants, the bio limit and allows line feeds.
pub open spec fn free_text_outcome(raw: Option<Seq<char>>, bio: bool) -> Result<
    Option<Seq<char>>,
    ValidationError,
> {
    match raw {
        None => Ok(None),
        Some(r) => {
            let value = trim(r);
            let max = if bio {
                BIO_MAX_LEN
            } else {
                DISPLAY_NAME_MAX_LEN
            };
            if value.len() == 0 {
                Ok(None)
            } else if value.len() > max {
                if bio {
                    Err(ValidationError::BioTooLong { max, actual: value.len() as usize })
                } else {
                    Err(ValidationError::DisplayNameTooLong { max, actual: value.len() as usize })
                }
            } else {
                match first_flagged(value, bio) {
                    None => Ok(Some(value)),
                    Some(c) => {
                        let code = c as u32;
                        if is_control_char(c) && !(bio && c == '\n') {
                            if bio {
                                Err(ValidationError::BioContainsControl { code })
                            } else {
                                Err(ValidationError::DisplayNameContainsControl { code })
                            }
                        } else if bio {
                            Err(ValidationError::BioContainsBidi { code })
                        } else {
                            Err(ValidationError::DisplayNameContainsBidi { code })
                        }
                    },
                }
            }
        },
    }
}

pub open spec fn opt_view(o: Option<&str>) -> Option<Seq<char>> {
    match o {
        Some(s) => Some(s@),
        None => None,
    }
}

pub open spec fn opt_string_view(o: Option<String>) -> Option<Seq<char>> {
    match o {
        Some(s) => Some(s@),
        None => None,
    }
}

/// The string slice inside an optional string.
pub fn as_opt_str(o: &Option<String>) -> (r: Option<&str>)
    ensures
        opt_view(r) == opt_string_view(*o),
{
    match o {
        Some(s) => Some(s.as_str()),
        None => None,
    }
}

/// Whether `c` is a bidirectional formatting control.
pub fn is_bidi_control(c: char) -> (r: bool)
    ensures
        r == is_bidi(c),
{
    let u = c as u32;
    (0x202A <= u && u <= 0x202E) || (0x2066 <= u && u <= 0x2069)
}

fn is_username_character(c: char) -> (r: bool)
    ensures
        r == is_username_char(c),
{
    ('a' <= c && c <= 'z') || ('0' <= c && c <= '9') || c == '_' || c == '-'
}

proof fn lemma_first_invalid_step(s: Seq<char>, i: int)
    requires
        0 <= i < s.len(),
        is_username_char(s[i]),
    ensures
        first_invalid_username_char(s.subrange(i, s.len() as int))
            == first_invalid_username_char(s.subrange(i + 1, s.len() as int)),
{
    let t = s.subrange(i, s.len() as int);
    assert(t.drop_first() =~= s.subrange(i + 1, s.len() as int));
}

proof fn lemma_first_flagged_step(s: Seq<char>, i: int, allow_newline: bool)
    requires
        0 <= i < s.len(),
        !is_flagged(s[i], allow_newline),
    ensures
        first_flagged(s.subrange(i, s.len() as int), allow_newline) == first_flagged(
            s.subrange(i + 1, s.len() as int),
            allow_newline,
        ),
{
    let t = s.subrange(i, s.len() as int);
    assert(t.drop_first() =~= s.subrange(i + 1, s.len() as int));
}

/// Whether `name` is one of the reserved usernames.
pub fn is_reserved_username(name: &str) -> (r: bool)
    ensures
        r == is_reserved(name@),
{
    let names: Vec<&'static str> = vec![
        "admin", "administrator", "root", "system", "support", "help", "staff", "moderator",
        "mod", "api", "auth", "login", "logout", "register", "settings", "profile", "forum",
        "community", "search", "notifications", "me", "u", "www", "mail", "email", "security",
        "aevum", "aevumchain", "foundation", "official",
    ];
    assert(names@ == reserved_usernames());
    let mut i: usize = 0;
    while i < names.len()
        invariant
            names@ == reserved_usernames(),
            i <= names@.len(),
            forall|j: int| 0 <= j < i ==> (#[trigger] reserved_usernames()[j])@ != name@,
        decreases names@.len() - i,
    {
        if str_eq(names[i], name) {
            return true;
        }
        i = i + 1;
    }
    false
}

/// The position of the first character outside the username charset, or
/// the length when there is none.
fn find_invalid_username_char(v: &Vec<char>) -> (r: usize)
    ensures
        r <= v@.len(),
        r == v@.len() ==> first_invalid_username_char(v@) is None,
        r < v@.len() ==> first_invalid_username_char(v@) == Some(v@[r as int]),
{
    let n = v.len();
    let mut i: usize = 0;
    assert(v@.subrange(0, n as int) =~= v@);
    while i < n
        invariant
            n == v@.len(),
            i <= n,
            first_invalid_username_char(v@) == first_invalid_username_char(
                v@.subrange(i as int, n as int),
            ),
        decreases n - i,
    {
        if !is_username_character(v[i]) {
            assert(v@.subrange(i as int, n as int)[0] == v@[i as int]);
            return i;
        }
        proof {
            lemma_first_invalid_step(v@, i as int);
        }
        i = i + 1;
    }
    assert(v@.subrange(n as int, n as int).len() == 0);
    n
}

/// The position of the first flagged character, or the length when there
/// is none.
fn find_flagged(v: &Vec<char>, allow_newline: bool) -> (r: usize)
    ensures
        r <= v@.len(),
        r == v@.len() ==> first_flagged(v@, allow_newline) is None,
        r < v@.len() ==> first_flagged(v@, allow_newline) == Some(v@[r as int]),
{
    let n = v.len();
    let mut i: usize = 0;
    assert(v@.subrange(0, n as int) =~= v@);
    while i < n
        invariant
            n == v@.len(),
            i <= n,
            first_flagged(v@, allow_newline) == first_flagged(
                v@.subrange(i as int, n as int),
                allow_newline,
            ),
        decreases n - i,
    {
        let c = v[i];
        if (is_control(c) && !(allow_newline && c == '\n')) || is_bidi_control(c) {
            assert(v@.subrange(i as int, n as int)[0] == v@[i as int]);
            return i;
        }
        proof {
            lemma_first_flagged_step(v@, i as int, allow_newline);
        }
        i = i + 1;
    }
    assert(v@.subrange(n as int, n as int).len() == 0);
    n
}

/// Validate a username: trim, lowercase (ASCII), then check length,
/// charset and the reserved list, in that order.
pub fn validate_username(raw: &str) -> (r: Result<ValidUsername, ValidationError>)
    ensures
        match username_outcome(raw@) {
            Ok((c, n)) => (r matches Ok(v) && v.canonical@ == c && v.normalized@ == n),
            Err(e) => (r matches Err(x) && x == e),
        },
{
    let canonical_chars = trimmed_chars(raw);
    let mut normalized_chars: Vec<char> = Vec::new();
    let mut i: usize = 0;
    while i < canonical_chars.len()
        invariant
            i <= canonical_chars@.len(),
            normalized_chars@ == ascii_lower_seq(canonical_chars@.take(i as int)),
        decreases canonical_chars@.len() - i,
    {
        normalized_chars.push(to_ascii_lowercase(canonical_chars[i]));
        assert(ascii_lower_seq(canonical_chars@.take(i as int)).push(
            ascii_lower(canonical_chars@[i as int]),
        ) =~= ascii_lower_seq(canonical_chars@.take(i + 1)));
        i = i + 1;
    }
    assert(canonical_chars@.take(canonical_chars@.len() as int) =~= canonical_chars@);
    let length = normalized_chars.len();
    if length < USERNAME_MIN_LEN {
        return Err(ValidationError::UsernameTooShort { min: USERNAME_MIN_LEN });
    }
    if length > USERNAME_MAX_LEN {
        return Err(ValidationError::UsernameTooLong { max: USERNAME_MAX_LEN });
    }
    let bad = find_invalid_username_char(&normalized_chars);
    if bad < length {
        return Err(ValidationError::UsernameInvalidCharset { offending: normalized_chars[bad] });
    }
    let normalized = string_from_chars(normalized_chars.as_slice());
    if is_reserved_username(normalized.as_str()) {
        return Err(ValidationError::UsernameReserved);
    }
    let canonical = string_from_chars(canonical_chars.as_slice());
    Ok(ValidUsername { canonical, normalized })
}

/// Shared body of `validate_display_name` and `validate_bio`.
fn validate_free_text(raw: Option<&str>, bio: bool) -> (r: Result<Option<String>, ValidationError>)
    ensures
        match free_text_outcome(opt_view(raw), bio) {
            Ok(v) => (r matches Ok(o) && opt_string_view(o) == v),
            Err(e) => (r matches Err(x) && x == e),
        },
{
    let raw = match raw {
        None => {
            return Ok(None);
        },
        Some(raw) => raw,
    };
    let value = trimmed_chars(raw);
    if value.len() == 0 {
        return Ok(None);
    }
    let actual = value.len();
    let max = if bio {
        BIO_MAX_LEN
    } else {
        DISPLAY_NAME_MAX_LEN
    };
    if actual > max {
        if bio {
            return Err(ValidationError::BioTooLong { max, actual });
        } else {
            return Err(ValidationError::DisplayNameTooLong { max, actual });
        }
    }
    let bad = find_flagged(&value, bio);
    if bad < actual {
        let c = value[bad];
        let code = c as u32;
        if is_control(c) && !(bio && c == '\n') {
            if bio {
                return Err(ValidationError::BioContainsControl { code });
            } else {
                return Err(ValidationError::DisplayNameContainsControl { code });
            }
        } else if bio {
            return Err(ValidationError::BioContainsBidi { code });
        } else {
            return Err(ValidationError::DisplayNameContainsBidi { code });
        }
    }
    Ok(Some(string_from_chars(value.as_slice())))
}

/// Validate an optional display name: blank becomes `None`; at most
/// `DISPLAY_NAME_MAX_LEN` characters; no control or bidi characters.
pub fn validate_display_name(raw: Option<&str>) -> (r: Result<Option<String>, ValidationError>)
    ensures
        match free_text_outcome(opt_view(raw), false) {
            Ok(v) => (r matches Ok(o) && opt_string_view(o) == v),
            Err(e) => (r matches Err(x) && x == e),
        },
{
    validate_free_text(raw, false)
}

/// Validate an optional bio: blank becomes `None`; at most `BIO_MAX_LEN`
/// characters; no control characters but line feeds, no bidi characters.
pub fn validate_bio(raw: Option<&str>) -> (r: Result<Option<String>, ValidationError>)
    ensures
        match free_text_outcome(opt_view(raw), true) {
            Ok(v) => (r matches Ok(o) && opt_string_view(o) == v),
            Err(e) => (r matches Err(x) && x == e),
        },
{
    validate_free_text(raw, true)
}

} // verus!
