//! Backup codes: generation, normalization and format check.
//!
//! Format `ABCDE-FGHJK`: ten characters from a 31-symbol alphabet that
//! leaves out the ambiguous O, 0, I, 1 and L, grouped 5 + 5.

use vstd::prelude::*;
use vstd::utf8::encode_utf8;
use crate::auth::contracts::{BACKUP_CODES_PER_SET, BACKUP_CODE_GROUP_SIZE};
use crate::text::{
    ascii_upper, chars_of, is_ascii_whitespace, is_ascii_whitespace_char, str_eq,
    string_from_chars, to_ascii_uppercase,
};

verus! {

/// Number of characters in a normalized backup code.
pub const BACKUP_CODE_PAYLOAD_LENGTH: usize = 10;

/// Number of separators in the formatted representation.
pub const BACKUP_CODE_SEPARATOR_COUNT: usize = 1;

/// Length of the formatted representation.
pub const BACKUP_CODE_FORMATTED_LENGTH: usize = 11;

/// Size of the alphabet.
pub const ALPHABET_LEN: usize = 31;

/// The alphabet `ABCDEFGHJKMNPQRSTUVWXYZ23456789`, in order.
pub open spec fn alphabet() -> Seq<u8> {
    seq![
        65u8, 66, 67, 68, 69, 70, 71, 72, 74, 75, 77, 78, 80, 81, 82, 83, 84, 85, 86, 87, 88, 89,
        90, 50, 51, 52, 53, 54, 55, 56, 57,
    ]
}

pub open spec fn in_alphabet(b: u8) -> bool {
    alphabet().contains(b)
}

/// The symbol at position `i` of the alphabet.
pub fn alphabet_symbol(i: usize) -> (b: u8)
    requires
        i < ALPHABET_LEN,
    ensures
        b == alphabet()[i as int],
{
    let i8 = i as u8;
    if i < 8 {
        65 + i8
    } else if i < 10 {
        74 + (i8 - 8)
    } else if i < 12 {
        77 + (i8 - 10)
    } else if i < 23 {
        80 + (i8 - 12)
    } else {
        50 + (i8 - 23)
    }
}

/// Whether a byte is one of the alphabet's symbols.
pub fn is_alphabet_byte(b: u8) -> (r: bool)
    ensures
        r == in_alphabet(b),
{
    let r = (65 <= b && b <= 72) || b == 74 || b == 75 || b == 77 || b == 78 || (80 <= b && b
        <= 90) || (50 <= b && b <= 57);
    proof {
        if r {
            let i: int = if 65 <= b <= 72 {
                b - 65
            } else if b == 74 || b == 75 {
                b - 74 + 8
            } else if b == 77 || b == 78 {
                b - 77 + 10
            } else if 80 <= b <= 90 {
                b - 80 + 12
            } else {
                b - 50 + 23
            };
            assert(alphabet()[i] == b);
        } else {
            if alphabet().contains(b) {
                let k = choose|k: int| 0 <= k < alphabet().len() && alphabet()[k] == b;
                assert(false);
            }
        }
    }
    r
}

/// The normalization of a user-entered code: ASCII whitespace and `-` are
/// dropped, ASCII lowercase letters are upper-cased, all else is kept.
pub open spec fn normalize_seq(s: Seq<char>) -> Seq<char>
    decreases s.len(),
{
    if s.len() == 0 {
        Seq::empty()
    } else {
        let rest = normalize_seq(s.drop_last());
        let c = s.last();
        if is_ascii_whitespace_char(c) || c == '-' {
            rest
        } else {
            rest.push(ascii_upper(c))
        }
    }
}

/// Whether a normalized code has the right length and only alphabet symbols.
pub open spec fn valid_normalized(code: Seq<char>) -> bool {
    let bytes = encode_utf8(code);
    bytes.len() == BACKUP_CODE_PAYLOAD_LENGTH && forall|i: int|
        0 <= i < bytes.len() ==> #[trigger] in_alphabet(bytes[i])
}

/// A normalized code is a non-empty text of ten bytes.
pub proof fn lemma_valid_normalized_len(code: Seq<char>)
    requires
        valid_normalized(code),
    ensures
        code.len() > 0,
        encode_utf8(code).len() == BACKUP_CODE_PAYLOAD_LENGTH,
{
    if code.len() == 0 {
        assert(encode_utf8(code).len() == 0);
    }
}

/// Whether a character is an ASCII symbol of the alphabet.
pub open spec fn alphabet_char(c: char) -> bool {
    (c as u32) < 128 && in_alphabet((c as u32) as u8)
}

/// Whether a formatted code has the shape `XXXXX-XXXXX` over the alphabet.
pub open spec fn well_formed_code(code: Seq<char>) -> bool {
    &&& code.len() == BACKUP_CODE_FORMATTED_LENGTH
    &&& code[5] == '-'
    &&& forall|i: int|
        0 <= i < code.len() && i != 5 ==> #[trigger] alphabet_char(code[i])
}

/// `rand::Rng::gen_range(0..bound)` on the operating system's generator: an
/// index below `bound`. Which index comes out is left open (it is random).
#[verifier::external_body]
fn random_index(bound: usize) -> (r: usize)
    requires
        bound > 0,
    ensures
        r < bound,
{
    rand::Rng::gen_range(&mut rand::rngs::OsRng, 0..bound)
}

fn ascii_char(b: u8) -> (c: char)
    requires
        b < 128,
    ensures
        c as u32 == b as u32,
        (c as u32) as u8 == b,
{
    b as char
}

/// Generate one backup code of the form `XXXXX-XXXXX` from the OS CSPRNG.
pub fn generate_code() -> (code: String)
    ensures
        well_formed_code(code@),
{
    let mut chars: Vec<char> = Vec::new();
    let mut position: usize = 0;
    while position < BACKUP_CODE_PAYLOAD_LENGTH
        invariant
            position <= BACKUP_CODE_PAYLOAD_LENGTH,
            chars@.len() == if position > BACKUP_CODE_GROUP_SIZE {
                position + 1
            } else {
                position as int
            },
            position > BACKUP_CODE_GROUP_SIZE ==> chars@[5] == '-',
            forall|i: int|
                0 <= i < chars@.len() && i != 5 ==> #[trigger] alphabet_char(chars@[i]),
        decreases BACKUP_CODE_PAYLOAD_LENGTH - position,
    {
        if position > 0 && position % BACKUP_CODE_GROUP_SIZE == 0 {
            chars.push('-');
        }
        let index = random_index(ALPHABET_LEN);
        let b = alphabet_symbol(index);
        assert(b < 128) by {
            reveal_with_fuel(Seq::contains, 1);
        }
        assert(in_alphabet(b)) by {
            assert(alphabet()[index as int] == b);
        }
        let c = ascii_char(b);
        chars.push(c);
        position = position + 1;
    }
    string_from_chars(chars.as_slice())
}

/// Whether one of `codes` is `code`.
fn contains_code(codes: &Vec<String>, code: &str) -> (r: bool)
    ensures
        r == exists|j: int| 0 <= j < codes@.len() && (#[trigger] codes@[j])@ == code@,
{
    let mut j: usize = 0;
    while j < codes.len()
        invariant
            j <= codes@.len(),
            forall|k: int| 0 <= k < j ==> (#[trigger] codes@[k])@ != code@,
        decreases codes@.len() - j,
    {
        if str_eq(codes[j].as_str(), code) {
            return true;
        }
        j = j + 1;
    }
    false
}

/// Some code of `codes` starts with the byte `b`.
pub open spec fn leads_with(codes: Seq<String>, b: u8) -> bool {
    exists|j: int| 0 <= j < codes.len() && (#[trigger] codes[j])@.len() > 0 && codes[j]@[0] as u32 == b as u32
}

/// Whether some code of `codes` starts with the byte `b`.
fn leading_symbol_used(codes: &Vec<String>, b: u8) -> (r: bool)
    ensures
        r == leads_with(codes@, b),
{
    let mut j: usize = 0;
    while j < codes.len()
        invariant
            j <= codes@.len(),
            forall|k: int|
                0 <= k < j ==> !((#[trigger] codes@[k])@.len() > 0 && codes@[k]@[0] as u32 == b as u32),
        decreases codes@.len() - j,
    {
        let chars = chars_of(codes[j].as_str());
        if chars.len() > 0 && chars[0] as u32 == b as u32 {
            return true;
        }
        j = j + 1;
    }
    false
}

/// The first ten symbols of the alphabet are distinct.
proof fn lemma_leading_symbols_distinct(a: int, b: int)
    requires
        0 <= a < 10,
        0 <= b < 10,
        a != b,
    ensures
        alphabet()[a] != alphabet()[b],
{
    assert(alphabet()[0] == 65u8 && alphabet()[1] == 66u8 && alphabet()[2] == 67u8 && alphabet()[3] == 68u8);
    assert(alphabet()[4] == 69u8 && alphabet()[5] == 70u8 && alphabet()[6] == 71u8 && alphabet()[7] == 72u8);
    assert(alphabet()[8] == 74u8 && alphabet()[9] == 75u8);
}

/// Fewer codes than `n` (at most ten) cannot start with each of the first
/// `n` symbols of the alphabet.
proof fn lemma_free_leading_symbol(codes: Seq<String>, n: int)
    requires
        codes.len() < n <= 10,
    ensures
        exists|k: int| 0 <= k < n && !leads_with(codes, #[trigger] alphabet()[k]),
{
    if forall|k: int| 0 <= k < n ==> leads_with(codes, #[trigger] alphabet()[k]) {
        let dom = vstd::set_lib::set_int_range(0, n);
        let f = |k: int| alphabet()[k] as int;
        let used = vstd::set_lib::set_int_range(0, codes.len() as int);
        let h = |j: int| codes[j]@[0] as u32 as int;
        vstd::set_lib::lemma_int_range(0, n);
        vstd::set_lib::lemma_int_range(0, codes.len() as int);
        assert forall|a: int, b: int| dom.contains(a) && dom.contains(b) && #[trigger] f(a) == #[trigger] f(b) implies a
            == b by {
            if a != b {
                lemma_leading_symbols_distinct(a, b);
            }
        }
        assert(vstd::relations::injective_on(f, dom));
        vstd::set_lib::lemma_map_size(dom, dom.map(f), f);
        vstd::set_lib::lemma_map_size_bound(used, used.map(h), h);
        assert forall|v: int| dom.map(f).contains(v) implies used.map(h).contains(v) by {
            let k = choose|k: int| dom.contains(k) && f(k) == v;
            assert(leads_with(codes, alphabet()[k]));
            let j = choose|j: int|
                0 <= j < codes.len() && (#[trigger] codes[j])@.len() > 0 && codes[j]@[0] as u32 == alphabet()[k] as u32;
            assert(used.contains(j));
            assert(h(j) == v);
        }
        vstd::set_lib::lemma_len_subset(dom.map(f), used.map(h));
        assert(false);
    }
}

/// `code` with its first symbol replaced by the alphabet symbol at `k`.
fn with_leading_symbol(code: &str, k: usize) -> (r: String)
    requires
        k < ALPHABET_LEN,
        well_formed_code(code@),
    ensures
        well_formed_code(r@),
        r@[0] as u32 == alphabet()[k as int] as u32,
        r@ == code@.update(0, r@[0]),
{
    let b = alphabet_symbol(k);
    assert(b < 128) by {
        reveal_with_fuel(Seq::contains, 1);
    }
    assert(in_alphabet(b)) by {
        assert(alphabet()[k as int] == b);
    }
    let c = ascii_char(b);
    let mut chars = chars_of(code);
    chars.set(0, c);
    let r = string_from_chars(chars.as_slice());
    assert forall|j: int| 0 <= j < r@.len() && j != 5 implies #[trigger] alphabet_char(r@[j]) by {
        if j != 0 {
            assert(r@[j] == code@[j]);
        }
    }
    r
}

/// Generate a complete set of backup codes, pairwise distinct: a drawn
/// code that repeats an earlier one is drawn again (a bounded number of
/// times; then the last draw is kept with its first symbol replaced by one
/// that no earlier code starts with).
pub fn generate_set() -> (set: Vec<String>)
    ensures
        set@.len() == BACKUP_CODES_PER_SET,
        forall|i: int| 0 <= i < set@.len() ==> well_formed_code(#[trigger] set@[i]@),
        forall|a: int, b: int| 0 <= a < set@.len() && 0 <= b < set@.len() && a != b ==> set@[a]@ != set@[b]@,
{
    let mut set: Vec<String> = Vec::new();
    let mut i: usize = 0;
    while i < BACKUP_CODES_PER_SET
        invariant
            i <= BACKUP_CODES_PER_SET,
            set@.len() == i,
            forall|k: int| 0 <= k < set@.len() ==> well_formed_code(#[trigger] set@[k]@),
            forall|a: int, b: int| 0 <= a < set@.len() && 0 <= b < set@.len() && a != b ==> set@[a]@ != set@[b]@,
        decreases BACKUP_CODES_PER_SET - i,
    {
        let mut code = generate_code();
        let mut tries: usize = 0;
        while tries < 16 && contains_code(&set, code.as_str())
            invariant
                well_formed_code(code@),
            decreases 16 - tries,
        {
            code = generate_code();
            tries = tries + 1;
        }
        if contains_code(&set, code.as_str()) {
            proof {
                lemma_free_leading_symbol(set@, i + 1);
            }
            let mut k: usize = 0;
            while leading_symbol_used(&set, alphabet_symbol(k))
                invariant
                    k <= i,
                    i < BACKUP_CODES_PER_SET,
                    set@.len() == i,
                    forall|k2: int| 0 <= k2 < k ==> leads_with(set@, #[trigger] alphabet()[k2]),
                    exists|k3: int| 0 <= k3 < i + 1 && !leads_with(set@, #[trigger] alphabet()[k3]),
                decreases i - k,
            {
                if k == i {
                    proof {
                        let k3 = choose|k3: int| 0 <= k3 < i + 1 && !leads_with(set@, #[trigger] alphabet()[k3]);
                        assert(leads_with(set@, alphabet()[k as int]));
                        assert(k3 < k);
                    }
                }
                k = k + 1;
            }
            code = with_leading_symbol(code.as_str(), k);
            proof {
                assert forall|j: int| 0 <= j < set@.len() implies (#[trigger] set@[j])@ != code@ by {
                    if set@[j]@ == code@ {
                        assert(leads_with(set@, alphabet()[k as int]));
                    }
                }
            }
        }
        let ghost before = set@;
        set.push(code);
        proof {
            assert forall|a: int, b: int| 0 <= a < set@.len() && 0 <= b < set@.len() && a != b implies set@[a]@
                != set@[b]@ by {
                if a < i && b < i {
                    assert(set@[a] == before[a] && set@[b] == before[b]);
                } else if a == i {
                    assert(set@[b] == before[b]);
                } else {
                    assert(set@[a] == before[a]);
                }
            }
        }
        i = i + 1;
    }
    set
}

/// Normalize a user-provided backup code.
pub fn normalize_code(code: &str) -> (out: String)
    ensures
        out@ == normalize_seq(code@),
{
    let v = chars_of(code);
    let mut out: Vec<char> = Vec::new();
    let mut i: usize = 0;
    while i < v.len()
        invariant
            i <= v@.len(),
            v@ == code@,
            out@ == normalize_seq(v@.take(i as int)),
        decreases v@.len() - i,
    {
        let c = v[i];
        assert(v@.take(i + 1).drop_last() =~= v@.take(i as int));
        if !(is_ascii_whitespace(c) || c == '-') {
            out.push(to_ascii_uppercase(c));
        }
        i = i + 1;
    }
    assert(v@.take(v@.len() as int) =~= v@);
    string_from_chars(out.as_slice())
}

/// Validate a normalized backup code.
pub fn is_valid_normalized_code(code: &str) -> (r: bool)
    ensures
        r == valid_normalized(code@),
{
    let bytes = code.as_bytes();
    if bytes.len() != BACKUP_CODE_PAYLOAD_LENGTH {
        return false;
    }
    let mut i: usize = 0;
    while i < bytes.len()
        invariant
            bytes@ == encode_utf8(code@),
            i <= bytes@.len(),
            forall|k: int| 0 <= k < i ==> #[trigger] in_alphabet(bytes@[k]),
        decreases bytes@.len() - i,
    {
        if !is_alphabet_byte(bytes[i]) {
            return false;
        }
        i = i + 1;
    }
    true
}

} // verus!
