//! Cryptographic and encoding primitives used by the library.
//!
//! SHA-256, hex, base64, constant-time comparison and randomness come from
//! their crates; their contracts are stated here.

use vstd::prelude::*;

verus! {

/// The SHA-256 digest of a byte sequence, as computed by the `sha2` crate.
pub uninterp spec fn sha256_digest(data: Seq<u8>) -> Seq<u8>;

/// `sha2::Sha256::digest`: the 32-byte SHA-256 digest of `data`. The
/// contract names the digest (it is a function of the input alone) and
/// does not state the compression function.
#[verifier::external_body]
pub(crate) fn sha256(data: &[u8]) -> (r: [u8; 32])
    ensures
        r@ == sha256_digest(data@),
{
    let digest = <sha2::Sha256 as sha2::Digest>::digest(data);
    digest.into()
}

/// The lowercase hexadecimal digit of a nibble.
pub open spec fn hex_digit(v: int) -> char {
    if v < 10 {
        ((v + 48) as u32) as char
    } else {
        ((v - 10 + 97) as u32) as char
    }
}

/// Lowercase hex encoding: two digits per byte, high nibble first.
pub open spec fn hex_lower(bytes: Seq<u8>) -> Seq<char>
    decreases bytes.len(),
{
    if bytes.len() == 0 {
        Seq::empty()
    } else {
        hex_lower(bytes.drop_last()).push(hex_digit(bytes.last() as int / 16)).push(
            hex_digit(bytes.last() as int % 16),
        )
    }
}

/// Lowercase hex has two digits per byte.
pub proof fn lemma_hex_lower_len(b: Seq<u8>)
    ensures
        hex_lower(b).len() == 2 * b.len(),
    decreases b.len(),
{
    if b.len() > 0 {
        lemma_hex_lower_len(b.drop_last());
    }
}

/// Lowercase hex holds no `:`.
pub proof fn lemma_hex_lower_no_colon(b: Seq<u8>)
    ensures
        !hex_lower(b).contains(':'),
    decreases b.len(),
{
    if b.len() > 0 {
        lemma_hex_lower_no_colon(b.drop_last());
        let h = hex_lower(b.drop_last());
        let v1 = b.last() as int / 16;
        let v2 = b.last() as int % 16;
        assert(hex_digit(v1) != ':');
        assert(hex_digit(v2) != ':');
        assert forall|i: int| 0 <= i < hex_lower(b).len() implies hex_lower(b)[i] != ':' by {
            if i < h.len() {
                assert(hex_lower(b)[i] == h[i]);
            }
        }
    }
}

/// `hex::encode`: the lowercase hexadecimal form of `data`, two digits per
/// byte, high nibble first (as the crate documents).
#[verifier::external_body]
pub(crate) fn hex_encode(data: &[u8]) -> (r: String)
    ensures
        r@ == hex_lower(data@),
{
    hex::encode(data)
}

/// The URL-safe base64 alphabet (`A-Z a-z 0-9 - _`).
pub open spec fn b64_char(v: int) -> char {
    if v < 26 {
        ((v + 65) as u32) as char
    } else if v < 52 {
        ((v - 26 + 97) as u32) as char
    } else if v < 62 {
        ((v - 52 + 48) as u32) as char
    } else if v == 62 {
        '-'
    } else {
        '_'
    }
}

/// URL-safe base64 without padding: each 3 bytes become 4 characters, a
/// trailing pair 3 characters and a trailing single byte 2 characters.
pub open spec fn base64_url_nopad(s: Seq<u8>) -> Seq<char>
    decreases s.len(),
{
    if s.len() >= 3 {
        seq![
            b64_char(s[0] as int / 4),
            b64_char((s[0] as int % 4) * 16 + s[1] as int / 16),
            b64_char((s[1] as int % 16) * 4 + s[2] as int / 64),
            b64_char(s[2] as int % 64),
        ] + base64_url_nopad(s.skip(3))
    } else if s.len() == 2 {
        seq![
            b64_char(s[0] as int / 4),
            b64_char((s[0] as int % 4) * 16 + s[1] as int / 16),
            b64_char((s[1] as int % 16) * 4),
        ]
    } else if s.len() == 1 {
        seq![b64_char(s[0] as int / 4), b64_char((s[0] as int % 4) * 16)]
    } else {
        Seq::empty()
    }
}

/// Length of the unpadded encoding: four characters per three bytes,
/// rounded up.
pub proof fn lemma_base64_url_nopad_len(s: Seq<u8>)
    ensures
        base64_url_nopad(s).len() == (4 * s.len() + 2) / 3,
    decreases s.len(),
{
    if s.len() >= 3 {
        lemma_base64_url_nopad_len(s.skip(3));
    }
}

proof fn lemma_b64_char_value(v: int)
    requires
        0 <= v < 64,
    ensures
        b64_char(v) as u32 == (if v < 26 {
            v + 65
        } else if v < 52 {
            v - 26 + 97
        } else if v < 62 {
            v - 52 + 48
        } else if v == 62 {
            45
        } else {
            95
        }),
{
}

proof fn lemma_b64_char_injective(x: int, y: int)
    requires
        0 <= x < 64,
        0 <= y < 64,
        b64_char(x) == b64_char(y),
    ensures
        x == y,
{
    lemma_b64_char_value(x);
    lemma_b64_char_value(y);
}

/// Unpadded URL-safe base64 is injective: equal encodings come from equal
/// bytes.
pub proof fn lemma_base64_url_nopad_injective(a: Seq<u8>, b: Seq<u8>)
    requires
        base64_url_nopad(a) == base64_url_nopad(b),
    ensures
        a == b,
    decreases a.len(),
{
    lemma_base64_url_nopad_len(a);
    lemma_base64_url_nopad_len(b);
    let ea = base64_url_nopad(a);
    let eb = base64_url_nopad(b);
    assert(a.len() == b.len()) by {
        if a.len() < b.len() {
            assert((4 * a.len() + 2) / 3 < (4 * b.len() + 2) / 3);
        } else if a.len() > b.len() {
            assert((4 * b.len() + 2) / 3 < (4 * a.len() + 2) / 3);
        }
    }
    if a.len() >= 3 {
        let (a0, a1, a2) = (a[0] as int, a[1] as int, a[2] as int);
        let (b0, b1, b2) = (b[0] as int, b[1] as int, b[2] as int);
        let ha = seq![
            b64_char(a0 / 4),
            b64_char((a0 % 4) * 16 + a1 / 16),
            b64_char((a1 % 16) * 4 + a2 / 64),
            b64_char(a2 % 64),
        ];
        let hb = seq![
            b64_char(b0 / 4),
            b64_char((b0 % 4) * 16 + b1 / 16),
            b64_char((b1 % 16) * 4 + b2 / 64),
            b64_char(b2 % 64),
        ];
        assert(ea == ha + base64_url_nopad(a.skip(3)));
        assert(eb == hb + base64_url_nopad(b.skip(3)));
        assert(ha[0] == ea[0] && hb[0] == eb[0]);
        assert(ha[1] == ea[1] && hb[1] == eb[1]);
        assert(ha[2] == ea[2] && hb[2] == eb[2]);
        assert(ha[3] == ea[3] && hb[3] == eb[3]);
        lemma_b64_char_injective(a0 / 4, b0 / 4);
        lemma_b64_char_injective((a0 % 4) * 16 + a1 / 16, (b0 % 4) * 16 + b1 / 16);
        lemma_b64_char_injective((a1 % 16) * 4 + a2 / 64, (b1 % 16) * 4 + b2 / 64);
        lemma_b64_char_injective(a2 % 64, b2 % 64);
        assert(a0 == b0 && a1 == b1 && a2 == b2);
        assert(ea.skip(4) =~= base64_url_nopad(a.skip(3)));
        assert(eb.skip(4) =~= base64_url_nopad(b.skip(3)));
        lemma_base64_url_nopad_injective(a.skip(3), b.skip(3));
        assert forall|i: int| 0 <= i < a.len() implies a[i] == b[i] by {
            if i >= 3 {
                assert(a[i] == a.skip(3)[i - 3]);
                assert(b[i] == b.skip(3)[i - 3]);
            }
        }
        assert(a =~= b);
    } else if a.len() == 2 {
        let (a0, a1) = (a[0] as int, a[1] as int);
        let (b0, b1) = (b[0] as int, b[1] as int);
        assert(ea[0] == eb[0] && ea[1] == eb[1] && ea[2] == eb[2]);
        lemma_b64_char_injective(a0 / 4, b0 / 4);
        lemma_b64_char_injective((a0 % 4) * 16 + a1 / 16, (b0 % 4) * 16 + b1 / 16);
        lemma_b64_char_injective((a1 % 16) * 4, (b1 % 16) * 4);
        assert(a0 == b0 && a1 == b1);
        assert(a =~= b);
    } else if a.len() == 1 {
        let a0 = a[0] as int;
        let b0 = b[0] as int;
        assert(ea[0] == eb[0] && ea[1] == eb[1]);
        lemma_b64_char_injective(a0 / 4, b0 / 4);
        lemma_b64_char_injective((a0 % 4) * 16, (b0 % 4) * 16);
        assert(a0 == b0);
        assert(a =~= b);
    } else {
        assert(a =~= b);
    }
}

/// Two character sequences with the same UTF-8 encoding are equal.
pub proof fn lemma_encode_utf8_injective(a: Seq<char>, b: Seq<char>)
    requires
        vstd::utf8::encode_utf8(a) == vstd::utf8::encode_utf8(b),
    ensures
        a == b,
{
    vstd::utf8::encode_utf8_decode_utf8(a);
    vstd::utf8::encode_utf8_decode_utf8(b);
}

/// `base64::engine::general_purpose::URL_SAFE_NO_PAD.encode`: URL-safe
/// base64 of `data` without `=` padding, as RFC 4648 section 5 defines it.
#[verifier::external_body]
pub(crate) fn base64_url_encode(data: &[u8]) -> (r: String)
    ensures
        r@ == base64_url_nopad(data@),
{
    base64::Engine::encode(&base64::engine::general_purpose::URL_SAFE_NO_PAD, data)
}

/// `base64::engine::general_purpose::URL_SAFE_NO_PAD.decode`: the bytes
/// whose unpadded URL-safe encoding is exactly `s`. The engine rejects
/// padding and non-zero trailing bits, so it answers `None` exactly when
/// `s` is no such encoding.
#[verifier::external_body]
pub(crate) fn base64_url_decode(s: &str) -> (r: Option<Vec<u8>>)
    ensures
        match r {
            Some(v) => base64_url_nopad(v@) == s@,
            None => forall|b: Seq<u8>| #[trigger] base64_url_nopad(b) != s@,
        },
{
    base64::Engine::decode(&base64::engine::general_purpose::URL_SAFE_NO_PAD, s.as_bytes()).ok()
}

/// `subtle::ConstantTimeEq::ct_eq` on byte slices, converted to `bool`:
/// true exactly when the two slices are equal.
#[verifier::external_body]
pub(crate) fn constant_time_eq(a: &[u8], b: &[u8]) -> (r: bool)
    ensures
        r == (a@ == b@),
{
    bool::from(subtle::ConstantTimeEq::ct_eq(a, b))
}

/// `rand_core::RngCore::fill_bytes` on `OsRng`: 32 bytes from the operating
/// system's random source. Nothing is promised of their values.
#[verifier::external_body]
pub(crate) fn random_bytes_32() -> (r: [u8; 32]) {
    let mut bytes = [0u8; 32];
    argon2::password_hash::rand_core::RngCore::fill_bytes(
        &mut argon2::password_hash::rand_core::OsRng,
        &mut bytes,
    );
    bytes
}

/// Big-endian bytes of a 128-bit value.
pub open spec fn be_bytes_u128(x: u128) -> Seq<u8> {
    Seq::new(16, |i: int| ((x as int / vstd::arithmetic::power::pow(256, (15 - i) as nat)) % 256) as u8)
}

/// The big-endian byte form of `x`, most significant byte first.
pub(crate) fn u128_to_be_bytes(x: u128) -> (r: [u8; 16])
    ensures
        r@ == be_bytes_u128(x),
{
    let mut out = [0u8; 16];
    let mut v: u128 = x;
    let mut k: usize = 16;
    proof {
        vstd::arithmetic::power::lemma_pow0(256);
    }
    while k > 0
        invariant
            k <= 16,
            out@.len() == 16,
            v as int == x as int / vstd::arithmetic::power::pow(256, (16 - k) as nat),
            forall|i: int| k <= i < 16 ==> out@[i] == #[trigger] be_bytes_u128(x)[i],
        decreases k,
    {
        k = k - 1;
        proof {
            vstd::arithmetic::power::lemma_pow_positive(256, (15 - k) as nat);
            vstd::arithmetic::div_mod::lemma_div_denominator(
                x as int,
                vstd::arithmetic::power::pow(256, (15 - k) as nat),
                256,
            );
            reveal(vstd::arithmetic::power::pow);
            assert(vstd::arithmetic::power::pow(256, (16 - k) as nat) == vstd::arithmetic::power::pow(
                256,
                (15 - k) as nat,
            ) * 256);
        }
        out[k] = (v % 256) as u8;
        v = v / 256;
    }
    assert(out@ =~= be_bytes_u128(x));
    out
}

/// The first eight bytes of `b` read as a big-endian `u64`.
pub open spec fn be_u64_prefix(b: Seq<u8>) -> int {
    b[0] * 0x100000000000000 + b[1] * 0x1000000000000 + b[2] * 0x10000000000 + b[3]
        * 0x100000000 + b[4] * 0x1000000 + b[5] * 0x10000 + b[6] * 0x100 + b[7]
}

/// `u64::from_be_bytes` of the first eight bytes of `b`.
pub fn be_u64_from_prefix(b: &[u8]) -> (r: u64)
    requires
        b@.len() >= 8,
    ensures
        r == be_u64_prefix(b@),
{
    let mut r: u64 = 0;
    let mut i: usize = 0;
    while i < 8
        invariant
            b@.len() >= 8,
            i <= 8,
            r == be_u64_partial(b@, i as int),
        decreases 8 - i,
    {
        assert(r * 256 + b@[i as int] <= u64::MAX) by {
            lemma_be_u64_partial_bound(b@, i as int);
        }
        r = r * 256 + b[i] as u64;
        i = i + 1;
    }
    assert(be_u64_partial(b@, 8) == be_u64_prefix(b@)) by {
        reveal_with_fuel(be_u64_partial, 9);
    }
    r
}

/// Big-endian value of the first `n` bytes of `b`.
pub open spec fn be_u64_partial(b: Seq<u8>, n: int) -> int
    decreases n,
{
    if n <= 0 {
        0
    } else {
        be_u64_partial(b, n - 1) * 256 + b[n - 1]
    }
}

proof fn lemma_be_u64_partial_bound(b: Seq<u8>, n: int)
    requires
        0 <= n < 8,
        b.len() >= 8,
    ensures
        be_u64_partial(b, n) * 256 + b[n] <= u64::MAX,
        0 <= be_u64_partial(b, n) < vstd::arithmetic::power::pow(256, n as nat),
    decreases n,
{
    vstd::arithmetic::power::lemma_pow_positive(256, n as nat);
    if n > 0 {
        lemma_be_u64_partial_bound(b, n - 1);
        vstd::arithmetic::power::lemma_pow_adds(256, (n - 1) as nat, 1);
        vstd::arithmetic::power::lemma_pow1(256);
        let p = be_u64_partial(b, n - 1);
        let q = vstd::arithmetic::power::pow(256, (n - 1) as nat);
        assert(p * 256 + b[n - 1] < q * 256) by (nonlinear_arith)
            requires
                0 <= p < q,
                0 <= b[n - 1] < 256,
        ;
    }
    let p = be_u64_partial(b, n);
    let q = vstd::arithmetic::power::pow(256, n as nat);
    assert(q <= vstd::arithmetic::power::pow(256, 7)) by {
        vstd::arithmetic::power::lemma_pow_increases(256, n as nat, 7);
    }
    assert(vstd::arithmetic::power::pow(256, 7) == 0x100000000000000) by {
        reveal_with_fuel(vstd::arithmetic::power::pow, 8);
    }
    assert(p * 256 + b[n] <= u64::MAX) by (nonlinear_arith)
        requires
            0 <= p < q,
            q <= 0x100000000000000,
            0 <= b[n] < 256,
    ;
}

} // verus!
