//! CSRF protection primitives.
//!
//! The CSRF token is a random value issued after authentication; the
//! browser sends it back in the `X-CSRF-Token` header, and it must equal
//! the cookie value (compared in constant time).

use vstd::prelude::*;
use vstd::utf8::encode_utf8;
use crate::crypto::{
    base64_url_encode, base64_url_nopad, constant_time_eq, lemma_base64_url_nopad_len,
    lemma_encode_utf8_injective, random_bytes_32, sha256, sha256_digest,
};

verus! {

/// CSRF cookie name.
pub const CSRF_COOKIE_NAME: &'static str = "__Host-aevum_csrf";

/// CSRF header name.
pub const CSRF_HEADER_NAME: &'static str = "X-CSRF-Token";

/// CSRF token size in random bytes.
pub const CSRF_TOKEN_BYTES: usize = 32;

/// CSRF cookie configuration.
#[derive(Debug, Clone, Copy)]
pub struct CsrfConfig {
    pub secure: bool,
}

impl Default for CsrfConfig {
    fn default() -> (r: Self)
        ensures
            r.secure,
    {
        CsrfConfig { secure: true }
    }
}

/// The stored form of a secret: URL-safe base64 of the SHA-256 of its
/// UTF-8 bytes.
pub open spec fn secret_digest(s: Seq<char>) -> Seq<char> {
    base64_url_nopad(sha256_digest(encode_utf8(s)))
}

/// Hash a secret into its stored form.
pub fn digest_secret(s: &str) -> (r: String)
    ensures
        r@ == secret_digest(s@),
{
    let digest = sha256(s.as_bytes());
    base64_url_encode(&digest)
}

/// Opaque cryptographically random CSRF token.
#[derive(Clone)]
pub struct CsrfToken(String);

impl View for CsrfToken {
    type V = Seq<char>;

    closed spec fn view(&self) -> Seq<char> {
        self.0@
    }
}

impl CsrfToken {
    /// A fresh token: 32 random bytes in URL-safe base64 (43 characters).
    pub fn generate() -> (r: Self)
        ensures
            r@.len() == 43,
    {
        let bytes = random_bytes_32();
        let s = base64_url_encode(&bytes);
        proof {
            lemma_base64_url_nopad_len(bytes@);
        }
        CsrfToken(s)
    }

    pub fn as_str(&self) -> (r: &str)
        ensures
            r@ == self@,
    {
        self.0.as_str()
    }
}

/// SHA-256 hash of a CSRF token, URL-safe base64.
#[derive(Clone)]
pub struct CsrfTokenHash(String);

impl View for CsrfTokenHash {
    type V = Seq<char>;

    closed spec fn view(&self) -> Seq<char> {
        self.0@
    }
}

impl CsrfTokenHash {
    pub fn from_token(token: &CsrfToken) -> (r: Self)
        ensures
            r@ == secret_digest(token@),
    {
        CsrfTokenHash(digest_secret(token.as_str()))
    }

    pub fn as_str(&self) -> (r: &str)
        ensures
            r@ == self@,
    {
        self.0.as_str()
    }

    /// An identical copy.
    pub fn copy(&self) -> (r: Self)
        ensures
            r == *self,
    {
        CsrfTokenHash(self.0.clone())
    }
}

/// Constant-time comparison of the cookie token with the header token.
pub fn validate_csrf_tokens(cookie_token: &str, header_token: &str) -> (r: bool)
    ensures
        r == (cookie_token@ == header_token@),
{
    let r = constant_time_eq(cookie_token.as_bytes(), header_token.as_bytes());
    proof {
        if r {
            lemma_encode_utf8_injective(cookie_token@, header_token@);
        }
    }
    r
}

} // verus!
