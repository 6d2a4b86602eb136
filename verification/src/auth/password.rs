//! Password and session-token cryptographic primitives.
//!
//! Passwords are hashed with Argon2id (fresh random salt, PHC string
//! format); session tokens are 32 random bytes in URL-safe base64.

use vstd::prelude::*;
use vstd::utf8::encode_utf8;
use crate::auth::contracts::byte_len;
use crate::crypto::{base64_url_encode, base64_url_nopad, lemma_base64_url_nopad_len, random_bytes_32};

verus! {

/// Maximum password length, in bytes, accepted by this layer.
pub const MAX_PASSWORD_BYTES: usize = 128;

/// Default Argon2id memory cost in KiB.
pub const ARGON2_MEMORY_COST_KIB: u32 = 19456;

/// Default Argon2id time cost.
pub const ARGON2_TIME_COST: u32 = 2;

/// Default Argon2id parallelism.
pub const ARGON2_PARALLELISM: u32 = 1;

/// Session token size in random bytes.
pub const SESSION_TOKEN_BYTES: usize = 32;

/// Password cryptographic errors.
#[derive(Debug, Clone, Copy, PartialEq, Eq, Structural)]
pub enum PasswordError {
    EmptyPassword,
    PasswordTooLong,
    InvalidHash,
    HashFailed,
    VerificationFailed,
    InvalidParameters,
}

pub type PasswordResult<T> = Result<T, PasswordError>;

#[verifier::external_type_specification]
#[verifier::external_body]
pub struct ExArgon2<'key>(argon2::Argon2<'key>);

/// Whether `argon2::Params::new(m, t, p, None)` accepts the costs.
pub open spec fn argon2_params_ok(m: u32, t: u32, p: u32) -> bool {
    m >= 8 && m >= p * 8 && t >= 1 && p >= 1 && p <= 0xFFFFFF
}

/// What `Argon2::verify_password` answers for a password and an encoded
/// PHC hash: `Ok(true)` on a match, `Ok(false)` on a mismatch, an error
/// when the string does not parse or verification fails otherwise.
pub uninterp spec fn argon2_verify_outcome(password: Seq<u8>, phc: Seq<char>) -> Result<bool, PasswordError>;

/// Verification of any password of at most `argon2::MAX_PWD_LEN` bytes
/// against the encoded hash answers without an error.
pub open spec fn argon2_readable(phc: Seq<char>) -> bool {
    forall|q: Seq<u8>| q.len() <= 0xFFFF_FFFF ==> (#[trigger] argon2_verify_outcome(q, phc)) is Ok
}

/// Whether verification answers that the password matches the hash.
pub open spec fn argon2_accepts(password: Seq<u8>, phc: Seq<char>) -> bool {
    argon2_verify_outcome(password, phc) == Ok::<bool, PasswordError>(true)
}

/// `argon2::Params::new(m, t, p, None)` followed by
/// `Argon2::new(Algorithm::Argon2id, Version::V0x13, params)`. `Params::new`
/// accepts exactly the costs of `argon2_params_ok` (its source checks
/// `m >= 8`, `m >= 8 * p`, `t >= 1` and `1 <= p <= 2^24 - 1`).
#[verifier::external_body]
fn argon2id_with_params(m: u32, t: u32, p: u32) -> (r: Option<argon2::Argon2<'static>>)
    requires
        p <= 0x1FFFFFFF,
    ensures
        r is Some <==> argon2_params_ok(m, t, p),
{
    match argon2::Params::new(m, t, p, None) {
        Ok(params) => Some(argon2::Argon2::new(argon2::Algorithm::Argon2id, argon2::Version::V0x13, params)),
        Err(_) => None,
    }
}

/// `PasswordHasher::hash_password` with a fresh `SaltString` from `OsRng`.
/// The salt is random, so the string is not determined by the password;
/// what is stated is that a produced hash verifies the same password, and
/// that verifying any password of at most `argon2::MAX_PWD_LEN` bytes
/// against it answers without an error (the string parses, its parameters
/// and salt are the ones `hash_password` accepted, and the only other
/// error of `hash_password_into` is a password over that length).
#[verifier::external_body]
fn argon2_hash(argon2: &argon2::Argon2<'static>, password: &str) -> (r: Result<String, PasswordError>)
    ensures
        r matches Ok(h) ==> argon2_accepts(encode_utf8(password@), h@),
        r matches Ok(h) ==> argon2_readable(h@),
        r matches Err(e) ==> e == PasswordError::HashFailed,
{
    let salt = argon2::password_hash::SaltString::generate(&mut argon2::password_hash::rand_core::OsRng);
    match argon2::PasswordHasher::hash_password(argon2, password.as_bytes(), &salt) {
        Ok(hash) => Ok(hash.to_string()),
        Err(_) => Err(PasswordError::HashFailed),
    }
}

/// `PasswordHash::new` on the encoded string (a parse failure is
/// `InvalidHash`) followed by `PasswordVerifier::verify_password`
/// (`Error::Password` is a mismatch, any other error `VerificationFailed`).
#[verifier::external_body]
fn argon2_verify(argon2: &argon2::Argon2<'static>, password: &str, encoded_hash: &str) -> (r: Result<bool, PasswordError>)
    ensures
        r == argon2_verify_outcome(encode_utf8(password@), encoded_hash@),
{
    let parsed = match argon2::password_hash::PasswordHash::new(encoded_hash) {
        Ok(parsed) => parsed,
        Err(_) => return Err(PasswordError::InvalidHash),
    };
    match argon2::PasswordVerifier::verify_password(argon2, password.as_bytes(), &parsed) {
        Ok(()) => Ok(true),
        Err(argon2::password_hash::Error::Password) => Ok(false),
        Err(_) => Err(PasswordError::VerificationFailed),
    }
}

/// Outcome of the length rules that `hash` applies before hashing.
pub open spec fn hash_input_check(password: Seq<char>) -> Result<(), PasswordError> {
    if password.len() == 0 {
        Err(PasswordError::EmptyPassword)
    } else if byte_len(password) > MAX_PASSWORD_BYTES {
        Err(PasswordError::PasswordTooLong)
    } else {
        Ok(())
    }
}

/// Argon2id password hashing service.
pub struct PasswordHasher {
    argon2: argon2::Argon2<'static>,
}

impl PasswordHasher {
    /// The hasher with the canonical parameters (19456 KiB, 2 passes, 1 lane).
    pub fn new() -> (r: Self) {
        let argon2 = argon2id_with_params(ARGON2_MEMORY_COST_KIB, ARGON2_TIME_COST, ARGON2_PARALLELISM);
        match argon2 {
            Some(argon2) => PasswordHasher { argon2 },
            None => vstd::pervasive::unreached(),
        }
    }

    /// A hasher with custom costs; `InvalidParameters` when Argon2 refuses them.
    pub fn with_params(memory_cost: u32, time_cost: u32, parallelism: u32) -> (r: PasswordResult<Self>)
        requires
            parallelism <= 0x1FFFFFFF,
        ensures
            r is Ok <==> argon2_params_ok(memory_cost, time_cost, parallelism),
            r matches Err(e) ==> e == PasswordError::InvalidParameters,
    {
        match argon2id_with_params(memory_cost, time_cost, parallelism) {
            Some(argon2) => Ok(PasswordHasher { argon2 }),
            None => Err(PasswordError::InvalidParameters),
        }
    }

    /// Hash a password into a PHC string with a fresh salt.
    pub fn hash(&self, password: &str) -> (r: PasswordResult<String>)
        ensures
            hash_input_check(password@) matches Err(e) ==> (r matches Err(f) && f == e),
            hash_input_check(password@) is Ok ==> (r is Ok || r matches Err(PasswordError::HashFailed)),
            r matches Ok(h) ==> argon2_accepts(encode_utf8(password@), h@) && argon2_readable(h@),
    {
        if password.is_empty() {
            return Err(PasswordError::EmptyPassword);
        }
        if password.len() > MAX_PASSWORD_BYTES {
            return Err(PasswordError::PasswordTooLong);
        }
        argon2_hash(&self.argon2, password)
    }

    /// Check a password against an encoded hash. Empty and over-long
    /// passwords never match.
    pub fn verify(&self, password: &str, encoded_hash: &str) -> (r: PasswordResult<bool>)
        ensures
            r == (if password@.len() == 0 || byte_len(password@) > MAX_PASSWORD_BYTES {
                Ok(false)
            } else {
                argon2_verify_outcome(encode_utf8(password@), encoded_hash@)
            }),
    {
        if password.is_empty() || password.len() > MAX_PASSWORD_BYTES {
            return Ok(false);
        }
        argon2_verify(&self.argon2, password, encoded_hash)
    }
}

/// Opaque cryptographically random session token.
pub struct SessionToken(String);

impl SessionToken {
    /// A fresh token: 32 random bytes in URL-safe base64 (43 characters).
    pub fn generate() -> (r: Self)
        ensures
            r@.len() == 43,
            exists|b: Seq<u8>| b.len() == 32 && r@ == base64_url_nopad(b),
    {
        let bytes = random_bytes_32();
        let s = base64_url_encode(&bytes);
        proof {
            lemma_base64_url_nopad_len(bytes@);
        }
        SessionToken(s)
    }

    pub fn expose(&self) -> (r: &str)
        ensures
            r@ == self@,
    {
        self.0.as_str()
    }

    /// A token holding a secret received from a client.
    pub fn from_secret(secret: String) -> (r: Self)
        ensures
            r@ == secret@,
    {
        SessionToken(secret)
    }
}

impl View for SessionToken {
    type V = Seq<char>;

    closed spec fn view(&self) -> Seq<char> {
        self.0@
    }
}

} // verus!
