//! Encryption of application secrets (TOTP secrets, avatar payloads).

use vstd::prelude::*;
use crate::error::ApiError;

verus! {

/// Symmetric encryption for application secrets; the caller supplies a
/// deterministic, domain-separated object id per secret.
pub trait SecretCipher: Send + Sync {
    /// `plaintext` is what `ciphertext` decrypts to under this cipher.
    spec fn decrypts(&self, ciphertext: Seq<u8>, plaintext: Seq<u8>) -> bool;

    fn encrypt(&self, object_id: u64, plaintext: &[u8]) -> (r: Result<Vec<u8>, ApiError>)
        ensures
            r matches Ok(c) ==> self.decrypts(c@, plaintext@),
    ;

    fn decrypt(&self, ciphertext: &[u8]) -> (r: Result<Vec<u8>, ApiError>)
        ensures
            r matches Ok(p) ==> self.decrypts(ciphertext@, p@),
    ;
}

/// Passthrough cipher for tests and local development: it provides no
/// confidentiality and must never be used in production.
#[derive(Default)]
pub struct TestSecretCipher;

impl TestSecretCipher {
    pub fn new() -> (r: Self) {
        TestSecretCipher
    }
}

/// A copy of a byte slice.
pub fn bytes_to_vec(data: &[u8]) -> (r: Vec<u8>)
    ensures
        r@ == data@,
{
    let mut out: Vec<u8> = Vec::new();
    let mut i: usize = 0;
    while i < data.len()
        invariant
            i <= data@.len(),
            out@ == data@.take(i as int),
        decreases data@.len() - i,
    {
        out.push(data[i]);
        assert(data@.take(i as int).push(data@[i as int]) =~= data@.take(i + 1));
        i = i + 1;
    }
    assert(data@.take(data@.len() as int) =~= data@);
    out
}

impl SecretCipher for TestSecretCipher {
    open spec fn decrypts(&self, ciphertext: Seq<u8>, plaintext: Seq<u8>) -> bool {
        ciphertext == plaintext
    }

    fn encrypt(&self, object_id: u64, plaintext: &[u8]) -> (r: Result<Vec<u8>, ApiError>)
        ensures
            r matches Ok(c) && c@ == plaintext@,
    {
        Ok(bytes_to_vec(plaintext))
    }

    fn decrypt(&self, ciphertext: &[u8]) -> (r: Result<Vec<u8>, ApiError>)
        ensures
            r matches Ok(p) && p@ == ciphertext@,
    {
        Ok(bytes_to_vec(ciphertext))
    }
}

} // verus!
