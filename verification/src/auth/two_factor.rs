//! Two-factor authentication (TOTP) settings, replay protection and the
//! domain-separated object id of a user's TOTP secret.

use vstd::prelude::*;
use crate::auth::secret_cipher::bytes_to_vec;
use crate::clock::{now, shift, shifted, uuid_text, uuid_to_text, Id, Timestamp, MICROS_PER_SECOND};
use crate::error::ApiError;
use crate::crypto::{be_bytes_u128, be_u64_from_prefix, be_u64_prefix, sha256, sha256_digest, u128_to_be_bytes};

verus! {

/// Lifecycle state of two-factor authentication for a user.
#[derive(Debug, Clone, Copy, PartialEq, Eq, Structural)]
pub enum TwoFactorState {
    /// 2FA is not configured.
    Disabled,
    /// A secret was generated and awaits confirmation.
    Pending,
    /// 2FA is active and required for login.
    Enabled,
}

/// Time a pending secret may wait for confirmation, in seconds.
pub const PENDING_TTL_SECONDS: i64 = 600;

/// TOTP secret size in bytes (160 bits).
pub const TOTP_SECRET_BYTES: usize = 20;

/// TOTP code length.
pub const TOTP_DIGITS: usize = 6;

/// Accepted clock skew, in steps.
pub const TOTP_SKEW: u8 = 1;

/// TOTP step length in seconds.
pub const TOTP_STEP_SECONDS: u64 = 30;

/// Issuer name shown by authenticator apps.
pub const TOTP_ISSUER: &'static str = "Aevum";

/// Persistent two-factor settings of a user.
#[derive(Debug, Clone)]
pub struct TwoFactorSettings {
    pub user_id: Id,
    /// Encrypted TOTP secret (never plaintext at rest).
    pub encrypted_secret: Vec<u8>,
    pub state: TwoFactorState,
    pub created_at: Timestamp,
    /// Pending secrets expire; unused once enabled.
    pub expires_at: Option<Timestamp>,
    pub enabled_at: Option<Timestamp>,
    /// Highest TOTP step accepted so far, for replay protection.
    pub last_accepted_step: Option<u64>,
}

/// Two-factor settings as plain values: what storage keeps.
pub struct TwoFactorRecord {
    pub user_id: Id,
    /// The TOTP secret as the cipher encrypted it.
    pub encrypted_secret: Seq<u8>,
    pub state: TwoFactorState,
    pub created_at: Timestamp,
    pub expires_at: Option<Timestamp>,
    pub enabled_at: Option<Timestamp>,
    pub last_accepted_step: Option<u64>,
}

impl View for TwoFactorSettings {
    type V = TwoFactorRecord;

    open spec fn view(&self) -> TwoFactorRecord {
        TwoFactorRecord {
            user_id: self.user_id,
            encrypted_secret: self.encrypted_secret@,
            state: self.state,
            created_at: self.created_at,
            expires_at: self.expires_at,
            enabled_at: self.enabled_at,
            last_accepted_step: self.last_accepted_step,
        }
    }
}

impl TwoFactorSettings {
    /// A copy with the same values.
    pub fn copy(&self) -> (r: Self)
        ensures
            r@ == self@,
    {
        TwoFactorSettings {
            user_id: self.user_id,
            encrypted_secret: bytes_to_vec(self.encrypted_secret.as_slice()),
            state: self.state,
            created_at: self.created_at,
            expires_at: self.expires_at,
            enabled_at: self.enabled_at,
            last_accepted_step: self.last_accepted_step,
        }
    }

    /// Pending settings created now.
    pub fn new_pending(user_id: Id, encrypted_secret: Vec<u8>) -> (r: Self)
        ensures
            r.user_id == user_id,
            r.encrypted_secret@ == encrypted_secret@,
            r.state == TwoFactorState::Pending,
            r.expires_at == Some(shifted(r.created_at, PENDING_TTL_SECONDS * MICROS_PER_SECOND)),
            r.enabled_at is None,
            r.last_accepted_step is None,
    {
        TwoFactorSettings::new_pending_at(user_id, encrypted_secret, now())
    }

    /// Pending settings created at `at`, expiring ten minutes later.
    pub fn new_pending_at(user_id: Id, encrypted_secret: Vec<u8>, at: Timestamp) -> (r: Self)
        ensures
            r.user_id == user_id,
            r.encrypted_secret@ == encrypted_secret@,
            r.state == TwoFactorState::Pending,
            r.created_at == at,
            r.expires_at == Some(shifted(at, PENDING_TTL_SECONDS * MICROS_PER_SECOND)),
            r.enabled_at is None,
            r.last_accepted_step is None,
    {
        TwoFactorSettings {
            user_id,
            encrypted_secret,
            state: TwoFactorState::Pending,
            created_at: at,
            expires_at: Some(shift(at, PENDING_TTL_SECONDS * MICROS_PER_SECOND)),
            enabled_at: None,
            last_accepted_step: None,
        }
    }

    pub open spec fn pending_expired(&self, t: Timestamp) -> bool {
        self.state == TwoFactorState::Pending && (self.expires_at matches Some(e) && t >= e)
    }

    pub fn is_pending_expired(&self, t: Timestamp) -> (r: bool)
        ensures
            r == self.pending_expired(t),
    {
        match self.state {
            TwoFactorState::Pending => match self.expires_at {
                Some(e) => t >= e,
                None => false,
            },
            _ => false,
        }
    }

    /// Accept a TOTP step whose code checked out, unless a step at or
    /// after it was accepted before (replay protection).
    pub fn accept_step(&mut self, code_valid: bool, step: u64) -> (r: bool)
        ensures
            r == (code_valid && (old(self).last_accepted_step matches Some(last) ==> step > last)),
            r ==> final(self).last_accepted_step == Some(step),
            !r ==> final(self).last_accepted_step == old(self).last_accepted_step,
            final(self).user_id == old(self).user_id,
            final(self).state == old(self).state,
            final(self).encrypted_secret@ == old(self).encrypted_secret@,
            final(self).expires_at == old(self).expires_at,
            final(self).enabled_at == old(self).enabled_at,
            final(self).created_at == old(self).created_at,
    {
        if !code_valid {
            return false;
        }
        if let Some(last) = self.last_accepted_step {
            if step <= last {
                return false;
            }
        }
        self.last_accepted_step = Some(step);
        true
    }
}

/// Replay protection: once a step is accepted, neither it nor any earlier
/// step is accepted again, whatever the code check says.
pub proof fn law_accepted_step_never_replays(
    before: TwoFactorSettings,
    after: TwoFactorSettings,
    step: u64,
    later_step: u64,
)
    requires
        before.last_accepted_step is None || step > before.last_accepted_step->0,
        after.last_accepted_step == Some(step),
        later_step <= step,
    ensures
        !(after.last_accepted_step matches Some(last) ==> later_step > last),
{
}

/// The TOTP check time for instant `now`: whole seconds since the epoch,
/// from the first step after the epoch on; `None` before it.
pub open spec fn totp_time(now: Timestamp) -> Option<u64> {
    if now >= TOTP_STEP_SECONDS * MICROS_PER_SECOND {
        Some((now / MICROS_PER_SECOND) as u64)
    } else {
        None
    }
}

/// The TOTP step of a check time.
pub open spec fn totp_step(secs: u64) -> u64 {
    secs / TOTP_STEP_SECONDS
}

/// Seconds since the epoch at `now` for a TOTP check; `None` before the
/// first step after the epoch, where no step before the current one exists.
pub fn totp_seconds(now: Timestamp) -> (r: Option<u64>)
    ensures
        r == totp_time(now),
{
    if now >= 30 * MICROS_PER_SECOND {
        Some((now / MICROS_PER_SECOND) as u64)
    } else {
        None
    }
}

/// A UUID's text never holds `:`, so it is always a valid TOTP account.
pub proof fn lemma_uuid_account_ok(id: Id)
    ensures
        !uuid_text(id).contains(':'),
{
    let h = crate::crypto::hex_lower(crate::crypto::be_bytes_u128(id));
    crate::crypto::lemma_hex_lower_no_colon(crate::crypto::be_bytes_u128(id));
    crate::crypto::lemma_hex_lower_len(crate::crypto::be_bytes_u128(id));
    let u = uuid_text(id);
    assert forall|i: int| 0 <= i < u.len() implies u[i] != ':' by {
        if i < 8 {
            assert(u[i] == h[i]);
        } else if i == 8 || i == 13 || i == 18 || i == 23 {
        } else if i < 13 {
            assert(u[i] == h[i - 1]);
        } else if i < 18 {
            assert(u[i] == h[i - 2]);
        } else if i < 23 {
            assert(u[i] == h[i - 3]);
        } else {
            assert(u[i] == h[i - 4]);
        }
    }
}

/// Whether `code` is a TOTP code of `secret` at `now` for the account named
/// by `user_id`'s UUID text (the parameters above). `Internal` before the
/// first step after the epoch, or when the secret is shorter than 128 bits
/// and `totp_rs` refuses it.
pub fn check_totp_secret(secret: &[u8], user_id: Id, code: &str, now: Timestamp) -> (r: Result<bool, ApiError>)
    ensures
        r is Ok <==> (totp_time(now) is Some && secret@.len() >= 16),
        r is Err ==> r == Err::<bool, ApiError>(ApiError::Internal),
        r matches Ok(b) ==> b == totp_accepts(secret@, code@, totp_time(now)->0),
{
    let secs = match totp_seconds(now) {
        Some(t) => t,
        None => {
            return Err(ApiError::Internal);
        },
    };
    let account = uuid_to_text(user_id);
    proof {
        lemma_uuid_account_ok(user_id);
        lemma_totp_parameters_accepted(secret@, account@);
    }
    match totp_check(secret, TOTP_DIGITS, TOTP_SKEW, TOTP_STEP_SECONDS, TOTP_ISSUER, account.as_str(), code, secs) {
        Some(b) => Ok(b),
        None => Err(ApiError::Internal),
    }
}

/// Check a TOTP code of `secret` at `now` and, when it is good, accept its
/// step unless that step or a later one was accepted before (replay
/// protection); errors as `check_totp_secret`.
pub fn verify_totp_and_mark_step(settings: &mut TwoFactorSettings, secret: &[u8], code: &str, now: Timestamp) -> (r:
    Result<bool, ApiError>)
    ensures
        r is Ok <==> (totp_time(now) is Some && secret@.len() >= 16),
        r is Err ==> r == Err::<bool, ApiError>(ApiError::Internal),
        r matches Ok(b) ==> {
            let step = totp_step(totp_time(now)->0);
            &&& b == (totp_accepts(secret@, code@, totp_time(now)->0) && (old(
                settings,
            ).last_accepted_step matches Some(last) ==> step > last))
            &&& b ==> final(settings)@ == TwoFactorRecord { last_accepted_step: Some(step), ..old(settings)@ }
            &&& !b ==> final(settings)@ == old(settings)@
        },
        r is Err ==> final(settings)@ == old(settings)@,
{
    let valid = match check_totp_secret(secret, settings.user_id, code, now) {
        Ok(b) => b,
        Err(e) => {
            return Err(e);
        },
    };
    let secs = match totp_seconds(now) {
        Some(t) => t,
        None => {
            return Err(ApiError::Internal);
        },
    };
    let accepted = settings.accept_step(valid, secs / TOTP_STEP_SECONDS);
    Ok(accepted)
}

/// Derivation domain of the TOTP secret object id.
pub const TOTP_SECRET_DOMAIN: &'static str = "AEVUM_AUTH_TOTP_SECRET_V1";

/// The object id of a user's TOTP secret: the first eight bytes, big-endian,
/// of SHA-256 over the domain and the user id.
pub open spec fn totp_object_id(user_id: Id) -> int {
    be_u64_prefix(sha256_digest(vstd::utf8::encode_utf8(TOTP_SECRET_DOMAIN@) + be_bytes_u128(user_id)))
}

/// SHA-256 over a domain string followed by the big-endian bytes of an id.
pub fn domain_digest(domain: &str, user_id: Id) -> (r: [u8; 32])
    ensures
        r@ == sha256_digest(vstd::utf8::encode_utf8(domain@) + be_bytes_u128(user_id)),
{
    let mut input: Vec<u8> = Vec::new();
    let d = domain.as_bytes();
    let mut i: usize = 0;
    while i < d.len()
        invariant
            i <= d@.len(),
            input@ == d@.take(i as int),
        decreases d@.len() - i,
    {
        input.push(d[i]);
        assert(d@.take(i as int).push(d@[i as int]) =~= d@.take(i + 1));
        i = i + 1;
    }
    assert(d@.take(d@.len() as int) =~= d@);
    let id_bytes = u128_to_be_bytes(user_id);
    let mut j: usize = 0;
    while j < 16
        invariant
            j <= 16,
            id_bytes@.len() == 16,
            input@ == d@ + id_bytes@.take(j as int),
        decreases 16 - j,
    {
        input.push(id_bytes[j]);
        assert(id_bytes@.take(j as int).push(id_bytes@[j as int]) =~= id_bytes@.take(j + 1));
        j = j + 1;
    }
    assert(id_bytes@.take(16) =~= id_bytes@);
    sha256(input.as_slice())
}

/// Domain-separated object id of TOTP secrets.
pub struct TotpSecretObjectId;

impl TotpSecretObjectId {
    /// Deterministic object id for a user's TOTP secret.
    pub fn for_user(user_id: Id) -> (r: u64)
        ensures
            r == totp_object_id(user_id),
    {
        let digest = domain_digest(TOTP_SECRET_DOMAIN, user_id);
        be_u64_from_prefix(&digest)
    }
}

/// Whether `totp_rs::TOTP::check(code, time_secs)` accepts on a SHA-1
/// `TOTP` made of `secret`, `digits`, `skew` and `step` (the issuer and the
/// account name take no part in the check).
pub uninterp spec fn totp_check_result(
    secret: Seq<u8>,
    digits: usize,
    skew: u8,
    step: u64,
    code: Seq<char>,
    time_secs: u64,
) -> bool;

/// `totp_rs::TOTP::get_url` of a SHA-1 `TOTP` made of `secret`, `digits`,
/// `step`, `issuer` and `account` (the skew is not part of the URL).
pub uninterp spec fn totp_url(secret: Seq<u8>, digits: usize, step: u64, issuer: Seq<char>, account: Seq<char>) -> Seq<
    char,
>;

/// `totp_rs::TOTP::get_secret_base32`: the secret in RFC 4648 base32
/// without padding.
pub uninterp spec fn totp_secret_base32(secret: Seq<u8>) -> Seq<char>;

/// What `totp_rs::TOTP::new` accepts: 6 to 8 digits, a secret of at least
/// 128 bits, and an issuer and an account name without `:`.
pub open spec fn totp_new_accepts(secret: Seq<u8>, digits: usize, issuer: Seq<char>, account: Seq<char>) -> bool {
    &&& 6 <= digits <= 8
    &&& secret.len() >= 16
    &&& !issuer.contains(':')
    &&& !account.contains(':')
}

/// Whether `code` is a TOTP code of `secret` at `time_secs` with this
/// library's parameters (6 digits, skew 1, 30 s steps).
pub open spec fn totp_accepts(secret: Seq<u8>, code: Seq<char>, time_secs: u64) -> bool {
    totp_check_result(secret, TOTP_DIGITS, TOTP_SKEW, TOTP_STEP_SECONDS, code, time_secs)
}

/// The enrollment URI of `secret` for `account` with this library's
/// parameters and issuer.
pub open spec fn totp_uri(secret: Seq<u8>, account: Seq<char>) -> Seq<char> {
    totp_url(secret, TOTP_DIGITS, TOTP_STEP_SECONDS, TOTP_ISSUER@, account)
}

/// What `totp_rs::TOTP::new` accepts with this library's parameters: a
/// secret of at least 128 bits and an account name without `:`.
pub open spec fn totp_config_ok(secret: Seq<u8>, account: Seq<char>) -> bool {
    secret.len() >= 16 && !account.contains(':')
}

/// With this library's digits and issuer, `TOTP::new` accepts exactly what
/// `totp_config_ok` says.
pub proof fn lemma_totp_parameters_accepted(secret: Seq<u8>, account: Seq<char>)
    ensures
        totp_new_accepts(secret, TOTP_DIGITS, TOTP_ISSUER@, account) == totp_config_ok(secret, account),
{
    reveal_strlit("Aevum");
    assert(!TOTP_ISSUER@.contains(':')) by {
        assert forall|i: int| 0 <= i < TOTP_ISSUER@.len() implies TOTP_ISSUER@[i] != ':' by {}
    }
}

/// `totp_rs::TOTP::new(SHA1, digits, skew, step, secret, Some(issuer),
/// account)` then `TOTP::check(code, time_secs)`; `None` when `new`
/// refuses the configuration (`totp_new_accepts`, as its source checks).
/// What `check` answers is named, not stated: it compares the code with the
/// HOTP values of the steps around `time_secs`. The two calls stand in one
/// item because a `TOTP` value is opaque here, so nothing could tie
/// `check`'s answer to the secret across two items. `check` divides by the
/// step, subtracts the skew from the step count and multiplies steps back,
/// so the step is positive and the time lies at least `skew` steps after
/// the epoch and `skew` steps before the end of `u64`.
#[verifier::external_body]
pub(crate) fn totp_check(
    secret: &[u8],
    digits: usize,
    skew: u8,
    step: u64,
    issuer: &str,
    account: &str,
    code: &str,
    time_secs: u64,
) -> (r: Option<bool>)
    requires
        step > 0,
        skew * step <= time_secs,
        time_secs + skew * step <= u64::MAX,
    ensures
        r is Some <==> totp_new_accepts(secret@, digits, issuer@, account@),
        r matches Some(b) ==> b == totp_check_result(secret@, digits, skew, step, code@, time_secs),
{
    match totp_rs::TOTP::new(
        totp_rs::Algorithm::SHA1,
        digits,
        skew,
        step,
        secret.to_vec(),
        Some(issuer.to_string()),
        account.to_string(),
    ) {
        Ok(totp) => Some(totp.check(code, time_secs)),
        Err(_) => None,
    }
}

/// `totp_rs::TOTP::new(SHA1, digits, skew, step, secret, Some(issuer),
/// account)`, then `get_url` and `get_secret_base32`; `None` when `new`
/// refuses the configuration. The URI and the base32 text are named. As
/// for `totp_check`, the calls share one item because the `TOTP` value
/// between them is opaque.
#[verifier::external_body]
pub(crate) fn totp_enrollment(
    secret: &[u8],
    digits: usize,
    skew: u8,
    step: u64,
    issuer: &str,
    account: &str,
) -> (r: Option<(String, String)>)
    ensures
        r is Some <==> totp_new_accepts(secret@, digits, issuer@, account@),
        r matches Some((uri, b32)) ==> uri@ == totp_url(secret@, digits, step, issuer@, account@) && b32@
            == totp_secret_base32(secret@),
{
    match totp_rs::TOTP::new(
        totp_rs::Algorithm::SHA1,
        digits,
        skew,
        step,
        secret.to_vec(),
        Some(issuer.to_string()),
        account.to_string(),
    ) {
        Ok(totp) => Some((totp.get_url(), totp.get_secret_base32())),
        Err(_) => None,
    }
}

/// A fresh TOTP secret from the operating system's random source
/// (`rand::rngs::OsRng`); `None` when the source fails. Nothing is stated
/// of the bytes.
#[verifier::external_body]
pub(crate) fn random_totp_secret() -> (r: Option<[u8; 20]>) {
    let mut bytes = [0u8; 20];
    match rand::RngCore::try_fill_bytes(&mut rand::rngs::OsRng, &mut bytes) {
        Ok(()) => Some(bytes),
        Err(_) => None,
    }
}

} // verus!
