//! User avatar metadata and payload validation.
//!
//! The client-supplied MIME type is never trusted: the format is detected
//! from magic bytes and the image header is decoded to check dimensions.

use vstd::prelude::*;
use crate::clock::{Id, Timestamp};
use crate::auth::two_factor::domain_digest;
use crate::crypto::{
    be_bytes_u128, be_u64_from_prefix, be_u64_prefix, hex_encode, hex_lower, sha256, sha256_digest,
    u128_to_be_bytes,
};
use crate::text::{chars_of, str_eq, string_from_chars};

verus! {

/// Maximum allowed avatar payload size in bytes (2 MiB).
pub const AVATAR_MAX_BYTES: usize = 2097152;

/// Maximum allowed image dimension (width or height) in pixels.
pub const AVATAR_MAX_DIMENSION: u32 = 4096;

/// Supported avatar MIME types.
#[derive(Debug, Clone, Copy, PartialEq, Eq, Structural)]
pub enum AvatarMime {
    Jpeg,
    Png,
    Webp,
}

pub open spec fn mime_name(m: AvatarMime) -> Seq<char> {
    match m {
        AvatarMime::Jpeg => "image/jpeg"@,
        AvatarMime::Png => "image/png"@,
        AvatarMime::Webp => "image/webp"@,
    }
}

/// The MIME type named by an exact Content-Type value.
pub open spec fn mime_of_content_type(value: Seq<char>) -> Option<AvatarMime> {
    if value == "image/jpeg"@ {
        Some(AvatarMime::Jpeg)
    } else if value == "image/png"@ {
        Some(AvatarMime::Png)
    } else if value == "image/webp"@ {
        Some(AvatarMime::Webp)
    } else {
        None
    }
}

pub open spec fn starts_jpeg(d: Seq<u8>) -> bool {
    d[0] == 0xFF && d[1] == 0xD8 && d[2] == 0xFF
}

pub open spec fn starts_png(d: Seq<u8>) -> bool {
    d[0] == 0x89 && d[1] == 0x50 && d[2] == 0x4E && d[3] == 0x47 && d[4] == 0x0D && d[5] == 0x0A
        && d[6] == 0x1A && d[7] == 0x0A
}

/// `RIFF` at 0..4 and `WEBP` at 8..12.
pub open spec fn starts_webp(d: Seq<u8>) -> bool {
    d[0] == 0x52 && d[1] == 0x49 && d[2] == 0x46 && d[3] == 0x46 && d[8] == 0x57 && d[9] == 0x45
        && d[10] == 0x42 && d[11] == 0x50
}

/// The format announced by the magic bytes of a payload of at least 12 bytes.
pub open spec fn detected_mime(d: Seq<u8>) -> Option<AvatarMime> {
    if d.len() < 12 {
        None
    } else if starts_jpeg(d) {
        Some(AvatarMime::Jpeg)
    } else if starts_png(d) {
        Some(AvatarMime::Png)
    } else if starts_webp(d) {
        Some(AvatarMime::Webp)
    } else {
        None
    }
}

pub open spec fn be16(d: Seq<u8>, i: int) -> int {
    d[i] * 256 + d[i + 1]
}

pub open spec fn be32(d: Seq<u8>, i: int) -> int {
    d[i] * 0x1000000 + d[i + 1] * 0x10000 + d[i + 2] * 0x100 + d[i + 3]
}

pub open spec fn le16(d: Seq<u8>, i: int) -> int {
    d[i] + d[i + 1] * 256
}

pub open spec fn le24(d: Seq<u8>, i: int) -> int {
    d[i] + d[i + 1] * 256 + d[i + 2] * 0x10000
}

pub open spec fn le32(d: Seq<u8>, i: int) -> int {
    d[i] + d[i + 1] * 256 + d[i + 2] * 0x10000 + d[i + 3] * 0x1000000
}

/// PNG: the IHDR chunk at 12..16 holds width (16..20) and height (20..24).
pub open spec fn png_dims(d: Seq<u8>) -> Option<(int, int)> {
    if d.len() < 24 {
        None
    } else if !(d[12] == 0x49 && d[13] == 0x48 && d[14] == 0x44 && d[15] == 0x52) {
        None
    } else {
        Some((be32(d, 16), be32(d, 20)))
    }
}

/// A start-of-frame marker: 0xC0..=0xCF other than DHT, JPG and DAC.
pub open spec fn is_sof_marker(m: u8) -> bool {
    0xC0 <= m <= 0xCF && m != 0xC4 && m != 0xC8 && m != 0xCC
}

/// JPEG: walk the marker segments from position `i` until a start-of-frame
/// marker gives (width, height).
pub open spec fn jpeg_scan(d: Seq<u8>, i: int) -> Option<(int, int)>
    decreases (if i < d.len() {
        d.len() - i
    } else {
        0
    }),
{
    if i < 0 || !(i + 9 < d.len()) {
        None
    } else if d[i] != 0xFF {
        jpeg_scan(d, i + 1)
    } else if is_sof_marker(d[i + 1]) {
        Some((be16(d, i + 7), be16(d, i + 5)))
    } else if be16(d, i + 2) < 2 {
        None
    } else {
        jpeg_scan(d, i + 2 + be16(d, i + 2))
    }
}

pub open spec fn jpeg_dims(d: Seq<u8>) -> Option<(int, int)> {
    jpeg_scan(d, 2)
}

/// WebP: lossy (`VP8 `), lossless (`VP8L`) and extended (`VP8X`) headers.
pub open spec fn webp_dims(d: Seq<u8>) -> Option<(int, int)> {
    if d.len() < 30 {
        None
    } else if d[12] == 0x56 && d[13] == 0x50 && d[14] == 0x38 && d[15] == 0x20 {
        Some((le16(d, 26) % 0x4000, le16(d, 28) % 0x4000))
    } else if d[12] == 0x56 && d[13] == 0x50 && d[14] == 0x38 && d[15] == 0x4C {
        Some((le32(d, 21) % 0x4000 + 1, (le32(d, 21) / 0x4000) % 0x4000 + 1))
    } else if d[12] == 0x56 && d[13] == 0x50 && d[14] == 0x38 && d[15] == 0x58 {
        Some((le24(d, 24) + 1, le24(d, 27) + 1))
    } else {
        None
    }
}

pub open spec fn dims_of(m: AvatarMime, d: Seq<u8>) -> Option<(int, int)> {
    match m {
        AvatarMime::Jpeg => jpeg_dims(d),
        AvatarMime::Png => png_dims(d),
        AvatarMime::Webp => webp_dims(d),
    }
}

/// Outcome of the dimension check for a detected format.
pub open spec fn dimensions_check(m: AvatarMime, d: Seq<u8>) -> Result<(), AvatarValidationError> {
    match dims_of(m, d) {
        None => Err(AvatarValidationError::InvalidImage),
        Some((w, h)) => if w == 0 || h == 0 || w > AVATAR_MAX_DIMENSION || h
            > AVATAR_MAX_DIMENSION {
            Err(AvatarValidationError::InvalidImage)
        } else {
            Ok(())
        },
    }
}

/// Outcome of the full upload validation.
pub open spec fn avatar_check(content_type: Seq<char>, d: Seq<u8>) -> Result<
    AvatarMime,
    AvatarValidationError,
> {
    if d.len() == 0 {
        Err(AvatarValidationError::EmptyPayload)
    } else if d.len() > AVATAR_MAX_BYTES {
        Err(AvatarValidationError::TooLarge)
    } else {
        match mime_of_content_type(content_type) {
            None => Err(AvatarValidationError::UnsupportedContentType),
            Some(declared) => match detected_mime(d) {
                None => Err(AvatarValidationError::UnsupportedFormat),
                Some(detected) => if declared != detected {
                    Err(AvatarValidationError::ContentTypeMismatch)
                } else {
                    match dimensions_check(detected, d) {
                        Err(e) => Err(e),
                        Ok(()) => Ok(detected),
                    }
                },
            },
        }
    }
}

impl AvatarMime {
    /// HTTP Content-Type string for this MIME type.
    pub fn as_str(self) -> (r: &'static str)
        ensures
            r@ == mime_name(self),
    {
        match self {
            AvatarMime::Jpeg => "image/jpeg",
            AvatarMime::Png => "image/png",
            AvatarMime::Webp => "image/webp",
        }
    }

    /// Parse from an HTTP Content-Type value; only exact matches are accepted.
    pub fn from_content_type(value: &str) -> (r: Option<AvatarMime>)
        ensures
            r == mime_of_content_type(value@),
    {
        if str_eq(value, "image/jpeg") {
            Some(AvatarMime::Jpeg)
        } else if str_eq(value, "image/png") {
            Some(AvatarMime::Png)
        } else if str_eq(value, "image/webp") {
            Some(AvatarMime::Webp)
        } else {
            None
        }
    }

    /// Detect the format from magic bytes; this is the authoritative check.
    pub fn detect_from_bytes(data: &[u8]) -> (r: Option<AvatarMime>)
        ensures
            r == detected_mime(data@),
    {
        if data.len() < 12 {
            return None;
        }
        if data[0] == 0xFF && data[1] == 0xD8 && data[2] == 0xFF {
            return Some(AvatarMime::Jpeg);
        }
        if data[0] == 0x89 && data[1] == 0x50 && data[2] == 0x4E && data[3] == 0x47 && data[4]
            == 0x0D && data[5] == 0x0A && data[6] == 0x1A && data[7] == 0x0A {
            return Some(AvatarMime::Png);
        }
        if data[0] == 0x52 && data[1] == 0x49 && data[2] == 0x46 && data[3] == 0x46 && data[8]
            == 0x57 && data[9] == 0x45 && data[10] == 0x42 && data[11] == 0x50 {
            return Some(AvatarMime::Webp);
        }
        None
    }
}

/// Persisted avatar metadata.
#[derive(Debug, Clone)]
pub struct Avatar {
    pub user_id: Id,
    pub mime_type: AvatarMime,
    pub size: u64,
    pub content_hash: [u8; 32],
    pub blob_key: String,
    pub uploaded_at: Timestamp,
}

/// Domain separator of the object id that binds an avatar's encryption
/// envelope to its user.
pub const AVATAR_OBJECT_ID_DOMAIN: &'static str = "AEVUM_AUTH_AVATAR_BLOB_OBJECT_ID_V1";

/// The object id of a user's avatar payload: the first eight bytes,
/// big-endian, of SHA-256 over the domain and the user id.
pub open spec fn avatar_object_id(user_id: Id) -> int {
    be_u64_prefix(sha256_digest(vstd::utf8::encode_utf8(AVATAR_OBJECT_ID_DOMAIN@) + be_bytes_u128(user_id)))
}

/// Domain separator of the avatar blob key derivation.
pub const AVATAR_BLOB_DOMAIN: &'static str = "AEVUM_AUTH_AVATAR_BLOB_V1";

/// Prefix of every avatar blob key.
pub const AVATAR_BLOB_PREFIX: &'static str = "platform:auth:avatar_blob:";

/// The blob storage key of a user's avatar.
pub open spec fn blob_key_spec(user_id: Id) -> Seq<char> {
    AVATAR_BLOB_PREFIX@ + hex_lower(
        sha256_digest(vstd::utf8::encode_utf8(AVATAR_BLOB_DOMAIN@) + be_bytes_u128(user_id)),
    )
}

impl Avatar {
    /// An identical copy.
    pub fn copy(&self) -> (r: Self)
        ensures
            r == *self,
    {
        Avatar {
            user_id: self.user_id,
            mime_type: self.mime_type,
            size: self.size,
            content_hash: self.content_hash,
            blob_key: self.blob_key.clone(),
            uploaded_at: self.uploaded_at,
        }
    }

    /// Deterministic, domain-separated blob storage key for a user's avatar.
    pub fn blob_key_for(user_id: Id) -> (r: String)
        ensures
            r@ == blob_key_spec(user_id),
    {
        let mut input: Vec<u8> = Vec::new();
        let domain = AVATAR_BLOB_DOMAIN.as_bytes();
        let mut i: usize = 0;
        while i < domain.len()
            invariant
                domain@ == vstd::utf8::encode_utf8(AVATAR_BLOB_DOMAIN@),
                i <= domain@.len(),
                input@ == domain@.take(i as int),
            decreases domain@.len() - i,
        {
            input.push(domain[i]);
            assert(domain@.take(i as int).push(domain@[i as int]) =~= domain@.take(i + 1));
            i = i + 1;
        }
        assert(domain@.take(domain@.len() as int) =~= domain@);
        let id_bytes = u128_to_be_bytes(user_id);
        let mut j: usize = 0;
        while j < 16
            invariant
                j <= 16,
                id_bytes@.len() == 16,
                input@ == domain@ + id_bytes@.take(j as int),
            decreases 16 - j,
        {
            input.push(id_bytes[j]);
            assert(id_bytes@.take(j as int).push(id_bytes@[j as int]) =~= id_bytes@.take(j + 1));
            j = j + 1;
        }
        assert(id_bytes@.take(16) =~= id_bytes@);
        let digest = sha256(input.as_slice());
        let hex = hex_encode(&digest);
        let mut out = chars_of(AVATAR_BLOB_PREFIX);
        let hex_chars = chars_of(hex.as_str());
        let mut k: usize = 0;
        let ghost prefix = out@;
        while k < hex_chars.len()
            invariant
                k <= hex_chars@.len(),
                out@ == prefix + hex_chars@.take(k as int),
            decreases hex_chars@.len() - k,
        {
            out.push(hex_chars[k]);
            assert(hex_chars@.take(k as int).push(hex_chars@[k as int]) =~= hex_chars@.take(
                k + 1,
            ));
            k = k + 1;
        }
        assert(hex_chars@.take(hex_chars@.len() as int) =~= hex_chars@);
        string_from_chars(out.as_slice())
    }

    /// Deterministic object id for a user's avatar payload.
    pub fn object_id_for(user_id: Id) -> (r: u64)
        ensures
            r == avatar_object_id(user_id),
    {
        let digest = domain_digest(AVATAR_OBJECT_ID_DOMAIN, user_id);
        be_u64_from_prefix(&digest)
    }

    /// SHA-256 hash of the payload.
    pub fn hash_bytes(data: &[u8]) -> (r: [u8; 32])
        ensures
            r@ == sha256_digest(data@),
    {
        sha256(data)
    }
}

/// Validation errors for avatar upload.
#[derive(Debug, Clone, Copy, PartialEq, Eq, Structural)]
pub enum AvatarValidationError {
    /// Payload is empty.
    EmptyPayload,
    /// Payload exceeds AVATAR_MAX_BYTES.
    TooLarge,
    /// Content-Type is not in the allow-list.
    UnsupportedContentType,
    /// Magic bytes do not match a supported format.
    UnsupportedFormat,
    /// Client Content-Type does not match the detected format.
    ContentTypeMismatch,
    /// Image decoding failed or dimensions exceeded limits.
    InvalidImage,
}

/// The little-endian word at offset 21 splits as `x == 0x4000 * q + r`
/// with `r` its low 14 bits, and `q % 0x4000` its next 14 bits.
proof fn lemma_vp8l_fields(d: Seq<u8>)
    requires
        d.len() >= 25,
    ensures
        le32(d, 21) % 0x4000 == d[21] + (d[22] % 64) * 256,
        (le32(d, 21) / 0x4000) % 0x4000 == d[22] / 64 + d[23] * 4 + (d[24] % 16) * 1024,
{
    let x = le32(d, 21);
    let r = d[21] + (d[22] % 64) * 256;
    let q = d[22] / 64 + d[23] * 4 + d[24] * 1024;
    assert(d[22] == 64 * (d[22] / 64) + d[22] % 64);
    assert(x == q * 0x4000 + r);
    vstd::arithmetic::div_mod::lemma_fundamental_div_mod_converse(x, 0x4000, q, r);
    let h = d[22] / 64 + d[23] * 4 + (d[24] % 16) * 1024;
    assert(d[24] == 16 * (d[24] / 16) + d[24] % 16);
    assert(q == (d[24] / 16) * 0x4000 + h);
    vstd::arithmetic::div_mod::lemma_fundamental_div_mod_converse(q, 0x4000, (d[24] / 16) as int, h);
}

/// A lossless WebP (`VP8L`) header gives the width as 1 plus bits 0..14
/// and the height as 1 plus bits 14..28 of the little-endian word at
/// offset 21; bits 28..32 (the alpha flag and the version) play no part.
/// Such an image passes the dimension check exactly when both are at most
/// 4096, and an upload declared `image/webp` with the RIFF/WEBP magic is
/// then accepted as WebP.
pub proof fn law_webp_lossless_dimensions(d: Seq<u8>)
    requires
        30 <= d.len(),
        d[12] == 0x56 && d[13] == 0x50 && d[14] == 0x38 && d[15] == 0x4C,
    ensures
        ({
            let w = d[21] + (d[22] % 64) * 256 + 1;
            let h = d[22] / 64 + d[23] * 4 + (d[24] % 16) * 1024 + 1;
            let expected = if w <= 4096 && h <= 4096 {
                Ok::<(), AvatarValidationError>(())
            } else {
                Err::<(), AvatarValidationError>(AvatarValidationError::InvalidImage)
            };
            &&& dimensions_check(AvatarMime::Webp, d) == expected
            &&& d.len() <= 2097152 && d[0] == 0x52 && d[1] == 0x49 && d[2] == 0x46 && d[3] == 0x46
                && d[8] == 0x57 && d[9] == 0x45 && d[10] == 0x42 && d[11] == 0x50 ==> avatar_check(
                "image/webp"@,
                d,
            ) == (if w <= 4096 && h <= 4096 {
                Ok::<AvatarMime, AvatarValidationError>(AvatarMime::Webp)
            } else {
                Err::<AvatarMime, AvatarValidationError>(AvatarValidationError::InvalidImage)
            })
        }),
{
    lemma_vp8l_fields(d);
    lemma_content_types_distinct();
}

/// A JPEG whose first segment after the start-of-image marker is a frame
/// header, marked 0xC0..=0xCF other than 0xC4 (DHT), 0xC8 (JPG) and 0xCC
/// (DAC) (baseline, extended, progressive, lossless and their
/// arithmetic-coded forms), gives its height from bytes 7..9 and its width
/// from bytes 9..11, big-endian. It passes the dimension check exactly when
/// both lie in 1..=4096, and an upload declared `image/jpeg` is then
/// accepted as JPEG.
pub proof fn law_jpeg_frame_header_dimensions(d: Seq<u8>)
    requires
        12 <= d.len(),
        d[2] == 0xFF,
        0xC0 <= d[3] <= 0xCF,
        d[3] != 0xC4 && d[3] != 0xC8 && d[3] != 0xCC,
    ensures
        ({
            let h = d[7] * 256 + d[8];
            let w = d[9] * 256 + d[10];
            let ok = 1 <= w <= 4096 && 1 <= h <= 4096;
            &&& dimensions_check(AvatarMime::Jpeg, d) == if ok {
                Ok::<(), AvatarValidationError>(())
            } else {
                Err::<(), AvatarValidationError>(AvatarValidationError::InvalidImage)
            }
            &&& d.len() <= 2097152 && d[0] == 0xFF && d[1] == 0xD8 ==> avatar_check("image/jpeg"@, d)
                == if ok {
                Ok::<AvatarMime, AvatarValidationError>(AvatarMime::Jpeg)
            } else {
                Err::<AvatarMime, AvatarValidationError>(AvatarValidationError::InvalidImage)
            }
        }),
{
    lemma_content_types_distinct();
}

/// The marker walk from position `i + off` of `d` agrees with the walk from
/// `i` of `e` when `e` is `d` with `off` bytes cut out before position
/// `2 + off`.
proof fn lemma_jpeg_scan_shift(d: Seq<u8>, e: Seq<u8>, off: int, i: int)
    requires
        off >= 0,
        i >= 2,
        e.len() + off == d.len(),
        forall|j: int| 2 <= j < e.len() ==> #[trigger] e[j] == d[j + off],
    ensures
        jpeg_scan(d, i + off) == jpeg_scan(e, i),
    decreases (if i < e.len() {
        e.len() - i
    } else {
        0
    }),
{
    if !(i + 9 < e.len()) {
    } else {
        assert(e[i] == d[i + off]);
        assert(e[i + 1] == d[i + 1 + off]);
        assert(e[i + 2] == d[i + 2 + off]);
        assert(e[i + 3] == d[i + 3 + off]);
        assert(e[i + 5] == d[i + 5 + off]);
        assert(e[i + 6] == d[i + 6 + off]);
        assert(e[i + 7] == d[i + 7 + off]);
        assert(e[i + 8] == d[i + 8 + off]);
        if e[i] != 0xFF {
            lemma_jpeg_scan_shift(d, e, off, i + 1);
        } else if is_sof_marker(e[i + 1]) {
        } else if be16(e, i + 2) < 2 {
        } else {
            lemma_jpeg_scan_shift(d, e, off, i + 2 + be16(e, i + 2));
        }
    }
}

/// A segment before the frame header that is not itself one (marked
/// `0xFF m` with `m` outside the frame markers, with a length field of at
/// least 2) is skipped by its length: the dimension check of the payload
/// equals that of the payload with the segment cut out.
pub proof fn law_jpeg_skips_other_segments(d: Seq<u8>)
    requires
        12 <= d.len(),
        d[2] == 0xFF,
        !(0xC0 <= d[3] <= 0xCF && d[3] != 0xC4 && d[3] != 0xC8 && d[3] != 0xCC),
        d[4] * 256 + d[5] >= 2,
        4 + (d[4] * 256 + d[5]) <= d.len(),
    ensures
        dimensions_check(AvatarMime::Jpeg, d) == dimensions_check(
            AvatarMime::Jpeg,
            d.take(2) + d.skip(2 + 2 + (d[4] * 256 + d[5])),
        ),
{
    let len = d[4] * 256 + d[5];
    let e = d.take(2) + d.skip(2 + 2 + len);
    let off = 2 + len;
    assert forall|j: int| 2 <= j < e.len() implies #[trigger] e[j] == d[j + off] by {}
    lemma_jpeg_scan_shift(d, e, off, 2);
    assert(jpeg_scan(d, 2) == jpeg_scan(d, 2 + off));
}

/// A lossy WebP (`VP8 `) header gives the width and the height as the low
/// 14 bits of the little-endian 16-bit words at offsets 26 and 28 (the top
/// two bits are the scaling code); an extended one (`VP8X`) gives them as 1
/// plus the little-endian 24-bit words at offsets 24 and 27. Such an image
/// passes the dimension check exactly when both lie in 1..=4096.
pub proof fn law_webp_lossy_and_extended_dimensions(d: Seq<u8>)
    requires
        30 <= d.len(),
        d[12] == 0x56 && d[13] == 0x50 && d[14] == 0x38,
        d[15] == 0x20 || d[15] == 0x58,
    ensures
        ({
            let w = if d[15] == 0x20 {
                d[26] + (d[27] % 64) * 256
            } else {
                d[24] + d[25] * 256 + d[26] * 65536 + 1
            };
            let h = if d[15] == 0x20 {
                d[28] + (d[29] % 64) * 256
            } else {
                d[27] + d[28] * 256 + d[29] * 65536 + 1
            };
            dimensions_check(AvatarMime::Webp, d) == if 1 <= w <= 4096 && 1 <= h <= 4096 {
                Ok::<(), AvatarValidationError>(())
            } else {
                Err::<(), AvatarValidationError>(AvatarValidationError::InvalidImage)
            }
        }),
{
    if d[15] == 0x20 {
        assert(d[27] == 64 * (d[27] / 64) + d[27] % 64);
        assert(d[29] == 64 * (d[29] / 64) + d[29] % 64);
        vstd::arithmetic::div_mod::lemma_fundamental_div_mod_converse(
            le16(d, 26),
            0x4000,
            (d[27] / 64) as int,
            d[26] + (d[27] % 64) * 256,
        );
        vstd::arithmetic::div_mod::lemma_fundamental_div_mod_converse(
            le16(d, 28),
            0x4000,
            (d[29] / 64) as int,
            d[28] + (d[29] % 64) * 256,
        );
    }
}

/// A PNG whose first chunk is `IHDR` gives its width and height as the
/// big-endian 32-bit words at offsets 16 and 20, and passes the dimension
/// check exactly when both lie in 1..=4096.
pub proof fn law_png_dimensions(d: Seq<u8>)
    requires
        24 <= d.len(),
        d[12] == 0x49 && d[13] == 0x48 && d[14] == 0x44 && d[15] == 0x52,
    ensures
        ({
            let w = d[16] * 0x1000000 + d[17] * 0x10000 + d[18] * 0x100 + d[19];
            let h = d[20] * 0x1000000 + d[21] * 0x10000 + d[22] * 0x100 + d[23];
            dimensions_check(AvatarMime::Png, d) == if 1 <= w <= 4096 && 1 <= h <= 4096 {
                Ok::<(), AvatarValidationError>(())
            } else {
                Err::<(), AvatarValidationError>(AvatarValidationError::InvalidImage)
            }
        }),
{
}

/// The three accepted Content-Type values name their own formats.
proof fn lemma_content_types_distinct()
    ensures
        mime_of_content_type("image/jpeg"@) == Some(AvatarMime::Jpeg),
        mime_of_content_type("image/png"@) == Some(AvatarMime::Png),
        mime_of_content_type("image/webp"@) == Some(AvatarMime::Webp),
{
    reveal_strlit("image/jpeg");
    reveal_strlit("image/png");
    reveal_strlit("image/webp");
    assert("image/png"@[6] != "image/jpeg"@[6]);
    assert("image/webp"@[6] != "image/jpeg"@[6]);
    assert("image/webp"@[6] != "image/png"@[6]);
}

/// Validate an uploaded avatar payload: non-empty, at most 2 MiB, declared
/// type allowed, magic bytes recognised and matching, dimensions in range.
pub fn validate_avatar(declared_content_type: &str, data: &[u8]) -> (r: Result<
    AvatarMime,
    AvatarValidationError,
>)
    ensures
        r == avatar_check(declared_content_type@, data@),
{
    if data.len() == 0 {
        return Err(AvatarValidationError::EmptyPayload);
    }
    if data.len() > AVATAR_MAX_BYTES {
        return Err(AvatarValidationError::TooLarge);
    }
    let declared = match AvatarMime::from_content_type(declared_content_type) {
        Some(m) => m,
        None => return Err(AvatarValidationError::UnsupportedContentType),
    };
    let detected = match AvatarMime::detect_from_bytes(data) {
        Some(m) => m,
        None => return Err(AvatarValidationError::UnsupportedFormat),
    };
    if declared != detected {
        return Err(AvatarValidationError::ContentTypeMismatch);
    }
    validate_dimensions(detected, data)?;
    Ok(detected)
}

/// Decode the image header and enforce the dimension limits.
pub fn validate_dimensions(mime: AvatarMime, data: &[u8]) -> (r: Result<(), AvatarValidationError>)
    ensures
        r == dimensions_check(mime, data@),
{
    let dims = match mime {
        AvatarMime::Jpeg => jpeg_dimensions(data),
        AvatarMime::Png => png_dimensions(data),
        AvatarMime::Webp => webp_dimensions(data),
    };
    match dims {
        None => Err(AvatarValidationError::InvalidImage),
        Some((width, height)) => {
            if width == 0 || height == 0 {
                return Err(AvatarValidationError::InvalidImage);
            }
            if width > AVATAR_MAX_DIMENSION || height > AVATAR_MAX_DIMENSION {
                return Err(AvatarValidationError::InvalidImage);
            }
            Ok(())
        },
    }
}

fn png_dimensions(data: &[u8]) -> (r: Option<(u32, u32)>)
    ensures
        match r {
            Some((w, h)) => png_dims(data@) == Some((w as int, h as int)),
            None => png_dims(data@) is None,
        },
{
    if data.len() < 24 {
        return None;
    }
    if !(data[12] == 0x49 && data[13] == 0x48 && data[14] == 0x44 && data[15] == 0x52) {
        return None;
    }
    let width = read_be32(data, 16);
    let height = read_be32(data, 20);
    Some((width, height))
}

fn read_be32(d: &[u8], i: usize) -> (r: u32)
    requires
        i + 4 <= d@.len(),
    ensures
        r == be32(d@, i as int),
{
    (d[i] as u32) * 0x1000000 + (d[i + 1] as u32) * 0x10000 + (d[i + 2] as u32) * 0x100 + (d[i
        + 3] as u32)
}

fn read_be16(d: &[u8], i: usize) -> (r: u32)
    requires
        i + 2 <= d@.len(),
    ensures
        r == be16(d@, i as int),
        r < 0x10000,
{
    (d[i] as u32) * 256 + (d[i + 1] as u32)
}

fn read_le16(d: &[u8], i: usize) -> (r: u32)
    requires
        i + 2 <= d@.len(),
    ensures
        r == le16(d@, i as int),
{
    (d[i] as u32) + (d[i + 1] as u32) * 256
}

fn read_le24(d: &[u8], i: usize) -> (r: u32)
    requires
        i + 3 <= d@.len(),
    ensures
        r == le24(d@, i as int),
        r < 0x1000000,
{
    (d[i] as u32) + (d[i + 1] as u32) * 256 + (d[i + 2] as u32) * 0x10000
}

fn read_le32(d: &[u8], i: usize) -> (r: u32)
    requires
        i + 4 <= d@.len(),
    ensures
        r == le32(d@, i as int),
{
    (d[i] as u32) + (d[i + 1] as u32) * 256 + (d[i + 2] as u32) * 0x10000 + (d[i + 3] as u32)
        * 0x1000000
}

fn jpeg_dimensions(data: &[u8]) -> (r: Option<(u32, u32)>)
    ensures
        match r {
            Some((w, h)) => jpeg_dims(data@) == Some((w as int, h as int)),
            None => jpeg_dims(data@) is None,
        },
{
    let mut i: usize = 2;
    while i < data.len() && data.len() - i > 9
        invariant
            i >= 2,
            jpeg_scan(data@, i as int) == jpeg_dims(data@),
        decreases data@.len() - i,
    {
        if data[i] != 0xFF {
            i = i + 1;
            continue;
        }
        let marker = data[i + 1];
        let is_sof = 0xC0 <= marker && marker <= 0xCF && marker != 0xC4 && marker != 0xC8
            && marker != 0xCC;
        if is_sof {
            let height = read_be16(data, i + 5);
            let width = read_be16(data, i + 7);
            return Some((width, height));
        }
        let segment_length = read_be16(data, i + 2) as usize;
        if segment_length < 2 {
            return None;
        }
        if segment_length + 11 >= data.len() - i {
            // The next segment would start past the last position that can
            // hold a marker: the scan ends without a frame header.
            assert(jpeg_scan(data@, i + 2 + segment_length) is None);
            return None;
        }
        i = i + 2 + segment_length;
    }
    None
}

fn webp_dimensions(data: &[u8]) -> (r: Option<(u32, u32)>)
    ensures
        match r {
            Some((w, h)) => webp_dims(data@) == Some((w as int, h as int)),
            None => webp_dims(data@) is None,
        },
{
    if data.len() < 30 {
        return None;
    }
    if data[12] == 0x56 && data[13] == 0x50 && data[14] == 0x38 && data[15] == 0x20 {
        let w = read_le16(data, 26) % 0x4000;
        let h = read_le16(data, 28) % 0x4000;
        return Some((w, h));
    }
    if data[12] == 0x56 && data[13] == 0x50 && data[14] == 0x38 && data[15] == 0x4C {
        let bits = read_le32(data, 21);
        let w = bits % 0x4000 + 1;
        let h = (bits / 0x4000) % 0x4000 + 1;
        return Some((w, h));
    }
    if data[12] == 0x56 && data[13] == 0x50 && data[14] == 0x38 && data[15] == 0x58 {
        let w = read_le24(data, 24) + 1;
        let h = read_le24(data, 27) + 1;
        return Some((w, h));
    }
    None
}

} // verus!
