//! Hashing, encoding, constant-time comparison and randomness. The
//! primitives come from the `sha2`, `hmac`, `base64`, `subtle` and `rand`
//! crates; what they compute is stated here and the library builds on it.

use vstd::prelude::*;

use base64::Engine;
use hmac::Mac;
use rand::Rng;
use rand::RngCore;
use sha2::Digest;
use subtle::ConstantTimeEq;

verus! {

/// The SHA-256 digest of a byte string.
pub uninterp spec fn sha256_of(data: Seq<u8>) -> Seq<u8>;

/// The HMAC-SHA256 tag of `data` under `key`.
pub uninterp spec fn hmac_sha256_of(key: Seq<u8>, data: Seq<u8>) -> Seq<u8>;

/// One character of the URL-safe base64 alphabet (RFC 4648 §5).
pub open spec fn b64url_char(v: int) -> char {
    if v < 26 {
        ((65 + v) as u32) as char
    } else if v < 52 {
        ((97 + v - 26) as u32) as char
    } else if v < 62 {
        ((48 + v - 52) as u32) as char
    } else if v == 62 {
        '-'
    } else {
        '_'
    }
}

/// URL-safe base64 without padding (RFC 4648 §5, `=` omitted).
pub open spec fn base64url(b: Seq<u8>) -> Seq<char>
    decreases b.len(),
{
    if b.len() == 0 {
        Seq::empty()
    } else {
        let b0 = b[0] as int;
        let b1 = if b.len() > 1 { b[1] as int } else { 0 };
        let b2 = if b.len() > 2 { b[2] as int } else { 0 };
        if b.len() == 1 {
            seq![b64url_char(b0 / 4), b64url_char((b0 % 4) * 16)]
        } else if b.len() == 2 {
            seq![
                b64url_char(b0 / 4),
                b64url_char((b0 % 4) * 16 + b1 / 16),
                b64url_char((b1 % 16) * 4),
            ]
        } else {
            seq![
                b64url_char(b0 / 4),
                b64url_char((b0 % 4) * 16 + b1 / 16),
                b64url_char((b1 % 16) * 4 + b2 / 64),
                b64url_char(b2 % 64),
            ] + base64url(b.subrange(3, b.len() as int))
        }
    }
}

/// Encoding a non-empty byte string gives a non-empty text.
pub proof fn lemma_base64url_nonempty(b: Seq<u8>)
    requires
        b.len() > 0,
    ensures
        base64url(b).len() > 0,
{
}

/// `sha2::Sha256::digest`: the SHA-256 digest, 32 bytes long.
#[verifier::external_body]
pub(crate) fn sha256_digest(data: &[u8]) -> (r: Vec<u8>)
    ensures
        r@ == sha256_of(data@),
        r@.len() == 32,
{
    sha2::Sha256::digest(data).to_vec()
}

/// `hmac::Hmac<Sha256>` keyed with `key` over `data`: the 32-byte tag.
/// `new_from_slice` accepts keys of every length for HMAC.
#[verifier::external_body]
pub(crate) fn hmac_sha256(key: &[u8], data: &[u8]) -> (r: Vec<u8>)
    ensures
        r@ == hmac_sha256_of(key@, data@),
        r@.len() == 32,
{
    match hmac::Hmac::<sha2::Sha256>::new_from_slice(key) {
        Ok(mut mac) => {
            mac.update(data);
            mac.finalize().into_bytes().to_vec()
        },
        Err(_) => Vec::new(),
    }
}

/// `base64::engine::general_purpose::URL_SAFE_NO_PAD.encode`.
#[verifier::external_body]
pub(crate) fn base64url_encode(data: &[u8]) -> (r: String)
    ensures
        r@ == base64url(data@),
{
    base64::engine::general_purpose::URL_SAFE_NO_PAD.encode(data)
}

/// `base64::engine::general_purpose::URL_SAFE_NO_PAD.decode`. That engine
/// refuses padding and non-zero trailing bits, so it succeeds exactly on
/// the strings that are the encoding of some byte string, and gives back
/// that byte string: decoding undoes encoding.
#[verifier::external_body]
pub(crate) fn base64url_decode(s: &str) -> (r: Option<Vec<u8>>)
    ensures
        r matches Some(b) ==> base64url(b@) == s@,
        r is None ==> forall|b: Seq<u8>| base64url(b) != s@,
        r matches Some(d) ==> forall|b: Seq<u8>| #[trigger] base64url(b) == s@ ==> b == d@,
{
    base64::engine::general_purpose::URL_SAFE_NO_PAD.decode(s).ok()
}

/// `subtle::ConstantTimeEq::ct_eq` on byte slices: equal lengths and equal
/// bytes, compared without an early exit on content.
#[verifier::external_body]
pub(crate) fn ct_eq(a: &[u8], b: &[u8]) -> (r: bool)
    ensures
        r == (a@ == b@),
{
    bool::from(a.ct_eq(b))
}

/// `n` bytes from the thread-local CSPRNG (`rand::thread_rng().fill_bytes`).
#[verifier::external_body]
pub(crate) fn random_bytes(n: usize) -> (r: Vec<u8>)
    ensures
        r@.len() == n,
{
    let mut v = vec![0u8; n];
    rand::thread_rng().fill_bytes(&mut v);
    v
}

/// A uniformly random index below `bound` (`rand::thread_rng().gen_range`).
#[verifier::external_body]
pub(crate) fn random_below(bound: usize) -> (r: usize)
    requires
        bound > 0,
    ensures
        r < bound,
{
    rand::thread_rng().gen_range(0..bound)
}

/// A fresh random (version 4) UUID (`uuid::Uuid::new_v4`), as its 128 bits.
#[verifier::external_body]
pub(crate) fn new_uuid() -> (r: u128) {
    uuid::Uuid::new_v4().as_u128()
}

/// The URL-safe base64 text of the SHA-256 digest of a string's UTF-8 bytes.
pub open spec fn sha256_b64(s: Seq<char>) -> Seq<char> {
    base64url(sha256_of(vstd::utf8::encode_utf8(s)))
}

/// SHA-256 of the UTF-8 bytes of `s`, rendered in URL-safe base64.
pub fn sha256_base64_url(s: &str) -> (r: String)
    ensures
        r@ == sha256_b64(s@),
        r@.len() > 0,
{
    let digest = sha256_digest(s.as_bytes());
    proof { lemma_base64url_nonempty(digest@); }
    base64url_encode(digest.as_slice())
}

/// A fresh random token: `n` random bytes in URL-safe base64.
pub fn random_url_safe(n: usize) -> (r: String)
    ensures
        exists|b: Seq<u8>| b.len() == n && r@ == base64url(b),
{
    let b = random_bytes(n);
    let r = base64url_encode(b.as_slice());
    assert(b@.len() == n && r@ == base64url(b@));
    r
}

/// The text a token is kept at rest as: the URL-safe base64 HMAC-SHA256
/// tag of its UTF-8 bytes under `key`.
pub open spec fn keyed_hash(key: Seq<u8>, raw: Seq<char>) -> Seq<char> {
    base64url(hmac_sha256_of(key, vstd::utf8::encode_utf8(raw)))
}

/// An HMAC-SHA256 keyed hasher for opaque tokens kept at rest.
pub struct HmacSha256 {
    key: Vec<u8>,
}

impl HmacSha256 {
    pub closed spec fn key(&self) -> Seq<u8> {
        self.key@
    }

    pub fn new(key: Vec<u8>) -> (r: HmacSha256)
        ensures
            r.key() == key@,
    {
        HmacSha256 { key }
    }

    /// The URL-safe base64 text of the HMAC tag of `raw`'s UTF-8 bytes.
    pub fn compute(&self, raw: &str) -> (r: String)
        ensures
            r@ == keyed_hash(self.key(), raw@),
    {
        let tag = hmac_sha256(self.key.as_slice(), raw.as_bytes());
        base64url_encode(tag.as_slice())
    }
}

} // verus!
