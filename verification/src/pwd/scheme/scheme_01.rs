//! Scheme "01": HMAC-SHA-512 of the content followed by the salt bytes,
//! rendered in URL-safe base64 without padding.

use super::{Error, Scheme};
use crate::b64::{b64u, b64u_encode, is_b64_symbol, lemma_b64_encode_symbols};
use crate::pwd::ContentToHash;
use crate::text::concat_bytes;
use hmac::{Hmac, Mac};
use sha2::Sha512;
use vstd::prelude::*;
use vstd::utf8::encode_utf8;

verus! {

/// HMAC-SHA-512 (RFC 2104 with SHA-512) of `msg` under `key`: 64 bytes.
pub uninterp spec fn hmac_sha512(key: Seq<u8>, msg: Seq<u8>) -> Seq<u8>;

/// Computes HMAC-SHA-512 of `msg` under `key`.
///
/// Calls `Hmac::<Sha512>::new_from_slice`, `update` and `finalize` of the
/// `hmac` crate. The contract names the digest `hmac_sha512(key, msg)` and
/// claims two facts from the source: `new_from_slice` accepts keys of every
/// length (longer keys are hashed first), so the result is always `Some`, and
/// the digest is 64 bytes long.
#[verifier::external_body]
pub(crate) fn hmac_sha512_digest(key: &[u8], msg: &[u8]) -> (mac: Option<Vec<u8>>)
    ensures
        mac is Some,
        mac matches Some(m) ==> m@ == hmac_sha512(key@, msg@) && m@.len() == 64,
{
    let mut hmac = Hmac::<Sha512>::new_from_slice(key).ok()?;
    hmac.update(msg);
    Some(hmac.finalize().into_bytes().to_vec())
}

/// The bytes that scheme "01" authenticates: the UTF-8 content, then the
/// 16 salt bytes.
pub open spec fn hash_input(to_hash: ContentToHash) -> Seq<u8> {
    encode_utf8(to_hash.content@) + to_hash.salt.bytes@
}

/// The scheme "01" hash of `to_hash` under `key`.
pub open spec fn scheme_01_hash(key: Seq<u8>, to_hash: ContentToHash) -> Seq<char> {
    b64u(hmac_sha512(key, hash_input(to_hash)))
}

/// The URL-safe base64 (no padding) HMAC-SHA-512 of `to_hash` under `key`.
pub fn hmac_sha512_hash(key: &[u8], to_hash: &ContentToHash) -> (r: Result<String, Error>)
    ensures
        r matches Ok(s) && s@ == scheme_01_hash(key@, *to_hash),
{
    let msg = concat_bytes(to_hash.content.as_str().as_bytes(), to_hash.salt.as_bytes());
    match hmac_sha512_digest(key, msg.as_slice()) {
        Some(mac) => Ok(b64u_encode(mac.as_slice())),
        None => Err(Error::Key),
    }
}

/// Hashing the same content under the same key twice gives the same hash.
pub proof fn lemma_scheme_01_hash_deterministic(
    key: Seq<u8>,
    to_hash: ContentToHash,
    first: String,
    second: String,
)
    requires
        first@ == scheme_01_hash(key, to_hash),
        second@ == scheme_01_hash(key, to_hash),
    ensures
        first@ == second@,
{
}

/// URL-safe base64 holds no line break.
pub proof fn lemma_b64u_no_line_break(data: Seq<u8>)
    ensures
        crate::pwd::no_line_break(b64u(data)),
{
    lemma_b64_encode_symbols(true, false, data);
    assert forall|i: int| 0 <= i < b64u(data).len() implies b64u(data)[i] != '\n' by {
        assert(is_b64_symbol(b64u(data)[i]));
    }
}

/// The HMAC-SHA-512 password scheme.
pub struct Scheme01;

/// Content and salt given as text, as the first version of scheme "01" took
/// them.
pub struct EncryptContent {
    /// Clear content.
    pub content: String,
    /// Clear salt.
    pub salt: String,
}

impl Scheme01 {
    /// The URL-safe base64 (no padding) HMAC-SHA-512, under `key`, of the
    /// UTF-8 content followed by the UTF-8 salt.
    pub fn encrypt(&self, key: &[u8], enc_content: &EncryptContent) -> (r: Result<
        String,
        crate::pwd::Error,
    >)
        ensures
            r matches Ok(s) && s@ == b64u(
                hmac_sha512(key@, encode_utf8(enc_content.content@) + encode_utf8(enc_content.salt@)),
            ),
    {
        let msg = concat_bytes(enc_content.content.as_str().as_bytes(), enc_content.salt.as_str().as_bytes());
        match hmac_sha512_digest(key, msg.as_slice()) {
            Some(mac) => Ok(b64u_encode(mac.as_slice())),
            None => Err(crate::pwd::Error::KeyFailHmac),
        }
    }
}

impl Scheme for Scheme01 {
    open spec fn spec_hash(&self, key: Seq<u8>, to_hash: ContentToHash) -> Result<Seq<char>, Error> {
        Ok(scheme_01_hash(key, to_hash))
    }

    open spec fn spec_validate(
        &self,
        key: Seq<u8>,
        to_hash: ContentToHash,
        pwd_ref: Seq<char>,
    ) -> Result<(), Error> {
        if scheme_01_hash(key, to_hash) == pwd_ref {
            Ok(())
        } else {
            Err(Error::PwdValidate)
        }
    }

    fn hash(&self, key: &[u8], to_hash: &ContentToHash) -> (r: Result<String, Error>) {
        let r = hmac_sha512_hash(key, to_hash);
        proof {
            lemma_b64u_no_line_break(hmac_sha512(key@, hash_input(*to_hash)));
        }
        r
    }

    fn validate(&self, key: &[u8], to_hash: &ContentToHash, pwd_ref: &str) -> (r: Result<(), Error>) {
        let pwd_new = self.hash(key, to_hash)?;
        if crate::text::str_eq(pwd_new.as_str(), pwd_ref) {
            Ok(())
        } else {
            Err(Error::PwdValidate)
        }
    }
}

} // verus!
