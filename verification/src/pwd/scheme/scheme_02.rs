//! Scheme "02": Argon2id (version 0x13, default parameters) keyed with the
//! password key as secret, rendered as a PHC string.

use super::{Error, Scheme};
use crate::b64::b64_encode;
use crate::pwd::{no_line_break, valid_pwd_key, ContentToHash};
use argon2::password_hash::{PasswordHash, PasswordHasher, PasswordVerifier, Salt, SaltString};
use argon2::{Algorithm, Argon2, Params, Version};
use vstd::prelude::*;
use vstd::utf8::encode_utf8;

verus! {

/// The salt string that Argon2 receives for the salt bytes: standard base64
/// without padding.
pub open spec fn salt_b64(salt: Seq<u8>) -> Seq<char> {
    b64_encode(false, false, salt)
}

/// Encodes `bytes` as an Argon2 salt string.
///
/// Calls `argon2::password_hash::SaltString::encode_b64`; the contract claims
/// what its source shows: the text is the standard base64 encoding without
/// padding, and the call fails exactly when that text is longer than the
/// 64 characters a salt may hold.
#[verifier::external_body]
fn salt_string_encode_b64(bytes: &[u8]) -> (r: Option<String>)
    ensures
        r is Some <==> salt_b64(bytes@).len() <= 64,
        r matches Some(s) ==> s@ == salt_b64(bytes@),
{
    match SaltString::encode_b64(bytes) {
        Ok(salt) => Some(salt.as_str().to_string()),
        Err(_) => None,
    }
}

/// The PHC string that Argon2id (version 0x13, default parameters) computes
/// for `password` with `secret` and the base64 salt `salt`, or `None` when
/// the salt is rejected or hashing fails.
pub uninterp spec fn argon2_phc(secret: Seq<u8>, password: Seq<u8>, salt: Seq<char>) -> Option<Seq<char>>;

/// Whether `phc` reads as a PHC password-hash string.
pub uninterp spec fn phc_is_readable(phc: Seq<char>) -> bool;

/// Whether Argon2 keyed with `secret`, run with the algorithm, version,
/// parameters and salt that `phc` records, reproduces the hash in `phc`
/// for `password`.
pub uninterp spec fn argon2_accepts(secret: Seq<u8>, password: Seq<u8>, phc: Seq<char>) -> bool;

/// Hashes `password` with Argon2id keyed with `secret`.
///
/// Calls `Argon2::new_with_secret` (Argon2id, version 0x13, default
/// parameters), `Salt::from_b64`, `PasswordHasher::hash_password` and the
/// `Display` of the resulting `PasswordHash`. The result is named
/// `argon2_phc`; beside the name the contract claims that a PHC string holds
/// no line break (its fields are identifiers, decimals and base64). The
/// secret is at most `u32::MAX` bytes, the limit of `new_with_secret`.
#[verifier::external_body]
fn argon2_hash_password(secret: &[u8], password: &[u8], salt: &str) -> (r: Option<String>)
    requires
        valid_pwd_key(secret@),
    ensures
        r matches Some(s) ==> argon2_phc(secret@, password@, salt@) == Some(s@),
        r is None ==> argon2_phc(secret@, password@, salt@) is None,
        r matches Some(s) ==> no_line_break(s@),
{
    let argon2 = Argon2::new_with_secret(secret, Algorithm::Argon2id, Version::V0x13, Params::default()).ok()?;
    let salt = Salt::from_b64(salt).ok()?;
    argon2.hash_password(password, salt).ok().map(|hash| hash.to_string())
}

/// Checks `password` against the PHC string `phc` with Argon2 keyed with
/// `secret`.
///
/// Calls `PasswordHash::new` (`None` when `phc` is not readable) and
/// `PasswordVerifier::verify_password` of an `Argon2::new_with_secret`
/// instance. The contract names the two outcomes and claims one fact from the
/// source of `verify_password`: it recomputes the hash with the algorithm,
/// version, parameters and salt recorded in `phc`, so a string that
/// `argon2_hash_password` produced for the same secret and password is
/// accepted.
#[verifier::external_body]
fn argon2_verify_password(secret: &[u8], password: &[u8], phc: &str) -> (r: Option<bool>)
    requires
        valid_pwd_key(secret@),
    ensures
        r is None <==> !phc_is_readable(phc@),
        r matches Some(ok) ==> ok == argon2_accepts(secret@, password@, phc@),
        argon2_hashed(secret@, password@, phc@) ==> r == Some(true),
{
    let argon2 = Argon2::new_with_secret(secret, Algorithm::Argon2id, Version::V0x13, Params::default()).ok()?;
    let parsed = PasswordHash::new(phc).ok()?;
    Some(argon2.verify_password(password, &parsed).is_ok())
}

/// The scheme "02" hash of `to_hash` under `key`.
pub open spec fn scheme_02_hash(key: Seq<u8>, to_hash: ContentToHash) -> Result<Seq<char>, Error> {
    match argon2_phc(key, encode_utf8(to_hash.content@), salt_b64(to_hash.salt.bytes@)) {
        Some(phc) => Ok(phc),
        None => Err(Error::Hash),
    }
}

/// `phc` is what Argon2 computed for `password` with `secret`, for some salt.
pub open spec fn argon2_hashed(secret: Seq<u8>, password: Seq<u8>, phc: Seq<char>) -> bool {
    exists|salt: Seq<char>| argon2_phc(secret, password, salt) == Some(phc)
}

/// The scheme "02" validation of `pwd_ref` for `to_hash` under `key`: a PHC
/// string that Argon2 computed for the same key and content is accepted;
/// otherwise an unreadable one fails with `Hash`, and a readable one is
/// accepted exactly when Argon2 reproduces its hash.
pub open spec fn scheme_02_validate(key: Seq<u8>, to_hash: ContentToHash, pwd_ref: Seq<char>) -> Result<(), Error> {
    if argon2_hashed(key, encode_utf8(to_hash.content@), pwd_ref) {
        Ok(())
    } else if !phc_is_readable(pwd_ref) {
        Err(Error::Hash)
    } else if argon2_accepts(key, encode_utf8(to_hash.content@), pwd_ref) {
        Ok(())
    } else {
        Err(Error::PwdValidate)
    }
}

/// Base64 of 16 bytes without padding is 22 characters.
proof fn lemma_salt_b64_len(salt: Seq<u8>)
    requires
        salt.len() == 16,
    ensures
        salt_b64(salt).len() == 22,
{
    let s1 = salt.subrange(3, 16);
    let s2 = s1.subrange(3, 13);
    let s3 = s2.subrange(3, 10);
    let s4 = s3.subrange(3, 7);
    let s5 = s4.subrange(3, 4);
    assert(b64_encode(false, false, s5).len() == 2);
    assert(b64_encode(false, false, s4).len() == 6);
    assert(b64_encode(false, false, s3).len() == 10);
    assert(b64_encode(false, false, s2).len() == 14);
    assert(b64_encode(false, false, s1).len() == 18);
}

/// The Argon2id password scheme.
pub struct Scheme02;

impl Scheme for Scheme02 {
    open spec fn spec_hash(&self, key: Seq<u8>, to_hash: ContentToHash) -> Result<Seq<char>, Error> {
        scheme_02_hash(key, to_hash)
    }

    open spec fn spec_validate(
        &self,
        key: Seq<u8>,
        to_hash: ContentToHash,
        pwd_ref: Seq<char>,
    ) -> Result<(), Error> {
        scheme_02_validate(key, to_hash, pwd_ref)
    }

    fn hash(&self, key: &[u8], to_hash: &ContentToHash) -> (r: Result<String, Error>) {
        proof {
            lemma_salt_b64_len(to_hash.salt.bytes@);
        }
        let salt = match salt_string_encode_b64(to_hash.salt.as_bytes()) {
            Some(salt) => salt,
            None => return Err(Error::Salt),
        };
        match argon2_hash_password(key, to_hash.content.as_str().as_bytes(), salt.as_str()) {
            Some(phc) => Ok(phc),
            None => Err(Error::Hash),
        }
    }

    fn validate(&self, key: &[u8], to_hash: &ContentToHash, pwd_ref: &str) -> (r: Result<(), Error>) {
        match argon2_verify_password(key, to_hash.content.as_str().as_bytes(), pwd_ref) {
            None => Err(Error::Hash),
            Some(true) => Ok(()),
            Some(false) => Err(Error::PwdValidate),
        }
    }
}

} // verus!
