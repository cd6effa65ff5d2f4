//! Web tokens: `<b64u(ident)>.<b64u(exp)>.<signature>`, where the signature
//! is the URL-safe base64 HMAC-SHA-512, under the token key, of the first
//! two parts joined by `.` followed by the user's token salt, and `exp` is
//! the RFC 3339 expiration instant.

use crate::b64::{b64u, b64u_decode_to_string, b64u_encode, text_of_b64u};
use crate::model::UtcTime;
use crate::pwd::scheme::scheme_01::{hmac_sha512, hmac_sha512_digest};
use crate::text::{chars_of, concat_bytes, str_eq, string_append, string_from_chars, string_push};
use crate::utc::{format_time, parse_utc, rfc3339_instant, rfc3339_text, rfc3339_writable};
use crate::uuid::Uuid;
use vstd::prelude::*;
use vstd::utf8::encode_utf8;

verus! {

/// Errors of token handling.
#[derive(Debug, Clone, Copy, PartialEq, Eq, Structural)]
pub enum Error {
    HmacFailNewFromSlice,
    InvalidFormat,
    CannotDecodeIdent,
    CannotDecodeExp,
    SignatureNotMatching,
    ExpNotIso,
    Expired,
}

impl Error {
    /// The name of the error, as its debug form prints it.
    pub fn as_str(&self) -> (s: &'static str) {
        match self {
            Error::HmacFailNewFromSlice => "HmacFailNewFromSlice",
            Error::InvalidFormat => "InvalidFormat",
            Error::CannotDecodeIdent => "CannotDecodeIdent",
            Error::CannotDecodeExp => "CannotDecodeExp",
            Error::SignatureNotMatching => "SignatureNotMatching",
            Error::ExpNotIso => "ExpNotIso",
            Error::Expired => "Expired",
        }
    }
}

/// A web token: who it is for, until when, and its signature.
#[derive(Debug, Clone)]
pub struct Token {
    /// The identifier (user name).
    pub ident: String,
    /// The expiration instant, RFC 3339.
    pub exp: String,
    /// The signature, URL-safe base64.
    pub sign_b64u: String,
}

/// Text whose UTF-8 bytes fit the base64 encoder's length bound.
pub open spec fn fits_b64u(s: Seq<char>) -> bool {
    encode_utf8(s).len() <= usize::MAX / 2
}

// region:    --- Text form

/// The index of the first `.` of `s` at or after `i`, or the length.
pub open spec fn dot_at_or_after(s: Seq<char>, i: int) -> int
    decreases s.len() - i,
{
    if 0 <= i < s.len() && s[i] != '.' {
        dot_at_or_after(s, i + 1)
    } else {
        i
    }
}

/// The three `.`-separated fields of `s`, when it has exactly two dots.
pub open spec fn token_fields(s: Seq<char>) -> Option<(Seq<char>, Seq<char>, Seq<char>)> {
    let i = dot_at_or_after(s, 0);
    if i >= s.len() {
        None
    } else {
        let j = dot_at_or_after(s, i + 1);
        if j >= s.len() || dot_at_or_after(s, j + 1) < s.len() {
            None
        } else {
            Some((s.subrange(0, i), s.subrange(i + 1, j), s.subrange(j + 1, s.len() as int)))
        }
    }
}

/// What reading the token text `s` gives: its identifier, expiration and
/// signature, or the first error met.
pub open spec fn parse_token_spec(s: Seq<char>) -> Result<(Seq<char>, Seq<char>, Seq<char>), Error> {
    match token_fields(s) {
        None => Err(Error::InvalidFormat),
        Some((a, b, c)) => match text_of_b64u(a) {
            None => Err(Error::CannotDecodeIdent),
            Some(ident) => match text_of_b64u(b) {
                None => Err(Error::CannotDecodeExp),
                Some(exp) => Ok((ident, exp, c)),
            },
        },
    }
}

/// The text form of a token.
pub open spec fn token_text(ident: Seq<char>, exp: Seq<char>, sign: Seq<char>) -> Seq<char> {
    b64u(encode_utf8(ident)) + seq!['.'] + b64u(encode_utf8(exp)) + seq!['.'] + sign
}

proof fn lemma_dot_bounds(s: Seq<char>, i: int)
    requires
        0 <= i <= s.len(),
    ensures
        i <= dot_at_or_after(s, i) <= s.len(),
    decreases s.len() - i,
{
    if i < s.len() && s[i] != '.' {
        lemma_dot_bounds(s, i + 1);
    }
}

/// The index of the first `.` of `cs` at or after `i`, or the length.
fn find_dot(cs: &Vec<char>, i: usize) -> (k: usize)
    requires
        i <= cs@.len(),
    ensures
        k == dot_at_or_after(cs@, i as int),
{
    let mut k = i;
    while k < cs.len() && cs[k] != '.'
        invariant
            i <= k <= cs@.len(),
            dot_at_or_after(cs@, i as int) == dot_at_or_after(cs@, k as int),
        decreases cs@.len() - k,
    {
        k = k + 1;
    }
    k
}

/// Reads a token from its text form: `InvalidFormat` unless it has exactly
/// three `.`-separated fields, `CannotDecodeIdent` / `CannotDecodeExp` when
/// the first / second field is not the URL-safe base64 of UTF-8 text.
pub fn parse_token(token_str: &str) -> (r: Result<Token, Error>)
    ensures
        match parse_token_spec(token_str@) {
            Ok((ident, exp, sign)) => r matches Ok(t) && t.ident@ == ident && t.exp@ == exp
                && t.sign_b64u@ == sign,
            Err(e) => r == Err::<Token, Error>(e),
        },
{
    let cs = chars_of(token_str);
    let i = find_dot(&cs, 0);
    if i >= cs.len() {
        return Err(Error::InvalidFormat);
    }
    let j = find_dot(&cs, i + 1);
    if j >= cs.len() {
        return Err(Error::InvalidFormat);
    }
    proof {
        lemma_dot_bounds(cs@, j + 1);
    }
    let k = find_dot(&cs, j + 1);
    if k < cs.len() {
        return Err(Error::InvalidFormat);
    }
    proof {
        lemma_dot_bounds(cs@, i + 1);
    }
    let ident_b64u = string_from_chars(&cs, 0, i);
    let exp_b64u = string_from_chars(&cs, i + 1, j);
    let sign_b64u = string_from_chars(&cs, j + 1, cs.len());
    let ident = match b64u_decode_to_string(ident_b64u.as_str()) {
        Some(s) => s,
        None => {
            return Err(Error::CannotDecodeIdent);
        },
    };
    let exp = match b64u_decode_to_string(exp_b64u.as_str()) {
        Some(s) => s,
        None => {
            return Err(Error::CannotDecodeExp);
        },
    };
    Ok(Token { ident, exp, sign_b64u })
}

/// The text form of a token: `<b64u(ident)>.<b64u(exp)>.<signature>`.
pub fn token_to_string(token: &Token) -> (s: String)
    requires
        fits_b64u(token.ident@),
        fits_b64u(token.exp@),
    ensures
        s@ == token_text(token.ident@, token.exp@, token.sign_b64u@),
{
    let mut s = b64u_encode(token.ident.as_str().as_bytes());
    string_push(&mut s, '.');
    let exp_b64u = b64u_encode(token.exp.as_str().as_bytes());
    string_append(&mut s, exp_b64u.as_str());
    string_push(&mut s, '.');
    string_append(&mut s, token.sign_b64u.as_str());
    assert(s@ =~= token_text(token.ident@, token.exp@, token.sign_b64u@));
    s
}

// endregion: --- Text form

// region:    --- Signature

/// The signature of a token for `ident` and `exp` with the user's token
/// salt, under the token key.
pub open spec fn token_sign(ident: Seq<char>, exp: Seq<char>, salt: Seq<u8>, key: Seq<u8>) -> Seq<char> {
    let content = b64u(encode_utf8(ident)) + seq!['.'] + b64u(encode_utf8(exp));
    b64u(hmac_sha512(key, encode_utf8(content) + salt))
}

/// Signs `ident` and `exp` with the salt and key.
pub fn token_sign_into_b64u(ident: &str, exp: &str, salt: &Uuid, key: &[u8]) -> (r: Result<
    String,
    Error,
>)
    requires
        fits_b64u(ident@),
        fits_b64u(exp@),
    ensures
        r matches Ok(s) && s@ == token_sign(ident@, exp@, salt.bytes@, key@),
{
    let mut content = b64u_encode(ident.as_bytes());
    string_push(&mut content, '.');
    let exp_b64u = b64u_encode(exp.as_bytes());
    string_append(&mut content, exp_b64u.as_str());
    assert(content@ =~= b64u(encode_utf8(ident@)) + seq!['.'] + b64u(encode_utf8(exp@)));
    let msg = concat_bytes(content.as_str().as_bytes(), salt.as_bytes());
    match hmac_sha512_digest(key, msg.as_slice()) {
        Some(mac) => Ok(b64u_encode(mac.as_slice())),
        None => Err(Error::HmacFailNewFromSlice),
    }
}

// endregion: --- Signature

// region:    --- Generate and validate

/// A token for `ident` that expires `duration_nanos` after `now`, signed
/// with the salt and key.
pub fn generate_token(ident: &str, now: UtcTime, duration_nanos: i64, salt: &Uuid, key: &[u8]) -> (r:
    Result<Token, Error>)
    requires
        fits_b64u(ident@),
        rfc3339_writable(now.unix_nanos + duration_nanos),
    ensures
        r matches Ok(t) && {
            &&& t.ident@ == ident@
            &&& t.exp@ == rfc3339_text(now.unix_nanos + duration_nanos)
            &&& rfc3339_instant(t.exp@) == Some(now.unix_nanos + duration_nanos)
            &&& t.sign_b64u@ == token_sign(ident@, t.exp@, salt.bytes@, key@)
            &&& fits_b64u(t.exp@)
        },
{
    let exp = format_time(UtcTime { unix_nanos: now.unix_nanos + duration_nanos as i128 });
    let sign_b64u = token_sign_into_b64u(ident, exp.as_str(), salt, key)?;
    Ok(Token { ident: ident.to_owned(), exp, sign_b64u })
}

/// Whether the token's signature is the one for its identifier and
/// expiration, and the expiration is not before `now`.
pub open spec fn token_valid(token_ident: Seq<char>, token_exp: Seq<char>, token_sign_b64u: Seq<char>, salt: Seq<u8>, key: Seq<u8>, now: int) -> Result<(), Error> {
    if token_sign_b64u != token_sign(token_ident, token_exp, salt, key) {
        Err(Error::SignatureNotMatching)
    } else {
        match rfc3339_instant(token_exp) {
            None => Err(Error::ExpNotIso),
            Some(exp) => if exp < now {
                Err(Error::Expired)
            } else {
                Ok(())
            },
        }
    }
}

/// Checks the token's signature against the salt and key, then that it has
/// not expired at `now`.
pub fn validate_token_sign_and_exp(token: &Token, salt: &Uuid, key: &[u8], now: UtcTime) -> (r:
    Result<(), Error>)
    requires
        fits_b64u(token.ident@),
        fits_b64u(token.exp@),
    ensures
        r == token_valid(token.ident@, token.exp@, token.sign_b64u@, salt.bytes@, key@, now.unix_nanos as int),
{
    let new_sign = token_sign_into_b64u(token.ident.as_str(), token.exp.as_str(), salt, key)?;
    if !str_eq(new_sign.as_str(), token.sign_b64u.as_str()) {
        return Err(Error::SignatureNotMatching);
    }
    let exp = match parse_utc(token.exp.as_str()) {
        Ok(t) => t,
        Err(_) => {
            return Err(Error::ExpNotIso);
        },
    };
    if exp.unix_nanos < now.unix_nanos {
        return Err(Error::Expired);
    }
    Ok(())
}

// endregion: --- Generate and validate

// region:    --- Laws

/// `s` holds no `.`.
pub open spec fn no_dot(s: Seq<char>) -> bool {
    forall|k: int| 0 <= k < s.len() ==> s[k] != '.'
}

proof fn lemma_dot_at(s: Seq<char>, i: int, j: int)
    requires
        0 <= i <= j <= s.len(),
        forall|k: int| i <= k < j ==> #[trigger] s[k] != '.',
        j == s.len() || s[j] == '.',
    ensures
        dot_at_or_after(s, i) == j,
    decreases j - i,
{
    if i < j {
        lemma_dot_at(s, i + 1, j);
    }
}

/// Three fields without dots, joined by dots, split back into themselves.
pub proof fn lemma_token_fields(a: Seq<char>, b: Seq<char>, c: Seq<char>)
    requires
        no_dot(a),
        no_dot(b),
        no_dot(c),
    ensures
        token_fields(a + seq!['.'] + b + seq!['.'] + c) == Some((a, b, c)),
{
    let s = a + seq!['.'] + b + seq!['.'] + c;
    let i = a.len() as int;
    let j = i + 1 + b.len();
    assert forall|k: int| 0 <= k < i implies #[trigger] s[k] != '.' by {
        assert(s[k] == a[k]);
    }
    lemma_dot_at(s, 0, i);
    assert forall|k: int| i + 1 <= k < j implies #[trigger] s[k] != '.' by {
        assert(s[k] == b[k - i - 1]);
    }
    lemma_dot_at(s, i + 1, j);
    assert forall|k: int| j + 1 <= k < s.len() implies #[trigger] s[k] != '.' by {
        assert(s[k] == c[k - j - 1]);
    }
    lemma_dot_at(s, j + 1, s.len() as int);
    assert(s.subrange(0, i) =~= a);
    assert(s.subrange(i + 1, j) =~= b);
    assert(s.subrange(j + 1, s.len() as int) =~= c);
}

proof fn lemma_b64u_no_dot(data: Seq<u8>)
    ensures
        no_dot(b64u(data)),
{
    crate::b64::lemma_b64_encode_symbols(true, false, data);
    assert forall|k: int| 0 <= k < b64u(data).len() implies b64u(data)[k] != '.' by {
        assert(crate::b64::is_b64_symbol(b64u(data)[k]));
    }
}

/// Reading back the text of a token gives its identifier, expiration and
/// signature, for every signature without a `.` (a URL-safe base64
/// signature has none).
pub proof fn lemma_parse_token_text(ident: Seq<char>, exp: Seq<char>, sign: Seq<char>)
    requires
        no_dot(sign),
    ensures
        parse_token_spec(token_text(ident, exp, sign)) == Ok::<_, Error>((ident, exp, sign)),
{
    lemma_b64u_no_dot(encode_utf8(ident));
    lemma_b64u_no_dot(encode_utf8(exp));
    lemma_token_fields(b64u(encode_utf8(ident)), b64u(encode_utf8(exp)), sign);
    assert(token_text(ident, exp, sign) =~= b64u(encode_utf8(ident)) + seq!['.'] + b64u(
        encode_utf8(exp),
    ) + seq!['.'] + sign);
    crate::b64::lemma_text_of_b64u(ident);
    crate::b64::lemma_text_of_b64u(exp);
}

/// The text of a signed token reads back as that token.
pub proof fn lemma_parse_signed_token(ident: Seq<char>, exp: Seq<char>, salt: Seq<u8>, key: Seq<u8>)
    ensures
        parse_token_spec(token_text(ident, exp, token_sign(ident, exp, salt, key))) == Ok::<
            _,
            Error,
        >((ident, exp, token_sign(ident, exp, salt, key))),
{
    let content = b64u(encode_utf8(ident)) + seq!['.'] + b64u(encode_utf8(exp));
    lemma_b64u_no_dot(hmac_sha512(key, encode_utf8(content) + salt));
    lemma_parse_token_text(ident, exp, token_sign(ident, exp, salt, key));
}

// endregion: --- Laws

} // verus!
