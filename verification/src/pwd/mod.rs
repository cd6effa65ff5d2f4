//! Multi-scheme password hashing and validation.
//!
//! A stored password reads `#<scheme name>#<scheme hash>`. `hash_pwd` hashes
//! with the default scheme; `validate_pwd` reads the scheme name back, lets
//! that scheme validate, and reports whether the scheme is outdated.

mod error;
pub mod scheme;

pub use self::error::Error;

use crate::pwd::scheme::{
    get_scheme, name_02, scheme_named, Scheme, SchemeStatus, DEFAULT_SCHEME,
};
use crate::text::{chars_of, str_eq, string_append, string_from_chars, string_push};
use crate::uuid::Uuid;
use vstd::prelude::*;

verus! {

/// The clear content to hash, with its salt.
pub struct ContentToHash {
    /// Clear content.
    pub content: String,
    /// Clear salt.
    pub salt: Uuid,
}

/// A password key that every scheme accepts: Argon2 takes secrets of at
/// most `u32::MAX` bytes.
pub open spec fn valid_pwd_key(key: Seq<u8>) -> bool {
    key.len() <= 0xFFFF_FFFF
}

/// Whether every scheme accepts the key (see `valid_pwd_key`).
pub fn valid_key_len(key: &[u8]) -> (r: bool)
    ensures
        r == valid_pwd_key(key@),
{
    key.len() <= 0xFFFF_FFFF
}

// region:    --- Reading `#<scheme>#<hash>`

/// Whether `c` belongs to the regex class `\w` (Unicode word characters:
/// Alphabetic, Join_Control, Decimal_Number, Mark, Connector_Punctuation).
pub uninterp spec fn is_word_character(c: char) -> bool;

/// The regex class `\w`: `[0-9A-Za-z_]` among ASCII characters, the Unicode
/// word characters beyond.
pub open spec fn is_word(c: char) -> bool {
    if (c as u32) < 128 {
        is_ascii_word(c)
    } else {
        is_word_character(c)
    }
}

/// `s` holds no line break.
pub open spec fn no_line_break(s: Seq<char>) -> bool {
    forall|i: int| 0 <= i < s.len() ==> s[i] != '\n'
}

/// The ASCII word characters `[0-9A-Za-z_]`.
pub open spec fn is_ascii_word(c: char) -> bool {
    ('0' <= c && c <= '9') || ('A' <= c && c <= 'Z') || c == '_' || ('a' <= c && c <= 'z')
}

/// Tells whether `c` is a word character in the sense of the regex class `\w`.
///
/// Calls `regex_syntax::is_word_character`, the table that the `regex`
/// engine uses for `\w`. For characters beyond ASCII the result is named
/// `is_word_character`; for ASCII characters the contract states what the
/// source shows: exactly `[0-9A-Za-z_]`.
#[verifier::external_body]
fn is_word_char(c: char) -> (b: bool)
    ensures
        (c as u32) >= 128 ==> b == is_word_character(c),
        (c as u32) < 128 ==> b == is_ascii_word(c),
{
    regex_syntax::is_word_character(c)
}

/// The end of the run of word characters of `s` that starts at `i`.
pub open spec fn word_end(s: Seq<char>, i: int) -> int
    decreases s.len() - i,
{
    if 0 <= i < s.len() && is_word(s[i]) {
        word_end(s, i + 1)
    } else {
        i
    }
}

/// The index of the first line break of `s` at or after `i`, or the length.
pub open spec fn line_end(s: Seq<char>, i: int) -> int
    decreases s.len() - i,
{
    if 0 <= i < s.len() && s[i] != '\n' {
        line_end(s, i + 1)
    } else {
        i
    }
}

/// What the pattern `^#(\w+)#(.*)` captures in `s`: the scheme name (a
/// non-empty run of word characters between the first two `#`) and the
/// rest of the first line after the second `#`.
pub open spec fn parse_pwd_spec(s: Seq<char>) -> Option<(Seq<char>, Seq<char>)> {
    if s.len() > 0 && s[0] == '#' {
        let k = word_end(s, 1);
        if 1 < k < s.len() && s[k] == '#' {
            Some((s.subrange(1, k), s.subrange(k + 1, line_end(s, k + 1))))
        } else {
            None
        }
    } else {
        None
    }
}

/// The stored form of a password hashed with scheme `name`.
pub open spec fn pwd_with_scheme(name: Seq<char>, raw: Seq<char>) -> Seq<char> {
    seq!['#'] + name + seq!['#'] + raw
}

/// A stored password split into its scheme name and scheme hash.
pub struct PwdParts {
    /// The scheme only (e.g. "01").
    pub scheme_name: String,
    /// The hash, without the scheme name.
    pub raw: String,
}

proof fn lemma_word_end_bounds(s: Seq<char>, i: int)
    requires
        0 <= i <= s.len(),
    ensures
        i <= word_end(s, i) <= s.len(),
        forall|j: int| i <= j < word_end(s, i) ==> is_word(#[trigger] s[j]),
        word_end(s, i) < s.len() ==> !is_word(s[word_end(s, i)]),
    decreases s.len() - i,
{
    if i < s.len() && is_word(s[i]) {
        lemma_word_end_bounds(s, i + 1);
    }
}

proof fn lemma_line_end_bounds(s: Seq<char>, i: int)
    requires
        0 <= i <= s.len(),
    ensures
        i <= line_end(s, i) <= s.len(),
        forall|j: int| i <= j < line_end(s, i) ==> #[trigger] s[j] != '\n',
        line_end(s, i) < s.len() ==> s[line_end(s, i)] == '\n',
    decreases s.len() - i,
{
    if i < s.len() && s[i] != '\n' {
        lemma_line_end_bounds(s, i + 1);
    }
}

/// Splits `#<scheme>#<hash>` into its parts; `SchemeNotInContent` when the
/// text does not have that shape.
pub fn parse_pwd(pwd_with_scheme: &str) -> (r: Result<PwdParts, Error>)
    ensures
        parse_pwd_spec(pwd_with_scheme@) matches Some((n, raw)) ==> (r matches Ok(p)
            && p.scheme_name@ == n && p.raw@ == raw),
        parse_pwd_spec(pwd_with_scheme@) is None ==> r matches Err(Error::SchemeNotInContent),
{
    let cs = chars_of(pwd_with_scheme);
    let n = cs.len();
    if n == 0 || cs[0] != '#' {
        return Err(Error::SchemeNotInContent);
    }
    let mut k: usize = 1;
    while k < n && is_word_char(cs[k])
        invariant
            1 <= k <= n,
            n == cs@.len(),
            word_end(cs@, 1) == word_end(cs@, k as int),
        decreases n - k,
    {
        k = k + 1;
    }
    if k == 1 || k >= n || cs[k] != '#' {
        return Err(Error::SchemeNotInContent);
    }
    let mut m: usize = k + 1;
    while m < n && cs[m] != '\n'
        invariant
            k + 1 <= m <= n,
            n == cs@.len(),
            line_end(cs@, k + 1) == line_end(cs@, m as int),
        decreases n - m,
    {
        m = m + 1;
    }
    Ok(PwdParts { scheme_name: string_from_chars(&cs, 1, k), raw: string_from_chars(&cs, k + 1, m) })
}

// endregion: --- Reading `#<scheme>#<hash>`

// region:    --- Hashing and validation

/// What `hash_for_scheme` returns for scheme `name`.
pub open spec fn hash_for_scheme_post(
    key: Seq<u8>,
    name: Seq<char>,
    to_hash: ContentToHash,
    r: Result<String, Error>,
) -> bool {
    match scheme_named(name) {
        None => r matches Err(Error::SchemeUnknown(u)) && u@ == name,
        Some(s) => match s.spec_hash(key, to_hash) {
            Ok(raw) => r matches Ok(out) && out@ == pwd_with_scheme(name, raw) && no_line_break(
                raw,
            ),
            Err(e) => r matches Err(Error::Scheme { scheme_name, scheme_error })
                && scheme_name@ == name && scheme_error == e,
        },
    }
}

/// What `validate_for_scheme` returns for scheme `name`.
pub open spec fn validate_for_scheme_post(
    key: Seq<u8>,
    name: Seq<char>,
    to_hash: ContentToHash,
    raw: Seq<char>,
    r: Result<(), Error>,
) -> bool {
    match scheme_named(name) {
        None => r matches Err(Error::SchemeUnknown(u)) && u@ == name,
        Some(s) => match s.spec_validate(key, to_hash, raw) {
            Ok(()) => r is Ok,
            Err(e) => r matches Err(Error::Scheme { scheme_name, scheme_error })
                && scheme_name@ == name && scheme_error == e,
        },
    }
}

/// What `validate_pwd` returns for the stored password `pwd`.
pub open spec fn validate_pwd_post(
    key: Seq<u8>,
    to_hash: ContentToHash,
    pwd: Seq<char>,
    r: Result<SchemeStatus, Error>,
) -> bool {
    match parse_pwd_spec(pwd) {
        None => r matches Err(Error::SchemeNotInContent),
        Some((name, raw)) => match scheme_named(name) {
            None => r matches Err(Error::SchemeUnknown(u)) && u@ == name,
            Some(s) => match s.spec_validate(key, to_hash, raw) {
                Ok(()) => r matches Ok(status) && status == (if name == name_02() {
                    SchemeStatus::Latest
                } else {
                    SchemeStatus::Outdated
                }),
                Err(e) => r matches Err(Error::Scheme { scheme_name, scheme_error })
                    && scheme_name@ == name && scheme_error == e,
            },
        },
    }
}

/// The status with which `validate_pwd` accepts the stored password `pwd`,
/// or `None` when it refuses it.
pub open spec fn pwd_status(key: Seq<u8>, to_hash: ContentToHash, pwd: Seq<char>) -> Option<SchemeStatus> {
    match parse_pwd_spec(pwd) {
        None => None,
        Some((name, raw)) => match scheme_named(name) {
            None => None,
            Some(s) => match s.spec_validate(key, to_hash, raw) {
                Ok(()) => Some(
                    if name == name_02() {
                        SchemeStatus::Latest
                    } else {
                        SchemeStatus::Outdated
                    },
                ),
                Err(_) => None,
            },
        },
    }
}

/// The stored password that `hash_pwd` makes, or `None` when hashing fails.
pub open spec fn hashed_pwd(key: Seq<u8>, to_hash: ContentToHash) -> Option<Seq<char>> {
    match scheme_named(name_02()) {
        Some(s) => match s.spec_hash(key, to_hash) {
            Ok(raw) => Some(pwd_with_scheme(name_02(), raw)),
            Err(_) => None,
        },
        None => None,
    }
}

/// Hashes with the scheme `scheme_name` and prefixes `#<scheme_name>#`.
pub fn hash_for_scheme(key: &[u8], scheme_name: &str, to_hash: &ContentToHash) -> (r: Result<
    String,
    Error,
>)
    requires
        valid_pwd_key(key@),
    ensures
        hash_for_scheme_post(key@, scheme_name@, *to_hash, r),
{
    let scheme = match get_scheme(scheme_name) {
        Ok(scheme) => scheme,
        Err(_) => return Err(Error::SchemeUnknown(scheme_name.to_owned())),
    };
    let raw = match scheme.hash(key, to_hash) {
        Ok(raw) => raw,
        Err(scheme_error) => {
            return Err(Error::Scheme { scheme_name: scheme_name.to_owned(), scheme_error });
        },
    };
    let mut out = String::new();
    string_push(&mut out, '#');
    string_append(&mut out, scheme_name);
    string_push(&mut out, '#');
    string_append(&mut out, raw.as_str());
    assert(out@ =~= pwd_with_scheme(scheme_name@, raw@));
    Ok(out)
}

/// Validates `raw_pwd_ref` with the scheme `scheme_name`.
pub fn validate_for_scheme(
    key: &[u8],
    scheme_name: &str,
    to_hash: &ContentToHash,
    raw_pwd_ref: &str,
) -> (r: Result<(), Error>)
    requires
        valid_pwd_key(key@),
    ensures
        validate_for_scheme_post(key@, scheme_name@, *to_hash, raw_pwd_ref@, r),
{
    let scheme = match get_scheme(scheme_name) {
        Ok(scheme) => scheme,
        Err(_) => return Err(Error::SchemeUnknown(scheme_name.to_owned())),
    };
    match scheme.validate(key, to_hash, raw_pwd_ref) {
        Ok(()) => Ok(()),
        Err(scheme_error) => Err(Error::Scheme { scheme_name: scheme_name.to_owned(), scheme_error }),
    }
}

/// Hashes the password with the default scheme.
pub fn hash_pwd(key: &[u8], to_hash: &ContentToHash) -> (r: Result<String, Error>)
    requires
        valid_pwd_key(key@),
    ensures
        hash_for_scheme_post(key@, name_02(), *to_hash, r),
{
    proof {
        reveal_strlit("02");
        assert(DEFAULT_SCHEME@ =~= name_02());
    }
    hash_for_scheme(key, DEFAULT_SCHEME, to_hash)
}

/// Validates `to_hash` against the stored password `pwd_with_scheme_ref`,
/// and tells whether its scheme is the default one.
pub fn validate_pwd(key: &[u8], to_hash: &ContentToHash, pwd_with_scheme_ref: &str) -> (r: Result<
    SchemeStatus,
    Error,
>)
    requires
        valid_pwd_key(key@),
    ensures
        validate_pwd_post(key@, *to_hash, pwd_with_scheme_ref@, r),
{
    let parts = parse_pwd(pwd_with_scheme_ref)?;
    validate_for_scheme(key, parts.scheme_name.as_str(), to_hash, parts.raw.as_str())?;
    proof {
        reveal_strlit("02");
        assert(DEFAULT_SCHEME@ =~= name_02());
    }
    if str_eq(parts.scheme_name.as_str(), DEFAULT_SCHEME) {
        Ok(SchemeStatus::Latest)
    } else {
        Ok(SchemeStatus::Outdated)
    }
}

// endregion: --- Hashing and validation

// region:    --- Laws

proof fn lemma_word_end_at(s: Seq<char>, i: int, j: int)
    requires
        0 <= i <= j < s.len(),
        forall|k: int| i <= k < j ==> is_word(#[trigger] s[k]),
        !is_word(s[j]),
    ensures
        word_end(s, i) == j,
    decreases j - i,
{
    if i < j {
        lemma_word_end_at(s, i + 1, j);
    }
}

proof fn lemma_line_end_full(s: Seq<char>, i: int)
    requires
        0 <= i <= s.len(),
        forall|k: int| i <= k < s.len() ==> #[trigger] s[k] != '\n',
    ensures
        line_end(s, i) == s.len(),
    decreases s.len() - i,
{
    if i < s.len() {
        lemma_line_end_full(s, i + 1);
    }
}

/// Reading a stored password gives back the scheme name and hash it was
/// written with, for every non-empty name of word characters and every hash
/// without a line break.
pub proof fn lemma_parse_pwd_with_scheme(name: Seq<char>, raw: Seq<char>)
    requires
        name.len() > 0,
        forall|i: int| 0 <= i < name.len() ==> is_word(#[trigger] name[i]),
        no_line_break(raw),
    ensures
        parse_pwd_spec(pwd_with_scheme(name, raw)) == Some((name, raw)),
{
    let s = pwd_with_scheme(name, raw);
    let k: int = name.len() as int + 1;
    assert forall|j: int| 1 <= j < k implies is_word(#[trigger] s[j]) by {
        assert(s[j] == name[j - 1]);
    }
    assert(s[k] == '#');
    lemma_word_end_at(s, 1, k);
    assert forall|j: int| k + 1 <= j < s.len() implies #[trigger] s[j] != '\n' by {
        assert(s[j] == raw[j - k - 1]);
    }
    lemma_line_end_full(s, k + 1);
    assert(s.subrange(1, k) =~= name);
    assert(s.subrange(k + 1, s.len() as int) =~= raw);
}

/// What a successful read says of the text: it starts with
/// `#<name>#<hash>`, the name is a non-empty run of word characters, the hash
/// holds no line break, and the text ends there or goes on with a line break.
pub proof fn lemma_parse_pwd_shape(s: Seq<char>)
    requires
        parse_pwd_spec(s) is Some,
    ensures
        parse_pwd_spec(s) matches Some((name, raw)) && {
            let p = pwd_with_scheme(name, raw);
            &&& name.len() > 0
            &&& forall|i: int| 0 <= i < name.len() ==> is_word(#[trigger] name[i])
            &&& no_line_break(raw)
            &&& p.len() <= s.len()
            &&& s.subrange(0, p.len() as int) == p
            &&& (p.len() < s.len() ==> s[p.len() as int] == '\n')
        },
{
    let k = word_end(s, 1);
    lemma_word_end_bounds(s, 1);
    lemma_line_end_bounds(s, k + 1);
    let m = line_end(s, k + 1);
    let name = s.subrange(1, k);
    let raw = s.subrange(k + 1, m);
    let p = pwd_with_scheme(name, raw);
    assert forall|i: int| 0 <= i < name.len() implies is_word(#[trigger] name[i]) by {
        assert(name[i] == s[i + 1]);
    }
    assert forall|i: int| 0 <= i < raw.len() implies raw[i] != '\n' by {
        assert(raw[i] == s[k + 1 + i]);
    }
    assert(s.subrange(0, p.len() as int) =~= p);
}

/// The names of the two schemes are made of word characters.
proof fn lemma_scheme_names_are_words(name: Seq<char>)
    requires
        scheme_named(name) is Some,
    ensures
        name.len() > 0,
        forall|i: int| 0 <= i < name.len() ==> is_word(#[trigger] name[i]),
{
}

/// A stored password that `hash_for_scheme` produced validates for the same
/// key and content; the status is `Latest` for the default scheme `"02"`
/// and `Outdated` for the others.
pub proof fn lemma_hash_then_validate(
    key: Seq<u8>,
    name: Seq<char>,
    to_hash: ContentToHash,
    stored: String,
    r: Result<SchemeStatus, Error>,
)
    requires
        valid_pwd_key(key),
        hash_for_scheme_post(key, name, to_hash, Ok(stored)),
        validate_pwd_post(key, to_hash, stored@, r),
    ensures
        r matches Ok(status) && status == (if name == name_02() {
            SchemeStatus::Latest
        } else {
            SchemeStatus::Outdated
        }),
{
    let s = scheme_named(name).unwrap();
    let raw = s.spec_hash(key, to_hash)->Ok_0;
    lemma_scheme_names_are_words(name);
    lemma_parse_pwd_with_scheme(name, raw);
    match s {
        scheme::SchemeDispatcher::Scheme01(_) => {},
        scheme::SchemeDispatcher::Scheme02(_) => {
            let pw = vstd::utf8::encode_utf8(to_hash.content@);
            let salt = scheme::scheme_02::salt_b64(to_hash.salt.bytes@);
            assert(scheme::scheme_02::argon2_phc(key, pw, salt) == Some(raw));
            assert(scheme::scheme_02::argon2_hashed(key, pw, raw));
        },
    }
}

/// A password hashed with `hash_pwd` validates for the same key and content
/// with status `Latest`.
pub proof fn lemma_hash_pwd_then_validate(
    key: Seq<u8>,
    to_hash: ContentToHash,
    stored: String,
    r: Result<SchemeStatus, Error>,
)
    requires
        valid_pwd_key(key),
        hash_for_scheme_post(key, name_02(), to_hash, Ok(stored)),
        validate_pwd_post(key, to_hash, stored@, r),
    ensures
        r == Ok::<SchemeStatus, Error>(SchemeStatus::Latest),
{
    lemma_hash_then_validate(key, name_02(), to_hash, stored, r);
}

// endregion: --- Laws

} // verus!
