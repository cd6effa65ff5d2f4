//! UUIDs as 16 plain bytes: random generation, parsing from text, and
//! base64 rendering.

use crate::b64::{b64_encode, b64_encode_standard};
use crate::text::{string_append, string_from_chars, string_push};
use vstd::prelude::*;
use vstd::utf8::encode_utf8;

verus! {

/// A UUID, held as its 16 bytes in big-endian (RFC 9562) order.
#[derive(Clone, Copy, Debug, PartialEq, Eq)]
pub struct Uuid {
    pub bytes: [u8; 16],
}

impl Uuid {
    /// The 16 bytes of the UUID.
    pub fn as_bytes(&self) -> (b: &[u8])
        ensures
            b@ == self.bytes@,
            b@.len() == 16,
    {
        self.bytes.as_slice()
    }
}

/// Errors of the UUID helpers.
#[derive(Debug, PartialEq, Eq)]
pub enum Error {
    FailParse,
}

/// The value of an ASCII hexadecimal digit (either case).
pub open spec fn hex_value(c: u8) -> int {
    if 48 <= c <= 57 {
        c - 48
    } else if 97 <= c <= 102 {
        c - 87
    } else {
        c - 55
    }
}

/// `c` is an ASCII hexadecimal digit, in either case.
pub open spec fn is_hex_digit(c: u8) -> bool {
    (48 <= c <= 57) || (97 <= c <= 102) || (65 <= c <= 70)
}

/// Decodes 32 hexadecimal digits into 16 bytes.
pub open spec fn decode_hex32(h: Seq<u8>) -> Option<Seq<u8>> {
    if h.len() == 32 && forall|i: int| 0 <= i < 32 ==> #[trigger] is_hex_digit(h[i]) {
        Some(Seq::new(16, |j: int| (hex_value(h[2 * j]) * 16 + hex_value(h[2 * j + 1])) as u8))
    } else {
        None
    }
}

/// Decodes the hyphenated form `xxxxxxxx-xxxx-xxxx-xxxx-xxxxxxxxxxxx`.
pub open spec fn parse_hyphenated(s: Seq<u8>) -> Option<Seq<u8>> {
    if s.len() == 36 && s[8] == 45 && s[13] == 45 && s[18] == 45 && s[23] == 45 {
        decode_hex32(
            s.subrange(0, 8) + s.subrange(9, 13) + s.subrange(14, 18) + s.subrange(19, 23)
                + s.subrange(24, 36),
        )
    } else {
        None
    }
}

/// ASCII lower-casing of a byte.
pub open spec fn ascii_lower(c: u8) -> u8 {
    if 65 <= c <= 90 {
        (c + 32) as u8
    } else {
        c
    }
}

/// The bytes of `urn:uuid:`.
pub open spec fn urn_prefix() -> Seq<u8> {
    seq![117u8, 114, 110, 58, 117, 117, 105, 100, 58]
}

/// The UUID that the text with UTF-8 bytes `b` denotes, if any: 32 hex
/// digits, the hyphenated form, the hyphenated form in braces, or the
/// hyphenated form after a case-insensitive `urn:uuid:`.
pub open spec fn uuid_from_text(b: Seq<u8>) -> Option<Seq<u8>> {
    if b.len() == 32 {
        decode_hex32(b)
    } else if b.len() == 36 {
        parse_hyphenated(b)
    } else if b.len() == 38 && b[0] == 123 && b[37] == 125 {
        parse_hyphenated(b.subrange(1, 37))
    } else if b.len() == 45 && forall|i: int| 0 <= i < 9 ==> #[trigger] ascii_lower(b[i]) == urn_prefix()[i] {
        parse_hyphenated(b.subrange(9, 45))
    } else {
        None
    }
}

/// A random version-4 UUID: version nibble 4 and RFC 4122 variant bits.
pub open spec fn is_random_v4(b: Seq<u8>) -> bool {
    &&& b.len() == 16
    &&& b[6] / 16 == 4
    &&& b[8] / 64 == 2
}

/// Draws a random version-4 UUID.
///
/// Calls `uuid::Uuid::new_v4`. The contract claims only what holds of every
/// outcome: the version nibble is 4 and the variant bits are `10`; the other
/// 122 bits are random and left unsaid.
#[verifier::external_body]
fn random_v4_bytes() -> (b: [u8; 16])
    ensures
        is_random_v4(b@),
{
    uuid::Uuid::new_v4().into_bytes()
}

/// Parses `val` with the `uuid` crate.
///
/// Calls `uuid::Uuid::parse_str`; the contract claims that it accepts exactly
/// the forms of `uuid_from_text` and returns the bytes it decodes.
#[verifier::external_body]
fn parse_uuid_bytes(val: &str) -> (r: Option<[u8; 16]>)
    ensures
        r is Some <==> uuid_from_text(encode_utf8(val@)) is Some,
        r matches Some(b) ==> Some(b@) == uuid_from_text(encode_utf8(val@)),
{
    match uuid::Uuid::parse_str(val) {
        Ok(u) => Some(u.into_bytes()),
        Err(_) => None,
    }
}

/// A new random (version 4) UUID.
pub fn uuid_new() -> (u: Uuid)
    ensures
        is_random_v4(u.bytes@),
{
    Uuid { bytes: random_v4_bytes() }
}

/// Parses a UUID from its text form; fails with `FailParse` exactly when the
/// text is not one of the accepted forms.
pub fn uuid_parse(val: &str) -> (r: Result<Uuid, Error>)
    ensures
        r is Ok <==> uuid_from_text(encode_utf8(val@)) is Some,
        r matches Ok(u) ==> Some(u.bytes@) == uuid_from_text(encode_utf8(val@)),
        r matches Err(e) ==> e == Error::FailParse,
{
    match parse_uuid_bytes(val) {
        Some(bytes) => Ok(Uuid { bytes }),
        None => Err(Error::FailParse),
    }
}

/// The standard (padded) base64 encoding of the UUID's 16 bytes.
pub fn uuid_to_b64(uuid: Uuid) -> (s: String)
    ensures
        s@ == b64_encode(false, true, uuid.bytes@),
{
    b64_encode_standard(uuid.as_bytes())
}

// region:    --- Text form

/// The lowercase hexadecimal digit of a nibble.
pub open spec fn hex_digit(n: int) -> char {
    if n < 10 {
        (48 + n) as char
    } else {
        (87 + n) as char
    }
}

/// The 32 lowercase hexadecimal digits of 16 bytes, high nibble first.
pub open spec fn hex32(b: Seq<u8>) -> Seq<char> {
    Seq::new(
        32,
        |i: int|
            hex_digit(
                if i % 2 == 0 {
                    b[i / 2] as int / 16
                } else {
                    b[i / 2] as int % 16
                },
            ),
    )
}

/// The hyphenated text of a UUID: lowercase hexadecimal digits in groups of
/// 8, 4, 4, 4 and 12, separated by `-`.
pub open spec fn hyphenated(b: Seq<u8>) -> Seq<char> {
    let h = hex32(b);
    h.subrange(0, 8) + seq!['-'] + h.subrange(8, 12) + seq!['-'] + h.subrange(12, 16) + seq!['-']
        + h.subrange(16, 20) + seq!['-'] + h.subrange(20, 32)
}

/// The digit of a nibble.
fn nibble_char(n: u8) -> (c: char)
    requires
        n < 16,
    ensures
        c == hex_digit(n as int),
{
    if n < 10 {
        (48 + n) as char
    } else {
        (87 + n) as char
    }
}

proof fn lemma_hex_digit(n: int)
    requires
        0 <= n < 16,
    ensures
        is_hex_digit(hex_digit(n) as u8),
        hex_value(hex_digit(n) as u8) == n,
        '\0' <= hex_digit(n) <= '\u{7f}',
        hex_digit(n) != '-',
{
}

/// The hyphenated text reads back as the same UUID.
pub proof fn lemma_hyphenated_parses(b: Seq<u8>)
    requires
        b.len() == 16,
    ensures
        uuid_from_text(encode_utf8(hyphenated(b))) == Some(b),
{
    let h = hex32(b);
    let t = hyphenated(b);
    assert forall|i: int| 0 <= i < 32 implies is_hex_digit(#[trigger] h[i] as u8) && hex_value(
        h[i] as u8,
    ) == (if i % 2 == 0 {
        b[i / 2] as int / 16
    } else {
        b[i / 2] as int % 16
    }) && '\0' <= h[i] <= '\u{7f}' by {
        lemma_hex_digit(if i % 2 == 0 {
            b[i / 2] as int / 16
        } else {
            b[i / 2] as int % 16
        });
    }
    assert(t.len() == 36);
    assert forall|i: int| 0 <= i < 36 implies '\0' <= #[trigger] t[i] <= '\u{7f}' by {
        if i < 8 {
            assert(t[i] == h[i]);
        } else if i == 8 || i == 13 || i == 18 || i == 23 {
        } else if i < 13 {
            assert(t[i] == h[i - 1]);
        } else if i < 18 {
            assert(t[i] == h[i - 2]);
        } else if i < 23 {
            assert(t[i] == h[i - 3]);
        } else {
            assert(t[i] == h[i - 4]);
        }
    }
    assert(vstd::utf8::is_ascii_chars(t));
    vstd::utf8::is_ascii_chars_encode_utf8(t);
    let e = encode_utf8(t);
    assert(e.len() == 36);
    assert(e[8] == t[8] as u8);
    assert(e[13] == t[13] as u8);
    assert(e[18] == t[18] as u8);
    assert(e[23] == t[23] as u8);
    let joined = e.subrange(0, 8) + e.subrange(9, 13) + e.subrange(14, 18) + e.subrange(19, 23)
        + e.subrange(24, 36);
    assert forall|i: int| 0 <= i < 32 implies #[trigger] joined[i] == h[i] as u8 by {
        if i < 8 {
            assert(joined[i] == e[i]);
            assert(e[i] == t[i] as u8);
            assert(t[i] == h[i]);
        } else if i < 12 {
            assert(joined[i] == e[i + 1]);
            assert(e[i + 1] == t[i + 1] as u8);
            assert(t[i + 1] == h[i]);
        } else if i < 16 {
            assert(joined[i] == e[i + 2]);
            assert(e[i + 2] == t[i + 2] as u8);
            assert(t[i + 2] == h[i]);
        } else if i < 20 {
            assert(joined[i] == e[i + 3]);
            assert(e[i + 3] == t[i + 3] as u8);
            assert(t[i + 3] == h[i]);
        } else {
            assert(joined[i] == e[i + 4]);
            assert(e[i + 4] == t[i + 4] as u8);
            assert(t[i + 4] == h[i]);
        }
    }
    assert(joined.len() == 32);
    assert forall|i: int| 0 <= i < 32 implies #[trigger] is_hex_digit(joined[i]) by {
        assert(joined[i] == h[i] as u8);
    }
    let d = decode_hex32(joined).unwrap();
    assert forall|j: int| 0 <= j < 16 implies #[trigger] d[j] == b[j] by {
        assert(joined[2 * j] == h[2 * j] as u8);
        assert(joined[2 * j + 1] == h[2 * j + 1] as u8);
        assert((2 * j) % 2 == 0 && (2 * j) / 2 == j);
        assert((2 * j + 1) % 2 == 1 && (2 * j + 1) / 2 == j);
    }
    assert(d =~= b);
}

/// The hyphenated text of the UUID (lowercase, 8-4-4-4-12), which reads
/// back as the same UUID.
pub fn uuid_to_hyphenated(uuid: &Uuid) -> (s: String)
    ensures
        s@ == hyphenated(uuid.bytes@),
        uuid_from_text(encode_utf8(s@)) == Some(uuid.bytes@),
{
    let ghost b = uuid.bytes@;
    let ghost h = hex32(b);
    let mut hex: Vec<char> = Vec::new();
    let mut i: usize = 0;
    while i < 16
        invariant
            i <= 16,
            b == uuid.bytes@,
            h == hex32(b),
            hex@ == h.subrange(0, 2 * i as int),
        decreases 16 - i,
    {
        let byte = uuid.bytes[i];
        hex.push(nibble_char(byte / 16));
        hex.push(nibble_char(byte % 16));
        assert(hex@ =~= h.subrange(0, 2 * i + 2));
        i = i + 1;
    }
    assert(hex@ =~= h);
    let mut s = string_from_chars(&hex, 0, 8);
    string_push(&mut s, '-');
    let g = string_from_chars(&hex, 8, 12);
    string_append(&mut s, g.as_str());
    string_push(&mut s, '-');
    let g = string_from_chars(&hex, 12, 16);
    string_append(&mut s, g.as_str());
    string_push(&mut s, '-');
    let g = string_from_chars(&hex, 16, 20);
    string_append(&mut s, g.as_str());
    string_push(&mut s, '-');
    let g = string_from_chars(&hex, 20, 32);
    string_append(&mut s, g.as_str());
    assert(s@ =~= hyphenated(b));
    proof {
        lemma_hyphenated_parses(b);
    }
    s
}

// endregion: --- Text form

} // verus!
