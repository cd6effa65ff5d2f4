//! Base64 encodings (RFC 4648) used by the library: URL-safe without
//! padding, standard with padding, and standard without padding.

use base64::engine::general_purpose;
use base64::Engine;
use crate::text::string_from_utf8;
use vstd::prelude::*;
use vstd::utf8::{decode_utf8, encode_utf8};

verus! {

/// The character for the 6-bit value `v` in the standard alphabet
/// (`url == false`: `+` and `/`) or the URL-safe one (`url == true`: `-` and `_`).
pub open spec fn b64_char(url: bool, v: int) -> char {
    if v < 26 {
        (65 + v) as char
    } else if v < 52 {
        (97 + (v - 26)) as char
    } else if v < 62 {
        (48 + (v - 52)) as char
    } else if v == 62 {
        if url { '-' } else { '+' }
    } else {
        if url { '_' } else { '/' }
    }
}

/// RFC 4648 base64 encoding of `data`, with the alphabet chosen by `url`
/// and `=` padding when `pad` holds.
pub open spec fn b64_encode(url: bool, pad: bool, data: Seq<u8>) -> Seq<char>
    decreases data.len(),
{
    if data.len() == 0 {
        Seq::empty()
    } else if data.len() == 1 {
        let b0 = data[0] as int;
        seq![b64_char(url, b0 / 4), b64_char(url, (b0 % 4) * 16)] + if pad {
            seq!['=', '=']
        } else {
            Seq::empty()
        }
    } else if data.len() == 2 {
        let b0 = data[0] as int;
        let b1 = data[1] as int;
        seq![
            b64_char(url, b0 / 4),
            b64_char(url, (b0 % 4) * 16 + b1 / 16),
            b64_char(url, (b1 % 16) * 4),
        ] + if pad {
            seq!['=']
        } else {
            Seq::empty()
        }
    } else {
        let b0 = data[0] as int;
        let b1 = data[1] as int;
        let b2 = data[2] as int;
        seq![
            b64_char(url, b0 / 4),
            b64_char(url, (b0 % 4) * 16 + b1 / 16),
            b64_char(url, (b1 % 16) * 4 + b2 / 64),
            b64_char(url, b2 % 64),
        ] + b64_encode(url, pad, data.subrange(3, data.len() as int))
    }
}

/// URL-safe base64 without padding (the `b64u` encoding).
pub open spec fn b64u(data: Seq<u8>) -> Seq<char> {
    b64_encode(true, false, data)
}

/// A character that the base64 alphabets or the padding can produce.
pub open spec fn is_b64_symbol(c: char) -> bool {
    ('A' <= c && c <= 'Z') || ('a' <= c && c <= 'z') || ('0' <= c && c <= '9') || c == '-'
        || c == '_' || c == '+' || c == '/' || c == '='
}

proof fn lemma_b64_char_symbol(url: bool, v: int)
    requires
        0 <= v < 64,
    ensures
        is_b64_symbol(b64_char(url, v)),
{
}

/// Every character of a base64 encoding is an alphabet symbol or padding.
pub proof fn lemma_b64_encode_symbols(url: bool, pad: bool, data: Seq<u8>)
    ensures
        forall|i: int|
            0 <= i < b64_encode(url, pad, data).len() ==> is_b64_symbol(
                #[trigger] b64_encode(url, pad, data)[i],
            ),
    decreases data.len(),
{
    let e = b64_encode(url, pad, data);
    if data.len() == 0 {
    } else if data.len() == 1 {
        let b0 = data[0] as int;
        lemma_b64_char_symbol(url, b0 / 4);
        lemma_b64_char_symbol(url, (b0 % 4) * 16);
        assert forall|i: int| 0 <= i < e.len() implies is_b64_symbol(#[trigger] e[i]) by {
            if i >= 2 {
                assert(e[i] == '=');
            }
        }
    } else if data.len() == 2 {
        let b0 = data[0] as int;
        let b1 = data[1] as int;
        lemma_b64_char_symbol(url, b0 / 4);
        lemma_b64_char_symbol(url, (b0 % 4) * 16 + b1 / 16);
        lemma_b64_char_symbol(url, (b1 % 16) * 4);
        assert forall|i: int| 0 <= i < e.len() implies is_b64_symbol(#[trigger] e[i]) by {
            if i >= 3 {
                assert(e[i] == '=');
            }
        }
    } else {
        let b0 = data[0] as int;
        let b1 = data[1] as int;
        let b2 = data[2] as int;
        let rest = data.subrange(3, data.len() as int);
        lemma_b64_char_symbol(url, b0 / 4);
        lemma_b64_char_symbol(url, (b0 % 4) * 16 + b1 / 16);
        lemma_b64_char_symbol(url, (b1 % 16) * 4 + b2 / 64);
        lemma_b64_char_symbol(url, b2 % 64);
        lemma_b64_encode_symbols(url, pad, rest);
        let t = b64_encode(url, pad, rest);
        assert forall|i: int| 0 <= i < e.len() implies is_b64_symbol(#[trigger] e[i]) by {
            if i >= 4 {
                assert(e[i] == t[i - 4]);
            }
        }
    }
}

/// Encodes `data` in URL-safe base64 without padding.
///
/// Calls `base64::engine::general_purpose::URL_SAFE_NO_PAD.encode`; the
/// contract claims that the result is the RFC 4648 encoding with the URL-safe
/// alphabet and no `=` padding. The crate panics only when the encoded length
/// overflows `usize`, which the bound on the input rules out.
#[verifier::external_body]
pub fn b64u_encode(data: &[u8]) -> (res: String)
    requires
        data@.len() <= usize::MAX / 2,
    ensures
        res@ == b64u(data@),
{
    general_purpose::URL_SAFE_NO_PAD.encode(data)
}

/// Encodes `data` in standard base64 with `=` padding.
///
/// Calls `base64::engine::general_purpose::STANDARD.encode`; the contract
/// claims that the result is the RFC 4648 encoding with the standard alphabet
/// and padding.
#[verifier::external_body]
pub fn b64_encode_standard(data: &[u8]) -> (res: String)
    requires
        data@.len() <= usize::MAX / 2,
    ensures
        res@ == b64_encode(false, true, data@),
{
    general_purpose::STANDARD.encode(data)
}

/// Decodes URL-safe base64 without padding.
///
/// Calls `base64::engine::general_purpose::URL_SAFE_NO_PAD.decode`. That
/// engine requires no padding and refuses non-zero trailing bits, so it
/// accepts exactly the canonical encodings; the contract claims that a
/// decoded text is the encoding of the bytes returned, and that the encoding
/// of any bytes decodes to those bytes.
#[verifier::external_body]
pub fn b64u_decode(b64u_text: &str) -> (r: Option<Vec<u8>>)
    ensures
        r matches Some(b) ==> b64u(b@) == b64u_text@,
        r is None ==> forall|b: Seq<u8>| #[trigger] b64u(b) != b64u_text@,
        r matches Some(d) ==> forall|b: Seq<u8>| #[trigger] b64u(b) == b64u_text@ ==> b == d@,
{
    general_purpose::URL_SAFE_NO_PAD.decode(b64u_text).ok()
}

/// The text whose UTF-8 bytes `s` is the URL-safe base64 encoding of, if
/// any.
pub open spec fn text_of_b64u(s: Seq<char>) -> Option<Seq<char>> {
    if exists|t: Seq<char>| #[trigger] b64u(encode_utf8(t)) == s {
        Some(choose|t: Seq<char>| #[trigger] b64u(encode_utf8(t)) == s)
    } else {
        None
    }
}

/// Decodes URL-safe base64 into text: `None` when the text is not an
/// encoding or the bytes are not UTF-8.
pub fn b64u_decode_to_string(b64u_text: &str) -> (r: Option<String>)
    ensures
        r matches Some(s) ==> text_of_b64u(b64u_text@) == Some(s@),
        r is None ==> text_of_b64u(b64u_text@) is None,
{
    match b64u_decode(b64u_text) {
        Some(bytes) => {
            let ghost b = bytes@;
            let r = string_from_utf8(bytes);
            proof {
                broadcast use vstd::utf8::encode_utf8_valid_utf8, vstd::utf8::encode_utf8_decode_utf8;
                if exists|t: Seq<char>| #[trigger] b64u(encode_utf8(t)) == b64u_text@ {
                    let t = choose|t: Seq<char>| #[trigger] b64u(encode_utf8(t)) == b64u_text@;
                    assert(b == encode_utf8(t));
                }
                if vstd::utf8::valid_utf8(b) {
                    let t = vstd::utf8::decode_utf8(b);
                    vstd::utf8::decode_utf8_encode_utf8(b);
                    assert(b64u(encode_utf8(t)) == b64u_text@);
                }
            }
            r
        },
        None => {
            assert forall|t: Seq<char>| #[trigger] b64u(encode_utf8(t)) != b64u_text@ by {
                if b64u(encode_utf8(t)) == b64u_text@ {
                    assert(b64u(encode_utf8(t)) == b64u_text@);
                }
            }
            None
        },
    }
}

// region:    --- Decoding is unique

proof fn lemma_b64_char_injective(url: bool, v: int, w: int)
    requires
        0 <= v < 64,
        0 <= w < 64,
        b64_char(url, v) == b64_char(url, w),
    ensures
        v == w,
{
    let cv = b64_char(url, v);
    let cw = b64_char(url, w);
    assert(cv as int == cw as int);
}

proof fn lemma_chunk_bytes(a0: int, a1: int, a2: int, b0: int, b1: int, b2: int)
    requires
        0 <= a0 < 256,
        0 <= a1 < 256,
        0 <= a2 < 256,
        0 <= b0 < 256,
        0 <= b1 < 256,
        0 <= b2 < 256,
        a0 / 4 == b0 / 4,
        (a0 % 4) * 16 + a1 / 16 == (b0 % 4) * 16 + b1 / 16,
        (a1 % 16) * 4 + a2 / 64 == (b1 % 16) * 4 + b2 / 64,
        a2 % 64 == b2 % 64,
    ensures
        a0 == b0,
        a1 == b1,
        a2 == b2,
{
}

/// Different bytes have different URL-safe base64 encodings.
pub proof fn lemma_b64u_injective(a: Seq<u8>, b: Seq<u8>)
    requires
        b64u(a) == b64u(b),
    ensures
        a == b,
    decreases a.len(),
{
    let ea = b64u(a);
    let eb = b64u(b);
    if a.len() >= 3 {
        assert(ea.len() >= 4);
    }
    if b.len() >= 3 {
        assert(eb.len() >= 4);
    }
    if a.len() == 0 || b.len() == 0 {
        assert(a.len() == 0 && b.len() == 0);
        assert(a =~= b);
    } else if a.len() == 1 {
        assert(b.len() == 1);
        lemma_b64_char_injective(true, a[0] as int / 4, b[0] as int / 4);
        lemma_b64_char_injective(true, (a[0] as int % 4) * 16, (b[0] as int % 4) * 16);
        lemma_chunk_bytes(a[0] as int, 0, 0, b[0] as int, 0, 0);
        assert(a =~= b);
    } else if a.len() == 2 {
        assert(b.len() == 2);
        lemma_b64_char_injective(true, a[0] as int / 4, b[0] as int / 4);
        lemma_b64_char_injective(
            true,
            (a[0] as int % 4) * 16 + a[1] as int / 16,
            (b[0] as int % 4) * 16 + b[1] as int / 16,
        );
        lemma_b64_char_injective(true, (a[1] as int % 16) * 4, (b[1] as int % 16) * 4);
        lemma_chunk_bytes(a[0] as int, a[1] as int, 0, b[0] as int, b[1] as int, 0);
        assert(a =~= b);
    } else {
        assert(b.len() >= 3);
        let (a0, a1, a2) = (a[0] as int, a[1] as int, a[2] as int);
        let (b0, b1, b2) = (b[0] as int, b[1] as int, b[2] as int);
        assert(ea[0] == eb[0] && ea[1] == eb[1] && ea[2] == eb[2] && ea[3] == eb[3]);
        lemma_b64_char_injective(true, a0 / 4, b0 / 4);
        lemma_b64_char_injective(true, (a0 % 4) * 16 + a1 / 16, (b0 % 4) * 16 + b1 / 16);
        lemma_b64_char_injective(true, (a1 % 16) * 4 + a2 / 64, (b1 % 16) * 4 + b2 / 64);
        lemma_b64_char_injective(true, a2 % 64, b2 % 64);
        lemma_chunk_bytes(a0, a1, a2, b0, b1, b2);
        let ra = a.subrange(3, a.len() as int);
        let rb = b.subrange(3, b.len() as int);
        assert(b64u(ra) =~= ea.subrange(4, ea.len() as int));
        assert(b64u(rb) =~= eb.subrange(4, eb.len() as int));
        lemma_b64u_injective(ra, rb);
        assert(a =~= seq![a[0], a[1], a[2]] + ra);
        assert(b =~= seq![b[0], b[1], b[2]] + rb);
    }
}

/// The text whose UTF-8 bytes were encoded is read back from the encoding.
pub proof fn lemma_text_of_b64u(t: Seq<char>)
    ensures
        text_of_b64u(b64u(encode_utf8(t))) == Some(t),
{
    broadcast use vstd::utf8::encode_utf8_decode_utf8;

    let s = b64u(encode_utf8(t));
    assert(b64u(encode_utf8(t)) == s);
    let c = choose|u: Seq<char>| #[trigger] b64u(encode_utf8(u)) == s;
    lemma_b64u_injective(encode_utf8(c), encode_utf8(t));
    assert(decode_utf8(encode_utf8(c)) == decode_utf8(encode_utf8(t)));
}

} // verus!
