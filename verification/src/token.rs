//! The access token as a request header.
//!
//! The header value itself is made by the HTTP library (`reqwest`, which
//! hands out the `http` crate's type); whether it accepts a token is stated
//! here byte by byte.

use crate::error::QueryError;
use vstd::prelude::*;
use vstd::string::StringExecFns;
use vstd::utf8::{encode_scalar, encode_utf8, is_scalar};

verus! {

/// Name of the header that carries the access token.
pub const TOKEN_HEADER: &'static str = "PRIVATE-TOKEN";

/// `reqwest::header::HeaderValue`, the value of one request header. Nothing
/// inside it is visible here; [`header_bytes`] names the bytes it holds.
#[verifier::external_type_specification]
#[verifier::external_body]
pub struct ExHeaderValue(reqwest::header::HeaderValue);

/// `reqwest::header::InvalidHeaderValue`, the refusal of a text as a header
/// value. It holds nothing.
#[verifier::external_type_specification]
#[verifier::external_body]
pub struct ExInvalidHeaderValue(reqwest::header::InvalidHeaderValue);

/// The bytes that a header value holds, as `HeaderValue::as_bytes` gives
/// them.
pub uninterp spec fn header_bytes(value: reqwest::header::HeaderValue) -> Seq<u8>;

/// Whether a byte may stand in a header value: a tab, or any byte from 32 on
/// but 127. Control characters are out.
pub open spec fn is_header_byte(byte: u8) -> bool {
    byte >= 32 && byte != 127 || byte == 9
}

/// Whether every byte of a text may stand in a header value.
pub open spec fn is_header_text(bytes: Seq<u8>) -> bool {
    forall|i: int| 0 <= i < bytes.len() ==> is_header_byte(#[trigger] bytes[i])
}

/// Calls `HeaderValue::try_from` on a `String`.
///
/// Believed: it accepts exactly the strings whose UTF-8 bytes all satisfy
/// [`is_header_byte`], and the value then holds those bytes.
#[verifier::external_body]
pub(crate) fn header_value(text: String) -> (r: Result<
    reqwest::header::HeaderValue,
    reqwest::header::InvalidHeaderValue,
>)
    ensures
        match r {
            Ok(value) => is_header_text(encode_utf8(text@)) && header_bytes(value) == encode_utf8(
                text@,
            ),
            Err(_) => !is_header_text(encode_utf8(text@)),
        },
{
    reqwest::header::HeaderValue::try_from(text)
}

/// Whether a character may stand in a token: a tab, or any character from
/// the space on but the delete character. The other control characters of
/// ASCII are out; every character beyond ASCII is in.
pub open spec fn is_header_char(c: char) -> bool {
    c as u32 >= 32 && c as u32 != 127 || c as u32 == 9
}

/// Whether every character of a text may stand in a token.
pub open spec fn is_token_text(chars: Seq<char>) -> bool {
    forall|i: int| 0 <= i < chars.len() ==> is_header_char(#[trigger] chars[i])
}

proof fn lemma_high_bytes(x: u8)
    by (bit_vector)
    ensures
        0x80u8 | x >= 0x80u8,
        0xC0u8 | x >= 0x80u8,
        0xE0u8 | x >= 0x80u8,
        0xF0u8 | x >= 0x80u8,
{
}

proof fn lemma_low_byte(v: u32)
    by (bit_vector)
    requires
        v <= 0x7Fu32,
    ensures
        (v & 0x7Fu32) == v,
{
}

/// The bytes that encode one character may all stand in a header value
/// exactly where the character may stand in a token.
proof fn lemma_scalar_bytes(v: u32)
    requires
        is_scalar(v),
    ensures
        is_header_text(encode_scalar(v)) <==> (v >= 32 && v != 127 || v == 9),
{
    let bytes = encode_scalar(v);
    if v <= 0x7F {
        lemma_low_byte(v);
        assert(bytes[0] == v as u8);
        if v >= 32 && v != 127 || v == 9 {
            assert(is_header_text(bytes));
        } else {
            assert(!is_header_byte(bytes[0]));
        }
    } else {
        assert forall|i: int| 0 <= i < bytes.len() implies is_header_byte(#[trigger] bytes[i]) by {
            lemma_high_bytes(((v >> 6) & 0x1F) as u8);
            lemma_high_bytes(((v >> 12) & 0x0F) as u8);
            lemma_high_bytes(((v >> 18) & 0x7) as u8);
            lemma_high_bytes((v & 0x3F) as u8);
            lemma_high_bytes(((v >> 6) & 0x3F) as u8);
            lemma_high_bytes(((v >> 12) & 0x3F) as u8);
        }
    }
}

proof fn lemma_header_text_concat(head: Seq<u8>, tail: Seq<u8>)
    ensures
        is_header_text(head + tail) <==> is_header_text(head) && is_header_text(tail),
{
    let whole = head + tail;
    if is_header_text(whole) {
        assert forall|i: int| 0 <= i < head.len() implies is_header_byte(#[trigger] head[i]) by {
            assert(whole[i] == head[i]);
        }
        assert forall|i: int| 0 <= i < tail.len() implies is_header_byte(#[trigger] tail[i]) by {
            assert(whole[head.len() + i] == tail[i]);
        }
    }
}

/// A token is accepted exactly where each of its characters may stand in a
/// token: the rule on its bytes is a rule on its characters.
pub proof fn law_token_accepted_by_chars(token: Seq<char>)
    ensures
        is_header_text(encode_utf8(token)) <==> is_token_text(token),
    decreases token.len(),
{
    if token.len() > 0 {
        let rest = token.drop_first();
        law_token_accepted_by_chars(rest);
        vstd::utf8::char_is_scalar(token[0]);
        lemma_scalar_bytes(token[0] as u32);
        lemma_header_text_concat(encode_scalar(token[0] as u32), encode_utf8(rest));
        if forall|i: int| 0 <= i < token.len() ==> is_header_char(#[trigger] token[i]) {
            assert forall|i: int| 0 <= i < rest.len() implies is_header_char(#[trigger] rest[i]) by {
                assert(rest[i] == token[i + 1]);
            }
        }
        if is_header_text(encode_utf8(token)) {
            assert forall|i: int| 0 <= i < token.len() implies is_header_char(
                #[trigger] token[i],
            ) by {
                if i > 0 {
                    assert(token[i] == rest[i - 1]);
                }
            }
        }
    }
}

/// Makes the header value that carries `token`.
///
/// Succeeds exactly where every character of the token may stand in one
/// ([`is_token_text`]), and the value then holds the token's bytes unchanged.
/// Every other token is refused with a header encoding error.
pub fn token_header(token: &String) -> (r: Result<reqwest::header::HeaderValue, QueryError>)
    ensures
        r is Ok <==> is_token_text(token@),
        r matches Ok(value) ==> header_bytes(value) == encode_utf8(token@),
        r matches Err(error) ==> error is HeaderEncoding,
{
    proof {
        law_token_accepted_by_chars(token@);
    }
    match header_value(token.clone()) {
        Ok(value) => Ok(value),
        Err(_) => Err(
            QueryError::HeaderEncoding(String::from_str("the token holds a control character")),
        ),
    }
}

} // verus!
