//! What this library takes from the standard library and from other crates, with what it relies
//! on about each call.
use fuzzy_matcher::clangd::ClangdMatcher;
use fuzzy_matcher::FuzzyMatcher;
use vstd::prelude::*;
use vstd::utf8::{decode_utf8, valid_utf8};

use crate::text::{address_text, occurs_in_order, unsigned_value};

verus! {

/// `String::push` appends one character.
pub assume_specification[ String::push ](s: &mut String, c: char)
    ensures
        final(s)@ == old(s)@.push(c),
;

/// Whether `char::is_alphabetic` holds of a character.
pub uninterp spec fn alphabetic(c: char) -> bool;

/// `char::is_alphabetic` tells whether the character has the Unicode property `Alphabetic`.
/// Among the ASCII characters those are the letters.
#[verifier::external_body]
pub(crate) fn is_alphabetic(c: char) -> (r: bool)
    ensures
        r == alphabetic(c),
        (c as u32) < 128 ==> r == ('a' <= c <= 'z' || 'A' <= c <= 'Z'),
{
    c.is_alphabetic()
}

/// The text that `String::from_utf8_lossy` makes of some bytes.
pub uninterp spec fn lossy_text(bytes: Seq<u8>) -> Seq<char>;

/// `String::from_utf8_lossy` decodes UTF-8 and puts the replacement character where the bytes
/// are not UTF-8: bytes that are valid are simply decoded.
#[verifier::external_body]
pub(crate) fn text_from_bytes(bytes: &[u8]) -> (s: String)
    ensures
        s@ == lossy_text(bytes@),
        valid_utf8(bytes@) ==> s@ == decode_utf8(bytes@),
{
    String::from_utf8_lossy(bytes).into_owned()
}

/// The message of the error with which `str::parse::<u64>` refuses a text.
pub uninterp spec fn u64_refusal(text: Seq<char>) -> Seq<char>;

/// `str::parse::<u64>` reads an optional plus and then decimal digits only. It refuses every
/// other text, and a number that does not fit.
#[verifier::external_body]
pub(crate) fn parse_u64(text: &str) -> (r: Result<u64, String>)
    ensures
        match r {
            Ok(n) => unsigned_value(text@) == Some(n as nat),
            Err(message) => {
                &&& unsigned_value(text@) matches Some(n) ==> n > u64::MAX
                &&& message@ == u64_refusal(text@)
            },
        },
{
    text.parse::<u64>().map_err(|e| e.to_string())
}

/// `str::parse::<usize>` reads what `str::parse::<u64>` reads, within the range of `usize`.
/// Where `usize` has 64 bits it refuses a text with the same message. Elsewhere the message is
/// left open, since it depends on the width of `usize`.
#[verifier::external_body]
pub(crate) fn parse_usize(text: &str) -> (r: Result<usize, String>)
    ensures
        match r {
            Ok(n) => unsigned_value(text@) == Some(n as nat),
            Err(message) => {
                &&& unsigned_value(text@) matches Some(n) ==> n > usize::MAX
                &&& usize::BITS == 64 ==> message@ == u64_refusal(text@)
            },
        },
{
    text.parse::<usize>().map_err(|e| e.to_string())
}

/// What `parse_int::parse::<i64>` makes of a text: a number, or the message of its error.
pub uninterp spec fn prefixed_i64(text: Seq<char>) -> Result<i64, Seq<char>>;

/// `parse_int::parse::<i64>` reads an integer with an optional prefix that gives its base. A
/// number that fits is read back from `0x` and its hexadecimal digits.
#[verifier::external_body]
pub(crate) fn parse_prefixed_i64(text: &str) -> (r: Result<i64, String>)
    ensures
        match r {
            Ok(n) => prefixed_i64(text@) == Ok::<i64, Seq<char>>(n),
            Err(message) => prefixed_i64(text@) == Err::<i64, Seq<char>>(message@),
        },
        forall|n: nat| text@ == #[trigger] address_text(n) ==> match r {
            Ok(m) => m == n,
            Err(_) => n > i64::MAX,
        },
{
    parse_int::parse::<i64>(text).map_err(|e| e.to_string())
}

/// What `parse_int::parse::<u64>` makes of a text: a number, or none where it fails.
pub uninterp spec fn prefixed_u64(text: Seq<char>) -> Option<u64>;

/// `parse_int::parse::<u64>` reads an integer with an optional prefix that gives its base. A
/// number that fits is read back from `0x` and its hexadecimal digits.
#[verifier::external_body]
pub(crate) fn parse_prefixed_u64(text: &str) -> (r: Option<u64>)
    ensures
        r == prefixed_u64(text@),
        forall|n: nat| text@ == #[trigger] address_text(n) ==> match r {
            Some(m) => m == n,
            None => n > u64::MAX,
        },
{
    parse_int::parse::<u64>(text).ok()
}

/// The text that `base64::encode` makes of some bytes.
pub uninterp spec fn base64_encoded(bytes: Seq<u8>) -> Seq<char>;

/// What `base64::decode` makes of a text: bytes, or the message of its error.
pub uninterp spec fn base64_decoded(text: Seq<char>) -> Result<Seq<u8>, Seq<char>>;

/// The number of characters of `n` bytes in base64, padding included.
pub open spec fn base64_len(n: nat) -> nat {
    ((n + 2) / 3) * 4
}

/// `base64::encode` writes bytes in the standard alphabet with padding, and `base64::decode`
/// gives the same bytes back. It allocates the whole text at once, so the text has to fit.
#[verifier::external_body]
pub(crate) fn base64_encode(bytes: &Vec<u8>) -> (s: String)
    requires
        base64_len(bytes@.len()) <= isize::MAX,
    ensures
        s@ == base64_encoded(bytes@),
        base64_decoded(s@) is Ok && base64_decoded(s@)->Ok_0 == bytes@,
{
    base64::encode(bytes)
}

/// `base64::decode` reads the standard alphabet, and fails on a text that is not base64.
#[verifier::external_body]
pub(crate) fn base64_decode(text: &str) -> (r: Result<Vec<u8>, String>)
    ensures
        match r {
            Ok(bytes) => base64_decoded(text@) == Ok::<Seq<u8>, Seq<char>>(bytes@),
            Err(message) => base64_decoded(text@) == Err::<Seq<u8>, Seq<char>>(message@),
        },
{
    base64::decode(text).map_err(|e| e.to_string())
}

/// `ClangdMatcher::fuzzy_match`, with the case of letters ignored, finds a match just where the
/// characters of the pattern occur in order. The score of a match is not used.
#[verifier::external_body]
pub(crate) fn fuzzy_matches(choice: &str, pattern: &str) -> (r: bool)
    ensures
        r == occurs_in_order(choice@, pattern@),
{
    ClangdMatcher::default().ignore_case().fuzzy_match(choice, pattern).is_some()
}

/// A JSON value of `serde_json`.
#[verifier::external_type_specification]
#[verifier::external_body]
pub struct ExJsonValue(serde_json::Value);

/// The content of a JSON value, written out in compact form.
pub uninterp spec fn json_text(value: serde_json::Value) -> Seq<char>;

/// `serde_json::Value::to_string` writes a JSON value in compact form.
#[verifier::external_body]
pub(crate) fn json_to_string(value: &serde_json::Value) -> (s: String)
    ensures
        s@ == json_text(*value),
{
    value.to_string()
}

}
