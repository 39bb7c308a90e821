//! What the helper takes from `axum::http` and says in HTTP.

use crate::text;
use axum::http::{HeaderValue, StatusCode};
use vstd::prelude::*;

verus! {

/// Whether `b` is a visible ASCII character, a space or a tab.
pub open spec fn is_visible(b: u8) -> bool {
    32 <= b < 127 || b == 9
}

/// Whether `b` may stand in a header value.
pub open spec fn is_header_byte(b: u8) -> bool {
    b >= 32 && b != 127 || b == 9
}

/// Whether `text` can be sent as a header value.
pub open spec fn can_be_header(text: Seq<char>) -> bool {
    let bytes = vstd::utf8::encode_utf8(text);
    forall|i: int| 0 <= i < bytes.len() ==> is_header_byte(#[trigger] bytes[i])
}

/// The text of a header value, where all of it is visible ASCII.
pub open spec fn header_text(value: Seq<u8>) -> Option<Seq<char>> {
    if forall|i: int| 0 <= i < value.len() ==> is_visible(#[trigger] value[i]) {
        Some(value.map_values(|b: u8| b as char))
    } else {
        None
    }
}

/// `HeaderValue::to_str`, on the bytes of a header value.
///
/// Claimed: it gives the bytes as text exactly where all of them are visible ASCII, spaces and
/// tabs. Every such byte string is a header value.
#[verifier::external_body]
pub(crate) fn visible_text(value: &[u8]) -> (text: Option<String>)
    ensures
        text::option_view(text) == header_text(value@),
{
    HeaderValue::from_bytes(value).ok()?.to_str().ok().map(str::to_owned)
}

/// `HeaderValue::from_str`: whether `text` can be sent as a header value.
///
/// Claimed: it can exactly where each byte of it may stand in one: no control character but the
/// tab, and not DEL.
#[verifier::external_body]
pub(crate) fn is_header_value(text: &str) -> (yes: bool)
    ensures
        yes == can_be_header(text@),
{
    HeaderValue::from_str(text).is_ok()
}

/// `StatusCode::from_u16`: whether `code` is an HTTP status code.
///
/// Claimed: it is exactly where it has three digits.
#[verifier::external_body]
pub(crate) fn is_status_code(code: u16) -> (yes: bool)
    ensures
        yes == (100 <= code <= 999),
{
    StatusCode::from_u16(code).is_ok()
}

/// What `axum::http` calls the status `code`: its canonical reason, or that it is unknown.
pub uninterp spec fn reason_phrase(code: u16) -> Seq<char>;

/// The `Display` of `StatusCode`.
///
/// Claimed: it is the code in decimal, a space and the name of the status.
#[verifier::external_body]
pub(crate) fn status_text(code: u16) -> (text: String)
    requires
        100 <= code <= 999,
    ensures
        text@ == text::decimal(code as nat) + " "@ + reason_phrase(code),
{
    StatusCode::from_u16(code).map(|code| code.to_string()).unwrap_or_default()
}

/// The text of a header that may be absent.
pub open spec fn header_text_of(value: Option<Seq<u8>>) -> Option<Seq<char>> {
    match value {
        Some(value) => header_text(value),
        None => None,
    }
}

/// The bytes of a header that may be absent.
pub open spec fn header_bytes(value: Option<Vec<u8>>) -> Option<Seq<u8>> {
    match value {
        Some(value) => Some(value@),
        None => None,
    }
}

/// The text of a header that may be absent.
pub fn optional_header_text(value: &Option<Vec<u8>>) -> (text: Option<String>)
    ensures
        text::option_view(text) == header_text_of(header_bytes(*value)),
{
    match value {
        Some(value) => visible_text(value),
        None => None,
    }
}

/// Text that was read from a header can be sent in one.
pub proof fn lemma_header_text_is_header_value(value: Seq<u8>)
    requires
        header_text(value) is Some,
    ensures
        can_be_header(header_text(value)->0),
{
    let chars = header_text(value)->0;
    assert forall|i: int| 0 <= i < chars.len() implies 0 <= (#[trigger] chars[i]) as u32 <= 127 by {
        assert(is_visible(value[i]));
    }
    vstd::utf8::is_ascii_chars_encode_utf8(chars);
    let bytes = vstd::utf8::encode_utf8(chars);
    assert forall|i: int| 0 <= i < bytes.len() implies is_header_byte(#[trigger] bytes[i]) by {
        assert(is_visible(value[i]));
        assert(bytes[i] == value[i]);
    }
}

} // verus!
