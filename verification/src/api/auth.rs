//! `Authorization` headers for the keygen.sh API.
//!
//! keygen.sh accepts `Bearer <token>` for admin, product, user and
//! environment tokens, and `License <key>` for license-key authentication.

use vstd::prelude::*;
use vstd::utf8::encode_utf8;
use reqwest::header::{HeaderName, HeaderValue};
use crate::text::concat;

verus! {

#[verifier::external_type_specification]
#[verifier::external_body]
pub struct ExHeaderName(reqwest::header::HeaderName);

#[verifier::external_type_specification]
#[verifier::external_body]
pub struct ExHeaderValue(reqwest::header::HeaderValue);

/// Whether a byte may stand in a header value: anything from space upwards
/// but DEL, or a tab.
pub open spec fn header_byte_ok(b: u8) -> bool {
    (b >= 32 && b != 127) || b == 9
}

/// Whether every UTF-8 byte of a text may stand in a header value.
pub open spec fn valid_header_text(s: Seq<char>) -> bool {
    forall|i: int| 0 <= i < encode_utf8(s).len() ==> #[trigger] header_byte_ok(encode_utf8(s)[i])
}

/// The header value built from a text.
pub uninterp spec fn header_value_of(text: Seq<char>) -> HeaderValue;

/// `HeaderValue::from_str`: succeeds exactly when every byte of the text
/// may stand in a header value (the source checks each byte for
/// `b >= 32 && b != 127 || b == b'\t'`), and then the value depends on the
/// text alone.
#[verifier::external_body]
fn header_value(text: &str) -> (r: Option<HeaderValue>)
    ensures
        r is Some <==> valid_header_text(text@),
        r matches Some(v) ==> v == header_value_of(text@),
{
    HeaderValue::from_str(text).ok()
}

/// `reqwest::header::AUTHORIZATION`, the `Authorization` header name.
/// Nothing is stated of the value.
#[verifier::external_body]
fn authorization() -> HeaderName {
    reqwest::header::AUTHORIZATION
}

/// `Authorization: <scheme> <credential>`, or `None` when the text cannot be
/// a header value.
fn scheme_header(scheme: &str, credential: &str) -> (r: Option<(HeaderName, HeaderValue)>)
    ensures
        r is Some <==> valid_header_text(scheme@ + credential@),
        r matches Some((_, v)) ==> v == header_value_of(scheme@ + credential@),
{
    let text = concat(scheme, credential);
    match header_value(text.as_str()) {
        Some(v) => Some((authorization(), v)),
        None => None,
    }
}

/// The `Authorization: Bearer <token>` header, or `None` when the token
/// holds a byte a header value cannot.
pub fn bearer(token: &str) -> (r: Option<(HeaderName, HeaderValue)>)
    ensures
        r is Some <==> valid_header_text("Bearer "@ + token@),
        r matches Some((_, v)) ==> v == header_value_of("Bearer "@ + token@),
{
    scheme_header("Bearer ", token)
}

/// The `Authorization: License <key>` header, or `None` when the key holds a
/// byte a header value cannot.
pub fn license(key: &str) -> (r: Option<(HeaderName, HeaderValue)>)
    ensures
        r is Some <==> valid_header_text("License "@ + key@),
        r matches Some((_, v)) ==> v == header_value_of("License "@ + key@),
{
    scheme_header("License ", key)
}

} // verus!
