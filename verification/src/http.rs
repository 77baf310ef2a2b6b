//! What the tool asks of HTTP: the `PRIVATE-TOKEN` header that carries the
//! GitLab token, and the classification of response status codes.

use reqwest::header::{HeaderValue, InvalidHeaderValue};
use vstd::prelude::*;
use vstd::string::StringSliceAdditionalSpecFns;

use crate::error::GtoglError;

verus! {

/// `reqwest::header::HeaderValue`, an opaque value of an HTTP header.
#[verifier::external_type_specification]
#[verifier::external_body]
pub struct ExHeaderValue(HeaderValue);

/// `reqwest::header::InvalidHeaderValue`, the error of a rejected header value.
#[verifier::external_type_specification]
#[verifier::external_body]
pub struct ExInvalidHeaderValue(InvalidHeaderValue);

/// A byte that may stand in an HTTP header value: visible ASCII, space,
/// horizontal tab, or any byte from 0x80 up.
pub open spec fn is_header_value_byte(b: u8) -> bool {
    (b >= 32 && b != 127) || b == 9
}

/// Every byte of the UTF-8 encoding of `s` may stand in a header value.
pub open spec fn is_valid_header_value(s: &str) -> bool {
    forall|i: int| 0 <= i < s.spec_bytes().len() ==> is_header_value_byte(#[trigger] s.spec_bytes()[i])
}

/// The header value that holds exactly `bytes` and is not marked sensitive.
pub uninterp spec fn header_value_of(bytes: Seq<u8>) -> HeaderValue;

/// `reqwest::header::HeaderValue::from_str` (the `http` crate's): it checks
/// every byte of `s` and fails exactly when one of them may not stand in a
/// header value; on success it returns the value that holds a copy of the
/// bytes of `s`, not marked sensitive, which depends on those bytes alone.
#[verifier::external_body]
fn header_value_from_str(s: &str) -> (res: Result<HeaderValue, InvalidHeaderValue>)
    ensures
        res is Ok <==> is_valid_header_value(s),
        res matches Ok(v) ==> v == header_value_of(s.spec_bytes()),
{
    HeaderValue::from_str(s)
}

/// The value of the `PRIVATE-TOKEN` header that authenticates a request to
/// the GitLab API, or `InvalidToken` when the token cannot be sent in one.
pub fn private_token_header(token: &str) -> (res: Result<HeaderValue, GtoglError>)
    ensures
        res is Ok <==> is_valid_header_value(token),
        res matches Ok(v) ==> v == header_value_of(token.spec_bytes()),
        res matches Err(e) ==> e == GtoglError::InvalidToken,
{
    match header_value_from_str(token) {
        Ok(value) => Ok(value),
        Err(_) => Err(GtoglError::InvalidToken),
    }
}

/// Whether an HTTP status code is a server error (500 to 599), as
/// `StatusCode::is_server_error` decides it.
pub fn is_server_error(status: u16) -> (res: bool)
    ensures
        res == (500 <= status < 600),
{
    500 <= status && status < 600
}

} // verus!
