//! HTTP header fields, by `axum::http`.
use vstd::prelude::*;

verus! {

#[verifier::external_type_specification]
#[verifier::external_body]
#[verifier::reject_recursive_types(T)]
pub struct ExHeaderMap<T>(axum::http::HeaderMap<T>);

#[verifier::external_type_specification]
#[verifier::external_body]
pub struct ExHeaderValue(axum::http::HeaderValue);

/// The header fields of a request.
pub type Headers = axum::http::HeaderMap<axum::http::HeaderValue>;

/// The fields that `headers` holds: the lowercase name of each with the bytes
/// of its first value.
pub uninterp spec fn header_fields(headers: Headers) -> Map<Seq<char>, Seq<u8>>;

/// The bytes that a field value holds.
pub uninterp spec fn header_bytes(value: axum::http::HeaderValue) -> Seq<u8>;

/// Every byte is a visible ASCII character, a space or a tab.
pub open spec fn visible(bytes: Seq<u8>) -> bool {
    forall|i: int| 0 <= i < bytes.len() ==> 32 <= #[trigger] bytes[i] <= 126 || bytes[i] == 9
}

/// The text of ASCII bytes.
pub open spec fn ascii_text(bytes: Seq<u8>) -> Seq<char> {
    Seq::new(bytes.len(), |i: int| bytes[i] as char)
}

/// `axum::http::HeaderMap::get` for the `Authorization` field: its first value,
/// if the field is there.
#[verifier::external_body]
pub(crate) fn authorization_field(headers: &Headers) -> (r: Option<&axum::http::HeaderValue>)
    ensures
        match r {
            Some(value) => header_fields(*headers).contains_pair(
                "authorization"@,
                header_bytes(*value),
            ),
            None => !header_fields(*headers).contains_key("authorization"@),
        },
{
    headers.get(axum::http::header::AUTHORIZATION)
}

/// `axum::http::HeaderValue::to_str`: the value as text, if all of it is visible
/// ASCII.
#[verifier::external_body]
pub(crate) fn header_text(value: &axum::http::HeaderValue) -> (r: Option<&str>)
    ensures
        match r {
            Some(text) => visible(header_bytes(*value)) && text@ == ascii_text(
                header_bytes(*value),
            ),
            None => !visible(header_bytes(*value)),
        },
{
    value.to_str().ok()
}

} // verus!
