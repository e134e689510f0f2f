//! The headers of outgoing requests.

use reqwest::header::HeaderMap;
use reqwest::header::HeaderValue;
use vstd::prelude::*;

verus! {

/// `reqwest::header::HeaderMap`: a list of headers.
#[verifier::external_type_specification]
#[verifier::external_body]
#[verifier::reject_recursive_types(T)]
pub struct ExHeaderMap<T>(reqwest::header::HeaderMap<T>);

/// `reqwest::header::HeaderValue`: the value of a header.
#[verifier::external_type_specification]
#[verifier::external_body]
pub struct ExHeaderValue(reqwest::header::HeaderValue);

/// Calls `clone` on the headers, which is derived field by field, as is that of their values.
/// Claims that the copy is the same list of headers.
#[verifier::external_body]
pub(crate) fn copy_headers(headers: &HeaderMap<HeaderValue>) -> (r: HeaderMap<HeaderValue>)
    ensures
        r == *headers,
{
    headers.clone()
}

} // verus!
