//! Request headers.

use vstd::prelude::*;

use crate::text::{ascii_lowered, lemma_ascii_lower};

verus! {

/// The header map of a request, from the `http` crate.
#[verifier::external_type_specification]
#[verifier::external_body]
#[verifier::reject_recursive_types(T)]
pub struct ExHeaderMap<T>(hyper::HeaderMap<T>);

/// One header value, from the `http` crate.
#[verifier::external_type_specification]
#[verifier::external_body]
pub struct ExHeaderValue(hyper::header::HeaderValue);

/// The error of a header value that is not plain text.
#[verifier::external_type_specification]
#[verifier::external_body]
pub struct ExToStrError(hyper::header::ToStrError);

/// What a header map holds: under each name, in lower case, the bytes of its first value.
pub uninterp spec fn header_contents(
    headers: hyper::HeaderMap<hyper::header::HeaderValue>,
) -> Map<Seq<char>, Seq<u8>>;

/// The bytes that a header value holds.
pub uninterp spec fn header_bytes(value: hyper::header::HeaderValue) -> Seq<u8>;

/// `HeaderMap::get` looks a name up without regard to the case of its letters, and hands
/// out the first value stored under it. A name that is no header name is not found.
#[verifier::external_body]
fn header_get<'a>(
    headers: &'a hyper::HeaderMap<hyper::header::HeaderValue>,
    name: &str,
) -> (r: Option<&'a hyper::header::HeaderValue>)
    ensures
        r is Some <==> header_contents(*headers).contains_key(ascii_lowered(name@)),
        r matches Some(v) ==> header_bytes(*v) == header_contents(*headers)[ascii_lowered(name@)],
{
    headers.get(name)
}

/// The bytes that a header may hold and still be read as text.
pub open spec fn is_visible_ascii(b: u8) -> bool {
    32 <= b < 127 || b == 9
}

/// The text of a header value, unless it holds a byte that is not visible ASCII.
pub open spec fn header_value_text(bytes: Seq<u8>) -> Option<Seq<char>> {
    if forall|i: int| 0 <= i < bytes.len() ==> is_visible_ascii(#[trigger] bytes[i]) {
        Some(bytes.map_values(|b: u8| b as char))
    } else {
        None
    }
}

/// `HeaderValue::to_str` yields the value as text if all its bytes are visible ASCII or
/// tabs, and an error otherwise.
pub assume_specification[ hyper::header::HeaderValue::to_str ](
    value: &hyper::header::HeaderValue,
) -> (r: Result<&str, hyper::header::ToStrError>)
    ensures
        r is Ok <==> header_value_text(header_bytes(*value)) is Some,
        r matches Ok(s) ==> header_value_text(header_bytes(*value)) == Some(s@),
;

/// The text that a request carries under a header name, if it carries one.
pub open spec fn header_text(
    headers: hyper::HeaderMap<hyper::header::HeaderValue>,
    name: Seq<char>,
) -> Option<Seq<char>> {
    if header_contents(headers).contains_key(ascii_lowered(name)) {
        header_value_text(header_contents(headers)[ascii_lowered(name)])
    } else {
        None
    }
}

/// Reads a header as text. A header that is absent or not plain text is `None`.
pub fn read_header<'a>(
    headers: &'a hyper::HeaderMap<hyper::header::HeaderValue>,
    name: &str,
) -> (r: Option<&'a str>)
    ensures
        r is Some <==> header_text(*headers, name@) is Some,
        r matches Some(s) ==> header_text(*headers, name@) == Some(s@),
{
    match header_get(headers, name) {
        Some(value) => match value.to_str() {
            Ok(text) => Some(text),
            Err(_) => None,
        },
        None => None,
    }
}


/// A name without capital letters is looked up as it is.
pub proof fn lemma_plain_name(name: Seq<char>)
    requires
        forall|i: int|
            0 <= i < name.len() ==> !"ABCDEFGHIJKLMNOPQRSTUVWXYZ"@.contains(#[trigger] name[i]),
    ensures
        ascii_lowered(name) == name,
{
    assert forall|i: int| 0 <= i < name.len() implies ascii_lowered(name)[i] == name[i] by {
        lemma_ascii_lower(name[i]);
    }
    assert(ascii_lowered(name) =~= name);
}

/// A header is read as it was sent, byte for byte, unless one of its bytes is not visible ASCII.
/// A header that was not sent is not read.
pub proof fn lemma_read_header(
    headers: &hyper::HeaderMap<hyper::header::HeaderValue>,
    name: &str,
    r: Option<&str>,
)
    requires
        call_ensures(read_header, (headers, name), r),
        ascii_lowered(name@) == name@,
    ensures
        r is Some <==> header_contents(*headers).contains_key(name@) && forall|i: int|
            0 <= i < header_contents(*headers)[name@].len() ==> 32 <= (
            #[trigger] header_contents(*headers)[name@][i]) <= 126 || header_contents(
                *headers,
            )[name@][i] == 9,
        r matches Some(text) ==> text@.len() == header_contents(*headers)[name@].len() && forall|
            i: int,
        |
            0 <= i < text@.len() ==> (#[trigger] text@[i]) as u32 == header_contents(
                *headers,
            )[name@][i] as u32,
        r matches Some(text) ==> header_text(*headers, name@) == Some(text@),
        r is None ==> header_text(*headers, name@) is None,
{
    let bytes = header_contents(*headers)[name@];
    if r is Some {
        assert forall|i: int| 0 <= i < bytes.len() implies 32 <= (#[trigger] bytes[i]) <= 126
            || bytes[i] == 9 by {
            assert(is_visible_ascii(bytes[i]));
        }
    }
}

} // verus!
