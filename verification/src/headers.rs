//! Reading request headers out of an `axum::http::HeaderMap`.

use axum::http::{HeaderMap, HeaderValue};
use vstd::prelude::*;

verus! {

#[verifier::external_type_specification]
#[verifier::external_body]
#[verifier::reject_recursive_types(T)]
pub struct ExHeaderMap<T>(HeaderMap<T>);

#[verifier::external_type_specification]
#[verifier::external_body]
pub struct ExHeaderValue(HeaderValue);

/// The entries of a header map in its iteration order: each header name (which
/// the map keeps in lower case) with the bytes of one of its values. Where a
/// name has several values they follow each other, the first one first.
pub uninterp spec fn header_entries(headers: HeaderMap) -> Seq<(Seq<char>, Seq<u8>)>;

/// The bytes of a header value.
pub uninterp spec fn header_value_bytes(value: HeaderValue) -> Seq<u8>;

/// A header name as a caller may look it up here: not empty, made of lower-case
/// ASCII letters, digits and `-`.
pub open spec fn is_lower_header_name(name: Seq<char>) -> bool {
    &&& name.len() > 0
    &&& forall|i: int|
        0 <= i < name.len() ==> {
            let c = #[trigger] name[i];
            ('a' <= c && c <= 'z') || ('0' <= c && c <= '9') || c == '-'
        }
}

/// The bytes of the first value that `entries` holds for `name`.
pub open spec fn first_header_value(entries: Seq<(Seq<char>, Seq<u8>)>, name: Seq<char>) -> Option<
    Seq<u8>,
>
    decreases entries.len(),
{
    if entries.len() == 0 {
        None
    } else if entries[0].0 == name {
        Some(entries[0].1)
    } else {
        first_header_value(entries.drop_first(), name)
    }
}

/// A byte that may stand in a header value read as text: visible ASCII or tab.
pub open spec fn is_visible_ascii(b: u8) -> bool {
    (32 <= b && b < 127) || b == 9
}

/// Header value bytes read as text, one char per byte.
pub open spec fn ascii_text(bytes: Seq<u8>) -> Seq<char> {
    Seq::new(bytes.len(), |i: int| bytes[i] as char)
}

/// The text of the first value of header `name`, where that value is made of
/// visible ASCII; `None` where the header is absent or its first value is not.
pub open spec fn header_text_of(entries: Seq<(Seq<char>, Seq<u8>)>, name: Seq<char>) -> Option<
    Seq<char>,
> {
    match first_header_value(entries, name) {
        Some(bytes) => if forall|i: int| 0 <= i < bytes.len() ==> is_visible_ascii(#[trigger] bytes[i]) {
            Some(ascii_text(bytes))
        } else {
            None
        },
        None => None,
    }
}

/// `HeaderMap::get`: the first value stored under `name`, if any.
#[verifier::external_body]
fn header_get<'a>(headers: &'a HeaderMap, name: &str) -> (r: Option<&'a HeaderValue>)
    requires
        is_lower_header_name(name@),
    ensures
        match r {
            Some(v) => first_header_value(header_entries(*headers), name@) == Some(
                header_value_bytes(*v),
            ),
            None => first_header_value(header_entries(*headers), name@) is None,
        },
{
    headers.get(name)
}

/// `HeaderValue::to_str`: the value as text where every byte is visible ASCII
/// or a tab, else `None`.
#[verifier::external_body]
fn header_value_to_str<'a>(value: &'a HeaderValue) -> (r: Option<&'a str>)
    ensures
        match r {
            Some(s) => (forall|i: int|
                0 <= i < header_value_bytes(*value).len() ==> is_visible_ascii(
                    #[trigger] header_value_bytes(*value)[i],
                )) && s@ == ascii_text(header_value_bytes(*value)),
            None => !(forall|i: int|
                0 <= i < header_value_bytes(*value).len() ==> is_visible_ascii(
                    #[trigger] header_value_bytes(*value)[i],
                )),
        },
{
    value.to_str().ok()
}

/// The text of the first value of header `name`, or `None` where the header is
/// absent or that value is not visible ASCII.
pub fn header_text<'a>(headers: &'a HeaderMap, name: &str) -> (r: Option<&'a str>)
    requires
        is_lower_header_name(name@),
    ensures
        match r {
            Some(s) => header_text_of(header_entries(*headers), name@) == Some(s@),
            None => header_text_of(header_entries(*headers), name@) is None,
        },
{
    match header_get(headers, name) {
        Some(v) => header_value_to_str(v),
        None => None,
    }
}

} // verus!
