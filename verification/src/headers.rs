//! Reading request headers.

use axum::http::{HeaderMap, HeaderValue};
use vstd::prelude::*;

use crate::text::ascii_lowered;

verus! {

/// `axum::http::HeaderMap`, a multimap from header names to values.
#[verifier::external_type_specification]
#[verifier::external_body]
#[verifier::reject_recursive_types(T)]
pub struct ExHeaderMap<T>(HeaderMap<T>);

/// `axum::http::HeaderValue`, the bytes of one header value.
#[verifier::external_type_specification]
#[verifier::external_body]
pub struct ExHeaderValue(HeaderValue);

/// What a look-up by name finds in a header map: for each text in lower case that it
/// finds something under, the values there, in the order in which they were added.
/// The names that are asked for here are tokens, made of letters and hyphens. A map
/// can hold a name that no look-up by text finds; nothing is said of such a name.
pub uninterp spec fn header_contents(headers: HeaderMap<HeaderValue>) -> Map<Seq<char>, Seq<Seq<u8>>>;

/// The bytes that a header value holds.
pub uninterp spec fn header_bytes(value: HeaderValue) -> Seq<u8>;

/// Printable ASCII, the space and the tab.
pub open spec fn is_visible_ascii(b: u8) -> bool {
    32 <= b < 127 || b == 9
}

/// `HeaderMap::get` for a name in any case: the first value that the map holds
/// under the name in lower case, if there is one.
#[verifier::external_body]
fn get_header<'a>(headers: &'a HeaderMap, name: &str) -> (r: Option<&'a HeaderValue>)
    ensures
        match r {
            Some(value) => {
                &&& header_contents(*headers).dom().contains(ascii_lowered(name@))
                &&& header_contents(*headers)[ascii_lowered(name@)].len() > 0
                &&& header_bytes(*value) == header_contents(*headers)[ascii_lowered(
                    name@,
                )].first()
            },
            None => !header_contents(*headers).dom().contains(ascii_lowered(name@)),
        },
{
    headers.get(name)
}

/// `HeaderValue::to_str`: the value as text, unless it holds a byte that is not
/// visible ASCII.
#[verifier::external_body]
fn value_text<'a>(value: &'a HeaderValue) -> (r: Option<&'a str>)
    ensures
        r.deep_view() == text_of_value(header_bytes(*value)),
{
    value.to_str().ok()
}

/// The text under `name`, in any case, if its first value is visible ASCII throughout.
pub open spec fn header_text_of(headers: HeaderMap<HeaderValue>, name: Seq<char>) -> Option<Seq<char>> {
    if header_contents(headers).dom().contains(ascii_lowered(name)) {
        text_of_value(header_contents(headers)[ascii_lowered(name)].first())
    } else {
        None
    }
}

/// A header value as text, unless it holds a byte that is not visible ASCII.
pub open spec fn text_of_value(bytes: Seq<u8>) -> Option<Seq<char>> {
    if forall|i: int| 0 <= i < bytes.len() ==> is_visible_ascii(#[trigger] bytes[i]) {
        Some(bytes.map_values(|b: u8| b as char))
    } else {
        None
    }
}

/// The text under `name`, in any case, if there is one.
pub fn header_text(headers: &HeaderMap, name: &str) -> (r: Option<String>)
    ensures
        r.deep_view() == header_text_of(*headers, name@),
{
    match get_header(headers, name) {
        Some(value) => match value_text(value) {
            Some(text) => Some(text.to_owned()),
            None => None,
        },
        None => None,
    }
}

/// A header value is read character by character, unless a byte of it is a control
/// other than the tab, or beyond ASCII.
pub proof fn visible_values_are_read(bytes: Seq<u8>)
    ensures
        text_of_value(bytes) is None <==> exists|i: int|
            0 <= i < bytes.len() && ((#[trigger] bytes[i]) < 32 && bytes[i] != 9 || bytes[i] >= 127),
        text_of_value(bytes) matches Some(text) ==> text.len() == bytes.len() && forall|i: int|
            0 <= i < bytes.len() ==> (#[trigger] text[i]) as u32 == bytes[i],
{
    if text_of_value(bytes) is Some {
        assert forall|i: int| 0 <= i < bytes.len() implies is_visible_ascii(
            #[trigger] bytes[i],
        ) by {}
    } else {
        let i = choose|i: int| 0 <= i < bytes.len() && !is_visible_ascii(#[trigger] bytes[i]);
        assert(bytes[i] < 32 && bytes[i] != 9 || bytes[i] >= 127);
    }
}

/// A header is read by its first value: it is looked up in any case, further values
/// and other headers play no part, and without a value there is no text.
pub proof fn first_value_is_read(
    headers: HeaderMap<HeaderValue>,
    name: Seq<char>,
    values: Seq<Seq<u8>>,
)
    ensures
        header_contents(headers).contains_pair(ascii_lowered(name), values) ==> header_text_of(
            headers,
            name,
        ) == text_of_value(values[0]),
        !header_contents(headers).dom().contains(ascii_lowered(name)) ==> header_text_of(
            headers,
            name,
        ) is None,
{
}

} // verus!
