//! The call-level metadata of the HTTPS transport: a `reqwest` header map.
//!
//! The map is `reqwest`'s (the `http` crate's) own collection. This module
//! declares it, gives its contents a name and wraps the ways in which the
//! transport reads it. Nothing in this module is proved: the contracts are
//! taken on trust from the `http` crate.

use vstd::prelude::*;

verus! {

/// `reqwest::header::HeaderMap`: the headers of a call, opaque to the
/// verifier.
#[verifier::external_type_specification]
#[verifier::external_body]
#[verifier::reject_recursive_types(T)]
pub struct ExHeaderMap<T>(reqwest::header::HeaderMap<T>);

/// `reqwest::header::HeaderValue`: the value of one header, opaque to the
/// verifier.
#[verifier::external_type_specification]
#[verifier::external_body]
pub struct ExHeaderValue(reqwest::header::HeaderValue);

/// What a header map holds, as the transport reads it: its keys in the order
/// in which `HeaderMap::keys` visits them, each with the bytes of the first
/// value stored under it.
pub uninterp spec fn header_entries(map: reqwest::header::HeaderMap) -> Seq<(Seq<char>, Seq<u8>)>;

/// Whether a byte is visible ASCII in the sense of `HeaderValue::to_str`: a
/// printable character, a space or a tab.
pub open spec fn is_visible_ascii(b: u8) -> bool {
    (32 <= b && b < 127) || b == 9
}

/// Whether every byte of a header value is visible ASCII.
pub open spec fn all_visible_ascii(bytes: Seq<u8>) -> bool {
    forall|i: int| 0 <= i < bytes.len() ==> is_visible_ascii(#[trigger] bytes[i])
}

/// The characters of a header value of ASCII bytes.
pub open spec fn ascii_text(bytes: Seq<u8>) -> Seq<char> {
    bytes.map_values(|b: u8| b as char)
}

/// What a header value holds: its bytes.
pub uninterp spec fn header_bytes(value: reqwest::header::HeaderValue) -> Seq<u8>;

/// Whether `name` is a key of the entries.
pub open spec fn has_name(entries: Seq<(Seq<char>, Seq<u8>)>, name: Seq<char>) -> bool {
    exists|i: int| 0 <= i < entries.len() && (#[trigger] entries[i]).0 == name
}

/// Walks `HeaderMap::keys` and hands out each key as a string
/// (`HeaderName::as_str`).
///
/// Trusted: the names come in the order of [`header_entries`], one for each
/// entry.
#[verifier::external_body]
pub(crate) fn header_names(map: &reqwest::header::HeaderMap) -> (r: Vec<String>)
    ensures
        r@.len() == header_entries(*map).len(),
        forall|i: int| 0 <= i < r@.len() ==> (#[trigger] r@[i])@ == header_entries(*map)[i].0,
{
    map.keys().map(|key| key.as_str().to_string()).collect()
}

/// Indexes a `HeaderMap` by a header's name (`Index`).
///
/// Trusted: the value reached is the first one stored under the name; its
/// bytes are those that [`header_entries`] pairs with the name. The index
/// panics for a name that the map does not hold, so such a name is left out.
#[verifier::external_body]
pub(crate) fn header_value<'a>(map: &'a reqwest::header::HeaderMap, name: &str) -> (r:
    &'a reqwest::header::HeaderValue)
    requires
        has_name(header_entries(*map), name@),
    ensures
        forall|i: int|
            0 <= i < header_entries(*map).len() && (#[trigger] header_entries(*map)[i]).0
                == name@ ==> header_bytes(*r) == header_entries(*map)[i].1,
{
    &map[name]
}

/// Calls `HeaderValue::to_str`.
///
/// Trusted: the outcome is `Ok` exactly where every byte of the value is
/// visible ASCII, and then holds those bytes as characters.
#[verifier::external_body]
pub(crate) fn header_text<'a>(value: &'a reqwest::header::HeaderValue) -> (r: Result<
    &'a str,
    reqwest::header::ToStrError,
>)
    ensures
        match r {
            Ok(text) => all_visible_ascii(header_bytes(*value)) && text@ == ascii_text(
                header_bytes(*value),
            ),
            Err(_) => !all_visible_ascii(header_bytes(*value)),
        },
{
    value.to_str()
}

} // verus!
