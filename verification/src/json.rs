//! The JSON documents that frames and handshakes are made of.
//!
//! Parsing and printing JSON is `serde_json`'s work. This module declares its
//! document type, gives a name to what each of its operations returns, and
//! wraps each operation in a function whose contract is stated over those
//! names. To the verifier a document is what it prints as: its compact JSON
//! text, which tells all there is to know of it. Nothing in this module is
//! proved: the contracts are taken on trust from `serde_json`.

use vstd::prelude::*;

verus! {

/// `serde_json::Value`: a JSON document, opaque to the verifier.
#[verifier::external_type_specification]
#[verifier::external_body]
pub struct ExValue(serde_json::Value);

/// `serde_json::Error`: why a text is no JSON, or a value none of the expected
/// type. Opaque to the verifier, carried through to the caller.
#[verifier::external_type_specification]
#[verifier::external_body]
pub struct ExJsonError(serde_json::Error);

/// What a document holds: the compact JSON text that it prints as (its
/// `Display`).
pub uninterp spec fn json_text(doc: serde_json::Value) -> Seq<char>;

/// What `serde_json::from_str::<Value>` reads from `text`: the compact text
/// of the document, or `None` where it reports an error.
pub uninterp spec fn json_read(text: Seq<char>) -> Option<Seq<char>>;

/// The text of the member that indexing a document by the string `key`
/// gives: the member of that name where the document is an object that has
/// one, JSON `null` otherwise.
pub uninterp spec fn json_member(doc: Seq<char>, key: Seq<char>) -> Seq<char>;

/// What `Value::as_str` gives for a document: its characters where the
/// document is a JSON string, `None` otherwise.
pub uninterp spec fn json_string(doc: Seq<char>) -> Option<Seq<char>>;

/// The text of the JSON string with the characters `s` (`Value::String`).
pub uninterp spec fn json_quoted(s: Seq<char>) -> Seq<char>;

/// The text of the JSON object collected from the given members, each a name
/// with the text of its value (`Value::Object` of a `serde_json::Map`
/// collected from the pairs, in their order).
pub uninterp spec fn json_object(members: Seq<(Seq<char>, Seq<char>)>) -> Seq<char>;

/// The members of an object under construction: each name by its characters,
/// each value by its text.
pub open spec fn members_view(members: Seq<(String, serde_json::Value)>) -> Seq<
    (Seq<char>, Seq<char>),
> {
    members.map_values(|m: (String, serde_json::Value)| (m.0@, json_text(m.1)))
}

/// Whether the name at `i` occurs at no other place in `members`.
pub open spec fn name_occurs_once(members: Seq<(Seq<char>, Seq<char>)>, i: int) -> bool {
    forall|j: int| 0 <= j < members.len() && j != i ==> members[j].0 != #[trigger] members[i].0
}

/// Calls `serde_json::from_str::<serde_json::Value>`.
///
/// Trusted: the outcome depends on the text alone. It is the document whose
/// text [`json_read`] names, and an error exactly where [`json_read`] is
/// `None`.
#[verifier::external_body]
pub(crate) fn parse(text: &str) -> (r: Result<serde_json::Value, serde_json::Error>)
    ensures
        match r {
            Ok(doc) => json_read(text@) == Some(json_text(doc)),
            Err(_) => json_read(text@) is None,
        },
{
    serde_json::from_str::<serde_json::Value>(text)
}

/// Indexes a `serde_json::Value` by a string (`Index<&str>`).
///
/// Trusted: the member reached depends on the document and the key alone; it
/// is the one whose text [`json_member`] names. Indexing never panics: a
/// missing member, or a document that is no object, gives JSON `null`.
#[verifier::external_body]
pub(crate) fn member<'a>(doc: &'a serde_json::Value, key: &str) -> (r: &'a serde_json::Value)
    ensures
        json_text(*r) == json_member(json_text(*doc), key@),
{
    &doc[key]
}

/// Calls `serde_json::Value::as_str`.
///
/// Trusted: the result is the one named by [`json_string`]: the characters
/// of a JSON string, and `None` for every other document.
#[verifier::external_body]
pub(crate) fn as_string<'a>(doc: &'a serde_json::Value) -> (r: Option<&'a str>)
    ensures
        match r {
            Some(s) => json_string(json_text(*doc)) == Some(s@),
            None => json_string(json_text(*doc)) is None,
        },
{
    doc.as_str()
}

/// Prints a `serde_json::Value` in compact form (`to_string`, by its
/// `Display`).
///
/// Trusted: the text depends on the document alone; it is the one named by
/// [`json_text`].
#[verifier::external_body]
pub(crate) fn to_text(doc: &serde_json::Value) -> (r: String)
    ensures
        r@ == json_text(*doc),
{
    doc.to_string()
}

/// Builds `serde_json::Value::String`.
///
/// Trusted: the document's text is the one named by [`json_quoted`], and
/// `as_str` reads the same characters back from it.
#[verifier::external_body]
pub(crate) fn string_value(s: String) -> (r: serde_json::Value)
    ensures
        json_text(r) == json_quoted(s@),
        json_string(json_text(r)) == Some(s@),
{
    serde_json::Value::String(s)
}

/// Collects the pairs into a `serde_json::Map` and builds
/// `serde_json::Value::Object` from it.
///
/// Trusted: the document's text is the one named by [`json_object`];
/// indexing the document by a name that occurs once among the pairs gives
/// the value paired with that name. Of a name that occurs more than once
/// nothing is claimed.
#[verifier::external_body]
pub(crate) fn object_value(members: Vec<(String, serde_json::Value)>) -> (r: serde_json::Value)
    ensures
        json_text(r) == json_object(members_view(members@)),
        forall|i: int|
            0 <= i < members@.len() && name_occurs_once(members_view(members@), i)
                ==> json_member(json_text(r), #[trigger] members_view(members@)[i].0)
                == members_view(members@)[i].1,
{
    serde_json::Value::Object(members.into_iter().collect())
}

} // verus!
