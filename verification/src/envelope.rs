//! The envelope codec: the tagged unit that the duplex connection carries.
//!
//! On the wire an envelope is a JSON object with a string member `type`, the
//! event kind, and a member `content`, the payload. Inside the library an
//! envelope holds the kind and the payload's compact JSON text.

use crate::json::{
    as_string, json_member, json_object, json_quoted, json_read, json_string, json_text, member,
    members_view, object_value, parse, string_value, to_text,
};
use vstd::prelude::*;

verus! {

/// A tagged unit of the duplex connection: an event kind and the payload's
/// JSON text.
#[derive(Debug, Clone, PartialEq, Eq)]
pub struct Envelope {
    pub kind: String,
    pub payload: String,
}

/// An envelope as a mathematical value.
pub struct EnvelopeView {
    pub kind: Seq<char>,
    pub payload: Seq<char>,
}

impl View for Envelope {
    type V = EnvelopeView;

    open spec fn view(&self) -> EnvelopeView {
        EnvelopeView { kind: self.kind@, payload: self.payload@ }
    }
}

/// The members of the JSON object that carries a payload under `kind`: the
/// kind as a JSON string, and the payload by its JSON text.
pub open spec fn envelope_members(kind: Seq<char>, payload: Seq<char>) -> Seq<
    (Seq<char>, Seq<char>),
> {
    seq![("type"@, json_quoted(kind)), ("content"@, payload)]
}

/// The text of the frame that carries a payload under `kind`.
pub open spec fn envelope_text(kind: Seq<char>, payload: Seq<char>) -> Seq<char> {
    json_object(envelope_members(kind, payload))
}

/// The envelope that the fields read from a document make: none without a
/// string kind.
pub open spec fn envelope_from_fields(kind: Option<Seq<char>>, payload: Seq<char>) -> Option<
    EnvelopeView,
> {
    match kind {
        Some(kind) => Some(EnvelopeView { kind, payload }),
        None => None,
    }
}

/// The envelope that a JSON document holds: its `type` member where that is a
/// string, with the text of its `content` member.
pub open spec fn envelope_in(doc: Seq<char>) -> Option<EnvelopeView> {
    envelope_from_fields(json_string(json_member(doc, "type"@)), json_member(doc, "content"@))
}

/// The envelope that a frame's text holds: none where the text is no JSON, or
/// where the document has no string member `type`.
pub open spec fn envelope_of_text(text: Seq<char>) -> Option<EnvelopeView> {
    match json_read(text) {
        Some(doc) => envelope_in(doc),
        None => None,
    }
}

impl Envelope {
    /// Whether the envelope names an event kind. Envelopes made by a
    /// publisher do; the register of a stream that has received nothing does
    /// not.
    pub open spec fn well_formed(self) -> bool {
        self.kind@.len() > 0
    }

    /// Whether the envelope names an event kind.
    pub fn is_well_formed(&self) -> (r: bool)
        ensures
            r == self.well_formed(),
    {
        !self.kind.as_str().is_empty()
    }

    /// The envelope of the given kind and payload text.
    pub fn new(kind: String, payload: String) -> (r: Envelope)
        ensures
            r@ == (EnvelopeView { kind: kind@, payload: payload@ }),
    {
        Envelope { kind, payload }
    }

    /// The envelope that the two fields read from a frame make: none where
    /// the frame had no string kind.
    pub fn from_fields(kind: Option<&str>, payload: String) -> (r: Option<Envelope>)
        ensures
            match r {
                Some(e) => envelope_from_fields(
                    match kind {
                        Some(k) => Some(k@),
                        None => None,
                    },
                    payload@,
                ) == Some(e@),
                None => kind is None,
            },
    {
        match kind {
            Some(k) => Some(Envelope { kind: k.to_owned(), payload }),
            None => None,
        }
    }

    /// Encodes a payload under an event kind: the frame text is the compact
    /// JSON object with the members `type` and `content`.
    ///
    /// Decoding the text gives the same kind and the payload's text back,
    /// provided the JSON reader reads the text as it was printed.
    pub fn encode(kind: String, content: serde_json::Value) -> (r: String)
        ensures
            r@ == envelope_text(kind@, json_text(content)),
            json_read(r@) == Some(r@) ==> envelope_of_text(r@) == Some(
                EnvelopeView { kind: kind@, payload: json_text(content) },
            ),
    {
        let ghost kind_view = kind@;
        let mut members: Vec<(String, serde_json::Value)> = Vec::new();
        members.push(("type".to_owned(), string_value(kind)));
        members.push(("content".to_owned(), content));
        proof {
            // The two names differ, so each is read back from the object.
            reveal_strlit("type");
            reveal_strlit("content");
            let view = members_view(members@);
            assert(view =~= envelope_members(kind_view, json_text(content)));
            assert(view[0].0.len() != view[1].0.len());
        }
        let doc = object_value(members);
        to_text(&doc)
    }

    /// Whether the JSON reader reads a text as it stands: the text is JSON,
    /// and the document read from it prints as the same text. A frame made by
    /// [`encode`](Envelope::encode) that reads back so decodes to the kind
    /// and the payload it was made from.
    pub fn reads_back(text: &str) -> (r: bool)
        ensures
            r == (json_read(text@) == Some(text@)),
    {
        match parse(text) {
            Ok(doc) => to_text(&doc) == text.to_owned(),
            Err(_) => false,
        }
    }

    /// Decodes a frame's text: the envelope it holds, or nothing where the
    /// text is no JSON or has no string member `type`. A document without a
    /// member `content` holds the payload `null`.
    pub fn decode(text: &str) -> (r: Option<Envelope>)
        ensures
            match r {
                Some(e) => envelope_of_text(text@) == Some(e@),
                None => envelope_of_text(text@) is None,
            },
    {
        match parse(text) {
            Ok(doc) => {
                let kind = as_string(member(&doc, "type"));
                let payload = to_text(member(&doc, "content"));
                Envelope::from_fields(kind, payload)
            },
            Err(_) => None,
        }
    }
}

} // verus!
