//! The HTTPS transport: single-shot calls, and the opening of duplex streams.
//!
//! The transport decides; it does not talk to the network. For a call it
//! says what to post where, and what the response means. For a stream it
//! says where to connect and which handshake to send first. Whoever drives it
//! performs those steps and hands the outcome back.

use crate::address::{parse_url, unable_to_connect, url_read, url_text};
use crate::error::{HTTPSTransportError, TransportError};
use crate::frame::{Frame, FrameView};
use crate::headers::{
    all_visible_ascii, ascii_text, header_entries, header_names, header_text, header_value,
};
use crate::json::{json_object, json_quoted, members_view, object_value, string_value, to_text};
use crate::stream::{Stream, StreamView, WebsocketStream};
use vstd::prelude::*;
use vstd::string::StringExecFns;

verus! {

/// The status code of a successful call.
pub const STATUS_OK: u16 = 200;

/// A call to perform: post `body` to `url`, with `extra` as the call's
/// metadata.
#[derive(Debug, Clone, PartialEq, Eq)]
pub struct Request<Extra> {
    pub url: String,
    pub body: String,
    pub extra: Extra,
}

/// What came back from a call: the status code and the whole body.
#[derive(Debug, Clone, PartialEq, Eq)]
pub struct Response {
    pub status: u16,
    pub body: String,
}

/// A response body, and which of the caller's two types it is to be decoded
/// as.
#[derive(Debug, Clone, PartialEq, Eq)]
pub enum Body {
    /// The body holds the success value.
    Success(String),
    /// The body holds the error value.
    Failure(String),
}

/// A stream to open: connect to `url` and send `handshake` before anything
/// else.
#[derive(Debug, PartialEq, Eq)]
pub struct Opening {
    pub url: reqwest::Url,
    pub handshake: Frame,
}

/// Key and value pairs, each string by its characters.
pub open spec fn pairs_view(pairs: Seq<(String, String)>) -> Seq<(Seq<char>, Seq<char>)> {
    pairs.map_values(|p: (String, String)| (p.0@, p.1@))
}

/// Whether every metadata value can be written as a string.
pub open spec fn all_convertible(entries: Seq<(Seq<char>, Seq<u8>)>) -> bool {
    forall|i: int| 0 <= i < entries.len() ==> all_visible_ascii((#[trigger] entries[i]).1)
}

/// The metadata as a plain mapping: each key with its value as a string, in
/// the order of the entries.
pub open spec fn metadata_of(entries: Seq<(Seq<char>, Seq<u8>)>) -> Seq<(Seq<char>, Seq<char>)> {
    entries.map_values(|e: (Seq<char>, Seq<u8>)| (e.0, ascii_text(e.1)))
}

/// The members of the handshake object: each key with its value as a JSON
/// string.
pub open spec fn handshake_members(pairs: Seq<(Seq<char>, Seq<char>)>) -> Seq<
    (Seq<char>, Seq<char>),
> {
    pairs.map_values(|p: (Seq<char>, Seq<char>)| (p.0, json_quoted(p.1)))
}

/// The text of the handshake frame: the flat JSON object that maps each key
/// to its string value, with no envelope around it.
pub open spec fn handshake_text(pairs: Seq<(Seq<char>, Seq<char>)>) -> Seq<char> {
    json_object(handshake_members(pairs))
}

/// What a response means: the body with the type to decode it as, chosen by
/// the status code alone.
pub open spec fn body_of(status: u16, body: Seq<char>) -> (bool, Seq<char>) {
    (status == STATUS_OK, body)
}

/// How a call ends whose body was decoded as the success type.
pub open spec fn accepted<Out, Error>(decoded: Result<Out, serde_json::Error>) -> Result<
    Result<Out, Error>,
    TransportError<HTTPSTransportError>,
> {
    match decoded {
        Ok(value) => Ok(Ok(value)),
        Err(e) => Err(TransportError::SerdeError(e)),
    }
}

/// How a call ends whose body was decoded as the error type.
pub open spec fn rejected<Out, Error>(decoded: Result<Error, serde_json::Error>) -> Result<
    Result<Out, Error>,
    TransportError<HTTPSTransportError>,
> {
    match decoded {
        Ok(value) => Ok(Err(value)),
        Err(e) => Err(TransportError::SerdeError(e)),
    }
}

/// Status decides: a response holds the success value with status 200 and
/// with no other status, whatever its body.
pub proof fn law_status_selects_the_type(status: u16, body: Seq<char>)
    ensures
        body_of(status, body).0 <==> status == 200,
        body_of(status, body).1 == body,
{
}

impl View for Body {
    /// Whether the body holds the success value, and its text.
    type V = (bool, Seq<char>);

    open spec fn view(&self) -> (bool, Seq<char>) {
        match self {
            Body::Success(text) => (true, text@),
            Body::Failure(text) => (false, text@),
        }
    }
}

/// A transport: single-shot calls, and the opening of duplex streams, under
/// one contract whatever the network behind it.
pub trait Transport {
    /// The call-level metadata that a caller hands over.
    type Extra;

    /// The streams that the transport opens.
    type Stream: Stream;

    /// The transport's own kind of failure.
    type TransportError;

    /// The address of an endpoint.
    spec fn address_of(&self, endpoint: Seq<char>) -> Seq<char>;

    /// The text of the handshake frame for the given metadata, or `None`
    /// where the metadata cannot be written as strings.
    spec fn handshake_of(extra: Self::Extra) -> Option<Seq<char>>;

    /// Starts a call: what to post, where, and with which metadata.
    ///
    /// `body` is what serialising the caller's payload gave. An error there
    /// is reported as `SerdeError` and no call is made.
    fn make_request(
        &self,
        endpoint: &str,
        body: Result<String, serde_json::Error>,
        extra: Self::Extra,
    ) -> (r: Result<Request<Self::Extra>, TransportError<Self::TransportError>>)
        ensures
            match body {
                Ok(text) => r matches Ok(request) && request.url@ == self.address_of(endpoint@)
                    && request.body@ == text@ && request.extra == extra,
                Err(e) => r == Err::<Request<Self::Extra>, TransportError<Self::TransportError>>(
                    TransportError::SerdeError(e),
                ),
            },
    ;

    /// Starts the opening of a stream: where to connect, and the handshake
    /// to send first, before any envelope.
    ///
    /// The handshake is one text frame with the metadata as a flat JSON
    /// object from each key to its value as a string. Metadata that cannot
    /// be written so, and an address that is no URL, fail the opening with
    /// the transport's own error, before any connection is made.
    fn open_stream(&self, endpoint: &str, extra: &Self::Extra) -> (r: Result<
        Opening,
        TransportError<Self::TransportError>,
    >)
        ensures
            match r {
                Ok(opening) => {
                    &&& url_read(self.address_of(endpoint@)) == Some(url_text(opening.url))
                    &&& opening.handshake@ is Text
                    &&& Self::handshake_of(*extra) == Some(opening.handshake@->Text_0)
                },
                Err(e) => {
                    &&& Self::handshake_of(*extra) is None || url_read(
                        self.address_of(endpoint@),
                    ) is None
                    &&& e is SelfError
                },
            },
    ;

    /// Ends the opening of a stream. `outcome` is what connecting and sending
    /// the handshake gave: the connection, or the failure of either step. A
    /// failure is reported as the transport's own error. A connection comes
    /// back with its stream, which starts with nothing received and nothing
    /// queued.
    fn established<C>(outcome: Result<C, Self::TransportError>) -> (r: Result<
        (C, Self::Stream),
        TransportError<Self::TransportError>,
    >)
        ensures
            match outcome {
                Ok(connection) => r matches Ok(pair) && pair.0 == connection && pair.1.state()
                    == StreamView::fresh(),
                Err(e) => r matches Err(failure) && failure == TransportError::SelfError(e),
            },
    ;
}

/// A transport that makes its calls under one base address.
pub struct HTTPSTransport {
    base_url: String,
}

impl View for HTTPSTransport {
    /// The base address.
    type V = Seq<char>;

    closed spec fn view(&self) -> Seq<char> {
        self.base_url@
    }
}

impl HTTPSTransport {
    /// The transport for the given base address.
    pub fn new(base_url: String) -> (r: HTTPSTransport)
        ensures
            r@ == base_url@,
    {
        HTTPSTransport { base_url }
    }

    /// The address of an endpoint: the base address followed by the
    /// endpoint.
    pub fn address(&self, endpoint: &str) -> (r: String)
        ensures
            r@ == self@ + endpoint@,
    {
        self.base_url.clone().concat(endpoint)
    }

    /// Converts call-level metadata into a plain mapping from each key to its
    /// value as a string. A key with several values gives its first. The
    /// conversion fails where a value is no visible ASCII, and only there.
    pub fn metadata(extra: &reqwest::header::HeaderMap) -> (r: Result<
        Vec<(String, String)>,
        reqwest::header::ToStrError,
    >)
        ensures
            match r {
                Ok(pairs) => all_convertible(header_entries(*extra)) && pairs_view(pairs@)
                    == metadata_of(header_entries(*extra)),
                Err(_) => !all_convertible(header_entries(*extra)),
            },
    {
        let ghost entries = header_entries(*extra);
        let names = header_names(extra);
        let mut pairs: Vec<(String, String)> = Vec::new();
        let mut i: usize = 0;
        while i < names.len()
            invariant
                entries == header_entries(*extra),
                i <= names.len(),
                names@.len() == entries.len(),
                forall|k: int| 0 <= k < names@.len() ==> (#[trigger] names@[k])@ == entries[k].0,
                pairs_view(pairs@) == metadata_of(entries.subrange(0, i as int)),
                forall|k: int| 0 <= k < i ==> all_visible_ascii((#[trigger] entries[k]).1),
            decreases names.len() - i,
        {
            let name = &names[i];
            assert(entries[i as int].0 == name@);
            match header_text(header_value(extra, name.as_str())) {
                Ok(text) => {
                    let ghost before = pairs@;
                    pairs.push((name.clone(), text.to_owned()));
                    assert(pairs_view(pairs@) =~= pairs_view(before).push((name@, text@)));
                },
                Err(e) => return Err(e),
            }
            i += 1;
        }
        Ok(pairs)
    }

    /// The handshake frame for a plain mapping: one text frame with the flat
    /// JSON object from each key to its string value.
    pub fn handshake(pairs: &Vec<(String, String)>) -> (r: Frame)
        ensures
            r@ == FrameView::Text(handshake_text(pairs_view(pairs@))),
    {
        let ghost all = pairs_view(pairs@);
        let mut members: Vec<(String, serde_json::Value)> = Vec::new();
        let mut i: usize = 0;
        while i < pairs.len()
            invariant
                i <= pairs@.len(),
                pairs_view(pairs@) == all,
                members_view(members@) == handshake_members(all.subrange(0, i as int)),
            decreases pairs@.len() - i,
        {
            let ghost before = members@;
            let key = pairs[i].0.clone();
            let value = pairs[i].1.clone();
            members.push((key, string_value(value)));
            assert(members_view(members@) =~= members_view(before).push(
                (all[i as int].0, json_quoted(all[i as int].1)),
            ));
            i += 1;
        }
        assert(all.subrange(0, i as int) =~= all);
        let doc = object_value(members);
        Frame::Text(to_text(&doc))
    }

    /// Reads the outcome of a call. A call that failed is reported as the
    /// transport's own error. A response with status 200 holds the success
    /// value; a response with any other status holds the error value.
    pub fn respond(outcome: Result<Response, HTTPSTransportError>) -> (r: Result<
        Body,
        TransportError<HTTPSTransportError>,
    >)
        ensures
            match outcome {
                Ok(response) => r matches Ok(body) && body@ == body_of(
                    response.status,
                    response.body@,
                ),
                Err(e) => r == Err::<Body, TransportError<HTTPSTransportError>>(
                    TransportError::SelfError(e),
                ),
            },
    {
        match outcome {
            Ok(response) => {
                if response.status == STATUS_OK {
                    Ok(Body::Success(response.body))
                } else {
                    Ok(Body::Failure(response.body))
                }
            },
            Err(e) => Err(TransportError::from(e)),
        }
    }

    /// Ends a call: the body is decoded as the type that the status chose,
    /// and as that type only. A body that holds the success value gives the
    /// inner `Ok`, one that holds the error value the inner `Err`; a body that
    /// does not decode gives `SerdeError`.
    pub fn conclude<
        Out,
        Error,
        F: FnOnce(&str) -> Result<Out, serde_json::Error>,
        G: FnOnce(&str) -> Result<Error, serde_json::Error>,
    >(body: &Body, as_success: F, as_failure: G) -> (r: Result<
        Result<Out, Error>,
        TransportError<HTTPSTransportError>,
    >)
        requires
            body is Success ==> forall|text: &str| text@ == body@.1 ==> as_success.requires((text,)),
            body is Failure ==> forall|text: &str| text@ == body@.1 ==> as_failure.requires((text,)),
        ensures
            match body {
                Body::Success(_) => exists|text: &str, decoded: Result<Out, serde_json::Error>|
                    text@ == body@.1 && as_success.ensures((text,), decoded) && r == accepted::<
                        Out,
                        Error,
                    >(decoded),
                Body::Failure(_) => exists|text: &str, decoded: Result<Error, serde_json::Error>|
                    text@ == body@.1 && as_failure.ensures((text,), decoded) && r == rejected::<
                        Out,
                        Error,
                    >(decoded),
            },
    {
        match body {
            Body::Success(text) => HTTPSTransport::accept(as_success(text.as_str())),
            Body::Failure(text) => HTTPSTransport::reject(as_failure(text.as_str())),
        }
    }

    /// Ends a call whose body was decoded as the success type: the decoded
    /// value, or `SerdeError` where decoding failed.
    pub fn accept<Out, Error>(decoded: Result<Out, serde_json::Error>) -> (r: Result<
        Result<Out, Error>,
        TransportError<HTTPSTransportError>,
    >)
        ensures
            r == accepted::<Out, Error>(decoded),
    {
        match decoded {
            Ok(value) => Ok(Ok(value)),
            Err(e) => Err(TransportError::SerdeError(e)),
        }
    }

    /// Ends a call whose body was decoded as the error type: the decoded
    /// error, or `SerdeError` where decoding failed.
    pub fn reject<Out, Error>(decoded: Result<Error, serde_json::Error>) -> (r: Result<
        Result<Out, Error>,
        TransportError<HTTPSTransportError>,
    >)
        ensures
            r == rejected::<Out, Error>(decoded),
    {
        match decoded {
            Ok(value) => Ok(Err(value)),
            Err(e) => Err(TransportError::SerdeError(e)),
        }
    }
}

impl Transport for HTTPSTransport {
    type Extra = reqwest::header::HeaderMap;

    type Stream = WebsocketStream;

    type TransportError = HTTPSTransportError;

    open spec fn address_of(&self, endpoint: Seq<char>) -> Seq<char> {
        self@ + endpoint
    }

    open spec fn handshake_of(extra: reqwest::header::HeaderMap) -> Option<Seq<char>> {
        if all_convertible(header_entries(extra)) {
            Some(handshake_text(metadata_of(header_entries(extra))))
        } else {
            None
        }
    }

    fn make_request(
        &self,
        endpoint: &str,
        body: Result<String, serde_json::Error>,
        extra: reqwest::header::HeaderMap,
    ) -> (r: Result<Request<reqwest::header::HeaderMap>, TransportError<HTTPSTransportError>>) {
        match body {
            Ok(text) => Ok(Request { url: self.address(endpoint), body: text, extra }),
            Err(e) => Err(TransportError::SerdeError(e)),
        }
    }

    /// A metadata value that is no visible ASCII cannot be written as a
    /// string: the opening then fails with `HeaderError`. With metadata that
    /// can be written, an address that is no URL fails the opening with
    /// `TungsteniteError`, the failure of a connection.
    fn open_stream(&self, endpoint: &str, extra: &reqwest::header::HeaderMap) -> (r: Result<
        Opening,
        TransportError<HTTPSTransportError>,
    >)
        ensures
            r matches Err(e) ==> if Self::handshake_of(*extra) is None {
                e matches TransportError::SelfError(HTTPSTransportError::HeaderError(_))
            } else {
                e matches TransportError::SelfError(HTTPSTransportError::TungsteniteError(_))
            },
    {
        match HTTPSTransport::metadata(extra) {
            Ok(pairs) => {
                let address = self.address(endpoint);
                match parse_url(address.as_str()) {
                    Some(url) => Ok(Opening { url, handshake: HTTPSTransport::handshake(&pairs) }),
                    None => Err(
                        TransportError::from(
                            HTTPSTransportError::TungsteniteError(unable_to_connect(address)),
                        ),
                    ),
                }
            },
            Err(e) => Err(TransportError::from(HTTPSTransportError::HeaderError(e))),
        }
    }

    fn established<C>(outcome: Result<C, HTTPSTransportError>) -> (r: Result<
        (C, WebsocketStream),
        TransportError<HTTPSTransportError>,
    >) {
        match outcome {
            Ok(connection) => Ok((connection, WebsocketStream::init())),
            Err(e) => Err(TransportError::from(e)),
        }
    }
}

} // verus!
