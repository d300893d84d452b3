use lugma_rs_helpers::{
    Body, Envelope, Frame, HTTPSTransport, HTTPSTransportError, Opening, Request, Response,
    Stream, Transport, TransportError, WebsocketStream,
};
use reqwest::header::{HeaderMap, HeaderName, HeaderValue};
use std::collections::BTreeMap;

type Numbers = BTreeMap<String, u64>;
type Texts = BTreeMap<String, String>;

fn transport() -> HTTPSTransport {
    HTTPSTransport::new("https://example.org/api".to_string())
}

fn finish(response: Response) -> Result<Result<Numbers, Texts>, TransportError<HTTPSTransportError>> {
    let body = HTTPSTransport::respond(Ok(response))?;
    HTTPSTransport::conclude(
        &body,
        |text| serde_json::from_str::<Numbers>(text),
        |text| serde_json::from_str::<Texts>(text),
    )
}

#[test]
fn status_based_decode_selection() {
    let ok = Response { status: 200, body: "{\"x\":1}".to_string() };
    assert_eq!(
        HTTPSTransport::respond(Ok(ok.clone())).unwrap(),
        Body::Success("{\"x\":1}".to_string())
    );
    let mut numbers = Numbers::new();
    numbers.insert("x".to_string(), 1);
    assert_eq!(finish(ok).unwrap(), Ok(numbers));

    let missing = Response { status: 404, body: "{\"msg\":\"not found\"}".to_string() };
    assert_eq!(
        HTTPSTransport::respond(Ok(missing.clone())).unwrap(),
        Body::Failure("{\"msg\":\"not found\"}".to_string())
    );
    let mut texts = Texts::new();
    texts.insert("msg".to_string(), "not found".to_string());
    assert_eq!(finish(missing).unwrap(), Err(texts));
}

#[test]
fn only_status_200_is_success() {
    for status in [0u16, 100, 199, 201, 204, 299, 301, 400, 404, 500, 65535] {
        let response = Response { status, body: "{}".to_string() };
        assert_eq!(
            HTTPSTransport::respond(Ok(response)).unwrap(),
            Body::Failure("{}".to_string())
        );
    }
    let response = Response { status: 200, body: "{}".to_string() };
    assert_eq!(HTTPSTransport::respond(Ok(response)).unwrap(), Body::Success("{}".to_string()));
}

#[test]
fn a_body_of_the_wrong_shape_is_a_serde_error() {
    let ok = Response { status: 200, body: "{\"msg\":\"not found\"}".to_string() };
    assert!(matches!(finish(ok), Err(TransportError::SerdeError(_))));
    let missing = Response { status: 404, body: "{\"x\":1}".to_string() };
    assert!(matches!(finish(missing), Err(TransportError::SerdeError(_))));
    let broken = Response { status: 200, body: "<html>".to_string() };
    assert!(matches!(finish(broken), Err(TransportError::SerdeError(_))));
}

#[test]
fn a_failed_call_is_the_transports_own_error() {
    let failure = reqwest::Client::new().get("not a url").build().unwrap_err();
    let message = failure.to_string();
    match HTTPSTransport::respond(Err(HTTPSTransportError::ReqwestError(failure))) {
        Err(TransportError::SelfError(HTTPSTransportError::ReqwestError(e))) => {
            assert_eq!(e.to_string(), message)
        }
        other => panic!("expected the call's error, got {:?}", other),
    }
}

#[test]
fn make_request_joins_base_and_endpoint() {
    let mut extra = HeaderMap::new();
    extra.insert("auth", HeaderValue::from_static("tok123"));
    let request =
        transport().make_request("/users", Ok("{\"id\":7}".to_string()), extra.clone()).unwrap();
    assert_eq!(
        request,
        Request {
            url: "https://example.org/api/users".to_string(),
            body: "{\"id\":7}".to_string(),
            extra,
        }
    );
    assert_eq!(transport().address(""), "https://example.org/api");
    assert_eq!(HTTPSTransport::new(String::new()).address("x"), "x");
}

#[test]
fn make_request_reports_a_body_that_cannot_be_serialised() {
    let failure = serde_json::from_str::<u8>("300").unwrap_err();
    let message = failure.to_string();
    match transport().make_request("/users", Err(failure), HeaderMap::new()) {
        Err(TransportError::SerdeError(e)) => assert_eq!(e.to_string(), message),
        other => panic!("expected a serde error, got {:?}", other),
    }
}

#[test]
fn handshake_framing() {
    let mut extra = HeaderMap::new();
    extra.insert("auth", HeaderValue::from_static("tok123"));
    let opening = transport().open_stream("/events", &extra).unwrap();
    assert_eq!(
        opening,
        Opening {
            url: reqwest::Url::parse("https://example.org/api/events").unwrap(),
            handshake: Frame::Text("{\"auth\":\"tok123\"}".to_string()),
        }
    );
    let (connection, mut stream) = HTTPSTransport::established(Ok("socket")).unwrap();
    assert_eq!(connection, "socket");
    assert_eq!(stream.next_outgoing(), None);
    assert!(stream.send("A".to_string(), Ok(serde_json::Value::from(1))).is_ok());
    assert_eq!(
        stream.next_outgoing(),
        Some(Frame::Text("{\"content\":1,\"type\":\"A\"}".to_string()))
    );
}

#[test]
fn the_handshake_is_no_envelope() {
    let mut extra = HeaderMap::new();
    extra.insert("auth", HeaderValue::from_static("tok123"));
    let opening = transport().open_stream("/events", &extra).unwrap();
    match opening.handshake {
        Frame::Text(text) => assert_eq!(Envelope::decode(&text), None),
        other => panic!("expected a text frame, got {:?}", other),
    }
}

#[test]
fn handshake_without_metadata_is_the_empty_object() {
    let opening = transport().open_stream("", &HeaderMap::new()).unwrap();
    assert_eq!(opening.handshake, Frame::Text("{}".to_string()));
    assert_eq!(opening.url.as_str(), "https://example.org/api");
}

#[test]
fn handshake_holds_every_key_once() {
    let mut extra = HeaderMap::new();
    extra.insert("x-token", HeaderValue::from_static("t\tq \"1\""));
    extra.insert(HeaderName::from_static("accept"), HeaderValue::from_static("a/b"));
    extra.append("accept", HeaderValue::from_static("c/d"));
    extra.insert("Content-Type", HeaderValue::from_static("text/plain"));
    let opening = transport().open_stream("/s", &extra).unwrap();
    assert_eq!(
        opening.handshake,
        Frame::Text(
            "{\"accept\":\"a/b\",\"content-type\":\"text/plain\",\"x-token\":\"t\\tq \\\"1\\\"\"}"
                .to_string()
        )
    );
}

#[test]
fn a_value_that_is_no_visible_ascii_fails_the_opening() {
    let mut extra = HeaderMap::new();
    extra.insert("auth", HeaderValue::from_static("tok123"));
    extra.insert("name", HeaderValue::from_bytes(b"caf\xe9").unwrap());
    assert!(matches!(
        transport().open_stream("/events", &extra),
        Err(TransportError::SelfError(HTTPSTransportError::HeaderError(_)))
    ));
}

#[test]
fn only_the_first_value_of_a_key_is_read() {
    let mut extra = HeaderMap::new();
    extra.insert("name", HeaderValue::from_static("plain"));
    extra.append("name", HeaderValue::from_bytes(b"caf\xe9").unwrap());
    let opening = transport().open_stream("/events", &extra).unwrap();
    assert_eq!(opening.handshake, Frame::Text("{\"name\":\"plain\"}".to_string()));
}

#[test]
fn a_failed_connection_opens_no_stream() {
    let outcome: Result<(), HTTPSTransportError> = Err(HTTPSTransportError::TungsteniteError(
        tungstenite::error::Error::ConnectionClosed,
    ));
    match HTTPSTransport::established(outcome) {
        Err(TransportError::SelfError(HTTPSTransportError::TungsteniteError(e))) => {
            assert!(matches!(e, tungstenite::error::Error::ConnectionClosed))
        }
        Err(other) => panic!("expected the connection's error, got {:?}", other),
        Ok(_) => panic!("expected no stream"),
    }
}

#[test]
fn an_established_stream_is_fresh() {
    let (connection, stream): (u8, WebsocketStream) =
        HTTPSTransport::established(Ok(7)).unwrap();
    assert_eq!(connection, 7);
    assert_eq!(stream.latest(), &Envelope::new(String::new(), String::new()));
    assert_eq!(stream.queued(), 0);
}

#[test]
fn the_transports_own_error_converts_to_self_error() {
    let failure = HTTPSTransportError::TungsteniteError(tungstenite::error::Error::AlreadyClosed);
    assert!(matches!(
        TransportError::from(failure),
        TransportError::SelfError(HTTPSTransportError::TungsteniteError(
            tungstenite::error::Error::AlreadyClosed
        ))
    ));
}

#[test]
fn metadata_is_a_plain_mapping() {
    let mut extra = HeaderMap::new();
    extra.insert("auth", HeaderValue::from_static("tok123"));
    extra.insert("X-Trace", HeaderValue::from_static("a b"));
    let mut pairs = HTTPSTransport::metadata(&extra).unwrap();
    pairs.sort();
    assert_eq!(
        pairs,
        vec![
            ("auth".to_string(), "tok123".to_string()),
            ("x-trace".to_string(), "a b".to_string()),
        ]
    );
    assert_eq!(HTTPSTransport::metadata(&HeaderMap::new()).unwrap(), vec![]);
}

#[test]
fn metadata_fails_on_opaque_bytes() {
    let mut extra = HeaderMap::new();
    extra.insert("name", HeaderValue::from_bytes(b"\x80").unwrap());
    assert!(HTTPSTransport::metadata(&extra).is_err());
    let mut extra = HeaderMap::new();
    extra.insert("name", HeaderValue::from_bytes(b"tab\tand space ~").unwrap());
    assert_eq!(
        HTTPSTransport::metadata(&extra).unwrap(),
        vec![("name".to_string(), "tab\tand space ~".to_string())]
    );
}

#[test]
fn handshake_is_a_flat_object() {
    let pairs = vec![
        ("b".to_string(), "2".to_string()),
        ("a".to_string(), "say \"hi\"".to_string()),
    ];
    assert_eq!(
        HTTPSTransport::handshake(&pairs),
        Frame::Text("{\"a\":\"say \\\"hi\\\"\",\"b\":\"2\"}".to_string())
    );
    assert_eq!(HTTPSTransport::handshake(&Vec::new()), Frame::Text("{}".to_string()));
}

#[test]
fn conclude_decodes_as_the_chosen_type_only() {
    let success = Body::Success("7".to_string());
    let r: Result<Result<u8, String>, _> = HTTPSTransport::conclude(
        &success,
        |text| serde_json::from_str::<u8>(text),
        |_| panic!("the error type was not chosen"),
    );
    assert_eq!(r.unwrap(), Ok(7));
    let failure = Body::Failure("\"gone\"".to_string());
    let r: Result<Result<u8, String>, _> = HTTPSTransport::conclude(
        &failure,
        |_| panic!("the success type was not chosen"),
        |text| serde_json::from_str::<String>(text),
    );
    assert_eq!(r.unwrap(), Err("gone".to_string()));
}

#[test]
fn accept_and_reject_keep_the_decoded_value() {
    let r: Result<Result<u8, String>, _> = HTTPSTransport::accept(serde_json::from_str("7"));
    assert_eq!(r.unwrap(), Ok(7));
    let r: Result<Result<u8, String>, _> = HTTPSTransport::reject(serde_json::from_str("\"no\""));
    assert_eq!(r.unwrap(), Err("no".to_string()));
    let r: Result<Result<u8, String>, _> = HTTPSTransport::accept(serde_json::from_str("-1"));
    assert!(matches!(r, Err(TransportError::SerdeError(_))));
    let r: Result<Result<u8, String>, _> = HTTPSTransport::reject(serde_json::from_str("7"));
    assert!(matches!(r, Err(TransportError::SerdeError(_))));
}

#[test]
fn an_address_that_is_no_url_fails_the_opening() {
    let transport = HTTPSTransport::new(String::new());
    match transport.open_stream("not a url", &HeaderMap::new()) {
        Err(TransportError::SelfError(HTTPSTransportError::TungsteniteError(e))) => {
            assert_eq!(e.to_string(), "URL error: Unable to connect to not a url")
        }
        other => panic!("expected the connection's error, got {:?}", other),
    }
    let transport = HTTPSTransport::new("wss://".to_string());
    assert!(matches!(
        transport.open_stream("", &HeaderMap::new()),
        Err(TransportError::SelfError(HTTPSTransportError::TungsteniteError(_)))
    ));
}

#[test]
fn a_header_error_comes_before_an_address_error() {
    let mut extra = HeaderMap::new();
    extra.insert("name", HeaderValue::from_bytes(b"\xff").unwrap());
    assert!(matches!(
        HTTPSTransport::new(String::new()).open_stream("not a url", &extra),
        Err(TransportError::SelfError(HTTPSTransportError::HeaderError(_)))
    ));
}

#[test]
fn the_address_is_read_as_a_url() {
    let transport = HTTPSTransport::new("WSS://Example.ORG".to_string());
    let opening = transport.open_stream("/a b", &HeaderMap::new()).unwrap();
    assert_eq!(opening.url.as_str(), "wss://example.org/a%20b");
}
