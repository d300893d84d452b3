//! The errors of the two layers: what a stream reports and what a transport
//! reports. Each tells a failure of the layer itself from a failure to encode
//! or decode JSON.

use vstd::prelude::*;
use vstd::std_specs::convert::FromSpecImpl;

verus! {

/// `reqwest::Error`: why a call failed. Opaque to the verifier.
#[verifier::external_type_specification]
#[verifier::external_body]
pub struct ExReqwestError(reqwest::Error);

/// `tungstenite::error::Error`: why a connection failed. Opaque to the
/// verifier.
#[verifier::external_type_specification]
#[verifier::external_body]
pub struct ExTungsteniteError(tungstenite::error::Error);

/// `reqwest::header::ToStrError`: a header value that is no visible ASCII.
/// Opaque to the verifier.
#[verifier::external_type_specification]
#[verifier::external_body]
pub struct ExToStrError(reqwest::header::ToStrError);

/// What a stream operation fails with.
#[derive(Debug)]
pub enum StreamError<T> {
    /// A failure of the stream itself.
    SelfError(T),
    /// A payload that could not be encoded or decoded.
    SerdeError(serde_json::Error),
}

/// What a transport operation fails with.
#[derive(Debug)]
pub enum TransportError<T> {
    /// A failure of the transport itself: the connection, the call, a header.
    SelfError(T),
    /// A payload that could not be encoded or decoded.
    SerdeError(serde_json::Error),
}

/// The failures of the HTTPS transport itself.
#[derive(Debug)]
pub enum HTTPSTransportError {
    /// The request/response call failed.
    ReqwestError(reqwest::Error),
    /// The duplex connection could not be opened, or the handshake not sent.
    TungsteniteError(tungstenite::error::Error),
    /// A metadata value cannot be written as a string.
    HeaderError(reqwest::header::ToStrError),
}

impl From<HTTPSTransportError> for TransportError<HTTPSTransportError> {
    fn from(err: HTTPSTransportError) -> (r: Self) {
        TransportError::SelfError(err)
    }
}

impl FromSpecImpl<HTTPSTransportError> for TransportError<HTTPSTransportError> {
    open spec fn obeys_from_spec() -> bool {
        true
    }

    open spec fn from_spec(err: HTTPSTransportError) -> Self {
        TransportError::SelfError(err)
    }
}

} // verus!
