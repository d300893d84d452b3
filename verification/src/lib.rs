//! Transport-agnostic helpers for talking to a remote service in two ways:
//! single-shot request/response calls, and one long-lived duplex connection
//! that carries many named, typed event streams.
//!
//! The library holds the rules: the envelope codec, what a stream does with
//! each frame, in which order frames leave, what a subscription sees, what a
//! response's status means, and how a stream is opened. It performs no I/O:
//! a driver reads and writes the network and hands the library what came
//! back.

pub mod address;
pub mod envelope;
pub mod error;
pub mod frame;
pub mod headers;
pub mod http;
pub mod json;
pub mod stream;
pub mod trace;

pub use envelope::Envelope;
pub use error::{HTTPSTransportError, StreamError, TransportError};
pub use frame::Frame;
pub use http::{Body, HTTPSTransport, Opening, Request, Response, Transport};
pub use stream::{Inbound, Offered, Stream, Subscription, WebsocketStream, OUTBOUND_CAPACITY};
