//! The frames that travel over the duplex connection.

use vstd::prelude::*;

verus! {

/// One frame of the duplex connection, as far as the stream reads it.
#[derive(Debug, Clone, PartialEq, Eq)]
pub enum Frame {
    /// A text frame: an envelope, or the handshake.
    Text(String),
    /// A keepalive request with its payload.
    Ping(Vec<u8>),
    /// A keepalive answer with its payload.
    Pong(Vec<u8>),
    /// Any other frame: binary data, a close notice.
    Other,
}

/// A frame as a mathematical value.
pub enum FrameView {
    Text(Seq<char>),
    Ping(Seq<u8>),
    Pong(Seq<u8>),
    Other,
}

impl View for Frame {
    type V = FrameView;

    open spec fn view(&self) -> FrameView {
        match self {
            Frame::Text(text) => FrameView::Text(text@),
            Frame::Ping(payload) => FrameView::Ping(payload@),
            Frame::Pong(payload) => FrameView::Pong(payload@),
            Frame::Other => FrameView::Other,
        }
    }
}

/// The frames of a queue, each by its view.
pub open spec fn frames_view(frames: Seq<Frame>) -> Seq<FrameView> {
    frames.map_values(|f: Frame| f@)
}

} // verus!
