//! The duplex multiplexed stream: one connection that carries many named
//! event flows.
//!
//! A stream holds a single-slot register with the envelope that arrived last
//! and a bounded queue of frames that await transmission. The inbound loop
//! hands each frame it reads to [`WebsocketStream::receive`]; the outbound
//! loop takes the frame to write from [`WebsocketStream::next_outgoing`].
//! Publishers queue envelopes with [`WebsocketStream::send`], and subscribers
//! look at the register through a [`Subscription`].

use crate::envelope::{envelope_of_text, envelope_text, Envelope, EnvelopeView};
use crate::error::StreamError;
use crate::frame::{frames_view, Frame, FrameView};
use crate::json::{json_read, json_text};
use std::collections::VecDeque;
use vstd::prelude::*;

verus! {

/// How many frames the outbound queue holds at most.
pub const OUTBOUND_CAPACITY: usize = 10;

/// A stream as a mathematical value.
pub struct StreamView {
    /// The envelope that arrived last.
    pub register: EnvelopeView,
    /// The frames that await transmission, oldest first.
    pub outbound: Seq<FrameView>,
}

impl StreamView {
    /// The stream of a connection that has just been opened: nothing
    /// received, nothing queued.
    pub open spec fn fresh() -> StreamView {
        StreamView {
            register: EnvelopeView { kind: Seq::empty(), payload: Seq::empty() },
            outbound: Seq::empty(),
        }
    }

    /// Whether the outbound queue takes one more frame.
    pub open spec fn has_room(self) -> bool {
        self.outbound.len() < OUTBOUND_CAPACITY
    }

    /// The stream after a frame was offered to the outbound queue: queued
    /// behind the others where there is room, unchanged otherwise.
    pub open spec fn offer(self, frame: FrameView) -> StreamView {
        if self.has_room() {
            StreamView { outbound: self.outbound.push(frame), ..self }
        } else {
            self
        }
    }

    /// The frame that the outbound loop writes next: the oldest one queued.
    pub open spec fn next(self) -> Option<FrameView> {
        if self.outbound.len() > 0 {
            Some(self.outbound[0])
        } else {
            None
        }
    }

    /// The stream after the outbound loop took its next frame.
    pub open spec fn after_next(self) -> StreamView {
        if self.outbound.len() > 0 {
            StreamView { outbound: self.outbound.drop_first(), ..self }
        } else {
            self
        }
    }

    /// The stream after the inbound loop read a frame: a text frame that
    /// holds an envelope replaces the register, every other frame leaves the
    /// stream as it was.
    pub open spec fn receive(self, frame: FrameView) -> StreamView {
        match frame {
            FrameView::Text(text) => match envelope_of_text(text) {
                Some(envelope) => StreamView { register: envelope, ..self },
                None => self,
            },
            _ => self,
        }
    }

    /// What a subscription for `event` sees in the register: the payload
    /// where the register's kind is `event`, nothing otherwise.
    pub open spec fn observe(self, event: Seq<char>) -> Option<Seq<char>> {
        select(event, self.register)
    }
}

/// What became of a frame that was offered to the outbound queue.
#[derive(Debug, Clone, PartialEq, Eq)]
pub enum Offered {
    /// The frame is queued behind the others.
    Queued,
    /// The queue had no room. Nothing was dropped: the frame comes back, to be
    /// offered again once there is room.
    Returned(Frame),
}

/// What became of an offered frame, as a mathematical value.
pub enum OfferedView {
    Queued,
    Returned(FrameView),
}

impl View for Offered {
    type V = OfferedView;

    open spec fn view(&self) -> OfferedView {
        match self {
            Offered::Queued => OfferedView::Queued,
            Offered::Returned(frame) => OfferedView::Returned(frame@),
        }
    }
}

/// What becomes of a frame that is offered to a stream: queued where the
/// stream has room, handed back otherwise.
pub open spec fn offered(stream: StreamView, frame: FrameView) -> OfferedView {
    if stream.has_room() {
        OfferedView::Queued
    } else {
        OfferedView::Returned(frame)
    }
}

/// What the inbound loop is told, as a mathematical value.
pub enum InboundView {
    Updated,
    Reply(FrameView),
    Ignored,
    Closed,
}

/// What the inbound loop is told after a frame: that the register was
/// updated, for a text frame that holds an envelope; to reply with a pong of
/// the same payload, for a ping; that there is nothing to do, for a text
/// frame that holds no envelope and for every other frame.
pub open spec fn reaction(frame: FrameView) -> InboundView {
    match frame {
        FrameView::Text(text) => if envelope_of_text(text) is Some {
            InboundView::Updated
        } else {
            InboundView::Ignored
        },
        FrameView::Ping(payload) => InboundView::Reply(FrameView::Pong(payload)),
        _ => InboundView::Ignored,
    }
}

/// What a subscription for `event` takes from an envelope: the payload where
/// the kinds agree, nothing otherwise.
pub open spec fn select(event: Seq<char>, update: EnvelopeView) -> Option<Seq<char>> {
    if update.kind == event {
        Some(update.payload)
    } else {
        None
    }
}

/// What a subscription yields for a decoded payload: the value where decoding
/// succeeded, nothing where it failed.
pub open spec fn yielded<T>(decoded: Result<T, serde_json::Error>) -> Option<T> {
    match decoded {
        Ok(value) => Some(value),
        Err(_) => None,
    }
}

/// What the inbound loop does after it handed a frame to the stream.
#[derive(Debug, Clone, PartialEq, Eq)]
pub enum Inbound {
    /// The register holds a new envelope: subscribers are to look at it.
    Updated,
    /// The frame asks for an answer: the loop queues this frame the way a
    /// publisher does.
    Reply(Frame),
    /// Nothing to do: the frame was malformed or of no interest.
    Ignored,
    /// The connection has ended: the loop stops.
    Closed,
}

impl View for Inbound {
    type V = InboundView;

    open spec fn view(&self) -> InboundView {
        match self {
            Inbound::Updated => InboundView::Updated,
            Inbound::Reply(frame) => InboundView::Reply(frame@),
            Inbound::Ignored => InboundView::Ignored,
            Inbound::Closed => InboundView::Closed,
        }
    }
}

/// A view over the register for one event kind.
#[derive(Debug, Clone, PartialEq, Eq)]
pub struct Subscription {
    event: String,
}

impl View for Subscription {
    type V = Seq<char>;

    closed spec fn view(&self) -> Seq<char> {
        self.event@
    }
}

impl Subscription {
    /// The event kind that the subscription asked for.
    pub fn event(&self) -> (r: &str)
        ensures
            r@ == self@,
    {
        self.event.as_str()
    }

    /// Looks at one update of the register: the payload text to decode where
    /// the update is of the subscribed kind, nothing otherwise.
    pub fn select<'a>(&self, update: &'a Envelope) -> (r: Option<&'a str>)
        ensures
            match r {
                Some(payload) => select(self@, update@) == Some(payload@),
                None => select(self@, update@) is None,
            },
    {
        if update.kind == self.event {
            Some(update.payload.as_str())
        } else {
            None
        }
    }

    /// Handles one update of the register: where the update is of the
    /// subscribed kind its payload is decoded, and the decoded value is
    /// yielded where decoding succeeds. An update of another kind is not
    /// decoded at all and yields nothing.
    pub fn on_update<T, F: FnOnce(&str) -> Result<T, serde_json::Error>>(
        &self,
        update: &Envelope,
        decode: F,
    ) -> (r: Option<T>)
        requires
            select(self@, update@) is Some ==> forall|text: &str|
                text@ == select(self@, update@)->0 ==> decode.requires((text,)),
        ensures
            match select(self@, update@) {
                Some(payload) => exists|text: &str, decoded: Result<T, serde_json::Error>|
                    text@ == payload && decode.ensures((text,), decoded) && r == yielded(decoded),
                None => r is None,
            },
    {
        match self.select(update) {
            Some(payload) => Subscription::deliver(decode(payload)),
            None => None,
        }
    }

    /// What the subscription yields once the payload was decoded: the value
    /// where decoding succeeded, nothing where it failed. A payload of the
    /// wrong shape is skipped like an envelope of another kind.
    pub fn deliver<T>(decoded: Result<T, serde_json::Error>) -> (r: Option<T>)
        ensures
            r == yielded(decoded),
    {
        match decoded {
            Ok(value) => Some(value),
            Err(_) => None,
        }
    }
}

/// A duplex connection that carries named event flows: what a caller of
/// [`Transport::open_stream`](crate::http::Transport::open_stream) works with
/// from then on.
pub trait Stream {
    /// The stream's own kind of failure.
    type StreamError;

    /// The stream as a mathematical value.
    spec fn state(&self) -> StreamView;

    /// Subscribes to an event kind. The subscription sees each update of the
    /// register and takes those of its kind.
    fn stream_for(&self, event: String) -> (r: Subscription)
        ensures
            r@ == event@,
    ;

    /// Publishes a payload under an event kind: the envelope is encoded and
    /// its text frame offered to the outbound queue.
    ///
    /// `item` is what serialising the payload gave. An error there is the
    /// only failure of a publish: it is reported as `SerdeError` and nothing
    /// is queued. Otherwise the call succeeds, whatever has become of the
    /// connection. With room the frame is queued, and the call does not wait
    /// for the frame to be written. Without room the stream stays as it was
    /// and the frame comes back in the success value: the publisher waits for
    /// room and offers it again with
    /// [`enqueue`](WebsocketStream::enqueue).
    ///
    /// The peer that receives the frame decodes the same kind and the
    /// payload's text, provided the JSON reader reads the frame as it was
    /// printed ([`Envelope::reads_back`] tells).
    fn send(&mut self, signal: String, item: Result<serde_json::Value, serde_json::Error>) -> (r:
        Result<Offered, StreamError<Self::StreamError>>)
        ensures
            r is Err <==> item is Err,
            match item {
                Ok(content) => {
                    let text = envelope_text(signal@, json_text(content));
                    let frame = FrameView::Text(text);
                    &&& final(self).state() == old(self).state().offer(frame)
                    &&& r matches Ok(outcome)
                    &&& outcome@ == offered(old(self).state(), frame)
                    &&& json_read(text) == Some(text) ==> envelope_of_text(text) == Some(
                        EnvelopeView { kind: signal@, payload: json_text(content) },
                    )
                },
                Err(e) => final(self).state() == old(self).state() && r == Err::<
                    Offered,
                    StreamError<Self::StreamError>,
                >(StreamError::SerdeError(e)),
            },
    ;
}

/// The state of one duplex connection.
pub struct WebsocketStream {
    incoming: Envelope,
    outgoing: VecDeque<Frame>,
}

impl View for WebsocketStream {
    type V = StreamView;

    closed spec fn view(&self) -> StreamView {
        StreamView { register: self.incoming@, outbound: frames_view(self.outgoing@) }
    }
}

impl WebsocketStream {
    #[verifier::type_invariant]
    spec fn bounded(self) -> bool {
        self.outgoing@.len() <= OUTBOUND_CAPACITY
    }

    /// The stream of a connection that has just been opened.
    pub fn init() -> (r: WebsocketStream)
        ensures
            r@ == StreamView::fresh(),
    {
        let r = WebsocketStream {
            incoming: Envelope::new(String::new(), String::new()),
            outgoing: VecDeque::new(),
        };
        assert(r@.outbound =~= Seq::empty());
        r
    }

    /// The envelope that arrived last.
    pub fn latest(&self) -> (r: &Envelope)
        ensures
            r@ == self@.register,
    {
        &self.incoming
    }

    /// How many frames await transmission.
    pub fn queued(&self) -> (r: usize)
        ensures
            r == self@.outbound.len(),
            r <= OUTBOUND_CAPACITY,
    {
        proof {
            use_type_invariant(self);
        }
        self.outgoing.len()
    }

    /// Whether the outbound queue takes one more frame.
    pub fn has_room(&self) -> (r: bool)
        ensures
            r == self@.has_room(),
    {
        self.outgoing.len() < OUTBOUND_CAPACITY
    }

    /// Offers a frame to the outbound queue. With room the frame is queued
    /// behind the others; without, the stream stays as it was and the frame
    /// comes back, so that the caller can wait for room and offer it again.
    pub fn enqueue(&mut self, frame: Frame) -> (r: Offered)
        ensures
            final(self)@ == old(self)@.offer(frame@),
            r@ == offered(old(self)@, frame@),
            r matches Offered::Returned(back) ==> back == frame,
    {
        if self.outgoing.len() < OUTBOUND_CAPACITY {
            // The queue changes outside the stream and is put back whole, so
            // that the bound is checked on the finished queue.
            let mut queue = VecDeque::new();
            std::mem::swap(&mut self.outgoing, &mut queue);
            queue.push_back(frame);
            self.outgoing = queue;
            assert(frames_view(self.outgoing@) =~= frames_view(old(self).outgoing@).push(frame@));
            Offered::Queued
        } else {
            Offered::Returned(frame)
        }
    }

    /// Takes the frame that the outbound loop writes next: the oldest one
    /// queued, or nothing from an empty queue.
    pub fn next_outgoing(&mut self) -> (r: Option<Frame>)
        ensures
            final(self)@ == old(self)@.after_next(),
            match r {
                Some(frame) => old(self)@.next() == Some(frame@),
                None => old(self)@.next() is None,
            },
    {
        proof {
            use_type_invariant(&*self);
        }
        let mut queue = VecDeque::new();
        std::mem::swap(&mut self.outgoing, &mut queue);
        let r = queue.pop_front();
        self.outgoing = queue;
        proof {
            if r is Some {
                assert(frames_view(self.outgoing@) =~= frames_view(
                    old(self).outgoing@,
                ).drop_first());
            }
        }
        r
    }

    /// Hands the stream a frame that the inbound loop read.
    ///
    /// A text frame that holds an envelope replaces the register; a text
    /// frame that holds none is dropped. A ping leaves the stream as it was
    /// and asks for a pong with the same payload. Every other frame is
    /// ignored.
    pub fn receive(&mut self, frame: Frame) -> (r: Inbound)
        ensures
            final(self)@ == old(self)@.receive(frame@),
            r@ == reaction(frame@),
    {
        proof {
            use_type_invariant(&*self);
        }
        match frame {
            Frame::Text(text) => match Envelope::decode(text.as_str()) {
                Some(envelope) => {
                    self.incoming = envelope;
                    Inbound::Updated
                },
                None => Inbound::Ignored,
            },
            Frame::Ping(payload) => Inbound::Reply(Frame::Pong(payload)),
            _ => Inbound::Ignored,
        }
    }

    /// Hands the stream what one read of the connection gave. A frame is
    /// received as [`receive`](WebsocketStream::receive) says. The end of the
    /// connection, or an error on it, leaves the stream as it was and stops
    /// the inbound loop: the register is never updated again, and
    /// subscriptions stay idle.
    pub fn read<E>(&mut self, read: Option<Result<Frame, E>>) -> (r: Inbound)
        ensures
            match read {
                Some(Ok(frame)) => final(self)@ == old(self)@.receive(frame@) && r@ == reaction(
                    frame@,
                ),
                _ => final(self)@ == old(self)@ && r@ == InboundView::Closed,
            },
    {
        match read {
            Some(Ok(frame)) => self.receive(frame),
            _ => Inbound::Closed,
        }
    }

    /// What a subscription sees in the register now: the payload text to
    /// decode where the envelope that arrived last is of the subscribed kind.
    pub fn poll<'a>(&'a self, subscription: &Subscription) -> (r: Option<&'a str>)
        ensures
            match r {
                Some(payload) => self@.observe(subscription@) == Some(payload@),
                None => self@.observe(subscription@) is None,
            },
    {
        subscription.select(&self.incoming)
    }
}

impl Stream for WebsocketStream {
    type StreamError = tungstenite::error::Error;

    open spec fn state(&self) -> StreamView {
        self@
    }

    fn stream_for(&self, event: String) -> (r: Subscription) {
        Subscription { event }
    }

    fn send(&mut self, signal: String, item: Result<serde_json::Value, serde_json::Error>) -> (r:
        Result<Offered, StreamError<tungstenite::error::Error>>) {
        match item {
            Ok(content) => Ok(self.enqueue(Frame::Text(Envelope::encode(signal, content)))),
            Err(e) => Err(StreamError::SerdeError(e)),
        }
    }
}

} // verus!
