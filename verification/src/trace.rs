//! What holds of a stream over time, whatever the order in which publishers,
//! the two loops and subscribers take their turns.
//!
//! A run is a sequence of steps, each one call on the stream. The laws of
//! this module are stated over runs and proved for every run.

use crate::envelope::{envelope_of_text, EnvelopeView};
use crate::frame::FrameView;
use crate::stream::{reaction, InboundView, StreamView, OUTBOUND_CAPACITY};
use vstd::prelude::*;

verus! {

/// One step of a run.
pub enum Step {
    /// A frame is offered to the outbound queue: by a publisher, or by the
    /// inbound loop that answers a ping.
    Offer(FrameView),
    /// The outbound loop takes the next frame and writes it.
    Take,
    /// The inbound loop hands over a frame that it read.
    Receive(FrameView),
}

impl StreamView {
    /// The stream after one step.
    pub open spec fn step(self, step: Step) -> StreamView {
        match step {
            Step::Offer(frame) => self.offer(frame),
            Step::Take => self.after_next(),
            Step::Receive(frame) => self.receive(frame),
        }
    }

    /// The stream after a run.
    pub open spec fn run(self, steps: Seq<Step>) -> StreamView
        decreases steps.len(),
    {
        if steps.len() == 0 {
            self
        } else {
            self.run(steps.drop_last()).step(steps.last())
        }
    }

    /// The frames that the outbound queue accepted in the course of a run,
    /// in the order of their offers.
    pub open spec fn accepted(self, steps: Seq<Step>) -> Seq<FrameView>
        decreases steps.len(),
    {
        if steps.len() == 0 {
            Seq::empty()
        } else {
            let before = self.accepted(steps.drop_last());
            match steps.last() {
                Step::Offer(frame) if self.run(steps.drop_last()).has_room() => before.push(
                    frame,
                ),
                _ => before,
            }
        }
    }

    /// The frames that the outbound loop wrote in the course of a run, in
    /// the order in which the connection saw them.
    pub open spec fn written(self, steps: Seq<Step>) -> Seq<FrameView>
        decreases steps.len(),
    {
        if steps.len() == 0 {
            Seq::empty()
        } else {
            let before = self.written(steps.drop_last());
            match (steps.last(), self.run(steps.drop_last()).next()) {
                (Step::Take, Some(frame)) => before.push(frame),
                _ => before,
            }
        }
    }

    /// The register after a run: the envelope of the last text frame received
    /// that holds one, or the register of the start where none did.
    pub open spec fn arrived(self, steps: Seq<Step>) -> EnvelopeView
        decreases steps.len(),
    {
        if steps.len() == 0 {
            self.register
        } else {
            match steps.last() {
                Step::Receive(FrameView::Text(text)) if envelope_of_text(text) is Some
                    => envelope_of_text(text)->0,
                _ => self.arrived(steps.drop_last()),
            }
        }
    }
}

/// Outbound order: at every point of every run, the frames written so far
/// followed by the frames still queued are the frames queued at the start
/// followed by the frames accepted since, in the order of their offers.
/// Frames leave in the order in which they were queued, whatever is received
/// or observed in between.
pub proof fn law_outbound_fifo(start: StreamView, steps: Seq<Step>)
    ensures
        start.written(steps) + start.run(steps).outbound == start.outbound + start.accepted(
            steps,
        ),
    decreases steps.len(),
{
    if steps.len() > 0 {
        let earlier = steps.drop_last();
        law_outbound_fifo(start, earlier);
        let at = start.run(earlier);
        match steps.last() {
            Step::Offer(frame) if at.has_room() => {
                // The frame joins both sides at their ends.
                assert(start.outbound + start.accepted(steps) =~= (start.written(earlier)
                    + at.outbound).push(frame));
            },
            _ => {},
        }
    }
}

/// The outbound queue never outgrows its capacity: a run that starts within
/// the capacity stays within it.
pub proof fn law_outbound_bounded(start: StreamView, steps: Seq<Step>)
    requires
        start.outbound.len() <= OUTBOUND_CAPACITY,
    ensures
        start.run(steps).outbound.len() <= OUTBOUND_CAPACITY,
    decreases steps.len(),
{
    if steps.len() > 0 {
        law_outbound_bounded(start, steps.drop_last());
    }
}

/// Single slot: after every run the register holds the envelope of the last
/// text frame received that held one, and nothing of what came before it.
/// Where no such frame was received the register is that of the start.
pub proof fn law_register_holds_last_envelope(start: StreamView, steps: Seq<Step>)
    ensures
        start.run(steps).register == start.arrived(steps),
    decreases steps.len(),
{
    if steps.len() > 0 {
        law_register_holds_last_envelope(start, steps.drop_last());
    }
}

/// Kind filtering: whatever the run, a subscription yields a payload only
/// where the envelope that arrived last is of the subscribed kind and holds
/// that payload. An envelope of another kind yields nothing.
pub proof fn law_kind_filtering(start: StreamView, steps: Seq<Step>, event: Seq<char>)
    ensures
        match start.run(steps).observe(event) {
            Some(payload) => start.arrived(steps) == (EnvelopeView { kind: event, payload }),
            None => start.arrived(steps).kind != event,
        },
{
    law_register_holds_last_envelope(start, steps);
}

/// Last value wins: of two envelopes received one after the other, a
/// subscriber that looks afterwards sees the second and never the first.
pub proof fn law_last_value_wins(start: StreamView, first: Seq<char>, second: Seq<char>)
    requires
        envelope_of_text(second) is Some,
    ensures
        start.receive(FrameView::Text(first)).receive(FrameView::Text(second)).register
            == envelope_of_text(second)->0,
        start.receive(FrameView::Text(first)).receive(FrameView::Text(second)).observe(
            envelope_of_text(second)->0.kind,
        ) == Some(envelope_of_text(second)->0.payload),
{
}

/// Delivery: a text frame that holds an envelope puts that envelope in the
/// register, tells the inbound loop of one update, and a subscription for
/// the envelope's kind then sees its payload.
pub proof fn law_envelope_is_delivered(start: StreamView, text: Seq<char>)
    requires
        envelope_of_text(text) is Some,
    ensures
        start.receive(FrameView::Text(text)).register == envelope_of_text(text)->0,
        reaction(FrameView::Text(text)) == InboundView::Updated,
        start.receive(FrameView::Text(text)).observe(envelope_of_text(text)->0.kind) == Some(
            envelope_of_text(text)->0.payload,
        ),
{
}

/// Malformed frames: a text frame that holds no envelope leaves the stream
/// as it was, so an envelope received after it is delivered as if the
/// malformed frame had never come.
pub proof fn law_malformed_frame_is_dropped(start: StreamView, malformed: Seq<char>, next: FrameView)
    requires
        envelope_of_text(malformed) is None,
    ensures
        start.receive(FrameView::Text(malformed)) == start,
        start.receive(FrameView::Text(malformed)).receive(next) == start.receive(next),
{
}

/// Keepalive: a ping asks for one pong with the same payload, no other frame
/// asks for a reply, and receiving a ping changes neither the register nor
/// the queue, so no subscriber sees it. Once the reply is queued, the queue
/// has grown by exactly that pong.
pub proof fn law_ping_is_answered_by_pong(start: StreamView, payload: Seq<u8>, frame: FrameView)
    ensures
        reaction(FrameView::Ping(payload)) == InboundView::Reply(FrameView::Pong(payload)),
        reaction(frame) is Reply ==> frame is Ping,
        start.receive(FrameView::Ping(payload)) == start,
        start.has_room() ==> start.receive(FrameView::Ping(payload)).offer(
            FrameView::Pong(payload),
        ).outbound == start.outbound.push(FrameView::Pong(payload)),
{
}

/// The run in which each of the frames is offered in turn.
pub open spec fn offers(frames: Seq<FrameView>) -> Seq<Step> {
    frames.map_values(|frame: FrameView| Step::Offer(frame))
}

/// The run in which the outbound loop takes a frame `n` times.
pub open spec fn takes(n: nat) -> Seq<Step> {
    Seq::new(n, |i: int| Step::Take)
}

/// A run in two parts is the second part run from where the first ended, and
/// what it writes is what the two parts write.
pub proof fn law_run_in_parts(start: StreamView, first: Seq<Step>, second: Seq<Step>)
    ensures
        start.run(first + second) == start.run(first).run(second),
        start.written(first + second) == start.written(first) + start.run(first).written(second),
    decreases second.len(),
{
    if second.len() > 0 {
        assert((first + second).drop_last() =~= first + second.drop_last());
        law_run_in_parts(start, first, second.drop_last());
    }
}

/// Frames offered while there is room are queued behind the others, in the
/// order of their offers, and nothing is written meanwhile.
pub proof fn law_offers_queue_in_order(start: StreamView, frames: Seq<FrameView>)
    requires
        start.outbound.len() + frames.len() <= OUTBOUND_CAPACITY,
    ensures
        start.run(offers(frames)).outbound == start.outbound + frames,
        start.run(offers(frames)).register == start.register,
        start.written(offers(frames)) == Seq::<FrameView>::empty(),
    decreases frames.len(),
{
    if frames.len() > 0 {
        law_offers_queue_in_order(start, frames.drop_last());
        assert(offers(frames).drop_last() =~= offers(frames.drop_last()));
    }
}

/// Taking `n` frames writes the `n` oldest frames of the queue, oldest first,
/// and leaves the others queued.
pub proof fn law_takes_write_in_order(start: StreamView, n: nat)
    requires
        n <= start.outbound.len(),
    ensures
        start.written(takes(n)) == start.outbound.subrange(0, n as int),
        start.run(takes(n)).outbound == start.outbound.subrange(
            n as int,
            start.outbound.len() as int,
        ),
        start.run(takes(n)).register == start.register,
    decreases n,
{
    if n > 0 {
        let earlier = (n - 1) as nat;
        law_takes_write_in_order(start, earlier);
        assert(takes(n).drop_last() =~= takes(earlier));
    }
}

/// Publish order: frames offered in turn to an empty queue that has room for
/// them, and then taken one by one, reach the connection exactly as they
/// were offered: the same frames, in the same order, none left behind.
pub proof fn law_published_frames_are_written_in_order(start: StreamView, frames: Seq<FrameView>)
    requires
        start.outbound.len() == 0,
        frames.len() <= OUTBOUND_CAPACITY,
    ensures
        start.written(offers(frames) + takes(frames.len())) == frames,
        start.run(offers(frames) + takes(frames.len())).outbound == Seq::<FrameView>::empty(),
{
    law_offers_queue_in_order(start, frames);
    law_takes_write_in_order(start.run(offers(frames)), frames.len());
    law_run_in_parts(start, offers(frames), takes(frames.len()));
}

} // verus!
