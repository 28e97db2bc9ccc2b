//! The gateway: two channels, a fixed outbound identifier, and the
//! diagnostic send counter, with the relay step that moves one frame
//! from one channel's receive FIFO onto the other channel's transmit
//! mailboxes.

use vstd::prelude::*;
use crate::channel::Channel;
use crate::channel::ChannelView;
use crate::channel::TX_MAILBOX_COUNT;
use crate::diag::DiagCounter;
use crate::errors::FrameError;
use crate::errors::SendError;
use crate::frame::Frame;
use crate::frame::FrameView;
use crate::frame::MAX_STANDARD_ID;
use crate::relay::relay_frame;

verus! {

/// Mathematical model of the whole gateway.
pub struct GatewayView {
    pub a: ChannelView,
    pub b: ChannelView,
    pub outbound_id: u16,
    pub sent: u8,
}

impl GatewayView {
    pub open spec fn wf(self) -> bool {
        &&& self.a.wf()
        &&& self.b.wf()
        &&& self.outbound_id <= MAX_STANDARD_ID
    }
}

/// One relay step from `src` to `dst` under outbound identifier `out_id`,
/// with `sent` send cycles recorded so far. Drains at most one frame; a
/// drained frame is re-emitted on `dst` under `out_id`. Returns the two
/// channels, the new send count, and the outcome: `Ok(false)` when
/// nothing was pending, `Ok(true)` when a frame was relayed, and
/// `Err(MailboxFull)` when a frame was drained but every mailbox on
/// `dst` was occupied (the frame is lost; the current policy treats
/// this as fatal).
pub open spec fn relay_once_spec(src: ChannelView, dst: ChannelView, out_id: u16, sent: u8) -> (
    ChannelView,
    ChannelView,
    u8,
    Result<bool, SendError>,
) {
    let (src2, got) = src.take_rx();
    match got {
        None => (src2, dst, sent, Ok(false)),
        Some(f) => {
            let (dst2, res) = dst.queue_tx(f.relabeled(out_id));
            match res {
                Ok(_) => (src2, dst2, ((sent + 1) % 256) as u8, Ok(true)),
                Err(e) => (src2, dst2, sent, Err(e)),
            }
        },
    }
}

/// Relay at most one frame from `src` to `dst`: drain the oldest received
/// frame, re-emit its payload under `out_id`, and count the send cycle.
pub fn relay_once(src: &mut Channel, dst: &mut Channel, out_id: u16, sent: &mut DiagCounter) -> (r:
    Result<bool, SendError>)
    requires
        old(src)@.wf(),
        old(dst)@.wf(),
        out_id <= MAX_STANDARD_ID,
    ensures
        final(src)@.wf(),
        final(dst)@.wf(),
        ({
            let (s2, d2, c2, res) = relay_once_spec(
                old(src)@,
                old(dst)@,
                out_id,
                old(sent).value_spec(),
            );
            &&& final(src)@ == s2
            &&& final(dst)@ == d2
            &&& final(sent).value_spec() == c2
            &&& r == res
        }),
{
    match src.receive() {
        None => Ok(false),
        Some(f) => {
            let out = relay_frame(&f, out_id);
            match dst.transmit(&out) {
                Ok(_) => {
                    sent.fetch_add();
                    Ok(true)
                },
                Err(e) => Err(e),
            }
        },
    }
}

/// Law: round-trip integrity. For every well-formed frame arriving on a
/// quiescent source channel, one relay step re-emits its payload byte for
/// byte — same bytes, same length — on the destination channel, under the
/// outbound identifier, and counts one send cycle.
pub proof fn lemma_relay_round_trip(
    src: ChannelView,
    dst: ChannelView,
    f: FrameView,
    out_id: u16,
    sent: u8,
)
    requires
        src.wf(),
        dst.wf(),
        f.wf(),
        out_id <= MAX_STANDARD_ID,
        src.rx.len() == 0,
        dst.tx.len() == 0,
    ensures
        ({
            let (s2, d2, c2, res) = relay_once_spec(src.arrive(f), dst, out_id, sent);
            let (d3, wire) = d2.wire_take();
            &&& res == Ok::<bool, SendError>(true)
            &&& wire is Some
            &&& wire->0.payload == f.payload
            &&& wire->0.payload.len() == f.payload.len()
            &&& wire->0.id == out_id
            &&& s2.rx.len() == 0
            &&& d3.tx.len() == 0
            &&& c2 == (sent + 1) % 256
        }),
{
}

/// Law: relay preserves the payload of whatever frame is drained. For
/// every source channel with at least one pending frame and a destination
/// with a free mailbox, the relay step removes exactly the oldest received
/// frame from the source and appends to the destination's mailboxes a
/// frame with the same payload and length under the outbound identifier.
pub proof fn lemma_relay_preserves_payload(src: ChannelView, dst: ChannelView, out_id: u16, sent: u8)
    requires
        src.wf(),
        dst.wf(),
        out_id <= MAX_STANDARD_ID,
        src.rx.len() > 0,
        dst.tx.len() < TX_MAILBOX_COUNT,
    ensures
        ({
            let (s2, d2, c2, res) = relay_once_spec(src, dst, out_id, sent);
            &&& res == Ok::<bool, SendError>(true)
            &&& s2.rx == src.rx.drop_first()
            &&& d2.tx == dst.tx.push(src.rx.first().relabeled(out_id))
            &&& d2.tx.last().payload == src.rx.first().payload
            &&& d2.tx.last().payload.len() == src.rx.first().payload.len()
            &&& d2.tx.last().id == out_id
            &&& c2 == (sent + 1) % 256
        }),
{
}

/// The dual-channel gateway.
pub struct Gateway {
    a: Channel,
    b: Channel,
    outbound_id: u16,
    sent: DiagCounter,
}

impl View for Gateway {
    type V = GatewayView;

    closed spec fn view(&self) -> GatewayView {
        GatewayView { a: self.a@, b: self.b@, outbound_id: self.outbound_id, sent: self.sent.value_spec() }
    }
}

impl Gateway {
    /// A gateway with quiescent channels. Fails when the outbound
    /// identifier does not fit in 11 bits.
    pub fn new(outbound_id: u16) -> (r: Result<Gateway, FrameError>)
        ensures
            r is Ok <==> outbound_id <= MAX_STANDARD_ID,
            outbound_id > MAX_STANDARD_ID ==> r == Err::<Gateway, FrameError>(
                FrameError::IdentifierTooWide,
            ),
            r is Ok ==> {
                &&& r->Ok_0@.wf()
                &&& r->Ok_0@.outbound_id == outbound_id
                &&& r->Ok_0@.a.rx.len() == 0
                &&& r->Ok_0@.a.tx.len() == 0
                &&& r->Ok_0@.b.rx.len() == 0
                &&& r->Ok_0@.b.tx.len() == 0
                &&& !r->Ok_0@.a.overrun
                &&& !r->Ok_0@.b.overrun
                &&& r->Ok_0@.sent == 0
            },
    {
        if outbound_id > MAX_STANDARD_ID {
            Err(FrameError::IdentifierTooWide)
        } else {
            Ok(Gateway {
                a: Channel::new(),
                b: Channel::new(),
                outbound_id,
                sent: DiagCounter::new(),
            })
        }
    }

    /// A frame arrives from the bus on channel A.
    pub fn frame_arrives_a(&mut self, f: Frame)
        requires
            old(self)@.wf(),
            f@.wf(),
        ensures
            final(self)@.wf(),
            final(self)@ == (GatewayView { a: old(self)@.a.arrive(f@), ..old(self)@ }),
    {
        self.a.frame_arrives(f);
    }

    /// A frame arrives from the bus on channel B.
    pub fn frame_arrives_b(&mut self, f: Frame)
        requires
            old(self)@.wf(),
            f@.wf(),
        ensures
            final(self)@.wf(),
            final(self)@ == (GatewayView { b: old(self)@.b.arrive(f@), ..old(self)@ }),
    {
        self.b.frame_arrives(f);
    }

    /// Relay at most one frame received on A onto B.
    pub fn relay_a_to_b(&mut self) -> (r: Result<bool, SendError>)
        requires
            old(self)@.wf(),
        ensures
            final(self)@.wf(),
            ({
                let (s2, d2, c2, res) = relay_once_spec(
                    old(self)@.a,
                    old(self)@.b,
                    old(self)@.outbound_id,
                    old(self)@.sent,
                );
                &&& final(self)@ == (GatewayView { a: s2, b: d2, sent: c2, ..old(self)@ })
                &&& r == res
            }),
    {
        relay_once(&mut self.a, &mut self.b, self.outbound_id, &mut self.sent)
    }

    /// Relay at most one frame received on B onto A.
    pub fn relay_b_to_a(&mut self) -> (r: Result<bool, SendError>)
        requires
            old(self)@.wf(),
        ensures
            final(self)@.wf(),
            ({
                let (s2, d2, c2, res) = relay_once_spec(
                    old(self)@.b,
                    old(self)@.a,
                    old(self)@.outbound_id,
                    old(self)@.sent,
                );
                &&& final(self)@ == (GatewayView { a: d2, b: s2, sent: c2, ..old(self)@ })
                &&& r == res
            }),
    {
        relay_once(&mut self.b, &mut self.a, self.outbound_id, &mut self.sent)
    }

    /// The hardware puts channel A's oldest pending transmission on the wire.
    pub fn wire_take_a(&mut self) -> (r: Option<Frame>)
        requires
            old(self)@.wf(),
        ensures
            final(self)@.wf(),
            final(self)@ == (GatewayView { a: old(self)@.a.wire_take().0, ..old(self)@ }),
            match r {
                Some(f) => old(self)@.a.wire_take().1 == Some(f@) && f@.wf(),
                None => old(self)@.a.wire_take().1 is None,
            },
    {
        self.a.wire_take()
    }

    /// The hardware puts channel B's oldest pending transmission on the wire.
    pub fn wire_take_b(&mut self) -> (r: Option<Frame>)
        requires
            old(self)@.wf(),
        ensures
            final(self)@.wf(),
            final(self)@ == (GatewayView { b: old(self)@.b.wire_take().0, ..old(self)@ }),
            match r {
                Some(f) => old(self)@.b.wire_take().1 == Some(f@) && f@.wf(),
                None => old(self)@.b.wire_take().1 is None,
            },
    {
        self.b.wire_take()
    }

    /// Read and clear channel A's FIFO-overrun diagnostic. Overruns are
    /// surfaced only as this event; the relay continues regardless.
    pub fn take_overrun_a(&mut self) -> (r: bool)
        requires
            old(self)@.wf(),
        ensures
            final(self)@.wf(),
            r == old(self)@.a.overrun,
            final(self)@ == (GatewayView {
                a: ChannelView { overrun: false, ..old(self)@.a },
                ..old(self)@
            }),
    {
        self.a.take_overrun()
    }

    /// Read and clear channel B's FIFO-overrun diagnostic.
    pub fn take_overrun_b(&mut self) -> (r: bool)
        requires
            old(self)@.wf(),
        ensures
            final(self)@.wf(),
            r == old(self)@.b.overrun,
            final(self)@ == (GatewayView {
                b: ChannelView { overrun: false, ..old(self)@.b },
                ..old(self)@
            }),
    {
        self.b.take_overrun()
    }

    /// How many send cycles the gateway has completed (modulo 256).
    pub fn sent_count(&self) -> (r: u8)
        ensures
            r == self@.sent,
    {
        self.sent.value()
    }
}

} // verus!
