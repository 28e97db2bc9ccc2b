//! Model of one CAN channel as the relay sees it: the hardware receive
//! FIFO, the transmit mailboxes, and the FIFO-overrun diagnostic flag.
//!
//! The hardware receive FIFO holds at most three frames; when a fourth
//! arrives before software drains one, the newcomer is lost and the
//! overrun condition is raised. A controller likewise owns three transmit
//! mailboxes; queueing a frame while all three are pending fails.

use vstd::prelude::*;
use crate::errors::SendError;
use crate::frame::Frame;
use crate::frame::FrameView;

verus! {

/// Depth of the hardware receive FIFO.
pub const RX_FIFO_DEPTH: usize = 3;

/// Number of hardware transmit mailboxes.
pub const TX_MAILBOX_COUNT: usize = 3;

/// Mathematical model of a channel: both queues oldest-first, and the
/// sticky overrun diagnostic.
pub struct ChannelView {
    pub rx: Seq<FrameView>,
    pub tx: Seq<FrameView>,
    pub overrun: bool,
}

impl ChannelView {
    pub open spec fn wf(self) -> bool {
        &&& self.rx.len() <= RX_FIFO_DEPTH
        &&& self.tx.len() <= TX_MAILBOX_COUNT
        &&& forall|i: int| 0 <= i < self.rx.len() ==> #[trigger] self.rx[i].wf()
        &&& forall|i: int| 0 <= i < self.tx.len() ==> #[trigger] self.tx[i].wf()
    }

    /// A frame arrives from the bus: appended when the FIFO has room,
    /// lost — with the overrun flag raised — when it is full.
    pub open spec fn arrive(self, f: FrameView) -> ChannelView {
        if self.rx.len() >= RX_FIFO_DEPTH {
            ChannelView { overrun: true, ..self }
        } else {
            ChannelView { rx: self.rx.push(f), ..self }
        }
    }

    /// Software drains the oldest received frame, if any.
    pub open spec fn take_rx(self) -> (ChannelView, Option<FrameView>) {
        if self.rx.len() == 0 {
            (self, None::<FrameView>)
        } else {
            (ChannelView { rx: self.rx.drop_first(), ..self }, Some(self.rx.first()))
        }
    }

    /// Software queues a frame for transmission: appended when a mailbox
    /// is free, refused when all are pending.
    pub open spec fn queue_tx(self, f: FrameView) -> (ChannelView, Result<(), SendError>) {
        if self.tx.len() >= TX_MAILBOX_COUNT {
            (self, Err(SendError::MailboxFull))
        } else {
            (ChannelView { tx: self.tx.push(f), ..self }, Ok(()))
        }
    }

    /// The hardware puts the oldest pending transmission on the wire.
    pub open spec fn wire_take(self) -> (ChannelView, Option<FrameView>) {
        if self.tx.len() == 0 {
            (self, None::<FrameView>)
        } else {
            (ChannelView { tx: self.tx.drop_first(), ..self }, Some(self.tx.first()))
        }
    }
}

/// One CAN channel.
pub struct Channel {
    rx_fifo: Vec<Frame>,
    tx_mailboxes: Vec<Frame>,
    overrun: bool,
}

impl View for Channel {
    type V = ChannelView;

    closed spec fn view(&self) -> ChannelView {
        ChannelView {
            rx: self.rx_fifo@.map_values(|f: Frame| f@),
            tx: self.tx_mailboxes@.map_values(|f: Frame| f@),
            overrun: self.overrun,
        }
    }
}

impl Channel {
    /// A quiescent channel: both queues empty, no overrun recorded.
    pub fn new() -> (r: Channel)
        ensures
            r@.rx.len() == 0,
            r@.tx.len() == 0,
            !r@.overrun,
            r@.wf(),
    {
        Channel { rx_fifo: Vec::new(), tx_mailboxes: Vec::new(), overrun: false }
    }

    pub fn pending_rx(&self) -> (r: usize)
        ensures
            r == self@.rx.len(),
    {
        self.rx_fifo.len()
    }

    pub fn pending_tx(&self) -> (r: usize)
        ensures
            r == self@.tx.len(),
    {
        self.tx_mailboxes.len()
    }

    /// Read and clear the FIFO-overrun diagnostic.
    pub fn take_overrun(&mut self) -> (r: bool)
        ensures
            r == old(self)@.overrun,
            final(self)@ == (ChannelView { overrun: false, ..old(self)@ }),
    {
        let prev = self.overrun;
        self.overrun = false;
        prev
    }

    /// A frame arrives from the bus.
    pub fn frame_arrives(&mut self, f: Frame)
        requires
            old(self)@.wf(),
            f@.wf(),
        ensures
            final(self)@ == old(self)@.arrive(f@),
            final(self)@.wf(),
    {
        if self.rx_fifo.len() >= RX_FIFO_DEPTH {
            self.overrun = true;
        } else {
            self.rx_fifo.push(f);
            proof {
                assert(self@.rx =~= old(self)@.arrive(f@).rx);
            }
        }
    }

    /// Drain the oldest received frame, if any.
    pub fn receive(&mut self) -> (r: Option<Frame>)
        requires
            old(self)@.wf(),
        ensures
            final(self)@ == old(self)@.take_rx().0,
            final(self)@.wf(),
            match r {
                Some(f) => old(self)@.take_rx().1 == Some(f@) && f@.wf(),
                None => old(self)@.take_rx().1 is None,
            },
    {
        if self.rx_fifo.len() == 0 {
            None
        } else {
            let f = self.rx_fifo.remove(0);
            proof {
                assert(self@.rx =~= old(self)@.take_rx().0.rx);
            }
            Some(f)
        }
    }

    /// Queue a frame for transmission.
    pub fn transmit(&mut self, f: &Frame) -> (r: Result<(), SendError>)
        requires
            old(self)@.wf(),
            f@.wf(),
        ensures
            final(self)@ == old(self)@.queue_tx(f@).0,
            r == old(self)@.queue_tx(f@).1,
            final(self)@.wf(),
    {
        if self.tx_mailboxes.len() >= TX_MAILBOX_COUNT {
            Err(SendError::MailboxFull)
        } else {
            self.tx_mailboxes.push(f.clone());
            proof {
                assert(self@.tx =~= old(self)@.queue_tx(f@).0.tx);
            }
            Ok(())
        }
    }

    /// The hardware sends the oldest pending transmission; what it hands
    /// back is the frame as it goes out on the wire.
    pub fn wire_take(&mut self) -> (r: Option<Frame>)
        requires
            old(self)@.wf(),
        ensures
            final(self)@ == old(self)@.wire_take().0,
            final(self)@.wf(),
            match r {
                Some(f) => old(self)@.wire_take().1 == Some(f@) && f@.wf(),
                None => old(self)@.wire_take().1 is None,
            },
    {
        if self.tx_mailboxes.len() == 0 {
            None
        } else {
            let f = self.tx_mailboxes.remove(0);
            proof {
                assert(self@.tx =~= old(self)@.wire_take().0.tx);
            }
            Some(f)
        }
    }
}

} // verus!
