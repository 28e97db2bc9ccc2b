//! Relay logic: what one hop of the gateway does to a frame, and the
//! per-channel relay protocol.
//!
//! A relayed frame keeps its payload byte for byte and its length, but
//! goes out under the gateway's fixed outbound identifier — the original
//! identifier is not preserved across the hop.

use vstd::prelude::*;
use crate::frame::Frame;
use crate::frame::MAX_STANDARD_ID;

verus! {

/// The gateway's fixed outbound identifier: every relayed frame is
/// re-emitted under this identifier.
pub const GATEWAY_TX_ID: u16 = 0x500;

/// Build the outgoing frame for one relay hop: the incoming payload,
/// unchanged, under the outbound identifier.
pub fn relay_frame(incoming: &Frame, outbound_id: u16) -> (r: Frame)
    requires
        incoming@.wf(),
        outbound_id <= MAX_STANDARD_ID,
    ensures
        r@ == incoming@.relabeled(outbound_id),
        r@.wf(),
{
    let bytes = incoming.payload().clone();
    let built = Frame::new(outbound_id, bytes);
    // The identifier and the payload length are both covered by the
    // preconditions, so construction cannot fail here.
    built.unwrap()
}

/// Phase of one channel's relay protocol.
#[derive(Clone, Copy, Debug, PartialEq, Eq, Structural)]
pub enum RelayPhase {
    /// No activation pending.
    Idle,
    /// A receive interrupt fired; the handler drains exactly one frame.
    /// If more frames are pending the interrupt fires again.
    Draining,
    /// The drained frame is being handed to the send task on the
    /// opposite channel.
    Relaying,
}

/// Observable step of the relay protocol.
#[derive(Clone, Copy, Debug, PartialEq, Eq, Structural)]
pub enum RelayEvent {
    /// The receive-path interrupt fired.
    RxInterrupt,
    /// The handler drained one frame from the source FIFO.
    FrameTaken,
    /// The deferred send on the opposite channel was queued.
    SendQueued,
    /// The deferred send request was dropped (capacity exceeded);
    /// scheduling is best-effort and the hop ends.
    SendDropped,
}

/// Transition relation of the relay protocol. An event that does not
/// belong to the current phase leaves the phase unchanged.
pub open spec fn relay_transition(p: RelayPhase, e: RelayEvent) -> RelayPhase {
    match (p, e) {
        (RelayPhase::Idle, RelayEvent::RxInterrupt) => RelayPhase::Draining,
        (RelayPhase::Draining, RelayEvent::FrameTaken) => RelayPhase::Relaying,
        (RelayPhase::Relaying, RelayEvent::SendQueued) => RelayPhase::Idle,
        (RelayPhase::Relaying, RelayEvent::SendDropped) => RelayPhase::Idle,
        (_, _) => p,
    }
}

/// Advance the relay protocol of one channel by one observed event.
pub fn relay_step(p: RelayPhase, e: RelayEvent) -> (r: RelayPhase)
    ensures
        r == relay_transition(p, e),
{
    match (p, e) {
        (RelayPhase::Idle, RelayEvent::RxInterrupt) => RelayPhase::Draining,
        (RelayPhase::Draining, RelayEvent::FrameTaken) => RelayPhase::Relaying,
        (RelayPhase::Relaying, RelayEvent::SendQueued) => RelayPhase::Idle,
        (RelayPhase::Relaying, RelayEvent::SendDropped) => RelayPhase::Idle,
        (_, _) => p,
    }
}

} // verus!
