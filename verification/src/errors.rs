//! Error taxonomy of the gateway.

use vstd::prelude::*;

verus! {

/// Start-up failure: the shield could not be brought into operation.
/// Always fatal — there is no degraded mode before the bus is active.
#[derive(Clone, Copy, Debug, PartialEq, Eq, Structural)]
pub enum ConfigError {
    /// The requested filter-bank split index exceeds the bank size.
    InvalidSplit,
    /// A controller did not reach the active bus state during enable.
    BusNotActive,
    /// An interrupt line was bound to a second task.
    LineAlreadyBound,
}

/// A frame value could not be constructed.
#[derive(Clone, Copy, Debug, PartialEq, Eq, Structural)]
pub enum FrameError {
    /// The identifier does not fit in 11 bits.
    IdentifierTooWide,
    /// The payload is longer than 8 bytes.
    PayloadTooLong,
}

/// Runtime transmit failure: every hardware mailbox already holds a
/// pending frame. Treated as fatal by the current relay policy.
#[derive(Clone, Copy, Debug, PartialEq, Eq, Structural)]
pub enum SendError {
    MailboxFull,
}

/// A software-deferred activation could not be queued: the target task's
/// pending-instance capacity was exceeded. Non-fatal; scheduling requests
/// are best-effort.
#[derive(Clone, Copy, Debug, PartialEq, Eq, Structural)]
pub enum ScheduleError {
    CapacityExceeded,
}

} // verus!
