//! Verified core of a dual-channel CAN-bus gateway.
//!
//! The crate models the logic of the gateway — frame values, the shared
//! filter-bank split, the channel FIFOs and mailboxes, the relay protocol,
//! the priority scheduler and the priority-ceiling lock — and proves the
//! contracts that the surrounding firmware relies on. Register access,
//! pin bindings and interrupt plumbing live outside the library and hand
//! it plain values.

pub mod channel;
pub mod diag;
pub mod errors;
pub mod filter;
pub mod frame;
pub mod gateway;
pub mod irq;
pub mod lock;
pub mod relay;
pub mod sched;
pub mod shield;
pub mod timer;

pub use channel::Channel;
pub use channel::ChannelView;
pub use channel::RX_FIFO_DEPTH;
pub use channel::TX_MAILBOX_COUNT;
pub use diag::DiagCounter;
pub use errors::ConfigError;
pub use errors::FrameError;
pub use errors::ScheduleError;
pub use errors::SendError;
pub use filter::BankRange;
pub use filter::FilterBank;
pub use frame::Frame;
pub use frame::FrameView;
pub use frame::MAX_PAYLOAD_LEN;
pub use frame::MAX_STANDARD_ID;
pub use gateway::Gateway;
pub use gateway::GatewayView;
pub use irq::InterruptMap;
pub use lock::CeilingLock;
pub use relay::GATEWAY_TX_ID;
pub use relay::RelayEvent;
pub use relay::RelayPhase;
pub use sched::SchedView;
pub use sched::Scheduler;
pub use sched::TaskDef;
pub use shield::ChannelConfig;
pub use shield::ShieldConfig;
pub use timer::DeferredQueue;
