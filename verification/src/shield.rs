//! The dual-channel transport plan: everything the start-up code must
//! program into the two controllers, computed and checked up front.
//!
//! The plan fixes, per channel: the packed bit-timing word (taken as
//! given — validating the encoded bit rate against the bus is the
//! caller's responsibility), the auto-retransmit flag, which receive
//! FIFO the channel drains, the receive-path interrupt enables, and
//! which filter bank of its half of the shared bank is opened as an
//! accept-all filter. The start-up code applies the plan while each
//! controller sits in configuration mode.

use vstd::prelude::*;
use crate::errors::ConfigError;
use crate::filter::master_range;
use crate::filter::slave_range;
use crate::filter::split_ranges;

verus! {

/// Slots in the filter bank the two controllers share.
pub const FILTER_BANK_TOTAL: u8 = 28;

/// The split the shield uses: half the bank to each controller.
pub const SHIELD_SPLIT: u8 = 14;

/// Packed bit-timing word for a 45 MHz peripheral clock, 1 MBit/s,
/// sample point 87.5 %.
pub const BIT_TIMING_45MHZ_1MBIT: u32 = 0x001b0002;

/// Which hardware receive FIFO a channel drains.
#[derive(Clone, Copy, Debug, PartialEq, Eq, Structural)]
pub enum RxFifo {
    Fifo0,
    Fifo1,
}

/// Receive-path interrupt enables for one channel.
#[derive(Clone, Copy, Debug, PartialEq, Eq, Structural)]
pub struct RxInterrupts {
    pub message_pending: bool,
    pub fifo_full: bool,
    pub fifo_overrun: bool,
}

/// How a filter bank slot is programmed.
#[derive(Clone, Copy, Debug, PartialEq, Eq, Structural)]
pub enum FilterRule {
    /// Pass-through: every received identifier is admitted.
    AcceptAll,
}

/// One filter bank slot opened for a channel.
#[derive(Clone, Copy, Debug, PartialEq, Eq, Structural)]
pub struct BankAssignment {
    pub bank: u8,
    pub fifo: RxFifo,
    pub rule: FilterRule,
}

/// Everything to program into one controller.
#[derive(Clone, Copy, Debug, PartialEq, Eq, Structural)]
pub struct ChannelConfig {
    pub bit_timing: u32,
    pub auto_retransmit: bool,
    pub fifo: RxFifo,
    pub interrupts: RxInterrupts,
    /// The bank opened in this channel's half; `None` when its half of
    /// the split is empty.
    pub filter: Option<BankAssignment>,
}

/// The full transport plan for both channels.
#[derive(Clone, Copy, Debug, PartialEq, Eq, Structural)]
pub struct ShieldConfig {
    pub total_banks: u8,
    pub split: u8,
    pub a: ChannelConfig,
    pub b: ChannelConfig,
}

/// All three receive-path interrupts enabled.
pub open spec fn all_rx_interrupts() -> RxInterrupts {
    RxInterrupts { message_pending: true, fifo_full: true, fifo_overrun: true }
}

/// Compute the transport plan. Fails — committing nothing — when the
/// split index lies beyond the end of the shared filter bank. Channel A
/// drains FIFO 0 and opens the first bank of its half `[0, split)`;
/// channel B drains FIFO 1 and opens the first bank of its half
/// `[split, total)`; both halves pass all traffic through. Bit timing
/// and auto-retransmit are handed through unvalidated.
pub fn plan_shield(bit_timing: u32, auto_retransmit: bool, total_banks: u8, split: u8) -> (r:
    Result<ShieldConfig, ConfigError>)
    ensures
        r is Ok <==> split <= total_banks,
        split > total_banks ==> r == Err::<ShieldConfig, ConfigError>(ConfigError::InvalidSplit),
        r is Ok ==> {
            let c = r->Ok_0;
            &&& c.total_banks == total_banks
            &&& c.split == split
            &&& c.a.bit_timing == bit_timing && c.b.bit_timing == bit_timing
            &&& c.a.auto_retransmit == auto_retransmit && c.b.auto_retransmit == auto_retransmit
            &&& c.a.fifo == RxFifo::Fifo0 && c.b.fifo == RxFifo::Fifo1
            &&& c.a.interrupts == all_rx_interrupts() && c.b.interrupts == all_rx_interrupts()
            &&& c.a.filter == (if master_range(split).is_empty_spec() {
                None::<BankAssignment>
            } else {
                Some(
                    BankAssignment {
                        bank: master_range(split).start,
                        fifo: RxFifo::Fifo0,
                        rule: FilterRule::AcceptAll,
                    },
                )
            })
            &&& c.b.filter == (if slave_range(split, total_banks).is_empty_spec() {
                None::<BankAssignment>
            } else {
                Some(
                    BankAssignment {
                        bank: slave_range(split, total_banks).start,
                        fifo: RxFifo::Fifo1,
                        rule: FilterRule::AcceptAll,
                    },
                )
            })
        },
{
    let ranges = match split_ranges(total_banks, split) {
        Ok(ranges) => ranges,
        Err(e) => {
            return Err(e);
        },
    };
    let (master, slave) = ranges;
    let a_filter = if master.is_empty() {
        None
    } else {
        Some(BankAssignment { bank: master.start, fifo: RxFifo::Fifo0, rule: FilterRule::AcceptAll })
    };
    let b_filter = if slave.is_empty() {
        None
    } else {
        Some(BankAssignment { bank: slave.start, fifo: RxFifo::Fifo1, rule: FilterRule::AcceptAll })
    };
    let ints = RxInterrupts { message_pending: true, fifo_full: true, fifo_overrun: true };
    Ok(
        ShieldConfig {
            total_banks,
            split,
            a: ChannelConfig {
                bit_timing,
                auto_retransmit,
                fifo: RxFifo::Fifo0,
                interrupts: ints,
                filter: a_filter,
            },
            b: ChannelConfig {
                bit_timing,
                auto_retransmit,
                fifo: RxFifo::Fifo1,
                interrupts: ints,
                filter: b_filter,
            },
        },
    )
}

/// The plan the first shield revision programs: 1 MBit/s timing on a
/// 45 MHz clock, auto-retransmit on, and the shared bank split in half.
pub fn rev1_plan() -> (r: ShieldConfig)
    ensures
        r.split == SHIELD_SPLIT,
        r.total_banks == FILTER_BANK_TOTAL,
        r.a.bit_timing == BIT_TIMING_45MHZ_1MBIT && r.b.bit_timing == BIT_TIMING_45MHZ_1MBIT,
        r.a.auto_retransmit && r.b.auto_retransmit,
        r.a.fifo == RxFifo::Fifo0 && r.b.fifo == RxFifo::Fifo1,
        r.a.interrupts == all_rx_interrupts() && r.b.interrupts == all_rx_interrupts(),
        r.a.filter == Some(
            BankAssignment { bank: 0, fifo: RxFifo::Fifo0, rule: FilterRule::AcceptAll },
        ),
        r.b.filter == Some(
            BankAssignment { bank: SHIELD_SPLIT, fifo: RxFifo::Fifo1, rule: FilterRule::AcceptAll },
        ),
{
    let planned = plan_shield(BIT_TIMING_45MHZ_1MBIT, true, FILTER_BANK_TOTAL, SHIELD_SPLIT);
    planned.unwrap()
}

} // verus!
