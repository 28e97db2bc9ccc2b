//! Filter-bank allocation: splitting the shared bank of receive-filter
//! slots between the two controllers.
//!
//! The hardware shares one ordered bank of filter slots between both
//! controllers. A single split index `k` assigns slots `[0, k)` to
//! channel A and `[k, total)` to channel B; the split may only be chosen
//! while the bank is in configuration mode, and is immutable once the
//! configuration is committed.

use vstd::prelude::*;
use crate::errors::ConfigError;

verus! {

/// A contiguous run of filter slots `[start, end)`.
#[derive(Clone, Copy, Debug, PartialEq, Eq, Structural)]
pub struct BankRange {
    pub start: u8,
    pub end: u8,
}

impl BankRange {
    pub open spec fn wf(self) -> bool {
        self.start <= self.end
    }

    /// The slots the range covers.
    pub open spec fn slots(self) -> Set<int> {
        Set::new(|i: int| self.start <= i < self.end)
    }

    pub open spec fn len_spec(self) -> int {
        self.end - self.start
    }

    pub open spec fn is_empty_spec(self) -> bool {
        self.start == self.end
    }

    /// Whether `slot` falls inside the range.
    pub fn contains(&self, slot: u8) -> (r: bool)
        ensures
            r == self.slots().contains(slot as int),
    {
        self.start <= slot && slot < self.end
    }

    pub fn is_empty(&self) -> (r: bool)
        ensures
            r == self.is_empty_spec(),
    {
        self.start == self.end
    }
}

/// The range assigned to channel A under split `k`: slots `[0, k)`.
pub open spec fn master_range(split: u8) -> BankRange {
    BankRange { start: 0, end: split }
}

/// The range assigned to channel B under split `k`: slots `[k, total)`.
pub open spec fn slave_range(split: u8, total: u8) -> BankRange {
    BankRange { start: split, end: total }
}

/// Split `total` filter slots at index `split`: channel A owns `[0, split)`,
/// channel B owns `[split, total)`. Fails when the split index lies beyond
/// the end of the bank.
pub fn split_ranges(total: u8, split: u8) -> (r: Result<(BankRange, BankRange), ConfigError>)
    ensures
        r is Ok <==> split <= total,
        split > total ==> r == Err::<(BankRange, BankRange), ConfigError>(ConfigError::InvalidSplit),
        r is Ok ==> r->Ok_0.0 == master_range(split) && r->Ok_0.1 == slave_range(split, total),
{
    if split > total {
        Err(ConfigError::InvalidSplit)
    } else {
        Ok((BankRange { start: 0, end: split }, BankRange { start: split, end: total }))
    }
}

/// Law: for every bank size and every split index inside it, the two
/// halves are disjoint and together cover exactly the slots `[0, total)` —
/// no slot is owned by both controllers and none is left unowned.
pub proof fn lemma_split_partition(total: u8, split: u8)
    requires
        split <= total,
    ensures
        master_range(split).slots().disjoint(slave_range(split, total).slots()),
        master_range(split).slots() + slave_range(split, total).slots()
            =~= Set::new(|i: int| 0 <= i < total),
        master_range(split).len_spec() + slave_range(split, total).len_spec() == total,
{
}

/// The filter bank's configuration lifecycle. Constructing the value
/// enters configuration mode; `commit` leaves it. The hardware accepts
/// filter edits only in configuration mode, so `set_split` demands that
/// the configuration is not yet committed, and after `commit` the split
/// is frozen for the rest of the program's execution.
pub struct FilterBank {
    total: u8,
    split: Option<u8>,
    committed: bool,
}

impl FilterBank {
    pub closed spec fn total_spec(self) -> u8 {
        self.total
    }

    pub closed spec fn split_spec(self) -> Option<u8> {
        self.split
    }

    pub closed spec fn committed_spec(self) -> bool {
        self.committed
    }

    pub open spec fn wf(self) -> bool {
        match self.split_spec() {
            Some(k) => k <= self.total_spec(),
            None => !self.committed_spec(),
        }
    }

    /// Enter configuration mode on a bank of `total` slots. No split is
    /// chosen yet and nothing is committed.
    pub fn new(total: u8) -> (r: FilterBank)
        ensures
            r.wf(),
            r.total_spec() == total,
            r.split_spec() is None,
            !r.committed_spec(),
    {
        FilterBank { total, split: None, committed: false }
    }

    /// Choose the split while still in configuration mode. On an invalid
    /// index the bank is left exactly as it was: nothing is committed and
    /// no earlier choice is disturbed.
    pub fn set_split(&mut self, split: u8) -> (r: Result<(BankRange, BankRange), ConfigError>)
        requires
            old(self).wf(),
            !old(self).committed_spec(),
        ensures
            final(self).wf(),
            r is Ok <==> split <= old(self).total_spec(),
            split > old(self).total_spec() ==> {
                &&& r == Err::<(BankRange, BankRange), ConfigError>(ConfigError::InvalidSplit)
                &&& *final(self) == *old(self)
            },
            r is Ok ==> {
                &&& r->Ok_0.0 == master_range(split)
                &&& r->Ok_0.1 == slave_range(split, old(self).total_spec())
                &&& final(self).split_spec() == Some(split)
                &&& final(self).total_spec() == old(self).total_spec()
                &&& !final(self).committed_spec()
            },
    {
        match split_ranges(self.total, split) {
            Ok(ranges) => {
                self.split = Some(split);
                Ok(ranges)
            },
            Err(e) => Err(e),
        }
    }

    /// Leave configuration mode. A split must have been chosen; once
    /// committed the configuration cannot be edited again.
    pub fn commit(&mut self)
        requires
            old(self).wf(),
            !old(self).committed_spec(),
            old(self).split_spec() is Some,
        ensures
            final(self).wf(),
            final(self).committed_spec(),
            final(self).split_spec() == old(self).split_spec(),
            final(self).total_spec() == old(self).total_spec(),
    {
        self.committed = true;
    }
}

} // verus!
