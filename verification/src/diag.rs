//! Diagnostic byte counter.
//!
//! The gateway keeps one process-wide byte counter that advances once per
//! send cycle. It wraps at 256 and never panics; the embedding performs
//! the actual increment with a hardware-atomic operation, which needs no
//! invariant beyond atomicity, so the value itself is modelled plainly.

use vstd::prelude::*;

verus! {

#[derive(Clone, Copy, Debug, PartialEq, Eq, Structural)]
pub struct DiagCounter {
    value: u8,
}

impl DiagCounter {
    pub closed spec fn value_spec(self) -> u8 {
        self.value
    }

    pub fn new() -> (r: DiagCounter)
        ensures
            r.value_spec() == 0,
    {
        DiagCounter { value: 0 }
    }

    pub fn value(&self) -> (r: u8)
        ensures
            r == self.value_spec(),
    {
        self.value
    }

    /// Advance the counter by one, wrapping from 255 back to 0, and
    /// return the value it held before the increment.
    pub fn fetch_add(&mut self) -> (r: u8)
        ensures
            r == old(self).value_spec(),
            final(self).value_spec() == (old(self).value_spec() + 1) % 256,
    {
        let prev = self.value;
        self.value = if self.value == 255 { 0 } else { self.value + 1 };
        prev
    }

    /// Read the counter and reset it to zero, returning the old value.
    pub fn swap_zero(&mut self) -> (r: u8)
        ensures
            r == old(self).value_spec(),
            final(self).value_spec() == 0,
    {
        let prev = self.value;
        self.value = 0;
        prev
    }
}

} // verus!
