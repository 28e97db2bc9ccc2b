//! Software-deferred activations driven by the monotonic clock.
//!
//! A task may ask for another task to be activated after a delay. The
//! entry records the absolute deadline tick; once the clock has passed
//! it, the activation is handed to the scheduler. Periodic tasks re-arm
//! themselves by scheduling their next activation each time they run.

use vstd::prelude::*;

verus! {

/// Index of the oldest entry of `es` that is due at `now`, if any.
pub open spec fn first_due(es: Seq<(u64, usize)>, now: u64) -> Option<int>
    decreases es.len(),
{
    if es.len() == 0 {
        None
    } else if es.first().0 <= now {
        Some(0)
    } else {
        match first_due(es.drop_first(), now) {
            Some(i) => Some(i + 1),
            None => None,
        }
    }
}

/// Deferred activations: `(deadline tick, task)` in arrival order.
pub struct DeferredQueue {
    entries: Vec<(u64, usize)>,
}

impl DeferredQueue {
    pub closed spec fn entries_spec(self) -> Seq<(u64, usize)> {
        self.entries@
    }

    pub fn new() -> (r: DeferredQueue)
        ensures
            r.entries_spec().len() == 0,
    {
        DeferredQueue { entries: Vec::new() }
    }

    pub fn len(&self) -> (r: usize)
        ensures
            r == self.entries_spec().len(),
    {
        self.entries.len()
    }

    /// Record that `task` should be activated once the clock reaches
    /// `now + delay` ticks. The deadline must fit the counter's width.
    pub fn schedule_after(&mut self, now: u64, delay: u64, task: usize)
        requires
            now + delay <= u64::MAX,
        ensures
            final(self).entries_spec() == old(self).entries_spec().push(
                ((now + delay) as u64, task),
            ),
    {
        self.entries.push((now + delay, task));
    }

    /// Hand out the oldest entry whose deadline has passed, removing it.
    /// `None` exactly when nothing is due at `now`.
    pub fn pop_due(&mut self, now: u64) -> (r: Option<usize>)
        ensures
            match first_due(old(self).entries_spec(), now) {
                Some(i) => {
                    &&& r == Some(old(self).entries_spec()[i].1)
                    &&& final(self).entries_spec() == old(self).entries_spec().remove(i)
                },
                None => r is None && final(self).entries_spec() == old(self).entries_spec(),
            },
    {
        let ghost es = self.entries_spec();
        let mut i: usize = 0;
        proof {
            assert(es.skip(0) =~= es);
        }
        while i < self.entries.len()
            invariant
                es == self.entries_spec(),
                es == old(self).entries_spec(),
                0 <= i <= es.len(),
                first_due(es, now) == match first_due(es.skip(i as int), now) {
                    Some(k) => Some(k + i),
                    None => None::<int>,
                },
                forall|j: int| 0 <= j < i ==> #[trigger] es[j].0 > now,
            decreases es.len() - i,
        {
            proof {
                assert(es.skip(i as int).first() == es[i as int]);
                assert(es.skip(i as int).drop_first() =~= es.skip(i + 1));
            }
            let (deadline, task) = self.entries[i];
            if deadline <= now {
                proof {
                    assert(first_due(es.skip(i as int), now) == Some(0int));
                    assert(first_due(es, now) == Some(i as int));
                }
                self.entries.remove(i);
                return Some(task);
            }
            i = i + 1;
        }
        proof {
            assert(es.skip(es.len() as int).len() == 0);
            assert(first_due(es.skip(es.len() as int), now) is None);
        }
        None
    }
}

} // verus!
