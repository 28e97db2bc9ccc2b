//! Priority-ceiling critical sections protecting a controller handle.
//!
//! A task that wants a controller enters a scoped critical section that
//! raises its effective priority to the resource's ceiling — the highest
//! priority of any task that may ever touch the resource — and restores
//! the previous priority on exit, on every exit path. Under the strict
//! preemption rule no contender can then preempt the holder, which
//! bounds priority inversion; and only one task is ever inside.
//!
//! Nested acquisition of the same resource by the same task is a
//! programming error and is ruled out by `enter`'s precondition.

use vstd::prelude::*;
use crate::sched::SchedView;

verus! {

pub struct CeilingLock {
    ceiling: u8,
    holder: Option<usize>,
    /// The priority the holder had when it entered.
    saved: u8,
    /// Instrumentation: how many tasks are inside the critical section.
    inside: u8,
}

impl CeilingLock {
    pub closed spec fn ceiling_spec(self) -> u8 {
        self.ceiling
    }

    pub closed spec fn holder_spec(self) -> Option<usize> {
        self.holder
    }

    pub closed spec fn saved_spec(self) -> u8 {
        self.saved
    }

    /// The instrumentation counter: tasks currently inside the section.
    pub closed spec fn occupancy_spec(self) -> u8 {
        self.inside
    }

    pub open spec fn wf(self) -> bool {
        &&& self.holder_spec() is Some ==> self.occupancy_spec() == 1
        &&& self.holder_spec() is None ==> self.occupancy_spec() == 0
    }

    /// A free lock for a resource with the given ceiling priority.
    pub fn new(ceiling: u8) -> (r: CeilingLock)
        ensures
            r.wf(),
            r.ceiling_spec() == ceiling,
            r.holder_spec() is None,
            r.occupancy_spec() == 0,
    {
        CeilingLock { ceiling, holder: None, saved: 0, inside: 0 }
    }

    pub fn ceiling(&self) -> (r: u8)
        ensures
            r == self.ceiling_spec(),
    {
        self.ceiling
    }

    pub fn is_held(&self) -> (r: bool)
        ensures
            r == (self.holder_spec() is Some),
    {
        self.holder.is_some()
    }

    /// Read the instrumentation counter.
    pub fn occupancy(&self) -> (r: u8)
        ensures
            r == self.occupancy_spec(),
    {
        self.inside
    }

    /// Enter the critical section: record the holder and raise its
    /// effective priority to the ceiling. The lock must be free — the
    /// section is exclusive and never nested — and the ceiling must
    /// really be a ceiling: no entering task outranks it.
    pub fn enter(&mut self, task: usize, prio: &mut u8)
        requires
            old(self).wf(),
            old(self).holder_spec() is None,
            *old(prio) <= old(self).ceiling_spec(),
        ensures
            final(self).wf(),
            final(self).holder_spec() == Some(task),
            final(self).saved_spec() == *old(prio),
            final(self).ceiling_spec() == old(self).ceiling_spec(),
            final(self).occupancy_spec() == 1,
            *final(prio) == old(self).ceiling_spec(),
    {
        self.holder = Some(task);
        self.saved = *prio;
        self.inside = 1;
        *prio = self.ceiling;
    }

    /// Leave the critical section: release the lock and restore the
    /// priority the holder entered with. Callers run this on every exit
    /// path, failure paths included.
    pub fn exit(&mut self, task: usize, prio: &mut u8)
        requires
            old(self).wf(),
            old(self).holder_spec() == Some(task),
        ensures
            final(self).wf(),
            final(self).holder_spec() is None,
            final(self).ceiling_spec() == old(self).ceiling_spec(),
            final(self).saved_spec() == old(self).saved_spec(),
            final(self).occupancy_spec() == 0,
            *final(prio) == old(self).saved_spec(),
    {
        self.holder = None;
        self.inside = 0;
        *prio = self.saved;
    }
}

/// Law: mutual exclusion. The instrumentation counter never exceeds one —
/// a task is inside the critical section exactly when it is the recorded
/// holder, and there is at most one holder.
pub proof fn lemma_mutual_exclusion(l: CeilingLock)
    requires
        l.wf(),
    ensures
        l.occupancy_spec() <= 1,
        (l.holder_spec() is Some) <==> l.occupancy_spec() == 1,
{
}

/// Law: the ceiling bounds priority inversion. While the holder runs at
/// the resource's ceiling, no contender — no task whose priority the
/// ceiling covers — can preempt it under the strict-priority dispatch
/// rule.
pub proof fn lemma_ceiling_blocks_contenders(s: SchedView, ceiling: u8, t: usize)
    requires
        s.running() is Some,
        s.prio_of(s.running()->0 as int) == ceiling,
        s.prio_of(t as int) <= ceiling,
    ensures
        !s.can_preempt(t),
{
}

} // verus!
