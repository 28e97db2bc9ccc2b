//! The interrupt-vector-to-task registration table.
//!
//! A hardware interrupt line is statically bound to exactly one task;
//! firing the line queues an activation of that task at the task's own
//! fixed priority. The table is built at start-up and never mutated
//! afterwards.

use vstd::prelude::*;
use crate::errors::ConfigError;
use crate::errors::ScheduleError;
use crate::sched::Scheduler;

verus! {

/// The task bound to `line`, scanning oldest binding first.
pub open spec fn lookup(bindings: Seq<(u16, usize)>, line: u16) -> Option<usize>
    decreases bindings.len(),
{
    if bindings.len() == 0 {
        None
    } else if bindings.first().0 == line {
        Some(bindings.first().1)
    } else {
        lookup(bindings.drop_first(), line)
    }
}

/// Interrupt-line-to-task bindings, one task per line.
pub struct InterruptMap {
    bindings: Vec<(u16, usize)>,
}

impl InterruptMap {
    pub closed spec fn bindings_spec(self) -> Seq<(u16, usize)> {
        self.bindings@
    }

    /// Each line is bound at most once.
    pub open spec fn wf(self) -> bool {
        forall|i: int, j: int|
            #![trigger self.bindings_spec()[i], self.bindings_spec()[j]]
            0 <= i < j < self.bindings_spec().len() ==> self.bindings_spec()[i].0
                != self.bindings_spec()[j].0
    }

    pub open spec fn bound_task(self, line: u16) -> Option<usize> {
        lookup(self.bindings_spec(), line)
    }

    /// An empty table.
    pub fn new() -> (r: InterruptMap)
        ensures
            r.wf(),
            r.bindings_spec().len() == 0,
    {
        InterruptMap { bindings: Vec::new() }
    }

    /// Which task, if any, `line` is bound to.
    pub fn task_for(&self, line: u16) -> (r: Option<usize>)
        ensures
            r == self.bound_task(line),
    {
        let ghost bs = self.bindings_spec();
        let mut i: usize = 0;
        proof {
            assert(bs.skip(0) =~= bs);
        }
        while i < self.bindings.len()
            invariant
                bs == self.bindings_spec(),
                0 <= i <= bs.len(),
                lookup(bs, line) == lookup(bs.skip(i as int), line),
            decreases bs.len() - i,
        {
            proof {
                assert(bs.skip(i as int).first() == bs[i as int]);
                assert(bs.skip(i as int).drop_first() =~= bs.skip(i + 1));
            }
            let (l, t) = self.bindings[i];
            if l == line {
                return Some(t);
            }
            i = i + 1;
        }
        proof {
            assert(bs.skip(bs.len() as int).len() == 0);
        }
        None
    }

    /// Bind `line` to `task` during start-up wiring. Refused — leaving
    /// the table untouched — when the line is already bound.
    pub fn bind(&mut self, line: u16, task: usize) -> (r: Result<(), ConfigError>)
        requires
            old(self).wf(),
        ensures
            final(self).wf(),
            r is Ok <==> old(self).bound_task(line) is None,
            r is Err ==> *final(self) == *old(self) && r == Err::<(), ConfigError>(
                ConfigError::LineAlreadyBound,
            ),
            r is Ok ==> final(self).bindings_spec() == old(self).bindings_spec().push(
                (line, task),
            ),
            r is Ok ==> final(self).bound_task(line) == Some(task),
    {
        match self.task_for(line) {
            Some(_) => Err(ConfigError::LineAlreadyBound),
            None => {
                self.bindings.push((line, task));
                proof {
                    let bs0 = old(self).bindings_spec();
                    let bs2 = self.bindings_spec();
                    lemma_lookup_absent_push(bs0, line, task);
                    assert forall|i: int, j: int|
                        #![trigger bs2[i], bs2[j]]
                        0 <= i < j < bs2.len() implies bs2[i].0 != bs2[j].0 by {
                        if j < bs2.len() - 1 {
                            assert(bs2[i] == bs0[i] && bs2[j] == bs0[j]);
                        } else {
                            assert(bs2[j] == (line, task));
                            assert(bs2[i] == bs0[i]);
                            lemma_lookup_finds_bound(bs0, line, i);
                        }
                    }
                }
                Ok(())
            },
        }
    }
}

/// If `lookup` misses, no binding carries the line.
proof fn lemma_lookup_finds_bound(bs: Seq<(u16, usize)>, line: u16, i: int)
    requires
        0 <= i < bs.len(),
        lookup(bs, line) is None,
    ensures
        bs[i].0 != line,
    decreases bs.len(),
{
    if i > 0 {
        lemma_lookup_finds_bound(bs.drop_first(), line, i - 1);
        assert(bs.drop_first()[i - 1] == bs[i]);
    }
}

/// Appending a binding for an unbound line makes `lookup` find it.
proof fn lemma_lookup_absent_push(bs: Seq<(u16, usize)>, line: u16, task: usize)
    requires
        lookup(bs, line) is None,
    ensures
        lookup(bs.push((line, task)), line) == Some(task),
    decreases bs.len(),
{
    if bs.len() == 0 {
        assert(bs.push((line, task)).first() == (line, task));
    } else {
        assert(bs.push((line, task)).first() == bs.first());
        assert(bs.push((line, task)).drop_first() =~= bs.drop_first().push((line, task)));
        lemma_lookup_absent_push(bs.drop_first(), line, task);
    }
}

/// A hardware interrupt fires: queue an activation of the bound task at
/// its fixed priority. Returns `None` — scheduler untouched — when the
/// line is unbound or bound outside the task table; otherwise the
/// outcome of the activation request, which is best-effort.
pub fn fire(map: &InterruptMap, sched: &mut Scheduler, line: u16) -> (r: Option<
    Result<(), ScheduleError>,
>)
    requires
        old(sched)@.wf(),
    ensures
        final(sched)@.wf(),
        match map.bound_task(line) {
            Some(t) => {
                if (t as int) < old(sched)@.tasks.len() {
                    let (s2, res) = old(sched)@.request_spec(t);
                    r == Some(res) && final(sched)@ == s2
                } else {
                    r is None && *final(sched) == *old(sched)
                }
            },
            None => r is None && *final(sched) == *old(sched),
        },
{
    match map.task_for(line) {
        Some(t) => {
            if t < sched.task_count() {
                Some(sched.request(t))
            } else {
                None
            }
        },
        None => None,
    }
}

} // verus!
