//! Preemptive, priority-based, run-to-completion task dispatch.
//!
//! The task set is closed and wired at start-up: each task has a fixed
//! static priority and a bounded pending-instance capacity. Activations
//! queue in arrival order; dispatch always starts the highest-priority
//! pending activation — first-in-first-out among equals — and only when
//! it is strictly higher-priority than whatever is running, since a
//! running task cannot be preempted by tasks of equal or lower priority.
//! Started tasks run to completion; the stack of started-but-unfinished
//! tasks therefore carries strictly increasing priorities, and a
//! preempted task resumes only when everything above it has completed.

use vstd::prelude::*;
use crate::errors::ScheduleError;

verus! {

/// Static description of one task: its fixed priority and how many
/// pending activations it may accumulate.
#[derive(Clone, Copy, Debug, PartialEq, Eq, Structural)]
pub struct TaskDef {
    pub priority: u8,
    pub capacity: usize,
}

/// How many times `t` occurs in `q`.
pub open spec fn count_of(q: Seq<usize>, t: usize) -> nat
    decreases q.len(),
{
    if q.len() == 0 {
        0
    } else {
        count_of(q.drop_last(), t) + if q.last() == t {
            1nat
        } else {
            0nat
        }
    }
}

proof fn lemma_count_push(q: Seq<usize>, x: usize, t: usize)
    ensures
        count_of(q.push(x), t) == count_of(q, t) + if x == t {
            1nat
        } else {
            0nat
        },
{
    assert(q.push(x).drop_last() =~= q);
}

proof fn lemma_count_concat(a: Seq<usize>, b: Seq<usize>, t: usize)
    ensures
        count_of(a + b, t) == count_of(a, t) + count_of(b, t),
    decreases b.len(),
{
    if b.len() == 0 {
        assert(a + b =~= a);
    } else {
        assert((a + b).drop_last() =~= a + b.drop_last());
        lemma_count_concat(a, b.drop_last(), t);
    }
}

proof fn lemma_count_remove(q: Seq<usize>, i: int, t: usize)
    requires
        0 <= i < q.len(),
    ensures
        count_of(q, t) == count_of(q.remove(i), t) + if q[i] == t {
            1nat
        } else {
            0nat
        },
{
    let left = q.subrange(0, i);
    let mid = q.subrange(i, i + 1);
    let right = q.subrange(i + 1, q.len() as int);
    assert(q =~= left + mid + right);
    assert(q.remove(i) =~= left + right);
    lemma_count_concat(left + mid, right, t);
    lemma_count_concat(left, mid, t);
    lemma_count_concat(left, right, t);
    assert(mid.drop_last() =~= Seq::<usize>::empty());
    assert(count_of(Seq::<usize>::empty(), t) == 0);
    assert(mid.last() == q[i]);
    assert(count_of(mid, t) == if q[i] == t { 1nat } else { 0nat });
}

/// Index of the first entry of `q` whose task has maximal priority.
pub open spec fn first_max_index(tasks: Seq<TaskDef>, q: Seq<usize>) -> int
    decreases q.len(),
{
    if q.len() <= 1 {
        0
    } else {
        let r = first_max_index(tasks, q.drop_last());
        if tasks[q.last() as int].priority > tasks[q[r] as int].priority {
            q.len() - 1
        } else {
            r
        }
    }
}

/// Mathematical model of the scheduler.
pub struct SchedView {
    /// The static task table.
    pub tasks: Seq<TaskDef>,
    /// Pending activations, oldest first.
    pub queue: Seq<usize>,
    /// Started-but-unfinished tasks; the last entry is executing, every
    /// earlier entry stands preempted beneath it.
    pub stack: Seq<usize>,
}

impl SchedView {
    pub open spec fn prio_of(self, t: int) -> u8 {
        self.tasks[t].priority
    }

    pub open spec fn cap_of(self, t: int) -> usize {
        self.tasks[t].capacity
    }

    /// Pending activations of task `t`.
    pub open spec fn pending_of(self, t: usize) -> nat {
        count_of(self.queue, t)
    }

    /// The task currently executing, if any.
    pub open spec fn running(self) -> Option<usize> {
        if self.stack.len() == 0 {
            None
        } else {
            Some(self.stack.last())
        }
    }

    pub open spec fn wf(self) -> bool {
        &&& forall|i: int|
            0 <= i < self.queue.len() ==> (#[trigger] self.queue[i] as int) < self.tasks.len()
        &&& forall|i: int|
            0 <= i < self.stack.len() ==> (#[trigger] self.stack[i] as int) < self.tasks.len()
        &&& forall|t: usize|
            (t as int) < self.tasks.len() ==> #[trigger] self.pending_of(t) <= self.cap_of(
                t as int,
            )
        &&& forall|i: int, j: int|
            #![trigger self.stack[i], self.stack[j]]
            0 <= i < j < self.stack.len() ==> self.prio_of(self.stack[i] as int) < self.prio_of(
                self.stack[j] as int,
            )
    }

    /// Queue an activation of task `t`: appended in arrival order when
    /// `t` has spare pending capacity, dropped — leaving the scheduler
    /// exactly as it was — when the capacity is exhausted.
    pub open spec fn request_spec(self, t: usize) -> (SchedView, Result<(), ScheduleError>) {
        if self.pending_of(t) >= self.cap_of(t as int) {
            (self, Err(ScheduleError::CapacityExceeded))
        } else {
            (SchedView { queue: self.queue.push(t), ..self }, Ok(()))
        }
    }

    /// Whether an activation of `t` may start now: always when nothing
    /// runs, otherwise only at strictly higher priority than the running
    /// task.
    pub open spec fn can_preempt(self, t: usize) -> bool {
        match self.running() {
            None => true,
            Some(r) => self.prio_of(t as int) > self.prio_of(r as int),
        }
    }

    /// Dispatch at a preemption-safe point: start the oldest pending
    /// activation of maximal priority, if one is pending and strictly
    /// out-prioritises the running task; otherwise change nothing.
    pub open spec fn dispatch_spec(self) -> (SchedView, Option<usize>) {
        if self.queue.len() == 0 {
            (self, None::<usize>)
        } else {
            let i = first_max_index(self.tasks, self.queue);
            let t = self.queue[i];
            if self.can_preempt(t) {
                (
                    SchedView { queue: self.queue.remove(i), stack: self.stack.push(t), ..self },
                    Some(t),
                )
            } else {
                (self, None::<usize>)
            }
        }
    }

    /// The running task finishes: it leaves the stack and whatever it
    /// preempted resumes.
    pub open spec fn complete_spec(self) -> SchedView {
        SchedView { stack: self.stack.drop_last(), ..self }
    }
}

/// What `first_max_index` names: a valid index whose priority no entry
/// exceeds, and which every earlier entry falls strictly short of.
proof fn lemma_first_max(tasks: Seq<TaskDef>, q: Seq<usize>)
    requires
        q.len() > 0,
    ensures
        0 <= first_max_index(tasks, q) < q.len(),
        forall|j: int|
            0 <= j < q.len() ==> tasks[#[trigger] q[j] as int].priority <= tasks[q[first_max_index(
                tasks,
                q,
            )] as int].priority,
        forall|j: int|
            0 <= j < first_max_index(tasks, q) ==> tasks[#[trigger] q[j] as int].priority < tasks[
                q[first_max_index(tasks, q)] as int
            ].priority,
    decreases q.len(),
{
    if q.len() > 1 {
        lemma_first_max(tasks, q.drop_last());
        assert(forall|j: int| 0 <= j < q.len() - 1 ==> q.drop_last()[j] == q[j]);
    }
}

/// The scheduler: static task table, pending activations in arrival
/// order, and the preemption stack.
pub struct Scheduler {
    tasks: Vec<TaskDef>,
    queue: Vec<usize>,
    stack: Vec<usize>,
}

impl View for Scheduler {
    type V = SchedView;

    closed spec fn view(&self) -> SchedView {
        SchedView { tasks: self.tasks@, queue: self.queue@, stack: self.stack@ }
    }
}

impl Scheduler {
    /// Wire the closed task set. Nothing is pending and nothing runs.
    pub fn new(tasks: Vec<TaskDef>) -> (r: Scheduler)
        ensures
            r@.wf(),
            r@.tasks == tasks@,
            r@.queue.len() == 0,
            r@.stack.len() == 0,
    {
        let r = Scheduler { tasks, queue: Vec::new(), stack: Vec::new() };
        proof {
            assert forall|t: usize| (t as int) < r@.tasks.len() implies #[trigger] r@.pending_of(t)
                <= r@.cap_of(t as int) by {
                assert(count_of(r@.queue, t) == 0);
            }
        }
        r
    }

    pub fn task_count(&self) -> (r: usize)
        ensures
            r == self@.tasks.len(),
    {
        self.tasks.len()
    }

    /// The task currently executing, if any.
    pub fn running(&self) -> (r: Option<usize>)
        ensures
            r == self@.running(),
    {
        if self.stack.len() == 0 {
            None
        } else {
            Some(self.stack[self.stack.len() - 1])
        }
    }

    /// How many started tasks stand preempted or running.
    pub fn stack_depth(&self) -> (r: usize)
        ensures
            r == self@.stack.len(),
    {
        self.stack.len()
    }

    /// How many activations are pending over all tasks.
    pub fn queue_len(&self) -> (r: usize)
        ensures
            r == self@.queue.len(),
    {
        self.queue.len()
    }

    /// How many activations of task `t` are pending.
    pub fn pending(&self, t: usize) -> (r: usize)
        requires
            self@.wf(),
            t < self@.tasks.len(),
        ensures
            r == self@.pending_of(t),
    {
        let mut n: usize = 0;
        let mut i: usize = 0;
        proof {
            assert(self@.queue.subrange(0, 0) =~= Seq::<usize>::empty());
        }
        while i < self.queue.len()
            invariant
                self@.wf(),
                t < self@.tasks.len(),
                0 <= i <= self@.queue.len(),
                n == count_of(self@.queue.subrange(0, i as int), t),
                n <= i,
            decreases self@.queue.len() - i,
        {
            proof {
                assert(self@.queue.subrange(0, i + 1).drop_last() =~= self@.queue.subrange(
                    0,
                    i as int,
                ));
                assert(self@.queue.subrange(0, i + 1).last() == self@.queue[i as int]);
            }
            if self.queue[i] == t {
                n = n + 1;
            }
            i = i + 1;
        }
        proof {
            assert(self@.queue.subrange(0, self@.queue.len() as int) =~= self@.queue);
        }
        n
    }

    /// Request an activation of task `t` — what an interrupt firing or a
    /// software spawn does. Best-effort: an over-capacity request is
    /// dropped, reported, and disturbs nothing already queued.
    pub fn request(&mut self, t: usize) -> (r: Result<(), ScheduleError>)
        requires
            old(self)@.wf(),
            t < old(self)@.tasks.len(),
        ensures
            final(self)@.wf(),
            ({
                let (s2, res) = old(self)@.request_spec(t);
                final(self)@ == s2 && r == res
            }),
    {
        let pending = self.pending(t);
        let cap = self.tasks[t].capacity;
        if pending >= cap {
            Err(ScheduleError::CapacityExceeded)
        } else {
            self.queue.push(t);
            proof {
                let q0 = old(self)@.queue;
                assert(self@.queue == q0.push(t));
                assert forall|u: usize| (u as int) < self@.tasks.len() implies
                    #[trigger] self@.pending_of(u) <= self@.cap_of(u as int) by {
                    lemma_count_push(q0, t, u);
                    assert(old(self)@.pending_of(u) <= old(self)@.cap_of(u as int));
                    assert(old(self)@.pending_of(t) < old(self)@.cap_of(t as int));
                }
            }
            Ok(())
        }
    }

    /// Dispatch at a preemption-safe point: start — and return — the
    /// oldest pending activation of maximal priority if it strictly
    /// out-prioritises the running task, else leave everything as it is.
    pub fn dispatch(&mut self) -> (r: Option<usize>)
        requires
            old(self)@.wf(),
        ensures
            final(self)@.wf(),
            ({
                let (s2, res) = old(self)@.dispatch_spec();
                final(self)@ == s2 && r == res
            }),
    {
        if self.queue.len() == 0 {
            return None;
        }
        let ghost tasks = self@.tasks;
        let ghost q = self@.queue;
        let mut best: usize = 0;
        let mut i: usize = 1;
        proof {
            assert(q.subrange(0, 1).len() == 1);
            assert(first_max_index(tasks, q.subrange(0, 1)) == 0);
            assert(q.subrange(0, 1)[0] == q[0]);
        }
        while i < self.queue.len()
            invariant
                self@.wf(),
                tasks == self@.tasks,
                q == self@.queue,
                q.len() > 0,
                1 <= i <= q.len(),
                0 <= best < i,
                best == first_max_index(tasks, q.subrange(0, i as int)),
            decreases q.len() - i,
        {
            proof {
                assert(q.subrange(0, i + 1).drop_last() =~= q.subrange(0, i as int));
                assert(q.subrange(0, i + 1).last() == q[i as int]);
                assert(q.subrange(0, i + 1)[best as int] == q[best as int]);
            }
            let cand = self.queue[i];
            let cur = self.queue[best];
            if self.tasks[cand].priority > self.tasks[cur].priority {
                best = i;
            }
            i = i + 1;
        }
        proof {
            assert(q.subrange(0, q.len() as int) =~= q);
        }
        let chosen = self.queue[best];
        let start = if self.stack.len() == 0 {
            true
        } else {
            let top = self.stack[self.stack.len() - 1];
            self.tasks[chosen].priority > self.tasks[top].priority
        };
        if !start {
            return None;
        }
        self.queue.remove(best);
        self.stack.push(chosen);
        proof {
            let s0 = old(self)@;
            let s2 = self@;
            lemma_first_max(tasks, q);
            // Pending counts only shrink when an activation leaves the queue.
            assert forall|u: usize| (u as int) < s2.tasks.len() implies #[trigger] s2.pending_of(u)
                <= s2.cap_of(u as int) by {
                lemma_count_remove(q, best as int, u);
                assert(s0.pending_of(u) <= s0.cap_of(u as int));
            }
            // The stack keeps strictly increasing priorities: the newcomer
            // out-prioritises the old top, and thereby everything below it.
            assert forall|a: int, b: int|
                #![trigger s2.stack[a], s2.stack[b]]
                0 <= a < b < s2.stack.len() implies s2.prio_of(s2.stack[a] as int) < s2.prio_of(
                s2.stack[b] as int,
            ) by {
                if b < s2.stack.len() - 1 {
                    assert(s2.stack[a] == s0.stack[a] && s2.stack[b] == s0.stack[b]);
                } else {
                    assert(s2.stack[b] == chosen);
                    if a < s0.stack.len() - 1 {
                        assert(s0.prio_of(s0.stack[a] as int) < s0.prio_of(
                            s0.stack[s0.stack.len() - 1] as int,
                        ));
                    }
                }
            }
        }
        Some(chosen)
    }

    /// The running task finishes and leaves the stack.
    pub fn complete(&mut self)
        requires
            old(self)@.wf(),
            old(self)@.stack.len() > 0,
        ensures
            final(self)@.wf(),
            final(self)@ == old(self)@.complete_spec(),
    {
        self.stack.pop();
        proof {
            let s0 = old(self)@;
            let s2 = self@;
            assert(s2.stack =~= s0.stack.drop_last());
            assert forall|i: int|
                0 <= i < s2.queue.len() implies (#[trigger] s2.queue[i] as int)
                < s2.tasks.len() by {
                assert(s2.queue[i] == s0.queue[i]);
            }
            assert forall|i: int|
                0 <= i < s2.stack.len() implies (#[trigger] s2.stack[i] as int)
                < s2.tasks.len() by {
                assert(s2.stack[i] == s0.stack[i]);
            }
            assert forall|u: usize| (u as int) < s2.tasks.len() implies #[trigger] s2.pending_of(u)
                <= s2.cap_of(u as int) by {
                assert(s0.pending_of(u) <= s0.cap_of(u as int));
            }
            assert forall|a: int, b: int|
                #![trigger s2.stack[a], s2.stack[b]]
                0 <= a < b < s2.stack.len() implies s2.prio_of(s2.stack[a] as int) < s2.prio_of(
                s2.stack[b] as int,
            ) by {
                assert(s2.stack[a] == s0.stack[a] && s2.stack[b] == s0.stack[b]);
                assert(s0.prio_of(s0.stack[a] as int) < s0.prio_of(s0.stack[b] as int));
            }
        }
    }
}

/// Law: the highest-priority ready task runs. When nothing is running,
/// dispatch starts a pending activation that no other pending activation
/// out-prioritises.
pub proof fn lemma_dispatch_highest_ready(s: SchedView, i: int)
    requires
        s.wf(),
        s.stack.len() == 0,
        0 <= i < s.queue.len(),
    ensures
        ({
            let (s2, d) = s.dispatch_spec();
            &&& d is Some
            &&& s.prio_of(d->0 as int) >= s.prio_of(s.queue[i] as int)
            &&& s2.running() == d
        }),
{
    lemma_first_max(s.tasks, s.queue);
}

/// Law: priority preemption. With a low-priority task running and a
/// strictly higher-priority activation pending, the next dispatch starts
/// an activation at least that high — the running task does not continue
/// ahead of it — and the preempted task becomes the running task again
/// exactly when the preemptor completes.
pub proof fn lemma_preemption(s: SchedView, i: int)
    requires
        s.wf(),
        s.stack.len() > 0,
        0 <= i < s.queue.len(),
        s.prio_of(s.queue[i] as int) > s.prio_of(s.running()->0 as int),
    ensures
        ({
            let (s2, d) = s.dispatch_spec();
            &&& d is Some
            &&& s.prio_of(d->0 as int) >= s.prio_of(s.queue[i] as int)
            &&& s.prio_of(d->0 as int) > s.prio_of(s.running()->0 as int)
            &&& s2.running() == d
            &&& s2.stack == s.stack.push(d->0)
            &&& s2.complete_spec().running() == s.running()
        }),
{
    lemma_first_max(s.tasks, s.queue);
    let (s2, d) = s.dispatch_spec();
    assert(s2.stack.drop_last() =~= s.stack);
}

/// Law: run to completion. A preempted task — any stack entry below the
/// top — is not the running task; queueing a request leaves the stack
/// untouched; a further dispatch only stacks more work above it; and
/// completion removes exactly the top entry, so the preempted task
/// resumes only once everything above it has completed.
pub proof fn lemma_resume_only_after_completion(s: SchedView, i: int, t: usize)
    requires
        s.wf(),
        0 <= i < s.stack.len() - 1,
        (t as int) < s.tasks.len(),
    ensures
        s.running() != Some(s.stack[i]),
        s.request_spec(t).0.stack == s.stack,
        s.dispatch_spec().0.stack.len() > i + 1,
        s.dispatch_spec().0.stack[i] == s.stack[i],
        s.dispatch_spec().0.running() != Some(s.stack[i]),
        s.complete_spec().stack == s.stack.drop_last(),
{
    let last = s.stack.len() - 1;
    assert(s.prio_of(s.stack[i] as int) < s.prio_of(s.stack[last] as int));
    let (s2, d) = s.dispatch_spec();
    if s.queue.len() > 0 {
        lemma_first_max(s.tasks, s.queue);
        if s.can_preempt(s.queue[first_max_index(s.tasks, s.queue)]) {
            assert(s2.stack[i] == s.stack[i]);
            assert(s.prio_of(s2.stack[s2.stack.len() - 1] as int) > s.prio_of(
                s.stack[last] as int,
            ));
        }
    }
}

/// Law: first-in-first-out among equal priorities. Dispatch never selects
/// a pending activation over an older one of the same priority.
pub proof fn lemma_fifo_order(s: SchedView, i: int, j: int)
    requires
        s.wf(),
        0 <= i < j < s.queue.len(),
        s.prio_of(s.queue[i] as int) == s.prio_of(s.queue[j] as int),
    ensures
        first_max_index(s.tasks, s.queue) != j,
{
    lemma_first_max(s.tasks, s.queue);
}

} // verus!
