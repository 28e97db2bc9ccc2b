use can_gateway::errors::ScheduleError;
use can_gateway::sched::Scheduler;
use can_gateway::sched::TaskDef;

fn two_tasks(low: u8, high: u8) -> Scheduler {
    Scheduler::new(vec![
        TaskDef { priority: low, capacity: 2 },
        TaskDef { priority: high, capacity: 2 },
    ])
}

#[test]
fn dispatch_picks_highest_priority() {
    let mut s = two_tasks(1, 5);
    s.request(0).unwrap();
    s.request(1).unwrap();
    assert_eq!(s.dispatch(), Some(1));
    assert_eq!(s.running(), Some(1));
}

#[test]
fn priority_preemption() {
    // A pending higher-priority activation preempts the running task
    // and completes before it resumes.
    let mut s = two_tasks(1, 5);
    s.request(0).unwrap();
    assert_eq!(s.dispatch(), Some(0));
    assert_eq!(s.running(), Some(0));
    s.request(1).unwrap();
    assert_eq!(s.dispatch(), Some(1));
    assert_eq!(s.running(), Some(1));
    assert_eq!(s.stack_depth(), 2);
    // The preemptor runs to completion; only then does task 0 resume.
    s.complete();
    assert_eq!(s.running(), Some(0));
    s.complete();
    assert_eq!(s.running(), None);
}

#[test]
fn no_preemption_by_equal_priority() {
    let mut s = two_tasks(3, 3);
    s.request(0).unwrap();
    assert_eq!(s.dispatch(), Some(0));
    s.request(1).unwrap();
    // Equal priority cannot preempt a running task.
    assert_eq!(s.dispatch(), None);
    assert_eq!(s.running(), Some(0));
    s.complete();
    assert_eq!(s.dispatch(), Some(1));
}

#[test]
fn fifo_among_equal_priorities() {
    let mut s = two_tasks(3, 3);
    s.request(1).unwrap();
    s.request(0).unwrap();
    assert_eq!(s.dispatch(), Some(1));
    s.complete();
    assert_eq!(s.dispatch(), Some(0));
}

#[test]
fn capacity_overflow_drops_excess() {
    let mut s = Scheduler::new(vec![TaskDef { priority: 2, capacity: 2 }]);
    s.request(0).unwrap();
    s.request(0).unwrap();
    // The third request exceeds the pending-instance capacity.
    assert_eq!(s.request(0), Err(ScheduleError::CapacityExceeded));
    // The earlier activations are intact and dispatch normally.
    assert_eq!(s.pending(0), 2);
    assert_eq!(s.dispatch(), Some(0));
    s.complete();
    assert_eq!(s.dispatch(), Some(0));
    s.complete();
    assert_eq!(s.dispatch(), None);
    assert_eq!(s.queue_len(), 0);
}

#[test]
fn capacity_frees_after_dispatch() {
    let mut s = Scheduler::new(vec![TaskDef { priority: 2, capacity: 1 }]);
    s.request(0).unwrap();
    assert_eq!(s.request(0), Err(ScheduleError::CapacityExceeded));
    assert_eq!(s.dispatch(), Some(0));
    // Once the pending activation started, a new request fits again.
    s.request(0).unwrap();
    assert_eq!(s.pending(0), 1);
}
