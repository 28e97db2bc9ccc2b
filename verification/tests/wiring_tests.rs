use can_gateway::errors::ConfigError;
use can_gateway::errors::ScheduleError;
use can_gateway::irq::fire;
use can_gateway::irq::InterruptMap;
use can_gateway::sched::Scheduler;
use can_gateway::sched::TaskDef;
use can_gateway::timer::DeferredQueue;

#[test]
fn bind_and_lookup() {
    let mut map = InterruptMap::new();
    map.bind(20, 0).unwrap();
    map.bind(64, 1).unwrap();
    assert_eq!(map.task_for(20), Some(0));
    assert_eq!(map.task_for(64), Some(1));
    assert_eq!(map.task_for(65), None);
}

#[test]
fn double_bind_is_refused() {
    let mut map = InterruptMap::new();
    map.bind(20, 0).unwrap();
    assert_eq!(map.bind(20, 1).unwrap_err(), ConfigError::LineAlreadyBound);
    // The original binding stands.
    assert_eq!(map.task_for(20), Some(0));
}

#[test]
fn firing_queues_the_bound_task() {
    let mut map = InterruptMap::new();
    map.bind(20, 0).unwrap();
    let mut s = Scheduler::new(vec![TaskDef { priority: 4, capacity: 1 }]);
    assert_eq!(fire(&map, &mut s, 20), Some(Ok(())));
    assert_eq!(s.pending(0), 1);
    // A second firing exceeds the pending capacity: best-effort drop.
    assert_eq!(fire(&map, &mut s, 20), Some(Err(ScheduleError::CapacityExceeded)));
    // An unbound line does nothing.
    assert_eq!(fire(&map, &mut s, 99), None);
    assert_eq!(s.pending(0), 1);
}

#[test]
fn deferred_work_becomes_due() {
    let mut q = DeferredQueue::new();
    q.schedule_after(1000, 500, 0);
    q.schedule_after(1000, 200, 1);
    assert_eq!(q.pop_due(1100), None);
    // At tick 1200 only the second entry is due.
    assert_eq!(q.pop_due(1200), Some(1));
    assert_eq!(q.pop_due(1200), None);
    assert_eq!(q.pop_due(1500), Some(0));
    assert_eq!(q.len(), 0);
}

#[test]
fn due_entries_leave_oldest_first() {
    let mut q = DeferredQueue::new();
    q.schedule_after(0, 10, 0);
    q.schedule_after(0, 10, 1);
    assert_eq!(q.pop_due(10), Some(0));
    assert_eq!(q.pop_due(10), Some(1));
}
