use can_gateway::lock::CeilingLock;

#[test]
fn enter_raises_to_ceiling_exit_restores() {
    let mut lock = CeilingLock::new(5);
    let mut prio: u8 = 1;
    lock.enter(0, &mut prio);
    assert_eq!(prio, 5);
    assert!(lock.is_held());
    lock.exit(0, &mut prio);
    assert_eq!(prio, 1);
    assert!(!lock.is_held());
}

#[test]
fn occupancy_never_exceeds_one() {
    // The instrumentation counter reads at most 1 inside the section.
    let mut lock = CeilingLock::new(4);
    let mut prio: u8 = 2;
    assert_eq!(lock.occupancy(), 0);
    lock.enter(7, &mut prio);
    assert_eq!(lock.occupancy(), 1);
    lock.exit(7, &mut prio);
    assert_eq!(lock.occupancy(), 0);
}

#[test]
fn tasks_alternate_exclusively() {
    let mut lock = CeilingLock::new(6);
    let mut prio_a: u8 = 1;
    let mut prio_b: u8 = 4;
    lock.enter(0, &mut prio_a);
    assert_eq!(lock.occupancy(), 1);
    lock.exit(0, &mut prio_a);
    lock.enter(1, &mut prio_b);
    assert_eq!((prio_a, prio_b), (1, 6));
    assert_eq!(lock.occupancy(), 1);
    lock.exit(1, &mut prio_b);
    assert_eq!(prio_b, 4);
    assert_eq!(lock.occupancy(), 0);
}

#[test]
fn entering_at_ceiling_priority() {
    let mut lock = CeilingLock::new(3);
    let mut prio: u8 = 3;
    lock.enter(2, &mut prio);
    assert_eq!(prio, 3);
    lock.exit(2, &mut prio);
    assert_eq!(prio, 3);
}
