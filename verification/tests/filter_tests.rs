use can_gateway::errors::ConfigError;
use can_gateway::filter::split_ranges;
use can_gateway::filter::FilterBank;

#[test]
fn split_half() {
    let (a, b) = split_ranges(28, 14).unwrap();
    assert_eq!((a.start, a.end), (0, 14));
    assert_eq!((b.start, b.end), (14, 28));
    // The halves are disjoint and exhaustive around the split point.
    assert!(a.contains(0) && a.contains(13) && !a.contains(14));
    assert!(!b.contains(13) && b.contains(14) && b.contains(27) && !b.contains(28));
}

#[test]
fn split_partition_every_slot_once() {
    for total in 0..=28u8 {
        for split in 0..=total {
            let (a, b) = split_ranges(total, split).unwrap();
            for slot in 0..total {
                let in_a = a.contains(slot);
                let in_b = b.contains(slot);
                assert!(in_a != in_b, "slot owned by both halves or neither");
            }
        }
    }
}

#[test]
fn split_at_zero_and_at_end() {
    let (a, b) = split_ranges(28, 0).unwrap();
    assert!(a.is_empty());
    assert_eq!((b.start, b.end), (0, 28));
    let (a, b) = split_ranges(28, 28).unwrap();
    assert_eq!((a.start, a.end), (0, 28));
    assert!(b.is_empty());
}

#[test]
fn split_beyond_bank_fails() {
    assert_eq!(split_ranges(28, 29).unwrap_err(), ConfigError::InvalidSplit);
    assert_eq!(split_ranges(0, 1).unwrap_err(), ConfigError::InvalidSplit);
}

#[test]
fn bank_lifecycle() {
    let mut bank = FilterBank::new(28);
    let (a, b) = bank.set_split(14).unwrap();
    assert_eq!((a.start, a.end), (0, 14));
    assert_eq!((b.start, b.end), (14, 28));
    bank.commit();
}

#[test]
fn bank_invalid_split_commits_nothing() {
    let mut bank = FilterBank::new(28);
    assert_eq!(bank.set_split(29).unwrap_err(), ConfigError::InvalidSplit);
    // The bank is untouched: a valid split can still be chosen.
    let (a, b) = bank.set_split(10).unwrap();
    assert_eq!((a.start, a.end), (0, 10));
    assert_eq!((b.start, b.end), (10, 28));
    bank.commit();
}
