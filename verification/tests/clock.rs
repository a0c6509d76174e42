use validator_client::clock::Clock;
use validator_client::slot::{Epoch, Slot};

const T0: u64 = 1_600_000_000_000;

#[test]
fn no_slot_one_second_before_genesis() {
    let clock = Clock::new(Some(T0), 6_000);
    assert_eq!(clock.now(T0 - 1_000), None);
}

#[test]
fn slot_one_shortly_after_six_seconds() {
    let clock = Clock::new(Some(T0), 6_000);
    assert_eq!(clock.now(T0 + 6_100), Some(Slot(1)));
}

#[test]
fn slot_zero_starts_at_genesis() {
    let clock = Clock::new(Some(T0), 6_000);
    assert_eq!(clock.now(T0), Some(Slot(0)));
    assert_eq!(clock.now(T0 + 5_999), Some(Slot(0)));
    assert_eq!(clock.now(T0 + 6_000), Some(Slot(1)));
    assert_eq!(clock.now(T0 + 12_000), Some(Slot(2)));
}

#[test]
fn no_slot_without_genesis() {
    let clock = Clock::new(None, 6_000);
    assert_eq!(clock.now(T0), None);
    assert_eq!(clock.now(0), None);
    assert_eq!(clock.genesis(), None);
}

#[test]
fn duration_to_next_slot_after_genesis() {
    let clock = Clock::new(Some(T0), 6_000);
    assert_eq!(clock.duration_to_next_slot(T0 + 6_100), Some(5_900));
    assert_eq!(clock.duration_to_next_slot(T0), Some(6_000));
    assert_eq!(clock.duration_to_next_slot(T0 + 5_999), Some(1));
}

#[test]
fn duration_to_next_slot_before_genesis_is_time_to_genesis() {
    let clock = Clock::new(Some(T0), 6_000);
    assert_eq!(clock.duration_to_next_slot(T0 - 1_000), Some(1_000));
    assert_eq!(clock.duration_to_next_slot(0), Some(T0));
}

#[test]
fn duration_to_next_slot_empty_only_without_genesis() {
    let clock = Clock::new(None, 6_000);
    assert_eq!(clock.duration_to_next_slot(T0), None);
    let clock = Clock::new(Some(0), 1);
    assert_eq!(clock.duration_to_next_slot(u64::MAX), Some(1));
}

#[test]
fn next_slot_starts_when_the_duration_has_passed() {
    let clock = Clock::new(Some(T0), 6_000);
    let mut time = T0 + 123;
    for expected in 1..20u64 {
        time += clock.duration_to_next_slot(time).unwrap();
        assert_eq!(clock.now(time), Some(Slot(expected)));
        assert_eq!(clock.now(time - 1), Some(Slot(expected - 1)));
    }
}

#[test]
fn slots_follow_time() {
    let clock = Clock::new(Some(T0), 6_000);
    let mut last = 0;
    for step in 0..200u64 {
        let slot = clock.now(T0 + step * 777).unwrap().as_u64();
        assert!(last <= slot);
        last = slot;
    }
}

#[test]
fn clock_at_the_end_of_time() {
    let clock = Clock::new(Some(0), 6_000);
    assert_eq!(clock.now(u64::MAX), Some(Slot(u64::MAX / 6_000)));
    assert_eq!(clock.slot_duration(), 6_000);
}

#[test]
fn epoch_of_slot() {
    assert_eq!(Slot::new(0).epoch(32), Epoch::new(0));
    assert_eq!(Slot::new(31).epoch(32), Epoch::new(0));
    assert_eq!(Slot::new(63).epoch(32), Epoch::new(1));
    assert_eq!(Slot::new(64).epoch(32), Epoch::new(2));
    assert_eq!(Slot::new(u64::MAX).epoch(1), Epoch::new(u64::MAX));
    assert_eq!(Epoch::new(7).as_u64(), 7);
}
