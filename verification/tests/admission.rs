use socks_relay::admission::ConnectionSlots;
use socks_relay::session::{Action, Phase};

#[test]
fn new_slots_are_empty() {
    let slots = ConnectionSlots::new(127);
    assert_eq!(slots.active(), 0);
    assert_eq!(slots.limit(), 127);
    assert!(!slots.is_full());
}

#[test]
fn slots_admit_up_to_the_limit() {
    let mut slots = ConnectionSlots::new(2);
    assert!(slots.try_acquire());
    assert_eq!(slots.active(), 1);
    assert!(slots.try_acquire());
    assert_eq!(slots.active(), 2);
    assert!(slots.is_full());
    assert!(!slots.try_acquire());
    assert_eq!(slots.active(), 2);
}

#[test]
fn release_frees_a_slot() {
    let mut slots = ConnectionSlots::new(1);
    assert!(slots.try_acquire());
    assert!(!slots.try_acquire());
    slots.release();
    assert_eq!(slots.active(), 0);
    assert!(slots.try_acquire());
}

#[test]
fn release_of_nothing_keeps_zero() {
    let mut slots = ConnectionSlots::new(3);
    slots.release();
    assert_eq!(slots.active(), 0);
}

#[test]
fn zero_or_negative_limit_admits_nothing() {
    let mut none = ConnectionSlots::new(0);
    assert!(none.is_full());
    assert!(!none.try_acquire());
    assert_eq!(none.active(), 0);
    let mut negative = ConnectionSlots::new(-5);
    assert!(!negative.try_acquire());
    assert_eq!(negative.active(), 0);
}

#[test]
fn accept_admits_while_a_slot_is_free() {
    let mut slots = ConnectionSlots::new(1);
    let (phase, action) = Phase::accept(&mut slots);
    assert!(matches!(phase, Phase::Greeting));
    assert!(matches!(action, Action::Read(2)));
    assert_eq!(slots.active(), 1);
}

#[test]
fn accept_at_the_limit_rejects_and_leaves_the_count() {
    let mut slots = ConnectionSlots::new(1);
    let _ = Phase::accept(&mut slots);
    let (phase, action) = Phase::accept(&mut slots);
    assert!(matches!(phase, Phase::Rejected));
    assert!(matches!(action, Action::Shutdown));
    assert!(phase.is_terminal());
    assert_eq!(slots.active(), 1);
    assert_eq!(slots.limit(), 1);
}
