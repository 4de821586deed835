use std::cell::Cell;

use tinymist_export::graph::{GraphError, Slot};

#[test]
fn compute_twice_runs_body_once() {
    let runs = Cell::new(0u32);
    let mut slot: Slot<u64> = Slot::new();
    let first = slot
        .compute(|| -> Result<u64, String> {
            runs.set(runs.get() + 1);
            Ok(42)
        })
        .map(|v| *v);
    let second = slot
        .compute(|| -> Result<u64, String> {
            runs.set(runs.get() + 1);
            Ok(7)
        })
        .map(|v| *v);
    assert_eq!(first, Ok(42));
    assert_eq!(second, Ok(42));
    assert_eq!(runs.get(), 1);
}

#[test]
fn failed_compute_is_retried() {
    let runs = Cell::new(0u32);
    let mut slot: Slot<u64> = Slot::new();
    let first = slot
        .compute(|| -> Result<u64, String> {
            runs.set(runs.get() + 1);
            Err("no".to_string())
        })
        .map(|v| *v);
    assert_eq!(first, Err("no".to_string()));
    assert!(!slot.is_set());
    let second = slot
        .compute(|| -> Result<u64, String> {
            runs.set(runs.get() + 1);
            Ok(3)
        })
        .map(|v| *v);
    assert_eq!(second, Ok(3));
    assert_eq!(runs.get(), 2);
}

#[test]
fn compute_after_provide_returns_provided() {
    let mut slot: Slot<u64> = Slot::new();
    assert!(slot.provide(9));
    let r = slot
        .compute(|| -> Result<u64, ()> { panic!("must not run") })
        .map(|v| *v);
    assert_eq!(r, Ok(9));
}

#[test]
fn first_provide_wins() {
    let mut slot: Slot<String> = Slot::new();
    assert!(slot.provide("v1".to_string()));
    assert!(!slot.provide("v2".to_string()));
    assert_eq!(slot.get(), Some(&"v1".to_string()));
}

#[test]
fn get_on_empty_slot_is_none() {
    let slot: Slot<u8> = Slot::new();
    assert_eq!(slot.get(), None);
    assert!(!slot.is_set());
}

#[test]
fn must_get_on_empty_slot_fails() {
    let mut slot: Slot<u8> = Slot::new();
    assert_eq!(slot.must_get(), Err(GraphError::NotProvided));
    slot.provide(1);
    assert_eq!(slot.must_get(), Ok(&1));
}
