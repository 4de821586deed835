use tinymist_export::claim::{ClaimOutcome, ClaimSlot};

#[test]
fn first_claim_computes_others_wait_then_read() {
    let mut slot: ClaimSlot<u32> = ClaimSlot::new();
    assert_eq!(slot.claim(1), ClaimOutcome::Compute);
    assert_eq!(slot.claim(2), ClaimOutcome::Wait);
    assert_eq!(slot.claim(3), ClaimOutcome::Wait);
    assert_eq!(slot.get(), None);
    assert!(!slot.complete(2, Some(99)));
    assert!(slot.complete(1, Some(7)));
    assert_eq!(slot.claim(2), ClaimOutcome::Ready);
    assert_eq!(slot.claim(3), ClaimOutcome::Ready);
    assert_eq!(slot.get(), Some(&7));
}

#[test]
fn failed_computation_lets_another_claim() {
    let mut slot: ClaimSlot<u32> = ClaimSlot::new();
    assert_eq!(slot.claim(1), ClaimOutcome::Compute);
    assert_eq!(slot.claim(2), ClaimOutcome::Wait);
    assert!(slot.complete(1, None));
    assert_eq!(slot.claim(2), ClaimOutcome::Compute);
    assert!(slot.complete(2, Some(5)));
    assert_eq!(slot.get(), Some(&5));
}
