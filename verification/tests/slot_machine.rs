//! Tests that drive the slot's state machine directly, without the storage
//! and accessor around it.

use request_tx::{Checkout, Error, FinalizeAction, Outcome, Slot};

#[test]
fn slot_lazy_open_commit_cycle() {
    let mut slot = Slot::new();
    let first = slot.checkout();
    assert!(matches!(first, Ok(Checkout::AcquireNeeded)));
    slot.acquire_ok();
    slot.release();
    let second = slot.checkout();
    assert!(matches!(second, Ok(Checkout::Reuse)));
    slot.release();
    let action = slot.finalize(Outcome::Success);
    assert!(matches!(action, FinalizeAction::Commit));
    let again = slot.finalize(Outcome::Failure);
    assert!(matches!(again, FinalizeAction::Nothing));
}

#[test]
fn slot_overlap_fails_without_blocking() {
    let mut slot = Slot::new();
    let first = slot.checkout();
    assert!(matches!(first, Ok(Checkout::AcquireNeeded)));
    slot.acquire_ok();
    let overlapping = slot.checkout();
    assert!(matches!(overlapping, Err(Error::OverlappingExtractors)));
    // The refused checkout changed nothing: the holder can still release
    // and the slot still rolls back on failure.
    slot.release();
    let action = slot.finalize(Outcome::Failure);
    assert!(matches!(action, FinalizeAction::Rollback));
}

#[test]
fn slot_acquire_failure_is_terminal() {
    let mut slot = Slot::new();
    let first = slot.checkout();
    assert!(matches!(first, Ok(Checkout::AcquireNeeded)));
    slot.acquire_failed();
    let action = slot.finalize(Outcome::Failure);
    assert!(matches!(action, FinalizeAction::Nothing));
}

#[test]
fn slot_never_checked_out_finalizes_to_nothing() {
    let mut slot = Slot::new();
    let success_action = slot.finalize(Outcome::Success);
    assert!(matches!(success_action, FinalizeAction::Nothing));
    let failure_action = slot.finalize(Outcome::Failure);
    assert!(matches!(failure_action, FinalizeAction::Nothing));
}
