//! End-to-end lifecycle tests: a small in-test runtime performs exactly the
//! pool operations the library directs, and the tests count them.

use request_tx::{extract, finish, Checkout, DbError, Error, FinalizeAction, Outcome, Storage};

/// What the fake runtime did on behalf of the slot.
#[derive(Default)]
struct PoolLog {
    begins: u32,
    commits: u32,
    rollbacks: u32,
    queries: Vec<String>,
}

/// Perform the directed finalize action, as the runtime around the layer would.
fn perform(action: FinalizeAction, log: &mut PoolLog) {
    match action {
        FinalizeAction::Nothing => {}
        FinalizeAction::Commit => log.commits += 1,
        FinalizeAction::Rollback => log.rollbacks += 1,
    }
}

/// Checkout through the accessor and perform a directed begin that succeeds.
fn checkout_with_begin(storage: &mut Storage, log: &mut PoolLog) -> Result<Checkout, Error> {
    let r = extract(storage);
    if let Ok(Checkout::AcquireNeeded) = r {
        log.begins += 1;
        storage.slot_mut().acquire_ok();
    }
    r
}

#[test]
fn untouched_slot_finalize_is_noop() {
    let mut log = PoolLog::default();
    let mut storage = Storage::with_slot();
    // The accessor never runs; the chain succeeds.
    let action = finish(&mut storage, Outcome::Success);
    assert!(matches!(action, FinalizeAction::Nothing));
    perform(action, &mut log);
    assert_eq!(log.begins, 0);
    assert_eq!(log.commits, 0);
    assert_eq!(log.rollbacks, 0);
}

#[test]
fn success_commits_exactly_once() {
    let mut log = PoolLog::default();
    let mut storage = Storage::with_slot();
    let r = checkout_with_begin(&mut storage, &mut log);
    assert!(matches!(r, Ok(Checkout::AcquireNeeded)));
    storage.slot_mut().release();
    perform(finish(&mut storage, Outcome::Success), &mut log);
    assert_eq!(log.begins, 1);
    assert_eq!(log.commits, 1);
    assert_eq!(log.rollbacks, 0);
}

#[test]
fn typed_error_rolls_back_exactly_once() {
    let mut log = PoolLog::default();
    let mut storage = Storage::with_slot();
    let r = checkout_with_begin(&mut storage, &mut log);
    assert!(matches!(r, Ok(Checkout::AcquireNeeded)));
    storage.slot_mut().release();
    // The handler returned a typed error: the chain failed.
    perform(finish(&mut storage, Outcome::Failure), &mut log);
    assert_eq!(log.begins, 1);
    assert_eq!(log.commits, 0);
    assert_eq!(log.rollbacks, 1);
}

#[test]
fn abrupt_termination_rolls_back_with_handle_still_held() {
    let mut log = PoolLog::default();
    let mut storage = Storage::with_slot();
    let r = checkout_with_begin(&mut storage, &mut log);
    assert!(matches!(r, Ok(Checkout::AcquireNeeded)));
    // The task is torn down while the handle is still checked out; the
    // cleanup path classifies that as a failure and still finalizes.
    perform(finish(&mut storage, Outcome::Failure), &mut log);
    assert_eq!(log.begins, 1);
    assert_eq!(log.commits, 0);
    assert_eq!(log.rollbacks, 1);
}

#[test]
fn overlapping_extractors_refused_then_sequential_reuse() {
    let mut log = PoolLog::default();
    let mut storage = Storage::with_slot();
    let first = checkout_with_begin(&mut storage, &mut log);
    assert!(matches!(first, Ok(Checkout::AcquireNeeded)));
    // Second checkout while the first handle is still held: refused.
    let overlapping = extract(&mut storage);
    assert!(matches!(overlapping, Err(Error::OverlappingExtractors)));
    // After release, a sequential checkout reuses the open transaction.
    storage.slot_mut().release();
    let reused = extract(&mut storage);
    assert!(matches!(reused, Ok(Checkout::Reuse)));
    // No second begin was directed: same underlying transaction.
    assert_eq!(log.begins, 1);
    storage.slot_mut().release();
    perform(finish(&mut storage, Outcome::Success), &mut log);
    assert_eq!(log.commits, 1);
    assert_eq!(log.rollbacks, 0);
}

#[test]
fn missing_layer_yields_missing_extension() {
    let mut log = PoolLog::default();
    let mut storage = Storage::empty();
    assert!(!storage.has_slot_now());
    let r = extract(&mut storage);
    assert!(matches!(r, Err(Error::MissingExtension)));
    // Zero interaction with the pool.
    assert_eq!(log.begins, 0);
    assert_eq!(log.commits, 0);
    assert_eq!(log.rollbacks, 0);
    perform(finish(&mut storage, Outcome::Failure), &mut log);
    assert_eq!(log.rollbacks, 0);
}

#[test]
fn finalize_twice_directs_nothing_the_second_time() {
    let mut log = PoolLog::default();
    let mut storage = Storage::with_slot();
    let r = checkout_with_begin(&mut storage, &mut log);
    assert!(matches!(r, Ok(Checkout::AcquireNeeded)));
    storage.slot_mut().release();
    perform(finish(&mut storage, Outcome::Success), &mut log);
    // A late cleanup path fires finalize again: the terminal-state guard
    // turns it into a no-op, whatever outcome it reports.
    let again = finish(&mut storage, Outcome::Failure);
    assert!(matches!(again, FinalizeAction::Nothing));
    perform(again, &mut log);
    let once_more = finish(&mut storage, Outcome::Success);
    assert!(matches!(once_more, FinalizeAction::Nothing));
    perform(once_more, &mut log);
    assert_eq!(log.begins, 1);
    assert_eq!(log.commits, 1);
    assert_eq!(log.rollbacks, 0);
}

#[test]
fn rolled_back_slot_is_not_finalized_again() {
    let mut log = PoolLog::default();
    let mut storage = Storage::with_slot();
    let r = checkout_with_begin(&mut storage, &mut log);
    assert!(matches!(r, Ok(Checkout::AcquireNeeded)));
    storage.slot_mut().release();
    perform(finish(&mut storage, Outcome::Failure), &mut log);
    let again = finish(&mut storage, Outcome::Success);
    assert!(matches!(again, FinalizeAction::Nothing));
    perform(again, &mut log);
    assert_eq!(log.begins, 1);
    assert_eq!(log.commits, 0);
    assert_eq!(log.rollbacks, 1);
}

#[test]
fn acquire_failure_surfaces_database_error_and_finalize_is_noop() {
    let mut log = PoolLog::default();
    let mut storage = Storage::with_slot();
    let r = extract(&mut storage);
    assert!(matches!(r, Ok(Checkout::AcquireNeeded)));
    // The pool refuses the begin; the runtime reports it and wraps the
    // driver failure for the error-response path.
    log.begins += 1;
    storage.slot_mut().acquire_failed();
    let err = Error::Database(DbError { message: String::from("pool exhausted") });
    assert!(matches!(err, Error::Database(ref db) if db.message == "pool exhausted"));
    // No transaction exists: finalization directs nothing either way.
    perform(finish(&mut storage, Outcome::Success), &mut log);
    assert_eq!(log.begins, 1);
    assert_eq!(log.commits, 0);
    assert_eq!(log.rollbacks, 0);
}

#[test]
fn scenario_query_then_success() {
    // Layer wraps a handler that runs one query and succeeds: one begin,
    // one query, one commit, zero rollbacks.
    let mut log = PoolLog::default();
    let mut storage = Storage::with_slot();
    let r = checkout_with_begin(&mut storage, &mut log);
    assert!(matches!(r, Ok(Checkout::AcquireNeeded)));
    log.queries.push(String::from("SELECT 1"));
    storage.slot_mut().release();
    perform(finish(&mut storage, Outcome::Success), &mut log);
    assert_eq!(log.begins, 1);
    assert_eq!(log.queries, vec![String::from("SELECT 1")]);
    assert_eq!(log.commits, 1);
    assert_eq!(log.rollbacks, 0);
}

#[test]
fn scenario_open_then_typed_error() {
    // Layer wraps a handler that opens the transaction and then returns a
    // typed error: one begin, zero commits, one rollback.
    let mut log = PoolLog::default();
    let mut storage = Storage::with_slot();
    let r = checkout_with_begin(&mut storage, &mut log);
    assert!(matches!(r, Ok(Checkout::AcquireNeeded)));
    storage.slot_mut().release();
    perform(finish(&mut storage, Outcome::Failure), &mut log);
    assert_eq!(log.begins, 1);
    assert_eq!(log.commits, 0);
    assert_eq!(log.rollbacks, 1);
}
