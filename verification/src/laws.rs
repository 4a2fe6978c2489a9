//! The lifecycle guarantees, proved once and for all: per operation over
//! every well-formed slot, and — through the request model — over every
//! possible sequence of events one request can put its slot through.

use vstd::prelude::*;

use crate::model::run_emits;
use crate::model::run_state;
use crate::model::step_emits;
use crate::model::step_state;
use crate::model::Event;
use crate::slot::action_ops;
use crate::slot::checkout_emits;
use crate::slot::checkout_next;
use crate::slot::checkout_reply;
use crate::slot::count_ops;
use crate::slot::finalize_action;
use crate::slot::finalize_next;
use crate::slot::ops_for;
use crate::slot::Checkout;
use crate::slot::DbOp;
use crate::slot::FinalizeAction;
use crate::slot::Outcome;
use crate::slot::Slot;
use crate::slot::SlotState;
use crate::Error;

verus! {

proof fn lemma_count_empty(target: DbOp)
    ensures
        count_ops(Seq::<DbOp>::empty(), target) == 0,
{
}

proof fn lemma_count_one(x: DbOp, target: DbOp)
    ensures
        count_ops(seq![x], target) == if x == target {
            1nat
        } else {
            0nat
        },
{
    assert(seq![x].drop_last() =~= Seq::<DbOp>::empty());
    lemma_count_empty(target);
}

proof fn lemma_count_two(x: DbOp, y: DbOp, target: DbOp)
    ensures
        count_ops(seq![x, y], target) == (if x == target {
            1nat
        } else {
            0nat
        }) + (if y == target {
            1nat
        } else {
            0nat
        }),
{
    assert(seq![x, y].drop_last() =~= seq![x]);
    lemma_count_one(x, target);
}

/// A request in which the accessor never ran leaves the slot `Unused`: no
/// begin was ever directed, and finalization, whatever the outcome, directs
/// nothing and opens nothing.
pub proof fn lemma_untouched_slot_finalizes_to_nothing(slot: Slot, outcome: Outcome)
    requires
        slot.wf(),
        slot.state() == SlotState::Unused,
    ensures
        slot.ops() == Seq::<DbOp>::empty(),
        count_ops(slot.ops(), DbOp::Begin) == 0,
        finalize_action(slot.state(), outcome) == FinalizeAction::Nothing,
        finalize_next(slot.state(), outcome) == SlotState::Unused,
        count_ops(slot.ops() + action_ops(FinalizeAction::Nothing), DbOp::Begin) == 0,
        count_ops(slot.ops() + action_ops(FinalizeAction::Nothing), DbOp::Commit) == 0,
        count_ops(slot.ops() + action_ops(FinalizeAction::Nothing), DbOp::Rollback) == 0,
{
    assert(slot.ops() + action_ops(FinalizeAction::Nothing) =~= Seq::<DbOp>::empty());
    lemma_count_empty(DbOp::Begin);
    lemma_count_empty(DbOp::Commit);
    lemma_count_empty(DbOp::Rollback);
}

/// A request whose transaction was opened (checked out at least once) and
/// whose handler chain succeeded commits exactly once and rolls back never:
/// after the one finalize, the log holds one begin, one commit, no rollback.
pub proof fn lemma_success_commits_exactly_once(slot: Slot)
    requires
        slot.wf(),
        slot.state() == SlotState::Open || slot.state() == SlotState::CheckedOut,
        !slot.acquire_pending(),
    ensures
        finalize_action(slot.state(), Outcome::Success) == FinalizeAction::Commit,
        finalize_next(slot.state(), Outcome::Success) == SlotState::Committed,
        count_ops(slot.ops() + action_ops(FinalizeAction::Commit), DbOp::Begin) == 1,
        count_ops(slot.ops() + action_ops(FinalizeAction::Commit), DbOp::Commit) == 1,
        count_ops(slot.ops() + action_ops(FinalizeAction::Commit), DbOp::Rollback) == 0,
{
    assert(slot.ops() + action_ops(FinalizeAction::Commit) =~= seq![DbOp::Begin, DbOp::Commit]);
    lemma_count_two(DbOp::Begin, DbOp::Commit, DbOp::Begin);
    lemma_count_two(DbOp::Begin, DbOp::Commit, DbOp::Commit);
    lemma_count_two(DbOp::Begin, DbOp::Commit, DbOp::Rollback);
}

/// A request whose transaction was opened and whose handler chain failed
/// (typed error or abrupt termination, both classified `Failure`; the handle
/// may even still be checked out) rolls back exactly once and commits never.
pub proof fn lemma_failure_rolls_back_exactly_once(slot: Slot)
    requires
        slot.wf(),
        slot.state() == SlotState::Open || slot.state() == SlotState::CheckedOut,
        !slot.acquire_pending(),
    ensures
        finalize_action(slot.state(), Outcome::Failure) == FinalizeAction::Rollback,
        finalize_next(slot.state(), Outcome::Failure) == SlotState::RolledBack,
        count_ops(slot.ops() + action_ops(FinalizeAction::Rollback), DbOp::Begin) == 1,
        count_ops(slot.ops() + action_ops(FinalizeAction::Rollback), DbOp::Rollback) == 1,
        count_ops(slot.ops() + action_ops(FinalizeAction::Rollback), DbOp::Commit) == 0,
{
    assert(slot.ops() + action_ops(FinalizeAction::Rollback) =~= seq![
        DbOp::Begin,
        DbOp::Rollback,
    ]);
    lemma_count_two(DbOp::Begin, DbOp::Rollback, DbOp::Begin);
    lemma_count_two(DbOp::Begin, DbOp::Rollback, DbOp::Rollback);
    lemma_count_two(DbOp::Begin, DbOp::Rollback, DbOp::Commit);
}

/// While a handle is held, a second checkout is refused outright with
/// `OverlappingExtractors`, changing nothing and directing nothing; once the
/// handle is released the slot stands `Open`, and a sequential re-checkout
/// succeeds with `Reuse` and directs no second begin — the borrower gets the
/// one transaction this slot ever opened.
pub proof fn lemma_overlap_refused_and_sequential_reuse(slot: Slot)
    requires
        slot.wf(),
        slot.state() == SlotState::CheckedOut,
    ensures
        checkout_reply(slot.state()) matches Err(e) && e is OverlappingExtractors,
        checkout_next(slot.state()) == slot.state(),
        checkout_emits(slot.state()) == Seq::<DbOp>::empty(),
        checkout_reply(SlotState::Open) == Ok::<Checkout, Error>(Checkout::Reuse),
        checkout_next(SlotState::Open) == SlotState::CheckedOut,
        checkout_emits(SlotState::Open) == Seq::<DbOp>::empty(),
        count_ops(slot.ops() + checkout_emits(SlotState::Open), DbOp::Begin) == 1,
{
    assert(slot.ops() + checkout_emits(SlotState::Open) =~= seq![DbOp::Begin]);
    lemma_count_one(DbOp::Begin, DbOp::Begin);
}

/// Finalization happens at most once per slot: whatever state a finalize
/// leaves behind, a second finalize — from a late cleanup path after abrupt
/// termination, say — directs no pool operation at all. No double commit,
/// no double rollback.
pub proof fn lemma_finalize_at_most_once(s: SlotState, first: Outcome, second: Outcome)
    ensures
        finalize_action(finalize_next(s, first), second) == FinalizeAction::Nothing,
        action_ops(finalize_action(finalize_next(s, first), second)) == Seq::<DbOp>::empty(),
{
}

/// The slot's resource invariants, read off any well-formed slot: the
/// underlying transaction is opened at most once and finalized at most once.
pub proof fn lemma_slot_ops_bounded(slot: Slot)
    requires
        slot.wf(),
    ensures
        count_ops(slot.ops(), DbOp::Begin) <= 1,
        count_ops(slot.ops(), DbOp::Commit) + count_ops(slot.ops(), DbOp::Rollback) <= 1,
{
    lemma_count_empty(DbOp::Begin);
    lemma_count_empty(DbOp::Commit);
    lemma_count_empty(DbOp::Rollback);
    lemma_count_one(DbOp::Begin, DbOp::Begin);
    lemma_count_one(DbOp::Begin, DbOp::Commit);
    lemma_count_one(DbOp::Begin, DbOp::Rollback);
    lemma_count_two(DbOp::Begin, DbOp::Commit, DbOp::Begin);
    lemma_count_two(DbOp::Begin, DbOp::Commit, DbOp::Commit);
    lemma_count_two(DbOp::Begin, DbOp::Commit, DbOp::Rollback);
    lemma_count_two(DbOp::Begin, DbOp::Rollback, DbOp::Begin);
    lemma_count_two(DbOp::Begin, DbOp::Rollback, DbOp::Commit);
    lemma_count_two(DbOp::Begin, DbOp::Rollback, DbOp::Rollback);
    assert(slot.ops() == ops_for(slot.state()));
}

proof fn lemma_step_accounts(s: SlotState, e: Event)
    ensures
        ops_for(s) + step_emits(s, e) == ops_for(step_state(s, e)),
{
    assert(ops_for(s) + step_emits(s, e) =~= ops_for(step_state(s, e)));
}

/// Over any whole request — any sequence of checkouts, releases and
/// finalizations whatsoever — the pool operations directed are exactly the
/// ones the final slot state accounts for.
pub proof fn lemma_run_accounts(s: SlotState, events: Seq<Event>)
    ensures
        ops_for(s) + run_emits(s, events) == ops_for(run_state(s, events)),
    decreases events.len(),
{
    if events.len() == 0 {
        assert(ops_for(s) + run_emits(s, events) =~= ops_for(s));
    } else {
        let e = events.first();
        let rest = events.drop_first();
        let mid = step_state(s, e);
        lemma_step_accounts(s, e);
        lemma_run_accounts(mid, rest);
        assert(ops_for(s) + run_emits(s, events) =~= (ops_for(s) + step_emits(s, e)) + run_emits(
            mid,
            rest,
        ));
    }
}

/// A request in which the accessor never runs never touches the pool: the
/// slot stays `Unused` and not a single operation — no begin, and so no
/// commit and no rollback — is directed, whatever else the chain does.
pub proof fn lemma_request_without_checkout_directs_nothing(events: Seq<Event>)
    requires
        forall|i: int| 0 <= i < events.len() ==> !(events[i] is Checkout),
    ensures
        run_state(SlotState::Unused, events) == SlotState::Unused,
        run_emits(SlotState::Unused, events) == Seq::<DbOp>::empty(),
    decreases events.len(),
{
    if events.len() == 0 {
        assert(run_emits(SlotState::Unused, events) =~= Seq::<DbOp>::empty());
    } else {
        let e = events.first();
        let rest = events.drop_first();
        assert(!(e is Checkout));
        assert(step_state(SlotState::Unused, e) == SlotState::Unused);
        assert(forall|i: int| 0 <= i < rest.len() ==> rest[i] == events[i + 1]);
        lemma_request_without_checkout_directs_nothing(rest);
        assert(run_emits(SlotState::Unused, events) =~= Seq::<DbOp>::empty());
    }
}

/// A request that ends committed directed, over its entire run, exactly one
/// begin and one commit and no rollback.
pub proof fn lemma_committed_request_ops(events: Seq<Event>)
    requires
        run_state(SlotState::Unused, events) == SlotState::Committed,
    ensures
        run_emits(SlotState::Unused, events) == seq![DbOp::Begin, DbOp::Commit],
        count_ops(run_emits(SlotState::Unused, events), DbOp::Begin) == 1,
        count_ops(run_emits(SlotState::Unused, events), DbOp::Commit) == 1,
        count_ops(run_emits(SlotState::Unused, events), DbOp::Rollback) == 0,
{
    lemma_run_accounts(SlotState::Unused, events);
    assert(run_emits(SlotState::Unused, events) =~= seq![DbOp::Begin, DbOp::Commit]);
    lemma_count_two(DbOp::Begin, DbOp::Commit, DbOp::Begin);
    lemma_count_two(DbOp::Begin, DbOp::Commit, DbOp::Commit);
    lemma_count_two(DbOp::Begin, DbOp::Commit, DbOp::Rollback);
}

/// A request that ends rolled back directed, over its entire run, exactly one
/// begin and one rollback and no commit.
pub proof fn lemma_rolled_back_request_ops(events: Seq<Event>)
    requires
        run_state(SlotState::Unused, events) == SlotState::RolledBack,
    ensures
        run_emits(SlotState::Unused, events) == seq![DbOp::Begin, DbOp::Rollback],
        count_ops(run_emits(SlotState::Unused, events), DbOp::Begin) == 1,
        count_ops(run_emits(SlotState::Unused, events), DbOp::Rollback) == 1,
        count_ops(run_emits(SlotState::Unused, events), DbOp::Commit) == 0,
{
    lemma_run_accounts(SlotState::Unused, events);
    assert(run_emits(SlotState::Unused, events) =~= seq![DbOp::Begin, DbOp::Rollback]);
    lemma_count_two(DbOp::Begin, DbOp::Rollback, DbOp::Begin);
    lemma_count_two(DbOp::Begin, DbOp::Rollback, DbOp::Rollback);
    lemma_count_two(DbOp::Begin, DbOp::Rollback, DbOp::Commit);
}

/// Whatever a request does, it opens the underlying transaction at most once
/// and finalizes it at most once.
pub proof fn lemma_request_ops_bounded(events: Seq<Event>)
    ensures
        count_ops(run_emits(SlotState::Unused, events), DbOp::Begin) <= 1,
        count_ops(run_emits(SlotState::Unused, events), DbOp::Commit) + count_ops(
            run_emits(SlotState::Unused, events),
            DbOp::Rollback,
        ) <= 1,
{
    lemma_run_accounts(SlotState::Unused, events);
    let emitted = run_emits(SlotState::Unused, events);
    assert(emitted =~= ops_for(run_state(SlotState::Unused, events)));
    lemma_count_empty(DbOp::Begin);
    lemma_count_empty(DbOp::Commit);
    lemma_count_empty(DbOp::Rollback);
    lemma_count_one(DbOp::Begin, DbOp::Begin);
    lemma_count_one(DbOp::Begin, DbOp::Commit);
    lemma_count_one(DbOp::Begin, DbOp::Rollback);
    lemma_count_two(DbOp::Begin, DbOp::Commit, DbOp::Begin);
    lemma_count_two(DbOp::Begin, DbOp::Commit, DbOp::Commit);
    lemma_count_two(DbOp::Begin, DbOp::Commit, DbOp::Rollback);
    lemma_count_two(DbOp::Begin, DbOp::Rollback, DbOp::Begin);
    lemma_count_two(DbOp::Begin, DbOp::Rollback, DbOp::Commit);
    lemma_count_two(DbOp::Begin, DbOp::Rollback, DbOp::Rollback);
}

} // verus!
