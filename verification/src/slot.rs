//! The resource slot: the per-request owner of the deferred transaction and
//! of its checkout/finalize state machine.

use vstd::prelude::*;

use crate::Error;

verus! {

/// Which point of its lifecycle a slot has reached.
#[derive(Debug, Clone, Copy, PartialEq, Eq, Structural)]
pub enum SlotState {
    /// No checkout has happened; no transaction was opened.
    Unused,
    /// A transaction is open and nobody holds the handle right now.
    Open,
    /// A transaction is open (or being acquired) and the handle is held.
    CheckedOut,
    /// Terminal: a commit was directed.
    Committed,
    /// Terminal: a rollback was directed.
    RolledBack,
    /// Terminal: acquiring the transaction from the pool failed.
    Errored,
}

/// One operation the slot directs the connection pool to perform.
#[derive(Debug, Clone, Copy, PartialEq, Eq, Structural)]
pub enum DbOp {
    Begin,
    Commit,
    Rollback,
}

/// What a successful checkout hands back.
#[derive(Debug, Clone, Copy, PartialEq, Eq, Structural)]
pub enum Checkout {
    /// First use: the runtime must acquire a transaction from the pool and
    /// report the result through `acquire_ok` or `acquire_failed`.
    AcquireNeeded,
    /// The transaction opened earlier in this request is handed out again.
    Reuse,
}

/// How the downstream handler chain ended.
#[derive(Debug, Clone, Copy, PartialEq, Eq, Structural)]
pub enum Outcome {
    Success,
    /// A typed error or an abrupt termination (panic, cancellation).
    Failure,
}

/// What finalization directs the runtime to do with the open transaction.
#[derive(Debug, Clone, Copy, PartialEq, Eq, Structural)]
pub enum FinalizeAction {
    /// No transaction was opened, or the slot is already terminal.
    Nothing,
    Commit,
    Rollback,
}

/// True of the states no operation may leave.
pub open spec fn is_terminal_state(s: SlotState) -> bool {
    match s {
        SlotState::Committed | SlotState::RolledBack | SlotState::Errored => true,
        _ => false,
    }
}

/// The exact pool operations a well-formed slot in state `s` has directed.
pub open spec fn ops_for(s: SlotState) -> Seq<DbOp> {
    match s {
        SlotState::Unused => Seq::<DbOp>::empty(),
        SlotState::Open | SlotState::CheckedOut | SlotState::Errored => seq![DbOp::Begin],
        SlotState::Committed => seq![DbOp::Begin, DbOp::Commit],
        SlotState::RolledBack => seq![DbOp::Begin, DbOp::Rollback],
    }
}

/// The state a checkout leaves the slot in.
pub open spec fn checkout_next(s: SlotState) -> SlotState {
    match s {
        SlotState::Unused | SlotState::Open => SlotState::CheckedOut,
        _ => s,
    }
}

/// What a checkout returns to the accessor.
pub open spec fn checkout_reply(s: SlotState) -> Result<Checkout, Error> {
    match s {
        SlotState::Unused => Ok(Checkout::AcquireNeeded),
        SlotState::Open => Ok(Checkout::Reuse),
        _ => Err(Error::OverlappingExtractors),
    }
}

/// The pool operations a checkout directs: a begin on first use, nothing else.
pub open spec fn checkout_emits(s: SlotState) -> Seq<DbOp> {
    if s == SlotState::Unused {
        seq![DbOp::Begin]
    } else {
        Seq::<DbOp>::empty()
    }
}

/// The state finalization leaves the slot in: terminal once a transaction was
/// open, untouched when nothing was ever opened or the slot is terminal already.
pub open spec fn finalize_next(s: SlotState, outcome: Outcome) -> SlotState {
    match s {
        SlotState::Open | SlotState::CheckedOut => if outcome == Outcome::Success {
            SlotState::Committed
        } else {
            SlotState::RolledBack
        },
        _ => s,
    }
}

/// What finalization directs the runtime to do.
pub open spec fn finalize_action(s: SlotState, outcome: Outcome) -> FinalizeAction {
    match s {
        SlotState::Open | SlotState::CheckedOut => if outcome == Outcome::Success {
            FinalizeAction::Commit
        } else {
            FinalizeAction::Rollback
        },
        _ => FinalizeAction::Nothing,
    }
}

/// The pool operation a finalize action amounts to.
pub open spec fn action_ops(a: FinalizeAction) -> Seq<DbOp> {
    match a {
        FinalizeAction::Nothing => Seq::<DbOp>::empty(),
        FinalizeAction::Commit => seq![DbOp::Commit],
        FinalizeAction::Rollback => seq![DbOp::Rollback],
    }
}

/// How many times `target` occurs in a directed-operation log.
pub open spec fn count_ops(ops: Seq<DbOp>, target: DbOp) -> nat
    decreases ops.len(),
{
    if ops.len() == 0 {
        0
    } else {
        count_ops(ops.drop_last(), target) + (if ops.last() == target {
            1nat
        } else {
            0nat
        })
    }
}

/// The per-request owner of the deferred transaction. Created once per
/// request, it opens the underlying transaction at most once (on first
/// checkout), hands the connection to at most one borrower at a time, and is
/// finalized at most once.
pub struct Slot {
    state: SlotState,
    /// The pool operations directed so far, oldest first.
    ops: Ghost<Seq<DbOp>>,
    /// True between a first checkout and the pool's acquisition result.
    pending: Ghost<bool>,
}

impl Slot {
    /// Which point of the checkout/finalize state machine the slot is at.
    pub closed spec fn state(self) -> SlotState {
        self.state
    }

    /// The pool operations this slot has directed so far, oldest first.
    pub closed spec fn ops(self) -> Seq<DbOp> {
        self.ops@
    }

    /// Whether the first checkout still waits for the pool's acquire result.
    pub closed spec fn acquire_pending(self) -> bool {
        self.pending@
    }

    pub open spec fn is_terminal(self) -> bool {
        is_terminal_state(self.state())
    }

    /// Well-formedness: the directed operations are exactly those the state
    /// accounts for, and an acquisition can only be pending while checked out.
    pub open spec fn wf(self) -> bool {
        &&& self.ops() == ops_for(self.state())
        &&& self.acquire_pending() ==> self.state() == SlotState::CheckedOut
    }

    /// A fresh slot for one incoming request: nothing opened, nothing directed.
    pub fn new() -> (slot: Slot)
        ensures
            slot.wf(),
            slot.state() == SlotState::Unused,
            slot.ops() == Seq::<DbOp>::empty(),
            !slot.acquire_pending(),
    {
        Slot { state: SlotState::Unused, ops: Ghost(Seq::empty()), pending: Ghost(false) }
    }

    /// Exclusive checkout of the transaction. On first use it directs a begin
    /// and awaits the acquisition result; while the handle is held, a second
    /// checkout fails immediately with `OverlappingExtractors` instead of
    /// blocking or opening a second transaction.
    pub fn checkout(&mut self) -> (r: Result<Checkout, Error>)
        requires
            old(self).wf(),
            !old(self).is_terminal(),
        ensures
            final(self).wf(),
            final(self).state() == checkout_next(old(self).state()),
            r == checkout_reply(old(self).state()),
            final(self).ops() == old(self).ops() + checkout_emits(old(self).state()),
            final(self).acquire_pending() == (old(self).state() == SlotState::Unused
                || old(self).acquire_pending()),
    {
        match self.state {
            SlotState::Unused => {
                self.state = SlotState::CheckedOut;
                self.ops = Ghost(self.ops@.push(DbOp::Begin));
                self.pending = Ghost(true);
                proof {
                    assert(self.ops@ =~= ops_for(SlotState::CheckedOut));
                    assert(self.ops@ =~= old(self).ops() + checkout_emits(SlotState::Unused));
                }
                Ok(Checkout::AcquireNeeded)
            },
            SlotState::Open => {
                self.state = SlotState::CheckedOut;
                proof {
                    assert(self.ops@ =~= old(self).ops() + checkout_emits(SlotState::Open));
                }
                Ok(Checkout::Reuse)
            },
            _ => {
                proof {
                    assert(self.ops@ =~= old(self).ops() + checkout_emits(old(self).state()));
                }
                Err(Error::OverlappingExtractors)
            },
        }
    }

    /// The pool's acquisition succeeded: the deferred transaction is now open
    /// and remains checked out by the caller that triggered it.
    pub fn acquire_ok(&mut self)
        requires
            old(self).wf(),
            old(self).acquire_pending(),
        ensures
            final(self).wf(),
            final(self).state() == SlotState::CheckedOut,
            final(self).ops() == old(self).ops(),
            !final(self).acquire_pending(),
    {
        self.pending = Ghost(false);
    }

    /// The pool's acquisition failed: no transaction exists and the slot is
    /// terminal, so finalization will direct nothing. The runtime surfaces
    /// the driver failure as `Error::Database`.
    pub fn acquire_failed(&mut self)
        requires
            old(self).wf(),
            old(self).acquire_pending(),
        ensures
            final(self).wf(),
            final(self).state() == SlotState::Errored,
            final(self).ops() == old(self).ops(),
            !final(self).acquire_pending(),
    {
        self.state = SlotState::Errored;
        self.pending = Ghost(false);
    }

    /// The borrower hands the connection back: a later sequential checkout in
    /// the same request may reuse the open transaction.
    pub fn release(&mut self)
        requires
            old(self).wf(),
            old(self).state() == SlotState::CheckedOut,
            !old(self).acquire_pending(),
        ensures
            final(self).wf(),
            final(self).state() == SlotState::Open,
            final(self).ops() == old(self).ops(),
            !final(self).acquire_pending(),
    {
        self.state = SlotState::Open;
    }

    /// The terminal commit-or-rollback decision, made once per request: commit
    /// an open transaction on success, roll it back on failure, direct nothing
    /// when no transaction was ever opened, and direct nothing again on a slot
    /// that is already terminal (the guard against double finalization).
    pub fn finalize(&mut self, outcome: Outcome) -> (action: FinalizeAction)
        requires
            old(self).wf(),
            !old(self).acquire_pending(),
        ensures
            final(self).wf(),
            final(self).state() == finalize_next(old(self).state(), outcome),
            action == finalize_action(old(self).state(), outcome),
            final(self).ops() == old(self).ops() + action_ops(action),
            !final(self).acquire_pending(),
    {
        match self.state {
            SlotState::Open | SlotState::CheckedOut => match outcome {
                Outcome::Success => {
                    self.state = SlotState::Committed;
                    self.ops = Ghost(self.ops@.push(DbOp::Commit));
                    proof {
                        assert(self.ops@ =~= ops_for(SlotState::Committed));
                        assert(self.ops@ =~= old(self).ops() + action_ops(
                            FinalizeAction::Commit,
                        ));
                    }
                    FinalizeAction::Commit
                },
                Outcome::Failure => {
                    self.state = SlotState::RolledBack;
                    self.ops = Ghost(self.ops@.push(DbOp::Rollback));
                    proof {
                        assert(self.ops@ =~= ops_for(SlotState::RolledBack));
                        assert(self.ops@ =~= old(self).ops() + action_ops(
                            FinalizeAction::Rollback,
                        ));
                    }
                    FinalizeAction::Rollback
                },
            },
            _ => {
                proof {
                    assert(self.ops@ =~= old(self).ops() + action_ops(FinalizeAction::Nothing));
                }
                FinalizeAction::Nothing
            },
        }
    }
}

} // verus!
