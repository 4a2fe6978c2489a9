//! A specification-level model of one whole request: the sequence of things
//! the downstream chain does to its slot, and the pool operations that
//! sequence directs. The laws proved over this model quantify over every
//! possible request, whatever handler code does in between.

use vstd::prelude::*;

use crate::slot::action_ops;
use crate::slot::checkout_emits;
use crate::slot::finalize_action;
use crate::slot::finalize_next;
use crate::slot::DbOp;
use crate::slot::Outcome;
use crate::slot::SlotState;

verus! {

/// One thing the chain does to the request's slot. The suspension between a
/// first checkout and the pool's acquisition result is folded into the
/// checkout event itself: its payload tells whether the acquisition succeeds,
/// should this checkout direct one.
pub enum Event {
    Checkout(bool),
    /// The borrower hands the connection handle back.
    Release,
    /// The end-of-request decision, with the chain's outcome.
    Finalize(Outcome),
}

/// The slot state after one event. Events that the exec interface refuses or
/// forbids (a checkout on a terminal slot, a stray release) change nothing.
pub open spec fn step_state(s: SlotState, e: Event) -> SlotState {
    match e {
        Event::Checkout(acquired) => match s {
            SlotState::Unused => if acquired {
                SlotState::CheckedOut
            } else {
                SlotState::Errored
            },
            SlotState::Open => SlotState::CheckedOut,
            _ => s,
        },
        Event::Release => if s == SlotState::CheckedOut {
            SlotState::Open
        } else {
            s
        },
        Event::Finalize(outcome) => finalize_next(s, outcome),
    }
}

/// The pool operations one event directs.
pub open spec fn step_emits(s: SlotState, e: Event) -> Seq<DbOp> {
    match e {
        Event::Checkout(_) => checkout_emits(s),
        Event::Release => Seq::<DbOp>::empty(),
        Event::Finalize(outcome) => action_ops(finalize_action(s, outcome)),
    }
}

/// The slot state after a whole sequence of events.
pub open spec fn run_state(s: SlotState, events: Seq<Event>) -> SlotState
    decreases events.len(),
{
    if events.len() == 0 {
        s
    } else {
        run_state(step_state(s, events.first()), events.drop_first())
    }
}

/// Every pool operation a whole sequence of events directs, oldest first.
pub open spec fn run_emits(s: SlotState, events: Seq<Event>) -> Seq<DbOp>
    decreases events.len(),
{
    if events.len() == 0 {
        Seq::<DbOp>::empty()
    } else {
        step_emits(s, events.first()) + run_emits(step_state(s, events.first()), events.drop_first())
    }
}

} // verus!
