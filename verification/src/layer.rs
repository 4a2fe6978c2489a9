//! The pipeline layer's half of the lifecycle: the request-scoped storage
//! entry it publishes the slot in, and the end-of-request finalization step.

use vstd::prelude::*;

use crate::slot::action_ops;
use crate::slot::finalize_action;
use crate::slot::DbOp;
use crate::slot::finalize_next;
use crate::slot::FinalizeAction;
use crate::slot::Outcome;
use crate::slot::Slot;
use crate::slot::SlotState;
use vstd::pervasive::unreached;

verus! {

/// The request-scoped storage entry that carries the slot from the layer to
/// the accessor: one typed mapping, written once per request by the layer,
/// read during handler execution, never reused across requests.
pub struct Storage {
    entry: Option<Slot>,
}

impl Storage {
    /// The stored slot, if the layer registered one.
    pub closed spec fn slot_entry(self) -> Option<Slot> {
        self.entry
    }

    pub open spec fn has_slot(self) -> bool {
        self.slot_entry() is Some
    }

    pub open spec fn slot(self) -> Slot
        recommends
            self.has_slot(),
    {
        self.slot_entry()->0
    }

    pub open spec fn wf(self) -> bool {
        self.has_slot() ==> self.slot().wf()
    }

    /// Storage of a request that never passed through the layer: no slot.
    pub fn empty() -> (storage: Storage)
        ensures
            storage.wf(),
            !storage.has_slot(),
    {
        Storage { entry: None }
    }

    /// What the layer does on each incoming request: publish a fresh slot
    /// before the downstream chain runs.
    pub fn with_slot() -> (storage: Storage)
        ensures
            storage.wf(),
            storage.has_slot(),
            storage.slot().state() == SlotState::Unused,
            storage.slot().ops() == Seq::<DbOp>::empty(),
            !storage.slot().acquire_pending(),
    {
        Storage { entry: Some(Slot::new()) }
    }

    /// Runtime test for whether the layer registered a slot.
    pub fn has_slot_now(&self) -> (b: bool)
        ensures
            b == self.has_slot(),
    {
        match &self.entry {
            Some(_) => true,
            None => false,
        }
    }

    /// Mutable access to the registered slot, for the runtime steps that act
    /// on it after a checkout (acquisition results, release).
    pub fn slot_mut(&mut self) -> (slot: &mut Slot)
        requires
            old(self).has_slot(),
        ensures
            *slot == old(self).slot(),
            final(self).has_slot(),
            final(self).slot() == *final(slot),
    {
        match &mut self.entry {
            Some(slot) => slot,
            None => unreached(),
        }
    }
}

/// The layer's end-of-request step, run on every exit path (normal completion
/// and abrupt termination alike, the latter classified as `Failure`): finalize
/// the slot by the chain's outcome. On storage that holds no slot it directs
/// nothing.
pub fn finish(storage: &mut Storage, outcome: Outcome) -> (action: FinalizeAction)
    requires
        old(storage).wf(),
        old(storage).has_slot() ==> !old(storage).slot().acquire_pending(),
    ensures
        final(storage).wf(),
        final(storage).has_slot() == old(storage).has_slot(),
        !old(storage).has_slot() ==> action == FinalizeAction::Nothing && *final(storage) == *old(
            storage,
        ),
        old(storage).has_slot() ==> {
            &&& action == finalize_action(old(storage).slot().state(), outcome)
            &&& final(storage).slot().state() == finalize_next(old(storage).slot().state(), outcome)
            &&& final(storage).slot().ops() == old(storage).slot().ops() + action_ops(action)
            &&& !final(storage).slot().acquire_pending()
        },
{
    match &mut storage.entry {
        Some(slot) => slot.finalize(outcome),
        None => FinalizeAction::Nothing,
    }
}

} // verus!
