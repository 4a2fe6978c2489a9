//! The handler accessor: the only sanctioned way handler code obtains the
//! request's transaction.

use vstd::prelude::*;

use crate::layer::Storage;
use crate::slot::checkout_emits;
use crate::slot::checkout_next;
use crate::slot::checkout_reply;
use crate::slot::Checkout;
use crate::slot::SlotState;
use crate::Error;

verus! {

/// Look the slot up in request-scoped storage and perform the exclusive
/// checkout. On a request that never passed through the layer there is no
/// slot: the accessor fails with `MissingExtension` and touches nothing, so
/// no pool interaction of any kind takes place. Otherwise the reply and the
/// directed operations are exactly those of the slot's checkout.
pub fn extract(storage: &mut Storage) -> (r: Result<Checkout, Error>)
    requires
        old(storage).wf(),
        old(storage).has_slot() ==> !old(storage).slot().is_terminal(),
    ensures
        final(storage).wf(),
        final(storage).has_slot() == old(storage).has_slot(),
        !old(storage).has_slot() ==> r == Err::<Checkout, Error>(Error::MissingExtension)
            && *final(storage) == *old(storage),
        old(storage).has_slot() ==> {
            &&& r == checkout_reply(old(storage).slot().state())
            &&& final(storage).slot().state() == checkout_next(old(storage).slot().state())
            &&& final(storage).slot().ops() == old(storage).slot().ops() + checkout_emits(
                old(storage).slot().state(),
            )
            &&& final(storage).slot().acquire_pending() == (old(storage).slot().state()
                == SlotState::Unused || old(storage).slot().acquire_pending())
        },
{
    if storage.has_slot_now() {
        storage.slot_mut().checkout()
    } else {
        Err(Error::MissingExtension)
    }
}

} // verus!
