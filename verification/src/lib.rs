//! Request-scoped database transaction lifecycle.
//!
//! A pipeline layer creates one [`Slot`] per incoming request and publishes it
//! in request-scoped [`Storage`]; handler code reaches the transaction only
//! through [`extract`], which performs an exclusive checkout and opens the
//! transaction lazily on first use; when the handler chain finishes, [`finish`]
//! decides commit-versus-rollback exactly once from the chain's [`Outcome`].
//!
//! The database driver itself is not called here: the slot *directs* pool
//! operations (begin, commit, rollback) and the surrounding runtime performs
//! them, reporting acquisition results back. The ghost operation log on each
//! slot records exactly which operations have been directed, so the
//! at-most-one-open and at-most-one-finalize guarantees are stated and proved
//! over it.

use vstd::prelude::*;

pub mod extractor;
pub mod laws;
pub mod layer;
pub mod model;
pub mod slot;

pub use crate::extractor::extract;
pub use crate::layer::finish;
pub use crate::layer::Storage;
pub use crate::slot::Checkout;
pub use crate::slot::DbOp;
pub use crate::slot::FinalizeAction;
pub use crate::slot::Outcome;
pub use crate::slot::Slot;
pub use crate::slot::SlotState;

verus! {

/// A database-driver failure, reduced to what the lifecycle logic carries:
/// the driver's message. The runtime that talks to the pool converts its
/// driver errors into this form.
#[derive(Debug)]
pub struct DbError {
    pub message: String,
}

/// An error returned from an extractor or from finalization.
#[derive(Debug)]
pub enum Error {
    /// The accessor ran on a request that never passed through the layer:
    /// no slot was registered. A configuration error, not a runtime race.
    MissingExtension,
    /// A second checkout was attempted while the first handle was still held.
    OverlappingExtractors,
    /// The pool failed to begin, commit or roll back the transaction.
    Database(DbError),
}

} // verus!
