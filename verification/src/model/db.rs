//! How an operation on the user store can fail.

use vstd::prelude::*;

verus! {

/// Why the store did not deliver.
#[derive(Debug, Clone, Copy, PartialEq, Eq, Structural)]
pub enum StoreError {
    /// The store holds no such record.
    NotFound,
    /// The store could not be reached, or refused the operation.
    Failure,
}

impl View for StoreError {
    type V = StoreError;

    open spec fn view(&self) -> StoreError {
        *self
    }
}

} // verus!
