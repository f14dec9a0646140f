//! The two ways in which taking in an order can fail.

use vstd::prelude::*;

verus! {

/// A request body that does not have the shape of an order: a field is
/// missing, a value has the wrong type, or the nesting is malformed. The
/// transport produces it when decoding fails; `message` says what was wrong.
#[derive(Debug, PartialEq, Eq)]
pub struct DeserializationError {
    pub message: String,
}

/// The store's lock could not be taken because a caller panicked while holding
/// it. What the store holds can no longer be trusted, so the failure is handed
/// to the caller and nothing is read or written.
#[derive(Debug, Clone, Copy, PartialEq, Eq)]
pub struct LockAcquisitionFailure;

} // verus!
