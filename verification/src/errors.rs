//! The error taxonomy of the simulation core.

use vstd::prelude::*;

verus! {

/// An error surfaced by the simulation core.
///
/// `InvalidParameter` reports an argument outside its documented range
/// (a probability above one whole, or a malformed `min > max` range).
/// `InvariantViolation` reports a broken cross-entity invariant, carrying
/// the id of the study involved so the caller can diagnose it.
#[derive(Clone, Copy, Debug, PartialEq, Eq, Structural)]
pub enum SimError {
    InvalidParameter,
    InvariantViolation { study_id: u32 },
}

} // verus!
