//! The failure taxonomy shared by every action of the core.

use vstd::prelude::*;

verus! {

/// A typed failure of a core action. Every precondition violation is reported
/// through one of these variants before any state is mutated; `NotFound` and
/// `PersistenceError` are raised by the storage collaborator around the core.
#[derive(Clone, Copy, Debug, PartialEq, Eq, Structural)]
pub enum GameError {
    /// The planet or target does not exist.
    NotFound,
    /// A single-slot queue is occupied, or an expedition is still active.
    Conflict,
    /// A resource pool is below the cost of the requested action.
    InsufficientResources,
    /// Fewer ships are stationed than the action commits.
    InsufficientFleet,
    /// The action names an unknown building or unit kind.
    InvalidKind,
    /// The action targets the acting planet itself, or commits nothing.
    InvalidTarget,
    /// The storage round-trip failed after a successful computation.
    PersistenceError,
}

} // verus!
