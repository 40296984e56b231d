use vstd::prelude::*;

verus! {

/// Why an operation on a brokered resource did not succeed.
#[derive(Debug, Clone, PartialEq, Eq)]
pub enum ResourceError {
    /// The handle is stale, was already released, or was never valid.
    NotFound,
    /// A release was attempted through a handle that does not own its resource.
    OwnershipViolation,
    /// The similarity index of a store could not be built; the text is the
    /// cached failure, replayed on every later operation.
    ConstructionFailure(String),
    /// An add or a query failed on a healthy index.
    IndexFailure(String),
    /// The store was used before its index was built.
    NotConstructed,
    /// The index assigned an id that cannot address a document slot.
    IdOutOfRange(u64),
}

} // verus!
