use vstd::prelude::*;

verus! {

/// The store's error taxonomy. Every operation reports its failure as one of
/// these; none is retried internally.
#[derive(Clone, Copy, Debug, PartialEq, Eq)]
pub enum StoreError {
    /// The backing file cannot be created or opened, or creating the schema
    /// failed for a reason other than "object already exists".
    InitError,
    /// A lookup by a required identity matched no row.
    NotFound,
    /// A uniqueness constraint was violated.
    ConstraintViolation,
    /// An operation that needs an established current user ran before one was set.
    PreconditionFailed,
    /// Any other failure surfaced by the underlying storage engine.
    BackendFailure,
}

impl StoreError {
    /// The description that `message` returns for each error kind.
    pub open spec fn spec_message(self) -> Seq<char> {
        match self {
            StoreError::InitError => "failed to initialize the store"@,
            StoreError::NotFound => "not found"@,
            StoreError::ConstraintViolation => "uniqueness constraint violated"@,
            StoreError::PreconditionFailed => "no current user has been established"@,
            StoreError::BackendFailure => "storage engine failure"@,
        }
    }

    /// A short description of the error, for callers that report failures as text.
    pub fn message(&self) -> (r: &'static str)
        ensures
            r@ == self.spec_message(),
    {
        match self {
            StoreError::InitError => "failed to initialize the store",
            StoreError::NotFound => "not found",
            StoreError::ConstraintViolation => "uniqueness constraint violated",
            StoreError::PreconditionFailed => "no current user has been established",
            StoreError::BackendFailure => "storage engine failure",
        }
    }
}

} // verus!
