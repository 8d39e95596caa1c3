//! The failures that a cache resolution can end in.
use vstd::prelude::*;

verus! {

/// Why a cache resolution produced no value.
#[derive(Debug, PartialEq, Eq)]
pub enum CacheResolverError {
    /// The resolver could not produce the value; `cause` is its own account of why.
    ResolverFailed { cause: String },
    /// The store behind a cache could not be reached.
    StoreUnavailable,
    /// A freshly resolved value could not be encoded for the store; `cause` is the
    /// encoder's account of why.
    EncodingFailed { cause: String },
}

/// A failure as the contracts see it.
pub enum Failure {
    /// The resolver could not produce the value.
    ResolverFailed { cause: Seq<char> },
    /// The store behind a cache could not be reached.
    StoreUnavailable,
    /// A freshly resolved value could not be encoded for the store.
    EncodingFailed { cause: Seq<char> },
}

impl View for CacheResolverError {
    type V = Failure;

    open spec fn view(&self) -> Failure {
        match *self {
            CacheResolverError::ResolverFailed { cause } => Failure::ResolverFailed {
                cause: cause@,
            },
            CacheResolverError::StoreUnavailable => Failure::StoreUnavailable,
            CacheResolverError::EncodingFailed { cause } => Failure::EncodingFailed {
                cause: cause@,
            },
        }
    }
}

/// The outcome of a resolution as the contracts see it: the value, or the
/// failure.
pub open spec fn outcome_view<V>(outcome: Result<V, CacheResolverError>) -> Result<V, Failure> {
    match outcome {
        Ok(value) => Ok(value),
        Err(error) => Err(error@),
    }
}

} // verus!
