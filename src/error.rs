//! The closed classification of poll-cycle failures.
use vstd::prelude::*;

verus! {

/// A failure that is neither an upstream source error nor a timeout.
#[derive(Debug, Clone, Copy, PartialEq, Eq, Structural)]
pub enum Failure {
    /// The source answered without any table values.
    MissingValues,
    /// A changed row has no first cell, or its first cell is not a string.
    MalformedRow,
    /// The notifier could not deliver a message.
    NotifyFailure,
}

/// How a poll cycle failed.
#[derive(Debug, Clone, Copy, PartialEq, Eq, Structural)]
pub enum CycleError {
    /// The row source reported a protocol, authentication or quota failure.
    Source,
    /// The fetch did not complete within the bounded wait.
    Timeout,
    /// Any other failure.
    Other(Failure),
}

} // verus!
