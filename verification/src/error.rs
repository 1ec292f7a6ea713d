//! The ways an operation of the service can fail.

use vstd::prelude::*;

verus! {

/// A failure that a caller can tell from success and from every other
/// failure.
#[derive(Clone, Copy, Debug, PartialEq, Eq, Structural)]
pub enum ServiceError {
    /// A hash was asked for before any dataset was published. Asking again
    /// after an initialization succeeds.
    NotReady,
    /// The request itself is unusable: a batch without preimages.
    InvalidInput,
    /// The dataset could not be constructed. What was published before stays
    /// published.
    ConstructionFailure,
}

/// The text that goes with each failure.
pub open spec fn error_text(error: ServiceError) -> Seq<char> {
    match error {
        ServiceError::NotReady => "ROM not initialized. Call /init first."@,
        ServiceError::InvalidInput => "preimages array is required"@,
        ServiceError::ConstructionFailure => "ROM construction failed"@,
    }
}

impl ServiceError {
    /// The text to show a caller for this failure.
    pub fn message(&self) -> (text: &'static str)
        ensures
            text@ == error_text(*self),
    {
        match self {
            ServiceError::NotReady => "ROM not initialized. Call /init first.",
            ServiceError::InvalidInput => "preimages array is required",
            ServiceError::ConstructionFailure => "ROM construction failed",
        }
    }
}

} // verus!
