//! Error categories shared by every contract, with their stable numeric
//! codes.
use vstd::prelude::*;

verus! {

/// Common error codes shared across the contracts; `code` gives the
/// stable number used by off-chain tooling.
#[derive(Clone, Copy, Debug, PartialEq, Eq, Structural)]
pub enum SharedError {
    /// `initialize` was called more than once.
    AlreadyInitialized,
    /// A function requiring initialization was called before `initialize`.
    NotInitialized,
    /// The caller lacks the required role.
    Unauthorized,
    /// The requested record does not exist.
    NotFound,
    /// The supplied amount is zero, negative, or out of range.
    InvalidAmount,
    /// The operation is not valid in the entity's current state.
    InvalidState,
    /// The record to insert already exists.
    DuplicateEntry,
    /// The operation is not supported in the current configuration.
    UnsupportedOperation,
    /// An arithmetic operation would overflow.
    Overflow,
    /// An arithmetic operation would underflow below zero.
    Underflow,
    /// Input validation failed.
    ValidationError,
    /// A cross-contract caller failed interface-registry verification.
    UnauthorizedContract,
}

/// The stable numeric code of each error category (1 to 12, in order).
pub open spec fn error_code(e: SharedError) -> u32 {
    match e {
        SharedError::AlreadyInitialized => 1,
        SharedError::NotInitialized => 2,
        SharedError::Unauthorized => 3,
        SharedError::NotFound => 4,
        SharedError::InvalidAmount => 5,
        SharedError::InvalidState => 6,
        SharedError::DuplicateEntry => 7,
        SharedError::UnsupportedOperation => 8,
        SharedError::Overflow => 9,
        SharedError::Underflow => 10,
        SharedError::ValidationError => 11,
        SharedError::UnauthorizedContract => 12,
    }
}

impl SharedError {
    /// The stable numeric code of this error.
    pub fn code(&self) -> (c: u32)
        ensures
            c == error_code(*self),
    {
        match self {
            SharedError::AlreadyInitialized => 1,
            SharedError::NotInitialized => 2,
            SharedError::Unauthorized => 3,
            SharedError::NotFound => 4,
            SharedError::InvalidAmount => 5,
            SharedError::InvalidState => 6,
            SharedError::DuplicateEntry => 7,
            SharedError::UnsupportedOperation => 8,
            SharedError::Overflow => 9,
            SharedError::Underflow => 10,
            SharedError::ValidationError => 11,
            SharedError::UnauthorizedContract => 12,
        }
    }
}

/// Distinct errors have distinct codes, all between 1 and 12.
pub proof fn law_error_codes_distinct(a: SharedError, b: SharedError)
    ensures
        1 <= error_code(a) <= 12,
        a != b ==> error_code(a) != error_code(b),
{
}

} // verus!
