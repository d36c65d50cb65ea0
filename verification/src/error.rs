//! The closed set of failure codes surfaced to callers.

use vstd::prelude::*;

verus! {

/// Errors that an invocation of the processor may return.
///
/// Every validation failure aborts the invocation immediately with exactly
/// one of these codes and no partial state change.
#[derive(Clone, Copy, Debug, PartialEq, Eq, Structural)]
pub enum GasPassError {
    /// InitializeAccount was run on a record that is already initialized.
    AlreadyInitialized,
    /// An operation other than InitializeAccount found the record
    /// uninitialized.
    NotInitialized,
    /// The required signer did not authorize the invocation.
    MissingAuthorization,
    /// The target storage region is not owned by the invoking program.
    WrongOwner,
    /// The target storage region's native balance is below the
    /// rent-exemption threshold for the record's size.
    InsufficientFunding,
    /// The acting identity differs from the record's stored authority.
    AuthorityMismatch,
    /// The record's balance cannot cover the requested debit.
    InsufficientBalance,
    /// A balance mutation would overflow or underflow a native balance or
    /// the record's balance.
    AmountOverflow,
    /// The instruction payload or the stored record could not be decoded,
    /// or the participant list is shorter than the operation requires.
    MalformedInput,
}

impl GasPassError {
    /// The stable numeric code reported across the invocation boundary.
    pub open spec fn spec_code(&self) -> u32 {
        match self {
            GasPassError::AlreadyInitialized => 0,
            GasPassError::NotInitialized => 1,
            GasPassError::MissingAuthorization => 2,
            GasPassError::WrongOwner => 3,
            GasPassError::InsufficientFunding => 4,
            GasPassError::AuthorityMismatch => 5,
            GasPassError::InsufficientBalance => 6,
            GasPassError::AmountOverflow => 7,
            GasPassError::MalformedInput => 8,
        }
    }

    /// Maps the error to its stable numeric code.
    pub fn code(&self) -> (r: u32)
        ensures
            r == self.spec_code(),
    {
        match self {
            GasPassError::AlreadyInitialized => 0,
            GasPassError::NotInitialized => 1,
            GasPassError::MissingAuthorization => 2,
            GasPassError::WrongOwner => 3,
            GasPassError::InsufficientFunding => 4,
            GasPassError::AuthorityMismatch => 5,
            GasPassError::InsufficientBalance => 6,
            GasPassError::AmountOverflow => 7,
            GasPassError::MalformedInput => 8,
        }
    }
}

} // verus!
