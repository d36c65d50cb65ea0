//! Reusable authorization and precondition checks.
//!
//! Each primitive takes already-resolved state and returns pass or a
//! specific failure code; none has a side effect.

use crate::account::Participant;
use crate::error::GasPassError;
use crate::identity::Identity;
use crate::state::GasPassInfo;
use vstd::prelude::*;

verus! {

/// Fails with `MissingAuthorization` unless the caller cryptographically
/// authorized this invocation as `participant`.
pub fn require_signer(participant: &Participant) -> (r: Result<(), GasPassError>)
    ensures
        r is Ok <==> participant.is_signer,
        r is Err ==> r->Err_0 == GasPassError::MissingAuthorization,
{
    if participant.is_signer {
        Ok(())
    } else {
        Err(GasPassError::MissingAuthorization)
    }
}

/// Fails with `WrongOwner` unless the storage region's declared owner is
/// the invoking program itself.
pub fn require_owned_by(storage: &Participant, expected_owner: &Identity) -> (r: Result<
    (),
    GasPassError,
>)
    requires
        storage.wf(),
        expected_owner.wf(),
    ensures
        r is Ok <==> storage.owner@ == expected_owner@,
        r is Err ==> r->Err_0 == GasPassError::WrongOwner,
{
    if storage.owner.equals(expected_owner) {
        Ok(())
    } else {
        Err(GasPassError::WrongOwner)
    }
}

/// Fails with `InsufficientFunding` unless the storage region's native
/// balance reaches the externally supplied minimum balance for the record's
/// size.
pub fn require_rent_exempt(native_balance: u64, min_balance: u64) -> (r: Result<
    (),
    GasPassError,
>)
    ensures
        r is Ok <==> native_balance >= min_balance,
        r is Err ==> r->Err_0 == GasPassError::InsufficientFunding,
{
    if native_balance >= min_balance {
        Ok(())
    } else {
        Err(GasPassError::InsufficientFunding)
    }
}

/// Fails with `NotInitialized` unless the record has been initialized.
pub fn require_initialized(record: &GasPassInfo) -> (r: Result<(), GasPassError>)
    ensures
        r is Ok <==> record.is_initialized,
        r is Err ==> r->Err_0 == GasPassError::NotInitialized,
{
    if record.is_initialized {
        Ok(())
    } else {
        Err(GasPassError::NotInitialized)
    }
}

/// Fails with `AlreadyInitialized` unless the record is still
/// uninitialized.
pub fn require_uninitialized(record: &GasPassInfo) -> (r: Result<(), GasPassError>)
    ensures
        r is Ok <==> !record.is_initialized,
        r is Err ==> r->Err_0 == GasPassError::AlreadyInitialized,
{
    if record.is_initialized {
        Err(GasPassError::AlreadyInitialized)
    } else {
        Ok(())
    }
}

/// Fails with `AuthorityMismatch` unless `candidate` is the record's stored
/// authority.
pub fn require_authority_match(record: &GasPassInfo, candidate: &Identity) -> (r: Result<
    (),
    GasPassError,
>)
    requires
        record.wf(),
        candidate.wf(),
    ensures
        r is Ok <==> record.authority@ == candidate@,
        r is Err ==> r->Err_0 == GasPassError::AuthorityMismatch,
{
    if record.authority.equals(candidate) {
        Ok(())
    } else {
        Err(GasPassError::AuthorityMismatch)
    }
}

/// Fails with `InsufficientBalance` unless the record's balance covers
/// `amount`.
pub fn require_sufficient_balance(record: &GasPassInfo, amount: u64) -> (r: Result<
    (),
    GasPassError,
>)
    ensures
        r is Ok <==> record.balance >= amount,
        r is Err ==> r->Err_0 == GasPassError::InsufficientBalance,
{
    if record.balance >= amount {
        Ok(())
    } else {
        Err(GasPassError::InsufficientBalance)
    }
}

} // verus!
