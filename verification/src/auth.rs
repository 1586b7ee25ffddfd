//! Signer and ownership checks, independent of balance logic.

use vstd::prelude::*;

use crate::errors::DepositError;
use crate::identity::Identity;
use crate::state::AccountRecord;

verus! {

/// Fails with `MissingSignature` unless the account's key cryptographically
/// authorized the enclosing request.
pub fn require_signer(account: &AccountRecord) -> (r: Result<(), DepositError>)
    ensures
        r == (if account@.is_signer {
            Ok::<(), DepositError>(())
        } else {
            Err::<(), DepositError>(DepositError::MissingSignature)
        }),
{
    if account.is_signer {
        Ok(())
    } else {
        Err(DepositError::MissingSignature)
    }
}

/// Fails with `WrongOwner` unless the storage record is under the expected
/// program's control.
pub fn require_namespace(account: &AccountRecord, expected_namespace: &Identity) -> (r: Result<
    (),
    DepositError,
>)
    ensures
        r == (if account@.namespace == expected_namespace@ {
            Ok::<(), DepositError>(())
        } else {
            Err::<(), DepositError>(DepositError::WrongOwner)
        }),
{
    if account.namespace.matches(expected_namespace) {
        Ok(())
    } else {
        Err(DepositError::WrongOwner)
    }
}

/// Fails with `Unauthorized` unless the caller is the recorded owner; invoked
/// only for withdrawals.
pub fn require_caller_is_owner(owner: &Identity, caller: &Identity) -> (r: Result<
    (),
    DepositError,
>)
    ensures
        r == (if owner@ == caller@ {
            Ok::<(), DepositError>(())
        } else {
            Err::<(), DepositError>(DepositError::Unauthorized)
        }),
{
    if owner.matches(caller) {
        Ok(())
    } else {
        Err(DepositError::Unauthorized)
    }
}

} // verus!
