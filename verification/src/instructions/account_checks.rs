//! The checks that an instruction makes of the accounts it is given, before it
//! does anything: that a transaction belongs to the multi-sig, is in the right
//! state and is current, and that the signer may act.

use vstd::prelude::*;
use crate::errors::Errors;
use crate::key::{Pubkey, keys_equal, keys_sorted};
use crate::state::multisig::{MultiSig, MultiSigView, outcome};
use crate::state::transaction::{Transaction, TransactionStatus, TransactionView};

verus! {

/// The first failure of two checks made one after the other.
pub open spec fn first_error(a: Option<Errors>, b: Option<Errors>) -> Option<Errors> {
    if a is Some {
        a
    } else {
        b
    }
}

/// Failure of the checks of a transaction account: it belongs to the multi-sig
/// at `ms_key`, it has status `required` (else `status_error`), and, when
/// `check_version` holds, it was made for the multi-sig's current version.
pub open spec fn transaction_error(
    tx: TransactionView,
    ms_key: Pubkey,
    ms_version: u32,
    required: TransactionStatus,
    status_error: Errors,
    check_version: bool,
) -> Option<Errors> {
    if tx.multi_sig != ms_key {
        Some(Errors::InvalidTransaction)
    } else if tx.status != required {
        Some(status_error)
    } else if check_version && tx.version != ms_version {
        Some(Errors::VersionOutdated)
    } else {
        None
    }
}

/// Failure of the check that the signer is an owner of stratum `owner_stratum`.
pub open spec fn owner_error(ms: MultiSigView, signer: Pubkey, owner_stratum: int) -> Option<Errors> {
    if !(ms.strata.len() > owner_stratum) {
        Some(Errors::InvalidStratumNumber)
    } else if !ms.strata[owner_stratum].owners.contains(signer) {
        Some(Errors::InvalidOwner)
    } else {
        None
    }
}

/// Failure of the check that `actual` is the expected address `expected`.
pub open spec fn address_error(actual: Pubkey, expected: Pubkey, err: Errors) -> Option<Errors> {
    if actual != expected {
        Some(err)
    } else {
        None
    }
}

/// Checks a transaction account against the multi-sig it should belong to.
pub fn check_transaction(
    tx: &Transaction,
    ms_key: &Pubkey,
    ms_version: u32,
    required: TransactionStatus,
    status_error: Errors,
    check_version: bool,
) -> (r: Result<(), Errors>)
    ensures
        r == outcome(
            transaction_error(tx@, *ms_key, ms_version, required, status_error, check_version),
        ),
{
    if !keys_equal(&tx.multi_sig, ms_key) {
        return Err(Errors::InvalidTransaction);
    }
    if !(tx.status == required) {
        return Err(status_error);
    }
    if check_version && tx.version != ms_version {
        return Err(Errors::VersionOutdated);
    }
    Ok(())
}

/// Checks that `signer` is an owner of stratum `owner_stratum`.
pub fn check_owner(ms: &MultiSig, signer: &Pubkey, owner_stratum: u8) -> (r: Result<(), Errors>)
    requires
        owner_stratum < ms.strata.len() ==> keys_sorted(ms@.strata[owner_stratum as int].owners),
    ensures
        r == outcome(owner_error(ms@, *signer, owner_stratum as int)),
{
    let s = owner_stratum as usize;
    if !(ms.strata.len() > s) {
        return Err(Errors::InvalidStratumNumber);
    }
    match ms.is_owner_stratum(*signer, s) {
        Some(_) => Ok(()),
        None => Err(Errors::InvalidOwner),
    }
}

/// Checks that `actual` is the address `expected`, else fails with `err`.
pub fn check_address(actual: &Pubkey, expected: &Pubkey, err: Errors) -> (r: Result<(), Errors>)
    ensures
        r == outcome(address_error(*actual, *expected, err)),
{
    if keys_equal(actual, expected) {
        Ok(())
    } else {
        Err(err)
    }
}

} // verus!
