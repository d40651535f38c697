//! The rules for one fingerprint.
//!
//! A fingerprint is either absent or claimed by an owner. A claim is created
//! from absence, revoked by its owner into absence, and transferred by its
//! owner to a new owner. Each rule takes what the registry holds for the
//! fingerprint and says what is to be written, or why the attempt is rejected.

use vstd::prelude::*;
use crate::types::{AccountId, BlockNumber, ClaimRecord, Error};

verus! {

/// Creating a claim: allowed where none exists, and then the record to store
/// names the caller as owner and the current block.
pub open spec fn create_rule(
    existing: Option<ClaimRecord>,
    caller: AccountId,
    now: BlockNumber,
) -> Result<ClaimRecord, Error> {
    match existing {
        None => Ok(ClaimRecord { owner: caller, recorded_at: now }),
        Some(_) => Err(Error::ProofAlreadyExists),
    }
}

/// Revoking a claim: allowed to the owner of an existing claim. Whether the
/// claim exists is asked before who owns it.
pub open spec fn revoke_rule(existing: Option<ClaimRecord>, caller: AccountId) -> Result<
    (),
    Error,
> {
    match existing {
        None => Err(Error::ClaimNotFound),
        Some(record) => if record.owner == caller {
            Ok(())
        } else {
            Err(Error::NotClaimOwner)
        },
    }
}

/// Transferring a claim: allowed to whom revoking is allowed, and then the
/// record to store names the new owner and the current block.
pub open spec fn transfer_rule(
    existing: Option<ClaimRecord>,
    caller: AccountId,
    new_owner: AccountId,
    now: BlockNumber,
) -> Result<ClaimRecord, Error> {
    match revoke_rule(existing, caller) {
        Ok(()) => Ok(ClaimRecord { owner: new_owner, recorded_at: now }),
        Err(e) => Err(e),
    }
}

/// Decides an attempt to create a claim on a fingerprint for which the
/// registry holds `existing`: the record to store, or the reason to reject.
pub fn decide_create(existing: Option<ClaimRecord>, caller: AccountId, now: BlockNumber) -> (verdict:
    Result<ClaimRecord, Error>)
    ensures
        verdict == create_rule(existing, caller, now),
{
    match existing {
        None => Ok(ClaimRecord { owner: caller, recorded_at: now }),
        Some(_) => Err(Error::ProofAlreadyExists),
    }
}

/// Decides an attempt to revoke the claim on a fingerprint for which the
/// registry holds `existing`: `Ok` where the entry is to be removed, or the
/// reason to reject.
pub fn decide_revoke(existing: Option<ClaimRecord>, caller: AccountId) -> (verdict: Result<
    (),
    Error,
>)
    ensures
        verdict == revoke_rule(existing, caller),
{
    match existing {
        None => Err(Error::ClaimNotFound),
        Some(record) => {
            if record.owner == caller {
                Ok(())
            } else {
                Err(Error::NotClaimOwner)
            }
        },
    }
}

/// Decides an attempt to transfer the claim on a fingerprint for which the
/// registry holds `existing`: the record to store in place of the existing
/// one, or the reason to reject.
pub fn decide_transfer(
    existing: Option<ClaimRecord>,
    caller: AccountId,
    new_owner: AccountId,
    now: BlockNumber,
) -> (verdict: Result<ClaimRecord, Error>)
    ensures
        verdict == transfer_rule(existing, caller, new_owner, now),
{
    match decide_revoke(existing, caller) {
        Ok(()) => Ok(ClaimRecord { owner: new_owner, recorded_at: now }),
        Err(e) => Err(e),
    }
}

} // verus!
