//! What holds of the operations, whatever the registry holds.
//!
//! Each law speaks of the rules and of the registry before and after an
//! attempt, in the terms in which the operations state what they do.

use vstd::prelude::*;
use crate::pallet::{after_create, after_revoke, after_transfer, claim_at, Claims};
use crate::rules::{create_rule, revoke_rule, transfer_rule};
use crate::types::{AccountId, BlockNumber, ClaimRecord, Error};

verus! {

/// A fingerprint is claimed once: after `a` has created a claim on it, an
/// attempt by any account `b` to create another is rejected with
/// `ProofAlreadyExists` and leaves the registry as it was, with `a` the owner
/// since the block of the first attempt.
pub proof fn law_claim_is_unique(
    claims: Claims,
    a: AccountId,
    b: AccountId,
    fingerprint: Seq<u8>,
    first: BlockNumber,
    second: BlockNumber,
)
    requires
        create_rule(claim_at(claims, fingerprint), a, first) is Ok,
    ensures
        ({
            let claimed = after_create(claims, a, fingerprint, first);
            &&& create_rule(claim_at(claimed, fingerprint), b, second) == Err::<ClaimRecord, Error>(
                Error::ProofAlreadyExists,
            )
            &&& after_create(claimed, b, fingerprint, second) == claimed
            &&& claim_at(claimed, fingerprint) == Some(ClaimRecord { owner: a, recorded_at: first })
        }),
{
}

/// Of an existing claim, the owner and nobody else may dispose: an attempt to
/// revoke or to transfer it is allowed if and only if the caller owns it.
pub proof fn law_owner_alone_disposes(
    record: ClaimRecord,
    caller: AccountId,
    new_owner: AccountId,
    now: BlockNumber,
)
    ensures
        revoke_rule(Some(record), caller) is Ok <==> caller == record.owner,
        transfer_rule(Some(record), caller, new_owner, now) is Ok <==> caller == record.owner,
{
}

/// Where `a` owns the claim on a fingerprint, an attempt by another account
/// `b` to revoke it is rejected with `NotClaimOwner` and leaves the registry
/// as it was, and an attempt by `a` is allowed and leaves the fingerprint
/// absent.
pub proof fn law_revoke_is_gated_by_ownership(
    claims: Claims,
    a: AccountId,
    b: AccountId,
    fingerprint: Seq<u8>,
)
    requires
        claim_at(claims, fingerprint) matches Some(record) && record.owner == a,
        b != a,
    ensures
        revoke_rule(claim_at(claims, fingerprint), b) == Err::<(), Error>(Error::NotClaimOwner),
        after_revoke(claims, b, fingerprint) == claims,
        revoke_rule(claim_at(claims, fingerprint), a) == Ok::<(), Error>(()),
        claim_at(after_revoke(claims, a, fingerprint), fingerprint) is None,
{
}

/// On an absent fingerprint, an attempt to revoke or to transfer is rejected
/// with `ClaimNotFound`, whoever makes it, and leaves the registry as it was.
pub proof fn law_absence_comes_before_ownership(
    claims: Claims,
    caller: AccountId,
    new_owner: AccountId,
    fingerprint: Seq<u8>,
    now: BlockNumber,
)
    requires
        claim_at(claims, fingerprint) is None,
    ensures
        revoke_rule(claim_at(claims, fingerprint), caller) == Err::<(), Error>(
            Error::ClaimNotFound,
        ),
        transfer_rule(claim_at(claims, fingerprint), caller, new_owner, now) == Err::<
            ClaimRecord,
            Error,
        >(Error::ClaimNotFound),
        after_revoke(claims, caller, fingerprint) == claims,
        after_transfer(claims, caller, new_owner, fingerprint, now) == claims,
{
}

/// A transfer replaces the record in place: after `a` has created a claim and
/// then transferred it to `b`, the registry holds for the fingerprint the
/// owner `b` and the block of the transfer, and every other fingerprint is as
/// it was before the transfer.
pub proof fn law_transfer_updates_in_place(
    claims: Claims,
    a: AccountId,
    b: AccountId,
    fingerprint: Seq<u8>,
    created_at: BlockNumber,
    transferred_at: BlockNumber,
)
    requires
        create_rule(claim_at(claims, fingerprint), a, created_at) is Ok,
    ensures
        ({
            let claimed = after_create(claims, a, fingerprint, created_at);
            let handed = after_transfer(claimed, a, b, fingerprint, transferred_at);
            &&& transfer_rule(claim_at(claimed, fingerprint), a, b, transferred_at) is Ok
            &&& claim_at(handed, fingerprint) == Some(
                ClaimRecord { owner: b, recorded_at: transferred_at },
            )
            &&& handed.dom() == claimed.dom()
            &&& forall|other: Seq<u8>|
                other != fingerprint ==> claim_at(handed, other) == claim_at(claimed, other)
        }),
{
    let claimed = after_create(claims, a, fingerprint, created_at);
    let handed = after_transfer(claimed, a, b, fingerprint, transferred_at);
    assert(handed.dom() =~= claimed.dom());
}

/// After `a` has created a claim and transferred it to another account `b`,
/// an attempt by `a` to revoke it is rejected with `NotClaimOwner`.
pub proof fn law_former_owner_cannot_revoke(
    claims: Claims,
    a: AccountId,
    b: AccountId,
    fingerprint: Seq<u8>,
    created_at: BlockNumber,
    transferred_at: BlockNumber,
)
    requires
        create_rule(claim_at(claims, fingerprint), a, created_at) is Ok,
        a != b,
    ensures
        ({
            let claimed = after_create(claims, a, fingerprint, created_at);
            let handed = after_transfer(claimed, a, b, fingerprint, transferred_at);
            revoke_rule(claim_at(handed, fingerprint), a) == Err::<(), Error>(Error::NotClaimOwner)
        }),
{
}

/// A revoked claim is gone: after `a` has revoked the claim on a fingerprint,
/// a second attempt to revoke it, by any account, is rejected with
/// `ClaimNotFound`.
pub proof fn law_revoked_claim_is_absent(
    claims: Claims,
    a: AccountId,
    caller: AccountId,
    fingerprint: Seq<u8>,
)
    requires
        revoke_rule(claim_at(claims, fingerprint), a) is Ok,
    ensures
        revoke_rule(claim_at(after_revoke(claims, a, fingerprint), fingerprint), caller) == Err::<
            (),
            Error,
        >(Error::ClaimNotFound),
{
}

/// An attempt on one fingerprint, allowed or rejected, leaves what the
/// registry holds for every other fingerprint as it was.
pub proof fn law_other_claims_are_untouched(
    claims: Claims,
    caller: AccountId,
    new_owner: AccountId,
    fingerprint: Seq<u8>,
    other: Seq<u8>,
    now: BlockNumber,
)
    requires
        other != fingerprint,
    ensures
        claim_at(after_create(claims, caller, fingerprint, now), other) == claim_at(claims, other),
        claim_at(after_revoke(claims, caller, fingerprint), other) == claim_at(claims, other),
        claim_at(after_transfer(claims, caller, new_owner, fingerprint, now), other) == claim_at(
            claims,
            other,
        ),
{
}

} // verus!
