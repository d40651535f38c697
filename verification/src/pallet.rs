//! The registry and its operations.

use vstd::prelude::*;
use crate::proofs::Proofs;
use crate::rules::{
    create_rule, decide_create, decide_revoke, decide_transfer, revoke_rule, transfer_rule,
};
use crate::types::{AccountId, BlockNumber, ClaimRecord, Error, Event};

verus! {

/// The registry as a mathematical object: a map from fingerprints to the
/// records of the claims that exist.
pub type Claims = Map<Seq<u8>, ClaimRecord>;

/// What the registry holds for a fingerprint: the record of the claim on it,
/// if one exists.
pub open spec fn claim_at(claims: Claims, fingerprint: Seq<u8>) -> Option<ClaimRecord> {
    if claims.contains_key(fingerprint) {
        Some(claims[fingerprint])
    } else {
        None
    }
}

/// The registry after `caller` has tried to create a claim on `fingerprint`
/// at block `now`: with the new record where the attempt is allowed, and as it
/// was where it is rejected.
pub open spec fn after_create(
    claims: Claims,
    caller: AccountId,
    fingerprint: Seq<u8>,
    now: BlockNumber,
) -> Claims {
    match create_rule(claim_at(claims, fingerprint), caller, now) {
        Ok(record) => claims.insert(fingerprint, record),
        Err(_) => claims,
    }
}

/// The registry after `caller` has tried to revoke the claim on
/// `fingerprint`: without the entry where the attempt is allowed, and as it was
/// where it is rejected.
pub open spec fn after_revoke(claims: Claims, caller: AccountId, fingerprint: Seq<u8>) -> Claims {
    match revoke_rule(claim_at(claims, fingerprint), caller) {
        Ok(()) => claims.remove(fingerprint),
        Err(_) => claims,
    }
}

/// The registry after `caller` has tried to transfer the claim on
/// `fingerprint` to `new_owner` at block `now`: with the record replaced where
/// the attempt is allowed, and as it was where it is rejected.
pub open spec fn after_transfer(
    claims: Claims,
    caller: AccountId,
    new_owner: AccountId,
    fingerprint: Seq<u8>,
    now: BlockNumber,
) -> Claims {
    match transfer_rule(claim_at(claims, fingerprint), caller, new_owner, now) {
        Ok(record) => claims.insert(fingerprint, record),
        Err(_) => claims,
    }
}

/// The claim registry: it owns the map from fingerprints to claim records,
/// and every change to that map goes through its three operations.
///
/// The caller's identity and the current block are handed to each operation by
/// the host, which has authenticated the one and counts the other.
pub struct Pallet {
    proofs: Proofs,
}

impl View for Pallet {
    type V = Claims;

    closed spec fn view(&self) -> Claims {
        self.proofs@
    }
}

impl Pallet {
    /// A registry without claims.
    pub fn new() -> (pallet: Pallet)
        ensures
            pallet@ == Map::<Seq<u8>, ClaimRecord>::empty(),
    {
        Pallet { proofs: Proofs::new() }
    }

    /// The record of the claim on `fingerprint`, if one exists.
    pub fn lookup(&self, fingerprint: &Vec<u8>) -> (record: Option<ClaimRecord>)
        ensures
            record == claim_at(self@, fingerprint@),
    {
        self.proofs.get(fingerprint)
    }

    /// Records that `caller` claims `fingerprint` at block `now`.
    ///
    /// Rejected with `ProofAlreadyExists` where a claim on the fingerprint
    /// exists; the registry is then left as it was.
    pub fn create_claim(&mut self, caller: AccountId, fingerprint: Vec<u8>, now: BlockNumber) -> (result:
        Result<Event, Error>)
        ensures
            final(self)@ == after_create(old(self)@, caller, fingerprint@, now),
            result == match create_rule(claim_at(old(self)@, fingerprint@), caller, now) {
                Ok(_) => Ok::<Event, Error>(Event::ClaimCreated(caller, fingerprint)),
                Err(e) => Err(e),
            },
    {
        match decide_create(self.proofs.get(&fingerprint), caller, now) {
            Ok(record) => {
                self.proofs.insert(&fingerprint, record);
                Ok(Event::ClaimCreated(caller, fingerprint))
            },
            Err(e) => Err(e),
        }
    }

    /// Removes the claim on `fingerprint` at the request of `caller`.
    ///
    /// Rejected with `ClaimNotFound` where no claim on the fingerprint exists,
    /// and with `NotClaimOwner` where one exists and `caller` does not own it;
    /// the registry is then left as it was.
    pub fn revoke_claim(&mut self, caller: AccountId, fingerprint: Vec<u8>) -> (result: Result<
        Event,
        Error,
    >)
        ensures
            final(self)@ == after_revoke(old(self)@, caller, fingerprint@),
            result == match revoke_rule(claim_at(old(self)@, fingerprint@), caller) {
                Ok(()) => Ok::<Event, Error>(Event::ClaimRevoked(caller, fingerprint)),
                Err(e) => Err(e),
            },
    {
        match decide_revoke(self.proofs.get(&fingerprint), caller) {
            Ok(()) => {
                self.proofs.remove(&fingerprint);
                Ok(Event::ClaimRevoked(caller, fingerprint))
            },
            Err(e) => Err(e),
        }
    }

    /// Hands the claim on `fingerprint` from `caller` to `new_owner` at block
    /// `now`. The entry stays in the registry throughout: its record is
    /// replaced in place.
    ///
    /// Rejected as `revoke_claim` is, with the registry left as it was.
    pub fn transfer_claim(
        &mut self,
        caller: AccountId,
        new_owner: AccountId,
        fingerprint: Vec<u8>,
        now: BlockNumber,
    ) -> (result: Result<Event, Error>)
        ensures
            final(self)@ == after_transfer(old(self)@, caller, new_owner, fingerprint@, now),
            result == match transfer_rule(
                claim_at(old(self)@, fingerprint@),
                caller,
                new_owner,
                now,
            ) {
                Ok(_) => Ok::<Event, Error>(Event::ClaimTransferred(caller, fingerprint, new_owner)),
                Err(e) => Err(e),
            },
    {
        match decide_transfer(self.proofs.get(&fingerprint), caller, new_owner, now) {
            Ok(record) => {
                self.proofs.insert(&fingerprint, record);
                Ok(Event::ClaimTransferred(caller, fingerprint, new_owner))
            },
            Err(e) => Err(e),
        }
    }
}

impl Default for Pallet {
    fn default() -> (pallet: Pallet)
        ensures
            pallet@ == Map::<Seq<u8>, ClaimRecord>::empty(),
    {
        Pallet::new()
    }
}

} // verus!
