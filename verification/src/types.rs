//! The values that the registry stores and returns.

use vstd::prelude::*;

verus! {

/// The identity of an account, as the host's origin check hands it over.
pub type AccountId = u64;

/// The height of a block: the ordinal at which a claim was recorded.
pub type BlockNumber = u64;

/// What the registry holds for one fingerprint.
#[derive(Clone, Copy, Debug, PartialEq, Eq, Structural)]
pub struct ClaimRecord {
    /// The account that controls the claim.
    pub owner: AccountId,
    /// The block at which the claim was created or last transferred.
    pub recorded_at: BlockNumber,
}

/// Why an operation was rejected.
#[derive(Clone, Copy, Debug, PartialEq, Eq, Structural)]
pub enum Error {
    /// A claim on the fingerprint exists already.
    ProofAlreadyExists,
    /// No claim on the fingerprint exists.
    ClaimNotFound,
    /// The caller does not own the claim.
    NotClaimOwner,
}

/// What the host is to announce after an operation has gone through.
#[derive(Clone, Debug, PartialEq, Eq)]
pub enum Event {
    /// A claim was created: the claiming account and the fingerprint.
    ClaimCreated(AccountId, Vec<u8>),
    /// A claim was revoked: the revoking account and the fingerprint.
    ClaimRevoked(AccountId, Vec<u8>),
    /// A claim changed hands: the former owner, the fingerprint and the new
    /// owner.
    ClaimTransferred(AccountId, Vec<u8>, AccountId),
}

} // verus!
