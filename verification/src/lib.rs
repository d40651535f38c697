//! A proof-of-existence registry.
//!
//! A fingerprint is the hash of some data held elsewhere. The registry records
//! which account first claimed a fingerprint and at which block, and lets only
//! that account revoke the claim or hand it over to another account.

pub mod laws;
pub mod pallet;
pub mod proofs;
pub mod rules;
pub mod types;

pub use pallet::Pallet;
pub use proofs::Proofs;
pub use types::{AccountId, BlockNumber, ClaimRecord, Error, Event};
