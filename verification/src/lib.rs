//! A verified model of a bounty escrow contract: funds are locked per bounty,
//! then released to contributors or refunded to depositors under admin control,
//! with pause switches, claims, capabilities, claim tickets and rate limits.
//!
//! The contract state lives in [`state::BountyEscrowContract`]; every entrypoint
//! is a method on it that returns an [`effects::Outcome`] describing the
//! authorizations it demands, the token transfers it performs and the events it
//! emits. A failed operation never changes the state.

pub mod asset;
pub mod types;
pub mod effects;
pub mod state;
pub mod anti_abuse;
pub mod lifecycle;
pub mod emergency;
pub mod claims;
pub mod capability;
pub mod delegated;
pub mod tickets;
pub mod batch;
pub mod simulate;
pub mod queries;
pub mod stats;
pub mod admin;
pub mod pause;
pub mod controls;
pub mod monitoring;
pub mod grainlify;
pub mod interfaces;
pub mod laws;
pub mod outcome_laws;
