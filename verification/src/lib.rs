//! Verified core of a token settlement engine.
//!
//! A payment between a paying party (the *user*) and a receiving party (the
//! *LP*) is settled either directly or through a time-boxed escrow with a
//! dispute window and a platform fee. The surrounding ledger platform —
//! durable record storage, signer verification, the wall clock, and the
//! primitive that physically moves token value between balances — is the
//! engine's external collaborator: every operation here takes the caller's
//! authenticated identity and the current time as plain values, decides,
//! mutates the records it was handed, and returns the [`state::Transfer`]
//! requests the platform must perform atomically with the operation.
//!
//! Account and token identities are abstracted as plain 64-bit values; the
//! engine only ever compares them for equality.

pub mod engine;
pub mod laws;
pub mod ledger;
pub mod state;
