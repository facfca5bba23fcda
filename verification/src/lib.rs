//! Verified core of a Solana NFT minting program: an admin-controlled sale
//! configuration, allow-list membership by Merkle proofs, and the rules that
//! decide whether a mint goes ahead, at which price and with which metadata.
//! The surrounding program performs the token transfers and cross-program
//! invocations that these functions plan.

pub mod admin;
pub mod collection;
pub mod crypto;
pub mod errors;
pub mod laws;
pub mod merkle_proof;
pub mod metadata;
pub mod mint;
pub mod state;
