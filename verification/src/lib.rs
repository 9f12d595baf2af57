//! Staking of non-fungible tokens.
//!
//! The owner of a token of a collection locks it into the custody of the
//! program and earns a reward for the time it stays there. This library
//! holds the rules: what is checked, what is charged and paid, which
//! records change and which nested calls are to be made. A program around
//! it reads the accounts and the clock, makes the calls and stores the
//! records.
//!
//! - `merkle_proof` decides whether a token with its rarity belongs to a
//!   collection; `merkle_tree` says what such a proof is worth.
//! - `authority` derives the addresses that only the program signs for.
//! - `state` holds the records and confirms the addresses declared for them.
//! - `metadata` reads a token's standard and its delegate's role.
//! - `custody` decides the nested calls that lock and release a token in
//!   each of the three ways; `custody_laws` says what the calls achieve.
//! - `rewards` computes rewards and fees.
//! - `lifecycle` stakes, claims and unstakes; `instructions` holds one
//!   operation per module; `program` keeps the index of the staked tokens
//!   and runs the operations on it; `laws` says what holds of them
//!   together.

pub mod authority;
pub mod bytes;
pub mod custody;
pub mod custody_laws;
pub mod errors;
pub mod hashing;
pub mod instructions;
pub mod laws;
pub mod lifecycle;
pub mod merkle_proof;
pub mod merkle_tree;
pub mod metadata;
pub mod program;
pub mod rewards;
pub mod state;
