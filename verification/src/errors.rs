//! The reasons for which an operation is rejected.

use vstd::prelude::*;

verus! {

/// Why an operation was rejected. Every rejection leaves all state as it was.
#[derive(Clone, Copy, Debug, PartialEq, Eq, Structural)]
pub enum StakingError {
    /// Staking was attempted before the registry's start time.
    TooEarly,
    /// The membership proof does not lead to the registry's root.
    InvalidProof,
    /// The fee could not be debited or credited.
    InvalidFee,
    /// The token's standard is not on record.
    CouldNotDetermineTokenStandard,
    /// An address is not the one its seeds and bump derive.
    InvalidDerivation,
    /// A rarity multiplier cap below the floor was supplied.
    InvalidMultiplier,
    /// The caller is not the party the operation is reserved for.
    Unauthorized,
    /// The token already has a stake record.
    AlreadyStaked,
    /// The token has no stake record.
    NotStaked,
    /// The reward vault holds less than is to be taken out of it.
    InsufficientFunds,
}

} // verus!
